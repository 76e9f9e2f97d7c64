use family_tree::utils::{concat_id, contains_item, get_extension, remove_duplicated, ternary};

#[test]
fn remove_duplicated_keeps_first_occurrences_in_order() {
    let a: Vec<u64> = vec![3, 1, 3, 2];
    let b: Vec<u64> = vec![2, 5, 1, 4, 5];
    assert_eq!(remove_duplicated(&a, &b), vec![3, 1, 2, 5, 4]);
}

#[test]
fn remove_duplicated_of_empty_lists_is_empty() {
    let a: Vec<u64> = vec![];
    let b: Vec<u64> = vec![];
    assert_eq!(remove_duplicated(&a, &b), Vec::<u64>::new());
}

#[test]
fn remove_duplicated_with_one_empty_side() {
    let a: Vec<u64> = vec![7, 7, 8];
    let b: Vec<u64> = vec![];
    assert_eq!(remove_duplicated(&a, &b), vec![7, 8]);
    assert_eq!(remove_duplicated(&b, &a), vec![7, 8]);
}

#[test]
fn remove_duplicated_puts_the_first_list_first() {
    let a: Vec<u64> = vec![9];
    let b: Vec<u64> = vec![1, 9];
    assert_eq!(remove_duplicated(&a, &b), vec![9, 1]);
    assert_eq!(remove_duplicated(&b, &a), vec![1, 9]);
}

#[test]
fn remove_duplicated_result_has_no_item_twice() {
    let a: Vec<u8> = vec![1, 2, 1, 2, 3, 3];
    let b: Vec<u8> = vec![3, 2, 1, 0];
    let merged = remove_duplicated(&a, &b);
    for i in 0..merged.len() {
        for j in 0..merged.len() {
            if i != j {
                assert_ne!(merged[i], merged[j]);
            }
        }
    }
    for x in a.iter().chain(b.iter()) {
        assert!(merged.contains(x));
    }
    assert_eq!(merged.len(), 4);
}

#[test]
fn contains_item_finds_what_is_there() {
    let items: Vec<u64> = vec![4, 5, 6];
    assert!(contains_item(&items, &4));
    assert!(contains_item(&items, &6));
    assert!(!contains_item(&items, &7));
    assert!(!contains_item(&Vec::<u64>::new(), &7));
}

#[test]
fn concat_id_orders_by_the_condition() {
    assert_eq!(concat_id(true, 1, 2), "1_2");
    assert_eq!(concat_id(false, 1, 2), "2_1");
    assert_eq!(concat_id(true, 0, u64::MAX), "0_18446744073709551615");
    assert_eq!(concat_id(false, 5, 5), "5_5");
}

#[test]
fn ternary_picks_by_the_condition() {
    assert_eq!(ternary(true, 1, 2), 1);
    assert_eq!(ternary(false, 1, 2), 2);
    assert_eq!(ternary(true, "a", "b"), "a");
    assert_eq!(ternary(false, vec![1], vec![2, 3]), vec![2, 3]);
}

#[test]
fn get_extension_finds_the_part_after_the_last_dot() {
    assert_eq!(get_extension("output/tree.dot"), Some("dot"));
    assert_eq!(get_extension("tree.tar.gz"), Some("gz"));
    assert_eq!(get_extension("TREE.PNG"), Some("PNG"));
}

#[test]
fn get_extension_of_a_name_without_extension_is_none() {
    assert_eq!(get_extension("tree"), None);
    assert_eq!(get_extension(""), None);
    assert_eq!(get_extension(".hidden"), None);
    assert_eq!(get_extension("out.put/tree"), None);
}
