use std::collections::hash_map::DefaultHasher;
use std::hash::{Hash, Hasher};

use family_tree::person::{Address, Gender, MaritalStatus, Person, PersonInfo};

fn std_hash(text: &str) -> u64 {
    let mut hasher = DefaultHasher::new();
    text.hash(&mut hasher);
    hasher.finish()
}

#[test]
fn generate_id_is_deterministic() {
    let first = PersonInfo::generate_id("John", "Doe", "1990-01-01");
    let second = PersonInfo::generate_id("John", "Doe", "1990-01-01");
    assert_eq!(first, second);
}

#[test]
fn generate_id_hashes_the_three_texts_in_a_row() {
    assert_eq!(
        PersonInfo::generate_id("John", "Doe", "1990-01-01"),
        std_hash("JohnDoe1990-01-01")
    );
    assert_eq!(PersonInfo::generate_id("", "", ""), std_hash(""));
    assert_ne!(PersonInfo::generate_id("John", "Doe", "1990-01-01"), 0);
}

#[test]
fn generate_id_sees_only_the_concatenation() {
    assert_eq!(
        PersonInfo::generate_id("Jo", "hnDoe", "1"),
        PersonInfo::generate_id("John", "Doe", "1")
    );
    assert_ne!(
        PersonInfo::generate_id("John", "Doe", "1990-01-01"),
        PersonInfo::generate_id("Jane", "Doe", "1990-01-01")
    );
}

#[test]
fn person_info_takes_first_name_first() {
    let info = PersonInfo::new("John", "Doe", "1990-01-01", Gender::Male);
    assert_eq!(info.get_id(), std_hash("JohnDoe1990-01-01"));
}

#[test]
fn default_person_is_single_and_parentless() {
    let p = Person::default("Doe", "John", "1990-01-01", Gender::Male);
    assert_eq!(p.get_id(), std_hash("JohnDoe1990-01-01"));
    assert_eq!(p.get_lastname(), "Doe");
    assert_eq!(p.get_firstname(), "John");
    assert_eq!(p.get_birthday(), "1990-01-01");
    assert_eq!(p.get_gender(), Gender::Male);
    assert_eq!(p.get_marital_status(), MaritalStatus::Single);
    assert_eq!(p.get_address(), Address::new());
    assert_eq!(p.mother_id(), None);
    assert_eq!(p.father_id(), None);
    assert!(!p.has_parent());
    assert!(!p.has_mother());
    assert!(!p.has_father());
}

#[test]
fn new_person_takes_what_is_given() {
    let address = Address {
        street: "1 Main St".to_string(),
        city: "Springfield".to_string(),
        state: "IL".to_string(),
        country: "USA".to_string(),
        postal_code: "62701".to_string(),
    };
    let p = Person::new(
        "Doe",
        "Jane",
        "1992-03-05",
        Gender::Female,
        Some(address.clone()),
        Some(MaritalStatus::Married(17)),
        Some(3),
        Some(4),
    );
    assert_eq!(p.get_id(), std_hash("JaneDoe1992-03-05"));
    assert_eq!(p.get_gender(), Gender::Female);
    assert_eq!(p.get_address(), address);
    assert_eq!(p.get_marital_status(), MaritalStatus::Married(17));
    assert_eq!(p.mother_id(), Some(3));
    assert_eq!(p.father_id(), Some(4));
    assert!(p.has_parent());
    assert!(p.has_mother());
    assert!(p.has_father());
}

#[test]
fn new_person_fills_in_what_is_missing() {
    let p = Person::new("Doe", "Jane", "1992-03-05", Gender::Female, None, None, None, None);
    assert_eq!(p, Person::default("Doe", "Jane", "1992-03-05", Gender::Female));
}

#[test]
fn one_parent_is_a_parent() {
    let with_mother =
        Person::new("Doe", "Kid", "2000", Gender::Male, None, None, Some(1), None);
    assert!(with_mother.has_parent());
    assert!(with_mother.has_mother());
    assert!(!with_mother.has_father());
    let with_father =
        Person::new("Doe", "Kid", "2000", Gender::Male, None, None, None, Some(2));
    assert!(with_father.has_parent());
    assert!(!with_father.has_mother());
    assert!(with_father.has_father());
}

#[test]
fn setters_change_one_field_each() {
    let mut p = Person::default("Doe", "John", "1990-01-01", Gender::Male);
    let before = p.clone();
    p.set_marital_status(MaritalStatus::Widowed(5));
    assert_eq!(p.get_marital_status(), MaritalStatus::Widowed(5));
    assert_eq!(p.get_id(), before.get_id());
    assert_eq!(p.mother_id(), None);
    p.set_mother(11);
    assert_eq!(p.mother_id(), Some(11));
    assert_eq!(p.father_id(), None);
    p.set_father(12);
    assert_eq!(p.father_id(), Some(12));
    assert_eq!(p.mother_id(), Some(11));
    let mut address = Address::new();
    address.city = "Paris".to_string();
    p.set_address(address.clone());
    assert_eq!(p.get_address(), address);
    assert_eq!(p.get_marital_status(), MaritalStatus::Widowed(5));
    assert_eq!(p.get_firstname(), "John");
}

#[test]
fn ancestor_is_the_named_placeholder() {
    let a = Person::ancestor();
    assert_eq!(a.get_lastname(), "Ancestor");
    assert_eq!(a.get_firstname(), "");
    assert_eq!(a.get_birthday(), "");
    assert_eq!(a.get_id(), std_hash("Ancestor"));
    assert_eq!(a.get_marital_status(), MaritalStatus::Single);
    assert_eq!(a.get_address(), Address::new());
    assert!(!a.has_parent());
}

#[test]
fn address_new_is_empty() {
    let a = Address::new();
    assert_eq!(a.street, "");
    assert_eq!(a.city, "");
    assert_eq!(a.state, "");
    assert_eq!(a.country, "");
    assert_eq!(a.postal_code, "");
    assert_eq!(Address::default(), a);
}

#[test]
fn gender_colors_and_shapes() {
    assert_eq!(Gender::Female.get_color(), "red");
    assert_eq!(Gender::Male.get_color(), "blue");
    assert_eq!(Gender::Female.get_shape(), "red");
    assert_eq!(Gender::Male.get_shape(), "blue");
}

#[test]
fn marital_status_colors_and_shapes() {
    assert_eq!(MaritalStatus::Married(1).get_shape(), "diamond");
    assert_eq!(MaritalStatus::Divorced(1).get_shape(), "ellipse");
    assert_eq!(MaritalStatus::Widowed(1).get_shape(), "triangle");
    assert_eq!(MaritalStatus::Single.get_shape(), "record");
    assert_eq!(MaritalStatus::Married(1).get_color(), "green");
    assert_eq!(MaritalStatus::Divorced(1).get_color(), "magenta");
    assert_eq!(MaritalStatus::Widowed(1).get_color(), "purple");
    assert_eq!(MaritalStatus::Single.get_color(), "orange");
}

#[test]
fn marital_status_names_its_partner() {
    assert_eq!(MaritalStatus::Single.get_partner(), None);
    assert_eq!(MaritalStatus::Married(3).get_partner(), Some(3));
    assert_eq!(MaritalStatus::Divorced(4).get_partner(), Some(4));
    assert_eq!(MaritalStatus::Widowed(5).get_partner(), Some(5));
}
