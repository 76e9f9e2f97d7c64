//! Small helpers shared by the registry and the exporters.

use std::path::Path;
use vstd::prelude::*;
use vstd::std_specs::cmp::PartialEqSpec;
use vstd::string::*;

use crate::text::{append_decimal, decimal_text};

verus! {

/// Whether the executable `==` of `T` decides mathematical equality.
pub open spec fn eq_is_identity<T: PartialEq>() -> bool {
    &&& T::obeys_eq_spec()
    &&& forall|a: T, b: T| #[trigger] a.eq_spec(&b) <==> a == b
}

/// `acc` followed by those of `items` that occur neither in `acc` nor
/// earlier in `items`, in the order of `items`.
pub open spec fn append_unique<T>(acc: Seq<T>, items: Seq<T>) -> Seq<T>
    decreases items.len(),
{
    if items.len() == 0 {
        acc
    } else {
        let front = append_unique(acc, items.drop_last());
        if front.contains(items.last()) {
            front
        } else {
            front.push(items.last())
        }
    }
}

/// The items of `a` and then of `b`, each kept where it occurs first.
pub open spec fn merged_unique<T>(a: Seq<T>, b: Seq<T>) -> Seq<T> {
    append_unique(append_unique(Seq::empty(), a), b)
}

/// `append_unique` keeps `acc` as a prefix, adds items of `items` only, and
/// leaves out none of them.
pub proof fn lemma_append_unique_members<T>(acc: Seq<T>, items: Seq<T>)
    ensures
        acc.len() <= append_unique(acc, items).len() <= acc.len() + items.len(),
        append_unique(acc, items).subrange(0, acc.len() as int) == acc,
        forall|x: T|
            append_unique(acc, items).contains(x) <==> (acc.contains(x) || items.contains(x)),
    decreases items.len(),
{
    let out = append_unique(acc, items);
    if items.len() == 0 {
        assert(out.subrange(0, acc.len() as int) =~= acc);
    } else {
        let init = items.drop_last();
        let last = items.last();
        let front = append_unique(acc, init);
        lemma_append_unique_members(acc, init);
        assert(out.subrange(0, acc.len() as int) =~= front.subrange(0, acc.len() as int));
        assert forall|x: T| out.contains(x) <==> (acc.contains(x) || items.contains(x)) by {
            if out.contains(x) {
                if front.contains(x) {
                    if init.contains(x) {
                        let i = choose|i: int| 0 <= i < init.len() && init[i] == x;
                        assert(items[i] == x);
                    }
                } else {
                    let i = choose|i: int| 0 <= i < out.len() && out[i] == x;
                    if i < front.len() {
                        assert(front[i] == x);
                    }
                    assert(x == last);
                    assert(items[items.len() - 1] == x);
                }
            }
            if acc.contains(x) {
                let i = choose|i: int| 0 <= i < front.len() && front[i] == x;
                assert(out[i] == x);
            }
            if items.contains(x) {
                let i = choose|i: int| 0 <= i < items.len() && items[i] == x;
                if i < init.len() {
                    assert(init[i] == x);
                    let k = choose|k: int| 0 <= k < front.len() && front[k] == x;
                    assert(out[k] == x);
                } else {
                    assert(x == last);
                    if front.contains(last) {
                    } else {
                        assert(out[out.len() - 1] == x);
                    }
                }
            }
        }
    }
}

/// `append_unique` adds no item twice: if `acc` is free of duplicates, so is
/// the result.
pub proof fn lemma_append_unique_no_duplicates<T>(acc: Seq<T>, items: Seq<T>)
    requires
        acc.no_duplicates(),
    ensures
        append_unique(acc, items).no_duplicates(),
    decreases items.len(),
{
    if items.len() > 0 {
        lemma_append_unique_no_duplicates(acc, items.drop_last());
    }
}

/// Merging two lists keeps every item of either list exactly once.
pub proof fn lemma_merged_unique<T>(a: Seq<T>, b: Seq<T>)
    ensures
        merged_unique(a, b).no_duplicates(),
        forall|x: T| merged_unique(a, b).contains(x) <==> (a.contains(x) || b.contains(x)),
{
    let first = append_unique(Seq::<T>::empty(), a);
    lemma_append_unique_no_duplicates(Seq::<T>::empty(), a);
    lemma_append_unique_no_duplicates(first, b);
    lemma_append_unique_members(Seq::<T>::empty(), a);
    lemma_append_unique_members(first, b);
}

/// Whether `items` holds an item equal to `item`.
pub fn contains_item<T: PartialEq>(items: &Vec<T>, item: &T) -> (found: bool)
    requires
        eq_is_identity::<T>(),
    ensures
        found == items@.contains(*item),
{
    let mut i: usize = 0;
    while i < items.len()
        invariant
            eq_is_identity::<T>(),
            0 <= i <= items@.len(),
            forall|j: int| 0 <= j < i ==> items@[j] != *item,
        decreases items@.len() - i,
    {
        if items[i] == *item {
            return true;
        }
        i += 1;
    }
    false
}

/// Pushes onto `result` the items of `items` that it does not hold yet.
fn extend_unique<T: PartialEq + Copy>(result: &mut Vec<T>, items: &Vec<T>)
    requires
        eq_is_identity::<T>(),
    ensures
        final(result)@ == append_unique(old(result)@, items@),
{
    let mut i: usize = 0;
    while i < items.len()
        invariant
            eq_is_identity::<T>(),
            0 <= i <= items@.len(),
            result@ == append_unique(old(result)@, items@.take(i as int)),
        decreases items@.len() - i,
    {
        proof {
            assert(items@.take(i + 1).drop_last() =~= items@.take(i as int));
        }
        if !contains_item(result, &items[i]) {
            result.push(items[i]);
        }
        i += 1;
    }
    proof {
        assert(items@.take(i as int) =~= items@);
    }
}

/// The items of `a` followed by the items of `b`, without repetitions: of
/// equal items only the first stays, and the order of first occurrence is
/// kept.
pub fn remove_duplicated<T: PartialEq + Copy>(a: &Vec<T>, b: &Vec<T>) -> (result: Vec<T>)
    requires
        eq_is_identity::<T>(),
    ensures
        result@ == merged_unique(a@, b@),
        result@.no_duplicates(),
        forall|x: T| result@.contains(x) <==> (a@.contains(x) || b@.contains(x)),
{
    let mut result: Vec<T> = Vec::new();
    extend_unique(&mut result, a);
    extend_unique(&mut result, b);
    proof {
        lemma_merged_unique(a@, b@);
    }
    result
}

/// The text that joins two ids: `a`, an underscore, `b` if `condition`
/// holds, else `b`, an underscore, `a`.
pub open spec fn joined_ids(condition: bool, a: u64, b: u64) -> Seq<char> {
    if condition {
        decimal_text(a as nat) + "_"@ + decimal_text(b as nat)
    } else {
        decimal_text(b as nat) + "_"@ + decimal_text(a as nat)
    }
}

/// Two ids in decimal with an underscore between them; `condition` chooses
/// which of the two comes first.
pub fn concat_id(condition: bool, a: u64, b: u64) -> (text: String)
    ensures
        text@ == joined_ids(condition, a, b),
{
    let mut text = String::new();
    if condition {
        append_decimal(&mut text, a);
        text.append("_");
        append_decimal(&mut text, b);
    } else {
        append_decimal(&mut text, b);
        text.append("_");
        append_decimal(&mut text, a);
    }
    assert(text@ =~= joined_ids(condition, a, b));
    text
}

/// `a` if `condition` holds, else `b`.
pub fn ternary<T: core::fmt::Debug>(condition: bool, a: T, b: T) -> (chosen: T)
    ensures
        chosen == (if condition {
            a
        } else {
            b
        }),
{
    if condition {
        a
    } else {
        b
    }
}

/// Whether `text` holds a dot, and right behind it the whole of `ext`.
pub open spec fn follows_a_dot(text: Seq<char>, ext: Seq<char>) -> bool {
    exists|i: int|
        0 < i && i + ext.len() <= text.len() && text[i - 1] == '.' && #[trigger] text.subrange(
            i,
            i + ext.len(),
        ) == ext
}

/// `Path::extension` on the path written in `filename`. What counts as the
/// file name is the platform's matter, so only this is claimed: an extension
/// that is found holds no dot and stands in `filename` right behind a dot.
#[verifier::external_body]
pub fn get_extension(filename: &str) -> (extension: Option<&str>)
    ensures
        extension matches Some(ext) ==> !ext@.contains('.') && follows_a_dot(filename@, ext@),
{
    Path::new(filename).extension().and_then(|ext| ext.to_str())
}

} // verus!
