//! Searching from the front: the first index at which something holds, the
//! first place of a name in a list of names, and copies of such lists.

use vstd::prelude::*;

verus! {

/// The least index in `from..len` at which `holds`, if there is one.
pub open spec fn first_from(len: int, holds: spec_fn(int) -> bool, from: int) -> Option<int>
    decreases len - from,
{
    if from < 0 || from >= len {
        None
    } else if holds(from) {
        Some(from)
    } else {
        first_from(len, holds, from + 1)
    }
}

/// The least index in `0..len` at which `holds`, if there is one.
pub open spec fn first(len: int, holds: spec_fn(int) -> bool) -> Option<int> {
    first_from(len, holds, 0)
}

/// `first_from` finds the least index not below `from` at which `holds`, and
/// finds nothing exactly when there is none.
pub proof fn lemma_first_from(len: int, holds: spec_fn(int) -> bool, from: int)
    requires
        0 <= from,
    ensures
        match first_from(len, holds, from) {
            Some(i) => from <= i < len && holds(i) && forall|j: int| from <= j < i ==> !#[trigger] holds(j),
            None => forall|j: int| from <= j < len ==> !#[trigger] holds(j),
        },
    decreases len - from,
{
    if from < len && !holds(from) {
        lemma_first_from(len, holds, from + 1);
    }
}

/// `first` finds the least index at which `holds`, and finds nothing exactly
/// when there is none.
pub proof fn lemma_first(len: int, holds: spec_fn(int) -> bool)
    ensures
        match first(len, holds) {
            Some(i) => 0 <= i < len && holds(i) && forall|j: int| 0 <= j < i ==> !#[trigger] holds(j),
            None => forall|j: int| 0 <= j < len ==> !#[trigger] holds(j),
        },
{
    lemma_first_from(len, holds, 0);
}

/// An index at which `holds`, with no earlier one at which it does, is the first.
pub proof fn lemma_first_is(len: int, holds: spec_fn(int) -> bool, i: int)
    requires
        0 <= i < len,
        holds(i),
        forall|j: int| 0 <= j < i ==> !#[trigger] holds(j),
    ensures
        first(len, holds) == Some(i),
{
    lemma_first(len, holds);
}

/// Where nothing in `0..len` holds, `first` finds nothing.
pub proof fn lemma_first_none(len: int, holds: spec_fn(int) -> bool)
    requires
        forall|j: int| 0 <= j < len ==> !#[trigger] holds(j),
    ensures
        first(len, holds) is None,
{
    lemma_first(len, holds);
}

/// Two searches that agree on every index find the same.
pub proof fn lemma_first_agrees(len: int, holds: spec_fn(int) -> bool, other: spec_fn(int) -> bool)
    requires
        forall|j: int| 0 <= j < len ==> #[trigger] holds(j) == #[trigger] other(j),
    ensures
        first(len, holds) == first(len, other),
{
    lemma_first(len, holds);
    lemma_first(len, other);
    match (first(len, holds), first(len, other)) {
        (Some(i), Some(k)) => {
            assert(holds(i) == other(i));
            assert(holds(k) == other(k));
        },
        (Some(i), None) => {
            assert(holds(i) == other(i));
        },
        (None, Some(k)) => {
            assert(holds(k) == other(k));
        },
        (None, None) => {},
    }
}

/// Whether `names` holds `target` at a given index.
pub open spec fn holds_name(names: Seq<Seq<char>>, target: Seq<char>) -> spec_fn(int) -> bool {
    |i: int| names[i] == target
}

/// The first index at which `names` holds `target`, if it holds it at all.
pub open spec fn first_index(names: Seq<Seq<char>>, target: Seq<char>) -> Option<int> {
    first(names.len() as int, holds_name(names, target))
}

/// `first_index` finds the least index that holds the target, and finds
/// nothing exactly when the list does not contain it.
pub proof fn lemma_first_index(names: Seq<Seq<char>>, target: Seq<char>)
    ensures
        match first_index(names, target) {
            Some(i) => 0 <= i < names.len() && names[i] == target && forall|j: int|
                0 <= j < i ==> names[j] != target,
            None => !names.contains(target),
        },
{
    let holds = holds_name(names, target);
    lemma_first(names.len() as int, holds);
    match first(names.len() as int, holds) {
        Some(i) => {
            assert forall|j: int| 0 <= j < i implies names[j] != target by {
                assert(!holds(j));
            }
        },
        None => {
            assert forall|j: int| 0 <= j < names.len() implies names[j] != target by {
                assert(!holds(j));
            }
        },
    }
}

/// An index that holds the target with no earlier one that does is the first index.
pub proof fn lemma_first_index_is(names: Seq<Seq<char>>, target: Seq<char>, i: int)
    requires
        0 <= i < names.len(),
        names[i] == target,
        forall|j: int| 0 <= j < i ==> names[j] != target,
    ensures
        first_index(names, target) == Some(i),
{
    lemma_first_index(names, target);
}

/// Where `target` first occurs in `names`.
pub fn position(names: &Vec<String>, target: &String) -> (found: Option<usize>)
    ensures
        match found {
            Some(i) => first_index(names.deep_view(), target@) == Some(i as int),
            None => first_index(names.deep_view(), target@) is None,
        },
{
    let mut i: usize = 0;
    while i < names.len()
        invariant
            i <= names.len(),
            forall|j: int| 0 <= j < i ==> names.deep_view()[j] != target@,
        decreases names.len() - i,
    {
        if names[i] == *target {
            proof {
                lemma_first_index_is(names.deep_view(), target@, i as int);
            }
            return Some(i);
        }
        i += 1;
    }
    proof {
        lemma_first_index(names.deep_view(), target@);
    }
    None
}

/// Whether `names` holds `target`.
pub fn contains(names: &Vec<String>, target: &String) -> (found: bool)
    ensures
        found == names.deep_view().contains(target@),
{
    let at = position(names, target);
    proof {
        lemma_first_index(names.deep_view(), target@);
    }
    at.is_some()
}

/// A copy of a list of names.
pub fn clone_names(names: &Vec<String>) -> (copy: Vec<String>)
    ensures
        copy.deep_view() == names.deep_view(),
{
    let mut copy: Vec<String> = Vec::new();
    let mut i: usize = 0;
    while i < names.len()
        invariant
            i <= names.len(),
            copy.len() == i,
            forall|j: int| 0 <= j < i ==> copy[j]@ == names[j]@,
        decreases names.len() - i,
    {
        copy.push(names[i].clone());
        i += 1;
    }
    copy
}

/// A copy of a list of lists of names.
pub fn clone_name_lists(lists: &Vec<Vec<String>>) -> (copy: Vec<Vec<String>>)
    ensures
        copy.deep_view() == lists.deep_view(),
{
    let mut copy: Vec<Vec<String>> = Vec::new();
    let mut i: usize = 0;
    while i < lists.len()
        invariant
            i <= lists.len(),
            copy.len() == i,
            forall|j: int| 0 <= j < i ==> copy[j].deep_view() == lists[j].deep_view(),
        decreases lists.len() - i,
    {
        copy.push(clone_names(&lists[i]));
        i += 1;
    }
    copy
}

} // verus!
