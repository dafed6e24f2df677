//! The namespaces that a cluster lists, as candidates for selection.

use vstd::prelude::*;

verus! {

/// The names that are present in `listed`, in the order of the listing.
/// An object without a name contributes nothing.
pub open spec fn present_names(listed: Seq<Option<Seq<char>>>) -> Seq<Seq<char>>
    decreases listed.len(),
{
    if listed.len() == 0 {
        Seq::empty()
    } else {
        let before = present_names(listed.drop_last());
        match listed.last() {
            Some(name) => before.push(name),
            None => before,
        }
    }
}

/// A listing in which every object has a name yields exactly those names.
pub proof fn lemma_present_names_all_named(listed: Seq<Option<Seq<char>>>)
    requires
        forall|i: int| 0 <= i < listed.len() ==> listed[i] is Some,
    ensures
        present_names(listed).len() == listed.len(),
        forall|i: int| 0 <= i < listed.len() ==> present_names(listed)[i] == listed[i]->0,
    decreases listed.len(),
{
    if listed.len() > 0 {
        lemma_present_names_all_named(listed.drop_last());
    }
}

/// Every name that comes out was listed, and every listed name comes out.
pub proof fn lemma_present_names_contains(listed: Seq<Option<Seq<char>>>, name: Seq<char>)
    ensures
        present_names(listed).contains(name) <==> listed.contains(Some(name)),
    decreases listed.len(),
{
    if listed.len() == 0 {
    } else {
        let front = listed.drop_last();
        let before = present_names(front);
        lemma_present_names_contains(front, name);
        if present_names(listed).contains(name) {
            let i = choose|i: int|
                0 <= i < present_names(listed).len() && present_names(listed)[i] == name;
            if i < before.len() {
                assert(before[i] == name);
                assert(before.contains(name));
                let j = choose|j: int| 0 <= j < front.len() && front[j] == Some(name);
                assert(listed[j] == Some(name));
            } else {
                assert(listed[listed.len() - 1] == Some(name));
            }
        }
        if listed.contains(Some(name)) {
            let j = choose|j: int| 0 <= j < listed.len() && listed[j] == Some(name);
            if j < front.len() {
                assert(front[j] == Some(name));
                assert(front.contains(Some(name)));
                let i = choose|i: int| 0 <= i < before.len() && before[i] == name;
                assert(present_names(listed)[i] == name);
            } else {
                assert(present_names(listed)[before.len() as int] == name);
            }
        }
    }
}

/// Extracts the names of the listed namespace objects, dropping the objects
/// that have none and keeping the order of the rest.
pub fn namespace_names(listed: &Vec<Option<String>>) -> (names: Vec<String>)
    ensures
        names.deep_view() == present_names(listed.deep_view()),
{
    let ghost all = listed.deep_view();
    let mut names: Vec<String> = Vec::new();
    let mut i: usize = 0;
    assert(all.take(0) =~= Seq::empty());
    while i < listed.len()
        invariant
            0 <= i <= listed.len(),
            all == listed.deep_view(),
            names.deep_view() == present_names(all.take(i as int)),
        decreases listed.len() - i,
    {
        let ghost before = names.deep_view();
        match &listed[i] {
            Some(name) => {
                names.push(name.clone());
                assert(names.deep_view() =~= before.push(name@));
            },
            None => {},
        }
        proof {
            let upto = all.take(i + 1);
            assert(upto.drop_last() =~= all.take(i as int));
            assert(upto.last() == listed@[i as int].deep_view());
        }
        i = i + 1;
    }
    assert(all.take(listed.len() as int) =~= all);
    names
}

} // verus!
