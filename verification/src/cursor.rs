//! Where the cursor of a picker starts.

use vstd::prelude::*;

verus! {

/// `i` is the first position of `names` that holds `current`.
pub open spec fn is_first_match(names: Seq<Seq<char>>, current: Seq<char>, i: int) -> bool {
    &&& 0 <= i < names.len()
    &&& names[i] == current
    &&& forall|j: int| 0 <= j < i ==> names[j] != current
}

/// The position a picker over `names` starts on: the first position that
/// holds `current`, or the top of the list when `current` is not listed.
pub open spec fn preselected(names: Seq<Seq<char>>, current: Seq<char>) -> int {
    if exists|i: int| is_first_match(names, current, i) {
        choose|i: int| is_first_match(names, current, i)
    } else {
        0
    }
}

/// A first match, where there is one, is the preselected position.
pub proof fn lemma_preselected_is_first_match(names: Seq<Seq<char>>, current: Seq<char>, i: int)
    requires
        is_first_match(names, current, i),
    ensures
        preselected(names, current) == i,
{
    let k = choose|k: int| is_first_match(names, current, k);
    assert(is_first_match(names, current, k));
    if k < i {
        assert(names[k] != current);
    } else if i < k {
        assert(names[i] != current);
    }
}

/// Without a match the picker starts at the top.
pub proof fn lemma_preselected_without_match(names: Seq<Seq<char>>, current: Seq<char>)
    requires
        forall|j: int| 0 <= j < names.len() ==> names[j] != current,
    ensures
        preselected(names, current) == 0,
{
}

/// The preselected position lies inside every list that has an entry, and is
/// the top of the list otherwise.
pub proof fn lemma_preselected_in_range(names: Seq<Seq<char>>, current: Seq<char>)
    ensures
        0 <= preselected(names, current),
        names.len() > 0 ==> preselected(names, current) < names.len(),
        names.len() == 0 ==> preselected(names, current) == 0,
{
    if exists|i: int| is_first_match(names, current, i) {
        let k = choose|k: int| is_first_match(names, current, k);
        assert(is_first_match(names, current, k));
    }
}

/// Computes the position the cursor starts on when `names` is shown and
/// `current` is the active value.
pub fn preselected_index(names: &Vec<String>, current: &String) -> (index: usize)
    ensures
        index as int == preselected(names.deep_view(), current@),
        names.deep_view().contains(current@) ==> is_first_match(
            names.deep_view(),
            current@,
            index as int,
        ),
        !names.deep_view().contains(current@) ==> index == 0,
{
    let ghost listed = names.deep_view();
    let mut i: usize = 0;
    while i < names.len()
        invariant
            0 <= i <= names.len(),
            listed == names.deep_view(),
            forall|j: int| 0 <= j < i ==> listed[j] != current@,
        decreases names.len() - i,
    {
        if names[i] == *current {
            proof {
                assert(listed[i as int] == names@[i as int]@);
                assert(is_first_match(listed, current@, i as int));
                lemma_preselected_is_first_match(listed, current@, i as int);
            }
            return i;
        }
        assert(listed[i as int] == names@[i as int]@);
        i = i + 1;
    }
    proof {
        lemma_preselected_without_match(listed, current@);
    }
    0
}

} // verus!
