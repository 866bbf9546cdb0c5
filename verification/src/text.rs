//! Small helpers for owned strings and their views.

use vstd::prelude::*;

verus! {

/// The views of a run of strings, in order.
pub open spec fn views_of(strings: Seq<String>) -> Seq<Seq<char>> {
    Seq::new(strings.len(), |i: int| strings[i]@)
}

/// A copy of every string of `strings`, in order.
pub fn copy_strings(strings: &Vec<String>) -> (copy: Vec<String>)
    ensures
        views_of(copy@) == views_of(strings@),
{
    let mut copy: Vec<String> = Vec::new();
    let mut i: usize = 0;
    while i < strings.len()
        invariant
            i <= strings.len(),
            copy.len() == i,
            forall|k: int| 0 <= k < i ==> copy[k]@ == strings[k]@,
        decreases strings.len() - i,
    {
        copy.push(strings[i].clone());
        i += 1;
    }
    assert(views_of(copy@) =~= views_of(strings@));
    copy
}

} // verus!
