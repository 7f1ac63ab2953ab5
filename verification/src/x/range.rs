//! Helpers on half-open ranges.

use std::ops::Range;
use vstd::prelude::*;
use vstd::std_specs::ops::AddSpec;
use vstd::std_specs::ops::SubSpec;

verus! {

/// Whether both bounds of `other` are members of `r`.
pub fn inside(r: Range<usize>, other: &Range<usize>) -> (b: bool)
    ensures
        b == (r.start <= other.start < r.end && r.start <= other.end < r.end),
{
    r.start <= other.start && other.start < r.end && r.start <= other.end && other.end < r.end
}

/// The range moved up by `offset`.
pub fn add<T: std::ops::Add + Copy>(r: Range<T>, offset: T) -> (moved: Range<T::Output>)
    requires
        r.start.add_req(offset),
        r.end.add_req(offset),
    ensures
        T::obeys_add_spec() ==> moved.start == r.start.add_spec(offset) && moved.end
            == r.end.add_spec(offset),
{
    (r.start + offset)..(r.end + offset)
}

/// The range moved down by `offset`.
pub fn sub<T: std::ops::Sub + Copy>(r: Range<T>, offset: T) -> (moved: Range<T::Output>)
    requires
        r.start.sub_req(offset),
        r.end.sub_req(offset),
    ensures
        T::obeys_sub_spec() ==> moved.start == r.start.sub_spec(offset) && moved.end
            == r.end.sub_spec(offset),
{
    (r.start - offset)..(r.end - offset)
}

/// On ranges of machine words, moving is integer arithmetic on both bounds,
/// defined where neither bound leaves the machine word.
pub proof fn lemma_moved_words(r: Range<usize>, offset: usize)
    ensures
        r.start.add_req(offset) <==> r.start + offset <= usize::MAX,
        r.start.add_req(offset) ==> r.start.add_spec(offset) == r.start + offset,
        r.start.sub_req(offset) <==> r.start >= offset,
        r.start.sub_req(offset) ==> r.start.sub_spec(offset) == r.start - offset,
{
}

} // verus!
