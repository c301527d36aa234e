//! The largest item of a list, for numbers and for characters.

use vstd::prelude::*;

verus! {

/// The largest number of a non-empty list.
pub fn largest_i32(list: &[i32]) -> (r: &i32)
    requires
        list@.len() > 0,
    ensures
        list@.contains(*r),
        forall|i: int| 0 <= i < list@.len() ==> list@[i] <= *r,
{
    let mut best: usize = 0;
    let mut i: usize = 1;
    while i < list.len()
        invariant
            1 <= i <= list@.len(),
            best < i,
            forall|j: int| 0 <= j < i ==> list@[j] <= list@[best as int],
        decreases list.len() - i,
    {
        if list[i] > list[best] {
            best = i;
        }
        i += 1;
    }
    assert(list@.contains(list@[best as int]));
    &list[best]
}

/// The largest character of a non-empty list, by code point.
pub fn largest_char(list: &[char]) -> (r: &char)
    requires
        list@.len() > 0,
    ensures
        list@.contains(*r),
        forall|i: int| 0 <= i < list@.len() ==> list@[i] <= *r,
{
    let mut best: usize = 0;
    let mut i: usize = 1;
    while i < list.len()
        invariant
            1 <= i <= list@.len(),
            best < i,
            forall|j: int| 0 <= j < i ==> list@[j] <= list@[best as int],
        decreases list.len() - i,
    {
        if list[i] > list[best] {
            best = i;
        }
        i += 1;
    }
    assert(list@.contains(list@[best as int]));
    &list[best]
}

} // verus!
