//! Functions whose results borrow from their arguments.

use vstd::prelude::*;
use vstd::string::StringSliceAdditionalSpecFns;

verus! {

/// The longer of two strings by length in bytes; the second on a tie.
pub fn longest<'a>(x: &'a str, y: &'a str) -> (r: &'a str)
    ensures
        r@ == (if x.spec_bytes().len() > y.spec_bytes().len() {
            x@
        } else {
            y@
        }),
{
    if x.as_bytes().len() > y.as_bytes().len() {
        x
    } else {
        y
    }
}

/// Whether `x` is longer than `y` in bytes; the two borrows are unrelated.
pub fn compare(x: &str, y: &str) -> (r: bool)
    ensures
        r == (x.spec_bytes().len() > y.spec_bytes().len()),
{
    x.as_bytes().len() > y.as_bytes().len()
}

} // verus!
