//! Small functions that show how values move, are borrowed and are sliced.

use vstd::prelude::*;
use vstd::string::{StringExecFns, StringSliceAdditionalSpecFns};
use vstd::utf8::{encode_utf8, is_continuation_byte, valid_utf8};

verus! {

broadcast use vstd::utf8::group_utf8_lib;

/// Makes a new string and hands its ownership to the caller.
pub fn gives_ownership() -> (r: String)
    ensures
        r@ == seq!['y', 'o', 'u', 'r', 's'],
{
    let some_string = String::from_str("yours");
    proof {
        reveal_strlit("yours");
    }
    some_string
}

/// Takes ownership of a string and hands it straight back.
pub fn takes_and_gives_back(a_string: String) -> (r: String)
    ensures
        r@ == a_string@,
{
    a_string
}

/// The length in bytes of a borrowed string; the string stays with its owner.
pub fn calculate_length(s: &String) -> (r: usize)
    ensures
        r == encode_utf8(s@).len(),
{
    s.as_str().as_bytes().len()
}

/// Appends `", world"` through a mutable borrow.
pub fn change(some_string: &mut String)
    ensures
        final(some_string)@ == old(some_string)@ + seq![',', ' ', 'w', 'o', 'r', 'l', 'd'],
{
    some_string.append(", world");
    proof {
        reveal_strlit(", world");
    }
}

/// The first word of `s`: the bytes before its first space, or all of `s`
/// where it holds no space.
pub fn first_word(s: &str) -> (r: &str)
    ensures
        r.spec_bytes() =~= s.spec_bytes().take(r.spec_bytes().len() as int),
        forall|j: int| 0 <= j < r.spec_bytes().len() ==> s.spec_bytes()[j] != 32u8,
        r.spec_bytes().len() == s.spec_bytes().len() || s.spec_bytes()[r.spec_bytes().len() as int]
            == 32u8,
{
    let bytes = s.as_bytes();
    let mut i: usize = 0;
    while i < bytes.len()
        invariant
            bytes@ == s.spec_bytes(),
            i <= bytes@.len(),
            forall|j: int| 0 <= j < i ==> bytes@[j] != 32u8,
        decreases bytes.len() - i,
    {
        if bytes[i] == 32u8 {
            proof {
                assert(valid_utf8(s.spec_bytes()));
                assert(!is_continuation_byte(bytes@[i as int]));
            }
            let (head, _) = s.split_at(i);
            return head;
        }
        i += 1;
    }
    assert(s.spec_bytes().take(s.spec_bytes().len() as int) =~= s.spec_bytes());
    s
}

} // verus!
