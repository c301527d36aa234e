//! A number guess that can only be built inside its valid range.

use vstd::prelude::*;

verus! {

/// Why a guess was refused.
#[derive(Clone, Copy, Debug, PartialEq, Eq, Structural)]
pub enum GuessError {
    /// The value lies outside 1 to 100; it is carried along.
    OutOfRange(i32),
}

/// A guess between 1 and 100 inclusive.
#[derive(Clone, Copy, Debug, PartialEq, Eq)]
pub struct Guess {
    value: i32,
}

/// Whether a value is a valid guess.
pub open spec fn in_guess_range(value: int) -> bool {
    1 <= value <= 100
}

impl View for Guess {
    type V = int;

    closed spec fn view(&self) -> int {
        self.value as int
    }
}

impl Guess {
    #[verifier::type_invariant]
    spec fn in_range(self) -> bool {
        in_guess_range(self.value as int)
    }

    /// A guess of `value`, refused outside 1 to 100.
    pub fn new(value: i32) -> (r: Result<Guess, GuessError>)
        ensures
            in_guess_range(value as int) <==> r is Ok,
            r matches Ok(g) ==> g@ == value,
            r matches Err(e) ==> e == GuessError::OutOfRange(value),
    {
        if value < 1 || value > 100 {
            return Err(GuessError::OutOfRange(value));
        }
        Ok(Guess { value })
    }

    /// The guessed value, always between 1 and 100.
    pub fn value(&self) -> (r: i32)
        ensures
            r == self@,
            in_guess_range(r as int),
    {
        proof {
            use_type_invariant(self);
        }
        self.value
    }
}

} // verus!
