//! Coins and optional numbers, read by `match`.

use vstd::prelude::*;

verus! {

/// The state printed on a state quarter.
#[derive(Clone, Copy, Debug, PartialEq, Eq, Structural)]
pub enum UsState {
    Alabama,
    Alaska,
    California,
}

/// A US coin; a quarter carries its state.
#[derive(Clone, Copy, Debug, PartialEq, Eq, Structural)]
pub enum Coin {
    Penny,
    Nickel,
    Dime,
    Quarter(UsState),
}

/// The value of a coin in cents.
pub open spec fn cents_of(coin: Coin) -> u32 {
    match coin {
        Coin::Penny => 1,
        Coin::Nickel => 5,
        Coin::Dime => 10,
        Coin::Quarter(_) => 25,
    }
}

/// The value of a coin in cents.
pub fn value_in_cents(coin: &Coin) -> (r: u32)
    ensures
        r == cents_of(*coin),
{
    match coin {
        Coin::Penny => 1,
        Coin::Nickel => 5,
        Coin::Dime => 10,
        Coin::Quarter(_) => 25,
    }
}

/// Adds one to a present number and leaves an absent one absent; the
/// number must be below `i32::MAX`.
pub fn plus_one(x: Option<i32>) -> (r: Option<i32>)
    requires
        x matches Some(i) ==> i < i32::MAX,
    ensures
        r == (match x {
            Some(i) => Some((i + 1) as i32),
            None => None,
        }),
{
    match x {
        None => None,
        Some(i) => Some(i + 1),
    }
}

} // verus!
