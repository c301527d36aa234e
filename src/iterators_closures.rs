//! Hand-written iterators: a counter up to a bound, and the Fibonacci
//! numbers up to the largest that fits in a `u64`.

use vstd::prelude::*;

verus! {

/// Counts 1, 2, ... up to `max`.
#[derive(Clone, Copy, Debug, PartialEq, Eq, Structural)]
pub struct Counter {
    pub count: u32,
    pub max: u32,
}

impl Counter {
    /// A counter that has yielded nothing yet.
    pub fn new(max: u32) -> (r: Counter)
        ensures
            r.count == 0,
            r.max == max,
    {
        Counter { count: 0, max }
    }

    /// The next count, or `None` once `max` has been reached.
    pub fn next(&mut self) -> (r: Option<u32>)
        ensures
            final(self).max == old(self).max,
            old(self).count < old(self).max ==> final(self).count == old(self).count + 1 && r
                == Some(final(self).count),
            old(self).count >= old(self).max ==> r is None && *final(self) == *old(self),
    {
        if self.count < self.max {
            self.count = self.count + 1;
            Some(self.count)
        } else {
            None
        }
    }
}

/// The Fibonacci numbers: 0, 1, 1, 2, 3, 5, ...
pub open spec fn fib(n: nat) -> nat
    decreases n,
{
    if n == 0 {
        0
    } else if n == 1 {
        1
    } else {
        fib((n - 2) as nat) + fib((n - 1) as nat)
    }
}

/// Yields the Fibonacci numbers after 0, for as long as the next one fits.
#[derive(Clone, Copy, Debug, PartialEq, Eq, Structural)]
pub struct Fibonacci {
    pub current: u64,
    pub next: u64,
}

impl Fibonacci {
    /// The sequence before its first step: 0 then 1.
    pub fn new() -> (r: Fibonacci)
        ensures
            r.current == fib(0),
            r.next == fib(1),
    {
        Fibonacci { current: 0, next: 1 }
    }

    /// Moves one step along and yields the new current number, or yields
    /// `None` and stays put when the step after it would overflow.
    pub fn next(&mut self) -> (r: Option<u64>)
        ensures
            old(self).current + old(self).next <= u64::MAX ==> r == Some(old(self).next)
                && final(self).current == old(self).next && final(self).next == old(self).current
                + old(self).next,
            old(self).current + old(self).next > u64::MAX ==> r is None && *final(self) == *old(
                self,
            ),
    {
        let new_next = self.current.checked_add(self.next);
        match new_next {
            None => None,
            Some(n) => {
                self.current = self.next;
                self.next = n;
                Some(self.current)
            },
        }
    }
}

/// The first `count` Fibonacci numbers after 0, or fewer where the
/// sequence stops before the next number would overflow.
pub fn fibonacci_numbers(count: usize) -> (r: Vec<u64>)
    ensures
        r@.len() <= count,
        forall|k: int| 0 <= k < r@.len() ==> r@[k] == fib((k + 1) as nat),
        r@.len() < count ==> fib((r@.len() + 2) as nat) > u64::MAX,
{
    let mut seq = Fibonacci::new();
    let mut out: Vec<u64> = Vec::new();
    let mut done = false;
    while out.len() < count && !done
        invariant
            out@.len() <= count,
            seq.current == fib(out@.len() as nat),
            seq.next == fib((out@.len() + 1) as nat),
            forall|k: int| 0 <= k < out@.len() ==> out@[k] == fib((k + 1) as nat),
            done ==> fib((out@.len() + 2) as nat) > u64::MAX,
        decreases count - out@.len() + (if done { 0int } else { 1int }),
    {
        let ghost n = out@.len() as nat;
        assert(fib(n + 2) == fib(n) + fib(n + 1));
        match seq.next() {
            Some(v) => out.push(v),
            None => done = true,
        }
    }
    out
}

} // verus!
