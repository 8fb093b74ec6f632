//! A demand-driven stream of Fibonacci numbers and a bounded driver that
//! collects a prefix of any such stream.

use vstd::prelude::*;

verus! {

/// The pair a Fibonacci stream holds after `k` values were pulled from the
/// start state `(curr, next)`: the value to emit next, and its successor.
pub open spec fn spec_fib_iterate(curr: int, next: int, k: nat) -> (int, int)
    decreases k,
{
    if k == 0 {
        (curr, next)
    } else {
        let p = spec_fib_iterate(curr, next, (k - 1) as nat);
        (p.1, p.0 + p.1)
    }
}

/// An infinite stream of Fibonacci numbers, one value per poll, ending only
/// when the next value no longer fits in a machine word.
#[derive(Clone, Copy, Debug, PartialEq, Eq, Structural)]
pub struct Fibonacci {
    pub curr: u64,
    pub next: u64,
}

impl Fibonacci {
    /// The stream starting at the first Fibonacci number.
    pub fn new() -> (f: Self)
        ensures
            f == (Fibonacci { curr: 1u64, next: 1u64 }),
    {
        Self::default()
    }

    /// Emit the current value and advance by the recurrence; the stream
    /// ends (and stays where it is) when the following value would
    /// overflow.
    pub fn poll(&mut self) -> (r: Option<u64>)
        ensures
            old(self).curr + old(self).next <= u64::MAX ==> r == Some(old(self).curr)
                && *final(self) == (Fibonacci {
                    curr: old(self).next,
                    next: (old(self).curr + old(self).next) as u64,
                }),
            old(self).curr + old(self).next > u64::MAX ==> r is None && *final(self) == *old(self),
    {
        if self.curr <= u64::MAX - self.next {
            let curr = self.curr;
            let next = curr + self.next;
            self.curr = self.next;
            self.next = next;
            Some(curr)
        } else {
            None
        }
    }
}

impl Default for Fibonacci {
    fn default() -> (f: Self)
        ensures
            f == (Fibonacci { curr: 1u64, next: 1u64 }),
    {
        Fibonacci { curr: 1, next: 1 }
    }
}

/// A bounded driver over a stream: it pulls and records at most `max`
/// values.
pub struct Display<T> {
    pub stream: T,
    /// How many values were pulled so far.
    pub curr: usize,
    /// How many values to pull in all.
    pub max: usize,
}

impl<T> Display<T> {
    pub fn new(stream: T, max: usize) -> (d: Self)
        ensures
            d.stream == stream,
            d.curr == 0,
            d.max == max,
    {
        Self { stream, curr: 0, max }
    }
}

impl Display<Fibonacci> {
    /// Pull up to `max` values from the Fibonacci stream and return them in
    /// order: exactly the Fibonacci numbers from the stream's current pair,
    /// stopping short of the bound only where the stream itself ends on an
    /// overflow.
    pub fn run(&mut self) -> (values: Vec<u64>)
        ensures
            final(self).max == old(self).max,
            final(self).curr == old(self).curr + values@.len(),
            old(self).curr >= old(self).max ==> values@.len() == 0 && *final(self) == *old(self),
            forall|i: int|
                0 <= i < values@.len() ==> values@[i] == spec_fib_iterate(
                    old(self).stream.curr as int,
                    old(self).stream.next as int,
                    i as nat,
                ).0,
            final(self).stream.curr == spec_fib_iterate(
                old(self).stream.curr as int,
                old(self).stream.next as int,
                values@.len() as nat,
            ).0,
            final(self).stream.next == spec_fib_iterate(
                old(self).stream.curr as int,
                old(self).stream.next as int,
                values@.len() as nat,
            ).1,
            old(self).curr + values@.len() < old(self).max ==> spec_fib_iterate(
                old(self).stream.curr as int,
                old(self).stream.next as int,
                values@.len() as nat,
            ).0 + spec_fib_iterate(
                old(self).stream.curr as int,
                old(self).stream.next as int,
                values@.len() as nat,
            ).1 > u64::MAX,
    {
        let ghost c0 = self.stream.curr as int;
        let ghost n0 = self.stream.next as int;
        let mut values: Vec<u64> = Vec::new();
        let mut ended = false;
        while !ended && self.curr < self.max
            invariant
                self.max == old(self).max,
                self.curr == old(self).curr + values@.len(),
                self.curr <= self.max || values@.len() == 0,
                forall|i: int|
                    0 <= i < values@.len() ==> values@[i] == spec_fib_iterate(c0, n0, i as nat).0,
                self.stream.curr == spec_fib_iterate(c0, n0, values@.len() as nat).0,
                self.stream.next == spec_fib_iterate(c0, n0, values@.len() as nat).1,
                ended ==> spec_fib_iterate(c0, n0, values@.len() as nat).0 + spec_fib_iterate(
                    c0,
                    n0,
                    values@.len() as nat,
                ).1 > u64::MAX,
                values@.len() == 0 ==> self.stream == old(self).stream,
            decreases self.max - self.curr, if ended { 0int } else { 1int },
        {
            let ghost k = values@.len() as nat;
            match self.stream.poll() {
                Some(v) => {
                    values.push(v);
                    self.curr = self.curr + 1;
                    proof {
                        assert(spec_fib_iterate(c0, n0, (k + 1) as nat) == (
                            spec_fib_iterate(c0, n0, k).1,
                            spec_fib_iterate(c0, n0, k).0 + spec_fib_iterate(c0, n0, k).1,
                        ));
                    }
                },
                None => {
                    ended = true;
                },
            }
        }
        values
    }
}

} // verus!
