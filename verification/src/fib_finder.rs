//! The interface that every algorithm of this library offers.

use crate::bigint::integer_value;
use crate::sequence::fib;
use rug::Integer;
use vstd::prelude::*;

verus! {

/// An algorithm that finds the n-th Fibonacci number.
pub trait FibFinder {
    /// Returns the n-th Fibonacci number, counted from `F(0) = 0`.
    fn fib(&mut self, n: u64) -> (r: Integer)
        ensures
            integer_value(r) == fib(n as nat),
    ;
}

/// Asks two algorithms for the same term. Whichever two they are, they
/// agree: both numbers are `F(n)`.
pub fn fib_by_both<A: FibFinder, B: FibFinder>(one: &mut A, other: &mut B, n: u64) -> (r: (
    Integer,
    Integer,
))
    ensures
        integer_value(r.0) == integer_value(r.1),
        integer_value(r.0) == fib(n as nat),
{
    let by_one = one.fib(n);
    let by_other = other.fib(n);
    (by_one, by_other)
}

} // verus!
