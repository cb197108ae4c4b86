//! GMP's own Fibonacci routine, called and not computed here.

use crate::bigint::int_fibonacci;
use crate::cassini_gmp::CassiniGMP;
use crate::fib_finder::FibFinder;
use rug::Integer;
use vstd::prelude::*;

verus! {

/// Wraps GMP.
#[derive(Copy, Clone, Debug, Hash, Eq, PartialEq)]
pub struct GMP {}

impl Default for GMP {
    fn default() -> (r: Self)
        ensures
            r == (GMP {}),
    {
        GMP {}
    }
}

impl FibFinder for GMP {
    /// GMP's routine takes an index of 32 bits. A larger one goes to the same
    /// recurrence as it is written in this library.
    fn fib(&mut self, n: u64) -> (r: Integer) {
        if n <= 0xffff_ffff {
            int_fibonacci(n as u32)
        } else {
            let mut by_hand = CassiniGMP::default();
            by_hand.fib(n)
        }
    }
}

} // verus!
