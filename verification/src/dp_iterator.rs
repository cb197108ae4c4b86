//! The recurrence run forwards: every term up to the n-th, each computed once.

use crate::bigint::{int_add, int_from_u64, integer_value};
use crate::fib_finder::FibFinder;
use crate::sequence::{fib, lemma_fib_step};
use rug::Integer;
use vstd::prelude::*;

verus! {

/// Dynamic programming approach: iterates through all of the sequence to
/// reach the given target.
#[derive(Copy, Clone, Debug, Hash, Eq, PartialEq)]
pub struct DPIterator {}

impl Default for DPIterator {
    fn default() -> (r: Self)
        ensures
            r == (DPIterator {}),
    {
        DPIterator {}
    }
}

impl FibFinder for DPIterator {
    fn fib(&mut self, n: u64) -> (r: Integer) {
        if n < 2 {
            return int_from_u64(n);
        }
        let mut prev = int_from_u64(0);
        let mut curr = int_from_u64(1);
        let mut k: u64 = 1;
        while k < n
            invariant
                1 <= k <= n,
                integer_value(prev) == fib((k - 1) as nat),
                integer_value(curr) == fib(k as nat),
            decreases n - k,
        {
            proof {
                lemma_fib_step((k - 1) as nat);
            }
            let new = int_add(&curr, &prev);
            prev = curr;
            curr = new;
            k = k + 1;
        }
        curr
    }
}

} // verus!
