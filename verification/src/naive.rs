//! The recurrence as it is written: simple recursion, in exponential time.

use crate::bigint::{int_add, int_from_u64};
use crate::fib_finder::FibFinder;
use rug::Integer;
use vstd::prelude::*;

verus! {

/// Naive recursive approach, using the basic definition of Fibonacci
/// numbers: F(0) = 0, F(1) = 1, and F(n) = F(n - 1) + F(n - 2).
#[derive(Copy, Clone, Debug, Hash, Eq, PartialEq)]
pub struct NaiveRecursor {}

impl Default for NaiveRecursor {
    fn default() -> (r: Self)
        ensures
            r == (NaiveRecursor {}),
    {
        NaiveRecursor {}
    }
}

impl FibFinder for NaiveRecursor {
    fn fib(&mut self, n: u64) -> (r: Integer)
        decreases n,
    {
        if n < 2 {
            int_from_u64(n)
        } else {
            let before = self.fib(n - 1);
            let before_that = self.fib(n - 2);
            int_add(&before, &before_that)
        }
    }
}

} // verus!
