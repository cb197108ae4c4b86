//! The recurrence by recursion, with every result kept for the calls to come.

use crate::bigint::{int_add, int_from_u64, integer_value};
use crate::fib_finder::FibFinder;
use crate::sequence::fib;
use rug::Integer;
use std::collections::HashMap;
use vstd::prelude::*;
use vstd::std_specs::hash::*;

verus! {

/// Recursive approach, using the basic definition of Fibonacci numbers. The
/// difference from the naive approach is that results are cached, so that no
/// term is computed twice.
#[derive(Debug)]
pub struct MemoizedRecursor {
    results: HashMap<u64, Integer>,
}

/// The indices that are cached once the term at `n` has been asked for,
/// where `cached` were before: a term that is cached is looked up, and any
/// other is cached after the two before it have been asked for in turn.
pub open spec fn cached_after(cached: Set<u64>, n: u64) -> Set<u64>
    decreases n,
{
    if cached.contains(n) {
        cached
    } else if n < 2 {
        cached.insert(n)
    } else {
        cached_after(cached_after(cached, (n - 1) as u64), (n - 2) as u64).insert(n)
    }
}

impl MemoizedRecursor {
    /// Every cached result is the Fibonacci number of its index.
    #[verifier::type_invariant]
    spec fn cache_is_right(self) -> bool {
        forall|k: u64| #[trigger]
            self.results@.contains_key(k) ==> integer_value(self.results@[k]) == fib(k as nat)
    }

    /// The indices whose results are cached.
    pub closed spec fn cached(&self) -> Set<u64> {
        self.results@.dom()
    }

    /// Clears the cache, ensuring that no work is saved from previous runs.
    pub fn clear(&mut self)
        ensures
            final(self).cached() == Set::<u64>::empty(),
    {
        self.results = HashMap::new();
    }
}

impl Clone for MemoizedRecursor {
    fn clone(&self) -> (r: Self)
        ensures
            r.cached() == self.cached(),
    {
        proof {
            use_type_invariant(self);
        }
        Self { results: self.results.clone() }
    }
}

impl Default for MemoizedRecursor {
    fn default() -> (r: Self)
        ensures
            r.cached() == Set::<u64>::empty(),
    {
        Self { results: HashMap::new() }
    }
}

impl FibFinder for MemoizedRecursor {
    fn fib(&mut self, n: u64) -> (r: Integer)
        ensures
            final(self).cached() == cached_after(old(self).cached(), n),
            old(self).cached().subset_of(final(self).cached()),
            final(self).cached().contains(n),
        decreases n,
    {
        broadcast use group_hash_axioms;

        proof {
            use_type_invariant(&*self);
        }
        if let Some(out) = self.results.get(&n) {
            out.clone()
        } else {
            let result = if n < 2 {
                int_from_u64(n)
            } else {
                let before = self.fib(n - 1);
                let before_that = self.fib(n - 2);
                int_add(&before, &before_that)
            };
            // Add to cache. The map leaves the recursor while it grows, so
            // that the recursor never holds a half-made entry.
            proof {
                use_type_invariant(&*self);
            }
            let mut results = HashMap::new();
            std::mem::swap(&mut self.results, &mut results);
            results.insert(n, result.clone());
            std::mem::swap(&mut self.results, &mut results);
            result
        }
    }
}

} // verus!
