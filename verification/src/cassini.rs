//! The doubling recurrence on the pair `(F(i), F(i+1))`: what is left of the
//! matrix powers once the entries that repeat are dropped. The index `i`
//! takes up the binary digits of `n` one by one, from the highest down.

use crate::bigint::{int_add, int_from_u64, int_mul, int_square, int_sub, integer_value};
use crate::binary::{binary_digits, drop_low_digits, lemma_drop_one_more};
use crate::fib_finder::FibFinder;
use crate::mat_exponentiator::lemma_fib_doubling;
use crate::sequence::{fib, lemma_fib_step};
use rug::Integer;
use vstd::prelude::*;

verus! {

/// What the step computes from `x = F(i)` and `y = F(i+1)`, given the doubling
/// identities: `2xy - x^2 = F(2i)` and `2xy + y^2 = F(2i+2)`.
proof fn lemma_doubling_step(i: nat)
    ensures
        fib(i) * fib(i + 1) * 2 - fib(i) * fib(i) == fib(2 * i),
        fib(i) * fib(i) + fib(i + 1) * fib(i + 1) == fib(2 * i + 1),
        fib(i) * fib(i + 1) * 2 + fib(i + 1) * fib(i + 1) == fib(2 * i + 2),
{
    lemma_fib_doubling(i);
    lemma_fib_step(2 * i);
    let x = fib(i) as int;
    let y = fib(i + 1) as int;
    assert(x * (2 * y - x) == x * y * 2 - x * x) by (nonlinear_arith);
}

/// Cassini's identity recursion approach.
#[derive(Copy, Clone, Debug, Hash, Eq, PartialEq)]
pub struct Cassini {}

impl Default for Cassini {
    fn default() -> (r: Self)
        ensures
            r == (Cassini {}),
    {
        Cassini {}
    }
}

impl FibFinder for Cassini {
    fn fib(&mut self, n: u64) -> (r: Integer) {
        if n < 2 {
            return int_from_u64(n);
        }
        let digits = binary_digits(n);
        let ghost mut i: nat = 1;
        let mut f_i = int_from_u64(1);
        let mut f_iplus1 = int_from_u64(1);
        let two = int_from_u64(2);
        let mut place: usize = digits.len() - 1;
        assert(fib(1) == 1 && fib(2) == 1) by {
            lemma_fib_step(0);
        }
        while place > 0
            invariant
                place < digits.len(),
                forall|k: int| 0 <= k < digits.len() ==> digits[k] == (drop_low_digits(
                    n as nat,
                    k as nat,
                ) % 2 == 1),
                i == drop_low_digits(n as nat, place as nat),
                integer_value(f_i) == fib(i),
                integer_value(f_iplus1) == fib(i + 1),
                integer_value(two) == 2,
            decreases place,
        {
            place = place - 1;
            let f_i_sqr = int_square(&f_i);
            let f_i_iplus1 = int_mul(&f_i, &f_iplus1);
            let f_iplus1_sqr = int_square(&f_iplus1);
            let f_2iplus1 = int_add(&f_i_sqr, &f_iplus1_sqr);
            let double_f_i_iplus1 = int_mul(&f_i_iplus1, &two);
            proof {
                lemma_doubling_step(i);
                lemma_drop_one_more(n as nat, place as nat);
            }
            if !digits[place] {
                proof {
                    i = 2 * i;
                }
                f_i = int_sub(&double_f_i_iplus1, &f_i_sqr);
                f_iplus1 = f_2iplus1;
            } else {
                proof {
                    i = 2 * i + 1;
                }
                f_i = f_2iplus1;
                f_iplus1 = int_add(&double_f_i_iplus1, &f_iplus1_sqr);
            }
        }
        assert(i == n);
        f_i
    }
}

} // verus!
