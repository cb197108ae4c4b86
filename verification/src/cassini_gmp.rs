//! The doubling recurrence as GMP arranges it: on the pair `(F(i), F(i-1))`,
//! with two squarings a step and the sign of Cassini's identity carried along.

use crate::bigint::{int_add, int_from_u64, int_shl, int_square, int_sub, integer_value};
use crate::binary::{binary_digits, drop_low_digits, lemma_drop_one_more};
use crate::fib_finder::FibFinder;
use crate::mat_exponentiator::lemma_fib_doubling;
use crate::sequence::{alternating_sign, fib, lemma_cassini, lemma_fib_step};
use rug::Integer;
use vstd::arithmetic::power2::lemma2_to64;
use vstd::prelude::*;

verus! {

/// The doubling identities over `F(i)` and `F(i-1)`, for `i >= 1`:
/// `F(2i-1) = F(i)^2 + F(i-1)^2`,
/// `F(2i+1) = 4 * F(i)^2 - F(i-1)^2 + 2 * (-1)^i` and
/// `F(2i) = F(2i+1) - F(2i-1)`.
pub proof fn lemma_fib_doubling_signed(i: nat)
    requires
        i >= 1,
    ensures
        fib((2 * i - 1) as nat) == fib(i) * fib(i) + fib((i - 1) as nat) * fib((i - 1) as nat),
        fib(2 * i + 1) == 4 * (fib(i) * fib(i)) - fib((i - 1) as nat) * fib((i - 1) as nat) + 2
            * alternating_sign(i),
        fib(2 * i) == fib(2 * i + 1) - fib((2 * i - 1) as nat),
{
    let h = (i - 1) as nat;
    lemma_fib_doubling(h);
    lemma_fib_doubling(i);
    lemma_cassini(i);
    lemma_fib_step(h);
    lemma_fib_step((2 * i - 1) as nat);
    let x = fib(i) as int;
    let y = fib(h) as int;
    let z = fib(i + 1) as int;
    let s = alternating_sign(i);
    assert(2 * h + 1 == 2 * i - 1);
    assert(x * x + z * z == 4 * (x * x) - y * y + 2 * s) by (nonlinear_arith)
        requires
            z == x + y,
            y * z - x * x == s,
    ;
}

/// The doubling recurrence in GMP's arrangement.
#[derive(Copy, Clone, Debug, Hash, Eq, PartialEq)]
pub struct CassiniGMP {}

impl Default for CassiniGMP {
    fn default() -> (r: Self)
        ensures
            r == (CassiniGMP {}),
    {
        CassiniGMP {}
    }
}

impl FibFinder for CassiniGMP {
    fn fib(&mut self, n: u64) -> (r: Integer) {
        if n < 2 {
            return int_from_u64(n);
        }
        let digits = binary_digits(n);
        let ghost mut i: nat = 1;
        let mut f_i = int_from_u64(1);
        let mut f_im1 = int_from_u64(0);
        let two = int_from_u64(2);
        // Whether the next offset, 2 * (-1)^i, is -2.
        let mut offset_negative = true;
        let mut place: usize = digits.len() - 1;
        while place > 0
            invariant
                place < digits.len(),
                forall|k: int| 0 <= k < digits.len() ==> digits[k] == (drop_low_digits(
                    n as nat,
                    k as nat,
                ) % 2 == 1),
                i == drop_low_digits(n as nat, place as nat),
                i >= 1,
                integer_value(f_i) == fib(i),
                integer_value(f_im1) == fib((i - 1) as nat),
                integer_value(two) == 2,
                offset_negative == (alternating_sign(i) == -1),
            decreases place,
        {
            place = place - 1;
            let f_i_sqr = int_square(&f_i);
            let f_im1_sqr = int_square(&f_im1);
            // F(2i-1) = F(i)^2 + F(i-1)^2
            let f_2im1 = int_add(&f_i_sqr, &f_im1_sqr);
            // F(2i+1) = 4 F(i)^2 - F(i-1)^2 + 2 (-1)^i
            let without_offset = int_sub(&int_shl(f_i_sqr, 2), &f_im1_sqr);
            let f_2ip1 = if offset_negative {
                int_sub(&without_offset, &two)
            } else {
                int_add(&without_offset, &two)
            };
            // F(2i) = F(2i+1) - F(2i-1)
            let f_2i = int_sub(&f_2ip1, &f_2im1);
            proof {
                lemma2_to64();
                lemma_fib_doubling_signed(i);
                lemma_drop_one_more(n as nat, place as nat);
            }
            if !digits[place] {
                proof {
                    i = 2 * i;
                }
                f_i = f_2i;
                f_im1 = f_2im1;
                offset_negative = false;
            } else {
                proof {
                    i = 2 * i + 1;
                }
                f_i = f_2ip1;
                f_im1 = f_2i;
                offset_negative = true;
            }
        }
        assert(i == n);
        f_i
    }
}

} // verus!
