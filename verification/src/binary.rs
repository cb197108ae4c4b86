//! The binary digits of an index, which the doubling algorithms walk from
//! the highest digit down.

use vstd::prelude::*;

verus! {

/// `n` without its `k` lowest binary digits: `n / 2^k`.
pub open spec fn drop_low_digits(n: nat, k: nat) -> nat
    decreases k,
{
    if k == 0 {
        n
    } else {
        drop_low_digits(n, (k - 1) as nat) / 2
    }
}

/// Whether the binary digit of `n` at place `k`, counted from the lowest, is 1.
pub open spec fn digit_at(n: nat, k: nat) -> bool {
    drop_low_digits(n, k) % 2 == 1
}

/// The digits above place `k` are those from place `k` on, without the lowest:
/// `n / 2^k` is twice `n / 2^(k+1)`, plus the digit at place `k`.
pub proof fn lemma_drop_one_more(n: nat, k: nat)
    ensures
        drop_low_digits(n, k) == 2 * drop_low_digits(n, k + 1) + if digit_at(n, k) {
            1nat
        } else {
            0nat
        },
{
    assert(drop_low_digits(n, k + 1) == drop_low_digits(n, ((k + 1) - 1) as nat) / 2);
}

/// The binary digits of `n`, lowest first and without leading zeros: none for
/// 0, and otherwise the last one is the leading 1.
pub fn binary_digits(n: u64) -> (digits: Vec<bool>)
    ensures
        forall|k: int| 0 <= k < digits.len() ==> digits[k] == digit_at(n as nat, k as nat),
        drop_low_digits(n as nat, digits.len() as nat) == 0,
        n == 0 ==> digits.len() == 0,
        n > 0 ==> digits.len() >= 1 && drop_low_digits(n as nat, (digits.len() - 1) as nat) == 1,
{
    let mut digits: Vec<bool> = Vec::new();
    let mut rest: u64 = n;
    while rest > 0
        invariant
            rest == drop_low_digits(n as nat, digits.len() as nat),
            forall|k: int| 0 <= k < digits.len() ==> digits[k] == digit_at(n as nat, k as nat),
            n == 0 ==> digits.len() == 0,
            n > 0 && rest == 0 ==> digits.len() >= 1 && drop_low_digits(
                n as nat,
                (digits.len() - 1) as nat,
            ) == 1,
        decreases rest,
    {
        proof {
            lemma_drop_one_more(n as nat, digits.len() as nat);
        }
        digits.push(rest % 2 == 1);
        rest = rest / 2;
    }
    digits
}

} // verus!
