//! Binet's formula carried out exactly, in the ring of the numbers
//! `a/2 + b/2 * sqrt(5)`. The golden ratio is `1/2 + 1/2 * sqrt(5)`, and the
//! `sqrt(5)` part of its n-th power is the n-th Fibonacci number.

use crate::bigint::{int_add, int_from_u64, int_mul, int_shr, int_sub, integer_value};
use crate::fib_finder::FibFinder;
use crate::repeated_squaring::{pow, power, Carrier};
use crate::sequence::{fib, lemma_fib_step};
use rug::Integer;
use vstd::arithmetic::power2::lemma2_to64;
use vstd::prelude::*;

verus! {

/// A number of the form `a/2 + b/2 * sqrt(5)`, with `a` and `b` integers.
#[derive(Debug, Eq, PartialEq, Hash)]
pub struct Z5 {
    a: Integer,
    b: Integer,
}

/// The product of `x.0/2 + x.1/2 * sqrt(5)` and `y.0/2 + y.1/2 * sqrt(5)`,
/// in the same form. The halves are rounded down; between numbers whose two
/// parts have the same parity nothing is lost.
pub open spec fn z5_product(x: (int, int), y: (int, int)) -> (int, int) {
    ((x.0 * y.0 + 5 * (x.1 * y.1)) / 2, (x.0 * y.1 + x.1 * y.0) / 2)
}

/// The numbers that are closed under the product: both parts even, or both odd.
pub open spec fn z5_same_parity(x: (int, int)) -> bool {
    (x.0 - x.1) % 2 == 0
}

/// The two sums of products that `z5_product` halves, written over the halved
/// difference of each factor's parts.
proof fn lemma_z5_halves(b: int, s: int, d: int, t: int)
    ensures
        (b + 2 * s) * (d + 2 * t) + 5 * (b * d) == 2 * (3 * (b * d) + b * t + s * d + 2 * (s * t)),
        (b + 2 * s) * d + b * (d + 2 * t) == 2 * (b * d + s * d + b * t),
{
    assert((b + 2 * s) * (d + 2 * t) == b * d + 2 * (b * t) + 2 * (s * d) + 4 * (s * t))
        by (nonlinear_arith);
    assert((b + 2 * s) * d == b * d + 2 * (s * d)) by (nonlinear_arith);
    assert(b * (d + 2 * t) == b * d + 2 * (b * t)) by (nonlinear_arith);
}

/// Between numbers of the same parity the product halves exactly, and its
/// parts have the same parity again.
pub proof fn lemma_z5_product_exact(x: (int, int), y: (int, int))
    requires
        z5_same_parity(x),
        z5_same_parity(y),
    ensures
        2 * z5_product(x, y).0 == x.0 * y.0 + 5 * (x.1 * y.1),
        2 * z5_product(x, y).1 == x.0 * y.1 + x.1 * y.0,
        z5_same_parity(z5_product(x, y)),
{
    let s = (x.0 - x.1) / 2;
    let t = (y.0 - y.1) / 2;
    assert(x.0 == x.1 + 2 * s);
    assert(y.0 == y.1 + 2 * t);
    lemma_z5_halves(x.1, s, y.1, t);
}

/// The two parts of a triple product, doubled twice, bracketed either way.
proof fn lemma_z5_triple(
    a: int,
    b: int,
    c: int,
    d: int,
    e: int,
    f: int,
    xy0: int,
    xy1: int,
    yz0: int,
    yz1: int,
)
    requires
        2 * xy0 == a * c + 5 * (b * d),
        2 * xy1 == a * d + b * c,
        2 * yz0 == c * e + 5 * (d * f),
        2 * yz1 == c * f + d * e,
    ensures
        xy0 * e + 5 * (xy1 * f) == a * yz0 + 5 * (b * yz1),
        xy0 * f + xy1 * e == a * yz1 + b * yz0,
{
    assert(2 * (xy0 * e) == (a * c) * e + 5 * ((b * d) * e)) by (nonlinear_arith)
        requires
            2 * xy0 == a * c + 5 * (b * d),
    ;
    assert(2 * (xy0 * f) == (a * c) * f + 5 * ((b * d) * f)) by (nonlinear_arith)
        requires
            2 * xy0 == a * c + 5 * (b * d),
    ;
    assert(2 * (xy1 * e) == (a * d) * e + (b * c) * e) by (nonlinear_arith)
        requires
            2 * xy1 == a * d + b * c,
    ;
    assert(2 * (xy1 * f) == (a * d) * f + (b * c) * f) by (nonlinear_arith)
        requires
            2 * xy1 == a * d + b * c,
    ;
    assert(2 * (a * yz0) == a * (c * e) + 5 * (a * (d * f))) by (nonlinear_arith)
        requires
            2 * yz0 == c * e + 5 * (d * f),
    ;
    assert(2 * (b * yz0) == b * (c * e) + 5 * (b * (d * f))) by (nonlinear_arith)
        requires
            2 * yz0 == c * e + 5 * (d * f),
    ;
    assert(2 * (a * yz1) == a * (c * f) + a * (d * e)) by (nonlinear_arith)
        requires
            2 * yz1 == c * f + d * e,
    ;
    assert(2 * (b * yz1) == b * (c * f) + b * (d * e)) by (nonlinear_arith)
        requires
            2 * yz1 == c * f + d * e,
    ;
    assert((a * c) * e == a * (c * e)) by (nonlinear_arith);
    assert((a * c) * f == a * (c * f)) by (nonlinear_arith);
    assert((a * d) * e == a * (d * e)) by (nonlinear_arith);
    assert((a * d) * f == a * (d * f)) by (nonlinear_arith);
    assert((b * c) * e == b * (c * e)) by (nonlinear_arith);
    assert((b * c) * f == b * (c * f)) by (nonlinear_arith);
    assert((b * d) * e == b * (d * e)) by (nonlinear_arith);
    assert((b * d) * f == b * (d * f)) by (nonlinear_arith);
}

impl Carrier for Z5 {
    type Model = (int, int);

    closed spec fn model(&self) -> (int, int) {
        (integer_value(self.a), integer_value(self.b))
    }

    open spec fn member(x: (int, int)) -> bool {
        z5_same_parity(x)
    }

    open spec fn unit() -> (int, int) {
        (2, 0)
    }

    open spec fn combined(x: (int, int), y: (int, int)) -> (int, int) {
        z5_product(x, y)
    }

    proof fn lemma_unit_member() {
    }

    proof fn lemma_closed(x: (int, int), y: (int, int)) {
        lemma_z5_product_exact(x, y);
    }

    proof fn lemma_neutral(x: (int, int)) {
    }

    proof fn lemma_associative(x: (int, int), y: (int, int), z: (int, int)) {
        lemma_z5_product_exact(x, y);
        lemma_z5_product_exact(y, z);
        let xy = z5_product(x, y);
        let yz = z5_product(y, z);
        lemma_z5_triple(x.0, x.1, y.0, y.1, z.0, z.1, xy.0, xy.1, yz.0, yz.1);
    }

    /// Three multiplications in place of four: with `k1 = c(a + b)`,
    /// `k2 = b(c - 5d)` and `k3 = a(d - c)`, the two sums of products are
    /// `k1 - k2` and `k1 + k3`.
    fn combine(&self, rhs: &Z5) -> (r: Z5) {
        let (a, b) = (&self.a, &self.b);
        let (c, d) = (&rhs.a, &rhs.b);
        let k1 = int_mul(c, &int_add(a, b));
        let k2 = int_mul(b, &int_sub(c, &int_mul(&int_from_u64(5), d)));
        let k3 = int_mul(a, &int_sub(d, c));
        proof {
            let (a, b) = (integer_value(*a), integer_value(*b));
            let (c, d) = (integer_value(*c), integer_value(*d));
            assert(c * (a + b) - b * (c - 5 * d) == a * c + 5 * (b * d)) by (nonlinear_arith);
            assert(c * (a + b) + a * (d - c) == a * d + b * c) by (nonlinear_arith);
            lemma2_to64();
        }
        // Both parts stand for halves, and the products for quarters.
        Z5 { a: int_shr(int_sub(&k1, &k2), 1), b: int_shr(int_add(&k1, &k3), 1) }
    }
}

impl Clone for Z5 {
    fn clone(&self) -> (r: Self)
        ensures
            r.model() == self.model(),
    {
        Z5 { a: self.a.clone(), b: self.b.clone() }
    }
}

impl Z5 {
    /// The number `a/2 + b/2 * sqrt(5)`.
    pub fn new(a: u64, b: u64) -> (r: Z5)
        ensures
            r.model() == (a as int, b as int),
    {
        Z5 { a: int_from_u64(a), b: int_from_u64(b) }
    }

    /// The multiplicative identity.
    pub fn one() -> (r: Z5)
        ensures
            r.model() == (2int, 0int),
    {
        Z5::new(2, 0)
    }

    /// The two parts, doubled: `(a, b)` of `a/2 + b/2 * sqrt(5)`.
    pub fn into_parts(self) -> (r: (Integer, Integer))
        ensures
            (integer_value(r.0), integer_value(r.1)) == self.model(),
    {
        (self.a, self.b)
    }
}

/// The golden ratio, `1/2 + 1/2 * sqrt(5)`.
pub open spec fn golden_ratio() -> (int, int) {
    (1, 1)
}

/// The n-th Lucas number, `F(n-1) + F(n+1)`, written without `F(n-1)`.
pub open spec fn lucas(n: nat) -> int {
    2 * fib(n + 1) - fib(n)
}

/// The n-th power of the golden ratio is `L(n)/2 + F(n)/2 * sqrt(5)`.
pub proof fn lemma_golden_ratio_power(n: nat)
    ensures
        pow::<Z5>(golden_ratio(), n) == (lucas(n), fib(n) as int),
    decreases n,
{
    if n == 0 {
        assert(fib(1) == 1 && fib(0) == 0);
    } else {
        let m = (n - 1) as nat;
        lemma_golden_ratio_power(m);
        lemma_fib_step(m);
        assert(pow::<Z5>(golden_ratio(), n) == z5_product(
            golden_ratio(),
            pow::<Z5>(golden_ratio(), m),
        ));
    }
}

/// Binet approach using the integer field extension by `sqrt(5)`.
#[derive(Copy, Clone, Debug, Hash, Eq, PartialEq)]
pub struct BinetZ5 {}

impl Default for BinetZ5 {
    fn default() -> (r: Self)
        ensures
            r == (BinetZ5 {}),
    {
        BinetZ5 {}
    }
}

impl FibFinder for BinetZ5 {
    fn fib(&mut self, n: u64) -> (r: Integer) {
        if n < 2 {
            int_from_u64(n)
        } else {
            proof {
                lemma_golden_ratio_power(n as nat);
            }
            let ans = power(Z5::new(1, 1), n, Z5::one());
            ans.into_parts().1
        }
    }
}

} // verus!
