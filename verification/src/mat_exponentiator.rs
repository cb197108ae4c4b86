//! Fibonacci numbers as entries of the powers of the matrix `(1 1; 1 0)`,
//! raised by repeated squaring.

use crate::bigint::{int_add, int_from_u64, int_mul, integer_value};
use crate::fib_finder::FibFinder;
use crate::repeated_squaring::{lemma_pow_add, pow, power, Carrier};
use crate::sequence::{fib, lemma_fib_step};
use rug::Integer;
use vstd::arithmetic::mul::{
    lemma_mul_is_associative, lemma_mul_is_distributive_add,
    lemma_mul_is_distributive_add_other_way,
};
use vstd::prelude::*;

verus! {

/// A 2x2 matrix of arbitrary-precision integers.
#[derive(Debug, Hash, Eq, PartialEq)]
pub struct Mat2x2 {
    /// The top left element.
    a: Integer,
    /// The top right element.
    b: Integer,
    /// The bottom left element.
    c: Integer,
    /// The bottom right element.
    d: Integer,
}

/// The product of two matrices, each given as `(a, b, c, d)` for `(a b; c d)`.
pub open spec fn mat_product(x: (int, int, int, int), y: (int, int, int, int)) -> (
    int,
    int,
    int,
    int,
) {
    (
        x.0 * y.0 + x.1 * y.2,
        x.0 * y.1 + x.1 * y.3,
        x.2 * y.0 + x.3 * y.2,
        x.2 * y.1 + x.3 * y.3,
    )
}

/// The matrix `(1 1; 1 0)`, whose powers hold the Fibonacci numbers.
pub open spec fn fib_matrix() -> (int, int, int, int) {
    (1, 1, 1, 0)
}

impl Carrier for Mat2x2 {
    type Model = (int, int, int, int);

    closed spec fn model(&self) -> (int, int, int, int) {
        (
            integer_value(self.a),
            integer_value(self.b),
            integer_value(self.c),
            integer_value(self.d),
        )
    }

    open spec fn member(m: (int, int, int, int)) -> bool {
        true
    }

    open spec fn unit() -> (int, int, int, int) {
        (1, 0, 0, 1)
    }

    open spec fn combined(x: (int, int, int, int), y: (int, int, int, int)) -> (
        int,
        int,
        int,
        int,
    ) {
        mat_product(x, y)
    }

    proof fn lemma_unit_member() {
    }

    proof fn lemma_closed(x: (int, int, int, int), y: (int, int, int, int)) {
    }

    proof fn lemma_neutral(x: (int, int, int, int)) {
    }

    proof fn lemma_associative(
        x: (int, int, int, int),
        y: (int, int, int, int),
        z: (int, int, int, int),
    ) {
        lemma_row_associative(x.0, x.1, y, z);
        lemma_row_associative(x.2, x.3, y, z);
    }

    fn combine(&self, rhs: &Mat2x2) -> (r: Mat2x2) {
        Mat2x2 {
            a: int_add(&int_mul(&self.a, &rhs.a), &int_mul(&self.b, &rhs.c)),
            b: int_add(&int_mul(&self.a, &rhs.b), &int_mul(&self.b, &rhs.d)),
            c: int_add(&int_mul(&self.c, &rhs.a), &int_mul(&self.d, &rhs.c)),
            d: int_add(&int_mul(&self.c, &rhs.b), &int_mul(&self.d, &rhs.d)),
        }
    }
}

/// `(p * a + q * c) * e`, multiplied out.
proof fn lemma_row_times(p: int, a: int, q: int, c: int, e: int)
    ensures
        (p * a + q * c) * e == p * (a * e) + q * (c * e),
{
    lemma_mul_is_distributive_add_other_way(e, p * a, q * c);
    lemma_mul_is_associative(p, a, e);
    lemma_mul_is_associative(q, c, e);
}

/// One entry of a triple product, bracketed either way.
proof fn lemma_entry_associative(p: int, q: int, a: int, b: int, c: int, d: int, e: int, g: int)
    ensures
        (p * a + q * c) * e + (p * b + q * d) * g == p * (a * e + b * g) + q * (c * e + d * g),
{
    lemma_row_times(p, a, q, c, e);
    lemma_row_times(p, b, q, d, g);
    lemma_mul_is_distributive_add(p, a * e, b * g);
    lemma_mul_is_distributive_add(q, c * e, d * g);
}

/// Associativity of the matrix product, for one row `(p q)` of the left factor.
proof fn lemma_row_associative(p: int, q: int, y: (int, int, int, int), z: (int, int, int, int))
    ensures
        (p * y.0 + q * y.2) * z.0 + (p * y.1 + q * y.3) * z.2 == p * (y.0 * z.0 + y.1 * z.2) + q * (
        y.2 * z.0 + y.3 * z.2),
        (p * y.0 + q * y.2) * z.1 + (p * y.1 + q * y.3) * z.3 == p * (y.0 * z.1 + y.1 * z.3) + q * (
        y.2 * z.1 + y.3 * z.3),
{
    lemma_entry_associative(p, q, y.0, y.1, y.2, y.3, z.0, z.2);
    lemma_entry_associative(p, q, y.0, y.1, y.2, y.3, z.1, z.3);
}

impl Clone for Mat2x2 {
    fn clone(&self) -> (r: Self)
        ensures
            r.model() == self.model(),
    {
        Mat2x2 { a: self.a.clone(), b: self.b.clone(), c: self.c.clone(), d: self.d.clone() }
    }
}

impl Mat2x2 {
    /// Returns the identity element.
    pub fn identity() -> (r: Mat2x2)
        ensures
            r.model() == (1int, 0int, 0int, 1int),
    {
        Mat2x2 { a: int_from_u64(1), b: int_from_u64(0), c: int_from_u64(0), d: int_from_u64(1) }
    }

    /// Returns the matrix `(1 1; 1 0)`.
    pub fn fibonacci() -> (r: Mat2x2)
        ensures
            r.model() == fib_matrix(),
    {
        Mat2x2 { a: int_from_u64(1), b: int_from_u64(1), c: int_from_u64(1), d: int_from_u64(0) }
    }

    /// Multiplies the matrix by the column vector `(x, y)`.
    pub fn apply(&self, x: &Integer, y: &Integer) -> (r: (Integer, Integer))
        ensures
            integer_value(r.0) == self.model().0 * integer_value(*x) + self.model().1
                * integer_value(*y),
            integer_value(r.1) == self.model().2 * integer_value(*x) + self.model().3
                * integer_value(*y),
    {
        (
            int_add(&int_mul(&self.a, x), &int_mul(&self.b, y)),
            int_add(&int_mul(&self.c, x), &int_mul(&self.d, y)),
        )
    }
}

/// What the n-th power of `(1 1; 1 0)` holds: `(F(n+1) F(n); F(n) F(n-1))`,
/// with 1 in place of `F(-1)`.
pub open spec fn fib_matrix_power(n: nat) -> (int, int, int, int) {
    (
        fib(n + 1) as int,
        fib(n) as int,
        fib(n) as int,
        if n == 0 {
            1
        } else {
            fib((n - 1) as nat) as int
        },
    )
}

/// The n-th power of `(1 1; 1 0)` is `(F(n+1) F(n); F(n) F(n-1))`.
pub proof fn lemma_fib_matrix_power(n: nat)
    ensures
        pow::<Mat2x2>(fib_matrix(), n) == fib_matrix_power(n),
    decreases n,
{
    if n == 0 {
        assert(fib(1) == 1 && fib(0) == 0);
    } else {
        let m = (n - 1) as nat;
        lemma_fib_matrix_power(m);
        lemma_fib_step(m);
        if m > 0 {
            lemma_fib_step((m - 1) as nat);
        }
        assert(pow::<Mat2x2>(fib_matrix(), n) == mat_product(
            fib_matrix(),
            pow::<Mat2x2>(fib_matrix(), m),
        ));
    }
}

/// The doubling identities: `F(2k) = F(k) * (2 * F(k+1) - F(k))` and
/// `F(2k+1) = F(k)^2 + F(k+1)^2`.
pub proof fn lemma_fib_doubling(k: nat)
    ensures
        fib(2 * k) == fib(k) * (2 * fib(k + 1) - fib(k)),
        fib(2 * k + 1) == fib(k) * fib(k) + fib(k + 1) * fib(k + 1),
{
    lemma_pow_add::<Mat2x2>(fib_matrix(), k, k);
    lemma_fib_matrix_power(k);
    lemma_fib_matrix_power(k + k);
    let a = fib(k + 1) as int;
    let b = fib(k) as int;
    if k == 0 {
        assert(fib(0) == 0 && fib(1) == 1);
    } else {
        lemma_fib_step((k - 1) as nat);
        let d = fib((k - 1) as nat) as int;
        assert(fib(2 * k + 1) == a * a + b * b);
        assert(fib(2 * k) == a * b + b * d);
        assert(a * b + b * d == b * (2 * a - b)) by (nonlinear_arith)
            requires
                a == b + d,
        ;
    }
}

/// Matrix exponentiation approach using repeated squaring.
#[derive(Copy, Clone, Debug, Hash, Eq, PartialEq)]
pub struct MatExponentiator {}

impl Default for MatExponentiator {
    fn default() -> (r: Self)
        ensures
            r == (MatExponentiator {}),
    {
        MatExponentiator {}
    }
}

impl FibFinder for MatExponentiator {
    fn fib(&mut self, n: u64) -> (r: Integer) {
        let fib_mat = Mat2x2::fibonacci();
        let m = power(fib_mat, n, Mat2x2::identity());
        proof {
            lemma_fib_matrix_power(n as nat);
        }
        let (fib_curr, _fib_prev) = m.apply(&int_from_u64(0), &int_from_u64(1));
        fib_curr
    }
}

} // verus!
