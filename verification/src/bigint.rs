//! The arbitrary-precision integers of `rug`, as the verifier sees them:
//! an opaque type, the mathematical integer that a value stands for, and
//! one contract for each arithmetic operation that the algorithms use.
//!
//! Nothing in this file is proved: each contract restates what `rug`
//! documents of the operation that the function calls.

use crate::sequence::fib;
use rug::Integer;
use vstd::arithmetic::power2::pow2;
use vstd::prelude::*;

verus! {

/// `rug::Integer`, an arbitrary-precision signed integer.
#[verifier::external_type_specification]
#[verifier::external_body]
pub struct ExInteger(Integer);

/// The mathematical integer that a `rug::Integer` holds.
pub uninterp spec fn integer_value(x: Integer) -> int;

/// `Integer::from(u64)`: the result holds the given number.
#[verifier::external_body]
pub(crate) fn int_from_u64(n: u64) -> (r: Integer)
    ensures
        integer_value(r) == n,
{
    Integer::from(n)
}

/// `Integer::clone`: the copy holds the same number.
pub assume_specification[ <Integer as Clone>::clone ](a: &Integer) -> (r: Integer)
    ensures
        integer_value(r) == integer_value(*a),
;

/// `&Integer + &Integer`: the exact sum.
#[verifier::external_body]
pub(crate) fn int_add(a: &Integer, b: &Integer) -> (r: Integer)
    ensures
        integer_value(r) == integer_value(*a) + integer_value(*b),
{
    Integer::from(a + b)
}

/// `&Integer - &Integer`: the exact difference.
#[verifier::external_body]
pub(crate) fn int_sub(a: &Integer, b: &Integer) -> (r: Integer)
    ensures
        integer_value(r) == integer_value(*a) - integer_value(*b),
{
    Integer::from(a - b)
}

/// `&Integer * &Integer`: the exact product.
#[verifier::external_body]
pub(crate) fn int_mul(a: &Integer, b: &Integer) -> (r: Integer)
    ensures
        integer_value(r) == integer_value(*a) * integer_value(*b),
{
    Integer::from(a * b)
}

/// `Integer::square_ref`: the exact square.
#[verifier::external_body]
pub(crate) fn int_square(a: &Integer) -> (r: Integer)
    ensures
        integer_value(r) == integer_value(*a) * integer_value(*a),
{
    Integer::from(a.square_ref())
}

/// `Integer << u32`: the number multiplied by two to the power `k`.
#[verifier::external_body]
pub(crate) fn int_shl(a: Integer, k: u32) -> (r: Integer)
    ensures
        integer_value(r) == integer_value(a) * pow2(k as nat),
{
    a << k
}

/// `Integer >> u32`: the number divided by two to the power `k`, rounded
/// towards minus infinity.
#[verifier::external_body]
pub(crate) fn int_shr(a: Integer, k: u32) -> (r: Integer)
    ensures
        integer_value(r) == integer_value(a) / (pow2(k as nat) as int),
{
    a >> k
}

/// `Integer::fibonacci`: the n-th Fibonacci number, counted from `F(0) = 0`,
/// as GMP computes it.
#[verifier::external_body]
pub(crate) fn int_fibonacci(n: u32) -> (r: Integer)
    ensures
        integer_value(r) == fib(n as nat),
{
    Integer::from(Integer::fibonacci(n))
}

} // verus!
