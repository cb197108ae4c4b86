//! Exponentiation by repeated squaring over any carrier that has an
//! associative combination with a neutral element.

use vstd::arithmetic::div_mod::{lemma_mul_mod_noop_left, lemma_mul_mod_noop_right};
use vstd::arithmetic::mul::lemma_mul_is_associative;
use vstd::prelude::*;

verus! {

/// A type whose values can be combined associatively.
///
/// The laws are stated over a mathematical model of the values. They are
/// asked only of the models that `member` accepts, and those are closed
/// under the combination.
pub trait Carrier: Sized {
    /// What a value is, mathematically.
    type Model;

    /// The model of this value.
    spec fn model(&self) -> Self::Model;

    /// The models that the laws speak of.
    spec fn member(m: Self::Model) -> bool;

    /// The neutral element.
    spec fn unit() -> Self::Model;

    /// The combination of two models, `a` on the left.
    spec fn combined(a: Self::Model, b: Self::Model) -> Self::Model;

    /// The neutral element is a member.
    proof fn lemma_unit_member()
        ensures
            Self::member(Self::unit()),
    ;

    /// Combining members gives a member.
    proof fn lemma_closed(a: Self::Model, b: Self::Model)
        requires
            Self::member(a),
            Self::member(b),
        ensures
            Self::member(Self::combined(a, b)),
    ;

    /// Combining with the neutral element on either side changes nothing.
    proof fn lemma_neutral(a: Self::Model)
        requires
            Self::member(a),
        ensures
            Self::combined(Self::unit(), a) == a,
            Self::combined(a, Self::unit()) == a,
    ;

    /// The combination is associative.
    proof fn lemma_associative(a: Self::Model, b: Self::Model, c: Self::Model)
        requires
            Self::member(a),
            Self::member(b),
            Self::member(c),
        ensures
            Self::combined(Self::combined(a, b), c) == Self::combined(a, Self::combined(b, c)),
    ;

    /// Combines two values, `self` on the left.
    fn combine(&self, rhs: &Self) -> (r: Self)
        ensures
            r.model() == Self::combined(self.model(), rhs.model()),
    ;
}

/// `x` combined with itself `n` times; the neutral element for `n == 0`.
pub open spec fn pow<T: Carrier>(x: T::Model, n: nat) -> T::Model
    decreases n,
{
    if n == 0 {
        T::unit()
    } else {
        T::combined(x, pow::<T>(x, (n - 1) as nat))
    }
}

/// Every power of a member is a member.
pub proof fn lemma_pow_member<T: Carrier>(x: T::Model, n: nat)
    requires
        T::member(x),
    ensures
        T::member(pow::<T>(x, n)),
    decreases n,
{
    if n == 0 {
        T::lemma_unit_member();
    } else {
        lemma_pow_member::<T>(x, (n - 1) as nat);
        T::lemma_closed(x, pow::<T>(x, (n - 1) as nat));
    }
}

/// The zeroth power is the neutral element, whatever the base.
pub proof fn lemma_pow_zero<T: Carrier>(x: T::Model)
    ensures
        pow::<T>(x, 0) == T::unit(),
{
}

/// The first power is the neutral element combined with the base once, and
/// that is the base itself.
pub proof fn lemma_pow_one<T: Carrier>(x: T::Model)
    requires
        T::member(x),
    ensures
        pow::<T>(x, 1) == T::combined(T::unit(), x),
        pow::<T>(x, 1) == x,
{
    T::lemma_neutral(x);
    assert(pow::<T>(x, 1) == T::combined(x, pow::<T>(x, 0)));
}

/// Exponents add: `x^(a+b)` is `x^a` combined with `x^b`.
pub proof fn lemma_pow_add<T: Carrier>(x: T::Model, a: nat, b: nat)
    requires
        T::member(x),
    ensures
        pow::<T>(x, a + b) == T::combined(pow::<T>(x, a), pow::<T>(x, b)),
    decreases a,
{
    lemma_pow_member::<T>(x, b);
    if a == 0 {
        T::lemma_neutral(pow::<T>(x, b));
    } else {
        let a1 = (a - 1) as nat;
        lemma_pow_add::<T>(x, a1, b);
        lemma_pow_member::<T>(x, a1);
        T::lemma_associative(x, pow::<T>(x, a1), pow::<T>(x, b));
        assert(pow::<T>(x, a + b) == T::combined(x, pow::<T>(x, ((a + b) - 1) as nat)));
        assert(((a + b) - 1) as nat == a1 + b);
    }
}

/// Squaring the base doubles the exponent: `(x * x)^n` is `x^(2n)`.
pub proof fn lemma_pow_of_square<T: Carrier>(x: T::Model, n: nat)
    requires
        T::member(x),
    ensures
        pow::<T>(T::combined(x, x), n) == pow::<T>(x, 2 * n),
    decreases n,
{
    if n > 0 {
        let n1 = (n - 1) as nat;
        lemma_pow_of_square::<T>(x, n1);
        lemma_pow_one::<T>(x);
        lemma_pow_add::<T>(x, 1, 1);
        lemma_pow_add::<T>(x, 2, 2 * n1);
        assert(2 + 2 * n1 == 2 * n);
    }
}

/// Raises `base` to the power `exp` under the carrier's combination.
/// `ident` is the neutral element, which is also the zeroth power.
///
/// The exponent is read from its lowest binary digit upwards. The base is
/// squared once for each digit but the highest, and combined into the result
/// at each digit that is 1.
pub fn power<T: Carrier>(base: T, exp: u64, ident: T) -> (r: T)
    requires
        exp != 0 ==> T::member(base.model()),
        ident.model() == T::unit(),
    ensures
        r.model() == pow::<T>(base.model(), exp as nat),
        T::member(r.model()),
        exp == 0 ==> r.model() == ident.model(),
{
    if exp == 0 {
        proof {
            T::lemma_unit_member();
        }
        return ident;
    }
    let ghost x = base.model();
    let mut p = base;
    let mut prod = ident;
    let mut e: u64 = exp;
    proof {
        T::lemma_unit_member();
        lemma_pow_member::<T>(x, exp as nat);
        T::lemma_neutral(pow::<T>(x, exp as nat));
    }
    while e > 0
        invariant
            T::member(p.model()),
            T::member(prod.model()),
            T::combined(prod.model(), pow::<T>(p.model(), e as nat)) == pow::<T>(x, exp as nat),
        decreases e,
    {
        let ghost q = p.model();
        let ghost acc = prod.model();
        let ghost half = (e / 2) as nat;
        proof {
            T::lemma_closed(q, q);
            lemma_pow_of_square::<T>(q, half);
            lemma_pow_member::<T>(q, 2 * half);
        }
        if e % 2 == 1 {
            proof {
                lemma_pow_one::<T>(q);
                lemma_pow_add::<T>(q, 1, 2 * half);
                T::lemma_associative(acc, q, pow::<T>(q, 2 * half));
                T::lemma_closed(acc, q);
            }
            prod = prod.combine(&p);
        }
        e = e / 2;
        if e > 0 {
            p = p.combine(&p);
        }
    }
    proof {
        T::lemma_neutral(prod.model());
    }
    prod
}

/// The range of `u64`, as a modulus.
pub open spec fn word_modulus() -> int {
    0x1_0000_0000_0000_0000
}

/// Machine words under multiplication modulo two to the 64th.
impl Carrier for u64 {
    type Model = int;

    open spec fn model(&self) -> int {
        *self as int
    }

    open spec fn member(m: int) -> bool {
        0 <= m < word_modulus()
    }

    open spec fn unit() -> int {
        1
    }

    open spec fn combined(a: int, b: int) -> int {
        (a * b) % word_modulus()
    }

    proof fn lemma_unit_member() {
    }

    proof fn lemma_closed(a: int, b: int) {
    }

    proof fn lemma_neutral(a: int) {
    }

    proof fn lemma_associative(a: int, b: int, c: int) {
        let m = word_modulus();
        lemma_mul_mod_noop_left(a * b, c, m);
        lemma_mul_mod_noop_right(a, b * c, m);
        lemma_mul_is_associative(a, b, c);
    }

    fn combine(&self, rhs: &u64) -> (r: u64) {
        self.wrapping_mul(*rhs)
    }
}

} // verus!
