//! The Fibonacci sequence as a mathematical function, and the identities
//! that the fast algorithms rest on.

use vstd::prelude::*;

verus! {

/// The n-th Fibonacci number: `F(0) = 0`, `F(1) = 1`, `F(n) = F(n-1) + F(n-2)`.
pub open spec fn fib(n: nat) -> nat
    decreases n,
{
    if n < 2 {
        n
    } else {
        fib((n - 1) as nat) + fib((n - 2) as nat)
    }
}

/// `(-1)^n`.
pub open spec fn alternating_sign(n: nat) -> int {
    if n % 2 == 0 {
        1
    } else {
        -1
    }
}

/// The two terms that the recurrence starts from: `F(0) = 0` and `F(1) = 1`.
pub proof fn lemma_fib_base()
    ensures
        fib(0) == 0,
        fib(1) == 1,
{
}

/// The recurrence, stated forwards: `F(n+2) = F(n+1) + F(n)`.
pub proof fn lemma_fib_step(n: nat)
    ensures
        fib(n + 2) == fib(n + 1) + fib(n),
{
    assert(fib(n + 2) == fib(((n + 2) - 1) as nat) + fib(((n + 2) - 2) as nat));
}

/// Cassini's identity: `F(n-1) * F(n+1) - F(n)^2 = (-1)^n` for every `n >= 1`.
pub proof fn lemma_cassini(n: nat)
    requires
        n >= 1,
    ensures
        fib((n - 1) as nat) * fib(n + 1) - fib(n) * fib(n) == alternating_sign(n),
    decreases n,
{
    if n == 1 {
        assert(fib(0) == 0 && fib(1) == 1 && fib(2) == 1) by {
            lemma_fib_step(0);
        }
        assert(fib(0) * fib(2) - fib(1) * fib(1) == -1);
    } else {
        let m = (n - 1) as nat;
        lemma_cassini(m);
        lemma_fib_step((m - 1) as nat);
        lemma_fib_step(m);
        let a = fib((m - 1) as nat) as int;
        let b = fib(m) as int;
        let c = fib(m + 1) as int;
        let d = fib(m + 2) as int;
        assert(fib(n + 1) == d);
        assert(b * d - c * c == -(a * c - b * b)) by (nonlinear_arith)
            requires
                c == b + a,
                d == c + b,
        ;
    }
}

} // verus!
