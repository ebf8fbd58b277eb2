//! Small arithmetic helpers shared by the lattice code.

use vstd::prelude::*;
use vstd::arithmetic::div_mod::{lemma_fundamental_div_mod, lemma_fundamental_div_mod_converse};

verus! {

/// The remainder of a negated value: for `m >= 0` and `b > 0`, `(-m) % b` is
/// `0` when `b` divides `m` and `b - m % b` otherwise.
pub proof fn lemma_mod_of_negation(m: int, b: int)
    requires
        m >= 0,
        b > 0,
    ensures
        (-m) % b == if m % b == 0 { 0 } else { b - m % b },
{
    let q: int = m / b;
    let s: int = m % b;
    lemma_fundamental_div_mod(m, b);
    assert(0 <= s < b) by {
        vstd::arithmetic::div_mod::lemma_mod_bound(m, b);
    }
    if s == 0 {
        assert(-m == (-q) * b + 0) by (nonlinear_arith)
            requires
                m == b * q + s,
                s == 0,
        ;
        lemma_fundamental_div_mod_converse(-m, b, -q, 0);
    } else {
        assert(-m == (-q - 1) * b + (b - s)) by (nonlinear_arith)
            requires
                m == b * q + s,
        ;
        lemma_fundamental_div_mod_converse(-m, b, -q - 1, b - s);
    }
}

/// Remainder of `a` by a positive modulus `b`, always in `[0, b)`.
///
/// Unlike the built-in `%` on signed integers this rounds towards negative
/// infinity, so `super_mod(-1, 10)` is `9`.
pub fn super_mod(a: i64, b: i64) -> (r: i64)
    requires
        b > 0,
    ensures
        r == (a as int) % (b as int),
        0 <= r < b,
{
    let r: i64 = a % b;
    proof {
        if a < 0 {
            lemma_mod_of_negation(-(a as int), b as int);
        }
        vstd::arithmetic::div_mod::lemma_mod_bound(a as int, b as int);
    }
    if r < 0 {
        r + b
    } else {
        r
    }
}

} // verus!
