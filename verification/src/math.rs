//! Overflow-checked arithmetic helpers for the economics engine.

use vstd::prelude::*;
use vstd::arithmetic::power::{pow, lemma_pow0, lemma_pow1, lemma_pow_adds, lemma_pow_increases};

verus! {

/// Overflow-checked integer power by repeated multiplication: the result
/// is exactly the mathematical power when it fits, and nothing when it
/// does not.
pub fn checked_pow_u128(base: u128, exp: u32) -> (r: Option<u128>)
    requires
        base >= 1,
    ensures
        r is Some <==> pow(base as int, exp as nat) <= u128::MAX,
        r is Some ==> r->Some_0 == pow(base as int, exp as nat),
{
    let mut acc: u128 = 1;
    let mut i: u32 = 0;
    proof {
        lemma_pow0(base as int);
    }
    while i < exp
        invariant
            base >= 1,
            0 <= i <= exp,
            acc == pow(base as int, i as nat),
        decreases exp - i,
    {
        proof {
            lemma_pow1(base as int);
            lemma_pow_adds(base as int, i as nat, 1);
            assert(pow(base as int, (i + 1) as nat) == pow(base as int, i as nat) * base);
        }
        match acc.checked_mul(base) {
            Some(next) => {
                acc = next;
                i = i + 1;
            },
            None => {
                proof {
                    lemma_pow_increases(base as nat, (i + 1) as nat, exp as nat);
                }
                return None;
            },
        }
    }
    Some(acc)
}

/// Raising a smaller base to the same exponent gives no larger a power.
pub proof fn lemma_pow_base_ordered(a: int, b: int, e: nat)
    requires
        0 <= a <= b,
    ensures
        0 <= pow(a, e) <= pow(b, e),
    decreases e,
{
    if e > 0 {
        let e1 = (e - 1) as nat;
        lemma_pow_base_ordered(a, b, e1);
        lemma_pow1(a);
        lemma_pow1(b);
        lemma_pow_adds(a, e1, 1);
        lemma_pow_adds(b, e1, 1);
        assert(0 <= pow(a, e1) * a <= pow(b, e1) * b) by (nonlinear_arith)
            requires
                0 <= a <= b,
                0 <= pow(a, e1) <= pow(b, e1),
        ;
    } else {
        lemma_pow0(a);
        lemma_pow0(b);
    }
}

} // verus!
