//! The step of exponentiation by squaring.

use vstd::prelude::*;
use vstd::arithmetic::power::pow;
use vstd::arithmetic::power::lemma_pow1;
use vstd::arithmetic::power::lemma_pow_adds;
use vstd::arithmetic::power::lemma_pow_multiplies;
use vstd::arithmetic::power::lemma_pow_mod_noop;
use vstd::arithmetic::power::lemma_square_is_pow2;
use vstd::arithmetic::div_mod::lemma_mul_mod_noop_general;
use vstd::arithmetic::mul::lemma_mul_is_associative;
use vstd::arithmetic::mul::lemma_mul_is_commutative;
use crate::model::order;
use crate::model::mul_mod;

verus! {

/// A power of `b` in terms of a power of its square: `b^e` is `(b*b)^(e/2)`,
/// times `b` once more where `e` is odd.
pub proof fn lemma_pow_halve(b: int, e: nat)
    ensures
        e % 2 == 0 ==> pow(b, e) == pow(b * b, e / 2),
        e % 2 == 1 ==> pow(b, e) == pow(b * b, e / 2) * b,
{
    let h: nat = e / 2;
    lemma_square_is_pow2(b);
    lemma_pow_multiplies(b, 2, h);
    if e % 2 == 1 {
        lemma_pow_adds(b, 2 * h, 1);
        lemma_pow1(b);
    }
}

/// One round of square-and-multiply keeps the residue of
/// `acc * base^e`: the base is squared, the exponent halved, and the
/// accumulator takes one factor `base` where the exponent was odd.
pub proof fn lemma_square_and_multiply_round(acc: int, base: int, e: nat)
    requires
        e > 0,
    ensures
        e % 2 == 1 ==> mul_mod(mul_mod(acc, base), pow(mul_mod(base, base), e / 2)) == mul_mod(
            acc,
            pow(base, e),
        ),
        e % 2 == 0 ==> mul_mod(acc, pow(mul_mod(base, base), e / 2)) == mul_mod(
            acc,
            pow(base, e),
        ),
{
    let h: nat = e / 2;
    let sq = base * base;
    lemma_pow_halve(base, e);
    // the squared base may be reduced before it is raised
    lemma_pow_mod_noop(sq, h, order());
    if e % 2 == 1 {
        let step = acc * base;
        lemma_mul_mod_noop_general(step, pow(mul_mod(base, base), h), order());
        lemma_mul_mod_noop_general(step, pow(sq, h), order());
        lemma_mul_is_commutative(pow(sq, h), base);
        lemma_mul_is_associative(acc, base, pow(sq, h));
    } else {
        lemma_mul_mod_noop_general(acc, pow(mul_mod(base, base), h), order());
        lemma_mul_mod_noop_general(acc, pow(sq, h), order());
    }
}

} // verus!
