//! Lemmas on divisors: a small prime that divides a product divides a
//! factor, and a factor that a number shares with a product can be
//! cancelled.

use vstd::prelude::*;
use vstd::arithmetic::div_mod::lemma_fundamental_div_mod;
use vstd::arithmetic::div_mod::lemma_mul_mod_noop_general;
use vstd::arithmetic::power2::pow2;
use vstd::arithmetic::power2::lemma_pow2_unfold;
use vstd::arithmetic::power2::lemma2_to64;

verus! {

/// Whether `q` divides a factor wherever it divides the product of `x`
/// and `y`.
pub open spec fn divides_a_factor(q: int, x: int, y: int) -> bool {
    (x * y) % q == 0 ==> x % q == 0 || y % q == 0
}

/// 2 divides a factor of each product that it divides.
pub proof fn lemma_two_divides_a_factor(x: int, y: int)
    ensures
        divides_a_factor(2, x, y),
{
    lemma_mul_mod_noop_general(x, y, 2);
}

/// 3 divides a factor of each product that it divides.
pub proof fn lemma_three_divides_a_factor(x: int, y: int)
    ensures
        divides_a_factor(3, x, y),
{
    lemma_mul_mod_noop_general(x, y, 3);
    let r = (x % 3) as u32;
    let s = (y % 3) as u32;
    assert(r < 3 && s < 3 && (r * s) % 3 == 0 ==> r == 0 || s == 0) by (bit_vector);
}

/// 5 divides a factor of each product that it divides.
pub proof fn lemma_five_divides_a_factor(x: int, y: int)
    ensures
        divides_a_factor(5, x, y),
{
    lemma_mul_mod_noop_general(x, y, 5);
    let r = (x % 5) as u32;
    let s = (y % 5) as u32;
    assert(r < 5 && s < 5 && (r * s) % 5 == 0 ==> r == 0 || s == 0) by (bit_vector);
}

/// 17 divides a factor of each product that it divides.
pub proof fn lemma_seventeen_divides_a_factor(x: int, y: int)
    ensures
        divides_a_factor(17, x, y),
{
    lemma_mul_mod_noop_general(x, y, 17);
    let r = (x % 17) as u32;
    let s = (y % 17) as u32;
    assert(r < 17 && s < 17 && (r * s) % 17 == 0 ==> r == 0 || s == 0) by (bit_vector);
}

/// 257 divides a factor of each product that it divides.
pub proof fn lemma_257_divides_a_factor(x: int, y: int)
    ensures
        divides_a_factor(257, x, y),
{
    lemma_mul_mod_noop_general(x, y, 257);
    let r = (x % 257) as u32;
    let s = (y % 257) as u32;
    assert(r < 257 && s < 257 && (r * s) % 257 == 0 ==> r == 0 || s == 0) by (bit_vector);
}

/// Where `k * d` is `q * rest` and `q` divides `d`, the factor `q` can be
/// cancelled: `k * (d / q)` is `rest`.
pub proof fn lemma_cancel_factor(q: int, k: int, d: int, rest: int)
    requires
        q > 0,
        k * d == q * rest,
        d % q == 0,
    ensures
        k * (d / q) == rest,
{
    let c = d / q;
    lemma_fundamental_div_mod(d, q);
    assert(k * c == rest) by (nonlinear_arith)
        requires
            q > 0,
            k * d == q * rest,
            d == q * c,
    ;
}

/// Where an odd `k` times `d` is `2^j * rest`, the whole power of two
/// lies in `d`: `d` is `2^j * c` with `k * c == rest`.
pub proof fn lemma_cancel_twos(k: int, d: int, j: nat, rest: int) -> (c: int)
    requires
        k % 2 == 1,
        k * d == pow2(j) * rest,
    ensures
        d == pow2(j) * c,
        k * c == rest,
    decreases j,
{
    if j == 0 {
        lemma2_to64();
        assert(pow2(0) * rest == rest && pow2(0) * d == d) by (nonlinear_arith)
            requires
                pow2(0) == 1,
        ;
        d
    } else {
        let lower: int = pow2((j - 1) as nat) as int;
        lemma_pow2_unfold(j);
        assert(pow2(j) * rest == 2 * (lower * rest)) by (nonlinear_arith)
            requires
                pow2(j) == 2 * lower,
        ;
        lemma_two_divides_a_factor(k, d);
        lemma_cancel_factor(2, k, d, lower * rest);
        let c = lemma_cancel_twos(k, d / 2, (j - 1) as nat, rest);
        assert(d == pow2(j) * c) by (nonlinear_arith)
            requires
                d == 2 * (d / 2),
                d / 2 == lower * c,
                pow2(j) == 2 * lower,
        ;
        c
    }
}

/// No integer above one divides one.
pub proof fn lemma_unit_has_no_cofactor(k: int, c: int)
    requires
        k > 1,
    ensures
        k * c != 1,
{
    assert(k * c != 1) by (nonlinear_arith)
        requires
            k > 1,
    ;
}

/// Where `n` is `r * k` and `q` divides `k`, the divisor `r` of `n` also
/// divides `n / q`, with the cofactor `k / q`.
pub proof fn lemma_divisor_of_quotient(n: int, r: int, k: int, q: int)
    requires
        q > 0,
        n == r * k,
        k % q == 0,
    ensures
        n % q == 0,
        n / q == r * (k / q),
{
    let c = k / q;
    lemma_fundamental_div_mod(k, q);
    assert(n == q * (r * c)) by (nonlinear_arith)
        requires
            n == r * k,
            k == q * c,
    ;
    vstd::arithmetic::div_mod::lemma_fundamental_div_mod_converse(n, q, r * c, 0);
}

} // verus!
