//! The field's multiplicative group: 7 generates it, so every nonzero
//! element has an inverse and Fermat's little theorem holds.

use vstd::prelude::*;
use vstd::arithmetic::div_mod::lemma_fundamental_div_mod;
use vstd::arithmetic::div_mod::lemma_mul_mod_noop_general;
use vstd::arithmetic::mul::lemma_mul_is_associative;
use vstd::arithmetic::power2::pow2;
use vstd::arithmetic::power2::lemma2_to64;
use crate::certificate::lemma_power_at_half;
use crate::certificate::lemma_power_at_third;
use crate::certificate::lemma_power_at_fifth;
use crate::certificate::lemma_power_at_seventeenth;
use crate::certificate::lemma_power_at_part_257;
use crate::certificate::lemma_power_at_part_65537;
use crate::certificate::lemma_power_at_whole;
use crate::divisibility::lemma_three_divides_a_factor;
use crate::divisibility::lemma_five_divides_a_factor;
use crate::divisibility::lemma_seventeen_divides_a_factor;
use crate::divisibility::lemma_257_divides_a_factor;
use crate::divisibility::lemma_cancel_factor;
use crate::divisibility::lemma_cancel_twos;
use crate::divisibility::lemma_divisor_of_quotient;
use crate::divisibility::lemma_unit_has_no_cofactor;
use crate::fermat_prime::lemma_65537_divides_a_factor;
use crate::model::order;
use crate::model::canonical;
use crate::model::mul_mod;
use crate::model::pow_mod;
use crate::primitive_root::is_primitive_root;
use crate::primitive_root::power_residue;
use crate::primitive_root::lemma_fermat_little;
use crate::primitive_root::lemma_inverse_by_power;
use crate::primitive_root::lemma_no_zero_divisors;
use crate::primitive_root::lemma_order_descent;
use crate::primitive_root::lemma_powers_cover;
use crate::primitive_root::lemma_unit_power_multiple;

verus! {

/// A number above one that divides `p - 1` is divisible by one of the
/// primes 2, 3, 5, 17, 257, 65537, whose product with 2^31 is `p - 1`.
pub proof fn lemma_cofactor_has_prime_factor(k: int, r: int)
    requires
        k > 1,
        k * r == order() - 1,
    ensures
        k % 2 == 0 || k % 3 == 0 || k % 5 == 0 || k % 17 == 0 || k % 257 == 0 || k % 65537 == 0,
{
    if !(k % 2 == 0 || k % 3 == 0 || k % 5 == 0 || k % 17 == 0 || k % 257 == 0 || k % 65537
        == 0) {
        // each prime power of p - 1 then divides r, which leaves k * c == 1
        lemma2_to64();
        assert(order() - 1 == pow2(32) * 0x0000_0000_ffff_ffff) by (nonlinear_arith)
            requires
                order() == 0xffff_ffff_0000_0001,
                pow2(32) == 0x1_0000_0000,
        ;
        let c2 = lemma_cancel_twos(k, r, 32, 0x0000_0000_ffff_ffff);
        lemma_three_divides_a_factor(k, c2);
        lemma_cancel_factor(3, k, c2, 0x0000_0000_5555_5555);
        let c3 = c2 / 3;
        lemma_five_divides_a_factor(k, c3);
        lemma_cancel_factor(5, k, c3, 0x0000_0000_1111_1111);
        let c5 = c3 / 5;
        lemma_seventeen_divides_a_factor(k, c5);
        lemma_cancel_factor(17, k, c5, 0x0000_0000_0101_0101);
        let c17 = c5 / 17;
        lemma_257_divides_a_factor(k, c17);
        lemma_cancel_factor(257, k, c17, 65537);
        let c257 = c17 / 257;
        lemma_65537_divides_a_factor(k, c257);
        lemma_cancel_factor(65537, k, c257, 1);
        lemma_unit_has_no_cofactor(k, c257 / 65537);
    }
}

/// 7 is a primitive root modulo the order of the field.
pub proof fn lemma_generator_is_primitive_root()
    ensures
        is_primitive_root(7, order()),
{
    let p: int = 0xffff_ffff_0000_0001;
    let n: nat = 0xffff_ffff_0000_0000;
    lemma_power_at_whole();
    assert forall|d: nat| 0 < d < order() - 1 implies #[trigger] power_residue(7, d, order())
        != 1 by {
        if power_residue(7, d, p) == 1 {
            let r = lemma_order_descent(7, p, n, d);
            let k: nat = n / r;
            lemma_fundamental_div_mod(n as int, r as int);
            assert(k > 1) by {
                if k <= 1 {
                    assert(r * k <= r) by (nonlinear_arith)
                        requires
                            k <= 1,
                            r > 0,
                    ;
                }
            }
            lemma_cofactor_has_prime_factor(k as int, r as int);
            if k % 2 == 0 {
                lemma_divisor_of_quotient(n as int, r as int, k as int, 2);
                lemma_unit_power_multiple(7, p, r, k / 2);
                lemma_power_at_half();
            } else if k % 3 == 0 {
                lemma_divisor_of_quotient(n as int, r as int, k as int, 3);
                lemma_unit_power_multiple(7, p, r, k / 3);
                lemma_power_at_third();
            } else if k % 5 == 0 {
                lemma_divisor_of_quotient(n as int, r as int, k as int, 5);
                lemma_unit_power_multiple(7, p, r, k / 5);
                lemma_power_at_fifth();
            } else if k % 17 == 0 {
                lemma_divisor_of_quotient(n as int, r as int, k as int, 17);
                lemma_unit_power_multiple(7, p, r, k / 17);
                lemma_power_at_seventeenth();
            } else if k % 257 == 0 {
                lemma_divisor_of_quotient(n as int, r as int, k as int, 257);
                lemma_unit_power_multiple(7, p, r, k / 257);
                lemma_power_at_part_257();
            } else {
                lemma_divisor_of_quotient(n as int, r as int, k as int, 65537);
                lemma_unit_power_multiple(7, p, r, k / 65537);
                lemma_power_at_part_65537();
            }
        }
    }
}

/// Every nonzero residue is a power of 7.
pub proof fn lemma_generator_reaches(a: int) -> (e: nat)
    requires
        0 < a < order(),
    ensures
        e < order() - 1,
        pow_mod(7, e) == a,
{
    lemma_generator_is_primitive_root();
    lemma_powers_cover(7, order(), a)
}

/// Fermat's little theorem in the field: the power `p - 1` of an element
/// other than zero is one.
pub proof fn lemma_fermat(a: int)
    requires
        canonical(a) != 0,
    ensures
        pow_mod(a, (order() - 1) as nat) == 1,
{
    lemma_generator_is_primitive_root();
    lemma_fermat_little(7, order(), a);
}

/// The power `p - 2` of an element other than zero is its inverse.
pub proof fn lemma_inverse(a: int)
    requires
        canonical(a) != 0,
    ensures
        mul_mod(a, pow_mod(a, (order() - 2) as nat)) == 1,
{
    lemma_generator_is_primitive_root();
    lemma_inverse_by_power(7, order(), a);
}

/// The field has no zero divisors: a product is zero only where a factor
/// is.
pub proof fn lemma_product_is_zero(a: int, b: int)
    requires
        mul_mod(a, b) == 0,
    ensures
        canonical(a) == 0 || canonical(b) == 0,
{
    lemma_generator_is_primitive_root();
    lemma_no_zero_divisors(7, order(), a, b);
}

/// Division is undone by multiplication: `a` times the inverse of `b`,
/// times `b`, is `a`.
pub proof fn lemma_quotient_times_divisor(a: int, b: int)
    requires
        canonical(b) != 0,
    ensures
        mul_mod(mul_mod(a, pow_mod(b, (order() - 2) as nat)), b) == canonical(a),
{
    let u = pow_mod(b, (order() - 2) as nat);
    lemma_inverse(b);
    // (a * u) * b = a * (u * b) = a * 1
    lemma_mul_mod_noop_general(a * u, b, order());
    lemma_mul_is_associative(a, u, b);
    lemma_mul_mod_noop_general(a, u * b, order());
}

} // verus!
