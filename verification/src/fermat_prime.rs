//! The prime 65537, by its primitive root 3.

use vstd::prelude::*;
use vstd::arithmetic::div_mod::lemma_fundamental_div_mod;
use vstd::arithmetic::power2::lemma2_to64;
use crate::divisibility::divides_a_factor;
use crate::divisibility::lemma_cancel_twos;
use crate::divisibility::lemma_divisor_of_quotient;
use crate::divisibility::lemma_unit_has_no_cofactor;
use crate::primitive_root::is_primitive_root;
use crate::primitive_root::power_residue;
use crate::primitive_root::lemma_no_zero_divisors;
use crate::primitive_root::lemma_order_descent;
use crate::primitive_root::lemma_power_residue_first;
use crate::primitive_root::lemma_power_residue_squared;
use crate::primitive_root::lemma_unit_power_multiple;

verus! {

/// The squarings of 3 modulo 65537: its power 2^15 is 65536, so its power
/// 2^16 is one.
proof fn lemma_squarings_of_three()
    ensures
        power_residue(3, 32768, 65537) == 65536,
        power_residue(3, 65536, 65537) == 1,
{
    lemma_power_residue_first(3, 65537);
    lemma_power_residue_squared(3, 65537, 1, 3);
    lemma_power_residue_squared(3, 65537, 2, 9);
    lemma_power_residue_squared(3, 65537, 4, 81);
    lemma_power_residue_squared(3, 65537, 8, 6561);
    lemma_power_residue_squared(3, 65537, 16, 54449);
    lemma_power_residue_squared(3, 65537, 32, 61869);
    lemma_power_residue_squared(3, 65537, 64, 19139);
    lemma_power_residue_squared(3, 65537, 128, 15028);
    lemma_power_residue_squared(3, 65537, 256, 282);
    lemma_power_residue_squared(3, 65537, 512, 13987);
    lemma_power_residue_squared(3, 65537, 1024, 8224);
    lemma_power_residue_squared(3, 65537, 2048, 65529);
    lemma_power_residue_squared(3, 65537, 4096, 64);
    lemma_power_residue_squared(3, 65537, 8192, 4096);
    lemma_power_residue_squared(3, 65537, 16384, 65281);
    lemma_power_residue_squared(3, 65537, 32768, 65536);
}

/// 3 is a primitive root modulo 65537: a smaller exponent at which its
/// power is one would yield a proper divisor of 2^16 with that property,
/// hence a divisor of 2^15.
pub proof fn lemma_three_is_primitive_root()
    ensures
        is_primitive_root(3, 65537),
{
    lemma_squarings_of_three();
    assert forall|d: nat| 0 < d < 65536 implies #[trigger] power_residue(3, d, 65537) != 1 by {
        if power_residue(3, d, 65537) == 1 {
            let r = lemma_order_descent(3, 65537, 65536, d);
            let k: nat = 65536nat / r;
            lemma_fundamental_div_mod(65536, r as int);
            lemma2_to64();
            if k % 2 == 0 {
                lemma_divisor_of_quotient(65536, r as int, k as int, 2);
                lemma_unit_power_multiple(3, 65537, r, k / 2);
            } else {
                // an odd divisor of 2^16 is one, which leaves r = 2^16
                let c = lemma_cancel_twos(k as int, r as int, 16, 1);
                if k > 1 {
                    lemma_unit_has_no_cofactor(k as int, c);
                } else {
                    assert(r * k == r) by (nonlinear_arith)
                        requires
                            k == 1,
                    ;
                }
            }
        }
    }
}

/// 65537 divides a factor of each product that it divides.
pub proof fn lemma_65537_divides_a_factor(x: int, y: int)
    ensures
        divides_a_factor(65537, x, y),
{
    lemma_three_is_primitive_root();
    if (x * y) % 65537 == 0 {
        lemma_no_zero_divisors(3, 65537, x, y);
    }
}

} // verus!
