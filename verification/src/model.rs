//! The mathematical model: the order of the field and the operations on
//! residues, stated over unbounded integers.

use vstd::prelude::*;
use vstd::arithmetic::power::pow;

verus! {

/// The order of the field: 2^64 - 2^32 + 1.
pub const MODULUS: u64 = 0xffff_ffff_0000_0001;

/// The order of the field as an integer.
pub open spec fn order() -> int {
    0xffff_ffff_0000_0001
}

/// The canonical representative of `x`: the one integer in `[0, order)`
/// that differs from `x` by a multiple of the order.
pub open spec fn canonical(x: int) -> int {
    x % order()
}

/// Whether `x` is its own canonical representative.
pub open spec fn is_canonical(x: int) -> bool {
    0 <= x < order()
}

/// The sum of two residues.
pub open spec fn add_mod(a: int, b: int) -> int {
    (a + b) % order()
}

/// The difference of two residues.
pub open spec fn sub_mod(a: int, b: int) -> int {
    (a + order() - b) % order()
}

/// The additive inverse of a residue.
pub open spec fn neg_mod(a: int) -> int {
    (order() - a) % order()
}

/// The product of two residues.
pub open spec fn mul_mod(a: int, b: int) -> int {
    (a * b) % order()
}

/// The residue of `a` raised to the power `e`.
pub open spec fn pow_mod(a: int, e: nat) -> int {
    pow(a, e) % order()
}

/// The constant and its integer model are the same number.
pub proof fn lemma_order_is_modulus()
    ensures
        order() == MODULUS,
        order() == 0x1_0000_0000_0000_0000 - 0x1_0000_0000 + 1,
{
}

} // verus!
