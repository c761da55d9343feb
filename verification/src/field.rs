//! The field element, its canonical form and the four basic operations.

use vstd::prelude::*;
use vstd::arithmetic::power2::pow2;
use vstd::arithmetic::power2::lemma2_to64;
use vstd::arithmetic::power2::lemma2_to64_rest;
use crate::model::MODULUS;
use crate::model::order;
use crate::model::canonical;
use crate::model::add_mod;
use crate::model::sub_mod;
use crate::model::neg_mod;
use crate::model::mul_mod;
use crate::group::lemma_generator_is_primitive_root;
use crate::primitive_root::is_primitive_root;

verus! {

/// An element of the field, held as one 64-bit word.
///
/// The word may be any value: it stands for its residue modulo the order.
/// Two elements compare equal with `==` when their words are equal; to
/// compare residues, use [`GoldilocksField::eq`].
#[derive(Debug, Clone, Copy, PartialEq, Eq, Hash, Structural)]
pub struct GoldilocksField {
    pub value: u64,
}

impl View for GoldilocksField {
    type V = int;

    /// The word that the element holds.
    open spec fn view(&self) -> int {
        self.value as int
    }
}

impl GoldilocksField {
    /// The residue that the element stands for.
    pub open spec fn residue(&self) -> int {
        canonical(self.value as int)
    }

    /// The element that holds the canonical representative of `a`.
    pub fn from(a: u64) -> (r: Self)
        ensures
            r@ == canonical(a as int),
    {
        if a >= MODULUS {
            GoldilocksField { value: a % MODULUS }
        } else {
            GoldilocksField { value: a }
        }
    }

    /// The canonical representative of `a`.
    pub fn new(a: u64) -> (r: u64)
        ensures
            r == canonical(a as int),
    {
        if a >= MODULUS {
            a % MODULUS
        } else {
            a
        }
    }

    /// The fixed generator of the field's multiplicative group: 7, whose
    /// powers run through every element but zero.
    pub fn generator() -> (r: u64)
        ensures
            r == 7,
            is_primitive_root(r as int, order()),
    {
        proof {
            lemma_generator_is_primitive_root();
        }
        7
    }

    /// `(a + b) mod p`, computed without overflow in 128 bits.
    pub fn add(a: &u64, b: &u64) -> (r: u64)
        ensures
            r == add_mod(*a as int, *b as int),
    {
        let wide: u128 = *a as u128 + *b as u128;
        (wide % (MODULUS as u128)) as u64
    }

    /// `(a + p - b) mod p`, for any two words: the result is the canonical
    /// residue also where `b` exceeds `a + p`.
    pub fn sub(a: &u64, b: &u64) -> (r: u64)
        ensures
            r == sub_mod(*a as int, *b as int),
    {
        // the order is added twice, so that the difference is not negative
        let wide: u128 = *a as u128 + 2 * (MODULUS as u128) - *b as u128;
        (wide % (MODULUS as u128)) as u64
    }

    /// `(p - a) mod p`, for any word; the negation of zero is zero.
    pub fn neg(a: &u64) -> (r: u64)
        ensures
            r == neg_mod(*a as int),
    {
        // twice the order, so that the difference is not negative
        let wide: u128 = 2 * (MODULUS as u128) - *a as u128;
        (wide % (MODULUS as u128)) as u64
    }

    /// `(a * b) mod p`, computed without overflow in 128 bits.
    pub fn mul(a: &u64, b: &u64) -> (r: u64)
        ensures
            r == mul_mod(*a as int, *b as int),
    {
        let x: u128 = *a as u128;
        let y: u128 = *b as u128;
        assert(x * y <= 0xffff_ffff_ffff_ffff * 0xffff_ffff_ffff_ffff) by (nonlinear_arith)
            requires
                0 <= x <= 0xffff_ffff_ffff_ffff,
                0 <= y <= 0xffff_ffff_ffff_ffff,
        ;
        let wide: u128 = x * y;
        (wide % (MODULUS as u128)) as u64
    }

    /// Whether `a` and `b` stand for the same residue.
    pub fn eq(a: &u64, b: &u64) -> (r: bool)
        ensures
            r == (canonical(*a as int) == canonical(*b as int)),
    {
        Self::from_u64(*a) == Self::from_u64(*b)
    }

    /// The additive identity.
    pub fn zero() -> (r: u64)
        ensures
            r == 0,
    {
        0
    }

    /// The multiplicative identity.
    pub fn one() -> (r: u64)
        ensures
            r == 1,
    {
        1
    }

    /// The canonical representative of `x`.
    pub fn from_u64(x: u64) -> (r: u64)
        ensures
            r == canonical(x as int),
    {
        x % MODULUS
    }

    /// The canonical representative of `x`.
    pub fn from_base_type(x: u64) -> (r: u64)
        ensures
            r == canonical(x as int),
    {
        Self::from_u64(x)
    }

    /// The word as it is held: canonical only if `a` is.
    pub fn representative(a: &u64) -> (r: u64)
        ensures
            r == *a,
    {
        *a
    }

    /// The number of bits of the largest element, `p - 1`.
    pub fn field_bit_size() -> (r: usize)
        ensures
            r == 64,
            pow2((r - 1) as nat) <= order() - 1 < pow2(r as nat),
    {
        proof {
            lemma2_to64();
            lemma2_to64_rest();
        }
        64
    }
}

} // verus!
