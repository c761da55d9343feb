//! The laws of the field, over the model that the operations' contracts
//! are stated in.

use vstd::prelude::*;
use vstd::arithmetic::div_mod::lemma_add_mod_noop;
use vstd::arithmetic::div_mod::lemma_mod_self_0;
use vstd::arithmetic::div_mod::lemma_mod_twice;
use vstd::arithmetic::div_mod::lemma_mul_mod_noop_general;
use vstd::arithmetic::mul::lemma_mul_is_associative;
use vstd::arithmetic::mul::lemma_mul_is_distributive_add;
use crate::codec::hex_digits_of;
use crate::codec::is_hex_digit;
use crate::codec::parse_hex;
use crate::model::order;
use crate::model::canonical;
use crate::model::is_canonical;
use crate::model::add_mod;
use crate::model::sub_mod;
use crate::model::neg_mod;
use crate::model::mul_mod;
use crate::model::pow_mod;
use crate::primitive_root::lemma_power_residue_adds;
use crate::primitive_root::lemma_power_residue_first;
use crate::primitive_root::lemma_power_residue_multiplies;

verus! {

/// Every integer has one canonical representative, which is canonical and
/// is the integer itself where that is canonical.
pub proof fn lemma_canonical_is_unique(x: int)
    ensures
        is_canonical(canonical(x)),
        canonical(canonical(x)) == canonical(x),
        is_canonical(x) ==> canonical(x) == x,
{
}

/// The canonical representative is the only canonical integer that
/// differs from `x` by a multiple of the order.
pub proof fn lemma_canonical_is_the_only_one(x: int, y: int)
    requires
        is_canonical(y),
        (x - y) % order() == 0,
    ensures
        y == canonical(x),
{
}

/// Every operation returns a canonical representative.
pub proof fn lemma_results_are_canonical(a: int, b: int, e: nat)
    ensures
        is_canonical(add_mod(a, b)),
        is_canonical(sub_mod(a, b)),
        is_canonical(neg_mod(a)),
        is_canonical(mul_mod(a, b)),
        is_canonical(pow_mod(a, e)),
{
}

/// Every operation depends on the residues of its operands only.
pub proof fn lemma_operations_respect_residues(a: int, b: int)
    ensures
        add_mod(canonical(a), canonical(b)) == add_mod(a, b),
        sub_mod(canonical(a), canonical(b)) == sub_mod(a, b),
        neg_mod(canonical(a)) == neg_mod(a),
        mul_mod(canonical(a), canonical(b)) == mul_mod(a, b),
{
    lemma_mul_mod_noop_general(a, b, order());
}

/// Addition is commutative.
pub proof fn lemma_add_commutative(a: int, b: int)
    ensures
        add_mod(a, b) == add_mod(b, a),
{
}

/// Addition is associative.
pub proof fn lemma_add_associative(a: int, b: int, c: int)
    ensures
        add_mod(add_mod(a, b), c) == add_mod(a, add_mod(b, c)),
{
}

/// Multiplication is commutative.
pub proof fn lemma_mul_commutative(a: int, b: int)
    ensures
        mul_mod(a, b) == mul_mod(b, a),
{
}

/// Multiplication is associative.
pub proof fn lemma_mul_associative(a: int, b: int, c: int)
    ensures
        mul_mod(mul_mod(a, b), c) == mul_mod(a, mul_mod(b, c)),
{
    lemma_mul_mod_noop_general(a * b, c, order());
    lemma_mul_mod_noop_general(a, b * c, order());
    lemma_mul_is_associative(a, b, c);
}

/// Zero is the additive identity: adding it yields the canonical
/// representative, which is `a` itself for a canonical `a`.
pub proof fn lemma_add_zero(a: int)
    ensures
        add_mod(a, 0) == canonical(a),
        is_canonical(a) ==> add_mod(a, 0) == a,
{
}

/// The negation is the additive inverse.
pub proof fn lemma_add_negation(a: int)
    ensures
        add_mod(a, neg_mod(a)) == 0,
{
    lemma_mod_self_0(order());
}

/// Subtraction is the addition of the negation.
pub proof fn lemma_sub_is_add_of_negation(a: int, b: int)
    ensures
        sub_mod(a, b) == add_mod(a, neg_mod(b)),
{
    lemma_mod_twice(order() - b, order());
}

/// One is the multiplicative identity: multiplying by it yields the
/// canonical representative, which is `a` itself for a canonical `a`.
pub proof fn lemma_mul_one(a: int)
    ensures
        mul_mod(a, 1) == canonical(a),
        is_canonical(a) ==> mul_mod(a, 1) == a,
{
}

/// Multiplication distributes over addition.
pub proof fn lemma_distributive(a: int, b: int, c: int)
    ensures
        mul_mod(a, add_mod(b, c)) == add_mod(mul_mod(a, b), mul_mod(a, c)),
{
    lemma_mul_mod_noop_general(a, b + c, order());
    lemma_mul_is_distributive_add(a, b, c);
    lemma_add_mod_noop(a * b, a * c, order());
}

/// The power zero of any element is one, and the power one is the
/// element's canonical representative.
pub proof fn lemma_pow_zero_and_one(a: int)
    ensures
        pow_mod(a, 0) == 1,
        pow_mod(a, 1) == canonical(a),
{
    vstd::arithmetic::power::lemma_pow0(a);
    lemma_power_residue_first(a, order());
}

/// Powers multiply as their exponents add.
pub proof fn lemma_pow_adds_exponents(a: int, e1: nat, e2: nat)
    ensures
        pow_mod(a, e1 + e2) == mul_mod(pow_mod(a, e1), pow_mod(a, e2)),
{
    lemma_power_residue_adds(a, e1, e2, order());
}

/// A power of a power is the power at the product of the exponents.
pub proof fn lemma_pow_of_pow(a: int, e1: nat, e2: nat)
    ensures
        0 <= e1 * e2,
        pow_mod(pow_mod(a, e1), e2) == pow_mod(a, (e1 * e2) as nat),
{
    lemma_power_residue_multiplies(a, e1, e2, order());
}

/// A leading `0x` does not change what a string of digits spells: with and
/// without it the string parses to the same word, or fails to parse.
pub proof fn lemma_hex_prefix_is_optional(digits: Seq<char>)
    requires
        forall|i: int| 0 <= i < digits.len() ==> is_hex_digit(#[trigger] digits[i]),
    ensures
        parse_hex(seq!['0', 'x'] + digits) == parse_hex(digits),
{
    let prefixed = seq!['0', 'x'] + digits;
    if digits.len() > 0 {
        // neither `x` nor what follows it is cut from a string of digits
        assert(hex_digits_of(prefixed) =~= digits);
    }
}

} // verus!
