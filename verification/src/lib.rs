//! Arithmetic in the prime field of order 2^64 - 2^32 + 1.
//!
//! A field element is one 64-bit word. A word of any value stands for its
//! residue modulo the order; every operation returns the canonical residue.
//!
//! - [`model`]: the order and the operations on residues, over integers.
//! - [`field`]: the element, its canonical form, and add, sub, neg, mul.
//! - [`power`]: exponentiation by squaring, inversion and division.
//! - [`codec`]: the byte and hexadecimal forms of an element.
//! - [`errors`]: the error values, which are those of `lambdaworks_math`.
//! - [`laws`]: the laws of the field.
//! - [`group`]: the multiplicative group, generated by 7, with Fermat's
//!   little theorem and the inverse.
//! - [`primitive_root`], [`divisibility`], [`fermat_prime`],
//!   [`certificate`], [`modular`]: the number theory under [`group`] and
//!   [`power`].

pub mod errors;
pub mod model;
pub mod field;
pub mod modular;
pub mod power;
pub mod codec;
pub mod primitive_root;
pub mod divisibility;
pub mod fermat_prime;
pub mod certificate;
pub mod group;
pub mod laws;
