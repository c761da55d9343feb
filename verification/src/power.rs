//! Exponentiation by squaring, and inversion and division through it.

use vstd::prelude::*;
use vstd::arithmetic::power::pow;
use vstd::arithmetic::power::lemma_pow0;
use lambdaworks_math::field::errors::FieldError;
use crate::field::GoldilocksField;
use crate::model::MODULUS;
use crate::model::order;
use crate::model::canonical;
use crate::model::mul_mod;
use crate::model::pow_mod;
use crate::modular::lemma_square_and_multiply_round;
use crate::group::lemma_inverse;
use crate::group::lemma_quotient_times_divisor;

verus! {

impl GoldilocksField {
    /// `a` to the power `exponent`, modulo the order, by squaring: one
    /// round for each bit of the exponent.
    pub fn pow(a: &u64, exponent: u64) -> (r: u64)
        ensures
            r == pow_mod(*a as int, exponent as nat),
    {
        let mut acc: u64 = 1;
        let mut base: u64 = *a;
        let mut e: u64 = exponent;
        while e > 0
            invariant
                acc < MODULUS,
                mul_mod(acc as int, pow(base as int, e as nat)) == pow_mod(
                    *a as int,
                    exponent as nat,
                ),
            decreases e,
        {
            proof {
                lemma_square_and_multiply_round(acc as int, base as int, e as nat);
            }
            if e % 2 == 1 {
                acc = Self::mul(&acc, &base);
            }
            base = Self::mul(&base, &base);
            e = e / 2;
        }
        proof {
            lemma_pow0(base as int);
        }
        acc
    }

    /// The multiplicative inverse of `a`, as its power `p - 2`. An element
    /// whose residue is zero has none: that is an error.
    pub fn inv(a: &u64) -> (r: Result<u64, FieldError>)
        ensures
            (match r {
                Ok(inverse) => canonical(*a as int) != 0 && inverse == pow_mod(
                    *a as int,
                    (order() - 2) as nat,
                ) && mul_mod(*a as int, inverse as int) == 1,
                Err(error) => canonical(*a as int) == 0 && error == FieldError::InvZeroError,
            }),
    {
        if *a % MODULUS == 0 {
            return Err(FieldError::InvZeroError);
        }
        proof {
            lemma_inverse(*a as int);
        }
        Ok(Self::pow(a, MODULUS - 2))
    }

    /// `a` divided by `b`: `a` times the inverse of `b`. Division by an
    /// element whose residue is zero is an error.
    pub fn div(a: &u64, b: &u64) -> (r: Result<u64, FieldError>)
        ensures
            (match r {
                Ok(quotient) => canonical(*b as int) != 0 && quotient == mul_mod(
                    *a as int,
                    pow_mod(*b as int, (order() - 2) as nat),
                ) && mul_mod(quotient as int, *b as int) == canonical(*a as int),
                Err(error) => canonical(*b as int) == 0 && error == FieldError::InvZeroError,
            }),
    {
        match Self::inv(b) {
            Ok(inverse) => {
                proof {
                    lemma_quotient_times_divisor(*a as int, *b as int);
                }
                Ok(Self::mul(a, &inverse))
            },
            Err(error) => Err(error),
        }
    }
}

} // verus!
