//! The error values of the field's fallible operations.
//!
//! They are the enums of `lambdaworks_math`, so that a caller who already
//! works with that crate gets the errors it knows.

use vstd::prelude::*;
use lambdaworks_math::errors::ByteConversionError;
use lambdaworks_math::errors::CreationError;
use lambdaworks_math::errors::DeserializationError;
use lambdaworks_math::field::errors::FieldError;

verus! {

/// `lambdaworks_math::field::errors::FieldError`, with its variants as the
/// crate defines them. Inversion of zero is `InvZeroError`.
#[verifier::external_type_specification]
pub struct ExFieldError(FieldError);

/// `lambdaworks_math::errors::CreationError`, with its variants as the crate
/// defines them. A malformed hex string is `InvalidHexString`.
#[verifier::external_type_specification]
pub struct ExCreationError(CreationError);

/// `lambdaworks_math::errors::ByteConversionError`, with its variants as the
/// crate defines them.
#[verifier::external_type_specification]
pub struct ExByteConversionError(ByteConversionError);

/// `lambdaworks_math::errors::DeserializationError`, with its variants as the
/// crate defines them.
#[verifier::external_type_specification]
pub struct ExDeserializationError(DeserializationError);

/// What `lambdaworks_math` makes of a byte conversion error when it is
/// turned into a deserialization error.
pub open spec fn deserialization_error_of(error: ByteConversionError) -> DeserializationError {
    match error {
        ByteConversionError::FromBEBytesError => DeserializationError::FieldFromBytesError,
        ByteConversionError::FromLEBytesError => DeserializationError::FieldFromBytesError,
        _ => DeserializationError::InvalidValue,
    }
}

/// `lambdaworks_math`'s `From<ByteConversionError>` for `DeserializationError`.
/// Not proved here: the crate's source maps the two byte order errors to
/// `FieldFromBytesError` and every other error to `InvalidValue`.
pub assume_specification[ <DeserializationError as From<ByteConversionError>>::from ](
    error: ByteConversionError,
) -> (r: DeserializationError)
    ensures
        r == deserialization_error_of(error),
;

} // verus!
