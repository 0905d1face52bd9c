//! The contract that a candidate function must meet before a table is built.

use vstd::prelude::*;
use crate::descriptor::text_is;
use crate::descriptor::DescriptorView;
use crate::descriptor::FunctionDescriptor;
use crate::descriptor::ParameterView;
use crate::encoding::OutputEncoding;
use crate::error::ValidationError;

verus! {

/// Whether a parameter list is exactly one parameter whose type is a path
/// that starts with `u8`.
pub open spec fn is_single_byte_parameter(parameters: Seq<ParameterView>) -> bool {
    parameters.len() == 1 && parameters[0].ty.first_segment() == Some("u8"@)
}

/// The outcome of validation. The checks run in this order, and the first
/// that fails decides: the marker, the return type, the parameter list.
pub open spec fn validated(descriptor: DescriptorView) -> Result<OutputEncoding, ValidationError> {
    if !descriptor.is_const {
        Err(ValidationError::NotDeterministic)
    } else {
        match OutputEncoding::of_return_type(descriptor.return_type) {
            None => Err(ValidationError::UnsupportedReturnType),
            Some(encoding) => if is_single_byte_parameter(descriptor.parameters) {
                Ok(encoding)
            } else {
                Err(ValidationError::UnsupportedParameterSignature)
            },
        }
    }
}

/// Checks that `descriptor` can be backed by a table, and says how its
/// results will be laid out.
pub fn validate(descriptor: &FunctionDescriptor) -> (outcome: Result<
    OutputEncoding,
    ValidationError,
>)
    ensures
        outcome == validated(descriptor@),
{
    if !descriptor.is_const {
        return Err(ValidationError::NotDeterministic);
    }
    let encoding = match OutputEncoding::from_return_type(&descriptor.return_type) {
        Some(encoding) => encoding,
        None => {
            return Err(ValidationError::UnsupportedReturnType);
        },
    };
    if descriptor.parameters.len() != 1 {
        return Err(ValidationError::UnsupportedParameterSignature);
    }
    match descriptor.parameters[0].ty.first_segment() {
        Some(segment) => {
            if text_is(segment, "u8") {
                Ok(encoding)
            } else {
                Err(ValidationError::UnsupportedParameterSignature)
            }
        },
        None => Err(ValidationError::UnsupportedParameterSignature),
    }
}

/// A function without the `const` marker is turned down as not deterministic,
/// whatever else its signature holds.
pub proof fn lemma_missing_marker_is_rejected(descriptor: DescriptorView)
    requires
        !descriptor.is_const,
    ensures
        validated(descriptor) == Err::<OutputEncoding, ValidationError>(
            ValidationError::NotDeterministic,
        ),
{
}

/// A `const` function whose return type has no encoding is turned down for
/// its return type: one that names no type, one whose type is not a path, and
/// one whose last segment is none of `bool`, `u8`, `u16`, `u32`.
pub proof fn lemma_unsupported_return_type_is_rejected(descriptor: DescriptorView)
    requires
        descriptor.is_const,
        match descriptor.return_type {
            None => true,
            Some(ty) => match ty.last_segment() {
                None => true,
                Some(name) => name != "bool"@ && name != "u8"@ && name != "u16"@ && name != "u32"@,
            },
        },
    ensures
        validated(descriptor) == Err::<OutputEncoding, ValidationError>(
            ValidationError::UnsupportedReturnType,
        ),
{
}

/// A `const` function with a supported return type is turned down for its
/// parameter list when that list is empty, has two or more entries, or has
/// one entry whose type is not a path that starts with `u8`.
pub proof fn lemma_unsupported_parameters_are_rejected(descriptor: DescriptorView)
    requires
        descriptor.is_const,
        OutputEncoding::of_return_type(descriptor.return_type) is Some,
        descriptor.parameters.len() != 1 || descriptor.parameters[0].ty.first_segment() != Some(
            "u8"@,
        ),
    ensures
        validated(descriptor) == Err::<OutputEncoding, ValidationError>(
            ValidationError::UnsupportedParameterSignature,
        ),
{
}

/// A function is accepted exactly when all three checks pass, and then its
/// encoding is the one that belongs to its return type.
pub proof fn lemma_accepted_exactly_when_all_checks_pass(descriptor: DescriptorView)
    ensures
        validated(descriptor) is Ok <==> descriptor.is_const && OutputEncoding::of_return_type(
            descriptor.return_type,
        ) is Some && is_single_byte_parameter(descriptor.parameters),
        validated(descriptor) matches Ok(encoding) ==> OutputEncoding::of_return_type(
            descriptor.return_type,
        ) == Some(encoding),
{
}

} // verus!
