//! Why a candidate function is turned down.

use vstd::prelude::*;

verus! {

/// The part of a signature that a diagnostic points at.
#[derive(Debug, Clone, Copy, PartialEq, Eq, Structural)]
pub enum Anchor {
    /// The place of the `const` marker.
    PurityMarker,
    /// The return type.
    ReturnType,
    /// The parameter list.
    ParameterList,
}

/// A candidate function that cannot be backed by a table.
#[derive(Debug, Clone, Copy, PartialEq, Eq, Structural)]
pub enum ValidationError {
    /// The function is not marked `const`, so it cannot be evaluated while building.
    NotDeterministic,
    /// The return type is none of `bool`, `u8`, `u16`, `u32`.
    UnsupportedReturnType,
    /// The parameter list is not exactly one parameter of type `u8`.
    UnsupportedParameterSignature,
}

impl ValidationError {
    /// The text of the diagnostic.
    pub open spec fn message_text(self) -> Seq<char> {
        match self {
            ValidationError::NotDeterministic => "constable: function must be const"@,
            ValidationError::UnsupportedReturnType => "return type isn't one of bool, u8, u16, u32"@,
            ValidationError::UnsupportedParameterSignature => "input param isn't a single u8"@,
        }
    }

    /// The part of the signature at fault.
    pub open spec fn anchor_of(self) -> Anchor {
        match self {
            ValidationError::NotDeterministic => Anchor::PurityMarker,
            ValidationError::UnsupportedReturnType => Anchor::ReturnType,
            ValidationError::UnsupportedParameterSignature => Anchor::ParameterList,
        }
    }

    /// The human-readable diagnostic for this error.
    pub fn message(&self) -> (text: String)
        ensures
            text@ == self.message_text(),
    {
        match self {
            ValidationError::NotDeterministic => String::from_str(
                "constable: function must be const",
            ),
            ValidationError::UnsupportedReturnType => String::from_str(
                "return type isn't one of bool, u8, u16, u32",
            ),
            ValidationError::UnsupportedParameterSignature => String::from_str(
                "input param isn't a single u8",
            ),
        }
    }

    /// The part of the signature that the diagnostic points at.
    pub fn anchor(&self) -> (anchor: Anchor)
        ensures
            anchor == self.anchor_of(),
    {
        match self {
            ValidationError::NotDeterministic => Anchor::PurityMarker,
            ValidationError::UnsupportedReturnType => Anchor::ReturnType,
            ValidationError::UnsupportedParameterSignature => Anchor::ParameterList,
        }
    }
}

} // verus!
