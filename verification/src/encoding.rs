//! How the results of a function are laid out in its table.

use vstd::prelude::*;
use crate::descriptor::optional_view;
use crate::descriptor::text_is;
use crate::descriptor::TypeDescriptor;
use crate::descriptor::TypeView;
use crate::domain::DOMAIN_SIZE;
use crate::domain::UNIT_COUNT;

verus! {

/// The width of an unsigned integer result.
#[derive(Debug, Clone, Copy, PartialEq, Eq, Structural)]
pub enum Width {
    /// `u8`
    W8,
    /// `u16`
    W16,
    /// `u32`
    W32,
}

/// The layout of a table, chosen by the function's return type.
#[derive(Debug, Clone, Copy, PartialEq, Eq, Structural)]
pub enum OutputEncoding {
    /// One slot of the given width for each domain value.
    Wide(Width),
    /// Boolean results, eight to a storage byte.
    Narrow,
}

impl Width {
    /// Number of bits in a result of this width.
    pub open spec fn bit_count(self) -> nat {
        match self {
            Width::W8 => 8,
            Width::W16 => 16,
            Width::W32 => 32,
        }
    }

    /// The name of the integer type of this width.
    pub open spec fn type_text(self) -> Seq<char> {
        match self {
            Width::W8 => "u8"@,
            Width::W16 => "u16"@,
            Width::W32 => "u32"@,
        }
    }

    /// Number of bits in a result of this width.
    pub fn bits(self) -> (bits: u32)
        ensures
            bits == self.bit_count(),
    {
        match self {
            Width::W8 => 8,
            Width::W16 => 16,
            Width::W32 => 32,
        }
    }

    /// The name of the integer type of this width.
    pub fn ident(self) -> (name: &'static str)
        ensures
            name@ == self.type_text(),
    {
        match self {
            Width::W8 => "u8",
            Width::W16 => "u16",
            Width::W32 => "u32",
        }
    }
}

impl OutputEncoding {
    /// The encoding that belongs to a type name, if the name is supported:
    /// `bool` is packed; `u8`, `u16` and `u32` are stored flat.
    pub open spec fn of_name(name: Seq<char>) -> Option<OutputEncoding> {
        if name == "bool"@ {
            Some(OutputEncoding::Narrow)
        } else if name == "u8"@ {
            Some(OutputEncoding::Wide(Width::W8))
        } else if name == "u16"@ {
            Some(OutputEncoding::Wide(Width::W16))
        } else if name == "u32"@ {
            Some(OutputEncoding::Wide(Width::W32))
        } else {
            None
        }
    }

    /// The encoding that belongs to a declared return type: that of the last
    /// segment's name, where the type is a path.
    pub open spec fn of_return_type(return_type: Option<TypeView>) -> Option<OutputEncoding> {
        match return_type {
            Some(ty) => match ty.last_segment() {
                Some(name) => Self::of_name(name),
                None => None,
            },
            None => None,
        }
    }

    /// Number of storage slots in a table of this layout.
    pub open spec fn slot_count(self) -> nat {
        match self {
            OutputEncoding::Wide(_) => DOMAIN_SIZE as nat,
            OutputEncoding::Narrow => UNIT_COUNT as nat,
        }
    }

    /// The name of the type of one storage slot.
    pub open spec fn slot_type_text(self) -> Seq<char> {
        match self {
            OutputEncoding::Wide(width) => width.type_text(),
            OutputEncoding::Narrow => "u8"@,
        }
    }

    /// Chooses the encoding for a type name; `None` for an unsupported one.
    pub fn from_name(name: &String) -> (encoding: Option<OutputEncoding>)
        ensures
            encoding == Self::of_name(name@),
    {
        if text_is(name, "bool") {
            Some(OutputEncoding::Narrow)
        } else if text_is(name, "u8") {
            Some(OutputEncoding::Wide(Width::W8))
        } else if text_is(name, "u16") {
            Some(OutputEncoding::Wide(Width::W16))
        } else if text_is(name, "u32") {
            Some(OutputEncoding::Wide(Width::W32))
        } else {
            None
        }
    }

    /// Chooses the encoding for a declared return type; `None` where the
    /// signature names no type, a type that is not a path, or an unsupported one.
    pub fn from_return_type(return_type: &Option<TypeDescriptor>) -> (encoding: Option<
        OutputEncoding,
    >)
        ensures
            encoding == Self::of_return_type(optional_view(*return_type)),
    {
        match return_type {
            Some(ty) => match ty.last_segment() {
                Some(name) => Self::from_name(name),
                None => None,
            },
            None => None,
        }
    }

    /// Number of storage slots in a table of this layout.
    pub fn slots(self) -> (count: usize)
        ensures
            count == self.slot_count(),
    {
        match self {
            OutputEncoding::Wide(_) => DOMAIN_SIZE,
            OutputEncoding::Narrow => UNIT_COUNT,
        }
    }

    /// The name of the type of one storage slot.
    pub fn slot_type(self) -> (name: &'static str)
        ensures
            name@ == self.slot_type_text(),
    {
        match self {
            OutputEncoding::Wide(width) => width.ident(),
            OutputEncoding::Narrow => "u8",
        }
    }
}

} // verus!
