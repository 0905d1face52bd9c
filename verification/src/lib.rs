//! Lookup tables for pure functions over the byte domain.
//!
//! A candidate function takes one `u8` and returns `bool`, `u8`, `u16` or
//! `u32`. [`lookup`] checks a description of such a function and writes the
//! source of its replacement, which answers from a constant table. The tables
//! themselves, flat or bit-packed, are built and read by [`WideTable`] and
//! [`NarrowTable`].

pub mod descriptor;
pub mod domain;
pub mod emit;
pub mod encoding;
pub mod error;
pub mod packing;
pub mod table;
pub mod validate;

pub use crate::descriptor::FunctionDescriptor;
pub use crate::descriptor::Parameter;
pub use crate::descriptor::TypeDescriptor;
pub use crate::emit::lookup;
pub use crate::encoding::OutputEncoding;
pub use crate::encoding::Width;
pub use crate::error::Anchor;
pub use crate::error::ValidationError;
pub use crate::table::NarrowTable;
pub use crate::table::WideTable;
pub use crate::validate::validate;
