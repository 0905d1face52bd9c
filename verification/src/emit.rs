//! The replacement: source text of a function with the candidate's
//! signature, which keeps the candidate under another name, builds the table
//! from it while compiling, and answers by one lookup.

use vstd::prelude::*;
use crate::descriptor::DescriptorView;
use crate::descriptor::FunctionDescriptor;
use crate::encoding::OutputEncoding;
use crate::error::ValidationError;
use crate::validate::validate;
use crate::validate::validated;

verus! {

/// What is appended to the candidate's name to name the kept function.
pub const KEPT_SUFFIX: &'static str = "_orig";

/// From the kept function to the call that fills a bit-packed table.
pub const NARROW_HEAD: &'static str = "

    type T = u8;
    type S = u8;

    const N: usize = 1 << (8 * std::mem::size_of::<T>());
    const M: usize = N / (8 * std::mem::size_of::<S>());
    const SHIFT: u8 = 8 * std::mem::size_of::<T>() as u8 - M.ilog2() as u8;
    const MASK: u8 = (1 << SHIFT) - 1;

    const TABLE: [S; M] = const {
        let mut table: [S; M] = [0; M];

        let mut i = 0;
        while i < N {
            let outer = (i as u8) >> SHIFT;
            let inner = (i as u8) & MASK;

            table[outer as usize] |= (";

/// From the call that fills a bit-packed table to the end of the replacement.
pub const NARROW_TAIL: &'static str = "(i as u8) as S) << inner;
            i += 1;
        }

        table
    };

    (TABLE[(value >> SHIFT) as usize] >> (value & MASK)) & 1 == 1
}
";

/// From the kept function to the type of a flat table's slots.
pub const WIDE_HEAD: &'static str = "

    type T = u8;
    type S = ";

/// From the type of a flat table's slots to the call that fills the table.
pub const WIDE_BODY: &'static str = ";

    const N: usize = 1 << (8 * std::mem::size_of::<T>());

    const TABLE: [S; N] = const {
        let mut table: [S; N] = [0; N];

        let mut i = 0;
        while i < N {
            table[i as usize] = ";

/// From the call that fills a flat table to the end of the replacement.
pub const WIDE_TAIL: &'static str = "(i as u8);
            i += 1;
        }

        table
    };

    TABLE[value as usize]
}
";

/// The name under which the replacement keeps the candidate function.
pub open spec fn kept_name(name: Seq<char>) -> Seq<char> {
    name + KEPT_SUFFIX@
}

/// The first lines of the replacement: the candidate's name, the type of its
/// parameter and its return type, each as the descriptor gives it.
pub open spec fn signature_text(descriptor: DescriptorView) -> Seq<char> {
    "#[inline]\npub const fn "@ + descriptor.name + "(value: "@
        + descriptor.parameters[0].ty.text() + ") -> "@ + descriptor.return_type.unwrap().text()
}

/// The candidate function under its kept name, private to the replacement.
pub open spec fn kept_function_text(descriptor: DescriptorView) -> Seq<char> {
    "const fn "@ + kept_name(descriptor.name) + "("@ + descriptor.parameters[0].name + ": "@
        + descriptor.parameters[0].ty.text() + ") -> "@ + descriptor.return_type.unwrap().text()
        + " "@ + descriptor.body
}

/// The table and the lookup, for the given layout and kept name.
pub open spec fn layout_text(encoding: OutputEncoding, kept: Seq<char>) -> Seq<char> {
    match encoding {
        OutputEncoding::Narrow => NARROW_HEAD@ + kept + NARROW_TAIL@,
        OutputEncoding::Wide(width) => WIDE_HEAD@ + width.type_text() + WIDE_BODY@ + kept
            + WIDE_TAIL@,
    }
}

/// The whole replacement for an accepted function.
pub open spec fn replacement_source(descriptor: DescriptorView, encoding: OutputEncoding) -> Seq<
    char,
> {
    signature_text(descriptor) + " {\n    "@ + kept_function_text(descriptor) + layout_text(
        encoding,
        kept_name(descriptor.name),
    )
}

fn write_signature(descriptor: &FunctionDescriptor, out: &mut String)
    requires
        validated(descriptor@) is Ok,
    ensures
        final(out)@ == old(out)@ + signature_text(descriptor@),
{
    out.append("#[inline]\npub const fn ");
    out.append(descriptor.name.as_str());
    out.append("(value: ");
    descriptor.parameters[0].ty.write_to(out);
    out.append(") -> ");
    match &descriptor.return_type {
        Some(ty) => ty.write_to(out),
        None => {},
    }
    assert(out@ =~= old(out)@ + signature_text(descriptor@));
}

fn write_kept_function(descriptor: &FunctionDescriptor, out: &mut String)
    requires
        validated(descriptor@) is Ok,
    ensures
        final(out)@ == old(out)@ + kept_function_text(descriptor@),
{
    out.append("const fn ");
    out.append(descriptor.name.as_str());
    out.append(KEPT_SUFFIX);
    out.append("(");
    out.append(descriptor.parameters[0].name.as_str());
    out.append(": ");
    descriptor.parameters[0].ty.write_to(out);
    out.append(") -> ");
    match &descriptor.return_type {
        Some(ty) => ty.write_to(out),
        None => {},
    }
    out.append(" ");
    out.append(descriptor.body.as_str());
    assert(out@ =~= old(out)@ + kept_function_text(descriptor@));
}

fn write_layout(encoding: OutputEncoding, name: &String, out: &mut String)
    ensures
        final(out)@ == old(out)@ + layout_text(encoding, kept_name(name@)),
{
    match encoding {
        OutputEncoding::Narrow => {
            out.append(NARROW_HEAD);
            out.append(name.as_str());
            out.append(KEPT_SUFFIX);
            out.append(NARROW_TAIL);
        },
        OutputEncoding::Wide(width) => {
            out.append(WIDE_HEAD);
            out.append(width.ident());
            out.append(WIDE_BODY);
            out.append(name.as_str());
            out.append(KEPT_SUFFIX);
            out.append(WIDE_TAIL);
        },
    }
    assert(out@ =~= old(out)@ + layout_text(encoding, kept_name(name@)));
}

/// Writes the replacement for a function that validation has accepted with `encoding`.
fn emit(descriptor: &FunctionDescriptor, encoding: OutputEncoding) -> (source: String)
    requires
        validated(descriptor@) == Ok::<OutputEncoding, ValidationError>(encoding),
    ensures
        source@ == replacement_source(descriptor@, encoding),
{
    let mut source = String::new();
    write_signature(descriptor, &mut source);
    source.append(" {\n    ");
    write_kept_function(descriptor, &mut source);
    write_layout(encoding, &descriptor.name, &mut source);
    assert(source@ =~= replacement_source(descriptor@, encoding));
    source
}

/// Rewrites a candidate function into one that answers from a table.
///
/// The descriptor is validated first. Where a check fails, its error comes
/// back and nothing is written. Where all pass, the result is the source of
/// the replacement: a function with the candidate's name, parameter type and
/// return type, which holds the candidate under its kept name, a constant
/// table filled from it for every domain value, and the lookup in that table.
pub fn lookup(descriptor: &FunctionDescriptor) -> (outcome: Result<String, ValidationError>)
    ensures
        match validated(descriptor@) {
            Ok(encoding) => outcome matches Ok(source) && source@ == replacement_source(
                descriptor@,
                encoding,
            ),
            Err(error) => outcome matches Err(e) && e == error,
        },
        outcome matches Ok(source) ==> signature_text(descriptor@).is_prefix_of(source@),
{
    match validate(descriptor) {
        Ok(encoding) => {
            proof {
                lemma_signature_is_preserved(descriptor@, encoding);
            }
            Ok(emit(descriptor, encoding))
        },
        Err(error) => Err(error),
    }
}

/// The replacement starts with the candidate's own signature: its name, the
/// type of its parameter and its return type stand there as the descriptor
/// gives them, and nothing stands before them but the inlining hint.
pub proof fn lemma_signature_is_preserved(descriptor: DescriptorView, encoding: OutputEncoding)
    ensures
        signature_text(descriptor).is_prefix_of(replacement_source(descriptor, encoding)),
        signature_text(descriptor) == "#[inline]\npub const fn "@ + descriptor.name + "(value: "@
            + descriptor.parameters[0].ty.text() + ") -> "@
            + descriptor.return_type.unwrap().text(),
{
    let rest = " {\n    "@ + kept_function_text(descriptor) + layout_text(
        encoding,
        kept_name(descriptor.name),
    );
    assert(replacement_source(descriptor, encoding) =~= signature_text(descriptor) + rest);
    assert((signature_text(descriptor) + rest).subrange(0, signature_text(descriptor).len() as int)
        =~= signature_text(descriptor));
}

} // verus!
