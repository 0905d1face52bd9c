//! The structured description of a candidate function: its name, its marker,
//! its parameters, its return type and the text of its body.

use vstd::prelude::*;

verus! {

/// Mathematical value of a [`TypeDescriptor`].
pub enum TypeView {
    /// The identifiers of a path's segments, in order.
    Path(Seq<Seq<char>>),
    /// A type that is not a path.
    Other,
}

/// Mathematical value of a [`Parameter`].
pub struct ParameterView {
    pub name: Seq<char>,
    pub ty: TypeView,
}

/// Mathematical value of a [`FunctionDescriptor`].
pub struct DescriptorView {
    pub name: Seq<char>,
    pub is_const: bool,
    pub parameters: Seq<ParameterView>,
    pub return_type: Option<TypeView>,
    pub body: Seq<char>,
}

/// A type as it is written in a signature.
#[derive(Debug, Clone, PartialEq, Eq)]
pub enum TypeDescriptor {
    /// A path such as `u8` or `core::primitive::u8`, given by the identifiers
    /// of its segments in order.
    Path(Vec<String>),
    /// Any other form of type: a reference, a tuple, an array, a receiver.
    Other,
}

/// One entry of a parameter list.
#[derive(Debug, Clone, PartialEq, Eq)]
pub struct Parameter {
    pub name: String,
    pub ty: TypeDescriptor,
}

/// A candidate function, as a front end hands it over.
#[derive(Debug, Clone, PartialEq, Eq)]
pub struct FunctionDescriptor {
    /// The function's identifier.
    pub name: String,
    /// Whether the function carries the `const` marker.
    pub is_const: bool,
    /// The parameter list, in order.
    pub parameters: Vec<Parameter>,
    /// The declared return type; `None` where the signature names none.
    pub return_type: Option<TypeDescriptor>,
    /// The text of the function's body, braces included. It is carried into
    /// the replacement, which evaluates it while it is compiled.
    pub body: String,
}

impl View for TypeDescriptor {
    type V = TypeView;

    open spec fn view(&self) -> TypeView {
        match self {
            TypeDescriptor::Path(segments) => TypeView::Path(segments.deep_view()),
            TypeDescriptor::Other => TypeView::Other,
        }
    }
}

impl View for Parameter {
    type V = ParameterView;

    open spec fn view(&self) -> ParameterView {
        ParameterView { name: self.name@, ty: self.ty@ }
    }
}

/// The value of a return type that a signature may or may not name.
pub open spec fn optional_view(ty: Option<TypeDescriptor>) -> Option<TypeView> {
    match ty {
        Some(ty) => Some(ty@),
        None => None,
    }
}

impl View for FunctionDescriptor {
    type V = DescriptorView;

    open spec fn view(&self) -> DescriptorView {
        DescriptorView {
            name: self.name@,
            is_const: self.is_const,
            parameters: Seq::new(self.parameters@.len(), |i: int| self.parameters@[i]@),
            return_type: optional_view(self.return_type),
            body: self.body@,
        }
    }
}

/// The segments of a path joined by `::`, as the path is written.
pub open spec fn joined(segments: Seq<Seq<char>>) -> Seq<char>
    decreases segments.len(),
{
    if segments.len() == 0 {
        Seq::empty()
    } else if segments.len() == 1 {
        segments[0]
    } else {
        joined(segments.drop_last()) + "::"@ + segments.last()
    }
}

impl TypeView {
    /// The identifier of the first segment, where the type is a path that has one.
    pub open spec fn first_segment(self) -> Option<Seq<char>> {
        match self {
            TypeView::Path(segments) => if segments.len() > 0 {
                Some(segments.first())
            } else {
                None
            },
            TypeView::Other => None,
        }
    }

    /// The identifier of the last segment, where the type is a path that has one.
    pub open spec fn last_segment(self) -> Option<Seq<char>> {
        match self {
            TypeView::Path(segments) => if segments.len() > 0 {
                Some(segments.last())
            } else {
                None
            },
            TypeView::Other => None,
        }
    }

    /// The type as source text. A type that is not a path has no text.
    pub open spec fn text(self) -> Seq<char> {
        match self {
            TypeView::Path(segments) => joined(segments),
            TypeView::Other => Seq::empty(),
        }
    }
}

/// Whether `text` holds exactly the characters of `literal`.
pub(crate) fn text_is(text: &String, literal: &str) -> (same: bool)
    ensures
        same == (text@ == literal@),
{
    let other = String::from_str(literal);
    *text == other
}

impl TypeDescriptor {
    /// The identifier of the first segment, where the type is a path that has one.
    pub fn first_segment(&self) -> (segment: Option<&String>)
        ensures
            match segment {
                Some(s) => self@.first_segment() == Some(s@),
                None => self@.first_segment() is None,
            },
    {
        match self {
            TypeDescriptor::Path(segments) => {
                if segments.len() > 0 {
                    Some(&segments[0])
                } else {
                    None
                }
            },
            TypeDescriptor::Other => None,
        }
    }

    /// The identifier of the last segment, where the type is a path that has one.
    pub fn last_segment(&self) -> (segment: Option<&String>)
        ensures
            match segment {
                Some(s) => self@.last_segment() == Some(s@),
                None => self@.last_segment() is None,
            },
    {
        match self {
            TypeDescriptor::Path(segments) => {
                if segments.len() > 0 {
                    Some(&segments[segments.len() - 1])
                } else {
                    None
                }
            },
            TypeDescriptor::Other => None,
        }
    }

    /// Appends the type, as source text, to `out`.
    pub fn write_to(&self, out: &mut String)
        ensures
            final(out)@ == old(out)@ + self@.text(),
    {
        match self {
            TypeDescriptor::Path(segments) => {
                let mut i: usize = 0;
                while i < segments.len()
                    invariant
                        i <= segments.len(),
                        out@ == old(out)@ + joined(segments.deep_view().take(i as int)),
                    decreases segments.len() - i,
                {
                    proof {
                        let all = segments.deep_view();
                        assert(all.take(i + 1).drop_last() == all.take(i as int));
                        assert(all.take(i + 1).last() == segments@[i as int]@);
                    }
                    if i > 0 {
                        out.append("::");
                    }
                    out.append(segments[i].as_str());
                    i += 1;
                }
                proof {
                    let all = segments.deep_view();
                    assert(all.take(all.len() as int) == all);
                }
            },
            TypeDescriptor::Other => {},
        }
    }
}

} // verus!
