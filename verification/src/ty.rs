//! What the library reads of a field's type: enough of its path structure to
//! recognise `Option<_>` and `String`, plus its token text.

use vstd::prelude::*;
use crate::text::str_eq;

verus! {

/// A field type.
pub enum TypeModel {
    /// A path type such as `Option<u8>` or `std::string::String`.
    Path { leading_colon: bool, segments: Vec<PathSegment>, text: String },
    /// A type wrapped in an invisible group, as macro expansion produces.
    Group { elem: Box<TypeModel>, text: String },
    /// Any other type (references, tuples, arrays, ...).
    Other { text: String },
}

/// One `ident<args>` segment of a path type.
pub struct PathSegment {
    pub ident: String,
    pub args: SegmentArgs,
}

/// The arguments of a path segment.
pub enum SegmentArgs {
    Bare,
    /// `<..>`, each argument in order.
    Angle(Vec<GenericArg>),
    /// `(..) -> ..`, as in `Fn(u8) -> u8`.
    Paren,
}

/// One argument inside `<..>`.
pub enum GenericArg {
    Type(TypeModel),
    /// A lifetime, constant, binding or constraint.
    Other,
}

impl TypeModel {
    /// Token text of the type.
    pub open spec fn text(self) -> String {
        match self {
            TypeModel::Path { text, .. } => text,
            TypeModel::Group { text, .. } => text,
            TypeModel::Other { text } => text,
        }
    }
}

/// The type with invisible groups removed.
pub open spec fn spec_ungroup(t: TypeModel) -> TypeModel
    decreases t,
{
    match t {
        TypeModel::Group { elem, .. } => spec_ungroup(*elem),
        _ => t,
    }
}

/// `T` when the type is `Option<T>` (its last path segment is `Option` with a
/// single type argument), else nothing.
pub open spec fn spec_unwrap_option(t: TypeModel) -> Option<TypeModel> {
    match spec_ungroup(t) {
        TypeModel::Path { segments, .. } => if segments@.len() > 0 {
            let seg = segments@.last();
            if seg.ident@ == "Option"@ {
                match seg.args {
                    SegmentArgs::Angle(args) => if args@.len() == 1 {
                        match args@[0] {
                            GenericArg::Type(inner) => Some(inner),
                            GenericArg::Other => None,
                        }
                    } else {
                        None
                    },
                    _ => None,
                }
            } else {
                None
            }
        } else {
            None
        },
        _ => None,
    }
}

/// The type is `String`: its last path segment is `String`, without arguments.
pub open spec fn spec_is_string(t: TypeModel) -> bool {
    match spec_ungroup(t) {
        TypeModel::Path { segments, .. } => segments@.len() > 0 && segments@.last().ident@
            == "String"@ && segments@.last().args is Bare,
        _ => false,
    }
}

/// Removes invisible groups around a type.
pub fn ungroup(t: &TypeModel) -> (r: &TypeModel)
    ensures
        *r == spec_ungroup(*t),
    decreases t,
{
    match t {
        TypeModel::Group { elem, .. } => ungroup(elem),
        _ => t,
    }
}

/// The `T` of an `Option<T>` type.
pub fn unwrap_option(t: &TypeModel) -> (r: Option<&TypeModel>)
    ensures
        match r {
            Some(inner) => spec_unwrap_option(*t) == Some(*inner),
            None => spec_unwrap_option(*t) is None,
        },
{
    match ungroup(t) {
        TypeModel::Path { segments, .. } => {
            if segments.len() == 0 {
                return None;
            }
            let seg = &segments[segments.len() - 1];
            if !str_eq(seg.ident.as_str(), "Option") {
                return None;
            }
            match &seg.args {
                SegmentArgs::Angle(args) => {
                    if args.len() != 1 {
                        return None;
                    }
                    match &args[0] {
                        GenericArg::Type(inner) => Some(inner),
                        GenericArg::Other => None,
                    }
                },
                _ => None,
            }
        },
        _ => None,
    }
}

/// Whether the type is `String`.
pub fn is_string(t: &TypeModel) -> (r: bool)
    ensures
        r == spec_is_string(*t),
{
    match ungroup(t) {
        TypeModel::Path { segments, .. } => {
            if segments.len() == 0 {
                return false;
            }
            let seg = &segments[segments.len() - 1];
            str_eq(seg.ident.as_str(), "String") && match seg.args {
                SegmentArgs::Bare => true,
                _ => false,
            }
        },
        _ => false,
    }
}

/// Token text of the type.
pub fn type_text(t: &TypeModel) -> (r: &String)
    ensures
        *r == t.text(),
{
    match t {
        TypeModel::Path { text, .. } => text,
        TypeModel::Group { text, .. } => text,
        TypeModel::Other { text } => text,
    }
}

/// What the generator needs to know of a type: whether it is `String`, and
/// whether it is `Option<T>`, with `T`'s text and whether `T` is `String`.
pub struct TypeShape {
    pub is_string: bool,
    pub option_inner: Option<(String, bool)>,
}

pub open spec fn spec_shape(t: TypeModel) -> TypeShape {
    TypeShape {
        is_string: spec_is_string(t),
        option_inner: match spec_unwrap_option(t) {
            Some(inner) => Some((inner.text(), spec_is_string(inner))),
            None => None,
        },
    }
}

/// The shape of a type.
pub fn shape_of(t: &TypeModel) -> (r: TypeShape)
    ensures
        r == spec_shape(*t),
{
    let option_inner = match unwrap_option(t) {
        Some(inner) => Some((type_text(inner).clone(), is_string(inner))),
        None => None,
    };
    TypeShape { is_string: is_string(t), option_inner }
}

} // verus!
