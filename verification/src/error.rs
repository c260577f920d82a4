//! Errors raised while reading the annotated struct.

use vstd::prelude::*;
use crate::attr::{FieldAttr, Shape};
use crate::attr::spec_field_attr_name;
use crate::ident::Ident;
use crate::outside::{type_path_error, type_path_error_text};
use crate::text::{concat2, concat3};

verus! {

/// Why an annotated struct could not be accepted.
#[derive(Debug)]
pub enum ParseError {
    EnumUnsupported { span: u64 },
    UnionUnsupported { span: u64 },
    UnnamedStructUnsupported { span: u64 },
    UnitStructUnsupported { span: u64 },
    UnknownStructSuffix { name: String, suffixes: String, span: u64 },
    UnknownAttr { ident: Ident },
    InvalidAttrExpr { span: u64 },
    DuplicateAttr { ident: Ident },
    IncompatibleAttrs { ident: Ident, other: Ident },
    ImplicitAttr { ident: Ident, other: Ident },
    InvalidAttrShape { ident: Ident, shape: Shape },
    MissingAttrDep { present: Ident, missing: FieldAttr },
    AttrOptionUnsupported { ident: Ident },
    ExpectedIdent { path: String, span: u64 },
    InvalidTypePath { text: String, span: u64 },
    InvalidDocAttr { detail: String, span: u64 },
}

/// How a key's shape is named in messages.
pub open spec fn shape_name(s: Shape) -> Seq<char> {
    match s {
        Shape::Flag => "Flag"@,
        Shape::KeyValue => "KeyValue"@,
        Shape::List => "List"@,
    }
}

fn shape_name_text(s: Shape) -> (r: &'static str)
    ensures
        r@ == shape_name(s),
{
    match s {
        Shape::Flag => "Flag",
        Shape::KeyValue => "KeyValue",
        Shape::List => "List",
    }
}

/// The message reported for `e`.
pub open spec fn spec_message(e: ParseError) -> Seq<char> {
    match e {
        ParseError::EnumUnsupported { .. } => "Enums are not supported"@,
        ParseError::UnionUnsupported { .. } => "Unions are not supported"@,
        ParseError::UnnamedStructUnsupported { .. } => "Unnamed structs are not supported"@,
        ParseError::UnitStructUnsupported { .. } => "Union structs are not supported"@,
        ParseError::UnknownStructSuffix { name, suffixes, .. } => "Expected struct name '"@ + name@
            + "' to end with one of: "@ + suffixes@,
        ParseError::UnknownAttr { ident } => "Unknown attribute: '"@ + ident.name@ + "'"@,
        ParseError::InvalidAttrExpr { .. } => "Invalid attribute expression type"@,
        ParseError::DuplicateAttr { ident } => "Attribute '"@ + ident.name@ + "' specified multiple times"@,
        ParseError::IncompatibleAttrs { ident, other } => "Attribute '"@ + ident.name@
            + "' cannot be used with '"@ + other.name@ + "'"@,
        ParseError::ImplicitAttr { ident, other } => "Attribute '"@ + ident.name@
            + "' is automatically implied by '"@ + other.name@ + "'"@,
        ParseError::InvalidAttrShape { ident, shape } => "Unexpected shape "@ + shape_name(shape)
            + " for attribute '"@ + ident.name@ + "'"@,
        ParseError::MissingAttrDep { present, missing } => "Missing attribute '"@
            + spec_field_attr_name(missing) + "', which is required while using '"@ + present.name@
            + "'"@,
        ParseError::AttrOptionUnsupported { ident } => "Attribute '"@ + ident.name@
            + "' cannot be used with Option types"@,
        ParseError::ExpectedIdent { .. } => "expected this path to be an identifier"@,
        ParseError::InvalidTypePath { text, .. } => match type_path_error(text@) {
            Some(m) => m,
            None => "expected a type path"@,
        },
        ParseError::InvalidDocAttr { detail, .. } => detail@,
    }
}

/// The source position an error points at.
pub open spec fn spec_span(e: ParseError) -> u64 {
    match e {
        ParseError::EnumUnsupported { span } => span,
        ParseError::UnionUnsupported { span } => span,
        ParseError::UnnamedStructUnsupported { span } => span,
        ParseError::UnitStructUnsupported { span } => span,
        ParseError::UnknownStructSuffix { span, .. } => span,
        ParseError::UnknownAttr { ident } => ident.span,
        ParseError::InvalidAttrExpr { span } => span,
        ParseError::DuplicateAttr { ident } => ident.span,
        ParseError::IncompatibleAttrs { ident, .. } => ident.span,
        ParseError::ImplicitAttr { ident, .. } => ident.span,
        ParseError::InvalidAttrShape { ident, .. } => ident.span,
        ParseError::MissingAttrDep { present, .. } => present.span,
        ParseError::AttrOptionUnsupported { ident } => ident.span,
        ParseError::ExpectedIdent { span, .. } => span,
        ParseError::InvalidTypePath { span, .. } => span,
        ParseError::InvalidDocAttr { span, .. } => span,
    }
}

fn quoted(head: &str, name: &str, tail: &str) -> (r: String)
    ensures
        r@ == head@ + name@ + tail@,
{
    concat3(head, name, tail)
}

impl ParseError {
    /// The message reported for this error.
    pub fn message(&self) -> (r: String)
        ensures
            r@ == spec_message(*self),
    {
        match self {
            ParseError::EnumUnsupported { .. } => String::from_str("Enums are not supported"),
            ParseError::UnionUnsupported { .. } => String::from_str("Unions are not supported"),
            ParseError::UnnamedStructUnsupported { .. } => String::from_str(
                "Unnamed structs are not supported",
            ),
            ParseError::UnitStructUnsupported { .. } => String::from_str("Union structs are not supported"),
            ParseError::UnknownStructSuffix { name, suffixes, .. } => {
                let mut out = quoted("Expected struct name '", name.as_str(), "' to end with one of: ");
                out.append(suffixes.as_str());
                out
            },
            ParseError::UnknownAttr { ident } => quoted("Unknown attribute: '", ident.name.as_str(), "'"),
            ParseError::InvalidAttrExpr { .. } => String::from_str("Invalid attribute expression type"),
            ParseError::DuplicateAttr { ident } => quoted(
                "Attribute '",
                ident.name.as_str(),
                "' specified multiple times",
            ),
            ParseError::IncompatibleAttrs { ident, other } => {
                let mut out = quoted("Attribute '", ident.name.as_str(), "' cannot be used with '");
                out.append(other.name.as_str());
                out.append("'");
                out
            },
            ParseError::ImplicitAttr { ident, other } => {
                let mut out = quoted("Attribute '", ident.name.as_str(), "' is automatically implied by '");
                out.append(other.name.as_str());
                out.append("'");
                out
            },
            ParseError::InvalidAttrShape { ident, shape } => {
                let mut out = concat2("Unexpected shape ", shape_name_text(*shape));
                out.append(" for attribute '");
                out.append(ident.name.as_str());
                out.append("'");
                out
            },
            ParseError::MissingAttrDep { present, missing } => {
                let mut out = quoted("Missing attribute '", missing.as_str(), "', which is required while using '");
                out.append(present.name.as_str());
                out.append("'");
                out
            },
            ParseError::AttrOptionUnsupported { ident } => quoted(
                "Attribute '",
                ident.name.as_str(),
                "' cannot be used with Option types",
            ),
            ParseError::ExpectedIdent { .. } => String::from_str("expected this path to be an identifier"),
            ParseError::InvalidTypePath { text, .. } => match type_path_error_text(text.as_str()) {
                Some(m) => m,
                None => String::from_str("expected a type path"),
            },
            ParseError::InvalidDocAttr { detail, .. } => detail.clone(),
        }
    }

    /// The source position this error points at.
    pub fn span(&self) -> (r: u64)
        ensures
            r == spec_span(*self),
    {
        match self {
            ParseError::EnumUnsupported { span } => *span,
            ParseError::UnionUnsupported { span } => *span,
            ParseError::UnnamedStructUnsupported { span } => *span,
            ParseError::UnitStructUnsupported { span } => *span,
            ParseError::UnknownStructSuffix { span, .. } => *span,
            ParseError::UnknownAttr { ident } => ident.span,
            ParseError::InvalidAttrExpr { span } => *span,
            ParseError::DuplicateAttr { ident } => ident.span,
            ParseError::IncompatibleAttrs { ident, .. } => ident.span,
            ParseError::ImplicitAttr { ident, .. } => ident.span,
            ParseError::InvalidAttrShape { ident, .. } => ident.span,
            ParseError::MissingAttrDep { present, .. } => present.span,
            ParseError::AttrOptionUnsupported { ident } => ident.span,
            ParseError::ExpectedIdent { span, .. } => *span,
            ParseError::InvalidTypePath { span, .. } => *span,
            ParseError::InvalidDocAttr { span, .. } => *span,
        }
    }
}

} // verus!
