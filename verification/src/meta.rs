//! What the library reads of an attribute's contents: its keys with their
//! shapes, and the expressions written as values.

use vstd::prelude::*;
use crate::error::ParseError;
use crate::ident::Ident;

verus! {

/// A path as written at the head of an attribute key.
///
/// `ident` is present when the path is a single identifier; `text` is the
/// path as written.
pub struct MetaPath {
    pub ident: Option<Ident>,
    pub text: String,
    pub span: u64,
}

/// The kind of expression written as an attribute value.
#[derive(Debug, Copy, Clone, PartialEq, Eq, Structural)]
pub enum ExprKind {
    Lit,
    Path,
    Call,
    Other,
}

/// An expression written as an attribute value, with its token text.
pub struct ExprModel {
    pub kind: ExprKind,
    pub text: String,
    pub span: u64,
    /// The same tokens read as a type, when they form one.
    pub as_type: Option<crate::ty::TypeModel>,
}

/// One `key`, `key = value` or `key(..)` entry of an attribute.
pub enum MetaItem {
    Path(MetaPath),
    /// `items` holds the comma-separated entries inside the brackets, as written.
    List { path: MetaPath, items: Vec<String> },
    NameValue { path: MetaPath, value: ExprModel },
}

impl MetaItem {
    pub open spec fn path(self) -> MetaPath {
        match self {
            MetaItem::Path(p) => p,
            MetaItem::List { path, .. } => path,
            MetaItem::NameValue { path, .. } => path,
        }
    }

    pub open spec fn shape(self) -> crate::attr::Shape {
        match self {
            MetaItem::Path(_) => crate::attr::Shape::Flag,
            MetaItem::List { .. } => crate::attr::Shape::List,
            MetaItem::NameValue { .. } => crate::attr::Shape::KeyValue,
        }
    }
}

/// The path's single identifier, or the error syn gives for a longer path.
pub fn require_ident(path: &MetaPath) -> (r: Result<Ident, ParseError>)
    ensures
        match path.ident {
            Some(i) => r == Ok::<Ident, ParseError>(i),
            None => r == Err::<Ident, ParseError>(
                ParseError::ExpectedIdent { path: path.text, span: path.span },
            ),
        },
{
    match &path.ident {
        Some(i) => Ok(i.duplicate()),
        None => Err(ParseError::ExpectedIdent { path: path.text.clone(), span: path.span }),
    }
}

/// Kinds of expression accepted as a library default.
#[derive(Debug, Copy, Clone, PartialEq, Eq, Structural)]
pub enum AttrExprKind {
    Lit,
    Path,
    Call,
}

/// An expression accepted as a library default: a literal, a path or a call.
pub struct AttrExpr {
    pub kind: AttrExprKind,
    pub text: String,
}

/// The default expression read from `expr`, if its kind is accepted.
pub open spec fn spec_attr_expr(expr: ExprModel) -> Result<AttrExpr, ParseError> {
    match expr.kind {
        ExprKind::Lit => Ok(AttrExpr { kind: AttrExprKind::Lit, text: expr.text }),
        ExprKind::Path => Ok(AttrExpr { kind: AttrExprKind::Path, text: expr.text }),
        ExprKind::Call => Ok(AttrExpr { kind: AttrExprKind::Call, text: expr.text }),
        ExprKind::Other => Err(ParseError::InvalidAttrExpr { span: expr.span }),
    }
}

impl AttrExpr {
    /// The expression `None`.
    pub fn none_expr() -> (r: AttrExpr)
        ensures
            r.kind == AttrExprKind::Path,
            r.text@ == "None"@,
    {
        AttrExpr { kind: AttrExprKind::Path, text: String::from_str("None") }
    }

    /// Accepts a literal, a path or a call; rejects any other expression.
    pub fn try_from_expr(expr: &ExprModel) -> (r: Result<AttrExpr, ParseError>)
        ensures
            r == spec_attr_expr(*expr),
    {
        match expr.kind {
            ExprKind::Lit => Ok(AttrExpr { kind: AttrExprKind::Lit, text: expr.text.clone() }),
            ExprKind::Path => Ok(AttrExpr { kind: AttrExprKind::Path, text: expr.text.clone() }),
            ExprKind::Call => Ok(AttrExpr { kind: AttrExprKind::Call, text: expr.text.clone() }),
            ExprKind::Other => Err(ParseError::InvalidAttrExpr { span: expr.span }),
        }
    }

    /// Copies the expression.
    pub fn duplicate(&self) -> (r: AttrExpr)
        ensures
            r == *self,
    {
        AttrExpr { kind: self.kind, text: self.text.clone() }
    }
}

} // verus!
