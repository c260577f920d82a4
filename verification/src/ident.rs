//! Identifiers as the library sees them: a name and the source position it
//! was written at, so that errors can point back to it.

use vstd::prelude::*;

verus! {

/// An identifier taken from the annotated struct.
///
/// `span` is an opaque position number handed in by the caller; the library
/// only carries it through to errors and generated output.
#[derive(Debug)]
pub struct Ident {
    pub name: String,
    pub span: u64,
}

impl Ident {
    /// Creates an identifier.
    pub fn new(name: String, span: u64) -> (r: Ident)
        ensures
            r.name@ == name@,
            r.span == span,
    {
        Ident { name, span }
    }

    /// Copies the identifier.
    pub fn duplicate(&self) -> (r: Ident)
        ensures
            r == *self,
    {
        Ident { name: self.name.clone(), span: self.span }
    }
}

} // verus!
