//! Names and types of the generated structs.

use vstd::prelude::*;
use crate::structure::{GenericsModel, OriginStruct};
use crate::text::{concat2, concat3};

verus! {

/// Name of the override struct: the struct's name with `Override` placed
/// before its suffix (`FooConfig` becomes `FooOverrideConfig`).
pub open spec fn spec_override_ident(name: Seq<char>, suffix: Seq<char>) -> Seq<char> {
    name.subrange(0, name.len() - suffix.len()) + "Override"@ + suffix
}

/// Name of the builder struct: the struct's name followed by `Builder`.
pub open spec fn spec_builder_ident(name: Seq<char>) -> Seq<char> {
    name + "Builder"@
}

/// Builds the override struct's name from the struct's name and its suffix.
pub fn generate_override_ident(name: &str, suffix: &str) -> (r: String)
    requires
        suffix@.len() <= name@.len(),
    ensures
        r@ == spec_override_ident(name@, suffix@),
{
    let n = name.unicode_len();
    let m = suffix.unicode_len();
    let prefix = name.substring_char(0, n - m);
    concat3(prefix, "Override", suffix)
}

/// Builds the builder struct's name.
pub fn generate_builder_ident(name: &str) -> (r: String)
    ensures
        r@ == spec_builder_ident(name@),
{
    concat2(name, "Builder")
}

/// A type named `ident` with the struct's type parameters.
pub fn build_type(ident: &str, generics: &GenericsModel) -> (r: String)
    ensures
        r@ == ident@ + generics.ty_text@,
{
    concat2(ident, generics.ty_text.as_str())
}

/// The generated names and types of one annotated struct.
pub struct Names {
    pub origin_ident: String,
    pub origin_ty: String,
    pub override_ident: String,
    pub override_ty: String,
    pub builder_ident: String,
    pub builder_ty: String,
}

pub open spec fn names_of(o: OriginStruct, n: Names) -> bool {
    &&& n.origin_ident@ == o.ident.name@
    &&& n.origin_ty@ == o.ty@
    &&& n.override_ident@ == spec_override_ident(o.ident.name@, o.suffix@)
    &&& n.override_ty@ == spec_override_ident(o.ident.name@, o.suffix@) + o.generics.ty_text@
    &&& n.builder_ident@ == spec_builder_ident(o.ident.name@)
    &&& n.builder_ty@ == spec_builder_ident(o.ident.name@) + o.generics.ty_text@
}

/// The generated names of `o`.
pub fn names(o: &OriginStruct) -> (r: Names)
    requires
        o.suffix@.len() <= o.ident.name@.len(),
    ensures
        names_of(*o, r),
{
    let name = o.ident.name.as_str();
    let override_ident = generate_override_ident(name, o.suffix.as_str());
    let override_ty = build_type(override_ident.as_str(), &o.generics);
    let builder_ident = generate_builder_ident(name);
    let builder_ty = build_type(builder_ident.as_str(), &o.generics);
    Names {
        origin_ident: o.ident.name.clone(),
        origin_ty: o.ty.clone(),
        override_ident,
        override_ty,
        builder_ident,
        builder_ty,
    }
}

} // verus!
