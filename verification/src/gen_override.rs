//! Source text of the override struct: the type whose values are read at
//! run time and merged over the configured values.

use vstd::prelude::*;
use crate::doc::{field_doc, field_docs, string_literal, string_literal_text};
use crate::names::Names;
use crate::origin::OriginField;
use crate::structure::OriginStruct;
use crate::text::{concat2, concat3, views};
use crate::ty::{TypeShape, shape_of, spec_shape, type_text};

verus! {

/// Visibility of generated override fields: crate-private when the struct is
/// deserialized, public otherwise so that it can be written out by hand.
pub open spec fn vis(serde: bool) -> Seq<char> {
    if serde {
        "pub(crate)"@
    } else {
        "pub"@
    }
}

pub fn vis_text(serde: bool) -> (r: &'static str)
    ensures
        r@ == vis(serde),
{
    if serde {
        "pub(crate)"
    } else {
        "pub"
    }
}

/// The type a field is given in the override struct before `Option` wrapping:
/// the `override_from` type, else the field type without `Option`.
pub open spec fn override_base(f: OriginField) -> Seq<char> {
    match f.attrs@.override_from {
        Some(t) => t,
        None => f.spec_flat_ty().text()@,
    }
}

/// The type of a field in the override struct.
pub open spec fn override_field_ty(f: OriginField) -> Seq<char> {
    if f.attrs@.override_required {
        override_base(f)
    } else {
        "Option<"@ + override_base(f) + ">"@
    }
}

/// What is known of the shape of `override_base(f)`.
pub open spec fn override_base_shape(f: OriginField) -> Option<TypeShape> {
    match f.attrs@.override_from {
        Some(_) => f.attrs@.override_from_shape,
        None => Some(spec_shape(f.spec_flat_ty())),
    }
}

/// How an override getter returns its field.
#[derive(PartialEq, Eq, Structural)]
pub enum GetterKind {
    /// The value itself (`copy` field without a mapped type).
    Direct,
    /// `Option<&str>`, for an `Option<String>`.
    OptionStr,
    /// `Option<&T>`, for an `Option<T>`.
    OptionRef,
    /// `&str`, for a `String`.
    Str,
    /// `&T`, for any other type.
    Ref,
}

/// The getter return rules of the attribute reference: a `copy` field
/// without `override_from` is returned as is; an `Option<String>` as
/// `Option<&str>`; another `Option<T>` as `Option<&T>`; a `String` as
/// `&str`; anything else by reference. The type considered is the field's
/// type in the override struct.
pub open spec fn getter_kind_of(f: OriginField) -> GetterKind {
    if f.attrs@.copy && f.attrs@.override_from is None {
        GetterKind::Direct
    } else if !f.attrs@.override_required {
        match override_base_shape(f) {
            Some(sh) => if sh.is_string {
                GetterKind::OptionStr
            } else {
                GetterKind::OptionRef
            },
            None => GetterKind::OptionRef,
        }
    } else {
        match override_base_shape(f) {
            Some(sh) => match sh.option_inner {
                Some((_, inner_is_string)) => if inner_is_string {
                    GetterKind::OptionStr
                } else {
                    GetterKind::OptionRef
                },
                None => if sh.is_string {
                    GetterKind::Str
                } else {
                    GetterKind::Ref
                },
            },
            None => GetterKind::Ref,
        }
    }
}

/// The `T` of the `Option<T>` an `OptionRef` getter refers into.
pub open spec fn option_ref_inner(f: OriginField) -> Seq<char> {
    if !f.attrs@.override_required {
        override_base(f)
    } else {
        match override_base_shape(f) {
            Some(sh) => match sh.option_inner {
                Some((t, _)) => t@,
                None => Seq::empty(),
            },
            None => Seq::empty(),
        }
    }
}

/// How the override getter of `f` returns it, and for `OptionRef` the
/// referred-to type.
pub fn getter_kind(f: &OriginField) -> (r: (GetterKind, String))
    ensures
        r.0 == getter_kind_of(*f),
        r.0 == GetterKind::OptionRef ==> r.1@ == option_ref_inner(*f),
{
    if f.attrs.copy && f.attrs.override_from.is_none() {
        return (GetterKind::Direct, String::new());
    }
    let shape: Option<TypeShape> = match &f.attrs.override_from {
        Some(_) => match &f.attrs.override_from_shape {
            Some(sh) => Some(
                TypeShape {
                    is_string: sh.is_string,
                    option_inner: match &sh.option_inner {
                        Some((t, b)) => Some((t.clone(), *b)),
                        None => None,
                    },
                },
            ),
            None => None,
        },
        None => Some(shape_of(f.flat_ty())),
    };
    if !f.attrs.override_required {
        match shape {
            Some(sh) => if sh.is_string {
                (GetterKind::OptionStr, String::new())
            } else {
                (GetterKind::OptionRef, override_base_text(f))
            },
            None => (GetterKind::OptionRef, override_base_text(f)),
        }
    } else {
        match shape {
            Some(sh) => match sh.option_inner {
                Some((inner, inner_is_string)) => if inner_is_string {
                    (GetterKind::OptionStr, String::new())
                } else {
                    (GetterKind::OptionRef, inner)
                },
                None => if sh.is_string {
                    (GetterKind::Str, String::new())
                } else {
                    (GetterKind::Ref, String::new())
                },
            },
            None => (GetterKind::Ref, String::new()),
        }
    }
}

/// Text of `override_base(f)`.
pub fn override_base_text(f: &OriginField) -> (r: String)
    ensures
        r@ == override_base(*f),
{
    match &f.attrs.override_from {
        Some(t) => t.clone(),
        None => type_text(f.flat_ty()).clone(),
    }
}

/// Text of `override_field_ty(f)`.
pub fn override_field_ty_text(f: &OriginField) -> (r: String)
    ensures
        r@ == override_field_ty(*f),
{
    let base = override_base_text(f);
    if f.attrs.override_required {
        base
    } else {
        concat3("Option<", base.as_str(), ">")
    }
}

/// Return type of the override getter.
pub open spec fn getter_ret_ty(f: OriginField) -> Seq<char> {
    match getter_kind_of(f) {
        GetterKind::Direct => if f.attrs@.override_required {
            f.spec_flat_ty().text()@
        } else {
            "Option<"@ + f.spec_flat_ty().text()@ + ">"@
        },
        GetterKind::OptionStr => "Option<&str>"@,
        GetterKind::OptionRef => "Option<&"@ + option_ref_inner(f) + ">"@,
        GetterKind::Str => "&str"@,
        GetterKind::Ref => "&"@ + override_field_ty(f),
    }
}

/// Body of the override getter.
pub open spec fn getter_ret_expr(f: OriginField) -> Seq<char> {
    let inner = "self."@ + f.ident.name@;
    match getter_kind_of(f) {
        GetterKind::Direct => inner,
        GetterKind::OptionStr => inner + ".as_ref().map(|s| s.as_str())"@,
        GetterKind::OptionRef => inner + ".as_ref()"@,
        GetterKind::Str => inner + ".as_str()"@,
        GetterKind::Ref => "&"@ + inner,
    }
}

/// The override getter of `f`.
pub open spec fn override_getter(f: OriginField) -> Seq<char> {
    field_doc(f) + "#[must_use]\npub fn "@ + f.ident.name@ + "(&self) -> "@ + getter_ret_ty(f)
        + " {\n"@ + getter_ret_expr(f) + "\n}\n"@
}

/// Writes the override getter of `f`.
pub fn override_getter_text(f: &OriginField) -> (r: String)
    ensures
        r@ == override_getter(*f),
{
    let (k, inner_ty) = getter_kind(f);
    let ret_ty = match k {
        GetterKind::Direct => if f.attrs.override_required {
            type_text(f.flat_ty()).clone()
        } else {
            concat3("Option<", type_text(f.flat_ty()).as_str(), ">")
        },
        GetterKind::OptionStr => String::from_str("Option<&str>"),
        GetterKind::OptionRef => concat3("Option<&", inner_ty.as_str(), ">"),
        GetterKind::Str => String::from_str("&str"),
        GetterKind::Ref => concat2("&", override_field_ty_text(f).as_str()),
    };
    let inner = concat2("self.", f.ident.name.as_str());
    let ret = match k {
        GetterKind::Direct => inner,
        GetterKind::OptionStr => concat2(inner.as_str(), ".as_ref().map(|s| s.as_str())"),
        GetterKind::OptionRef => concat2(inner.as_str(), ".as_ref()"),
        GetterKind::Str => concat2(inner.as_str(), ".as_str()"),
        GetterKind::Ref => concat2("&", inner.as_str()),
    };
    let docs = field_docs(f).to_text();
    let mut out = docs;
    out.append("#[must_use]\npub fn ");
    out.append(f.ident.name.as_str());
    out.append("(&self) -> ");
    out.append(ret_ty.as_str());
    out.append(" {\n");
    out.append(ret.as_str());
    out.append("\n}\n");
    out
}

/// The `#[serde(..)]` attribute of a reset flag: a default of `false` and
/// the alias names.
pub open spec fn unset_serde_attr(name: Seq<char>) -> Seq<char> {
    "#[serde(default, alias = "@ + string_literal(name + "_reset"@) + ", alias = "@ + string_literal(
        name + "_revert"@,
    ) + ", alias = "@ + string_literal(name + "_clear"@) + ", alias = "@ + string_literal(
        name + "_default"@,
    ) + ")]\n"@
}

/// The reset flag that follows a field with a library default.
pub open spec fn unset_tail(name: Seq<char>, serde: bool) -> Seq<char> {
    (if serde {
        unset_serde_attr(name)
    } else {
        Seq::empty()
    }) + "/// flag allowing for reverting a builder-configured\n/// setting at runtime\n"@ + vis(serde)
        + " "@ + (name + "_unset"@) + ": bool,\n"@
}

/// Text of a field of the override struct, followed by its reset flag when it has one.
pub open spec fn override_field(f: OriginField, serde: bool) -> Seq<char> {
    let main = field_doc(f) + bracket_lines(views(f.attrs.override_attrs@)) + vis(serde) + " "@ + f.ident.name@ + ": "@ + override_field_ty(f) + ",\n"@;
    if f.spec_with_unset_field() {
        main + unset_tail(f.ident.name@, serde)
    } else {
        main
    }
}

/// Each attribute text wrapped in `#[..]`, on a line of its own.
pub open spec fn bracket_lines(attrs: Seq<Seq<char>>) -> Seq<char>
    decreases attrs.len(),
{
    if attrs.len() == 0 {
        Seq::empty()
    } else {
        bracket_lines(attrs.drop_last()) + "#["@ + attrs.last() + "]\n"@
    }
}

/// Writes each attribute text wrapped in `#[..]`, on a line of its own.
pub fn bracket_lines_text(attrs: &Vec<String>) -> (r: String)
    ensures
        r@ == bracket_lines(views(attrs@)),
{
    let mut out = String::new();
    let mut i: usize = 0;
    while i < attrs.len()
        invariant
            i <= attrs@.len(),
            out@ == bracket_lines(views(attrs@.take(i as int))),
        decreases attrs.len() - i,
    {
        proof {
            assert(views(attrs@.take(i + 1)).drop_last() =~= views(attrs@.take(i as int)));
        }
        out.append("#[");
        out.append(attrs[i].as_str());
        out.append("]\n");
        i = i + 1;
    }
    proof {
        assert(attrs@.take(attrs@.len() as int) =~= attrs@);
    }
    out
}

/// Writes the `#[serde(..)]` attribute of a reset flag.
pub fn unset_serde_attr_text(name: &str) -> (r: String)
    ensures
        r@ == unset_serde_attr(name@),
{
    let mut out = String::from_str("#[serde(default, alias = ");
    out.append(string_literal_text(concat2(name, "_reset").as_str()).as_str());
    out.append(", alias = ");
    out.append(string_literal_text(concat2(name, "_revert").as_str()).as_str());
    out.append(", alias = ");
    out.append(string_literal_text(concat2(name, "_clear").as_str()).as_str());
    out.append(", alias = ");
    out.append(string_literal_text(concat2(name, "_default").as_str()).as_str());
    out.append(")]\n");
    out
}

/// Writes a field of the override struct.
pub fn override_field_text(f: &OriginField, serde: bool) -> (r: String)
    ensures
        r@ == override_field(*f, serde),
{
    let mut out = field_docs(f).to_text();
    let attrs = bracket_lines_text(&f.attrs.override_attrs);
    out.append(attrs.as_str());
    out.append(vis_text(serde));
    out.append(" ");
    out.append(f.ident.name.as_str());
    out.append(": ");
    out.append(override_field_ty_text(f).as_str());
    out.append(",\n");
    let ghost main = out@;
    match f.unset_ident() {
        Some(unset) => {
            let mut tail = if serde {
                unset_serde_attr_text(f.ident.name.as_str())
            } else {
                String::new()
            };
            tail.append("/// flag allowing for reverting a builder-configured\n/// setting at runtime\n");
            tail.append(vis_text(serde));
            tail.append(" ");
            tail.append(unset.as_str());
            tail.append(": bool,\n");
            assert(tail@ =~= unset_tail(f.ident.name@, serde));
            out.append(tail.as_str());
            assert(out@ =~= override_field(*f, serde));
        },
        None => {},
    }
    out
}

} // verus!
