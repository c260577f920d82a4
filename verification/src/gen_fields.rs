//! Source text generated once per field: builder setters, config getters,
//! constructor assignments, merge steps and constructor parameters.

use vstd::prelude::*;
use crate::doc::field_doc;
use crate::doc::field_docs;
use crate::gen_override::{override_field, override_field_text, override_getter, override_getter_text};
use crate::gen_override::GetterKind;
use crate::origin::OriginField;
use crate::text::{concat2, concat3};
use crate::ty::{shape_of, spec_shape, type_text};

verus! {

/// Marks what is generated for the builder.
#[derive(Debug, Copy, Clone)]
pub struct BuilderVariant;

/// Marks what is generated for the config struct itself.
#[derive(Debug, Copy, Clone)]
pub struct ConfigVariant;

/// Marks what is generated for the override struct.
#[derive(Debug, Copy, Clone)]
pub struct OverrideVariant;

/// The parts of generated code that are written once per field.
#[derive(PartialEq, Eq, Structural, Clone, Copy)]
pub enum Section {
    /// A field of the override struct (with its reset flag).
    OverrideField,
    /// A placeholder keeping a skipped field's type parameter in use.
    PhantomField,
    /// A getter of the override struct.
    OverrideGetter,
    /// A setter of the builder.
    Setter,
    /// A field assignment in the config constructor.
    ConfigAssign,
    /// A getter of the config struct.
    ConfigGetter,
    /// A step of `merge_with_override`.
    MergeStep,
    /// A constructor parameter.
    Param,
    /// A constructor argument.
    Arg,
}

/// A field is passed to the constructors by value: it has no library
/// default and is not read from the override.
pub open spec fn is_ctor_param(f: OriginField) -> bool {
    !f.attrs@.override_required && !f.spec_is_optional()
}

/// The placeholder field kept in the override struct for a skipped field of
/// a generic struct.
pub open spec fn phantom_field(f: OriginField, serde: bool) -> Seq<char> {
    (if serde {
        "#[serde(default)]\n"@
    } else {
        Seq::empty()
    }) + "_"@ + f.ident.name@ + ": ::std::marker::PhantomData<"@ + f.ty.text()@ + ">,\n"@
}

/// A builder setter: it assigns the value to the config being built.
pub open spec fn builder_setter(f: OriginField) -> Seq<char> {
    field_doc(f) + "pub fn "@ + f.ident.name@ + "(mut self, val: "@ + f.ty.text()@
        + ") -> Self {\nself.staged.inner."@ + f.ident.name@ + " = val;\nself\n}\n"@
}

/// How the config getter returns its field, by the attribute reference's
/// getter rules applied to the field's own type: a `copy` field by value;
/// an `Option<String>` as `Option<&str>`; another `Option<T>` as
/// `Option<&T>`; a `String` as `&str`; anything else by reference.
pub open spec fn config_getter_kind(f: OriginField) -> GetterKind {
    if f.attrs@.copy {
        GetterKind::Direct
    } else {
        match spec_shape(f.ty).option_inner {
            Some((_, inner_is_string)) => if inner_is_string {
                GetterKind::OptionStr
            } else {
                GetterKind::OptionRef
            },
            None => if spec_shape(f.ty).is_string {
                GetterKind::Str
            } else {
                GetterKind::Ref
            },
        }
    }
}

/// The `T` of an `Option<T>` field, empty for another type.
pub open spec fn option_inner_text(f: OriginField) -> Seq<char> {
    match spec_shape(f.ty).option_inner {
        Some((t, _)) => t@,
        None => Seq::empty(),
    }
}

/// Return type of the config getter.
pub open spec fn config_getter_ret_ty(f: OriginField) -> Seq<char> {
    match config_getter_kind(f) {
        GetterKind::Direct => f.ty.text()@,
        GetterKind::OptionStr => "Option<&str>"@,
        GetterKind::OptionRef => "Option<&"@ + option_inner_text(f) + ">"@,
        GetterKind::Str => "&str"@,
        GetterKind::Ref => "&"@ + f.ty.text()@,
    }
}

/// Body of the config getter.
pub open spec fn config_getter_ret_expr(f: OriginField) -> Seq<char> {
    let inner = "self."@ + f.ident.name@;
    match config_getter_kind(f) {
        GetterKind::Direct => inner,
        GetterKind::OptionStr => inner + ".as_ref().map(|s| s.as_str())"@,
        GetterKind::OptionRef => inner + ".as_ref()"@,
        GetterKind::Str => inner + ".as_str()"@,
        GetterKind::Ref => "&"@ + inner,
    }
}

/// A config getter.
pub open spec fn config_getter(f: OriginField) -> Seq<char> {
    field_doc(f) + "#[must_use]\npub fn "@ + f.ident.name@ + "(&self) -> "@ + config_getter_ret_ty(f)
        + " {\n"@ + config_getter_ret_expr(f) + "\n}\n"@
}

/// An override value `x` converted to the field type: through the
/// `override_via` type when there is one, then with `.into()`, when the
/// override holds another type.
pub open spec fn mapped(f: OriginField, x: Seq<char>) -> Seq<char> {
    match f.attrs@.override_from {
        Some(_) => (match f.attrs@.override_via {
            Some(v) => "<"@ + v + ">::from("@ + x + ")"@,
            None => x,
        }) + ".into()"@,
        None => x,
    }
}

/// The value a field is built with in the config constructor: from the
/// override for an `override_required` field, from its parameter for a
/// field without default, else its library default.
pub open spec fn config_value(f: OriginField) -> Seq<char> {
    if f.attrs@.override_required {
        let inner = mapped(f, "override_conf."@ + f.ident.name@ + ".clone()"@);
        if f.spec_is_optional() {
            "Some("@ + inner + ")"@
        } else {
            inner
        }
    } else if !f.spec_is_optional() {
        f.ident.name@
    } else {
        match f.default {
            Some(d) => d.text@,
            None => Seq::empty(),
        }
    }
}

/// An assignment in the config constructor.
pub open spec fn config_assign(f: OriginField) -> Seq<char> {
    f.ident.name@ + ": "@ + config_value(f) + ",\n"@
}

/// The override value `val` as the field holds it: converted, and wrapped
/// in `Some` for an `Option` field.
pub open spec fn merge_value(f: OriginField) -> Seq<char> {
    if f.is_option {
        "Some("@ + mapped(f, "val"@) + ")"@
    } else {
        mapped(f, "val"@)
    }
}

/// The library default as source text, empty when there is none.
pub open spec fn default_text(f: OriginField) -> Seq<char> {
    match f.default {
        Some(d) => d.text@,
        None => Seq::empty(),
    }
}

/// The call that lands an override value on the field: `replace` for a
/// value that is always present, `apply` for an optional one, and
/// `apply_or_reset` when the field also has a reset flag.
pub open spec fn merge_call(f: OriginField) -> Seq<char> {
    let target = "&mut self."@ + f.ident.name@;
    let flag = "override_conf."@ + f.ident.name@ + "_unset"@;
    if f.attrs@.override_required {
        if f.spec_with_unset_field() {
            "::lib_conf::merge::apply_or_reset("@ + target + ", "@ + flag + ", Some("@ + merge_value(f)
                + "), || "@ + default_text(f) + ");\n"@
        } else {
            "::lib_conf::merge::replace("@ + target + ", "@ + merge_value(f) + ");\n"@
        }
    } else {
        let incoming = "val.map(|val| "@ + merge_value(f) + ")"@;
        if f.spec_with_unset_field() {
            "::lib_conf::merge::apply_or_reset("@ + target + ", "@ + flag + ", "@ + incoming + ", || "@
                + default_text(f) + ");\n"@
        } else {
            "::lib_conf::merge::apply("@ + target + ", "@ + incoming + ");\n"@
        }
    }
}

/// A step of `merge_with_override`.
pub open spec fn merge_step(f: OriginField) -> Seq<char> {
    "let val = override_conf."@ + f.ident.name@ + ".clone();\n"@ + merge_call(f)
}

/// What section `s` holds for field `f`; empty where the field takes no part.
pub open spec fn piece(f: OriginField, s: Section, serde: bool) -> Seq<char> {
    match s {
        Section::OverrideField => if f.attrs@.skip_override_field() {
            Seq::empty()
        } else {
            override_field(f, serde)
        },
        Section::PhantomField => if f.attrs@.skip_override_field() {
            phantom_field(f, serde)
        } else {
            Seq::empty()
        },
        Section::OverrideGetter => if f.attrs@.skip_override_field() {
            Seq::empty()
        } else {
            override_getter(f)
        },
        Section::Setter => if f.attrs@.skip_builder_setter() {
            Seq::empty()
        } else {
            builder_setter(f)
        },
        Section::ConfigAssign => config_assign(f),
        Section::ConfigGetter => if f.attrs@.skip_config_getter() {
            Seq::empty()
        } else {
            config_getter(f)
        },
        Section::MergeStep => if f.attrs@.skip_override_field() {
            Seq::empty()
        } else {
            merge_step(f)
        },
        Section::Param => if is_ctor_param(f) {
            f.ident.name@ + ": "@ + f.ty.text()@ + ", "@
        } else {
            Seq::empty()
        },
        Section::Arg => if is_ctor_param(f) {
            f.ident.name@ + ", "@
        } else {
            Seq::empty()
        },
    }
}

/// Section `s` written for each of `fields`, in order.
pub open spec fn each(fields: Seq<OriginField>, s: Section, serde: bool) -> Seq<char>
    decreases fields.len(),
{
    if fields.len() == 0 {
        Seq::empty()
    } else {
        each(fields.drop_last(), s, serde) + piece(fields.last(), s, serde)
    }
}

/// Writes the placeholder field of `f`.
pub fn phantom_field_text(f: &OriginField, serde: bool) -> (r: String)
    ensures
        r@ == phantom_field(*f, serde),
{
    let mut out = if serde {
        String::from_str("#[serde(default)]\n")
    } else {
        String::new()
    };
    out.append(f.phantom_ident().as_str());
    out.append(": ::std::marker::PhantomData<");
    out.append(type_text(&f.ty).as_str());
    out.append(">,\n");
    out
}

/// Writes the builder setter of `f`.
pub fn builder_setter_text(f: &OriginField) -> (r: String)
    ensures
        r@ == builder_setter(*f),
{
    let mut out = field_docs(f).to_text();
    out.append("pub fn ");
    out.append(f.ident.name.as_str());
    out.append("(mut self, val: ");
    out.append(type_text(&f.ty).as_str());
    out.append(") -> Self {\nself.staged.inner.");
    out.append(f.ident.name.as_str());
    out.append(" = val;\nself\n}\n");
    out
}

/// Writes the config getter of `f`.
pub fn config_getter_text(f: &OriginField) -> (r: String)
    ensures
        r@ == config_getter(*f),
{
    let sh = shape_of(&f.ty);
    let k = if f.attrs.copy {
        GetterKind::Direct
    } else {
        match &sh.option_inner {
            Some((_, inner_is_string)) => if *inner_is_string {
                GetterKind::OptionStr
            } else {
                GetterKind::OptionRef
            },
            None => if sh.is_string {
                GetterKind::Str
            } else {
                GetterKind::Ref
            },
        }
    };
    let ret_ty = match k {
        GetterKind::Direct => type_text(&f.ty).clone(),
        GetterKind::OptionStr => String::from_str("Option<&str>"),
        GetterKind::OptionRef => match &sh.option_inner {
            Some((t, _)) => concat3("Option<&", t.as_str(), ">"),
            None => concat3("Option<&", "", ">"),
        },
        GetterKind::Str => String::from_str("&str"),
        GetterKind::Ref => concat2("&", type_text(&f.ty).as_str()),
    };
    let inner = concat2("self.", f.ident.name.as_str());
    let ret = match k {
        GetterKind::Direct => inner,
        GetterKind::OptionStr => concat2(inner.as_str(), ".as_ref().map(|s| s.as_str())"),
        GetterKind::OptionRef => concat2(inner.as_str(), ".as_ref()"),
        GetterKind::Str => concat2(inner.as_str(), ".as_str()"),
        GetterKind::Ref => concat2("&", inner.as_str()),
    };
    let mut out = field_docs(f).to_text();
    out.append("#[must_use]\npub fn ");
    out.append(f.ident.name.as_str());
    out.append("(&self) -> ");
    out.append(ret_ty.as_str());
    out.append(" {\n");
    out.append(ret.as_str());
    out.append("\n}\n");
    out
}

/// Writes `mapped(f, x)`.
pub fn mapped_text(f: &OriginField, x: &str) -> (r: String)
    ensures
        r@ == mapped(*f, x@),
{
    match &f.attrs.override_from {
        Some(_) => {
            let mut out = match &f.attrs.override_via {
                Some(v) => {
                    let mut s = concat3("<", v.as_str(), ">::from(");
                    s.append(x);
                    s.append(")");
                    s
                },
                None => String::from_str(x),
            };
            out.append(".into()");
            out
        },
        None => String::from_str(x),
    }
}

/// Writes `config_value(f)`.
pub fn config_value_text(f: &OriginField) -> (r: String)
    ensures
        r@ == config_value(*f),
{
    if f.attrs.override_required {
        let src = concat3("override_conf.", f.ident.name.as_str(), ".clone()");
        let inner = mapped_text(f, src.as_str());
        if f.is_optional() {
            concat3("Some(", inner.as_str(), ")")
        } else {
            inner
        }
    } else if !f.is_optional() {
        f.ident.name.clone()
    } else {
        match &f.default {
            Some(d) => d.text.clone(),
            None => String::new(),
        }
    }
}

/// Writes the constructor assignment of `f`.
pub fn config_assign_text(f: &OriginField) -> (r: String)
    ensures
        r@ == config_assign(*f),
{
    let mut out = concat2(f.ident.name.as_str(), ": ");
    out.append(config_value_text(f).as_str());
    out.append(",\n");
    out
}

/// Writes `merge_value(f)`.
pub fn merge_value_text(f: &OriginField) -> (r: String)
    ensures
        r@ == merge_value(*f),
{
    let m = mapped_text(f, "val");
    if f.is_option {
        concat3("Some(", m.as_str(), ")")
    } else {
        m
    }
}

/// Writes `merge_call(f)`.
pub fn merge_call_text(f: &OriginField) -> (r: String)
    ensures
        r@ == merge_call(*f),
{
    let target = concat2("&mut self.", f.ident.name.as_str());
    let flag = concat3("override_conf.", f.ident.name.as_str(), "_unset");
    let value = merge_value_text(f);
    let dflt = match &f.default {
        Some(d) => d.text.clone(),
        None => String::new(),
    };
    let mut out;
    if f.attrs.override_required {
        if f.with_unset_field() {
            out = String::from_str("::lib_conf::merge::apply_or_reset(");
            out.append(target.as_str());
            out.append(", ");
            out.append(flag.as_str());
            out.append(", Some(");
            out.append(value.as_str());
            out.append("), || ");
            out.append(dflt.as_str());
            out.append(");\n");
        } else {
            out = String::from_str("::lib_conf::merge::replace(");
            out.append(target.as_str());
            out.append(", ");
            out.append(value.as_str());
            out.append(");\n");
        }
    } else {
        let incoming = concat3("val.map(|val| ", value.as_str(), ")");
        if f.with_unset_field() {
            out = String::from_str("::lib_conf::merge::apply_or_reset(");
            out.append(target.as_str());
            out.append(", ");
            out.append(flag.as_str());
            out.append(", ");
            out.append(incoming.as_str());
            out.append(", || ");
            out.append(dflt.as_str());
            out.append(");\n");
        } else {
            out = String::from_str("::lib_conf::merge::apply(");
            out.append(target.as_str());
            out.append(", ");
            out.append(incoming.as_str());
            out.append(");\n");
        }
    }
    out
}

/// Writes the merge step of `f`.
pub fn merge_step_text(f: &OriginField) -> (r: String)
    ensures
        r@ == merge_step(*f),
{
    let mut out = concat3("let val = override_conf.", f.ident.name.as_str(), ".clone();\n");
    out.append(merge_call_text(f).as_str());
    out
}

/// Writes what section `s` holds for `f`.
pub fn piece_text(f: &OriginField, s: Section, serde: bool) -> (r: String)
    ensures
        r@ == piece(*f, s, serde),
{
    match s {
        Section::OverrideField => if f.attrs.skip_override_field() {
            String::new()
        } else {
            override_field_text(f, serde)
        },
        Section::PhantomField => if f.attrs.skip_override_field() {
            phantom_field_text(f, serde)
        } else {
            String::new()
        },
        Section::OverrideGetter => if f.attrs.skip_override_field() {
            String::new()
        } else {
            override_getter_text(f)
        },
        Section::Setter => if f.attrs.skip_builder_setter() {
            String::new()
        } else {
            builder_setter_text(f)
        },
        Section::ConfigAssign => config_assign_text(f),
        Section::ConfigGetter => if f.attrs.skip_config_getter() {
            String::new()
        } else {
            config_getter_text(f)
        },
        Section::MergeStep => if f.attrs.skip_override_field() {
            String::new()
        } else {
            merge_step_text(f)
        },
        Section::Param => if !f.attrs.override_required && !f.is_optional() {
            let mut out = concat3(f.ident.name.as_str(), ": ", type_text(&f.ty).as_str());
            out.append(", ");
            out
        } else {
            String::new()
        },
        Section::Arg => if !f.attrs.override_required && !f.is_optional() {
            concat2(f.ident.name.as_str(), ", ")
        } else {
            String::new()
        },
    }
}

/// Writes section `s` for each field, in order.
pub fn each_text(fields: &Vec<OriginField>, s: Section, serde: bool) -> (r: String)
    ensures
        r@ == each(fields@, s, serde),
{
    let mut out = String::new();
    let mut i: usize = 0;
    while i < fields.len()
        invariant
            i <= fields@.len(),
            out@ == each(fields@.take(i as int), s, serde),
        decreases fields.len() - i,
    {
        proof {
            assert(fields@.take(i + 1).drop_last() =~= fields@.take(i as int));
        }
        let p = piece_text(&fields[i], s, serde);
        out.append(p.as_str());
        i = i + 1;
    }
    proof {
        assert(fields@.take(fields@.len() as int) =~= fields@);
    }
    out
}

} // verus!
