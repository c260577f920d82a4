//! Source text of the three generated items: the `impl` of the annotated
//! config struct, its builder and its override struct.

use vstd::prelude::*;
use crate::doc::{doc_attr, doc_line};
use crate::gen_fields::{Section, each, each_text};
use crate::gen_override::{bracket_lines, bracket_lines_text};
use crate::names::{Names, names, names_of, spec_builder_ident, spec_override_ident};
use crate::structure::{GenericsModel, OriginStruct};
use crate::text::views;

verus! {

// !- Names

/// Name of the override struct of `o`.
pub open spec fn ov_ident(o: OriginStruct) -> Seq<char> {
    spec_override_ident(o.ident.name@, o.suffix@)
}

/// The override struct's type, with the struct's parameters.
pub open spec fn ov_ty(o: OriginStruct) -> Seq<char> {
    ov_ident(o) + o.generics.ty_text@
}

/// Name of the builder of `o`.
pub open spec fn b_ident(o: OriginStruct) -> Seq<char> {
    spec_builder_ident(o.ident.name@)
}

/// The builder's type, with the struct's parameters.
pub open spec fn b_ty(o: OriginStruct) -> Seq<char> {
    b_ident(o) + o.generics.ty_text@
}

// !- Which items exist

/// The override struct has a field that must always be given: one marked
/// `override_required` (and not skipped).
pub open spec fn override_has_required(o: OriginStruct) -> bool {
    exists|k: int|
        0 <= k < o.fields@.len() && !(#[trigger] o.fields@[k]).attrs@.skip_override_field()
            && o.fields@[k].attrs@.override_required
}

/// `Default` is implemented for the config and the builder: no field lacks a
/// library default and nothing must come from the override.
pub open spec fn has_default_impls(o: OriginStruct) -> bool {
    !o.spec_has_required_fields() && !override_has_required(o)
}

/// Whether the override struct has a field that must always be given.
pub fn override_has_required_fields(o: &OriginStruct) -> (r: bool)
    ensures
        r == override_has_required(*o),
{
    let mut i: usize = 0;
    while i < o.fields.len()
        invariant
            i <= o.fields@.len(),
            forall|k: int|
                0 <= k < i ==> !(!(#[trigger] o.fields@[k]).attrs@.skip_override_field()
                    && o.fields@[k].attrs@.override_required),
        decreases o.fields.len() - i,
    {
        if !o.fields[i].attrs.skip_override_field() && o.fields[i].attrs.override_required {
            return true;
        }
        i = i + 1;
    }
    false
}

// !- Shared pieces

/// Each derive path followed by a comma.
pub open spec fn list_items(items: Seq<Seq<char>>) -> Seq<char>
    decreases items.len(),
{
    if items.len() == 0 {
        Seq::empty()
    } else {
        list_items(items.drop_last()) + items.last() + ", "@
    }
}

/// A `#[derive(..)]` line for the given paths, or nothing when there are none.
pub open spec fn derive_list(items: Seq<Seq<char>>) -> Seq<char> {
    if items.len() == 0 {
        Seq::empty()
    } else {
        "#[derive("@ + list_items(items) + ")]\n"@
    }
}

/// Writes `derive_list` of the given paths.
pub fn derive_list_text(items: &Vec<String>) -> (r: String)
    ensures
        r@ == derive_list(views(items@)),
{
    if items.len() == 0 {
        return String::new();
    }
    let mut body = String::new();
    let mut i: usize = 0;
    while i < items.len()
        invariant
            i <= items@.len(),
            body@ == list_items(views(items@.take(i as int))),
        decreases items.len() - i,
    {
        proof {
            assert(views(items@.take(i + 1)).drop_last() =~= views(items@.take(i as int)));
        }
        body.append(items[i].as_str());
        body.append(", ");
        i = i + 1;
    }
    proof {
        assert(items@.take(items@.len() as int) =~= items@);
    }
    let mut out = String::from_str("#[derive(");
    out.append(body.as_str());
    out.append(")]\n");
    out
}

/// `impl Default` for `ty`, constructing it with `new()`.
pub open spec fn default_impl(g: GenericsModel, ty: Seq<char>) -> Seq<char> {
    "#[automatically_derived]\nimpl"@ + g.impl_text@ + " Default for "@ + ty + " "@ + g.where_text@
        + " {\nfn default() -> Self {\nSelf::new()\n}\n}\n"@
}

/// Writes `default_impl(g, ty)`.
pub fn default_impl_text(g: &GenericsModel, ty: &str) -> (r: String)
    ensures
        r@ == default_impl(*g, ty@),
{
    let mut out = String::from_str("#[automatically_derived]\nimpl");
    out.append(g.impl_text.as_str());
    out.append(" Default for ");
    out.append(ty);
    out.append(" ");
    out.append(g.where_text.as_str());
    out.append(" {\nfn default() -> Self {\nSelf::new()\n}\n}\n");
    out
}

/// Parameters of the constructors: the override when it has required
/// fields, then each field without default that is not read from it.
pub open spec fn ctor_params(o: OriginStruct) -> Seq<char> {
    (if override_has_required(o) {
        "override_conf: "@ + ov_ty(o) + ", "@
    } else {
        Seq::empty()
    }) + each(o.fields@, Section::Param, false)
}

/// The arguments matching `ctor_params`.
pub open spec fn ctor_args(o: OriginStruct) -> Seq<char> {
    (if override_has_required(o) {
        "override_conf, "@
    } else {
        Seq::empty()
    }) + each(o.fields@, Section::Arg, false)
}

fn ctor_params_text(o: &OriginStruct, n: &Names, ov_req: bool) -> (r: String)
    requires
        names_of(*o, *n),
        ov_req == override_has_required(*o),
    ensures
        r@ == ctor_params(*o),
{
    let mut out = if ov_req {
        let mut s = String::from_str("override_conf: ");
        s.append(n.override_ty.as_str());
        s.append(", ");
        s
    } else {
        String::new()
    };
    out.append(each_text(&o.fields, Section::Param, false).as_str());
    out
}

fn ctor_args_text(o: &OriginStruct, ov_req: bool) -> (r: String)
    requires
        ov_req == override_has_required(*o),
    ensures
        r@ == ctor_args(*o),
{
    let mut out = if ov_req {
        String::from_str("override_conf, ")
    } else {
        String::new()
    };
    out.append(each_text(&o.fields, Section::Arg, false).as_str());
    out
}

// !- The override struct

/// Placeholders for skipped fields, kept only in a generic struct.
pub open spec fn phantoms(o: OriginStruct, serde: bool) -> Seq<char> {
    if o.generics.type_param_count > 0 {
        each(o.fields@, Section::PhantomField, serde)
    } else {
        Seq::empty()
    }
}

/// The base derives of the override struct.
pub open spec fn override_base_derive(serde: bool) -> Seq<char> {
    if serde {
        "#[derive(Debug, Clone, ::serde::Deserialize)]\n"@
    } else {
        "#[derive(Debug, Clone)]\n"@
    }
}

/// The override struct and its getters.
pub open spec fn override_text(o: OriginStruct, serde: bool) -> Seq<char> {
    override_base_derive(serde) + derive_list(views(o.attrs.override_derives@)) + bracket_lines(
        views(o.attrs.override_attrs@),
    ) + "pub struct "@ + ov_ident(o) + o.generics.decl_text@ + " "@ + o.generics.where_text@
        + " {\n"@ + each(o.fields@, Section::OverrideField, serde) + phantoms(o, serde)
        + "}\n#[automatically_derived]\nimpl"@ + o.generics.impl_text@ + " "@ + ov_ty(o) + " "@
        + o.generics.where_text@ + " {\n"@ + each(o.fields@, Section::OverrideGetter, serde) + "}\n"@
}

fn override_struct_text(o: &OriginStruct, n: &Names, serde: bool) -> (r: String)
    requires
        names_of(*o, *n),
    ensures
        r@ == override_text(*o, serde),
{
    let mut out = if serde {
        String::from_str("#[derive(Debug, Clone, ::serde::Deserialize)]\n")
    } else {
        String::from_str("#[derive(Debug, Clone)]\n")
    };
    out.append(derive_list_text(&o.attrs.override_derives).as_str());
    out.append(bracket_lines_text(&o.attrs.override_attrs).as_str());
    out.append("pub struct ");
    out.append(n.override_ident.as_str());
    out.append(o.generics.decl_text.as_str());
    out.append(" ");
    out.append(o.generics.where_text.as_str());
    out.append(" {\n");
    out.append(each_text(&o.fields, Section::OverrideField, serde).as_str());
    let ph = if o.use_phantom_fields() {
        each_text(&o.fields, Section::PhantomField, serde)
    } else {
        String::new()
    };
    out.append(ph.as_str());
    out.append("}\n#[automatically_derived]\nimpl");
    out.append(o.generics.impl_text.as_str());
    out.append(" ");
    out.append(n.override_ty.as_str());
    out.append(" ");
    out.append(o.generics.where_text.as_str());
    out.append(" {\n");
    out.append(each_text(&o.fields, Section::OverrideGetter, serde).as_str());
    out.append("}\n");
    out
}

// !- The builder

/// The builder's constructor: the config's constructor with the same
/// arguments, and the override when it must be given.
pub open spec fn builder_new(o: OriginStruct) -> Seq<char> {
    "/// Constructs a new builder instance\n#[must_use]\npub fn new("@ + ctor_params(o)
        + ") -> Self {\nlet initial_override = "@ + (if override_has_required(o) {
        "Some(override_conf.clone())"@
    } else {
        "None"@
    }) + ";\nSelf {\nstaged: ::lib_conf::merge::Staged::new(<"@ + o.ty@ + ">::new("@ + ctor_args(o)
        + "), initial_override),\n}\n}\n"@
}

/// The doc comment and header of `with_override`, up to its parameter type.
pub open spec fn with_override_head() -> Seq<char> {
    "/// If supplied, will overwrite any values present in the provided\n/// override config.\n///\n/// This happens as the last step within the\n///[`build()`](Self::build) method.\n///\n/// Any previous calls to [`with_override()`](Self::with_override)\n/// in the builder chain will have no effect on the resulting\n/// config.\n///\n/// The order in which this is chained with the builder's setter\n/// methods does not matter.\n#[must_use]\npub fn with_override(self, override_conf: "@
}

/// `clear_override`.
pub open spec fn clear_override_fn() -> Seq<char> {
    "/// Clears the override config previously set via\n/// [`with_override()`](Self::with_override).\n#[must_use]\npub fn clear_override(self) -> Self {\nSelf {\nstaged: self.staged.clear_override(),\n}\n}\n"@
}

/// `with_override` and `clear_override`; a builder that was given the
/// override at construction, because it must be, has neither.
pub open spec fn builder_override_fns(o: OriginStruct) -> Seq<char> {
    if override_has_required(o) {
        Seq::empty()
    } else {
        with_override_head() + ov_ty(o)
            + ") -> Self {\nSelf {\nstaged: self.staged.with_override(override_conf),\n}\n}\n"@
            + clear_override_fn()
    }
}

/// `build`: the config as assembled, with the override merged in last.
pub open spec fn builder_build(o: OriginStruct) -> Seq<char> {
    doc_attr("Builds the [`"@ + o.ident.name@ + "`]"@)
        + "///\n/// Values present in an override config (if supplied) will replace\n/// corresponding assigments made using the builder.\n#[must_use]\npub fn build(self) -> "@
        + o.ty@ + " {\nself.staged.build(|inner, override_conf| inner + override_conf)\n}\n"@
}

/// The builder struct, its methods and, when possible, its `Default`.
pub open spec fn builder_text(o: OriginStruct) -> Seq<char> {
    "#[derive(Debug, Clone)]\n"@ + derive_list(views(o.attrs.builder_derives@)) + bracket_lines(
        views(o.attrs.builder_attrs@),
    ) + "pub struct "@ + b_ident(o) + o.generics.decl_text@ + " "@ + o.generics.where_text@
        + " {\npub(crate) staged: ::lib_conf::merge::Staged<"@ + o.ty@ + ", "@ + ov_ty(o)
        + ">,\n}\n#[automatically_derived]\nimpl"@ + o.generics.impl_text@ + " "@ + b_ty(o) + " "@
        + o.generics.where_text@ + " {\n"@ + builder_new(o) + each(o.fields@, Section::Setter, false)
        + builder_override_fns(o) + builder_build(o) + "}\n"@ + (if has_default_impls(o) {
        default_impl(o.generics, b_ty(o))
    } else {
        Seq::empty()
    })
}

fn builder_new_text(o: &OriginStruct, n: &Names, ov_req: bool) -> (r: String)
    requires
        names_of(*o, *n),
        ov_req == override_has_required(*o),
    ensures
        r@ == builder_new(*o),
{
    let mut out = String::from_str("/// Constructs a new builder instance\n#[must_use]\npub fn new(");
    out.append(ctor_params_text(o, n, ov_req).as_str());
    out.append(") -> Self {\nlet initial_override = ");
    if ov_req {
        out.append("Some(override_conf.clone())");
    } else {
        out.append("None");
    }
    out.append(";\nSelf {\nstaged: ::lib_conf::merge::Staged::new(<");
    out.append(o.ty.as_str());
    out.append(">::new(");
    out.append(ctor_args_text(o, ov_req).as_str());
    out.append("), initial_override),\n}\n}\n");
    out
}

fn builder_override_fns_text(n: &Names, ov_req: bool, Ghost(o): Ghost<OriginStruct>) -> (r: String)
    requires
        names_of(o, *n),
        ov_req == override_has_required(o),
    ensures
        r@ == builder_override_fns(o),
{
    if ov_req {
        return String::new();
    }
    let mut out = String::from_str(
        "/// If supplied, will overwrite any values present in the provided\n/// override config.\n///\n/// This happens as the last step within the\n///[`build()`](Self::build) method.\n///\n/// Any previous calls to [`with_override()`](Self::with_override)\n/// in the builder chain will have no effect on the resulting\n/// config.\n///\n/// The order in which this is chained with the builder's setter\n/// methods does not matter.\n#[must_use]\npub fn with_override(self, override_conf: ",
    );
    out.append(n.override_ty.as_str());
    out.append(") -> Self {\nSelf {\nstaged: self.staged.with_override(override_conf),\n}\n}\n");
    out.append(
        "/// Clears the override config previously set via\n/// [`with_override()`](Self::with_override).\n#[must_use]\npub fn clear_override(self) -> Self {\nSelf {\nstaged: self.staged.clear_override(),\n}\n}\n",
    );
    out
}

fn builder_build_text(o: &OriginStruct) -> (r: String)
    ensures
        r@ == builder_build(*o),
{
    let mut head = String::from_str("Builds the [`");
    head.append(o.ident.name.as_str());
    head.append("`]");
    let mut out = doc_line(head.as_str());
    out.append(
        "///\n/// Values present in an override config (if supplied) will replace\n/// corresponding assigments made using the builder.\n#[must_use]\npub fn build(self) -> ",
    );
    out.append(o.ty.as_str());
    out.append(" {\nself.staged.build(|inner, override_conf| inner + override_conf)\n}\n");
    out
}

fn builder_struct_text(o: &OriginStruct, n: &Names, ov_req: bool, dflt: bool) -> (r: String)
    requires
        names_of(*o, *n),
        ov_req == override_has_required(*o),
        dflt == has_default_impls(*o),
    ensures
        r@ == builder_text(*o),
{
    let mut out = String::from_str("#[derive(Debug, Clone)]\n");
    out.append(derive_list_text(&o.attrs.builder_derives).as_str());
    out.append(bracket_lines_text(&o.attrs.builder_attrs).as_str());
    out.append("pub struct ");
    out.append(n.builder_ident.as_str());
    out.append(o.generics.decl_text.as_str());
    out.append(" ");
    out.append(o.generics.where_text.as_str());
    out.append(" {\npub(crate) staged: ::lib_conf::merge::Staged<");
    out.append(o.ty.as_str());
    out.append(", ");
    out.append(n.override_ty.as_str());
    out.append(">,\n}\n#[automatically_derived]\nimpl");
    out.append(o.generics.impl_text.as_str());
    out.append(" ");
    out.append(n.builder_ty.as_str());
    out.append(" ");
    out.append(o.generics.where_text.as_str());
    out.append(" {\n");
    out.append(builder_new_text(o, n, ov_req).as_str());
    out.append(each_text(&o.fields, Section::Setter, false).as_str());
    out.append(builder_override_fns_text(n, ov_req, Ghost(*o)).as_str());
    out.append(builder_build_text(o).as_str());
    out.append("}\n");
    if dflt {
        out.append(default_impl_text(&o.generics, n.builder_ty.as_str()).as_str());
    }
    out
}

// !- The config struct

/// The config's constructor: each field from the override, its parameter or
/// its library default.
pub open spec fn config_new(o: OriginStruct) -> Seq<char> {
    "#[must_use]\npub(crate) fn new("@ + ctor_params(o) + ") -> Self {\nSelf {\n"@ + each(
        o.fields@,
        Section::ConfigAssign,
        false,
    ) + "}\n}\n"@
}

/// `builder()`, taking what the constructor takes.
pub open spec fn config_builder_fn(o: OriginStruct) -> Seq<char> {
    "/// Creates a new config builder\n#[must_use]\npub fn builder("@ + ctor_params(o) + ") -> "@ + b_ty(
        o,
    ) + " {\n<"@ + b_ty(o) + ">::new("@ + ctor_args(o) + ")\n}\n"@
}

/// `merge_with_override`: one step per field the override holds.
pub open spec fn config_merge_fn(o: OriginStruct) -> Seq<char> {
    "/// Applies all values from override (which are `Some(_)`) to self\npub fn merge_with_override(&mut self, override_conf: "@
        + ov_ty(o) + ") {\n"@ + each(o.fields@, Section::MergeStep, false) + "}\n"@
}

/// `config + override`: the config with the override merged in.
pub open spec fn add_impl(o: OriginStruct) -> Seq<char> {
    "#[automatically_derived]\nimpl"@ + o.generics.impl_text@ + " ::std::ops::Add<"@ + ov_ty(o)
        + "> for "@ + o.ty@ + " "@ + o.generics.where_text@
        + " {\ntype Output = Self;\nfn add(self, other: "@ + ov_ty(o)
        + ") -> Self {\nlet mut merged = self;\nmerged.merge_with_override(other);\nmerged\n}\n}\n"@
}

/// The methods of the config struct, its `Default` when possible, and `Add`.
pub open spec fn config_text(o: OriginStruct) -> Seq<char> {
    "#[automatically_derived]\nimpl"@ + o.generics.impl_text@ + " "@ + o.ty@ + " "@
        + o.generics.where_text@ + " {\n"@ + config_new(o) + config_builder_fn(o) + each(
        o.fields@,
        Section::ConfigGetter,
        false,
    ) + config_merge_fn(o) + "}\n"@ + (if has_default_impls(o) {
        default_impl(o.generics, o.ty@)
    } else {
        Seq::empty()
    }) + add_impl(o)
}

fn config_new_text(o: &OriginStruct, n: &Names, ov_req: bool) -> (r: String)
    requires
        names_of(*o, *n),
        ov_req == override_has_required(*o),
    ensures
        r@ == config_new(*o),
{
    let mut out = String::from_str("#[must_use]\npub(crate) fn new(");
    out.append(ctor_params_text(o, n, ov_req).as_str());
    out.append(") -> Self {\nSelf {\n");
    out.append(each_text(&o.fields, Section::ConfigAssign, false).as_str());
    out.append("}\n}\n");
    out
}

fn config_builder_fn_text(o: &OriginStruct, n: &Names, ov_req: bool) -> (r: String)
    requires
        names_of(*o, *n),
        ov_req == override_has_required(*o),
    ensures
        r@ == config_builder_fn(*o),
{
    let mut out = String::from_str("/// Creates a new config builder\n#[must_use]\npub fn builder(");
    out.append(ctor_params_text(o, n, ov_req).as_str());
    out.append(") -> ");
    out.append(n.builder_ty.as_str());
    out.append(" {\n<");
    out.append(n.builder_ty.as_str());
    out.append(">::new(");
    out.append(ctor_args_text(o, ov_req).as_str());
    out.append(")\n}\n");
    out
}

fn config_merge_fn_text(o: &OriginStruct, n: &Names) -> (r: String)
    requires
        names_of(*o, *n),
    ensures
        r@ == config_merge_fn(*o),
{
    let mut out = String::from_str(
        "/// Applies all values from override (which are `Some(_)`) to self\npub fn merge_with_override(&mut self, override_conf: ",
    );
    out.append(n.override_ty.as_str());
    out.append(") {\n");
    out.append(each_text(&o.fields, Section::MergeStep, false).as_str());
    out.append("}\n");
    out
}

fn add_impl_text(o: &OriginStruct, n: &Names) -> (r: String)
    requires
        names_of(*o, *n),
    ensures
        r@ == add_impl(*o),
{
    let mut out = String::from_str("#[automatically_derived]\nimpl");
    out.append(o.generics.impl_text.as_str());
    out.append(" ::std::ops::Add<");
    out.append(n.override_ty.as_str());
    out.append("> for ");
    out.append(o.ty.as_str());
    out.append(" ");
    out.append(o.generics.where_text.as_str());
    out.append(" {\ntype Output = Self;\nfn add(self, other: ");
    out.append(n.override_ty.as_str());
    out.append(") -> Self {\nlet mut merged = self;\nmerged.merge_with_override(other);\nmerged\n}\n}\n");
    out
}

fn config_struct_text(o: &OriginStruct, n: &Names, ov_req: bool, dflt: bool) -> (r: String)
    requires
        names_of(*o, *n),
        ov_req == override_has_required(*o),
        dflt == has_default_impls(*o),
    ensures
        r@ == config_text(*o),
{
    let mut out = String::from_str("#[automatically_derived]\nimpl");
    out.append(o.generics.impl_text.as_str());
    out.append(" ");
    out.append(o.ty.as_str());
    out.append(" ");
    out.append(o.generics.where_text.as_str());
    out.append(" {\n");
    out.append(config_new_text(o, n, ov_req).as_str());
    out.append(config_builder_fn_text(o, n, ov_req).as_str());
    out.append(each_text(&o.fields, Section::ConfigGetter, false).as_str());
    out.append(config_merge_fn_text(o, n).as_str());
    out.append("}\n");
    if dflt {
        out.append(default_impl_text(&o.generics, o.ty.as_str()).as_str());
    }
    out.append(add_impl_text(o, n).as_str());
    out
}

// !- Everything

/// All the code the derive emits for `o`: the config's methods, the
/// builder, then the override struct. `serde` makes the override struct
/// deserializable.
pub open spec fn derive_text(o: OriginStruct, serde: bool) -> Seq<char> {
    config_text(o) + builder_text(o) + override_text(o, serde)
}

/// Writes all the code the derive emits for `o`.
pub fn generate(o: &OriginStruct, serde: bool) -> (r: String)
    requires
        o.suffix_ok(),
    ensures
        r@ == derive_text(*o, serde),
{
    let n = names(o);
    let ov_req = override_has_required_fields(o);
    let dflt = !o.has_required_fields() && !ov_req;
    let mut out = config_struct_text(o, &n, ov_req, dflt);
    out.append(builder_struct_text(o, &n, ov_req, dflt).as_str());
    out.append(override_struct_text(o, &n, serde).as_str());
    out
}

} // verus!
