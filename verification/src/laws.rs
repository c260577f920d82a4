//! What the attribute reference and the README promise of the generated
//! code as a whole, stated over the generation specs and proved.

use vstd::prelude::*;
use crate::attr::{
    FieldAttr,
    Shape,
    field_attr_named,
    spec_dependencies,
    spec_field_attr_shapes,
    spec_implied,
    spec_incompatible,
};
use crate::field_attrs::{FieldAttrsView, empty_view, fold_items, parses_ok};
use crate::ident::Ident;
use crate::meta::MetaItem;
use crate::validate::{Relation, deps_present, free_of, misses_dep, violates};
use crate::doc::{attr_lines, default_line, doc_attr, doc_attrs, field_doc, field_doc_append};
use crate::gen_fields::{Section, config_getter_kind, each, phantom_field, piece};
use crate::gen_override::{GetterKind, getter_kind_of};
use crate::gen_struct::{
    builder_override_fns,
    ctor_args,
    ctor_params,
    has_default_impls,
    override_has_required,
    ov_ty,
    phantoms,
};
use crate::meta::AttrExpr;
use crate::names::spec_override_ident;
use crate::origin::OriginField;
use crate::structure::OriginStruct;
use crate::text::views;
use crate::ty::spec_shape;

verus! {

/// A field marked `skip_all` gets no config getter, no builder setter, no
/// override field, no override getter and no merge step.
pub proof fn law_skip_all_hides_field(f: OriginField, serde: bool)
    requires
        f.attrs@.skip_all,
    ensures
        piece(f, Section::ConfigGetter, serde) == Seq::<char>::empty(),
        piece(f, Section::Setter, serde) == Seq::<char>::empty(),
        piece(f, Section::OverrideField, serde) == Seq::<char>::empty(),
        piece(f, Section::OverrideGetter, serde) == Seq::<char>::empty(),
        piece(f, Section::MergeStep, serde) == Seq::<char>::empty(),
{
}

/// Each skip key removes exactly its own item: `config_skip_getter` the
/// config getter, `builder_skip` the builder setter, `override_skip` the
/// override field, its getter and its merge step.
pub proof fn law_skip_keys(f: OriginField, serde: bool)
    ensures
        f.attrs@.config_skip_getter ==> piece(f, Section::ConfigGetter, serde) == Seq::<char>::empty(),
        f.attrs@.builder_skip ==> piece(f, Section::Setter, serde) == Seq::<char>::empty(),
        f.attrs@.override_skip ==> piece(f, Section::OverrideField, serde) == Seq::<char>::empty()
            && piece(f, Section::OverrideGetter, serde) == Seq::<char>::empty() && piece(
            f,
            Section::MergeStep,
            serde,
        ) == Seq::<char>::empty(),
{
}

/// A field that is only set at run time (`override_required`) has no
/// builder setter and is not a constructor parameter of its own.
pub proof fn law_override_required_field(f: OriginField, serde: bool)
    requires
        f.attrs@.override_required,
    ensures
        piece(f, Section::Setter, serde) == Seq::<char>::empty(),
        piece(f, Section::Param, serde) == Seq::<char>::empty(),
        piece(f, Section::Arg, serde) == Seq::<char>::empty(),
{
}

/// When some field is `override_required`, `builder()` and the builder's
/// `new()` take the override config as their first parameter, and the
/// builder has no `with_override` (nor `clear_override`).
pub proof fn law_override_required_struct(o: OriginStruct, k: int)
    requires
        o.wf(),
        0 <= k < o.fields@.len(),
        o.fields@[k].attrs@.override_required,
    ensures
        override_has_required(o),
        ctor_params(o) == "override_conf: "@ + ov_ty(o) + ", "@ + each(o.fields@, Section::Param, false),
        ctor_args(o) == "override_conf, "@ + each(o.fields@, Section::Arg, false),
        builder_override_fns(o) == Seq::<char>::empty(),
{
    assert(o.fields@[k].wf());
}

/// In a generic struct, every field left out of the override struct keeps
/// a `PhantomData` placeholder of its type there, so that every type
/// parameter stays in use; a struct without type parameters gets none.
pub proof fn law_skipped_fields_keep_type_parameters(o: OriginStruct, f: OriginField, serde: bool)
    ensures
        f.attrs@.skip_override_field() ==> piece(f, Section::PhantomField, serde) == phantom_field(f, serde),
        !f.attrs@.skip_override_field() ==> piece(f, Section::PhantomField, serde) == Seq::<char>::empty(),
        o.generics.type_param_count > 0 ==> phantoms(o, serde) == each(o.fields@, Section::PhantomField, serde),
        o.generics.type_param_count == 0 ==> phantoms(o, serde) == Seq::<char>::empty(),
{
}

/// `copy` makes getters return the value itself: the config getter always,
/// the override getter only when the override holds the field's own type
/// (no `override_from`). Without `copy`, neither getter returns the value.
pub proof fn law_copy_getters(f: OriginField)
    ensures
        f.attrs@.copy ==> config_getter_kind(f) == GetterKind::Direct,
        !f.attrs@.copy ==> config_getter_kind(f) != GetterKind::Direct,
        f.attrs@.copy && f.attrs@.override_from is None ==> getter_kind_of(f) == GetterKind::Direct,
        f.attrs@.override_from is Some ==> getter_kind_of(f) != GetterKind::Direct,
        !f.attrs@.copy ==> getter_kind_of(f) != GetterKind::Direct,
{
}

/// The config getter of a non-`copy` field follows the reference's
/// return-type rules: `&str` for a `String`, `Option<&str>` for an
/// `Option<String>`, `Option<&T>` for another `Option<T>`, `&T` otherwise.
pub proof fn law_getter_rules(f: OriginField)
    ensures
        !f.attrs@.copy && spec_shape(f.ty).option_inner is None && spec_shape(f.ty).is_string
            ==> config_getter_kind(f) == GetterKind::Str,
        !f.attrs@.copy && (spec_shape(f.ty).option_inner matches Some((_, s)) && s)
            ==> config_getter_kind(f) == GetterKind::OptionStr,
        !f.attrs@.copy && (spec_shape(f.ty).option_inner matches Some((_, s)) && !s)
            ==> config_getter_kind(f) == GetterKind::OptionRef,
        !f.attrs@.copy && spec_shape(f.ty).option_inner is None && !spec_shape(f.ty).is_string
            ==> config_getter_kind(f) == GetterKind::Ref,
{
}

/// An `Option` field always has a library default (`None` unless one is
/// written), so it is never a required field.
pub proof fn law_option_field_is_optional(f: OriginField)
    requires
        f.wf(),
        f.is_option,
    ensures
        f.spec_is_optional(),
{
}

/// The config and its builder implement `Default` exactly when every field
/// is optional: an `Option` or with a `default`.
pub proof fn law_default_impls(o: OriginStruct)
    requires
        o.wf(),
    ensures
        has_default_impls(o) <==> forall|k: int|
            0 <= k < o.fields@.len() ==> (#[trigger] o.fields@[k]).spec_is_optional(),
{
    if override_has_required(o) {
        let k = choose|k: int|
            0 <= k < o.fields@.len() && !(#[trigger] o.fields@[k]).attrs@.skip_override_field()
                && o.fields@[k].attrs@.override_required;
        assert(o.fields@[k].wf());
        assert(!o.fields@[k].spec_is_optional());
    }
}

/// The library default is written into the documentation of every item
/// generated for the field, as its last line.
pub proof fn law_default_documented(f: OriginField, d: AttrExpr)
    requires
        f.default == Some(d),
    ensures
        field_doc(f) == attr_lines(views(f.doc_attrs@)) + doc_attrs(field_doc_append(f).drop_last())
            + doc_attr(default_line(d)),
{
    let a = field_doc_append(f);
    assert(a.last() == default_line(d));
    assert(doc_attrs(a) == doc_attrs(a.drop_last()) + doc_attr(a.last()));
    assert(field_doc(f) == attr_lines(views(f.doc_attrs@)) + doc_attrs(a));
}

/// The override struct's name is the config's name with `Override` put
/// before its suffix: `FooConfig` gives `FooOverrideConfig`.
pub proof fn law_override_name(prefix: Seq<char>, suffix: Seq<char>)
    ensures
        spec_override_ident(prefix + suffix, suffix) == prefix + "Override"@ + suffix,
{
    assert((prefix + suffix).subrange(0, (prefix + suffix).len() - suffix.len()) =~= prefix);
}

/// The pairs of field keys the attribute reference lists as not to be
/// written together ("Incompatible with", or implied by one another).
pub open spec fn documented_incompatible(x: FieldAttr, y: FieldAttr) -> bool {
    match x {
        FieldAttr::SkipAll => y == FieldAttr::ConfigSkipGetter || y == FieldAttr::BuilderSkip || y
            == FieldAttr::OverrideSkip || y == FieldAttr::OverrideRequired || y == FieldAttr::OverrideFrom
            || y == FieldAttr::OverrideVia || y == FieldAttr::OverrideAttr,
        FieldAttr::ConfigSkipGetter => y == FieldAttr::SkipAll,
        FieldAttr::BuilderSkip => y == FieldAttr::SkipAll || y == FieldAttr::OverrideRequired,
        FieldAttr::OverrideSkip => y == FieldAttr::SkipAll || y == FieldAttr::OverrideRequired || y
            == FieldAttr::OverrideFrom || y == FieldAttr::OverrideVia || y == FieldAttr::OverrideAttr,
        FieldAttr::OverrideRequired => y == FieldAttr::Default || y == FieldAttr::SkipAll || y
            == FieldAttr::BuilderSkip || y == FieldAttr::OverrideSkip,
        FieldAttr::OverrideFrom => y == FieldAttr::SkipAll || y == FieldAttr::OverrideSkip,
        FieldAttr::OverrideVia => y == FieldAttr::SkipAll || y == FieldAttr::OverrideSkip,
        FieldAttr::OverrideAttr => y == FieldAttr::SkipAll || y == FieldAttr::OverrideSkip,
        _ => false,
    }
}

/// The tables refuse `x` beside `y`: one excludes the other, or one implies
/// the other (writing both is then reported as redundant).
pub open spec fn refused_together(x: FieldAttr, y: FieldAttr) -> bool {
    spec_incompatible(x).contains(y) || spec_incompatible(y).contains(x) || spec_implied(x).contains(y)
        || spec_implied(y).contains(x)
}

/// Every pair the attribute reference lists as not to be combined is
/// refused by the tables, whichever way round it is written.
pub proof fn law_documented_pairs_refused(x: FieldAttr, y: FieldAttr)
    requires
        documented_incompatible(x, y),
    ensures
        refused_together(x, y),
        refused_together(y, x),
{
    if x == FieldAttr::SkipAll && y == FieldAttr::ConfigSkipGetter {
        assert(spec_implied(FieldAttr::SkipAll)[0] == FieldAttr::ConfigSkipGetter);
    }
    if x == FieldAttr::SkipAll && y == FieldAttr::BuilderSkip {
        assert(spec_implied(FieldAttr::SkipAll)[1] == FieldAttr::BuilderSkip);
    }
    if x == FieldAttr::SkipAll && y == FieldAttr::OverrideSkip {
        assert(spec_implied(FieldAttr::SkipAll)[2] == FieldAttr::OverrideSkip);
    }
    if x == FieldAttr::SkipAll && y == FieldAttr::OverrideRequired {
        assert(spec_incompatible(FieldAttr::SkipAll)[0] == FieldAttr::OverrideRequired);
    }
    if x == FieldAttr::SkipAll && y == FieldAttr::OverrideFrom {
        assert(spec_incompatible(FieldAttr::SkipAll)[1] == FieldAttr::OverrideFrom);
    }
    if x == FieldAttr::SkipAll && y == FieldAttr::OverrideVia {
        assert(spec_incompatible(FieldAttr::SkipAll)[2] == FieldAttr::OverrideVia);
    }
    if x == FieldAttr::SkipAll && y == FieldAttr::OverrideAttr {
        assert(spec_incompatible(FieldAttr::OverrideAttr)[0] == FieldAttr::SkipAll);
    }
    if x == FieldAttr::ConfigSkipGetter && y == FieldAttr::SkipAll {
        assert(spec_implied(FieldAttr::SkipAll)[0] == FieldAttr::ConfigSkipGetter);
    }
    if x == FieldAttr::BuilderSkip && y == FieldAttr::SkipAll {
        assert(spec_implied(FieldAttr::SkipAll)[1] == FieldAttr::BuilderSkip);
    }
    if x == FieldAttr::BuilderSkip && y == FieldAttr::OverrideRequired {
        assert(spec_implied(FieldAttr::OverrideRequired)[0] == FieldAttr::BuilderSkip);
    }
    if x == FieldAttr::OverrideSkip && y == FieldAttr::SkipAll {
        assert(spec_implied(FieldAttr::SkipAll)[2] == FieldAttr::OverrideSkip);
    }
    if x == FieldAttr::OverrideSkip && y == FieldAttr::OverrideRequired {
        assert(spec_incompatible(FieldAttr::OverrideSkip)[0] == FieldAttr::OverrideRequired);
    }
    if x == FieldAttr::OverrideSkip && y == FieldAttr::OverrideFrom {
        assert(spec_incompatible(FieldAttr::OverrideSkip)[1] == FieldAttr::OverrideFrom);
    }
    if x == FieldAttr::OverrideSkip && y == FieldAttr::OverrideVia {
        assert(spec_incompatible(FieldAttr::OverrideSkip)[2] == FieldAttr::OverrideVia);
    }
    if x == FieldAttr::OverrideSkip && y == FieldAttr::OverrideAttr {
        assert(spec_incompatible(FieldAttr::OverrideAttr)[1] == FieldAttr::OverrideSkip);
    }
    if x == FieldAttr::OverrideRequired && y == FieldAttr::Default {
        assert(spec_incompatible(FieldAttr::OverrideRequired)[0] == FieldAttr::Default);
    }
    if x == FieldAttr::OverrideRequired && y == FieldAttr::SkipAll {
        assert(spec_incompatible(FieldAttr::SkipAll)[0] == FieldAttr::OverrideRequired);
    }
    if x == FieldAttr::OverrideRequired && y == FieldAttr::BuilderSkip {
        assert(spec_implied(FieldAttr::OverrideRequired)[0] == FieldAttr::BuilderSkip);
    }
    if x == FieldAttr::OverrideRequired && y == FieldAttr::OverrideSkip {
        assert(spec_incompatible(FieldAttr::OverrideSkip)[0] == FieldAttr::OverrideRequired);
    }
    if x == FieldAttr::OverrideFrom && y == FieldAttr::SkipAll {
        assert(spec_incompatible(FieldAttr::SkipAll)[1] == FieldAttr::OverrideFrom);
    }
    if x == FieldAttr::OverrideFrom && y == FieldAttr::OverrideSkip {
        assert(spec_incompatible(FieldAttr::OverrideSkip)[1] == FieldAttr::OverrideFrom);
    }
    if x == FieldAttr::OverrideVia && y == FieldAttr::SkipAll {
        assert(spec_incompatible(FieldAttr::SkipAll)[2] == FieldAttr::OverrideVia);
    }
    if x == FieldAttr::OverrideVia && y == FieldAttr::OverrideSkip {
        assert(spec_incompatible(FieldAttr::OverrideSkip)[2] == FieldAttr::OverrideVia);
    }
    if x == FieldAttr::OverrideAttr && y == FieldAttr::SkipAll {
        assert(spec_incompatible(FieldAttr::OverrideAttr)[0] == FieldAttr::SkipAll);
    }
    if x == FieldAttr::OverrideAttr && y == FieldAttr::OverrideSkip {
        assert(spec_incompatible(FieldAttr::OverrideAttr)[1] == FieldAttr::OverrideSkip);
    }
}

/// No key excludes or implies itself, and no key is refused beside a key it
/// depends on.
pub proof fn law_tables_coherent(a: FieldAttr, d: FieldAttr)
    ensures
        !spec_incompatible(a).contains(a),
        !spec_implied(a).contains(a),
        spec_dependencies(a).contains(d) ==> !refused_together(a, d),
{
    let ea = spec_incompatible(a);
    let ia = spec_implied(a);
    let ed = spec_incompatible(d);
    let id = spec_implied(d);
    assert(forall|i: int| 0 <= i < ea.len() ==> ea[i] != a);
    assert(forall|i: int| 0 <= i < ia.len() ==> ia[i] != a);
    if spec_dependencies(a).contains(d) {
        assert(a == FieldAttr::OverrideVia && d == FieldAttr::OverrideFrom) by {
            let k = choose|k: int| 0 <= k < spec_dependencies(a).len() && spec_dependencies(a)[k] == d;
        }
        assert(forall|i: int| 0 <= i < ea.len() ==> ea[i] != d);
        assert(forall|i: int| 0 <= i < ed.len() ==> ed[i] != a);
        assert(forall|i: int| 0 <= i < ia.len() ==> ia[i] != d);
        assert(forall|i: int| 0 <= i < id.len() ==> id[i] != a);
    }
}

/// `item` is `override_attr(..)`.
pub open spec fn is_override_attr_list(item: MetaItem) -> bool {
    item matches MetaItem::List { path, .. } && path.ident matches Some(i) && i.name@ == "override_attr"@
}

/// The entries of list items, in order.
pub open spec fn list_entries(items: Seq<MetaItem>) -> Seq<Seq<char>>
    decreases items.len(),
{
    if items.len() == 0 {
        Seq::empty()
    } else {
        list_entries(items.drop_last()) + match items.last() {
            MetaItem::List { items: entries, .. } => views(entries@),
            _ => Seq::empty(),
        }
    }
}

proof fn lemma_override_attr_fold(items: Seq<MetaItem>)
    requires
        items.len() > 0,
        forall|k: int| 0 <= k < items.len() ==> is_override_attr_list(#[trigger] items[k]),
    ensures
        fold_items(items) matches Ok((v, seen)) && v == (FieldAttrsView {
            override_attrs: list_entries(items),
            ..empty_view()
        }) && seen.len() == 1 && seen[0].0 == FieldAttr::OverrideAttr,
    decreases items.len(),
{
    reveal_strlit("copy");
    reveal_strlit("default");
    reveal_strlit("skip_all");
    reveal_strlit("config_skip_getter");
    reveal_strlit("builder_skip");
    reveal_strlit("override_attr");
    let last = items.last();
    assert(is_override_attr_list(items[items.len() - 1]));
    let ident = last.path().ident.unwrap();
    assert(ident.name@ == "override_attr"@);
    assert(ident.name@.len() == 13);
    assert("copy"@.len() == 4 && "default"@.len() == 7 && "skip_all"@.len() == 8);
    assert("config_skip_getter"@.len() == 18 && "builder_skip"@.len() == 12);
    assert(field_attr_named(ident.name@) == Some(FieldAttr::OverrideAttr));
    assert(spec_field_attr_shapes(FieldAttr::OverrideAttr)[0] == Shape::List);
    if items.len() == 1 {
        assert(items.drop_last() =~= Seq::<MetaItem>::empty());
        assert(!crate::validate::has_key(Seq::<(FieldAttr, Ident)>::empty(), FieldAttr::OverrideAttr));
        assert(list_entries(items.drop_last()) =~= Seq::<Seq<char>>::empty());
    } else {
        let prefix = items.drop_last();
        assert forall|k: int| 0 <= k < prefix.len() implies is_override_attr_list(#[trigger] prefix[k]) by {
            assert(prefix[k] == items[k]);
        }
        lemma_override_attr_fold(prefix);
        let (v, seen) = fold_items(prefix).unwrap();
        assert(crate::validate::has_key(seen, FieldAttr::OverrideAttr));
    }
}

/// `override_attr(..)` may be written any number of times: the keys are
/// accepted, and the attributes they carry are passed through in the order
/// written, with no other setting.
pub proof fn law_override_attr_repeatable(items: Seq<MetaItem>)
    requires
        items.len() > 0,
        forall|k: int| 0 <= k < items.len() ==> is_override_attr_list(#[trigger] items[k]),
    ensures
        parses_ok(items),
        fold_items(items) matches Ok((v, _)) && v == (FieldAttrsView {
            override_attrs: list_entries(items),
            ..empty_view()
        }),
{
    lemma_override_attr_fold(items);
    let (v, seen) = fold_items(items).unwrap();
    assert forall|i: int, j: int| !#[trigger] violates(Relation::Implies, seen, i, j) by {
        if 0 <= i < seen.len() && 0 <= j < seen.len() {
            assert(spec_implied(FieldAttr::OverrideAttr) =~= Seq::<FieldAttr>::empty());
        }
    }
    assert forall|i: int, j: int| !#[trigger] violates(Relation::Excludes, seen, i, j) by {
        if 0 <= i < seen.len() && 0 <= j < seen.len() {
            let e = spec_incompatible(FieldAttr::OverrideAttr);
            assert(e.len() == 2 && e[0] == FieldAttr::SkipAll && e[1] == FieldAttr::OverrideSkip);
            assert(!e.contains(FieldAttr::OverrideAttr));
        }
    }
    assert forall|i: int, d: FieldAttr| !#[trigger] misses_dep(seen, i, d) by {
        if 0 <= i < seen.len() {
            assert(spec_dependencies(FieldAttr::OverrideAttr) =~= Seq::<FieldAttr>::empty());
        }
    }
    assert(free_of(Relation::Implies, seen));
    assert(free_of(Relation::Excludes, seen));
    assert(deps_present(seen));
}

} // verus!
