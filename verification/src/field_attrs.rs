//! Reading a field's `#[config(..)]` keys into the settings they stand for,
//! and the rules every accepted combination of keys obeys.

use vstd::prelude::*;
use crate::attr::{
    FieldAttr,
    Shape,
    field_attr_named,
    spec_dependencies,
    spec_field_attr_shapes,
    spec_implied,
    spec_incompatible,
    spec_is_passthrough,
};
use crate::error::ParseError;
use crate::ident::Ident;
use crate::ty::{TypeModel, TypeShape, shape_of, spec_shape};
use crate::meta::{AttrExpr, MetaItem, MetaPath, require_ident, spec_attr_expr};
use crate::outside::{is_type_path, type_path_error_text};
use crate::text::views;
use crate::validate::{
    Relation,
    Seen,
    deps_present,
    find_key,
    free_of,
    has_key,
    is_implicit_error,
    is_missing_dep_error,
    is_mutex_error,
    keys_unique,
    misses_dep,
    validate_deps,
    validate_implicit,
    validate_mutex,
    validate_unique,
    violates,
};

verus! {

/// The settings a field's `#[config(..)]` keys stand for.
pub struct FieldAttrs {
    pub copy: bool,
    pub default: Option<AttrExpr>,
    pub skip_all: bool,
    pub config_skip_getter: bool,
    pub builder_skip: bool,
    pub override_skip: bool,
    pub override_required: bool,
    /// Token text of the type given with `override_from`.
    pub override_from: Option<String>,
    /// The shape of the type given with `override_from`, when its tokens form a type.
    pub override_from_shape: Option<TypeShape>,
    /// Token text of the type given with `override_via`.
    pub override_via: Option<String>,
    /// Attributes given with `override_attr(..)`, in the order written.
    pub override_attrs: Vec<String>,
    /// Each key read, once, with the identifier it was first written as.
    pub written: Seen,
}

/// The settings of a field, as values.
pub struct FieldAttrsView {
    pub copy: bool,
    pub default: Option<AttrExpr>,
    pub skip_all: bool,
    pub config_skip_getter: bool,
    pub builder_skip: bool,
    pub override_skip: bool,
    pub override_required: bool,
    pub override_from: Option<Seq<char>>,
    pub override_from_shape: Option<TypeShape>,
    pub override_via: Option<Seq<char>>,
    pub override_attrs: Seq<Seq<char>>,
}

pub open spec fn opt_text(o: Option<String>) -> Option<Seq<char>> {
    match o {
        Some(s) => Some(s@),
        None => None,
    }
}

pub open spec fn shape_opt(t: Option<TypeModel>) -> Option<TypeShape> {
    match t {
        Some(m) => Some(spec_shape(m)),
        None => None,
    }
}

impl View for FieldAttrs {
    type V = FieldAttrsView;

    open spec fn view(&self) -> FieldAttrsView {
        FieldAttrsView {
            copy: self.copy,
            default: self.default,
            skip_all: self.skip_all,
            config_skip_getter: self.config_skip_getter,
            builder_skip: self.builder_skip,
            override_skip: self.override_skip,
            override_required: self.override_required,
            override_from: opt_text(self.override_from),
            override_from_shape: self.override_from_shape,
            override_via: opt_text(self.override_via),
            override_attrs: views(self.override_attrs@),
        }
    }
}

/// Settings of a field without keys.
pub open spec fn empty_view() -> FieldAttrsView {
    FieldAttrsView {
        copy: false,
        default: None,
        skip_all: false,
        config_skip_getter: false,
        builder_skip: false,
        override_skip: false,
        override_required: false,
        override_from: None,
        override_from_shape: None,
        override_via: None,
        override_attrs: Seq::empty(),
    }
}

impl FieldAttrsView {
    pub open spec fn skip_config_getter(self) -> bool {
        self.skip_all || self.config_skip_getter
    }

    /// No builder setter: `skip_all` and `override_required` both imply `builder_skip`.
    pub open spec fn skip_builder_setter(self) -> bool {
        self.skip_all || self.builder_skip || self.override_required
    }

    pub open spec fn skip_override_field(self) -> bool {
        self.skip_all || self.override_skip
    }

    /// The combinations of settings the attribute reference allows:
    /// `override_via` needs `override_from`; `override_required` excludes a
    /// default and every skip; `override_skip` and `skip_all` exclude every
    /// override setting; `skip_all` is not repeated by the skips it implies.
    pub open spec fn consistent(self) -> bool {
        &&& self.override_via is Some ==> self.override_from is Some
        &&& self.override_required ==> self.default is None && !self.builder_skip
            && !self.override_skip && !self.skip_all
        &&& self.override_skip ==> self.override_from is None && self.override_via is None
            && !self.override_required && self.override_attrs.len() == 0
        &&& self.skip_all ==> !self.config_skip_getter && !self.builder_skip && !self.override_skip
            && !self.override_required && self.override_from is None && self.override_via is None
            && self.override_attrs.len() == 0
    }
}

// !- The reading of one key

/// Records the value carried by an accepted key.
pub open spec fn assign_value(v: FieldAttrsView, a: FieldAttr, item: MetaItem) -> Result<
    FieldAttrsView,
    ParseError,
> {
    match item {
        MetaItem::Path(_) => Ok(
            match a {
                FieldAttr::Copy => FieldAttrsView { copy: true, ..v },
                FieldAttr::SkipAll => FieldAttrsView { skip_all: true, ..v },
                FieldAttr::ConfigSkipGetter => FieldAttrsView { config_skip_getter: true, ..v },
                FieldAttr::BuilderSkip => FieldAttrsView { builder_skip: true, ..v },
                FieldAttr::OverrideSkip => FieldAttrsView { override_skip: true, ..v },
                FieldAttr::OverrideRequired => FieldAttrsView { override_required: true, ..v },
                _ => v,
            },
        ),
        MetaItem::List { items, .. } => if a == FieldAttr::OverrideAttr {
            Ok(FieldAttrsView { override_attrs: v.override_attrs + views(items@), ..v })
        } else {
            Ok(v)
        },
        MetaItem::NameValue { value, .. } => match a {
            FieldAttr::Default => match spec_attr_expr(value) {
                Ok(x) => Ok(FieldAttrsView { default: Some(x), ..v }),
                Err(e) => Err(e),
            },
            FieldAttr::OverrideFrom => if is_type_path(value.text@) {
                Ok(
                    FieldAttrsView {
                        override_from: Some(value.text@),
                        override_from_shape: shape_opt(value.as_type),
                        ..v
                    },
                )
            } else {
                Err(ParseError::InvalidTypePath { text: value.text, span: value.span })
            },
            FieldAttr::OverrideVia => if is_type_path(value.text@) {
                Ok(FieldAttrsView { override_via: Some(value.text@), ..v })
            } else {
                Err(ParseError::InvalidTypePath { text: value.text, span: value.span })
            },
            _ => Ok(v),
        },
    }
}

/// Where key `a` was seen.
pub open spec fn key_index(seen: Seq<(FieldAttr, Ident)>, a: FieldAttr) -> int {
    choose|j: int| 0 <= j < seen.len() && seen[j].0 == a
}

/// Reads one key on top of the settings and keys read so far.
pub open spec fn step(v: FieldAttrsView, seen: Seq<(FieldAttr, Ident)>, item: MetaItem) -> Result<
    (FieldAttrsView, Seq<(FieldAttr, Ident)>),
    ParseError,
> {
    match item.path().ident {
        None => Err(ParseError::ExpectedIdent { path: item.path().text, span: item.path().span }),
        Some(ident) => match field_attr_named(ident.name@) {
            None => Err(ParseError::UnknownAttr { ident }),
            Some(a) => if !spec_field_attr_shapes(a).contains(item.shape()) {
                Err(ParseError::InvalidAttrShape { ident, shape: item.shape() })
            } else {
                match assign_value(v, a, item) {
                    Err(e) => Err(e),
                    Ok(v2) => if has_key(seen, a) {
                        if spec_is_passthrough(a) {
                            Ok((v2, seen))
                        } else {
                            Err(ParseError::DuplicateAttr { ident: seen[key_index(seen, a)].1 })
                        }
                    } else {
                        Ok((v2, seen.push((a, ident))))
                    },
                }
            },
        },
    }
}

/// Reads the keys in order, stopping at the first that is rejected.
pub open spec fn fold_items(items: Seq<MetaItem>) -> Result<
    (FieldAttrsView, Seq<(FieldAttr, Ident)>),
    ParseError,
>
    decreases items.len(),
{
    if items.len() == 0 {
        Ok((empty_view(), Seq::empty()))
    } else {
        match fold_items(items.drop_last()) {
            Err(e) => Err(e),
            Ok((v, s)) => step(v, s, items.last()),
        }
    }
}

/// What reading a field's keys gives: the first rejected key, else a
/// violated rule among the keys, else the settings.
pub open spec fn parse_outcome(items: Seq<MetaItem>, r: Result<FieldAttrs, ParseError>) -> bool {
    match fold_items(items) {
        Err(e) => r == Err::<FieldAttrs, ParseError>(e),
        Ok((v, seen)) => if !free_of(Relation::Implies, seen) {
            r matches Err(e) && is_implicit_error(e, seen)
        } else if !free_of(Relation::Excludes, seen) {
            r matches Err(e) && is_mutex_error(e, seen)
        } else if !deps_present(seen) {
            r matches Err(e) && is_missing_dep_error(e, seen)
        } else {
            r matches Ok(out) && out@ == v && out.written@ == seen
        },
    }
}

/// The keys are accepted.
pub open spec fn parses_ok(items: Seq<MetaItem>) -> bool {
    fold_items(items) matches Ok((v, seen)) && free_of(Relation::Implies, seen) && free_of(
        Relation::Excludes,
        seen,
    ) && deps_present(seen)
}

// !- Lemmas

/// Whether each key was seen matches the setting it stands for.
pub open spec fn flags_match(v: FieldAttrsView, seen: Seq<(FieldAttr, Ident)>) -> bool {
    &&& v.copy == has_key(seen, FieldAttr::Copy)
    &&& (v.default is Some) == has_key(seen, FieldAttr::Default)
    &&& v.skip_all == has_key(seen, FieldAttr::SkipAll)
    &&& v.config_skip_getter == has_key(seen, FieldAttr::ConfigSkipGetter)
    &&& v.builder_skip == has_key(seen, FieldAttr::BuilderSkip)
    &&& v.override_skip == has_key(seen, FieldAttr::OverrideSkip)
    &&& v.override_required == has_key(seen, FieldAttr::OverrideRequired)
    &&& (v.override_from is Some) == has_key(seen, FieldAttr::OverrideFrom)
    &&& (v.override_via is Some) == has_key(seen, FieldAttr::OverrideVia)
    &&& v.override_attrs.len() > 0 ==> has_key(seen, FieldAttr::OverrideAttr)
}

proof fn lemma_has_key_push(seen: Seq<(FieldAttr, Ident)>, p: (FieldAttr, Ident), b: FieldAttr)
    ensures
        has_key(seen.push(p), b) == (has_key(seen, b) || p.0 == b),
{
    let s2 = seen.push(p);
    if has_key(seen, b) {
        let j = choose|j: int| 0 <= j < seen.len() && #[trigger] seen[j].0 == b;
        assert(s2[j].0 == b);
    }
    if p.0 == b {
        assert(s2[seen.len() as int].0 == b);
    }
    if has_key(s2, b) {
        let j = choose|j: int| 0 <= j < s2.len() && #[trigger] s2[j].0 == b;
        if j < seen.len() {
            assert(seen[j].0 == b);
        }
    }
}

proof fn lemma_step_keeps(v: FieldAttrsView, seen: Seq<(FieldAttr, Ident)>, item: MetaItem)
    requires
        flags_match(v, seen),
        keys_unique(seen),
    ensures
        step(v, seen, item) matches Ok((v2, s2)) ==> flags_match(v2, s2) && keys_unique(s2),
{
    if let Ok((v2, s2)) = step(v, seen, item) {
        let ident = item.path().ident.unwrap();
        let a = field_attr_named(ident.name@).unwrap();
        if !has_key(seen, a) {
            assert forall|b: FieldAttr| has_key(s2, b) == (has_key(seen, b) || a == b) by {
                lemma_has_key_push(seen, (a, ident), b);
            }
            assert forall|i: int, j: int|
                0 <= i < s2.len() && 0 <= j < s2.len() && i != j implies #[trigger] s2[i].0
                != #[trigger] s2[j].0 by {
                if i == seen.len() {
                    assert(seen[j].0 != a);
                } else if j == seen.len() {
                    assert(seen[i].0 != a);
                }
            }
        }
    }
}

pub proof fn lemma_fold_keeps(items: Seq<MetaItem>)
    ensures
        fold_items(items) matches Ok((v, s)) ==> flags_match(v, s) && keys_unique(s),
    decreases items.len(),
{
    if items.len() == 0 {
        assert forall|b: FieldAttr| !has_key(Seq::<(FieldAttr, Ident)>::empty(), b) by {}
    } else {
        lemma_fold_keeps(items.drop_last());
        if let Ok((v, s)) = fold_items(items.drop_last()) {
            lemma_step_keeps(v, s, items.last());
        }
    }
}

proof fn lemma_fold_err_stays(items: Seq<MetaItem>, k: int, e: ParseError)
    requires
        0 <= k <= items.len(),
        fold_items(items.take(k)) == Err::<(FieldAttrsView, Seq<(FieldAttr, Ident)>), ParseError>(e),
    ensures
        fold_items(items) == Err::<(FieldAttrsView, Seq<(FieldAttr, Ident)>), ParseError>(e),
    decreases items.len() - k,
{
    if k < items.len() {
        assert(items.take(k + 1).drop_last() =~= items.take(k));
        lemma_fold_err_stays(items, k + 1, e);
    } else {
        assert(items.take(k) =~= items);
    }
}

/// Two seen keys related by `rel` make the set of keys violate it.
proof fn lemma_pair_violates(rel: Relation, seen: Seq<(FieldAttr, Ident)>, a: FieldAttr, b: FieldAttr)
    requires
        has_key(seen, a),
        has_key(seen, b),
        crate::validate::spec_related(rel, a).contains(b),
    ensures
        !free_of(rel, seen),
{
    let i = choose|i: int| 0 <= i < seen.len() && #[trigger] seen[i].0 == a;
    let j = choose|j: int| 0 <= j < seen.len() && #[trigger] seen[j].0 == b;
    assert(violates(rel, seen, i, j));
}

proof fn lemma_consistent(v: FieldAttrsView, seen: Seq<(FieldAttr, Ident)>)
    requires
        flags_match(v, seen),
        free_of(Relation::Implies, seen),
        free_of(Relation::Excludes, seen),
        deps_present(seen),
    ensures
        v.consistent(),
{
    if v.override_via is Some && v.override_from is None {
        let i = choose|i: int| 0 <= i < seen.len() && #[trigger] seen[i].0 == FieldAttr::OverrideVia;
        assert(spec_dependencies(FieldAttr::OverrideVia)[0] == FieldAttr::OverrideFrom);
        assert(misses_dep(seen, i, FieldAttr::OverrideFrom));
    }
    if v.override_required {
        if v.default is Some {
            assert(spec_incompatible(FieldAttr::OverrideRequired)[0] == FieldAttr::Default);
            lemma_pair_violates(Relation::Excludes, seen, FieldAttr::OverrideRequired, FieldAttr::Default);
        }
        if v.builder_skip {
            assert(spec_implied(FieldAttr::OverrideRequired)[0] == FieldAttr::BuilderSkip);
            lemma_pair_violates(Relation::Implies, seen, FieldAttr::OverrideRequired, FieldAttr::BuilderSkip);
        }
        if v.override_skip {
            assert(spec_incompatible(FieldAttr::OverrideSkip)[0] == FieldAttr::OverrideRequired);
            lemma_pair_violates(Relation::Excludes, seen, FieldAttr::OverrideSkip, FieldAttr::OverrideRequired);
        }
        if v.skip_all {
            assert(spec_incompatible(FieldAttr::SkipAll)[0] == FieldAttr::OverrideRequired);
            lemma_pair_violates(Relation::Excludes, seen, FieldAttr::SkipAll, FieldAttr::OverrideRequired);
        }
    }
    if v.override_skip {
        if v.override_from is Some {
            assert(spec_incompatible(FieldAttr::OverrideSkip)[1] == FieldAttr::OverrideFrom);
            lemma_pair_violates(Relation::Excludes, seen, FieldAttr::OverrideSkip, FieldAttr::OverrideFrom);
        }
        if v.override_via is Some {
            assert(spec_incompatible(FieldAttr::OverrideSkip)[2] == FieldAttr::OverrideVia);
            lemma_pair_violates(Relation::Excludes, seen, FieldAttr::OverrideSkip, FieldAttr::OverrideVia);
        }
        if v.override_attrs.len() > 0 {
            assert(spec_incompatible(FieldAttr::OverrideAttr)[1] == FieldAttr::OverrideSkip);
            lemma_pair_violates(Relation::Excludes, seen, FieldAttr::OverrideAttr, FieldAttr::OverrideSkip);
        }
    }
    if v.skip_all {
        if v.config_skip_getter {
            assert(spec_implied(FieldAttr::SkipAll)[0] == FieldAttr::ConfigSkipGetter);
            lemma_pair_violates(Relation::Implies, seen, FieldAttr::SkipAll, FieldAttr::ConfigSkipGetter);
        }
        if v.builder_skip {
            assert(spec_implied(FieldAttr::SkipAll)[1] == FieldAttr::BuilderSkip);
            lemma_pair_violates(Relation::Implies, seen, FieldAttr::SkipAll, FieldAttr::BuilderSkip);
        }
        if v.override_skip {
            assert(spec_implied(FieldAttr::SkipAll)[2] == FieldAttr::OverrideSkip);
            lemma_pair_violates(Relation::Implies, seen, FieldAttr::SkipAll, FieldAttr::OverrideSkip);
        }
        if v.override_from is Some {
            assert(spec_incompatible(FieldAttr::SkipAll)[1] == FieldAttr::OverrideFrom);
            lemma_pair_violates(Relation::Excludes, seen, FieldAttr::SkipAll, FieldAttr::OverrideFrom);
        }
        if v.override_via is Some {
            assert(spec_incompatible(FieldAttr::SkipAll)[2] == FieldAttr::OverrideVia);
            lemma_pair_violates(Relation::Excludes, seen, FieldAttr::SkipAll, FieldAttr::OverrideVia);
        }
        if v.override_attrs.len() > 0 {
            assert(spec_incompatible(FieldAttr::OverrideAttr)[0] == FieldAttr::SkipAll);
            lemma_pair_violates(Relation::Excludes, seen, FieldAttr::OverrideAttr, FieldAttr::SkipAll);
        }
    }
}

// !- Reading

fn item_path(item: &MetaItem) -> (r: &MetaPath)
    ensures
        *r == item.path(),
{
    match item {
        MetaItem::Path(p) => p,
        MetaItem::List { path, .. } => path,
        MetaItem::NameValue { path, .. } => path,
    }
}

fn item_shape(item: &MetaItem) -> (r: Shape)
    ensures
        r == item.shape(),
{
    match item {
        MetaItem::Path(_) => Shape::Flag,
        MetaItem::List { .. } => Shape::List,
        MetaItem::NameValue { .. } => Shape::KeyValue,
    }
}

/// Appends copies of `extra` to `out`.
pub fn extend_strings(out: &mut Vec<String>, extra: &Vec<String>)
    ensures
        final(out)@ == old(out)@ + extra@,
{
    let ghost start = out@;
    let mut i: usize = 0;
    while i < extra.len()
        invariant
            i <= extra@.len(),
            out@ == start + extra@.take(i as int),
        decreases extra.len() - i,
    {
        out.push(extra[i].clone());
        assert(extra@.take(i + 1) =~= extra@.take(i as int).push(extra@[i as int]));
        i = i + 1;
    }
    assert(extra@.take(extra@.len() as int) =~= extra@);
}

fn apply_value(out: &mut FieldAttrs, a: FieldAttr, item: &MetaItem) -> (r: Result<(), ParseError>)
    requires
        spec_field_attr_shapes(a).contains(item.shape()),
    ensures
        match assign_value(old(out)@, a, *item) {
            Ok(v2) => r is Ok && final(out)@ == v2,
            Err(e) => r == Err::<(), ParseError>(e),
        },
{
    match item {
        MetaItem::Path(_) => {
            match a {
                FieldAttr::Copy => out.copy = true,
                FieldAttr::SkipAll => out.skip_all = true,
                FieldAttr::ConfigSkipGetter => out.config_skip_getter = true,
                FieldAttr::BuilderSkip => out.builder_skip = true,
                FieldAttr::OverrideSkip => out.override_skip = true,
                FieldAttr::OverrideRequired => out.override_required = true,
                _ => {},
            }
            Ok(())
        },
        MetaItem::List { items, .. } => {
            if a == FieldAttr::OverrideAttr {
                let ghost before = out.override_attrs@;
                extend_strings(&mut out.override_attrs, items);
                assert(views(out.override_attrs@) =~= views(before) + views(items@));
            }
            Ok(())
        },
        MetaItem::NameValue { value, .. } => {
            match a {
                FieldAttr::Default => {
                    let x = AttrExpr::try_from_expr(value)?;
                    out.default = Some(x);
                    Ok(())
                },
                FieldAttr::OverrideFrom => if type_path_error_text(value.text.as_str()).is_none() {
                    out.override_from = Some(value.text.clone());
                    out.override_from_shape = match &value.as_type {
                        Some(m) => Some(shape_of(m)),
                        None => None,
                    };
                    Ok(())
                } else {
                    Err(ParseError::InvalidTypePath { text: value.text.clone(), span: value.span })
                },
                FieldAttr::OverrideVia => if type_path_error_text(value.text.as_str()).is_none() {
                    out.override_via = Some(value.text.clone());
                    Ok(())
                } else {
                    Err(ParseError::InvalidTypePath { text: value.text.clone(), span: value.span })
                },
                _ => Ok(()),
            }
        },
    }
}

fn apply_item(out: &mut FieldAttrs, seen: &mut Seen, item: &MetaItem) -> (r: Result<(), ParseError>)
    requires
        keys_unique(old(seen)@),
    ensures
        match step(old(out)@, old(seen)@, *item) {
            Ok((v, s)) => r is Ok && final(out)@ == v && final(seen)@ == s,
            Err(e) => r == Err::<(), ParseError>(e),
        },
{
    let path = item_path(item);
    let ident = require_ident(path)?;
    let attr = FieldAttr::from_ident(&ident)?;
    let shape = item_shape(item);
    attr.validate_shape(shape, &ident)?;
    apply_value(out, attr, item)?;
    match find_key(seen, attr) {
        Some(j) => {
            if !attr.is_passthrough() {
                proof {
                    let k = key_index(seen@, attr);
                    assert(0 <= k < seen@.len() && seen@[k].0 == attr);
                    assert(k == j);
                }
                return Err(ParseError::DuplicateAttr { ident: seen[j].1.duplicate() });
            }
        },
        None => {
            seen.push((attr, ident));
        },
    }
    Ok(())
}

/// Reads a field's `#[config(..)]` keys.
///
/// Keys are read in order; the first one that is not an identifier, not a
/// known key, not in its key's shape, carries a value that is not accepted,
/// or repeats a key that may only be written once, is reported. Then the
/// keys as a whole are checked: no key beside one that implies it, no two
/// incompatible keys, every dependency present.
pub fn parse_field_attrs(items: &Vec<MetaItem>) -> (r: Result<FieldAttrs, ParseError>)
    ensures
        parse_outcome(items@, r),
        r is Ok <==> parses_ok(items@),
        r matches Ok(out) ==> out@.consistent() && flags_match(out@, out.written@) && keys_unique(
            out.written@,
        ),
{
    let mut out = FieldAttrs {
        copy: false,
        default: None,
        skip_all: false,
        config_skip_getter: false,
        builder_skip: false,
        override_skip: false,
        override_required: false,
        override_from: None,
        override_from_shape: None,
        override_via: None,
        override_attrs: Vec::new(),
        written: Vec::new(),
    };
    let mut seen: Seen = Vec::new();
    proof {
        assert(views(out.override_attrs@) =~= Seq::<Seq<char>>::empty());
        assert(items@.take(0) =~= Seq::<MetaItem>::empty());
    }
    let mut k: usize = 0;
    while k < items.len()
        invariant
            k <= items@.len(),
            fold_items(items@.take(k as int)) == Ok::<
                (FieldAttrsView, Seq<(FieldAttr, Ident)>),
                ParseError,
            >((out@, seen@)),
            keys_unique(seen@),
        decreases items.len() - k,
    {
        proof {
            assert(items@.take(k + 1).drop_last() =~= items@.take(k as int));
            assert(items@.take(k + 1).last() == items@[k as int]);
            lemma_fold_keeps(items@.take(k as int));
            lemma_step_keeps(out@, seen@, items@[k as int]);
        }
        match apply_item(&mut out, &mut seen, &items[k]) {
            Ok(()) => {},
            Err(e) => {
                proof {
                    lemma_fold_err_stays(items@, k + 1, e);
                }
                return Err(e);
            },
        }
        k = k + 1;
    }
    proof {
        assert(items@.take(items@.len() as int) =~= items@);
        lemma_fold_keeps(items@);
    }
    validate_implicit(&seen)?;
    validate_mutex(&seen)?;
    validate_deps(&seen)?;
    proof {
        lemma_consistent(out@, seen@);
    }
    out.written = seen;
    Ok(out)
}

impl FieldAttrs {
    /// No getter on the config struct.
    pub fn skip_config_getter(&self) -> (r: bool)
        ensures
            r == self@.skip_config_getter(),
    {
        self.skip_all || self.config_skip_getter
    }

    /// No setter on the builder.
    pub fn skip_builder_setter(&self) -> (r: bool)
        ensures
            r == self@.skip_builder_setter(),
    {
        self.skip_all || self.builder_skip || self.override_required
    }

    /// No field in the override struct.
    pub fn skip_override_field(&self) -> (r: bool)
        ensures
            r == self@.skip_override_field(),
    {
        self.skip_all || self.override_skip
    }

    /// The override struct holds the field in another type.
    pub fn has_mapped_type(&self) -> (r: bool)
        ensures
            r == (self.override_from is Some),
    {
        self.override_from.is_some()
    }

    /// The override value is converted through an intermediate type.
    pub fn has_intermediate_type(&self) -> (r: bool)
        ensures
            r == (self.override_via is Some),
    {
        self.override_via.is_some()
    }

    /// Attributes are passed through to the override field.
    pub fn has_override_attrs(&self) -> (r: bool)
        ensures
            r == (self.override_attrs@.len() > 0),
    {
        self.override_attrs.len() > 0
    }
}

} // verus!
