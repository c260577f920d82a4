//! The annotated struct as a whole: its kind, name suffix, struct-level
//! keys, documentation and fields.

use vstd::prelude::*;
use crate::attr::{StructAttr, spec_struct_attr_shapes, struct_attr_named};
use crate::error::ParseError;
use crate::ident::Ident;
use crate::meta::{MetaItem, MetaPath, require_ident};
use crate::origin::{
    AttrInput,
    AttrProblem,
    FieldInput,
    OriginField,
    field_accepted,
    field_outcome,
    is_doc_error,
    problem_reported,
    spec_doc_result,
    try_parse_doc_attrs,
};
use crate::text::{concat2, ends_with, spec_ends_with, views};

verus! {

// !- Struct-level keys

/// What the struct-level keys ask for, each list in the order written.
/// `derive(..)` and `attr(..)` apply to both generated structs.
pub struct StructAttrs {
    pub builder_derives: Vec<String>,
    pub override_derives: Vec<String>,
    pub builder_attrs: Vec<String>,
    pub override_attrs: Vec<String>,
}

pub struct StructAttrsView {
    pub builder_derives: Seq<Seq<char>>,
    pub override_derives: Seq<Seq<char>>,
    pub builder_attrs: Seq<Seq<char>>,
    pub override_attrs: Seq<Seq<char>>,
}

impl View for StructAttrs {
    type V = StructAttrsView;

    open spec fn view(&self) -> StructAttrsView {
        StructAttrsView {
            builder_derives: views(self.builder_derives@),
            override_derives: views(self.override_derives@),
            builder_attrs: views(self.builder_attrs@),
            override_attrs: views(self.override_attrs@),
        }
    }
}

pub open spec fn empty_struct_attrs() -> StructAttrsView {
    StructAttrsView {
        builder_derives: Seq::empty(),
        override_derives: Seq::empty(),
        builder_attrs: Seq::empty(),
        override_attrs: Seq::empty(),
    }
}

/// Adds the entries of one struct-level key.
pub open spec fn struct_assign(v: StructAttrsView, a: StructAttr, entries: Seq<Seq<char>>) -> StructAttrsView {
    match a {
        StructAttr::Derive => StructAttrsView {
            builder_derives: v.builder_derives + entries,
            override_derives: v.override_derives + entries,
            ..v
        },
        StructAttr::BuilderDerive => StructAttrsView {
            builder_derives: v.builder_derives + entries,
            ..v
        },
        StructAttr::OverrideDerive => StructAttrsView {
            override_derives: v.override_derives + entries,
            ..v
        },
        StructAttr::Attr => StructAttrsView {
            builder_attrs: v.builder_attrs + entries,
            override_attrs: v.override_attrs + entries,
            ..v
        },
        StructAttr::BuilderAttr => StructAttrsView { builder_attrs: v.builder_attrs + entries, ..v },
        StructAttr::OverrideAttr => StructAttrsView {
            override_attrs: v.override_attrs + entries,
            ..v
        },
    }
}

/// Reads one struct-level key.
pub open spec fn struct_step(v: StructAttrsView, item: MetaItem) -> Result<StructAttrsView, ParseError> {
    match item.path().ident {
        None => Err(ParseError::ExpectedIdent { path: item.path().text, span: item.path().span }),
        Some(ident) => match struct_attr_named(ident.name@) {
            None => Err(ParseError::UnknownAttr { ident }),
            Some(a) => if !spec_struct_attr_shapes(a).contains(item.shape()) {
                Err(ParseError::InvalidAttrShape { ident, shape: item.shape() })
            } else {
                match item {
                    MetaItem::List { items, .. } => Ok(struct_assign(v, a, views(items@))),
                    _ => Ok(v),
                }
            },
        },
    }
}

/// Reads struct-level keys in order, stopping at the first rejected one.
pub open spec fn fold_struct_items(v: StructAttrsView, items: Seq<MetaItem>) -> Result<StructAttrsView, ParseError>
    decreases items.len(),
{
    if items.len() == 0 {
        Ok(v)
    } else {
        match fold_struct_items(v, items.drop_last()) {
            Err(e) => Err(e),
            Ok(v2) => struct_step(v2, items.last()),
        }
    }
}

proof fn lemma_struct_fold_err(v: StructAttrsView, items: Seq<MetaItem>, k: int, e: ParseError)
    requires
        0 <= k <= items.len(),
        fold_struct_items(v, items.take(k)) == Err::<StructAttrsView, ParseError>(e),
    ensures
        fold_struct_items(v, items) == Err::<StructAttrsView, ParseError>(e),
    decreases items.len() - k,
{
    if k < items.len() {
        assert(items.take(k + 1).drop_last() =~= items.take(k));
        lemma_struct_fold_err(v, items, k + 1, e);
    } else {
        assert(items.take(k) =~= items);
    }
}

fn append_entries(out: &mut Vec<String>, extra: &Vec<String>)
    ensures
        views(final(out)@) == views(old(out)@) + views(extra@),
{
    let ghost before = out@;
    crate::field_attrs::extend_strings(out, extra);
    assert(views(out@) =~= views(before) + views(extra@));
}

/// Reads the keys of one struct-level `#[config(..)]` on top of `out`.
pub fn parse_struct_attrs(out: &mut StructAttrs, items: &Vec<MetaItem>) -> (r: Result<(), ParseError>)
    ensures
        match fold_struct_items(old(out)@, items@) {
            Ok(v) => r is Ok && final(out)@ == v,
            Err(e) => r == Err::<(), ParseError>(e),
        },
{
    let ghost start = out@;
    proof {
        assert(items@.take(0) =~= Seq::<MetaItem>::empty());
    }
    let mut k: usize = 0;
    while k < items.len()
        invariant
            start == old(out)@,
            k <= items@.len(),
            fold_struct_items(start, items@.take(k as int)) == Ok::<StructAttrsView, ParseError>(
                out@,
            ),
        decreases items.len() - k,
    {
        proof {
            assert(items@.take(k + 1).drop_last() =~= items@.take(k as int));
            assert(items@.take(k + 1).last() == items@[k as int]);
        }
        let item = &items[k];
        let path: &MetaPath = match item {
            MetaItem::Path(p) => p,
            MetaItem::List { path, .. } => path,
            MetaItem::NameValue { path, .. } => path,
        };
        let shape = match item {
            MetaItem::Path(_) => crate::attr::Shape::Flag,
            MetaItem::List { .. } => crate::attr::Shape::List,
            MetaItem::NameValue { .. } => crate::attr::Shape::KeyValue,
        };
        let step: Result<(), ParseError> = match require_ident(path) {
            Err(e) => Err(e),
            Ok(ident) => match StructAttr::from_ident(&ident) {
                Err(e) => Err(e),
                Ok(a) => match a.validate_shape(shape, &ident) {
                    Err(e) => Err(e),
                    Ok(()) => {
                        match item {
                            MetaItem::List { items: entries, .. } => {
                                match a {
                                    StructAttr::Derive => {
                                        append_entries(&mut out.builder_derives, entries);
                                        append_entries(&mut out.override_derives, entries);
                                    },
                                    StructAttr::BuilderDerive => {
                                        append_entries(&mut out.builder_derives, entries);
                                    },
                                    StructAttr::OverrideDerive => {
                                        append_entries(&mut out.override_derives, entries);
                                    },
                                    StructAttr::Attr => {
                                        append_entries(&mut out.builder_attrs, entries);
                                        append_entries(&mut out.override_attrs, entries);
                                    },
                                    StructAttr::BuilderAttr => {
                                        append_entries(&mut out.builder_attrs, entries);
                                    },
                                    StructAttr::OverrideAttr => {
                                        append_entries(&mut out.override_attrs, entries);
                                    },
                                }
                            },
                            _ => {},
                        }
                        Ok(())
                    },
                },
            },
        };
        match step {
            Err(e) => {
                proof {
                    lemma_struct_fold_err(start, items@, k + 1, e);
                }
                return Err(e);
            },
            Ok(()) => {},
        }
        k = k + 1;
    }
    proof {
        assert(items@.take(items@.len() as int) =~= items@);
    }
    Ok(())
}

impl StructAttrs {
    pub fn has_builder_derives(&self) -> (r: bool)
        ensures
            r == (self.builder_derives@.len() > 0),
    {
        self.builder_derives.len() > 0
    }

    pub fn has_override_derives(&self) -> (r: bool)
        ensures
            r == (self.override_derives@.len() > 0),
    {
        self.override_derives.len() > 0
    }

    pub fn has_builder_attrs(&self) -> (r: bool)
        ensures
            r == (self.builder_attrs@.len() > 0),
    {
        self.builder_attrs.len() > 0
    }

    pub fn has_override_attrs(&self) -> (r: bool)
        ensures
            r == (self.override_attrs@.len() > 0),
    {
        self.override_attrs.len() > 0
    }
}


// !- The struct

/// The generic parameters of the struct, as token texts.
pub struct GenericsModel {
    /// Number of type parameters.
    pub type_param_count: usize,
    /// The parameter list as declared, bounds included (`<T: Clone, S>`), or empty.
    pub decl_text: String,
    /// The parameter list for an `impl` header, or empty.
    pub impl_text: String,
    /// The parameter list for naming the type (`<T, S>`), or empty.
    pub ty_text: String,
    /// The `where` clause, or empty.
    pub where_text: String,
}

/// What kind of item carries the derive.
pub enum DataShape {
    /// A struct with named fields.
    Named(Vec<FieldInput>),
    /// A tuple struct; the position of its parentheses.
    Unnamed { span: u64 },
    Unit,
    Enum { span: u64 },
    Union { span: u64 },
}

/// The item the derive is applied to.
pub struct StructInput {
    pub ident: Ident,
    pub attrs: Vec<AttrInput>,
    pub generics: GenericsModel,
    pub data: DataShape,
}

/// The annotated struct.
pub struct OriginStruct {
    pub ident: Ident,
    /// The struct's type with its parameters: `<name><type generics>`.
    pub ty: String,
    /// The suffix its name ends with, such as `Config`.
    pub suffix: String,
    pub fields: Vec<OriginField>,
    pub doc_attrs: Vec<String>,
    pub generics: GenericsModel,
    pub attrs: StructAttrs,
}

/// The suffixes a struct name may end with, in the order they are tried.
pub open spec fn struct_suffix_of(name: Seq<char>) -> Option<Seq<char>> {
    if spec_ends_with(name, "Config"@) {
        Some("Config"@)
    } else if spec_ends_with(name, "Conf"@) {
        Some("Conf"@)
    } else if spec_ends_with(name, "Options"@) {
        Some("Options"@)
    } else if spec_ends_with(name, "Opts"@) {
        Some("Opts"@)
    } else if spec_ends_with(name, "Parameters"@) {
        Some("Parameters"@)
    } else if spec_ends_with(name, "Params"@) {
        Some("Params"@)
    } else {
        None
    }
}

/// `e` reports that `ident` ends with none of the suffixes.
pub open spec fn is_suffix_error(e: ParseError, ident: Ident) -> bool {
    e matches ParseError::UnknownStructSuffix { name, suffixes, span } && name@ == ident.name@
        && suffixes@ == "Config, Conf, Options, Opts, Parameters, Params"@ && span == ident.span
}

/// The suffix the struct's name ends with.
pub fn resolve_suffix(ident: &Ident) -> (r: Result<String, ParseError>)
    ensures
        match struct_suffix_of(ident.name@) {
            Some(suf) => r matches Ok(s) && s@ == suf,
            None => r matches Err(e) && is_suffix_error(e, *ident),
        },
{
    let name = ident.name.as_str();
    if ends_with(name, "Config") {
        Ok(String::from_str("Config"))
    } else if ends_with(name, "Conf") {
        Ok(String::from_str("Conf"))
    } else if ends_with(name, "Options") {
        Ok(String::from_str("Options"))
    } else if ends_with(name, "Opts") {
        Ok(String::from_str("Opts"))
    } else if ends_with(name, "Parameters") {
        Ok(String::from_str("Parameters"))
    } else if ends_with(name, "Params") {
        Ok(String::from_str("Params"))
    } else {
        Err(
            ParseError::UnknownStructSuffix {
                name: ident.name.clone(),
                suffixes: String::from_str("Config, Conf, Options, Opts, Parameters, Params"),
                span: ident.span,
            },
        )
    }
}

/// Reads one attribute of the struct.
pub open spec fn struct_scan_step(st: (StructAttrsView, Seq<Seq<char>>), a: AttrInput) -> Result<
    (StructAttrsView, Seq<Seq<char>>),
    AttrProblem,
> {
    match a {
        AttrInput::Config { items, .. } => match fold_struct_items(st.0, items@) {
            Ok(v) => Ok((v, st.1)),
            Err(e) => Err(AttrProblem::Error(e)),
        },
        AttrInput::Doc(d) => match spec_doc_result(d) {
            Ok(src) => Ok((st.0, st.1.push(src))),
            Err(_) => Err(AttrProblem::DocRejected(d)),
        },
        AttrInput::Other => Ok(st),
    }
}

/// Reads the struct's attributes in order, stopping at the first rejected one.
pub open spec fn fold_struct_scan(attrs: Seq<AttrInput>) -> Result<
    (StructAttrsView, Seq<Seq<char>>),
    AttrProblem,
>
    decreases attrs.len(),
{
    if attrs.len() == 0 {
        Ok((empty_struct_attrs(), Seq::empty()))
    } else {
        match fold_struct_scan(attrs.drop_last()) {
            Err(p) => Err(p),
            Ok(st) => struct_scan_step(st, attrs.last()),
        }
    }
}

proof fn lemma_struct_scan_err(attrs: Seq<AttrInput>, k: int, p: AttrProblem)
    requires
        0 <= k <= attrs.len(),
        fold_struct_scan(attrs.take(k)) == Err::<(StructAttrsView, Seq<Seq<char>>), AttrProblem>(p),
    ensures
        fold_struct_scan(attrs) == Err::<(StructAttrsView, Seq<Seq<char>>), AttrProblem>(p),
    decreases attrs.len() - k,
{
    if k < attrs.len() {
        assert(attrs.take(k + 1).drop_last() =~= attrs.take(k));
        lemma_struct_scan_err(attrs, k + 1, p);
    } else {
        assert(attrs.take(k) =~= attrs);
    }
}

/// What reading the annotated item gives.
pub open spec fn struct_outcome(input: StructInput, r: Result<OriginStruct, ParseError>) -> bool {
    match input.data {
        DataShape::Enum { span } => r == Err::<OriginStruct, ParseError>(
            ParseError::EnumUnsupported { span },
        ),
        DataShape::Union { span } => r == Err::<OriginStruct, ParseError>(
            ParseError::UnionUnsupported { span },
        ),
        DataShape::Unnamed { span } => r == Err::<OriginStruct, ParseError>(
            ParseError::UnnamedStructUnsupported { span },
        ),
        DataShape::Unit => r == Err::<OriginStruct, ParseError>(
            ParseError::UnitStructUnsupported { span: input.ident.span },
        ),
        DataShape::Named(fields) => match fold_struct_scan(input.attrs@) {
            Err(p) => r matches Err(e) && problem_reported(p, e),
            Ok((sv, docs)) => if exists|k: int|
                0 <= k < fields@.len() && !field_accepted(#[trigger] fields@[k]) {
                r matches Err(e) && exists|k: int|
                    0 <= k < fields@.len() && !field_accepted(#[trigger] fields@[k]) && field_outcome(
                        fields@[k],
                        Err(e),
                    ) && forall|j: int| 0 <= j < k ==> field_accepted(#[trigger] fields@[j])
            } else {
                match struct_suffix_of(input.ident.name@) {
                    None => r matches Err(e) && is_suffix_error(e, input.ident),
                    Some(suf) => r matches Ok(o) && o.ident == input.ident && o.ty@
                        == input.ident.name@ + input.generics.ty_text@ && o.suffix@ == suf
                        && o.fields@.len() == fields@.len() && (forall|k: int|
                        0 <= k < fields@.len() ==> field_outcome(
                            #[trigger] fields@[k],
                            Ok(o.fields@[k]),
                        )) && views(o.doc_attrs@) == docs && o.attrs@ == sv && o.generics
                        == input.generics,
                }
            },
        },
    }
}

/// The item is accepted: a struct with named fields whose attributes and
/// fields are all accepted and whose name ends with a known suffix.
pub open spec fn struct_accepted(input: StructInput) -> bool {
    &&& input.data is Named
    &&& fold_struct_scan(input.attrs@) is Ok
    &&& forall|k: int|
        0 <= k < named_fields(input.data)@.len() ==> field_accepted(
            #[trigger] named_fields(input.data)@[k],
        )
    &&& struct_suffix_of(input.ident.name@) is Some
}

impl OriginStruct {
    /// Reads the item the derive is applied to.
    ///
    /// Only structs with named fields are accepted; their name must end with
    /// one of the known suffixes.
    pub fn from_input(input: StructInput) -> (r: Result<OriginStruct, ParseError>)
        ensures
            struct_outcome(input, r),
            r is Ok <==> struct_accepted(input),
            r matches Ok(o) ==> o.wf(),
    {
        let ghost input0 = input;
        let StructInput { ident, attrs, generics, data } = input;
        let fields_in = match data {
            DataShape::Named(f) => f,
            DataShape::Unnamed { span } => {
                return Err(ParseError::UnnamedStructUnsupported { span });
            },
            DataShape::Unit => {
                return Err(ParseError::UnitStructUnsupported { span: ident.span });
            },
            DataShape::Enum { span } => {
                return Err(ParseError::EnumUnsupported { span });
            },
            DataShape::Union { span } => {
                return Err(ParseError::UnionUnsupported { span });
            },
        };
        // struct attributes
        let mut sattrs = StructAttrs {
            builder_derives: Vec::new(),
            override_derives: Vec::new(),
            builder_attrs: Vec::new(),
            override_attrs: Vec::new(),
        };
        let mut docs: Vec<String> = Vec::new();
        proof {
            assert(views(sattrs.builder_derives@) =~= Seq::<Seq<char>>::empty());
            assert(views(sattrs.override_derives@) =~= Seq::<Seq<char>>::empty());
            assert(views(sattrs.builder_attrs@) =~= Seq::<Seq<char>>::empty());
            assert(views(sattrs.override_attrs@) =~= Seq::<Seq<char>>::empty());
            assert(attrs@.take(0) =~= Seq::<AttrInput>::empty());
        }
        let mut k: usize = 0;
        while k < attrs.len()
            invariant
                input0 == input,
                input0.data == DataShape::Named(fields_in),
                attrs@ == input0.attrs@,
                k <= attrs@.len(),
                fold_struct_scan(attrs@.take(k as int)) == Ok::<
                    (StructAttrsView, Seq<Seq<char>>),
                    AttrProblem,
                >((sattrs@, views(docs@))),
            decreases attrs.len() - k,
        {
            proof {
                assert(attrs@.take(k + 1).drop_last() =~= attrs@.take(k as int));
                assert(attrs@.take(k + 1).last() == attrs@[k as int]);
            }
            match &attrs[k] {
                AttrInput::Config { items, .. } => {
                    match parse_struct_attrs(&mut sattrs, items) {
                        Ok(()) => {},
                        Err(e) => {
                            proof {
                                lemma_struct_scan_err(attrs@, k + 1, AttrProblem::Error(e));
                            }
                            return Err(e);
                        },
                    }
                },
                AttrInput::Doc(d) => {
                    match try_parse_doc_attrs(d) {
                        Ok(src) => {
                            let ghost before = views(docs@);
                            docs.push(src);
                            proof {
                                assert(views(docs@) =~= before.push(src@));
                            }
                        },
                        Err(e) => {
                            proof {
                                lemma_struct_scan_err(attrs@, k + 1, AttrProblem::DocRejected(*d));
                            }
                            return Err(e);
                        },
                    }
                },
                AttrInput::Other => {},
            }
            k = k + 1;
        }
        proof {
            assert(attrs@.take(attrs@.len() as int) =~= attrs@);
        }
        // fields
        let ghost all_fields = fields_in@;
        let mut rest = fields_in;
        let mut fields: Vec<OriginField> = Vec::new();
        let n = rest.len();
        while rest.len() > 0
            invariant
                input0 == input,
                input0.data == DataShape::Named(crate::structure::named_fields(input0.data)),
                all_fields == crate::structure::named_fields(input0.data)@,
                n == all_fields.len(),
                fold_struct_scan(input0.attrs@) == Ok::<(StructAttrsView, Seq<Seq<char>>), AttrProblem>(
                    (sattrs@, views(docs@)),
                ),
                fields@.len() + rest@.len() == n,
                rest@ == all_fields.subrange(fields@.len() as int, n as int),
                forall|j: int| 0 <= j < fields@.len() ==> field_outcome(#[trigger] all_fields[j], Ok(fields@[j])),
                forall|j: int| 0 <= j < fields@.len() ==> field_accepted(#[trigger] all_fields[j]),
                forall|j: int| 0 <= j < fields@.len() ==> (#[trigger] fields@[j]).wf(),
            decreases rest.len(),
        {
            let fin = rest.remove(0);
            let ghost j = fields@.len() as int;
            assert(fin == all_fields[j]);
            match OriginField::from_input(fin) {
                Ok(f) => {
                    fields.push(f);
                    assert(rest@ =~= all_fields.subrange(fields@.len() as int, n as int));
                },
                Err(e) => {
                    assert(!field_accepted(all_fields[j]) && field_outcome(all_fields[j], Err(e))
                        && forall|i: int| 0 <= i < j ==> field_accepted(#[trigger] all_fields[i]));
                    return Err(e);
                },
            }
        }
        proof {
            lemma_suffix_ends_name(ident.name@);
        }
        let suffix = resolve_suffix(&ident)?;
        let ty = crate::names::build_type(ident.name.as_str(), &generics);
        Ok(OriginStruct { ident, ty, suffix, fields, doc_attrs: docs, generics, attrs: sattrs })
    }
}

/// The suffix of an accepted name ends it.
pub proof fn lemma_suffix_ends_name(name: Seq<char>)
    ensures
        struct_suffix_of(name) matches Some(s) ==> spec_ends_with(name, s),
{
}

impl OriginStruct {
    /// The struct's name ends with its suffix.
    pub open spec fn suffix_ok(self) -> bool {
        spec_ends_with(self.ident.name@, self.suffix@)
    }

    /// The struct's name ends with its suffix and every field is well formed.
    pub open spec fn wf(self) -> bool {
        &&& self.suffix_ok()
        &&& forall|k: int| 0 <= k < self.fields@.len() ==> (#[trigger] self.fields@[k]).wf()
    }

    /// Some field has no library default.
    pub open spec fn spec_has_required_fields(self) -> bool {
        exists|k: int| 0 <= k < self.fields@.len() && !(#[trigger] self.fields@[k]).spec_is_optional()
    }

    /// Whether some field has no library default.
    pub fn has_required_fields(&self) -> (r: bool)
        ensures
            r == self.spec_has_required_fields(),
    {
        let mut i: usize = 0;
        while i < self.fields.len()
            invariant
                i <= self.fields@.len(),
                forall|k: int| 0 <= k < i ==> (#[trigger] self.fields@[k]).spec_is_optional(),
            decreases self.fields.len() - i,
        {
            if self.fields[i].is_required() {
                return true;
            }
            i = i + 1;
        }
        false
    }

    /// Positions of the fields without library default, in order.
    pub fn required_fields(&self) -> (r: Vec<usize>)
        ensures
            forall|j: int| 0 <= j < r@.len() ==> r@[j] < self.fields@.len() && !self.fields@[r@[j] as int].spec_is_optional(),
            forall|j: int, l: int| 0 <= j < l < r@.len() ==> r@[j] < r@[l],
            forall|k: int| 0 <= k < self.fields@.len() && !(#[trigger] self.fields@[k]).spec_is_optional() ==> r@.contains(k as usize),
    {
        let mut out: Vec<usize> = Vec::new();
        let mut i: usize = 0;
        while i < self.fields.len()
            invariant
                i <= self.fields@.len(),
                forall|j: int| 0 <= j < out@.len() ==> out@[j] < i && !self.fields@[out@[j] as int].spec_is_optional(),
                forall|j: int, l: int| 0 <= j < l < out@.len() ==> out@[j] < out@[l],
                forall|k: int| 0 <= k < i && !(#[trigger] self.fields@[k]).spec_is_optional() ==> out@.contains(k as usize),
            decreases self.fields.len() - i,
        {
            let ghost before = out@;
            if self.fields[i].is_required() {
                out.push(i);
                proof {
                    assert(out@[out@.len() - 1] == i);
                    assert forall|k: int| 0 <= k < i && !(#[trigger] self.fields@[k]).spec_is_optional() implies out@.contains(k as usize) by {
                        let j = choose|j: int| 0 <= j < before.len() && before[j] == k as usize;
                        assert(out@[j] == k as usize);
                    }
                }
            }
            i = i + 1;
        }
        out
    }

    /// Positions of the fields with a library default, in order.
    pub fn optional_fields(&self) -> (r: Vec<usize>)
        ensures
            forall|j: int| 0 <= j < r@.len() ==> r@[j] < self.fields@.len() && self.fields@[r@[j] as int].spec_is_optional(),
            forall|j: int, l: int| 0 <= j < l < r@.len() ==> r@[j] < r@[l],
            forall|k: int| 0 <= k < self.fields@.len() && (#[trigger] self.fields@[k]).spec_is_optional() ==> r@.contains(k as usize),
    {
        let mut out: Vec<usize> = Vec::new();
        let mut i: usize = 0;
        while i < self.fields.len()
            invariant
                i <= self.fields@.len(),
                forall|j: int| 0 <= j < out@.len() ==> out@[j] < i && self.fields@[out@[j] as int].spec_is_optional(),
                forall|j: int, l: int| 0 <= j < l < out@.len() ==> out@[j] < out@[l],
                forall|k: int| 0 <= k < i && (#[trigger] self.fields@[k]).spec_is_optional() ==> out@.contains(k as usize),
            decreases self.fields.len() - i,
        {
            let ghost before = out@;
            if self.fields[i].is_optional() {
                out.push(i);
                proof {
                    assert(out@[out@.len() - 1] == i);
                    assert forall|k: int| 0 <= k < i && (#[trigger] self.fields@[k]).spec_is_optional() implies out@.contains(k as usize) by {
                        let j = choose|j: int| 0 <= j < before.len() && before[j] == k as usize;
                        assert(out@[j] == k as usize);
                    }
                }
            }
            i = i + 1;
        }
        out
    }

    /// The struct has type parameters.
    pub fn has_generics(&self) -> (r: bool)
        ensures
            r == (self.generics.type_param_count > 0),
    {
        self.generics.type_param_count > 0
    }

    /// Skipped fields keep a placeholder in the override struct, so that
    /// every type parameter stays in use.
    pub fn use_phantom_fields(&self) -> (r: bool)
        ensures
            r == (self.generics.type_param_count > 0),
    {
        self.has_generics()
    }
}

/// The fields of a struct with named fields.
pub open spec fn named_fields(d: DataShape) -> Vec<FieldInput> {
    match d {
        DataShape::Named(f) => f,
        _ => arbitrary(),
    }
}

} // verus!
