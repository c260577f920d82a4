//! The annotated struct and its fields as the generator sees them, read
//! from what the caller extracted of the Rust syntax.

use vstd::prelude::*;
use crate::attr::{FieldAttr, StructAttr, spec_struct_attr_shapes};
use crate::error::ParseError;
use crate::field_attrs::{FieldAttrs, FieldAttrsView, empty_view, flags_match, parse_field_attrs, parse_outcome, parses_ok};
use crate::ident::Ident;
use crate::meta::{AttrExpr, AttrExprKind, MetaItem, require_ident};
use crate::text::{concat2, views};
use crate::ty::{TypeModel, spec_unwrap_option, unwrap_option};
use crate::validate::{find_key, has_key, keys_unique};

verus! {

// !- Documentation attributes

/// How a `#[doc ..]` attribute was written.
pub enum DocForm {
    /// `#[doc = "..."]`
    Str,
    /// `#[doc = <literal>]` with a literal that is not a string; its text.
    OtherLit { lit_text: String },
    /// `#[doc = <expression>]` with an expression that is not a literal.
    OtherExpr,
    /// `#[doc]` or `#[doc(..)]`.
    NotNameValue,
}

/// A `#[doc ..]` attribute.
pub struct DocAttr {
    pub form: DocForm,
    /// Token text of the attribute's contents (`doc = ".."`).
    pub meta_text: String,
    /// Token text of the whole attribute, as it is copied to generated items.
    pub source: String,
    pub span: u64,
}

/// The attribute text kept for a well-formed doc attribute, or why it is rejected.
pub open spec fn spec_doc_result(d: DocAttr) -> Result<Seq<char>, (Seq<char>, u64)> {
    match d.form {
        DocForm::Str => Ok(d.source@),
        DocForm::OtherLit { lit_text } => Err(("Unexpected doc literal type: "@ + lit_text@, d.span)),
        DocForm::OtherExpr => Err(("Unexpected doc attr expression: "@ + d.meta_text@, d.span)),
        DocForm::NotNameValue => Err(("Unexpected doc attr shape: "@ + d.meta_text@, d.span)),
    }
}

/// `e` is the rejection `spec_doc_result` describes for `d`.
pub open spec fn is_doc_error(d: DocAttr, e: ParseError) -> bool {
    spec_doc_result(d) matches Err((detail, span)) && e matches ParseError::InvalidDocAttr {
        detail: dt,
        span: sp,
    } && dt@ == detail && sp == span
}

/// Keeps a string doc attribute; rejects any other form.
pub fn try_parse_doc_attrs(d: &DocAttr) -> (r: Result<String, ParseError>)
    ensures
        match spec_doc_result(*d) {
            Ok(src) => r matches Ok(s) && s@ == src,
            Err(_) => r matches Err(e) && is_doc_error(*d, e),
        },
{
    match &d.form {
        DocForm::Str => Ok(d.source.clone()),
        DocForm::OtherLit { lit_text } => Err(
            ParseError::InvalidDocAttr {
                detail: concat2("Unexpected doc literal type: ", lit_text.as_str()),
                span: d.span,
            },
        ),
        DocForm::OtherExpr => Err(
            ParseError::InvalidDocAttr {
                detail: concat2("Unexpected doc attr expression: ", d.meta_text.as_str()),
                span: d.span,
            },
        ),
        DocForm::NotNameValue => Err(
            ParseError::InvalidDocAttr {
                detail: concat2("Unexpected doc attr shape: ", d.meta_text.as_str()),
                span: d.span,
            },
        ),
    }
}

// !- Attributes on an item

/// An attribute on the struct or on one of its fields.
pub enum AttrInput {
    /// `#[config(..)]`: the identifier `config` and the keys inside.
    Config { path: Ident, items: Vec<MetaItem> },
    Doc(DocAttr),
    /// Any other attribute; it is left alone.
    Other,
}

// !- Fields

/// A named field of the annotated struct.
pub struct FieldInput {
    pub ident: Ident,
    pub ty: TypeModel,
    pub attrs: Vec<AttrInput>,
}

/// What was found among a field's attributes so far.
pub struct FieldScan {
    pub config: Option<Seq<MetaItem>>,
    pub docs: Seq<Seq<char>>,
}

/// Why a field's (or the struct's) attributes were rejected.
pub enum AttrProblem {
    Error(ParseError),
    /// The keys of a `#[config(..)]` were rejected.
    ConfigRejected(Seq<MetaItem>),
    DocRejected(DocAttr),
}

/// `e` reports problem `p`.
pub open spec fn problem_reported(p: AttrProblem, e: ParseError) -> bool {
    match p {
        AttrProblem::Error(e0) => e == e0,
        AttrProblem::ConfigRejected(items) => parse_outcome(items, Err(e)),
        AttrProblem::DocRejected(d) => is_doc_error(d, e),
    }
}

pub open spec fn field_scan_step(st: FieldScan, a: AttrInput) -> Result<FieldScan, AttrProblem> {
    match a {
        AttrInput::Config { path, items } => if st.config is Some {
            Err(AttrProblem::Error(ParseError::DuplicateAttr { ident: path }))
        } else if !parses_ok(items@) {
            Err(AttrProblem::ConfigRejected(items@))
        } else {
            Ok(FieldScan { config: Some(items@), ..st })
        },
        AttrInput::Doc(d) => match spec_doc_result(d) {
            Ok(src) => Ok(FieldScan { docs: st.docs.push(src), ..st }),
            Err(_) => Err(AttrProblem::DocRejected(d)),
        },
        AttrInput::Other => Ok(st),
    }
}

/// Reads a field's attributes in order, stopping at the first rejected one.
pub open spec fn fold_field_scan(attrs: Seq<AttrInput>) -> Result<FieldScan, AttrProblem>
    decreases attrs.len(),
{
    if attrs.len() == 0 {
        Ok(FieldScan { config: None, docs: Seq::empty() })
    } else {
        match fold_field_scan(attrs.drop_last()) {
            Err(p) => Err(p),
            Ok(st) => field_scan_step(st, attrs.last()),
        }
    }
}

/// Settings read from the field's `#[config(..)]`, or none.
pub open spec fn scan_view(st: FieldScan) -> FieldAttrsView {
    match st.config {
        Some(items) => crate::field_attrs::fold_items(items).unwrap().0,
        None => empty_view(),
    }
}

/// Keys read from the field's `#[config(..)]`, or none.
pub open spec fn scan_keys(st: FieldScan) -> Seq<(FieldAttr, Ident)> {
    match st.config {
        Some(items) => crate::field_attrs::fold_items(items).unwrap().1,
        None => Seq::empty(),
    }
}

/// The library default of a field: the one written, else `None` for an
/// `Option` field, else none.
pub open spec fn default_rule(d: Option<AttrExpr>, written: Option<AttrExpr>, is_option: bool) -> bool {
    match written {
        Some(x) => d == Some(x),
        None => if is_option {
            d matches Some(n) && n.kind == AttrExprKind::Path && n.text@ == "None"@
        } else {
            d is None
        },
    }
}

/// A field of the annotated struct.
pub struct OriginField {
    pub ident: Ident,
    pub ty: TypeModel,
    pub is_option: bool,
    pub default: Option<AttrExpr>,
    pub attrs: FieldAttrs,
    /// Doc attributes of the field, as written.
    pub doc_attrs: Vec<String>,
}

/// What reading a field gives.
pub open spec fn field_outcome(input: FieldInput, r: Result<OriginField, ParseError>) -> bool {
    match fold_field_scan(input.attrs@) {
        Err(p) => r matches Err(e) && problem_reported(p, e),
        Ok(st) => {
            let v = scan_view(st);
            let keys = scan_keys(st);
            let is_option = spec_unwrap_option(input.ty) is Some;
            if v.override_required && is_option {
                r == Err::<OriginField, ParseError>(
                    ParseError::AttrOptionUnsupported {
                        ident: keys[crate::field_attrs::key_index(keys, FieldAttr::OverrideRequired)].1,
                    },
                )
            } else {
                r matches Ok(f) && f.ident == input.ident && f.ty == input.ty && f.is_option
                    == is_option && f.attrs@ == v && f.attrs.written@ == keys && views(f.doc_attrs@)
                    == st.docs && default_rule(f.default, v.default, is_option)
            }
        },
    }
}

proof fn lemma_scan_prefix_err(attrs: Seq<AttrInput>, k: int, p: AttrProblem)
    requires
        0 <= k <= attrs.len(),
        fold_field_scan(attrs.take(k)) == Err::<FieldScan, AttrProblem>(p),
    ensures
        fold_field_scan(attrs) == Err::<FieldScan, AttrProblem>(p),
    decreases attrs.len() - k,
{
    if k < attrs.len() {
        assert(attrs.take(k + 1).drop_last() =~= attrs.take(k));
        lemma_scan_prefix_err(attrs, k + 1, p);
    } else {
        assert(attrs.take(k) =~= attrs);
    }
}

/// A field is accepted: its attributes are, and `override_required` is not
/// used on an `Option` field.
pub open spec fn field_accepted(input: FieldInput) -> bool {
    fold_field_scan(input.attrs@) matches Ok(st) && !(scan_view(st).override_required
        && spec_unwrap_option(input.ty) is Some)
}

impl OriginField {
    /// Reads a field: its doc attributes and its single `#[config(..)]`.
    ///
    /// A second `#[config(..)]` on the same field is rejected, as is
    /// `override_required` on an `Option` field.
    pub fn from_input(input: FieldInput) -> (r: Result<OriginField, ParseError>)
        ensures
            field_outcome(input, r),
            r is Ok <==> field_accepted(input),
            r matches Ok(f) ==> f.wf(),
    {
        let ghost input0 = input;
        let FieldInput { ident, ty, attrs } = input;
        let mut parsed: Option<FieldAttrs> = None;
        let mut docs: Vec<String> = Vec::new();
        let ghost mut st = FieldScan { config: None, docs: Seq::empty() };
        proof {
            assert(attrs@.take(0) =~= Seq::<AttrInput>::empty());
        }
        let mut k: usize = 0;
        while k < attrs.len()
            invariant
                input0 == input,
                attrs@ == input0.attrs@,
                k <= attrs@.len(),
                fold_field_scan(attrs@.take(k as int)) == Ok::<FieldScan, AttrProblem>(st),
                views(docs@) == st.docs,
                match st.config {
                    Some(items) => parsed matches Some(fa) && crate::field_attrs::fold_items(items)
                        == Ok::<(FieldAttrsView, Seq<(FieldAttr, Ident)>), ParseError>(
                        (fa@, fa.written@),
                    ) && parses_ok(items) && fa@.consistent() && keys_unique(fa.written@),
                    None => parsed is None,
                },
            decreases attrs.len() - k,
        {
            proof {
                assert(attrs@.take(k + 1).drop_last() =~= attrs@.take(k as int));
                assert(attrs@.take(k + 1).last() == attrs@[k as int]);
            }
            match &attrs[k] {
                AttrInput::Config { path, items } => {
                    if parsed.is_some() {
                        proof {
                            lemma_scan_prefix_err(
                                attrs@,
                                k + 1,
                                AttrProblem::Error(ParseError::DuplicateAttr { ident: *path }),
                            );
                        }
                        return Err(ParseError::DuplicateAttr { ident: path.duplicate() });
                    }
                    match parse_field_attrs(items) {
                        Ok(fa) => {
                            proof {
                                st = FieldScan { config: Some(items@), ..st };
                            }
                            parsed = Some(fa);
                        },
                        Err(e) => {
                            proof {
                                lemma_scan_prefix_err(attrs@, k + 1, AttrProblem::ConfigRejected(items@));
                            }
                            return Err(e);
                        },
                    }
                },
                AttrInput::Doc(d) => {
                    match try_parse_doc_attrs(d) {
                        Ok(src) => {
                            proof {
                                st = FieldScan { docs: st.docs.push(src@), ..st };
                            }
                            docs.push(src);
                            proof {
                                assert(views(docs@) =~= st.docs);
                            }
                        },
                        Err(e) => {
                            proof {
                                lemma_scan_prefix_err(attrs@, k + 1, AttrProblem::DocRejected(*d));
                            }
                            return Err(e);
                        },
                    }
                },
                AttrInput::Other => {},
            }
            k = k + 1;
        }
        proof {
            assert(attrs@.take(attrs@.len() as int) =~= attrs@);
        }
        let fa = match parsed {
            Some(fa) => fa,
            None => {
                let fa = FieldAttrs {
                    copy: false,
                    default: None,
                    skip_all: false,
                    config_skip_getter: false,
                    builder_skip: false,
                    override_skip: false,
                    override_required: false,
                    override_from: None,
                    override_from_shape: None,
                    override_via: None,
                    override_attrs: Vec::new(),
                    written: Vec::new(),
                };
                proof {
                    assert(views(fa.override_attrs@) =~= Seq::<Seq<char>>::empty());
                    assert(fa.written@ =~= Seq::<(FieldAttr, Ident)>::empty());
                }
                fa
            },
        };
        let is_option = unwrap_option(&ty).is_some();
        if fa.override_required && is_option {
            proof {
                crate::field_attrs::lemma_fold_keeps(st.config.unwrap());
            }
            match find_key(&fa.written, FieldAttr::OverrideRequired) {
                Some(j) => {
                    proof {
                        let keys = fa.written@;
                        let kk = crate::field_attrs::key_index(keys, FieldAttr::OverrideRequired);
                        assert(keys[j as int].0 == FieldAttr::OverrideRequired);
                        assert(kk == j);
                    }
                    return Err(ParseError::AttrOptionUnsupported { ident: fa.written[j].1.duplicate() });
                },
                None => {
                    return Err(ParseError::AttrOptionUnsupported { ident: ident });
                },
            }
        }
        let default = match &fa.default {
            Some(d) => Some(d.duplicate()),
            None => if is_option {
                Some(AttrExpr::none_expr())
            } else {
                None
            },
        };
        Ok(OriginField { ident, ty, is_option, default, attrs: fa, doc_attrs: docs })
    }
}


/// A field takes part in builder construction with a value when it has no
/// library default.
impl OriginField {
    /// What every accepted field satisfies: its settings are consistent, no
    /// key was read twice, `override_required` is not used on an `Option`
    /// field, `is_option` tells whether the type is an `Option`, and the
    /// default follows `default_rule`.
    pub open spec fn wf(self) -> bool {
        &&& self.attrs@.consistent()
        &&& keys_unique(self.attrs.written@)
        &&& self.is_option == (spec_unwrap_option(self.ty) is Some)
        &&& self.attrs@.override_required ==> !self.is_option
        &&& default_rule(self.default, self.attrs@.default, self.is_option)
    }

    pub open spec fn spec_is_optional(self) -> bool {
        self.default is Some
    }

    pub open spec fn spec_with_unset_field(self) -> bool {
        self.spec_is_optional() && !self.attrs@.skip_override_field()
    }

    /// The field type without its `Option<..>`, if it has one.
    pub open spec fn spec_flat_ty(self) -> TypeModel {
        match spec_unwrap_option(self.ty) {
            Some(inner) => inner,
            None => self.ty,
        }
    }

    /// The field type as an `Option`: itself when it is one.
    pub open spec fn spec_optional_type(self) -> Seq<char> {
        if self.is_option {
            self.ty.text()@
        } else {
            "Option::<"@ + self.ty.text()@ + ">"@
        }
    }

    /// The field has a library default (written, or `None` for an `Option`).
    pub fn is_optional(&self) -> (r: bool)
        ensures
            r == self.spec_is_optional(),
    {
        self.default.is_some()
    }

    /// The field has no library default.
    pub fn is_required(&self) -> (r: bool)
        ensures
            r == !self.spec_is_optional(),
    {
        !self.is_optional()
    }

    /// Same as `is_optional`.
    pub fn has_default(&self) -> (r: bool)
        ensures
            r == (self.default is Some),
    {
        self.default.is_some()
    }

    /// The library default, if any.
    pub fn default(&self) -> (r: Option<&AttrExpr>)
        ensures
            match r {
                Some(d) => self.default == Some(*d),
                None => self.default is None,
            },
    {
        match &self.default {
            Some(d) => Some(d),
            None => None,
        }
    }

    /// The override struct carries a flag to reset this field to its default.
    pub fn with_unset_field(&self) -> (r: bool)
        ensures
            r == self.spec_with_unset_field(),
    {
        self.is_optional() && !self.attrs.skip_override_field()
    }

    /// Name of the reset flag, `<field>_unset`, when the field has one.
    pub fn unset_ident(&self) -> (r: Option<String>)
        ensures
            match r {
                Some(u) => self.spec_with_unset_field() && u@ == self.ident.name@ + "_unset"@,
                None => !self.spec_with_unset_field(),
            },
    {
        if self.with_unset_field() {
            Some(concat2(self.ident.name.as_str(), "_unset"))
        } else {
            None
        }
    }

    /// Other names accepted for the reset flag at run time.
    pub fn unset_aliases(&self) -> (r: Vec<String>)
        ensures
            views(r@) == seq![
                self.ident.name@ + "_reset"@,
                self.ident.name@ + "_revert"@,
                self.ident.name@ + "_clear"@,
                self.ident.name@ + "_default"@,
            ],
    {
        let name = self.ident.name.as_str();
        let mut v = Vec::new();
        v.push(concat2(name, "_reset"));
        v.push(concat2(name, "_revert"));
        v.push(concat2(name, "_clear"));
        v.push(concat2(name, "_default"));
        proof {
            assert(views(v@) =~= seq![
                self.ident.name@ + "_reset"@,
                self.ident.name@ + "_revert"@,
                self.ident.name@ + "_clear"@,
                self.ident.name@ + "_default"@,
            ]);
        }
        v
    }

    /// Name of the placeholder field kept for a skipped generic field: `_<field>`.
    pub fn phantom_ident(&self) -> (r: String)
        ensures
            r@ == "_"@ + self.ident.name@,
    {
        concat2("_", self.ident.name.as_str())
    }

    /// The field type without its `Option<..>`.
    pub fn flat_ty(&self) -> (r: &TypeModel)
        ensures
            *r == self.spec_flat_ty(),
    {
        match unwrap_option(&self.ty) {
            Some(inner) => inner,
            None => &self.ty,
        }
    }

    /// The field as a function parameter: `<field>: <type>`.
    pub fn as_fn_param_tokens(&self) -> (r: String)
        ensures
            r@ == self.ident.name@ + ": "@ + self.ty.text()@,
    {
        crate::text::concat3(self.ident.name.as_str(), ": ", crate::ty::type_text(&self.ty).as_str())
    }

    /// The type a required value of this field has: the field type without `Option`.
    pub fn as_required_type(&self) -> (r: String)
        ensures
            r@ == self.spec_flat_ty().text()@,
    {
        crate::ty::type_text(self.flat_ty()).clone()
    }

    /// The field type as an `Option`.
    pub fn as_optional_type(&self) -> (r: String)
        ensures
            r@ == self.spec_optional_type(),
    {
        if self.is_option {
            crate::ty::type_text(&self.ty).clone()
        } else {
            crate::text::concat3("Option::<", crate::ty::type_text(&self.ty).as_str(), ">")
        }
    }

    /// The required type as a getter returns it.
    pub fn as_required_return_type(&self) -> (r: String)
        ensures
            r@ == spec_return_type(self.spec_flat_ty().text()@, self.attrs@.copy),
    {
        build_return_type(self.as_required_type().as_str(), self.attrs.copy)
    }

    /// The optional type as a getter returns it.
    pub fn as_optional_return_type(&self) -> (r: String)
        ensures
            r@ == spec_return_type(self.spec_optional_type(), self.attrs@.copy),
    {
        build_return_type(self.as_optional_type().as_str(), self.attrs.copy)
    }
}

/// A returned type: the type itself for a `copy` field, else a reference to it.
pub open spec fn spec_return_type(base: Seq<char>, supports_copy: bool) -> Seq<char> {
    if supports_copy {
        base
    } else {
        "&"@ + base
    }
}

/// Builds a returned type from `base`.
pub fn build_return_type(base: &str, supports_copy: bool) -> (r: String)
    ensures
        r@ == spec_return_type(base@, supports_copy),
{
    if supports_copy {
        String::from_str(base)
    } else {
        concat2("&", base)
    }
}

} // verus!
