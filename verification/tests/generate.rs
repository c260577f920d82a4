//! The derive run on described structs: the code it writes and the errors
//! it reports.

use lib_conf::error::ParseError;
use lib_conf::ident::Ident;

use lib_conf::meta::{ExprKind, ExprModel, MetaItem, MetaPath};
use lib_conf::origin::{AttrInput, DocAttr, DocForm, FieldInput};
use lib_conf::structure::{DataShape, GenericsModel, StructInput};
use lib_conf::ty::{GenericArg, PathSegment, SegmentArgs, TypeModel};

fn id(name: &str) -> Ident {
    Ident::new(name.to_string(), 0)
}

fn path(name: &str) -> MetaPath {
    MetaPath { ident: Some(id(name)), text: name.to_string(), span: 0 }
}

fn key(name: &str) -> MetaItem {
    MetaItem::Path(path(name))
}

fn kv(name: &str, kind: ExprKind, text: &str, as_type: Option<TypeModel>) -> MetaItem {
    MetaItem::NameValue {
        path: path(name),
        value: ExprModel { kind, text: text.to_string(), span: 7, as_type },
    }
}

fn list(name: &str, items: &[&str]) -> MetaItem {
    MetaItem::List { path: path(name), items: items.iter().map(|s| s.to_string()).collect() }
}

fn config(items: Vec<MetaItem>) -> AttrInput {
    AttrInput::Config { path: id("config"), items }
}

fn doc(text: &str) -> AttrInput {
    AttrInput::Doc(DocAttr {
        form: DocForm::Str,
        meta_text: format!("doc = \"{text}\""),
        source: format!("#[doc = \"{text}\"]"),
        span: 0,
    })
}

fn simple(name: &str) -> TypeModel {
    TypeModel::Path {
        leading_colon: false,
        segments: vec![PathSegment { ident: name.to_string(), args: SegmentArgs::Bare }],
        text: name.to_string(),
    }
}

fn option_of(inner: TypeModel) -> TypeModel {
    let text = match &inner {
        TypeModel::Path { text, .. } => text.clone(),
        TypeModel::Group { text, .. } => text.clone(),
        TypeModel::Other { text } => text.clone(),
    };
    TypeModel::Path {
        leading_colon: false,
        segments: vec![PathSegment {
            ident: "Option".to_string(),
            args: SegmentArgs::Angle(vec![GenericArg::Type(inner)]),
        }],
        text: format!("Option<{text}>"),
    }
}

fn field(name: &str, ty: TypeModel, attrs: Vec<AttrInput>) -> FieldInput {
    FieldInput { ident: id(name), ty, attrs }
}

fn no_generics() -> GenericsModel {
    GenericsModel {
        type_param_count: 0,
        decl_text: String::new(),
        impl_text: String::new(),
        ty_text: String::new(),
        where_text: String::new(),
    }
}

fn named(name: &str, attrs: Vec<AttrInput>, generics: GenericsModel, fields: Vec<FieldInput>) -> StructInput {
    StructInput { ident: id(name), attrs, generics, data: DataShape::Named(fields) }
}

fn generic_input() -> StructInput {
    let generics = GenericsModel {
        type_param_count: 2,
        decl_text: "<T: Default + Clone + std::fmt::Debug, S>".to_string(),
        impl_text: "<T: Default + Clone + std::fmt::Debug, S>".to_string(),
        ty_text: "<T, S>".to_string(),
        where_text: "where S: Copy".to_string(),
    };
    named(
        "TestConfig",
        vec![],
        generics,
        vec![
            field("req_t", simple("T"), vec![]),
            field("def_t", simple("T"), vec![config(vec![kv("default", ExprKind::Call, "T::default()", None)])]),
            field("opt_t", option_of(simple("T")), vec![]),
            field("opt_s", option_of(simple("S")), vec![config(vec![key("override_skip"), key("copy")])]),
            field(
                "all_skipped",
                simple("bool"),
                vec![config(vec![key("skip_all"), kv("default", ExprKind::Lit, "true", None)])],
            ),
        ],
    )
}

fn runtime_only_input() -> StructInput {
    named(
        "TestConfig",
        vec![],
        no_generics(),
        vec![
            field("runtime_only", simple("String"), vec![config(vec![key("override_required")])]),
            field("foo", simple("u16"), vec![config(vec![key("copy"), kv("default", ExprKind::Lit, "1", None)])]),
            field("bar", option_of(simple("u16")), vec![config(vec![key("copy")])]),
            field("init_me", simple("bool"), vec![config(vec![key("copy")])]),
        ],
    )
}

fn generated(input: StructInput, serde: bool) -> String {
    match lib_conf::lib_config::derive(input, serde) {
        Ok(text) => text,
        Err(e) => panic!("rejected: {}", e.message()),
    }
}

fn rejected(input: StructInput) -> ParseError {
    match lib_conf::lib_config::derive(input, false) {
        Ok(text) => panic!("accepted: {text}"),
        Err(e) => e,
    }
}

fn field_error(f: FieldInput) -> ParseError {
    rejected(named("TestConfig", vec![], no_generics(), vec![f]))
}

#[test]
fn generic_struct_config_impl() {
    let out = generated(generic_input(), false);
    assert!(out.contains(
        "#[automatically_derived]\nimpl<T: Default + Clone + std::fmt::Debug, S> TestConfig<T, S> where S: Copy {\n"
    ));
    assert!(out.contains(
        "#[must_use]\npub(crate) fn new(req_t: T, ) -> Self {\nSelf {\nreq_t: req_t,\ndef_t: T::default(),\nopt_t: None,\nopt_s: None,\nall_skipped: true,\n}\n}\n"
    ));
    assert!(out.contains(
        "pub fn builder(req_t: T, ) -> TestConfigBuilder<T, S> {\n<TestConfigBuilder<T, S>>::new(req_t, )\n}\n"
    ));
    assert!(out.contains("pub fn opt_s(&self) -> Option<S> {\nself.opt_s\n}\n"));
    assert!(out.contains("pub fn opt_t(&self) -> Option<&T> {\nself.opt_t.as_ref()\n}\n"));
    assert!(out.contains("pub fn req_t(&self) -> &T {\n&self.req_t\n}\n"));
    assert!(!out.contains("fn all_skipped("));
    assert!(out.contains(
        "let val = override_conf.def_t.clone();\n::lib_conf::merge::apply_or_reset(&mut self.def_t, override_conf.def_t_unset, val.map(|val| val), || T::default());\n"
    ));
    assert!(out.contains(
        "let val = override_conf.opt_t.clone();\n::lib_conf::merge::apply_or_reset(&mut self.opt_t, override_conf.opt_t_unset, val.map(|val| Some(val)), || None);\n"
    ));
    assert!(out.contains(
        "let val = override_conf.req_t.clone();\n::lib_conf::merge::apply(&mut self.req_t, val.map(|val| val));\n"
    ));
    assert!(!out.contains("override_conf.opt_s"));
    assert!(!out.contains(" Default for "));
    assert!(out.contains(
        "impl<T: Default + Clone + std::fmt::Debug, S> ::std::ops::Add<TestOverrideConfig<T, S>> for TestConfig<T, S> where S: Copy {\n"
    ));
}

#[test]
fn generic_struct_documents_defaults() {
    let out = generated(generic_input(), false);
    assert!(out.contains("#[doc = \" - Library default: **`T::default()`**\"]\n"));
    assert!(out.contains("#[doc = \" - Library default: **`None`**\"]\n"));
}

#[test]
fn generic_struct_builder() {
    let out = generated(generic_input(), false);
    assert!(out.contains(
        "#[derive(Debug, Clone)]\npub struct TestConfigBuilder<T: Default + Clone + std::fmt::Debug, S> where S: Copy {\npub(crate) staged: ::lib_conf::merge::Staged<TestConfig<T, S>, TestOverrideConfig<T, S>>,\n}\n"
    ));
    assert!(out.contains(
        "pub fn new(req_t: T, ) -> Self {\nlet initial_override = None;\nSelf {\nstaged: ::lib_conf::merge::Staged::new(<TestConfig<T, S>>::new(req_t, ), initial_override),\n}\n}\n"
    ));
    assert!(out.contains("pub fn opt_s(mut self, val: Option<S>) -> Self {\nself.staged.inner.opt_s = val;\nself\n}\n"));
    assert!(!out.contains("pub fn all_skipped(mut self"));
    assert!(out.contains("pub fn with_override(self, override_conf: TestOverrideConfig<T, S>) -> Self {"));
    assert!(out.contains("pub fn clear_override(self) -> Self {"));
    assert!(out.contains("#[doc = \" Builds the [`TestConfig`]\"]\n"));
    assert!(out.contains("pub fn build(self) -> TestConfig<T, S> {\nself.staged.build(|inner, override_conf| inner + override_conf)\n}\n"));
}

#[test]
fn generic_struct_override() {
    let out = generated(generic_input(), false);
    assert!(out.contains(
        "#[derive(Debug, Clone)]\npub struct TestOverrideConfig<T: Default + Clone + std::fmt::Debug, S> where S: Copy {\n"
    ));
    assert!(out.contains("pub req_t: Option<T>,\n"));
    assert!(!out.contains("req_t_unset"));
    assert!(out.contains(
        "pub def_t: Option<T>,\n/// flag allowing for reverting a builder-configured\n/// setting at runtime\npub def_t_unset: bool,\n"
    ));
    assert!(out.contains(
        "_opt_s: ::std::marker::PhantomData<Option<S>>,\n_all_skipped: ::std::marker::PhantomData<bool>,\n}\n"
    ));
    assert!(out.contains("pub fn req_t(&self) -> Option<&T> {\nself.req_t.as_ref()\n}\n"));
    assert!(out.contains(
        "#[automatically_derived]\nimpl<T: Default + Clone + std::fmt::Debug, S> TestOverrideConfig<T, S> where S: Copy {\n"
    ));
}

#[test]
fn serde_override_is_deserializable() {
    let out = generated(generic_input(), true);
    assert!(out.contains("#[derive(Debug, Clone, ::serde::Deserialize)]\npub struct TestOverrideConfig"));
    assert!(out.contains("pub(crate) req_t: Option<T>,\n"));
    assert!(out.contains(
        "#[serde(default, alias = \"def_t_reset\", alias = \"def_t_revert\", alias = \"def_t_clear\", alias = \"def_t_default\")]\n"
    ));
    assert!(out.contains("pub(crate) def_t_unset: bool,\n"));
    assert!(out.contains("#[serde(default)]\n_opt_s: ::std::marker::PhantomData<Option<S>>,\n"));
}

#[test]
fn runtime_only_field() {
    let out = generated(runtime_only_input(), false);
    assert!(out.contains(
        "pub(crate) fn new(override_conf: TestOverrideConfig, init_me: bool, ) -> Self {\nSelf {\nruntime_only: override_conf.runtime_only.clone(),\nfoo: 1,\nbar: None,\ninit_me: init_me,\n}\n}\n"
    ));
    assert!(out.contains(
        "pub fn new(override_conf: TestOverrideConfig, init_me: bool, ) -> Self {\nlet initial_override = Some(override_conf.clone());\n"
    ));
    assert!(!out.contains("pub fn with_override("));
    assert!(!out.contains("pub fn clear_override("));
    assert!(!out.contains("pub fn runtime_only(mut self"));
    assert!(out.contains("pub fn foo(mut self, val: u16) -> Self {"));
    assert!(out.contains("pub runtime_only: String,\n"));
    assert!(out.contains("::lib_conf::merge::replace(&mut self.runtime_only, val);\n"));
    // the override getter and the config getter
    assert_eq!(out.matches("pub fn runtime_only(&self) -> &str {\nself.runtime_only.as_str()\n}\n").count(), 2);
    assert!(!out.contains("-> &String"));
    assert!(out.contains("pub fn foo(&self) -> Option<u16> {\nself.foo\n}\n"));
    assert!(out.contains("pub fn foo(&self) -> u16 {\nself.foo\n}\n"));
    assert!(!out.contains(" Default for "));
}

#[test]
fn all_optional_struct_gets_default_impls() {
    let input = named(
        "PlainConfig",
        vec![doc(" A plain config")],
        no_generics(),
        vec![
            field("name", option_of(simple("String")), vec![doc(" A name")]),
            field("level", simple("u8"), vec![config(vec![key("copy"), kv("default", ExprKind::Lit, "3", None)])]),
        ],
    );
    let out = generated(input, false);
    assert!(out.contains("#[automatically_derived]\nimpl Default for PlainConfig  {\nfn default() -> Self {\nSelf::new()\n}\n}\n"));
    assert!(out.contains(
        "#[automatically_derived]\nimpl Default for PlainConfigBuilder  {\nfn default() -> Self {\nSelf::new()\n}\n}\n"
    ));
    assert!(out.contains("pub fn name(&self) -> Option<&str> {\nself.name.as_ref().map(|s| s.as_str())\n}\n"));
    assert!(out.contains(
        "#[doc = \" A name\"]\n#[doc = \"\"]\n#[doc = \" ---\"]\n#[doc = \"\"]\n#[doc = \" - Library default: **`None`**\"]\n"
    ));
    assert!(out.contains("pub fn builder() -> PlainConfigBuilder {\n<PlainConfigBuilder>::new()\n}\n"));
}

#[test]
fn struct_level_derives_and_attrs() {
    let input = named(
        "PlainOpts",
        vec![config(vec![
            list("derive", &["Copy"]),
            list("builder_attr", &["non_exhaustive"]),
            list("override_derive", &["PartialEq", "Eq"]),
        ])],
        no_generics(),
        vec![field("flag", simple("bool"), vec![config(vec![key("copy"), kv("default", ExprKind::Lit, "false", None)])])],
    );
    let out = generated(input, false);
    assert!(out.contains("#[derive(Debug, Clone)]\n#[derive(Copy, )]\n#[non_exhaustive]\npub struct PlainOptsBuilder  {\n"));
    assert!(out.contains("#[derive(Debug, Clone)]\n#[derive(Copy, PartialEq, Eq, )]\npub struct PlainOverrideOpts  {\n"));
}

#[test]
fn mapped_override_type() {
    let input = named(
        "PoolParams",
        vec![],
        no_generics(),
        vec![
            field(
                "timeout",
                simple("Duration"),
                vec![config(vec![
                    key("copy"),
                    kv("default", ExprKind::Call, "Duration::from_secs(30)", None),
                    kv("override_from", ExprKind::Path, "u64", Some(simple("u64"))),
                    kv("override_via", ExprKind::Path, "SecondsAdapter", Some(simple("SecondsAdapter"))),
                ])],
            ),
            field(
                "label",
                simple("Label"),
                vec![config(vec![
                    kv("default", ExprKind::Call, "Label::new()", None),
                    kv("override_from", ExprKind::Path, "std::string::String", None),
                    list("override_attr", &["allow(unused)"]),
                ])],
            ),
        ],
    );
    let out = generated(input, false);
    assert!(out.contains("pub timeout: Option<u64>,\n"));
    assert!(out.contains(
        "::lib_conf::merge::apply_or_reset(&mut self.timeout, override_conf.timeout_unset, val.map(|val| <SecondsAdapter>::from(val).into()), || Duration::from_secs(30));\n"
    ));
    assert!(out.contains("pub fn timeout(&self) -> Option<&u64> {\nself.timeout.as_ref()\n}\n"));
    assert!(out.contains("pub fn timeout(&self) -> Duration {\nself.timeout\n}\n"));
    // the type path is kept as written
    assert!(out.contains("#[allow(unused)]\npub label: Option<std::string::String>,\n"));
    assert!(out.contains("val.map(|val| val.into())"));
    assert!(out.contains("#[doc = \" - Library default: **`Duration::from_secs(30)`**\"]\n"));
}

#[test]
fn item_kind_errors() {
    let mut input = generic_input();
    input.data = DataShape::Enum { span: 3 };
    let e = rejected(input);
    assert!(matches!(e, ParseError::EnumUnsupported { span: 3 }));
    assert_eq!(e.message(), "Enums are not supported");
    assert_eq!(e.span(), 3);

    let mut input = generic_input();
    input.data = DataShape::Union { span: 4 };
    assert_eq!(rejected(input).message(), "Unions are not supported");

    let mut input = generic_input();
    input.data = DataShape::Unnamed { span: 5 };
    assert_eq!(rejected(input).message(), "Unnamed structs are not supported");

    let mut input = generic_input();
    input.data = DataShape::Unit;
    assert!(matches!(rejected(input), ParseError::UnitStructUnsupported { span: 0 }));
}

#[test]
fn suffix_error() {
    let input = named("Thing", vec![], no_generics(), vec![]);
    let e = rejected(input);
    assert_eq!(
        e.message(),
        "Expected struct name 'Thing' to end with one of: Config, Conf, Options, Opts, Parameters, Params"
    );
    let ok = generated(named("ThingParams", vec![], no_generics(), vec![]), false);
    assert!(ok.contains("pub struct ThingOverrideParams "));
}

#[test]
fn key_errors() {
    let e = field_error(field("x", option_of(simple("u8")), vec![config(vec![key("override_required")])]));
    assert_eq!(e.message(), "Attribute 'override_required' cannot be used with Option types");

    let e = field_error(field("x", simple("u8"), vec![config(vec![key("colour")])]));
    assert_eq!(e.message(), "Unknown attribute: 'colour'");

    let e = field_error(field("x", simple("u8"), vec![config(vec![key("copy"), key("copy")])]));
    assert_eq!(e.message(), "Attribute 'copy' specified multiple times");

    let e = field_error(field("x", simple("u8"), vec![config(vec![key("default")])]));
    assert_eq!(e.message(), "Unexpected shape Flag for attribute 'default'");

    let e = field_error(field("x", simple("u8"), vec![config(vec![kv("default", ExprKind::Other, "a + b", None)])]));
    assert!(matches!(e, ParseError::InvalidAttrExpr { span: 7 }));
    assert_eq!(e.message(), "Invalid attribute expression type");

    let e = field_error(field(
        "x",
        simple("u8"),
        vec![config(vec![kv("override_via", ExprKind::Path, "Via", Some(simple("Via")))])],
    ));
    assert_eq!(e.message(), "Missing attribute 'override_from', which is required while using 'override_via'");

    let e = field_error(field("x", simple("u8"), vec![config(vec![key("skip_all"), key("builder_skip")])]));
    assert!(matches!(e, ParseError::ImplicitAttr { .. }));
    assert!(e.message().contains("is automatically implied by"));

    let e = field_error(field(
        "x",
        simple("u8"),
        vec![config(vec![key("skip_all"), kv("override_from", ExprKind::Path, "u64", None)])],
    ));
    assert!(matches!(e, ParseError::IncompatibleAttrs { .. }));
    assert!(e.message().contains("cannot be used with"));

    let e = field_error(field(
        "x",
        simple("u8"),
        vec![config(vec![kv("override_from", ExprKind::Other, "1 +", None)])],
    ));
    assert!(matches!(e, ParseError::InvalidTypePath { .. }));
    // syn's own message for the failed parse
    let syn_message = match syn::parse_str::<syn::TypePath>("1 +") {
        Ok(_) => String::new(),
        Err(error) => error.to_string(),
    };
    assert!(!syn_message.is_empty());
    assert_eq!(e.message(), syn_message);

    let bad_path = MetaItem::Path(MetaPath { ident: None, text: "a::b".to_string(), span: 9 });
    let e = field_error(field("x", simple("u8"), vec![config(vec![bad_path])]));
    assert_eq!(e.message(), "expected this path to be an identifier");
    assert_eq!(e.span(), 9);
}

#[test]
fn attribute_errors() {
    let e = field_error(field("x", simple("u8"), vec![config(vec![key("copy")]), config(vec![key("copy")])]));
    assert!(matches!(e, ParseError::DuplicateAttr { .. }));
    assert_eq!(e.message(), "Attribute 'config' specified multiple times");

    let bad_doc = AttrInput::Doc(DocAttr {
        form: DocForm::OtherLit { lit_text: "5".to_string() },
        meta_text: "doc = 5".to_string(),
        source: "#[doc = 5]".to_string(),
        span: 2,
    });
    let e = field_error(field("x", simple("u8"), vec![bad_doc]));
    assert_eq!(e.message(), "Unexpected doc literal type: 5");
    assert_eq!(e.span(), 2);

    let e = rejected(named("TestConfig", vec![config(vec![key("copy")])], no_generics(), vec![]));
    assert_eq!(e.message(), "Unknown attribute: 'copy'");
}

#[test]
fn generated_code_parses() {
    for (input, serde) in [
        (generic_input(), false),
        (generic_input(), true),
        (runtime_only_input(), false),
        (runtime_only_input(), true),
    ] {
        let out = generated(input, serde);
        assert!(syn::parse_file(&out).is_ok(), "does not parse:\n{out}");
    }
}
