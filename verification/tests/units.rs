//! The library's smaller pieces: attribute tables, merge rules, adapters,
//! names and rendering.

use lib_conf::adapter::{HoursAdapter, MinutesAdapter, SecondsAdapter};
use lib_conf::attr::{FieldAttr, Shape, StructAttr};
use lib_conf::doc::{AppendDoc, render_expr, split_lines};
use lib_conf::merge::{Staged, apply, apply_or_reset, replace};
use lib_conf::names::{generate_builder_ident, generate_override_ident};
use lib_conf::ty::{GenericArg, PathSegment, SegmentArgs, TypeModel, is_string, unwrap_option};
use std::time::Duration;

#[test]
fn attribute_names() {
    assert_eq!(StructAttr::Derive.as_str(), "derive");
    assert_eq!(StructAttr::BuilderDerive.as_str(), "builder_derive");
    assert_eq!(StructAttr::OverrideAttr.as_str(), "override_attr");
    assert_eq!(FieldAttr::ConfigSkipGetter.as_str(), "config_skip_getter");
    assert_eq!(FieldAttr::OverrideRequired.as_str(), "override_required");
    assert_eq!(FieldAttr::OverrideVia.as_str(), "override_via");
}

#[test]
fn attribute_tables() {
    assert_eq!(FieldAttr::OverrideVia.dependencies(), vec![FieldAttr::OverrideFrom]);
    assert_eq!(FieldAttr::Copy.dependencies(), Vec::<FieldAttr>::new());
    assert_eq!(
        FieldAttr::SkipAll.implied_attrs(),
        vec![FieldAttr::ConfigSkipGetter, FieldAttr::BuilderSkip, FieldAttr::OverrideSkip]
    );
    assert_eq!(FieldAttr::OverrideRequired.implied_attrs(), vec![FieldAttr::BuilderSkip]);
    assert_eq!(FieldAttr::OverrideRequired.incompatible_attrs(), vec![FieldAttr::Default]);
    assert_eq!(
        FieldAttr::OverrideSkip.incompatible_attrs(),
        vec![FieldAttr::OverrideRequired, FieldAttr::OverrideFrom, FieldAttr::OverrideVia]
    );
    assert_eq!(
        FieldAttr::OverrideAttr.incompatible_attrs(),
        vec![FieldAttr::SkipAll, FieldAttr::OverrideSkip]
    );
    assert!(FieldAttr::Default.supports_shape(Shape::KeyValue));
    assert!(!FieldAttr::Default.supports_shape(Shape::Flag));
    assert!(FieldAttr::OverrideAttr.supports_shape(Shape::List));
    assert!(StructAttr::Derive.supports_shape(Shape::List));
    assert!(!StructAttr::Derive.supports_shape(Shape::Flag));
    assert!(FieldAttr::OverrideAttr.is_passthrough());
    assert!(!FieldAttr::Copy.is_passthrough());
}

#[test]
fn merge_rules() {
    let mut v = 5u8;
    apply(&mut v, None);
    assert_eq!(v, 5);
    apply(&mut v, Some(7));
    assert_eq!(v, 7);
    apply_or_reset(&mut v, true, Some(9), || 1);
    assert_eq!(v, 1);
    apply_or_reset(&mut v, false, Some(9), || 1);
    assert_eq!(v, 9);
    apply_or_reset(&mut v, false, None, || 1);
    assert_eq!(v, 9);
    replace(&mut v, 3);
    assert_eq!(v, 3);
}

#[test]
fn staged_builder_state() {
    let s: Staged<u32, u32> = Staged::new(10, None);
    assert_eq!(s.clone().build(|a, b| a + b), 10);
    let s = s.with_override(1).with_override(5);
    assert_eq!(s.override_conf, Some(5));
    assert_eq!(s.clone().build(|a, b| a + b), 15);
    let s = s.clear_override();
    assert_eq!(s.build(|a, b| a + b), 10);
}

#[test]
fn duration_adapters() {
    assert_eq!(Duration::from(SecondsAdapter::from(5u64)), Duration::from_secs(5));
    assert_eq!(Duration::from(MinutesAdapter::from(2u64)), Duration::from_secs(120));
    assert_eq!(Duration::from(HoursAdapter::from(1u64)), Duration::from_secs(3600));
    let secs: Duration = SecondsAdapter::from(0u64).into();
    assert_eq!(secs, Duration::ZERO);
    // past what a u64 of seconds holds, the longest whole-second duration
    assert_eq!(Duration::from(MinutesAdapter::from(u64::MAX)), Duration::from_secs(u64::MAX));
    assert_eq!(Duration::from(HoursAdapter::from(u64::MAX / 3600 + 1)), Duration::from_secs(u64::MAX));
    assert_eq!(Duration::from(HoursAdapter::from(u64::MAX / 3600)), Duration::from_secs(u64::MAX / 3600 * 3600));
}

#[test]
fn generated_names() {
    assert_eq!(generate_override_ident("FooConfig", "Config"), "FooOverrideConfig");
    assert_eq!(generate_override_ident("BarOpts", "Opts"), "BarOverrideOpts");
    assert_eq!(generate_builder_ident("FooConfig"), "FooConfigBuilder");
}

#[test]
fn rendered_defaults() {
    assert_eq!(render_expr("Some (  5 )"), Some("Some(5)".to_string()));
    assert_eq!(render_expr("String :: from (\"x\")"), Some("String::from(\"x\")".to_string()));
    assert_eq!(render_expr("+"), None);
    assert_eq!(render_expr("Duration :: from_secs (60 * 5)"), Some("Duration::from_secs(60 * 5)".to_string()));
    assert_eq!(render_expr("Some ('a')"), Some("Some('a')".to_string()));
    assert_eq!(render_expr("String :: from (\"{x}; #y\")"), Some("String::from(\"{x}; #y\")".to_string()));
    assert_eq!(render_expr("! flag && other"), Some("!flag && other".to_string()));
    // not handed to prettyplease
    assert_eq!(render_expr("builtin # offset_of (A , b)"), None);
    assert_eq!(render_expr("vec ! [1]"), Some("vec![1]".to_string()));
    assert_eq!(render_expr("f (become g ())"), None);
    assert_eq!(render_expr("{ 1 }"), None);
    assert_eq!(render_expr("r\"x\""), None);
}

#[test]
fn appended_doc_lines() {
    assert_eq!(split_lines("a\r\nb\n\nc"), vec!["a", "b", "", "c"]);
    assert_eq!(split_lines("x\n"), vec!["x"]);
    assert_eq!(split_lines(""), Vec::<String>::new());
    assert_eq!(split_lines("tail\r"), vec!["tail\r"]);
    let mut docs = AppendDoc::new(vec!["#[doc = \" Own\"]".to_string()]);
    docs.lines("first\nsecond");
    docs.newl();
    assert_eq!(docs.append, vec!["first", "second", ""]);
    docs.line("  padded\t ".to_string());
    assert_eq!(
        docs.to_text(),
        "#[doc = \" Own\"]\n#[doc = \" first\"]\n#[doc = \" second\"]\n#[doc = \"\"]\n#[doc = \" padded\"]\n"
    );
}

fn option_type(leading_colon: bool, inner: TypeModel, text: &str) -> TypeModel {
    TypeModel::Path {
        leading_colon,
        segments: vec![PathSegment { ident: "Option".to_string(), args: SegmentArgs::Angle(vec![GenericArg::Type(inner)]) }],
        text: text.to_string(),
    }
}

fn type_text_of(t: &TypeModel) -> String {
    match t {
        TypeModel::Path { text, .. } => text.clone(),
        TypeModel::Group { text, .. } => text.clone(),
        TypeModel::Other { text } => text.clone(),
    }
}

#[test]
fn test_is_option() {
    let boolean = || TypeModel::Path {
        leading_colon: false,
        segments: vec![PathSegment { ident: "bool".to_string(), args: SegmentArgs::Bare }],
        text: "bool".to_string(),
    };
    let opt1 = option_type(false, boolean(), "Option < bool >");
    let opt2 = option_type(false, boolean(), "Option :: < bool >");
    let opt3 = option_type(true, boolean(), ":: Option :: < bool >");
    let opt4 = option_type(true, TypeModel::Other { text: "()".to_string() }, ":: Option :: < () >");

    let res1 = unwrap_option(&opt1).unwrap();
    let res2 = unwrap_option(&opt2).unwrap();
    let res3 = unwrap_option(&opt3).unwrap();
    let res4 = unwrap_option(&opt4).unwrap();

    println!("opt1: {}", type_text_of(res1));
    println!("opt2: {}", type_text_of(res2));
    println!("opt3: {}", type_text_of(res3));
    println!("opt4: {}", type_text_of(res4));
}

#[test]
fn option_detection_edges() {
    let grouped = TypeModel::Group {
        elem: Box::new(option_type(false, TypeModel::Other { text: "u8".to_string() }, "Option<u8>")),
        text: "Option<u8>".to_string(),
    };
    assert!(unwrap_option(&grouped).is_some());
    let two_args = TypeModel::Path {
        leading_colon: false,
        segments: vec![PathSegment {
            ident: "Option".to_string(),
            args: SegmentArgs::Angle(vec![GenericArg::Other, GenericArg::Other]),
        }],
        text: "Option<'a, 'b>".to_string(),
    };
    assert!(unwrap_option(&two_args).is_none());
    let string = TypeModel::Path {
        leading_colon: false,
        segments: vec![
            PathSegment { ident: "std".to_string(), args: SegmentArgs::Bare },
            PathSegment { ident: "string".to_string(), args: SegmentArgs::Bare },
            PathSegment { ident: "String".to_string(), args: SegmentArgs::Bare },
        ],
        text: "std::string::String".to_string(),
    };
    assert!(is_string(&string));
    assert!(!is_string(&two_args));
}
