//! Promises of the attribute reference stated over inputs and results:
//! what a reset flag does in the merge, which default expressions and
//! struct names are accepted, where struct-level keys land, and that doc
//! text is written as a string literal that reads back as itself.

use vstd::prelude::*;
use crate::attr::{Shape, spec_struct_attr_shapes, struct_attr_named};
use crate::doc::{escape, escape_char, string_literal};
use crate::error::ParseError;
use crate::gen_fields::{Section, piece};
use crate::meta::{AttrExpr, AttrExprKind, ExprKind, ExprModel, MetaItem, spec_attr_expr};
use crate::origin::OriginField;
use crate::structure::{StructAttrsView, struct_step, struct_suffix_of};
use crate::text::{spec_ends_with, views};

verus! {

// !- Reset flags

/// A field with a reset flag is merged by `apply_or_reset` on that flag:
/// the step hands `&mut self.<field>`, then `override_conf.<field>_unset`,
/// then the incoming value, then a closure giving the library default, so
/// that a set flag leaves the field at its default. This holds whatever the
/// field's type and its `override_from`/`override_via`.
pub proof fn law_reset_flag_restores_default(f: OriginField, d: AttrExpr, serde: bool)
    requires
        f.spec_with_unset_field(),
        f.default == Some(d),
    ensures
        exists|head: Seq<char>, incoming: Seq<char>|
            piece(f, Section::MergeStep, serde) == head + "::lib_conf::merge::apply_or_reset("@
                + "&mut self."@ + f.ident.name@ + ", "@ + "override_conf."@ + f.ident.name@
                + "_unset"@ + ", "@ + incoming + ", || "@ + d.text@ + ");\n"@,
{
    let name = f.ident.name@;
    let head = "let val = override_conf."@ + name + ".clone();\n"@;
    let value = crate::gen_fields::merge_value(f);
    let incoming = if f.attrs@.override_required {
        "Some("@ + value + ")"@
    } else {
        "val.map(|val| "@ + value + ")"@
    };
    if f.attrs@.override_required {
        assert(piece(f, Section::MergeStep, serde) =~= head + "::lib_conf::merge::apply_or_reset("@
            + "&mut self."@ + name + ", "@ + "override_conf."@ + name + "_unset"@ + ", "@ + incoming
            + ", || "@ + d.text@ + ");\n"@) by {
            reveal_strlit(", Some(");
            reveal_strlit("), || ");
            reveal_strlit(", || ");
            reveal_strlit("Some(");
            reveal_strlit(")");
            reveal_strlit(", ");
        }
    } else {
        assert(piece(f, Section::MergeStep, serde) =~= head + "::lib_conf::merge::apply_or_reset("@
            + "&mut self."@ + name + ", "@ + "override_conf."@ + name + "_unset"@ + ", "@ + incoming
            + ", || "@ + d.text@ + ");\n"@);
    }
}

// !- Default expressions

/// A default written as a literal, a path or a call is accepted and kept as
/// written, with its kind; any other expression is rejected, pointing at it.
pub proof fn law_default_expressions(e: ExprModel)
    ensures
        e.kind == ExprKind::Lit ==> spec_attr_expr(e) == Ok::<AttrExpr, ParseError>(
            AttrExpr { kind: AttrExprKind::Lit, text: e.text },
        ),
        e.kind == ExprKind::Path ==> spec_attr_expr(e) == Ok::<AttrExpr, ParseError>(
            AttrExpr { kind: AttrExprKind::Path, text: e.text },
        ),
        e.kind == ExprKind::Call ==> spec_attr_expr(e) == Ok::<AttrExpr, ParseError>(
            AttrExpr { kind: AttrExprKind::Call, text: e.text },
        ),
        e.kind == ExprKind::Other ==> spec_attr_expr(e) == Err::<AttrExpr, ParseError>(
            ParseError::InvalidAttrExpr { span: e.span },
        ),
{
}

// !- Struct names

/// A name ends with one of the suffixes the error message lists.
pub open spec fn ends_with_listed_suffix(name: Seq<char>) -> bool {
    spec_ends_with(name, "Config"@) || spec_ends_with(name, "Conf"@) || spec_ends_with(
        name,
        "Options"@,
    ) || spec_ends_with(name, "Opts"@) || spec_ends_with(name, "Parameters"@) || spec_ends_with(
        name,
        "Params"@,
    )
}

/// A struct name is accepted exactly when it ends with one of `Config`,
/// `Conf`, `Options`, `Opts`, `Parameters`, `Params`, and the suffix found
/// is one of them that the name ends with.
pub proof fn law_struct_suffixes(name: Seq<char>)
    ensures
        struct_suffix_of(name) is Some <==> ends_with_listed_suffix(name),
        struct_suffix_of(name) matches Some(s) ==> spec_ends_with(name, s) && (s == "Config"@ || s
            == "Conf"@ || s == "Options"@ || s == "Opts"@ || s == "Parameters"@ || s == "Params"@),
{
}

// !- Struct-level keys

/// A struct-level key written as `name(..)` with the given entries.
pub open spec fn is_list_key(item: MetaItem, name: Seq<char>, entries: Seq<Seq<char>>) -> bool {
    item matches MetaItem::List { path, items } && path.ident matches Some(i) && i.name@ == name
        && views(items@) == entries
}

/// Where each struct-level key's entries go: `derive` and `attr` to both
/// generated structs, the `builder_` and `override_` forms to that struct
/// alone, appended after what earlier keys gave.
pub proof fn law_struct_keys(v: StructAttrsView, item: MetaItem, l: Seq<Seq<char>>)
    ensures
        is_list_key(item, "derive"@, l) ==> struct_step(v, item) == Ok::<StructAttrsView, ParseError>(
            StructAttrsView {
                builder_derives: v.builder_derives + l,
                override_derives: v.override_derives + l,
                ..v
            },
        ),
        is_list_key(item, "builder_derive"@, l) ==> struct_step(v, item) == Ok::<
            StructAttrsView,
            ParseError,
        >(StructAttrsView { builder_derives: v.builder_derives + l, ..v }),
        is_list_key(item, "override_derive"@, l) ==> struct_step(v, item) == Ok::<
            StructAttrsView,
            ParseError,
        >(StructAttrsView { override_derives: v.override_derives + l, ..v }),
        is_list_key(item, "attr"@, l) ==> struct_step(v, item) == Ok::<StructAttrsView, ParseError>(
            StructAttrsView {
                builder_attrs: v.builder_attrs + l,
                override_attrs: v.override_attrs + l,
                ..v
            },
        ),
        is_list_key(item, "builder_attr"@, l) ==> struct_step(v, item) == Ok::<
            StructAttrsView,
            ParseError,
        >(StructAttrsView { builder_attrs: v.builder_attrs + l, ..v }),
        is_list_key(item, "override_attr"@, l) ==> struct_step(v, item) == Ok::<
            StructAttrsView,
            ParseError,
        >(StructAttrsView { override_attrs: v.override_attrs + l, ..v }),
{
    reveal_strlit("derive");
    reveal_strlit("builder_derive");
    reveal_strlit("override_derive");
    reveal_strlit("attr");
    reveal_strlit("builder_attr");
    reveal_strlit("override_attr");
    assert("derive"@.len() == 6 && "builder_derive"@.len() == 14 && "override_derive"@.len() == 15);
    assert("attr"@.len() == 4 && "builder_attr"@.len() == 12 && "override_attr"@.len() == 13);
    if item is List {
        let a = struct_attr_named(item.path().ident.unwrap().name@);
        if a is Some {
            assert(spec_struct_attr_shapes(a.unwrap())[0] == Shape::List);
        }
    }
}

// !- String literals

/// The character a string-literal escape `\c` stands for.
pub open spec fn escaped(c: char) -> Option<char> {
    if c == '\\' {
        Some('\\')
    } else if c == '"' {
        Some('"')
    } else if c == 'n' {
        Some('\n')
    } else if c == 'r' {
        Some('\r')
    } else if c == 't' {
        Some('\t')
    } else if c == '0' {
        Some('\0')
    } else {
        None
    }
}

/// Reads the body of a Rust string literal, as the compiler does for these
/// escapes: `None` when an unescaped `"` would end the literal early or a
/// backslash starts no known escape.
pub open spec fn unescape(t: Seq<char>) -> Option<Seq<char>>
    decreases t.len(),
{
    if t.len() == 0 {
        Some(Seq::empty())
    } else if t[0] == '"' {
        None
    } else if t[0] == '\\' {
        if t.len() < 2 {
            None
        } else {
            match escaped(t[1]) {
                Some(c) => match unescape(t.subrange(2, t.len() as int)) {
                    Some(rest) => Some(seq![c] + rest),
                    None => None,
                },
                None => None,
            }
        }
    } else {
        match unescape(t.subrange(1, t.len() as int)) {
            Some(rest) => Some(seq![t[0]] + rest),
            None => None,
        }
    }
}

proof fn lemma_escape_front(c: char, s: Seq<char>)
    ensures
        escape(seq![c] + s) == escape_char(c) + escape(s),
    decreases s.len(),
{
    if s.len() == 0 {
        assert((seq![c] + s).drop_last() =~= Seq::<char>::empty());
        assert(escape(Seq::<char>::empty()) =~= Seq::<char>::empty());
        assert(escape_char(c) + escape(s) =~= escape(Seq::<char>::empty()) + escape_char(c));
    } else {
        lemma_escape_front(c, s.drop_last());
        assert((seq![c] + s).drop_last() =~= seq![c] + s.drop_last());
        assert(escape_char(c) + escape(s) =~= escape_char(c) + escape(s.drop_last()) + escape_char(
            s.last(),
        ));
    }
}

proof fn lemma_unescape_escape(s: Seq<char>)
    ensures
        unescape(escape(s)) == Some(s),
    decreases s.len(),
{
    if s.len() == 0 {
    } else {
        let c = s[0];
        let rest = s.subrange(1, s.len() as int);
        assert(s =~= seq![c] + rest);
        lemma_escape_front(c, rest);
        lemma_unescape_escape(rest);
        let t = escape_char(c) + escape(rest);
        if escape_char(c).len() == 2 {
            assert(t.subrange(2, t.len() as int) =~= escape(rest));
        } else {
            assert(t.subrange(1, t.len() as int) =~= escape(rest));
        }
        assert(seq![c] + rest =~= s);
    }
}

/// Doc text is written as a string literal that reads back as the text
/// itself: the body between its quotes holds no quote that would end it
/// early, and its escapes stand for exactly the characters of `s`.
pub proof fn law_string_literal_reads_back(s: Seq<char>)
    ensures
        string_literal(s).len() >= 2,
        string_literal(s)[0] == '"',
        string_literal(s).last() == '"',
        unescape(string_literal(s).subrange(1, string_literal(s).len() - 1)) == Some(s),
{
    lemma_unescape_escape(s);
    let lit = string_literal(s);
    assert(lit.subrange(1, lit.len() - 1) =~= escape(s));
}

} // verus!
