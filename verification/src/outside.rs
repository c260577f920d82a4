//! The calls this library makes into `syn` and `prettyplease`, with what is
//! assumed of each, and the inputs they are handed: expression text the
//! printer can take, and white space as `char::is_whitespace` knows it.

use vstd::prelude::*;

verus! {

/// The message syn reports when `text` does not read as a Rust type path,
/// or `None` when it does. What syn accepts, and its wording, are not
/// spelled out here; the name only records that both depend on `text`
/// alone.
pub uninterp spec fn type_path_error(text: Seq<char>) -> Option<Seq<char>>;

/// `text` reads as a Rust type path.
pub open spec fn is_type_path(text: Seq<char>) -> bool {
    type_path_error(text) is None
}

/// Pretty-printed text of `source` read as a Rust file, or `None` when it
/// does not parse. The layout prettyplease chooses is not spelled out here.
pub uninterp spec fn pretty_file_text(source: Seq<char>) -> Option<Seq<char>>;

/// Reads `text` with `syn::parse_str::<syn::TypePath>` and gives the
/// error's message (`to_string`) when it fails. Assumed: the outcome is
/// `type_path_error(text)`. Only the outcome of the parse is used; the
/// tokens are kept as written.
#[verifier::external_body]
pub fn type_path_error_text(text: &str) -> (r: Option<String>)
    ensures
        match r {
            Some(m) => type_path_error(text@) == Some(m@),
            None => type_path_error(text@) is None,
        },
{
    match syn::parse_str::<syn::TypePath>(text) {
        Ok(_) => None,
        Err(error) => Some(error.to_string()),
    }
}

/// A character allowed outside string literals in an expression handed to
/// prettyplease: ASCII letters and digits, `_`, space and
/// `: ( ) , . " < > - + [ ] * ! & | = ? ' % ^ / @`. Braces, `;`, `#`, `~`,
/// `$`, backquote, backslash and anything else are left out.
pub open spec fn printable_char(c: char) -> bool {
    ('a' <= c && c <= 'z') || ('A' <= c && c <= 'Z') || ('0' <= c && c <= '9') || c == '_' || c
        == ' ' || c == ':' || c == '(' || c == ')' || c == ',' || c == '.' || c == '"' || c == '<'
        || c == '>' || c == '-' || c == '+' || c == '[' || c == ']' || c == '*' || c == '!' || c
        == '&' || c == '|' || c == '=' || c == '?' || c == '\'' || c == '%' || c == '^' || c == '/'
        || c == '@'
}

/// Where a character of expression text stands: in code, in a string
/// literal, or right after a backslash in a string literal.
#[derive(PartialEq, Eq, Structural, Clone, Copy)]
pub enum Lex {
    Code,
    Str,
    StrEscape,
}

/// Reads one more character: the place it leaves the reader in, the last
/// code character, whether the text is still acceptable, and the text with
/// the contents of string literals blanked out.
///
/// A `"` in code opens a string literal unless it follows `'` (a char
/// literal holding `"`) or `r` (a raw string, whose backslashes do not
/// escape); `//` and `/*` (comments) are not acceptable; a code character
/// must be a `printable_char`.
pub open spec fn scan_step(st: (Lex, char, bool, Seq<char>), c: char) -> (Lex, char, bool, Seq<char>) {
    let (lex, prev, ok, masked) = st;
    match lex {
        Lex::Code => if c == '"' {
            (Lex::Str, c, ok && prev != '\'' && prev != 'r', masked.push(c))
        } else {
            (
                Lex::Code,
                c,
                ok && printable_char(c) && !(prev == '/' && (c == '/' || c == '*')),
                masked.push(c),
            )
        },
        Lex::Str => if c == '\\' {
            (Lex::StrEscape, prev, ok, masked.push(' '))
        } else if c == '"' {
            (Lex::Code, c, ok, masked.push(c))
        } else {
            (Lex::Str, prev, ok, masked.push(' '))
        },
        Lex::StrEscape => (Lex::Str, prev, ok, masked.push(' ')),
    }
}

/// Reads `t` from the start.
pub open spec fn scan(t: Seq<char>) -> (Lex, char, bool, Seq<char>)
    decreases t.len(),
{
    if t.len() == 0 {
        (Lex::Code, ' ', true, Seq::empty())
    } else {
        scan_step(scan(t.drop_last()), t.last())
    }
}

/// `w` occurs in `s`.
pub open spec fn has_word(s: Seq<char>, w: Seq<char>) -> bool {
    exists|i: int| 0 <= i && i + w.len() <= s.len() && #[trigger] s.subrange(i, i + w.len()) == w
}

/// Expression text that syn never reads into a verbatim node, the one kind
/// of node this prettyplease build does not print (it stops with
/// `unimplemented!`). syn makes such nodes only from braces, `;` (items and
/// statements), `#`, and the words `become`, `builtin`, `box`, `const`,
/// `dyn`, `fn`, `impl`; none occurs in the code of such text, which then
/// holds a single expression. `macro_rules` and `static` are left out too,
/// for the printer's own handling of them.
pub open spec fn printable_expr(tokens: Seq<char>) -> bool {
    let (_, _, ok, masked) = scan(tokens);
    &&& ok
    &&& !has_word(masked, "become"@)
    &&& !has_word(masked, "builtin"@)
    &&& !has_word(masked, "box"@)
    &&& !has_word(masked, "const"@)
    &&& !has_word(masked, "dyn"@)
    &&& !has_word(masked, "fn"@)
    &&& !has_word(masked, "impl"@)
    &&& !has_word(masked, "macro_rules"@)
    &&& !has_word(masked, "static"@)
}

/// Reads `source` with `syn::parse_file` and, on success, prints it with
/// `prettyplease::unparse`. Assumed: the outcome is
/// `pretty_file_text(source)`. Only a `static` item whose value is a
/// `printable_expr` is admitted, so that the printer never meets a verbatim
/// node, on which it would panic.
#[verifier::external_body]
pub fn pretty_print_file(source: &str) -> (r: Option<String>)
    requires
        source@.len() >= 15,
        source@.subrange(0, 14) == "static x: x = "@,
        source@.last() == ';',
        printable_expr(source@.subrange(14, source@.len() - 1)),
    ensures
        match r {
            Some(s) => pretty_file_text(source@) == Some(s@),
            None => pretty_file_text(source@) is None,
        },
{
    match syn::parse_file(source) {
        Ok(file) => Some(prettyplease::unparse(&file)),
        Err(_) => None,
    }
}

/// Whether `c` has the Unicode `White_Space` property: the code points
/// U+0009 to U+000D, U+0020, U+0085, U+00A0, U+1680, U+2000 to U+200A,
/// U+2028, U+2029, U+202F, U+205F and U+3000 (Unicode's `PropList.txt`).
pub open spec fn white_space(c: char) -> bool {
    ('\u{9}' <= c && c <= '\u{d}') || c == ' ' || c == '\u{85}' || c == '\u{a0}' || c == '\u{1680}'
        || ('\u{2000}' <= c && c <= '\u{200a}') || c == '\u{2028}' || c == '\u{2029}' || c
        == '\u{202f}' || c == '\u{205f}' || c == '\u{3000}'
}

/// Whether `c` has the Unicode `White_Space` property, as
/// `char::is_whitespace` answers.
pub fn is_whitespace(c: char) -> (r: bool)
    ensures
        r == white_space(c),
{
    ('\u{9}' <= c && c <= '\u{d}') || c == ' ' || c == '\u{85}' || c == '\u{a0}' || c == '\u{1680}'
        || ('\u{2000}' <= c && c <= '\u{200a}') || c == '\u{2028}' || c == '\u{2029}' || c
        == '\u{202f}' || c == '\u{205f}' || c == '\u{3000}'
}

} // verus!

