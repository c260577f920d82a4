//! Documentation attached to generated items: copied doc attributes, lines
//! appended by the generator, and the rendering of library defaults.

use vstd::prelude::*;
use crate::meta::AttrExpr;
use crate::origin::OriginField;
use crate::outside::{
    has_word,
    is_whitespace,
    pretty_file_text,
    pretty_print_file,
    printable_char,
    printable_expr,
    scan,
    Lex,
    white_space,
};
use crate::text::{concat3, views};

verus! {

// !- Trimming

pub open spec fn trim_start(s: Seq<char>) -> Seq<char>
    decreases s.len(),
{
    if s.len() > 0 && white_space(s[0]) {
        trim_start(s.drop_first())
    } else {
        s
    }
}

pub open spec fn trim_end(s: Seq<char>) -> Seq<char>
    decreases s.len(),
{
    if s.len() > 0 && white_space(s.last()) {
        trim_end(s.drop_last())
    } else {
        s
    }
}

/// `s` without leading and trailing white space.
pub open spec fn trim(s: Seq<char>) -> Seq<char> {
    trim_end(trim_start(s))
}

proof fn lemma_trim_start_skip(s: Seq<char>, i: int)
    requires
        0 <= i <= s.len(),
        forall|j: int| 0 <= j < i ==> white_space(#[trigger] s[j]),
    ensures
        trim_start(s) == trim_start(s.subrange(i, s.len() as int)),
    decreases i,
{
    if i > 0 {
        assert(s.drop_first().subrange(i - 1, s.drop_first().len() as int) =~= s.subrange(
            i,
            s.len() as int,
        ));
        assert forall|j: int| 0 <= j < i - 1 implies white_space(#[trigger] s.drop_first()[j]) by {
            assert(s.drop_first()[j] == s[j + 1]);
        }
        lemma_trim_start_skip(s.drop_first(), i - 1);
    } else {
        assert(s.subrange(0, s.len() as int) =~= s);
    }
}

proof fn lemma_trim_end_skip(s: Seq<char>, e: int)
    requires
        0 <= e <= s.len(),
        forall|j: int| e <= j < s.len() ==> white_space(#[trigger] s[j]),
    ensures
        trim_end(s) == trim_end(s.subrange(0, e)),
    decreases s.len() - e,
{
    if e < s.len() {
        assert(s.drop_last().subrange(0, e) =~= s.subrange(0, e));
        lemma_trim_end_skip(s.drop_last(), e);
    } else {
        assert(s.subrange(0, e) =~= s);
    }
}

/// `s` without leading and trailing white space.
pub fn trim_str(s: &str) -> (r: String)
    ensures
        r@ == trim(s@),
{
    let n = s.unicode_len();
    let mut i: usize = 0;
    while i < n && is_whitespace(s.get_char(i))
        invariant
            n == s@.len(),
            i <= n,
            forall|j: int| 0 <= j < i ==> white_space(#[trigger] s@[j]),
        decreases n - i,
    {
        i = i + 1;
    }
    proof {
        lemma_trim_start_skip(s@, i as int);
    }
    let ghost t = s@.subrange(i as int, n as int);
    let mut e: usize = n;
    while e > i && is_whitespace(s.get_char(e - 1))
        invariant
            n == s@.len(),
            i <= e <= n,
            t == s@.subrange(i as int, n as int),
            forall|j: int| e - i <= j < t.len() ==> white_space(#[trigger] t[j]),
        decreases e,
    {
        assert(t[e - 1 - i] == s@[e - 1]);
        e = e - 1;
    }
    proof {
        lemma_trim_end_skip(t, e - i);
        assert(t.subrange(0, e - i) =~= s@.subrange(i as int, e as int));
        if e > i {
            assert(!white_space(t.subrange(0, e - i).last()));
        }
    }
    String::from_str(s.substring_char(i, e))
}

// !- String literals

/// A character as it is written inside a string literal.
pub open spec fn escape_char(c: char) -> Seq<char> {
    if c == '\\' {
        seq!['\\', '\\']
    } else if c == '"' {
        seq!['\\', '"']
    } else if c == '\n' {
        seq!['\\', 'n']
    } else if c == '\r' {
        seq!['\\', 'r']
    } else if c == '\t' {
        seq!['\\', 't']
    } else if c == '\0' {
        seq!['\\', '0']
    } else {
        seq![c]
    }
}

/// The text of `s` as it is written inside a string literal.
pub open spec fn escape(s: Seq<char>) -> Seq<char>
    decreases s.len(),
{
    if s.len() == 0 {
        Seq::empty()
    } else {
        escape(s.drop_last()) + escape_char(s.last())
    }
}

/// A string literal holding `s`.
pub open spec fn string_literal(s: Seq<char>) -> Seq<char> {
    seq!['"'] + escape(s) + seq!['"']
}

fn special_escape(c: char) -> (r: Option<&'static str>)
    ensures
        match r {
            Some(e) => e@ == escape_char(c),
            None => escape_char(c) == seq![c],
        },
{
    if c == '\\' {
        proof { reveal_strlit("\\\\"); }
        Some("\\\\")
    } else if c == '"' {
        proof { reveal_strlit("\\\""); }
        Some("\\\"")
    } else if c == '\n' {
        proof { reveal_strlit("\\n"); }
        Some("\\n")
    } else if c == '\r' {
        proof { reveal_strlit("\\r"); }
        Some("\\r")
    } else if c == '\t' {
        proof { reveal_strlit("\\t"); }
        Some("\\t")
    } else if c == '\0' {
        proof { reveal_strlit("\\0"); }
        Some("\\0")
    } else {
        None
    }
}

/// Writes `s` as a string literal.
pub fn string_literal_text(s: &str) -> (r: String)
    ensures
        r@ == string_literal(s@),
{
    let n = s.unicode_len();
    let mut body = String::new();
    let mut i: usize = 0;
    while i < n
        invariant
            n == s@.len(),
            i <= n,
            body@ == escape(s@.take(i as int)),
        decreases n - i,
    {
        proof {
            assert(s@.take(i + 1).drop_last() =~= s@.take(i as int));
        }
        match special_escape(s.get_char(i)) {
            Some(e) => body.append(e),
            None => {
                let one = s.substring_char(i, i + 1);
                assert(one@ =~= seq![s@[i as int]]);
                body.append(one);
            },
        }
        i = i + 1;
    }
    proof {
        assert(s@.take(n as int) =~= s@);
        reveal_strlit("\"");
    }
    concat3("\"", body.as_str(), "\"")
}

// !- Doc attribute lines

/// The text a generated doc line carries: empty, or a space and the line trimmed.
pub open spec fn doc_text(line: Seq<char>) -> Seq<char> {
    if line.len() == 0 {
        Seq::empty()
    } else {
        " "@ + trim(line)
    }
}

/// A doc attribute holding `line`, on a line of its own.
pub open spec fn doc_attr(line: Seq<char>) -> Seq<char> {
    "#[doc = "@ + string_literal(doc_text(line)) + "]\n"@
}

/// Doc attributes for each of `lines`.
pub open spec fn doc_attrs(lines: Seq<Seq<char>>) -> Seq<char>
    decreases lines.len(),
{
    if lines.len() == 0 {
        Seq::empty()
    } else {
        doc_attrs(lines.drop_last()) + doc_attr(lines.last())
    }
}

/// A doc attribute holding `text`, trimmed and prefixed with a space.
pub fn doc_line(text: &str) -> (r: String)
    ensures
        r@ == doc_attr(text@),
{
    let body = if text.unicode_len() == 0 {
        String::new()
    } else {
        let t = trim_str(text);
        crate::text::concat2(" ", t.as_str())
    };
    let lit = string_literal_text(body.as_str());
    concat3("#[doc = ", lit.as_str(), "]\n")
}

/// Doc attributes for each line.
pub fn doc_lines(lines: &Vec<String>) -> (r: String)
    ensures
        r@ == doc_attrs(views(lines@)),
{
    let mut out = String::new();
    let mut i: usize = 0;
    while i < lines.len()
        invariant
            i <= lines@.len(),
            out@ == doc_attrs(views(lines@.take(i as int))),
        decreases lines.len() - i,
    {
        proof {
            assert(views(lines@.take(i + 1)).drop_last() =~= views(lines@.take(i as int)));
        }
        let l = doc_line(lines[i].as_str());
        out.append(l.as_str());
        i = i + 1;
    }
    proof {
        assert(lines@.take(lines@.len() as int) =~= lines@);
    }
    out
}

/// Each attribute text on a line of its own.
pub open spec fn attr_lines(attrs: Seq<Seq<char>>) -> Seq<char>
    decreases attrs.len(),
{
    if attrs.len() == 0 {
        Seq::empty()
    } else {
        attr_lines(attrs.drop_last()) + attrs.last() + "\n"@
    }
}

/// Writes each attribute text on a line of its own.
pub fn attr_lines_text(attrs: &Vec<String>) -> (r: String)
    ensures
        r@ == attr_lines(views(attrs@)),
{
    let mut out = String::new();
    let mut i: usize = 0;
    while i < attrs.len()
        invariant
            i <= attrs@.len(),
            out@ == attr_lines(views(attrs@.take(i as int))),
        decreases attrs.len() - i,
    {
        proof {
            assert(views(attrs@.take(i + 1)).drop_last() =~= views(attrs@.take(i as int)));
        }
        out.append(attrs[i].as_str());
        out.append("\n");
        i = i + 1;
    }
    proof {
        assert(attrs@.take(attrs@.len() as int) =~= attrs@);
    }
    out
}

// !- Splitting text into lines

/// A line without the `\r` that ended it, if one did.
pub open spec fn strip_cr(line: Seq<char>) -> Seq<char> {
    if line.len() > 0 && line.last() == '\r' {
        line.drop_last()
    } else {
        line
    }
}

/// Reads `s` character by character: the lines ended so far, and the text
/// of the line being read. A `\n` ends the line, dropping a `\r` just
/// before it.
pub open spec fn lines_fold(s: Seq<char>) -> (Seq<Seq<char>>, Seq<char>)
    decreases s.len(),
{
    if s.len() == 0 {
        (Seq::empty(), Seq::empty())
    } else {
        let (done, cur) = lines_fold(s.drop_last());
        if s.last() == '\n' {
            (done.push(strip_cr(cur)), Seq::empty())
        } else {
            (done, cur.push(s.last()))
        }
    }
}

/// The lines of `s`, as `str::lines` gives them: a final line ending adds
/// no empty line, and an empty text has none.
pub open spec fn text_lines(s: Seq<char>) -> Seq<Seq<char>> {
    let (done, cur) = lines_fold(s);
    if cur.len() == 0 {
        done
    } else {
        done.push(cur)
    }
}

/// Splits `text` into its lines.
pub fn split_lines(text: &str) -> (r: Vec<String>)
    ensures
        views(r@) == text_lines(text@),
{
    let n = text.unicode_len();
    let mut out: Vec<String> = Vec::new();
    let mut start: usize = 0;
    let mut i: usize = 0;
    proof {
        assert(text@.take(0) =~= Seq::<char>::empty());
        assert(views(out@) =~= Seq::<Seq<char>>::empty());
    }
    while i < n
        invariant
            n == text@.len(),
            start <= i <= n,
            lines_fold(text@.take(i as int)) == (views(out@), text@.subrange(start as int, i as int)),
        decreases n - i,
    {
        let c = text.get_char(i);
        proof {
            assert(text@.take(i + 1).drop_last() =~= text@.take(i as int));
            assert(text@.take(i + 1).last() == c);
        }
        if c == '\n' {
            let cur = text.substring_char(start, i);
            let line = if i > start && text.get_char(i - 1) == '\r' {
                text.substring_char(start, i - 1)
            } else {
                cur
            };
            proof {
                let cs = text@.subrange(start as int, i as int);
                if i > start && text@[i - 1] == '\r' {
                    assert(cs.last() == '\r');
                    assert(cs.drop_last() =~= text@.subrange(start as int, i - 1));
                } else {
                    assert(cs.len() == 0 || cs.last() != '\r');
                }
                assert(line@ == strip_cr(cs));
            }
            let ghost before = views(out@);
            out.push(String::from_str(line));
            proof {
                assert(views(out@) =~= before.push(line@));
            }
            start = i + 1;
            proof {
                assert(text@.subrange(start as int, i + 1) =~= Seq::<char>::empty());
            }
        } else {
            proof {
                assert(text@.subrange(start as int, i + 1) =~= text@.subrange(start as int, i as int).push(c));
            }
        }
        i = i + 1;
    }
    proof {
        assert(text@.take(n as int) =~= text@);
    }
    if start < n {
        let last = text.substring_char(start, n);
        let ghost before = views(out@);
        out.push(String::from_str(last));
        proof {
            assert(views(out@) =~= before.push(last@));
        }
    }
    out
}

// !- Documentation built for an item

/// Doc attributes copied from the source, and lines appended to them.
pub struct AppendDoc {
    pub source: Vec<String>,
    pub append: Vec<String>,
}

impl AppendDoc {
    pub open spec fn spec_text(self) -> Seq<char> {
        attr_lines(views(self.source@)) + doc_attrs(views(self.append@))
    }

    /// Documentation that starts as the given doc attributes.
    pub fn new(source: Vec<String>) -> (r: AppendDoc)
        ensures
            r.source@ == source@,
            r.append@.len() == 0,
    {
        AppendDoc { source, append: Vec::new() }
    }

    /// The doc attributes copied from the source.
    pub fn source(&self) -> (r: &Vec<String>)
        ensures
            r@ == self.source@,
    {
        &self.source
    }

    /// The lines appended so far.
    pub fn append(&self) -> (r: &Vec<String>)
        ensures
            r@ == self.append@,
    {
        &self.append
    }

    /// No documentation at all.
    pub fn is_empty(&self) -> (r: bool)
        ensures
            r == (self.source@.len() == 0 && self.append@.len() == 0),
    {
        self.source.len() == 0 && self.append.len() == 0
    }

    /// Appends a line.
    pub fn line(&mut self, line: String)
        ensures
            final(self).source@ == old(self).source@,
            final(self).append@ == old(self).append@.push(line),
    {
        self.append.push(line);
    }

    /// Appends each line of `text`.
    pub fn lines(&mut self, text: &str)
        ensures
            final(self).source@ == old(self).source@,
            views(final(self).append@) == views(old(self).append@) + text_lines(text@),
    {
        let parts = split_lines(text);
        let ghost start = views(self.append@);
        let mut i: usize = 0;
        while i < parts.len()
            invariant
                i <= parts@.len(),
                self.source@ == old(self).source@,
                views(self.append@) == start + views(parts@).take(i as int),
            decreases parts.len() - i,
        {
            let ghost before = views(self.append@);
            self.append.push(parts[i].clone());
            proof {
                assert(views(self.append@) =~= before.push(parts@[i as int]@));
                assert(views(parts@).take(i + 1) =~= views(parts@).take(i as int).push(parts@[i as int]@));
            }
            i = i + 1;
        }
        proof {
            assert(views(parts@).take(parts@.len() as int) =~= views(parts@));
        }
    }

    /// Appends an empty line.
    pub fn newl(&mut self)
        ensures
            final(self).source@ == old(self).source@,
            final(self).append@.len() == old(self).append@.len() + 1,
            final(self).append@.drop_last() == old(self).append@,
            final(self).append@.last()@.len() == 0,
    {
        self.append.push(String::new());
    }

    /// The appended lines as doc attributes.
    pub fn to_append_tokens(&self) -> (r: String)
        ensures
            r@ == doc_attrs(views(self.append@)),
    {
        doc_lines(&self.append)
    }

    /// All of the documentation as attributes.
    pub fn to_text(&self) -> (r: String)
        ensures
            r@ == self.spec_text(),
    {
        let mut out = attr_lines_text(&self.source);
        let tail = self.to_append_tokens();
        out.append(tail.as_str());
        out
    }
}

// !- Rendering of library defaults

/// Whether `w` occurs in `s`.
pub fn contains_chars(s: &Vec<char>, w: &str) -> (r: bool)
    ensures
        r == has_word(s@, w@),
{
    let n = s.len();
    let m = w.unicode_len();
    if m > n {
        return false;
    }
    if m == 0 {
        assert(s@.subrange(0int, 0int + w@.len()) =~= w@);
        return true;
    }
    let mut i: usize = 0;
    while m <= n - i
        invariant
            n == s@.len(),
            m == w@.len(),
            0 < m <= n,
            i <= n,
            forall|j: int| 0 <= j < i ==> #[trigger] s@.subrange(j, j + m) != w@,
        decreases n - i,
    {
        let mut k: usize = 0;
        let mut same = true;
        while k < m
            invariant
                n == s@.len(),
                m == w@.len(),
                i + m <= n,
                k <= m,
                same == (forall|l: int| 0 <= l < k ==> s@[i + l] == w@[l]),
            decreases m - k,
        {
            if s[i + k] != w.get_char(k) {
                same = false;
            }
            k = k + 1;
        }
        if same {
            assert(s@.subrange(i as int, i + m) =~= w@);
            return true;
        }
        assert(s@.subrange(i as int, i + m) != w@) by {
            let l = choose|l: int| 0 <= l < m && s@[i + l] != w@[l];
            assert(s@.subrange(i as int, i + m)[l] == s@[i + l]);
        }
        i = i + 1;
    }
    assert forall|j: int| 0 <= j && j + w@.len() <= s@.len() implies #[trigger] s@.subrange(j, j + w@.len()) != w@ by {
        assert(j < i);
    }
    false
}

fn printable_char_test(c: char) -> (r: bool)
    ensures
        r == printable_char(c),
{
    ('a' <= c && c <= 'z') || ('A' <= c && c <= 'Z') || ('0' <= c && c <= '9') || c == '_' || c
        == ' ' || c == ':' || c == '(' || c == ')' || c == ',' || c == '.' || c == '"' || c == '<'
        || c == '>' || c == '-' || c == '+' || c == '[' || c == ']' || c == '*' || c == '!' || c
        == '&' || c == '|' || c == '=' || c == '?' || c == '\'' || c == '%' || c == '^' || c == '/'
        || c == '@'
}

/// Whether `tokens` is an expression handed to prettyplease.
pub fn is_printable_expr(tokens: &str) -> (r: bool)
    ensures
        r == printable_expr(tokens@),
{
    let n = tokens.unicode_len();
    let mut lex = Lex::Code;
    let mut prev: char = ' ';
    let mut ok = true;
    let mut masked: Vec<char> = Vec::new();
    let mut i: usize = 0;
    proof {
        assert(tokens@.take(0) =~= Seq::<char>::empty());
    }
    while i < n
        invariant
            n == tokens@.len(),
            i <= n,
            scan(tokens@.take(i as int)) == (lex, prev, ok, masked@),
        decreases n - i,
    {
        let c = tokens.get_char(i);
        proof {
            assert(tokens@.take(i + 1).drop_last() =~= tokens@.take(i as int));
            assert(tokens@.take(i + 1).last() == c);
        }
        match lex {
            Lex::Code => {
                if c == '"' {
                    ok = ok && prev != '\'' && prev != 'r';
                    lex = Lex::Str;
                } else {
                    ok = ok && printable_char_test(c) && !(prev == '/' && (c == '/' || c == '*'));
                }
                prev = c;
                masked.push(c);
            },
            Lex::Str => {
                if c == '\\' {
                    lex = Lex::StrEscape;
                    masked.push(' ');
                } else if c == '"' {
                    lex = Lex::Code;
                    prev = c;
                    masked.push(c);
                } else {
                    masked.push(' ');
                }
            },
            Lex::StrEscape => {
                lex = Lex::Str;
                masked.push(' ');
            },
        }
        i = i + 1;
    }
    proof {
        assert(tokens@.take(n as int) =~= tokens@);
    }
    ok && !contains_chars(&masked, "become") && !contains_chars(&masked, "builtin")
        && !contains_chars(&masked, "box") && !contains_chars(&masked, "const") && !contains_chars(
        &masked,
        "dyn",
    ) && !contains_chars(&masked, "fn") && !contains_chars(&masked, "impl") && !contains_chars(
        &masked,
        "macro_rules",
    ) && !contains_chars(&masked, "static")
}

/// The text `tokens` is rendered as: when it is an expression prettyplease
/// can be handed, prettyplease's layout of it, if it parses.
pub open spec fn spec_render_expr(tokens: Seq<char>) -> Option<Seq<char>> {
    if !printable_expr(tokens) {
        None
    } else {
        match pretty_file_text("static x: x = "@ + tokens + ";"@) {
            Some(p) => if p.len() > 15 {
                Some(p.subrange(14, p.len() - 2))
            } else {
                None
            },
            None => None,
        }
    }
}

/// Renders an expression through prettyplease: it is placed in a static
/// item, printed, and cut back out of the printed item. Text that is not a
/// `printable_expr` is not rendered.
pub fn render_expr(tokens: &str) -> (r: Option<String>)
    ensures
        match r {
            Some(s) => spec_render_expr(tokens@) == Some(s@),
            None => spec_render_expr(tokens@) is None,
        },
{
    if !is_printable_expr(tokens) {
        return None;
    }
    let content = concat3("static x: x = ", tokens, ";");
    proof {
        reveal_strlit("static x: x = ");
        reveal_strlit(";");
        let c = content@;
        assert(c.subrange(0, 14) =~= "static x: x = "@);
        assert(c.subrange(14, c.len() - 1) =~= tokens@);
        assert(c.last() == ';');
    }
    match pretty_print_file(content.as_str()) {
        Some(pretty) => {
            let n = pretty.as_str().unicode_len();
            if n > 15 {
                Some(String::from_str(pretty.as_str().substring_char(14, n - 2)))
            } else {
                None
            }
        },
        None => None,
    }
}

/// The default as shown in documentation.
pub open spec fn spec_pretty(e: AttrExpr) -> Seq<char> {
    match spec_render_expr(e.text@) {
        Some(p) => p,
        None => e.text@,
    }
}

impl AttrExpr {
    /// The expression rendered for documentation, or its tokens when it
    /// cannot be rendered.
    pub fn to_pretty_string(&self) -> (r: String)
        ensures
            r@ == spec_pretty(*self),
    {
        match render_expr(self.text.as_str()) {
            Some(p) => p,
            None => self.text.clone(),
        }
    }
}

/// The line documenting a library default.
pub open spec fn default_line(e: AttrExpr) -> Seq<char> {
    "- Library default: **`"@ + spec_pretty(e) + "`**"@
}

/// Lines appended to a field's documentation: its library default, set
/// apart by a rule when the field has documentation of its own.
pub open spec fn field_doc_append(f: OriginField) -> Seq<Seq<char>> {
    match f.default {
        Some(d) => if f.doc_attrs@.len() > 0 {
            seq![Seq::empty(), "---"@, Seq::empty(), default_line(d)]
        } else {
            seq![default_line(d)]
        },
        None => Seq::empty(),
    }
}

/// The documentation of a generated item that stands for field `f`.
pub open spec fn field_doc(f: OriginField) -> Seq<char> {
    attr_lines(views(f.doc_attrs@)) + doc_attrs(field_doc_append(f))
}

/// Documentation for an item generated from a field: the field's own
/// documentation and its library default.
pub fn field_docs(f: &OriginField) -> (r: AppendDoc)
    ensures
        r.spec_text() == field_doc(*f),
{
    let mut src: Vec<String> = Vec::new();
    let mut i: usize = 0;
    while i < f.doc_attrs.len()
        invariant
            i <= f.doc_attrs@.len(),
            src@ == f.doc_attrs@.take(i as int),
        decreases f.doc_attrs.len() - i,
    {
        src.push(f.doc_attrs[i].clone());
        proof {
            assert(src@ =~= f.doc_attrs@.take(i + 1));
        }
        i = i + 1;
    }
    proof {
        assert(src@ =~= f.doc_attrs@);
    }
    let mut out = AppendDoc::new(src);
    match f.default() {
        Some(d) => {
            let pretty = d.to_pretty_string();
            let line = concat3("- Library default: **`", pretty.as_str(), "`**");
            if !out.is_empty() {
                let rule = String::from_str("---");
                out.newl();
                let ghost a1 = out.append@;
                out.line(rule);
                out.newl();
                let ghost a3 = out.append@;
                out.line(line);
                proof {
                    assert(a3.len() == 3 && a3[0]@ =~= Seq::<char>::empty() && a3[2]@ =~= Seq::<char>::empty()) by {
                        assert(a1.len() == 1);
                        assert(a3.drop_last()[0] == a1[0]);
                        assert(a1.last() == a1[0]);
                    }
                    assert(a3[1] == rule) by {
                        assert(a3.drop_last() == a1.push(rule));
                        assert(a3.drop_last()[1] == a3[1]);
                    }
                    assert(out.append@[3] == line);
                    assert(f.doc_attrs@.len() > 0);
                    assert(line@ == default_line(*d));
                    assert(views(out.append@)[0] =~= Seq::<char>::empty());
                    assert(views(out.append@)[1] =~= "---"@);
                    assert(views(out.append@) =~= field_doc_append(*f));
                }
            } else {
                out.line(line);
                proof {
                    assert(views(out.append@) =~= field_doc_append(*f));
                }
            }
        },
        None => {
            proof {
                assert(views(out.append@) =~= field_doc_append(*f));
            }
        },
    }
    out
}

} // verus!
