//! The grammar of a project file, as functions on a sequence of characters.
//!
//! A file is one object. An object is `{`, fields, `}`; a field is a key, `=`,
//! a value and `;`; an array is `(`, values each followed by `,`, and `)`.
//! A key or a value may be written bare (letters, digits and `_ $ . /`) or
//! between double quotes. Blanks, `/* ... */` and `// ...` may stand between
//! any two of these.
//!
//! A bare value is read, in this order, as a boolean (`YES`, `NO`), as an
//! object kind (one of the names in the table of kinds), as a number (digits
//! only), and else as a string. So `1.4.2` is a string. A quoted value is the
//! text between the quotes, as written, without any `"`: a backslash keeps the
//! character after it from closing the string, and stays in the text.
use vstd::prelude::*;
use crate::error::{PBXErrorView, PBXSyntaxElement};
use crate::kind::{all_letters, classify, is_known_isa, is_letter, lemma_kind_names_are_letters};
use crate::value::{
    fields_well_formed, keys_unique_in, lemma_keys_unique_in_elements, lemma_keys_unique_in_fields,
    lemma_with_field, PBXHashMapView, PBXValueView, with_field,
};

verus! {

/// A blank.
pub open spec fn is_space(c: char) -> bool {
    c == ' ' || c == '\t' || c == '\n' || c == '\r'
}

/// A decimal digit.
pub open spec fn is_digit(c: char) -> bool {
    '0' <= c <= '9'
}

/// A character that a bare key or value may hold.
pub open spec fn is_bare_char(c: char) -> bool {
    ('a' <= c <= 'z') || ('A' <= c <= 'Z') || is_digit(c) || c == '_' || c == '$' || c == '.'
        || c == '/'
}

/// Whether `/*` stands at `p`.
pub open spec fn block_comment_at(s: Seq<char>, p: int) -> bool {
    0 <= p && p + 1 < s.len() && s[p] == '/' && s[p + 1] == '*'
}

/// Whether `//` stands at `p`.
pub open spec fn line_comment_at(s: Seq<char>, p: int) -> bool {
    0 <= p && p + 1 < s.len() && s[p] == '/' && s[p + 1] == '/'
}

/// Whether a bare key or value can go on with the character at `p`: a `/`
/// that opens a block comment does not belong to it.
pub open spec fn bare_at(s: Seq<char>, p: int) -> bool {
    0 <= p < s.len() && is_bare_char(s[p]) && !block_comment_at(s, p)
}

/// The place of the first line feed at or after `p`, or the end of the text.
pub open spec fn line_end(s: Seq<char>, p: int) -> int
    decreases s.len() - p,
{
    if p < 0 || p >= s.len() {
        s.len() as int
    } else if s[p] == '\n' {
        p
    } else {
        line_end(s, p + 1)
    }
}

/// The place after the first `*/` that begins at or after `p`, or the end of
/// the text: a comment that is not closed runs to the end.
pub open spec fn block_comment_end(s: Seq<char>, p: int) -> int
    decreases s.len() - p,
{
    if p < 0 || p >= s.len() {
        s.len() as int
    } else if s[p] == '*' && p + 1 < s.len() && s[p + 1] == '/' {
        p + 2
    } else {
        block_comment_end(s, p + 1)
    }
}

/// The first place at or after `p` where neither a blank nor a comment stands.
pub open spec fn skip_trivia(s: Seq<char>, p: int) -> int
    decreases s.len() - p,
{
    if p < 0 || p >= s.len() {
        p
    } else if is_space(s[p]) {
        skip_trivia(s, p + 1)
    } else if line_comment_at(s, p) {
        proof {
            lemma_line_end(s, p + 2);
        }
        skip_trivia(s, line_end(s, p + 2))
    } else if block_comment_at(s, p) {
        proof {
            lemma_block_comment_end(s, p + 2);
        }
        skip_trivia(s, block_comment_end(s, p + 2))
    } else {
        p
    }
}

/// The place where the bare key or value that begins at `p` ends.
pub open spec fn bare_end(s: Seq<char>, p: int) -> int
    decreases s.len() - p,
{
    if bare_at(s, p) {
        bare_end(s, p + 1)
    } else {
        p
    }
}

/// The place of the `"` that closes a quoted string whose text begins at `p`,
/// or the end of the text when nothing closes it.
pub open spec fn quoted_end(s: Seq<char>, p: int) -> int
    decreases s.len() - p,
{
    if p < 0 || p >= s.len() {
        s.len() as int
    } else if s[p] == '"' {
        p
    } else if s[p] == '\\' && p + 1 < s.len() {
        quoted_end(s, p + 2)
    } else {
        quoted_end(s, p + 1)
    }
}

/// `t` without its `"` characters.
pub open spec fn without_quotes(t: Seq<char>) -> Seq<char>
    decreases t.len(),
{
    if t.len() == 0 {
        t
    } else if t.last() == '"' {
        without_quotes(t.drop_last())
    } else {
        without_quotes(t.drop_last()).push(t.last())
    }
}

/// Whether `t` is made of decimal digits only.
pub open spec fn all_digits(t: Seq<char>) -> bool {
    forall|i: int| 0 <= i < t.len() ==> is_digit(#[trigger] t[i])
}

/// The number that the decimal digits `t` write.
pub open spec fn digits_value(t: Seq<char>) -> int
    decreases t.len(),
{
    if t.len() == 0 {
        0
    } else {
        digits_value(t.drop_last()) * 10 + (t.last() as int - '0' as int)
    }
}

/// The value that the bare text `t` stands for; `None` for digits that write
/// a number too large to be held.
pub open spec fn bare_value(t: Seq<char>) -> Option<PBXValueView> {
    if t == "YES"@ {
        Some(PBXValueView::Bool(true))
    } else if t == "NO"@ {
        Some(PBXValueView::Bool(false))
    } else if is_known_isa(t) {
        Some(PBXValueView::Kind(classify(t)))
    } else if t.len() > 0 && all_digits(t) {
        if digits_value(t) <= isize::MAX {
            Some(PBXValueView::Number(digits_value(t)))
        } else {
            None
        }
    } else {
        Some(PBXValueView::String(t))
    }
}

/// The number of line feeds among the first `p` characters of `s`.
pub open spec fn line_feeds_before(s: Seq<char>, p: int) -> int
    decreases p,
{
    if p <= 0 || p > s.len() {
        0
    } else if s[p - 1] == '\n' {
        line_feeds_before(s, p - 1) + 1
    } else {
        line_feeds_before(s, p - 1)
    }
}

/// The place where the line begins in which the character at `p` stands: the
/// place after the last line feed before `p`.
pub open spec fn line_start(s: Seq<char>, p: int) -> int
    decreases p,
{
    if p <= 0 || p > s.len() {
        0
    } else if s[p - 1] == '\n' {
        p
    } else {
        line_start(s, p - 1)
    }
}

/// A syntax error at `position`.
pub open spec fn syntax_error(position: int, expected: PBXSyntaxElement) -> PBXErrorView {
    PBXErrorView::Syntax { position, expected }
}

/// The key that begins at `p`, with the place after it; `p` is a place where
/// neither a blank nor a comment stands.
pub open spec fn parse_key(s: Seq<char>, p: int) -> Result<(Seq<char>, int), PBXErrorView> {
    if 0 <= p < s.len() && s[p] == '"' {
        let q = quoted_end(s, p + 1);
        if q < s.len() {
            Ok((without_quotes(s.subrange(p + 1, q)), q + 1))
        } else {
            Err(syntax_error(s.len() as int, PBXSyntaxElement::StringClose))
        }
    } else if bare_at(s, p) {
        Ok((s.subrange(p, bare_end(s, p)), bare_end(s, p)))
    } else {
        Err(syntax_error(p, PBXSyntaxElement::KeyOrObjectClose))
    }
}

/// The value that begins at `p`, with the place after it; `p` is a place where
/// neither a blank nor a comment stands.
pub open spec fn parse_value(s: Seq<char>, p: int) -> Result<(PBXValueView, int), PBXErrorView>
    decreases s.len() - p, 0int,
{
    if p < 0 || p >= s.len() {
        Err(syntax_error(p, PBXSyntaxElement::Value))
    } else if s[p] == '(' {
        proof {
            lemma_skip_trivia(s, p + 1);
        }
        match parse_items(s, skip_trivia(s, p + 1), Seq::empty()) {
            Ok((items, q)) => Ok((PBXValueView::Vec(items), q)),
            Err(e) => Err(e),
        }
    } else if s[p] == '{' {
        proof {
            lemma_skip_trivia(s, p + 1);
        }
        match parse_fields(s, skip_trivia(s, p + 1), Seq::empty()) {
            Ok((fields, q)) => Ok((PBXValueView::Object(fields), q)),
            Err(e) => Err(e),
        }
    } else if s[p] == '"' {
        let q = quoted_end(s, p + 1);
        if q < s.len() {
            Ok((PBXValueView::String(without_quotes(s.subrange(p + 1, q))), q + 1))
        } else {
            Err(syntax_error(s.len() as int, PBXSyntaxElement::StringClose))
        }
    } else if bare_at(s, p) {
        match bare_value(s.subrange(p, bare_end(s, p))) {
            Some(v) => Ok((v, bare_end(s, p))),
            None => Err(syntax_error(p, PBXSyntaxElement::NumberInRange)),
        }
    } else {
        Err(syntax_error(p, PBXSyntaxElement::Value))
    }
}

/// The rest of an array from `p` on, after the elements `acc`: elements, each
/// followed by `,`, up to `)`. Gives all the elements and the place after `)`.
pub open spec fn parse_items(
    s: Seq<char>,
    p: int,
    acc: Seq<PBXValueView>,
) -> Result<(Seq<PBXValueView>, int), PBXErrorView>
    decreases s.len() - p, 1int,
{
    if 0 <= p < s.len() && s[p] == ')' {
        Ok((acc, p + 1))
    } else {
        match parse_value(s, p) {
            Err(e) => Err(e),
            Ok((v, q)) => {
                let q1 = skip_trivia(s, q);
                if 0 <= q1 < s.len() && s[q1] == ',' {
                    let q2 = skip_trivia(s, q1 + 1);
                    // a value takes at least one character
                    if p < q2 <= s.len() {
                        parse_items(s, q2, acc.push(v))
                    } else {
                        Err(syntax_error(p, PBXSyntaxElement::Value))
                    }
                } else {
                    Err(syntax_error(q1, PBXSyntaxElement::Comma))
                }
            },
        }
    }
}

/// The rest of an object from `p` on, after the fields `acc`: fields up to
/// `}`. Gives all the fields and the place after `}`. Of two fields with one
/// key the later one stays.
pub open spec fn parse_fields(
    s: Seq<char>,
    p: int,
    acc: PBXHashMapView,
) -> Result<(PBXHashMapView, int), PBXErrorView>
    decreases s.len() - p, 1int,
{
    if 0 <= p < s.len() && s[p] == '}' {
        Ok((acc, p + 1))
    } else {
        match parse_key(s, p) {
            Err(e) => Err(e),
            Ok((key, q)) => {
                let q1 = skip_trivia(s, q);
                if 0 <= q1 < s.len() && s[q1] == '=' {
                    let q2 = skip_trivia(s, q1 + 1);
                    // a key takes at least one character
                    if p < q2 <= s.len() {
                        match parse_value(s, q2) {
                            Err(e) => Err(e),
                            Ok((v, q3)) => {
                                let q4 = skip_trivia(s, q3);
                                if 0 <= q4 < s.len() && s[q4] == ';' {
                                    let q5 = skip_trivia(s, q4 + 1);
                                    if p < q5 <= s.len() {
                                        parse_fields(s, q5, with_field(acc, key, v))
                                    } else {
                                        Err(syntax_error(p, PBXSyntaxElement::KeyOrObjectClose))
                                    }
                                } else {
                                    Err(syntax_error(q4, PBXSyntaxElement::Semicolon))
                                }
                            },
                        }
                    } else {
                        Err(syntax_error(p, PBXSyntaxElement::KeyOrObjectClose))
                    }
                } else {
                    Err(syntax_error(q1, PBXSyntaxElement::Equals))
                }
            },
        }
    }
}

/// One field, alone in the text `s`: a key, `=`, a value and `;`.
pub open spec fn parse_field(s: Seq<char>) -> Result<(Seq<char>, PBXValueView), PBXErrorView> {
    let p = skip_trivia(s, 0);
    match parse_key(s, p) {
        Err(e) => Err(e),
        Ok((key, q)) => {
            let q1 = skip_trivia(s, q);
            if 0 <= q1 < s.len() && s[q1] == '=' {
                match parse_value(s, skip_trivia(s, q1 + 1)) {
                    Err(e) => Err(e),
                    Ok((v, q3)) => {
                        let q4 = skip_trivia(s, q3);
                        if 0 <= q4 < s.len() && s[q4] == ';' {
                            if skip_trivia(s, q4 + 1) >= s.len() {
                                Ok((key, v))
                            } else {
                                Err(
                                    syntax_error(
                                        skip_trivia(s, q4 + 1),
                                        PBXSyntaxElement::EndOfInput,
                                    ),
                                )
                            }
                        } else {
                            Err(syntax_error(q4, PBXSyntaxElement::Semicolon))
                        }
                    },
                }
            } else {
                Err(syntax_error(q1, PBXSyntaxElement::Equals))
            }
        },
    }
}

/// The fields of the one object that the text `s` holds.
pub open spec fn parse_file(s: Seq<char>) -> Result<PBXHashMapView, PBXErrorView> {
    let p = skip_trivia(s, 0);
    if 0 <= p < s.len() && s[p] == '{' {
        match parse_fields(s, skip_trivia(s, p + 1), Seq::empty()) {
            Err(e) => Err(e),
            Ok((fields, q)) => {
                if skip_trivia(s, q) >= s.len() {
                    Ok(fields)
                } else {
                    Err(syntax_error(skip_trivia(s, q), PBXSyntaxElement::EndOfInput))
                }
            },
        }
    } else {
        Err(syntax_error(p, PBXSyntaxElement::ObjectOpen))
    }
}

/// [`line_end`] stays between `p` and the end of the text.
pub proof fn lemma_line_end(s: Seq<char>, p: int)
    requires
        0 <= p,
    ensures
        p <= line_end(s, p) || line_end(s, p) == s.len(),
        line_end(s, p) <= s.len(),
        p <= s.len() ==> p <= line_end(s, p),
    decreases s.len() - p,
{
    if p < s.len() && s[p] != '\n' {
        lemma_line_end(s, p + 1);
    }
}

/// [`block_comment_end`] stays between `p` and the end of the text.
pub proof fn lemma_block_comment_end(s: Seq<char>, p: int)
    requires
        0 <= p,
    ensures
        block_comment_end(s, p) <= s.len(),
        p <= s.len() ==> p <= block_comment_end(s, p),
    decreases s.len() - p,
{
    if p < s.len() && !(s[p] == '*' && p + 1 < s.len() && s[p + 1] == '/') {
        lemma_block_comment_end(s, p + 1);
    }
}

/// [`skip_trivia`] does not go back, and stops inside the text when it began
/// there.
pub proof fn lemma_skip_trivia(s: Seq<char>, p: int)
    requires
        0 <= p,
    ensures
        p <= skip_trivia(s, p),
        p <= s.len() ==> skip_trivia(s, p) <= s.len(),
    decreases s.len() - p,
{
    if p < s.len() {
        if is_space(s[p]) {
            lemma_skip_trivia(s, p + 1);
        } else if line_comment_at(s, p) {
            lemma_line_end(s, p + 2);
            lemma_skip_trivia(s, line_end(s, p + 2));
        } else if block_comment_at(s, p) {
            lemma_block_comment_end(s, p + 2);
            lemma_skip_trivia(s, block_comment_end(s, p + 2));
        }
    }
}

/// A key takes at least one character, and ends inside the text.
pub proof fn lemma_parse_key_advances(s: Seq<char>, p: int)
    requires
        0 <= p <= s.len(),
    ensures
        parse_key(s, p) matches Ok(r) ==> p < r.1 <= s.len(),
{
    if p < s.len() && s[p] == '"' {
        lemma_quoted_end_bounds(s, p + 1);
    } else if bare_at(s, p) {
        lemma_bare_end_bounds(s, p);
    }
}

/// [`bare_end`] does not go back and stays inside the text.
pub proof fn lemma_bare_end_bounds(s: Seq<char>, p: int)
    requires
        0 <= p <= s.len(),
    ensures
        p <= bare_end(s, p) <= s.len(),
        bare_at(s, p) ==> p < bare_end(s, p),
    decreases s.len() - p,
{
    if bare_at(s, p) {
        lemma_bare_end_bounds(s, p + 1);
    }
}

/// [`quoted_end`] does not go back and stays inside the text.
pub proof fn lemma_quoted_end_bounds(s: Seq<char>, p: int)
    requires
        0 <= p <= s.len(),
    ensures
        p <= quoted_end(s, p) <= s.len(),
    decreases s.len() - p,
{
    if p < s.len() && s[p] != '"' {
        if s[p] == '\\' && p + 1 < s.len() {
            lemma_quoted_end_bounds(s, p + 2);
        } else {
            lemma_quoted_end_bounds(s, p + 1);
        }
    }
}

/// A value takes at least one character, and ends inside the text: so the
/// tests in [`parse_items`] and [`parse_fields`] that a value or a key has
/// moved on never fail.
pub proof fn lemma_parse_value_advances(s: Seq<char>, p: int)
    requires
        0 <= p <= s.len(),
    ensures
        parse_value(s, p) matches Ok(r) ==> p < r.1 <= s.len(),
    decreases s.len() - p, 0int,
{
    if p < s.len() {
        if s[p] == '(' {
            lemma_skip_trivia(s, p + 1);
            lemma_parse_items_advances(s, skip_trivia(s, p + 1), Seq::empty());
        } else if s[p] == '{' {
            lemma_skip_trivia(s, p + 1);
            lemma_parse_fields_advances(s, skip_trivia(s, p + 1), Seq::empty());
        } else if s[p] == '"' {
            lemma_quoted_end_bounds(s, p + 1);
        } else if bare_at(s, p) {
            lemma_bare_end_bounds(s, p);
        }
    }
}

/// As [`lemma_parse_value_advances`], for the rest of an array.
pub proof fn lemma_parse_items_advances(s: Seq<char>, p: int, acc: Seq<PBXValueView>)
    requires
        0 <= p <= s.len(),
    ensures
        parse_items(s, p, acc) matches Ok(r) ==> p < r.1 <= s.len(),
    decreases s.len() - p, 1int,
{
    if !(p < s.len() && s[p] == ')') {
        lemma_parse_value_advances(s, p);
        match parse_value(s, p) {
            Ok((v, q)) => {
                lemma_skip_trivia(s, q);
                let q1 = skip_trivia(s, q);
                if q1 < s.len() && s[q1] == ',' {
                    lemma_skip_trivia(s, q1 + 1);
                    let q2 = skip_trivia(s, q1 + 1);
                    lemma_parse_items_advances(s, q2, acc.push(v));
                }
            },
            Err(_) => {},
        }
    }
}

/// As [`lemma_parse_value_advances`], for the rest of an object.
pub proof fn lemma_parse_fields_advances(s: Seq<char>, p: int, acc: PBXHashMapView)
    requires
        0 <= p <= s.len(),
    ensures
        parse_fields(s, p, acc) matches Ok(r) ==> p < r.1 <= s.len(),
    decreases s.len() - p, 1int,
{
    if !(p < s.len() && s[p] == '}') {
        lemma_parse_key_advances(s, p);
        match parse_key(s, p) {
            Ok((key, q)) => {
                lemma_skip_trivia(s, q);
                let q1 = skip_trivia(s, q);
                if q1 < s.len() && s[q1] == '=' {
                    lemma_skip_trivia(s, q1 + 1);
                    let q2 = skip_trivia(s, q1 + 1);
                    lemma_parse_value_advances(s, q2);
                    match parse_value(s, q2) {
                        Ok((v, q3)) => {
                            lemma_skip_trivia(s, q3);
                            let q4 = skip_trivia(s, q3);
                            if q4 < s.len() && s[q4] == ';' {
                                lemma_skip_trivia(s, q4 + 1);
                                let q5 = skip_trivia(s, q4 + 1);
                                lemma_parse_fields_advances(s, q5, with_field(acc, key, v));
                            }
                        },
                        Err(_) => {},
                    }
                }
            },
            Err(_) => {},
        }
    }
}

/// In a value that was read, no object has two fields with the same key.
pub proof fn lemma_parse_value_keys_unique(s: Seq<char>, p: int)
    ensures
        parse_value(s, p) matches Ok(r) ==> keys_unique_in(r.0),
    decreases s.len() - p, 0int,
{
    if 0 <= p < s.len() {
        lemma_keys_unique_in_elements(Seq::empty());
        lemma_keys_unique_in_fields(Seq::empty());
        if s[p] == '(' {
            lemma_skip_trivia(s, p + 1);
            lemma_parse_items_keys_unique(s, skip_trivia(s, p + 1), Seq::empty());
        } else if s[p] == '{' {
            lemma_skip_trivia(s, p + 1);
            lemma_parse_fields_keys_unique(s, skip_trivia(s, p + 1), Seq::empty());
        }
    }
}

/// As [`lemma_parse_value_keys_unique`], for the elements of an array.
pub proof fn lemma_parse_items_keys_unique(s: Seq<char>, p: int, acc: Seq<PBXValueView>)
    requires
        keys_unique_in(PBXValueView::Vec(acc)),
    ensures
        parse_items(s, p, acc) matches Ok(r) ==> keys_unique_in(PBXValueView::Vec(r.0)),
    decreases s.len() - p, 1int,
{
    if !(0 <= p < s.len() && s[p] == ')') {
        lemma_parse_value_keys_unique(s, p);
        match parse_value(s, p) {
            Ok((v, q)) => {
                let q1 = skip_trivia(s, q);
                if 0 <= q1 < s.len() && s[q1] == ',' {
                    let q2 = skip_trivia(s, q1 + 1);
                    if p < q2 <= s.len() {
                        lemma_keys_unique_in_elements(acc);
                        lemma_keys_unique_in_elements(acc.push(v));
                        assert forall|i: int| 0 <= i < acc.push(v).len() implies keys_unique_in(
                            #[trigger] acc.push(v)[i],
                        ) by {
                            if i < acc.len() {
                                assert(acc.push(v)[i] == acc[i]);
                                assert(keys_unique_in(acc[i]));
                            } else {
                                assert(acc.push(v)[i] == v);
                            }
                        }
                        assert(keys_unique_in(PBXValueView::Vec(acc.push(v))));
                        lemma_parse_items_keys_unique(s, q2, acc.push(v));
                    }
                }
            },
            Err(_) => {},
        }
    }
}

/// As [`lemma_parse_value_keys_unique`], for the fields of an object.
pub proof fn lemma_parse_fields_keys_unique(s: Seq<char>, p: int, acc: PBXHashMapView)
    requires
        fields_well_formed(acc),
    ensures
        parse_fields(s, p, acc) matches Ok(r) ==> fields_well_formed(r.0),
    decreases s.len() - p, 1int,
{
    if !(0 <= p < s.len() && s[p] == '}') {
        match parse_key(s, p) {
            Ok((key, q)) => {
                let q1 = skip_trivia(s, q);
                if 0 <= q1 < s.len() && s[q1] == '=' {
                    let q2 = skip_trivia(s, q1 + 1);
                    if p < q2 <= s.len() {
                        lemma_parse_value_keys_unique(s, q2);
                        match parse_value(s, q2) {
                            Ok((v, q3)) => {
                                let q4 = skip_trivia(s, q3);
                                if 0 <= q4 < s.len() && s[q4] == ';' {
                                    let q5 = skip_trivia(s, q4 + 1);
                                    if p < q5 <= s.len() {
                                        lemma_with_field(acc, key, v, key);
                                        lemma_parse_fields_keys_unique(
                                            s,
                                            q5,
                                            with_field(acc, key, v),
                                        );
                                    }
                                }
                            },
                            Err(_) => {},
                        }
                    }
                }
            },
            Err(_) => {},
        }
    }
}

/// In the fields of a file that was read, and in every object inside them, no
/// two fields have the same key.
pub proof fn lemma_parse_file_keys_unique(s: Seq<char>)
    ensures
        parse_file(s) matches Ok(m) ==> fields_well_formed(m),
{
    let p = skip_trivia(s, 0);
    if 0 <= p < s.len() && s[p] == '{' {
        lemma_keys_unique_in_fields(Seq::empty());
        lemma_parse_fields_keys_unique(s, skip_trivia(s, p + 1), Seq::empty());
    }
}

/// A bare text that holds a character which is neither a letter nor a digit,
/// such as the `.` of `1.4.2`, is read as a string.
pub proof fn lemma_bare_text_with_other_character(t: Seq<char>, i: int)
    requires
        0 <= i < t.len(),
        !is_letter(t[i]),
        !is_digit(t[i]),
    ensures
        bare_value(t) == Some(PBXValueView::String(t)),
{
    reveal_strlit("YES");
    reveal_strlit("NO");
    assert(all_letters("YES"@));
    assert(all_letters("NO"@));
    if is_known_isa(t) {
        lemma_kind_names_are_letters(t);
    }
}

/// `YES` is read as true and `NO` as false, and no other bare text is read as a
/// boolean.
pub proof fn lemma_bare_booleans(t: Seq<char>)
    ensures
        bare_value("YES"@) == Some(PBXValueView::Bool(true)),
        bare_value("NO"@) == Some(PBXValueView::Bool(false)),
        t != "YES"@ && t != "NO"@ ==> !(bare_value(t) matches Some(PBXValueView::Bool(_))),
{
    reveal_strlit("YES");
    reveal_strlit("NO");
    assert("YES"@.len() != "NO"@.len());
}

} // verus!
