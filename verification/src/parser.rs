//! The parser: from the text of a project file to its tree of values.
use vstd::prelude::*;
use crate::error::{PBXError, PBXErrorView, PBXSyntaxElement};
use crate::grammar::{
    all_digits, bare_at, bare_end, bare_value, block_comment_end, digits_value, is_bare_char,
    is_digit, is_space, lemma_parse_file_keys_unique, line_end, line_feeds_before, line_start,
    parse_field, parse_fields, parse_file, parse_items, parse_key, parse_value, quoted_end,
    skip_trivia, without_quotes,
};
use crate::kind::PBXObjectKind;
use crate::text::{chars_of, push_char, same_text, text_of};
use crate::value::{
    fields_well_formed, PBXHashMap, PBXHashMapView, PBXValue, PBXValueView, PBXVec, values_view,
};

verus! {

/// The digits written by a prefix of `t` do not write more than those of `t`.
proof fn lemma_digits_value_prefix(t: Seq<char>, k: int)
    requires
        all_digits(t),
        0 <= k <= t.len(),
    ensures
        0 <= digits_value(t.take(k)) <= digits_value(t),
    decreases t.len() - k,
{
    lemma_digits_value_step(t, k);
    if k < t.len() {
        lemma_digits_value_prefix(t, k + 1);
        lemma_digits_value_step(t, k + 1);
    } else {
        assert(t.take(k) =~= t);
    }
}

/// One more digit: ten times what stood before, and the digit.
proof fn lemma_digits_value_step(t: Seq<char>, k: int)
    requires
        all_digits(t),
        0 <= k <= t.len(),
    ensures
        0 <= digits_value(t.take(k)),
        k > 0 ==> digits_value(t.take(k)) == digits_value(t.take(k - 1)) * 10 + (t[k - 1] as int
            - '0' as int),
    decreases k,
{
    if k > 0 {
        lemma_digits_value_step(t, k - 1);
        assert(t.take(k).drop_last() =~= t.take(k - 1));
        assert(t.take(k).last() == t[k - 1]);
        assert(is_digit(t[k - 1]));
    }
}

fn is_space_char(c: char) -> (r: bool)
    ensures
        r == is_space(c),
{
    c == ' ' || c == '\t' || c == '\n' || c == '\r'
}

fn is_digit_char(c: char) -> (r: bool)
    ensures
        r == is_digit(c),
{
    '0' <= c && c <= '9'
}

fn is_bare(c: char) -> (r: bool)
    ensures
        r == is_bare_char(c),
{
    ('a' <= c && c <= 'z') || ('A' <= c && c <= 'Z') || is_digit_char(c) || c == '_' || c == '$'
        || c == '.' || c == '/'
}

fn find_line_end(s: &Vec<char>, p: usize) -> (r: usize)
    requires
        p <= s.len(),
    ensures
        r == line_end(s@, p as int),
        p <= r <= s.len(),
{
    let mut i: usize = p;
    while i < s.len() && s[i] != '\n'
        invariant
            p <= i <= s.len(),
            line_end(s@, p as int) == line_end(s@, i as int),
        decreases s.len() - i,
    {
        i += 1;
    }
    i
}

fn find_block_comment_end(s: &Vec<char>, p: usize) -> (r: usize)
    requires
        p <= s.len(),
    ensures
        r == block_comment_end(s@, p as int),
        p <= r <= s.len(),
{
    let mut i: usize = p;
    while i < s.len()
        invariant
            p <= i <= s.len(),
            block_comment_end(s@, p as int) == block_comment_end(s@, i as int),
        decreases s.len() - i,
    {
        if s[i] == '*' && i + 1 < s.len() && s[i + 1] == '/' {
            return i + 2;
        }
        i += 1;
    }
    i
}

fn skip(s: &Vec<char>, p: usize) -> (r: usize)
    requires
        p <= s.len(),
    ensures
        r == skip_trivia(s@, p as int),
        p <= r <= s.len(),
{
    let mut i: usize = p;
    while i < s.len()
        invariant
            p <= i <= s.len(),
            skip_trivia(s@, p as int) == skip_trivia(s@, i as int),
        decreases s.len() - i,
    {
        let c = s[i];
        if is_space_char(c) {
            i += 1;
        } else if c == '/' && i + 1 < s.len() && s[i + 1] == '/' {
            i = find_line_end(s, i + 2);
        } else if c == '/' && i + 1 < s.len() && s[i + 1] == '*' {
            i = find_block_comment_end(s, i + 2);
        } else {
            return i;
        }
    }
    i
}

fn find_bare_end(s: &Vec<char>, p: usize) -> (r: usize)
    requires
        p <= s.len(),
    ensures
        r == bare_end(s@, p as int),
        p <= r <= s.len(),
        bare_at(s@, p as int) ==> p < r,
{
    let mut i: usize = p;
    while i < s.len() && is_bare(s[i]) && !(s[i] == '/' && i + 1 < s.len() && s[i + 1] == '*')
        invariant
            p <= i <= s.len(),
            bare_end(s@, p as int) == bare_end(s@, i as int),
            bare_at(s@, p as int) ==> p < i || bare_at(s@, i as int),
        decreases s.len() - i,
    {
        i += 1;
    }
    i
}

fn find_quoted_end(s: &Vec<char>, p: usize) -> (r: usize)
    requires
        p <= s.len(),
    ensures
        r == quoted_end(s@, p as int),
        p <= r <= s.len(),
{
    let mut i: usize = p;
    while i < s.len() && s[i] != '"'
        invariant
            p <= i <= s.len(),
            quoted_end(s@, p as int) == quoted_end(s@, i as int),
        decreases s.len() - i,
    {
        if s[i] == '\\' && i + 1 < s.len() {
            i += 2;
        } else {
            i += 1;
        }
    }
    i
}

fn text_without_quotes(s: &Vec<char>, from: usize, to: usize) -> (r: String)
    requires
        from <= to <= s.len(),
    ensures
        r@ == without_quotes(s@.subrange(from as int, to as int)),
{
    let mut out = String::new();
    let mut i: usize = from;
    while i < to
        invariant
            from <= i <= to <= s.len(),
            out@ == without_quotes(s@.subrange(from as int, i as int)),
        decreases to - i,
    {
        assert(s@.subrange(from as int, i + 1).drop_last() =~= s@.subrange(from as int, i as int));
        assert(s@.subrange(from as int, i + 1).last() == s@[i as int]);
        if s[i] != '"' {
            push_char(&mut out, s[i]);
        }
        i += 1;
    }
    out
}

/// The number that the digits `s[from..to]` write, if it can be held.
fn number_of_digits(s: &Vec<char>, from: usize, to: usize) -> (r: Option<isize>)
    requires
        from <= to <= s.len(),
        all_digits(s@.subrange(from as int, to as int)),
    ensures
        match r {
            Some(n) => n == digits_value(s@.subrange(from as int, to as int)),
            None => digits_value(s@.subrange(from as int, to as int)) > isize::MAX,
        },
{
    let ghost t = s@.subrange(from as int, to as int);
    let mut acc: isize = 0;
    let mut i: usize = from;
    while i < to
        invariant
            from <= i <= to <= s.len(),
            t == s@.subrange(from as int, to as int),
            all_digits(t),
            0 <= acc,
            acc == digits_value(t.take(i - from)),
        decreases to - i,
    {
        let c = s[i];
        proof {
            assert(t[i - from] == c);
            assert(is_digit(t[i - from]));
            lemma_digits_value_step(t, i - from + 1);
            lemma_digits_value_prefix(t, i - from + 1);
        }
        let d: isize = (c as u32 - '0' as u32) as isize;
        if acc > (isize::MAX - d) / 10 {
            return None;
        }
        acc = acc * 10 + d;
        i += 1;
    }
    assert(t.take(to - from) =~= t);
    Some(acc)
}

fn digits_only(s: &Vec<char>, from: usize, to: usize) -> (r: bool)
    requires
        from <= to <= s.len(),
    ensures
        r == all_digits(s@.subrange(from as int, to as int)),
{
    let ghost t = s@.subrange(from as int, to as int);
    let mut i: usize = from;
    while i < to
        invariant
            from <= i <= to <= s.len(),
            t == s@.subrange(from as int, to as int),
            forall|j: int| 0 <= j < i - from ==> is_digit(#[trigger] t[j]),
        decreases to - i,
    {
        if !is_digit_char(s[i]) {
            assert(!is_digit(t[i - from]));
            return false;
        }
        i += 1;
    }
    true
}

/// The value of the bare text `s[from..to]`.
fn bare_value_of(s: &Vec<char>, from: usize, to: usize) -> (r: Option<PBXValue>)
    requires
        from <= to <= s.len(),
    ensures
        match r {
            Some(v) => bare_value(s@.subrange(from as int, to as int)) == Some(v@),
            None => bare_value(s@.subrange(from as int, to as int)) is None,
        },
{
    let text = text_of(s, from, to);
    if same_text(text.as_str(), "YES") {
        return Some(PBXValue::Bool(true));
    }
    if same_text(text.as_str(), "NO") {
        return Some(PBXValue::Bool(false));
    }
    let kind = PBXObjectKind::from_isa(text.as_str());
    if !kind.is_unknown() {
        return Some(PBXValue::Kind(kind));
    }
    if to > from && digits_only(s, from, to) {
        match number_of_digits(s, from, to) {
            Some(n) => Some(PBXValue::Number(n)),
            None => None,
        }
    } else {
        Some(PBXValue::String(text))
    }
}

fn key_at(s: &Vec<char>, p: usize) -> (r: Result<(String, usize), PBXError>)
    requires
        p <= s.len(),
    ensures
        match r {
            Ok((key, q)) => parse_key(s@, p as int) == Ok::<_, PBXErrorView>((key@, q as int)) && p
                < q <= s.len(),
            Err(e) => parse_key(s@, p as int) == Err::<(Seq<char>, int), _>(e@),
        },
{
    if p < s.len() && s[p] == '"' {
        let q = find_quoted_end(s, p + 1);
        if q < s.len() {
            Ok((text_without_quotes(s, p + 1, q), q + 1))
        } else {
            Err(PBXError::Syntax { position: s.len(), expected: PBXSyntaxElement::StringClose })
        }
    } else if p < s.len() && is_bare(s[p]) && !(s[p] == '/' && p + 1 < s.len() && s[p + 1] == '*') {
        let q = find_bare_end(s, p);
        Ok((text_of(s, p, q), q))
    } else {
        Err(PBXError::Syntax { position: p, expected: PBXSyntaxElement::KeyOrObjectClose })
    }
}

fn value_at(s: &Vec<char>, p: usize) -> (r: Result<(PBXValue, usize), PBXError>)
    requires
        p <= s.len(),
    ensures
        match r {
            Ok((v, q)) => parse_value(s@, p as int) == Ok::<_, PBXErrorView>((v@, q as int)) && p
                < q <= s.len(),
            Err(e) => parse_value(s@, p as int) == Err::<(PBXValueView, int), _>(e@),
        },
    decreases s.len() - p, 1int,
{
    if p >= s.len() {
        return Err(PBXError::Syntax { position: p, expected: PBXSyntaxElement::Value });
    }
    let c = s[p];
    if c == '(' {
        let start = skip(s, p + 1);
        match items_from(s, start) {
            Ok((items, q)) => Ok((PBXValue::Vec(PBXVec(items)), q)),
            Err(e) => Err(e),
        }
    } else if c == '{' {
        let start = skip(s, p + 1);
        match fields_from(s, start) {
            Ok((fields, q)) => Ok((PBXValue::Object(fields), q)),
            Err(e) => Err(e),
        }
    } else if c == '"' {
        let q = find_quoted_end(s, p + 1);
        if q < s.len() {
            Ok((PBXValue::String(text_without_quotes(s, p + 1, q)), q + 1))
        } else {
            Err(PBXError::Syntax { position: s.len(), expected: PBXSyntaxElement::StringClose })
        }
    } else if is_bare(c) && !(c == '/' && p + 1 < s.len() && s[p + 1] == '*') {
        let q = find_bare_end(s, p);
        match bare_value_of(s, p, q) {
            Some(v) => Ok((v, q)),
            None => Err(
                PBXError::Syntax { position: p, expected: PBXSyntaxElement::NumberInRange },
            ),
        }
    } else {
        Err(PBXError::Syntax { position: p, expected: PBXSyntaxElement::Value })
    }
}

fn items_from(s: &Vec<char>, p: usize) -> (r: Result<(Vec<PBXValue>, usize), PBXError>)
    requires
        p <= s.len(),
    ensures
        match r {
            Ok((items, q)) => parse_items(s@, p as int, Seq::empty()) == Ok::<_, PBXErrorView>(
                (values_view(items@), q as int),
            ) && p < q <= s.len(),
            Err(e) => parse_items(s@, p as int, Seq::empty()) == Err::<(Seq<PBXValueView>, int), _>(
                e@,
            ),
        },
    decreases s.len() - p, 2int,
{
    let mut items: Vec<PBXValue> = Vec::new();
    let mut i: usize = p;
    assert(values_view(items@) =~= Seq::empty());
    loop
        invariant
            p <= i <= s.len(),
            parse_items(s@, p as int, Seq::empty()) == parse_items(
                s@,
                i as int,
                values_view(items@),
            ),
        decreases s.len() - i,
    {
        if i < s.len() && s[i] == ')' {
            return Ok((items, i + 1));
        }
        let (v, q) = value_at(s, i)?;
        let q1 = skip(s, q);
        if q1 < s.len() && s[q1] == ',' {
            let q2 = skip(s, q1 + 1);
            let ghost before = values_view(items@);
            items.push(v);
            assert(values_view(items@) =~= before.push(v@));
            i = q2;
        } else {
            return Err(PBXError::Syntax { position: q1, expected: PBXSyntaxElement::Comma });
        }
    }
}

fn fields_from(s: &Vec<char>, p: usize) -> (r: Result<(PBXHashMap, usize), PBXError>)
    requires
        p <= s.len(),
    ensures
        match r {
            Ok((fields, q)) => parse_fields(s@, p as int, Seq::empty()) == Ok::<_, PBXErrorView>(
                (fields@, q as int),
            ) && p < q <= s.len(),
            Err(e) => parse_fields(s@, p as int, Seq::empty()) == Err::<
                (PBXHashMapView, int),
                _,
            >(e@),
        },
    decreases s.len() - p, 2int,
{
    let mut fields = PBXHashMap::empty();
    let mut i: usize = p;
    loop
        invariant
            p <= i <= s.len(),
            parse_fields(s@, p as int, Seq::empty()) == parse_fields(s@, i as int, fields@),
        decreases s.len() - i,
    {
        if i < s.len() && s[i] == '}' {
            return Ok((fields, i + 1));
        }
        let (key, q) = key_at(s, i)?;
        let q1 = skip(s, q);
        if q1 < s.len() && s[q1] == '=' {
            let q2 = skip(s, q1 + 1);
            let (v, q3) = value_at(s, q2)?;
            let q4 = skip(s, q3);
            if q4 < s.len() && s[q4] == ';' {
                let q5 = skip(s, q4 + 1);
                fields.insert(key, v);
                i = q5;
            } else {
                return Err(
                    PBXError::Syntax { position: q4, expected: PBXSyntaxElement::Semicolon },
                );
            }
        } else {
            return Err(PBXError::Syntax { position: q1, expected: PBXSyntaxElement::Equals });
        }
    }
}

/// The parser of project files.
pub struct PBXProjectParser;

impl PBXProjectParser {
    /// The fields of the one object that the text `content` holds; a syntax
    /// error, with the place where it was found counted in characters, when
    /// `content` is not a project file.
    pub fn try_from_str(content: &str) -> (r: Result<PBXHashMap, PBXError>)
        ensures
            match r {
                Ok(fields) => parse_file(content@) == Ok::<_, PBXErrorView>(fields@)
                    && fields_well_formed(fields@),
                Err(e) => parse_file(content@) == Err::<PBXHashMapView, _>(e@),
            },
    {
        proof {
            lemma_parse_file_keys_unique(content@);
        }
        let s = chars_of(content);
        let p = skip(&s, 0);
        if p < s.len() && s[p] == '{' {
            let start = skip(&s, p + 1);
            let (fields, q) = fields_from(&s, start)?;
            let end = skip(&s, q);
            if end >= s.len() {
                Ok(fields)
            } else {
                Err(PBXError::Syntax { position: end, expected: PBXSyntaxElement::EndOfInput })
            }
        } else {
            Err(PBXError::Syntax { position: p, expected: PBXSyntaxElement::ObjectOpen })
        }
    }

    /// The line and the column of the character at `position` of `content`,
    /// both counted from 0; a place behind the end counts as the end.
    pub fn line_and_column(content: &str, position: usize) -> (r: (usize, usize))
        ensures
            ({
                let p = if position <= content@.len() {
                    position as int
                } else {
                    content@.len() as int
                };
                r.0 == line_feeds_before(content@, p) && r.1 == p - line_start(content@, p)
            }),
    {
        let s = chars_of(content);
        let end = if position <= s.len() {
            position
        } else {
            s.len()
        };
        let mut line: usize = 0;
        let mut start: usize = 0;
        let mut i: usize = 0;
        while i < end
            invariant
                i <= end <= s.len(),
                line == line_feeds_before(s@, i as int),
                line <= i,
                start == line_start(s@, i as int),
                start <= i,
            decreases end - i,
        {
            i += 1;
            if s[i - 1] == '\n' {
                line += 1;
                start = i;
            }
        }
        (line, end - start)
    }

    /// The key and the value of the one field that the text `content` holds.
    pub fn field(content: &str) -> (r: Result<(String, PBXValue), PBXError>)
        ensures
            match r {
                Ok((key, value)) => parse_field(content@) == Ok::<_, PBXErrorView>((key@, value@)),
                Err(e) => parse_field(content@) == Err::<(Seq<char>, PBXValueView), _>(e@),
            },
    {
        let s = chars_of(content);
        let p = skip(&s, 0);
        let (key, q) = key_at(&s, p)?;
        let q1 = skip(&s, q);
        if q1 < s.len() && s[q1] == '=' {
            let q2 = skip(&s, q1 + 1);
            let (value, q3) = value_at(&s, q2)?;
            let q4 = skip(&s, q3);
            if q4 < s.len() && s[q4] == ';' {
                let end = skip(&s, q4 + 1);
                if end >= s.len() {
                    Ok((key, value))
                } else {
                    Err(PBXError::Syntax { position: end, expected: PBXSyntaxElement::EndOfInput })
                }
            } else {
                Err(PBXError::Syntax { position: q4, expected: PBXSyntaxElement::Semicolon })
            }
        } else {
            Err(PBXError::Syntax { position: q1, expected: PBXSyntaxElement::Equals })
        }
    }
}

} // verus!
