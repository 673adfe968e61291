//! Hints that go with a parse error: notes and help that explain common
//! mistakes found in the source where the error stands.
use vstd::prelude::*;

use crate::chars::{is_whitespace, white_space};
use crate::error::{ExpectKind, IncompleteKind, ParserErrorReason};
use crate::text::{byte_len, lemma_prefix_bounds, location_of, Input};
use crate::token::error::{IncompleteKind as TokenIncompleteKind, TokenErrorKind};
use crate::token::util::{lemma_scan_while, scan_while};

verus! {

/// A hint: a note that explains, or help that proposes a fix.
#[derive(Debug, Clone, PartialEq, Eq)]
pub enum Context {
    /// An explanation.
    Note(String),
    /// A proposed fix.
    Help(String),
}

/// The model of a hint.
pub enum ContextModel {
    /// An explanation.
    Note(Seq<char>),
    /// A proposed fix.
    Help(Seq<char>),
}

/// Where in the source a hint points: a byte offset, and the byte length of
/// the text it points at when that is known.
#[derive(Debug, Clone, Copy, PartialEq, Eq, Structural)]
pub struct ErrorLocation {
    /// The byte offset.
    pub offset: usize,
    /// The byte length of the text pointed at, if known.
    pub length: Option<usize>,
}

/// The model of a hint.
pub open spec fn context_view(c: Context) -> ContextModel {
    match c {
        Context::Note(t) => ContextModel::Note(t@),
        Context::Help(t) => ContextModel::Help(t@),
    }
}

/// The models of hints with their locations.
pub open spec fn hints_view(v: Seq<(Context, Option<ErrorLocation>)>) -> Seq<(ContextModel, Option<ErrorLocation>)> {
    v.map_values(|x: (Context, Option<ErrorLocation>)| (context_view(x.0), x.1))
}

/// The location of a single byte offset.
pub open spec fn at_offset(offset: usize) -> Option<ErrorLocation> {
    Some(ErrorLocation { offset, length: None })
}

/// An ASCII letter or digit.
pub open spec fn is_ascii_alnum(c: char) -> bool {
    ('0' <= c && c <= '9') || ('a' <= c && c <= 'z') || ('A' <= c && c <= 'Z')
}

/// A character that a parameter label may hold.
pub open spec fn is_label_char_ok(c: char) -> bool {
    is_ascii_alnum(c) || c == '_' || c == '-' || c == '\''
}

/// The first position from `a` up to `b` whose character satisfies `f`.
pub open spec fn first_where(s: Seq<char>, a: int, b: int, f: spec_fn(char) -> bool) -> Option<int>
    decreases b - a,
{
    if !(0 <= a < b && b <= s.len()) {
        None
    } else if f(s[a]) {
        Some(a)
    } else {
        first_where(s, a + 1, b, f)
    }
}

/// At `q` stands an identifier (ASCII letters, digits and `_`, starting
/// with a letter or digit), then whitespace, then `=`.
pub open spec fn ident_and_equals_at(s: Seq<char>, q: int) -> bool {
    &&& 0 <= q < s.len()
    &&& is_ascii_alnum(s[q])
    &&& {
        let e = scan_while(s, q + 1, |c: char| c == '_' || is_ascii_alnum(c));
        let w = scan_while(s, e, |c: char| white_space(c));
        w < s.len() && s[w] == '='
    }
}

/// On the line from `q`, when it has a `=` with a `:` before it: the first
/// character before that `:` that a label may not hold.
pub open spec fn label_bad_char(s: Seq<char>, q: int) -> Option<int> {
    let le = match first_where(s, q, s.len() as int, |c: char| c == '\n') {
        Some(i) => i,
        None => s.len() as int,
    };
    match first_where(s, q, le, |c: char| c == '=') {
        None => None,
        Some(eq) => match first_where(s, q, eq, |c: char| c == ':') {
            None => None,
            Some(co) => first_where(s, q, co, |c: char| !is_label_char_ok(c)),
        },
    }
}

/// One hint with its location.
pub open spec fn hint(c: ContextModel, l: Option<ErrorLocation>) -> Seq<(ContextModel, Option<ErrorLocation>)> {
    seq![(c, l)]
}

/// No hint.
pub open spec fn none() -> Seq<(ContextModel, Option<ErrorLocation>)> {
    Seq::empty()
}

/// The hint for an unclosed bracket, parenthesis, note or string: where it was
/// opened.
pub open spec fn unclosed_hints(reason: ParserErrorReason) -> Seq<(ContextModel, Option<ErrorLocation>)> {
    match reason {
        ParserErrorReason::Incomplete { cause, kind: IncompleteKind::UnclosedBracket } => hint(
            ContextModel::Note("unclosed bracket found here"@),
            at_offset(cause.start.offset),
        ),
        ParserErrorReason::Incomplete { cause, kind: IncompleteKind::UnclosedParen } => hint(
            ContextModel::Note("unclosed parenthesis found here"@),
            at_offset(cause.start.offset),
        ),
        ParserErrorReason::TokenError(
            TokenErrorKind::Incomplete(TokenIncompleteKind::UnclosedNote { delimiter_start_offset, delimiter_end_offset }),
        ) => hint(
            ContextModel::Note("unclosed note found here"@),
            Some(
                ErrorLocation {
                    offset: delimiter_start_offset,
                    length: Some(
                        if delimiter_end_offset >= delimiter_start_offset {
                            (delimiter_end_offset - delimiter_start_offset) as usize
                        } else {
                            0
                        },
                    ),
                },
            ),
        ),
        ParserErrorReason::TokenError(
            TokenErrorKind::Incomplete(TokenIncompleteKind::UnclosedString { open_quote_offset }),
        ) => hint(ContextModel::Note("unclosed string found here"@), at_offset(open_quote_offset)),
        _ => none(),
    }
}

/// The hint for an invalid number: where its decimal point or exponent is.
pub open spec fn number_hints(reason: ParserErrorReason) -> Seq<(ContextModel, Option<ErrorLocation>)> {
    match reason {
        ParserErrorReason::TokenError(
            TokenErrorKind::Incomplete(TokenIncompleteKind::InvalidDecimalPart { decimal_point_offset }),
        ) => hint(ContextModel::Note("because of `.` here"@), at_offset(decimal_point_offset)),
        ParserErrorReason::TokenError(
            TokenErrorKind::Incomplete(TokenIncompleteKind::InvalidExponentPart { e_offset }),
        ) => hint(ContextModel::Note("because of `e` here"@), at_offset(e_offset)),
        _ => none(),
    }
}

/// An incomplete construct gets a hint from `unclosed_hints` only when it is
/// an unclosed bracket or parenthesis, pointing at where it opened; every
/// other incomplete construct gets none.
pub proof fn lemma_unclosed_hints(cause: crate::text::Span, kind: IncompleteKind)
    ensures
        unclosed_hints(ParserErrorReason::Incomplete { cause, kind }) == if kind == IncompleteKind::UnclosedBracket {
            seq![(ContextModel::Note("unclosed bracket found here"@), at_offset(cause.start.offset))]
        } else if kind == IncompleteKind::UnclosedParen {
            seq![(ContextModel::Note("unclosed parenthesis found here"@), at_offset(cause.start.offset))]
        } else {
            Seq::empty()
        },
{
}

/// The hints for an error with `reason` at position `q` of `s`, in order:
/// a misplaced note, a parameter without a label, a label with a character
/// it may not hold, a string in double quotes, a decimal starting with `.`,
/// an unclosed bracket, parenthesis, note or string, and an invalid number.
pub open spec fn hints_spec(s: Seq<char>, q: int, reason: ParserErrorReason) -> Seq<(ContextModel, Option<ErrorLocation>)> {
    let expect_decl = reason == ParserErrorReason::Expect(ExpectKind::Decl);
    let h1 = if expect_decl && 0 <= q < s.len() && s[q] == '~' {
        hint(ContextModel::Note("notes are only allowed at the beginning of model files and sections and after parameters and tests"@), None)
    } else {
        none()
    };
    let h2 = if expect_decl && ident_and_equals_at(s, q) {
        hint(ContextModel::Note("parameters must have a label"@), None)
    } else {
        none()
    };
    let h3 = if expect_decl {
        match label_bad_char(s, q) {
            Some(i) => hint(
                ContextModel::Note("parameter labels must only contain the following characters: `a-z`, `A-Z`, `0-9`, `_`, `-`, `'`"@),
                None,
            ) + hint(ContextModel::Note("invalid character found here"@), at_offset(location_of(s, i).offset)),
            None => none(),
        }
    } else {
        none()
    };
    let h4 = if 0 <= q < s.len() && s[q] == '"' {
        hint(ContextModel::Note("string literals in Oneil use single quotes (`'`)"@), None) + hint(
            ContextModel::Help("use single quotes (`'`) instead of double quotes (`\"`)"@),
            None,
        )
    } else {
        none()
    };
    let h5 = if 0 <= q && q + 1 < s.len() && s[q] == '.' && '0' <= s[q + 1] && s[q + 1] <= '9' {
        hint(ContextModel::Note("decimal literals are not allowed to start with a `.`"@), None) + hint(
            ContextModel::Help("add a leading `0`"@),
            None,
        )
    } else {
        none()
    };
    let h6 = unclosed_hints(reason);
    let h7 = number_hints(reason);
    h1 + h2 + h3 + h4 + h5 + h6 + h7
}

/// The position of `s` whose byte offset is `offset`.
pub open spec fn index_of_offset(s: Seq<char>, offset: usize) -> int {
    choose|i: int| 0 <= i <= s.len() && location_of(s, i).offset == offset
}

/// Later positions have larger byte offsets.
proof fn lemma_offsets_increase(s: Seq<char>, i: int, j: int)
    requires
        0 <= i < j <= s.len(),
    ensures
        byte_len(s.take(i)) < byte_len(s.take(j)),
    decreases j - i,
{
    assert(s.take(j).drop_last() =~= s.take(j - 1));
    if i < j - 1 {
        lemma_offsets_increase(s, i, j - 1);
    }
}

/// Adds a hint at the end of `v`.
fn push_hint(v: &mut Vec<(Context, Option<ErrorLocation>)>, c: Context, l: Option<ErrorLocation>)
    ensures
        hints_view(final(v)@) == hints_view(old(v)@).push((context_view(c), l)),
{
    let ghost before = v@;
    v.push((c, l));
    proof {
        assert(hints_view(v@) =~= hints_view(before).push((context_view(c), l)));
    }
}

/// Adds the hints `w` at the end of `v`.
fn push_hints(v: &mut Vec<(Context, Option<ErrorLocation>)>, w: Vec<(Context, Option<ErrorLocation>)>)
    ensures
        hints_view(final(v)@) == hints_view(old(v)@) + hints_view(w@),
{
    let ghost before = v@;
    let mut w = w;
    let ghost wv = w@;
    v.append(&mut w);
    proof {
        assert(hints_view(v@) =~= hints_view(before) + hints_view(wv));
    }
}

/// An ASCII letter or digit.
fn ascii_alnum(c: char) -> (r: bool)
    ensures
        r == is_ascii_alnum(c),
{
    ('0' <= c && c <= '9') || ('a' <= c && c <= 'z') || ('A' <= c && c <= 'Z')
}

/// The first position from `a` up to `b` that holds `c`.
fn find_char(inp: &Input, a: usize, b: usize, c: char) -> (r: Option<usize>)
    requires
        inp.wf(),
        a <= b <= inp.text().len(),
    ensures
        match r {
            Some(i) => first_where(inp.text(), a as int, b as int, |x: char| x == c) == Some(i as int),
            None => first_where(inp.text(), a as int, b as int, |x: char| x == c) is None,
        },
    decreases b - a,
{
    if a >= b {
        None
    } else if inp.char_at(a) == c {
        Some(a)
    } else {
        find_char(inp, a + 1, b, c)
    }
}

/// The first position from `a` up to `b` that holds a character a label
/// may not hold.
fn find_bad_label_char(inp: &Input, a: usize, b: usize) -> (r: Option<usize>)
    requires
        inp.wf(),
        a <= b <= inp.text().len(),
    ensures
        match r {
            Some(i) => first_where(inp.text(), a as int, b as int, |x: char| !is_label_char_ok(x)) == Some(
                i as int,
            ),
            None => first_where(inp.text(), a as int, b as int, |x: char| !is_label_char_ok(x)) is None,
        },
    decreases b - a,
{
    if a >= b {
        None
    } else {
        let x = inp.char_at(a);
        if !(ascii_alnum(x) || x == '_' || x == '-' || x == '\'') {
            Some(a)
        } else {
            find_bad_label_char(inp, a + 1, b)
        }
    }
}

/// Whether an identifier, whitespace and `=` stand at `q`.
pub fn ident_and_equals(inp: &Input, q: usize) -> (r: bool)
    requires
        inp.wf(),
        q <= inp.text().len(),
    ensures
        r == ident_and_equals_at(inp.text(), q as int),
{
    let ghost s = inp.text();
    let n = inp.len();
    if q >= n || !ascii_alnum(inp.char_at(q)) {
        return false;
    }
    let mut e = q + 1;
    proof {
        lemma_scan_while(s, q + 1, |c: char| c == '_' || is_ascii_alnum(c));
    }
    while e < n && (inp.char_at(e) == '_' || ascii_alnum(inp.char_at(e)))
        invariant
            inp.wf(),
            s == inp.text(),
            n == s.len(),
            q < e <= n,
            scan_while(s, e as int, |c: char| c == '_' || is_ascii_alnum(c)) == scan_while(
                s,
                q + 1,
                |c: char| c == '_' || is_ascii_alnum(c),
            ),
        decreases n - e,
    {
        e = e + 1;
    }
    let mut w = e;
    proof {
        lemma_scan_while(s, e as int, |c: char| white_space(c));
    }
    while w < n && is_whitespace(inp.char_at(w))
        invariant
            inp.wf(),
            s == inp.text(),
            n == s.len(),
            e <= w <= n,
            scan_while(s, w as int, |c: char| white_space(c)) == scan_while(
                s,
                e as int,
                |c: char| white_space(c),
            ),
        decreases n - w,
    {
        w = w + 1;
    }
    w < n && inp.char_at(w) == '='
}

/// The first character of a parameter label on the line at `q` that a label
/// may not hold.
fn label_bad_char_at(inp: &Input, q: usize) -> (r: Option<usize>)
    requires
        inp.wf(),
        q <= inp.text().len(),
    ensures
        match r {
            Some(i) => label_bad_char(inp.text(), q as int) == Some(i as int) && i < inp.text().len(),
            None => label_bad_char(inp.text(), q as int) is None,
        },
{
    let n = inp.len();
    let le = match find_char(inp, q, n, '\n') {
        Some(i) => i,
        None => n,
    };
    proof {
        lemma_first_where_bounds(inp.text(), q as int, n as int, |c: char| c == '\n');
    }
    match find_char(inp, q, le, '=') {
        None => None,
        Some(eq) => {
            proof {
                lemma_first_where_bounds(inp.text(), q as int, le as int, |c: char| c == '=');
            }
            match find_char(inp, q, eq, ':') {
                None => None,
                Some(co) => {
                    proof {
                        lemma_first_where_bounds(inp.text(), q as int, eq as int, |c: char| c == ':');
                        lemma_first_where_bounds(inp.text(), q as int, co as int, |c: char| !is_label_char_ok(c));
                    }
                    find_bad_label_char(inp, q, co)
                },
            }
        },
    }
}

/// A position found by `first_where` lies in its range.
proof fn lemma_first_where_bounds(s: Seq<char>, a: int, b: int, f: spec_fn(char) -> bool)
    ensures
        first_where(s, a, b, f) matches Some(i) ==> a <= i < b && b <= s.len(),
    decreases b - a,
{
    if 0 <= a < b && b <= s.len() && !f(s[a]) {
        lemma_first_where_bounds(s, a + 1, b, f);
    }
}

/// The position of the input whose byte offset is `offset`.
fn index_of(inp: &Input, offset: usize) -> (r: usize)
    requires
        inp.wf(),
        exists|i: int| 0 <= i <= inp.text().len() && location_of(inp.text(), i).offset == offset,
    ensures
        r == index_of_offset(inp.text(), offset),
        r <= inp.text().len(),
{
    let ghost s = inp.text();
    let ghost k = index_of_offset(s, offset);
    let n = inp.len();
    let mut i: usize = 0;
    while i < n && inp.location(i).offset != offset
        invariant
            inp.wf(),
            s == inp.text(),
            n == s.len(),
            i <= n,
            0 <= k <= n,
            location_of(s, k).offset == offset,
            forall|j: int| 0 <= j < i ==> location_of(s, j).offset != offset,
        decreases n - i,
    {
        i = i + 1;
    }
    proof {
        assert(location_of(s, i as int).offset == offset) by {
            if i == n && location_of(s, i as int).offset != offset {
                assert(k < n);
                assert(location_of(s, k).offset != offset);
            }
        }
        if (i as int) < k {
            lemma_offsets_increase(s, i as int, k);
            inp.lemma_fits();
            lemma_prefix_bounds(s, k);
        } else if k < i as int {
            assert(location_of(s, k).offset != offset);
        }
    }
    i
}

/// The hints for the parse error with `reason` at the byte offset `offset`
/// of the input.
pub fn from_source(inp: &Input, offset: usize, reason: ParserErrorReason) -> (r: Vec<(Context, Option<ErrorLocation>)>)
    requires
        inp.wf(),
        exists|i: int| 0 <= i <= inp.text().len() && location_of(inp.text(), i).offset == offset,
    ensures
        hints_view(r@) == hints_spec(inp.text(), index_of_offset(inp.text(), offset), reason),
{
    let ghost s = inp.text();
    let q = index_of(inp, offset);
    let n = inp.len();
    let expect_decl = reason == ParserErrorReason::Expect(ExpectKind::Decl);
    let mut v: Vec<(Context, Option<ErrorLocation>)> = Vec::new();
    proof {
        assert(hints_view(v@) =~= none());
    }
    if expect_decl && q < n && inp.char_at(q) == '~' {
        push_hint(
            &mut v,
            Context::Note(
                String::from_str(
                    "notes are only allowed at the beginning of model files and sections and after parameters and tests",
                ),
            ),
            None,
        );
    }
    let ghost v1 = hints_view(v@);
    if expect_decl && ident_and_equals(inp, q) {
        push_hint(&mut v, Context::Note(String::from_str("parameters must have a label")), None);
    }
    let ghost v2 = hints_view(v@);
    if expect_decl {
        match label_bad_char_at(inp, q) {
            Some(i) => {
                push_hint(
                    &mut v,
                    Context::Note(
                        String::from_str(
                            "parameter labels must only contain the following characters: `a-z`, `A-Z`, `0-9`, `_`, `-`, `'`",
                        ),
                    ),
                    None,
                );
                let loc = inp.location(i);
                push_hint(
                    &mut v,
                    Context::Note(String::from_str("invalid character found here")),
                    Some(ErrorLocation { offset: loc.offset, length: None }),
                );
            },
            None => {},
        }
    }
    let ghost v3 = hints_view(v@);
    if q < n && inp.char_at(q) == '"' {
        push_hint(&mut v, Context::Note(String::from_str("string literals in Oneil use single quotes (`'`)")), None);
        push_hint(
            &mut v,
            Context::Help(String::from_str("use single quotes (`'`) instead of double quotes (`\"`)")),
            None,
        );
    }
    let ghost v4 = hints_view(v@);
    if q < n && q + 1 < n && inp.char_at(q) == '.' && '0' <= inp.char_at(q + 1) && inp.char_at(q + 1) <= '9' {
        push_hint(
            &mut v,
            Context::Note(String::from_str("decimal literals are not allowed to start with a `.`")),
            None,
        );
        push_hint(&mut v, Context::Help(String::from_str("add a leading `0`")), None);
    }
    let ghost v5 = hints_view(v@);
    match reason {
        ParserErrorReason::Incomplete { cause, kind: IncompleteKind::UnclosedBracket } => {
            push_hint(
                &mut v,
                Context::Note(String::from_str("unclosed bracket found here")),
                Some(ErrorLocation { offset: cause.start.offset, length: None }),
            );
        },
        ParserErrorReason::Incomplete { cause, kind: IncompleteKind::UnclosedParen } => {
            push_hint(
                &mut v,
                Context::Note(String::from_str("unclosed parenthesis found here")),
                Some(ErrorLocation { offset: cause.start.offset, length: None }),
            );
        },
        ParserErrorReason::TokenError(
            TokenErrorKind::Incomplete(TokenIncompleteKind::UnclosedNote { delimiter_start_offset, delimiter_end_offset }),
        ) => {
            push_hint(
                &mut v,
                Context::Note(String::from_str("unclosed note found here")),
                Some(
                    ErrorLocation {
                        offset: delimiter_start_offset,
                        length: Some(
                            if delimiter_end_offset >= delimiter_start_offset {
                                delimiter_end_offset - delimiter_start_offset
                            } else {
                                0
                            },
                        ),
                    },
                ),
            );
        },
        ParserErrorReason::TokenError(
            TokenErrorKind::Incomplete(TokenIncompleteKind::UnclosedString { open_quote_offset }),
        ) => {
            push_hint(
                &mut v,
                Context::Note(String::from_str("unclosed string found here")),
                Some(ErrorLocation { offset: open_quote_offset, length: None }),
            );
        },
        _ => {},
    }
    let ghost v6 = hints_view(v@);
    match reason {
        ParserErrorReason::TokenError(
            TokenErrorKind::Incomplete(TokenIncompleteKind::InvalidDecimalPart { decimal_point_offset }),
        ) => {
            push_hint(
                &mut v,
                Context::Note(String::from_str("because of `.` here")),
                Some(ErrorLocation { offset: decimal_point_offset, length: None }),
            );
        },
        ParserErrorReason::TokenError(
            TokenErrorKind::Incomplete(TokenIncompleteKind::InvalidExponentPart { e_offset }),
        ) => {
            push_hint(
                &mut v,
                Context::Note(String::from_str("because of `e` here")),
                Some(ErrorLocation { offset: e_offset, length: None }),
            );
        },
        _ => {},
    }
    proof {
        let sp = hints_spec(s, q as int, reason);
        assert(hints_view(v@) =~= sp);
    }
    v
}

} // verus!
