//! Tokens and the whitespace that follows them.
use vstd::prelude::*;

use crate::outcome::{Fault, PResult};
use crate::text::{span_of, Input, Span};
use crate::token::error::TokenError;

verus! {

/// A token: a lexeme of the source and the inline whitespace after it.
#[derive(Debug, Clone, PartialEq, Eq)]
pub struct Token {
    /// The text of the lexeme.
    pub lexeme_str: String,
    /// Where the lexeme stands.
    pub lexeme_span: Span,
    /// Where the whitespace after the lexeme stands.
    pub whitespace_span: Span,
}

impl Token {
    /// The text of the lexeme.
    pub fn lexeme(&self) -> (r: &str)
        ensures
            r@ == self.lexeme_str@,
    {
        self.lexeme_str.as_str()
    }
}

/// Spaces and tabs are inline whitespace.
pub open spec fn is_inline_ws(c: char) -> bool {
    c == ' ' || c == '\t'
}

/// The position after the inline whitespace that starts at `p`.
pub open spec fn skip_ws(s: Seq<char>, p: int) -> int
    decreases s.len() - p,
{
    if 0 <= p < s.len() && is_inline_ws(s[p]) {
        skip_ws(s, p + 1)
    } else {
        p
    }
}

/// `t` is the token whose lexeme runs from `start` to `lex_end` in `s`, and
/// `next` is the position after the whitespace that follows it.
pub open spec fn token_is(s: Seq<char>, start: int, lex_end: int, t: Token, next: int) -> bool {
    &&& t.lexeme_str@ == s.subrange(start, lex_end)
    &&& t.lexeme_span == span_of(s, start, lex_end)
    &&& next == skip_ws(s, lex_end)
    &&& t.whitespace_span == span_of(s, lex_end, next)
}

/// The result `r` of a token parser agrees with `lex`, the end of the lexeme
/// that the parser recognises at `start`, or the fault it stops with.
pub open spec fn token_outcome(
    s: Seq<char>,
    start: int,
    lex: Result<int, Fault<TokenError>>,
    r: PResult<Token, TokenError>,
) -> bool {
    match lex {
        Ok(e) => r matches Ok((q, t)) && token_is(s, start, e, t, q as int),
        Err(f) => r == Err::<(usize, Token), Fault<TokenError>>(f),
    }
}

/// Every token is its lexeme, the text from where it starts to where its
/// lexeme ends, followed by the longest run of spaces and tabs after it; the
/// parser goes on right after that run.
pub proof fn lemma_token_shape(s: Seq<char>, start: int, lex_end: int, t: Token, next: int)
    requires
        0 <= start <= lex_end <= s.len(),
        token_is(s, start, lex_end, t, next),
    ensures
        t.lexeme_str@ == s.subrange(start, lex_end),
        lex_end <= next <= s.len(),
        forall|i: int| lex_end <= i < next ==> is_inline_ws(#[trigger] s[i]),
        next == s.len() || !is_inline_ws(s[next]),
        t.lexeme_span == span_of(s, start, lex_end),
        t.whitespace_span == span_of(s, lex_end, next),
{
    lemma_skip_ws_bounds(s, lex_end);
}

/// Inline whitespace never runs past the end of the text.
pub proof fn lemma_skip_ws_bounds(s: Seq<char>, p: int)
    requires
        0 <= p <= s.len(),
    ensures
        p <= skip_ws(s, p) <= s.len(),
        forall|i: int| p <= i < skip_ws(s, p) ==> is_inline_ws(#[trigger] s[i]),
        skip_ws(s, p) < s.len() ==> !is_inline_ws(s[skip_ws(s, p)]),
    decreases s.len() - p,
{
    if p < s.len() && is_inline_ws(s[p]) {
        lemma_skip_ws_bounds(s, p + 1);
    }
}

/// Finds the end of the inline whitespace that starts at `pos`.
pub fn skip_inline_ws(inp: &Input, pos: usize) -> (r: usize)
    requires
        inp.wf(),
        pos <= inp.text().len(),
    ensures
        r == skip_ws(inp.text(), pos as int),
        pos <= r <= inp.text().len(),
{
    let n = inp.len();
    let mut q = pos;
    proof {
        lemma_skip_ws_bounds(inp.text(), pos as int);
    }
    while q < n && (inp.char_at(q) == ' ' || inp.char_at(q) == '\t')
        invariant
            inp.wf(),
            n == inp.text().len(),
            pos <= q <= n,
            skip_ws(inp.text(), q as int) == skip_ws(inp.text(), pos as int),
        decreases n - q,
    {
        q = q + 1;
    }
    q
}

/// Parses inline whitespace (spaces and tabs); always succeeds and returns
/// the span of the whitespace.
pub fn inline_whitespace(inp: &Input, pos: usize) -> (r: PResult<Span, TokenError>)
    requires
        inp.wf(),
        pos <= inp.text().len(),
    ensures
        r matches Ok((q, sp)) && q == skip_ws(inp.text(), pos as int) && sp == span_of(
            inp.text(),
            pos as int,
            q as int,
        ),
{
    let q = skip_inline_ws(inp, pos);
    Ok((q, inp.span(pos, q)))
}

/// Builds the token whose lexeme runs from `start` to `lex_end`, with the
/// inline whitespace that follows it.
pub fn make_token(inp: &Input, start: usize, lex_end: usize) -> (r: (usize, Token))
    requires
        inp.wf(),
        start <= lex_end <= inp.text().len(),
    ensures
        token_is(inp.text(), start as int, lex_end as int, r.1, r.0 as int),
        lex_end <= r.0 <= inp.text().len(),
{
    let q = skip_inline_ws(inp, lex_end);
    let t = Token {
        lexeme_str: inp.substring(start, lex_end),
        lexeme_span: inp.span(start, lex_end),
        whitespace_span: inp.span(lex_end, q),
    };
    (q, t)
}

} // verus!

verus! {

/// The position after the longest run, starting at `p`, of characters that
/// satisfy `f`.
pub open spec fn scan_while(s: Seq<char>, p: int, f: spec_fn(char) -> bool) -> int
    decreases s.len() - p,
{
    if 0 <= p < s.len() && f(s[p]) {
        scan_while(s, p + 1, f)
    } else {
        p
    }
}

/// A run found by `scan_while` stays inside the text, all its characters
/// satisfy `f`, and the character after it does not.
pub proof fn lemma_scan_while(s: Seq<char>, p: int, f: spec_fn(char) -> bool)
    requires
        0 <= p <= s.len(),
    ensures
        p <= scan_while(s, p, f) <= s.len(),
        forall|i: int| p <= i < scan_while(s, p, f) ==> f(#[trigger] s[i]),
        scan_while(s, p, f) < s.len() ==> !f(s[scan_while(s, p, f)]),
    decreases s.len() - p,
{
    if p < s.len() && f(s[p]) {
        lemma_scan_while(s, p + 1, f);
    }
}

} // verus!
