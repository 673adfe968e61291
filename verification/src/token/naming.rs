//! Parsers for identifiers and labels in the Oneil language.
//!
//! Identifiers follow the usual rules of programming languages, while labels
//! are more permissive, so that they can hold descriptive names.
use vstd::prelude::*;

use crate::chars::{ident_char, ident_start, is_ident_char, is_ident_start};
use crate::outcome::{Fault, PResult};
use crate::text::{location_of, Input};
use crate::token::error::{
    error_at, ExpectKind, IncompleteKind, NomErrorKind, TokenError, TokenErrorKind,
};
use crate::token::keyword::{is_reserved, is_reserved_word};
use crate::token::util::{
    is_inline_ws, lemma_scan_while, lemma_skip_ws_bounds, make_token, scan_while, skip_ws, token_is,
    token_outcome, Token,
};

verus! {

/// The end of the identifier that starts at `p`: an alphabetic character or
/// `_`, then alphanumeric characters or `_`, and not a reserved word.
pub open spec fn lex_identifier_span(s: Seq<char>, p: int) -> Option<int> {
    if 0 <= p < s.len() && is_ident_start(s[p]) {
        let e = scan_while(s, p + 1, |c: char| is_ident_char(c));
        if is_reserved(s.subrange(p, e)) {
            None
        } else {
            Some(e)
        }
    } else {
        None
    }
}

/// The end of the identifier lexeme at `p`, or the error of `identifier`.
pub open spec fn lex_identifier(s: Seq<char>, p: int) -> Result<int, Fault<TokenError>> {
    match lex_identifier_span(s, p) {
        Some(e) => Ok(e),
        None => Err(Fault::Error(error_at(s, p, TokenErrorKind::Expect(ExpectKind::Identifier)))),
    }
}

/// Finds the end of the identifier that starts at `pos`, if there is one.
pub fn identifier_span(inp: &Input, pos: usize) -> (r: Option<usize>)
    requires
        inp.wf(),
        pos <= inp.text().len(),
    ensures
        r matches Some(e) ==> lex_identifier_span(inp.text(), pos as int) == Some(e as int)
            && pos < e <= inp.text().len(),
        r is None ==> lex_identifier_span(inp.text(), pos as int) is None,
{
    let ghost s = inp.text();
    let n = inp.len();
    if pos >= n || !ident_start(inp.char_at(pos)) {
        return None;
    }
    let mut e = pos + 1;
    proof {
        lemma_scan_while(s, pos + 1, |c: char| is_ident_char(c));
    }
    while e < n && ident_char(inp.char_at(e))
        invariant
            inp.wf(),
            s == inp.text(),
            n == s.len(),
            pos < e <= n,
            scan_while(s, e as int, |c: char| is_ident_char(c)) == scan_while(
                s,
                pos + 1,
                |c: char| is_ident_char(c),
            ),
        decreases n - e,
    {
        e = e + 1;
    }
    if is_reserved_word(inp, pos, e) {
        None
    } else {
        Some(e)
    }
}

/// An identifier is a maximal run of identifier characters: it starts with
/// a letter or `_`, holds only letters, digits and `_`, is not followed by
/// another such character, and is never a reserved word.
pub proof fn lemma_identifier_shape(s: Seq<char>, p: int)
    ensures
        lex_identifier(s, p) matches Ok(e) ==> {
            &&& 0 <= p < e <= s.len()
            &&& is_ident_start(s[p])
            &&& forall|i: int| p < i < e ==> is_ident_char(#[trigger] s[i])
            &&& (e == s.len() || !is_ident_char(s[e]))
            &&& !is_reserved(s.subrange(p, e))
        },
{
    if 0 <= p < s.len() && is_ident_start(s[p]) {
        lemma_scan_while(s, p + 1, |c: char| is_ident_char(c));
    }
}

/// Parses an identifier (alphabetic or underscore, then alphanumeric or
/// underscore), which must not be a reserved word.
pub fn identifier(inp: &Input, pos: usize) -> (r: PResult<Token, TokenError>)
    requires
        inp.wf(),
        pos <= inp.text().len(),
    ensures
        token_outcome(inp.text(), pos as int, lex_identifier(inp.text(), pos as int), r),
        r matches Ok((q, _)) ==> pos < q <= inp.text().len(),
{
    match identifier_span(inp, pos) {
        Some(e) => Ok(make_token(inp, pos, e)),
        None => Err(
            Fault::Error(
                TokenError {
                    kind: TokenErrorKind::Expect(ExpectKind::Identifier),
                    offset: inp.location(pos).offset,
                },
            ),
        ),
    }
}

/// The end of the unit identifier lexeme at `p`: an identifier optionally
/// followed by `$` or `%`, or a lone `$` or `%`.
pub open spec fn lex_unit_identifier(s: Seq<char>, p: int) -> Result<int, Fault<TokenError>> {
    match lex_identifier_span(s, p) {
        Some(e) => if e < s.len() && (s[e] == '$' || s[e] == '%') {
            Ok(e + 1)
        } else {
            Ok(e)
        },
        None => if 0 <= p < s.len() && (s[p] == '$' || s[p] == '%') {
            Ok(p + 1)
        } else {
            Err(Fault::Error(error_at(s, p, TokenErrorKind::Expect(ExpectKind::UnitIdentifier))))
        },
    }
}

/// Parses a unit identifier: an identifier optionally terminated by `$` or
/// `%`, or a lone `$` or `%`.
pub fn unit_identifier(inp: &Input, pos: usize) -> (r: PResult<Token, TokenError>)
    requires
        inp.wf(),
        pos <= inp.text().len(),
    ensures
        token_outcome(inp.text(), pos as int, lex_unit_identifier(inp.text(), pos as int), r),
        r matches Ok((q, _)) ==> pos < q <= inp.text().len(),
{
    let n = inp.len();
    match identifier_span(inp, pos) {
        Some(e) => {
            if e < n && (inp.char_at(e) == '$' || inp.char_at(e) == '%') {
                Ok(make_token(inp, pos, e + 1))
            } else {
                Ok(make_token(inp, pos, e))
            }
        },
        None => {
            if pos < n && (inp.char_at(pos) == '$' || inp.char_at(pos) == '%') {
                Ok(make_token(inp, pos, pos + 1))
            } else {
                Err(
                    Fault::Error(
                        TokenError {
                            kind: TokenErrorKind::Expect(ExpectKind::UnitIdentifier),
                            offset: inp.location(pos).offset,
                        },
                    ),
                )
            }
        },
    }
}

/// Characters that may start a label: not a bracket, `:`, `=`, blank, line
/// break, `*`, `$` or `-`.
pub open spec fn is_label_start(c: char) -> bool {
    !(c == '(' || c == ')' || c == '[' || c == ']' || c == ':' || c == '=' || c == ' ' || c
        == '\t' || c == '\n' || c == '*' || c == '$' || c == '-')
}

/// Characters of the words of a label.
pub open spec fn is_label_word_char(c: char) -> bool {
    !(c == '(' || c == ')' || c == '[' || c == ']' || c == ':' || c == '=' || c == ' ' || c
        == '\t' || c == '\n')
}

/// The end of the words of a label from `q` on: each word may be preceded by
/// spaces and tabs, and whitespace after the last word is not part of the
/// label.
pub open spec fn label_words_end(s: Seq<char>, q: int) -> int
    decreases s.len() - q,
{
    let r = crate::token::util::skip_ws(s, q);
    if 0 <= q && q <= r < s.len() && is_label_word_char(s[r]) {
        proof {
            lemma_scan_while(s, r + 1, |c: char| is_label_word_char(c));
        }
        label_words_end(s, scan_while(s, r + 1, |c: char| is_label_word_char(c)))
    } else {
        q
    }
}

/// The end of the label lexeme at `p`, or the error of `label`.
pub open spec fn lex_label(s: Seq<char>, p: int) -> Result<int, Fault<TokenError>> {
    if 0 <= p < s.len() && is_label_start(s[p]) {
        let e = label_words_end(s, p + 1);
        if is_reserved(s.subrange(p, e)) {
            Err(Fault::Error(error_at(s, p, TokenErrorKind::NomError(NomErrorKind::Verify))))
        } else {
            Ok(e)
        }
    } else {
        Err(Fault::Error(error_at(s, p, TokenErrorKind::Expect(ExpectKind::Label))))
    }
}

/// The words of a label hold only word characters and inline whitespace,
/// and end with a word character.
proof fn lemma_label_words(s: Seq<char>, q: int)
    requires
        0 <= q <= s.len(),
    ensures
        q <= label_words_end(s, q) <= s.len(),
        forall|i: int|
            q <= i < label_words_end(s, q) ==> is_label_word_char(#[trigger] s[i]) || is_inline_ws(s[i]),
        label_words_end(s, q) > q ==> is_label_word_char(s[label_words_end(s, q) - 1]),
    decreases s.len() - q,
{
    let r = skip_ws(s, q);
    lemma_skip_ws_bounds(s, q);
    if q <= r < s.len() && is_label_word_char(s[r]) {
        lemma_scan_while(s, r + 1, |c: char| is_label_word_char(c));
        let m = scan_while(s, r + 1, |c: char| is_label_word_char(c));
        lemma_label_words(s, m);
        if label_words_end(s, m) == m {
            assert(is_label_word_char(s[m - 1]));
        }
    }
}

/// A label starts with a character that may start it, holds no bracket,
/// colon, `=` or line break, does not end with whitespace, and is never a
/// reserved word.
pub proof fn lemma_label_shape(s: Seq<char>, p: int)
    ensures
        lex_label(s, p) matches Ok(e) ==> {
            &&& 0 <= p < e <= s.len()
            &&& is_label_start(s[p])
            &&& forall|i: int| p <= i < e ==> is_label_word_char(#[trigger] s[i]) || is_inline_ws(s[i])
            &&& is_label_word_char(s[e - 1])
            &&& !is_reserved(s.subrange(p, e))
        },
{
    if 0 <= p < s.len() && is_label_start(s[p]) {
        lemma_label_words(s, p + 1);
    }
}

fn label_start(c: char) -> (r: bool)
    ensures
        r == is_label_start(c),
{
    !(c == '(' || c == ')' || c == '[' || c == ']' || c == ':' || c == '=' || c == ' ' || c
        == '\t' || c == '\n' || c == '*' || c == '$' || c == '-')
}

fn label_word_char(c: char) -> (r: bool)
    ensures
        r == is_label_word_char(c),
{
    !(c == '(' || c == ')' || c == '[' || c == ']' || c == ':' || c == '=' || c == ' ' || c
        == '\t' || c == '\n')
}

proof fn lemma_label_words_end(s: Seq<char>, q: int)
    requires
        0 <= q <= s.len(),
    ensures
        q <= label_words_end(s, q) <= s.len(),
    decreases s.len() - q,
{
    let r = crate::token::util::skip_ws(s, q);
    crate::token::util::lemma_skip_ws_bounds(s, q);
    if r < s.len() && is_label_word_char(s[r]) {
        lemma_scan_while(s, r + 1, |c: char| is_label_word_char(c));
        lemma_label_words_end(s, scan_while(s, r + 1, |c: char| is_label_word_char(c)));
    }
}

/// Parses a label: a sequence of word parts separated by spaces and tabs,
/// which must not be a reserved word.
///
/// A label may not start with any of `( ) [ ] : =`, space, tab, line feed,
/// `*` or `$`; its words may not hold any of `( ) [ ] : =`, space, tab or
/// line feed.
pub fn label(inp: &Input, pos: usize) -> (r: PResult<Token, TokenError>)
    requires
        inp.wf(),
        pos <= inp.text().len(),
    ensures
        token_outcome(inp.text(), pos as int, lex_label(inp.text(), pos as int), r),
        r matches Ok((q, _)) ==> pos < q <= inp.text().len(),
{
    let ghost s = inp.text();
    let n = inp.len();
    if pos >= n || !label_start(inp.char_at(pos)) {
        return Err(
            Fault::Error(
                TokenError {
                    kind: TokenErrorKind::Expect(ExpectKind::Label),
                    offset: inp.location(pos).offset,
                },
            ),
        );
    }
    let mut q = pos + 1;
    proof {
        lemma_label_words_end(s, q as int);
    }
    loop
        invariant
            inp.wf(),
            s == inp.text(),
            n == s.len(),
            pos < q <= n,
            label_words_end(s, q as int) == label_words_end(s, pos + 1),
        ensures
            pos < q <= n,
            q == label_words_end(s, pos + 1),
        decreases n - q,
    {
        let r = crate::token::util::skip_inline_ws(inp, q);
        proof {
            crate::token::util::lemma_skip_ws_bounds(s, q as int);
        }
        if r < n && label_word_char(inp.char_at(r)) {
            let mut w = r + 1;
            proof {
                lemma_scan_while(s, r + 1, |c: char| is_label_word_char(c));
            }
            while w < n && label_word_char(inp.char_at(w))
                invariant
                    inp.wf(),
                    s == inp.text(),
                    n == s.len(),
                    r < w <= n,
                    scan_while(s, w as int, |c: char| is_label_word_char(c)) == scan_while(
                        s,
                        r + 1,
                        |c: char| is_label_word_char(c),
                    ),
                decreases n - w,
            {
                w = w + 1;
            }
            q = w;
        } else {
            assert(label_words_end(s, q as int) == q as int);
            break;
        }
    }
    if is_reserved_word(inp, pos, q) {
        return Err(
            Fault::Error(
                TokenError {
                    kind: TokenErrorKind::NomError(NomErrorKind::Verify),
                    offset: inp.location(pos).offset,
                },
            ),
        );
    }
    Ok(make_token(inp, pos, q))
}

/// Scans a render name from `q`, inside `depth` open braces: whether its
/// braces close before a line feed or the end of the text, and the position
/// after the closing brace, or where the scan stopped.
pub open spec fn render_scan(s: Seq<char>, q: int, depth: nat) -> (bool, int)
    decreases s.len() - q,
{
    if q < 0 || q >= s.len() || s[q] == '\n' {
        (false, q)
    } else if s[q] == '}' {
        if depth <= 1 {
            (true, q + 1)
        } else {
            render_scan(s, q + 1, (depth - 1) as nat)
        }
    } else if s[q] == '{' {
        render_scan(s, q + 1, depth + 1)
    } else {
        render_scan(s, q + 1, depth)
    }
}

/// The end of the render name lexeme at `p`: a `{`, then text with
/// balanced braces on one line, up to the `}` that closes the first one.
pub open spec fn lex_render_name(s: Seq<char>, p: int) -> Result<int, Fault<TokenError>> {
    if !(0 <= p < s.len() && s[p] == '{') {
        Err(Fault::Error(error_at(s, p, TokenErrorKind::Expect(ExpectKind::RenderName))))
    } else {
        let (closed, e) = render_scan(s, p + 1, 1);
        if closed {
            Ok(e)
        } else {
            Err(
                Fault::Failure(
                    error_at(
                        s,
                        e,
                        TokenErrorKind::Incomplete(
                            IncompleteKind::UnclosedRenderName {
                                open_brace_offset: location_of(s, p).offset,
                            },
                        ),
                    ),
                ),
            )
        }
    }
}

proof fn lemma_render_scan(s: Seq<char>, q: int, depth: nat)
    requires
        0 <= q <= s.len(),
    ensures
        q <= render_scan(s, q, depth).1 <= s.len(),
        render_scan(s, q, depth).0 ==> q < render_scan(s, q, depth).1,
    decreases s.len() - q,
{
    if q < s.len() && s[q] != '\n' {
        if s[q] == '}' {
            if depth > 1 {
                lemma_render_scan(s, q + 1, (depth - 1) as nat);
            }
        } else if s[q] == '{' {
            lemma_render_scan(s, q + 1, depth + 1);
        } else {
            lemma_render_scan(s, q + 1, depth);
        }
    }
}

/// Parses a render name: `{`, then text with balanced braces on one line,
/// up to the `}` that closes the first `{`.
pub fn render_name(inp: &Input, pos: usize) -> (r: PResult<Token, TokenError>)
    requires
        inp.wf(),
        pos <= inp.text().len(),
    ensures
        token_outcome(inp.text(), pos as int, lex_render_name(inp.text(), pos as int), r),
        r matches Ok((q, t)) ==> pos < q <= inp.text().len() && t.lexeme_str@.len() >= 2,
{
    let ghost s = inp.text();
    let n = inp.len();
    if pos >= n || inp.char_at(pos) != '{' {
        return Err(
            Fault::Error(
                TokenError {
                    kind: TokenErrorKind::Expect(ExpectKind::RenderName),
                    offset: inp.location(pos).offset,
                },
            ),
        );
    }
    proof {
        inp.lemma_len();
        lemma_render_scan(s, pos + 1, 1);
    }
    let mut q = pos + 1;
    let mut depth: usize = 1;
    while q < n && inp.char_at(q) != '\n' && !(inp.char_at(q) == '}' && depth <= 1)
        invariant
            inp.wf(),
            s == inp.text(),
            n == s.len(),
            pos < q <= n,
            1 <= depth <= q - pos,
            render_scan(s, q as int, depth as nat) == render_scan(s, pos + 1, 1),
        decreases n - q,
    {
        if inp.char_at(q) == '}' {
            depth = depth - 1;
        } else if inp.char_at(q) == '{' {
            depth = depth + 1;
        }
        q = q + 1;
    }
    if q < n && inp.char_at(q) == '}' {
        Ok(make_token(inp, pos, q + 1))
    } else {
        Err(
            Fault::Failure(
                TokenError {
                    kind: TokenErrorKind::Incomplete(
                        IncompleteKind::UnclosedRenderName {
                            open_brace_offset: inp.location(pos).offset,
                        },
                    ),
                    offset: inp.location(q).offset,
                },
            ),
        )
    }
}

/// A render name lexeme runs from its `{` to a later `}` inside the text.
pub proof fn lemma_render_bounds(s: Seq<char>, p: int)
    requires
        0 <= p <= s.len(),
    ensures
        lex_render_name(s, p) matches Ok(e) ==> p + 2 <= e <= s.len(),
{
    if 0 <= p < s.len() && s[p] == '{' {
        lemma_render_scan(s, p + 1, 1);
    }
}

} // verus!
