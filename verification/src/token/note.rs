//! Parsers for the notes of the Oneil language.
//!
//! A single-line note starts with `~` and runs to the end of its line. A
//! multi-line note is delimited by lines that hold three or more `~`, with
//! optional spaces and tabs around them.
use vstd::prelude::*;

use crate::outcome::{Fault, PResult};
use crate::text::{location_of, span_of, Input};
use crate::token::error::{
    error_at, ExpectKind, IncompleteKind, NomErrorKind, TokenError, TokenErrorKind,
};
use crate::token::literal::char_is_at;
use crate::token::structure::{
    end_of_line, is_line_char, lemma_end_of_line_shape, lex_end_of_line, lex_linebreak, lex_not_line_ending, linebreak, not_line_ending,
};
use crate::token::util::{lemma_scan_while, lemma_skip_ws_bounds, scan_while, skip_inline_ws, skip_ws, Token};

verus! {

/// The kind of note that was parsed.
#[derive(Debug, Clone, Copy, PartialEq, Eq, Structural)]
pub enum NoteKind {
    /// A single-line note, which starts with `~` and ends with a line break.
    SingleLine,
    /// A multi-line note, which starts and ends with a `~~~` line.
    MultiLine,
}

/// `t` is the token with lexeme from `start` to `lex_end` and whitespace from
/// `lex_end` to `ws_end`.
pub open spec fn token_parts_is(s: Seq<char>, start: int, lex_end: int, ws_end: int, t: Token) -> bool {
    &&& t.lexeme_str@ == s.subrange(start, lex_end)
    &&& t.lexeme_span == span_of(s, start, lex_end)
    &&& t.whitespace_span == span_of(s, lex_end, ws_end)
}

/// The end of the run of `~` from `q`.
pub open spec fn tildes_end(s: Seq<char>, q: int) -> int {
    scan_while(s, q, |c: char| c == '~')
}

/// The end of a note delimiter at `q`: inline whitespace, three or more `~`,
/// inline whitespace. `None` when there are fewer than three `~`.
pub open spec fn delimiter_end(s: Seq<char>, q: int) -> Option<int> {
    let w = skip_ws(s, q);
    let t = tildes_end(s, w);
    if t - w >= 3 {
        Some(skip_ws(s, t))
    } else {
        None
    }
}

/// The end of a single-line note at `p` and of the end of line after it, or
/// the error of `single_line_note`. A line that starts with `~~~` is not a
/// single-line note.
pub open spec fn lex_single_line_note(s: Seq<char>, p: int) -> Result<(int, int), Fault<TokenError>> {
    if !char_is_at(s, p, '~') {
        Err(Fault::Error(error_at(s, p, TokenErrorKind::NomError(NomErrorKind::Char))))
    } else {
        match lex_not_line_ending(s, p + 1) {
            Err(f) => Err(f),
            Ok(q) => match lex_end_of_line(s, q) {
                Err(f) => Err(f),
                Ok(e) => if char_is_at(s, p + 1, '~') && char_is_at(s, p + 2, '~') {
                    Err(Fault::Error(error_at(s, p, TokenErrorKind::Expect(ExpectKind::Note))))
                } else {
                    Ok((q, e))
                },
            },
        }
    }
}

/// The end of the content lines of a multi-line note from `c`: whole lines,
/// up to the first line that starts with a delimiter or that has no line
/// break.
pub open spec fn content_end(s: Seq<char>, c: int) -> int
    decreases s.len() - c,
{
    if 0 <= c <= s.len() {
        match lex_not_line_ending(s, c) {
            Err(_) => c,
            Ok(e) => match lex_linebreak(s, e) {
                Err(_) => c,
                Ok(f) => if delimiter_end(s, c) is Some || !(c < f <= s.len()) {
                    c
                } else {
                    content_end(s, f)
                },
            },
        }
    } else {
        c
    }
}

/// The end of a multi-line note at `p` and of the end of line after it, or
/// the fault of `multi_line_note`.
pub open spec fn lex_multi_line_note(s: Seq<char>, p: int) -> Result<(int, int), Fault<TokenError>> {
    match delimiter_end(s, p) {
        None => Err(
            Fault::Error(
                error_at(s, skip_ws(s, p), TokenErrorKind::NomError(NomErrorKind::Verify)),
            ),
        ),
        Some(d) => {
            let unclosed = TokenErrorKind::Incomplete(
                IncompleteKind::UnclosedNote {
                    delimiter_start_offset: location_of(s, p).offset,
                    delimiter_end_offset: location_of(s, d).offset,
                },
            );
            match lex_linebreak(s, d) {
                Err(_) => Err(Fault::Failure(error_at(s, d, unclosed))),
                Ok(c0) => {
                    let c = content_end(s, c0);
                    match delimiter_end(s, c) {
                        None => Err(Fault::Failure(error_at(s, skip_ws(s, c), unclosed))),
                        Some(close) => match lex_end_of_line(s, close) {
                            Err(_) => Err(
                                Fault::Failure(
                                    error_at(
                                        s,
                                        close,
                                        TokenErrorKind::Incomplete(
                                            IncompleteKind::InvalidClosingDelimiter,
                                        ),
                                    ),
                                ),
                            ),
                            Ok(e) => Ok((close, e)),
                        },
                    }
                },
            }
        },
    }
}

/// The note at `p`: the end of its lexeme, the end of the end of line after
/// it, and its kind; or the fault of `note`.
pub open spec fn lex_note(s: Seq<char>, p: int) -> Result<(int, int, NoteKind), Fault<TokenError>> {
    match lex_single_line_note(s, p) {
        Ok((q, e)) => Ok((q, e, NoteKind::SingleLine)),
        Err(Fault::Failure(f)) => Err(Fault::Failure(f)),
        Err(Fault::Error(_)) => match lex_multi_line_note(s, p) {
            Ok((q, e)) => Ok((q, e, NoteKind::MultiLine)),
            Err(Fault::Failure(f)) => Err(Fault::Failure(f)),
            Err(Fault::Error(err)) => Err(
                Fault::Error(
                    TokenError { kind: TokenErrorKind::Expect(ExpectKind::Note), offset: err.offset },
                ),
            ),
        },
    }
}

/// The result `r` of `note` agrees with `lex`.
pub open spec fn note_outcome(
    s: Seq<char>,
    p: int,
    lex: Result<(int, int, NoteKind), Fault<TokenError>>,
    r: PResult<(Token, NoteKind), TokenError>,
) -> bool {
    match lex {
        Ok((q, e, k)) => r matches Ok((n, (t, k2))) && n == e && k2 == k && token_parts_is(
            s,
            p,
            q,
            e,
            t,
        ),
        Err(f) => r == Err::<(usize, (Token, NoteKind)), Fault<TokenError>>(f),
    }
}

fn scan_tildes(inp: &Input, q: usize) -> (r: usize)
    requires
        inp.wf(),
        q <= inp.text().len(),
    ensures
        r == tildes_end(inp.text(), q as int),
        q <= r <= inp.text().len(),
{
    let ghost s = inp.text();
    proof {
        lemma_scan_while(s, q as int, |c: char| c == '~');
    }
    let n = inp.len();
    let mut e = q;
    while e < n && inp.char_at(e) == '~'
        invariant
            inp.wf(),
            s == inp.text(),
            n == s.len(),
            q <= e <= n,
            scan_while(s, e as int, |c: char| c == '~') == scan_while(s, q as int, |c: char| c == '~'),
        decreases n - e,
    {
        e = e + 1;
    }
    e
}

/// Finds the end of a note delimiter at `q`, if there is one.
fn delimiter(inp: &Input, q: usize) -> (r: Option<usize>)
    requires
        inp.wf(),
        q <= inp.text().len(),
    ensures
        r matches Some(d) ==> delimiter_end(inp.text(), q as int) == Some(d as int) && q <= d
            <= inp.text().len(),
        r is None ==> delimiter_end(inp.text(), q as int) is None,
{
    let w = skip_inline_ws(inp, q);
    let t = scan_tildes(inp, w);
    if t - w >= 3 {
        Some(skip_inline_ws(inp, t))
    } else {
        None
    }
}

fn content(inp: &Input, c0: usize) -> (r: usize)
    requires
        inp.wf(),
        c0 <= inp.text().len(),
    ensures
        r == content_end(inp.text(), c0 as int),
        c0 <= r <= inp.text().len(),
{
    let ghost s = inp.text();
    let mut c = c0;
    loop
        invariant
            inp.wf(),
            s == inp.text(),
            c0 <= c <= s.len(),
            content_end(s, c as int) == content_end(s, c0 as int),
        ensures
            c == content_end(s, c0 as int),
            c0 <= c <= s.len(),
        decreases s.len() - c,
    {
        match not_line_ending(inp, c) {
            Err(_) => {
                break;
            },
            Ok(e) => match linebreak(inp, e) {
                Err(_) => {
                    break;
                },
                Ok((f, _)) => {
                    if delimiter(inp, c).is_some() {
                        break;
                    }
                    c = f;
                },
            },
        }
    }
    c
}

/// Parses a single-line note: `~` and the rest of its line, then the end of
/// line. Returns the ends of the lexeme and of the end of line.
fn single_line_note(inp: &Input, p: usize) -> (r: Result<(usize, usize), Fault<TokenError>>)
    requires
        inp.wf(),
        p <= inp.text().len(),
    ensures
        r matches Ok((q, e)) ==> lex_single_line_note(inp.text(), p as int) == Ok::<
            (int, int),
            Fault<TokenError>,
        >((q as int, e as int)) && p <= q <= e <= inp.text().len(),
        r matches Err(f) ==> lex_single_line_note(inp.text(), p as int) == Err::<
            (int, int),
            Fault<TokenError>,
        >(f),
{
    proof {
        inp.lemma_len();
    }
    let n = inp.len();
    if !(p < n && inp.char_at(p) == '~') {
        return Err(
            Fault::Error(
                TokenError {
                    kind: TokenErrorKind::NomError(NomErrorKind::Char),
                    offset: inp.location(p).offset,
                },
            ),
        );
    }
    match not_line_ending(inp, p + 1) {
        Err(f) => Err(f),
        Ok(q) => match end_of_line(inp, q) {
            Err(f) => Err(f),
            Ok((e, _)) => {
                if p + 2 < n && inp.char_at(p + 1) == '~' && inp.char_at(p + 2) == '~' {
                    Err(
                        Fault::Error(
                            TokenError {
                                kind: TokenErrorKind::Expect(ExpectKind::Note),
                                offset: inp.location(p).offset,
                            },
                        ),
                    )
                } else {
                    Ok((q, e))
                }
            },
        },
    }
}

/// Parses a multi-line note: a delimiter line, content lines, and a closing
/// delimiter followed by an end of line. Returns the ends of the lexeme and
/// of the end of line.
fn multi_line_note(inp: &Input, p: usize) -> (r: Result<(usize, usize), Fault<TokenError>>)
    requires
        inp.wf(),
        p <= inp.text().len(),
    ensures
        r matches Ok((q, e)) ==> lex_multi_line_note(inp.text(), p as int) == Ok::<
            (int, int),
            Fault<TokenError>,
        >((q as int, e as int)) && p <= q <= e <= inp.text().len(),
        r matches Err(f) ==> lex_multi_line_note(inp.text(), p as int) == Err::<
            (int, int),
            Fault<TokenError>,
        >(f),
{
    match delimiter(inp, p) {
        None => {
            let w = skip_inline_ws(inp, p);
            Err(
                Fault::Error(
                    TokenError {
                        kind: TokenErrorKind::NomError(NomErrorKind::Verify),
                        offset: inp.location(w).offset,
                    },
                ),
            )
        },
        Some(d) => {
            let unclosed = TokenErrorKind::Incomplete(
                IncompleteKind::UnclosedNote {
                    delimiter_start_offset: inp.location(p).offset,
                    delimiter_end_offset: inp.location(d).offset,
                },
            );
            match linebreak(inp, d) {
                Err(_) => Err(
                    Fault::Failure(TokenError { kind: unclosed, offset: inp.location(d).offset }),
                ),
                Ok((c0, _)) => {
                    let c = content(inp, c0);
                    match delimiter(inp, c) {
                        None => {
                            let w = skip_inline_ws(inp, c);
                            Err(
                                Fault::Failure(
                                    TokenError { kind: unclosed, offset: inp.location(w).offset },
                                ),
                            )
                        },
                        Some(close) => match end_of_line(inp, close) {
                            Err(_) => Err(
                                Fault::Failure(
                                    TokenError {
                                        kind: TokenErrorKind::Incomplete(
                                            IncompleteKind::InvalidClosingDelimiter,
                                        ),
                                        offset: inp.location(close).offset,
                                    },
                                ),
                            ),
                            Ok((e, _)) => Ok((close, e)),
                        },
                    }
                },
            }
        },
    }
}

/// A delimiter found at `q` ends after `q`, inside the text.
proof fn lemma_delimiter_bounds(s: Seq<char>, q: int)
    requires
        0 <= q <= s.len(),
    ensures
        delimiter_end(s, q) matches Some(d) ==> q < d <= s.len(),
{
    lemma_skip_ws_bounds(s, q);
    let w = skip_ws(s, q);
    lemma_scan_while(s, w, |c: char| c == '~');
    lemma_skip_ws_bounds(s, tildes_end(s, w));
}

/// The content lines from `c` end inside the text, not before `c`.
proof fn lemma_content_end_bounds(s: Seq<char>, c: int)
    requires
        0 <= c <= s.len(),
    ensures
        c <= content_end(s, c) <= s.len(),
    decreases s.len() - c,
{
    match lex_not_line_ending(s, c) {
        Err(_) => {},
        Ok(e) => match lex_linebreak(s, e) {
            Err(_) => {},
            Ok(f) => if !(delimiter_end(s, c) is Some || !(c < f <= s.len())) {
                lemma_content_end_bounds(s, f);
            },
        },
    }
}

/// A note is never empty: its lexeme starts at `p` and ends after it, and
/// the end of line that follows it ends inside the text.
pub proof fn lemma_note_bounds(s: Seq<char>, p: int)
    requires
        0 <= p <= s.len(),
    ensures
        lex_note(s, p) matches Ok((q, e, _)) ==> p < q <= e <= s.len(),
{
    if char_is_at(s, p, '~') {
        lemma_scan_while(s, p + 1, |c: char| is_line_char(c));
        lemma_end_of_line_shape(s, scan_while(s, p + 1, |c: char| is_line_char(c)));
    }
    lemma_delimiter_bounds(s, p);
    match delimiter_end(s, p) {
        None => {},
        Some(d) => match lex_linebreak(s, d) {
            Err(_) => {},
            Ok(c0) => {
                lemma_content_end_bounds(s, c0);
                let c = content_end(s, c0);
                lemma_delimiter_bounds(s, c);
                match delimiter_end(s, c) {
                    None => {},
                    Some(close) => {
                        lemma_end_of_line_shape(s, close);
                    },
                }
            },
        },
    }
}

/// Parses a note, either a single-line note or a multi-line note, with the
/// end of line that follows it.
pub fn note(inp: &Input, pos: usize) -> (r: PResult<(Token, NoteKind), TokenError>)
    requires
        inp.wf(),
        pos <= inp.text().len(),
    ensures
        note_outcome(inp.text(), pos as int, lex_note(inp.text(), pos as int), r),
        r matches Ok((e, _)) ==> pos <= e <= inp.text().len(),
{
    let (q, e, kind) = match single_line_note(inp, pos) {
        Ok((q, e)) => (q, e, NoteKind::SingleLine),
        Err(Fault::Failure(f)) => {
            return Err(Fault::Failure(f));
        },
        Err(Fault::Error(_)) => match multi_line_note(inp, pos) {
            Ok((q, e)) => (q, e, NoteKind::MultiLine),
            Err(Fault::Failure(f)) => {
                return Err(Fault::Failure(f));
            },
            Err(Fault::Error(err)) => {
                return Err(
                    Fault::Error(
                        TokenError {
                            kind: TokenErrorKind::Expect(ExpectKind::Note),
                            offset: err.offset,
                        },
                    ),
                );
            },
        },
    };
    let t = Token {
        lexeme_str: inp.substring(pos, q),
        lexeme_span: inp.span(pos, q),
        whitespace_span: inp.span(q, e),
    };
    Ok((e, (t, kind)))
}

} // verus!
