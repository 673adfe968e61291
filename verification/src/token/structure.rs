//! Parsers for the structure of a source: line breaks, comments and the end
//! of a line.
use vstd::prelude::*;

use crate::outcome::{Fault, PResult};
use crate::text::{span_of, Input, Span};
use crate::token::error::{error_at, ExpectKind, NomErrorKind, TokenError, TokenErrorKind};
use crate::token::literal::char_is_at;
use crate::token::util::{lemma_scan_while, lemma_skip_ws_bounds, scan_while, skip_inline_ws, skip_ws, Token};

verus! {

/// The end of the line break at `p` (`\n`, `\r\n` or a lone `\r`), or the
/// error of `linebreak`.
pub open spec fn lex_linebreak(s: Seq<char>, p: int) -> Result<int, Fault<TokenError>> {
    if char_is_at(s, p, '\n') {
        Ok(p + 1)
    } else if char_is_at(s, p, '\r') && char_is_at(s, p + 1, '\n') {
        Ok(p + 2)
    } else if char_is_at(s, p, '\r') {
        Ok(p + 1)
    } else {
        Err(Fault::Error(error_at(s, p, TokenErrorKind::NomError(NomErrorKind::CrLf))))
    }
}

/// Characters that do not end a line.
pub open spec fn is_line_char(c: char) -> bool {
    c != '\n' && c != '\r'
}

/// The rest of the line from `q`, up to a line break (`\n`, `\r\n` or a lone
/// `\r`) or the end of the text.
pub open spec fn lex_not_line_ending(s: Seq<char>, q: int) -> Result<int, Fault<TokenError>> {
    Ok(scan_while(s, q, |c: char| is_line_char(c)))
}

/// The end of the comment at `p`: `#`, the rest of the line, and the line
/// break after it if there is one.
pub open spec fn lex_comment(s: Seq<char>, p: int) -> Result<int, Fault<TokenError>> {
    if !char_is_at(s, p, '#') {
        Err(Fault::Error(error_at(s, p, TokenErrorKind::NomError(NomErrorKind::Char))))
    } else {
        match lex_not_line_ending(s, p + 1) {
            Ok(e) => match lex_linebreak(s, e) {
                Ok(f) => Ok(f),
                Err(_) => Ok(e),
            },
            Err(f) => Err(f),
        }
    }
}

/// Where the end of the text is, at `p`; or the error of `end_of_file`.
pub open spec fn lex_end_of_file(s: Seq<char>, p: int) -> Result<int, Fault<TokenError>> {
    if p == s.len() {
        Ok(p)
    } else {
        Err(Fault::Error(error_at(s, p, TokenErrorKind::NomError(NomErrorKind::Eof))))
    }
}

/// A line break or a comment at `q`, if there is one.
pub open spec fn break_or_comment(s: Seq<char>, q: int) -> Option<int> {
    match lex_linebreak(s, q) {
        Ok(e) => Some(e),
        Err(_) => match lex_comment(s, q) {
            Ok(e) => Some(e),
            Err(_) => None,
        },
    }
}

/// The end of the line breaks and comments from `q` on, each followed by
/// optional inline whitespace.
pub open spec fn blank_lines_end(s: Seq<char>, q: int) -> int
    decreases s.len() - q,
{
    if 0 <= q <= s.len() {
        match break_or_comment(s, q) {
            Some(e) => if q < e <= s.len() {
                proof {
                    lemma_skip_ws_bounds(s, e);
                }
                blank_lines_end(s, skip_ws(s, e))
            } else {
                q
            },
            None => q,
        }
    } else {
        q
    }
}

/// The end of the whitespace of the end of line at `p`: a first line break,
/// comment or end of text, then inline whitespace, then any further line
/// breaks and comments with their inline whitespace. Or the error of
/// `end_of_line`.
pub open spec fn lex_end_of_line(s: Seq<char>, p: int) -> Result<int, Fault<TokenError>> {
    let first = match break_or_comment(s, p) {
        Some(e) => Some(e),
        None => if p == s.len() {
            Some(p)
        } else {
            None
        },
    };
    match first {
        Some(e) => Ok(blank_lines_end(s, skip_ws(s, e))),
        None => Err(Fault::Error(error_at(s, p, TokenErrorKind::Expect(ExpectKind::EndOfLine)))),
    }
}

/// `t` is the token of an end of line at `p` whose whitespace ends at
/// `next`: its lexeme is empty.
pub open spec fn empty_token_is(s: Seq<char>, p: int, t: Token, next: int) -> bool {
    &&& t.lexeme_str@ == Seq::<char>::empty()
    &&& t.lexeme_span == span_of(s, p, p)
    &&& t.whitespace_span == span_of(s, p, next)
}

/// The result `r` agrees with `lex`, the end of the whitespace of an
/// end-of-line token at `p`, or the fault it stops with.
pub open spec fn empty_token_outcome(
    s: Seq<char>,
    p: int,
    lex: Result<int, Fault<TokenError>>,
    r: PResult<Token, TokenError>,
) -> bool {
    match lex {
        Ok(e) => r matches Ok((q, t)) && q == e && empty_token_is(s, p, t, e),
        Err(f) => r == Err::<(usize, Token), Fault<TokenError>>(f),
    }
}

/// Parses a line break (`\n`, `\r\n` or a lone `\r`) and returns its span.
pub fn linebreak(inp: &Input, pos: usize) -> (r: PResult<Span, TokenError>)
    requires
        inp.wf(),
        pos <= inp.text().len(),
    ensures
        r matches Ok((e, sp)) ==> lex_linebreak(inp.text(), pos as int) == Ok::<int, Fault<TokenError>>(
            e as int,
        ) && sp == span_of(inp.text(), pos as int, e as int),
        r matches Err(f) ==> lex_linebreak(inp.text(), pos as int) == Err::<int, Fault<TokenError>>(f),
        r matches Ok((e, _)) ==> pos < e <= inp.text().len(),
{
    proof {
        inp.lemma_len();
    }
    let n = inp.len();
    if pos < n && inp.char_at(pos) == '\n' {
        Ok((pos + 1, inp.span(pos, pos + 1)))
    } else if pos + 1 < n && inp.char_at(pos) == '\r' && inp.char_at(pos + 1) == '\n' {
        Ok((pos + 2, inp.span(pos, pos + 2)))
    } else if pos < n && inp.char_at(pos) == '\r' {
        Ok((pos + 1, inp.span(pos, pos + 1)))
    } else {
        Err(
            Fault::Error(
                TokenError {
                    kind: TokenErrorKind::NomError(NomErrorKind::CrLf),
                    offset: inp.location(pos).offset,
                },
            ),
        )
    }
}

/// Finds the end of the line from `q`: the first line break or the end of
/// the text.
pub fn not_line_ending(inp: &Input, q: usize) -> (r: Result<usize, Fault<TokenError>>)
    requires
        inp.wf(),
        q <= inp.text().len(),
    ensures
        r matches Ok(e) ==> lex_not_line_ending(inp.text(), q as int) == Ok::<
            int,
            Fault<TokenError>,
        >(e as int) && q <= e <= inp.text().len(),
        r matches Err(f) ==> lex_not_line_ending(inp.text(), q as int) == Err::<
            int,
            Fault<TokenError>,
        >(f),
{
    let ghost s = inp.text();
    proof {
        inp.lemma_len();
        lemma_scan_while(s, q as int, |c: char| is_line_char(c));
    }
    let n = inp.len();
    let mut e = q;
    while e < n && inp.char_at(e) != '\n' && inp.char_at(e) != '\r'
        invariant
            inp.wf(),
            s == inp.text(),
            n == s.len(),
            q <= e <= n,
            scan_while(s, e as int, |c: char| is_line_char(c)) == scan_while(
                s,
                q as int,
                |c: char| is_line_char(c),
            ),
        decreases n - e,
    {
        e = e + 1;
    }
    Ok(e)
}

/// Parses a comment: `#`, the rest of the line, and the line break after
/// it, if there is one. Returns its span.
pub fn comment(inp: &Input, pos: usize) -> (r: PResult<Span, TokenError>)
    requires
        inp.wf(),
        pos <= inp.text().len(),
    ensures
        r matches Ok((e, sp)) ==> lex_comment(inp.text(), pos as int) == Ok::<int, Fault<TokenError>>(
            e as int,
        ) && sp == span_of(inp.text(), pos as int, e as int),
        r matches Err(f) ==> lex_comment(inp.text(), pos as int) == Err::<int, Fault<TokenError>>(f),
        r matches Ok((e, _)) ==> pos < e <= inp.text().len(),
{
    proof {
        inp.lemma_len();
    }
    if !(pos < inp.len() && inp.char_at(pos) == '#') {
        return Err(
            Fault::Error(
                TokenError {
                    kind: TokenErrorKind::NomError(NomErrorKind::Char),
                    offset: inp.location(pos).offset,
                },
            ),
        );
    }
    match not_line_ending(inp, pos + 1) {
        Ok(e) => match linebreak(inp, e) {
            Ok((f, _)) => Ok((f, inp.span(pos, f))),
            Err(_) => Ok((e, inp.span(pos, e))),
        },
        Err(f) => Err(f),
    }
}

/// Parses the end of the text; returns its (empty) span.
pub fn end_of_file(inp: &Input, pos: usize) -> (r: PResult<Span, TokenError>)
    requires
        inp.wf(),
        pos <= inp.text().len(),
    ensures
        r matches Ok((e, sp)) ==> lex_end_of_file(inp.text(), pos as int) == Ok::<int, Fault<TokenError>>(
            e as int,
        ) && sp == span_of(inp.text(), pos as int, e as int),
        r matches Err(f) ==> lex_end_of_file(inp.text(), pos as int) == Err::<int, Fault<TokenError>>(f),
        r matches Ok((e, _)) ==> e == pos,
{
    if pos == inp.len() {
        Ok((pos, inp.span(pos, pos)))
    } else {
        Err(
            Fault::Error(
                TokenError {
                    kind: TokenErrorKind::NomError(NomErrorKind::Eof),
                    offset: inp.location(pos).offset,
                },
            ),
        )
    }
}

fn break_or_comment_end(inp: &Input, q: usize) -> (r: Option<usize>)
    requires
        inp.wf(),
        q <= inp.text().len(),
    ensures
        r matches Some(e) ==> break_or_comment(inp.text(), q as int) == Some(e as int),
        r is None ==> break_or_comment(inp.text(), q as int) is None,
        r matches Some(e) ==> q < e <= inp.text().len(),
        break_or_comment(inp.text(), q as int) matches Some(e) ==> q < e <= inp.text().len(),
{
    match linebreak(inp, q) {
        Ok((e, _)) => Some(e),
        Err(_) => match comment(inp, q) {
            Ok((e, _)) => Some(e),
            Err(_) => None,
        },
    }
}

/// Finds the end of the line breaks and comments from `q` on, each with the
/// inline whitespace after it.
pub fn skip_blank_lines(inp: &Input, q: usize) -> (r: usize)
    requires
        inp.wf(),
        q <= inp.text().len(),
    ensures
        r == blank_lines_end(inp.text(), q as int),
        q <= r <= inp.text().len(),
{
    let ghost s = inp.text();
    let mut p = q;
    loop
        invariant
            inp.wf(),
            s == inp.text(),
            q <= p <= s.len(),
            blank_lines_end(s, p as int) == blank_lines_end(s, q as int),
        ensures
            p == blank_lines_end(s, q as int),
            q <= p <= s.len(),
        decreases s.len() - p,
    {
        match break_or_comment_end(inp, p) {
            Some(e) => {
                let w = skip_inline_ws(inp, e);
                p = w;
            },
            None => {
                break;
            },
        }
    }
    p
}

/// A character that can start a line break or a comment, or that is inline
/// whitespace: what an end of line leaves none of in front of what follows.
pub open spec fn is_blank_start(c: char) -> bool {
    c == ' ' || c == '\t' || c == '\n' || c == '\r' || c == '#'
}

/// A line break or a comment found at `q` ends after `q`, inside the text.
proof fn lemma_break_or_comment_bounds(s: Seq<char>, q: int)
    requires
        0 <= q <= s.len(),
    ensures
        break_or_comment(s, q) matches Some(e) ==> q < e <= s.len(),
        break_or_comment(s, q) is None <==> !(q < s.len() && (s[q] == '\n' || s[q] == '\r' || s[q] == '#')),
{
    if q < s.len() && s[q] == '#' {
        lemma_scan_while(s, q + 1, |c: char| is_line_char(c));
    }
}

/// The blank lines from a position that holds no inline whitespace end
/// where no blank starts.
proof fn lemma_blank_lines_end(s: Seq<char>, q: int)
    requires
        0 <= q <= s.len(),
        q == s.len() || !(s[q] == ' ' || s[q] == '\t'),
    ensures
        q <= blank_lines_end(s, q) <= s.len(),
        blank_lines_end(s, q) == s.len() || !is_blank_start(s[blank_lines_end(s, q)]),
    decreases s.len() - q,
{
    lemma_break_or_comment_bounds(s, q);
    match break_or_comment(s, q) {
        Some(e) => {
            lemma_skip_ws_bounds(s, e);
            lemma_blank_lines_end(s, skip_ws(s, e));
        },
        None => {},
    }
}

/// An end of line is read exactly where the text ends or a line break
/// (`\n`, `\r\n` or a lone `\r`) or a comment starts; what follows it starts
/// with no inline whitespace, line break or comment.
pub proof fn lemma_end_of_line_shape(s: Seq<char>, p: int)
    requires
        0 <= p <= s.len(),
    ensures
        lex_end_of_line(s, p) is Ok <==> (p == s.len() || s[p] == '\n' || s[p] == '\r' || s[p] == '#'),
        lex_end_of_line(s, p) matches Ok(e) ==> p <= e <= s.len() && (e == s.len() || !is_blank_start(s[e])),
        lex_end_of_line(s, p) matches Ok(e) ==> (p < s.len() ==> p < e),
        lex_end_of_line(s, p) matches Err(f) ==> f == Fault::Error(
            error_at(s, p, TokenErrorKind::Expect(ExpectKind::EndOfLine)),
        ),
{
    lemma_break_or_comment_bounds(s, p);
    let first = match break_or_comment(s, p) {
        Some(e) => Some(e),
        None => if p == s.len() {
            Some(p)
        } else {
            None
        },
    };
    match first {
        Some(e) => {
            lemma_skip_ws_bounds(s, e);
            lemma_blank_lines_end(s, skip_ws(s, e));
        },
        None => {},
    }
}

/// Parses an end of line: one or more line breaks, comments or the end of
/// the text, with the inline whitespace between them. Its lexeme is empty
/// and everything it consumes is whitespace.
pub fn end_of_line(inp: &Input, pos: usize) -> (r: PResult<Token, TokenError>)
    requires
        inp.wf(),
        pos <= inp.text().len(),
    ensures
        empty_token_outcome(inp.text(), pos as int, lex_end_of_line(inp.text(), pos as int), r),
        r matches Ok((e, _)) ==> pos <= e <= inp.text().len(),
{
    let first = match break_or_comment_end(inp, pos) {
        Some(e) => Some(e),
        None => if pos == inp.len() {
            Some(pos)
        } else {
            None
        },
    };
    match first {
        Some(e) => {
            let w = skip_inline_ws(inp, e);
            let end = skip_blank_lines(inp, w);
            let t = Token {
                lexeme_str: String::new(),
                lexeme_span: inp.span(pos, pos),
                whitespace_span: inp.span(pos, end),
            };
            Ok((end, t))
        },
        None => Err(
            Fault::Error(
                TokenError {
                    kind: TokenErrorKind::Expect(ExpectKind::EndOfLine),
                    offset: inp.location(pos).offset,
                },
            ),
        ),
    }
}

/// The end of the whitespace at the start of a file from `p`: inline
/// whitespace, then any line breaks and comments with their inline
/// whitespace.
pub open spec fn start_of_file_end(s: Seq<char>, p: int) -> int {
    blank_lines_end(s, skip_ws(s, p))
}

/// Parses the start of a file; always succeeds. Its lexeme is empty, and its
/// whitespace is the blank lines and comments that open the file.
pub fn start_of_file(inp: &Input, pos: usize) -> (r: (usize, Token))
    requires
        inp.wf(),
        pos <= inp.text().len(),
    ensures
        r.0 == start_of_file_end(inp.text(), pos as int),
        empty_token_is(inp.text(), pos as int, r.1, r.0 as int),
        pos <= r.0 <= inp.text().len(),
{
    let w = skip_inline_ws(inp, pos);
    let end = skip_blank_lines(inp, w);
    let t = Token {
        lexeme_str: String::new(),
        lexeme_span: inp.span(pos, pos),
        whitespace_span: inp.span(pos, end),
    };
    (end, t)
}

} // verus!
