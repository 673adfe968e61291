//! Notes attached to parameters, tests and models: the text of a note token
//! without its `~` markers and the whitespace around it.
use vstd::prelude::*;

use crate::ast::{node, Node, Note};
use crate::chars::{is_whitespace, white_space};
use crate::combinator::{complete, finish, SRes};
use crate::error::{lift_as, lift_fault_as, ExpectKind, ParserError, ParserErrorReason};
use crate::outcome::PResult;
use crate::text::{span_of, Input};
use crate::token::note::{lex_note, note as note_token, NoteKind};

verus! {

/// The characters that a strip removes: `~` when `tildes`, else Unicode
/// whitespace.
pub open spec fn stripped(c: char, tildes: bool) -> bool {
    if tildes {
        c == '~'
    } else {
        white_space(c)
    }
}

/// `t` without its leading characters that `stripped` removes.
pub open spec fn strip_start(t: Seq<char>, tildes: bool) -> Seq<char>
    decreases t.len(),
{
    if t.len() > 0 && stripped(t[0], tildes) {
        strip_start(t.drop_first(), tildes)
    } else {
        t
    }
}

/// `t` without its trailing characters that `stripped` removes.
pub open spec fn strip_end(t: Seq<char>, tildes: bool) -> Seq<char>
    decreases t.len(),
{
    if t.len() > 0 && stripped(t.last(), tildes) {
        strip_end(t.drop_last(), tildes)
    } else {
        t
    }
}

/// `t` without leading and trailing whitespace.
pub open spec fn trim(t: Seq<char>) -> Seq<char> {
    strip_end(strip_start(t, false), false)
}

/// The text of a note whose lexeme is `t`: a single-line note loses its
/// leading `~`s, a multi-line note its leading and trailing `~`s; then the
/// whitespace around the rest goes.
pub open spec fn note_text(t: Seq<char>, k: NoteKind) -> Seq<char> {
    match k {
        NoteKind::SingleLine => trim(strip_start(t, true)),
        NoteKind::MultiLine => trim(strip_end(strip_start(t, true), true)),
    }
}

/// What `strip_start` leaves does not start with a stripped character and
/// is a suffix of its argument.
proof fn lemma_strip_start_shape(t: Seq<char>, tildes: bool)
    ensures
        strip_start(t, tildes).len() <= t.len(),
        strip_start(t, tildes) == t.subrange(t.len() - strip_start(t, tildes).len(), t.len() as int),
        strip_start(t, tildes).len() > 0 ==> !stripped(strip_start(t, tildes)[0], tildes),
    decreases t.len(),
{
    if t.len() > 0 && stripped(t[0], tildes) {
        lemma_strip_start_shape(t.drop_first(), tildes);
        let r = strip_start(t.drop_first(), tildes);
        assert(t.drop_first().subrange(t.drop_first().len() - r.len(), t.drop_first().len() as int)
            =~= t.subrange(t.len() - r.len(), t.len() as int));
    } else {
        assert(t.subrange(0, t.len() as int) =~= t);
    }
}

/// What `strip_end` leaves does not end with a stripped character and is a
/// prefix of its argument.
proof fn lemma_strip_end_shape(t: Seq<char>, tildes: bool)
    ensures
        strip_end(t, tildes).len() <= t.len(),
        strip_end(t, tildes) == t.subrange(0, strip_end(t, tildes).len() as int),
        strip_end(t, tildes).len() > 0 ==> !stripped(strip_end(t, tildes).last(), tildes),
    decreases t.len(),
{
    if t.len() > 0 && stripped(t.last(), tildes) {
        lemma_strip_end_shape(t.drop_last(), tildes);
        let r = strip_end(t.drop_last(), tildes);
        assert(t.drop_last().subrange(0, r.len() as int) =~= t.subrange(0, r.len() as int));
    } else {
        assert(t.subrange(0, t.len() as int) =~= t);
    }
}

/// The text of a note neither starts nor ends with whitespace, whatever the
/// note's lexeme.
pub proof fn lemma_note_text_trimmed(t: Seq<char>, k: NoteKind)
    ensures
        note_text(t, k).len() > 0 ==> !white_space(note_text(t, k)[0])
            && !white_space(note_text(t, k).last()),
{
    let u = match k {
        NoteKind::SingleLine => strip_start(t, true),
        NoteKind::MultiLine => strip_end(strip_start(t, true), true),
    };
    let a = strip_start(u, false);
    lemma_strip_start_shape(u, false);
    lemma_strip_end_shape(a, false);
    let r = strip_end(a, false);
    assert(note_text(t, k) == r);
    if r.len() > 0 {
        assert(r[0] == a[0]);
    }
}

/// The note at `p`, with the end of line after it; a recoverable error
/// becomes "expected a note".
pub open spec fn note_spec(s: Seq<char>, p: int) -> SRes<Node<Seq<char>>> {
    match lex_note(s, p) {
        Ok((q, e, k)) => Ok((e, node(note_text(s.subrange(p, q), k), span_of(s, p, q), span_of(s, q, e)))),
        Err(f) => Err(lift_as(f, ParserErrorReason::Expect(ExpectKind::Note))),
    }
}

/// The note that follows at `e`, if one parses there, with the position
/// after it; else no note and `e` itself.
pub open spec fn note_after(s: Seq<char>, e: int) -> (int, Option<Node<Seq<char>>>) {
    match note_spec(s, e) {
        Ok((q, x)) => (q, Some(x)),
        Err(_) => (e, None),
    }
}

/// The model of the result of a note parser.
pub open spec fn note_res(r: PResult<Node<Note>, ParserError>) -> SRes<Node<Seq<char>>> {
    match r {
        Ok((q, n)) => Ok((q as int, node(n.value.0@, n.span, n.whitespace_span))),
        Err(f) => Err(f),
    }
}

proof fn lemma_strip_start_step(t: Seq<char>, a: int, b: int, tildes: bool)
    requires
        0 <= a < b <= t.len(),
        stripped(t[a], tildes),
    ensures
        strip_start(t.subrange(a, b), tildes) == strip_start(t.subrange(a + 1, b), tildes),
{
    assert(t.subrange(a, b).drop_first() =~= t.subrange(a + 1, b));
}

proof fn lemma_strip_end_step(t: Seq<char>, a: int, b: int, tildes: bool)
    requires
        0 <= a < b <= t.len(),
        stripped(t[b - 1], tildes),
    ensures
        strip_end(t.subrange(a, b), tildes) == strip_end(t.subrange(a, b - 1), tildes),
{
    assert(t.subrange(a, b).drop_last() =~= t.subrange(a, b - 1));
}

fn strips(c: char, tildes: bool) -> (r: bool)
    ensures
        r == stripped(c, tildes),
{
    if tildes {
        c == '~'
    } else {
        is_whitespace(c)
    }
}

/// The start of `t[a..b]` after its leading characters that `stripped`
/// removes.
fn skip_front(t: &str, a: usize, b: usize, tildes: bool) -> (r: usize)
    requires
        a <= b <= t@.len(),
    ensures
        a <= r <= b,
        t@.subrange(r as int, b as int) == strip_start(t@.subrange(a as int, b as int), tildes),
{
    let mut i = a;
    while i < b && strips(t.get_char(i), tildes)
        invariant
            a <= i <= b <= t@.len(),
            strip_start(t@.subrange(i as int, b as int), tildes) == strip_start(
                t@.subrange(a as int, b as int),
                tildes,
            ),
        decreases b - i,
    {
        proof {
            lemma_strip_start_step(t@, i as int, b as int, tildes);
        }
        i = i + 1;
    }
    proof {
        if i < b {
            assert(t@.subrange(i as int, b as int)[0] == t@[i as int]);
        }
    }
    i
}

/// The end of `t[a..b]` before its trailing characters that `stripped`
/// removes.
fn skip_back(t: &str, a: usize, b: usize, tildes: bool) -> (r: usize)
    requires
        a <= b <= t@.len(),
    ensures
        a <= r <= b,
        t@.subrange(a as int, r as int) == strip_end(t@.subrange(a as int, b as int), tildes),
{
    let mut j = b;
    while j > a && strips(t.get_char(j - 1), tildes)
        invariant
            a <= j <= b <= t@.len(),
            strip_end(t@.subrange(a as int, j as int), tildes) == strip_end(
                t@.subrange(a as int, b as int),
                tildes,
            ),
        decreases j - a,
    {
        proof {
            lemma_strip_end_step(t@, a as int, j as int, tildes);
        }
        j = j - 1;
    }
    proof {
        if j > a {
            assert(t@.subrange(a as int, j as int).last() == t@[j - 1]);
        }
    }
    j
}

/// The text of a note whose lexeme is `lexeme`.
pub fn note_content(lexeme: &str, kind: NoteKind) -> (r: String)
    ensures
        r@ == note_text(lexeme@, kind),
{
    let n = lexeme.unicode_len();
    let ghost t = lexeme@;
    proof {
        assert(t.subrange(0, n as int) =~= t);
    }
    let a = skip_front(lexeme, 0, n, true);
    let b = match kind {
        NoteKind::SingleLine => n,
        NoteKind::MultiLine => skip_back(lexeme, a, n, true),
    };
    proof {
        if kind == NoteKind::SingleLine {
            assert(strip_start(t, true) == t.subrange(a as int, b as int));
        } else {
            assert(strip_end(strip_start(t, true), true) == t.subrange(a as int, b as int));
        }
    }
    let a2 = skip_front(lexeme, a, b, false);
    let b2 = skip_back(lexeme, a2, b, false);
    proof {
        assert(t.subrange(a as int, b as int).subrange(0, (b - a) as int) =~= t.subrange(a as int, b as int));
    }
    String::from_str(lexeme.substring_char(a2, b2))
}

/// Parses a note at `pos`, with the end of line after it.
pub fn parse(inp: &Input, pos: usize) -> (r: PResult<Node<Note>, ParserError>)
    requires
        inp.wf(),
        pos <= inp.text().len(),
    ensures
        note_res(r) == note_spec(inp.text(), pos as int),
        r matches Ok((q, _)) ==> pos <= q <= inp.text().len(),
{
    match note_token(inp, pos) {
        Ok((e, (t, kind))) => {
            let text = note_content(t.lexeme_str.as_str(), kind);
            Ok((e, Node::new(Note(text), t.lexeme_span, t.whitespace_span)))
        },
        Err(f) => Err(lift_fault_as(f, ParserErrorReason::Expect(ExpectKind::Note))),
    }
}

/// Parses a note that runs from `pos` to the end of the text.
pub fn parse_complete(inp: &Input, pos: usize) -> (r: PResult<Node<Note>, ParserError>)
    requires
        inp.wf(),
        pos <= inp.text().len(),
    ensures
        note_res(r) == complete(inp.text(), note_spec(inp.text(), pos as int)),
{
    finish(inp, parse(inp, pos))
}

} // verus!
