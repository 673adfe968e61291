//! The shapes shared by all parsers: results over positions, alternatives,
//! and tokens turned into nodes.
use vstd::prelude::*;

use crate::ast::{ident_view, node, Identifier, Node};
use crate::error::{
    lift, lift_as, lift_fail, lift_fault, lift_fault_as, lift_fault_fail, ParserError,
    ParserErrorReason,
};
use crate::outcome::{Fault, PResult};
use crate::text::{location_of, span_of, Input};
use crate::token::error::{ExpectKeyword, ExpectSymbol, TokenError};
use crate::token::keyword::{keyword, lex_keyword};
use crate::token::naming::{identifier, lex_identifier};
use crate::token::symbol::{lex_symbol, symbol};
use crate::token::structure::{end_of_line, lex_end_of_line};
use crate::token::util::{skip_ws, Token};

verus! {

/// The model of a parser's result: the position after what it consumed and
/// the model of its value, or the fault that stopped it.
pub type SRes<T> = Result<(int, T), Fault<ParserError>>;

/// The result of a parser at a position outside the text; the parsers are
/// never run there.
pub open spec fn outside<T>() -> SRes<T> {
    Err(Fault::Failure(ParserError { error_offset: 0, reason: ParserErrorReason::UnexpectedToken }))
}

/// `a`, or `b` where `a` did not match: the two alternatives of `alt`.
pub open spec fn or_else<T>(a: SRes<T>, b: SRes<T>) -> SRes<T> {
    match a {
        Err(Fault::Error(_)) => b,
        _ => a,
    }
}

/// The node with value `v` made of the token whose lexeme is recognised by
/// `lex` at `p`, and the position after its whitespace.
pub open spec fn token_as<T>(s: Seq<char>, p: int, lex: Result<int, Fault<TokenError>>, v: T) -> SRes<
    Node<T>,
> {
    match lex {
        Ok(e) => Ok((skip_ws(s, e), node(v, span_of(s, p, e), span_of(s, e, skip_ws(s, e))))),
        Err(f) => Err(lift(f)),
    }
}

/// The result `r` of a parser that started at `p` ends, if it succeeded,
/// after `p` and inside the text.
pub open spec fn advances<T>(r: SRes<T>, p: int, len: int) -> bool {
    r matches Ok((q, _)) ==> p < q <= len
}

/// The position and value of an executable result, with the value mapped by
/// `f`, or its fault.
pub open spec fn res_view<T, M>(r: PResult<T, ParserError>, f: spec_fn(T) -> M) -> SRes<M> {
    match r {
        Ok((q, v)) => Ok((q as int, f(v))),
        Err(e) => Err(e),
    }
}

/// The result `r`, unless it stops before the end of the text: then the
/// error "unexpected token" at the position where it stopped.
pub open spec fn complete<T>(s: Seq<char>, r: SRes<T>) -> SRes<T> {
    match r {
        Ok((q, v)) => if q == s.len() {
            Ok((q, v))
        } else {
            Err(
                Fault::Error(
                    ParserError {
                        error_offset: location_of(s, q).offset,
                        reason: ParserErrorReason::UnexpectedToken,
                    },
                ),
            )
        },
        Err(f) => Err(f),
    }
}

/// A whole-text parse succeeds exactly when the rule succeeds and reaches
/// the end of the text, and then with the rule's value.
pub proof fn lemma_complete_reaches_end<T>(s: Seq<char>, r: SRes<T>)
    ensures
        complete(s, r) is Ok <==> (r matches Ok((q, _)) && q == s.len()),
        complete(s, r) is Ok ==> complete(s, r) == r,
{
}

/// Rejects a successful result that did not reach the end of the text.
pub fn finish<T>(inp: &Input, r: PResult<T, ParserError>) -> (out: PResult<T, ParserError>)
    requires
        inp.wf(),
        r matches Ok((q, _)) ==> q <= inp.text().len(),
    ensures
        r matches Ok((q, v)) ==> (if q == inp.text().len() {
            out == r
        } else {
            out == Err::<(usize, T), Fault<ParserError>>(
                Fault::Error(
                    ParserError {
                        error_offset: location_of(inp.text(), q as int).offset,
                        reason: ParserErrorReason::UnexpectedToken,
                    },
                ),
            )
        }),
        r matches Err(f) ==> out == r,
{
    match r {
        Ok((q, v)) => {
            if q == inp.len() {
                Ok((q, v))
            } else {
                Err(
                    Fault::Error(
                        ParserError {
                            error_offset: inp.location(q).offset,
                            reason: ParserErrorReason::UnexpectedToken,
                        },
                    ),
                )
            }
        },
        Err(f) => Err(f),
    }
}

/// The node with value `v` made of the token that a token parser returned.
pub fn token_node<T>(r: PResult<Token, TokenError>, v: T) -> (out: PResult<Node<T>, ParserError>)
    ensures
        r matches Ok((q, t)) ==> out == Ok::<(usize, Node<T>), Fault<ParserError>>(
            (q, node(v, t.lexeme_span, t.whitespace_span)),
        ),
        r matches Err(f) ==> out == Err::<(usize, Node<T>), Fault<ParserError>>(lift(f)),
{
    match r {
        Ok((q, t)) => Ok((q, Node::new(v, t.lexeme_span, t.whitespace_span))),
        Err(f) => Err(crate::error::lift_fault(f)),
    }
}

/// The node of the symbol `k` at `p`, with value `v`.
#[verifier::opaque]
pub open spec fn sym<T>(s: Seq<char>, p: int, k: ExpectSymbol, v: T) -> SRes<Node<T>> {
    token_as(s, p, lex_symbol(s, p, k), v)
}

/// The node of the keyword `k` at `p`, with value `v`.
#[verifier::opaque]
pub open spec fn kw<T>(s: Seq<char>, p: int, k: ExpectKeyword, v: T) -> SRes<Node<T>> {
    token_as(s, p, lex_keyword(s, p, k), v)
}

/// The node of the symbol `k` at `p`, with value `v`; a recoverable error
/// becomes a failure with `reason`.
#[verifier::opaque]
pub open spec fn sym_or_fail<T>(s: Seq<char>, p: int, k: ExpectSymbol, v: T, reason: ParserErrorReason) -> SRes<Node<T>> {
    match lex_symbol(s, p, k) {
        Ok(e) => token_as(s, p, lex_symbol(s, p, k), v),
        Err(f) => Err(lift_fail(f, reason)),
    }
}

/// The identifier at `p` as a node of its characters.
#[verifier::opaque]
pub open spec fn ident_at(s: Seq<char>, p: int) -> SRes<Node<Seq<char>>> {
    match lex_identifier(s, p) {
        Ok(e) => Ok(
            (skip_ws(s, e), node(s.subrange(p, e), span_of(s, p, e), span_of(s, e, skip_ws(s, e)))),
        ),
        Err(f) => Err(lift(f)),
    }
}

/// Parses the symbol `k` at `pos` into a node with value `v`.
pub fn symbol_node<T>(inp: &Input, pos: usize, k: ExpectSymbol, v: T) -> (r: PResult<Node<T>, ParserError>)
    requires
        inp.wf(),
        pos <= inp.text().len(),
    ensures
        res_view(r, |n: Node<T>| n) == sym(inp.text(), pos as int, k, v),
        r matches Ok((q, _)) ==> pos < q <= inp.text().len(),
{
    proof {
        reveal(sym);
    }
    token_node(symbol(inp, pos, k), v)
}

/// Parses the symbol `k` at `pos` into a node with value `v`; a
/// recoverable error becomes a failure with `reason`.
pub fn symbol_node_or_fail<T>(
    inp: &Input,
    pos: usize,
    k: ExpectSymbol,
    v: T,
    reason: ParserErrorReason,
) -> (r: PResult<Node<T>, ParserError>)
    requires
        inp.wf(),
        pos <= inp.text().len(),
    ensures
        res_view(r, |n: Node<T>| n) == sym_or_fail(inp.text(), pos as int, k, v, reason),
        r matches Ok((q, _)) ==> pos < q <= inp.text().len(),
{
    proof {
        reveal(sym_or_fail);
    }
    match symbol(inp, pos, k) {
        Ok((q, t)) => Ok((q, Node::new(v, t.lexeme_span, t.whitespace_span))),
        Err(f) => Err(lift_fault_fail(f, reason)),
    }
}

/// Parses the keyword `k` at `pos` into a node with value `v`.
pub fn keyword_node<T>(inp: &Input, pos: usize, k: ExpectKeyword, v: T) -> (r: PResult<Node<T>, ParserError>)
    requires
        inp.wf(),
        pos <= inp.text().len(),
    ensures
        res_view(r, |n: Node<T>| n) == kw(inp.text(), pos as int, k, v),
        r matches Ok((q, _)) ==> pos < q <= inp.text().len(),
{
    proof {
        reveal(kw);
    }
    token_node(keyword(inp, pos, k), v)
}

/// Parses an identifier at `pos` into a node.
pub fn identifier_node(inp: &Input, pos: usize) -> (r: PResult<Node<Identifier>, ParserError>)
    requires
        inp.wf(),
        pos <= inp.text().len(),
    ensures
        res_view(r, |n: Node<Identifier>| ident_view(n)) == ident_at(inp.text(), pos as int),
        r matches Ok((q, _)) ==> pos < q <= inp.text().len(),
{
    proof {
        reveal(ident_at);
    }
    match identifier(inp, pos) {
        Ok((q, t)) => Ok((q, Node::new(Identifier(t.lexeme_str), t.lexeme_span, t.whitespace_span))),
        Err(f) => Err(lift_fault(f)),
    }
}

/// An optional part: a recoverable error is no part, at the same position.
pub open spec fn optional<T>(r: SRes<T>, p: int) -> SRes<Option<T>> {
    match r {
        Ok((q, v)) => Ok((q, Some(v))),
        Err(Fault::Error(_)) => Ok((p, None)),
        Err(Fault::Failure(e)) => Err(Fault::Failure(e)),
    }
}

/// The node of the symbol `k` at `p`, with value `v`; a recoverable error
/// gets the reason `reason`.
#[verifier::opaque]
pub open spec fn sym_as<T>(s: Seq<char>, p: int, k: ExpectSymbol, v: T, reason: ParserErrorReason) -> SRes<Node<T>> {
    match lex_symbol(s, p, k) {
        Ok(_) => token_as(s, p, lex_symbol(s, p, k), v),
        Err(f) => Err(lift_as(f, reason)),
    }
}

/// The node of the keyword `k` at `p`, with value `v`; a recoverable error
/// becomes a failure with `reason`.
#[verifier::opaque]
pub open spec fn kw_or_fail<T>(s: Seq<char>, p: int, k: ExpectKeyword, v: T, reason: ParserErrorReason) -> SRes<Node<T>> {
    match lex_keyword(s, p, k) {
        Ok(_) => token_as(s, p, lex_keyword(s, p, k), v),
        Err(f) => Err(lift_fail(f, reason)),
    }
}

/// The identifier at `p` as a node of its characters; a recoverable error
/// becomes a failure with `reason`.
#[verifier::opaque]
pub open spec fn ident_or_fail(s: Seq<char>, p: int, reason: ParserErrorReason) -> SRes<Node<Seq<char>>> {
    match lex_identifier(s, p) {
        Ok(e) => Ok(
            (skip_ws(s, e), node(s.subrange(p, e), span_of(s, p, e), span_of(s, e, skip_ws(s, e)))),
        ),
        Err(f) => Err(lift_fail(f, reason)),
    }
}

/// The end of line at `p` as a node: its empty lexeme at `p`, and its
/// whitespace up to the end of what it consumed.
#[verifier::opaque]
pub open spec fn eol_at(s: Seq<char>, p: int) -> SRes<Node<()>> {
    match lex_end_of_line(s, p) {
        Ok(e) => Ok((e, node((), span_of(s, p, p), span_of(s, p, e)))),
        Err(f) => Err(lift(f)),
    }
}

/// The end of line at `p` as a node; a recoverable error becomes a failure
/// with `reason`.
#[verifier::opaque]
pub open spec fn eol_or_fail(s: Seq<char>, p: int, reason: ParserErrorReason) -> SRes<Node<()>> {
    match lex_end_of_line(s, p) {
        Ok(e) => Ok((e, node((), span_of(s, p, p), span_of(s, p, e)))),
        Err(f) => Err(lift_fail(f, reason)),
    }
}

/// Parses the symbol `k` at `pos` into a node with value `v`; a recoverable
/// error gets the reason `reason`.
pub fn symbol_node_as<T>(
    inp: &Input,
    pos: usize,
    k: ExpectSymbol,
    v: T,
    reason: ParserErrorReason,
) -> (r: PResult<Node<T>, ParserError>)
    requires
        inp.wf(),
        pos <= inp.text().len(),
    ensures
        res_view(r, |n: Node<T>| n) == sym_as(inp.text(), pos as int, k, v, reason),
        r matches Ok((q, _)) ==> pos < q <= inp.text().len(),
{
    proof {
        reveal(sym_as);
    }
    match symbol(inp, pos, k) {
        Ok((q, t)) => Ok((q, Node::new(v, t.lexeme_span, t.whitespace_span))),
        Err(f) => Err(lift_fault_as(f, reason)),
    }
}

/// Parses the keyword `k` at `pos` into a node with value `v`; a
/// recoverable error becomes a failure with `reason`.
pub fn keyword_node_or_fail<T>(
    inp: &Input,
    pos: usize,
    k: ExpectKeyword,
    v: T,
    reason: ParserErrorReason,
) -> (r: PResult<Node<T>, ParserError>)
    requires
        inp.wf(),
        pos <= inp.text().len(),
    ensures
        res_view(r, |n: Node<T>| n) == kw_or_fail(inp.text(), pos as int, k, v, reason),
        r matches Ok((q, _)) ==> pos < q <= inp.text().len(),
{
    proof {
        reveal(kw_or_fail);
    }
    match keyword(inp, pos, k) {
        Ok((q, t)) => Ok((q, Node::new(v, t.lexeme_span, t.whitespace_span))),
        Err(f) => Err(lift_fault_fail(f, reason)),
    }
}

/// Parses an identifier at `pos` into a node; a recoverable error becomes a
/// failure with `reason`.
pub fn identifier_node_or_fail(inp: &Input, pos: usize, reason: ParserErrorReason) -> (r: PResult<Node<Identifier>, ParserError>)
    requires
        inp.wf(),
        pos <= inp.text().len(),
    ensures
        res_view(r, |n: Node<Identifier>| ident_view(n)) == ident_or_fail(inp.text(), pos as int, reason),
        r matches Ok((q, _)) ==> pos < q <= inp.text().len(),
{
    proof {
        reveal(ident_or_fail);
    }
    match identifier(inp, pos) {
        Ok((q, t)) => Ok((q, Node::new(Identifier(t.lexeme_str), t.lexeme_span, t.whitespace_span))),
        Err(f) => Err(lift_fault_fail(f, reason)),
    }
}

/// Parses an end of line at `pos` into a node.
pub fn eol_node(inp: &Input, pos: usize) -> (r: PResult<Node<()>, ParserError>)
    requires
        inp.wf(),
        pos <= inp.text().len(),
    ensures
        res_view(r, |n: Node<()>| n) == eol_at(inp.text(), pos as int),
        r matches Ok((q, _)) ==> pos <= q <= inp.text().len(),
{
    proof {
        reveal(eol_at);
    }
    match end_of_line(inp, pos) {
        Ok((q, t)) => Ok((q, Node::new((), t.lexeme_span, t.whitespace_span))),
        Err(f) => Err(lift_fault(f)),
    }
}

/// Parses an end of line at `pos` into a node; a recoverable error becomes
/// a failure with `reason`.
pub fn eol_node_or_fail(inp: &Input, pos: usize, reason: ParserErrorReason) -> (r: PResult<Node<()>, ParserError>)
    requires
        inp.wf(),
        pos <= inp.text().len(),
    ensures
        res_view(r, |n: Node<()>| n) == eol_or_fail(inp.text(), pos as int, reason),
        r matches Ok((q, _)) ==> pos <= q <= inp.text().len(),
{
    proof {
        reveal(eol_or_fail);
    }
    match end_of_line(inp, pos) {
        Ok((q, t)) => Ok((q, Node::new((), t.lexeme_span, t.whitespace_span))),
        Err(f) => Err(lift_fault_fail(f, reason)),
    }
}

} // verus!
