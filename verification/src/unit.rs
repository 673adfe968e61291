//! Unit expressions: named units with optional exponents, the unit `1`, and
//! parenthesized unit expressions, joined left to right by `*` and `/`.
use vstd::prelude::*;

use crate::ast::{node, unit_node_view, Identifier, Node, UnitExponent, UnitExpr, UnitModel, UnitOp};
use crate::combinator::{
    complete, finish, or_else, outside, res_view, sym, sym_or_fail, symbol_node,
    symbol_node_or_fail, token_as, SRes,
};
use crate::error::{
    escalate, escalate_fault, incomplete, lift, lift_fail, lift_fault, lift_fault_fail, recast,
    recast_fault, ExpectKind, IncompleteKind, ParserError, ParserErrorReason, UnitKind,
};
use crate::outcome::{Fault, PResult};
use crate::text::{span_join, span_of, Input, Span};
use crate::token::error::ExpectSymbol;
use crate::token::literal::{lex_number, lex_unit_one, number, unit_one};
use crate::token::naming::{lex_unit_identifier, unit_identifier};
use crate::token::util::skip_ws;

verus! {

/// The unit identifier at `p` as a node of its characters.
#[verifier::opaque]
pub open spec fn unit_ident_at(s: Seq<char>, p: int) -> SRes<Node<Seq<char>>> {
    match lex_unit_identifier(s, p) {
        Ok(e) => Ok(
            (skip_ws(s, e), node(s.subrange(p, e), span_of(s, p, e), span_of(s, e, skip_ws(s, e)))),
        ),
        Err(f) => Err(lift(f)),
    }
}

/// The exponent number at `p` as a node of its characters; a recoverable
/// error becomes a failure with `reason`.
#[verifier::opaque]
pub open spec fn exponent_at(s: Seq<char>, p: int, reason: ParserErrorReason) -> SRes<
    Node<Seq<char>>,
> {
    match lex_number(s, p) {
        Ok(e) => Ok(
            (skip_ws(s, e), node(s.subrange(p, e), span_of(s, p, e), span_of(s, e, skip_ws(s, e)))),
        ),
        Err(f) => Err(lift_fail(f, reason)),
    }
}

/// The unit `1` at `p`.
#[verifier::opaque]
pub open spec fn unit_one_at(s: Seq<char>, p: int) -> SRes<Node<UnitModel>> {
    token_as(s, p, lex_unit_one(s, p), UnitModel::One)
}

/// The operator `*` or `/` at `p`.
#[verifier::opaque]
pub open spec fn unit_op(s: Seq<char>, p: int) -> SRes<Node<UnitOp>> {
    or_else(
        sym(s, p, ExpectSymbol::Star, UnitOp::Multiply),
        sym(s, p, ExpectSymbol::Slash, UnitOp::Divide),
    )
}

/// A named unit at `p`, optionally followed by `^` and an exponent.
pub open spec fn named_unit(s: Seq<char>, p: int) -> SRes<Node<UnitModel>> {
    match unit_ident_at(s, p) {
        Err(f) => Err(f),
        Ok((q, id)) => match sym(s, q, ExpectSymbol::Caret, ()) {
            Err(Fault::Error(_)) => Ok(
                (
                    q,
                    node(
                        UnitModel::Unit { identifier: id, exponent: None },
                        id.span,
                        id.whitespace_span,
                    ),
                ),
            ),
            Err(f) => Err(f),
            Ok((q2, caret)) => match exponent_at(
                s,
                q2,
                incomplete(caret.span, IncompleteKind::Unit(UnitKind::MissingExponent)),
            ) {
                Err(f) => Err(f),
                Ok((q3, ex)) => Ok(
                    (
                        q3,
                        node(
                            UnitModel::Unit { identifier: id, exponent: Some(ex) },
                            span_join(id.span, ex.span),
                            ex.whitespace_span,
                        ),
                    ),
                ),
            },
        },
    }
}

/// The binary unit operation `op` of `l` and `r`, spanning both.
pub open spec fn unit_binary(op: Node<UnitOp>, l: Node<UnitModel>, r: Node<UnitModel>) -> Node<
    UnitModel,
> {
    node(
        UnitModel::Binary { op, left: Box::new(l), right: Box::new(r) },
        span_join(l.span, r.span),
        r.whitespace_span,
    )
}

/// A unit expression at `p`; a recoverable error of its first term becomes
/// "expected a unit".
pub open spec fn unit_expr_spec(s: Seq<char>, p: int) -> SRes<Node<UnitModel>>
    decreases s.len() - p, 4int,
{
    match unit_term_spec(s, p) {
        Err(f) => Err(recast(f, ParserErrorReason::Expect(ExpectKind::Unit))),
        Ok((q, first)) => if p <= q <= s.len() {
            unit_rest(s, q, first)
        } else {
            outside()
        },
    }
}

/// The further operators and terms from `p`, folded into `acc` from the
/// left.
pub open spec fn unit_rest(s: Seq<char>, p: int, acc: Node<UnitModel>) -> SRes<Node<UnitModel>>
    decreases s.len() - p, 3int,
{
    match unit_op(s, p) {
        Err(Fault::Error(_)) => Ok((p, acc)),
        Err(f) => Err(f),
        Ok((q, op)) => if p < q <= s.len() {
            match unit_term_spec(s, q) {
                Err(f) => Err(
                    escalate(
                        f,
                        incomplete(
                            op.span,
                            IncompleteKind::Unit(UnitKind::MissingSecondTerm { operator: op.value }),
                        ),
                    ),
                ),
                Ok((q2, rhs)) => if q <= q2 <= s.len() {
                    unit_rest(s, q2, unit_binary(op, acc, rhs))
                } else {
                    outside()
                },
            }
        } else {
            outside()
        },
    }
}

/// A unit term at `p`: a named unit, the unit `1`, or a parenthesized unit
/// expression.
pub open spec fn unit_term_spec(s: Seq<char>, p: int) -> SRes<Node<UnitModel>>
    decreases s.len() - p, 2int,
{
    or_else(
        named_unit(s, p),
        or_else(
            unit_one_at(s, p),
            match sym(s, p, ExpectSymbol::ParenLeft, ()) {
                Err(f) => Err(f),
                Ok((q, open)) => if p < q <= s.len() {
                    match unit_expr_spec(s, q) {
                        Err(f) => Err(
                            escalate(
                                f,
                                incomplete(open.span, IncompleteKind::Unit(UnitKind::ParenMissingExpr)),
                            ),
                        ),
                        Ok((q2, inner)) => match sym_or_fail(
                            s,
                            q2,
                            ExpectSymbol::ParenRight,
                            (),
                            incomplete(open.span, IncompleteKind::UnclosedParen),
                        ) {
                            Err(f) => Err(f),
                            Ok((q3, close)) => Ok(
                                (
                                    q3,
                                    node(
                                        UnitModel::Paren { expr: Box::new(inner) },
                                        span_join(open.span, close.span),
                                        close.whitespace_span,
                                    ),
                                ),
                            ),
                        },
                    }
                } else {
                    outside()
                },
            },
        ),
    )
}

/// The model of the result of a unit parser.
pub open spec fn unit_res(r: PResult<Node<UnitExpr>, ParserError>) -> SRes<Node<UnitModel>> {
    match r {
        Ok((q, n)) => Ok((q as int, unit_node_view(n))),
        Err(f) => Err(f),
    }
}

/// A successful unit result ends after `p` and inside the text.
pub open spec fn unit_within(r: PResult<Node<UnitExpr>, ParserError>, p: int, len: int) -> bool {
    r matches Ok((q, _)) ==> p <= q <= len
}

fn named_unit_expr(inp: &Input, pos: usize) -> (r: PResult<Node<UnitExpr>, ParserError>)
    requires
        inp.wf(),
        pos <= inp.text().len(),
    ensures
        unit_res(r) == named_unit(inp.text(), pos as int),
        unit_within(r, pos as int, inp.text().len() as int),
{
    proof {
        reveal(unit_ident_at);
        reveal(exponent_at);
    }
    let (q, id) = match unit_identifier(inp, pos) {
        Ok((q, t)) => (q, Node::new(Identifier(t.lexeme_str), t.lexeme_span, t.whitespace_span)),
        Err(f) => {
            return Err(lift_fault(f));
        },
    };
    match symbol_node(inp, q, ExpectSymbol::Caret, ()) {
        Err(Fault::Error(_)) => {
            let sp = id.span;
            let ws = id.whitespace_span;
            Ok((q, Node::new(UnitExpr::Unit { identifier: id, exponent: None }, sp, ws)))
        },
        Err(f) => Err(f),
        Ok((q2, caret)) => {
            let reason = ParserErrorReason::Incomplete {
                cause: caret.span,
                kind: IncompleteKind::Unit(UnitKind::MissingExponent),
            };
            match number(inp, q2) {
                Err(f) => Err(lift_fault_fail(f, reason)),
                Ok((q3, t)) => {
                    let sp = Span::from_start_and_end(&id.span, &t.lexeme_span);
                    let ws = t.whitespace_span;
                    let ex = Node::new(UnitExponent(t.lexeme_str), t.lexeme_span, t.whitespace_span);
                    Ok((q3, Node::new(UnitExpr::Unit { identifier: id, exponent: Some(ex) }, sp, ws)))
                },
            }
        },
    }
}

fn unit_one_expr(inp: &Input, pos: usize) -> (r: PResult<Node<UnitExpr>, ParserError>)
    requires
        inp.wf(),
        pos <= inp.text().len(),
    ensures
        unit_res(r) == unit_one_at(inp.text(), pos as int),
        unit_within(r, pos as int, inp.text().len() as int),
{
    proof {
        reveal(unit_one_at);
    }
    match unit_one(inp, pos) {
        Ok((q, t)) => Ok((q, Node::new(UnitExpr::UnitOne, t.lexeme_span, t.whitespace_span))),
        Err(f) => Err(lift_fault(f)),
    }
}

fn unit_operator(inp: &Input, pos: usize) -> (r: PResult<Node<UnitOp>, ParserError>)
    requires
        inp.wf(),
        pos <= inp.text().len(),
    ensures
        res_view(r, |n: Node<UnitOp>| n) == unit_op(inp.text(), pos as int),
        r matches Ok((q, _)) ==> pos < q <= inp.text().len(),
{
    proof {
        reveal(unit_op);
    }
    let r = symbol_node(inp, pos, ExpectSymbol::Star, UnitOp::Multiply);
    if !(r matches Err(Fault::Error(_))) {
        return r;
    }
    symbol_node(inp, pos, ExpectSymbol::Slash, UnitOp::Divide)
}

fn unit_term(inp: &Input, pos: usize) -> (r: PResult<Node<UnitExpr>, ParserError>)
    requires
        inp.wf(),
        pos <= inp.text().len(),
    ensures
        unit_res(r) == unit_term_spec(inp.text(), pos as int),
        unit_within(r, pos as int, inp.text().len() as int),
    decreases inp.text().len() - pos, 2int,
{
    let r = named_unit_expr(inp, pos);
    if !(r matches Err(Fault::Error(_))) {
        return r;
    }
    let r = unit_one_expr(inp, pos);
    if !(r matches Err(Fault::Error(_))) {
        return r;
    }
    let (q, open) = match symbol_node(inp, pos, ExpectSymbol::ParenLeft, ()) {
        Err(f) => {
            return Err(f);
        },
        Ok(x) => x,
    };
    let missing = ParserErrorReason::Incomplete {
        cause: open.span,
        kind: IncompleteKind::Unit(UnitKind::ParenMissingExpr),
    };
    let (q2, inner) = match unit_expr(inp, q) {
        Err(f) => {
            return Err(escalate_fault(f, missing));
        },
        Ok(x) => x,
    };
    let unclosed = ParserErrorReason::Incomplete { cause: open.span, kind: IncompleteKind::UnclosedParen };
    match symbol_node_or_fail(inp, q2, ExpectSymbol::ParenRight, (), unclosed) {
        Err(f) => Err(f),
        Ok((q3, close)) => {
            let sp = Span::from_start_and_end(&open.span, &close.span);
            Ok((q3, Node::new(UnitExpr::Parenthesized { expr: Box::new(inner) }, sp, close.whitespace_span)))
        },
    }
}

fn unit_expr(inp: &Input, pos: usize) -> (r: PResult<Node<UnitExpr>, ParserError>)
    requires
        inp.wf(),
        pos <= inp.text().len(),
    ensures
        unit_res(r) == unit_expr_spec(inp.text(), pos as int),
        unit_within(r, pos as int, inp.text().len() as int),
    decreases inp.text().len() - pos, 4int,
{
    let ghost s = inp.text();
    let (q0, first) = match unit_term(inp, pos) {
        Err(f) => {
            return Err(recast_fault(f, ParserErrorReason::Expect(ExpectKind::Unit)));
        },
        Ok(x) => x,
    };
    let mut cur = q0;
    let mut acc = first;
    loop
        invariant
            inp.wf(),
            s == inp.text(),
            pos <= q0 <= cur <= s.len(),
            unit_term_spec(s, pos as int) == Ok::<(int, Node<UnitModel>), Fault<ParserError>>(
                (q0 as int, unit_node_view(first)),
            ),
            unit_rest(s, cur as int, unit_node_view(acc)) == unit_rest(
                s,
                q0 as int,
                unit_node_view(first),
            ),
        decreases s.len() - cur,
    {
        let (q, op) = match unit_operator(inp, cur) {
            Err(Fault::Error(_)) => {
                return Ok((cur, acc));
            },
            Err(f) => {
                return Err(f);
            },
            Ok(x) => x,
        };
        let reason = ParserErrorReason::Incomplete {
            cause: op.span,
            kind: IncompleteKind::Unit(UnitKind::MissingSecondTerm { operator: op.value }),
        };
        match unit_term(inp, q) {
            Err(f) => {
                return Err(escalate_fault(f, reason));
            },
            Ok((q2, rhs)) => {
                let sp = Span::from_start_and_end(&acc.span, &rhs.span);
                let ws = rhs.whitespace_span;
                acc = Node::new(UnitExpr::BinaryOp { op, left: Box::new(acc), right: Box::new(rhs) }, sp, ws);
                cur = q2;
            },
        }
    }
}

/// Parses a unit expression at `pos`.
pub fn parse(inp: &Input, pos: usize) -> (r: PResult<Node<UnitExpr>, ParserError>)
    requires
        inp.wf(),
        pos <= inp.text().len(),
    ensures
        unit_res(r) == unit_expr_spec(inp.text(), pos as int),
        unit_within(r, pos as int, inp.text().len() as int),
{
    unit_expr(inp, pos)
}

/// Parses a unit expression that runs from `pos` to the end of the text.
pub fn parse_complete(inp: &Input, pos: usize) -> (r: PResult<Node<UnitExpr>, ParserError>)
    requires
        inp.wf(),
        pos <= inp.text().len(),
    ensures
        unit_res(r) == complete(inp.text(), unit_expr_spec(inp.text(), pos as int)),
{
    finish(inp, unit_expr(inp, pos))
}

} // verus!
