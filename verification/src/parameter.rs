//! Parameter declarations: an optional performance marker and trace level,
//! a label, optional limits, `:`, an identifier, `=`, a value, the end of
//! the line, and an optional note.
use vstd::prelude::*;

use crate::ast::{
    expr_node_view, expr_nodes_view, ident_view, limits_node_view, limits_view, node, note_view, opt_unit_view,
    parameter_node_view, part_view, parts_view, unit_node_view, value_view, Expr, ExprModel,
    Identifier, Label, Limits, LimitsModel, Node, Note, Parameter, ParameterModel, ParameterValue,
    PartModel, PerformanceMarker, PiecewisePart, TraceLevel, UnitExpr, UnitModel, ValueModel,
};
use crate::combinator::{
    complete, eol_at, eol_node, eol_node_or_fail, eol_or_fail, finish, ident_or_fail,
    identifier_node_or_fail, keyword_node_or_fail, kw_or_fail, optional, or_else, outside,
    res_view, sym, sym_as, sym_or_fail, symbol_node, symbol_node_as, symbol_node_or_fail, SRes,
};
use crate::error::{
    escalate, escalate_fault, incomplete, lift_as, lift_fault_as, ExpectKind, IncompleteKind,
    ParameterKind, ParserError, ParserErrorReason,
};
use crate::expression::{args_rest, args_tail, expr, expr_spec};
use crate::note::{note_after, note_res, note_spec, parse as parse_note};
use crate::outcome::{Fault, PResult};
use crate::test::{trace_level, trace_level_spec};
use crate::text::{location_of, span_join, span_of, Input, Span};
use crate::token::error::{ExpectKeyword, ExpectSymbol, TokenError};
use crate::token::naming::{label, lex_label};
use crate::token::structure::lex_end_of_line;
use crate::token::util::skip_ws;
use crate::unit::{parse as parse_unit, unit_expr_spec, unit_res};

verus! {

/// The label at `p` as a node of its characters; a recoverable error
/// becomes "expected a parameter".
#[verifier::opaque]
pub open spec fn label_at(s: Seq<char>, p: int) -> SRes<Node<Seq<char>>> {
    match lex_label(s, p) {
        Ok(e) => Ok(
            (skip_ws(s, e), node(s.subrange(p, e), span_of(s, p, e), span_of(s, e, skip_ws(s, e)))),
        ),
        Err(f) => Err(lift_as(f, ParserErrorReason::Expect(ExpectKind::Parameter))),
    }
}

/// A parameter's incomplete-construct reason with cause `cause`.
pub open spec fn param_incomplete(cause: Span, k: ParameterKind) -> ParserErrorReason {
    incomplete(cause, IncompleteKind::Parameter(k))
}

/// Continuous limits at `p`: `(min, max)`.
#[verifier::opaque]
pub open spec fn continuous_spec(s: Seq<char>, p: int) -> SRes<Node<LimitsModel>> {
    match sym(s, p, ExpectSymbol::ParenLeft, ()) {
        Err(f) => Err(f),
        Ok((q, open)) => match expr_spec(s, q) {
            Err(f) => Err(escalate(f, param_incomplete(open.span, ParameterKind::LimitMissingMin))),
            Ok((q2, min)) => match sym_or_fail(
                s,
                q2,
                ExpectSymbol::Comma,
                (),
                param_incomplete(min.span, ParameterKind::LimitMissingComma),
            ) {
                Err(f) => Err(f),
                Ok((q3, comma)) => match expr_spec(s, q3) {
                    Err(f) => Err(
                        escalate(f, param_incomplete(comma.span, ParameterKind::LimitMissingMax)),
                    ),
                    Ok((q4, max)) => match sym_or_fail(
                        s,
                        q4,
                        ExpectSymbol::ParenRight,
                        (),
                        incomplete(open.span, IncompleteKind::UnclosedParen),
                    ) {
                        Err(f) => Err(f),
                        Ok((q5, close)) => Ok(
                            (
                                q5,
                                node(
                                    LimitsModel::Continuous { min, max },
                                    span_join(open.span, close.span),
                                    close.whitespace_span,
                                ),
                            ),
                        ),
                    },
                },
            },
        },
    }
}

/// The values of discrete limits from `p`: one or more expressions
/// separated by `,`.
pub open spec fn values_spec(s: Seq<char>, p: int) -> SRes<Seq<Node<ExprModel>>> {
    match expr_spec(s, p) {
        Err(f) => Err(f),
        Ok((q, a)) => args_rest(s, q, seq![a]),
    }
}

/// Discrete limits at `p`: `[a, b, ...]`.
#[verifier::opaque]
pub open spec fn discrete_spec(s: Seq<char>, p: int) -> SRes<Node<LimitsModel>> {
    match sym(s, p, ExpectSymbol::BracketLeft, ()) {
        Err(f) => Err(f),
        Ok((q, open)) => match values_spec(s, q) {
            Err(f) => Err(escalate(f, param_incomplete(open.span, ParameterKind::LimitMissingValues))),
            Ok((q2, values)) => match sym_or_fail(
                s,
                q2,
                ExpectSymbol::BracketRight,
                (),
                incomplete(open.span, IncompleteKind::UnclosedBracket),
            ) {
                Err(f) => Err(f),
                Ok((q3, close)) => Ok(
                    (
                        q3,
                        node(
                            LimitsModel::Discrete { values },
                            span_join(open.span, close.span),
                            close.whitespace_span,
                        ),
                    ),
                ),
            },
        },
    }
}

/// The limits at `p`: continuous or discrete.
pub open spec fn limits_spec(s: Seq<char>, p: int) -> SRes<Node<LimitsModel>> {
    or_else(continuous_spec(s, p), discrete_spec(s, p))
}

/// The unit after a value: `:` and a unit expression.
#[verifier::opaque]
pub open spec fn unit_suffix(s: Seq<char>, p: int) -> SRes<Node<UnitModel>> {
    match sym(s, p, ExpectSymbol::Colon, ()) {
        Err(f) => Err(f),
        Ok((q, colon)) => match unit_expr_spec(s, q) {
            Err(f) => Err(escalate(f, param_incomplete(colon.span, ParameterKind::MissingUnit))),
            Ok(x) => Ok(x),
        },
    }
}

/// A simple value at `p`: an expression with an optional unit.
#[verifier::opaque]
pub open spec fn simple_spec(s: Seq<char>, p: int) -> SRes<Node<ValueModel>> {
    match expr_spec(s, p) {
        Err(f) => Err(f),
        Ok((q, e)) => match optional(unit_suffix(s, q), q) {
            Err(f) => Err(f),
            Ok((q2, u)) => Ok(
                (
                    q2,
                    node(
                        ValueModel::Simple(e, u),
                        span_join(
                            e.span,
                            match u {
                                Some(x) => x.span,
                                None => e.span,
                            },
                        ),
                        match u {
                            Some(x) => x.whitespace_span,
                            None => e.whitespace_span,
                        },
                    ),
                ),
            ),
        },
    }
}

/// A piecewise part at `p`: `{`, an expression, `if`, a condition.
#[verifier::opaque]
pub open spec fn part_spec(s: Seq<char>, p: int) -> SRes<Node<PartModel>> {
    match sym(s, p, ExpectSymbol::BraceLeft, ()) {
        Err(f) => Err(f),
        Ok((q, brace)) => match expr_spec(s, q) {
            Err(f) => Err(escalate(f, param_incomplete(brace.span, ParameterKind::PiecewiseMissingExpr))),
            Ok((q2, e)) => match kw_or_fail(
                s,
                q2,
                ExpectKeyword::If,
                (),
                param_incomplete(e.span, ParameterKind::PiecewiseMissingIf),
            ) {
                Err(f) => Err(f),
                Ok((q3, if_kw)) => match expr_spec(s, q3) {
                    Err(f) => Err(
                        escalate(f, param_incomplete(if_kw.span, ParameterKind::PiecewiseMissingIfExpr)),
                    ),
                    Ok((q4, cond)) => Ok(
                        (
                            q4,
                            node(
                                PartModel { expr: e, if_expr: cond },
                                span_join(brace.span, cond.span),
                                cond.whitespace_span,
                            ),
                        ),
                    ),
                },
            },
        },
    }
}

/// The further piecewise parts from `p`, after `acc`: each an end of line
/// and a part; an end of line without a part after it is left unconsumed.
pub open spec fn parts_rest(s: Seq<char>, p: int, acc: Seq<Node<PartModel>>) -> SRes<
    Seq<Node<PartModel>>,
>
    decreases s.len() - p,
{
    match eol_at(s, p) {
        Err(Fault::Error(_)) => Ok((p, acc)),
        Err(f) => Err(f),
        Ok((q, _)) => match part_spec(s, q) {
            Err(Fault::Error(_)) => Ok((p, acc)),
            Err(f) => Err(f),
            Ok((q2, part)) => if p < q2 <= s.len() {
                parts_rest(s, q2, acc.push(part))
            } else {
                outside()
            },
        },
    }
}

/// The piecewise value made of its first part, its unit, and the result of
/// parsing the further parts.
pub open spec fn piecewise_from(
    first: Node<PartModel>,
    u: Option<Node<UnitModel>>,
    r: SRes<Seq<Node<PartModel>>>,
) -> SRes<Node<ValueModel>> {
    match r {
        Err(f) => Err(f),
        Ok((q3, rest)) => {
            let last = if rest.len() > 0 {
                rest.last().span
            } else {
                match u {
                    Some(x) => x.span,
                    None => first.span,
                }
            };
            let ws = if rest.len() > 0 {
                rest.last().whitespace_span
            } else {
                match u {
                    Some(x) => x.whitespace_span,
                    None => first.whitespace_span,
                }
            };
            Ok((q3, node(ValueModel::Piecewise(seq![first] + rest, u), span_join(first.span, last), ws)))
        },
    }
}

/// A piecewise value at `p`: a first part, an optional unit, and further
/// parts on the following lines.
#[verifier::opaque]
pub open spec fn piecewise_spec(s: Seq<char>, p: int) -> SRes<Node<ValueModel>> {
    match part_spec(s, p) {
        Err(f) => Err(f),
        Ok((q, first)) => match optional(unit_suffix(s, q), q) {
            Err(f) => Err(f),
            Ok((q2, u)) => piecewise_from(first, u, parts_rest(s, q2, Seq::empty())),
        },
    }
}

/// The value of a parameter at `p`: simple, else piecewise.
pub open spec fn value_spec(s: Seq<char>, p: int) -> SRes<Node<ValueModel>> {
    or_else(simple_spec(s, p), piecewise_spec(s, p))
}

/// The parameter declaration at `p`. Its span runs from the performance
/// marker, the trace level or the label to the end of the line or the note.
pub open spec fn parameter_spec(s: Seq<char>, p: int) -> SRes<Node<ParameterModel>> {
    match optional(sym(s, p, ExpectSymbol::Dollar, PerformanceMarker), p) {
        Err(f) => Err(f),
        Ok((p1, pm)) => match optional(trace_level_spec(s, p1), p1) {
            Err(f) => Err(f),
            Ok((p2, tl)) => match label_at(s, p2) {
                Err(f) => Err(f),
                Ok((p3, lbl)) => match optional(limits_spec(s, p3), p3) {
                    Err(f) => Err(f),
                    Ok((p4, lim)) => match sym_as(
                        s,
                        p4,
                        ExpectSymbol::Colon,
                        (),
                        ParserErrorReason::Expect(ExpectKind::Parameter),
                    ) {
                        Err(f) => Err(f),
                        Ok((p5, colon)) => parameter_body(s, p5, pm, tl, lbl, lim, colon.span),
                    },
                },
            },
        },
    }
}

/// A parameter starts where its text starts: it has a performance marker
/// exactly when its text starts with `$`, that marker spans the `$`, and
/// the parameter's span starts at the first character of its text.
pub proof fn lemma_parameter_marker(s: Seq<char>, p: int)
    requires
        0 <= p <= s.len(),
    ensures
        parameter_spec(s, p) matches Ok((_, n)) ==> {
            &&& (n.value.performance_marker is Some <==> (p < s.len() && s[p] == '$'))
            &&& (n.value.performance_marker matches Some(m) ==> m.span == span_of(s, p, p + 1))
            &&& n.span.start == location_of(s, p)
        },
{
    reveal(sym);
    reveal(trace_level_spec);
    reveal(label_at);
    reveal(eol_or_fail);
    if p < s.len() && s[p] == '$' {
        assert(s.subrange(p, p + 1) =~= seq!['$']);
    } else if p < s.len() {
        assert(s.subrange(p, p + 1) != seq!['$']) by {
            assert(s.subrange(p, p + 1)[0] != seq!['$'][0]);
        }
    }
}

/// What follows the value of a parameter: `value` is read from `k7` up to
/// `k8`, the end of line there ends at `e`, and `note` is the note that
/// parses at `e` (none when none does), after which parsing goes on at `q`.
pub open spec fn note_follows_value(
    s: Seq<char>,
    k7: int,
    k8: int,
    e: int,
    value: Node<ValueModel>,
    note: Option<Node<Seq<char>>>,
    q: int,
) -> bool {
    &&& value_spec(s, k7) == Ok::<(int, Node<ValueModel>), Fault<ParserError>>((k8, value))
    &&& lex_end_of_line(s, k8) == Ok::<int, Fault<TokenError>>(e)
    &&& note == note_after(s, e).1
    &&& q == note_after(s, e).0
}

/// The rest of a parameter keeps the note that follows the end of line
/// after its value.
proof fn lemma_parameter_body_note(
    s: Seq<char>,
    p: int,
    pm: Option<Node<PerformanceMarker>>,
    tl: Option<Node<TraceLevel>>,
    lbl: Node<Seq<char>>,
    lim: Option<Node<LimitsModel>>,
    colon: Span,
)
    ensures
        parameter_body(s, p, pm, tl, lbl, lim, colon) matches Ok((q, n)) ==> exists|k7: int, k8: int, e: int|
            #[trigger] note_follows_value(s, k7, k8, e, n.value.value, n.value.note, q),
{
    reveal(eol_or_fail);
    if let Ok((p6, ident)) = ident_or_fail(s, p, param_incomplete(colon, ParameterKind::MissingIdentifier)) {
        if let Ok((p7, eq)) = sym_or_fail(
            s,
            p6,
            ExpectSymbol::Equals,
            (),
            param_incomplete(ident.span, ParameterKind::MissingEqualsSign),
        ) {
            if let Ok((p8, value)) = value_spec(s, p7) {
                if let Ok(e) = lex_end_of_line(s, p8) {
                    if let Ok((q, n)) = parameter_body(s, p, pm, tl, lbl, lim, colon) {
                        assert(note_follows_value(s, p7, p8, e, n.value.value, n.value.note, q));
                    }
                }
            }
        }
    }
}

/// A parameter keeps the note that follows the end of line after its value:
/// its note is exactly the note that parses there, none only when no note
/// does, and parsing goes on after that note.
pub proof fn lemma_parameter_note(s: Seq<char>, p: int)
    ensures
        parameter_spec(s, p) matches Ok((q, n)) ==> exists|k7: int, k8: int, e: int|
            #[trigger] note_follows_value(s, k7, k8, e, n.value.value, n.value.note, q),
{
    if let Ok((p1, pm)) = optional(sym(s, p, ExpectSymbol::Dollar, PerformanceMarker), p) {
        if let Ok((p2, tl)) = optional(trace_level_spec(s, p1), p1) {
            if let Ok((p3, lbl)) = label_at(s, p2) {
                if let Ok((p4, lim)) = optional(limits_spec(s, p3), p3) {
                    if let Ok((p5, colon)) = sym_as(
                        s,
                        p4,
                        ExpectSymbol::Colon,
                        (),
                        ParserErrorReason::Expect(ExpectKind::Parameter),
                    ) {
                        lemma_parameter_body_note(s, p5, pm, tl, lbl, lim, colon.span);
                    }
                }
            }
        }
    }
}

/// The rest of a parameter declaration from `p`, after its `:`.
pub open spec fn parameter_body(
    s: Seq<char>,
    p: int,
    pm: Option<Node<PerformanceMarker>>,
    tl: Option<Node<TraceLevel>>,
    lbl: Node<Seq<char>>,
    lim: Option<Node<LimitsModel>>,
    colon: Span,
) -> SRes<Node<ParameterModel>> {
    match ident_or_fail(s, p, param_incomplete(colon, ParameterKind::MissingIdentifier)) {
        Err(f) => Err(f),
        Ok((p6, ident)) => match sym_or_fail(
            s,
            p6,
            ExpectSymbol::Equals,
            (),
            param_incomplete(ident.span, ParameterKind::MissingEqualsSign),
        ) {
            Err(f) => Err(f),
            Ok((p7, eq)) => match value_spec(s, p7) {
                Err(f) => Err(escalate(f, param_incomplete(eq.span, ParameterKind::MissingValue))),
                Ok((p8, value)) => match eol_or_fail(
                    s,
                    p8,
                    param_incomplete(value.span, ParameterKind::MissingEndOfLine),
                ) {
                    Err(f) => Err(f),
                    Ok((p9, eol)) => match optional(note_spec(s, p9), p9) {
                        Err(f) => Err(f),
                        Ok((p10, n)) => {
                            let start = match pm {
                                Some(m) => m.span,
                                None => match tl {
                                    Some(t) => t.span,
                                    None => lbl.span,
                                },
                            };
                            let end = match n {
                                Some(x) => x.span,
                                None => eol.span,
                            };
                            let ws = match n {
                                Some(x) => x.whitespace_span,
                                None => eol.whitespace_span,
                            };
                            Ok(
                                (
                                    p10,
                                    node(
                                        ParameterModel {
                                            label: lbl,
                                            ident,
                                            value,
                                            limits: lim,
                                            performance_marker: pm,
                                            trace_level: tl,
                                            note: n,
                                        },
                                        span_join(start, end),
                                        ws,
                                    ),
                                ),
                            )
                        },
                    },
                },
            },
        },
    }
}

fn continuous_limits(inp: &Input, pos: usize) -> (r: PResult<Node<Limits>, ParserError>)
    requires
        inp.wf(),
        pos <= inp.text().len(),
    ensures
        res_view(r, |n: Node<Limits>| limits_node_view(n)) == continuous_spec(inp.text(), pos as int),
        r matches Ok((q, _)) ==> pos <= q <= inp.text().len(),
{
    proof {
        reveal(continuous_spec);
    }
    let (q, open) = match symbol_node(inp, pos, ExpectSymbol::ParenLeft, ()) {
        Err(f) => {
            return Err(f);
        },
        Ok(x) => x,
    };
    let missing_min = ParserErrorReason::Incomplete {
        cause: open.span,
        kind: IncompleteKind::Parameter(ParameterKind::LimitMissingMin),
    };
    let (q2, min) = match expr(inp, q) {
        Err(f) => {
            return Err(escalate_fault(f, missing_min));
        },
        Ok(x) => x,
    };
    let missing_comma = ParserErrorReason::Incomplete {
        cause: min.span,
        kind: IncompleteKind::Parameter(ParameterKind::LimitMissingComma),
    };
    let (q3, comma) = match symbol_node_or_fail(inp, q2, ExpectSymbol::Comma, (), missing_comma) {
        Err(f) => {
            return Err(f);
        },
        Ok(x) => x,
    };
    let missing_max = ParserErrorReason::Incomplete {
        cause: comma.span,
        kind: IncompleteKind::Parameter(ParameterKind::LimitMissingMax),
    };
    let (q4, max) = match expr(inp, q3) {
        Err(f) => {
            return Err(escalate_fault(f, missing_max));
        },
        Ok(x) => x,
    };
    let unclosed = ParserErrorReason::Incomplete { cause: open.span, kind: IncompleteKind::UnclosedParen };
    match symbol_node_or_fail(inp, q4, ExpectSymbol::ParenRight, (), unclosed) {
        Err(f) => Err(f),
        Ok((q5, close)) => {
            let sp = Span::from_start_and_end(&open.span, &close.span);
            Ok((q5, Node::new(Limits::Continuous { min, max }, sp, close.whitespace_span)))
        },
    }
}

fn discrete_limits(inp: &Input, pos: usize) -> (r: PResult<Node<Limits>, ParserError>)
    requires
        inp.wf(),
        pos <= inp.text().len(),
    ensures
        res_view(r, |n: Node<Limits>| limits_node_view(n)) == discrete_spec(inp.text(), pos as int),
        r matches Ok((q, _)) ==> pos <= q <= inp.text().len(),
{
    proof {
        reveal(discrete_spec);
    }
    let (q, open) = match symbol_node(inp, pos, ExpectSymbol::BracketLeft, ()) {
        Err(f) => {
            return Err(f);
        },
        Ok(x) => x,
    };
    let missing = ParserErrorReason::Incomplete {
        cause: open.span,
        kind: IncompleteKind::Parameter(ParameterKind::LimitMissingValues),
    };
    let (q1, a) = match expr(inp, q) {
        Err(f) => {
            return Err(escalate_fault(f, missing));
        },
        Ok(x) => x,
    };
    let mut v: Vec<Node<Expr>> = Vec::new();
    v.push(a);
    proof {
        assert(v@.drop_last() =~= Seq::<Node<Expr>>::empty());
        assert(expr_nodes_view(v@.drop_last()) =~= Seq::empty());
        assert(expr_nodes_view(v@) =~= seq![expr_node_view(a)]);
    }
    let (q2, values) = match args_tail(inp, q1, v) {
        Err(f) => {
            return Err(escalate_fault(f, missing));
        },
        Ok(x) => x,
    };
    let unclosed = ParserErrorReason::Incomplete { cause: open.span, kind: IncompleteKind::UnclosedBracket };
    match symbol_node_or_fail(inp, q2, ExpectSymbol::BracketRight, (), unclosed) {
        Err(f) => Err(f),
        Ok((q3, close)) => {
            let sp = Span::from_start_and_end(&open.span, &close.span);
            Ok((q3, Node::new(Limits::Discrete { values }, sp, close.whitespace_span)))
        },
    }
}

fn limits(inp: &Input, pos: usize) -> (r: PResult<Node<Limits>, ParserError>)
    requires
        inp.wf(),
        pos <= inp.text().len(),
    ensures
        res_view(r, |n: Node<Limits>| limits_node_view(n)) == limits_spec(inp.text(), pos as int),
        r matches Ok((q, _)) ==> pos <= q <= inp.text().len(),
{
    let r = continuous_limits(inp, pos);
    if !(r matches Err(Fault::Error(_))) {
        return r;
    }
    discrete_limits(inp, pos)
}

fn unit_after(inp: &Input, pos: usize) -> (r: PResult<Node<UnitExpr>, ParserError>)
    requires
        inp.wf(),
        pos <= inp.text().len(),
    ensures
        unit_res(r) == unit_suffix(inp.text(), pos as int),
        r matches Ok((q, _)) ==> pos <= q <= inp.text().len(),
{
    proof {
        reveal(unit_suffix);
    }
    let (q, colon) = match symbol_node(inp, pos, ExpectSymbol::Colon, ()) {
        Err(f) => {
            return Err(f);
        },
        Ok(x) => x,
    };
    let missing = ParserErrorReason::Incomplete {
        cause: colon.span,
        kind: IncompleteKind::Parameter(ParameterKind::MissingUnit),
    };
    match parse_unit(inp, q) {
        Err(f) => Err(escalate_fault(f, missing)),
        Ok(x) => Ok(x),
    }
}

fn optional_unit(inp: &Input, pos: usize) -> (r: PResult<Option<Node<UnitExpr>>, ParserError>)
    requires
        inp.wf(),
        pos <= inp.text().len(),
    ensures
        res_view(r, |u: Option<Node<UnitExpr>>| opt_unit_view(u)) == optional(
            unit_suffix(inp.text(), pos as int),
            pos as int,
        ),
        r matches Ok((q, _)) ==> pos <= q <= inp.text().len(),
{
    match unit_after(inp, pos) {
        Ok((q, u)) => Ok((q, Some(u))),
        Err(Fault::Error(_)) => Ok((pos, None)),
        Err(Fault::Failure(e)) => Err(Fault::Failure(e)),
    }
}

fn simple_value(inp: &Input, pos: usize) -> (r: PResult<Node<ParameterValue>, ParserError>)
    requires
        inp.wf(),
        pos <= inp.text().len(),
    ensures
        res_view(r, |n: Node<ParameterValue>| value_view(n)) == simple_spec(inp.text(), pos as int),
        r matches Ok((q, _)) ==> pos <= q <= inp.text().len(),
{
    proof {
        reveal(simple_spec);
    }
    let (q, e) = match expr(inp, pos) {
        Err(f) => {
            return Err(f);
        },
        Ok(x) => x,
    };
    let (q2, u) = match optional_unit(inp, q) {
        Err(f) => {
            return Err(f);
        },
        Ok(x) => x,
    };
    let (end, ws) = match &u {
        Some(x) => (x.span, x.whitespace_span),
        None => (e.span, e.whitespace_span),
    };
    let sp = Span::from_start_and_end(&e.span, &end);
    Ok((q2, Node::new(ParameterValue::Simple(e, u), sp, ws)))
}

fn piecewise_part(inp: &Input, pos: usize) -> (r: PResult<Node<PiecewisePart>, ParserError>)
    requires
        inp.wf(),
        pos <= inp.text().len(),
    ensures
        res_view(r, |n: Node<PiecewisePart>| part_view(n)) == part_spec(inp.text(), pos as int),
        r matches Ok((q, _)) ==> pos < q <= inp.text().len(),
{
    proof {
        reveal(part_spec);
    }
    let (q, brace) = match symbol_node(inp, pos, ExpectSymbol::BraceLeft, ()) {
        Err(f) => {
            return Err(f);
        },
        Ok(x) => x,
    };
    let missing_expr = ParserErrorReason::Incomplete {
        cause: brace.span,
        kind: IncompleteKind::Parameter(ParameterKind::PiecewiseMissingExpr),
    };
    let (q2, e) = match expr(inp, q) {
        Err(f) => {
            return Err(escalate_fault(f, missing_expr));
        },
        Ok(x) => x,
    };
    let missing_if = ParserErrorReason::Incomplete {
        cause: e.span,
        kind: IncompleteKind::Parameter(ParameterKind::PiecewiseMissingIf),
    };
    let (q3, if_kw) = match keyword_node_or_fail(inp, q2, ExpectKeyword::If, (), missing_if) {
        Err(f) => {
            return Err(f);
        },
        Ok(x) => x,
    };
    let missing_cond = ParserErrorReason::Incomplete {
        cause: if_kw.span,
        kind: IncompleteKind::Parameter(ParameterKind::PiecewiseMissingIfExpr),
    };
    let (q4, cond) = match expr(inp, q3) {
        Err(f) => {
            return Err(escalate_fault(f, missing_cond));
        },
        Ok(x) => x,
    };
    let sp = Span::from_start_and_end(&brace.span, &cond.span);
    let ws = cond.whitespace_span;
    Ok((q4, Node::new(PiecewisePart { expr: e, if_expr: cond }, sp, ws)))
}

fn piecewise_value(inp: &Input, pos: usize) -> (r: PResult<Node<ParameterValue>, ParserError>)
    requires
        inp.wf(),
        pos <= inp.text().len(),
    ensures
        res_view(r, |n: Node<ParameterValue>| value_view(n)) == piecewise_spec(inp.text(), pos as int),
        r matches Ok((q, _)) ==> pos <= q <= inp.text().len(),
{
    proof {
        reveal(piecewise_spec);
    }
    let ghost s = inp.text();
    let (q, first) = match piecewise_part(inp, pos) {
        Err(f) => {
            return Err(f);
        },
        Ok(x) => x,
    };
    let (q2, u) = match optional_unit(inp, q) {
        Err(f) => {
            return Err(f);
        },
        Ok(x) => x,
    };
    let mut rest: Vec<Node<PiecewisePart>> = Vec::new();
    let mut cur = q2;
    proof {
        assert(parts_view(rest@) =~= Seq::empty());
    }
    let ghost whole = piecewise_spec(s, pos as int);
    assert(whole == piecewise_from(part_view(first), opt_unit_view(u), parts_rest(s, q2 as int, Seq::empty())));
    loop
        invariant
            inp.wf(),
            s == inp.text(),
            q2 <= cur <= s.len(),
            parts_rest(s, cur as int, parts_view(rest@)) == parts_rest(s, q2 as int, Seq::empty()),
            whole == piecewise_spec(s, pos as int),
            whole == piecewise_from(part_view(first), opt_unit_view(u), parts_rest(s, q2 as int, Seq::empty())),
        ensures
            q2 <= cur <= s.len(),
            parts_rest(s, cur as int, parts_view(rest@)) == parts_rest(s, q2 as int, Seq::empty()),
            parts_rest(s, cur as int, parts_view(rest@)) == Ok::<
                (int, Seq<Node<PartModel>>),
                Fault<ParserError>,
            >((cur as int, parts_view(rest@))),
        decreases s.len() - cur,
    {
        let q3 = match eol_node(inp, cur) {
            Err(Fault::Error(_)) => {
                break ;
            },
            Err(f) => {
                return Err(f);
            },
            Ok((q3, _)) => q3,
        };
        match piecewise_part(inp, q3) {
            Err(Fault::Error(_)) => {
                break ;
            },
            Err(f) => {
                return Err(f);
            },
            Ok((q4, part)) => {
                let ghost old_rest = rest@;
                rest.push(part);
                proof {
                    assert(parts_view(rest@) =~= parts_view(old_rest).push(part_view(part)));
                }
                cur = q4;
            },
        }
    }
    let n = rest.len();
    let (end, ws) = if n > 0 {
        (rest[n - 1].span, rest[n - 1].whitespace_span)
    } else {
        match &u {
            Some(x) => (x.span, x.whitespace_span),
            None => (first.span, first.whitespace_span),
        }
    };
    let sp = Span::from_start_and_end(&first.span, &end);
    let mut parts: Vec<Node<PiecewisePart>> = Vec::new();
    parts.push(first);
    let ghost rest_seq = rest@;
    parts.append(&mut rest);
    proof {
        assert(parts_view(parts@) =~= seq![part_view(first)] + parts_view(rest_seq));
    }
    Ok((cur, Node::new(ParameterValue::Piecewise(parts, u), sp, ws)))
}

/// Parses the value of a parameter at `pos`: a simple value, else a
/// piecewise value.
pub fn parse_parameter_value(inp: &Input, pos: usize) -> (r: PResult<Node<ParameterValue>, ParserError>)
    requires
        inp.wf(),
        pos <= inp.text().len(),
    ensures
        res_view(r, |n: Node<ParameterValue>| value_view(n)) == value_spec(inp.text(), pos as int),
        r matches Ok((q, _)) ==> pos <= q <= inp.text().len(),
{
    let r = simple_value(inp, pos);
    if !(r matches Err(Fault::Error(_))) {
        return r;
    }
    piecewise_value(inp, pos)
}

fn optional_limits(inp: &Input, pos: usize) -> (r: PResult<Option<Node<Limits>>, ParserError>)
    requires
        inp.wf(),
        pos <= inp.text().len(),
    ensures
        res_view(r, |l: Option<Node<Limits>>| limits_view(l)) == optional(
            limits_spec(inp.text(), pos as int),
            pos as int,
        ),
        r matches Ok((q, _)) ==> pos <= q <= inp.text().len(),
{
    match limits(inp, pos) {
        Ok((q, l)) => Ok((q, Some(l))),
        Err(Fault::Error(_)) => Ok((pos, None)),
        Err(Fault::Failure(e)) => Err(Fault::Failure(e)),
    }
}

/// The model of the result of a parameter parser.
pub open spec fn parameter_res(r: PResult<Node<Parameter>, ParserError>) -> SRes<Node<ParameterModel>> {
    res_view(r, |n: Node<Parameter>| parameter_node_view(n))
}

/// Parses a performance marker (`$`) at `pos`.
pub fn performance_marker(inp: &Input, pos: usize) -> (r: PResult<Node<PerformanceMarker>, ParserError>)
    requires
        inp.wf(),
        pos <= inp.text().len(),
    ensures
        res_view(r, |n: Node<PerformanceMarker>| n) == sym(inp.text(), pos as int, ExpectSymbol::Dollar, PerformanceMarker),
        r matches Ok((q, _)) ==> pos < q <= inp.text().len(),
{
    symbol_node(inp, pos, ExpectSymbol::Dollar, PerformanceMarker)
}

/// Parses a parameter declaration at `pos`.
pub fn parse(inp: &Input, pos: usize) -> (r: PResult<Node<Parameter>, ParserError>)
    requires
        inp.wf(),
        pos <= inp.text().len(),
    ensures
        parameter_res(r) == parameter_spec(inp.text(), pos as int),
        r matches Ok((q, _)) ==> pos <= q <= inp.text().len(),
{
    proof {
        reveal(label_at);
    }
    let (p1, pm) = match performance_marker(inp, pos) {
        Ok((q, m)) => (q, Some(m)),
        Err(Fault::Error(_)) => (pos, None),
        Err(Fault::Failure(e)) => {
            return Err(Fault::Failure(e));
        },
    };
    let (p2, tl) = match trace_level(inp, p1) {
        Ok((q, t)) => (q, Some(t)),
        Err(Fault::Error(_)) => (p1, None),
        Err(Fault::Failure(e)) => {
            return Err(Fault::Failure(e));
        },
    };
    let (p3, lbl) = match label(inp, p2) {
        Ok((q, t)) => (q, Node::new(Label(t.lexeme_str), t.lexeme_span, t.whitespace_span)),
        Err(f) => {
            return Err(lift_fault_as(f, ParserErrorReason::Expect(ExpectKind::Parameter)));
        },
    };
    let (p4, lim) = match optional_limits(inp, p3) {
        Err(f) => {
            return Err(f);
        },
        Ok(x) => x,
    };
    let (p5, colon) = match symbol_node_as(
        inp,
        p4,
        ExpectSymbol::Colon,
        (),
        ParserErrorReason::Expect(ExpectKind::Parameter),
    ) {
        Err(f) => {
            return Err(f);
        },
        Ok(x) => x,
    };
    parameter_rest(inp, p5, pm, tl, lbl, lim, colon.span)
}

fn parameter_rest(
    inp: &Input,
    pos: usize,
    pm: Option<Node<PerformanceMarker>>,
    tl: Option<Node<TraceLevel>>,
    lbl: Node<Label>,
    lim: Option<Node<Limits>>,
    colon: Span,
) -> (r: PResult<Node<Parameter>, ParserError>)
    requires
        inp.wf(),
        pos <= inp.text().len(),
    ensures
        parameter_res(r) == parameter_body(
            inp.text(),
            pos as int,
            pm,
            tl,
            node(lbl.value.0@, lbl.span, lbl.whitespace_span),
            limits_view(lim),
            colon,
        ),
        r matches Ok((q, _)) ==> pos <= q <= inp.text().len(),
{
    let missing_ident = ParserErrorReason::Incomplete {
        cause: colon,
        kind: IncompleteKind::Parameter(ParameterKind::MissingIdentifier),
    };
    let (p6, ident) = match identifier_node_or_fail(inp, pos, missing_ident) {
        Err(f) => {
            return Err(f);
        },
        Ok(x) => x,
    };
    let missing_eq = ParserErrorReason::Incomplete {
        cause: ident.span,
        kind: IncompleteKind::Parameter(ParameterKind::MissingEqualsSign),
    };
    let (p7, eq) = match symbol_node_or_fail(inp, p6, ExpectSymbol::Equals, (), missing_eq) {
        Err(f) => {
            return Err(f);
        },
        Ok(x) => x,
    };
    let missing_value = ParserErrorReason::Incomplete {
        cause: eq.span,
        kind: IncompleteKind::Parameter(ParameterKind::MissingValue),
    };
    let (p8, value) = match parse_parameter_value(inp, p7) {
        Err(f) => {
            return Err(escalate_fault(f, missing_value));
        },
        Ok(x) => x,
    };
    let missing_eol = ParserErrorReason::Incomplete {
        cause: value.span,
        kind: IncompleteKind::Parameter(ParameterKind::MissingEndOfLine),
    };
    let (p9, eol) = match eol_node_or_fail(inp, p8, missing_eol) {
        Err(f) => {
            return Err(f);
        },
        Ok(x) => x,
    };
    let (p10, n) = match parse_note(inp, p9) {
        Ok((q, x)) => (q, Some(x)),
        Err(Fault::Error(_)) => (p9, None),
        Err(Fault::Failure(e)) => {
            return Err(Fault::Failure(e));
        },
    };
    let start = match &pm {
        Some(m) => m.span,
        None => match &tl {
            Some(t) => t.span,
            None => lbl.span,
        },
    };
    let (end, ws) = match &n {
        Some(x) => (x.span, x.whitespace_span),
        None => (eol.span, eol.whitespace_span),
    };
    let sp = Span::from_start_and_end(&start, &end);
    let param = Parameter {
        label: lbl,
        ident,
        value,
        limits: lim,
        performance_marker: pm,
        trace_level: tl,
        note: n,
    };
    Ok((p10, Node::new(param, sp, ws)))
}

/// Parses a parameter declaration that runs from `pos` to the end of the
/// text.
pub fn parse_complete(inp: &Input, pos: usize) -> (r: PResult<Node<Parameter>, ParserError>)
    requires
        inp.wf(),
        pos <= inp.text().len(),
    ensures
        parameter_res(r) == complete(inp.text(), parameter_spec(inp.text(), pos as int)),
{
    finish(inp, parse(inp, pos))
}

} // verus!
