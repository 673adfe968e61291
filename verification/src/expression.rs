//! Expressions of the Oneil language.
//!
//! From the loosest binding to the tightest: `or`, `and`, `not`, chained
//! comparisons, `|` (min/max), `+ - --`, `* / // %`, `^` (right
//! associative), unary `-`, and the primary expressions: literals, function
//! calls, variables and parenthesized expressions.
use vstd::prelude::*;

use crate::ast::{
    expr_node_view, expr_nodes_view, chain_view, lemma_chain_view, lemma_nodes_view, node,
    BinaryOp, ComparisonOp, Expr, ExprModel, Identifier, Literal, LiteralModel, Node, UnaryOp,
    Variable, VariableModel,
};
use crate::combinator::{
    complete, finish, ident_at, identifier_node, keyword_node, kw, or_else, outside, res_view,
    sym, sym_or_fail, symbol_node, symbol_node_or_fail, SRes,
};
use crate::error::{
    escalate, escalate_fault, incomplete, lift, lift_fail, lift_fault, lift_fault_fail, recast,
    recast_fault, ExpectKind, ExprKind, IncompleteKind, ParserError, ParserErrorReason,
};
use crate::outcome::{Fault, PResult};
use crate::text::{span_join, span_of, Input, Span};
use crate::token::error::{ExpectKeyword, ExpectSymbol};
use crate::token::keyword::{keyword, lemma_keyword_whole_word, lex_keyword};
use crate::token::literal::{lex_number, lex_string, number, string};
use crate::token::naming::{identifier, lex_identifier};
use crate::token::symbol::{lex_symbol, symbol};
use crate::token::util::skip_ws;

verus! {

/// The levels of left-associative binary operators.
#[derive(Debug, Clone, Copy, PartialEq, Eq, Structural)]
pub enum Chain {
    /// `or`
    Or,
    /// `and`
    And,
    /// `+`, `-`, `--`
    Additive,
    /// `*`, `/`, `//`, `%`
    Multiplicative,
}

/// The rank of a chain level in the termination measure of the grammar.
pub open spec fn chain_base(c: Chain) -> int {
    match c {
        Chain::Or => 28,
        Chain::And => 25,
        Chain::Additive => 16,
        Chain::Multiplicative => 13,
    }
}

/// The operator of the chain level `c` at `p`.
#[verifier::opaque]
pub open spec fn chain_op(s: Seq<char>, p: int, c: Chain) -> SRes<Node<BinaryOp>> {
    match c {
        Chain::Or => kw(s, p, ExpectKeyword::Or, BinaryOp::Or),
        Chain::And => kw(s, p, ExpectKeyword::And, BinaryOp::And),
        Chain::Additive => or_else(
            sym(s, p, ExpectSymbol::Plus, BinaryOp::Add),
            or_else(
                sym(s, p, ExpectSymbol::Minus, BinaryOp::Sub),
                sym(s, p, ExpectSymbol::MinusMinus, BinaryOp::EscapedSub),
            ),
        ),
        Chain::Multiplicative => or_else(
            sym(s, p, ExpectSymbol::Star, BinaryOp::Mul),
            or_else(
                sym(s, p, ExpectSymbol::Slash, BinaryOp::Div),
                or_else(
                    sym(s, p, ExpectSymbol::SlashSlash, BinaryOp::EscapedDiv),
                    sym(s, p, ExpectSymbol::Percent, BinaryOp::Mod),
                ),
            ),
        ),
    }
}

/// How a binary operator is written.
pub open spec fn binary_op_text(op: BinaryOp) -> Seq<char> {
    match op {
        BinaryOp::Add => seq!['+'],
        BinaryOp::Sub => seq!['-'],
        BinaryOp::EscapedSub => seq!['-', '-'],
        BinaryOp::Mul => seq!['*'],
        BinaryOp::Div => seq!['/'],
        BinaryOp::EscapedDiv => seq!['/', '/'],
        BinaryOp::Mod => seq!['%'],
        BinaryOp::Pow => seq!['^'],
        BinaryOp::And => seq!['a', 'n', 'd'],
        BinaryOp::Or => seq!['o', 'r'],
        BinaryOp::MinMax => seq!['|'],
    }
}

/// The operator read between two operands is the one written there: its
/// text stands at the position, and its node spans exactly that text. So
/// `-` gives subtraction, `+` addition, `--` the escaped subtraction, and
/// so on. Conversely, a `-` that does not start `--` always reads as
/// subtraction, and a `+` as addition.
pub proof fn lemma_chain_op_text(s: Seq<char>, p: int, c: Chain)
    requires
        0 <= p <= s.len(),
    ensures
        chain_op(s, p, c) matches Ok((_, op)) ==> {
            let t = binary_op_text(op.value);
            &&& p + t.len() <= s.len()
            &&& s.subrange(p, p + t.len()) == t
            &&& op.span == span_of(s, p, p + t.len())
        },
        c == Chain::Additive && p < s.len() && s[p] == '-' && !(p + 1 < s.len() && s[p + 1] == '-')
            ==> (chain_op(s, p, c) matches Ok((_, op)) && op.value == BinaryOp::Sub),
        c == Chain::Additive && p < s.len() && s[p] == '+' ==> (chain_op(s, p, c) matches Ok((_, op))
            && op.value == BinaryOp::Add),
{
    reveal(chain_op);
    reveal(sym);
    reveal(kw);
    lemma_keyword_whole_word(s, p, ExpectKeyword::And);
    lemma_keyword_whole_word(s, p, ExpectKeyword::Or);
    if p < s.len() && s[p] == '-' {
        assert(s.subrange(p, p + 1) =~= seq!['-']);
        assert(s.subrange(p, p + 1) != seq!['+']) by {
            assert(s.subrange(p, p + 1)[0] != seq!['+'][0]);
        }
        assert(lex_symbol(s, p, ExpectSymbol::Plus) is Err);
        if !(p + 1 < s.len() && s[p + 1] == '-') {
            assert(lex_symbol(s, p, ExpectSymbol::Minus) == Ok::<int, Fault<crate::token::error::TokenError>>(p + 1));
        }
    }
    if p < s.len() && s[p] == '+' {
        assert(s.subrange(p, p + 1) =~= seq!['+']);
    }
}

/// The comparison operator at `p`.
#[verifier::opaque]
pub open spec fn comparison_op(s: Seq<char>, p: int) -> SRes<Node<ComparisonOp>> {
    or_else(
        sym(s, p, ExpectSymbol::LessThanEquals, ComparisonOp::LessThanEq),
        or_else(
            sym(s, p, ExpectSymbol::GreaterThanEquals, ComparisonOp::GreaterThanEq),
            or_else(
                sym(s, p, ExpectSymbol::LessThan, ComparisonOp::LessThan),
                or_else(
                    sym(s, p, ExpectSymbol::GreaterThan, ComparisonOp::GreaterThan),
                    or_else(
                        sym(s, p, ExpectSymbol::EqualsEquals, ComparisonOp::Eq),
                        sym(s, p, ExpectSymbol::BangEquals, ComparisonOp::NotEq),
                    ),
                ),
            ),
        ),
    )
}

/// How a comparison operator is written.
pub open spec fn comparison_op_text(op: ComparisonOp) -> Seq<char> {
    match op {
        ComparisonOp::LessThan => seq!['<'],
        ComparisonOp::LessThanEq => seq!['<', '='],
        ComparisonOp::GreaterThan => seq!['>'],
        ComparisonOp::GreaterThanEq => seq!['>', '='],
        ComparisonOp::Eq => seq!['=', '='],
        ComparisonOp::NotEq => seq!['!', '='],
    }
}

/// The comparison operator read is the one written at the position: its
/// text stands there and its node spans exactly that text.
pub proof fn lemma_comparison_op_text(s: Seq<char>, p: int)
    requires
        0 <= p <= s.len(),
    ensures
        comparison_op(s, p) matches Ok((_, op)) ==> {
            let t = comparison_op_text(op.value);
            &&& p + t.len() <= s.len()
            &&& s.subrange(p, p + t.len()) == t
            &&& op.span == span_of(s, p, p + t.len())
        },
{
    reveal(comparison_op);
    reveal(sym);
}

/// The binary operation `op` of `l` and `r`, spanning both operands.
pub open spec fn binary(op: Node<BinaryOp>, l: Node<ExprModel>, r: Node<ExprModel>) -> Node<
    ExprModel,
> {
    node(
        ExprModel::Binary { op, left: Box::new(l), right: Box::new(r) },
        span_join(l.span, r.span),
        r.whitespace_span,
    )
}

/// The unary operation `op` of `e`, spanning the operator and the operand.
pub open spec fn unary(op: Node<UnaryOp>, e: Node<ExprModel>) -> Node<ExprModel> {
    node(ExprModel::Unary { op, expr: Box::new(e) }, span_join(op.span, e.span), e.whitespace_span)
}

/// The expression made of a first operand and the links of a comparison
/// chain: the operand itself when there are none; else a comparison that
/// spans the first two operands.
pub open spec fn comparison_node(
    first: Node<ExprModel>,
    links: Seq<(Node<ComparisonOp>, Node<ExprModel>)>,
) -> Node<ExprModel> {
    if links.len() == 0 {
        first
    } else {
        node(
            ExprModel::Comparison {
                op: links[0].0,
                left: Box::new(first),
                right: Box::new(links[0].1),
                rest: links.drop_first(),
            },
            span_join(first.span, links[0].1.span),
            links[0].1.whitespace_span,
        )
    }
}

/// A binary operator found without its right operand.
pub open spec fn binop_missing(op: Node<BinaryOp>) -> ParserErrorReason {
    incomplete(
        op.span,
        IncompleteKind::Expr(ExprKind::BinaryOpMissingSecondOperand { operator: op.value }),
    )
}

/// A unary operator found without its operand.
pub open spec fn unary_missing(op: Node<UnaryOp>) -> ParserErrorReason {
    incomplete(op.span, IncompleteKind::Expr(ExprKind::UnaryOpMissingOperand { operator: op.value }))
}

/// A comparison operator found without its right operand.
pub open spec fn comparison_missing(op: Node<ComparisonOp>) -> ParserErrorReason {
    incomplete(
        op.span,
        IncompleteKind::Expr(ExprKind::ComparisonOpMissingSecondOperand { operator: op.value }),
    )
}

/// The node of a literal whose token spans `sp` with whitespace `ws`.
pub open spec fn literal_node(l: LiteralModel, sp: Span, ws: Span) -> Node<ExprModel> {
    node(ExprModel::Lit(node(l, sp, ws)), sp, ws)
}

/// The node of a variable spanning `sp` with whitespace `ws`.
pub open spec fn variable_node(v: VariableModel, sp: Span, ws: Span) -> Node<ExprModel> {
    node(ExprModel::Var(node(v, sp, ws)), sp, ws)
}

/// A number literal at `p`, kept as written.
#[verifier::opaque]
pub open spec fn number_literal(s: Seq<char>, p: int) -> SRes<Node<ExprModel>> {
    match lex_number(s, p) {
        Ok(e) => Ok(
            (
                skip_ws(s, e),
                literal_node(
                    LiteralModel::Number(s.subrange(p, e)),
                    span_of(s, p, e),
                    span_of(s, e, skip_ws(s, e)),
                ),
            ),
        ),
        Err(f) => Err(lift(f)),
    }
}

/// A string literal at `p`; its value is the text between the quotes.
#[verifier::opaque]
pub open spec fn string_literal(s: Seq<char>, p: int) -> SRes<Node<ExprModel>> {
    match lex_string(s, p) {
        Ok(e) => Ok(
            (
                skip_ws(s, e),
                literal_node(
                    LiteralModel::Str(s.subrange(p + 1, e - 1)),
                    span_of(s, p, e),
                    span_of(s, e, skip_ws(s, e)),
                ),
            ),
        ),
        Err(f) => Err(lift(f)),
    }
}

/// The keyword literal `true` or `false` at `p`.
#[verifier::opaque]
pub open spec fn boolean_literal(s: Seq<char>, p: int, b: bool) -> SRes<Node<ExprModel>> {
    let k = if b {
        ExpectKeyword::True
    } else {
        ExpectKeyword::False
    };
    match lex_keyword(s, p, k) {
        Ok(e) => Ok(
            (
                skip_ws(s, e),
                literal_node(
                    LiteralModel::Boolean(b),
                    span_of(s, p, e),
                    span_of(s, e, skip_ws(s, e)),
                ),
            ),
        ),
        Err(f) => Err(lift(f)),
    }
}

/// A variable at `p`: an identifier, optionally followed by `.` and the
/// identifier of a reference model.
#[verifier::opaque]
pub open spec fn variable_spec(s: Seq<char>, p: int) -> SRes<Node<ExprModel>> {
    match ident_at(s, p) {
        Err(f) => Err(f),
        Ok((q, param)) => match sym(s, q, ExpectSymbol::Dot, ()) {
            Err(Fault::Error(_)) => Ok(
                (
                    q,
                    variable_node(
                        VariableModel::Identifier(param),
                        param.span,
                        param.whitespace_span,
                    ),
                ),
            ),
            Err(f) => Err(f),
            Ok((q1, dot)) => match ident_at(s, q1) {
                Err(f) => Err(
                    escalate(
                        f,
                        incomplete(
                            dot.span,
                            IncompleteKind::Expr(ExprKind::VariableMissingReferenceModel),
                        ),
                    ),
                ),
                Ok((q2, reference_model)) => Ok(
                    (
                        q2,
                        variable_node(
                            VariableModel::ModelParameter { reference_model, parameter: param },
                            span_join(param.span, reference_model.span),
                            reference_model.whitespace_span,
                        ),
                    ),
                ),
            },
        },
    }
}

/// An expression at `p`; a recoverable error becomes "expected an
/// expression".
pub open spec fn expr_spec(s: Seq<char>, p: int) -> SRes<Node<ExprModel>>
    decreases s.len() - p, 30int,
{
    match chain_expr(s, p, Chain::Or) {
        Err(f) => Err(recast(f, ParserErrorReason::Expect(ExpectKind::Expr))),
        Ok(x) => Ok(x),
    }
}

/// An expression of the chain level `c` at `p`: its operands joined left to
/// right by its operators.
pub open spec fn chain_expr(s: Seq<char>, p: int, c: Chain) -> SRes<Node<ExprModel>>
    decreases s.len() - p, chain_base(c),
{
    match chain_operand(s, p, c) {
        Err(f) => Err(f),
        Ok((q, first)) => if p <= q <= s.len() {
            chain_rest(s, q, c, first)
        } else {
            outside()
        },
    }
}

/// An operand of the chain level `c` at `p`.
pub open spec fn chain_operand(s: Seq<char>, p: int, c: Chain) -> SRes<Node<ExprModel>>
    decreases s.len() - p, chain_base(c) - 2,
{
    match c {
        Chain::Or => chain_expr(s, p, Chain::And),
        Chain::And => not_spec(s, p),
        Chain::Additive => chain_expr(s, p, Chain::Multiplicative),
        Chain::Multiplicative => exponential_spec(s, p),
    }
}

/// The further operators and operands of the chain level `c` from `p`,
/// folded into `acc` from the left.
pub open spec fn chain_rest(s: Seq<char>, p: int, c: Chain, acc: Node<ExprModel>) -> SRes<
    Node<ExprModel>,
>
    decreases s.len() - p, chain_base(c) - 1,
{
    match chain_op(s, p, c) {
        Err(Fault::Error(_)) => Ok((p, acc)),
        Err(f) => Err(f),
        Ok((q, op)) => if p < q <= s.len() {
            match chain_operand(s, q, c) {
                Err(f) => Err(escalate(f, binop_missing(op))),
                Ok((q2, rhs)) => if q <= q2 <= s.len() {
                    chain_rest(s, q2, c, binary(op, acc, rhs))
                } else {
                    outside()
                },
            }
        } else {
            outside()
        },
    }
}

/// A `not` expression or a comparison at `p`.
pub open spec fn not_spec(s: Seq<char>, p: int) -> SRes<Node<ExprModel>>
    decreases s.len() - p, 22int,
{
    or_else(
        match kw(s, p, ExpectKeyword::Not, UnaryOp::Not) {
            Err(f) => Err(f),
            Ok((q, op)) => if p < q <= s.len() {
                match not_spec(s, q) {
                    Err(f) => Err(escalate(f, unary_missing(op))),
                    Ok((q2, e)) => Ok((q2, unary(op, e))),
                }
            } else {
                outside()
            },
        },
        comparison_spec(s, p),
    )
}

/// A chain of comparisons at `p`.
pub open spec fn comparison_spec(s: Seq<char>, p: int) -> SRes<Node<ExprModel>>
    decreases s.len() - p, 20int,
{
    match minmax_spec(s, p) {
        Err(f) => Err(f),
        Ok((q, first)) => if p <= q <= s.len() {
            match comparison_rest(s, q, Seq::empty()) {
                Err(f) => Err(f),
                Ok((q2, links)) => Ok((q2, comparison_node(first, links))),
            }
        } else {
            outside()
        },
    }
}

/// The further comparison operators and operands from `p`, after `acc`.
pub open spec fn comparison_rest(
    s: Seq<char>,
    p: int,
    acc: Seq<(Node<ComparisonOp>, Node<ExprModel>)>,
) -> SRes<Seq<(Node<ComparisonOp>, Node<ExprModel>)>>
    decreases s.len() - p, 19int,
{
    match comparison_op(s, p) {
        Err(Fault::Error(_)) => Ok((p, acc)),
        Err(f) => Err(f),
        Ok((q, op)) => if p < q <= s.len() {
            match minmax_spec(s, q) {
                Err(f) => Err(escalate(f, comparison_missing(op))),
                Ok((q2, rhs)) => if q <= q2 <= s.len() {
                    comparison_rest(s, q2, acc.push((op, rhs)))
                } else {
                    outside()
                },
            }
        } else {
            outside()
        },
    }
}

/// An additive expression at `p`, optionally followed by `|` and another.
pub open spec fn minmax_spec(s: Seq<char>, p: int) -> SRes<Node<ExprModel>>
    decreases s.len() - p, 18int,
{
    match chain_expr(s, p, Chain::Additive) {
        Err(f) => Err(f),
        Ok((q, first)) => if p <= q <= s.len() {
            match sym(s, q, ExpectSymbol::Bar, BinaryOp::MinMax) {
                Err(Fault::Error(_)) => Ok((q, first)),
                Err(f) => Err(f),
                Ok((q2, op)) => if q < q2 <= s.len() {
                    match chain_expr(s, q2, Chain::Additive) {
                        Err(f) => Err(escalate(f, binop_missing(op))),
                        Ok((q3, rhs)) => Ok((q3, binary(op, first, rhs))),
                    }
                } else {
                    outside()
                },
            }
        } else {
            outside()
        },
    }
}

/// A negation at `p`, optionally raised by `^` to an exponential
/// expression (right associative).
pub open spec fn exponential_spec(s: Seq<char>, p: int) -> SRes<Node<ExprModel>>
    decreases s.len() - p, 10int,
{
    match neg_spec(s, p) {
        Err(f) => Err(f),
        Ok((q, first)) => if p <= q <= s.len() {
            match sym(s, q, ExpectSymbol::Caret, BinaryOp::Pow) {
                Err(Fault::Error(_)) => Ok((q, first)),
                Err(f) => Err(f),
                Ok((q2, op)) => if q < q2 <= s.len() {
                    match exponential_spec(s, q2) {
                        Err(f) => Err(escalate(f, binop_missing(op))),
                        Ok((q3, rhs)) => Ok((q3, binary(op, first, rhs))),
                    }
                } else {
                    outside()
                },
            }
        } else {
            outside()
        },
    }
}

/// A negated expression or a primary expression at `p`.
pub open spec fn neg_spec(s: Seq<char>, p: int) -> SRes<Node<ExprModel>>
    decreases s.len() - p, 8int,
{
    or_else(
        match sym(s, p, ExpectSymbol::Minus, UnaryOp::Neg) {
            Err(f) => Err(f),
            Ok((q, op)) => if p < q <= s.len() {
                match neg_spec(s, q) {
                    Err(f) => Err(escalate(f, unary_missing(op))),
                    Ok((q2, e)) => Ok((q2, unary(op, e))),
                }
            } else {
                outside()
            },
        },
        primary_spec(s, p),
    )
}

/// A primary expression at `p`, the first of: a number, a string, `true`,
/// `false`, a function call, a variable, a parenthesized expression.
pub open spec fn primary_spec(s: Seq<char>, p: int) -> SRes<Node<ExprModel>>
    decreases s.len() - p, 6int,
{
    or_else(
        number_literal(s, p),
        or_else(
            string_literal(s, p),
            or_else(
                boolean_literal(s, p, true),
                or_else(
                    boolean_literal(s, p, false),
                    or_else(call_spec(s, p), or_else(variable_spec(s, p), paren_spec(s, p))),
                ),
            ),
        ),
    )
}

/// A function call at `p`: an identifier, `(`, arguments separated by `,`,
/// and `)`.
pub open spec fn call_spec(s: Seq<char>, p: int) -> SRes<Node<ExprModel>>
    decreases s.len() - p, 4int,
{
    match ident_at(s, p) {
        Err(f) => Err(f),
        Ok((q, name)) => match sym(s, q, ExpectSymbol::ParenLeft, ()) {
            Err(f) => Err(f),
            Ok((q2, paren)) => if p < q2 <= s.len() {
                match args_spec(s, q2) {
                    Err(f) => Err(f),
                    Ok((q3, args)) => match sym_or_fail(
                        s,
                        q3,
                        ExpectSymbol::ParenRight,
                        (),
                        incomplete(paren.span, IncompleteKind::UnclosedParen),
                    ) {
                        Err(f) => Err(f),
                        Ok((q4, close)) => Ok(
                            (
                                q4,
                                node(
                                    ExprModel::Call { name, args },
                                    span_join(name.span, close.span),
                                    close.whitespace_span,
                                ),
                            ),
                        ),
                    },
                }
            } else {
                outside()
            },
        },
    }
}

/// The arguments of a function call from `p`: none, or expressions
/// separated by `,`.
pub open spec fn args_spec(s: Seq<char>, p: int) -> SRes<Seq<Node<ExprModel>>>
    decreases s.len() - p, 32int,
{
    match expr_spec(s, p) {
        Err(Fault::Error(_)) => Ok((p, Seq::empty())),
        Err(f) => Err(f),
        Ok((q, a)) => if p <= q <= s.len() {
            args_rest(s, q, seq![a])
        } else {
            outside()
        },
    }
}

/// The further arguments from `p`, after `acc`: each a `,` and an
/// expression; a `,` without an expression after it is left unconsumed.
pub open spec fn args_rest(s: Seq<char>, p: int, acc: Seq<Node<ExprModel>>) -> SRes<
    Seq<Node<ExprModel>>,
>
    decreases s.len() - p, 31int,
{
    match sym(s, p, ExpectSymbol::Comma, ()) {
        Err(Fault::Error(_)) => Ok((p, acc)),
        Err(f) => Err(f),
        Ok((q1, _)) => if p < q1 <= s.len() {
            match expr_spec(s, q1) {
                Err(Fault::Error(_)) => Ok((p, acc)),
                Err(f) => Err(f),
                Ok((q2, a)) => if q1 <= q2 <= s.len() {
                    args_rest(s, q2, acc.push(a))
                } else {
                    outside()
                },
            }
        } else {
            outside()
        },
    }
}

/// A parenthesized expression at `p`.
pub open spec fn paren_spec(s: Seq<char>, p: int) -> SRes<Node<ExprModel>>
    decreases s.len() - p, 4int,
{
    match sym(s, p, ExpectSymbol::ParenLeft, ()) {
        Err(f) => Err(f),
        Ok((q, open)) => if p < q <= s.len() {
            match expr_spec(s, q) {
                Err(f) => Err(
                    escalate(f, incomplete(open.span, IncompleteKind::Expr(ExprKind::ParenMissingExpr))),
                ),
                Ok((q2, inner)) => match sym_or_fail(
                    s,
                    q2,
                    ExpectSymbol::ParenRight,
                    (),
                    incomplete(open.span, IncompleteKind::UnclosedParen),
                ) {
                    Err(f) => Err(f),
                    Ok((q3, close)) => Ok(
                        (
                            q3,
                            node(
                                ExprModel::Paren { expr: Box::new(inner) },
                                span_join(open.span, close.span),
                                close.whitespace_span,
                            ),
                        ),
                    ),
                },
            }
        } else {
            outside()
        },
    }
}

} // verus!

verus! {

/// The model of the result of an expression parser.
pub open spec fn expr_res(r: PResult<Node<Expr>, ParserError>) -> SRes<Node<ExprModel>> {
    match r {
        Ok((q, n)) => Ok((q as int, expr_node_view(n))),
        Err(f) => Err(f),
    }
}

/// A successful result that ends after `p` and inside the text.
pub open spec fn within<T>(r: PResult<T, ParserError>, p: int, len: int) -> bool {
    r matches Ok((q, _)) ==> p <= q <= len
}

fn binary_node(op: Node<BinaryOp>, l: Node<Expr>, r: Node<Expr>) -> (n: Node<Expr>)
    ensures
        expr_node_view(n) == binary(op, expr_node_view(l), expr_node_view(r)),
{
    let span = Span::from_start_and_end(&l.span, &r.span);
    let ws = r.whitespace_span;
    Node::new(Expr::BinaryOp { op, left: Box::new(l), right: Box::new(r) }, span, ws)
}

fn unary_node(op: Node<UnaryOp>, e: Node<Expr>) -> (n: Node<Expr>)
    ensures
        expr_node_view(n) == unary(op, expr_node_view(e)),
{
    let span = Span::from_start_and_end(&op.span, &e.span);
    let ws = e.whitespace_span;
    Node::new(Expr::UnaryOp { op, expr: Box::new(e) }, span, ws)
}

fn missing_binop(op: &Node<BinaryOp>) -> (r: ParserErrorReason)
    ensures
        r == binop_missing(*op),
{
    ParserErrorReason::Incomplete {
        cause: op.span,
        kind: IncompleteKind::Expr(ExprKind::BinaryOpMissingSecondOperand { operator: op.value }),
    }
}

fn chain_operator(inp: &Input, pos: usize, c: Chain) -> (r: PResult<Node<BinaryOp>, ParserError>)
    requires
        inp.wf(),
        pos <= inp.text().len(),
    ensures
        res_view(r, |n: Node<BinaryOp>| n) == chain_op(inp.text(), pos as int, c),
        r matches Ok((q, _)) ==> pos < q <= inp.text().len(),
{
    proof {
        reveal(chain_op);
    }
    match c {
        Chain::Or => keyword_node(inp, pos, ExpectKeyword::Or, BinaryOp::Or),
        Chain::And => keyword_node(inp, pos, ExpectKeyword::And, BinaryOp::And),
        Chain::Additive => {
            let r = symbol_node(inp, pos, ExpectSymbol::Plus, BinaryOp::Add);
            if !(r matches Err(Fault::Error(_))) {
                return r;
            }
            let r = symbol_node(inp, pos, ExpectSymbol::Minus, BinaryOp::Sub);
            if !(r matches Err(Fault::Error(_))) {
                return r;
            }
            symbol_node(inp, pos, ExpectSymbol::MinusMinus, BinaryOp::EscapedSub)
        },
        Chain::Multiplicative => {
            let r = symbol_node(inp, pos, ExpectSymbol::Star, BinaryOp::Mul);
            if !(r matches Err(Fault::Error(_))) {
                return r;
            }
            let r = symbol_node(inp, pos, ExpectSymbol::Slash, BinaryOp::Div);
            if !(r matches Err(Fault::Error(_))) {
                return r;
            }
            let r = symbol_node(inp, pos, ExpectSymbol::SlashSlash, BinaryOp::EscapedDiv);
            if !(r matches Err(Fault::Error(_))) {
                return r;
            }
            symbol_node(inp, pos, ExpectSymbol::Percent, BinaryOp::Mod)
        },
    }
}

fn literal_expr(l: Literal, sp: Span, ws: Span) -> (n: Node<Expr>)
    ensures
        expr_node_view(n) == literal_node(crate::ast::literal_view(l), sp, ws),
{
    Node::new(Expr::Literal(Node::new(l, sp, ws)), sp, ws)
}

fn number_expr(inp: &Input, pos: usize) -> (r: PResult<Node<Expr>, ParserError>)
    requires
        inp.wf(),
        pos <= inp.text().len(),
    ensures
        expr_res(r) == number_literal(inp.text(), pos as int),
        within(r, pos as int, inp.text().len() as int),
{
    proof {
        reveal(number_literal);
    }
    match number(inp, pos) {
        Ok((q, t)) => Ok((q, literal_expr(Literal::Number(t.lexeme_str), t.lexeme_span, t.whitespace_span))),
        Err(f) => Err(lift_fault(f)),
    }
}

fn string_expr(inp: &Input, pos: usize) -> (r: PResult<Node<Expr>, ParserError>)
    requires
        inp.wf(),
        pos <= inp.text().len(),
    ensures
        expr_res(r) == string_literal(inp.text(), pos as int),
        within(r, pos as int, inp.text().len() as int),
{
    let ghost s = inp.text();
    proof {
        reveal(string_literal);
    }
    match string(inp, pos) {
        Ok((q, t)) => {
            let n = t.lexeme_str.unicode_len();
            let contents = String::from_str(t.lexeme_str.as_str().substring_char(1, n - 1));
            proof {
                if let Ok(e) = lex_string(s, pos as int) {
                    crate::token::util::lemma_scan_while(
                        s,
                        pos + 1,
                        |c: char| crate::token::literal::is_string_char(c),
                    );
                    assert(t.lexeme_str@.subrange(1, n - 1) =~= s.subrange(pos + 1, e - 1));
                }
            }
            Ok((q, literal_expr(Literal::String(contents), t.lexeme_span, t.whitespace_span)))
        },
        Err(f) => Err(lift_fault(f)),
    }
}

fn boolean_expr(inp: &Input, pos: usize, b: bool) -> (r: PResult<Node<Expr>, ParserError>)
    requires
        inp.wf(),
        pos <= inp.text().len(),
    ensures
        expr_res(r) == boolean_literal(inp.text(), pos as int, b),
        within(r, pos as int, inp.text().len() as int),
{
    proof {
        reveal(boolean_literal);
    }
    let k = if b {
        ExpectKeyword::True
    } else {
        ExpectKeyword::False
    };
    match keyword(inp, pos, k) {
        Ok((q, t)) => Ok((q, literal_expr(Literal::Boolean(b), t.lexeme_span, t.whitespace_span))),
        Err(f) => Err(lift_fault(f)),
    }
}

fn variable(inp: &Input, pos: usize) -> (r: PResult<Node<Expr>, ParserError>)
    requires
        inp.wf(),
        pos <= inp.text().len(),
    ensures
        expr_res(r) == variable_spec(inp.text(), pos as int),
        within(r, pos as int, inp.text().len() as int),
{
    proof {
        reveal(variable_spec);
    }
    let (q, param) = match identifier_node(inp, pos) {
        Ok(x) => x,
        Err(f) => {
            return Err(f);
        },
    };
    match symbol_node(inp, q, ExpectSymbol::Dot, ()) {
        Err(Fault::Error(_)) => {
            let sp = param.span;
            let ws = param.whitespace_span;
            Ok((q, Node::new(Expr::Variable(Node::new(Variable::Identifier(param), sp, ws)), sp, ws)))
        },
        Err(f) => Err(f),
        Ok((q1, dot)) => {
            let reason = ParserErrorReason::Incomplete {
                cause: dot.span,
                kind: IncompleteKind::Expr(ExprKind::VariableMissingReferenceModel),
            };
            match identifier_node(inp, q1) {
                Err(f) => Err(escalate_fault(f, reason)),
                Ok((q2, reference_model)) => {
                    let sp = Span::from_start_and_end(&param.span, &reference_model.span);
                    let ws = reference_model.whitespace_span;
                    let v = Variable::ModelParameter { reference_model, parameter: param };
                    Ok((q2, Node::new(Expr::Variable(Node::new(v, sp, ws)), sp, ws)))
                },
            }
        },
    }
}

/// Parses an expression at `pos`.
pub fn expr(inp: &Input, pos: usize) -> (r: PResult<Node<Expr>, ParserError>)
    requires
        inp.wf(),
        pos <= inp.text().len(),
    ensures
        expr_res(r) == expr_spec(inp.text(), pos as int),
        within(r, pos as int, inp.text().len() as int),
    decreases inp.text().len() - pos, 30int,
{
    match chain(inp, pos, Chain::Or) {
        Err(f) => Err(recast_fault(f, ParserErrorReason::Expect(ExpectKind::Expr))),
        Ok(x) => Ok(x),
    }
}

fn chain(inp: &Input, pos: usize, c: Chain) -> (r: PResult<Node<Expr>, ParserError>)
    requires
        inp.wf(),
        pos <= inp.text().len(),
    ensures
        expr_res(r) == chain_expr(inp.text(), pos as int, c),
        within(r, pos as int, inp.text().len() as int),
    decreases inp.text().len() - pos, chain_base(c),
{
    match chain_operand_expr(inp, pos, c) {
        Err(f) => Err(f),
        Ok((q, first)) => chain_tail(inp, q, c, first),
    }
}

fn chain_operand_expr(inp: &Input, pos: usize, c: Chain) -> (r: PResult<Node<Expr>, ParserError>)
    requires
        inp.wf(),
        pos <= inp.text().len(),
    ensures
        expr_res(r) == chain_operand(inp.text(), pos as int, c),
        within(r, pos as int, inp.text().len() as int),
    decreases inp.text().len() - pos, chain_base(c) - 2,
{
    match c {
        Chain::Or => chain(inp, pos, Chain::And),
        Chain::And => not_expr(inp, pos),
        Chain::Additive => chain(inp, pos, Chain::Multiplicative),
        Chain::Multiplicative => exponential_expr(inp, pos),
    }
}

fn chain_tail(inp: &Input, pos: usize, c: Chain, first: Node<Expr>) -> (r: PResult<Node<Expr>, ParserError>)
    requires
        inp.wf(),
        pos <= inp.text().len(),
    ensures
        expr_res(r) == chain_rest(inp.text(), pos as int, c, expr_node_view(first)),
        within(r, pos as int, inp.text().len() as int),
    decreases inp.text().len() - pos, chain_base(c) - 1,
{
    let ghost s = inp.text();
    let mut cur = pos;
    let mut acc = first;
    loop
        invariant
            inp.wf(),
            s == inp.text(),
            pos <= cur <= s.len(),
            chain_rest(s, cur as int, c, expr_node_view(acc)) == chain_rest(
                s,
                pos as int,
                c,
                expr_node_view(first),
            ),
        decreases s.len() - cur,
    {
        let (q, op) = match chain_operator(inp, cur, c) {
            Err(Fault::Error(e)) => {
                return Ok((cur, acc));
            },
            Err(f) => {
                return Err(f);
            },
            Ok(x) => x,
        };
        let reason = missing_binop(&op);
        match chain_operand_expr(inp, q, c) {
            Err(f) => {
                return Err(escalate_fault(f, reason));
            },
            Ok((q2, rhs)) => {
                acc = binary_node(op, acc, rhs);
                cur = q2;
            },
        }
    }
}

fn not_expr(inp: &Input, pos: usize) -> (r: PResult<Node<Expr>, ParserError>)
    requires
        inp.wf(),
        pos <= inp.text().len(),
    ensures
        expr_res(r) == not_spec(inp.text(), pos as int),
        within(r, pos as int, inp.text().len() as int),
    decreases inp.text().len() - pos, 22int,
{
    match keyword_node(inp, pos, ExpectKeyword::Not, UnaryOp::Not) {
        Err(Fault::Error(_)) => comparison_expr(inp, pos),
        Err(f) => Err(f),
        Ok((q, op)) => {
            let reason = ParserErrorReason::Incomplete {
                cause: op.span,
                kind: IncompleteKind::Expr(ExprKind::UnaryOpMissingOperand { operator: op.value }),
            };
            match not_expr(inp, q) {
                Err(f) => Err(escalate_fault(f, reason)),
                Ok((q2, e)) => Ok((q2, unary_node(op, e))),
            }
        },
    }
}

fn comparison_operator(inp: &Input, pos: usize) -> (r: PResult<Node<ComparisonOp>, ParserError>)
    requires
        inp.wf(),
        pos <= inp.text().len(),
    ensures
        res_view(r, |n: Node<ComparisonOp>| n) == comparison_op(inp.text(), pos as int),
        r matches Ok((q, _)) ==> pos < q <= inp.text().len(),
{
    proof {
        reveal(comparison_op);
    }
    let r = symbol_node(inp, pos, ExpectSymbol::LessThanEquals, ComparisonOp::LessThanEq);
    if !(r matches Err(Fault::Error(_))) {
        return r;
    }
    let r = symbol_node(inp, pos, ExpectSymbol::GreaterThanEquals, ComparisonOp::GreaterThanEq);
    if !(r matches Err(Fault::Error(_))) {
        return r;
    }
    let r = symbol_node(inp, pos, ExpectSymbol::LessThan, ComparisonOp::LessThan);
    if !(r matches Err(Fault::Error(_))) {
        return r;
    }
    let r = symbol_node(inp, pos, ExpectSymbol::GreaterThan, ComparisonOp::GreaterThan);
    if !(r matches Err(Fault::Error(_))) {
        return r;
    }
    let r = symbol_node(inp, pos, ExpectSymbol::EqualsEquals, ComparisonOp::Eq);
    if !(r matches Err(Fault::Error(_))) {
        return r;
    }
    symbol_node(inp, pos, ExpectSymbol::BangEquals, ComparisonOp::NotEq)
}

fn comparison_expr(inp: &Input, pos: usize) -> (r: PResult<Node<Expr>, ParserError>)
    requires
        inp.wf(),
        pos <= inp.text().len(),
    ensures
        expr_res(r) == comparison_spec(inp.text(), pos as int),
        within(r, pos as int, inp.text().len() as int),
    decreases inp.text().len() - pos, 20int,
{
    let ghost s = inp.text();
    let (q0, first) = match minmax_expr(inp, pos) {
        Err(f) => {
            return Err(f);
        },
        Ok(x) => x,
    };
    let mut links: Vec<(Node<ComparisonOp>, Node<Expr>)> = Vec::new();
    let mut cur = q0;
    proof {
        assert(chain_view(links@) =~= Seq::empty());
    }
    loop
        invariant
            inp.wf(),
            s == inp.text(),
            pos <= q0 <= cur <= s.len(),
            minmax_spec(s, pos as int) == Ok::<(int, Node<ExprModel>), Fault<ParserError>>(
                (q0 as int, expr_node_view(first)),
            ),
            comparison_rest(s, cur as int, chain_view(links@)) == comparison_rest(
                s,
                q0 as int,
                Seq::empty(),
            ),
        ensures
            pos <= cur <= s.len(),
            comparison_rest(s, cur as int, chain_view(links@)) == Ok::<
                (int, Seq<(Node<ComparisonOp>, Node<ExprModel>)>),
                Fault<ParserError>,
            >((cur as int, chain_view(links@))),
            comparison_rest(s, cur as int, chain_view(links@)) == comparison_rest(
                s,
                q0 as int,
                Seq::empty(),
            ),
        decreases s.len() - cur,
    {
        let (q, op) = match comparison_operator(inp, cur) {
            Err(Fault::Error(_)) => {
                break ;
            },
            Err(f) => {
                return Err(f);
            },
            Ok(x) => x,
        };
        let reason = ParserErrorReason::Incomplete {
            cause: op.span,
            kind: IncompleteKind::Expr(
                ExprKind::ComparisonOpMissingSecondOperand { operator: op.value },
            ),
        };
        match minmax_expr(inp, q) {
            Err(f) => {
                return Err(escalate_fault(f, reason));
            },
            Ok((q2, rhs)) => {
                let ghost old_links = links@;
                links.push((op, rhs));
                proof {
                    assert(links@.drop_last() =~= old_links);
                }
                cur = q2;
            },
        }
    }
    proof {
        lemma_chain_view(links@);
    }
    if links.len() == 0 {
        proof {
            assert(chain_view(links@) =~= Seq::empty());
        }
        return Ok((cur, first));
    }
    let ghost all = links@;
    let (op, right) = links.remove(0);
    proof {
        lemma_chain_view(links@);
        assert(chain_view(all).drop_first() =~= chain_view(links@));
    }
    let sp = Span::from_start_and_end(&first.span, &right.span);
    let ws = right.whitespace_span;
    let e = Expr::ComparisonOp {
        op,
        left: Box::new(first),
        right: Box::new(right),
        rest_chained: links,
    };
    Ok((cur, Node::new(e, sp, ws)))
}

fn minmax_expr(inp: &Input, pos: usize) -> (r: PResult<Node<Expr>, ParserError>)
    requires
        inp.wf(),
        pos <= inp.text().len(),
    ensures
        expr_res(r) == minmax_spec(inp.text(), pos as int),
        within(r, pos as int, inp.text().len() as int),
    decreases inp.text().len() - pos, 18int,
{
    let (q, first) = match chain(inp, pos, Chain::Additive) {
        Err(f) => {
            return Err(f);
        },
        Ok(x) => x,
    };
    match symbol_node(inp, q, ExpectSymbol::Bar, BinaryOp::MinMax) {
        Err(Fault::Error(_)) => Ok((q, first)),
        Err(f) => Err(f),
        Ok((q2, op)) => {
            let reason = missing_binop(&op);
            match chain(inp, q2, Chain::Additive) {
                Err(f) => Err(escalate_fault(f, reason)),
                Ok((q3, rhs)) => Ok((q3, binary_node(op, first, rhs))),
            }
        },
    }
}

fn exponential_expr(inp: &Input, pos: usize) -> (r: PResult<Node<Expr>, ParserError>)
    requires
        inp.wf(),
        pos <= inp.text().len(),
    ensures
        expr_res(r) == exponential_spec(inp.text(), pos as int),
        within(r, pos as int, inp.text().len() as int),
    decreases inp.text().len() - pos, 10int,
{
    let (q, first) = match neg_expr(inp, pos) {
        Err(f) => {
            return Err(f);
        },
        Ok(x) => x,
    };
    match symbol_node(inp, q, ExpectSymbol::Caret, BinaryOp::Pow) {
        Err(Fault::Error(_)) => Ok((q, first)),
        Err(f) => Err(f),
        Ok((q2, op)) => {
            let reason = missing_binop(&op);
            match exponential_expr(inp, q2) {
                Err(f) => Err(escalate_fault(f, reason)),
                Ok((q3, rhs)) => Ok((q3, binary_node(op, first, rhs))),
            }
        },
    }
}

fn neg_expr(inp: &Input, pos: usize) -> (r: PResult<Node<Expr>, ParserError>)
    requires
        inp.wf(),
        pos <= inp.text().len(),
    ensures
        expr_res(r) == neg_spec(inp.text(), pos as int),
        within(r, pos as int, inp.text().len() as int),
    decreases inp.text().len() - pos, 8int,
{
    match symbol_node(inp, pos, ExpectSymbol::Minus, UnaryOp::Neg) {
        Err(Fault::Error(_)) => primary_expr(inp, pos),
        Err(f) => Err(f),
        Ok((q, op)) => {
            let reason = ParserErrorReason::Incomplete {
                cause: op.span,
                kind: IncompleteKind::Expr(ExprKind::UnaryOpMissingOperand { operator: op.value }),
            };
            match neg_expr(inp, q) {
                Err(f) => Err(escalate_fault(f, reason)),
                Ok((q2, e)) => Ok((q2, unary_node(op, e))),
            }
        },
    }
}

fn primary_expr(inp: &Input, pos: usize) -> (r: PResult<Node<Expr>, ParserError>)
    requires
        inp.wf(),
        pos <= inp.text().len(),
    ensures
        expr_res(r) == primary_spec(inp.text(), pos as int),
        within(r, pos as int, inp.text().len() as int),
    decreases inp.text().len() - pos, 6int,
{
    let r = number_expr(inp, pos);
    if !(r matches Err(Fault::Error(_))) {
        return r;
    }
    let r = string_expr(inp, pos);
    if !(r matches Err(Fault::Error(_))) {
        return r;
    }
    let r = boolean_expr(inp, pos, true);
    if !(r matches Err(Fault::Error(_))) {
        return r;
    }
    let r = boolean_expr(inp, pos, false);
    if !(r matches Err(Fault::Error(_))) {
        return r;
    }
    let r = function_call(inp, pos);
    if !(r matches Err(Fault::Error(_))) {
        return r;
    }
    let r = variable(inp, pos);
    if !(r matches Err(Fault::Error(_))) {
        return r;
    }
    parenthesized_expr(inp, pos)
}

fn function_call(inp: &Input, pos: usize) -> (r: PResult<Node<Expr>, ParserError>)
    requires
        inp.wf(),
        pos <= inp.text().len(),
    ensures
        expr_res(r) == call_spec(inp.text(), pos as int),
        within(r, pos as int, inp.text().len() as int),
    decreases inp.text().len() - pos, 4int,
{
    let (q, name) = match identifier_node(inp, pos) {
        Err(f) => {
            return Err(f);
        },
        Ok(x) => x,
    };
    let (q2, paren) = match symbol_node(inp, q, ExpectSymbol::ParenLeft, ()) {
        Err(f) => {
            return Err(f);
        },
        Ok(x) => x,
    };
    let (q3, args) = match call_args(inp, q2) {
        Err(f) => {
            return Err(f);
        },
        Ok(x) => x,
    };
    let reason = ParserErrorReason::Incomplete { cause: paren.span, kind: IncompleteKind::UnclosedParen };
    match symbol_node_or_fail(inp, q3, ExpectSymbol::ParenRight, (), reason) {
        Err(f) => Err(f),
        Ok((q4, close)) => {
            let sp = Span::from_start_and_end(&name.span, &close.span);
            Ok((q4, Node::new(Expr::FunctionCall { name, args }, sp, close.whitespace_span)))
        },
    }
}

fn call_args(inp: &Input, pos: usize) -> (r: PResult<Vec<Node<Expr>>, ParserError>)
    requires
        inp.wf(),
        pos <= inp.text().len(),
    ensures
        res_view(r, |v: Vec<Node<Expr>>| expr_nodes_view(v@)) == args_spec(inp.text(), pos as int),
        within(r, pos as int, inp.text().len() as int),
    decreases inp.text().len() - pos, 32int,
{
    let ghost s = inp.text();
    let (q0, a) = match expr(inp, pos) {
        Err(Fault::Error(_)) => {
            let v: Vec<Node<Expr>> = Vec::new();
            proof {
                assert(expr_nodes_view(v@) =~= Seq::empty());
            }
            return Ok((pos, v));
        },
        Err(f) => {
            return Err(f);
        },
        Ok(x) => x,
    };
    let mut v: Vec<Node<Expr>> = Vec::new();
    v.push(a);
    proof {
        assert(v@.drop_last() =~= Seq::<Node<Expr>>::empty());
        assert(expr_nodes_view(v@.drop_last()) =~= Seq::empty());
        assert(expr_nodes_view(v@) =~= seq![expr_node_view(a)]);
    }
    args_tail(inp, q0, v)
}

/// Parses the further comma-separated expressions from `pos`, after those
/// of `v`; a comma without an expression after it is left unconsumed.
pub fn args_tail(inp: &Input, pos: usize, init: Vec<Node<Expr>>) -> (r: PResult<Vec<Node<Expr>>, ParserError>)
    requires
        inp.wf(),
        pos <= inp.text().len(),
    ensures
        res_view(r, |v: Vec<Node<Expr>>| expr_nodes_view(v@)) == args_rest(inp.text(), pos as int, expr_nodes_view(init@)),
        within(r, pos as int, inp.text().len() as int),
    decreases inp.text().len() - pos, 31int,
{
    let ghost s = inp.text();
    let ghost v0 = init@;
    let mut v = init;
    let mut cur = pos;
    loop
        invariant
            inp.wf(),
            s == inp.text(),
            pos <= cur <= s.len(),
            v0 == init@,
            args_rest(s, cur as int, expr_nodes_view(v@)) == args_rest(s, pos as int, expr_nodes_view(v0)),
        ensures
            pos <= cur <= s.len(),
            args_rest(s, cur as int, expr_nodes_view(v@)) == args_rest(s, pos as int, expr_nodes_view(v0)),
            args_rest(s, cur as int, expr_nodes_view(v@)) == Ok::<
                (int, Seq<Node<ExprModel>>),
                Fault<ParserError>,
            >((cur as int, expr_nodes_view(v@))),
        decreases s.len() - cur,
    {
        let q1 = match symbol_node(inp, cur, ExpectSymbol::Comma, ()) {
            Err(Fault::Error(_)) => {
                break ;
            },
            Err(f) => {
                return Err(f);
            },
            Ok((q1, _)) => q1,
        };
        match expr(inp, q1) {
            Err(Fault::Error(_)) => {
                break ;
            },
            Err(f) => {
                return Err(f);
            },
            Ok((q2, a)) => {
                let ghost old_v = v@;
                v.push(a);
                proof {
                    assert(v@.drop_last() =~= old_v);
                }
                cur = q2;
            },
        }
    }
    Ok((cur, v))
}

fn parenthesized_expr(inp: &Input, pos: usize) -> (r: PResult<Node<Expr>, ParserError>)
    requires
        inp.wf(),
        pos <= inp.text().len(),
    ensures
        expr_res(r) == paren_spec(inp.text(), pos as int),
        within(r, pos as int, inp.text().len() as int),
    decreases inp.text().len() - pos, 4int,
{
    let (q, open) = match symbol_node(inp, pos, ExpectSymbol::ParenLeft, ()) {
        Err(f) => {
            return Err(f);
        },
        Ok(x) => x,
    };
    let missing = ParserErrorReason::Incomplete {
        cause: open.span,
        kind: IncompleteKind::Expr(ExprKind::ParenMissingExpr),
    };
    let (q2, inner) = match expr(inp, q) {
        Err(f) => {
            return Err(escalate_fault(f, missing));
        },
        Ok(x) => x,
    };
    let unclosed = ParserErrorReason::Incomplete { cause: open.span, kind: IncompleteKind::UnclosedParen };
    match symbol_node_or_fail(inp, q2, ExpectSymbol::ParenRight, (), unclosed) {
        Err(f) => Err(f),
        Ok((q3, close)) => {
            let sp = Span::from_start_and_end(&open.span, &close.span);
            Ok((q3, Node::new(Expr::Parenthesized { expr: Box::new(inner) }, sp, close.whitespace_span)))
        },
    }
}

/// Parses an expression at `pos`.
pub fn parse(inp: &Input, pos: usize) -> (r: PResult<Node<Expr>, ParserError>)
    requires
        inp.wf(),
        pos <= inp.text().len(),
    ensures
        expr_res(r) == expr_spec(inp.text(), pos as int),
        within(r, pos as int, inp.text().len() as int),
{
    expr(inp, pos)
}

/// Parses an expression that runs from `pos` to the end of the text.
pub fn parse_complete(inp: &Input, pos: usize) -> (r: PResult<Node<Expr>, ParserError>)
    requires
        inp.wf(),
        pos <= inp.text().len(),
    ensures
        expr_res(r) == complete(inp.text(), expr_spec(inp.text(), pos as int)),
{
    finish(inp, expr(inp, pos))
}

} // verus!
