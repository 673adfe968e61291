//! Errors of the parser, and how the errors of the tokenizer become them.
use vstd::prelude::*;

use crate::ast::{BinaryOp, ComparisonOp, UnaryOp, UnitOp};
use crate::outcome::Fault;
use crate::text::Span;
use crate::token::error::{NomErrorKind, TokenError, TokenErrorKind};

verus! {

/// An error found while parsing, at a byte offset of the source.
#[derive(Debug, Clone, Copy, PartialEq, Eq, Structural)]
pub struct ParserError {
    /// The byte offset in the source where the error occurred.
    pub error_offset: usize,
    /// Why parsing failed there.
    pub reason: ParserErrorReason,
}

/// Why parsing failed.
#[derive(Debug, Clone, Copy, PartialEq, Eq, Structural)]
pub enum ParserErrorReason {
    /// Expected a specific construct.
    Expect(ExpectKind),
    /// A construct was started but not finished; `cause` is the part of it
    /// that was found.
    Incomplete { cause: Span, kind: IncompleteKind },
    /// Input remained where the input should have ended.
    UnexpectedToken,
    /// An error of the tokenizer.
    TokenError(TokenErrorKind),
    /// A low-level matching error.
    NomError(NomErrorKind),
}

/// The constructs that could have been expected.
#[derive(Debug, Clone, Copy, PartialEq, Eq, Structural)]
pub enum ExpectKind {
    /// Expected a declaration.
    Decl,
    /// Expected an expression.
    Expr,
    /// Expected a note.
    Note,
    /// Expected a parameter.
    Parameter,
    /// Expected a test.
    Test,
    /// Expected a unit.
    Unit,
}

/// The kinds of incomplete constructs.
#[derive(Debug, Clone, Copy, PartialEq, Eq, Structural)]
pub enum IncompleteKind {
    /// An incomplete declaration.
    Decl(DeclKind),
    /// An incomplete expression.
    Expr(ExprKind),
    /// An incomplete section header.
    Section(SectionKind),
    /// An incomplete parameter.
    Parameter(ParameterKind),
    /// An incomplete test.
    Test(TestKind),
    /// An incomplete unit.
    Unit(UnitKind),
    /// A `[` without its `]`.
    UnclosedBracket,
    /// A `(` without its `)`.
    UnclosedParen,
}

/// The keyword that opened a submodel declaration.
#[derive(Debug, Clone, Copy, PartialEq, Eq, Structural)]
pub enum SubmodelKeyword {
    /// `submodel`
    Submodel,
    /// `reference`
    Reference,
}

/// The ways a declaration can be incomplete.
#[derive(Debug, Clone, Copy, PartialEq, Eq, Structural)]
pub enum DeclKind {
    /// An incomplete import.
    Import(ImportKind),
    /// An incomplete use.
    Use(UseKind),
    /// An incomplete submodel or reference declaration.
    Submodel(SubmodelKind),
    /// A `.` in a model path without the component after it.
    ModelMissingSubcomponent,
    /// An `as` without its alias.
    AsMissingAlias,
    /// A `design` without its target.
    DesignMissingTarget,
    /// A design file without its `design` header.
    DesignHeaderMissing,
    /// A second `design` header.
    DesignHeaderDuplicate,
    /// A `design` header in a file that is not a design file.
    DesignHeaderWrongFile,
    /// A `design` header after other declarations.
    DesignHeaderNotFirst,
    /// An `apply` without the file it applies.
    ApplyMissingFile,
    /// An `apply` without the target it applies to.
    ApplyMissingTarget,
}

/// The ways an import can be incomplete.
#[derive(Debug, Clone, Copy, PartialEq, Eq, Structural)]
pub enum ImportKind {
    /// No path after `import`.
    MissingPath,
    /// No end of line after the path.
    MissingEndOfLine,
}

/// The ways a use declaration can be incomplete.
#[derive(Debug, Clone, Copy, PartialEq, Eq, Structural)]
pub enum UseKind {
    /// No model after `use`.
    MissingModelInfo,
    /// No end of line after the model.
    MissingEndOfLine,
}

/// The ways a submodel declaration can be incomplete.
#[derive(Debug, Clone, Copy, PartialEq, Eq, Structural)]
pub enum SubmodelKind {
    /// No model after the keyword.
    MissingModelInfo { after: SubmodelKeyword },
    /// No end of line after the declaration.
    MissingEndOfLine,
}

/// The ways an expression can be incomplete.
#[derive(Debug, Clone, Copy, PartialEq, Eq, Structural)]
pub enum ExprKind {
    /// A comparison operator without its right operand.
    ComparisonOpMissingSecondOperand { operator: ComparisonOp },
    /// A binary operator without its right operand.
    BinaryOpMissingSecondOperand { operator: BinaryOp },
    /// A `(` without an expression after it.
    ParenMissingExpr,
    /// A unary operator without its operand.
    UnaryOpMissingOperand { operator: UnaryOp },
    /// A `.` after a variable without the reference model after it.
    VariableMissingReferenceModel,
}

/// The ways a section header can be incomplete.
#[derive(Debug, Clone, Copy, PartialEq, Eq, Structural)]
pub enum SectionKind {
    /// No label after `section`.
    MissingLabel,
    /// No end of line after the label.
    MissingEndOfLine,
}

/// The ways a parameter can be incomplete.
#[derive(Debug, Clone, Copy, PartialEq, Eq, Structural)]
pub enum ParameterKind {
    /// No identifier after the `:`.
    MissingIdentifier,
    /// No `=` after the identifier.
    MissingEqualsSign,
    /// No value after the `=`.
    MissingValue,
    /// No end of line after the value.
    MissingEndOfLine,
    /// No unit after the `:` of a value.
    MissingUnit,
    /// No minimum in continuous limits.
    LimitMissingMin,
    /// No `,` after the minimum.
    LimitMissingComma,
    /// No maximum after the `,`.
    LimitMissingMax,
    /// No values in discrete limits.
    LimitMissingValues,
    /// No expression in a piecewise part.
    PiecewiseMissingExpr,
    /// No `if` in a piecewise part.
    PiecewiseMissingIf,
    /// No condition after the `if` of a piecewise part.
    PiecewiseMissingIfExpr,
    /// A `.` in an instance path without the segment after it.
    MissingInstancePathSegment,
}

/// The ways a test can be incomplete.
#[derive(Debug, Clone, Copy, PartialEq, Eq, Structural)]
pub enum TestKind {
    /// No `:` after `test`.
    MissingColon,
    /// No expression after the `:`.
    MissingExpr,
    /// No end of line after the expression.
    MissingEndOfLine,
}

/// The ways a unit expression can be incomplete.
#[derive(Debug, Clone, Copy, PartialEq, Eq, Structural)]
pub enum UnitKind {
    /// A unit operator without its right term.
    MissingSecondTerm { operator: UnitOp },
    /// A `^` without its exponent.
    MissingExponent,
    /// A `(` without a unit expression after it.
    ParenMissingExpr,
}

/// The incomplete reason with cause `cause` and kind `kind`.
pub open spec fn incomplete(cause: Span, kind: IncompleteKind) -> ParserErrorReason {
    ParserErrorReason::Incomplete { cause, kind }
}

/// The parser error that a token error becomes.
pub open spec fn from_token(e: TokenError) -> ParserError {
    ParserError { error_offset: e.offset, reason: ParserErrorReason::TokenError(e.kind) }
}

/// The parser error at the offset of token error `e`, for `reason`.
pub open spec fn at_token(e: TokenError, reason: ParserErrorReason) -> ParserError {
    ParserError { error_offset: e.offset, reason }
}

/// `e` with its reason replaced; the offset stays.
pub open spec fn with_reason(e: ParserError, reason: ParserErrorReason) -> ParserError {
    ParserError { error_offset: e.error_offset, reason }
}

/// A token fault, both kinds becoming parser errors unchanged.
pub open spec fn lift(f: Fault<TokenError>) -> Fault<ParserError> {
    match f {
        Fault::Error(e) => Fault::Error(from_token(e)),
        Fault::Failure(e) => Fault::Failure(from_token(e)),
    }
}

/// A token fault whose recoverable error gets the reason `reason`.
pub open spec fn lift_as(f: Fault<TokenError>, reason: ParserErrorReason) -> Fault<ParserError> {
    match f {
        Fault::Error(e) => Fault::Error(at_token(e, reason)),
        Fault::Failure(e) => Fault::Failure(from_token(e)),
    }
}

/// A token fault whose recoverable error becomes a failure with `reason`.
pub open spec fn lift_fail(f: Fault<TokenError>, reason: ParserErrorReason) -> Fault<ParserError> {
    match f {
        Fault::Error(e) => Fault::Failure(at_token(e, reason)),
        Fault::Failure(e) => Fault::Failure(from_token(e)),
    }
}

/// A parser fault whose recoverable error gets the reason `reason`.
pub open spec fn recast(f: Fault<ParserError>, reason: ParserErrorReason) -> Fault<ParserError> {
    match f {
        Fault::Error(e) => Fault::Error(with_reason(e, reason)),
        Fault::Failure(e) => Fault::Failure(e),
    }
}

/// A parser fault whose recoverable error becomes a failure with `reason`.
pub open spec fn escalate(f: Fault<ParserError>, reason: ParserErrorReason) -> Fault<ParserError> {
    match f {
        Fault::Error(e) => Fault::Failure(with_reason(e, reason)),
        Fault::Failure(e) => Fault::Failure(e),
    }
}

impl ParserError {
    /// The parser error that a token error becomes: its kind is kept as the
    /// reason, and its offset as the offset.
    pub fn from_token_error(e: TokenError) -> (r: ParserError)
        ensures
            r == from_token(e),
    {
        ParserError { error_offset: e.offset, reason: ParserErrorReason::TokenError(e.kind) }
    }

    /// The parser error for `reason` at the offset of the token error `e`.
    pub fn at_token_error(e: TokenError, reason: ParserErrorReason) -> (r: ParserError)
        ensures
            r == at_token(e, reason),
    {
        ParserError { error_offset: e.offset, reason }
    }

    /// This error with its reason replaced by `reason`.
    pub fn with_reason(self, reason: ParserErrorReason) -> (r: ParserError)
        ensures
            r == with_reason(self, reason),
    {
        ParserError { error_offset: self.error_offset, reason }
    }
}

/// Converts a token fault, keeping its kind.
pub fn lift_fault(f: Fault<TokenError>) -> (r: Fault<ParserError>)
    ensures
        r == lift(f),
{
    match f {
        Fault::Error(e) => Fault::Error(ParserError::from_token_error(e)),
        Fault::Failure(e) => Fault::Failure(ParserError::from_token_error(e)),
    }
}

/// Converts a token fault, giving a recoverable error the reason `reason`.
pub fn lift_fault_as(f: Fault<TokenError>, reason: ParserErrorReason) -> (r: Fault<ParserError>)
    ensures
        r == lift_as(f, reason),
{
    match f {
        Fault::Error(e) => Fault::Error(ParserError::at_token_error(e, reason)),
        Fault::Failure(e) => Fault::Failure(ParserError::from_token_error(e)),
    }
}

/// Converts a token fault, turning a recoverable error into a failure with
/// the reason `reason`.
pub fn lift_fault_fail(f: Fault<TokenError>, reason: ParserErrorReason) -> (r: Fault<ParserError>)
    ensures
        r == lift_fail(f, reason),
{
    match f {
        Fault::Error(e) => Fault::Failure(ParserError::at_token_error(e, reason)),
        Fault::Failure(e) => Fault::Failure(ParserError::from_token_error(e)),
    }
}

/// Gives a recoverable parser error the reason `reason`.
pub fn recast_fault(f: Fault<ParserError>, reason: ParserErrorReason) -> (r: Fault<ParserError>)
    ensures
        r == recast(f, reason),
{
    match f {
        Fault::Error(e) => Fault::Error(e.with_reason(reason)),
        Fault::Failure(e) => Fault::Failure(e),
    }
}

/// Turns a recoverable parser error into a failure with the reason `reason`.
pub fn escalate_fault(f: Fault<ParserError>, reason: ParserErrorReason) -> (r: Fault<ParserError>)
    ensures
        r == escalate(f, reason),
{
    match f {
        Fault::Error(e) => Fault::Failure(e.with_reason(reason)),
        Fault::Failure(e) => Fault::Failure(e),
    }
}

} // verus!
