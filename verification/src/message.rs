//! The messages of parse errors: what each error says to the person who
//! wrote the source.
use vstd::prelude::*;

use crate::ast::{BinaryOp, ComparisonOp, UnaryOp, UnitOp};
use crate::error::{
    DeclKind, ExpectKind, ExprKind, ImportKind, IncompleteKind, ParameterKind, ParserError,
    ParserErrorReason, SectionKind, SubmodelKeyword, SubmodelKind, TestKind, UnitKind, UseKind,
};
use crate::token::error::{
    ExpectKeyword, ExpectKind as TokenExpectKind, ExpectSymbol, IncompleteKind as TokenIncompleteKind,
    NomErrorKind, TokenErrorKind,
};

verus! {

/// The name of a keyword kind, as `Debug` writes it.
pub open spec fn keyword_name(x: ExpectKeyword) -> Seq<char> {
    match x {
        ExpectKeyword::And => "And"@,
        ExpectKeyword::Apply => "Apply"@,
        ExpectKeyword::As => "As"@,
        ExpectKeyword::Design => "Design"@,
        ExpectKeyword::False => "False"@,
        ExpectKeyword::From => "From"@,
        ExpectKeyword::If => "If"@,
        ExpectKeyword::Import => "Import"@,
        ExpectKeyword::Not => "Not"@,
        ExpectKeyword::Or => "Or"@,
        ExpectKeyword::Ref => "Ref"@,
        ExpectKeyword::Reference => "Reference"@,
        ExpectKeyword::Section => "Section"@,
        ExpectKeyword::Submodel => "Submodel"@,
        ExpectKeyword::Test => "Test"@,
        ExpectKeyword::To => "To"@,
        ExpectKeyword::True => "True"@,
        ExpectKeyword::Use => "Use"@,
        ExpectKeyword::With => "With"@,
    }
}

/// The name of a keyword kind, as `Debug` writes it.
pub fn keyword_name_str(x: ExpectKeyword) -> (r: &'static str)
    ensures
        r@ == keyword_name(x),
{
    match x {
        ExpectKeyword::And => "And",
        ExpectKeyword::Apply => "Apply",
        ExpectKeyword::As => "As",
        ExpectKeyword::Design => "Design",
        ExpectKeyword::False => "False",
        ExpectKeyword::From => "From",
        ExpectKeyword::If => "If",
        ExpectKeyword::Import => "Import",
        ExpectKeyword::Not => "Not",
        ExpectKeyword::Or => "Or",
        ExpectKeyword::Ref => "Ref",
        ExpectKeyword::Reference => "Reference",
        ExpectKeyword::Section => "Section",
        ExpectKeyword::Submodel => "Submodel",
        ExpectKeyword::Test => "Test",
        ExpectKeyword::To => "To",
        ExpectKeyword::True => "True",
        ExpectKeyword::Use => "Use",
        ExpectKeyword::With => "With",
    }
}

/// The name of a symbol kind, as `Debug` writes it.
pub open spec fn symbol_name(x: ExpectSymbol) -> Seq<char> {
    match x {
        ExpectSymbol::BangEquals => "BangEquals"@,
        ExpectSymbol::Bar => "Bar"@,
        ExpectSymbol::BraceLeft => "BraceLeft"@,
        ExpectSymbol::BraceRight => "BraceRight"@,
        ExpectSymbol::BracketLeft => "BracketLeft"@,
        ExpectSymbol::BracketRight => "BracketRight"@,
        ExpectSymbol::Caret => "Caret"@,
        ExpectSymbol::Colon => "Colon"@,
        ExpectSymbol::Comma => "Comma"@,
        ExpectSymbol::Dollar => "Dollar"@,
        ExpectSymbol::Dot => "Dot"@,
        ExpectSymbol::DotDot => "DotDot"@,
        ExpectSymbol::Equals => "Equals"@,
        ExpectSymbol::EqualsEquals => "EqualsEquals"@,
        ExpectSymbol::GreaterThan => "GreaterThan"@,
        ExpectSymbol::GreaterThanEquals => "GreaterThanEquals"@,
        ExpectSymbol::LessThan => "LessThan"@,
        ExpectSymbol::LessThanEquals => "LessThanEquals"@,
        ExpectSymbol::Minus => "Minus"@,
        ExpectSymbol::MinusMinus => "MinusMinus"@,
        ExpectSymbol::ParenLeft => "ParenLeft"@,
        ExpectSymbol::ParenRight => "ParenRight"@,
        ExpectSymbol::Percent => "Percent"@,
        ExpectSymbol::Plus => "Plus"@,
        ExpectSymbol::Star => "Star"@,
        ExpectSymbol::StarStar => "StarStar"@,
        ExpectSymbol::Slash => "Slash"@,
        ExpectSymbol::SlashSlash => "SlashSlash"@,
    }
}

/// The name of a symbol kind, as `Debug` writes it.
pub fn symbol_name_str(x: ExpectSymbol) -> (r: &'static str)
    ensures
        r@ == symbol_name(x),
{
    match x {
        ExpectSymbol::BangEquals => "BangEquals",
        ExpectSymbol::Bar => "Bar",
        ExpectSymbol::BraceLeft => "BraceLeft",
        ExpectSymbol::BraceRight => "BraceRight",
        ExpectSymbol::BracketLeft => "BracketLeft",
        ExpectSymbol::BracketRight => "BracketRight",
        ExpectSymbol::Caret => "Caret",
        ExpectSymbol::Colon => "Colon",
        ExpectSymbol::Comma => "Comma",
        ExpectSymbol::Dollar => "Dollar",
        ExpectSymbol::Dot => "Dot",
        ExpectSymbol::DotDot => "DotDot",
        ExpectSymbol::Equals => "Equals",
        ExpectSymbol::EqualsEquals => "EqualsEquals",
        ExpectSymbol::GreaterThan => "GreaterThan",
        ExpectSymbol::GreaterThanEquals => "GreaterThanEquals",
        ExpectSymbol::LessThan => "LessThan",
        ExpectSymbol::LessThanEquals => "LessThanEquals",
        ExpectSymbol::Minus => "Minus",
        ExpectSymbol::MinusMinus => "MinusMinus",
        ExpectSymbol::ParenLeft => "ParenLeft",
        ExpectSymbol::ParenRight => "ParenRight",
        ExpectSymbol::Percent => "Percent",
        ExpectSymbol::Plus => "Plus",
        ExpectSymbol::Star => "Star",
        ExpectSymbol::StarStar => "StarStar",
        ExpectSymbol::Slash => "Slash",
        ExpectSymbol::SlashSlash => "SlashSlash",
    }
}

/// The name of a low-level matching error, as `Debug` writes it.
pub open spec fn nom_kind_name(x: NomErrorKind) -> Seq<char> {
    match x {
        NomErrorKind::Tag => "Tag"@,
        NomErrorKind::Char => "Char"@,
        NomErrorKind::CrLf => "CrLf"@,
        NomErrorKind::Eof => "Eof"@,
        NomErrorKind::Verify => "Verify"@,
        NomErrorKind::Alt => "Alt"@,
    }
}

/// The name of a low-level matching error, as `Debug` writes it.
pub fn nom_kind_name_str(x: NomErrorKind) -> (r: &'static str)
    ensures
        r@ == nom_kind_name(x),
{
    match x {
        NomErrorKind::Tag => "Tag",
        NomErrorKind::Char => "Char",
        NomErrorKind::CrLf => "CrLf",
        NomErrorKind::Eof => "Eof",
        NomErrorKind::Verify => "Verify",
        NomErrorKind::Alt => "Alt",
    }
}

/// How a comparison operator is written.
pub open spec fn comparison_op_text(x: ComparisonOp) -> Seq<char> {
    match x {
        ComparisonOp::LessThan => "<"@,
        ComparisonOp::LessThanEq => "<="@,
        ComparisonOp::GreaterThan => ">"@,
        ComparisonOp::GreaterThanEq => ">="@,
        ComparisonOp::Eq => "=="@,
        ComparisonOp::NotEq => "!="@,
    }
}

/// How a comparison operator is written.
pub fn comparison_op_text_str(x: ComparisonOp) -> (r: &'static str)
    ensures
        r@ == comparison_op_text(x),
{
    match x {
        ComparisonOp::LessThan => "<",
        ComparisonOp::LessThanEq => "<=",
        ComparisonOp::GreaterThan => ">",
        ComparisonOp::GreaterThanEq => ">=",
        ComparisonOp::Eq => "==",
        ComparisonOp::NotEq => "!=",
    }
}

/// How a binary operator is written.
pub open spec fn binary_op_text(x: BinaryOp) -> Seq<char> {
    match x {
        BinaryOp::Add => "+"@,
        BinaryOp::Sub => "-"@,
        BinaryOp::EscapedSub => "--"@,
        BinaryOp::Mul => "*"@,
        BinaryOp::Div => "/"@,
        BinaryOp::EscapedDiv => "//"@,
        BinaryOp::Mod => "%"@,
        BinaryOp::Pow => "^"@,
        BinaryOp::And => "&&"@,
        BinaryOp::Or => "||"@,
        BinaryOp::MinMax => "|"@,
    }
}

/// How a binary operator is written.
pub fn binary_op_text_str(x: BinaryOp) -> (r: &'static str)
    ensures
        r@ == binary_op_text(x),
{
    match x {
        BinaryOp::Add => "+",
        BinaryOp::Sub => "-",
        BinaryOp::EscapedSub => "--",
        BinaryOp::Mul => "*",
        BinaryOp::Div => "/",
        BinaryOp::EscapedDiv => "//",
        BinaryOp::Mod => "%",
        BinaryOp::Pow => "^",
        BinaryOp::And => "&&",
        BinaryOp::Or => "||",
        BinaryOp::MinMax => "|",
    }
}

/// How a unary operator is written.
pub open spec fn unary_op_text(x: UnaryOp) -> Seq<char> {
    match x {
        UnaryOp::Neg => "-"@,
        UnaryOp::Not => "!"@,
    }
}

/// How a unary operator is written.
pub fn unary_op_text_str(x: UnaryOp) -> (r: &'static str)
    ensures
        r@ == unary_op_text(x),
{
    match x {
        UnaryOp::Neg => "-",
        UnaryOp::Not => "!",
    }
}

/// How a unit operator is written.
pub open spec fn unit_op_text(x: UnitOp) -> Seq<char> {
    match x {
        UnitOp::Multiply => "*"@,
        UnitOp::Divide => "/"@,
    }
}

/// How a unit operator is written.
pub fn unit_op_text_str(x: UnitOp) -> (r: &'static str)
    ensures
        r@ == unit_op_text(x),
{
    match x {
        UnitOp::Multiply => "*",
        UnitOp::Divide => "/",
    }
}

/// How the keyword of a submodel declaration is written.
pub open spec fn submodel_keyword_text(x: SubmodelKeyword) -> Seq<char> {
    match x {
        SubmodelKeyword::Submodel => "submodel"@,
        SubmodelKeyword::Reference => "reference"@,
    }
}

/// How the keyword of a submodel declaration is written.
pub fn submodel_keyword_text_str(x: SubmodelKeyword) -> (r: &'static str)
    ensures
        r@ == submodel_keyword_text(x),
{
    match x {
        SubmodelKeyword::Submodel => "submodel",
        SubmodelKeyword::Reference => "reference",
    }
}

/// The message for a construct that was expected.
pub open spec fn expect_message(x: ExpectKind) -> Seq<char> {
    match x {
        ExpectKind::Decl => "expected parameter or test"@,
        ExpectKind::Expr => "expected expression"@,
        ExpectKind::Note => "expected note"@,
        ExpectKind::Parameter => "expected parameter"@,
        ExpectKind::Test => "expected test"@,
        ExpectKind::Unit => "expected unit"@,
    }
}

/// The message for a construct that was expected.
pub fn expect_message_str(x: ExpectKind) -> (r: &'static str)
    ensures
        r@ == expect_message(x),
{
    match x {
        ExpectKind::Decl => "expected parameter or test",
        ExpectKind::Expr => "expected expression",
        ExpectKind::Note => "expected note",
        ExpectKind::Parameter => "expected parameter",
        ExpectKind::Test => "expected test",
        ExpectKind::Unit => "expected unit",
    }
}

/// The message for an incomplete import.
pub open spec fn import_message(x: ImportKind) -> Seq<char> {
    match x {
        ImportKind::MissingPath => "expected path after `import`"@,
        ImportKind::MissingEndOfLine => "unexpected character"@,
    }
}

/// The message for an incomplete import.
pub fn import_message_str(x: ImportKind) -> (r: &'static str)
    ensures
        r@ == import_message(x),
{
    match x {
        ImportKind::MissingPath => "expected path after `import`",
        ImportKind::MissingEndOfLine => "unexpected character",
    }
}

/// The message for an incomplete `use`.
pub open spec fn use_message(x: UseKind) -> Seq<char> {
    match x {
        UseKind::MissingModelInfo => "expected model name after `use`"@,
        UseKind::MissingEndOfLine => "unexpected character"@,
    }
}

/// The message for an incomplete `use`.
pub fn use_message_str(x: UseKind) -> (r: &'static str)
    ensures
        r@ == use_message(x),
{
    match x {
        UseKind::MissingModelInfo => "expected model name after `use`",
        UseKind::MissingEndOfLine => "unexpected character",
    }
}

/// The message for an incomplete section header.
pub open spec fn section_message(x: SectionKind) -> Seq<char> {
    match x {
        SectionKind::MissingLabel => "expected label after `section`"@,
        SectionKind::MissingEndOfLine => "unexpected character"@,
    }
}

/// The message for an incomplete section header.
pub fn section_message_str(x: SectionKind) -> (r: &'static str)
    ensures
        r@ == section_message(x),
{
    match x {
        SectionKind::MissingLabel => "expected label after `section`",
        SectionKind::MissingEndOfLine => "unexpected character",
    }
}

/// The message for an incomplete parameter.
pub open spec fn parameter_message(x: ParameterKind) -> Seq<char> {
    match x {
        ParameterKind::MissingIdentifier => "expected parameter identifier"@,
        ParameterKind::MissingEqualsSign => "expected `=`"@,
        ParameterKind::MissingValue => "expected parameter value after `=`"@,
        ParameterKind::MissingEndOfLine => "unexpected character"@,
        ParameterKind::MissingInstancePathSegment => "expected model identifier after `.`"@,
        ParameterKind::MissingUnit => "expected unit after `:`"@,
        ParameterKind::LimitMissingMin => "expected limit minimum value"@,
        ParameterKind::LimitMissingComma => "expected `,`"@,
        ParameterKind::LimitMissingMax => "expected limit maximum value"@,
        ParameterKind::LimitMissingValues => "expected limit values"@,
        ParameterKind::PiecewiseMissingExpr => "expected piecewise expression"@,
        ParameterKind::PiecewiseMissingIf => "expected `if`"@,
        ParameterKind::PiecewiseMissingIfExpr => "expected piecewise conditional expression after `if`"@,
    }
}

/// The message for an incomplete parameter.
pub fn parameter_message_str(x: ParameterKind) -> (r: &'static str)
    ensures
        r@ == parameter_message(x),
{
    match x {
        ParameterKind::MissingIdentifier => "expected parameter identifier",
        ParameterKind::MissingEqualsSign => "expected `=`",
        ParameterKind::MissingValue => "expected parameter value after `=`",
        ParameterKind::MissingEndOfLine => "unexpected character",
        ParameterKind::MissingInstancePathSegment => "expected model identifier after `.`",
        ParameterKind::MissingUnit => "expected unit after `:`",
        ParameterKind::LimitMissingMin => "expected limit minimum value",
        ParameterKind::LimitMissingComma => "expected `,`",
        ParameterKind::LimitMissingMax => "expected limit maximum value",
        ParameterKind::LimitMissingValues => "expected limit values",
        ParameterKind::PiecewiseMissingExpr => "expected piecewise expression",
        ParameterKind::PiecewiseMissingIf => "expected `if`",
        ParameterKind::PiecewiseMissingIfExpr => "expected piecewise conditional expression after `if`",
    }
}

/// The message for an incomplete test.
pub open spec fn test_message(x: TestKind) -> Seq<char> {
    match x {
        TestKind::MissingColon => "expected `:`"@,
        TestKind::MissingExpr => "expected test expression"@,
        TestKind::MissingEndOfLine => "unexpected character"@,
    }
}

/// The message for an incomplete test.
pub fn test_message_str(x: TestKind) -> (r: &'static str)
    ensures
        r@ == test_message(x),
{
    match x {
        TestKind::MissingColon => "expected `:`",
        TestKind::MissingExpr => "expected test expression",
        TestKind::MissingEndOfLine => "unexpected character",
    }
}

/// The message for an incomplete token.
pub open spec fn token_incomplete_message(x: TokenIncompleteKind) -> Seq<char> {
    match x {
        TokenIncompleteKind::UnclosedNote { .. } => "unclosed note"@,
        TokenIncompleteKind::InvalidClosingDelimiter => "invalid closing delimiter for note"@,
        TokenIncompleteKind::UnclosedString { .. } => "unclosed string"@,
        TokenIncompleteKind::UnclosedRenderName { .. } => "unclosed `{` in render-name block"@,
        TokenIncompleteKind::InvalidDecimalPart { .. } => "invalid decimal part"@,
        TokenIncompleteKind::InvalidExponentPart { .. } => "invalid exponent part"@,
    }
}

/// The message for an incomplete token.
pub fn token_incomplete_message_str(x: TokenIncompleteKind) -> (r: &'static str)
    ensures
        r@ == token_incomplete_message(x),
{
    match x {
        TokenIncompleteKind::UnclosedNote { .. } => "unclosed note",
        TokenIncompleteKind::InvalidClosingDelimiter => "invalid closing delimiter for note",
        TokenIncompleteKind::UnclosedString { .. } => "unclosed string",
        TokenIncompleteKind::UnclosedRenderName { .. } => "unclosed `{` in render-name block",
        TokenIncompleteKind::InvalidDecimalPart { .. } => "invalid decimal part",
        TokenIncompleteKind::InvalidExponentPart { .. } => "invalid exponent part",
    }
}

/// The text `a`, then `b`, then `c`.
fn join3(a: &str, b: &str, c: &str) -> (r: String)
    ensures
        r@ == a@ + b@ + c@,
{
    let mut r = String::from_str(a);
    r.append(b);
    r.append(c);
    r
}

/// A token kind that was expected, as `Debug` writes it.
pub open spec fn token_expect_debug(k: TokenExpectKind) -> Seq<char> {
    match k {
        TokenExpectKind::EndOfLine => "EndOfLine"@,
        TokenExpectKind::Identifier => "Identifier"@,
        TokenExpectKind::Keyword(x) => "Keyword("@ + keyword_name(x) + ")"@,
        TokenExpectKind::Label => "Label"@,
        TokenExpectKind::Note => "Note"@,
        TokenExpectKind::Number => "Number"@,
        TokenExpectKind::String => "String"@,
        TokenExpectKind::Symbol(x) => "Symbol("@ + symbol_name(x) + ")"@,
        TokenExpectKind::UnitIdentifier => "UnitIdentifier"@,
        TokenExpectKind::UnitOne => "UnitOne"@,
        TokenExpectKind::RenderName => "RenderName"@,
    }
}

/// A token kind that was expected, as `Debug` writes it.
pub fn token_expect_debug_string(k: TokenExpectKind) -> (r: String)
    ensures
        r@ == token_expect_debug(k),
{
    match k {
        TokenExpectKind::EndOfLine => String::from_str("EndOfLine"),
        TokenExpectKind::Identifier => String::from_str("Identifier"),
        TokenExpectKind::Keyword(x) => join3("Keyword(", keyword_name_str(x), ")"),
        TokenExpectKind::Label => String::from_str("Label"),
        TokenExpectKind::Note => String::from_str("Note"),
        TokenExpectKind::Number => String::from_str("Number"),
        TokenExpectKind::String => String::from_str("String"),
        TokenExpectKind::Symbol(x) => join3("Symbol(", symbol_name_str(x), ")"),
        TokenExpectKind::UnitIdentifier => String::from_str("UnitIdentifier"),
        TokenExpectKind::UnitOne => String::from_str("UnitOne"),
        TokenExpectKind::RenderName => String::from_str("RenderName"),
    }
}

/// The message of an error of the tokenizer: what is incomplete, or, for
/// an error that parsing should never let through, its kind and a request
/// to report it.
pub open spec fn token_error_message(k: TokenErrorKind) -> Seq<char> {
    match k {
        TokenErrorKind::Incomplete(i) => token_incomplete_message(i),
        TokenErrorKind::Expect(x) => "unexpected token error `Expect("@ + token_expect_debug(x) + (
        ")`. please submit an issue at <https://github.com/oneil-lang/oneil/issues>"@),
        TokenErrorKind::NomError(n) => "unexpected token error `NomError("@ + nom_kind_name(n) + (
        ")`. please submit an issue at <https://github.com/oneil-lang/oneil/issues>"@),
    }
}

/// The message of an error of the tokenizer.
pub fn token_error_message_string(k: TokenErrorKind) -> (r: String)
    ensures
        r@ == token_error_message(k),
{
    match k {
        TokenErrorKind::Incomplete(i) => String::from_str(token_incomplete_message_str(i)),
        TokenErrorKind::Expect(x) => {
            let d = token_expect_debug_string(x);
            join3(
                "unexpected token error `Expect(",
                d.as_str(),
                ")`. please submit an issue at <https://github.com/oneil-lang/oneil/issues>",
            )
        },
        TokenErrorKind::NomError(n) => join3(
            "unexpected token error `NomError(",
            nom_kind_name_str(n),
            ")`. please submit an issue at <https://github.com/oneil-lang/oneil/issues>",
        ),
    }
}

/// The message for an incomplete submodel declaration.
pub open spec fn submodel_message(k: SubmodelKind) -> Seq<char> {
    match k {
        SubmodelKind::MissingModelInfo { after } => "expected submodel name after `"@ + submodel_keyword_text(
            after,
        ) + "`"@,
        SubmodelKind::MissingEndOfLine => "unexpected character"@,
    }
}

/// The message for an incomplete declaration.
pub open spec fn decl_message(k: DeclKind) -> Seq<char> {
    match k {
        DeclKind::Import(i) => import_message(i),
        DeclKind::Use(u) => use_message(u),
        DeclKind::Submodel(s) => submodel_message(s),
        DeclKind::ModelMissingSubcomponent => "expected submodel name after `.`"@,
        DeclKind::AsMissingAlias => "expected model alias after `as`"@,
        DeclKind::DesignMissingTarget => "expected model name after `design`"@,
        DeclKind::ApplyMissingFile => "expected design file name after `apply`"@,
        DeclKind::ApplyMissingTarget => "expected `to <target>` after `apply <file>`"@,
        DeclKind::DesignHeaderWrongFile => "`design` declaration is only allowed in `.one` design bundle files"@,
        DeclKind::DesignHeaderDuplicate => "only one `design` declaration is allowed per design bundle"@,
        DeclKind::DesignHeaderNotFirst => "in a `.one` design bundle, `design <model>` must be the first declaration after the optional note"@,
        DeclKind::DesignHeaderMissing => "missing `design <model>` declaration; `.one` design bundle must declare a target model"@,
    }
}

/// The message for an incomplete declaration.
pub fn decl_message_string(k: DeclKind) -> (r: String)
    ensures
        r@ == decl_message(k),
{
    match k {
        DeclKind::Import(i) => String::from_str(import_message_str(i)),
        DeclKind::Use(u) => String::from_str(use_message_str(u)),
        DeclKind::Submodel(SubmodelKind::MissingModelInfo { after }) => join3(
            "expected submodel name after `",
            submodel_keyword_text_str(after),
            "`",
        ),
        DeclKind::Submodel(SubmodelKind::MissingEndOfLine) => String::from_str("unexpected character"),
        DeclKind::ModelMissingSubcomponent => String::from_str("expected submodel name after `.`"),
        DeclKind::AsMissingAlias => String::from_str("expected model alias after `as`"),
        DeclKind::DesignMissingTarget => String::from_str("expected model name after `design`"),
        DeclKind::ApplyMissingFile => String::from_str("expected design file name after `apply`"),
        DeclKind::ApplyMissingTarget => String::from_str("expected `to <target>` after `apply <file>`"),
        DeclKind::DesignHeaderWrongFile => String::from_str(
            "`design` declaration is only allowed in `.one` design bundle files",
        ),
        DeclKind::DesignHeaderDuplicate => String::from_str(
            "only one `design` declaration is allowed per design bundle",
        ),
        DeclKind::DesignHeaderNotFirst => String::from_str(
            "in a `.one` design bundle, `design <model>` must be the first declaration after the optional note",
        ),
        DeclKind::DesignHeaderMissing => String::from_str(
            "missing `design <model>` declaration; `.one` design bundle must declare a target model",
        ),
    }
}

/// The message for an incomplete expression.
pub open spec fn expr_message(k: ExprKind) -> Seq<char> {
    match k {
        ExprKind::ComparisonOpMissingSecondOperand { operator } => "expected operand after `"@
            + comparison_op_text(operator) + "`"@,
        ExprKind::BinaryOpMissingSecondOperand { operator } => "expected operand after `"@ + binary_op_text(
            operator,
        ) + "`"@,
        ExprKind::ParenMissingExpr => "expected expression inside parentheses"@,
        ExprKind::UnaryOpMissingOperand { operator } => "expected operand after `"@ + unary_op_text(operator)
            + "`"@,
        ExprKind::VariableMissingReferenceModel => "expected parent model name after `.`"@,
    }
}

/// The message for an incomplete expression.
pub fn expr_message_string(k: ExprKind) -> (r: String)
    ensures
        r@ == expr_message(k),
{
    match k {
        ExprKind::ComparisonOpMissingSecondOperand { operator } => join3(
            "expected operand after `",
            comparison_op_text_str(operator),
            "`",
        ),
        ExprKind::BinaryOpMissingSecondOperand { operator } => join3(
            "expected operand after `",
            binary_op_text_str(operator),
            "`",
        ),
        ExprKind::ParenMissingExpr => String::from_str("expected expression inside parentheses"),
        ExprKind::UnaryOpMissingOperand { operator } => join3(
            "expected operand after `",
            unary_op_text_str(operator),
            "`",
        ),
        ExprKind::VariableMissingReferenceModel => String::from_str("expected parent model name after `.`"),
    }
}

/// The message for an incomplete unit expression.
pub open spec fn unit_message(k: UnitKind) -> Seq<char> {
    match k {
        UnitKind::MissingSecondTerm { operator } => "expected second operand after `"@ + unit_op_text(operator)
            + "`"@,
        UnitKind::MissingExponent => "expected exponent"@,
        UnitKind::ParenMissingExpr => "expected expression inside parentheses"@,
    }
}

/// The message for an incomplete unit expression.
pub fn unit_message_string(k: UnitKind) -> (r: String)
    ensures
        r@ == unit_message(k),
{
    match k {
        UnitKind::MissingSecondTerm { operator } => join3(
            "expected second operand after `",
            unit_op_text_str(operator),
            "`",
        ),
        UnitKind::MissingExponent => String::from_str("expected exponent"),
        UnitKind::ParenMissingExpr => String::from_str("expected expression inside parentheses"),
    }
}

/// The message for an incomplete construct.
pub open spec fn incomplete_message(k: IncompleteKind) -> Seq<char> {
    match k {
        IncompleteKind::Decl(d) => decl_message(d),
        IncompleteKind::Expr(e) => expr_message(e),
        IncompleteKind::Section(s) => section_message(s),
        IncompleteKind::Parameter(p) => parameter_message(p),
        IncompleteKind::Test(t) => test_message(t),
        IncompleteKind::Unit(u) => unit_message(u),
        IncompleteKind::UnclosedBracket => "unclosed `[`"@,
        IncompleteKind::UnclosedParen => "unclosed `(`"@,
    }
}

/// The message for an incomplete construct.
pub fn incomplete_message_string(k: IncompleteKind) -> (r: String)
    ensures
        r@ == incomplete_message(k),
{
    match k {
        IncompleteKind::Decl(d) => decl_message_string(d),
        IncompleteKind::Expr(e) => expr_message_string(e),
        IncompleteKind::Section(s) => String::from_str(section_message_str(s)),
        IncompleteKind::Parameter(p) => String::from_str(parameter_message_str(p)),
        IncompleteKind::Test(t) => String::from_str(test_message_str(t)),
        IncompleteKind::Unit(u) => unit_message_string(u),
        IncompleteKind::UnclosedBracket => String::from_str("unclosed `[`"),
        IncompleteKind::UnclosedParen => String::from_str("unclosed `(`"),
    }
}

/// The message of a parse error, by its reason.
pub open spec fn reason_message(r: ParserErrorReason) -> Seq<char> {
    match r {
        ParserErrorReason::Expect(e) => expect_message(e),
        ParserErrorReason::Incomplete { kind, .. } => incomplete_message(kind),
        ParserErrorReason::UnexpectedToken => "unexpected token"@,
        ParserErrorReason::TokenError(k) => token_error_message(k),
        ParserErrorReason::NomError(n) => "unexpected nom parser error `"@ + nom_kind_name(n) + (
        "`. please submit an issue at <https://github.com/oneil-lang/oneil/issues>"@),
    }
}

impl ParserErrorReason {
    /// The message of an error with this reason.
    pub fn message(&self) -> (r: String)
        ensures
            r@ == reason_message(*self),
    {
        match *self {
            ParserErrorReason::Expect(e) => String::from_str(expect_message_str(e)),
            ParserErrorReason::Incomplete { kind, .. } => incomplete_message_string(kind),
            ParserErrorReason::UnexpectedToken => String::from_str("unexpected token"),
            ParserErrorReason::TokenError(k) => token_error_message_string(k),
            ParserErrorReason::NomError(n) => join3(
                "unexpected nom parser error `",
                nom_kind_name_str(n),
                "`. please submit an issue at <https://github.com/oneil-lang/oneil/issues>",
            ),
        }
    }
}

impl ParserError {
    /// The message of the error: that of its reason.
    pub fn message(&self) -> (r: String)
        ensures
            r@ == reason_message(self.reason),
    {
        self.reason.message()
    }
}

} // verus!
