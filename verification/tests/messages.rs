use oneil::ast::{BinaryOp, ComparisonOp, UnitOp};
use oneil::context::{from_source, Context, ErrorLocation};
use oneil::error::{
    DeclKind, ExpectKind, ExprKind, IncompleteKind, ParserError, ParserErrorReason, SubmodelKeyword,
    SubmodelKind, UnitKind,
};
use oneil::text::{source_location_from, span_from, Input, SourceLocation, Span};
use oneil::token::error::{
    ExpectKeyword, ExpectKind as TokenExpectKind, ExpectSymbol, IncompleteKind as TokenIncompleteKind,
    NomErrorKind, TokenError, TokenErrorKind,
};
use oneil::{parse_model, Config};

fn span(a: usize, b: usize) -> Span {
    Span::new(
        SourceLocation { offset: a, line: 1, column: a + 1 },
        SourceLocation { offset: b, line: 1, column: b + 1 },
    )
}

fn incomplete(kind: IncompleteKind) -> ParserErrorReason {
    ParserErrorReason::Incomplete { cause: span(0, 1), kind }
}

#[test]
fn expect_messages() {
    assert_eq!(ParserErrorReason::Expect(ExpectKind::Decl).message(), "expected parameter or test");
    assert_eq!(ParserErrorReason::Expect(ExpectKind::Unit).message(), "expected unit");
    assert_eq!(ParserErrorReason::UnexpectedToken.message(), "unexpected token");
}

#[test]
fn operator_messages_name_the_operator() {
    let r = incomplete(IncompleteKind::Expr(ExprKind::BinaryOpMissingSecondOperand { operator: BinaryOp::EscapedDiv }));
    assert_eq!(r.message(), "expected operand after `//`");
    let r = incomplete(IncompleteKind::Expr(ExprKind::ComparisonOpMissingSecondOperand { operator: ComparisonOp::NotEq }));
    assert_eq!(r.message(), "expected operand after `!=`");
    let r = incomplete(IncompleteKind::Unit(UnitKind::MissingSecondTerm { operator: UnitOp::Divide }));
    assert_eq!(r.message(), "expected second operand after `/`");
    let r = incomplete(IncompleteKind::Decl(DeclKind::Submodel(SubmodelKind::MissingModelInfo {
        after: SubmodelKeyword::Reference,
    })));
    assert_eq!(r.message(), "expected submodel name after `reference`");
    assert_eq!(incomplete(IncompleteKind::UnclosedParen).message(), "unclosed `(`");
}

#[test]
fn internal_errors_ask_for_a_report() {
    let r = ParserErrorReason::TokenError(TokenErrorKind::Expect(TokenExpectKind::Symbol(ExpectSymbol::Plus)));
    assert_eq!(
        r.message(),
        "unexpected token error `Expect(Symbol(Plus))`. please submit an issue at <https://github.com/oneil-lang/oneil/issues>"
    );
    let r = ParserErrorReason::NomError(NomErrorKind::Eof);
    assert_eq!(
        r.message(),
        "unexpected nom parser error `Eof`. please submit an issue at <https://github.com/oneil-lang/oneil/issues>"
    );
    let r = ParserErrorReason::TokenError(TokenErrorKind::Incomplete(TokenIncompleteKind::UnclosedString {
        open_quote_offset: 3,
    }));
    assert_eq!(r.message(), "unclosed string");
}

#[test]
fn parser_error_message_is_its_reason_message() {
    let e = ParserError { error_offset: 4, reason: ParserErrorReason::Expect(ExpectKind::Expr) };
    assert_eq!(e.message(), "expected expression");
}

fn hints(src: &str, offset: usize, reason: ParserErrorReason) -> Vec<(Context, Option<ErrorLocation>)> {
    let inp = Input::new(src, Config::default());
    from_source(&inp, offset, reason)
}

fn note(t: &str) -> Context {
    Context::Note(t.to_string())
}

#[test]
fn misplaced_note_and_missing_label_hints() {
    let decl = ParserErrorReason::Expect(ExpectKind::Decl);
    let h = hints("x: a = 1\n~ stray note\n", 9, decl);
    assert_eq!(
        h,
        vec![(
            note("notes are only allowed at the beginning of model files and sections and after parameters and tests"),
            None
        )]
    );
    let h = hints("mass = 5\n", 0, decl);
    assert_eq!(h, vec![(note("parameters must have a label"), None)]);
}

#[test]
fn label_with_bad_character_points_at_it() {
    let decl = ParserErrorReason::Expect(ExpectKind::Decl);
    let h = hints("my label!: x = 1\n", 0, decl);
    assert_eq!(h.len(), 2);
    assert_eq!(h[1], (note("invalid character found here"), Some(ErrorLocation { offset: 2, length: None })));
}

#[test]
fn literal_hints() {
    let expr = ParserErrorReason::Expect(ExpectKind::Expr);
    let h = hints("x = \"abc\"", 4, expr);
    assert_eq!(h.len(), 2);
    assert_eq!(h[1].0, Context::Help("use single quotes (`'`) instead of double quotes (`\"`)".to_string()));
    let h = hints("x = .5", 4, expr);
    assert_eq!(h[1].0, Context::Help("add a leading `0`".to_string()));
    assert!(hints("x = .a", 4, expr).is_empty());
}

#[test]
fn unclosed_hints_point_at_the_opening() {
    let r = ParserErrorReason::Incomplete { cause: span(3, 4), kind: IncompleteKind::UnclosedBracket };
    assert_eq!(
        hints("x [1, 2", 7, r),
        vec![(note("unclosed bracket found here"), Some(ErrorLocation { offset: 3, length: None }))]
    );
    let r = ParserErrorReason::TokenError(TokenErrorKind::Incomplete(TokenIncompleteKind::UnclosedNote {
        delimiter_start_offset: 0,
        delimiter_end_offset: 3,
    }));
    assert_eq!(
        hints("~~~\nabc\n", 8, r),
        vec![(note("unclosed note found here"), Some(ErrorLocation { offset: 0, length: Some(3) }))]
    );
    let r = ParserErrorReason::TokenError(TokenErrorKind::Incomplete(TokenIncompleteKind::InvalidExponentPart {
        e_offset: 2,
    }))
    ;
    assert_eq!(hints("1.e", 3, r), vec![(note("because of `e` here"), Some(ErrorLocation { offset: 2, length: None }))]);
}

#[test]
fn model_errors_come_with_messages() {
    let err = parse_model("x: a = \n", None).expect_err("missing value");
    assert_eq!(err.error_collection[0].message(), "expected parameter value after `=`");
}

#[test]
fn token_error_constructors_keep_the_offset() {
    let low = TokenError { kind: TokenErrorKind::NomError(NomErrorKind::Tag), offset: 7 };
    assert_eq!(
        TokenError::expected_identifier(low),
        TokenError { kind: TokenErrorKind::Expect(TokenExpectKind::Identifier), offset: 7 }
    );
    assert_eq!(
        TokenError::expected_keyword(ExpectKeyword::If, low),
        TokenError { kind: TokenErrorKind::Expect(TokenExpectKind::Keyword(ExpectKeyword::If)), offset: 7 }
    );
    assert_eq!(
        TokenError::unclosed_note(2, 5, low).kind,
        TokenErrorKind::Incomplete(TokenIncompleteKind::UnclosedNote { delimiter_start_offset: 2, delimiter_end_offset: 5 })
    );
    assert_eq!(TokenError::expected_note_from_span(4).offset, 4);
    assert!(TokenError::expected_keyword(ExpectKeyword::If, low).is_token_error(ExpectKeyword::If));
    assert!(!TokenError::expected_symbol(ExpectSymbol::Plus, low).is_token_error(ExpectKeyword::If));
}

#[test]
fn locations_count_bytes_lines_and_columns() {
    let inp = Input::new("aé\nb", Config::default());
    let l = source_location_from(&inp, 3);
    assert_eq!(l, SourceLocation { offset: 4, line: 2, column: 1 });
    let sp = span_from(&inp, 1, 2);
    assert_eq!((sp.start().offset, sp.end().offset), (1, 3));
}
