#![allow(unused_imports, dead_code, unused_variables, unused_mut)]
use oneil::outcome::{Fault, PResult};
use oneil::text::{Input, Span as SourceSpan};
use oneil::token::error::{
    ExpectKeyword, ExpectKind, ExpectSymbol, IncompleteKind, NomErrorKind, TokenError,
    TokenErrorKind,
};
use oneil::token::error;
use oneil::token::note::NoteKind;
use oneil::token::util::Token;
use oneil::Config;
use std::rc::Rc;

#[derive(Clone)]
struct InputSpan {
    inp: Rc<Input>,
    pos: usize,
    end: usize,
}

impl std::fmt::Debug for InputSpan {
    fn fmt(&self, f: &mut std::fmt::Formatter<'_>) -> std::fmt::Result {
        f.write_str(&format!("InputSpan({:?} at {})", self.fragment(), self.pos))
    }
}

impl InputSpan {
    fn new_extra(src: &str, config: Config) -> Self {
        let inp = Rc::new(Input::new(src, config));
        let end = inp.len();
        InputSpan { inp, pos: 0, end }
    }

    fn at(&self, pos: usize) -> Self {
        InputSpan { inp: self.inp.clone(), pos, end: self.inp.len() }
    }

    fn between(&self, pos: usize, end: usize) -> Self {
        InputSpan { inp: self.inp.clone(), pos, end }
    }

    fn fragment(&self) -> &'static &'static str {
        let s: &'static str = Box::leak(self.inp.substring(self.pos, self.end).into_boxed_str());
        Box::leak(Box::new(s))
    }

    fn location_offset(&self) -> usize {
        self.inp.location(self.pos).offset
    }

    fn location_line(&self) -> u32 {
        self.inp.location(self.pos).line as u32
    }

    fn get_column(&self) -> usize {
        self.inp.location(self.pos).column
    }
}

/// A token together with the text it was read from.
#[derive(Debug, Clone)]
struct Tok {
    lexeme_str: String,
    lexeme_span: SourceSpan,
    whitespace_span: SourceSpan,
    ws: String,
}

impl Tok {
    fn lexeme(&self) -> &str {
        &self.lexeme_str
    }

    fn whitespace(&self) -> &str {
        &self.ws
    }
}

fn char_index(inp: &Input, offset: usize) -> usize {
    let mut i = 0;
    while i < inp.len() && inp.location(i).offset < offset {
        i += 1;
    }
    i
}

fn tok(inp: &Input, t: Token) -> Tok {
    let a = char_index(inp, t.whitespace_span.start.offset);
    let b = char_index(inp, t.whitespace_span.end.offset);
    Tok {
        lexeme_str: t.lexeme_str.clone(),
        lexeme_span: t.lexeme_span,
        whitespace_span: t.whitespace_span,
        ws: inp.substring(a, b),
    }
}

fn done<T>(i: &InputSpan, r: PResult<T, TokenError>) -> Result<(InputSpan, T), nom::Err<TokenError>> {
    match r {
        Ok((q, t)) => Ok((i.at(q), t)),
        Err(Fault::Error(e)) => Err(nom::Err::Error(e)),
        Err(Fault::Failure(e)) => Err(nom::Err::Failure(e)),
    }
}

fn done_tok(i: &InputSpan, r: PResult<Token, TokenError>) -> Result<(InputSpan, Tok), nom::Err<TokenError>> {
    match done(i, r) {
        Ok((rest, t)) => {
            let t = tok(&i.inp, t);
            Ok((rest, t))
        }
        Err(e) => Err(e),
    }
}

fn done_span(i: &InputSpan, r: PResult<SourceSpan, TokenError>) -> Result<(InputSpan, InputSpan), nom::Err<TokenError>> {
    match done(i, r) {
        Ok((rest, sp)) => {
            let a = char_index(&i.inp, sp.start.offset);
            let b = char_index(&i.inp, sp.end.offset);
            let m = i.between(a, b);
            Ok((rest, m))
        }
        Err(e) => Err(e),
    }
}

fn number(i: InputSpan) -> Result<(InputSpan, Tok), nom::Err<TokenError>> {
    done_tok(&i, oneil::token::literal::number(&i.inp, i.pos))
}

fn string(i: InputSpan) -> Result<(InputSpan, Tok), nom::Err<TokenError>> {
    done_tok(&i, oneil::token::literal::string(&i.inp, i.pos))
}

fn unit_one(i: InputSpan) -> Result<(InputSpan, Tok), nom::Err<TokenError>> {
    done_tok(&i, oneil::token::literal::unit_one(&i.inp, i.pos))
}

#[test]
fn integer() {
            let input = InputSpan::new_extra("42 rest", Config::default());
            let (rest, matched) = number(input).expect("should parse integer");
            assert_eq!(matched.lexeme(), "42");
            assert_eq!(rest.fragment(), &"rest");
        }

#[test]
fn negative_integer() {
            let input = InputSpan::new_extra("-17 rest", Config::default());
            let (rest, matched) = number(input).expect("should parse negative integer");
            assert_eq!(matched.lexeme(), "-17");
            assert_eq!(rest.fragment(), &"rest");
        }

#[test]
fn decimal() {
            let input = InputSpan::new_extra("3.1415 rest", Config::default());
            let (rest, matched) = number(input).expect("should parse decimal");
            assert_eq!(matched.lexeme(), "3.1415");
            assert_eq!(rest.fragment(), &"rest");
        }

#[test]
fn exponent() {
            let input = InputSpan::new_extra("2.5e10 rest", Config::default());
            let (rest, matched) = number(input).expect("should parse exponent");
            assert_eq!(matched.lexeme(), "2.5e10");
            assert_eq!(rest.fragment(), &"rest");
        }

#[test]
fn negative_exponent() {
            let input = InputSpan::new_extra("-1.2E-3 rest", Config::default());
            let (rest, matched) = number(input).expect("should parse negative exponent");
            assert_eq!(matched.lexeme(), "-1.2E-3");
            assert_eq!(rest.fragment(), &"rest");
        }

#[test]
fn multiple_decimal_points() {
            let input = InputSpan::new_extra("123.456.789", Config::default());
            let (rest, matched) = number(input).expect("should parse first decimal part");
            assert_eq!(matched.lexeme(), "123.456");
            assert_eq!(rest.fragment(), &".789");
        }

#[test]
fn multiple_exponents() {
            let input = InputSpan::new_extra("123e10e5", Config::default());
            let (rest, matched) = number(input).expect("should parse first exponent part");
            assert_eq!(matched.lexeme(), "123e10");
            assert_eq!(rest.fragment(), &"e5");
        }

#[test]
fn exponent_before_decimal() {
            let input = InputSpan::new_extra("123e5.456", Config::default());
            let (rest, matched) = number(input).expect("should parse exponent part");
            assert_eq!(matched.lexeme(), "123e5");
            assert_eq!(rest.fragment(), &".456");
        }

#[test]
fn invalid_exponent_letter() {
            let input = InputSpan::new_extra("123f5", Config::default());
            let (rest, matched) = number(input).expect("should parse digits only");
            assert_eq!(matched.lexeme(), "123");
            assert_eq!(rest.fragment(), &"f5");
        }

#[test]
fn invalid_exponent_letter_uppercase() {
            let input = InputSpan::new_extra("123F5", Config::default());
            let (rest, matched) = number(input).expect("should parse digits only");
            assert_eq!(matched.lexeme(), "123");
            assert_eq!(rest.fragment(), &"F5");
        }

#[test]
fn with_letters_mixed() {
            let input = InputSpan::new_extra("123abc", Config::default());
            let (rest, matched) = number(input).expect("should parse digits only");
            assert_eq!(matched.lexeme(), "123");
            assert_eq!(rest.fragment(), &"abc");
        }

#[test]
fn with_symbols_mixed() {
            let input = InputSpan::new_extra("123+456", Config::default());
            let (rest, matched) = number(input).expect("should parse digits only");
            assert_eq!(matched.lexeme(), "123");
            assert_eq!(rest.fragment(), &"+456");
        }

#[test]
fn leading_zeros() {
            let input = InputSpan::new_extra("00123 rest", Config::default());
            let (rest, matched) = number(input).expect("should parse leading zeros");
            assert_eq!(matched.lexeme(), "00123");
            assert_eq!(rest.fragment(), &"rest");
        }

#[test]
fn negative_zero() {
            let input = InputSpan::new_extra("-0 rest", Config::default());
            let (rest, matched) = number(input).expect("should parse negative zero");
            assert_eq!(matched.lexeme(), "-0");
            assert_eq!(rest.fragment(), &"rest");
        }

#[test]
fn positive_zero() {
            let input = InputSpan::new_extra("+0 rest", Config::default());
            let (rest, matched) = number(input).expect("should parse positive zero");
            assert_eq!(matched.lexeme(), "+0");
            assert_eq!(rest.fragment(), &"rest");
        }

#[test]
fn zero_decimal() {
            let input = InputSpan::new_extra("0.123 rest", Config::default());
            let (rest, matched) = number(input).expect("should parse zero decimal");
            assert_eq!(matched.lexeme(), "0.123");
            assert_eq!(rest.fragment(), &"rest");
        }

#[test]
fn zero_exponent() {
            let input = InputSpan::new_extra("123e0 rest", Config::default());
            let (rest, matched) = number(input).expect("should parse zero exponent");
            assert_eq!(matched.lexeme(), "123e0");
            assert_eq!(rest.fragment(), &"rest");
        }

#[test]
fn max_precision() {
            let input = InputSpan::new_extra("3.141592653589793 rest", Config::default());
            let (rest, matched) = number(input).expect("should parse high precision");
            assert_eq!(matched.lexeme(), "3.141592653589793");
            assert_eq!(rest.fragment(), &"rest");
        }

#[test]
fn large_exponent() {
            let input = InputSpan::new_extra("1e308 rest", Config::default());
            let (rest, matched) = number(input).expect("should parse large exponent");
            assert_eq!(matched.lexeme(), "1e308");
            assert_eq!(rest.fragment(), &"rest");
        }

#[test]
fn small_exponent() {
            let input = InputSpan::new_extra("1e-308 rest", Config::default());
            let (rest, matched) = number(input).expect("should parse small exponent");
            assert_eq!(matched.lexeme(), "1e-308");
            assert_eq!(rest.fragment(), &"rest");
        }

#[test]
fn decimal_without_digits() {
            let input = InputSpan::new_extra(".123 rest", Config::default());
            let (rest, matched) = number(input).expect("should parse .123 successfully");
            assert_eq!(matched.lexeme(), ".123");
            assert_eq!(rest.fragment(), &"rest");
        }

#[test]
fn decimal_without_digits_with_sign() {
            let input = InputSpan::new_extra("-.123 rest", Config::default());
            let (rest, matched) = number(input).expect("should parse -.123 successfully");
            assert_eq!(matched.lexeme(), "-.123");
            assert_eq!(rest.fragment(), &"rest");
        }

#[test]
fn decimal_without_digits_with_exponent() {
            let input = InputSpan::new_extra(".123e10 rest", Config::default());
            let (rest, matched) = number(input).expect("should parse .123e10 successfully");
            assert_eq!(matched.lexeme(), ".123e10");
            assert_eq!(rest.fragment(), &"rest");
        }

#[test]
fn decimal_without_digits_with_sign_and_exponent() {
            let input = InputSpan::new_extra("-.123e-10 rest", Config::default());
            let (rest, matched) = number(input).expect("should parse -.123e-10 successfully");
            assert_eq!(matched.lexeme(), "-.123e-10");
            assert_eq!(rest.fragment(), &"rest");
        }

#[test]
fn inf_literal() {
            let input = InputSpan::new_extra("inf rest", Config::default());
            let (rest, matched) = number(input).expect("should parse inf literal");
            assert_eq!(matched.lexeme(), "inf");
            assert_eq!(rest.fragment(), &"rest");
        }

#[test]
fn positive_inf_literal() {
            let input = InputSpan::new_extra("+inf rest", Config::default());
            let (rest, matched) = number(input).expect("should parse +inf literal");
            assert_eq!(matched.lexeme(), "+inf");
            assert_eq!(rest.fragment(), &"rest");
        }

#[test]
fn negative_inf_literal() {
            let input = InputSpan::new_extra("-inf rest", Config::default());
            let (rest, matched) = number(input).expect("should parse -inf literal");
            assert_eq!(matched.lexeme(), "-inf");
            assert_eq!(rest.fragment(), &"rest");
        }

#[test]
fn inf_at_end_of_file() {
            let input = InputSpan::new_extra("inf", Config::default());
            let (rest, matched) = number(input).expect("should parse inf at end of file");
            assert_eq!(matched.lexeme(), "inf");
            assert_eq!(rest.fragment(), &"");
        }

#[test]
fn positive_inf_at_end_of_file() {
            let input = InputSpan::new_extra("+inf", Config::default());
            let (rest, matched) = number(input).expect("should parse +inf at end of file");
            assert_eq!(matched.lexeme(), "+inf");
            assert_eq!(rest.fragment(), &"");
        }

#[test]
fn negative_inf_at_end_of_file() {
            let input = InputSpan::new_extra("-inf", Config::default());
            let (rest, matched) = number(input).expect("should parse -inf at end of file");
            assert_eq!(matched.lexeme(), "-inf");
            assert_eq!(rest.fragment(), &"");
        }

#[test]
fn inf_with_whitespace() {
            let input = InputSpan::new_extra("inf   rest", Config::default());
            let (rest, matched) = number(input).expect("should parse inf with trailing whitespace");
            assert_eq!(matched.lexeme(), "inf");
            assert_eq!(rest.fragment(), &"rest");
        }

#[test]
fn inf_with_punctuation() {
            let input = InputSpan::new_extra("inf,", Config::default());
            let (rest, matched) = number(input).expect("should parse inf with comma");
            assert_eq!(matched.lexeme(), "inf");
            assert_eq!(rest.fragment(), &",");
        }

#[test]
fn inf_with_parentheses() {
            let input = InputSpan::new_extra("inf(", Config::default());
            let (rest, matched) = number(input).expect("should parse inf with opening parenthesis");
            assert_eq!(matched.lexeme(), "inf");
            assert_eq!(rest.fragment(), &"(");
        }

#[test]
fn inf_with_symbols() {
            let input = InputSpan::new_extra("inf+", Config::default());
            let (rest, matched) = number(input).expect("should parse inf with plus symbol");
            assert_eq!(matched.lexeme(), "inf");
            assert_eq!(rest.fragment(), &"+");
        }

#[test]
fn inf_with_newline() {
            let input = InputSpan::new_extra("inf\n", Config::default());
            let (rest, matched) = number(input).expect("should parse inf with newline");
            assert_eq!(matched.lexeme(), "inf");
            assert_eq!(rest.fragment(), &"\n");
        }

#[test]
fn inf_with_tab() {
            let input = InputSpan::new_extra("inf\t", Config::default());
            let (rest, matched) = number(input).expect("should parse inf with tab");
            assert_eq!(matched.lexeme(), "inf");
            assert_eq!(rest.fragment(), &"");
        }

#[test]
fn inf_with_carriage_return() {
            let input = InputSpan::new_extra("inf\r", Config::default());
            let (rest, matched) = number(input).expect("should parse inf with carriage return");
            assert_eq!(matched.lexeme(), "inf");
            assert_eq!(rest.fragment(), &"\r");
        }

#[test]
fn literal_empty_input() {
            let input = InputSpan::new_extra("", Config::default());
            let res = number(input);
            let Err(nom::Err::Error(token_error)) = res else {
                panic!("expected TokenError::Expect(Number), got {res:?}");
            };

            assert!(matches!(
                token_error.kind,
                TokenErrorKind::Expect(ExpectKind::Number)
            ));
        }

#[test]
fn literal_whitespace_only() {
            let input = InputSpan::new_extra("   ", Config::default());
            let res = number(input);
            let Err(nom::Err::Error(token_error)) = res else {
                panic!("expected TokenError::Expect(Number), got {res:?}");
            };

            assert!(matches!(
                token_error.kind,
                TokenErrorKind::Expect(ExpectKind::Number)
            ));
        }

#[test]
fn literal_letters_only() {
            let input = InputSpan::new_extra("abc", Config::default());
            let res = number(input);
            let Err(nom::Err::Error(token_error)) = res else {
                panic!("expected TokenError::Expect(Number), got {res:?}");
            };

            assert!(matches!(
                token_error.kind,
                TokenErrorKind::Expect(ExpectKind::Number)
            ));
        }

#[test]
fn literal_symbols_only() {
            let input = InputSpan::new_extra("+-", Config::default());
            let res = number(input);
            let Err(nom::Err::Error(token_error)) = res else {
                panic!("expected TokenError::Expect(Number), got {res:?}");
            };

            assert!(matches!(
                token_error.kind,
                TokenErrorKind::Expect(ExpectKind::Number)
            ));
        }

#[test]
fn decimal_point_only() {
            let input = InputSpan::new_extra(".", Config::default());
            let res = number(input);
            let Err(nom::Err::Failure(token_error)) = res else {
                panic!("expected TokenError::Incomplete(InvalidDecimalPart), got {res:?}");
            };

            assert!(matches!(
                token_error.kind,
                TokenErrorKind::Incomplete(IncompleteKind::InvalidDecimalPart { .. })
            ));
        }

#[test]
fn exponent_only() {
            let input = InputSpan::new_extra("e", Config::default());
            let res = number(input);
            let Err(nom::Err::Error(token_error)) = res else {
                panic!("expected TokenError::Expect(Number), got {res:?}");
            };

            assert!(matches!(
                token_error.kind,
                TokenErrorKind::Expect(ExpectKind::Number)
            ));
        }

#[test]
fn exponent_without_digits() {
            let input = InputSpan::new_extra("123e", Config::default());
            let res = number(input);
            let Err(nom::Err::Failure(token_error)) = res else {
                panic!("expected TokenError::Incomplete(InvalidExponentPart), got {res:?}");
            };

            assert!(matches!(
                token_error.kind,
                TokenErrorKind::Incomplete(IncompleteKind::InvalidExponentPart { .. })
            ));
        }

#[test]
fn exponent_with_sign_only() {
            let input = InputSpan::new_extra("123e+", Config::default());
            let res = number(input);
            let Err(nom::Err::Failure(token_error)) = res else {
                panic!("expected TokenError::Incomplete(InvalidExponentPart), got {res:?}");
            };

            assert!(matches!(
                token_error.kind,
                TokenErrorKind::Incomplete(IncompleteKind::InvalidExponentPart { .. })
            ));
        }

#[test]
fn exponent_with_sign_only_negative() {
            let input = InputSpan::new_extra("123e-", Config::default());
            let res = number(input);
            let Err(nom::Err::Failure(token_error)) = res else {
                panic!("expected TokenError::Incomplete(InvalidExponentPart), got {res:?}");
            };

            assert!(matches!(
                token_error.kind,
                TokenErrorKind::Incomplete(IncompleteKind::InvalidExponentPart { .. })
            ));
        }

#[test]
fn literal_error_messages_are_specific() {
            let input = InputSpan::new_extra("abc", Config::default());
            let res = number(input);
            assert!(res.is_err(), "should fail with specific error");

            let Err(nom::Err::Error(token_error)) = res else {
                panic!("expected TokenError but got different error type: {res:?}");
            };

            assert!(
                matches!(token_error.kind, TokenErrorKind::Expect(ExpectKind::Number)),
                "error should be for Number"
            );
        }

#[test]
fn invalid_decimal_part_error() {
            let input = InputSpan::new_extra("123.", Config::default());
            let res = number(input);
            assert!(res.is_err(), "should fail on invalid decimal part");

            let Err(nom::Err::Failure(token_error)) = res else {
                panic!("expected TokenError Failure but got different error type: {res:?}");
            };

            assert!(
                matches!(
                    token_error.kind,
                    TokenErrorKind::Incomplete(IncompleteKind::InvalidDecimalPart { .. })
                ),
                "error should be for InvalidDecimalPart"
            );
        }

#[test]
fn invalid_exponent_part_error() {
            let input = InputSpan::new_extra("123e", Config::default());
            let res = number(input);
            assert!(res.is_err(), "should fail on invalid exponent part");

            let Err(nom::Err::Failure(token_error)) = res else {
                panic!("expected TokenError Failure but got different error type: {res:?}");
            };

            assert!(
                matches!(
                    token_error.kind,
                    TokenErrorKind::Incomplete(IncompleteKind::InvalidExponentPart { .. })
                ),
                "error should be for InvalidExponentPart"
            );
        }

#[test]
fn inf_with_letters_after() {
            let input = InputSpan::new_extra("infinity", Config::default());
            let res = number(input);
            let Err(nom::Err::Error(token_error)) = res else {
                panic!("expected TokenError::Expect(Number), got {res:?}");
            };

            assert!(matches!(
                token_error.kind,
                TokenErrorKind::Expect(ExpectKind::Number)
            ));
        }

#[test]
fn inf_with_numbers_after() {
            let input = InputSpan::new_extra("inf123", Config::default());
            let res = number(input);
            let Err(nom::Err::Error(token_error)) = res else {
                panic!("expected TokenError::Expect(Number), got {res:?}");
            };

            assert!(matches!(
                token_error.kind,
                TokenErrorKind::Expect(ExpectKind::Number)
            ));
        }

#[test]
fn inf_with_underscore_after() {
            let input = InputSpan::new_extra("inf_", Config::default());
            let res = number(input);
            let Err(nom::Err::Error(token_error)) = res else {
                panic!("expected TokenError::Expect(Number), got {res:?}");
            };

            assert!(matches!(
                token_error.kind,
                TokenErrorKind::Expect(ExpectKind::Number)
            ));
        }

#[test]
fn partial_inf_match() {
            let input = InputSpan::new_extra("in", Config::default());
            let res = number(input);
            let Err(nom::Err::Error(token_error)) = res else {
                panic!("expected TokenError::Expect(Number), got {res:?}");
            };

            assert!(matches!(
                token_error.kind,
                TokenErrorKind::Expect(ExpectKind::Number)
            ));
        }

#[test]
fn case_sensitive_inf() {
            let input = InputSpan::new_extra("INF", Config::default());
            let res = number(input);
            let Err(nom::Err::Error(token_error)) = res else {
                panic!("expected TokenError::Expect(Number), got {res:?}");
            };

            assert!(matches!(
                token_error.kind,
                TokenErrorKind::Expect(ExpectKind::Number)
            ));
        }

#[test]
fn mixed_case_inf() {
            let input = InputSpan::new_extra("Inf", Config::default());
            let res = number(input);
            let Err(nom::Err::Error(token_error)) = res else {
                panic!("expected TokenError::Expect(Number), got {res:?}");
            };

            assert!(matches!(
                token_error.kind,
                TokenErrorKind::Expect(ExpectKind::Number)
            ));
        }

#[test]
fn inf_not_at_start() {
            let input = InputSpan::new_extra("foo inf bar", Config::default());
            let res = number(input);
            let Err(nom::Err::Error(token_error)) = res else {
                panic!("expected TokenError::Expect(Number), got {res:?}");
            };

            assert!(matches!(
                token_error.kind,
                TokenErrorKind::Expect(ExpectKind::Number)
            ));
        }

#[test]
fn literal_simple() {
            let input = InputSpan::new_extra("'hello' rest", Config::default());
            let (rest, matched) = string(input).expect("should parse string");
            assert_eq!(matched.lexeme(), "'hello'");
            assert_eq!(rest.fragment(), &"rest");
        }

#[test]
fn with_spaces() {
            let input = InputSpan::new_extra("'foo bar' baz", Config::default());
            let (rest, matched) = string(input).expect("should parse string with spaces");
            assert_eq!(matched.lexeme(), "'foo bar'");
            assert_eq!(rest.fragment(), &"baz");
        }

#[test]
fn escape_sequences_not_supported() {
            let input = InputSpan::new_extra("'foo \\' bar", Config::default());
            let (rest, matched) =
                string(input).expect("should parse string (escape sequences not supported)");
            assert_eq!(matched.lexeme(), "'foo \\'");
            assert_eq!(rest.fragment(), &"bar");
        }

#[test]
fn empty_string() {
            let input = InputSpan::new_extra("'' rest", Config::default());
            let (rest, matched) = string(input).expect("should parse empty string");
            assert_eq!(matched.lexeme(), "''");
            assert_eq!(rest.fragment(), &"rest");
        }

#[test]
fn literal_with_carriage_return() {
            let input = InputSpan::new_extra("'hello\rworld' rest", Config::default());
            let (rest, matched) = string(input).expect("should parse string with carriage return");
            assert_eq!(matched.lexeme(), "'hello\rworld'");
            assert_eq!(rest.fragment(), &"rest");
        }

#[test]
fn literal_with_tab() {
            let input = InputSpan::new_extra("'hello\tworld' rest", Config::default());
            let (rest, matched) = string(input).expect("should parse string with tab");
            assert_eq!(matched.lexeme(), "'hello\tworld'");
            assert_eq!(rest.fragment(), &"rest");
        }

#[test]
fn literal_with_numbers() {
            let input = InputSpan::new_extra("'123 456' rest", Config::default());
            let (rest, matched) = string(input).expect("should parse string with numbers");
            assert_eq!(matched.lexeme(), "'123 456'");
            assert_eq!(rest.fragment(), &"rest");
        }

#[test]
fn with_double_quotes() {
            let input = InputSpan::new_extra("'hello \"world\"' rest", Config::default());
            let (rest, matched) = string(input).expect("should parse string with double quotes");
            assert_eq!(matched.lexeme(), "'hello \"world\"'");
            assert_eq!(rest.fragment(), &"rest");
        }

#[test]
fn with_backslashes() {
            let input = InputSpan::new_extra("'hello\\world' rest", Config::default());
            let (rest, matched) = string(input).expect("should parse string with backslashes");
            assert_eq!(matched.lexeme(), "'hello\\world'");
            assert_eq!(rest.fragment(), &"rest");
        }

#[test]
fn with_whitespace_only() {
            let input = InputSpan::new_extra("'   ' rest", Config::default());
            let (rest, matched) = string(input).expect("should parse string with whitespace only");
            assert_eq!(matched.lexeme(), "'   '");
            assert_eq!(rest.fragment(), &"rest");
        }

#[test]
fn very_long() {
            let long_content = "a".repeat(1000);
            let input_str = format!("'{long_content}' rest");
            let input = InputSpan::new_extra(&input_str, Config::default());
            let (rest, matched) = string(input).expect("should parse very long string");
            let expected_lexeme = format!("'{long_content}'");
            assert_eq!(matched.lexeme(), expected_lexeme);
            assert_eq!(rest.fragment(), &"rest");
        }

#[test]
fn with_nested_single_quotes() {
            let input = InputSpan::new_extra("'hello'world' rest", Config::default());
            let (rest, matched) =
                string(input).expect("should parse string ending at first closing quote");
            assert_eq!(matched.lexeme(), "'hello'");
            assert_eq!(rest.fragment(), &"world' rest");
        }

#[test]
fn literal_at_end_of_file() {
            let input = InputSpan::new_extra("'hello'", Config::default());
            let (rest, matched) = string(input).expect("should parse string at end of file");
            assert_eq!(matched.lexeme(), "'hello'");
            assert_eq!(rest.fragment(), &"");
        }

#[test]
fn string_empty_input() {
            let input = InputSpan::new_extra("", Config::default());
            let res = string(input);
            let Err(nom::Err::Error(token_error)) = res else {
                panic!("expected TokenError::Expect(String), got {res:?}");
            };

            assert!(matches!(
                token_error.kind,
                TokenErrorKind::Expect(ExpectKind::String)
            ));
        }

#[test]
fn no_opening_quote() {
            let input = InputSpan::new_extra("hello'", Config::default());
            let res = string(input);
            let Err(nom::Err::Error(token_error)) = res else {
                panic!("expected TokenError::Expect(String), got {res:?}");
            };

            assert!(matches!(
                token_error.kind,
                TokenErrorKind::Expect(ExpectKind::String)
            ));
        }

#[test]
fn no_closing_quote() {
            let input = InputSpan::new_extra("'hello", Config::default());
            let res = string(input);
            let Err(nom::Err::Failure(token_error)) = res else {
                panic!("expected TokenError::Incomplete(UnclosedString), got {res:?}");
            };

            assert!(matches!(
                token_error.kind,
                TokenErrorKind::Incomplete(IncompleteKind::UnclosedString { .. })
            ));
        }

#[test]
fn with_newline() {
            let input = InputSpan::new_extra("'hello\nworld'", Config::default());
            let res = string(input);
            let Err(nom::Err::Failure(token_error)) = res else {
                panic!("expected TokenError::Incomplete(UnclosedString), got {res:?}");
            };

            assert!(matches!(
                token_error.kind,
                TokenErrorKind::Incomplete(IncompleteKind::UnclosedString { .. })
            ));
        }

#[test]
fn with_mixed_whitespace() {
            let input = InputSpan::new_extra("' \t\n\r ' rest", Config::default());
            let res = string(input);
            assert!(
                res.is_err(),
                "should fail on string with mixed whitespace including newlines"
            );
        }

#[test]
fn unterminated_at_end_of_file() {
            let input = InputSpan::new_extra("'hello", Config::default());
            let res = string(input);
            let Err(nom::Err::Failure(token_error)) = res else {
                panic!("expected TokenError::Incomplete(UnclosedString), got {res:?}");
            };

            assert!(matches!(
                token_error.kind,
                TokenErrorKind::Incomplete(IncompleteKind::UnclosedString { .. })
            ));
        }

#[test]
fn string_error_messages_are_specific() {
            let input = InputSpan::new_extra("abc", Config::default());
            let res = string(input);
            assert!(res.is_err(), "should fail with specific error");

            let Err(nom::Err::Error(token_error)) = res else {
                panic!("expected TokenError but got different error type: {res:?}");
            };

            assert!(
                matches!(token_error.kind, TokenErrorKind::Expect(ExpectKind::String)),
                "error should be for String"
            );
        }

#[test]
fn unclosed_string_error() {
            let input = InputSpan::new_extra("'hello", Config::default());
            let res = string(input);
            assert!(res.is_err(), "should fail on unclosed string");

            let Err(nom::Err::Failure(token_error)) = res else {
                panic!("expected TokenError Failure but got different error type: {res:?}");
            };

            assert!(
                matches!(
                    token_error.kind,
                    TokenErrorKind::Incomplete(IncompleteKind::UnclosedString { .. })
                ),
                "error should be for UnclosedString"
            );
        }

#[test]
fn unclosed_string_with_newline_error() {
            let input = InputSpan::new_extra("'hello\n", Config::default());
            let res = string(input);
            assert!(res.is_err(), "should fail on unclosed string with newline");

            let Err(nom::Err::Failure(token_error)) = res else {
                panic!("expected TokenError Failure but got different error type: {res:?}");
            };

            assert!(
                matches!(
                    token_error.kind,
                    TokenErrorKind::Incomplete(IncompleteKind::UnclosedString { .. })
                ),
                "error should be for UnclosedString"
            );
        }

#[test]
fn unit_one_simple() {
            let input = InputSpan::new_extra("1 rest", Config::default());
            let (rest, matched) = unit_one(input).expect("should parse unit one");
            assert_eq!(matched.lexeme(), "1");
            assert_eq!(rest.fragment(), &"rest");
        }

#[test]
fn unit_one_at_end_of_file() {
            let input = InputSpan::new_extra("1", Config::default());
            let (rest, matched) = unit_one(input).expect("should parse unit one at end of file");
            assert_eq!(matched.lexeme(), "1");
            assert_eq!(rest.fragment(), &"");
        }

#[test]
fn with_whitespace() {
            let input = InputSpan::new_extra("1  ", Config::default());
            let (rest, matched) = unit_one(input).expect("should parse unit one with whitespace");
            assert_eq!(matched.lexeme(), "1");
            assert_eq!(rest.fragment(), &"");
        }

#[test]
fn with_other_digits() {
            let input = InputSpan::new_extra("123", Config::default());
            let res = unit_one(input);
            let Err(nom::Err::Error(token_error)) = res else {
                panic!("expected TokenError::Expect(UnitOne), got {res:?}");
            };

            assert!(matches!(
                token_error.kind,
                TokenErrorKind::Expect(ExpectKind::UnitOne)
            ));
        }

#[test]
fn with_letters() {
            let input = InputSpan::new_extra("1abc", Config::default());
            let (rest, matched) = unit_one(input).expect("should parse unit one with letters");
            assert_eq!(matched.lexeme(), "1");
            assert_eq!(rest.fragment(), &"abc");
        }

#[test]
fn with_symbols() {
            let input = InputSpan::new_extra("1+2", Config::default());
            let (rest, matched) = unit_one(input).expect("should parse unit one with symbols");
            assert_eq!(matched.lexeme(), "1");
            assert_eq!(rest.fragment(), &"+2");
        }

#[test]
fn unit_one_empty_input() {
            let input = InputSpan::new_extra("", Config::default());
            let res = unit_one(input);
            let Err(nom::Err::Error(token_error)) = res else {
                panic!("expected TokenError::Expect(UnitOne), got {res:?}");
            };

            assert!(matches!(
                token_error.kind,
                TokenErrorKind::Expect(ExpectKind::UnitOne)
            ));
        }

#[test]
fn unit_one_whitespace_only() {
            let input = InputSpan::new_extra("   ", Config::default());
            let res = unit_one(input);
            let Err(nom::Err::Error(token_error)) = res else {
                panic!("expected TokenError::Expect(UnitOne), got {res:?}");
            };

            assert!(matches!(
                token_error.kind,
                TokenErrorKind::Expect(ExpectKind::UnitOne)
            ));
        }

#[test]
fn other_digits() {
            let input = InputSpan::new_extra("2", Config::default());
            let res = unit_one(input);
            let Err(nom::Err::Error(token_error)) = res else {
                panic!("expected TokenError::Expect(UnitOne), got {res:?}");
            };

            assert!(matches!(
                token_error.kind,
                TokenErrorKind::Expect(ExpectKind::UnitOne)
            ));
        }

#[test]
fn unit_one_letters_only() {
            let input = InputSpan::new_extra("abc", Config::default());
            let res = unit_one(input);
            let Err(nom::Err::Error(token_error)) = res else {
                panic!("expected TokenError::Expect(UnitOne), got {res:?}");
            };

            assert!(matches!(
                token_error.kind,
                TokenErrorKind::Expect(ExpectKind::UnitOne)
            ));
        }

#[test]
fn unit_one_symbols_only() {
            let input = InputSpan::new_extra("+-", Config::default());
            let res = unit_one(input);
            let Err(nom::Err::Error(token_error)) = res else {
                panic!("expected TokenError::Expect(UnitOne), got {res:?}");
            };

            assert!(matches!(
                token_error.kind,
                TokenErrorKind::Expect(ExpectKind::UnitOne)
            ));
        }

#[test]
fn unit_one_error_messages_are_specific() {
            let input = InputSpan::new_extra("abc", Config::default());
            let res = unit_one(input);
            assert!(res.is_err(), "should fail with specific error");

            let Err(nom::Err::Error(token_error)) = res else {
                panic!("expected TokenError but got different error type: {res:?}");
            };

            assert!(
                matches!(
                    token_error.kind,
                    TokenErrorKind::Expect(ExpectKind::UnitOne)
                ),
                "error should be for UnitOne"
            );
        }
