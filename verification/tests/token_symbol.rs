#![allow(unused_imports, dead_code, unused_variables, unused_mut)]
use oneil::outcome::{Fault, PResult};
use oneil::text::{Input, Span as SourceSpan};
use oneil::token::error::{
    ExpectKeyword, ExpectKind, ExpectSymbol, IncompleteKind, NomErrorKind, TokenError,
    TokenErrorKind,
};
use oneil::token::error;
use oneil::token::note::NoteKind;
use oneil::token::util::Token;
use oneil::Config;
use std::rc::Rc;

#[derive(Clone)]
struct InputSpan {
    inp: Rc<Input>,
    pos: usize,
    end: usize,
}

impl std::fmt::Debug for InputSpan {
    fn fmt(&self, f: &mut std::fmt::Formatter<'_>) -> std::fmt::Result {
        f.write_str(&format!("InputSpan({:?} at {})", self.fragment(), self.pos))
    }
}

impl InputSpan {
    fn new_extra(src: &str, config: Config) -> Self {
        let inp = Rc::new(Input::new(src, config));
        let end = inp.len();
        InputSpan { inp, pos: 0, end }
    }

    fn at(&self, pos: usize) -> Self {
        InputSpan { inp: self.inp.clone(), pos, end: self.inp.len() }
    }

    fn between(&self, pos: usize, end: usize) -> Self {
        InputSpan { inp: self.inp.clone(), pos, end }
    }

    fn fragment(&self) -> &'static &'static str {
        let s: &'static str = Box::leak(self.inp.substring(self.pos, self.end).into_boxed_str());
        Box::leak(Box::new(s))
    }

    fn location_offset(&self) -> usize {
        self.inp.location(self.pos).offset
    }

    fn location_line(&self) -> u32 {
        self.inp.location(self.pos).line as u32
    }

    fn get_column(&self) -> usize {
        self.inp.location(self.pos).column
    }
}

/// A token together with the text it was read from.
#[derive(Debug, Clone)]
struct Tok {
    lexeme_str: String,
    lexeme_span: SourceSpan,
    whitespace_span: SourceSpan,
    ws: String,
}

impl Tok {
    fn lexeme(&self) -> &str {
        &self.lexeme_str
    }

    fn whitespace(&self) -> &str {
        &self.ws
    }
}

fn char_index(inp: &Input, offset: usize) -> usize {
    let mut i = 0;
    while i < inp.len() && inp.location(i).offset < offset {
        i += 1;
    }
    i
}

fn tok(inp: &Input, t: Token) -> Tok {
    let a = char_index(inp, t.whitespace_span.start.offset);
    let b = char_index(inp, t.whitespace_span.end.offset);
    Tok {
        lexeme_str: t.lexeme_str.clone(),
        lexeme_span: t.lexeme_span,
        whitespace_span: t.whitespace_span,
        ws: inp.substring(a, b),
    }
}

fn done<T>(i: &InputSpan, r: PResult<T, TokenError>) -> Result<(InputSpan, T), nom::Err<TokenError>> {
    match r {
        Ok((q, t)) => Ok((i.at(q), t)),
        Err(Fault::Error(e)) => Err(nom::Err::Error(e)),
        Err(Fault::Failure(e)) => Err(nom::Err::Failure(e)),
    }
}

fn done_tok(i: &InputSpan, r: PResult<Token, TokenError>) -> Result<(InputSpan, Tok), nom::Err<TokenError>> {
    match done(i, r) {
        Ok((rest, t)) => {
            let t = tok(&i.inp, t);
            Ok((rest, t))
        }
        Err(e) => Err(e),
    }
}

fn done_span(i: &InputSpan, r: PResult<SourceSpan, TokenError>) -> Result<(InputSpan, InputSpan), nom::Err<TokenError>> {
    match done(i, r) {
        Ok((rest, sp)) => {
            let a = char_index(&i.inp, sp.start.offset);
            let b = char_index(&i.inp, sp.end.offset);
            let m = i.between(a, b);
            Ok((rest, m))
        }
        Err(e) => Err(e),
    }
}

fn bang_equals(i: InputSpan) -> Result<(InputSpan, Tok), nom::Err<TokenError>> {
    done_tok(&i, oneil::token::symbol::bang_equals(&i.inp, i.pos))
}

fn bar(i: InputSpan) -> Result<(InputSpan, Tok), nom::Err<TokenError>> {
    done_tok(&i, oneil::token::symbol::bar(&i.inp, i.pos))
}

fn brace_left(i: InputSpan) -> Result<(InputSpan, Tok), nom::Err<TokenError>> {
    done_tok(&i, oneil::token::symbol::brace_left(&i.inp, i.pos))
}

fn bracket_left(i: InputSpan) -> Result<(InputSpan, Tok), nom::Err<TokenError>> {
    done_tok(&i, oneil::token::symbol::bracket_left(&i.inp, i.pos))
}

fn bracket_right(i: InputSpan) -> Result<(InputSpan, Tok), nom::Err<TokenError>> {
    done_tok(&i, oneil::token::symbol::bracket_right(&i.inp, i.pos))
}

fn caret(i: InputSpan) -> Result<(InputSpan, Tok), nom::Err<TokenError>> {
    done_tok(&i, oneil::token::symbol::caret(&i.inp, i.pos))
}

fn colon(i: InputSpan) -> Result<(InputSpan, Tok), nom::Err<TokenError>> {
    done_tok(&i, oneil::token::symbol::colon(&i.inp, i.pos))
}

fn comma(i: InputSpan) -> Result<(InputSpan, Tok), nom::Err<TokenError>> {
    done_tok(&i, oneil::token::symbol::comma(&i.inp, i.pos))
}

fn dollar(i: InputSpan) -> Result<(InputSpan, Tok), nom::Err<TokenError>> {
    done_tok(&i, oneil::token::symbol::dollar(&i.inp, i.pos))
}

fn dot(i: InputSpan) -> Result<(InputSpan, Tok), nom::Err<TokenError>> {
    done_tok(&i, oneil::token::symbol::dot(&i.inp, i.pos))
}

fn dot_dot(i: InputSpan) -> Result<(InputSpan, Tok), nom::Err<TokenError>> {
    done_tok(&i, oneil::token::symbol::dot_dot(&i.inp, i.pos))
}

fn equals(i: InputSpan) -> Result<(InputSpan, Tok), nom::Err<TokenError>> {
    done_tok(&i, oneil::token::symbol::equals(&i.inp, i.pos))
}

fn equals_equals(i: InputSpan) -> Result<(InputSpan, Tok), nom::Err<TokenError>> {
    done_tok(&i, oneil::token::symbol::equals_equals(&i.inp, i.pos))
}

fn greater_than(i: InputSpan) -> Result<(InputSpan, Tok), nom::Err<TokenError>> {
    done_tok(&i, oneil::token::symbol::greater_than(&i.inp, i.pos))
}

fn greater_than_equals(i: InputSpan) -> Result<(InputSpan, Tok), nom::Err<TokenError>> {
    done_tok(&i, oneil::token::symbol::greater_than_equals(&i.inp, i.pos))
}

fn less_than(i: InputSpan) -> Result<(InputSpan, Tok), nom::Err<TokenError>> {
    done_tok(&i, oneil::token::symbol::less_than(&i.inp, i.pos))
}

fn less_than_equals(i: InputSpan) -> Result<(InputSpan, Tok), nom::Err<TokenError>> {
    done_tok(&i, oneil::token::symbol::less_than_equals(&i.inp, i.pos))
}

fn minus(i: InputSpan) -> Result<(InputSpan, Tok), nom::Err<TokenError>> {
    done_tok(&i, oneil::token::symbol::minus(&i.inp, i.pos))
}

fn paren_left(i: InputSpan) -> Result<(InputSpan, Tok), nom::Err<TokenError>> {
    done_tok(&i, oneil::token::symbol::paren_left(&i.inp, i.pos))
}

fn paren_right(i: InputSpan) -> Result<(InputSpan, Tok), nom::Err<TokenError>> {
    done_tok(&i, oneil::token::symbol::paren_right(&i.inp, i.pos))
}

fn percent(i: InputSpan) -> Result<(InputSpan, Tok), nom::Err<TokenError>> {
    done_tok(&i, oneil::token::symbol::percent(&i.inp, i.pos))
}

fn plus(i: InputSpan) -> Result<(InputSpan, Tok), nom::Err<TokenError>> {
    done_tok(&i, oneil::token::symbol::plus(&i.inp, i.pos))
}

fn star(i: InputSpan) -> Result<(InputSpan, Tok), nom::Err<TokenError>> {
    done_tok(&i, oneil::token::symbol::star(&i.inp, i.pos))
}

fn star_star(i: InputSpan) -> Result<(InputSpan, Tok), nom::Err<TokenError>> {
    done_tok(&i, oneil::token::symbol::star_star(&i.inp, i.pos))
}

fn slash(i: InputSpan) -> Result<(InputSpan, Tok), nom::Err<TokenError>> {
    done_tok(&i, oneil::token::symbol::slash(&i.inp, i.pos))
}

#[test]
fn bar_symbol() {
            let input = InputSpan::new_extra("| rest", Config::default());
            let (rest, matched) = bar(input).expect("should parse '|' symbol");
            assert_eq!(matched.lexeme_str, "|");
            assert_eq!(rest.fragment(), &"rest");
        }

#[test]
fn brace_left_symbol() {
            let input = InputSpan::new_extra("{ rest", Config::default());
            let (rest, matched) = brace_left(input).expect("should parse '{' symbol");
            assert_eq!(matched.lexeme_str, "{");
            assert_eq!(rest.fragment(), &"rest");
        }

#[test]
fn bracket_left_symbol() {
            let input = InputSpan::new_extra("[ rest", Config::default());
            let (rest, matched) = bracket_left(input).expect("should parse '[' symbol");
            assert_eq!(matched.lexeme_str, "[");
            assert_eq!(rest.fragment(), &"rest");
        }

#[test]
fn bracket_right_symbol() {
            let input = InputSpan::new_extra("] rest", Config::default());
            let (rest, matched) = bracket_right(input).expect("should parse ']' symbol");
            assert_eq!(matched.lexeme_str, "]");
            assert_eq!(rest.fragment(), &"rest");
        }

#[test]
fn caret_symbol() {
            let input = InputSpan::new_extra("^ rest", Config::default());
            let (rest, matched) = caret(input).expect("should parse '^' symbol");
            assert_eq!(matched.lexeme_str, "^");
            assert_eq!(rest.fragment(), &"rest");
        }

#[test]
fn colon_symbol() {
            let input = InputSpan::new_extra(": rest", Config::default());
            let (rest, matched) = colon(input).expect("should parse ':' symbol");
            assert_eq!(matched.lexeme_str, ":");
            assert_eq!(rest.fragment(), &"rest");
        }

#[test]
fn comma_symbol() {
            let input = InputSpan::new_extra(", rest", Config::default());
            let (rest, matched) = comma(input).expect("should parse ',' symbol");
            assert_eq!(matched.lexeme_str, ",");
            assert_eq!(rest.fragment(), &"rest");
        }

#[test]
fn dollar_symbol() {
            let input = InputSpan::new_extra("$ rest", Config::default());
            let (rest, matched) = dollar(input).expect("should parse '$' symbol");
            assert_eq!(matched.lexeme_str, "$");
            assert_eq!(rest.fragment(), &"rest");
        }

#[test]
fn dot_symbol() {
            let input = InputSpan::new_extra(". rest", Config::default());
            let (rest, matched) = dot(input).expect("should parse '.' symbol");
            assert_eq!(matched.lexeme_str, ".");
            assert_eq!(rest.fragment(), &"rest");
        }

#[test]
fn dot_dot_symbol() {
            let input = InputSpan::new_extra(".. rest", Config::default());
            let (rest, matched) = dot_dot(input).expect("should parse '..' symbol");
            assert_eq!(matched.lexeme_str, "..");
            assert_eq!(rest.fragment(), &"rest");
        }

#[test]
fn paren_left_symbol() {
            let input = InputSpan::new_extra("( rest", Config::default());
            let (rest, matched) = paren_left(input).expect("should parse '(' symbol");
            assert_eq!(matched.lexeme_str, "(");
            assert_eq!(rest.fragment(), &"rest");
        }

#[test]
fn paren_right_symbol() {
            let input = InputSpan::new_extra(") rest", Config::default());
            let (rest, matched) = paren_right(input).expect("should parse ')' symbol");
            assert_eq!(matched.lexeme_str, ")");
            assert_eq!(rest.fragment(), &"rest");
        }

#[test]
fn percent_symbol() {
            let input = InputSpan::new_extra("% rest", Config::default());
            let (rest, matched) = percent(input).expect("should parse '%' symbol");
            assert_eq!(matched.lexeme_str, "%");
            assert_eq!(rest.fragment(), &"rest");
        }

#[test]
fn plus_symbol() {
            let input = InputSpan::new_extra("+ rest", Config::default());
            let (rest, matched) = plus(input).expect("should parse '+' symbol");
            assert_eq!(matched.lexeme_str, "+");
            assert_eq!(rest.fragment(), &"rest");
        }

#[test]
fn bang_equals_symbol() {
            let input = InputSpan::new_extra("!= rest", Config::default());
            let (rest, matched) = bang_equals(input).expect("should parse '!=' symbol");
            assert_eq!(matched.lexeme_str, "!=");
            assert_eq!(rest.fragment(), &"rest");
        }

#[test]
fn equals_equals_symbol() {
            let input = InputSpan::new_extra("== rest", Config::default());
            let (rest, matched) = equals_equals(input).expect("should parse '==' symbol");
            assert_eq!(matched.lexeme_str, "==");
            assert_eq!(rest.fragment(), &"rest");
        }

#[test]
fn greater_than_equals_symbol() {
            let input = InputSpan::new_extra(">= rest", Config::default());
            let (rest, matched) = greater_than_equals(input).expect("should parse '>=' symbol");
            assert_eq!(matched.lexeme_str, ">=");
            assert_eq!(rest.fragment(), &"rest");
        }

#[test]
fn less_than_equals_symbol() {
            let input = InputSpan::new_extra("<= rest", Config::default());
            let (rest, matched) = less_than_equals(input).expect("should parse '<=' symbol");
            assert_eq!(matched.lexeme_str, "<=");
            assert_eq!(rest.fragment(), &"rest");
        }

#[test]
fn star_star_symbol() {
            let input = InputSpan::new_extra("** rest", Config::default());
            let (rest, matched) = star_star(input).expect("should parse '**' symbol");
            assert_eq!(matched.lexeme_str, "**");
            assert_eq!(rest.fragment(), &"rest");
        }

#[test]
fn equals_symbol() {
            let input = InputSpan::new_extra("= rest", Config::default());
            let (rest, matched) = equals(input).expect("should parse '=' symbol");
            assert_eq!(matched.lexeme_str, "=");
            assert_eq!(rest.fragment(), &"rest");
        }

#[test]
fn greater_than_symbol() {
            let input = InputSpan::new_extra("> rest", Config::default());
            let (rest, matched) = greater_than(input).expect("should parse '>' symbol");
            assert_eq!(matched.lexeme_str, ">");
            assert_eq!(rest.fragment(), &"rest");
        }

#[test]
fn less_than_symbol() {
            let input = InputSpan::new_extra("< rest", Config::default());
            let (rest, matched) = less_than(input).expect("should parse '<' symbol");
            assert_eq!(matched.lexeme_str, "<");
            assert_eq!(rest.fragment(), &"rest");
        }

#[test]
fn minus_symbol() {
            let input = InputSpan::new_extra("- rest", Config::default());
            let (rest, matched) = minus(input).expect("should parse '-' symbol");
            assert_eq!(matched.lexeme_str, "-");
            assert_eq!(rest.fragment(), &"rest");
        }

#[test]
fn star_symbol() {
            let input = InputSpan::new_extra("* rest", Config::default());
            let (rest, matched) = star(input).expect("should parse '*' symbol");
            assert_eq!(matched.lexeme_str, "*");
            assert_eq!(rest.fragment(), &"rest");
        }

#[test]
fn slash_symbol() {
            let input = InputSpan::new_extra("/ rest", Config::default());
            let (rest, matched) = slash(input).expect("should parse '/' symbol");
            assert_eq!(matched.lexeme_str, "/");
            assert_eq!(rest.fragment(), &"rest");
        }

#[test]
fn symbol_at_end_of_file() {
            let input = InputSpan::new_extra("+", Config::default());
            let (rest, matched) = plus(input).expect("should parse '+' at end of file");
            assert_eq!(matched.lexeme_str, "+");
            assert_eq!(rest.fragment(), &"");
        }

#[test]
fn multi_char_symbol_at_end_of_file() {
            let input = InputSpan::new_extra("!=", Config::default());
            let (rest, matched) = bang_equals(input).expect("should parse '!=' at end of file");
            assert_eq!(matched.lexeme_str, "!=");
            assert_eq!(rest.fragment(), &"");
        }

#[test]
fn symbol_with_trailing_whitespace() {
            let input = InputSpan::new_extra("+   rest", Config::default());
            let (rest, matched) = plus(input).expect("should parse '+' with trailing whitespace");
            assert_eq!(matched.lexeme_str, "+");
            assert_eq!(rest.fragment(), &"rest");
        }

#[test]
fn multi_char_symbol_with_trailing_whitespace() {
            let input = InputSpan::new_extra("!=   rest", Config::default());
            let (rest, matched) =
                bang_equals(input).expect("should parse '!=' with trailing whitespace");
            assert_eq!(matched.lexeme_str, "!=");
            assert_eq!(rest.fragment(), &"rest");
        }

#[test]
fn symbol_with_tab() {
            let input = InputSpan::new_extra("+\trest", Config::default());
            let (rest, matched) = plus(input).expect("should parse '+' with tab");
            assert_eq!(matched.lexeme_str, "+");
            assert_eq!(rest.fragment(), &"rest");
        }

#[test]
fn multi_char_symbol_with_tab() {
            let input = InputSpan::new_extra("!=\trest", Config::default());
            let (rest, matched) = bang_equals(input).expect("should parse '!=' with tab");
            assert_eq!(matched.lexeme_str, "!=");
            assert_eq!(rest.fragment(), &"rest");
        }

#[test]
fn symbol_with_newline() {
            let input = InputSpan::new_extra("+\nrest", Config::default());
            let (rest, matched) = plus(input).expect("should parse '+' with newline");
            assert_eq!(matched.lexeme_str, "+");
            assert_eq!(rest.fragment(), &"\nrest");
        }

#[test]
fn multi_char_symbol_with_newline() {
            let input = InputSpan::new_extra("!=\nrest", Config::default());
            let (rest, matched) = bang_equals(input).expect("should parse '!=' with newline");
            assert_eq!(matched.lexeme_str, "!=");
            assert_eq!(rest.fragment(), &"\nrest");
        }

#[test]
fn symbol_with_carriage_return() {
            let input = InputSpan::new_extra("+\rrest", Config::default());
            let (rest, matched) = plus(input).expect("should parse '+' with carriage return");
            assert_eq!(matched.lexeme_str, "+");
            assert_eq!(rest.fragment(), &"\rrest");
        }

#[test]
fn symbol_empty_input() {
            let input = InputSpan::new_extra("", Config::default());
            let res = plus(input);
            let Err(nom::Err::Error(token_error)) = res else {
                panic!("expected TokenError::Expect(_), got {res:?}");
            };

            assert!(matches!(
                token_error.kind,
                TokenErrorKind::Expect(ExpectKind::Symbol(ExpectSymbol::Plus))
            ));
        }

#[test]
fn symbol_not_at_start() {
            let input = InputSpan::new_extra("foo + bar", Config::default());
            let res = plus(input);
            let Err(nom::Err::Error(token_error)) = res else {
                panic!("expected TokenError::Expect(_), got {res:?}");
            };

            assert!(matches!(
                token_error.kind,
                TokenErrorKind::Expect(ExpectKind::Symbol(ExpectSymbol::Plus))
            ));
        }

#[test]
fn symbol_whitespace_only() {
            let input = InputSpan::new_extra("   ", Config::default());
            let res = plus(input);
            let Err(nom::Err::Error(token_error)) = res else {
                panic!("expected TokenError::Expect(_), got {res:?}");
            };

            assert!(matches!(
                token_error.kind,
                TokenErrorKind::Expect(ExpectKind::Symbol(ExpectSymbol::Plus))
            ));
        }

#[test]
fn wrong_symbol() {
            let input = InputSpan::new_extra("x", Config::default());
            let res = plus(input);
            let Err(nom::Err::Error(token_error)) = res else {
                panic!("expected TokenError::Expect(_), got {res:?}");
            };

            assert!(matches!(
                token_error.kind,
                TokenErrorKind::Expect(ExpectKind::Symbol(ExpectSymbol::Plus))
            ));
        }

#[test]
fn dot_not_dot_dot() {
            let input = InputSpan::new_extra(".. rest", Config::default());
            let res = dot(input);
            let Err(nom::Err::Error(token_error)) = res else {
                panic!("expected TokenError::Expect(_), got {res:?}");
            };

            assert!(matches!(
                token_error.kind,
                TokenErrorKind::Expect(ExpectKind::Symbol(ExpectSymbol::Dot))
            ));
        }

#[test]
fn equals_not_equals_equals() {
            let input = InputSpan::new_extra("== rest", Config::default());
            let res = equals(input);
            let Err(nom::Err::Error(token_error)) = res else {
                panic!("expected TokenError::Expect(_), got {res:?}");
            };

            assert!(matches!(
                token_error.kind,
                TokenErrorKind::Expect(ExpectKind::Symbol(ExpectSymbol::Equals))
            ));
        }

#[test]
fn greater_than_not_greater_than_equals() {
            let input = InputSpan::new_extra(">= rest", Config::default());
            let res = greater_than(input);
            let Err(nom::Err::Error(token_error)) = res else {
                panic!("expected TokenError::Expect(_), got {res:?}");
            };

            assert!(matches!(
                token_error.kind,
                TokenErrorKind::Expect(ExpectKind::Symbol(ExpectSymbol::GreaterThan))
            ));
        }

#[test]
fn less_than_not_less_than_equals() {
            let input = InputSpan::new_extra("<= rest", Config::default());
            let res = less_than(input);
            let Err(nom::Err::Error(token_error)) = res else {
                panic!("expected TokenError::Expect(_), got {res:?}");
            };

            assert!(matches!(
                token_error.kind,
                TokenErrorKind::Expect(ExpectKind::Symbol(ExpectSymbol::LessThan))
            ));
        }

#[test]
fn star_not_star_star() {
            let input = InputSpan::new_extra("** rest", Config::default());
            let res = star(input);
            let Err(nom::Err::Error(token_error)) = res else {
                panic!("expected TokenError::Expect(_), got {res:?}");
            };

            assert!(matches!(
                token_error.kind,
                TokenErrorKind::Expect(ExpectKind::Symbol(ExpectSymbol::Star))
            ));
        }

#[test]
fn multi_char_symbol_partial() {
            let input = InputSpan::new_extra("!", Config::default());
            let res = bang_equals(input);
            let Err(nom::Err::Error(token_error)) = res else {
                panic!("expected TokenError::Expect(_), got {res:?}");
            };

            assert!(matches!(
                token_error.kind,
                TokenErrorKind::Expect(ExpectKind::Symbol(ExpectSymbol::BangEquals))
            ));
        }

#[test]
fn multi_char_symbol_wrong_second_char() {
            let input = InputSpan::new_extra("!x rest", Config::default());
            let res = bang_equals(input);
            let Err(nom::Err::Error(token_error)) = res else {
                panic!("expected TokenError::Expect(_), got {res:?}");
            };

            assert!(matches!(
                token_error.kind,
                TokenErrorKind::Expect(ExpectKind::Symbol(ExpectSymbol::BangEquals))
            ));
        }
