#![allow(unused_imports, dead_code, unused_variables, unused_mut)]
use oneil::outcome::{Fault, PResult};
use oneil::text::{Input, Span as SourceSpan};
use oneil::token::error::{
    ExpectKeyword, ExpectKind, ExpectSymbol, IncompleteKind, NomErrorKind, TokenError,
    TokenErrorKind,
};
use oneil::token::error;
use oneil::token::note::NoteKind;
use oneil::token::util::Token;
use oneil::Config;
use std::rc::Rc;

#[derive(Clone)]
struct InputSpan {
    inp: Rc<Input>,
    pos: usize,
    end: usize,
}

impl std::fmt::Debug for InputSpan {
    fn fmt(&self, f: &mut std::fmt::Formatter<'_>) -> std::fmt::Result {
        f.write_str(&format!("InputSpan({:?} at {})", self.fragment(), self.pos))
    }
}

impl InputSpan {
    fn new_extra(src: &str, config: Config) -> Self {
        let inp = Rc::new(Input::new(src, config));
        let end = inp.len();
        InputSpan { inp, pos: 0, end }
    }

    fn at(&self, pos: usize) -> Self {
        InputSpan { inp: self.inp.clone(), pos, end: self.inp.len() }
    }

    fn between(&self, pos: usize, end: usize) -> Self {
        InputSpan { inp: self.inp.clone(), pos, end }
    }

    fn fragment(&self) -> &'static &'static str {
        let s: &'static str = Box::leak(self.inp.substring(self.pos, self.end).into_boxed_str());
        Box::leak(Box::new(s))
    }

    fn location_offset(&self) -> usize {
        self.inp.location(self.pos).offset
    }

    fn location_line(&self) -> u32 {
        self.inp.location(self.pos).line as u32
    }

    fn get_column(&self) -> usize {
        self.inp.location(self.pos).column
    }
}

/// A token together with the text it was read from.
#[derive(Debug, Clone)]
struct Tok {
    lexeme_str: String,
    lexeme_span: SourceSpan,
    whitespace_span: SourceSpan,
    ws: String,
}

impl Tok {
    fn lexeme(&self) -> &str {
        &self.lexeme_str
    }

    fn whitespace(&self) -> &str {
        &self.ws
    }
}

fn char_index(inp: &Input, offset: usize) -> usize {
    let mut i = 0;
    while i < inp.len() && inp.location(i).offset < offset {
        i += 1;
    }
    i
}

fn tok(inp: &Input, t: Token) -> Tok {
    let a = char_index(inp, t.whitespace_span.start.offset);
    let b = char_index(inp, t.whitespace_span.end.offset);
    Tok {
        lexeme_str: t.lexeme_str.clone(),
        lexeme_span: t.lexeme_span,
        whitespace_span: t.whitespace_span,
        ws: inp.substring(a, b),
    }
}

fn done<T>(i: &InputSpan, r: PResult<T, TokenError>) -> Result<(InputSpan, T), nom::Err<TokenError>> {
    match r {
        Ok((q, t)) => Ok((i.at(q), t)),
        Err(Fault::Error(e)) => Err(nom::Err::Error(e)),
        Err(Fault::Failure(e)) => Err(nom::Err::Failure(e)),
    }
}

fn done_tok(i: &InputSpan, r: PResult<Token, TokenError>) -> Result<(InputSpan, Tok), nom::Err<TokenError>> {
    match done(i, r) {
        Ok((rest, t)) => {
            let t = tok(&i.inp, t);
            Ok((rest, t))
        }
        Err(e) => Err(e),
    }
}

fn done_span(i: &InputSpan, r: PResult<SourceSpan, TokenError>) -> Result<(InputSpan, InputSpan), nom::Err<TokenError>> {
    match done(i, r) {
        Ok((rest, sp)) => {
            let a = char_index(&i.inp, sp.start.offset);
            let b = char_index(&i.inp, sp.end.offset);
            let m = i.between(a, b);
            Ok((rest, m))
        }
        Err(e) => Err(e),
    }
}

fn end_of_line(i: InputSpan) -> Result<(InputSpan, Tok), nom::Err<TokenError>> {
    done_tok(&i, oneil::token::structure::end_of_line(&i.inp, i.pos))
}

fn linebreak(i: InputSpan) -> Result<(InputSpan, InputSpan), nom::Err<TokenError>> {
    done_span(&i, oneil::token::structure::linebreak(&i.inp, i.pos))
}

fn comment_parser(i: InputSpan) -> Result<(InputSpan, InputSpan), nom::Err<TokenError>> {
    done_span(&i, oneil::token::structure::comment(&i.inp, i.pos))
}

fn end_of_file(i: InputSpan) -> Result<(InputSpan, InputSpan), nom::Err<TokenError>> {
    done_span(&i, oneil::token::structure::end_of_file(&i.inp, i.pos))
}

#[test]
fn unix_newline() {
            let input = InputSpan::new_extra("\nrest", Config::default());
            let (rest, matched) = linebreak(input).expect("should parse unix newline");
            assert_eq!(matched.fragment(), &"\n");
            assert_eq!(rest.fragment(), &"rest");
        }

#[test]
fn windows_newline() {
            let input = InputSpan::new_extra("\r\nrest", Config::default());
            let (rest, matched) = linebreak(input).expect("should parse windows newline");
            assert_eq!(matched.fragment(), &"\r\n");
            assert_eq!(rest.fragment(), &"rest");
        }

#[test]
fn no_newline() {
            let input = InputSpan::new_extra("no newline", Config::default());
            let res = linebreak(input);
            let Err(nom::Err::Error(token_error)) = res else {
                panic!("expected TokenError::NomError(_), got {res:?}");
            };

            assert!(matches!(token_error.kind, TokenErrorKind::NomError(_)));
        }

#[test]
fn structure_empty_input() {
            let input = InputSpan::new_extra("", Config::default());
            let res = linebreak(input);
            let Err(nom::Err::Error(token_error)) = res else {
                panic!("expected TokenError::NomError(_), got {res:?}");
            };

            assert!(matches!(token_error.kind, TokenErrorKind::NomError(_)));
        }

#[test]
fn whitespace_before_newline() {
            let input = InputSpan::new_extra("   \nrest", Config::default());
            let res = linebreak(input);
            let Err(nom::Err::Error(token_error)) = res else {
                panic!("expected TokenError::NomError(_), got {res:?}");
            };

            assert!(matches!(token_error.kind, TokenErrorKind::NomError(_)));
        }

#[test]
fn basic_comment() {
            let input = InputSpan::new_extra("# this is a comment\nrest", Config::default());
            let (rest, matched) = comment_parser(input).expect("should parse basic comment");
            assert_eq!(matched.fragment(), &"# this is a comment\n");
            assert_eq!(rest.fragment(), &"rest");
        }

#[test]
fn comment_at_eof() {
            let input = InputSpan::new_extra("# only comment", Config::default());
            let (rest, matched) = comment_parser(input).expect("should parse comment at EOF");
            assert_eq!(matched.fragment(), &"# only comment");
            assert_eq!(rest.fragment(), &"");
        }

#[test]
fn empty_comment() {
            let input = InputSpan::new_extra("#\nrest", Config::default());
            let (rest, matched) = comment_parser(input).expect("should parse empty comment");
            assert_eq!(matched.fragment(), &"#\n");
            assert_eq!(rest.fragment(), &"rest");
        }

#[test]
fn comment_with_special_characters() {
            let input =
                InputSpan::new_extra("# comment with @#$% symbols\nrest", Config::default());
            let (rest, matched) =
                comment_parser(input).expect("should parse comment with special characters");
            assert_eq!(matched.fragment(), &"# comment with @#$% symbols\n");
            assert_eq!(rest.fragment(), &"rest");
        }

#[test]
fn comment_with_numbers() {
            let input = InputSpan::new_extra("# comment with 123 numbers\nrest", Config::default());
            let (rest, matched) = comment_parser(input).expect("should parse comment with numbers");
            assert_eq!(matched.fragment(), &"# comment with 123 numbers\n");
            assert_eq!(rest.fragment(), &"rest");
        }

#[test]
fn comment_with_unicode() {
            let input =
                InputSpan::new_extra("# comment with 世界 characters\nrest", Config::default());
            let (rest, matched) = comment_parser(input).expect("should parse comment with unicode");
            assert_eq!(matched.fragment(), &"# comment with 世界 characters\n");
            assert_eq!(rest.fragment(), &"rest");
        }

#[test]
fn comment_with_emoji() {
            let input = InputSpan::new_extra("# comment with 😀 emoji\nrest", Config::default());
            let (rest, matched) = comment_parser(input).expect("should parse comment with emoji");
            assert_eq!(matched.fragment(), &"# comment with 😀 emoji\n");
            assert_eq!(rest.fragment(), &"rest");
        }

#[test]
fn comment_with_tabs() {
            let input = InputSpan::new_extra("# comment\twith\ttabs\nrest", Config::default());
            let (rest, matched) = comment_parser(input).expect("should parse comment with tabs");
            assert_eq!(matched.fragment(), &"# comment\twith\ttabs\n");
            assert_eq!(rest.fragment(), &"rest");
        }

#[test]
fn comment_with_carriage_return() {
            let input = InputSpan::new_extra("# comment\r\nrest", Config::default());
            let (rest, matched) =
                comment_parser(input).expect("should parse comment with carriage return");
            assert_eq!(matched.fragment(), &"# comment\r\n");
            assert_eq!(rest.fragment(), &"rest");
        }

#[test]
fn no_hash() {
            let input = InputSpan::new_extra("not a comment\n", Config::default());
            let res = comment_parser(input);
            let Err(nom::Err::Error(token_error)) = res else {
                panic!("expected TokenError::NomError(_), got {res:?}");
            };

            assert!(matches!(token_error.kind, TokenErrorKind::NomError(_)));
        }

#[test]
fn hash_without_content() {
            let input = InputSpan::new_extra("#", Config::default());
            let (rest, matched) = comment_parser(input).expect("should parse hash without content");
            assert_eq!(matched.fragment(), &"#");
            assert_eq!(rest.fragment(), &"");
        }

#[test]
fn comment_empty_input() {
            let input = InputSpan::new_extra("", Config::default());
            let res = comment_parser(input);
            let Err(nom::Err::Error(token_error)) = res else {
                panic!("expected TokenError::NomError(_), got {res:?}");
            };

            assert!(matches!(token_error.kind, TokenErrorKind::NomError(_)));
        }

#[test]
fn whitespace_before_hash() {
            let input = InputSpan::new_extra("   # comment\nrest", Config::default());
            let res = comment_parser(input);
            let Err(nom::Err::Error(token_error)) = res else {
                panic!("expected TokenError::NomError(_), got {res:?}");
            };

            assert!(matches!(token_error.kind, TokenErrorKind::NomError(_)));
        }

#[test]
fn end_of_file_empty_input() {
            let input = InputSpan::new_extra("", Config::default());
            let (rest, matched) = end_of_file(input).expect("should parse end of file");
            assert_eq!(matched.fragment(), &"");
            assert_eq!(rest.fragment(), &"");
        }

#[test]
fn not_empty() {
            let input = InputSpan::new_extra("not empty", Config::default());
            let res = end_of_file(input);
            let Err(nom::Err::Error(token_error)) = res else {
                panic!("expected TokenError::NomError(_), got {res:?}");
            };

            assert!(matches!(token_error.kind, TokenErrorKind::NomError(_)));
        }

#[test]
fn structure_whitespace_only() {
            let input = InputSpan::new_extra("   ", Config::default());
            let res = end_of_file(input);
            let Err(nom::Err::Error(token_error)) = res else {
                panic!("expected TokenError::NomError(_), got {res:?}");
            };

            assert!(matches!(token_error.kind, TokenErrorKind::NomError(_)));
        }

#[test]
fn newline() {
            let input = InputSpan::new_extra("\n", Config::default());
            let res = end_of_file(input);
            let Err(nom::Err::Error(token_error)) = res else {
                panic!("expected TokenError::NomError(_), got {res:?}");
            };

            assert!(matches!(token_error.kind, TokenErrorKind::NomError(_)));
        }

#[test]
fn comment() {
            let input = InputSpan::new_extra("# comment", Config::default());
            let res = end_of_file(input);
            let Err(nom::Err::Error(token_error)) = res else {
                panic!("expected TokenError::NomError(_), got {res:?}");
            };

            assert!(matches!(token_error.kind, TokenErrorKind::NomError(_)));
        }

#[test]
fn single_linebreak() {
            let input = InputSpan::new_extra("\nrest", Config::default());
            let (rest, matched) = end_of_line(input).expect("should parse single linebreak");
            assert_eq!(rest.fragment(), &"rest");
            assert_eq!(matched.lexeme_str, "");
        }

#[test]
fn single_comment() {
            let input = InputSpan::new_extra("# comment\nrest", Config::default());
            let (rest, matched) = end_of_line(input).expect("should parse single comment");
            assert_eq!(rest.fragment(), &"rest");
            assert_eq!(matched.lexeme_str, "");
        }

#[test]
fn eof() {
            let input = InputSpan::new_extra("", Config::default());
            let (rest, matched) = end_of_line(input).expect("should parse EOF");
            assert_eq!(rest.fragment(), &"");
            assert_eq!(matched.lexeme_str, "");
        }

#[test]
fn multiple_linebreaks() {
            let input = InputSpan::new_extra("\n\n\nrest", Config::default());
            let (rest, matched) = end_of_line(input).expect("should parse multiple linebreaks");
            assert_eq!(rest.fragment(), &"rest");
            assert_eq!(matched.lexeme_str, "");
        }

#[test]
fn multiple_comments() {
            let input = InputSpan::new_extra("# foo\n# bar\nrest", Config::default());
            let (rest, matched) = end_of_line(input).expect("should parse multiple comments");
            assert_eq!(rest.fragment(), &"rest");
            assert_eq!(matched.lexeme_str, "");
        }

#[test]
fn mixed_linebreaks_and_comments() {
            let input = InputSpan::new_extra("\n# foo\n\n# bar\nrest", Config::default());
            let (rest, matched) =
                end_of_line(input).expect("should parse mixed linebreaks and comments");
            assert_eq!(rest.fragment(), &"rest");
            assert_eq!(matched.lexeme_str, "");
        }

#[test]
fn with_whitespace_between() {
            let input =
                InputSpan::new_extra("\n   # foo   \n   \n   # bar   \nrest", Config::default());
            let (rest, matched) = end_of_line(input).expect("should parse with whitespace between");
            assert_eq!(rest.fragment(), &"rest");
            assert_eq!(matched.lexeme_str, "");
        }

#[test]
fn with_tabs_between() {
            let input = InputSpan::new_extra("\n\t# foo\t\n\t\n\t# bar\t\nrest", Config::default());
            let (rest, matched) = end_of_line(input).expect("should parse with tabs between");
            assert_eq!(rest.fragment(), &"rest");
            assert_eq!(matched.lexeme_str, "");
        }

#[test]
fn ending_with_eof() {
            let input = InputSpan::new_extra("\n# comment\n\n", Config::default());
            let (rest, matched) = end_of_line(input).expect("should parse ending with EOF");
            assert_eq!(rest.fragment(), &"");
            assert_eq!(matched.lexeme_str, "");
        }

#[test]
fn windows_line_endings() {
            let input = InputSpan::new_extra("\r\n# comment\r\nrest", Config::default());
            let (rest, matched) = end_of_line(input).expect("should parse windows line endings");
            assert_eq!(rest.fragment(), &"rest");
            assert_eq!(matched.lexeme_str, "");
        }

#[test]
fn mixed_line_endings() {
            let input = InputSpan::new_extra(
                "\n# unix comment\r\n# windows comment\nrest",
                Config::default(),
            );
            let (rest, matched) = end_of_line(input).expect("should parse mixed line endings");
            assert_eq!(rest.fragment(), &"rest");
            assert_eq!(matched.lexeme_str, "");
        }

#[test]
fn comments_with_special_characters() {
            let input = InputSpan::new_extra(
                "# comment with @#$% symbols\n# another comment with 123\nrest",
                Config::default(),
            );
            let (rest, matched) =
                end_of_line(input).expect("should parse comments with special characters");
            assert_eq!(rest.fragment(), &"rest");
            assert_eq!(matched.lexeme_str, "");
        }

#[test]
fn comments_with_unicode() {
            let input = InputSpan::new_extra(
                "# comment with 世界 characters\n# another comment with 😀 emoji\nrest",
                Config::default(),
            );
            let (rest, matched) = end_of_line(input).expect("should parse comments with unicode");
            assert_eq!(rest.fragment(), &"rest");
            assert_eq!(matched.lexeme_str, "");
        }

#[test]
fn no_end_of_line() {
            let input = InputSpan::new_extra("no end of line", Config::default());
            let res = end_of_line(input);
            let Err(nom::Err::Error(token_error)) = res else {
                panic!("expected TokenError::Expect(EndOfLine), got {res:?}");
            };

            assert!(matches!(
                token_error.kind,
                TokenErrorKind::Expect(ExpectKind::EndOfLine)
            ));
        }

#[test]
fn end_of_line_whitespace_only() {
            let input = InputSpan::new_extra("   ", Config::default());
            let res = end_of_line(input);
            let Err(nom::Err::Error(token_error)) = res else {
                panic!("expected TokenError::Expect(EndOfLine), got {res:?}");
            };

            assert!(matches!(
                token_error.kind,
                TokenErrorKind::Expect(ExpectKind::EndOfLine)
            ));
        }

#[test]
fn whitespace_before_linebreak() {
            let input = InputSpan::new_extra("   \nrest", Config::default());
            let res = end_of_line(input);
            let Err(nom::Err::Error(token_error)) = res else {
                panic!("expected TokenError::Expect(EndOfLine), got {res:?}");
            };

            assert!(matches!(
                token_error.kind,
                TokenErrorKind::Expect(ExpectKind::EndOfLine)
            ));
        }

#[test]
fn whitespace_before_comment() {
            let input = InputSpan::new_extra("   # comment\nrest", Config::default());
            let res = end_of_line(input);
            let Err(nom::Err::Error(token_error)) = res else {
                panic!("expected TokenError::Expect(EndOfLine), got {res:?}");
            };

            assert!(matches!(
                token_error.kind,
                TokenErrorKind::Expect(ExpectKind::EndOfLine)
            ));
        }
