//! Parsers for the keywords of the Oneil language.
//!
//! A keyword must not be followed by a character that could continue an
//! identifier, so that `and` is not read at the start of `android`.
use vstd::prelude::*;

use crate::chars::{ident_char, is_ident_char};
use crate::outcome::{Fault, PResult};
use crate::text::Input;
use crate::token::error::{error_at, ExpectKeyword, ExpectKind, TokenError, TokenErrorKind};
use crate::token::symbol::starts_with_at;
use crate::token::util::{make_token, token_outcome, Token};

verus! {

/// The text of a keyword.
pub open spec fn keyword_text(k: ExpectKeyword) -> Seq<char> {
    match k {
        ExpectKeyword::And => seq!['a', 'n', 'd'],
        ExpectKeyword::Apply => seq!['a', 'p', 'p', 'l', 'y'],
        ExpectKeyword::As => seq!['a', 's'],
        ExpectKeyword::Design => seq!['d', 'e', 's', 'i', 'g', 'n'],
        ExpectKeyword::False => seq!['f', 'a', 'l', 's', 'e'],
        ExpectKeyword::From => seq!['f', 'r', 'o', 'm'],
        ExpectKeyword::If => seq!['i', 'f'],
        ExpectKeyword::Import => seq!['i', 'm', 'p', 'o', 'r', 't'],
        ExpectKeyword::Not => seq!['n', 'o', 't'],
        ExpectKeyword::Or => seq!['o', 'r'],
        ExpectKeyword::Ref => seq!['r', 'e', 'f'],
        ExpectKeyword::Reference => seq!['r', 'e', 'f', 'e', 'r', 'e', 'n', 'c', 'e'],
        ExpectKeyword::Section => seq!['s', 'e', 'c', 't', 'i', 'o', 'n'],
        ExpectKeyword::Submodel => seq!['s', 'u', 'b', 'm', 'o', 'd', 'e', 'l'],
        ExpectKeyword::Test => seq!['t', 'e', 's', 't'],
        ExpectKeyword::To => seq!['t', 'o'],
        ExpectKeyword::True => seq!['t', 'r', 'u', 'e'],
        ExpectKeyword::Use => seq!['u', 's', 'e'],
        ExpectKeyword::With => seq!['w', 'i', 't', 'h'],
    }
}

/// The text of a keyword, as characters.
pub fn keyword_chars(k: ExpectKeyword) -> (r: Vec<char>)
    ensures
        r@ == keyword_text(k),
        r@.len() >= 2,
{
    let v = match k {
        ExpectKeyword::And => vec!['a', 'n', 'd'],
        ExpectKeyword::Apply => vec!['a', 'p', 'p', 'l', 'y'],
        ExpectKeyword::As => vec!['a', 's'],
        ExpectKeyword::Design => vec!['d', 'e', 's', 'i', 'g', 'n'],
        ExpectKeyword::False => vec!['f', 'a', 'l', 's', 'e'],
        ExpectKeyword::From => vec!['f', 'r', 'o', 'm'],
        ExpectKeyword::If => vec!['i', 'f'],
        ExpectKeyword::Import => vec!['i', 'm', 'p', 'o', 'r', 't'],
        ExpectKeyword::Not => vec!['n', 'o', 't'],
        ExpectKeyword::Or => vec!['o', 'r'],
        ExpectKeyword::Ref => vec!['r', 'e', 'f'],
        ExpectKeyword::Reference => vec!['r', 'e', 'f', 'e', 'r', 'e', 'n', 'c', 'e'],
        ExpectKeyword::Section => vec!['s', 'e', 'c', 't', 'i', 'o', 'n'],
        ExpectKeyword::Submodel => vec!['s', 'u', 'b', 'm', 'o', 'd', 'e', 'l'],
        ExpectKeyword::Test => vec!['t', 'e', 's', 't'],
        ExpectKeyword::To => vec!['t', 'o'],
        ExpectKeyword::True => vec!['t', 'r', 'u', 'e'],
        ExpectKeyword::Use => vec!['u', 's', 'e'],
        ExpectKeyword::With => vec!['w', 'i', 't', 'h'],
    };
    assert(v@ =~= keyword_text(k));
    v
}

/// The reserved words: no identifier or label may be one of them.
pub open spec fn is_reserved(t: Seq<char>) -> bool {
    ||| t == keyword_text(ExpectKeyword::And)
    ||| t == keyword_text(ExpectKeyword::As)
    ||| t == keyword_text(ExpectKeyword::False)
    ||| t == keyword_text(ExpectKeyword::From)
    ||| t == keyword_text(ExpectKeyword::If)
    ||| t == keyword_text(ExpectKeyword::Import)
    ||| t == keyword_text(ExpectKeyword::Not)
    ||| t == keyword_text(ExpectKeyword::Or)
    ||| t == keyword_text(ExpectKeyword::Ref)
    ||| t == keyword_text(ExpectKeyword::Section)
    ||| t == keyword_text(ExpectKeyword::Test)
    ||| t == keyword_text(ExpectKeyword::True)
    ||| t == keyword_text(ExpectKeyword::Use)
    ||| t == keyword_text(ExpectKeyword::With)
}

/// The reserved words of the Oneil language, in order.
pub fn keywords() -> (r: Vec<&'static str>)
    ensures
        r.len() == 14,
{
    vec![
        "and",
        "as",
        "false",
        "from",
        "if",
        "import",
        "not",
        "or",
        "ref",
        "section",
        "test",
        "true",
        "use",
        "with",
    ]
}

/// Whether the characters from `a` to `b` spell `t`.
pub fn text_equals(inp: &Input, a: usize, b: usize, t: &Vec<char>) -> (r: bool)
    requires
        a <= b <= inp.text().len(),
    ensures
        r == (inp.text().subrange(a as int, b as int) == t@),
{
    if b - a != t.len() {
        assert(inp.text().subrange(a as int, b as int).len() != t@.len());
        return false;
    }
    let mut i: usize = 0;
    while i < t.len()
        invariant
            a <= b <= inp.text().len(),
            b - a == t@.len(),
            0 <= i <= t@.len(),
            forall|j: int| 0 <= j < i ==> inp.text()[a + j] == t@[j],
        decreases t@.len() - i,
    {
        if inp.char_at(a + i) != t[i] {
            assert(inp.text().subrange(a as int, b as int)[i as int] != t@[i as int]);
            return false;
        }
        i = i + 1;
    }
    assert(inp.text().subrange(a as int, b as int) =~= t@);
    true
}

/// Whether the characters from `a` to `b` spell a reserved word.
pub fn is_reserved_word(inp: &Input, a: usize, b: usize) -> (r: bool)
    requires
        a <= b <= inp.text().len(),
    ensures
        r == is_reserved(inp.text().subrange(a as int, b as int)),
{
    let ks = [
        ExpectKeyword::And,
        ExpectKeyword::As,
        ExpectKeyword::False,
        ExpectKeyword::From,
        ExpectKeyword::If,
        ExpectKeyword::Import,
        ExpectKeyword::Not,
        ExpectKeyword::Or,
        ExpectKeyword::Ref,
        ExpectKeyword::Section,
        ExpectKeyword::Test,
        ExpectKeyword::True,
        ExpectKeyword::Use,
        ExpectKeyword::With,
    ];
    let ghost t = inp.text().subrange(a as int, b as int);
    let mut i: usize = 0;
    while i < 14
        invariant
            a <= b <= inp.text().len(),
            t == inp.text().subrange(a as int, b as int),
            0 <= i <= 14,
            ks@ == seq![
                ExpectKeyword::And,
                ExpectKeyword::As,
                ExpectKeyword::False,
                ExpectKeyword::From,
                ExpectKeyword::If,
                ExpectKeyword::Import,
                ExpectKeyword::Not,
                ExpectKeyword::Or,
                ExpectKeyword::Ref,
                ExpectKeyword::Section,
                ExpectKeyword::Test,
                ExpectKeyword::True,
                ExpectKeyword::Use,
                ExpectKeyword::With,
            ],
            forall|j: int| 0 <= j < i ==> t != keyword_text(#[trigger] ks@[j]),
        decreases 14 - i,
    {
        let kw = keyword_chars(ks[i]);
        if text_equals(inp, a, b, &kw) {
            return true;
        }
        i = i + 1;
    }
    assert(t != keyword_text(ks@[0]));
    assert(t != keyword_text(ks@[1]));
    assert(t != keyword_text(ks@[2]));
    assert(t != keyword_text(ks@[3]));
    assert(t != keyword_text(ks@[4]));
    assert(t != keyword_text(ks@[5]));
    assert(t != keyword_text(ks@[6]));
    assert(t != keyword_text(ks@[7]));
    assert(t != keyword_text(ks@[8]));
    assert(t != keyword_text(ks@[9]));
    assert(t != keyword_text(ks@[10]));
    assert(t != keyword_text(ks@[11]));
    assert(t != keyword_text(ks@[12]));
    assert(t != keyword_text(ks@[13]));
    false
}

/// The end of the keyword `k` at position `p`, or the error that its parser
/// stops with.
pub open spec fn lex_keyword(s: Seq<char>, p: int, k: ExpectKeyword) -> Result<int, Fault<TokenError>> {
    let t = keyword_text(k);
    let e = p + t.len();
    let kind = TokenErrorKind::Expect(ExpectKind::Keyword(k));
    if !starts_with_at(s, p, t) {
        Err(Fault::Error(error_at(s, p, kind)))
    } else if e < s.len() && is_ident_char(s[e]) {
        Err(Fault::Error(error_at(s, e, kind)))
    } else {
        Ok(e)
    }
}

/// A keyword is read only as a whole word: its parser succeeds exactly
/// where the text holds the keyword and no identifier character follows it,
/// so `iffoo` never starts with the keyword `if`.
pub proof fn lemma_keyword_whole_word(s: Seq<char>, p: int, k: ExpectKeyword)
    requires
        0 <= p <= s.len(),
    ensures
        lex_keyword(s, p, k) is Ok <==> {
            &&& p + keyword_text(k).len() <= s.len()
            &&& s.subrange(p, p + keyword_text(k).len()) == keyword_text(k)
            &&& (p + keyword_text(k).len() == s.len() || !is_ident_char(s[p + keyword_text(k).len()]))
        },
        lex_keyword(s, p, k) matches Ok(e) ==> e == p + keyword_text(k).len(),
{
}

/// Parses the keyword `k` at `pos`, with the inline whitespace after it.
pub fn keyword(inp: &Input, pos: usize, k: ExpectKeyword) -> (r: PResult<Token, TokenError>)
    requires
        inp.wf(),
        pos <= inp.text().len(),
    ensures
        token_outcome(inp.text(), pos as int, lex_keyword(inp.text(), pos as int, k), r),
        r matches Ok((q, _)) ==> pos < q <= inp.text().len(),
{
    let ghost s = inp.text();
    let n = inp.len();
    let kind = TokenErrorKind::Expect(ExpectKind::Keyword(k));
    let t = keyword_chars(k);
    if t.len() > n - pos || !text_equals(inp, pos, pos + t.len(), &t) {
        return Err(Fault::Error(TokenError { kind, offset: inp.location(pos).offset }));
    }
    let e = pos + t.len();
    if e < n && ident_char(inp.char_at(e)) {
        return Err(Fault::Error(TokenError { kind, offset: inp.location(e).offset }));
    }
    Ok(make_token(inp, pos, e))
}

/// Parses the 'and' keyword token.
pub fn and(inp: &Input, pos: usize) -> (r: PResult<Token, TokenError>)
    requires inp.wf(), pos <= inp.text().len(),
    ensures token_outcome(inp.text(), pos as int, lex_keyword(inp.text(), pos as int, ExpectKeyword::And), r),
{
    keyword(inp, pos, ExpectKeyword::And)
}

/// Parses the 'apply' keyword token.
pub fn apply(inp: &Input, pos: usize) -> (r: PResult<Token, TokenError>)
    requires inp.wf(), pos <= inp.text().len(),
    ensures token_outcome(inp.text(), pos as int, lex_keyword(inp.text(), pos as int, ExpectKeyword::Apply), r),
{
    keyword(inp, pos, ExpectKeyword::Apply)
}

/// Parses the 'as' keyword token.
pub fn as_(inp: &Input, pos: usize) -> (r: PResult<Token, TokenError>)
    requires inp.wf(), pos <= inp.text().len(),
    ensures token_outcome(inp.text(), pos as int, lex_keyword(inp.text(), pos as int, ExpectKeyword::As), r),
{
    keyword(inp, pos, ExpectKeyword::As)
}

/// Parses the 'design' keyword token.
pub fn design(inp: &Input, pos: usize) -> (r: PResult<Token, TokenError>)
    requires inp.wf(), pos <= inp.text().len(),
    ensures token_outcome(inp.text(), pos as int, lex_keyword(inp.text(), pos as int, ExpectKeyword::Design), r),
{
    keyword(inp, pos, ExpectKeyword::Design)
}

/// Parses the 'false' keyword token.
pub fn false_(inp: &Input, pos: usize) -> (r: PResult<Token, TokenError>)
    requires inp.wf(), pos <= inp.text().len(),
    ensures token_outcome(inp.text(), pos as int, lex_keyword(inp.text(), pos as int, ExpectKeyword::False), r),
{
    keyword(inp, pos, ExpectKeyword::False)
}

/// Parses the 'from' keyword token.
pub fn from(inp: &Input, pos: usize) -> (r: PResult<Token, TokenError>)
    requires inp.wf(), pos <= inp.text().len(),
    ensures token_outcome(inp.text(), pos as int, lex_keyword(inp.text(), pos as int, ExpectKeyword::From), r),
{
    keyword(inp, pos, ExpectKeyword::From)
}

/// Parses the 'if' keyword token.
pub fn if_(inp: &Input, pos: usize) -> (r: PResult<Token, TokenError>)
    requires inp.wf(), pos <= inp.text().len(),
    ensures token_outcome(inp.text(), pos as int, lex_keyword(inp.text(), pos as int, ExpectKeyword::If), r),
{
    keyword(inp, pos, ExpectKeyword::If)
}

/// Parses the 'import' keyword token.
pub fn import(inp: &Input, pos: usize) -> (r: PResult<Token, TokenError>)
    requires inp.wf(), pos <= inp.text().len(),
    ensures token_outcome(inp.text(), pos as int, lex_keyword(inp.text(), pos as int, ExpectKeyword::Import), r),
{
    keyword(inp, pos, ExpectKeyword::Import)
}

/// Parses the 'not' keyword token.
pub fn not(inp: &Input, pos: usize) -> (r: PResult<Token, TokenError>)
    requires inp.wf(), pos <= inp.text().len(),
    ensures token_outcome(inp.text(), pos as int, lex_keyword(inp.text(), pos as int, ExpectKeyword::Not), r),
{
    keyword(inp, pos, ExpectKeyword::Not)
}

/// Parses the 'or' keyword token.
pub fn or(inp: &Input, pos: usize) -> (r: PResult<Token, TokenError>)
    requires inp.wf(), pos <= inp.text().len(),
    ensures token_outcome(inp.text(), pos as int, lex_keyword(inp.text(), pos as int, ExpectKeyword::Or), r),
{
    keyword(inp, pos, ExpectKeyword::Or)
}

/// Parses the 'ref' keyword token.
pub fn ref_(inp: &Input, pos: usize) -> (r: PResult<Token, TokenError>)
    requires inp.wf(), pos <= inp.text().len(),
    ensures token_outcome(inp.text(), pos as int, lex_keyword(inp.text(), pos as int, ExpectKeyword::Ref), r),
{
    keyword(inp, pos, ExpectKeyword::Ref)
}

/// Parses the 'reference' keyword token.
pub fn reference(inp: &Input, pos: usize) -> (r: PResult<Token, TokenError>)
    requires inp.wf(), pos <= inp.text().len(),
    ensures token_outcome(inp.text(), pos as int, lex_keyword(inp.text(), pos as int, ExpectKeyword::Reference), r),
{
    keyword(inp, pos, ExpectKeyword::Reference)
}

/// Parses the 'section' keyword token.
pub fn section(inp: &Input, pos: usize) -> (r: PResult<Token, TokenError>)
    requires inp.wf(), pos <= inp.text().len(),
    ensures token_outcome(inp.text(), pos as int, lex_keyword(inp.text(), pos as int, ExpectKeyword::Section), r),
{
    keyword(inp, pos, ExpectKeyword::Section)
}

/// Parses the 'submodel' keyword token.
pub fn submodel(inp: &Input, pos: usize) -> (r: PResult<Token, TokenError>)
    requires inp.wf(), pos <= inp.text().len(),
    ensures token_outcome(inp.text(), pos as int, lex_keyword(inp.text(), pos as int, ExpectKeyword::Submodel), r),
{
    keyword(inp, pos, ExpectKeyword::Submodel)
}

/// Parses the 'test' keyword token.
pub fn test(inp: &Input, pos: usize) -> (r: PResult<Token, TokenError>)
    requires inp.wf(), pos <= inp.text().len(),
    ensures token_outcome(inp.text(), pos as int, lex_keyword(inp.text(), pos as int, ExpectKeyword::Test), r),
{
    keyword(inp, pos, ExpectKeyword::Test)
}

/// Parses the 'to' keyword token.
pub fn to(inp: &Input, pos: usize) -> (r: PResult<Token, TokenError>)
    requires inp.wf(), pos <= inp.text().len(),
    ensures token_outcome(inp.text(), pos as int, lex_keyword(inp.text(), pos as int, ExpectKeyword::To), r),
{
    keyword(inp, pos, ExpectKeyword::To)
}

/// Parses the 'true' keyword token.
pub fn true_(inp: &Input, pos: usize) -> (r: PResult<Token, TokenError>)
    requires inp.wf(), pos <= inp.text().len(),
    ensures token_outcome(inp.text(), pos as int, lex_keyword(inp.text(), pos as int, ExpectKeyword::True), r),
{
    keyword(inp, pos, ExpectKeyword::True)
}

/// Parses the 'use' keyword token.
pub fn use_(inp: &Input, pos: usize) -> (r: PResult<Token, TokenError>)
    requires inp.wf(), pos <= inp.text().len(),
    ensures token_outcome(inp.text(), pos as int, lex_keyword(inp.text(), pos as int, ExpectKeyword::Use), r),
{
    keyword(inp, pos, ExpectKeyword::Use)
}

/// Parses the 'with' keyword token.
pub fn with(inp: &Input, pos: usize) -> (r: PResult<Token, TokenError>)
    requires inp.wf(), pos <= inp.text().len(),
    ensures token_outcome(inp.text(), pos as int, lex_keyword(inp.text(), pos as int, ExpectKeyword::With), r),
{
    keyword(inp, pos, ExpectKeyword::With)
}

} // verus!
