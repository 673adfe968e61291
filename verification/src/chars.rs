//! Character classes that the standard library defines by Unicode tables.
use vstd::prelude::*;

verus! {

/// Whether the standard library classes `c` as alphanumeric
/// (`char::is_alphanumeric`: Unicode `Alphabetic` or `Numeric`).
pub uninterp spec fn unicode_alphanumeric(c: char) -> bool;

/// Whether the standard library classes `c` as alphabetic
/// (`char::is_alphabetic`: Unicode `Alphabetic`).
pub uninterp spec fn unicode_alphabetic(c: char) -> bool;

/// Whether the standard library classes `c` as whitespace
/// (`char::is_whitespace`: Unicode `White_Space`).
pub uninterp spec fn unicode_whitespace(c: char) -> bool;

/// ASCII letters.
pub open spec fn is_ascii_letter(c: char) -> bool {
    ('a' <= c && c <= 'z') || ('A' <= c && c <= 'Z')
}

/// The ASCII characters with the Unicode `White_Space` property: tab, line
/// feed, vertical tab, form feed, carriage return and space.
pub open spec fn is_ascii_white_space(c: char) -> bool {
    c == '\t' || c == '\n' || c == '\u{b}' || c == '\u{c}' || c == '\r' || c == ' '
}

/// `char::is_alphabetic`: an ASCII letter for ASCII characters, else by the
/// Unicode tables.
pub open spec fn alphabetic(c: char) -> bool {
    if (c as u32) < 128 {
        is_ascii_letter(c)
    } else {
        unicode_alphabetic(c)
    }
}

/// `char::is_alphanumeric`: an ASCII letter or digit for ASCII characters,
/// else by the Unicode tables.
pub open spec fn alphanumeric(c: char) -> bool {
    if (c as u32) < 128 {
        is_ascii_letter(c) || is_digit(c)
    } else {
        unicode_alphanumeric(c)
    }
}

/// `char::is_whitespace`: the ASCII white space characters for ASCII
/// characters, else by the Unicode tables.
pub open spec fn white_space(c: char) -> bool {
    if (c as u32) < 128 {
        is_ascii_white_space(c)
    } else {
        unicode_whitespace(c)
    }
}

/// Calls `char::is_alphanumeric`. Its result is a fixed function of `c`
/// (the Unicode `Alphabetic` and `Numeric` properties), named by
/// `unicode_alphanumeric`. Of ASCII characters it states what the Unicode
/// tables give: exactly the letters and digits are alphanumeric. Of other
/// characters nothing more is stated.
#[verifier::external_body]
pub fn is_alphanumeric(c: char) -> (r: bool)
    ensures
        r == unicode_alphanumeric(c),
        (c as u32) < 128 ==> (r <==> (is_ascii_letter(c) || is_digit(c))),
{
    c.is_alphanumeric()
}

/// Calls `char::is_alphabetic`. Its result is a fixed function of `c` (the
/// Unicode `Alphabetic` property), named by `unicode_alphabetic`. Of ASCII
/// characters it states what the Unicode tables give: exactly the letters
/// are alphabetic. Of other characters nothing more is stated.
#[verifier::external_body]
pub fn is_alphabetic(c: char) -> (r: bool)
    ensures
        r == unicode_alphabetic(c),
        (c as u32) < 128 ==> (r <==> is_ascii_letter(c)),
{
    c.is_alphabetic()
}

/// Calls `char::is_whitespace`. Its result is a fixed function of `c` (the
/// Unicode `White_Space` property), named by `unicode_whitespace`. Of ASCII
/// characters it states what the Unicode tables give: exactly tab, line
/// feed, vertical tab, form feed, carriage return and space are white
/// space. Of other characters nothing more is stated.
#[verifier::external_body]
pub fn is_whitespace(c: char) -> (r: bool)
    ensures
        r == unicode_whitespace(c),
        (c as u32) < 128 ==> (r <==> is_ascii_white_space(c)),
{
    c.is_whitespace()
}

/// ASCII decimal digits.
pub open spec fn is_digit(c: char) -> bool {
    '0' <= c <= '9'
}

/// Characters that may continue an identifier.
pub open spec fn is_ident_char(c: char) -> bool {
    alphanumeric(c) || c == '_'
}

/// Characters that may start an identifier.
pub open spec fn is_ident_start(c: char) -> bool {
    alphabetic(c) || c == '_'
}

/// Whether `c` may continue an identifier.
pub fn ident_char(c: char) -> (r: bool)
    ensures
        r == is_ident_char(c),
{
    c == '_' || is_alphanumeric(c)
}

/// Whether `c` may start an identifier.
pub fn ident_start(c: char) -> (r: bool)
    ensures
        r == is_ident_start(c),
{
    c == '_' || is_alphabetic(c)
}

} // verus!
