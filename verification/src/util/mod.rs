//! Character classes of the source text, and the shared value types.

use vstd::prelude::*;

pub mod double;
pub mod err;
pub mod types;

verus! {

/// Whether a character has the Unicode property `Alphabetic`.
pub uninterp spec fn unicode_alphabetic(c: char) -> bool;

/// Whether a character has the Unicode property `White_Space`.
pub uninterp spec fn unicode_whitespace(c: char) -> bool;

/// `char::is_alphabetic` of std. Not proved: the result is what std's Unicode
/// tables say of the character.
#[verifier::external_body]
fn char_is_alphabetic(c: char) -> (r: bool)
    ensures
        r == unicode_alphabetic(c),
{
    c.is_alphabetic()
}

/// `char::is_whitespace` of std. Not proved: the result is what std's Unicode
/// tables say of the character.
#[verifier::external_body]
fn char_is_whitespace(c: char) -> (r: bool)
    ensures
        r == unicode_whitespace(c),
{
    c.is_whitespace()
}

/// `String::push` of std. Not proved: by std's documentation the character
/// is appended to the end of the string.
#[verifier::external_body]
pub(crate) fn push_char(text: &mut String, c: char)
    ensures
        final(text)@ == old(text)@.push(c),
{
    text.push(c)
}

/// Whether a character is one of the ten decimal digits.
pub open spec fn is_digit(c: char) -> bool {
    '0' <= c && c <= '9'
}

/// Whether a character may follow the first letter of a word without being a
/// letter or a digit.
pub open spec fn is_symbol(c: char) -> bool {
    c == '_' || c == '-'
}

/// Whether a character is one of the six operator signs.
pub open spec fn is_operator(c: char) -> bool {
    c == '+' || c == '-' || c == '*' || c == '/' || c == '^' || c == '%'
}

/// Whether a character opens or closes a block.
pub open spec fn is_brace(c: char) -> bool {
    c == '{' || c == '}'
}

/// Whether a character may stand inside a word.
pub open spec fn is_word_char(c: char) -> bool {
    unicode_alphabetic(c) || is_digit(c) || is_symbol(c)
}

/// The character classes that the tokenizer tells apart.
#[derive(Debug, Copy, Clone, PartialEq, Eq, Structural)]
pub enum Is {
    Whitespace,
    Letter,
    Symbol,
    Digit,
    Operator,
    Brace,
}

impl Is {
    pub fn whitespace(c: char) -> (r: bool)
        ensures
            r == unicode_whitespace(c),
    {
        char_is_whitespace(c)
    }

    pub fn letter(c: char) -> (r: bool)
        ensures
            r == unicode_alphabetic(c),
    {
        char_is_alphabetic(c)
    }

    pub fn symbol(c: char) -> (r: bool)
        ensures
            r == is_symbol(c),
    {
        c == '_' || c == '-'
    }

    pub fn digit(c: char) -> (r: bool)
        ensures
            r == is_digit(c),
    {
        '0' <= c && c <= '9'
    }

    pub fn operator(c: char) -> (r: bool)
        ensures
            r == is_operator(c),
    {
        c == '+' || c == '-' || c == '*' || c == '/' || c == '^' || c == '%'
    }

    pub fn brace(c: char) -> (r: bool)
        ensures
            r == is_brace(c),
    {
        c == '{' || c == '}'
    }

    /// Whether a character may be part of a macro's name.
    pub fn rtk_compatible(c: char) -> (r: bool)
        ensures
            r == is_word_char(c),
    {
        Is::letter(c) || Is::digit(c) || Is::symbol(c)
    }
}

} // verus!
