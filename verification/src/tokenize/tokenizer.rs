//! The tokenizer: one pass over the characters, left to right.

use crate::tokenize::token::{token_views, Token, TokenView};
use crate::util::double::{double_from_decimal, ieee_of_decimal};
use crate::util::err::LexError;
use crate::util::types::{Keyword, Number, Operator};
use crate::util::{
    is_digit, is_operator, is_word_char, push_char, unicode_alphabetic, unicode_whitespace, Is,
};
use vstd::prelude::*;
use vstd::std_specs::iter::IteratorSpec;
use vstd::string::StrSliceExecFns;

verus! {

/// How many characters from `pos` on may stand inside a word.
pub open spec fn word_tail(chars: Seq<char>, pos: int) -> nat
    decreases chars.len() - pos,
{
    if 0 <= pos < chars.len() && is_word_char(chars[pos]) {
        1 + word_tail(chars, pos + 1)
    } else {
        0
    }
}

/// How many characters from `pos` on stand before the end of the line.
pub open spec fn line_tail(chars: Seq<char>, pos: int) -> nat
    decreases chars.len() - pos,
{
    if 0 <= pos < chars.len() && chars[pos] != '\n' {
        1 + line_tail(chars, pos + 1)
    } else {
        0
    }
}

/// How many characters from `pos` on continue a numeral: digits, and one
/// point unless `pointed` says that the numeral has one already.
pub open spec fn numeral_tail(chars: Seq<char>, pos: int, pointed: bool) -> nat
    decreases chars.len() - pos,
{
    if 0 <= pos < chars.len() && is_digit(chars[pos]) {
        1 + numeral_tail(chars, pos + 1, pointed)
    } else if 0 <= pos < chars.len() && chars[pos] == '.' && !pointed {
        1 + numeral_tail(chars, pos + 1, true)
    } else {
        0
    }
}

/// Whether the numeral continued from `pos` has a point by its end.
pub open spec fn numeral_pointed(chars: Seq<char>, pos: int, pointed: bool) -> bool
    decreases chars.len() - pos,
{
    if 0 <= pos < chars.len() && is_digit(chars[pos]) {
        numeral_pointed(chars, pos + 1, pointed)
    } else if 0 <= pos < chars.len() && chars[pos] == '.' && !pointed {
        numeral_pointed(chars, pos + 1, true)
    } else {
        pointed
    }
}

/// A word ends within the text.
pub proof fn word_tail_bound(chars: Seq<char>, pos: int)
    requires
        0 <= pos <= chars.len(),
    ensures
        pos + word_tail(chars, pos) <= chars.len(),
    decreases chars.len() - pos,
{
    if pos < chars.len() && is_word_char(chars[pos]) {
        word_tail_bound(chars, pos + 1);
    }
}

/// A numeral ends within the text.
pub proof fn numeral_tail_bound(chars: Seq<char>, pos: int, pointed: bool)
    requires
        0 <= pos <= chars.len(),
    ensures
        pos + numeral_tail(chars, pos, pointed) <= chars.len(),
    decreases chars.len() - pos,
{
    if pos < chars.len() && is_digit(chars[pos]) {
        numeral_tail_bound(chars, pos + 1, pointed);
    } else if pos < chars.len() && chars[pos] == '.' && !pointed {
        numeral_tail_bound(chars, pos + 1, true);
    }
}

/// Whether every character is a decimal digit.
pub open spec fn all_digits(s: Seq<char>) -> bool {
    forall|i: int| 0 <= i < s.len() ==> is_digit(#[trigger] s[i])
}

/// The number that a sequence of decimal digits denotes.
pub open spec fn digits_value(s: Seq<char>) -> int
    decreases s.len(),
{
    if s.len() == 0 {
        0
    } else {
        digits_value(s.drop_last()) * 10 + (s.last() as int - '0' as int)
    }
}

/// The integer that a numeral without a point denotes: an optional minus
/// sign, then digits. `None` where a character after the sign is no digit or
/// the number is outside the 64-bit signed range.
pub open spec fn int_of_numeral(run: Seq<char>) -> Option<i64> {
    let negative = run.len() > 0 && run[0] == '-';
    let digits = if negative {
        run.subrange(1, run.len() as int)
    } else {
        run
    };
    let value = if negative {
        -digits_value(digits)
    } else {
        digits_value(digits)
    };
    if all_digits(digits) && i64::MIN <= value <= i64::MAX {
        Some(value as i64)
    } else {
        None
    }
}

/// The token that a word stands for: the number `Thought` for `thought`, a
/// keyword for any other reserved word, and a name otherwise.
pub open spec fn word_token(word: Seq<char>) -> TokenView {
    match Keyword::of_text(word) {
        Some(Keyword::Thought) => TokenView::Data(Number::Thought),
        Some(k) => TokenView::Keyword(k),
        None => TokenView::RTKeyword(word),
    }
}

/// A token followed by the tokens of the rest, or the error of the rest.
pub open spec fn token_then(
    token: TokenView,
    rest: Result<Seq<TokenView>, LexError>,
) -> Result<Seq<TokenView>, LexError> {
    match rest {
        Ok(tokens) => Ok(seq![token] + tokens),
        Err(e) => Err(e),
    }
}

/// Tokens followed by the tokens of the rest, or the error of the rest.
pub open spec fn tokens_then(
    tokens: Seq<TokenView>,
    rest: Result<Seq<TokenView>, LexError>,
) -> Result<Seq<TokenView>, LexError> {
    match rest {
        Ok(more) => Ok(tokens + more),
        Err(e) => Err(e),
    }
}

/// The tokens of the characters from `pos` on, where `pos` is on line `row`,
/// or the first error.
///
/// - `#` starts a comment, which ends with its line; the end of the line is
///   part of the comment.
/// - The end of a line is a token; other whitespace separates tokens.
/// - A letter starts a word, which goes on with letters, digits, `_` and `-`.
/// - A digit or `-` starts a numeral, which goes on with digits and at most
///   one point. A `-` alone is the operator. A numeral with a point is a
///   double, one without is an integer.
/// - Braces and operator signs are tokens.
/// - Any other character is an error.
pub open spec fn lex_from(chars: Seq<char>, pos: int, row: int) -> Result<Seq<TokenView>, LexError>
    decreases chars.len() - pos,
{
    if pos < 0 || pos >= chars.len() {
        Ok(Seq::empty())
    } else {
        let c = chars[pos];
        if c == '#' {
            let end = pos + line_tail(chars, pos);
            if end < chars.len() {
                lex_from(chars, end + 1, row + 1)
            } else {
                Ok(Seq::empty())
            }
        } else if c == '\n' {
            token_then(TokenView::NewLine, lex_from(chars, pos + 1, row + 1))
        } else if unicode_whitespace(c) {
            lex_from(chars, pos + 1, row)
        } else if unicode_alphabetic(c) {
            proof {
                word_tail_bound(chars, pos + 1);
            }
            let end = pos + 1 + word_tail(chars, pos + 1);
            token_then(word_token(chars.subrange(pos, end)), lex_from(chars, end, row))
        } else if is_digit(c) || c == '-' {
            proof {
                numeral_tail_bound(chars, pos + 1, false);
            }
            let end = pos + 1 + numeral_tail(chars, pos + 1, false);
            let run = chars.subrange(pos, end);
            if c == '-' && end == pos + 1 {
                token_then(TokenView::OpToken(Operator::Sub), lex_from(chars, end, row))
            } else if numeral_pointed(chars, pos + 1, false) {
                match ieee_of_decimal(run) {
                    Some(bits) => token_then(
                        TokenView::Data(Number::Float(bits)),
                        lex_from(chars, end, row),
                    ),
                    None => Err(LexError::MalformedFloat { line: row as usize }),
                }
            } else {
                match int_of_numeral(run) {
                    Some(n) => token_then(
                        TokenView::Data(Number::Int(n)),
                        lex_from(chars, end, row),
                    ),
                    None => Err(LexError::MalformedInteger { line: row as usize }),
                }
            }
        } else if c == '{' {
            token_then(TokenView::OpenBrace, lex_from(chars, pos + 1, row))
        } else if c == '}' {
            token_then(TokenView::CloseBrace, lex_from(chars, pos + 1, row))
        } else if is_operator(c) {
            token_then(TokenView::OpToken(Operator::of_char(c)), lex_from(chars, pos + 1, row))
        } else {
            Err(LexError::UnrecognizedCharacter { character: c, line: row as usize })
        }
    }
}

/// The tokens of a whole source text, or the first error.
pub open spec fn lex(source: Seq<char>) -> Result<Seq<TokenView>, LexError> {
    lex_from(source, 0, 0)
}

/// Putting a token behind the tokens read so far and then the rest is the
/// same as putting the token before the rest.
pub proof fn tokens_then_push(
    tokens: Seq<TokenView>,
    token: TokenView,
    rest: Result<Seq<TokenView>, LexError>,
)
    ensures
        tokens_then(tokens.push(token), rest) == tokens_then(tokens, token_then(token, rest)),
{
    match rest {
        Ok(more) => {
            assert(tokens.push(token) + more =~= tokens + (seq![token] + more));
        },
        Err(_) => {},
    }
}

/// The characters of a string, one by one.
pub fn chars_of(s: &str) -> (v: Vec<char>)
    ensures
        v@ == s@,
{
    broadcast use vstd::string::group_string_axioms;

    let n: usize = s.unicode_len();
    let mut rest = s.chars();
    let mut v: Vec<char> = Vec::new();
    loop
        invariant
            n == s@.len(),
            rest.obeys_prophetic_iter_laws(),
            v@ + rest.remaining() == s@,
        decreases n - v@.len(),
    {
        let ghost before = rest.remaining();
        match rest.next() {
            Some(c) => {
                assert(v@.push(c) + before.drop_first() =~= v@ + before);
                v.push(c);
            },
            None => {
                assert(v@ + before =~= v@);
                return v;
            },
        }
    }
}

/// The text of the characters from `start` to `end`.
pub fn text_of(chars: &Vec<char>, start: usize, end: usize) -> (r: String)
    requires
        start <= end <= chars.len(),
    ensures
        r@ == chars@.subrange(start as int, end as int),
{
    let mut text = String::new();
    let mut i: usize = start;
    while i < end
        invariant
            start <= i <= end <= chars.len(),
            text@ == chars@.subrange(start as int, i as int),
        decreases end - i,
    {
        push_char(&mut text, chars[i]);
        assert(text@ =~= chars@.subrange(start as int, i + 1));
        i += 1;
    }
    text
}

/// Reads the numeral without a point that the characters from `start` to
/// `end` spell.
pub fn parse_int(chars: &Vec<char>, start: usize, end: usize) -> (r: Option<i64>)
    requires
        start <= end <= chars.len(),
    ensures
        r == int_of_numeral(chars@.subrange(start as int, end as int)),
{
    let ghost run = chars@.subrange(start as int, end as int);
    let negative = start < end && chars[start] == '-';
    let first: usize = if negative {
        start + 1
    } else {
        start
    };
    let ghost digits = chars@.subrange(first as int, end as int);
    assert(digits =~= if negative {
        run.subrange(1, run.len() as int)
    } else {
        run
    });
    // The magnitude read so far, as long as it is at most 2^63.
    let mut acc: u128 = 0;
    let mut big = false;
    let mut i: usize = first;
    while i < end
        invariant
            first <= i <= end <= chars.len(),
            run == chars@.subrange(start as int, end as int),
            digits == chars@.subrange(first as int, end as int),
            negative == (run.len() > 0 && run[0] == '-'),
            digits == (if negative {
                run.subrange(1, run.len() as int)
            } else {
                run
            }),
            all_digits(chars@.subrange(first as int, i as int)),
            !big ==> acc == digits_value(chars@.subrange(first as int, i as int)),
            !big ==> acc <= 0x8000_0000_0000_0000,
            big ==> digits_value(chars@.subrange(first as int, i as int)) > 0x8000_0000_0000_0000,
        decreases end - i,
    {
        let c = chars[i];
        if !Is::digit(c) {
            assert(!is_digit(digits[i - first]));
            return None;
        }
        let d: u32 = c as u32 - '0' as u32;
        let ghost before = chars@.subrange(first as int, i as int);
        let ghost after = chars@.subrange(first as int, i + 1);
        assert(after.drop_last() =~= before);
        assert(after.last() == c);
        assert(digits_value(after) == digits_value(before) * 10 + d);
        if !big {
            acc = acc * 10 + d as u128;
            if acc > 0x8000_0000_0000_0000 {
                big = true;
            }
        }
        assert forall|j: int| 0 <= j < after.len() implies is_digit(#[trigger] after[j]) by {
            if j < before.len() {
                assert(after[j] == before[j]);
            }
        }
        i += 1;
    }
    assert(chars@.subrange(first as int, i as int) =~= digits);
    if big {
        None
    } else if negative {
        if acc == 0x8000_0000_0000_0000 {
            Some(i64::MIN)
        } else {
            Some(-(acc as i64))
        }
    } else if acc <= 0x7FFF_FFFF_FFFF_FFFF {
        Some(acc as i64)
    } else {
        None
    }
}

/// A tokenizer over one source text.
pub struct Tokenizer {
    pos: usize,
    row: usize,
    input: String,
}

impl Tokenizer {
    /// The source text.
    pub closed spec fn source(&self) -> Seq<char> {
        self.input@
    }

    /// The index of the next character to read.
    pub closed spec fn position(&self) -> nat {
        self.pos as nat
    }

    /// The line of the next character to read, counted from zero.
    pub closed spec fn line(&self) -> nat {
        self.row as nat
    }

    /// No more lines have been counted than characters read.
    pub closed spec fn wf(&self) -> bool {
        self.row <= self.pos
    }

    pub fn new(input: String) -> (r: Self)
        ensures
            r.wf(),
            r.source() == input@,
            r.position() == 0,
            r.line() == 0,
    {
        Self { pos: 0, row: 0, input }
    }

    /// Reads the rest of the source text into tokens.
    pub fn tokenize(&mut self) -> (r: Result<Vec<Token>, LexError>)
        requires
            old(self).wf(),
        ensures
            final(self).wf(),
            final(self).source() == old(self).source(),
            match r {
                Ok(tokens) => lex_from(
                    old(self).source(),
                    old(self).position() as int,
                    old(self).line() as int,
                ) == Ok::<Seq<TokenView>, LexError>(token_views(tokens@)),
                Err(e) => lex_from(
                    old(self).source(),
                    old(self).position() as int,
                    old(self).line() as int,
                ) == Err::<Seq<TokenView>, LexError>(e),
            },
            r is Ok ==> final(self).position() >= final(self).source().len(),
    {
        let mut tokens: Vec<Token> = Vec::new();
        let chars: Vec<char> = chars_of(self.input.as_str());
        let n: usize = chars.len();
        let ghost whole = lex_from(chars@, self.pos as int, self.row as int);
        assert(token_views(tokens@) =~= Seq::empty());
        assert(tokens_then(Seq::empty(), whole) == whole) by {
            match whole {
                Ok(more) => {
                    assert(Seq::<TokenView>::empty() + more =~= more);
                },
                Err(_) => {},
            }
        }
        while self.pos < n
            invariant
                self.row <= self.pos,
                self.input@ == old(self).input@,
                chars@ == self.input@,
                n == chars.len(),
                whole == lex_from(
                    old(self).input@,
                    old(self).pos as int,
                    old(self).row as int,
                ),
                whole == tokens_then(
                    token_views(tokens@),
                    lex_from(chars@, self.pos as int, self.row as int),
                ),
            decreases n - self.pos,
        {
            let c = chars[self.pos];
            let ghost seen = token_views(tokens@);
            let ghost here = self.pos as int;
            let ghost row = self.row;
            if c == '#' {
                while self.pos < n && chars[self.pos] != '\n'
                    invariant
                        here <= self.pos <= n,
                        n == chars.len(),
                        self.row == row,
                        self.row <= here,
                        self.input@ == old(self).input@,
                        chars@ == self.input@,
                        here + line_tail(chars@, here) == self.pos + line_tail(
                            chars@,
                            self.pos as int,
                        ),
                    decreases n - self.pos,
                {
                    self.go();
                }
                if self.pos < n {
                    self.go();
                    self.row += 1;
                }
                continue ;
            }
            if c == '\n' {
                self.row += 1;
                tokens.push(Token::NewLine);
                self.go();
                proof {
                    assert(token_views(tokens@) =~= seen.push(TokenView::NewLine));
                    tokens_then_push(
                        seen,
                        TokenView::NewLine,
                        lex_from(chars@, self.pos as int, self.row as int),
                    );
                }
                continue ;
            }
            if Is::whitespace(c) {
                self.go();
                continue ;
            }
            if Is::letter(c) {
                let start: usize = self.pos;
                self.go();
                while self.pos < n && Is::rtk_compatible(chars[self.pos])
                    invariant
                        start < self.pos <= n,
                        n == chars.len(),
                        self.row == row,
                        self.row <= start,
                        self.input@ == old(self).input@,
                        chars@ == self.input@,
                        start + 1 + word_tail(chars@, start + 1) == self.pos + word_tail(
                            chars@,
                            self.pos as int,
                        ),
                    decreases n - self.pos,
                {
                    self.go();
                }
                let word: String = text_of(&chars, start, self.pos);
                let token = match Keyword::from(word.as_str()) {
                    Some(k) => {
                        if k == Keyword::Thought {
                            Token::Data(Number::Thought)
                        } else {
                            Token::Keyword(k)
                        }
                    },
                    None => Token::RTKeyword(word),
                };
                proof {
                    assert(token@ == word_token(chars@.subrange(start as int, self.pos as int)));
                }
                tokens.push(token);
                proof {
                    assert(token_views(tokens@) =~= seen.push(token@));
                    tokens_then_push(
                        seen,
                        token@,
                        lex_from(chars@, self.pos as int, self.row as int),
                    );
                }
                continue ;
            }
            if Is::digit(c) || c == '-' {
                let start: usize = self.pos;
                let mut has_decimal = false;
                self.go();
                while self.pos < n && (Is::digit(chars[self.pos]) || (chars[self.pos] == '.'
                    && !has_decimal))
                    invariant
                        start < self.pos <= n,
                        n == chars.len(),
                        self.row == row,
                        self.row <= start,
                        self.input@ == old(self).input@,
                        chars@ == self.input@,
                        start + 1 + numeral_tail(chars@, start + 1, false) == self.pos
                            + numeral_tail(chars@, self.pos as int, has_decimal),
                        numeral_pointed(chars@, start + 1, false) == numeral_pointed(
                            chars@,
                            self.pos as int,
                            has_decimal,
                        ),
                    decreases n - self.pos,
                {
                    if !Is::digit(chars[self.pos]) {
                        has_decimal = true;
                    }
                    self.go();
                }
                let token = if c == '-' && self.pos == start + 1 {
                    Token::OpToken(Operator::Sub)
                } else if has_decimal {
                    let numeral: String = text_of(&chars, start, self.pos);
                    match double_from_decimal(numeral.as_str()) {
                        Some(bits) => Token::Data(Number::Float(bits)),
                        None => {
                            return Err(LexError::MalformedFloat { line: self.row });
                        },
                    }
                } else {
                    match parse_int(&chars, start, self.pos) {
                        Some(value) => Token::Data(Number::Int(value)),
                        None => {
                            return Err(LexError::MalformedInteger { line: self.row });
                        },
                    }
                };
                tokens.push(token);
                proof {
                    assert(token_views(tokens@) =~= seen.push(token@));
                    tokens_then_push(
                        seen,
                        token@,
                        lex_from(chars@, self.pos as int, self.row as int),
                    );
                }
                continue ;
            }
            if Is::brace(c) {
                let token = if c == '{' {
                    Token::OpenBrace
                } else {
                    Token::CloseBrace
                };
                tokens.push(token);
                self.go();
                proof {
                    assert(token_views(tokens@) =~= seen.push(token@));
                    tokens_then_push(
                        seen,
                        token@,
                        lex_from(chars@, self.pos as int, self.row as int),
                    );
                }
                continue ;
            }
            if Is::operator(c) {
                let token = Token::OpToken(Operator::from(c));
                tokens.push(token);
                self.go();
                proof {
                    assert(token_views(tokens@) =~= seen.push(token@));
                    tokens_then_push(
                        seen,
                        token@,
                        lex_from(chars@, self.pos as int, self.row as int),
                    );
                }
                continue ;
            }
            return Err(LexError::UnrecognizedCharacter { character: c, line: self.row });
        }
        Ok(tokens)
    }

    /// Steps over one character.
    pub fn go(&mut self)
        requires
            old(self).position() < usize::MAX,
        ensures
            final(self).position() == old(self).position() + 1,
            final(self).line() == old(self).line(),
            final(self).source() == old(self).source(),
    {
        self.pos += 1;
    }
}

} // verus!
