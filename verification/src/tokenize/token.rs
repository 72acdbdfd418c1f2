//! The tokens of the language.

use crate::util::types::{Keyword, Number, Operator};
use vstd::prelude::*;

verus! {

/// A token of the source text.
#[derive(Debug, PartialEq, Clone)]
pub enum Token {
    OpenBrace,
    CloseBrace,
    /// A number literal, or the word `thought`.
    Data(Number),
    Keyword(Keyword),
    OpToken(Operator),
    /// A word that is no reserved word: the name of a macro.
    RTKeyword(String),
    NewLine,
}

/// A token, with a name taken as its characters.
pub enum TokenView {
    OpenBrace,
    CloseBrace,
    Data(Number),
    Keyword(Keyword),
    OpToken(Operator),
    RTKeyword(Seq<char>),
    NewLine,
}

impl View for Token {
    type V = TokenView;

    open spec fn view(&self) -> TokenView {
        match *self {
            Token::OpenBrace => TokenView::OpenBrace,
            Token::CloseBrace => TokenView::CloseBrace,
            Token::Data(n) => TokenView::Data(n),
            Token::Keyword(k) => TokenView::Keyword(k),
            Token::OpToken(o) => TokenView::OpToken(o),
            Token::RTKeyword(name) => TokenView::RTKeyword(name@),
            Token::NewLine => TokenView::NewLine,
        }
    }
}

/// The views of a sequence of tokens.
pub open spec fn token_views(tokens: Seq<Token>) -> Seq<TokenView> {
    tokens.map_values(|t: Token| t@)
}

} // verus!
