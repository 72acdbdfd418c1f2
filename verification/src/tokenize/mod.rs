//! From source text to tokens.

pub mod token;
pub mod tokenizer;
