//! Naqua: a small interpreted language with a single accumulator (the
//! "thought"), a sparse integer-indexed memory, blocks, loops and macros.
//!
//! Source text is turned into tokens by [`tokenize`], tokens into a program
//! by [`parse`], and a program is executed by [`runtime`].

pub mod util;
pub mod tokenize;
pub mod parse;
pub mod runtime;
