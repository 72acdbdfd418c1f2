//! Execution of a parsed program.

pub mod eval;
pub mod laws;
pub mod op_eval;
pub mod runtime;
pub mod semantics;
