//! Evaluation of expressions.

use crate::parse::node::Node;
use crate::runtime::op_eval::apply;
use crate::runtime::runtime::Runner;
use crate::runtime::semantics::{as_operand, char_of, eval_spec, index_of, CODE_POINTS};
use crate::util::double::double_floor;
use crate::util::err::{RuntimeError, RuntimeErrorKind};
use crate::util::types::Number;
use vstd::prelude::*;

verus! {

/// What an expression evaluates to. `Float` holds the bit pattern of a
/// double.
#[derive(Debug, Copy, Clone, PartialEq, Eq, Structural)]
pub enum EvalType {
    Int(i64),
    Float(u64),
    Char(char),
}

impl EvalType {
    /// The result as a number; a character is no number.
    pub fn to_num(&self) -> (r: Result<Number, ()>)
        ensures
            r == (match *self {
                EvalType::Int(i) => Ok::<Number, ()>(Number::Int(i)),
                EvalType::Float(b) => Ok(Number::Float(b)),
                EvalType::Char(_) => Err(()),
            }),
    {
        match self {
            EvalType::Int(i) => Ok(Number::Int(*i)),
            EvalType::Float(b) => Ok(Number::Float(*b)),
            EvalType::Char(_) => Err(()),
        }
    }

    /// The memory index that the result stands for.
    pub fn to_index(&self) -> (r: i64)
        ensures
            r == index_of(*self),
    {
        match self {
            EvalType::Int(i) => *i,
            EvalType::Float(b) => double_floor(*b),
            EvalType::Char(c) => *c as u32 as i64,
        }
    }
}

/// `char::from_u32` of std. Not proved: by std's documentation the result is
/// the character with the code point where the code point is a Unicode
/// scalar value, that is at most 0x10FFFF and no surrogate, and `None`
/// otherwise.
#[verifier::external_body]
fn scalar_of(code: u32) -> (r: Option<char>)
    ensures
        r == (if code <= 0xD7FF || (0xE000 <= code && code <= 0x10FFFF) {
            Some(code as char)
        } else {
            None::<char>
        }),
{
    char::from_u32(code)
}

/// The character whose code point is an integer modulo the number of code
/// points; `None` where that is a surrogate.
pub fn charify(i: i64) -> (r: Option<char>)
    ensures
        r == char_of(i),
{
    let code: i64 = if i >= 0 {
        i % CODE_POINTS
    } else {
        CODE_POINTS - 1 - (-(i + 1)) % CODE_POINTS
    };
    assert(code == i as int % 0x110000);
    scalar_of(code as u32)
}

impl Runner {
    /// Evaluates an expression in the state of the runner.
    pub fn eval(&self, node: &Node) -> (r: Result<EvalType, RuntimeError>)
        requires
            self.wf(),
        ensures
            match r {
                Ok(v) => eval_spec(self@, node@) == Ok::<EvalType, RuntimeErrorKind>(v),
                Err(e) => eval_spec(self@, node@) == Err::<EvalType, RuntimeErrorKind>(e.kind)
                    && e.index == self.expr,
            },
        decreases node, 0int,
    {
        match node {
            Node::Literal(n) => match n {
                Number::Int(i) => Ok(EvalType::Int(*i)),
                Number::Float(b) => Ok(EvalType::Float(*b)),
                Number::Thought => match self.thought {
                    Number::Int(i) => Ok(EvalType::Int(i)),
                    Number::Float(b) => Ok(EvalType::Float(b)),
                    Number::Thought => Ok(EvalType::Int(0)),
                },
            },
            Node::Char(e) => match self.eval(e) {
                Err(e) => Err(e),
                Ok(EvalType::Char(c)) => Ok(EvalType::Char(c)),
                Ok(v) => match charify(v.to_index()) {
                    Some(c) => Ok(EvalType::Char(c)),
                    None => Err(self.fail(RuntimeErrorKind::InvalidScalar)),
                },
            },
            Node::Eval(l, op, r) => {
                let a = match self.operand(l) {
                    Ok(a) => a,
                    Err(e) => {
                        return Err(e);
                    },
                };
                let b = match self.operand(r) {
                    Ok(b) => b,
                    Err(e) => {
                        return Err(e);
                    },
                };
                match apply(a, *op, b) {
                    Ok(v) => Ok(v),
                    Err(kind) => Err(self.fail(kind)),
                }
            },
            Node::Out(e) => match self.eval(e) {
                Err(e) => Err(e),
                Ok(v) => {
                    let held = self.read(v.to_index());
                    match held {
                        Number::Int(i) => Ok(EvalType::Int(i)),
                        Number::Float(b) => Ok(EvalType::Float(b)),
                        Number::Thought => Ok(EvalType::Int(0)),
                    }
                },
            },
            _ => Ok(EvalType::Int(0)),
        }
    }

    /// The number that an operand of an operator stands for: a cast to a
    /// character counts as the integer zero, anything else is evaluated.
    pub fn operand(&self, node: &Node) -> (r: Result<Number, RuntimeError>)
        requires
            self.wf(),
        ensures
            match r {
                Ok(n) => as_operand(node@, eval_spec(self@, node@)) == Ok::<
                    Number,
                    RuntimeErrorKind,
                >(n),
                Err(e) => as_operand(node@, eval_spec(self@, node@)) == Err::<
                    Number,
                    RuntimeErrorKind,
                >(e.kind) && e.index == self.expr,
            },
        decreases node, 1int,
    {
        match node {
            Node::Char(_) => Ok(Number::Int(0)),
            _ => match self.eval(node) {
                Ok(EvalType::Int(i)) => Ok(Number::Int(i)),
                Ok(EvalType::Float(b)) => Ok(Number::Float(b)),
                Ok(EvalType::Char(_)) => Ok(Number::Int(0)),
                Err(e) => Err(e),
            },
        }
    }
}

} // verus!
