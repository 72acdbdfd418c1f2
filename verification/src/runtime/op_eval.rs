//! Operators on numbers.

use crate::parse::node::{Node, NodeView};
use crate::runtime::eval::EvalType;
use crate::runtime::runtime::Runner;
use crate::runtime::semantics::{apply_spec, eval_spec, zero_divisor};
use crate::util::double::{double_add, double_div, double_is_zero, double_mul, double_sub};
use crate::util::err::{RuntimeError, RuntimeErrorKind};
use crate::util::types::{Number, Operator};
use vstd::prelude::*;

verus! {

/// Whether a number is zero as a divisor.
pub fn is_zero_divisor(n: Number) -> (r: bool)
    ensures
        r == zero_divisor(n),
{
    match n {
        Number::Int(i) => i == 0,
        Number::Float(b) => double_is_zero(b),
        Number::Thought => true,
    }
}

/// Applies an operator to two numbers.
pub fn apply(a: Number, op: Operator, b: Number) -> (r: Result<EvalType, RuntimeErrorKind>)
    ensures
        r == apply_spec(a, op, b),
{
    match op {
        Operator::Add => match (a, b) {
            (Number::Int(x), Number::Int(y)) => Ok(EvalType::Int(x.wrapping_add(y))),
            _ => Ok(EvalType::Float(double_add(a.float(), b.float()))),
        },
        Operator::Sub => match (a, b) {
            (Number::Int(x), Number::Int(y)) => Ok(EvalType::Int(x.wrapping_sub(y))),
            _ => Ok(EvalType::Float(double_sub(a.float(), b.float()))),
        },
        Operator::Mul => match (a, b) {
            (Number::Int(x), Number::Int(y)) => Ok(EvalType::Int(x.wrapping_mul(y))),
            _ => Ok(EvalType::Float(double_mul(a.float(), b.float()))),
        },
        Operator::Div => if is_zero_divisor(b) {
            Err(RuntimeErrorKind::DivisionByZero)
        } else {
            Ok(EvalType::Float(double_div(a.float(), b.float())))
        },
        _ => Err(RuntimeErrorKind::UnsupportedOperator),
    }
}

impl Runner {
    /// Evaluates an operator between two expressions: the left operand
    /// first, then the right one, then the operator on their numbers.
    pub fn op_eval(&self, lhs: &Node, op: Operator, rhs: &Node) -> (r: Result<
        EvalType,
        RuntimeError,
    >)
        requires
            self.wf(),
        ensures
            match r {
                Ok(v) => eval_spec(
                    self@,
                    NodeView::Eval(Box::new(lhs@), op, Box::new(rhs@)),
                ) == Ok::<EvalType, RuntimeErrorKind>(v),
                Err(e) => eval_spec(
                    self@,
                    NodeView::Eval(Box::new(lhs@), op, Box::new(rhs@)),
                ) == Err::<EvalType, RuntimeErrorKind>(e.kind) && e.index == self.expr,
            },
    {
        let a = match self.operand(lhs) {
            Ok(a) => a,
            Err(e) => {
                return Err(e);
            },
        };
        let b = match self.operand(rhs) {
            Ok(b) => b,
            Err(e) => {
                return Err(e);
            },
        };
        match apply(a, op, b) {
            Ok(v) => Ok(v),
            Err(kind) => Err(self.fail(kind)),
        }
    }
}

} // verus!
