//! What a program means: the state of a runner, the value of an expression
//! and the effect of a statement, as functions on views.

use crate::parse::node::NodeView;
use crate::runtime::eval::EvalType;
use crate::util::double::{
    ieee_difference, ieee_floor, ieee_product, ieee_quotient, ieee_sum, is_zero_bits,
};
use crate::util::err::RuntimeErrorKind;
use crate::util::types::{Number, Operator};
use vstd::prelude::*;

verus! {

/// The state of a runner: the thought register, the memory, what has been
/// printed and the macros that have been spawned, both in their order.
pub struct State {
    pub thought: Number,
    pub memory: Map<i64, Number>,
    pub output: Seq<EvalType>,
    pub spawned: Seq<Seq<char>>,
}

/// The macros of a program: from a name to the statements of the body.
pub type Macros = Map<Seq<char>, Seq<NodeView>>;

/// The state in which a runner starts: the thought register holds the
/// integer zero, the memory is empty, and nothing is printed or spawned.
pub open spec fn fresh() -> State {
    State {
        thought: Number::Int(0),
        memory: Map::empty(),
        output: Seq::empty(),
        spawned: Seq::empty(),
    }
}

/// Whether a state holds values only: neither the thought register nor a
/// cell of the memory refers to the thought register.
pub open spec fn resolved_state(st: State) -> bool {
    &&& st.thought.resolved()
    &&& forall|k: i64| st.memory.contains_key(k) ==> (#[trigger] st.memory[k]).resolved()
}

/// A number, with the thought register in place of a reference to it.
pub open spec fn resolve(n: Number, thought: Number) -> Number {
    if n is Thought {
        thought
    } else {
        n
    }
}

/// A number as the result of an evaluation.
pub open spec fn value_of(n: Number) -> EvalType {
    match n {
        Number::Int(i) => EvalType::Int(i),
        Number::Float(b) => EvalType::Float(b),
        Number::Thought => EvalType::Int(0),
    }
}

/// The result of an evaluation as a number; a character counts as zero.
pub open spec fn number_of(v: EvalType) -> Number {
    match v {
        EvalType::Int(i) => Number::Int(i),
        EvalType::Float(b) => Number::Float(b),
        EvalType::Char(_) => Number::Int(0),
    }
}

/// The memory index that a value stands for: an integer is itself, a double
/// is rounded down, a character is its code point.
pub open spec fn index_of(v: EvalType) -> i64 {
    match v {
        EvalType::Int(i) => i,
        EvalType::Float(b) => ieee_floor(b),
        EvalType::Char(c) => c as i64,
    }
}

/// What the memory holds at an index: the integer zero where nothing was
/// written.
pub open spec fn read_memory(memory: Map<i64, Number>, index: i64) -> Number {
    if memory.contains_key(index) {
        memory[index]
    } else {
        Number::Int(0)
    }
}

/// The number of code points from zero to the greatest one.
pub const CODE_POINTS: i64 = 0x110000;

/// The character whose code point is an integer modulo the number of code
/// points; `None` where that is a surrogate.
pub open spec fn char_of(i: i64) -> Option<char> {
    let code = i as int % 0x110000;
    if 0xD800 <= code <= 0xDFFF {
        None
    } else {
        Some(code as char)
    }
}

/// Whether a value equals the thought register, tag and all. A character
/// equals no number.
pub open spec fn matches_thought(v: EvalType, thought: Number) -> bool {
    match v {
        EvalType::Char(_) => false,
        _ => number_of(v).tagged_eq(thought),
    }
}

/// Whether a number is zero as a divisor.
pub open spec fn zero_divisor(n: Number) -> bool {
    match n {
        Number::Int(i) => i == 0,
        Number::Float(b) => is_zero_bits(b),
        Number::Thought => true,
    }
}

/// The result of an operator on two numbers. Two integers are added,
/// subtracted and multiplied as 64-bit integers, wrapping around; with a
/// double on either side both are taken as doubles. Division is always that
/// of doubles, and fails on a divisor that is zero. `^` and `%` fail.
pub open spec fn apply_spec(a: Number, op: Operator, b: Number) -> Result<
    EvalType,
    RuntimeErrorKind,
> {
    let whole = a is Int && b is Int;
    match op {
        Operator::Add => if whole {
            Ok(EvalType::Int(a->Int_0.wrapping_add(b->Int_0)))
        } else {
            Ok(EvalType::Float(ieee_sum(a.as_double(), b.as_double())))
        },
        Operator::Sub => if whole {
            Ok(EvalType::Int(a->Int_0.wrapping_sub(b->Int_0)))
        } else {
            Ok(EvalType::Float(ieee_difference(a.as_double(), b.as_double())))
        },
        Operator::Mul => if whole {
            Ok(EvalType::Int(a->Int_0.wrapping_mul(b->Int_0)))
        } else {
            Ok(EvalType::Float(ieee_product(a.as_double(), b.as_double())))
        },
        Operator::Div => if zero_divisor(b) {
            Err(RuntimeErrorKind::DivisionByZero)
        } else {
            Ok(EvalType::Float(ieee_quotient(a.as_double(), b.as_double())))
        },
        _ => Err(RuntimeErrorKind::UnsupportedOperator),
    }
}

/// The number that an operand of an operator stands for, given what the
/// operand evaluates to: a cast to a character counts as the integer zero
/// and is not evaluated.
pub open spec fn as_operand(node: NodeView, value: Result<EvalType, RuntimeErrorKind>) -> Result<
    Number,
    RuntimeErrorKind,
> {
    if node is Char {
        Ok(Number::Int(0))
    } else {
        match value {
            Ok(v) => Ok(number_of(v)),
            Err(k) => Err(k),
        }
    }
}

/// What an expression evaluates to in a state.
///
/// - A number is itself, and a reference to the thought register is what
///   the register holds.
/// - A cast gives the character of the value of its operand.
/// - An operator is applied to the numbers of its two operands, the left one
///   first.
/// - A memory read gives what the memory holds at the index that its operand
///   stands for.
/// - A statement evaluates to the integer zero.
pub open spec fn eval_spec(st: State, node: NodeView) -> Result<EvalType, RuntimeErrorKind>
    decreases node,
{
    match node {
        NodeView::Literal(n) => Ok(value_of(resolve(n, st.thought))),
        NodeView::Char(e) => match eval_spec(st, *e) {
            Err(k) => Err(k),
            Ok(EvalType::Char(c)) => Ok(EvalType::Char(c)),
            Ok(v) => match char_of(index_of(v)) {
                Some(c) => Ok(EvalType::Char(c)),
                None => Err(RuntimeErrorKind::InvalidScalar),
            },
        },
        NodeView::Eval(l, op, r) => match as_operand(*l, eval_spec(st, *l)) {
            Err(k) => Err(k),
            Ok(a) => match as_operand(*r, eval_spec(st, *r)) {
                Err(k) => Err(k),
                Ok(b) => apply_spec(a, op, b),
            },
        },
        NodeView::Out(e) => match eval_spec(st, *e) {
            Err(k) => Err(k),
            Ok(v) => Ok(value_of(read_memory(st.memory, index_of(v)))),
        },
        _ => Ok(EvalType::Int(0)),
    }
}

/// The number that an assignment writes: that of a number, a memory read or
/// an operator; anything else cannot be assigned.
pub open spec fn assigned_spec(st: State, node: NodeView) -> Result<Number, RuntimeErrorKind> {
    match node {
        NodeView::Literal(_) | NodeView::Out(_) | NodeView::Eval(_, _, _) => match eval_spec(
            st,
            node,
        ) {
            Ok(v) => Ok(number_of(v)),
            Err(k) => Err(k),
        },
        _ => Err(RuntimeErrorKind::NonNumericAssign),
    }
}

/// The state after a statement, and whether the statement asks the loop
/// around it to stop, or why the statement failed.
pub struct Outcome {
    pub state: State,
    pub result: Result<bool, RuntimeErrorKind>,
}

/// The outcome of a statement that changes nothing and fails.
pub open spec fn failed(st: State, kind: RuntimeErrorKind) -> Outcome {
    Outcome { state: st, result: Err(kind) }
}

/// The outcome of a statement that ends in a state without asking to stop.
pub open spec fn done(st: State) -> Outcome {
    Outcome { state: st, result: Ok(false) }
}

/// The outcome of one statement in a state.
///
/// `depth` is how many blocks and macro calls may still be entered inside
/// one another, and `limit` how many rounds each loop may run.
///
/// - `print` appends the value of its operand to the output.
/// - `think` writes the value of its operand, which must be a number, to
///   the thought register.
/// - An assignment writes a number to the memory at the index that its
///   first operand stands for; the index is evaluated first.
/// - `run` executes the body of a macro in this state, and passes on a
///   request to stop.
/// - `spawn` notes the name of a macro that exists, and changes nothing else.
/// - `if` executes its block where the value of its condition equals the
///   thought register, and passes on a request to stop.
/// - `loop` executes its block again and again until a statement in it asks
///   to stop; the request ends the loop and goes no further.
/// - `break` asks to stop.
/// - An expression as a statement does nothing.
pub open spec fn exec_spec(st: State, macros: Macros, node: NodeView, depth: nat, limit: nat) -> Outcome
    decreases depth, 0int, 0int,
{
    match node {
        NodeView::Print(e) => match eval_spec(st, *e) {
            Err(k) => failed(st, k),
            Ok(v) => done(State { output: st.output.push(v), ..st }),
        },
        NodeView::Think(e) => match eval_spec(st, *e) {
            Err(k) => failed(st, k),
            Ok(EvalType::Char(_)) => failed(st, RuntimeErrorKind::NotNumeric),
            Ok(v) => done(State { thought: number_of(v), ..st }),
        },
        NodeView::Assign(i, v) => match eval_spec(st, *i) {
            Err(k) => failed(st, k),
            Ok(index) => match assigned_spec(st, *v) {
                Err(k) => failed(st, k),
                Ok(value) => done(State { memory: st.memory.insert(index_of(index), value), ..st }),
            },
        },
        NodeView::Run(name) => if !macros.contains_key(name) {
            failed(st, RuntimeErrorKind::MissingMacro)
        } else if depth == 0 {
            failed(st, RuntimeErrorKind::DepthLimit)
        } else {
            block_exec(st, macros, macros[name], 0, (depth - 1) as nat, limit)
        },
        NodeView::Spawn(name) => if !macros.contains_key(name) {
            failed(st, RuntimeErrorKind::MissingMacro)
        } else {
            done(State { spawned: st.spawned.push(name), ..st })
        },
        NodeView::If(c, body) => match eval_spec(st, *c) {
            Err(k) => failed(st, k),
            Ok(v) => if !matches_thought(v, st.thought) {
                done(st)
            } else if depth == 0 {
                failed(st, RuntimeErrorKind::DepthLimit)
            } else {
                block_exec(st, macros, body, 0, (depth - 1) as nat, limit)
            },
        },
        NodeView::Loop(body) => if depth == 0 {
            failed(st, RuntimeErrorKind::DepthLimit)
        } else {
            loop_exec(st, macros, body, (depth - 1) as nat, limit, limit)
        },
        NodeView::Break => Outcome { state: st, result: Ok(true) },
        _ => done(st),
    }
}

/// The outcome of the statements of a block from the one at `from` on: they
/// are executed in their order, up to the first that fails or asks to stop.
pub open spec fn block_exec(
    st: State,
    macros: Macros,
    nodes: Seq<NodeView>,
    from: int,
    depth: nat,
    limit: nat,
) -> Outcome
    decreases depth, 1int, nodes.len() - from,
{
    if from < 0 || from >= nodes.len() {
        done(st)
    } else {
        let first = exec_spec(st, macros, nodes[from], depth, limit);
        match first.result {
            Ok(false) => block_exec(first.state, macros, nodes, from + 1, depth, limit),
            _ => first,
        }
    }
}

/// The outcome of a loop that may run `rounds` more rounds: the loop ends
/// without a request to stop where a statement of its block asks to stop,
/// and fails where its rounds are used up.
pub open spec fn loop_exec(
    st: State,
    macros: Macros,
    body: Seq<NodeView>,
    depth: nat,
    limit: nat,
    rounds: nat,
) -> Outcome
    decreases depth, 2int, rounds,
{
    if rounds == 0 {
        failed(st, RuntimeErrorKind::StepLimit)
    } else {
        let round = block_exec(st, macros, body, 0, depth, limit);
        match round.result {
            Ok(false) => loop_exec(round.state, macros, body, depth, limit, (rounds - 1) as nat),
            Ok(true) => done(round.state),
            Err(_) => round,
        }
    }
}

/// The state after the top-level statements from the one at `from` on, and
/// the error of the first that fails with the index of that statement. A
/// request to stop outside any loop is ignored.
pub open spec fn stream_exec(
    st: State,
    macros: Macros,
    nodes: Seq<NodeView>,
    from: int,
    depth: nat,
    limit: nat,
) -> (State, Result<(), (RuntimeErrorKind, nat)>)
    decreases nodes.len() - from,
{
    if from < 0 || from >= nodes.len() {
        (st, Ok(()))
    } else {
        let first = exec_spec(st, macros, nodes[from], depth, limit);
        match first.result {
            Ok(_) => stream_exec(first.state, macros, nodes, from + 1, depth, limit),
            Err(kind) => (first.state, Err((kind, from as nat))),
        }
    }
}

} // verus!
