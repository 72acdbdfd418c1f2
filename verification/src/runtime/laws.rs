//! What holds of every program: division, loops and `break`, the memory,
//! tagged equality, and spawned macros.

use crate::parse::node::NodeView;
use crate::runtime::eval::EvalType;
use crate::runtime::semantics::{
    block_exec,
    done,
    eval_spec,
    exec_spec,
    failed,
    loop_exec,
    matches_thought,
    resolve,
    value_of,
    zero_divisor,
    Macros,
    Outcome,
    State,
};
use crate::util::double::{ieee_of_int, ieee_quotient};
use crate::util::err::RuntimeErrorKind;
use crate::util::types::{Number, Operator};
use vstd::prelude::*;

verus! {

/// The expression `a / b` of two numbers.
pub open spec fn quotient_node(a: Number, b: Number) -> NodeView {
    NodeView::Eval(Box::new(NodeView::Literal(a)), Operator::Div, Box::new(NodeView::Literal(b)))
}

/// Dividing an integer by an integer that is not zero gives a double, never
/// an integer: the quotient of the two as doubles.
pub proof fn integer_division_is_double(st: State, a: i64, b: i64)
    requires
        b != 0,
    ensures
        eval_spec(st, quotient_node(Number::Int(a), Number::Int(b))) == Ok::<
            EvalType,
            RuntimeErrorKind,
        >(EvalType::Float(ieee_quotient(ieee_of_int(a), ieee_of_int(b)))),
{
    let l = NodeView::Literal(Number::Int(a));
    let r = NodeView::Literal(Number::Int(b));
    assert(eval_spec(st, l) == Ok::<EvalType, RuntimeErrorKind>(EvalType::Int(a)));
    assert(eval_spec(st, r) == Ok::<EvalType, RuntimeErrorKind>(EvalType::Int(b)));
}

/// Dividing by zero fails, whatever the two operands are: integers or
/// doubles, and a zero of either sign.
pub proof fn division_by_zero_fails(st: State, a: Number, b: Number)
    requires
        st.thought.resolved(),
        zero_divisor(resolve(b, st.thought)),
    ensures
        eval_spec(st, quotient_node(a, b)) == Err::<EvalType, RuntimeErrorKind>(
            RuntimeErrorKind::DivisionByZero,
        ),
{
    let l = NodeView::Literal(a);
    let r = NodeView::Literal(b);
    assert(eval_spec(st, l) == Ok::<EvalType, RuntimeErrorKind>(value_of(resolve(a, st.thought))));
    assert(eval_spec(st, r) == Ok::<EvalType, RuntimeErrorKind>(value_of(resolve(b, st.thought))));
}

/// The statement `if x { break }`.
pub open spec fn break_if(x: Number) -> NodeView {
    NodeView::If(Box::new(NodeView::Literal(x)), seq![NodeView::Break])
}

/// The statement `if x { break }` asks to stop, and changes nothing, where
/// the thought register equals `x`.
pub proof fn break_if_asks_to_stop(st: State, macros: Macros, x: Number, depth: nat, limit: nat)
    requires
        st.thought.resolved(),
        resolve(x, st.thought).tagged_eq(st.thought),
        depth >= 1,
    ensures
        exec_spec(st, macros, break_if(x), depth, limit) == (Outcome { state: st, result: Ok(true) }),
{
    let inner = seq![NodeView::Break];
    let below = (depth - 1) as nat;
    assert(exec_spec(st, macros, inner[0], below, limit) == (Outcome {
        state: st,
        result: Ok(true),
    }));
    assert(block_exec(st, macros, inner, 0, below, limit) == (Outcome {
        state: st,
        result: Ok(true),
    }));
    assert(eval_spec(st, NodeView::Literal(x)) == Ok::<EvalType, RuntimeErrorKind>(
        value_of(resolve(x, st.thought)),
    ));
    assert(matches_thought(value_of(resolve(x, st.thought)), st.thought));
}

/// The program `loop { if x { break } }` ends, and changes nothing, where
/// the thought register equals `x`.
pub proof fn break_ends_loop(st: State, macros: Macros, x: Number, depth: nat, limit: nat)
    requires
        st.thought.resolved(),
        resolve(x, st.thought).tagged_eq(st.thought),
        depth >= 2,
        limit >= 1,
    ensures
        exec_spec(st, macros, NodeView::Loop(seq![break_if(x)]), depth, limit) == done(st),
{
    let body = seq![break_if(x)];
    let below = (depth - 1) as nat;
    break_if_asks_to_stop(st, macros, x, below, limit);
    assert(body[0] == break_if(x));
    assert(block_exec(st, macros, body, 0, below, limit) == (Outcome {
        state: st,
        result: Ok(true),
    }));
    assert(loop_exec(st, macros, body, below, limit, limit) == done(st));
}

/// The program `loop { loop { if x { break } } print 9 }`.
pub open spec fn nested_loops(x: Number) -> NodeView {
    NodeView::Loop(nested_body(x))
}

/// The block of the outer loop of `nested_loops`.
pub open spec fn nested_body(x: Number) -> Seq<NodeView> {
    seq![
        NodeView::Loop(seq![break_if(x)]),
        NodeView::Print(Box::new(NodeView::Literal(Number::Int(9)))),
    ]
}

/// The integer nine, printed `n` times.
pub open spec fn nines(n: nat) -> Seq<EvalType> {
    Seq::new(n, |i: int| EvalType::Int(9))
}

/// However many rounds the outer loop of `nested_loops` may run, it runs
/// them all and prints a nine in each: the `break` ends the inner loop only.
pub proof fn outer_loop_goes_on(
    st: State,
    macros: Macros,
    x: Number,
    depth: nat,
    limit: nat,
    rounds: nat,
)
    requires
        st.thought.resolved(),
        resolve(x, st.thought).tagged_eq(st.thought),
        depth >= 2,
        limit >= 1,
    ensures
        loop_exec(st, macros, nested_body(x), depth, limit, rounds) == failed(
            State { output: st.output + nines(rounds), ..st },
            RuntimeErrorKind::StepLimit,
        ),
    decreases rounds,
{
    let body = nested_body(x);
    if rounds == 0 {
        assert(st.output + nines(0) =~= st.output);
    } else {
        break_ends_loop(st, macros, x, depth, limit);
        assert(body[0] == NodeView::Loop(seq![break_if(x)]));
        let nine = NodeView::Literal(Number::Int(9));
        assert(body[1] == NodeView::Print(Box::new(nine)));
        assert(eval_spec(st, nine) == Ok::<EvalType, RuntimeErrorKind>(EvalType::Int(9)));
        let printed = State { output: st.output.push(EvalType::Int(9)), ..st };
        assert(exec_spec(st, macros, body[1], depth, limit) == done(printed));
        assert(block_exec(printed, macros, body, 2, depth, limit) == done(printed));
        assert(block_exec(st, macros, body, 1, depth, limit) == done(printed));
        assert(block_exec(st, macros, body, 0, depth, limit) == done(printed));
        outer_loop_goes_on(printed, macros, x, depth, limit, (rounds - 1) as nat);
        assert(printed.output + nines((rounds - 1) as nat) =~= st.output + nines(rounds));
    }
}

/// The program `loop { loop { if x { break } } print 9 }` never ends by
/// itself where the thought register equals `x`: it prints a nine in every
/// round that its outer loop is allowed, and stops only at that limit.
pub proof fn inner_break_stays_inside(st: State, macros: Macros, x: Number, depth: nat, limit: nat)
    requires
        st.thought.resolved(),
        resolve(x, st.thought).tagged_eq(st.thought),
        depth >= 3,
    ensures
        exec_spec(st, macros, nested_loops(x), depth, limit) == failed(
            State { output: st.output + nines(limit), ..st },
            RuntimeErrorKind::StepLimit,
        ),
{
    if limit == 0 {
        assert(st.output + nines(0) =~= st.output);
    } else {
        outer_loop_goes_on(st, macros, x, (depth - 1) as nat, limit, limit);
    }
}

/// The statement `i in v`.
pub open spec fn write_node(i: i64, v: Number) -> NodeView {
    NodeView::Assign(Box::new(NodeView::Literal(Number::Int(i))), Box::new(NodeView::Literal(v)))
}

/// The expression `out i`.
pub open spec fn read_node(i: i64) -> NodeView {
    NodeView::Out(Box::new(NodeView::Literal(Number::Int(i))))
}

/// Reading an index at which nothing was written gives the integer zero.
pub proof fn unwritten_reads_zero(st: State, i: i64)
    requires
        !st.memory.contains_key(i),
    ensures
        eval_spec(st, read_node(i)) == Ok::<EvalType, RuntimeErrorKind>(EvalType::Int(0)),
{
    assert(eval_spec(st, NodeView::Literal(Number::Int(i))) == Ok::<EvalType, RuntimeErrorKind>(
        EvalType::Int(i),
    ));
}

/// Reading an index after writing a number there gives that number, an
/// integer as an integer and a double as the same double; every other index
/// reads as before.
pub proof fn write_then_read(
    st: State,
    macros: Macros,
    i: i64,
    v: Number,
    j: i64,
    depth: nat,
    limit: nat,
)
    requires
        v.resolved(),
    ensures
        ({
            let o = exec_spec(st, macros, write_node(i, v), depth, limit);
            &&& o.result == Ok::<bool, RuntimeErrorKind>(false)
            &&& o.state == State { memory: st.memory.insert(i, v), ..st }
            &&& eval_spec(o.state, read_node(i)) == Ok::<EvalType, RuntimeErrorKind>(value_of(v))
            &&& j != i ==> eval_spec(o.state, read_node(j)) == eval_spec(st, read_node(j))
        }),
{
    let index = NodeView::Literal(Number::Int(i));
    let value = NodeView::Literal(v);
    assert(eval_spec(st, index) == Ok::<EvalType, RuntimeErrorKind>(EvalType::Int(i)));
    assert(eval_spec(st, value) == Ok::<EvalType, RuntimeErrorKind>(value_of(v)));
    let after = State { memory: st.memory.insert(i, v), ..st };
    assert(eval_spec(after, index) == Ok::<EvalType, RuntimeErrorKind>(EvalType::Int(i)));
    let other = NodeView::Literal(Number::Int(j));
    assert(eval_spec(after, other) == Ok::<EvalType, RuntimeErrorKind>(EvalType::Int(j)));
    assert(eval_spec(st, other) == Ok::<EvalType, RuntimeErrorKind>(EvalType::Int(j)));
}

/// An integer never equals a double, whatever their values.
pub proof fn tags_tell_apart(a: i64, b: u64)
    ensures
        !Number::Int(a).tagged_eq(Number::Float(b)),
        !Number::Float(b).tagged_eq(Number::Int(a)),
        !matches_thought(EvalType::Int(a), Number::Float(b)),
        !matches_thought(EvalType::Float(b), Number::Int(a)),
        matches_thought(EvalType::Int(a), Number::Int(a)),
{
}

/// Spawning a macro changes neither the thought register nor the memory nor
/// the output of the runner that spawns it: it only notes the name.
pub proof fn spawn_keeps_state(st: State, macros: Macros, name: Seq<char>, depth: nat, limit: nat)
    ensures
        ({
            let o = exec_spec(st, macros, NodeView::Spawn(name), depth, limit);
            &&& o.state.thought == st.thought
            &&& o.state.memory == st.memory
            &&& o.state.output == st.output
            &&& macros.contains_key(name) ==> o.result == Ok::<bool, RuntimeErrorKind>(false)
                && o.state.spawned == st.spawned.push(name)
            &&& !macros.contains_key(name) ==> o.result == Err::<bool, RuntimeErrorKind>(
                RuntimeErrorKind::MissingMacro,
            ) && o.state == st
        }),
{
}

/// Running a macro executes the statements of its body in the state of the
/// caller: what the body writes, the caller reads afterwards.
pub proof fn run_shares_state(st: State, macros: Macros, name: Seq<char>, depth: nat, limit: nat)
    requires
        macros.contains_key(name),
        depth >= 1,
    ensures
        exec_spec(st, macros, NodeView::Run(name), depth, limit) == block_exec(
            st,
            macros,
            macros[name],
            0,
            (depth - 1) as nat,
            limit,
        ),
{
}

} // verus!
