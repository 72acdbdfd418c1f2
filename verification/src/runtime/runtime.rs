//! The runner: a thought register and a memory, and the statements that
//! change them.

use crate::parse::macros::MacroTable;
use crate::parse::node::{block_views, node_views, Node};
use crate::runtime::eval::EvalType;
use crate::runtime::semantics::{
    assigned_spec,
    block_exec,
    exec_spec,
    failed,
    fresh,
    loop_exec,
    matches_thought,
    read_memory,
    resolved_state,
    stream_exec,
    State,
};
use crate::util::double::{double_floor, ieee_floor};
use crate::util::err::{RuntimeError, RuntimeErrorKind};
use crate::util::types::Number;
use std::collections::HashMap;
use vstd::prelude::*;

verus! {

broadcast use vstd::std_specs::hash::group_hash_axioms;

/// How many blocks and macro calls a new runner lets stand inside one
/// another.
pub const DEFAULT_DEPTH: usize = 500;

/// The characters of each of a sequence of names.
pub open spec fn names_view(names: Seq<String>) -> Seq<Seq<char>> {
    names.map_values(|s: String| s@)
}

/// The state of one execution: of the main program, or of one spawned macro.
pub struct Runner {
    /// The memory: what was written at each index.
    pub stack: HashMap<i64, Number>,
    /// The thought register.
    pub thought: Number,
    /// The index of the top-level statement that is being executed.
    pub expr: usize,
    /// How many rounds a loop may run before it fails.
    pub limit: u64,
    /// How many blocks and macro calls may stand inside one another.
    pub depth: usize,
    /// What has been printed, in its order.
    pub output: Vec<EvalType>,
    /// The names of the macros that have been spawned, in their order.
    pub spawned: Vec<String>,
}

impl View for Runner {
    type V = State;

    open spec fn view(&self) -> State {
        State {
            thought: self.thought,
            memory: self.stack@,
            output: self.output@,
            spawned: names_view(self.spawned@),
        }
    }
}

impl Runner {
    /// The thought register and the memory hold values only.
    pub open spec fn wf(&self) -> bool {
        resolved_state(self@)
    }

    /// Whether the runner has the limits and the statement index of another.
    pub open spec fn follows(&self, before: &Self) -> bool {
        &&& self.wf()
        &&& self.expr == before.expr
        &&& self.limit == before.limit
        &&& self.depth == before.depth
    }

    /// A runner in the starting state, whose loops may run as many rounds as
    /// a 64-bit number can count.
    pub fn new() -> (r: Self)
        ensures
            r.wf(),
            r@ == fresh(),
            r.expr == 0,
            r.limit == u64::MAX,
            r.depth == DEFAULT_DEPTH,
    {
        let r = Self {
            stack: HashMap::new(),
            thought: Number::Int(0),
            expr: 0,
            limit: u64::MAX,
            depth: DEFAULT_DEPTH,
            output: Vec::new(),
            spawned: Vec::new(),
        };
        assert(names_view(r.spawned@) =~= Seq::empty());
        r
    }

    /// An error of a kind, at the statement that is being executed.
    pub fn fail(&self, kind: RuntimeErrorKind) -> (r: RuntimeError)
        ensures
            r.kind == kind,
            r.index == self.expr,
    {
        RuntimeError { kind, index: self.expr }
    }

    /// What the memory holds at an index.
    pub fn read(&self, index: i64) -> (r: Number)
        ensures
            r == read_memory(self@.memory, index),
    {
        match self.stack.get(&index) {
            Some(n) => *n,
            None => Number::Int(0),
        }
    }

    /// What the memory holds at the index that a number stands for: an
    /// integer is itself, a double is rounded down, and a reference to the
    /// thought register is zero.
    pub fn stack_get(&self, i: Number) -> (r: Number)
        ensures
            r == read_memory(
                self@.memory,
                match i {
                    Number::Int(n) => n,
                    Number::Float(b) => ieee_floor(b),
                    Number::Thought => 0,
                },
            ),
    {
        let index: i64 = match i {
            Number::Int(n) => n,
            Number::Float(b) => double_floor(b),
            Number::Thought => 0,
        };
        self.read(index)
    }

    /// Whether a value equals the thought register, tag and all.
    pub fn matches(&self, v: EvalType) -> (r: bool)
        ensures
            r == matches_thought(v, self@.thought),
    {
        match v {
            EvalType::Int(i) => Number::Int(i) == self.thought,
            EvalType::Float(b) => Number::Float(b) == self.thought,
            EvalType::Char(_) => false,
        }
    }

    /// The number that an assignment of an expression writes.
    pub fn assigned(&self, node: &Node) -> (r: Result<Number, RuntimeError>)
        requires
            self.wf(),
        ensures
            match r {
                Ok(n) => assigned_spec(self@, node@) == Ok::<Number, RuntimeErrorKind>(n)
                    && n.resolved(),
                Err(e) => assigned_spec(self@, node@) == Err::<Number, RuntimeErrorKind>(e.kind)
                    && e.index == self.expr,
            },
    {
        match node {
            Node::Literal(_) | Node::Out(_) | Node::Eval(_, _, _) => match self.eval(node) {
                Ok(EvalType::Int(i)) => Ok(Number::Int(i)),
                Ok(EvalType::Float(b)) => Ok(Number::Float(b)),
                Ok(EvalType::Char(_)) => Ok(Number::Int(0)),
                Err(e) => Err(e),
            },
            _ => Err(self.fail(RuntimeErrorKind::NonNumericAssign)),
        }
    }

    /// Executes one statement. `depth` is how many blocks and macro calls
    /// may still be entered inside one another. The result says whether the
    /// statement asks the loop around it to stop.
    pub fn exec(&mut self, node: &Node, macros: &MacroTable, depth: usize) -> (r: Result<
        bool,
        RuntimeError,
    >)
        requires
            old(self).wf(),
        ensures
            final(self).follows(old(self)),
            ({
                let o = exec_spec(
                    old(self)@,
                    macros@,
                    node@,
                    depth as nat,
                    old(self).limit as nat,
                );
                &&& final(self)@ == o.state
                &&& match r {
                    Ok(stop) => o.result == Ok::<bool, RuntimeErrorKind>(stop),
                    Err(e) => o.result == Err::<bool, RuntimeErrorKind>(e.kind) && e.index == old(
                        self,
                    ).expr,
                }
            }),
        decreases depth, 0int,
    {
        proof {
            block_views(*node);
        }
        match node {
            Node::Print(e) => match self.eval(e) {
                Err(e) => Err(e),
                Ok(v) => {
                    self.output.push(v);
                    Ok(false)
                },
            },
            Node::Think(e) => match self.eval(e) {
                Err(e) => Err(e),
                Ok(EvalType::Char(_)) => Err(self.fail(RuntimeErrorKind::NotNumeric)),
                Ok(EvalType::Int(i)) => {
                    self.thought = Number::Int(i);
                    Ok(false)
                },
                Ok(EvalType::Float(b)) => {
                    self.thought = Number::Float(b);
                    Ok(false)
                },
            },
            Node::Assign(i, v) => {
                let index = match self.eval(i) {
                    Ok(index) => index.to_index(),
                    Err(e) => {
                        return Err(e);
                    },
                };
                let value = match self.assigned(v) {
                    Ok(value) => value,
                    Err(e) => {
                        return Err(e);
                    },
                };
                self.stack.insert(index, value);
                Ok(false)
            },
            Node::Run(name) => match macros.get(name.as_str()) {
                None => Err(self.fail(RuntimeErrorKind::MissingMacro)),
                Some(body) => if depth == 0 {
                    Err(self.fail(RuntimeErrorKind::DepthLimit))
                } else {
                    self.exec_block(body, macros, depth - 1)
                },
            },
            Node::Spawn(name) => match macros.get(name.as_str()) {
                None => Err(self.fail(RuntimeErrorKind::MissingMacro)),
                Some(_) => {
                    let spawned = name.clone();
                    proof {
                        assert(names_view(self.spawned@.push(spawned)) =~= names_view(
                            self.spawned@,
                        ).push(name@));
                    }
                    self.spawned.push(spawned);
                    Ok(false)
                },
            },
            Node::If(c, body) => match self.eval(c) {
                Err(e) => Err(e),
                Ok(v) => if !self.matches(v) {
                    Ok(false)
                } else if depth == 0 {
                    Err(self.fail(RuntimeErrorKind::DepthLimit))
                } else {
                    self.exec_block(body, macros, depth - 1)
                },
            },
            Node::Loop(body) => if depth == 0 {
                Err(self.fail(RuntimeErrorKind::DepthLimit))
            } else {
                self.exec_loop(body, macros, depth - 1)
            },
            Node::Break => Ok(true),
            _ => Ok(false),
        }
    }

    /// Executes the statements of a block in their order, up to the first
    /// that fails or asks to stop.
    pub fn exec_block(&mut self, nodes: &Vec<Node>, macros: &MacroTable, depth: usize) -> (r:
        Result<bool, RuntimeError>)
        requires
            old(self).wf(),
        ensures
            final(self).follows(old(self)),
            ({
                let o = block_exec(
                    old(self)@,
                    macros@,
                    node_views(nodes@),
                    0,
                    depth as nat,
                    old(self).limit as nat,
                );
                &&& final(self)@ == o.state
                &&& match r {
                    Ok(stop) => o.result == Ok::<bool, RuntimeErrorKind>(stop),
                    Err(e) => o.result == Err::<bool, RuntimeErrorKind>(e.kind) && e.index == old(
                        self,
                    ).expr,
                }
            }),
        decreases depth, 1int,
    {
        let ghost views = node_views(nodes@);
        let ghost whole = block_exec(old(self)@, macros@, views, 0, depth as nat, self.limit as nat);
        let mut i: usize = 0;
        while i < nodes.len()
            invariant
                self.follows(old(self)),
                i <= nodes.len(),
                views == node_views(nodes@),
                whole == block_exec(old(self)@, macros@, views, 0, depth as nat, self.limit as nat),
                whole == block_exec(self@, macros@, views, i as int, depth as nat, self.limit as nat),
            decreases nodes.len() - i,
        {
            match self.exec(&nodes[i], macros, depth) {
                Ok(false) => {},
                Ok(true) => {
                    return Ok(true);
                },
                Err(e) => {
                    return Err(e);
                },
            }
            i += 1;
        }
        Ok(false)
    }

    /// Executes the block of a loop again and again, until a statement in
    /// it asks to stop or the rounds that the runner allows are used up.
    pub fn exec_loop(&mut self, body: &Vec<Node>, macros: &MacroTable, depth: usize) -> (r:
        Result<bool, RuntimeError>)
        requires
            old(self).wf(),
        ensures
            final(self).follows(old(self)),
            ({
                let o = loop_exec(
                    old(self)@,
                    macros@,
                    node_views(body@),
                    depth as nat,
                    old(self).limit as nat,
                    old(self).limit as nat,
                );
                &&& final(self)@ == o.state
                &&& match r {
                    Ok(stop) => o.result == Ok::<bool, RuntimeErrorKind>(stop),
                    Err(e) => o.result == Err::<bool, RuntimeErrorKind>(e.kind) && e.index == old(
                        self,
                    ).expr,
                }
            }),
        decreases depth, 2int,
    {
        let ghost views = node_views(body@);
        let ghost whole = loop_exec(
            old(self)@,
            macros@,
            views,
            depth as nat,
            self.limit as nat,
            self.limit as nat,
        );
        let mut rounds: u64 = self.limit;
        while rounds > 0
            invariant
                self.follows(old(self)),
                views == node_views(body@),
                whole == loop_exec(
                    old(self)@,
                    macros@,
                    views,
                    depth as nat,
                    self.limit as nat,
                    self.limit as nat,
                ),
                whole == loop_exec(
                    self@,
                    macros@,
                    views,
                    depth as nat,
                    self.limit as nat,
                    rounds as nat,
                ),
            decreases rounds,
        {
            rounds -= 1;
            match self.exec_block(body, macros, depth) {
                Ok(false) => {},
                Ok(true) => {
                    return Ok(false);
                },
                Err(e) => {
                    return Err(e);
                },
            }
        }
        Err(self.fail(RuntimeErrorKind::StepLimit))
    }

    /// Executes top-level statements in their order, up to the first that
    /// fails. Each is executed under its index in the sequence. A request to
    /// stop outside any loop is ignored.
    pub fn execute(&mut self, nodes: &Vec<Node>, macros: &MacroTable) -> (r: Result<
        (),
        RuntimeError,
    >)
        requires
            old(self).wf(),
        ensures
            final(self).wf(),
            final(self).limit == old(self).limit,
            final(self).depth == old(self).depth,
            ({
                let o = stream_exec(
                    old(self)@,
                    macros@,
                    node_views(nodes@),
                    0,
                    old(self).depth as nat,
                    old(self).limit as nat,
                );
                &&& final(self)@ == o.0
                &&& match r {
                    Ok(_) => o.1 is Ok,
                    Err(e) => o.1 == Err::<(), (RuntimeErrorKind, nat)>((e.kind, e.index as nat))
                        && final(self).expr == e.index,
                }
            }),
    {
        let ghost views = node_views(nodes@);
        let ghost whole = stream_exec(
            old(self)@,
            macros@,
            views,
            0,
            self.depth as nat,
            self.limit as nat,
        );
        let mut i: usize = 0;
        while i < nodes.len()
            invariant
                self.wf(),
                self.limit == old(self).limit,
                self.depth == old(self).depth,
                i <= nodes.len(),
                views == node_views(nodes@),
                whole == stream_exec(
                    old(self)@,
                    macros@,
                    views,
                    0,
                    self.depth as nat,
                    self.limit as nat,
                ),
                whole == stream_exec(
                    self@,
                    macros@,
                    views,
                    i as int,
                    self.depth as nat,
                    self.limit as nat,
                ),
            decreases nodes.len() - i,
        {
            self.expr = i;
            let depth = self.depth;
            match self.exec(&nodes[i], macros, depth) {
                Ok(_) => {},
                Err(e) => {
                    return Err(e);
                },
            }
            i += 1;
        }
        Ok(())
    }

    /// Runs a program: its top-level statements in their order, with its
    /// macros, if it has any.
    pub fn run(&mut self, nodes: Vec<Node>, macros: Option<MacroTable>) -> (r: Result<
        (),
        RuntimeError,
    >)
        requires
            old(self).wf(),
        ensures
            final(self).wf(),
            final(self).limit == old(self).limit,
            final(self).depth == old(self).depth,
            ({
                let table = match macros {
                    Some(t) => t@,
                    None => Map::empty(),
                };
                let o = stream_exec(
                    old(self)@,
                    table,
                    node_views(nodes@),
                    0,
                    old(self).depth as nat,
                    old(self).limit as nat,
                );
                &&& final(self)@ == o.0
                &&& match r {
                    Ok(_) => o.1 is Ok,
                    Err(e) => o.1 == Err::<(), (RuntimeErrorKind, nat)>((e.kind, e.index as nat))
                        && final(self).expr == e.index,
                }
            }),
    {
        let table = match macros {
            Some(t) => t,
            None => MacroTable::new(),
        };
        self.execute(&nodes, &table)
    }

    /// The outcome of the spawned tasks, given for each whether it failed to
    /// run to its end: an error where any did.
    pub fn wait_for_threads(&self, panicked: &Vec<bool>) -> (r: Result<(), RuntimeError>)
        ensures
            match r {
                Ok(_) => forall|i: int| 0 <= i < panicked@.len() ==> !panicked@[i],
                Err(e) => e.kind == RuntimeErrorKind::TaskFailed && e.index == self.expr
                    && exists|i: int| 0 <= i < panicked@.len() && panicked@[i],
            },
    {
        let mut i: usize = 0;
        while i < panicked.len()
            invariant
                i <= panicked.len(),
                forall|j: int| 0 <= j < i ==> !panicked@[j],
            decreases panicked.len() - i,
        {
            if panicked[i] {
                return Err(self.fail(RuntimeErrorKind::TaskFailed));
            }
            i += 1;
        }
        Ok(())
    }
}

} // verus!
