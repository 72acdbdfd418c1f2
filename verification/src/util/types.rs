//! Numbers, operators and keywords.

use crate::runtime::eval::EvalType;
use crate::util::double::{double_eq, double_from_int, ieee_of_int, same_double};
use vstd::prelude::*;
use vstd::string::StrSliceExecFns;

verus! {

/// A number of the language. `Float` holds the IEEE 754 binary64 bit pattern
/// of a double. `Thought` stands for the value that the thought register
/// holds when the number is evaluated.
#[derive(Debug, Copy, Clone)]
pub enum Number {
    Int(i64),
    Float(u64),
    Thought,
}

impl Number {
    /// Equality of numbers with their tags: an integer never equals a double,
    /// doubles are compared as IEEE 754 does, and `Thought` equals `Thought`.
    pub open spec fn tagged_eq(self, other: Number) -> bool {
        match (self, other) {
            (Number::Int(a), Number::Int(b)) => a == b,
            (Number::Float(a), Number::Float(b)) => same_double(a, b),
            (Number::Thought, Number::Thought) => true,
            _ => false,
        }
    }

    /// The number as a double: a double is itself, an integer is the nearest
    /// double, and `Thought` is positive zero.
    pub open spec fn as_double(self) -> u64 {
        match self {
            Number::Float(b) => b,
            Number::Int(n) => ieee_of_int(n),
            Number::Thought => 0,
        }
    }

    /// Whether the number is a value, not a reference to the thought register.
    pub open spec fn resolved(self) -> bool {
        !(self is Thought)
    }

    pub fn is_thought(&self) -> (r: bool)
        ensures
            r == (*self is Thought),
    {
        match self {
            Number::Thought => true,
            _ => false,
        }
    }

    pub fn int_value(&self) -> (r: Option<i64>)
        ensures
            r == (match *self {
                Number::Int(n) => Some(n),
                _ => None,
            }),
    {
        match self {
            Number::Int(n) => Some(*n),
            _ => None,
        }
    }

    pub fn is_int(&self) -> (r: bool)
        ensures
            r == (*self is Int),
    {
        match self {
            Number::Int(_) => true,
            _ => false,
        }
    }

    /// The bit pattern of the number as a double.
    pub fn float(&self) -> (r: u64)
        ensures
            r == self.as_double(),
    {
        match self {
            Number::Float(b) => *b,
            Number::Int(n) => double_from_int(*n),
            Number::Thought => 0,
        }
    }

    pub fn is_float(&self) -> (r: bool)
        ensures
            r == (*self is Float),
    {
        match self {
            Number::Float(_) => true,
            _ => false,
        }
    }

    /// The number as the result of an evaluation; `None` for `Thought`.
    pub fn eval_type(&self) -> (r: Option<EvalType>)
        ensures
            r == (match *self {
                Number::Int(n) => Some(EvalType::Int(n)),
                Number::Float(b) => Some(EvalType::Float(b)),
                Number::Thought => None,
            }),
    {
        match self {
            Number::Int(n) => Some(EvalType::Int(*n)),
            Number::Float(b) => Some(EvalType::Float(*b)),
            Number::Thought => None,
        }
    }
}

impl PartialEq for Number {
    fn eq(&self, other: &Number) -> (r: bool) {
        match (*self, *other) {
            (Number::Int(a), Number::Int(b)) => a == b,
            (Number::Float(a), Number::Float(b)) => double_eq(a, b),
            (Number::Thought, Number::Thought) => true,
            _ => false,
        }
    }
}

impl vstd::std_specs::cmp::PartialEqSpecImpl for Number {
    open spec fn obeys_eq_spec() -> bool {
        true
    }

    open spec fn eq_spec(&self, other: &Number) -> bool {
        self.tagged_eq(*other)
    }
}

/// An infix operator.
#[derive(Debug, Copy, Clone, PartialEq, Eq, Structural)]
pub enum Operator {
    Add,
    Sub,
    Mul,
    Div,
    Exp,
    Mod,
}

impl Operator {
    /// The operator that a sign stands for; `Add` for any other character.
    pub open spec fn of_char(c: char) -> Operator {
        if c == '-' {
            Operator::Sub
        } else if c == '*' {
            Operator::Mul
        } else if c == '/' {
            Operator::Div
        } else if c == '^' {
            Operator::Exp
        } else if c == '%' {
            Operator::Mod
        } else {
            Operator::Add
        }
    }

    /// The sign of an operator.
    pub open spec fn sign(self) -> char {
        match self {
            Operator::Add => '+',
            Operator::Sub => '-',
            Operator::Mul => '*',
            Operator::Div => '/',
            Operator::Exp => '^',
            Operator::Mod => '%',
        }
    }

    pub fn from(c: char) -> (r: Operator)
        ensures
            r == Operator::of_char(c),
    {
        if c == '-' {
            Operator::Sub
        } else if c == '*' {
            Operator::Mul
        } else if c == '/' {
            Operator::Div
        } else if c == '^' {
            Operator::Exp
        } else if c == '%' {
            Operator::Mod
        } else {
            Operator::Add
        }
    }

    pub fn to_char(&self) -> (r: char)
        ensures
            r == self.sign(),
    {
        match self {
            Operator::Add => '+',
            Operator::Sub => '-',
            Operator::Mul => '*',
            Operator::Div => '/',
            Operator::Exp => '^',
            Operator::Mod => '%',
        }
    }

    /// Every operator is the one that its own sign stands for.
    pub proof fn sign_round_trip(op: Operator)
        ensures
            Operator::of_char(op.sign()) == op,
    {
    }
}

/// A reserved word.
#[derive(Debug, Copy, Clone, PartialEq, Eq, Structural)]
pub enum Keyword {
    Think,
    Thought,
    In,
    Out,
    Print,
    If,
    Loop,
    Define,
    Break,
    Char,
    Run,
    Spawn,
}

/// Whether two strings hold the same characters.
pub fn same_text(a: &str, b: &str) -> (r: bool)
    ensures
        r == (a@ == b@),
{
    let n: usize = a.unicode_len();
    if n != b.unicode_len() {
        return false;
    }
    let mut i: usize = 0;
    while i < n
        invariant
            n == a@.len(),
            n == b@.len(),
            i <= n,
            forall|j: int| 0 <= j < i ==> a@[j] == b@[j],
        decreases n - i,
    {
        if a.get_char(i) != b.get_char(i) {
            return false;
        }
        i += 1;
    }
    assert(a@ =~= b@);
    true
}

impl Keyword {
    /// The spelling of a reserved word.
    pub open spec fn text(self) -> Seq<char> {
        match self {
            Keyword::Think => "think"@,
            Keyword::Thought => "thought"@,
            Keyword::In => "in"@,
            Keyword::Out => "out"@,
            Keyword::Print => "print"@,
            Keyword::If => "if"@,
            Keyword::Loop => "loop"@,
            Keyword::Define => "define"@,
            Keyword::Break => "break"@,
            Keyword::Char => "char"@,
            Keyword::Run => "run"@,
            Keyword::Spawn => "spawn"@,
        }
    }

    /// The reserved word that a text spells, if it spells one.
    pub open spec fn of_text(s: Seq<char>) -> Option<Keyword> {
        if s == "think"@ {
            Some(Keyword::Think)
        } else if s == "thought"@ {
            Some(Keyword::Thought)
        } else if s == "print"@ {
            Some(Keyword::Print)
        } else if s == "if"@ {
            Some(Keyword::If)
        } else if s == "loop"@ {
            Some(Keyword::Loop)
        } else if s == "break"@ {
            Some(Keyword::Break)
        } else if s == "define"@ {
            Some(Keyword::Define)
        } else if s == "in"@ {
            Some(Keyword::In)
        } else if s == "out"@ {
            Some(Keyword::Out)
        } else if s == "char"@ {
            Some(Keyword::Char)
        } else if s == "run"@ {
            Some(Keyword::Run)
        } else if s == "spawn"@ {
            Some(Keyword::Spawn)
        } else {
            None
        }
    }

    pub fn from(input: &str) -> (r: Option<Keyword>)
        ensures
            r == Keyword::of_text(input@),
    {
        if same_text(input, "think") {
            Some(Keyword::Think)
        } else if same_text(input, "thought") {
            Some(Keyword::Thought)
        } else if same_text(input, "print") {
            Some(Keyword::Print)
        } else if same_text(input, "if") {
            Some(Keyword::If)
        } else if same_text(input, "loop") {
            Some(Keyword::Loop)
        } else if same_text(input, "break") {
            Some(Keyword::Break)
        } else if same_text(input, "define") {
            Some(Keyword::Define)
        } else if same_text(input, "in") {
            Some(Keyword::In)
        } else if same_text(input, "out") {
            Some(Keyword::Out)
        } else if same_text(input, "char") {
            Some(Keyword::Char)
        } else if same_text(input, "run") {
            Some(Keyword::Run)
        } else if same_text(input, "spawn") {
            Some(Keyword::Spawn)
        } else {
            None
        }
    }

    pub fn to_str(&self) -> (r: &'static str)
        ensures
            r@ == self.text(),
    {
        match self {
            Keyword::Think => "think",
            Keyword::Thought => "thought",
            Keyword::In => "in",
            Keyword::Out => "out",
            Keyword::Print => "print",
            Keyword::If => "if",
            Keyword::Loop => "loop",
            Keyword::Define => "define",
            Keyword::Break => "break",
            Keyword::Char => "char",
            Keyword::Run => "run",
            Keyword::Spawn => "spawn",
        }
    }

    /// The spelling of every reserved word spells that word and no other.
    pub proof fn text_round_trip(k: Keyword)
        ensures
            Keyword::of_text(k.text()) == Some(k),
    {
        reveal_strlit("think");
        reveal_strlit("thought");
        reveal_strlit("in");
        reveal_strlit("out");
        reveal_strlit("print");
        reveal_strlit("if");
        reveal_strlit("loop");
        reveal_strlit("define");
        reveal_strlit("break");
        reveal_strlit("char");
        reveal_strlit("run");
        reveal_strlit("spawn");
        let t = k.text();
        assert("think"@.len() == 5 && "thought"@.len() == 7 && "in"@.len() == 2);
        assert("out"@.len() == 3 && "print"@.len() == 5 && "if"@.len() == 2);
        assert("loop"@.len() == 4 && "define"@.len() == 6 && "break"@.len() == 5);
        assert("char"@.len() == 4 && "run"@.len() == 3 && "spawn"@.len() == 5);
        assert("think"@[0] == 't' && "print"@[0] == 'p' && "break"@[0] == 'b' && "spawn"@[0] == 's');
        assert("in"@[1] == 'n' && "if"@[1] == 'f');
        assert("out"@[0] == 'o' && "run"@[0] == 'r');
        assert("loop"@[0] == 'l' && "char"@[0] == 'c');
    }
}

} // verus!
