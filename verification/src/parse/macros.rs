//! The table of macros: from a name to the statements of its body.

use crate::parse::node::{node_views, Node, NodeView};
use crate::util::types::same_text;
use vstd::prelude::*;

verus! {

/// The table that a sequence of definitions builds: each definition replaces
/// any earlier one of the same name.
pub open spec fn entries_map(entries: Seq<(String, Box<Vec<Node>>)>) -> Map<
    Seq<char>,
    Seq<NodeView>,
>
    decreases entries.len(),
{
    if entries.len() == 0 {
        Map::empty()
    } else {
        entries_map(entries.drop_last()).insert(entries.last().0@, node_views(entries.last().1@))
    }
}

/// A name is in the table exactly if some definition has it, and then the
/// table holds the body of the last such definition.
pub proof fn entries_lookup(entries: Seq<(String, Box<Vec<Node>>)>, name: Seq<char>, i: int)
    requires
        -1 <= i < entries.len(),
        forall|j: int| i < j < entries.len() ==> (#[trigger] entries[j]).0@ != name,
        i >= 0 ==> entries[i].0@ == name,
        i < 0 ==> forall|j: int| 0 <= j < entries.len() ==> (#[trigger] entries[j]).0@ != name,
    ensures
        i >= 0 ==> entries_map(entries).contains_key(name) && entries_map(entries)[name]
            == node_views(entries[i].1@),
        i < 0 ==> !entries_map(entries).contains_key(name),
    decreases entries.len(),
{
    if entries.len() > 0 {
        let last = entries.len() - 1;
        if i < last {
            assert(entries[last].0@ != name);
            let front = entries.drop_last();
            assert forall|j: int| i < j < front.len() implies (#[trigger] front[j]).0@ != name by {
                assert(front[j] == entries[j]);
            }
            if i < 0 {
                assert forall|j: int| 0 <= j < front.len() implies (#[trigger] front[j]).0@
                    != name by {
                    assert(front[j] == entries[j]);
                }
            } else {
                assert(front[i] == entries[i]);
            }
            entries_lookup(front, name, i);
        }
    }
}

/// The macros of a program, by name.
#[derive(Debug, Clone, PartialEq)]
pub struct MacroTable {
    entries: Vec<(String, Box<Vec<Node>>)>,
}

impl View for MacroTable {
    type V = Map<Seq<char>, Seq<NodeView>>;

    closed spec fn view(&self) -> Map<Seq<char>, Seq<NodeView>> {
        entries_map(self.entries@)
    }
}

impl MacroTable {
    /// A table without macros.
    pub fn new() -> (r: Self)
        ensures
            r@ == Map::<Seq<char>, Seq<NodeView>>::empty(),
    {
        Self { entries: Vec::new() }
    }

    /// Defines a macro; a macro that had the name is replaced.
    pub fn insert(&mut self, name: String, body: Box<Vec<Node>>)
        ensures
            final(self)@ == old(self)@.insert(name@, node_views(body@)),
    {
        self.entries.push((name, body));
        assert(self.entries@.drop_last() =~= old(self).entries@);
    }

    /// The body of the macro with a name, if there is one.
    pub fn get(&self, name: &str) -> (r: Option<&Vec<Node>>)
        ensures
            match r {
                Some(body) => self@.contains_key(name@) && self@[name@] == node_views(body@),
                None => !self@.contains_key(name@),
            },
    {
        let mut i: usize = self.entries.len();
        while i > 0
            invariant
                i <= self.entries.len(),
                forall|j: int| i <= j < self.entries.len() ==> (#[trigger] self.entries@[j]).0@ != name@,
            decreases i,
        {
            i -= 1;
            if same_text(self.entries[i].0.as_str(), name) {
                proof {
                    entries_lookup(self.entries@, name@, i as int);
                }
                return Some(&*self.entries[i].1);
            }
        }
        proof {
            entries_lookup(self.entries@, name@, -1);
        }
        None
    }

    /// Whether the table has no macro.
    pub fn is_empty(&self) -> (r: bool)
        ensures
            r == (self@ == Map::<Seq<char>, Seq<NodeView>>::empty()),
    {
        proof {
            if self.entries@.len() > 0 {
                let last = self.entries@.last();
                assert(self@.contains_key(last.0@));
                assert(!Map::<Seq<char>, Seq<NodeView>>::empty().contains_key(last.0@));
            }
        }
        self.entries.len() == 0
    }
}

} // verus!
