//! Building a syntax tree from the events of a depth-first walk.
//!
//! A walk over a parsed file enters an item, walks what is nested in it, and
//! leaves it. The builder keeps one list of finished nodes for the file and
//! one for each item that is entered and not yet left. Leaving an item turns
//! its list into the children of a node, which joins the list below.

use vstd::prelude::*;
use crate::syntax::{ItemKind, SyntaxNode, SyntaxTree};

verus! {

/// The nodes that each list of a builder holds, the list of the file first.
pub open spec fn frames(open: Seq<Vec<SyntaxNode>>) -> Seq<Seq<SyntaxNode>> {
    Seq::new(open.len(), |i: int| open[i]@)
}

/// Collects the nodes of a syntax tree while the tree is walked.
pub struct TreeBuilder {
    open: Vec<Vec<SyntaxNode>>,
}

impl View for TreeBuilder {
    type V = Seq<Seq<SyntaxNode>>;

    closed spec fn view(&self) -> Seq<Seq<SyntaxNode>> {
        frames(self.open@)
    }
}

impl TreeBuilder {
    /// The number of items that are entered and not yet left.
    pub open spec fn depth(&self) -> int {
        self@.len() - 1
    }

    /// A builder at the start of a file: no item is open and no node is
    /// finished.
    pub fn new() -> (builder: TreeBuilder)
        ensures
            builder@ == seq![Seq::<SyntaxNode>::empty()],
    {
        let mut open: Vec<Vec<SyntaxNode>> = Vec::new();
        open.push(Vec::new());
        let builder = TreeBuilder { open };
        assert(builder@ =~= seq![Seq::<SyntaxNode>::empty()]);
        builder
    }

    /// Enters an item: what is found from now on is nested in it.
    pub fn enter(&mut self)
        ensures
            final(self)@ == old(self)@.push(Seq::<SyntaxNode>::empty()),
    {
        self.open.push(Vec::new());
        assert(self@ =~= old(self)@.push(Seq::<SyntaxNode>::empty()));
    }

    /// Leaves the item that was entered last, which is of kind `kind`: the
    /// nodes found since it was entered become the children of its node, and
    /// the node joins the list below. Returns whether an item was open;
    /// where none was, nothing changes.
    pub fn close(&mut self, kind: ItemKind) -> (closed: bool)
        ensures
            closed == (old(self).depth() >= 1),
            !closed ==> final(self)@ == old(self)@,
            closed ==> {
                let before = old(self)@;
                let after = final(self)@;
                let depth = old(self).depth();
                &&& after.len() == before.len() - 1
                &&& after.take(depth - 1) == before.take(depth - 1)
                &&& after[depth - 1].len() == before[depth - 1].len() + 1
                &&& after[depth - 1].drop_last() == before[depth - 1]
                &&& after[depth - 1].last().kind == kind
                &&& after[depth - 1].last().children@ == before[depth]
            },
    {
        if self.open.len() < 2 {
            return false;
        }
        let ghost before = self@;
        let children = self.open.pop().unwrap();
        let mut siblings = self.open.pop().unwrap();
        siblings.push(SyntaxNode { kind, children });
        self.open.push(siblings);
        proof {
            let depth = before.len() - 1;
            assert(self@.take(depth - 1) =~= before.take(depth - 1));
            assert(self@[depth - 1].drop_last() =~= before[depth - 1]);
        }
        true
    }

    /// Ends the file. The tree holds the finished nodes in the order in which
    /// their items were left; there is none while an item is still open.
    pub fn finish(self) -> (tree: Option<SyntaxTree>)
        ensures
            tree is Some <==> self.depth() == 0,
            tree matches Some(built) ==> built.items@ == self@[0],
    {
        let mut open = self.open;
        if open.len() != 1 {
            return None;
        }
        let items = open.pop().unwrap();
        Some(SyntaxTree { items })
    }
}

} // verus!
