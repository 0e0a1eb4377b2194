//! An owned model of a concrete syntax tree.
//!
//! Nodes are stored in an arena; each node records its kind, its span and
//! the arena indices of its children.  Every child index is strictly greater
//! than its parent's index, and every child's span lies inside its parent's,
//! so traversals terminate and span containment holds along every path.

use vstd::prelude::*;

use crate::span::Span;
use crate::text::str_eq;

verus! {

/// One node of a [`SyntaxTree`]: its grammar kind, its extent in the source,
/// and the arena indices of its children, left to right.
pub struct TreeNode {
    pub kind: String,
    pub span: Span,
    pub children: Vec<usize>,
}

/// An owned syntax tree.  Node 0 is the root whenever the tree is not empty.
pub struct SyntaxTree {
    nodes: Vec<TreeNode>,
}

/// The ways [`SyntaxTree::add_node`] can reject a node.
#[derive(Clone, Copy, Debug, PartialEq, Eq, Structural)]
pub enum TreeError {
    /// The span's byte range is reversed.
    SpanReversed,
    /// The named parent index does not exist.
    NoSuchParent,
    /// The node's span is not contained in its parent's span.
    NotContained,
    /// A second root was offered, or a parent was named for the first node.
    RootMismatch,
}

impl SyntaxTree {
    /// The sequence of nodes in the arena.
    pub closed spec fn spec_nodes(self) -> Seq<TreeNode> {
        self.nodes@
    }

    pub open spec fn spec_len(self) -> nat {
        self.spec_nodes().len()
    }

    /// Well-formedness of the node at index `i`: its span is not reversed and
    /// each of its children has a larger index, lies in the arena, and has a
    /// span contained in this node's span.
    pub open spec fn wf_at(self, i: int) -> bool {
        &&& self.spec_nodes()[i].span.wf()
        &&& forall|j: int|
            0 <= j < self.spec_nodes()[i].children@.len() ==> {
                let c = #[trigger] self.spec_nodes()[i].children@[j];
                &&& i < c < self.spec_nodes().len()
                &&& self.spec_nodes()[i].span.spec_contains(self.spec_nodes()[c as int].span)
            }
    }

    /// Well-formedness of the whole tree.
    pub open spec fn wf(self) -> bool {
        forall|i: int| 0 <= i < self.spec_nodes().len() ==> self.wf_at(i)
    }

    /// An empty tree.
    pub fn new() -> (t: SyntaxTree)
        ensures
            t.wf(),
            t.spec_len() == 0,
    {
        SyntaxTree { nodes: Vec::new() }
    }

    /// Appends a node.  The first node must come without a parent and becomes
    /// the root; every later node names an existing parent whose span must
    /// contain the new node's span.  On success the new node's index is
    /// returned and the parent's child list gains that index at its end.
    pub fn add_node(&mut self, parent: Option<usize>, kind: &str, span: Span) -> (r: Result<
        usize,
        TreeError,
    >)
        requires
            old(self).wf(),
            old(self).spec_len() < usize::MAX,
        ensures
            final(self).wf(),
            match r {
                Ok(i) => {
                    &&& span.wf()
                    &&& i == old(self).spec_len()
                    &&& final(self).spec_len() == old(self).spec_len() + 1
                    &&& final(self).spec_nodes()[i as int].kind@ == kind@
                    &&& final(self).spec_nodes()[i as int].span == span
                    &&& final(self).spec_nodes()[i as int].children@.len() == 0
                    &&& match parent {
                        Some(p) => {
                            &&& p < old(self).spec_len()
                            &&& old(self).spec_nodes()[p as int].span.spec_contains(span)
                            &&& final(self).spec_nodes()[p as int].kind == old(self).spec_nodes()[p as int].kind
                            &&& final(self).spec_nodes()[p as int].span == old(self).spec_nodes()[p as int].span
                            &&& final(self).spec_nodes()[p as int].children@ == old(
                                self,
                            ).spec_nodes()[p as int].children@.push(i)
                            &&& forall|q: int|
                                0 <= q < old(self).spec_len() && q != p
                                    ==> final(self).spec_nodes()[q] == old(self).spec_nodes()[q]
                        },
                        None => {
                            &&& old(self).spec_len() == 0
                            &&& i == 0
                        },
                    }
                },
                Err(e) => {
                    &&& *final(self) == *old(self)
                    &&& match e {
                        TreeError::SpanReversed => !span.wf(),
                        TreeError::RootMismatch => span.wf() && (parent is Some) == (old(
                            self,
                        ).spec_len() == 0),
                        TreeError::NoSuchParent => span.wf() && (parent matches Some(p) && p
                            >= old(self).spec_len()),
                        TreeError::NotContained => span.wf() && (parent matches Some(p) && p < old(
                            self,
                        ).spec_len() && !old(self).spec_nodes()[p as int].span.spec_contains(
                            span,
                        )),
                    }
                },
            },
    {
        if span.end_byte < span.start_byte {
            return Err(TreeError::SpanReversed);
        }
        let n = self.nodes.len();
        match parent {
            None => {
                if n != 0 {
                    return Err(TreeError::RootMismatch);
                }
                self.nodes.push(
                    TreeNode { kind: kind.to_owned(), span, children: Vec::new() },
                );
                assert forall|i: int| 0 <= i < self.nodes@.len() implies self.wf_at(i) by {
                    assert(old(self).wf());
                }
                Ok(0)
            },
            Some(p) => {
                if n == 0 {
                    return Err(TreeError::RootMismatch);
                }
                if p >= n {
                    return Err(TreeError::NoSuchParent);
                }
                let parent_span = self.nodes[p].span;
                if !parent_span.contains(&span) {
                    return Err(TreeError::NotContained);
                }
                self.nodes.push(
                    TreeNode { kind: kind.to_owned(), span, children: Vec::new() },
                );
                let child_lists = &mut self.nodes[p].children;
                child_lists.push(n);
                assert forall|i: int| 0 <= i < self.nodes@.len() implies self.wf_at(i) by {
                    assert(old(self).wf());
                    if i < old(self).spec_len() {
                        assert(old(self).wf_at(i));
                    }
                }
                Ok(n)
            },
        }
    }

    /// The number of nodes.
    pub fn len(&self) -> (r: usize)
        ensures
            r == self.spec_len(),
    {
        self.nodes.len()
    }

    /// The grammar kind of node `i`.
    pub fn kind_of(&self, i: usize) -> (r: &str)
        requires
            i < self.spec_len(),
        ensures
            r@ == self.spec_nodes()[i as int].kind@,
    {
        self.nodes[i].kind.as_str()
    }

    /// The span of node `i`.
    pub fn span_of(&self, i: usize) -> (r: Span)
        requires
            i < self.spec_len(),
        ensures
            r == self.spec_nodes()[i as int].span,
    {
        self.nodes[i].span
    }

    /// How many children node `i` has.
    pub fn child_count_of(&self, i: usize) -> (r: usize)
        requires
            i < self.spec_len(),
        ensures
            r == self.spec_nodes()[i as int].children@.len(),
    {
        self.nodes[i].children.len()
    }

    /// The arena index of the `j`-th child of node `i`.
    pub fn child_of(&self, i: usize, j: usize) -> (r: usize)
        requires
            i < self.spec_len(),
            j < self.spec_nodes()[i as int].children@.len(),
        ensures
            r == self.spec_nodes()[i as int].children@[j as int],
            self.wf() ==> i < r < self.spec_len(),
    {
        proof {
            if self.wf() {
                assert(self.wf_at(i as int));
            }
        }
        self.nodes[i].children[j]
    }
}

impl SyntaxTree {
    /// The first child of node `i`, at child position `j` or later, whose
    /// kind is `k1` or `k2`.
    pub open spec fn spec_scan_child_kind2(self, i: int, j: int, k1: Seq<char>, k2: Seq<char>) -> Option<int>
        decreases self.spec_nodes()[i].children@.len() - j,
        when 0 <= j
    {
        if j >= self.spec_nodes()[i].children@.len() {
            None
        } else {
            let c = self.spec_nodes()[i].children@[j];
            if self.spec_nodes()[c as int].kind@ == k1 || self.spec_nodes()[c as int].kind@ == k2 {
                Some(c as int)
            } else {
                self.spec_scan_child_kind2(i, j + 1, k1, k2)
            }
        }
    }

    /// The first child of node `i` whose kind is `k1` or `k2`.
    pub open spec fn spec_first_child_kind2(self, i: int, k1: Seq<char>, k2: Seq<char>) -> Option<int> {
        self.spec_scan_child_kind2(i, 0, k1, k2)
    }

    /// The first child of node `i` whose kind is `k`.
    pub open spec fn spec_first_child_kind(self, i: int, k: Seq<char>) -> Option<int> {
        self.spec_first_child_kind2(i, k, k)
    }

    /// Finds the first child of node `i` whose kind is `k1` or `k2`.
    pub fn first_child_with_kind2(&self, i: usize, k1: &str, k2: &str) -> (r: Option<usize>)
        requires
            self.wf(),
            i < self.spec_len(),
        ensures
            match r {
                Some(a) => {
                    &&& Some(a as int) == self.spec_first_child_kind2(i as int, k1@, k2@)
                    &&& i < a < self.spec_len()
                    &&& self.spec_nodes()[i as int].span.spec_contains(self.spec_nodes()[a as int].span)
                    &&& self.spec_nodes()[a as int].kind@ == k1@ || self.spec_nodes()[a as int].kind@
                        == k2@
                },
                None => self.spec_first_child_kind2(i as int, k1@, k2@) is None,
            },
    {
        let n = self.child_count_of(i);
        let mut j: usize = 0;
        while j < n
            invariant
                self.wf(),
                i < self.spec_len(),
                j <= n,
                n == self.spec_nodes()[i as int].children@.len(),
                self.spec_scan_child_kind2(i as int, 0, k1@, k2@) == self.spec_scan_child_kind2(
                    i as int,
                    j as int,
                    k1@,
                    k2@,
                ),
            decreases n - j,
        {
            let c = self.child_of(i, j);
            proof {
                assert(self.wf_at(i as int));
            }
            if str_eq(self.kind_of(c), k1) || str_eq(self.kind_of(c), k2) {
                return Some(c);
            }
            j = j + 1;
        }
        None
    }

    /// Finds the first child of node `i` whose kind is `k`.
    pub fn first_child_with_kind(&self, i: usize, k: &str) -> (r: Option<usize>)
        requires
            self.wf(),
            i < self.spec_len(),
        ensures
            match r {
                Some(a) => {
                    &&& Some(a as int) == self.spec_first_child_kind(i as int, k@)
                    &&& i < a < self.spec_len()
                    &&& self.spec_nodes()[i as int].span.spec_contains(self.spec_nodes()[a as int].span)
                    &&& self.spec_nodes()[a as int].kind@ == k@
                },
                None => self.spec_first_child_kind(i as int, k@) is None,
            },
    {
        self.first_child_with_kind2(i, k, k)
    }
}

/// Whatever a child-kind scan returns is a child of the scanned node: a node
/// with a larger index, a contained span, and one of the two sought kinds.
pub proof fn lemma_scan_child_props(t: SyntaxTree, i: int, j: int, k1: Seq<char>, k2: Seq<char>)
    requires
        t.wf(),
        0 <= i < t.spec_len(),
        0 <= j,
    ensures
        match t.spec_scan_child_kind2(i, j, k1, k2) {
            Some(a) => {
                &&& i < a < t.spec_len()
                &&& t.spec_nodes()[i].span.spec_contains(t.spec_nodes()[a].span)
                &&& t.spec_nodes()[a].kind@ == k1 || t.spec_nodes()[a].kind@ == k2
            },
            None => true,
        },
    decreases t.spec_nodes()[i].children@.len() - j,
{
    if j < t.spec_nodes()[i].children@.len() {
        assert(t.wf_at(i));
        let c = t.spec_nodes()[i].children@[j];
        if t.spec_nodes()[c as int].kind@ == k1 || t.spec_nodes()[c as int].kind@ == k2 {
        } else {
            lemma_scan_child_props(t, i, j + 1, k1, k2);
        }
    }
}

} // verus!
