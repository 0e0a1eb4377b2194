//! An owned model of a document's symbol outline, and the walk that picks
//! the callable symbols out of it.
//!
//! The analysis server reports a document's symbols as a forest, nested or
//! flat; the caller copies what the logic reads — name, kind, selection
//! position, nesting — into this arena.  The collection walk then chooses,
//! in a fixed order, the symbols worth querying for references or call
//! hierarchies.

use vstd::prelude::*;

use crate::location::Position;

verus! {

/// The kinds of symbols the collection distinguishes.
#[derive(Clone, Copy, Debug, PartialEq, Eq, Structural)]
pub enum SymbolInfoKind {
    Function,
    Method,
    Constructor,
    Interface,
    /// Any other symbol kind.
    Other,
}

/// Whether symbols of this kind are queried for calls.
pub open spec fn spec_callable(kind: SymbolInfoKind) -> bool {
    kind == SymbolInfoKind::Function || kind == SymbolInfoKind::Method || kind
        == SymbolInfoKind::Constructor
}

/// One symbol: its name, kind, the start of its selection range, and the
/// arena indices of its nested symbols.
pub struct SymbolInfo {
    pub name: String,
    pub kind: SymbolInfoKind,
    pub selection_start: Position,
    pub children: Vec<usize>,
}

/// The ways [`SymbolTree::add_symbol`] can reject a symbol.
#[derive(Clone, Copy, Debug, PartialEq, Eq, Structural)]
pub enum SymbolTreeError {
    /// The named parent index does not exist.
    NoSuchParent,
}

/// A document's symbols: a forest held in an arena, top-level symbols
/// listed in report order.
pub struct SymbolTree {
    symbols: Vec<SymbolInfo>,
    roots: Vec<usize>,
}

impl SymbolTree {
    pub closed spec fn spec_symbols(self) -> Seq<SymbolInfo> {
        self.symbols@
    }

    pub closed spec fn spec_roots(self) -> Seq<usize> {
        self.roots@
    }

    pub open spec fn spec_len(self) -> nat {
        self.spec_symbols().len()
    }

    /// Well-formedness at one symbol: every child has a larger index
    /// inside the arena.
    pub open spec fn wf_at(self, i: int) -> bool {
        forall|j: int|
            0 <= j < self.spec_symbols()[i].children@.len() ==> i < #[trigger] self.spec_symbols()[i].children@[j]
                < self.spec_symbols().len()
    }

    /// Well-formedness: every symbol is well formed and every root lies in
    /// the arena.
    pub open spec fn wf(self) -> bool {
        &&& forall|i: int| 0 <= i < self.spec_symbols().len() ==> self.wf_at(i)
        &&& forall|j: int|
            0 <= j < self.spec_roots().len() ==> #[trigger] self.spec_roots()[j]
                < self.spec_symbols().len()
    }

    /// An empty forest.
    pub fn new() -> (t: SymbolTree)
        ensures
            t.wf(),
            t.spec_len() == 0,
            t.spec_roots().len() == 0,
    {
        SymbolTree { symbols: Vec::new(), roots: Vec::new() }
    }

    /// Appends a symbol, as a new top-level symbol when `parent` is
    /// `None`, else as the last child of an existing symbol.
    pub fn add_symbol(
        &mut self,
        parent: Option<usize>,
        name: &str,
        kind: SymbolInfoKind,
        selection_start: Position,
    ) -> (r: Result<usize, SymbolTreeError>)
        requires
            old(self).wf(),
            old(self).spec_len() < usize::MAX,
        ensures
            final(self).wf(),
            match r {
                Ok(i) => {
                    &&& i == old(self).spec_len()
                    &&& final(self).spec_len() == old(self).spec_len() + 1
                    &&& final(self).spec_symbols()[i as int].name@ == name@
                    &&& final(self).spec_symbols()[i as int].kind == kind
                    &&& final(self).spec_symbols()[i as int].selection_start == selection_start
                    &&& final(self).spec_symbols()[i as int].children@.len() == 0
                    &&& match parent {
                        Some(p) => {
                            &&& p < old(self).spec_len()
                            &&& final(self).spec_symbols()[p as int].name == old(self).spec_symbols()[p as int].name
                            &&& final(self).spec_symbols()[p as int].kind == old(self).spec_symbols()[p as int].kind
                            &&& final(self).spec_symbols()[p as int].selection_start == old(
                                self,
                            ).spec_symbols()[p as int].selection_start
                            &&& final(self).spec_symbols()[p as int].children@ == old(
                                self,
                            ).spec_symbols()[p as int].children@.push(i)
                            &&& final(self).spec_roots() == old(self).spec_roots()
                            &&& forall|q: int|
                                0 <= q < old(self).spec_len() && q != p ==> final(self).spec_symbols()[q]
                                    == old(self).spec_symbols()[q]
                        },
                        None => {
                            &&& final(self).spec_roots() == old(self).spec_roots().push(i)
                            &&& forall|q: int|
                                0 <= q < old(self).spec_len() ==> final(self).spec_symbols()[q]
                                    == old(self).spec_symbols()[q]
                        },
                    }
                },
                Err(e) => {
                    &&& *final(self) == *old(self)
                    &&& e == SymbolTreeError::NoSuchParent
                    &&& parent matches Some(p) && p >= old(self).spec_len()
                },
            },
    {
        let i = self.symbols.len();
        match parent {
            None => {
                self.symbols.push(
                    SymbolInfo { name: name.to_owned(), kind, selection_start, children: Vec::new() },
                );
                self.roots.push(i);
                proof {
                    assert forall|q: int| 0 <= q < self.spec_symbols().len() implies self.wf_at(
                        q,
                    ) by {
                        assert(old(self).wf());
                        if q < old(self).spec_len() {
                            assert(old(self).wf_at(q));
                        }
                    }
                    assert forall|q: int|
                        0 <= q < self.spec_roots().len() implies #[trigger] self.spec_roots()[q]
                        < self.spec_symbols().len() by {
                        if q < old(self).spec_roots().len() {
                            assert(self.spec_roots()[q] == old(self).spec_roots()[q]);
                        } else {
                            assert(self.spec_roots()[q] == i);
                        }
                    }
                }
                Ok(i)
            },
            Some(p) => {
                if p >= i {
                    return Err(SymbolTreeError::NoSuchParent);
                }
                self.symbols.push(
                    SymbolInfo { name: name.to_owned(), kind, selection_start, children: Vec::new() },
                );
                let child_list = &mut self.symbols[p].children;
                child_list.push(i);
                proof {
                    assert forall|q: int| 0 <= q < self.spec_symbols().len() implies self.wf_at(
                        q,
                    ) by {
                        assert(old(self).wf());
                        if q < old(self).spec_len() {
                            assert(old(self).wf_at(q));
                        }
                    }
                    assert forall|q: int|
                        0 <= q < self.spec_roots().len() implies #[trigger] self.spec_roots()[q]
                        < self.spec_symbols().len() by {
                        assert(self.spec_roots()[q] == old(self).spec_roots()[q]);
                    }
                }
                Ok(i)
            },
        }
    }

    /// The number of symbols in the arena.
    pub fn len(&self) -> (r: usize)
        ensures
            r == self.spec_len(),
    {
        self.symbols.len()
    }

    /// The name of symbol `i`.
    pub fn name_of(&self, i: usize) -> (r: &str)
        requires
            i < self.spec_len(),
        ensures
            r@ == self.spec_symbols()[i as int].name@,
    {
        self.symbols[i].name.as_str()
    }

    /// The kind of symbol `i`.
    pub fn kind_of(&self, i: usize) -> (r: SymbolInfoKind)
        requires
            i < self.spec_len(),
        ensures
            r == self.spec_symbols()[i as int].kind,
    {
        self.symbols[i].kind
    }

    /// The selection-range start of symbol `i`, where a query about the
    /// symbol anchors.
    pub fn selection_start_of(&self, i: usize) -> (r: Position)
        requires
            i < self.spec_len(),
        ensures
            r == self.spec_symbols()[i as int].selection_start,
    {
        self.symbols[i].selection_start
    }
}

/// The callable symbols in the subtree of symbol `i`, in report order: the
/// symbol itself when its kind is callable, then those of each nested
/// symbol — except that the walk does not descend into an interface, whose
/// members rarely contain calls.
pub open spec fn spec_callable_from(t: SymbolTree, i: int) -> Seq<usize>
    decreases t.spec_len() - i, t.spec_symbols()[i].children@.len() + 1,
    when t.wf() && 0 <= i < t.spec_len()
{
    let head: Seq<usize> = if spec_callable(t.spec_symbols()[i].kind) {
        seq![i as usize]
    } else {
        Seq::empty()
    };
    if t.spec_symbols()[i].kind == SymbolInfoKind::Interface {
        head
    } else {
        head + spec_callable_from_children(t, i, 0)
    }
}

/// The callable symbols of the subtrees of symbol `i`'s children, from
/// child position `j` on.
pub open spec fn spec_callable_from_children(t: SymbolTree, i: int, j: int) -> Seq<usize>
    decreases t.spec_len() - i, t.spec_symbols()[i].children@.len() - j,
    when t.wf() && 0 <= i < t.spec_len() && 0 <= j
    via spec_callable_from_children_decreases
{
    if j >= t.spec_symbols()[i].children@.len() {
        Seq::empty()
    } else {
        spec_callable_from(t, t.spec_symbols()[i].children@[j] as int)
            + spec_callable_from_children(t, i, j + 1)
    }
}

#[via_fn]
proof fn spec_callable_from_children_decreases(t: SymbolTree, i: int, j: int) {
    if j < t.spec_symbols()[i].children@.len() {
        assert(t.wf_at(i));
    }
}

/// The callable symbols of the whole forest, from root position `j` on.
pub open spec fn spec_callable_roots(t: SymbolTree, j: int) -> Seq<usize>
    decreases t.spec_roots().len() - j,
    when t.wf() && 0 <= j
{
    if j >= t.spec_roots().len() {
        Seq::empty()
    } else {
        spec_callable_from(t, t.spec_roots()[j] as int) + spec_callable_roots(t, j + 1)
    }
}

/// All callable symbols of the forest, in report order.
pub open spec fn spec_collect_symbols(t: SymbolTree) -> Seq<usize> {
    spec_callable_roots(t, 0)
}

/// Walks the subtree of symbol `i` and appends its callable symbols.
fn collect_from(t: &SymbolTree, i: usize, out: &mut Vec<usize>)
    requires
        t.wf(),
        i < t.spec_len(),
    ensures
        final(out)@ == old(out)@ + spec_callable_from(*t, i as int),
    decreases t.spec_len() - i,
{
    let kind = t.kind_of(i);
    let callable = match kind {
        SymbolInfoKind::Function => true,
        SymbolInfoKind::Method => true,
        SymbolInfoKind::Constructor => true,
        _ => false,
    };
    if callable {
        out.push(i);
    }
    if let SymbolInfoKind::Interface = kind {
        proof {
            assert(final(out)@ =~= old(out)@ + spec_callable_from(*t, i as int));
        }
        return ;
    }
    let n = t.child_count_of(i);
    let mut j: usize = 0;
    while j < n
        invariant
            t.wf(),
            i < t.spec_len(),
            j <= n,
            n == t.spec_symbols()[i as int].children@.len(),
            out@ + spec_callable_from_children(*t, i as int, j as int) == old(out)@
                + spec_callable_from(*t, i as int),
        decreases n - j,
    {
        let c = t.child_of(i, j);
        proof {
            assert(t.wf_at(i as int));
        }
        collect_from(t, c, out);
        proof {
            assert(out@ + spec_callable_from_children(*t, i as int, (j + 1) as int) =~= old(out)@
                + spec_callable_from(*t, i as int));
        }
        j = j + 1;
    }
    proof {
        assert(final(out)@ =~= old(out)@ + spec_callable_from(*t, i as int));
    }
}

impl SymbolTree {
    /// How many children symbol `i` has.
    pub fn child_count_of(&self, i: usize) -> (r: usize)
        requires
            i < self.spec_len(),
        ensures
            r == self.spec_symbols()[i as int].children@.len(),
    {
        self.symbols[i].children.len()
    }

    /// The arena index of the `j`-th child of symbol `i`.
    pub fn child_of(&self, i: usize, j: usize) -> (r: usize)
        requires
            i < self.spec_len(),
            j < self.spec_symbols()[i as int].children@.len(),
        ensures
            r == self.spec_symbols()[i as int].children@[j as int],
            self.wf() ==> i < r < self.spec_len(),
    {
        proof {
            if self.wf() {
                assert(self.wf_at(i as int));
            }
        }
        self.symbols[i].children[j]
    }
}

/// Collects the symbols worth querying for calls: functions, methods and
/// constructors, nested ones included, in report order, without
/// descending into interfaces.  The result is a function of the forest
/// alone, so repeated collections agree.
pub fn collect_symbols_with_calls(t: &SymbolTree) -> (r: Vec<usize>)
    requires
        t.wf(),
    ensures
        r@ == spec_collect_symbols(*t),
        forall|k: int| 0 <= k < r@.len() ==> #[trigger] r@[k] < t.spec_len(),
{
    let mut out: Vec<usize> = Vec::new();
    let n = t.roots_len();
    let mut j: usize = 0;
    while j < n
        invariant
            t.wf(),
            j <= n,
            n == t.spec_roots().len(),
            out@ + spec_callable_roots(*t, j as int) == spec_callable_roots(*t, 0),
        decreases n - j,
    {
        let root = t.root_at(j);
        collect_from(t, root, &mut out);
        proof {
            assert(out@ + spec_callable_roots(*t, (j + 1) as int) =~= spec_callable_roots(*t, 0));
        }
        j = j + 1;
    }
    proof {
        assert(out@ =~= spec_collect_symbols(*t));
        lemma_collected_in_arena(*t, 0);
    }
    out
}

impl SymbolTree {
    /// The number of top-level symbols.
    pub fn roots_len(&self) -> (r: usize)
        ensures
            r == self.spec_roots().len(),
    {
        self.roots.len()
    }

    /// The arena index of the `j`-th top-level symbol.
    pub fn root_at(&self, j: usize) -> (r: usize)
        requires
            self.wf(),
            j < self.spec_roots().len(),
        ensures
            r == self.spec_roots()[j as int],
            r < self.spec_len(),
    {
        self.roots[j]
    }
}

/// Every collected index lies in the arena.
proof fn lemma_collected_in_arena(t: SymbolTree, j: int)
    requires
        t.wf(),
        0 <= j,
    ensures
        forall|k: int|
            0 <= k < spec_callable_roots(t, j).len() ==> #[trigger] spec_callable_roots(t, j)[k]
                < t.spec_len(),
    decreases t.spec_roots().len() - j,
{
    if j < t.spec_roots().len() {
        lemma_callable_from_in_arena(t, t.spec_roots()[j] as int);
        lemma_collected_in_arena(t, j + 1);
        let s = spec_callable_roots(t, j);
        let here = spec_callable_from(t, t.spec_roots()[j] as int);
        let rest = spec_callable_roots(t, j + 1);
        assert forall|k: int| 0 <= k < s.len() implies #[trigger] s[k] < t.spec_len() by {
            if k < here.len() {
                assert(s[k] == here[k]);
            } else {
                assert(s[k] == rest[k - here.len()]);
            }
        }
    }
}

/// Every index a subtree walk yields lies in the arena.
proof fn lemma_callable_from_in_arena(t: SymbolTree, i: int)
    requires
        t.wf(),
        0 <= i < t.spec_len(),
    ensures
        forall|k: int|
            0 <= k < spec_callable_from(t, i).len() ==> #[trigger] spec_callable_from(t, i)[k]
                < t.spec_len(),
    decreases t.spec_len() - i, t.spec_symbols()[i].children@.len() + 1,
{
    lemma_callable_from_children_in_arena(t, i, 0);
    let s = spec_callable_from(t, i);
    let rest = spec_callable_from_children(t, i, 0);
    assert forall|k: int| 0 <= k < s.len() implies #[trigger] s[k] < t.spec_len() by {
        if spec_callable(t.spec_symbols()[i].kind) {
            if k > 0 && t.spec_symbols()[i].kind != SymbolInfoKind::Interface {
                assert(s[k] == rest[k - 1]);
            }
        } else {
            if t.spec_symbols()[i].kind != SymbolInfoKind::Interface {
                assert(s[k] == rest[k]);
            }
        }
    }
}

/// Every index the child walks yield lies in the arena.
proof fn lemma_callable_from_children_in_arena(t: SymbolTree, i: int, j: int)
    requires
        t.wf(),
        0 <= i < t.spec_len(),
        0 <= j,
    ensures
        forall|k: int|
            0 <= k < spec_callable_from_children(t, i, j).len() ==> #[trigger] spec_callable_from_children(
                t,
                i,
                j,
            )[k] < t.spec_len(),
    decreases t.spec_len() - i, t.spec_symbols()[i].children@.len() - j,
{
    if j < t.spec_symbols()[i].children@.len() {
        assert(t.wf_at(i));
        let c = t.spec_symbols()[i].children@[j] as int;
        lemma_callable_from_in_arena(t, c);
        lemma_callable_from_children_in_arena(t, i, j + 1);
        let s = spec_callable_from_children(t, i, j);
        let here = spec_callable_from(t, c);
        let rest = spec_callable_from_children(t, i, j + 1);
        assert forall|k: int| 0 <= k < s.len() implies #[trigger] s[k] < t.spec_len() by {
            if k < here.len() {
                assert(s[k] == here[k]);
            } else {
                assert(s[k] == rest[k - here.len()]);
            }
        }
    }
}

} // verus!
