//! Parsing source code into the owned [`SyntaxTree`] model, and walking the
//! model for call sites.
//!
//! The grammar-driven parser is an outside library; this module declares the
//! handful of its types and accessors that the conversion needs, converts its
//! borrowed tree into the crate's own arena model, and provides the verified
//! walker [`get_calls`] over that model.

use vstd::prelude::*;

use tree_sitter::Language as TsLanguage;

use crate::call_node::CallNode;
use crate::language::Language;
use crate::tree::SyntaxTree;

verus! {

#[verifier::external_type_specification]
#[verifier::external_body]
pub struct ExTsParser(tree_sitter::Parser);

#[verifier::external_type_specification]
#[verifier::external_body]
pub struct ExTsTree(tree_sitter::Tree);

#[verifier::external_type_specification]
#[verifier::external_body]
pub struct ExTsLanguage(TsLanguage);

#[verifier::external_type_specification]
#[verifier::external_body]
pub struct ExTsNode<'tree>(tree_sitter::Node<'tree>);

/// Relies on `tree_sitter::Parser::new`: a fresh parser with no language set.
#[verifier::external_body]
fn ts_parser_new() -> tree_sitter::Parser {
    tree_sitter::Parser::new()
}

/// Relies on `tree_sitter::Parser::set_language`: assigns the grammar and
/// reports whether the grammar's version is compatible.
#[verifier::external_body]
fn ts_parser_set_language(parser: &mut tree_sitter::Parser, language: &tree_sitter::Language) -> (r:
    bool) {
    parser.set_language(language).is_ok()
}

/// Relies on `tree_sitter::Parser::parse`: parses the text, `None` on
/// cancellation or when no language was set.
#[verifier::external_body]
fn ts_parser_parse(parser: &mut tree_sitter::Parser, text: &str) -> (r: Option<tree_sitter::Tree>) {
    parser.parse(text, None)
}

/// Relies on `tree_sitter::Tree::root_node`: the root of the parsed tree.
#[verifier::external_body]
fn ts_tree_root<'t>(tree: &'t tree_sitter::Tree) -> (r: tree_sitter::Node<'t>) {
    tree.root_node()
}

/// Relies on `tree_sitter::Node::kind`: the node's grammar kind.
#[verifier::external_body]
fn ts_node_kind(node: &tree_sitter::Node) -> (r: String) {
    node.kind().to_owned()
}

/// Relies on `tree_sitter::Node::start_byte`.
#[verifier::external_body]
fn ts_node_start_byte(node: &tree_sitter::Node) -> (r: usize) {
    node.start_byte()
}

/// Relies on `tree_sitter::Node::end_byte`.
#[verifier::external_body]
fn ts_node_end_byte(node: &tree_sitter::Node) -> (r: usize) {
    node.end_byte()
}

/// Relies on `tree_sitter::Node::start_position`: the node's start as
/// (row, column).
#[verifier::external_body]
fn ts_node_start_point(node: &tree_sitter::Node) -> (r: (usize, usize)) {
    let p = node.start_position();
    (p.row, p.column)
}

/// Relies on `tree_sitter::Node::end_position`: the node's end as
/// (row, column).
#[verifier::external_body]
fn ts_node_end_point(node: &tree_sitter::Node) -> (r: (usize, usize)) {
    let p = node.end_position();
    (p.row, p.column)
}

/// Relies on `tree_sitter::Node::child_count`.
#[verifier::external_body]
fn ts_node_child_count(node: &tree_sitter::Node) -> (r: usize) {
    node.child_count() as usize
}

/// Relies on `tree_sitter::Node::child`: the `i`-th child, if `i` is in
/// bounds.
#[verifier::external_body]
fn ts_node_child<'t>(node: &tree_sitter::Node<'t>, i: usize) -> (r: Option<tree_sitter::Node<'t>>) {
    u32::try_from(i).ok().and_then(|j| node.child(j))
}

/// Relies on `tree_sitter::Node::descendant_count`: the number of nodes in
/// the subtree, the node itself included.
#[verifier::external_body]
fn ts_node_descendant_count(node: &tree_sitter::Node) -> (r: usize) {
    node.descendant_count()
}

/// The ways parsing source text can fail.
#[derive(Clone, Copy, Debug, PartialEq, Eq, Structural)]
pub enum ParseError {
    /// The grammar handle was rejected by the parser.
    LanguageNotSet,
    /// The parser returned no tree.
    ParseFailed,
    /// The parser's output did not form a tree the model accepts.
    Malformed,
}

/// Reads one parser node into a [`Span`].
///
/// [`Span`]: crate::span::Span
fn node_span(node: &tree_sitter::Node) -> crate::span::Span {
    let (srow, scol) = ts_node_start_point(node);
    let (erow, ecol) = ts_node_end_point(node);
    crate::span::Span {
        start_byte: ts_node_start_byte(node),
        end_byte: ts_node_end_byte(node),
        start: crate::span::Point { row: srow, column: scol },
        end: crate::span::Point { row: erow, column: ecol },
    }
}

/// Parses source code content with the grammar-driven parser and copies the
/// resulting tree into the crate's own model.
///
/// Every structural fact the model guarantees (child spans inside parent
/// spans, bounded child indices) is checked while copying, so the result is
/// well formed whatever the parser produced; output that cannot be copied
/// that way is rejected as [`ParseError::Malformed`].
pub fn parse_file_content<L: Language>(source_code: &str, language: L) -> (r: Result<
    SyntaxTree,
    ParseError,
>)
    ensures
        r matches Ok(t) ==> t.wf() && t.spec_len() >= 1,
{
    let mut parser = ts_parser_new();
    let ts_language = language.tree_sitter_language();
    if !ts_parser_set_language(&mut parser, &ts_language) {
        return Err(ParseError::LanguageNotSet);
    }
    let parsed = ts_parser_parse(&mut parser, source_code);
    let ts_tree = match parsed {
        Some(t) => t,
        None => {
            return Err(ParseError::ParseFailed);
        },
    };
    let root = ts_tree_root(&ts_tree);

    // Copy the borrowed tree into the arena, parents before children.  The
    // fuel bounds the loop by the node count the parser reports; a tree that
    // claims fewer nodes than it hands out is rejected.
    let mut out = SyntaxTree::new();
    let mut stack: Vec<(tree_sitter::Node, Option<usize>)> = Vec::new();
    stack.push((root, None));
    let mut fuel: usize = ts_node_descendant_count(&root);
    loop
        invariant
            out.wf(),
            out.spec_len() >= 1 || stack@.len() >= 1,
        ensures
            out.wf(),
            out.spec_len() >= 1,
        decreases fuel,
    {
        let top = stack.pop();
        let (node, parent) = match top {
            Some(entry) => entry,
            None => {
                break ;
            },
        };
        if fuel == 0 {
            return Err(ParseError::Malformed);
        }
        fuel = fuel - 1;
        if out.len() == usize::MAX {
            return Err(ParseError::Malformed);
        }
        let kind = ts_node_kind(&node);
        let span = node_span(&node);
        let idx = match out.add_node(parent, kind.as_str(), span) {
            Ok(idx) => idx,
            Err(_) => {
                return Err(ParseError::Malformed);
            },
        };
        // Push the children in reverse so they are copied left to right.
        let child_count = ts_node_child_count(&node);
        let mut j: usize = child_count;
        while j > 0
            invariant
                out.wf(),
                out.spec_len() >= 1,
            decreases j,
        {
            j = j - 1;
            match ts_node_child(&node, j) {
                Some(child) => {
                    stack.push((child, Some(idx)));
                },
                None => {
                    return Err(ParseError::Malformed);
                },
            }
        }
    }
    Ok(out)
}

/// The rendering of a node's place: `file:line:column`, one-based.
pub open spec fn spec_node_location(file_path: Seq<char>, row: nat, column: nat) -> Seq<char> {
    file_path + ":"@ + crate::text::spec_dec_chars(row + 1) + ":"@ + crate::text::spec_dec_chars(
        column + 1,
    )
}

/// Renders where node `i` starts, as `file:line:column` with one-based
/// line and column numbers.
pub fn display_node_location(file_path: &str, t: &SyntaxTree, i: usize) -> (r: String)
    requires
        i < t.spec_len(),
        t.spec_nodes()[i as int].span.start.row < usize::MAX,
        t.spec_nodes()[i as int].span.start.column < usize::MAX,
    ensures
        r@ == spec_node_location(
            file_path@,
            t.spec_nodes()[i as int].span.start.row as nat,
            t.spec_nodes()[i as int].span.start.column as nat,
        ),
{
    let span = t.span_of(i);
    let mut rendered = String::from_str(file_path);
    rendered.append(":");
    let row_str = crate::text::u64_to_string((span.start.row as u64) + 1);
    rendered.append(row_str.as_str());
    rendered.append(":");
    let col_str = crate::text::u64_to_string((span.start.column as u64) + 1);
    rendered.append(col_str.as_str());
    proof {
        assert(rendered@ =~= spec_node_location(
            file_path@,
            t.spec_nodes()[i as int].span.start.row as nat,
            t.spec_nodes()[i as int].span.start.column as nat,
        ));
    }
    rendered
}

/// The call sites found in the subtree rooted at node `i`, in pre-order:
/// a site for node `i` itself when the language recognises it as a call,
/// followed by the sites of each child's subtree, left to right.
pub open spec fn spec_calls_from<L: Language>(language: L, t: SyntaxTree, i: int) -> Seq<CallNode>
    decreases t.spec_len() - i, t.spec_nodes()[i].children@.len() + 1,
    when t.wf() && 0 <= i < t.spec_len()
{
    let head = match language.spec_find_call(t, i) {
        Some(a) => seq![
            CallNode {
                call: i as usize,
                goto_definition: a as usize,
                call_span: t.spec_nodes()[i].span,
                goto_definition_span: t.spec_nodes()[a].span,
            },
        ],
        None => Seq::empty(),
    };
    head + spec_calls_from_children(language, t, i, 0)
}

/// The call sites of the subtrees of node `i`'s children, from child
/// position `j` on.
pub open spec fn spec_calls_from_children<L: Language>(
    language: L,
    t: SyntaxTree,
    i: int,
    j: int,
) -> Seq<CallNode>
    decreases t.spec_len() - i, t.spec_nodes()[i].children@.len() - j,
    when t.wf() && 0 <= i < t.spec_len() && 0 <= j
    via spec_calls_from_children_decreases::<L>
{
    if j >= t.spec_nodes()[i].children@.len() {
        Seq::empty()
    } else {
        spec_calls_from(language, t, t.spec_nodes()[i].children@[j] as int)
            + spec_calls_from_children(language, t, i, j + 1)
    }
}

#[via_fn]
proof fn spec_calls_from_children_decreases<L: Language>(language: L, t: SyntaxTree, i: int, j: int) {
    if j < t.spec_nodes()[i].children@.len() {
        assert(t.wf_at(i));
    }
}

/// All call sites of the tree, in pre-order.
pub open spec fn spec_get_calls<L: Language>(language: L, t: SyntaxTree) -> Seq<CallNode> {
    if t.spec_len() == 0 {
        Seq::empty()
    } else {
        spec_calls_from(language, t, 0)
    }
}

/// Every call site the walker emits anchors its goto-definition span inside
/// its call span.
pub proof fn lemma_calls_contained<L: Language>(language: L, t: SyntaxTree, i: int)
    requires
        t.wf(),
        0 <= i < t.spec_len(),
    ensures
        forall|k: int|
            0 <= k < spec_calls_from(language, t, i).len() ==> (#[trigger] spec_calls_from(
                language,
                t,
                i,
            )[k]).call_span.spec_contains(spec_calls_from(language, t, i)[k].goto_definition_span),
    decreases t.spec_len() - i, t.spec_nodes()[i].children@.len() + 1,
{
    language.lemma_find_call_props(t, i);
    lemma_calls_contained_children(language, t, i, 0);
    let s = spec_calls_from(language, t, i);
    let rest = spec_calls_from_children(language, t, i, 0);
    assert forall|k: int| 0 <= k < s.len() implies (#[trigger] s[k]).call_span.spec_contains(
        s[k].goto_definition_span,
    ) by {
        match language.spec_find_call(t, i) {
            Some(a) => {
                if k > 0 {
                    assert(s[k] == rest[k - 1]);
                }
            },
            None => {
                assert(s[k] == rest[k]);
            },
        }
    }
}

/// Helper for [`lemma_calls_contained`], over the children from position `j`.
pub proof fn lemma_calls_contained_children<L: Language>(language: L, t: SyntaxTree, i: int, j: int)
    requires
        t.wf(),
        0 <= i < t.spec_len(),
        0 <= j,
    ensures
        forall|k: int|
            0 <= k < spec_calls_from_children(language, t, i, j).len() ==> (
            #[trigger] spec_calls_from_children(language, t, i, j)[k]).call_span.spec_contains(
                spec_calls_from_children(language, t, i, j)[k].goto_definition_span,
            ),
    decreases t.spec_len() - i, t.spec_nodes()[i].children@.len() - j,
{
    if j < t.spec_nodes()[i].children@.len() {
        assert(t.wf_at(i));
        let c = t.spec_nodes()[i].children@[j] as int;
        lemma_calls_contained(language, t, c);
        lemma_calls_contained_children(language, t, i, j + 1);
        let s = spec_calls_from_children(language, t, i, j);
        let here = spec_calls_from(language, t, c);
        let rest = spec_calls_from_children(language, t, i, j + 1);
        assert forall|k: int| 0 <= k < s.len() implies (#[trigger] s[k]).call_span.spec_contains(
            s[k].goto_definition_span,
        ) by {
            if k < here.len() {
                assert(s[k] == here[k]);
            } else {
                assert(s[k] == rest[k - here.len()]);
            }
        }
    }
}

/// The walker's sequence is a function of the tree and the language alone:
/// two walks of one parsed tree yield the identical sequence, in the same
/// order.
pub proof fn lemma_walker_deterministic<L: Language>(
    language: L,
    t: SyntaxTree,
    first: Seq<CallNode>,
    second: Seq<CallNode>,
)
    requires
        first == spec_get_calls(language, t),
        second == spec_get_calls(language, t),
    ensures
        first == second,
{
}

/// A tree none of whose nodes has a call kind yields the empty sequence.
pub proof fn lemma_no_call_kinds_no_calls<L: Language>(language: L, t: SyntaxTree, i: int)
    requires
        t.wf(),
        0 <= i < t.spec_len(),
        forall|n: int|
            0 <= n < t.spec_len() ==> !language.spec_is_call_kind(
                (#[trigger] t.spec_nodes()[n]).kind@,
            ),
    ensures
        spec_calls_from(language, t, i) == Seq::<CallNode>::empty(),
    decreases t.spec_len() - i, t.spec_nodes()[i].children@.len() + 1,
{
    language.lemma_find_call_props(t, i);
    lemma_no_call_kinds_no_calls_children(language, t, i, 0);
    assert(spec_calls_from(language, t, i) =~= Seq::<CallNode>::empty());
}

/// Helper for [`lemma_no_call_kinds_no_calls`], over the children from
/// position `j`.
pub proof fn lemma_no_call_kinds_no_calls_children<L: Language>(
    language: L,
    t: SyntaxTree,
    i: int,
    j: int,
)
    requires
        t.wf(),
        0 <= i < t.spec_len(),
        0 <= j,
        forall|n: int|
            0 <= n < t.spec_len() ==> !language.spec_is_call_kind(
                (#[trigger] t.spec_nodes()[n]).kind@,
            ),
    ensures
        spec_calls_from_children(language, t, i, j) == Seq::<CallNode>::empty(),
    decreases t.spec_len() - i, t.spec_nodes()[i].children@.len() - j,
{
    if j < t.spec_nodes()[i].children@.len() {
        assert(t.wf_at(i));
        let c = t.spec_nodes()[i].children@[j] as int;
        lemma_no_call_kinds_no_calls(language, t, c);
        lemma_no_call_kinds_no_calls_children(language, t, i, j + 1);
        assert(spec_calls_from_children(language, t, i, j) =~= Seq::<CallNode>::empty());
    }
}

/// A tree with no nodes of a call kind yields an empty sequence, not an
/// error.
pub proof fn lemma_empty_when_no_call_kinds<L: Language>(language: L, t: SyntaxTree)
    requires
        t.wf(),
        forall|n: int|
            0 <= n < t.spec_len() ==> !language.spec_is_call_kind(
                (#[trigger] t.spec_nodes()[n]).kind@,
            ),
    ensures
        spec_get_calls(language, t) == Seq::<CallNode>::empty(),
{
    if t.spec_len() > 0 {
        lemma_no_call_kinds_no_calls(language, t, 0);
    }
    assert(spec_get_calls(language, t) =~= Seq::<CallNode>::empty());
}

/// Walks the subtree rooted at node `i` and appends its call sites to `out`.
fn walk_calls<L: Language>(t: &SyntaxTree, language: L, i: usize, out: &mut Vec<CallNode>)
    requires
        t.wf(),
        i < t.spec_len(),
    ensures
        final(out)@ == old(out)@ + spec_calls_from(language, *t, i as int),
    decreases t.spec_len() - i,
{
    match language.find_call(t, i) {
        Some(a) => {
            proof {
                language.lemma_find_call_props(*t, i as int);
            }
            let call_span = t.span_of(i);
            let goto_definition_span = t.span_of(a);
            out.push(CallNode { call: i, goto_definition: a, call_span, goto_definition_span });
        },
        None => {},
    }
    let n = t.child_count_of(i);
    let mut j: usize = 0;
    while j < n
        invariant
            t.wf(),
            i < t.spec_len(),
            j <= n,
            n == t.spec_nodes()[i as int].children@.len(),
            out@ + spec_calls_from_children(language, *t, i as int, j as int) == old(out)@
                + spec_calls_from(language, *t, i as int),
        decreases n - j,
    {
        let c = t.child_of(i, j);
        proof {
            assert(t.wf_at(i as int));
        }
        walk_calls(t, language, c, out);
        proof {
            assert(out@ + spec_calls_from_children(language, *t, i as int, (j + 1) as int) =~= old(
                out,
            )@ + spec_calls_from(language, *t, i as int));
        }
        j = j + 1;
    }
    proof {
        assert(final(out)@ =~= old(out)@ + spec_calls_from(language, *t, i as int));
    }
}

/// Returns all function and method calls in the syntax tree.
///
/// The walk is a pre-order (depth-first, parent before children, left to
/// right siblings) traversal that emits a [`CallNode`] exactly where the
/// language recognises a call; a call nested inside another call's arguments
/// is reported independently, in its own pre-order position.  The result is
/// a function of the tree and the language alone, and every emitted site's
/// goto-definition span lies inside its call span.
pub fn get_calls<L: Language>(tree: &SyntaxTree, language: L) -> (r: Vec<CallNode>)
    requires
        tree.wf(),
    ensures
        r@ == spec_get_calls(language, *tree),
        forall|k: int|
            0 <= k < r@.len() ==> (#[trigger] r@[k]).call_span.spec_contains(
                r@[k].goto_definition_span,
            ),
{
    let mut out: Vec<CallNode> = Vec::new();
    if tree.len() == 0 {
        return out;
    }
    walk_calls(tree, language, 0, &mut out);
    proof {
        lemma_calls_contained(language, *tree, 0);
        assert(out@ =~= spec_get_calls(language, *tree));
    }
    out
}

} // verus!
