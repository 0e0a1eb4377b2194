//! Programming language definitions and configurations.
//!
//! A [`Language`] describes one supported grammar: the names it goes by, the
//! pattern its source files match, the command that launches its analysis
//! server, the node kinds that count as calls, and the rules that narrow a
//! call node (or a declaration node) down to the node worth querying.

use vstd::prelude::*;

use crate::tree::SyntaxTree;

verus! {

/// A programming language supported by the walker and the resolver.
///
/// The `spec_` functions are the mathematical face of the descriptor; each
/// executable method is proved to agree with it.  The narrowing functions
/// return arena indices into the tree they are given; whenever they return a
/// node, that node's span lies inside the queried node's span.
pub trait Language: Sized + Copy {
    /// The lowercase name used for command-line arguments.
    spec fn spec_cli_name(&self) -> Seq<char>;

    /// The regular expression matching this language's file names.
    spec fn spec_file_pattern(&self) -> Seq<char>;

    /// The file extensions, as a human-readable string.
    spec fn spec_extensions(&self) -> Seq<char>;

    /// The display name.
    spec fn spec_display_name(&self) -> Seq<char>;

    /// The program that serves this language's semantic queries.
    spec fn spec_server_program(&self) -> Seq<char>;

    /// The arguments that program is launched with.
    spec fn spec_server_args(&self) -> Seq<Seq<char>>;

    /// The node kinds that represent calls, in declaration order.
    spec fn spec_call_kinds(&self) -> Seq<Seq<char>>;

    /// Whether `kind` is one of this language's call kinds.
    spec fn spec_is_call_kind(&self, kind: Seq<char>) -> bool;

    /// Where `find_call` sends a goto-definition query for node `i`, if
    /// node `i` is a call at all.
    spec fn spec_find_call(&self, t: SyntaxTree, i: int) -> Option<int>;

    /// The name node of a function declaration at node `i`, if any.
    spec fn spec_find_function_declaration(&self, t: SyntaxTree, i: int) -> Option<int>;

    /// The name node a call-hierarchy query should anchor at, if node `i`
    /// can head a call hierarchy.
    spec fn spec_call_hierarchy_target(&self, t: SyntaxTree, i: int) -> Option<int>;

    /// The two spec views of the call-kind set agree.
    proof fn lemma_call_kinds_agree(&self, kind: Seq<char>)
        ensures
            self.spec_is_call_kind(kind) <==> self.spec_call_kinds().contains(kind),
    ;

    /// `spec_find_call` answers exactly on call kinds, and any anchor it
    /// names is a node at or below the queried one, with a contained span.
    proof fn lemma_find_call_props(&self, t: SyntaxTree, i: int)
        requires
            t.wf(),
            0 <= i < t.spec_len(),
        ensures
            match self.spec_find_call(t, i) {
                Some(a) => {
                    &&& i <= a < t.spec_len()
                    &&& t.spec_nodes()[i].span.spec_contains(t.spec_nodes()[a].span)
                },
                None => true,
            },
            (self.spec_find_call(t, i) is Some) <==> self.spec_is_call_kind(
                t.spec_nodes()[i].kind@,
            ),
    ;

    /// Any node named by `spec_find_function_declaration` or
    /// `spec_call_hierarchy_target` lies strictly below the queried node,
    /// with a contained span.
    proof fn lemma_narrowing_props(&self, t: SyntaxTree, i: int)
        requires
            t.wf(),
            0 <= i < t.spec_len(),
        ensures
            match self.spec_find_function_declaration(t, i) {
                Some(a) => {
                    &&& i < a < t.spec_len()
                    &&& t.spec_nodes()[i].span.spec_contains(t.spec_nodes()[a].span)
                },
                None => true,
            },
            match self.spec_call_hierarchy_target(t, i) {
                Some(a) => {
                    &&& i < a < t.spec_len()
                    &&& t.spec_nodes()[i].span.spec_contains(t.spec_nodes()[a].span)
                },
                None => true,
            },
    ;

    fn cli_name(&self) -> (r: &'static str)
        ensures
            r@ == self.spec_cli_name(),
    ;

    fn file_pattern(&self) -> (r: &'static str)
        ensures
            r@ == self.spec_file_pattern(),
    ;

    fn extensions(&self) -> (r: &'static str)
        ensures
            r@ == self.spec_extensions(),
    ;

    fn display_name(&self) -> (r: &'static str)
        ensures
            r@ == self.spec_display_name(),
    ;

    /// The command and argument vector that launch the analysis server.
    fn lsp_server_command(&self) -> (r: (&'static str, Vec<String>))
        ensures
            r.0@ == self.spec_server_program(),
            r.1.deep_view() == self.spec_server_args(),
    ;

    /// The grammar handle used by the parser.
    fn tree_sitter_language(&self) -> tree_sitter::Language;

    /// The node kinds that represent calls in this language.
    fn call_node_kinds(&self) -> (r: Vec<String>)
        ensures
            r.deep_view() == self.spec_call_kinds(),
    ;

    /// Finds the goto-definition anchor within the call node `i`, or `None`
    /// if node `i` is not a call node for this language.
    fn find_call(&self, t: &SyntaxTree, i: usize) -> (r: Option<usize>)
        requires
            t.wf(),
            i < t.spec_len(),
        ensures
            match r {
                Some(a) => Some(a as int) == self.spec_find_call(*t, i as int),
                None => self.spec_find_call(*t, i as int) is None,
            },
    ;

    /// Finds the name node of a function declaration at node `i`.
    fn find_function_declaration(&self, t: &SyntaxTree, i: usize) -> (r: Option<usize>)
        requires
            t.wf(),
            i < t.spec_len(),
        ensures
            match r {
                Some(a) => Some(a as int) == self.spec_find_function_declaration(*t, i as int),
                None => self.spec_find_function_declaration(*t, i as int) is None,
            },
    ;

    /// Finds the node a call-hierarchy query should anchor at for node `i`.
    fn call_hierarchy_target(&self, t: &SyntaxTree, i: usize) -> (r: Option<usize>)
        requires
            t.wf(),
            i < t.spec_len(),
        ensures
            match r {
                Some(a) => Some(a as int) == self.spec_call_hierarchy_target(*t, i as int),
                None => self.spec_call_hierarchy_target(*t, i as int) is None,
            },
    ;
}

} // verus!
