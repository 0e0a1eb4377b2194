//! Python language implementation.

use vstd::prelude::*;

use crate::language::Language;
use crate::text::str_eq;
use crate::tree::SyntaxTree;

verus! {

/// Python language implementation.
#[derive(Debug, Clone, Copy, PartialEq, Eq, Hash)]
pub struct PythonLang;

/// Relies on `tree_sitter_python::LANGUAGE`: the grammar handle for Python.
#[verifier::external_body]
fn python_grammar() -> tree_sitter::Language {
    tree_sitter_python::LANGUAGE.into()
}

impl Language for PythonLang {
    open spec fn spec_cli_name(&self) -> Seq<char> {
        "python"@
    }

    open spec fn spec_file_pattern(&self) -> Seq<char> {
        "\\.py$"@
    }

    open spec fn spec_extensions(&self) -> Seq<char> {
        ".py"@
    }

    open spec fn spec_display_name(&self) -> Seq<char> {
        "Python"@
    }

    open spec fn spec_server_program(&self) -> Seq<char> {
        "pylsp"@
    }

    open spec fn spec_server_args(&self) -> Seq<Seq<char>> {
        Seq::empty()
    }

    open spec fn spec_call_kinds(&self) -> Seq<Seq<char>> {
        seq!["call"@]
    }

    open spec fn spec_is_call_kind(&self, kind: Seq<char>) -> bool {
        kind == "call"@
    }

    open spec fn spec_find_call(&self, t: SyntaxTree, i: int) -> Option<int> {
        if t.spec_nodes()[i].kind@ == "call"@ {
            Some(i)
        } else {
            None
        }
    }

    open spec fn spec_find_function_declaration(&self, t: SyntaxTree, i: int) -> Option<int> {
        None
    }

    open spec fn spec_call_hierarchy_target(&self, t: SyntaxTree, i: int) -> Option<int> {
        None
    }

    proof fn lemma_call_kinds_agree(&self, kind: Seq<char>) {
        if self.spec_is_call_kind(kind) {
            assert(self.spec_call_kinds()[0] == kind);
        }
    }

    proof fn lemma_find_call_props(&self, t: SyntaxTree, i: int) {
    }

    proof fn lemma_narrowing_props(&self, t: SyntaxTree, i: int) {
    }

    fn cli_name(&self) -> (r: &'static str) {
        "python"
    }

    fn file_pattern(&self) -> (r: &'static str) {
        "\\.py$"
    }

    fn extensions(&self) -> (r: &'static str) {
        ".py"
    }

    fn display_name(&self) -> (r: &'static str) {
        "Python"
    }

    fn lsp_server_command(&self) -> (r: (&'static str, Vec<String>)) {
        let args: Vec<String> = Vec::new();
        proof {
            assert(args.deep_view() =~= self.spec_server_args());
        }
        ("pylsp", args)
    }

    fn tree_sitter_language(&self) -> tree_sitter::Language {
        python_grammar()
    }

    fn call_node_kinds(&self) -> (r: Vec<String>) {
        let mut kinds: Vec<String> = Vec::new();
        kinds.push(String::from_str("call"));
        proof {
            assert(kinds.deep_view() =~= self.spec_call_kinds());
        }
        kinds
    }

    fn find_call(&self, t: &SyntaxTree, i: usize) -> (r: Option<usize>) {
        if str_eq(t.kind_of(i), "call") {
            Some(i)
        } else {
            None
        }
    }

    fn find_function_declaration(&self, t: &SyntaxTree, i: usize) -> (r: Option<usize>) {
        None
    }

    fn call_hierarchy_target(&self, t: &SyntaxTree, i: usize) -> (r: Option<usize>) {
        None
    }
}

} // verus!
