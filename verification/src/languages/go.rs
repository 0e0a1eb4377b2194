//! Go language implementation.

use vstd::prelude::*;

use crate::language::Language;
use crate::text::str_eq;
use crate::tree::lemma_scan_child_props;
use crate::tree::SyntaxTree;

verus! {

/// Go language implementation.
#[derive(Debug, Clone, Copy, PartialEq, Eq, Hash)]
pub struct GoLang;

/// Relies on `tree_sitter_go::LANGUAGE`: the grammar handle for Go.
#[verifier::external_body]
fn go_grammar() -> tree_sitter::Language {
    tree_sitter_go::LANGUAGE.into()
}

impl Language for GoLang {
    open spec fn spec_cli_name(&self) -> Seq<char> {
        "go"@
    }

    open spec fn spec_file_pattern(&self) -> Seq<char> {
        "\\.go$"@
    }

    open spec fn spec_extensions(&self) -> Seq<char> {
        ".go"@
    }

    open spec fn spec_display_name(&self) -> Seq<char> {
        "Go"@
    }

    open spec fn spec_server_program(&self) -> Seq<char> {
        "gopls"@
    }

    open spec fn spec_server_args(&self) -> Seq<Seq<char>> {
        Seq::empty()
    }

    open spec fn spec_call_kinds(&self) -> Seq<Seq<char>> {
        seq!["call_expression"@]
    }

    open spec fn spec_is_call_kind(&self, kind: Seq<char>) -> bool {
        kind == "call_expression"@
    }

    open spec fn spec_find_call(&self, t: SyntaxTree, i: int) -> Option<int> {
        if t.spec_nodes()[i].kind@ == "call_expression"@ {
            Some(i)
        } else {
            None
        }
    }

    open spec fn spec_find_function_declaration(&self, t: SyntaxTree, i: int) -> Option<int> {
        if t.spec_nodes()[i].kind@ == "function_declaration"@ || t.spec_nodes()[i].kind@
            == "method_declaration"@ {
            t.spec_first_child_kind2(i, "identifier"@, "field_identifier"@)
        } else {
            None
        }
    }

    open spec fn spec_call_hierarchy_target(&self, t: SyntaxTree, i: int) -> Option<int> {
        if t.spec_nodes()[i].kind@ == "function_declaration"@ || t.spec_nodes()[i].kind@
            == "method_declaration"@ {
            self.spec_find_function_declaration(t, i)
        } else if t.spec_nodes()[i].kind@ == "method_elem"@ {
            t.spec_first_child_kind(i, "field_identifier"@)
        } else {
            None
        }
    }

    proof fn lemma_call_kinds_agree(&self, kind: Seq<char>) {
        if self.spec_is_call_kind(kind) {
            assert(self.spec_call_kinds()[0] == kind);
        }
    }

    proof fn lemma_find_call_props(&self, t: SyntaxTree, i: int) {
    }

    proof fn lemma_narrowing_props(&self, t: SyntaxTree, i: int) {
        lemma_scan_child_props(t, i, 0, "identifier"@, "field_identifier"@);
        lemma_scan_child_props(t, i, 0, "field_identifier"@, "field_identifier"@);
    }

    fn cli_name(&self) -> (r: &'static str) {
        "go"
    }

    fn file_pattern(&self) -> (r: &'static str) {
        "\\.go$"
    }

    fn extensions(&self) -> (r: &'static str) {
        ".go"
    }

    fn display_name(&self) -> (r: &'static str) {
        "Go"
    }

    fn lsp_server_command(&self) -> (r: (&'static str, Vec<String>)) {
        let args: Vec<String> = Vec::new();
        proof {
            assert(args.deep_view() =~= self.spec_server_args());
        }
        ("gopls", args)
    }

    fn tree_sitter_language(&self) -> tree_sitter::Language {
        go_grammar()
    }

    fn call_node_kinds(&self) -> (r: Vec<String>) {
        let mut kinds: Vec<String> = Vec::new();
        kinds.push(String::from_str("call_expression"));
        proof {
            assert(kinds.deep_view() =~= self.spec_call_kinds());
        }
        kinds
    }

    fn find_call(&self, t: &SyntaxTree, i: usize) -> (r: Option<usize>) {
        if str_eq(t.kind_of(i), "call_expression") {
            Some(i)
        } else {
            None
        }
    }

    fn find_function_declaration(&self, t: &SyntaxTree, i: usize) -> (r: Option<usize>) {
        if str_eq(t.kind_of(i), "function_declaration") || str_eq(
            t.kind_of(i),
            "method_declaration",
        ) {
            t.first_child_with_kind2(i, "identifier", "field_identifier")
        } else {
            None
        }
    }

    fn call_hierarchy_target(&self, t: &SyntaxTree, i: usize) -> (r: Option<usize>) {
        if str_eq(t.kind_of(i), "function_declaration") || str_eq(
            t.kind_of(i),
            "method_declaration",
        ) {
            self.find_function_declaration(t, i)
        } else if str_eq(t.kind_of(i), "method_elem") {
            t.first_child_with_kind(i, "field_identifier")
        } else {
            None
        }
    }
}

} // verus!
