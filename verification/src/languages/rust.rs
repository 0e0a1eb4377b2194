//! Rust language implementation.

use vstd::prelude::*;

use crate::language::Language;
use crate::text::str_eq;
use crate::tree::lemma_scan_child_props;
use crate::tree::SyntaxTree;

verus! {

/// Rust language implementation.
#[derive(Debug, Clone, Copy, PartialEq, Eq, Hash)]
pub struct RustLang;

/// Relies on `tree_sitter_rust::LANGUAGE`: the grammar handle for Rust.
#[verifier::external_body]
fn rust_grammar() -> tree_sitter::Language {
    tree_sitter_rust::LANGUAGE.into()
}

impl Language for RustLang {
    open spec fn spec_cli_name(&self) -> Seq<char> {
        "rust"@
    }

    open spec fn spec_file_pattern(&self) -> Seq<char> {
        "\\.rs$"@
    }

    open spec fn spec_extensions(&self) -> Seq<char> {
        ".rs"@
    }

    open spec fn spec_display_name(&self) -> Seq<char> {
        "Rust"@
    }

    open spec fn spec_server_program(&self) -> Seq<char> {
        "rust-analyzer"@
    }

    open spec fn spec_server_args(&self) -> Seq<Seq<char>> {
        Seq::empty()
    }

    open spec fn spec_call_kinds(&self) -> Seq<Seq<char>> {
        seq!["call_expression"@, "macro_invocation"@]
    }

    open spec fn spec_is_call_kind(&self, kind: Seq<char>) -> bool {
        kind == "call_expression"@ || kind == "macro_invocation"@
    }

    open spec fn spec_find_call(&self, t: SyntaxTree, i: int) -> Option<int> {
        if t.spec_nodes()[i].kind@ == "call_expression"@ || t.spec_nodes()[i].kind@
            == "macro_invocation"@ {
            Some(i)
        } else {
            None
        }
    }

    open spec fn spec_find_function_declaration(&self, t: SyntaxTree, i: int) -> Option<int> {
        if t.spec_nodes()[i].kind@ == "function_item"@ {
            t.spec_first_child_kind(i, "identifier"@)
        } else {
            None
        }
    }

    open spec fn spec_call_hierarchy_target(&self, t: SyntaxTree, i: int) -> Option<int> {
        if t.spec_nodes()[i].kind@ == "function_item"@ {
            self.spec_find_function_declaration(t, i)
        } else if t.spec_nodes()[i].kind@ == "function_signature_item"@ {
            t.spec_first_child_kind(i, "identifier"@)
        } else {
            None
        }
    }

    proof fn lemma_call_kinds_agree(&self, kind: Seq<char>) {
        if self.spec_is_call_kind(kind) {
            if kind == "call_expression"@ {
                assert(self.spec_call_kinds()[0] == kind);
            } else {
                assert(self.spec_call_kinds()[1] == kind);
            }
        }
    }

    proof fn lemma_find_call_props(&self, t: SyntaxTree, i: int) {
    }

    proof fn lemma_narrowing_props(&self, t: SyntaxTree, i: int) {
        lemma_scan_child_props(t, i, 0, "identifier"@, "identifier"@);
    }

    fn cli_name(&self) -> (r: &'static str) {
        "rust"
    }

    fn file_pattern(&self) -> (r: &'static str) {
        "\\.rs$"
    }

    fn extensions(&self) -> (r: &'static str) {
        ".rs"
    }

    fn display_name(&self) -> (r: &'static str) {
        "Rust"
    }

    fn lsp_server_command(&self) -> (r: (&'static str, Vec<String>)) {
        let args: Vec<String> = Vec::new();
        proof {
            assert(args.deep_view() =~= self.spec_server_args());
        }
        ("rust-analyzer", args)
    }

    fn tree_sitter_language(&self) -> tree_sitter::Language {
        rust_grammar()
    }

    fn call_node_kinds(&self) -> (r: Vec<String>) {
        let mut kinds: Vec<String> = Vec::new();
        kinds.push(String::from_str("call_expression"));
        kinds.push(String::from_str("macro_invocation"));
        proof {
            assert(kinds.deep_view() =~= self.spec_call_kinds());
        }
        kinds
    }

    fn find_call(&self, t: &SyntaxTree, i: usize) -> (r: Option<usize>) {
        if str_eq(t.kind_of(i), "call_expression") || str_eq(t.kind_of(i), "macro_invocation") {
            Some(i)
        } else {
            None
        }
    }

    fn find_function_declaration(&self, t: &SyntaxTree, i: usize) -> (r: Option<usize>) {
        if str_eq(t.kind_of(i), "function_item") {
            t.first_child_with_kind(i, "identifier")
        } else {
            None
        }
    }

    fn call_hierarchy_target(&self, t: &SyntaxTree, i: usize) -> (r: Option<usize>) {
        if str_eq(t.kind_of(i), "function_item") {
            self.find_function_declaration(t, i)
        } else if str_eq(t.kind_of(i), "function_signature_item") {
            t.first_child_with_kind(i, "identifier")
        } else {
            None
        }
    }
}

} // verus!
