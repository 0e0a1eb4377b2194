//! TypeScript language implementation.

use vstd::prelude::*;

use crate::language::Language;
use crate::text::str_eq;
use crate::tree::SyntaxTree;

verus! {

/// TypeScript language implementation.
#[derive(Debug, Clone, Copy, PartialEq, Eq, Hash)]
pub struct TypeScriptLang;

/// Relies on `tree_sitter_typescript::LANGUAGE_TYPESCRIPT`: the grammar
/// handle for TypeScript.
#[verifier::external_body]
fn typescript_grammar() -> tree_sitter::Language {
    tree_sitter_typescript::LANGUAGE_TYPESCRIPT.into()
}

impl Language for TypeScriptLang {
    open spec fn spec_cli_name(&self) -> Seq<char> {
        "typescript"@
    }

    open spec fn spec_file_pattern(&self) -> Seq<char> {
        "\\.(ts|tsx)$"@
    }

    open spec fn spec_extensions(&self) -> Seq<char> {
        ".ts, .tsx"@
    }

    open spec fn spec_display_name(&self) -> Seq<char> {
        "TypeScript"@
    }

    open spec fn spec_server_program(&self) -> Seq<char> {
        "typescript-language-server"@
    }

    open spec fn spec_server_args(&self) -> Seq<Seq<char>> {
        seq!["--stdio"@]
    }

    open spec fn spec_call_kinds(&self) -> Seq<Seq<char>> {
        seq!["call_expression"@, "new_expression"@]
    }

    open spec fn spec_is_call_kind(&self, kind: Seq<char>) -> bool {
        kind == "call_expression"@ || kind == "new_expression"@
    }

    open spec fn spec_find_call(&self, t: SyntaxTree, i: int) -> Option<int> {
        if t.spec_nodes()[i].kind@ == "call_expression"@ || t.spec_nodes()[i].kind@
            == "new_expression"@ {
            Some(i)
        } else {
            None
        }
    }

    open spec fn spec_find_function_declaration(&self, t: SyntaxTree, i: int) -> Option<int> {
        None
    }

    open spec fn spec_call_hierarchy_target(&self, t: SyntaxTree, i: int) -> Option<int> {
        None
    }

    proof fn lemma_call_kinds_agree(&self, kind: Seq<char>) {
        if self.spec_is_call_kind(kind) {
            if kind == "call_expression"@ {
                assert(self.spec_call_kinds()[0] == kind);
            } else {
                assert(self.spec_call_kinds()[1] == kind);
            }
        }
    }

    proof fn lemma_find_call_props(&self, t: SyntaxTree, i: int) {
    }

    proof fn lemma_narrowing_props(&self, t: SyntaxTree, i: int) {
    }

    fn cli_name(&self) -> (r: &'static str) {
        "typescript"
    }

    fn file_pattern(&self) -> (r: &'static str) {
        "\\.(ts|tsx)$"
    }

    fn extensions(&self) -> (r: &'static str) {
        ".ts, .tsx"
    }

    fn display_name(&self) -> (r: &'static str) {
        "TypeScript"
    }

    fn lsp_server_command(&self) -> (r: (&'static str, Vec<String>)) {
        let mut args: Vec<String> = Vec::new();
        args.push(String::from_str("--stdio"));
        proof {
            assert(args.deep_view() =~= self.spec_server_args());
        }
        ("typescript-language-server", args)
    }

    fn tree_sitter_language(&self) -> tree_sitter::Language {
        typescript_grammar()
    }

    fn call_node_kinds(&self) -> (r: Vec<String>) {
        let mut kinds: Vec<String> = Vec::new();
        kinds.push(String::from_str("call_expression"));
        kinds.push(String::from_str("new_expression"));
        proof {
            assert(kinds.deep_view() =~= self.spec_call_kinds());
        }
        kinds
    }

    fn find_call(&self, t: &SyntaxTree, i: usize) -> (r: Option<usize>) {
        if str_eq(t.kind_of(i), "call_expression") || str_eq(t.kind_of(i), "new_expression") {
            Some(i)
        } else {
            None
        }
    }

    fn find_function_declaration(&self, t: &SyntaxTree, i: usize) -> (r: Option<usize>) {
        None
    }

    fn call_hierarchy_target(&self, t: &SyntaxTree, i: usize) -> (r: Option<usize>) {
        None
    }
}

} // verus!
