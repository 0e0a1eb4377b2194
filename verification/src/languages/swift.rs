//! Swift language implementation.

use vstd::prelude::*;

use crate::language::Language;
use crate::span::lemma_contains_transitive;
use crate::text::str_eq;
use crate::tree::lemma_scan_child_props;
use crate::tree::SyntaxTree;

verus! {

/// Swift language implementation.
#[derive(Debug, Clone, Copy, PartialEq, Eq, Hash)]
pub struct SwiftLang;

/// Relies on `tree_sitter_swift::LANGUAGE`: the grammar handle for Swift.
#[verifier::external_body]
fn swift_grammar() -> tree_sitter::Language {
    tree_sitter_swift::LANGUAGE.into()
}

impl SwiftLang {
    /// The method-name node nested in a navigation expression `c`: the first
    /// `simple_identifier` inside `c`'s first `navigation_suffix` child.
    /// In Swift, `calc.add(2, 3)` parses as a call expression whose first
    /// child is a navigation expression; the name `add` sits in its suffix.
    pub open spec fn spec_nav_anchor(t: SyntaxTree, c: int) -> Option<int> {
        match t.spec_first_child_kind(c, "navigation_suffix"@) {
            Some(s) => t.spec_first_child_kind(s, "simple_identifier"@),
            None => None,
        }
    }

    /// Scans the children of call node `i` from position `j` on: a
    /// navigation expression yields the nested method name if one is found,
    /// and a bare `simple_identifier` or `identifier` child is the callee of
    /// a plain function call.
    pub open spec fn spec_scan_anchor(t: SyntaxTree, i: int, j: int) -> Option<int>
        decreases t.spec_nodes()[i].children@.len() - j,
        when 0 <= j
    {
        if j >= t.spec_nodes()[i].children@.len() {
            None
        } else {
            let c = t.spec_nodes()[i].children@[j];
            if t.spec_nodes()[c as int].kind@ == "navigation_expression"@ {
                match Self::spec_nav_anchor(t, c as int) {
                    Some(a) => Some(a),
                    None => Self::spec_scan_anchor(t, i, j + 1),
                }
            } else if t.spec_nodes()[c as int].kind@ == "simple_identifier"@ || t.spec_nodes()[
                c as int
            ].kind@ == "identifier"@ {
                Some(c as int)
            } else {
                Self::spec_scan_anchor(t, i, j + 1)
            }
        }
    }

    /// Whatever the anchor scan returns is a strict descendant of the call
    /// node, with a contained span.
    pub proof fn lemma_scan_anchor_props(t: SyntaxTree, i: int, j: int)
        requires
            t.wf(),
            0 <= i < t.spec_len(),
            0 <= j,
        ensures
            match Self::spec_scan_anchor(t, i, j) {
                Some(a) => {
                    &&& i < a < t.spec_len()
                    &&& t.spec_nodes()[i].span.spec_contains(t.spec_nodes()[a].span)
                },
                None => true,
            },
        decreases t.spec_nodes()[i].children@.len() - j,
    {
        if j < t.spec_nodes()[i].children@.len() {
            assert(t.wf_at(i));
            let c = t.spec_nodes()[i].children@[j];
            if t.spec_nodes()[c as int].kind@ == "navigation_expression"@ {
                lemma_scan_child_props(t, c as int, 0, "navigation_suffix"@, "navigation_suffix"@);
                match t.spec_first_child_kind(c as int, "navigation_suffix"@) {
                    Some(s) => {
                        lemma_scan_child_props(t, s, 0, "simple_identifier"@, "simple_identifier"@);
                        match t.spec_first_child_kind(s, "simple_identifier"@) {
                            Some(a) => {
                                lemma_contains_transitive(
                                    t.spec_nodes()[c as int].span,
                                    t.spec_nodes()[s].span,
                                    t.spec_nodes()[a].span,
                                );
                                lemma_contains_transitive(
                                    t.spec_nodes()[i].span,
                                    t.spec_nodes()[c as int].span,
                                    t.spec_nodes()[a].span,
                                );
                            },
                            None => {
                                Self::lemma_scan_anchor_props(t, i, j + 1);
                            },
                        }
                    },
                    None => {
                        Self::lemma_scan_anchor_props(t, i, j + 1);
                    },
                }
            } else if t.spec_nodes()[c as int].kind@ == "simple_identifier"@ || t.spec_nodes()[
                c as int
            ].kind@ == "identifier"@ {
            } else {
                Self::lemma_scan_anchor_props(t, i, j + 1);
            }
        }
    }
}

impl Language for SwiftLang {
    open spec fn spec_cli_name(&self) -> Seq<char> {
        "swift"@
    }

    open spec fn spec_file_pattern(&self) -> Seq<char> {
        "\\.swift$"@
    }

    open spec fn spec_extensions(&self) -> Seq<char> {
        ".swift"@
    }

    open spec fn spec_display_name(&self) -> Seq<char> {
        "Swift"@
    }

    open spec fn spec_server_program(&self) -> Seq<char> {
        "sourcekit-lsp"@
    }

    open spec fn spec_server_args(&self) -> Seq<Seq<char>> {
        Seq::empty()
    }

    open spec fn spec_call_kinds(&self) -> Seq<Seq<char>> {
        seq!["call_expression"@, "function_call_expression"@]
    }

    open spec fn spec_is_call_kind(&self, kind: Seq<char>) -> bool {
        kind == "call_expression"@ || kind == "function_call_expression"@
    }

    open spec fn spec_find_call(&self, t: SyntaxTree, i: int) -> Option<int> {
        if t.spec_nodes()[i].kind@ == "call_expression"@ {
            match Self::spec_scan_anchor(t, i, 0) {
                Some(a) => Some(a),
                None => Some(i),
            }
        } else if t.spec_nodes()[i].kind@ == "function_call_expression"@ {
            Some(i)
        } else {
            None
        }
    }

    open spec fn spec_find_function_declaration(&self, t: SyntaxTree, i: int) -> Option<int> {
        if t.spec_nodes()[i].kind@ == "function_declaration"@ {
            t.spec_first_child_kind(i, "simple_identifier"@)
        } else {
            None
        }
    }

    open spec fn spec_call_hierarchy_target(&self, t: SyntaxTree, i: int) -> Option<int> {
        None
    }

    proof fn lemma_call_kinds_agree(&self, kind: Seq<char>) {
        if self.spec_is_call_kind(kind) {
            if kind == "call_expression"@ {
                assert(self.spec_call_kinds()[0] == kind);
            } else {
                assert(self.spec_call_kinds()[1] == kind);
            }
        }
    }

    proof fn lemma_find_call_props(&self, t: SyntaxTree, i: int) {
        if t.spec_nodes()[i].kind@ == "call_expression"@ {
            Self::lemma_scan_anchor_props(t, i, 0);
        }
    }

    proof fn lemma_narrowing_props(&self, t: SyntaxTree, i: int) {
        lemma_scan_child_props(t, i, 0, "simple_identifier"@, "simple_identifier"@);
    }

    fn cli_name(&self) -> (r: &'static str) {
        "swift"
    }

    fn file_pattern(&self) -> (r: &'static str) {
        "\\.swift$"
    }

    fn extensions(&self) -> (r: &'static str) {
        ".swift"
    }

    fn display_name(&self) -> (r: &'static str) {
        "Swift"
    }

    fn lsp_server_command(&self) -> (r: (&'static str, Vec<String>)) {
        let args: Vec<String> = Vec::new();
        proof {
            assert(args.deep_view() =~= self.spec_server_args());
        }
        ("sourcekit-lsp", args)
    }

    fn tree_sitter_language(&self) -> tree_sitter::Language {
        swift_grammar()
    }

    fn call_node_kinds(&self) -> (r: Vec<String>) {
        let mut kinds: Vec<String> = Vec::new();
        kinds.push(String::from_str("call_expression"));
        kinds.push(String::from_str("function_call_expression"));
        proof {
            assert(kinds.deep_view() =~= self.spec_call_kinds());
        }
        kinds
    }

    fn find_call(&self, t: &SyntaxTree, i: usize) -> (r: Option<usize>) {
        if str_eq(t.kind_of(i), "call_expression") {
            // Scan the children for a nested method name or a bare callee
            // name, exactly as `spec_scan_anchor` does.
            let n = t.child_count_of(i);
            let mut j: usize = 0;
            while j < n
                invariant
                    t.wf(),
                    i < t.spec_len(),
                    j <= n,
                    n == t.spec_nodes()[i as int].children@.len(),
                    t.spec_nodes()[i as int].kind@ == "call_expression"@,
                    Self::spec_scan_anchor(*t, i as int, 0) == Self::spec_scan_anchor(
                        *t,
                        i as int,
                        j as int,
                    ),
                decreases n - j,
            {
                let c = t.child_of(i, j);
                proof {
                    assert(t.wf_at(i as int));
                }
                if str_eq(t.kind_of(c), "navigation_expression") {
                    match t.first_child_with_kind(c, "navigation_suffix") {
                        Some(s) => {
                            match t.first_child_with_kind(s, "simple_identifier") {
                                Some(a) => {
                                    return Some(a);
                                },
                                None => {},
                            }
                        },
                        None => {},
                    }
                } else if str_eq(t.kind_of(c), "simple_identifier") || str_eq(
                    t.kind_of(c),
                    "identifier",
                ) {
                    return Some(c);
                }
                j = j + 1;
            }
            Some(i)
        } else if str_eq(t.kind_of(i), "function_call_expression") {
            Some(i)
        } else {
            None
        }
    }

    fn find_function_declaration(&self, t: &SyntaxTree, i: usize) -> (r: Option<usize>) {
        if str_eq(t.kind_of(i), "function_declaration") {
            t.first_child_with_kind(i, "simple_identifier")
        } else {
            None
        }
    }

    fn call_hierarchy_target(&self, t: &SyntaxTree, i: usize) -> (r: Option<usize>) {
        None
    }
}

} // verus!
