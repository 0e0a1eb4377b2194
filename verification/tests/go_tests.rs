//! Tests of the Go declaration-narrowing rules.

use tree_sitter_lsp_experiment::parser::parse_file_content;
use tree_sitter_lsp_experiment::GoLang;
use tree_sitter_lsp_experiment::Language;
use tree_sitter_lsp_experiment::SyntaxTree;

fn node_text<'a>(source: &'a str, tree: &SyntaxTree, i: usize) -> &'a str {
    let span = tree.span_of(i);
    &source[span.start_byte..span.end_byte]
}

fn root_child_of_kind(tree: &SyntaxTree, kind: &str) -> Option<usize> {
    child_of_kind(tree, 0, kind)
}

fn child_of_kind(tree: &SyntaxTree, node: usize, kind: &str) -> Option<usize> {
    for j in 0..tree.child_count_of(node) {
        let c = tree.child_of(node, j);
        if tree.kind_of(c) == kind {
            return Some(c);
        }
    }
    None
}

#[test]
fn go_test_find_function_declaration() {
    let source = "package main\n\nfunc hello() { println(\"Hello\") }";
    let tree = parse_file_content(source, GoLang).unwrap();
    let function_node =
        root_child_of_kind(&tree, "function_declaration").expect("Should find function_declaration");

    let identifier = GoLang.find_function_declaration(&tree, function_node);
    assert!(identifier.is_some());
    let identifier = identifier.unwrap();
    assert_eq!(tree.kind_of(identifier), "identifier");
    assert_eq!(node_text(source, &tree, identifier), "hello");
}

#[test]
fn go_test_find_method_declaration() {
    let source = "package main\n\nfunc (r Receiver) Method() {}";
    let tree = parse_file_content(source, GoLang).unwrap();
    let method_node =
        root_child_of_kind(&tree, "method_declaration").expect("Should find method_declaration");

    let identifier = GoLang.find_function_declaration(&tree, method_node);
    assert!(identifier.is_some());
    let identifier = identifier.unwrap();
    assert_eq!(node_text(source, &tree, identifier), "Method");
}

#[test]
fn go_test_find_function_declaration_not_function() {
    let source = "package main";
    let tree = parse_file_content(source, GoLang).unwrap();
    let result = GoLang.find_function_declaration(&tree, 0);
    assert!(result.is_none());
}

#[test]
fn go_test_call_hierarchy_target_function() {
    let source = "package main\n\nfunc hello() { println(\"Hello\") }";
    let tree = parse_file_content(source, GoLang).unwrap();
    let function_node =
        root_child_of_kind(&tree, "function_declaration").expect("Should find function_declaration");

    let target = GoLang.call_hierarchy_target(&tree, function_node);
    assert!(target.is_some());
    assert_eq!(tree.kind_of(target.unwrap()), "identifier");
}

#[test]
fn test_call_hierarchy_target_method() {
    let source = "package main\n\nfunc (r Receiver) Method() {}";
    let tree = parse_file_content(source, GoLang).unwrap();
    let method_node =
        root_child_of_kind(&tree, "method_declaration").expect("Should find method_declaration");

    let target = GoLang.call_hierarchy_target(&tree, method_node);
    assert!(target.is_some());
    assert_eq!(tree.kind_of(target.unwrap()), "field_identifier");
}

#[test]
fn test_call_hierarchy_target_interface_method() {
    let source = "package main\n\ntype MyInterface interface { Method() }";
    let tree = parse_file_content(source, GoLang).unwrap();

    let mut found_spec = None;
    if let Some(type_decl) = root_child_of_kind(&tree, "type_declaration") {
        if let Some(type_spec) = child_of_kind(&tree, type_decl, "type_spec") {
            if let Some(iface) = child_of_kind(&tree, type_spec, "interface_type") {
                found_spec = child_of_kind(&tree, iface, "method_elem");
            }
        }
    }
    let spec_node = found_spec.expect("Should find method_elem");

    let target = GoLang.call_hierarchy_target(&tree, spec_node);
    assert!(target.is_some());
    assert_eq!(tree.kind_of(target.unwrap()), "field_identifier");
}

#[test]
fn go_test_call_hierarchy_target_not_function() {
    let source = "package main";
    let tree = parse_file_content(source, GoLang).unwrap();
    let result = GoLang.call_hierarchy_target(&tree, 0);
    assert!(result.is_none());
}
