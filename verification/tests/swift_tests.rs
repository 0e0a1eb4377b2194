//! Tests of the Swift declaration-narrowing rules.

use tree_sitter_lsp_experiment::parser::parse_file_content;
use tree_sitter_lsp_experiment::Language;
use tree_sitter_lsp_experiment::SwiftLang;
use tree_sitter_lsp_experiment::SyntaxTree;

fn node_text<'a>(source: &'a str, tree: &SyntaxTree, i: usize) -> &'a str {
    let span = tree.span_of(i);
    &source[span.start_byte..span.end_byte]
}

fn child_of_kind(tree: &SyntaxTree, node: usize, kind: &str) -> Option<usize> {
    for j in 0..tree.child_count_of(node) {
        let c = tree.child_of(node, j);
        if tree.kind_of(c) == kind {
            return Some(c);
        }
    }
    None
}

#[test]
fn swift_test_find_function_declaration() {
    let source = "func hello() { print(\"Hello\") }";
    let tree = parse_file_content(source, SwiftLang).unwrap();
    let function_node =
        child_of_kind(&tree, 0, "function_declaration").expect("Should find function_declaration");

    let identifier = SwiftLang.find_function_declaration(&tree, function_node);
    assert!(identifier.is_some());
    let identifier = identifier.unwrap();
    assert_eq!(tree.kind_of(identifier), "simple_identifier");
    assert_eq!(node_text(source, &tree, identifier), "hello");
}

#[test]
fn swift_test_find_method_declaration() {
    let source = "class MyClass { func myMethod() {} }";
    let tree = parse_file_content(source, SwiftLang).unwrap();

    let class_node =
        child_of_kind(&tree, 0, "class_declaration").expect("Should find class_declaration");
    let mut method_node = None;
    if let Some(body) = child_of_kind(&tree, class_node, "class_body") {
        method_node = child_of_kind(&tree, body, "function_declaration");
    }
    let method_node = method_node.expect("Should find function_declaration");

    let identifier = SwiftLang.find_function_declaration(&tree, method_node);
    assert!(identifier.is_some());
    let identifier = identifier.unwrap();
    assert_eq!(tree.kind_of(identifier), "simple_identifier");
    assert_eq!(node_text(source, &tree, identifier), "myMethod");
}

#[test]
fn swift_test_find_function_declaration_not_function() {
    let source = "let x = 5";
    let tree = parse_file_content(source, SwiftLang).unwrap();
    let result = SwiftLang.find_function_declaration(&tree, 0);
    assert!(result.is_none());
}
