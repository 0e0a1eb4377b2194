//! Tests of the Rust declaration-narrowing rules.

use tree_sitter_lsp_experiment::parser::parse_file_content;
use tree_sitter_lsp_experiment::Language;
use tree_sitter_lsp_experiment::RustLang;
use tree_sitter_lsp_experiment::SyntaxTree;

fn node_text<'a>(source: &'a str, tree: &SyntaxTree, i: usize) -> &'a str {
    let span = tree.span_of(i);
    &source[span.start_byte..span.end_byte]
}

fn root_child_of_kind(tree: &SyntaxTree, kind: &str) -> Option<usize> {
    child_of_kind(tree, 0, kind)
}

fn child_of_kind(tree: &SyntaxTree, node: usize, kind: &str) -> Option<usize> {
    for j in 0..tree.child_count_of(node) {
        let c = tree.child_of(node, j);
        if tree.kind_of(c) == kind {
            return Some(c);
        }
    }
    None
}

#[test]
fn rust_test_find_function_declaration() {
    let source = "fn hello() { println!(\"Hello\"); }";
    let tree = parse_file_content(source, RustLang).unwrap();
    let function_node = root_child_of_kind(&tree, "function_item").expect("Should find function_item");

    let identifier = RustLang.find_function_declaration(&tree, function_node);
    assert!(identifier.is_some());
    let identifier = identifier.unwrap();
    assert_eq!(tree.kind_of(identifier), "identifier");
    assert_eq!(node_text(source, &tree, identifier), "hello");
}

#[test]
fn rust_test_find_function_declaration_not_function() {
    let source = "let x = 5;";
    let tree = parse_file_content(source, RustLang).unwrap();
    let result = RustLang.find_function_declaration(&tree, 0);
    assert!(result.is_none());
}

#[test]
fn rust_test_call_hierarchy_target_function() {
    let source = "fn hello() { println!(\"Hello\"); }";
    let tree = parse_file_content(source, RustLang).unwrap();
    let function_node = root_child_of_kind(&tree, "function_item").expect("Should find function_item");

    let target = RustLang.call_hierarchy_target(&tree, function_node);
    assert!(target.is_some());
    assert_eq!(tree.kind_of(target.unwrap()), "identifier");
}

#[test]
fn test_call_hierarchy_target_trait_method() {
    let source = "trait MyTrait { fn method(&self); }";
    let tree = parse_file_content(source, RustLang).unwrap();

    let mut found_signature = None;
    if let Some(trait_item) = root_child_of_kind(&tree, "trait_item") {
        if let Some(decls) = child_of_kind(&tree, trait_item, "declaration_list") {
            found_signature = child_of_kind(&tree, decls, "function_signature_item");
        }
    }
    let signature_node = found_signature.expect("Should find function_signature_item");

    let target = RustLang.call_hierarchy_target(&tree, signature_node);
    assert!(target.is_some());
    assert_eq!(tree.kind_of(target.unwrap()), "identifier");
}

#[test]
fn rust_test_call_hierarchy_target_not_function() {
    let source = "let x = 5;";
    let tree = parse_file_content(source, RustLang).unwrap();
    let result = RustLang.call_hierarchy_target(&tree, 0);
    assert!(result.is_none());
}
