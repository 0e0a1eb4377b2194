//! Tests of parsing source text into the tree model and walking it for
//! calls.

use tree_sitter_lsp_experiment::parser::get_calls;
use tree_sitter_lsp_experiment::parser::parse_file_content;
use tree_sitter_lsp_experiment::CallNode;
use tree_sitter_lsp_experiment::GoLang;
use tree_sitter_lsp_experiment::PythonLang;
use tree_sitter_lsp_experiment::RustLang;
use tree_sitter_lsp_experiment::SwiftLang;
use tree_sitter_lsp_experiment::SyntaxTree;
use tree_sitter_lsp_experiment::TypeScriptLang;

fn call_text<'a>(source: &'a str, call: &CallNode) -> &'a str {
    &source[call.call_span.start_byte..call.call_span.end_byte]
}

fn anchor_text<'a>(source: &'a str, call: &CallNode) -> &'a str {
    &source[call.goto_definition_span.start_byte..call.goto_definition_span.end_byte]
}

#[test]
fn test_parse_rust_file() {
    let source = "fn main() {\n    println!(\"Hello, world!\");\n}\n";
    let tree = parse_file_content(source, RustLang).unwrap();
    assert!(tree.child_count_of(0) > 0);
    assert_eq!(tree.kind_of(0), "source_file");
}

#[test]
fn test_parse_python_file() {
    let source = "def hello():\n    print('Hello, world!')\n";
    let tree = parse_file_content(source, PythonLang).unwrap();
    assert!(tree.child_count_of(0) > 0);
    assert_eq!(tree.kind_of(0), "module");
}

#[test]
fn test_parse_typescript_file() {
    let source = "function hello(): void {\n    console.log('Hello, world!');\n}\n";
    let tree = parse_file_content(source, TypeScriptLang).unwrap();
    assert!(tree.child_count_of(0) > 0);
    assert_eq!(tree.kind_of(0), "program");
}

#[test]
fn test_parse_go_file() {
    let source = "package main\n\nfunc main() {\n    println(\"Hello, world!\")\n}\n";
    let tree = parse_file_content(source, GoLang).unwrap();
    assert!(tree.child_count_of(0) > 0);
    assert_eq!(tree.kind_of(0), "source_file");
}

#[test]
fn test_parse_swift_file() {
    let source = "func hello() {\n    print(\"Hello, world!\")\n}\n";
    let tree = parse_file_content(source, SwiftLang).unwrap();
    assert!(tree.child_count_of(0) > 0);
    assert_eq!(tree.kind_of(0), "source_file");
}

#[test]
fn test_parse_invalid_syntax() {
    let source = "fn main() { this is invalid rust\n";
    // The parser still succeeds; the tree may hold error nodes.
    let tree = parse_file_content(source, RustLang).unwrap();
    assert!(tree.child_count_of(0) > 0);
}

#[test]
fn test_get_calls_rust() {
    let source = "fn main() {\n    println!(\"Hello\");\n    let x = calculate(5, 10);\n    foo();\n}\n\nfn calculate(a: i32, b: i32) -> i32 {\n    a + b\n}\n";
    let tree = parse_file_content(source, RustLang).unwrap();
    let calls = get_calls(&tree, RustLang);

    // Should find: println! (macro), calculate (call), foo (call).
    assert_eq!(calls.len(), 3);

    assert_eq!(tree.kind_of(calls[0].call), "macro_invocation");
    assert!(call_text(source, &calls[0]).contains("println!"));

    assert_eq!(tree.kind_of(calls[1].call), "call_expression");
    assert!(call_text(source, &calls[1]).contains("calculate"));

    assert_eq!(tree.kind_of(calls[2].call), "call_expression");
    assert!(call_text(source, &calls[2]).contains("foo"));
}

#[test]
fn test_get_calls_python() {
    let source = "def main():\n    print('Hello')\n    result = calculate(5, 10)\n    foo()\n";
    let tree = parse_file_content(source, PythonLang).unwrap();
    let calls = get_calls(&tree, PythonLang);

    // Should find: print, calculate, foo in that order.
    assert_eq!(calls.len(), 3);

    assert_eq!(tree.kind_of(calls[0].call), "call");
    assert!(call_text(source, &calls[0]).contains("print"));

    assert_eq!(tree.kind_of(calls[1].call), "call");
    assert!(call_text(source, &calls[1]).contains("calculate"));

    assert_eq!(tree.kind_of(calls[2].call), "call");
    assert!(call_text(source, &calls[2]).contains("foo"));
}

#[test]
fn test_get_calls_typescript() {
    let source = "function main() {\n    console.log('Hello');\n    const x = calculate(5, 10);\n    const obj = new MyClass();\n}\n";
    let tree = parse_file_content(source, TypeScriptLang).unwrap();
    let calls = get_calls(&tree, TypeScriptLang);

    // Should find: console.log, calculate, new MyClass in that order.
    assert_eq!(calls.len(), 3);

    assert_eq!(tree.kind_of(calls[0].call), "call_expression");
    assert!(call_text(source, &calls[0]).contains("console.log"));

    assert_eq!(tree.kind_of(calls[1].call), "call_expression");
    assert!(call_text(source, &calls[1]).contains("calculate"));

    assert_eq!(tree.kind_of(calls[2].call), "new_expression");
    assert!(call_text(source, &calls[2]).contains("MyClass"));
}

#[test]
fn test_get_calls_go() {
    let source = "package main\n\nfunc main() {\n    println(\"Hello\")\n    x := calculate(5, 10)\n}\n";
    let tree = parse_file_content(source, GoLang).unwrap();
    let calls = get_calls(&tree, GoLang);

    // Should find: println, calculate in that order.
    assert_eq!(calls.len(), 2);

    assert_eq!(tree.kind_of(calls[0].call), "call_expression");
    assert!(call_text(source, &calls[0]).contains("println"));

    assert_eq!(tree.kind_of(calls[1].call), "call_expression");
    assert!(call_text(source, &calls[1]).contains("calculate"));
}

#[test]
fn test_get_calls_swift_function_call() {
    let source = "func main() {\n    print(\"Hello\")\n    let x = calculate(5, 10)\n}\n";
    let tree = parse_file_content(source, SwiftLang).unwrap();
    let calls = get_calls(&tree, SwiftLang);

    // Should find: print, calculate in that order.
    assert_eq!(calls.len(), 2);

    assert_eq!(tree.kind_of(calls[0].call), "call_expression");
    assert!(call_text(source, &calls[0]).contains("print"));
    assert_eq!(tree.kind_of(calls[0].goto_definition), "simple_identifier");
    assert_eq!(anchor_text(source, &calls[0]), "print");

    assert_eq!(tree.kind_of(calls[1].call), "call_expression");
    assert_eq!(call_text(source, &calls[1]), "calculate(5, 10)");
    assert_eq!(tree.kind_of(calls[1].goto_definition), "simple_identifier");
    assert_eq!(anchor_text(source, &calls[1]), "calculate");
}

#[test]
fn test_get_calls_swift_method_call() {
    let source = "class Calculator {\n    func add(_ a: Int, _ b: Int) -> Int {\n        return a + b\n    }\n}\nlet calc = Calculator()\nlet result = calc.add(2, 3)\nlet digest = Foo<UInt8>.allocate(capacity: length)\n";
    let tree = parse_file_content(source, SwiftLang).unwrap();
    let calls = get_calls(&tree, SwiftLang);

    assert!(calls.len() == 3);

    // The method call `calc.add(2, 3)`.
    let method_call = calls.get(1).expect("Method call not found");
    assert_eq!(tree.kind_of(method_call.call), "call_expression");
    // The goto-definition node should point to just the method name "add".
    assert_eq!(tree.kind_of(method_call.goto_definition), "simple_identifier");
    assert_eq!(anchor_text(source, method_call), "add");

    // The method call `Foo<UInt8>.allocate(capacity: length)`.
    let method_call = calls.get(2).expect("Method call not found");
    assert_eq!(tree.kind_of(method_call.call), "call_expression");
    // The goto-definition node should point to just the method name
    // "allocate", but the Swift grammar does not parse the call into that
    // shape because of the generics, so the anchor falls back to a wider
    // node.
    assert_eq!(anchor_text(source, method_call), ".allocate(capacity: length)");
}

#[test]
fn scenario_free_function_calls() {
    // Two free-function calls; each call site anchors at the whole call.
    let source = "fn main() { foo(); bar(1,2); }";
    let tree = parse_file_content(source, RustLang).unwrap();
    let calls = get_calls(&tree, RustLang);
    assert_eq!(calls.len(), 2);
    assert_eq!(call_text(source, &calls[0]), "foo()");
    assert_eq!(call_text(source, &calls[1]), "bar(1,2)");
    assert!(calls[0].call_span.start_byte < calls[1].call_span.start_byte);
    for call in &calls {
        assert_eq!(call.goto_definition_span, call.call_span);
    }
}

#[test]
fn scenario_member_call_anchor() {
    // A member-access call anchors at the 3-character method name alone.
    let source = "let r = calc.add(2, 3)\n";
    let tree = parse_file_content(source, SwiftLang).unwrap();
    let calls = get_calls(&tree, SwiftLang);
    assert_eq!(calls.len(), 1);
    let call = &calls[0];
    assert_eq!(anchor_text(source, call), "add");
    assert_eq!(
        call.goto_definition_span.end_byte - call.goto_definition_span.start_byte,
        3
    );
    assert_ne!(call.goto_definition_span, call.call_span);
}

#[test]
fn walker_is_deterministic() {
    let source = "fn main() {\n    a();\n    b(c(), d());\n}\n";
    let tree = parse_file_content(source, RustLang).unwrap();
    let first = get_calls(&tree, RustLang);
    let second = get_calls(&tree, RustLang);
    assert_eq!(first.len(), second.len());
    for (x, y) in first.iter().zip(second.iter()) {
        assert_eq!(x, y);
    }
    // Nested calls are each reported independently, in pre-order.
    assert_eq!(first.len(), 4);
    assert_eq!(call_text(source, &first[0]), "a()");
    assert_eq!(call_text(source, &first[1]), "b(c(), d())");
    assert_eq!(call_text(source, &first[2]), "c()");
    assert_eq!(call_text(source, &first[3]), "d()");
}

#[test]
fn walker_anchor_contained() {
    let source = "let r = calc.add(2, 3)\nlet s = foo()\n";
    let tree = parse_file_content(source, SwiftLang).unwrap();
    let calls = get_calls(&tree, SwiftLang);
    assert!(!calls.is_empty());
    for call in &calls {
        assert!(call.call_span.start_byte <= call.goto_definition_span.start_byte);
        assert!(call.goto_definition_span.end_byte <= call.call_span.end_byte);
    }
}

#[test]
fn walker_empty_without_call_kinds() {
    // A tree with no nodes of a call kind yields an empty sequence, not an
    // error.
    let source = "const X: i32 = 5;\n";
    let tree = parse_file_content(source, RustLang).unwrap();
    let calls = get_calls(&tree, RustLang);
    assert!(calls.is_empty());

    // The same holds for a hand-built tree with no matching kinds.
    let mut built = SyntaxTree::new();
    let span = tree_sitter_lsp_experiment::Span::new(
        0,
        10,
        tree_sitter_lsp_experiment::Point { row: 0, column: 0 },
        tree_sitter_lsp_experiment::Point { row: 0, column: 10 },
    );
    let root = built.add_node(None, "source_file", span).unwrap();
    built.add_node(Some(root), "identifier", span).unwrap();
    let calls = get_calls(&built, RustLang);
    assert!(calls.is_empty());
}

#[test]
fn display_node_location_renders_one_based() {
    let source = "fn main() { foo(); }";
    let tree = parse_file_content(source, RustLang).unwrap();
    let calls = get_calls(&tree, RustLang);
    assert_eq!(calls.len(), 1);
    let rendered = tree_sitter_lsp_experiment::display_node_location("src/main.rs", &tree, calls[0].call);
    assert_eq!(rendered, "src/main.rs:1:13");
}
