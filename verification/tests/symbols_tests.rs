//! Tests of the callable-symbol collection.

use tree_sitter_lsp_experiment::symbols::collect_symbols_with_calls;
use tree_sitter_lsp_experiment::symbols::SymbolInfoKind;
use tree_sitter_lsp_experiment::symbols::SymbolTree;
use tree_sitter_lsp_experiment::symbols::SymbolTreeError;
use tree_sitter_lsp_experiment::Position;

fn at(line: u32) -> Position {
    Position { line, character: 0 }
}

#[test]
fn collects_nested_callables_in_order() {
    let mut forest = SymbolTree::new();
    let f = forest
        .add_symbol(None, "free_fn", SymbolInfoKind::Function, at(0))
        .unwrap();
    let class = forest
        .add_symbol(None, "MyClass", SymbolInfoKind::Other, at(2))
        .unwrap();
    let ctor = forest
        .add_symbol(Some(class), "new", SymbolInfoKind::Constructor, at(3))
        .unwrap();
    let method = forest
        .add_symbol(Some(class), "run", SymbolInfoKind::Method, at(5))
        .unwrap();
    let _field = forest
        .add_symbol(Some(class), "count", SymbolInfoKind::Other, at(7))
        .unwrap();

    let collected = collect_symbols_with_calls(&forest);
    assert_eq!(collected, vec![f, ctor, method]);
    assert_eq!(forest.name_of(collected[0]), "free_fn");
    assert_eq!(forest.selection_start_of(collected[2]).line, 5);
}

#[test]
fn does_not_descend_into_interfaces() {
    let mut forest = SymbolTree::new();
    let iface = forest
        .add_symbol(None, "MyInterface", SymbolInfoKind::Interface, at(0))
        .unwrap();
    forest
        .add_symbol(Some(iface), "declared", SymbolInfoKind::Method, at(1))
        .unwrap();
    let f = forest
        .add_symbol(None, "after", SymbolInfoKind::Function, at(4))
        .unwrap();

    // The interface itself is not callable and its members are skipped.
    let collected = collect_symbols_with_calls(&forest);
    assert_eq!(collected, vec![f]);
}

#[test]
fn collection_is_deterministic_and_total() {
    let mut forest = SymbolTree::new();
    for k in 0..5 {
        forest
            .add_symbol(None, "f", SymbolInfoKind::Function, at(k))
            .unwrap();
    }
    let first = collect_symbols_with_calls(&forest);
    let second = collect_symbols_with_calls(&forest);
    assert_eq!(first, second);
    assert_eq!(first.len(), 5);

    let empty = SymbolTree::new();
    assert!(collect_symbols_with_calls(&empty).is_empty());
}

#[test]
fn symbol_tree_rejects_missing_parent() {
    let mut forest = SymbolTree::new();
    let outcome = forest.add_symbol(Some(3), "orphan", SymbolInfoKind::Method, at(0));
    assert_eq!(outcome, Err(SymbolTreeError::NoSuchParent));
    assert_eq!(forest.len(), 0);
}
