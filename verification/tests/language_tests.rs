//! Tests of the per-language descriptors.

use tree_sitter_lsp_experiment::file_search::file_regex;
use tree_sitter_lsp_experiment::file_search::regex_is_match;
use tree_sitter_lsp_experiment::GoLang;
use tree_sitter_lsp_experiment::Language;
use tree_sitter_lsp_experiment::PythonLang;
use tree_sitter_lsp_experiment::RustLang;
use tree_sitter_lsp_experiment::SwiftLang;
use tree_sitter_lsp_experiment::TypeScriptLang;

#[test]
fn test_language_patterns() {
    assert_eq!(RustLang.file_pattern(), r"\.rs$");
    assert_eq!(PythonLang.file_pattern(), r"\.py$");
    assert_eq!(TypeScriptLang.file_pattern(), r"\.(ts|tsx)$");
    assert_eq!(GoLang.file_pattern(), r"\.go$");
}

#[test]
fn test_file_regex() {
    let rust_regex = file_regex(RustLang).unwrap();
    assert!(regex_is_match(&rust_regex, "main.rs"));
    assert!(regex_is_match(&rust_regex, "lib.rs"));
    assert!(!regex_is_match(&rust_regex, "main.py"));
    assert!(!regex_is_match(&rust_regex, "main.rs.bak"));

    let ts_regex = file_regex(TypeScriptLang).unwrap();
    assert!(regex_is_match(&ts_regex, "app.ts"));
    assert!(regex_is_match(&ts_regex, "component.tsx"));
    assert!(!regex_is_match(&ts_regex, "app.js"));
}

#[test]
fn test_language_names() {
    assert_eq!(RustLang.cli_name(), "rust");
    assert_eq!(RustLang.display_name(), "Rust");
    assert_eq!(RustLang.extensions(), ".rs");
    assert_eq!(PythonLang.cli_name(), "python");
    assert_eq!(PythonLang.display_name(), "Python");
    assert_eq!(TypeScriptLang.cli_name(), "typescript");
    assert_eq!(GoLang.cli_name(), "go");
    assert_eq!(SwiftLang.cli_name(), "swift");
    assert_eq!(SwiftLang.extensions(), ".swift");
}

#[test]
fn test_server_commands() {
    let (prog, args) = RustLang.lsp_server_command();
    assert_eq!(prog, "rust-analyzer");
    assert!(args.is_empty());
    let (prog, args) = TypeScriptLang.lsp_server_command();
    assert_eq!(prog, "typescript-language-server");
    assert_eq!(args, vec!["--stdio".to_string()]);
    let (prog, _) = GoLang.lsp_server_command();
    assert_eq!(prog, "gopls");
    let (prog, _) = PythonLang.lsp_server_command();
    assert_eq!(prog, "pylsp");
    let (prog, _) = SwiftLang.lsp_server_command();
    assert_eq!(prog, "sourcekit-lsp");
}

#[test]
fn test_call_node_kinds() {
    assert_eq!(
        RustLang.call_node_kinds(),
        vec!["call_expression".to_string(), "macro_invocation".to_string()]
    );
    assert_eq!(PythonLang.call_node_kinds(), vec!["call".to_string()]);
    assert_eq!(
        TypeScriptLang.call_node_kinds(),
        vec!["call_expression".to_string(), "new_expression".to_string()]
    );
    assert_eq!(GoLang.call_node_kinds(), vec!["call_expression".to_string()]);
    assert_eq!(
        SwiftLang.call_node_kinds(),
        vec!["call_expression".to_string(), "function_call_expression".to_string()]
    );
}
