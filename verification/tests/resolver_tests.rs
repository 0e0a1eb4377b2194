//! Tests of the resolver policies, the query builders, the report
//! renderers, the search configuration and the argument validation.

use tree_sitter_lsp_experiment::call_with_target::pretty_print_location;
use tree_sitter_lsp_experiment::file_search::file_regex;
use tree_sitter_lsp_experiment::file_search::glob_new;
use tree_sitter_lsp_experiment::RustLang;
use tree_sitter_lsp_experiment::call_with_target::resolution_of;
use tree_sitter_lsp_experiment::cli::is_supported_language;
use tree_sitter_lsp_experiment::cli::CliError;
use tree_sitter_lsp_experiment::integration::build_position_params;
use tree_sitter_lsp_experiment::integration::path_is_wire_safe;
use tree_sitter_lsp_experiment::integration::retry_delays_ms;
use tree_sitter_lsp_experiment::integration::hierarchy_retry_delays_ms;
use tree_sitter_lsp_experiment::integration::call_hierarchy_outgoing_request;
use tree_sitter_lsp_experiment::lsp::SessionError;
use tree_sitter_lsp_experiment::goto_definition_for_node;
use tree_sitter_lsp_experiment::Args;
use tree_sitter_lsp_experiment::CallNode;
use tree_sitter_lsp_experiment::CallWithTarget;
use tree_sitter_lsp_experiment::FileSearchConfig;
use tree_sitter_lsp_experiment::Point;
use tree_sitter_lsp_experiment::Position;
use tree_sitter_lsp_experiment::Resolution;
use tree_sitter_lsp_experiment::Session;
use tree_sitter_lsp_experiment::Span;
use tree_sitter_lsp_experiment::SyntaxTree;
use tree_sitter_lsp_experiment::TargetLocation;
use tree_sitter_lsp_experiment::tree::TreeError;

fn span(start_byte: usize, end_byte: usize, row: usize, start_col: usize, end_col: usize) -> Span {
    Span::new(
        start_byte,
        end_byte,
        Point { row, column: start_col },
        Point { row, column: end_col },
    )
}

#[test]
fn scenario_retry_budget_exhausted() {
    // A first query in a file whose every attempt legitimately returns
    // nothing ends after the whole bounded budget, and the total delay is
    // exactly the sum of the configured backoff steps.
    let delays = retry_delays_ms(true);
    assert_eq!(delays, vec![0, 50, 250]);
    let mut attempts = 0;
    let mut total_delay: u64 = 0;
    let mut found = false;
    for delay in &delays {
        total_delay += delay;
        attempts += 1;
        let outcome: Option<Vec<TargetLocation>> = Some(Vec::new());
        if let Some(locations) = outcome {
            if !locations.is_empty() {
                found = true;
                break;
            }
        }
    }
    assert!(!found);
    assert_eq!(attempts, 3);
    assert_eq!(total_delay, 300);

    // Later queries in the same file get exactly one attempt at once.
    let single = retry_delays_ms(false);
    assert_eq!(single, vec![0]);
    assert_eq!(single.iter().sum::<u64>(), 0);
}

#[test]
fn resolution_classification() {
    assert!(matches!(resolution_of(None), Resolution::Unresolved));
    assert!(matches!(resolution_of(Some(Vec::new())), Resolution::Unresolved));

    let one = vec![TargetLocation {
        uri: "file:///w/a.rs".to_string(),
        start: Position { line: 4, character: 2 },
    }];
    match resolution_of(Some(one)) {
        Resolution::SingleTarget(loc) => {
            assert_eq!(loc.uri, "file:///w/a.rs");
            assert_eq!(loc.start.line, 4);
        }
        _ => panic!("expected a single target"),
    }

    let two = vec![
        TargetLocation { uri: "file:///a".to_string(), start: Position { line: 0, character: 0 } },
        TargetLocation { uri: "file:///b".to_string(), start: Position { line: 1, character: 1 } },
    ];
    match resolution_of(Some(two)) {
        Resolution::MultipleTargets(locs) => assert_eq!(locs.len(), 2),
        _ => panic!("expected multiple targets"),
    }
}

#[test]
fn wire_safety_of_paths() {
    assert!(path_is_wire_safe("/w/src/main.rs"));
    assert!(path_is_wire_safe("/w/some-dir/file_name.swift"));
    assert!(!path_is_wire_safe("/w/My Documents/a.rs"));
    assert!(!path_is_wire_safe("/w/quo\"te.rs"));
    assert!(!path_is_wire_safe("/w/back\\slash.rs"));
    assert!(!path_is_wire_safe("/w/tab\tname.rs"));
}

#[test]
fn position_params_exact() {
    let params = build_position_params("file:///w/a.rs", Position { line: 7, character: 17 });
    assert_eq!(
        params,
        "{\"textDocument\":{\"uri\":\"file:///w/a.rs\"},\"position\":{\"line\":7,\"character\":17}}"
    );
}

#[test]
fn goto_definition_request_message() {
    let mut session = Session::new();
    session.begin_start().unwrap();
    session.initialize_request("{}").unwrap();
    session.handshake_complete("{}").unwrap();
    session.open_document("file:///w/a.rs", "{}").unwrap();

    let call = CallNode {
        call: 5,
        goto_definition: 6,
        call_span: span(10, 20, 2, 4, 14),
        goto_definition_span: span(10, 13, 2, 4, 7),
    };
    let (id, message) = goto_definition_for_node(&mut session, "file:///w/a.rs", &call).unwrap();
    assert_eq!(id, 2);
    assert_eq!(
        message,
        "{\"jsonrpc\":\"2.0\",\"id\":2,\"method\":\"textDocument/definition\",\"params\":{\"textDocument\":{\"uri\":\"file:///w/a.rs\"},\"position\":{\"line\":2,\"character\":4}}}"
    );
}

#[test]
fn pretty_print_single_target() {
    let call = CallNode {
        call: 1,
        goto_definition: 1,
        call_span: span(12, 17, 2, 4, 9),
        goto_definition_span: span(12, 17, 2, 4, 9),
    };
    let with_target = CallWithTarget {
        file_path: "src/main.rs".to_string(),
        call,
        resolution: Resolution::SingleTarget(TargetLocation {
            uri: "/w/lib.rs".to_string(),
            start: Position { line: 9, character: 0 },
        }),
    };
    let lines = with_target.pretty_print();
    assert_eq!(lines, vec!["Call src/main.rs:3:5 targets /w/lib.rs:10:1".to_string()]);

    let loc = TargetLocation { uri: "/w/x.rs".to_string(), start: Position { line: 0, character: 3 } };
    assert_eq!(
        pretty_print_location(&with_target, &loc),
        "Call src/main.rs:3:5 targets /w/x.rs:1:4"
    );
}

#[test]
fn pretty_print_unresolved_and_multiple() {
    let call = CallNode {
        call: 1,
        goto_definition: 1,
        call_span: span(0, 3, 0, 0, 3),
        goto_definition_span: span(0, 3, 0, 0, 3),
    };
    let unresolved = CallWithTarget {
        file_path: "a.go".to_string(),
        call,
        resolution: Resolution::Unresolved,
    };
    assert!(unresolved.pretty_print().is_empty());

    let multiple = CallWithTarget {
        file_path: "a.go".to_string(),
        call,
        resolution: Resolution::MultipleTargets(vec![
            TargetLocation { uri: "/b".to_string(), start: Position { line: 1, character: 1 } },
            TargetLocation { uri: "/c".to_string(), start: Position { line: 2, character: 2 } },
        ]),
    };
    let lines = multiple.pretty_print();
    assert_eq!(lines.len(), 2);
    assert_eq!(lines[0], "Call a.go:1:1 targets /b:2:2");
    assert_eq!(lines[1], "Call a.go:1:1 targets /c:3:3");
}

#[test]
fn call_node_pretty_print() {
    let source_lines = vec!["    foo.bar(1);".to_string()];
    let call = CallNode {
        call: 1,
        goto_definition: 2,
        call_span: span(4, 14, 0, 4, 14),
        goto_definition_span: span(8, 11, 0, 8, 11),
    };
    let lines = call.pretty_print(&source_lines).unwrap();
    assert_eq!(lines.len(), 3);
    assert_eq!(lines[0], "1:     foo.bar(1);");
    assert_eq!(lines[1], "       ^^^^^^^^^^ call");
    assert_eq!(lines[2], "           ~~~ goto definition");
}

#[test]
fn call_node_pretty_print_multiline() {
    let source_lines = vec!["foo(".to_string(), ")".to_string()];
    let call = CallNode {
        call: 1,
        goto_definition: 1,
        call_span: Span::new(0, 6, Point { row: 0, column: 0 }, Point { row: 1, column: 1 }),
        goto_definition_span: Span::new(
            0,
            6,
            Point { row: 0, column: 0 },
            Point { row: 1, column: 1 },
        ),
    };
    assert!(call.pretty_print(&source_lines).is_none());
}

#[test]
fn args_validation() {
    let ok = Args::parse_and_validate(
        "/w".to_string(),
        true,
        true,
        "rust".to_string(),
        None,
        None,
    )
    .unwrap();
    assert_eq!(ok.project_path, "/w");
    assert_eq!(ok.language, "rust");

    let missing =
        Args::parse_and_validate("/missing".to_string(), false, false, "rust".to_string(), None, None);
    assert_eq!(missing.unwrap_err(), CliError::PathDoesNotExist);
    let not_dir =
        Args::parse_and_validate("/w/file".to_string(), true, false, "rust".to_string(), None, None);
    assert_eq!(not_dir.unwrap_err(), CliError::NotADirectory);
    let bad_lang =
        Args::parse_and_validate("/w".to_string(), true, true, "cobol".to_string(), None, None);
    assert_eq!(bad_lang.unwrap_err(), CliError::UnsupportedLanguage);
}

#[test]
fn supported_languages() {
    for lang in ["rust", "python", "typescript", "go", "swift"] {
        assert!(is_supported_language(lang));
    }
    assert!(!is_supported_language("java"));
    assert!(!is_supported_language("Rust"));
}

#[test]
fn file_search_config_from_args() {
    let args = Args {
        project_path: "/w".to_string(),
        language: "rust".to_string(),
        include_pattern: Some("**/src/**".to_string()),
        exclude: Some("**/*test*".to_string()),
    };
    let config = args.create_file_search_config().unwrap();
    assert!(config.include_glob.is_some());
    assert!(config.exclude_glob.is_some());

    let bad = Args {
        project_path: "/w".to_string(),
        language: "rust".to_string(),
        include_pattern: Some("[".to_string()),
        exclude: None,
    };
    assert!(bad.create_file_search_config().is_err());
}

#[test]
fn skip_dirs_and_depth() {
    let config = FileSearchConfig::default();
    assert!(config.is_dir_skipped("target"));
    assert!(config.is_dir_skipped("node_modules"));
    assert!(config.is_dir_skipped(".git"));
    assert!(!config.is_dir_skipped("src"));
    assert!(config.should_descend("src", 0));
    assert!(!config.should_descend("target", 0));

    let mut limited = FileSearchConfig::default();
    limited.max_depth = Some(2);
    assert!(limited.should_descend("src", 1));
    assert!(!limited.should_descend("src", 2));
}

#[test]
fn file_decisions() {
    let config = FileSearchConfig::default();
    assert!(config.file_decision(true, None, None));
    assert!(!config.file_decision(false, None, None));
    assert!(config.file_decision(true, Some(true), None));
    assert!(!config.file_decision(true, Some(false), None));
    assert!(!config.file_decision(true, None, Some(true)));
    assert!(config.file_decision(true, Some(true), Some(false)));
}

#[test]
fn matching_files_with_filters() {
    let re = file_regex(RustLang).unwrap();
    let mut config = FileSearchConfig::default();
    assert!(config.matches_file(&re, "main.rs", "/w/src/main.rs"));
    assert!(!config.matches_file(&re, "main.py", "/w/src/main.py"));

    config.include_glob = Some(glob_new("**/src/**").unwrap());
    assert!(config.matches_file(&re, "main.rs", "/w/src/main.rs"));
    assert!(!config.matches_file(&re, "build.rs", "/w/build.rs"));

    config.exclude_glob = Some(glob_new("**/*test*").unwrap());
    assert!(!config.matches_file(&re, "a_test.rs", "/w/src/a_test.rs"));
}

#[test]
fn tree_builder_rejects_bad_nodes() {
    let mut tree = SyntaxTree::new();
    let reversed = span(5, 2, 0, 5, 2);
    assert_eq!(tree.add_node(None, "root", reversed), Err(TreeError::SpanReversed));

    let whole = span(0, 10, 0, 0, 10);
    assert_eq!(tree.add_node(Some(0), "root", whole), Err(TreeError::RootMismatch));
    let root = tree.add_node(None, "root", whole).unwrap();
    assert_eq!(tree.add_node(None, "second_root", whole), Err(TreeError::RootMismatch));
    assert_eq!(tree.add_node(Some(7), "child", whole), Err(TreeError::NoSuchParent));

    let outside = span(5, 15, 0, 5, 15);
    assert_eq!(tree.add_node(Some(root), "child", outside), Err(TreeError::NotContained));

    let inside = span(2, 8, 0, 2, 8);
    let child = tree.add_node(Some(root), "child", inside).unwrap();
    assert_eq!(child, 1);
    assert_eq!(tree.len(), 2);
    assert_eq!(tree.kind_of(child), "child");
    assert_eq!(tree.child_of(root, 0), child);
}

#[test]
fn highlight_range_underlines() {
    let file_lines = vec!["        let result = add(x, y);".to_string()];
    let lines = tree_sitter_lsp_experiment::highlight_range(
        &file_lines,
        Position { line: 0, character: 21 },
        Position { line: 0, character: 24 },
    );
    assert_eq!(lines.len(), 2);
    assert_eq!(lines[0], "    let result = add(x, y);");
    assert_eq!(lines[1], "                 ^^^");

    // A start line past the end of the file yields nothing.
    let none = tree_sitter_lsp_experiment::highlight_range(
        &file_lines,
        Position { line: 7, character: 0 },
        Position { line: 7, character: 1 },
    );
    assert!(none.is_empty());

    // An empty range still gets one mark.
    let one = tree_sitter_lsp_experiment::highlight_range(
        &file_lines,
        Position { line: 0, character: 8 },
        Position { line: 0, character: 8 },
    );
    assert_eq!(one[1], "    ^");
}

#[test]
fn hierarchy_retry_schedule() {
    // Preparing a call hierarchy in a freshly opened file gets six
    // attempts with linearly rising delays; a settled file gets one.
    let with_retries = hierarchy_retry_delays_ms(true);
    assert_eq!(with_retries, vec![0, 100, 200, 300, 400, 500]);
    assert_eq!(hierarchy_retry_delays_ms(false), vec![0]);
}

#[test]
fn outgoing_calls_request_message() {
    let mut session = Session::new();
    session.begin_start().unwrap();
    session.initialize_request("{}").unwrap();
    session.handshake_complete("{}").unwrap();
    session.open_document("file:///w/a.rs", "{}").unwrap();
    let (id, message) =
        call_hierarchy_outgoing_request(&mut session, "file:///w/a.rs", "{\"name\":\"f\"}").unwrap();
    assert_eq!(id, 2);
    assert_eq!(
        message,
        "{\"jsonrpc\":\"2.0\",\"id\":2,\"method\":\"callHierarchy/outgoingCalls\",\"params\":{\"item\":{\"name\":\"f\"}}}"
    );
}

#[test]
fn query_refused_before_ready() {
    // A builder refuses exactly as the session does: wrong state first,
    // then a document that is not open.
    let mut session = Session::new();
    let call = CallNode {
        call: 0,
        goto_definition: 0,
        call_span: span(0, 3, 0, 0, 3),
        goto_definition_span: span(0, 3, 0, 0, 3),
    };
    assert!(matches!(
        goto_definition_for_node(&mut session, "file:///w/a.rs", &call),
        Err(SessionError::InvalidState)
    ));
    session.begin_start().unwrap();
    session.initialize_request("{}").unwrap();
    session.handshake_complete("{}").unwrap();
    assert!(matches!(
        goto_definition_for_node(&mut session, "file:///w/a.rs", &call),
        Err(SessionError::DocumentNotOpen)
    ));
}
