//! Locates call sites in source code by walking concrete syntax trees and
//! resolves each call to its definition by speaking the framed JSON-RPC
//! protocol of an external language-analysis server.
//!
//! The crate is organised around four components: per-language grammar
//! descriptors, a deterministic syntax walker, a protocol session state
//! machine over a framed byte stream, and a resolver that orchestrates the
//! walker's output through a session.

pub mod call_node;
pub mod cli;
pub mod call_with_target;
pub mod codec;
pub mod file_search;
pub mod integration;
pub mod jsonrpc;
pub mod parser;
pub mod language;
pub mod location;
pub mod lsp;
pub mod languages;
pub mod span;
pub mod symbols;
pub mod text;
pub mod tree;

pub use call_node::CallNode;
pub use call_with_target::CallWithTarget;
pub use call_with_target::Resolution;
pub use cli::Args;
pub use file_search::FileSearchConfig;
pub use integration::goto_definition_for_node;
pub use integration::CallDefinition;
pub use language::Language;
pub use location::highlight_range;
pub use location::Position;
pub use location::TargetLocation;
pub use lsp::LspServerConfig;
pub use lsp::Session;
pub use languages::GoLang;
pub use languages::PythonLang;
pub use languages::RustLang;
pub use languages::SwiftLang;
pub use languages::TypeScriptLang;
pub use parser::display_node_location;
pub use parser::get_calls;
pub use parser::parse_file_content;
pub use span::Point;
pub use span::Span;
pub use tree::SyntaxTree;
pub use tree::TreeNode;
