//! Programming language implementations.

pub mod go;
pub mod python;
pub mod rust;
pub mod swift;
pub mod typescript;

pub use go::GoLang;
pub use python::PythonLang;
pub use rust::RustLang;
pub use swift::SwiftLang;
pub use typescript::TypeScriptLang;
