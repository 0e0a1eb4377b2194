//! Shared command-line argument validation for all binaries.
//!
//! Reading the actual command line and testing the project path against
//! the file system are the binary's business; the validation rules over
//! those plain answers live here.

use vstd::prelude::*;

use crate::file_search::glob_new;
use crate::file_search::spec_glob_ok;
use crate::file_search::spec_default_skip_dirs;
use crate::file_search::FileSearchConfig;
use crate::text::str_eq;

verus! {

/// Why the command-line arguments were rejected.
#[derive(Clone, Copy, Debug, PartialEq, Eq, Structural)]
pub enum CliError {
    /// The project path does not exist.
    PathDoesNotExist,
    /// The project path exists but is not a directory.
    NotADirectory,
    /// The language is not one of the supported ones.
    UnsupportedLanguage,
}

/// The supported language selectors.
pub open spec fn spec_supported_language(language: Seq<char>) -> bool {
    ||| language == "rust"@
    ||| language == "python"@
    ||| language == "typescript"@
    ||| language == "go"@
    ||| language == "swift"@
}

/// Tests whether `language` names a supported language.
pub fn is_supported_language(language: &str) -> (r: bool)
    ensures
        r == spec_supported_language(language@),
{
    str_eq(language, "rust") || str_eq(language, "python") || str_eq(language, "typescript")
        || str_eq(language, "go") || str_eq(language, "swift")
}

/// Common command-line arguments for all the binaries.
#[derive(Clone, Debug)]
pub struct Args {
    /// Path to the project directory to analyze.
    pub project_path: String,
    /// Programming language to analyze.
    pub language: String,
    /// Glob pattern to include specific files.
    pub include_pattern: Option<String>,
    /// Glob pattern to exclude specific files.
    pub exclude: Option<String>,
}

impl Args {
    /// Validates parsed command-line inputs.
    ///
    /// The caller reads the command line and asks the file system whether
    /// the project path exists and is a directory; this function applies
    /// the rules: the path must exist, must be a directory, and the
    /// language must be supported — rejected in that order.
    pub fn parse_and_validate(
        project_path: String,
        project_path_exists: bool,
        project_path_is_dir: bool,
        language: String,
        include_pattern: Option<String>,
        exclude: Option<String>,
    ) -> (r: Result<Args, CliError>)
        ensures
            match r {
                Ok(args) => {
                    &&& project_path_exists
                    &&& project_path_is_dir
                    &&& spec_supported_language(language@)
                    &&& args.project_path == project_path
                    &&& args.language == language
                    &&& args.include_pattern == include_pattern
                    &&& args.exclude == exclude
                },
                Err(e) => match e {
                    CliError::PathDoesNotExist => !project_path_exists,
                    CliError::NotADirectory => project_path_exists && !project_path_is_dir,
                    CliError::UnsupportedLanguage => project_path_exists && project_path_is_dir
                        && !spec_supported_language(language@),
                },
            },
    {
        if !project_path_exists {
            return Err(CliError::PathDoesNotExist);
        }
        if !project_path_is_dir {
            return Err(CliError::NotADirectory);
        }
        if !is_supported_language(language.as_str()) {
            return Err(CliError::UnsupportedLanguage);
        }
        Ok(Args { project_path, language, include_pattern, exclude })
    }

    /// Builds a [`FileSearchConfig`] from the include/exclude patterns.
    ///
    /// Starts from the default configuration and compiles each given
    /// pattern.  It fails exactly when a given pattern is not a valid
    /// glob, reported with the compiler's words; with every given pattern
    /// valid, the filters are set if and only if their patterns were
    /// given.
    pub fn create_file_search_config(&self) -> (r: Result<FileSearchConfig, String>)
        ensures
            match r {
                Ok(config) => {
                    &&& config.skip_dirs.deep_view() == spec_default_skip_dirs()
                    &&& config.max_depth is None
                    &&& (config.include_glob is Some) == (self.include_pattern is Some)
                    &&& (config.exclude_glob is Some) == (self.exclude is Some)
                    &&& (self.include_pattern matches Some(p) ==> spec_glob_ok(p@))
                    &&& (self.exclude matches Some(p) ==> spec_glob_ok(p@))
                },
                Err(_) => {
                    ||| (self.include_pattern matches Some(p) && !spec_glob_ok(p@))
                    ||| (self.exclude matches Some(p) && !spec_glob_ok(p@))
                },
            },
    {
        let mut config = FileSearchConfig::default();
        match &self.include_pattern {
            Some(pattern) => {
                match glob_new(pattern.as_str()) {
                    Ok(compiled) => {
                        config.include_glob = Some(compiled);
                    },
                    Err(e) => {
                        return Err(e);
                    },
                }
            },
            None => {},
        }
        match &self.exclude {
            Some(pattern) => {
                match glob_new(pattern.as_str()) {
                    Ok(compiled) => {
                        config.exclude_glob = Some(compiled);
                    },
                    Err(e) => {
                        return Err(e);
                    },
                }
            },
            None => {},
        }
        Ok(config)
    }
}

} // verus!
