//! Configuration and decisions for finding a language's files in a
//! directory tree.
//!
//! The directory walk itself is input/output and lives with the caller;
//! this module owns the decisions: which directories are skipped, how deep
//! the walk may go, and whether a file name and path pass the language
//! pattern and the include/exclude filters.

use vstd::prelude::*;

use crate::language::Language;
use crate::text::str_eq;

verus! {

#[verifier::external_type_specification]
#[verifier::external_body]
pub struct ExRegex(regex::Regex);

#[verifier::external_type_specification]
#[verifier::external_body]
pub struct ExGlobPattern(glob::Pattern);

/// Whether the regular-expression compiler accepts this pattern; a
/// function of the pattern alone.
pub uninterp spec fn spec_regex_ok(pattern: Seq<char>) -> bool;

/// Whether the glob compiler accepts this pattern; a function of the
/// pattern alone.
pub uninterp spec fn spec_glob_ok(pattern: Seq<char>) -> bool;

/// Relies on `regex::Regex::new`: compiles the pattern — succeeding
/// exactly on the patterns the compiler accepts — or reports why it is
/// invalid.
#[verifier::external_body]
pub fn regex_new(pattern: &str) -> (r: Result<regex::Regex, String>)
    ensures
        (r is Ok) == spec_regex_ok(pattern@),
{
    match regex::Regex::new(pattern) {
        Ok(re) => Ok(re),
        Err(e) => Err(e.to_string()),
    }
}

/// Relies on `regex::Regex::is_match`: whether the text matches the
/// compiled pattern anywhere.
#[verifier::external_body]
pub fn regex_is_match(re: &regex::Regex, text: &str) -> (r: bool) {
    re.is_match(text)
}

/// Relies on `glob::Pattern::new`: compiles the glob — succeeding exactly
/// on the patterns the compiler accepts — or reports why it is invalid.
#[verifier::external_body]
pub fn glob_new(pattern: &str) -> (r: Result<glob::Pattern, String>)
    ensures
        (r is Ok) == spec_glob_ok(pattern@),
{
    match glob::Pattern::new(pattern) {
        Ok(p) => Ok(p),
        Err(e) => Err(e.to_string()),
    }
}

/// Relies on `glob::Pattern::matches`: whether the path matches the glob.
#[verifier::external_body]
pub fn glob_matches(pattern: &glob::Pattern, path: &str) -> (r: bool) {
    pattern.matches(path)
}

/// Compiles the language's file pattern: succeeds exactly when the
/// regular-expression compiler accepts that pattern (it does, for every
/// shipped language).
pub fn file_regex<L: Language>(language: L) -> (r: Result<regex::Regex, String>)
    ensures
        (r is Ok) == spec_regex_ok(language.spec_file_pattern()),
{
    regex_new(language.file_pattern())
}

/// The directory names a search skips by default.
pub open spec fn spec_default_skip_dirs() -> Seq<Seq<char>> {
    seq![
        "node_modules"@,
        "target"@,
        ".git"@,
        "dist"@,
        "build"@,
        "__pycache__"@,
        ".next"@,
        "vendor"@,
        ".venv"@,
        "venv"@,
    ]
}

/// Configuration for file searching behavior.
#[derive(Debug)]
pub struct FileSearchConfig {
    /// Directories to skip during recursive search.
    pub skip_dirs: Vec<String>,
    /// Maximum depth for recursive search (`None` = unlimited).
    pub max_depth: Option<usize>,
    /// Optional glob a file's path must match to be taken.
    pub include_glob: Option<glob::Pattern>,
    /// Optional glob a file's path must not match to be taken.
    pub exclude_glob: Option<glob::Pattern>,
}

impl Default for FileSearchConfig {
    /// Skips the usual build, dependency and cache directories, with no
    /// depth limit and no filters.
    fn default() -> (r: FileSearchConfig)
        ensures
            r.skip_dirs.deep_view() == spec_default_skip_dirs(),
            r.max_depth is None,
            r.include_glob is None,
            r.exclude_glob is None,
    {
        let mut skip_dirs: Vec<String> = Vec::new();
        skip_dirs.push(String::from_str("node_modules"));
        skip_dirs.push(String::from_str("target"));
        skip_dirs.push(String::from_str(".git"));
        skip_dirs.push(String::from_str("dist"));
        skip_dirs.push(String::from_str("build"));
        skip_dirs.push(String::from_str("__pycache__"));
        skip_dirs.push(String::from_str(".next"));
        skip_dirs.push(String::from_str("vendor"));
        skip_dirs.push(String::from_str(".venv"));
        skip_dirs.push(String::from_str("venv"));
        proof {
            assert(skip_dirs.deep_view() =~= spec_default_skip_dirs());
        }
        FileSearchConfig { skip_dirs, max_depth: None, include_glob: None, exclude_glob: None }
    }
}

impl FileSearchConfig {
    /// Whether a directory of this name is in the skip list.
    pub open spec fn spec_dir_skipped(self, dir_name: Seq<char>) -> bool {
        exists|k: int| 0 <= k < self.skip_dirs@.len() && self.skip_dirs@[k]@ == dir_name
    }

    /// Tests whether a directory of this name is skipped by the search.
    pub fn is_dir_skipped(&self, dir_name: &str) -> (r: bool)
        ensures
            r == self.spec_dir_skipped(dir_name@),
    {
        let n = self.skip_dirs.len();
        let mut k: usize = 0;
        while k < n
            invariant
                k <= n,
                n == self.skip_dirs@.len(),
                forall|m: int| 0 <= m < k ==> (#[trigger] self.skip_dirs@[m])@ != dir_name@,
            decreases n - k,
        {
            if str_eq(self.skip_dirs[k].as_str(), dir_name) {
                return true;
            }
            k = k + 1;
        }
        false
    }

    /// Whether the walk may enter a directory of this name at this depth:
    /// the name is not skipped and the depth limit, if any, is not
    /// reached.
    pub fn should_descend(&self, dir_name: &str, current_depth: usize) -> (r: bool)
        ensures
            r == (!self.spec_dir_skipped(dir_name@) && match self.max_depth {
                Some(limit) => current_depth < limit,
                None => true,
            }),
    {
        let depth_ok = match self.max_depth {
            Some(limit) => current_depth < limit,
            None => true,
        };
        depth_ok && !self.is_dir_skipped(dir_name)
    }

    /// Combines the three filter answers for one file: the name matched
    /// the language pattern, the path passed the include glob if one is
    /// set, and the path did not match the exclude glob if one is set.
    pub fn file_decision(
        &self,
        name_matches: bool,
        include_matches: Option<bool>,
        exclude_matches: Option<bool>,
    ) -> (r: bool)
        ensures
            r == (name_matches && (match include_matches {
                Some(hit) => hit,
                None => true,
            }) && (match exclude_matches {
                Some(hit) => !hit,
                None => true,
            })),
    {
        let include_ok = match include_matches {
            Some(hit) => hit,
            None => true,
        };
        let exclude_ok = match exclude_matches {
            Some(hit) => !hit,
            None => true,
        };
        name_matches && include_ok && exclude_ok
    }

    /// Decides whether one file is taken: its name must match the
    /// language pattern and its path must pass the configured filters.
    pub fn matches_file(&self, re: &regex::Regex, file_name: &str, path: &str) -> (r: bool) {
        let name_matches = regex_is_match(re, file_name);
        let include_matches = match &self.include_glob {
            Some(pattern) => Some(glob_matches(pattern, path)),
            None => None,
        };
        let exclude_matches = match &self.exclude_glob {
            Some(pattern) => Some(glob_matches(pattern, path)),
            None => None,
        };
        self.file_decision(name_matches, include_matches, exclude_matches)
    }
}

} // verus!
