//! The three textual patterns of the scan, and the regular-expression engine
//! that finds them.
//!
//! Matching is done by the `regex` crate. What it reports is taken here as
//! plain byte offsets; the rest of the crate reasons about those offsets and
//! never about the engine.

use vstd::prelude::*;
use crate::text::{decode, decoded, text_of};

verus! {

/// A registry-cache directory: the cache marker, an index directory that ends
/// in a dash and at least eight hexadecimal digits, then a package directory
/// whose name and version are captured.
pub const PACKAGE_PATTERN: &'static str =
    r".cargo(?:/|\\)registry(?:/|\\)src(?:/|\\).*?-[a-f0-9]{8,}(?:/|\\)(.*?)-?([\d\.]{2,})";

/// A source-file path: a drive prefix or a leading separator, between one and
/// 512 directory segments, and a file name that ends in `.rs`.
pub const SOURCE_PATH_PATTERN: &'static str =
    r"(?:[a-zA-Z]:[\\/]|/)(?:[a-zA-Z0-9._\-]+[\\/]){1,512}?(?:[a-zA-Z0-9._\-]+)\.rs";

/// The directory under which a compiler build places its own sources: the
/// forty hexadecimal digits of the build's commit are captured.
pub const TOOLCHAIN_HASH_PATTERN: &'static str = r"/rustc/([a-f0-9]{40})";

/// A half-open range of byte offsets into a buffer.
#[derive(Clone, Copy, Debug, PartialEq, Eq)]
pub struct Span {
    pub start: usize,
    pub end: usize,
}

impl Span {
    /// The span lies inside a buffer of `len` bytes.
    pub open spec fn within(self, len: nat) -> bool {
        self.start <= self.end && self.end <= len
    }
}

/// The text under `span` in `content`: absent where the span does not lie
/// inside the buffer or its bytes are not well-formed UTF-8.
pub open spec fn span_text(content: Seq<u8>, span: Span) -> Option<Seq<char>> {
    if span.within(content.len()) {
        decoded(content.subrange(span.start as int, span.end as int))
    } else {
        None
    }
}

/// Reads the text under `span` in `content`.
pub fn text_at(content: &[u8], span: Span) -> (text: Option<String>)
    ensures
        text_of(text) == span_text(content@, span),
{
    if span.start <= span.end && span.end <= content.len() {
        decode(&content[span.start..span.end])
    } else {
        None
    }
}

/// One match of a pattern: the whole match and its first two capture groups,
/// each absent where the group took no part in the match.
#[derive(Clone, Copy, Debug, PartialEq, Eq)]
pub struct Capture {
    pub whole: Option<Span>,
    pub first: Option<Span>,
    pub second: Option<Span>,
}

/// A failed scan: the engine refused one of the crate's own patterns.
#[derive(Clone, Copy, Debug, PartialEq, Eq)]
pub enum ScanError {
    /// The package pattern was refused.
    PackagePattern,
    /// The source-path pattern was refused.
    SourcePathPattern,
    /// The toolchain-hash pattern was refused.
    ToolchainHashPattern,
}

impl ScanError {
    /// What went wrong, in words.
    pub open spec fn text(self) -> Seq<char> {
        match self {
            ScanError::PackagePattern => "the package pattern does not compile"@,
            ScanError::SourcePathPattern => "the source path pattern does not compile"@,
            ScanError::ToolchainHashPattern => "the toolchain hash pattern does not compile"@,
        }
    }

    /// What went wrong, in words.
    pub fn message(&self) -> (message: String)
        ensures
            message@ == self.text(),
    {
        match self {
            ScanError::PackagePattern => "the package pattern does not compile".to_owned(),
            ScanError::SourcePathPattern => "the source path pattern does not compile".to_owned(),
            ScanError::ToolchainHashPattern => "the toolchain hash pattern does not compile".to_owned(),
        }
    }
}

/// `regex::bytes::Regex`, a compiled expression of the `regex` crate. Nothing
/// is known of what it holds.
#[verifier::external_type_specification]
#[verifier::external_body]
pub struct ExRegex(regex::bytes::Regex);

/// `regex::Error`, the reason for which the `regex` crate refuses a pattern.
#[verifier::external_type_specification]
#[verifier::external_body]
pub struct ExRegexError(regex::Error);

/// An expression that the engine compiled from a pattern, with the options
/// that it sets by itself. Only [`compile`] makes one.
#[derive(Debug)]
pub struct Compiled {
    re: regex::bytes::Regex,
}

/// Whether the engine accepts `pattern`, with the options and limits that it
/// sets by itself.
pub uninterp spec fn regex_accepts(pattern: Seq<char>) -> bool;

/// The pattern that a compiled expression was built from.
pub uninterp spec fn regex_source(compiled: Compiled) -> Seq<char>;

/// The successive non-overlapping matches in `haystack` of an expression
/// compiled from `pattern`, from left to right.
pub uninterp spec fn regex_matches(pattern: Seq<char>, haystack: Seq<u8>) -> Seq<Span>;

/// The successive non-overlapping matches in `haystack` of an expression
/// compiled from `pattern`, from left to right, each with its capture groups.
pub uninterp spec fn regex_captures(pattern: Seq<char>, haystack: Seq<u8>) -> Seq<Capture>;

/// The leftmost match in `haystack` of an expression compiled from `pattern`,
/// with its capture groups, if there is a match at all.
pub uninterp spec fn regex_first_capture(pattern: Seq<char>, haystack: Seq<u8>) -> Option<Capture>;

/// Calls `regex::bytes::Regex::new`. The contract claims that whether the
/// engine accepts a pattern depends on the pattern alone, and that a compiled
/// expression remembers the pattern it was given, as `Regex::as_str` reports.
#[verifier::external_body]
fn regex_new(pattern: &str) -> (compiled: Result<Compiled, regex::Error>)
    ensures
        compiled is Ok <==> regex_accepts(pattern@),
        compiled matches Ok(c) ==> regex_source(c) == pattern@,
{
    match regex::bytes::Regex::new(pattern) {
        Ok(re) => Ok(Compiled { re }),
        Err(e) => Err(e),
    }
}

/// Calls `regex::bytes::Regex::find_iter` and takes the offsets of every
/// match it yields. The contract claims only that these depend on the pattern
/// and the haystack alone.
#[verifier::external_body]
pub(crate) fn find_all(compiled: &Compiled, haystack: &[u8]) -> (spans: Vec<Span>)
    ensures
        spans@ == regex_matches(regex_source(*compiled), haystack@),
{
    compiled.re.find_iter(haystack).map(|m| Span { start: m.start(), end: m.end() }).collect()
}

/// Calls `regex::bytes::Regex::captures_iter` and takes, of every match it
/// yields, the offsets of groups 0, 1 and 2 as `Captures::get` gives them. The
/// contract claims only that these depend on the pattern and the haystack
/// alone.
#[verifier::external_body]
pub(crate) fn captures_all(compiled: &Compiled, haystack: &[u8]) -> (captures: Vec<Capture>)
    ensures
        captures@ == regex_captures(regex_source(*compiled), haystack@),
{
    compiled.re.captures_iter(haystack).map(|c| Capture {
        whole: c.get(0).map(|m| Span { start: m.start(), end: m.end() }),
        first: c.get(1).map(|m| Span { start: m.start(), end: m.end() }),
        second: c.get(2).map(|m| Span { start: m.start(), end: m.end() }),
    }).collect()
}

/// Calls `regex::bytes::Regex::captures` and takes, of the match it finds, the
/// offsets of groups 0, 1 and 2 as `Captures::get` gives them. The contract
/// claims only that these depend on the pattern and the haystack alone.
#[verifier::external_body]
pub(crate) fn first_capture(compiled: &Compiled, haystack: &[u8]) -> (capture: Option<Capture>)
    ensures
        capture == regex_first_capture(regex_source(*compiled), haystack@),
{
    compiled.re.captures(haystack).map(|c| Capture {
        whole: c.get(0).map(|m| Span { start: m.start(), end: m.end() }),
        first: c.get(1).map(|m| Span { start: m.start(), end: m.end() }),
        second: c.get(2).map(|m| Span { start: m.start(), end: m.end() }),
    })
}

/// Compiles `pattern`. The call succeeds exactly when the engine accepts the
/// pattern, and the expression it returns is that of the pattern.
pub fn compile(pattern: &str) -> (compiled: Result<Compiled, regex::Error>)
    ensures
        compiled is Ok <==> regex_accepts(pattern@),
        compiled matches Ok(c) ==> regex_source(c) == pattern@,
{
    regex_new(pattern)
}

/// The three patterns of the scan, compiled.
pub struct Patterns {
    pub(crate) package: Compiled,
    pub(crate) toolchain_hash: Compiled,
    pub(crate) source_path: Compiled,
}

/// The pattern that stops an analysis, if the engine refuses one: the first
/// in the order package, toolchain hash, source path.
pub open spec fn refused_pattern() -> Option<ScanError> {
    first_refused(
        regex_accepts(PACKAGE_PATTERN@),
        regex_accepts(TOOLCHAIN_HASH_PATTERN@),
        regex_accepts(SOURCE_PATH_PATTERN@),
    )
}

/// The error of three attempts to compile, taken in the order in which the
/// analysis uses the patterns: that of the first attempt that failed.
pub open spec fn first_refused(package: bool, toolchain_hash: bool, source_path: bool) -> Option<
    ScanError,
> {
    if !package {
        Some(ScanError::PackagePattern)
    } else if !toolchain_hash {
        Some(ScanError::ToolchainHashPattern)
    } else if !source_path {
        Some(ScanError::SourcePathPattern)
    } else {
        None
    }
}

impl Patterns {
    /// Each expression was compiled from the pattern that it is named after.
    pub open(crate) spec fn wf(&self) -> bool {
        &&& regex_source(self.package) == PACKAGE_PATTERN@
        &&& regex_source(self.toolchain_hash) == TOOLCHAIN_HASH_PATTERN@
        &&& regex_source(self.source_path) == SOURCE_PATH_PATTERN@
    }

    /// Takes what the engine made of the three patterns. Where it accepted
    /// all of them they are ready for use; otherwise the error names the first
    /// that it refused.
    pub fn from_compiled(
        package: Result<Compiled, regex::Error>,
        toolchain_hash: Result<Compiled, regex::Error>,
        source_path: Result<Compiled, regex::Error>,
    ) -> (compiled: Result<Patterns, ScanError>)
        requires
            package matches Ok(re) ==> regex_source(re) == PACKAGE_PATTERN@,
            toolchain_hash matches Ok(re) ==> regex_source(re) == TOOLCHAIN_HASH_PATTERN@,
            source_path matches Ok(re) ==> regex_source(re) == SOURCE_PATH_PATTERN@,
        ensures
            match compiled {
                Ok(patterns) => {
                    &&& first_refused(package is Ok, toolchain_hash is Ok, source_path is Ok)
                        is None
                    &&& patterns.wf()
                },
                Err(e) => first_refused(package is Ok, toolchain_hash is Ok, source_path is Ok)
                    == Some(e),
            },
    {
        let package = match package {
            Ok(re) => re,
            Err(_) => {
                return Err(ScanError::PackagePattern);
            },
        };
        let toolchain_hash = match toolchain_hash {
            Ok(re) => re,
            Err(_) => {
                return Err(ScanError::ToolchainHashPattern);
            },
        };
        let source_path = match source_path {
            Ok(re) => re,
            Err(_) => {
                return Err(ScanError::SourcePathPattern);
            },
        };
        Ok(Patterns { package, toolchain_hash, source_path })
    }

    /// Compiles the three patterns. The call succeeds exactly when the
    /// engine accepts all of them; otherwise the error names the first that
    /// it refuses.
    pub fn compile() -> (compiled: Result<Patterns, ScanError>)
        ensures
            match compiled {
                Ok(patterns) => refused_pattern() is None && patterns.wf(),
                Err(e) => refused_pattern() == Some(e),
            },
    {
        Patterns::from_compiled(
            compile(PACKAGE_PATTERN),
            compile(TOOLCHAIN_HASH_PATTERN),
            compile(SOURCE_PATH_PATTERN),
        )
    }
}

} // verus!
