//! The whole analysis of one binary.

use vstd::prelude::*;
use crate::package::{package_set, packages_from_captures, Package, PackageText};
use crate::paths::{
    categorize_from_spans, framework_paths, lemma_paths_partition, path_candidates, user_paths,
};
use crate::pathset::PathSet;
use crate::pattern::{
    captures_all, find_all, refused_pattern, regex_captures, regex_matches, Patterns, ScanError,
    PACKAGE_PATTERN, SOURCE_PATH_PATTERN,
};
use crate::text::text_of;
use crate::toolchain::{hash_among, toolchain_hash};
use crate::versions::{resolve_rust_version, resolved_version, table_of, VersionTable};

verus! {

/// What a binary tells of its making.
#[derive(Debug, Clone)]
pub struct AnalysisResult {
    /// The registry packages linked into the binary, each once, in no
    /// particular order.
    pub packages: Vec<Package>,
    /// The source paths of the compiler, its library and the registry cache.
    pub framework_source_paths: PathSet,
    /// The source paths of the project that was built.
    pub user_source_paths: PathSet,
    /// The hash of the compiler build, if a path names one.
    pub toolchain_hash: Option<String>,
    /// The release label of that build, if the reference table lists it.
    pub toolchain_version: Option<String>,
}

/// The content of an analysis result: its collections as sets, its strings
/// as text.
pub struct AnalysisText {
    pub packages: Set<PackageText>,
    pub framework_source_paths: Set<Seq<char>>,
    pub user_source_paths: Set<Seq<char>>,
    pub toolchain_hash: Option<Seq<char>>,
    pub toolchain_version: Option<Seq<char>>,
}

impl View for AnalysisResult {
    type V = AnalysisText;

    open spec fn view(&self) -> AnalysisText {
        AnalysisText {
            packages: self.package_texts().to_set(),
            framework_source_paths: self.framework_source_paths@,
            user_source_paths: self.user_source_paths@,
            toolchain_hash: text_of(self.toolchain_hash),
            toolchain_version: text_of(self.toolchain_version),
        }
    }
}

impl AnalysisResult {
    /// The listed packages as text, in the order of the list.
    pub open spec fn package_texts(&self) -> Seq<PackageText> {
        self.packages@.map_values(|p: Package| p@)
    }

    /// No package is listed twice, no path stands in both sets, and there is
    /// a release label only where there is a build hash.
    pub open spec fn wf(&self) -> bool {
        &&& self.package_texts().no_duplicates()
        &&& self.framework_source_paths.wf()
        &&& self.user_source_paths.wf()
        &&& self.framework_source_paths@.disjoint(self.user_source_paths@)
        &&& self.toolchain_version is Some ==> self.toolchain_hash is Some
    }
}

/// What the analysis of `content` finds, given a reference table or none.
///
/// The packages are those named by the matches of the package pattern. The
/// paths are those under the matches of the source-path pattern, sorted by
/// the classification rule. The build hash is the one named by the first such
/// path that names one, and the release label is the table's entry for it.
pub open spec fn analysis_of(
    content: Seq<u8>,
    table: Option<Map<Seq<char>, Seq<char>>>,
) -> AnalysisText {
    let spans = regex_matches(SOURCE_PATH_PATTERN@, content);
    let candidates = path_candidates(content, spans);
    let hash = toolchain_hash(content, spans);
    AnalysisText {
        packages: package_set(content, regex_captures(PACKAGE_PATTERN@, content)),
        framework_source_paths: framework_paths(candidates),
        user_source_paths: user_paths(candidates),
        toolchain_hash: hash,
        toolchain_version: resolved_version(hash, table),
    }
}

/// `result` is what analysing `content` with `table` gives: a well-formed
/// result with the content that the analysis finds.
pub open spec fn analyzed(
    content: Seq<u8>,
    table: Option<Map<Seq<char>, Seq<char>>>,
    result: AnalysisResult,
) -> bool {
    result.wf() && result@ == analysis_of(content, table)
}

/// `outcome` is how analysing `content` with `table` ends: with the error of
/// the first pattern that the engine refuses, or else with the result of the
/// analysis. No content and no table makes an analysis fail.
pub open spec fn analysis_outcome(
    content: Seq<u8>,
    table: Option<Map<Seq<char>, Seq<char>>>,
    outcome: Result<AnalysisResult, ScanError>,
) -> bool {
    match outcome {
        Ok(result) => refused_pattern() is None && analyzed(content, table, result),
        Err(e) => refused_pattern() == Some(e),
    }
}

/// Analysing the same bytes with the same table ends the same way each
/// time: with the same error, or with results that hold the same packages,
/// the same two sets of paths, the same build hash and the same release
/// label.
pub proof fn lemma_analysis_deterministic(
    content: Seq<u8>,
    table: Option<Map<Seq<char>, Seq<char>>>,
    first: Result<AnalysisResult, ScanError>,
    second: Result<AnalysisResult, ScanError>,
)
    requires
        analysis_outcome(content, table, first),
        analysis_outcome(content, table, second),
    ensures
        match (first, second) {
            (Ok(a), Ok(b)) => a@ == b@,
            (Err(a), Err(b)) => a == b,
            _ => false,
        },
{
}

/// Whether an analysis succeeds does not depend on the bytes or on the
/// table: if one analysis succeeds, so does every other.
pub proof fn lemma_success_ignores_content(
    content: Seq<u8>,
    table: Option<Map<Seq<char>, Seq<char>>>,
    outcome: Result<AnalysisResult, ScanError>,
    other_content: Seq<u8>,
    other_table: Option<Map<Seq<char>, Seq<char>>>,
    other_outcome: Result<AnalysisResult, ScanError>,
)
    requires
        analysis_outcome(content, table, outcome),
        analysis_outcome(other_content, other_table, other_outcome),
    ensures
        outcome is Ok <==> other_outcome is Ok,
{
}

/// In every analysis, each candidate path stands in exactly one of the two
/// sets of paths, and the two sets together are the candidates.
pub proof fn lemma_analysis_partition(content: Seq<u8>, table: Option<Map<Seq<char>, Seq<char>>>)
    ensures
        ({
            let found = analysis_of(content, table);
            let candidates = path_candidates(
                content,
                regex_matches(SOURCE_PATH_PATTERN@, content),
            );
            &&& found.framework_source_paths.disjoint(found.user_source_paths)
            &&& found.framework_source_paths.union(found.user_source_paths) == candidates
            &&& forall|p: Seq<char>| #[trigger]
                candidates.contains(p) ==> (found.framework_source_paths.contains(p)
                    != found.user_source_paths.contains(p))
        }),
{
    lemma_paths_partition(content, regex_matches(SOURCE_PATH_PATTERN@, content));
}

impl Patterns {
    /// Analyses the bytes of a binary: finds its registry packages, its
    /// source paths, sorted, and the hash of its compiler build, and looks the
    /// release label of that build up in the reference table, if one is
    /// given.
    pub fn analyze(&self, content: &[u8], version_mappings: &Option<VersionTable>) -> (result:
        AnalysisResult)
        requires
            self.wf(),
            version_mappings matches Some(t) ==> t.wf(),
        ensures
            analyzed(content@, table_of(*version_mappings), result),
    {
        let captures = captures_all(&self.package, content);
        let packages = packages_from_captures(content, captures.as_slice()).into_vec();
        let spans = find_all(&self.source_path, content);
        let toolchain_hash = hash_among(&self.toolchain_hash, content, spans.as_slice());
        let (framework_source_paths, user_source_paths) = categorize_from_spans(
            content,
            spans.as_slice(),
        );
        let toolchain_version = resolve_rust_version(&toolchain_hash, version_mappings);
        proof {
            lemma_paths_partition(content@, spans@);
        }
        AnalysisResult {
            packages,
            framework_source_paths,
            user_source_paths,
            toolchain_hash,
            toolchain_version,
        }
    }
}

/// Compiles the crate's patterns and analyses the bytes of a binary with
/// them.
///
/// The call succeeds on every buffer and every table, unless the engine
/// refuses one of the patterns: the error then names the first that it
/// refuses.
pub fn analyze(content: &[u8], version_mappings: &Option<VersionTable>) -> (outcome: Result<
    AnalysisResult,
    ScanError,
>)
    requires
        version_mappings matches Some(t) ==> t.wf(),
    ensures
        analysis_outcome(content@, table_of(*version_mappings), outcome),
{
    match Patterns::compile() {
        Ok(patterns) => Ok(patterns.analyze(content, version_mappings)),
        Err(e) => Err(e),
    }
}

} // verus!
