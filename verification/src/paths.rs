//! Source-file paths found in a binary, sorted into those of the build
//! environment and those of the project that was built.

use vstd::prelude::*;
use crate::classify::{is_framework_path, is_framework_text};
use crate::gather::{gathered, lemma_gathered_empty, lemma_gathered_push};
use crate::pathset::PathSet;
use crate::pattern::{
    compile, find_all, regex_accepts, regex_matches, span_text, text_at, ScanError, Span,
    SOURCE_PATH_PATTERN,
};

verus! {

/// The distinct paths that can be read under a list of matches.
pub open spec fn path_candidates(content: Seq<u8>, spans: Seq<Span>) -> Set<Seq<char>> {
    gathered(spans, |s: Span| span_text(content, s))
}

/// The candidates that belong to the build environment.
pub open spec fn framework_paths(candidates: Set<Seq<char>>) -> Set<Seq<char>> {
    candidates.filter(|p: Seq<char>| is_framework_text(p))
}

/// The candidates that belong to the project that was built.
pub open spec fn user_paths(candidates: Set<Seq<char>>) -> Set<Seq<char>> {
    candidates.filter(|p: Seq<char>| !is_framework_text(p))
}

/// Every candidate path is sorted into exactly one of the two sets: they have
/// no path in common, and together they hold every candidate and nothing
/// else.
pub proof fn lemma_paths_partition(content: Seq<u8>, spans: Seq<Span>)
    ensures
        framework_paths(path_candidates(content, spans)).disjoint(
            user_paths(path_candidates(content, spans)),
        ),
        framework_paths(path_candidates(content, spans)).union(
            user_paths(path_candidates(content, spans)),
        ) == path_candidates(content, spans),
        forall|p: Seq<char>| #[trigger]
            path_candidates(content, spans).contains(p) ==> (framework_paths(
                path_candidates(content, spans),
            ).contains(p) != user_paths(path_candidates(content, spans)).contains(p)),
{
    let all = path_candidates(content, spans);
    assert(framework_paths(all).union(user_paths(all)) =~= all);
}

/// One more candidate goes to the set that the rule names, and leaves the
/// other as it was.
proof fn lemma_sorted_insert(candidates: Set<Seq<char>>, path: Seq<char>)
    ensures
        framework_paths(candidates.insert(path)) == if is_framework_text(path) {
            framework_paths(candidates).insert(path)
        } else {
            framework_paths(candidates)
        },
        user_paths(candidates.insert(path)) == if is_framework_text(path) {
            user_paths(candidates)
        } else {
            user_paths(candidates).insert(path)
        },
{
    if is_framework_text(path) {
        assert(framework_paths(candidates.insert(path)) =~= framework_paths(candidates).insert(
            path,
        ));
        assert(user_paths(candidates.insert(path)) =~= user_paths(candidates));
    } else {
        assert(framework_paths(candidates.insert(path)) =~= framework_paths(candidates));
        assert(user_paths(candidates.insert(path)) =~= user_paths(candidates).insert(path));
    }
}

/// Reads the path under each match and sorts it: the first set holds the
/// paths of the build environment, the second those of the project.
pub fn categorize_from_spans(content: &[u8], spans: &[Span]) -> (sets: (PathSet, PathSet))
    ensures
        sets.0.wf(),
        sets.1.wf(),
        sets.0@ == framework_paths(path_candidates(content@, spans@)),
        sets.1@ == user_paths(path_candidates(content@, spans@)),
{
    let mut framework = PathSet::new();
    let mut user = PathSet::new();
    let ghost read = |s: Span| span_text(content@, s);
    proof {
        lemma_gathered_empty::<Span, Seq<char>>(read);
        assert(spans@.take(0) =~= Seq::<Span>::empty());
        assert(framework_paths(Set::<Seq<char>>::empty()) =~= Set::<Seq<char>>::empty());
        assert(user_paths(Set::<Seq<char>>::empty()) =~= Set::<Seq<char>>::empty());
    }
    let mut i: usize = 0;
    while i < spans.len()
        invariant
            i <= spans.len(),
            framework.wf(),
            user.wf(),
            read == (|s: Span| span_text(content@, s)),
            framework@ == framework_paths(gathered(spans@.take(i as int), read)),
            user@ == user_paths(gathered(spans@.take(i as int), read)),
        decreases spans.len() - i,
    {
        proof {
            lemma_gathered_push(spans@.take(i as int), read, spans@[i as int]);
            assert(spans@.take(i as int).push(spans@[i as int]) =~= spans@.take(i + 1));
        }
        match text_at(content, spans[i]) {
            Some(path) => {
                proof {
                    lemma_sorted_insert(gathered(spans@.take(i as int), read), path@);
                }
                if is_framework_path(path.as_str()) {
                    framework.insert(path);
                } else {
                    user.insert(path);
                }
            },
            None => {},
        }
        i += 1;
    }
    assert(spans@.take(spans@.len() as int) =~= spans@);
    (framework, user)
}

/// Finds the source-file paths that stand in `content` and sorts them: the
/// first set holds the paths of the build environment, the second those of
/// the project.
///
/// The call succeeds on every buffer, unless the engine refuses the
/// source-path pattern.
pub fn categorize_paths(content: &[u8]) -> (found: Result<(PathSet, PathSet), ScanError>)
    ensures
        found is Ok <==> regex_accepts(SOURCE_PATH_PATTERN@),
        found matches Ok(sets) ==> {
            let candidates = path_candidates(
                content@,
                regex_matches(SOURCE_PATH_PATTERN@, content@),
            );
            &&& sets.0.wf()
            &&& sets.1.wf()
            &&& sets.0@ == framework_paths(candidates)
            &&& sets.1@ == user_paths(candidates)
            &&& sets.0@.disjoint(sets.1@)
            &&& sets.0@.union(sets.1@) == candidates
        },
        found matches Err(e) ==> e == ScanError::SourcePathPattern,
{
    match compile(SOURCE_PATH_PATTERN) {
        Ok(re) => {
            let spans = find_all(&re, content);
            proof {
                lemma_paths_partition(content@, spans@);
            }
            Ok(categorize_from_spans(content, spans.as_slice()))
        },
        Err(_) => Err(ScanError::SourcePathPattern),
    }
}

} // verus!
