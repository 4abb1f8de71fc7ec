//! The compiler build that produced a binary, as its embedded paths name it.

use vstd::prelude::*;
use vstd::utf8::valid_utf8;
use crate::gather::{first_found, lemma_first_found_at, lemma_first_found_none};
use crate::pattern::{
    compile, find_all, first_capture, regex_accepts, regex_first_capture, regex_matches,
    regex_source, span_text, text_at, Capture, Compiled, ScanError, Span, SOURCE_PATH_PATTERN,
    TOOLCHAIN_HASH_PATTERN,
};
use crate::text::{is_utf8, text_of};

verus! {

/// The build hash that one search of a path has found: the text of the first
/// captured group, where the search found a match.
pub open spec fn capture_hash(path: Seq<u8>, capture: Option<Capture>) -> Option<Seq<char>> {
    match capture {
        Some(c) => match c.first {
            Some(span) => span_text(path, span),
            None => None,
        },
        None => None,
    }
}

/// The build hash named by the path under `span`: what the leftmost match of
/// the hash pattern in that path captures. A span that cannot be read as text
/// names none.
pub open spec fn span_hash(content: Seq<u8>, span: Span) -> Option<Seq<char>> {
    let path = content.subrange(span.start as int, span.end as int);
    if span.within(content.len()) && valid_utf8(path) {
        capture_hash(path, regex_first_capture(TOOLCHAIN_HASH_PATTERN@, path))
    } else {
        None
    }
}

/// The build hash of a binary: the one named by the first path, in scan
/// order, that names one.
pub open spec fn toolchain_hash(content: Seq<u8>, spans: Seq<Span>) -> Option<Seq<char>> {
    first_found(spans, |s: Span| span_hash(content, s))
}

/// The first path that names a build hash decides, whatever the paths after
/// it name.
pub proof fn lemma_first_hash_wins(content: Seq<u8>, spans: Seq<Span>, at: int)
    requires
        0 <= at < spans.len(),
        span_hash(content, spans[at]) is Some,
        forall|j: int| 0 <= j < at ==> span_hash(content, #[trigger] spans[j]) is None,
    ensures
        toolchain_hash(content, spans) == span_hash(content, spans[at]),
{
    lemma_first_found_at(spans, |s: Span| span_hash(content, s), at);
}

/// Reads the build hash out of what one search of a path has found.
pub fn hash_from_capture(path: &[u8], capture: Option<Capture>) -> (hash: Option<String>)
    ensures
        text_of(hash) == capture_hash(path@, capture),
{
    match capture {
        Some(c) => match c.first {
            Some(span) => text_at(path, span),
            None => None,
        },
        None => None,
    }
}

/// Searches the paths under `spans`, in order, for a build hash and stops at
/// the first.
pub(crate) fn hash_among(hash_re: &Compiled, content: &[u8], spans: &[Span]) -> (hash: Option<
    String,
>)
    requires
        regex_source(*hash_re) == TOOLCHAIN_HASH_PATTERN@,
    ensures
        text_of(hash) == toolchain_hash(content@, spans@),
{
    let ghost read = |s: Span| span_hash(content@, s);
    let mut i: usize = 0;
    while i < spans.len()
        invariant
            i <= spans.len(),
            read == (|s: Span| span_hash(content@, s)),
            regex_source(*hash_re) == TOOLCHAIN_HASH_PATTERN@,
            forall|j: int| 0 <= j < i ==> read(#[trigger] spans@[j]) is None,
        decreases spans.len() - i,
    {
        let span = spans[i];
        if span.start <= span.end && span.end <= content.len() {
            let path = &content[span.start..span.end];
            if is_utf8(path) {
                let hash = hash_from_capture(path, first_capture(hash_re, path));
                if hash.is_some() {
                    proof {
                        lemma_first_found_at(spans@, read, i as int);
                    }
                    return hash;
                }
            }
        }
        i += 1;
    }
    proof {
        lemma_first_found_none(spans@, read);
    }
    None
}

/// Finds the hash of the compiler build that produced `content`: the one
/// named by the first source-file path, in scan order, that lies under a
/// compiler build directory.
///
/// The call succeeds on every buffer, unless the engine refuses one of the
/// two patterns: the error then names the toolchain-hash pattern if that was
/// refused, and the source-path pattern otherwise.
pub fn extract_rustc_info(content: &[u8]) -> (found: Result<Option<String>, ScanError>)
    ensures
        found is Ok <==> regex_accepts(TOOLCHAIN_HASH_PATTERN@) && regex_accepts(
            SOURCE_PATH_PATTERN@,
        ),
        found matches Ok(hash) ==> text_of(hash) == toolchain_hash(
            content@,
            regex_matches(SOURCE_PATH_PATTERN@, content@),
        ),
        found matches Err(e) ==> e == if regex_accepts(TOOLCHAIN_HASH_PATTERN@) {
            ScanError::SourcePathPattern
        } else {
            ScanError::ToolchainHashPattern
        },
{
    let hash_re = match compile(TOOLCHAIN_HASH_PATTERN) {
        Ok(re) => re,
        Err(_) => {
            return Err(ScanError::ToolchainHashPattern);
        },
    };
    let path_re = match compile(SOURCE_PATH_PATTERN) {
        Ok(re) => re,
        Err(_) => {
            return Err(ScanError::SourcePathPattern);
        },
    };
    let spans = find_all(&path_re, content);
    Ok(hash_among(&hash_re, content, spans.as_slice()))
}

} // verus!
