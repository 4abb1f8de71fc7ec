//! Prefix and substring tests on byte slices and strings.
//!
//! The predicates are stated once, over sequences of any element type. The
//! string functions run on the UTF-8 bytes of their arguments; the lemmas of
//! this module show that a test on the bytes answers the same question about
//! the characters.

use vstd::prelude::*;
use vstd::utf8::*;

verus! {

/// `pattern` stands in `s` at index `at`.
pub open spec fn occurs_at<T>(s: Seq<T>, pattern: Seq<T>, at: int) -> bool {
    &&& 0 <= at
    &&& at + pattern.len() <= s.len()
    &&& s.subrange(at, at + pattern.len()) == pattern
}

/// `s` begins with `pattern`.
pub open spec fn starts_with<T>(s: Seq<T>, pattern: Seq<T>) -> bool {
    occurs_at(s, pattern, 0)
}

/// `pattern` stands somewhere in `s`.
pub open spec fn contains_seq<T>(s: Seq<T>, pattern: Seq<T>) -> bool {
    exists|at: int| occurs_at(s, pattern, at)
}

/// Whether `pattern` stands in `s` at index `at`.
pub fn bytes_match_at(s: &[u8], pattern: &[u8], at: usize) -> (found: bool)
    ensures
        found == occurs_at(s@, pattern@, at as int),
{
    if at > s.len() || pattern.len() > s.len() - at {
        return false;
    }
    let mut k: usize = 0;
    while k < pattern.len()
        invariant
            at + pattern.len() <= s.len(),
            k <= pattern.len(),
            forall|j: int| 0 <= j < k ==> s@[at + j] == pattern@[j],
        decreases pattern.len() - k,
    {
        if s[at + k] != pattern[k] {
            proof {
                let window = s@.subrange(at as int, at + pattern@.len());
                assert(window[k as int] == s@[at + k]);
            }
            return false;
        }
        k += 1;
    }
    assert(s@.subrange(at as int, at + pattern@.len()) =~= pattern@);
    true
}

/// Whether `s` begins with `pattern`.
pub fn bytes_start_with(s: &[u8], pattern: &[u8]) -> (found: bool)
    ensures
        found == starts_with(s@, pattern@),
{
    bytes_match_at(s, pattern, 0)
}

/// Whether `pattern` stands somewhere in `s`.
pub fn bytes_contain(s: &[u8], pattern: &[u8]) -> (found: bool)
    ensures
        found == contains_seq(s@, pattern@),
{
    if pattern.len() > s.len() {
        return false;
    }
    let last: usize = s.len() - pattern.len();
    let mut at: usize = 0;
    loop
        invariant
            last == s.len() - pattern.len(),
            at <= last,
            forall|j: int| 0 <= j < at ==> !occurs_at(s@, pattern@, j),
        decreases last - at,
    {
        if bytes_match_at(s, pattern, at) {
            return true;
        }
        if at == last {
            return false;
        }
        at += 1;
    }
}

/// Whether the two slices hold the same bytes.
pub fn bytes_equal(a: &[u8], b: &[u8]) -> (same: bool)
    ensures
        same == (a@ == b@),
{
    if a.len() != b.len() {
        return false;
    }
    let found = bytes_match_at(a, b, 0);
    proof {
        assert(a@.subrange(0, a@.len() as int) =~= a@);
    }
    found
}

/// Encoding distributes over concatenation.
pub proof fn lemma_encode_concat(a: Seq<char>, b: Seq<char>)
    ensures
        encode_utf8(a + b) == encode_utf8(a) + encode_utf8(b),
    decreases a.len(),
{
    if a.len() == 0 {
        assert(a + b =~= b);
        assert(encode_utf8(a) + encode_utf8(b) =~= encode_utf8(b));
    } else {
        assert((a + b).drop_first() =~= a.drop_first() + b);
        lemma_encode_concat(a.drop_first(), b);
        assert(encode_utf8(a + b) =~= encode_utf8(a) + encode_utf8(b));
    }
}

/// A string begins with a pattern exactly when its encoding begins with the
/// pattern's encoding.
pub proof fn lemma_starts_with_encoded(s: Seq<char>, pattern: Seq<char>)
    ensures
        starts_with(s, pattern) <==> starts_with(encode_utf8(s), encode_utf8(pattern)),
    decreases pattern.len(),
{
    let bs = encode_utf8(s);
    let bp = encode_utf8(pattern);
    if starts_with(s, pattern) {
        let rest = s.subrange(pattern.len() as int, s.len() as int);
        assert(s =~= pattern + rest);
        lemma_encode_concat(pattern, rest);
        assert(bs.subrange(0, bp.len() as int) =~= bp);
    }
    if starts_with(bs, bp) {
        if pattern.len() == 0 {
            assert(s.subrange(0, 0) =~= pattern);
        } else {
            let cp = encode_scalar(pattern[0] as u32);
            assert(bp == cp + encode_utf8(pattern.drop_first()));
            assert(cp.len() >= 1);
            assert(s.len() > 0);
            let cs = encode_scalar(s[0] as u32);
            assert(bs == cs + encode_utf8(s.drop_first()));
            encode_utf8_first_scalar(pattern);
            encode_utf8_first_scalar(s);
            assert forall|j: int| 0 <= j < bp.len() implies bs[j] == bp[j] by {
                assert(bs.subrange(0, bp.len() as int)[j] == bs[j]);
            }
            assert(decode_first_scalar(bs) == decode_first_scalar(bp));
            char_u32_cast(s[0], decode_first_scalar(bs));
            char_u32_cast(pattern[0], decode_first_scalar(bp));
            assert(s[0] == pattern[0]);
            let k = cs.len() as int;
            assert(bs.subrange(k, bs.len() as int) =~= encode_utf8(s.drop_first()));
            assert(bp.subrange(k, bp.len() as int) =~= encode_utf8(pattern.drop_first()));
            assert(encode_utf8(s.drop_first()).subrange(0, bp.len() - k) =~= encode_utf8(
                pattern.drop_first(),
            ));
            lemma_starts_with_encoded(s.drop_first(), pattern.drop_first());
            assert forall|j: int| 0 <= j < pattern.len() implies s[j] == pattern[j] by {
                if j > 0 {
                    assert(s.drop_first().subrange(0, pattern.len() - 1)[j - 1] == s[j]);
                }
            }
            assert(s.subrange(0, pattern.len() as int) =~= pattern);
        }
    }
}

/// A string holds a pattern exactly when its encoding holds the pattern's
/// encoding.
pub proof fn lemma_contains_encoded(s: Seq<char>, pattern: Seq<char>)
    ensures
        contains_seq(s, pattern) <==> contains_seq(encode_utf8(s), encode_utf8(pattern)),
{
    let bs = encode_utf8(s);
    let bp = encode_utf8(pattern);
    encode_utf8_valid_utf8(s);
    encode_utf8_decode_utf8(s);
    if contains_seq(s, pattern) {
        let at = choose|at: int| occurs_at(s, pattern, at);
        let head = s.subrange(0, at);
        let tail = s.subrange(at, s.len() as int);
        assert(s =~= head + tail);
        assert(tail.subrange(0, pattern.len() as int) =~= pattern);
        lemma_starts_with_encoded(tail, pattern);
        lemma_encode_concat(head, tail);
        let n = encode_utf8(head).len() as int;
        assert(bs.subrange(n, n + bp.len()) =~= encode_utf8(tail).subrange(0, bp.len() as int));
        assert(occurs_at(bs, bp, n));
    }
    if contains_seq(bs, bp) {
        if pattern.len() == 0 {
            assert(s.subrange(0, 0) =~= pattern);
            assert(occurs_at(s, pattern, 0));
        } else {
            let n = choose|n: int| occurs_at(bs, bp, n);
            encode_utf8_first_scalar(pattern);
            assert(bp.len() >= 1);
            assert(bs.subrange(n, n + bp.len())[0] == bs[n]);
            assert(!is_continuation_byte(bs[n]));
            is_char_boundary_iff_not_is_continuation_byte(bs, n);
            valid_utf8_split(bs, n);
            decode_utf8_split(bs, n);
            let b1 = bs.subrange(0, n);
            let b2 = bs.subrange(n, bs.len() as int);
            decode_utf8_encode_utf8(b2);
            assert(b2.subrange(0, bp.len() as int) =~= bp);
            lemma_starts_with_encoded(decode_utf8(b2), pattern);
            let at = decode_utf8(b1).len() as int;
            assert(s == decode_utf8(b1) + decode_utf8(b2));
            assert(s.subrange(at, at + pattern.len()) =~= decode_utf8(b2).subrange(
                0,
                pattern.len() as int,
            ));
            assert(occurs_at(s, pattern, at));
        }
    }
}

/// Two strings are equal exactly when their encodings are.
pub proof fn lemma_equal_encoded(a: Seq<char>, b: Seq<char>)
    ensures
        (a == b) <==> (encode_utf8(a) == encode_utf8(b)),
{
    encode_utf8_decode_utf8(a);
    encode_utf8_decode_utf8(b);
}

/// The characters that `bytes` encode, where they are well-formed UTF-8.
pub open spec fn decoded(bytes: Seq<u8>) -> Option<Seq<char>> {
    if valid_utf8(bytes) {
        Some(decode_utf8(bytes))
    } else {
        None
    }
}

/// The characters of an optional string.
pub open spec fn text_of(s: Option<String>) -> Option<Seq<char>> {
    match s {
        Some(s) => Some(s@),
        None => None,
    }
}

/// Calls `core::str::from_utf8`. The contract claims what its documentation
/// says: the call succeeds exactly on well-formed UTF-8, and the string it
/// returns is made of the bytes it was given.
#[verifier::external_body]
pub(crate) fn str_from_utf8(bytes: &[u8]) -> (text: Option<&str>)
    ensures
        text.is_some() == valid_utf8(bytes@),
        text matches Some(s) ==> encode_utf8(s@) == bytes@,
{
    core::str::from_utf8(bytes).ok()
}

/// Whether `bytes` are well-formed UTF-8.
pub fn is_utf8(bytes: &[u8]) -> (valid: bool)
    ensures
        valid == valid_utf8(bytes@),
{
    str_from_utf8(bytes).is_some()
}

/// Reads `bytes` as UTF-8 text, where they are well-formed.
pub fn decode(bytes: &[u8]) -> (text: Option<String>)
    ensures
        text_of(text) == decoded(bytes@),
{
    match str_from_utf8(bytes) {
        Some(s) => {
            proof {
                encode_utf8_decode_utf8(s@);
            }
            Some(s.to_owned())
        },
        None => None,
    }
}

/// Whether `s` begins with `pattern`.
pub fn str_starts_with(s: &str, pattern: &str) -> (found: bool)
    ensures
        found == starts_with(s@, pattern@),
{
    proof {
        lemma_starts_with_encoded(s@, pattern@);
    }
    bytes_start_with(s.as_bytes(), pattern.as_bytes())
}

/// Whether `pattern` stands somewhere in `s`.
pub fn str_contains(s: &str, pattern: &str) -> (found: bool)
    ensures
        found == contains_seq(s@, pattern@),
{
    proof {
        lemma_contains_encoded(s@, pattern@);
    }
    bytes_contain(s.as_bytes(), pattern.as_bytes())
}

/// Whether the two strings hold the same characters.
pub fn str_equal(a: &str, b: &str) -> (same: bool)
    ensures
        same == (a@ == b@),
{
    proof {
        lemma_equal_encoded(a@, b@);
    }
    bytes_equal(a.as_bytes(), b.as_bytes())
}

} // verus!
