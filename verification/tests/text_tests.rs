use rustre::text::{
    bytes_contain, bytes_equal, bytes_match_at, bytes_start_with, decode, is_utf8, str_contains,
    str_equal, str_starts_with,
};

#[test]
fn a_pattern_is_found_where_it_stands() {
    assert!(bytes_match_at(b"abcde", b"cd", 2));
    assert!(!bytes_match_at(b"abcde", b"cd", 1));
    assert!(!bytes_match_at(b"abcde", b"de", 4));
    assert!(bytes_match_at(b"abcde", b"", 5));
    assert!(!bytes_match_at(b"abcde", b"", 6));
    assert!(!bytes_match_at(b"abcde", b"abcdef", 0));
}

#[test]
fn prefixes_are_told_from_other_occurrences() {
    assert!(bytes_start_with(b"/rustc/x", b"/rust"));
    assert!(!bytes_start_with(b"a/rustc/x", b"/rust"));
    assert!(bytes_start_with(b"abc", b""));
    assert!(bytes_start_with(b"", b""));
    assert!(!bytes_start_with(b"ab", b"abc"));
}

#[test]
fn a_pattern_is_found_anywhere_in_the_bytes() {
    assert!(bytes_contain(b"home/.cargo/registry", b".cargo"));
    assert!(bytes_contain(b".cargo", b".cargo"));
    assert!(bytes_contain(b"xx.cargo", b".cargo"));
    assert!(!bytes_contain(b"home/.carg", b".cargo"));
    assert!(!bytes_contain(b"", b".cargo"));
    assert!(bytes_contain(b"abc", b""));
    assert!(bytes_contain(b"", b""));
    assert!(bytes_contain(b"aab", b"ab"));
}

#[test]
fn slices_are_equal_when_all_their_bytes_are() {
    assert!(bytes_equal(b"abc", b"abc"));
    assert!(bytes_equal(b"", b""));
    assert!(!bytes_equal(b"abc", b"abd"));
    assert!(!bytes_equal(b"abc", b"ab"));
    assert!(!bytes_equal(b"ab", b"abc"));
}

#[test]
fn strings_are_tested_by_their_characters() {
    assert!(str_starts_with("/rustc/x", "/rust"));
    assert!(!str_starts_with("x/rustc", "/rust"));
    assert!(str_starts_with("été/src", "ét"));
    assert!(!str_starts_with("été/src", "éte"));
    assert!(str_contains("/home/rené/.cargo/x", ".cargo"));
    assert!(str_contains("/home/rené/.cargo/x", "né/"));
    assert!(!str_contains("/home/rené/.cargo/x", "ne/"));
    assert!(str_equal("rené", "rené"));
    assert!(!str_equal("rené", "rene"));
    assert!(str_equal("", ""));
}

#[test]
fn well_formed_bytes_are_read_as_text() {
    assert_eq!(decode(b"/src/main.rs"), Some("/src/main.rs".to_string()));
    assert_eq!(decode("rené".as_bytes()), Some("rené".to_string()));
    assert_eq!(decode(b""), Some(String::new()));
    assert!(is_utf8(b"/src/main.rs"));
    assert!(is_utf8("дом".as_bytes()));
}

#[test]
fn ill_formed_bytes_are_not_text() {
    assert_eq!(decode(b"/src/\xff.rs"), None);
    assert_eq!(decode(b"\xc3"), None);
    assert_eq!(decode(b"\xed\xa0\x80"), None);
    assert!(!is_utf8(b"\x80"));
    assert!(!is_utf8(b"\xc0\xaf"));
}
