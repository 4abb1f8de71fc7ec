use rustre::{
    extract_rustc_info, hash_from_capture, parse_version_mappings, resolve_rust_version,
    table_from_pairs, Capture, Span, VersionTable,
};

const HASH_1_69: &str = "84c898d65adf2f39a5a98507f1fe0ce10a2b8dbc";
const HASH_1_63: &str = "4b91a6ea7258a947e59c6522cd5898e7c0a6a88f";

fn sample_table() -> VersionTable {
    let mut table = VersionTable::new();
    table.insert(HASH_1_69.to_string(), "1.69.0".to_string());
    table.insert(HASH_1_63.to_string(), "1.63.0".to_string());
    table
}

#[test]
fn the_hash_is_read_from_a_compiler_path() {
    let content = b"\x00/rustc/84c898d65adf2f39a5a98507f1fe0ce10a2b8dbc/library/std/src/lib.rs\x00";
    assert_eq!(extract_rustc_info(content).unwrap(), Some(HASH_1_69.to_string()));
}

#[test]
fn the_first_of_two_hashes_is_taken() {
    let content = b"/rustc/84c898d65adf2f39a5a98507f1fe0ce10a2b8dbc/library/core/src/fmt/mod.rs\x00\
/rustc/4b91a6ea7258a947e59c6522cd5898e7c0a6a88f/library/std/src/lib.rs";
    assert_eq!(extract_rustc_info(content).unwrap(), Some(HASH_1_69.to_string()));
    let content = b"/rustc/4b91a6ea7258a947e59c6522cd5898e7c0a6a88f/library/std/src/lib.rs\x00\
/rustc/84c898d65adf2f39a5a98507f1fe0ce10a2b8dbc/library/core/src/fmt/mod.rs";
    assert_eq!(extract_rustc_info(content).unwrap(), Some(HASH_1_63.to_string()));
}

#[test]
fn paths_without_a_hash_are_passed_over() {
    let content = b"/src/main.rs\x00/home/me/.cargo/registry/src/lib.rs\x00\
/rustc/4b91a6ea7258a947e59c6522cd5898e7c0a6a88f/library/std/src/lib.rs";
    assert_eq!(extract_rustc_info(content).unwrap(), Some(HASH_1_63.to_string()));
}

#[test]
fn a_hash_outside_a_source_path_is_not_seen() {
    let content = b"built by /rustc/84c898d65adf2f39a5a98507f1fe0ce10a2b8dbc and /src/main.rs";
    assert_eq!(extract_rustc_info(content).unwrap(), None);
}

#[test]
fn a_hash_needs_forty_lowercase_hexadecimal_digits() {
    let short = b"/rustc/84c898d65adf2f39a5a98507f1fe0ce10a2b8db/library/std/src/lib.rs";
    assert_eq!(extract_rustc_info(short).unwrap(), None);
    let upper = b"/rustc/84C898D65ADF2F39A5A98507F1FE0CE10A2B8DBC/library/std/src/lib.rs";
    assert_eq!(extract_rustc_info(upper).unwrap(), None);
    let other = b"/rustc/84c898d65adf2f39a5a98507f1fe0ce10a2b8dbg/library/std/src/lib.rs";
    assert_eq!(extract_rustc_info(other).unwrap(), None);
}

#[test]
fn there_is_no_hash_in_an_empty_buffer() {
    assert_eq!(extract_rustc_info(b"").unwrap(), None);
}

#[test]
fn hash_from_capture_reads_the_first_group() {
    let path = b"/rustc/abc/x.rs";
    let capture = Capture {
        whole: Some(Span { start: 0, end: 10 }),
        first: Some(Span { start: 7, end: 10 }),
        second: None,
    };
    assert_eq!(hash_from_capture(path, Some(capture)), Some("abc".to_string()));
}

#[test]
fn hash_from_capture_gives_none_without_a_match_or_a_group() {
    let path = b"/rustc/abc/x.rs";
    assert_eq!(hash_from_capture(path, None), None);
    let capture = Capture { whole: Some(Span { start: 0, end: 10 }), first: None, second: None };
    assert_eq!(hash_from_capture(path, Some(capture)), None);
    let outside = Capture {
        whole: Some(Span { start: 0, end: 10 }),
        first: Some(Span { start: 7, end: 16 }),
        second: None,
    };
    assert_eq!(hash_from_capture(path, Some(outside)), None);
}

#[test]
fn a_listed_hash_resolves_to_its_label() {
    let table = Some(sample_table());
    assert_eq!(resolve_rust_version(&Some(HASH_1_69.to_string()), &table), Some("1.69.0".to_string()));
    assert_eq!(resolve_rust_version(&Some(HASH_1_63.to_string()), &table), Some("1.63.0".to_string()));
}

#[test]
fn without_a_table_there_is_no_version() {
    assert_eq!(resolve_rust_version(&Some(HASH_1_69.to_string()), &None), None);
    assert_eq!(resolve_rust_version(&None, &None), None);
}

#[test]
fn without_a_hash_there_is_no_version() {
    assert_eq!(resolve_rust_version(&None, &Some(sample_table())), None);
}

#[test]
fn an_unlisted_hash_has_no_version() {
    let table = Some(sample_table());
    let unknown = Some("9fc6b43126469e3858e2fe86cafb4f0fd5068869".to_string());
    assert_eq!(resolve_rust_version(&unknown, &table), None);
    assert_eq!(resolve_rust_version(&Some(String::new()), &table), None);
    assert_eq!(resolve_rust_version(&Some(HASH_1_69.to_string()), &Some(VersionTable::new())), None);
}

#[test]
fn a_table_keeps_the_last_label_entered_for_a_hash() {
    let mut table = VersionTable::new();
    assert_eq!(table.len(), 0);
    assert!(!table.contains_key(HASH_1_69));
    table.insert(HASH_1_69.to_string(), "1.69.0-beta".to_string());
    table.insert(HASH_1_63.to_string(), "1.63.0".to_string());
    table.insert(HASH_1_69.to_string(), "1.69.0".to_string());
    assert_eq!(table.len(), 2);
    assert!(table.contains_key(HASH_1_69));
    assert_eq!(table.get(HASH_1_69), Some(&"1.69.0".to_string()));
    assert_eq!(table.get(HASH_1_63), Some(&"1.63.0".to_string()));
    assert_eq!(table.get("84c898d65adf2f39a5a98507f1fe0ce10a2b8db"), None);
    assert_eq!(
        table.entries().to_vec(),
        vec![
            (HASH_1_69.to_string(), "1.69.0".to_string()),
            (HASH_1_63.to_string(), "1.63.0".to_string()),
        ]
    );
}

#[test]
fn table_from_pairs_enters_each_pair_in_turn() {
    let pairs = vec![
        ("a".to_string(), "1".to_string()),
        ("b".to_string(), "2".to_string()),
        ("a".to_string(), "3".to_string()),
    ];
    let table = table_from_pairs(&pairs);
    assert_eq!(table.len(), 2);
    assert_eq!(table.get("a"), Some(&"3".to_string()));
    assert_eq!(table.get("b"), Some(&"2".to_string()));
    assert_eq!(table.get("c"), None);
}

#[test]
fn a_json_object_of_strings_is_a_table() {
    let content = "{\n  \"84c898d65adf2f39a5a98507f1fe0ce10a2b8dbc\": \"1.69.0\",\n  \"4b91a6ea7258a947e59c6522cd5898e7c0a6a88f\": \"1.63.0\"\n}";
    let table = parse_version_mappings(content).unwrap();
    assert_eq!(table.len(), 2);
    assert!(table.contains_key(HASH_1_69));
    assert!(table.contains_key(HASH_1_63));
    assert_eq!(table.get(HASH_1_69), Some(&"1.69.0".to_string()));
    assert_eq!(table.get(HASH_1_63), Some(&"1.63.0".to_string()));
    let table = Some(table);
    assert_eq!(resolve_rust_version(&Some(HASH_1_69.to_string()), &table), Some("1.69.0".to_string()));
}

#[test]
fn an_empty_json_object_is_an_empty_table() {
    let table = parse_version_mappings("{}").unwrap();
    assert_eq!(table.len(), 0);
    assert_eq!(table.get(HASH_1_69), None);
}

#[test]
fn any_other_document_is_no_table() {
    assert!(parse_version_mappings("").is_none());
    assert!(parse_version_mappings("not json").is_none());
    assert!(parse_version_mappings("{\"a\": \"1\"").is_none());
    assert!(parse_version_mappings("[\"a\", \"1\"]").is_none());
    assert!(parse_version_mappings("{\"a\": 1}").is_none());
    assert!(parse_version_mappings("\"a\"").is_none());
}
