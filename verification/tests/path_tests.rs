use rustre::{categorize_from_spans, categorize_paths, is_framework_path, PathSet, Span};

#[test]
fn paths_under_the_compiler_are_framework_paths() {
    assert!(is_framework_path("/rustc/84c898d65adf2f39a5a98507f1fe0ce10a2b8dbc/library/std/src/lib.rs"));
    assert!(is_framework_path("/rust/deps/hashbrown/src/raw/mod.rs"));
    assert!(is_framework_path("/rustlike/src/main.rs"));
    assert!(is_framework_path("/root/build/src/main.rs"));
    assert!(is_framework_path("/cargo/registry/src/index.crates.io-6f17d22bba15001f/gimli-0.26.2/src/lib.rs"));
    assert!(is_framework_path("/core/src/fmt/mod.rs"));
    assert!(is_framework_path("/std/src/io/mod.rs"));
    assert!(is_framework_path("/alloc/src/vec/mod.rs"));
    assert!(is_framework_path("/library/core/src/str/mod.rs"));
    assert!(is_framework_path("/proc_macro/src/lib.rs"));
    assert!(is_framework_path("/test/src/lib.rs"));
}

#[test]
fn paths_that_hold_a_registry_marker_are_framework_paths() {
    assert!(is_framework_path("C:\\Users\\me\\.cargo\\registry\\src\\github.com-1ecc6299db9ec823\\winsafe-0.0.12\\src\\lib.rs"));
    assert!(is_framework_path("/home/me/.cargo/registry/src/index.crates.io-6f17d22bba15001f/addr2line-0.17.0/src/lib.rs"));
    assert!(is_framework_path("/home/me/.rustup/toolchains/stable/lib/rustlib/src/rust/library/core/src/fmt.rs"));
    assert!(is_framework_path("/build/index.crates.io/serde/src/lib.rs"));
    assert!(is_framework_path("x.cargo"));
}

#[test]
fn other_paths_are_user_paths() {
    assert!(!is_framework_path("/src/main.rs"));
    assert!(!is_framework_path("/src/peparser/pe.rs"));
    assert!(!is_framework_path("/akita/ww/obfstr/src/bytes.rs"));
    assert!(!is_framework_path("C:\\work\\tool\\src\\main.rs"));
    assert!(!is_framework_path(""));
    assert!(!is_framework_path("/rus"));
    assert!(!is_framework_path("/home/root/src/main.rs"));
    assert!(!is_framework_path("/src/core/mod.rs"));
    assert!(!is_framework_path("/home/me/cargo/src/main.rs"));
    assert!(!is_framework_path("/tests/it.rs"));
    assert!(!is_framework_path("/stdx/src/lib.rs"));
    assert!(!is_framework_path("/répertoire/.carg/src/main.rs"));
}

#[test]
fn a_marker_after_text_beyond_ascii_is_still_found() {
    assert!(is_framework_path("/home/rené/.cargo/registry/src/lib.rs"));
    assert!(is_framework_path("/дом/.rustup/toolchains/lib.rs"));
}

#[test]
fn path_set_holds_each_path_once() {
    let mut set = PathSet::new();
    assert!(set.is_empty());
    assert_eq!(set.len(), 0);
    assert!(set.insert("/src/main.rs".to_string()));
    assert!(set.insert("/src/lib.rs".to_string()));
    assert!(!set.insert("/src/main.rs".to_string()));
    assert_eq!(set.len(), 2);
    assert!(set.contains("/src/main.rs"));
    assert!(set.contains("/src/lib.rs"));
    assert!(!set.contains("/src/ui.rs"));
    assert_eq!(set.as_slice().to_vec(), vec!["/src/main.rs".to_string(), "/src/lib.rs".to_string()]);
}

#[test]
fn categorize_paths_sorts_each_path_into_one_set() {
    let content = b"\x00/src/main.rs\x00/rustc/84c898d65adf2f39a5a98507f1fe0ce10a2b8dbc/library/std/src/lib.rs\x00\
/home/me/.cargo/registry/src/index.crates.io-6f17d22bba15001f/addr2line-0.17.0/src/lib.rs\x00/src/peparser/pe.rs\x00";
    let (framework, user) = categorize_paths(content).unwrap();
    assert_eq!(framework.len(), 2);
    assert!(framework.contains("/rustc/84c898d65adf2f39a5a98507f1fe0ce10a2b8dbc/library/std/src/lib.rs"));
    assert!(framework.contains(
        "/home/me/.cargo/registry/src/index.crates.io-6f17d22bba15001f/addr2line-0.17.0/src/lib.rs"
    ));
    assert_eq!(user.len(), 2);
    assert!(user.contains("/src/main.rs"));
    assert!(user.contains("/src/peparser/pe.rs"));
    for path in framework.as_slice() {
        assert!(!user.contains(path));
    }
    for path in user.as_slice() {
        assert!(!framework.contains(path));
    }
}

#[test]
fn categorize_paths_keeps_a_repeated_path_once() {
    let content = b"/src/main.rs /src/main.rs /src/ui.rs /src/main.rs";
    let (framework, user) = categorize_paths(content).unwrap();
    assert!(framework.is_empty());
    assert_eq!(user.len(), 2);
    assert!(user.contains("/src/main.rs"));
    assert!(user.contains("/src/ui.rs"));
}

#[test]
fn categorize_paths_reads_a_drive_prefix() {
    let content = b"at C:\\work\\tool\\src\\main.rs:12";
    let (framework, user) = categorize_paths(content).unwrap();
    assert!(framework.is_empty());
    assert_eq!(user.len(), 1);
    assert!(user.contains("C:\\work\\tool\\src\\main.rs"));
}

#[test]
fn categorize_paths_needs_a_directory_and_the_extension() {
    let (framework, user) =
        categorize_paths(b"/main.rs src/main.rs /src/main.rb /src/main main.rs /src/main.c").unwrap();
    assert!(framework.is_empty());
    assert!(user.is_empty());
    let (framework, user) = categorize_paths(b"/main.rs /a/main.rs").unwrap();
    assert!(framework.is_empty());
    assert_eq!(user.len(), 1);
    assert!(user.contains("/a/main.rs"));
}

#[test]
fn categorize_paths_finds_nothing_in_an_empty_buffer() {
    let (framework, user) = categorize_paths(b"").unwrap();
    assert!(framework.is_empty());
    assert!(user.is_empty());
}

#[test]
fn categorize_from_spans_reads_and_sorts_the_text_under_each_span() {
    let content = b"/src/a.rs /std/b.rs /src/a.rs";
    let spans = vec![
        Span { start: 0, end: 9 },
        Span { start: 10, end: 19 },
        Span { start: 20, end: 29 },
    ];
    let (framework, user) = categorize_from_spans(content, &spans);
    assert_eq!(framework.as_slice().to_vec(), vec!["/std/b.rs".to_string()]);
    assert_eq!(user.as_slice().to_vec(), vec!["/src/a.rs".to_string()]);
}

#[test]
fn categorize_from_spans_passes_over_what_cannot_be_read() {
    let content = b"/src/\xff.rs /src/a.rs";
    let spans = vec![
        Span { start: 0, end: 9 },
        Span { start: 10, end: 30 },
        Span { start: 12, end: 11 },
        Span { start: 10, end: 19 },
    ];
    let (framework, user) = categorize_from_spans(content, &spans);
    assert!(framework.is_empty());
    assert_eq!(user.as_slice().to_vec(), vec!["/src/a.rs".to_string()]);
}
