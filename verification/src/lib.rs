//! Provenance analysis of compiled Rust binaries.
//!
//! A binary's embedded debug paths and panic strings reveal the registry
//! packages linked into it, the compiler build that produced it and the
//! source files of its author. This crate scans a byte buffer for those
//! traces and sorts them into a single result record.

pub mod analysis;
pub mod classify;
pub mod gather;
pub mod package;
pub mod paths;
pub mod pathset;
pub mod pattern;
pub mod text;
pub mod toolchain;
pub mod update;
pub mod versions;

pub use analysis::{analyze, AnalysisResult};
pub use classify::is_framework_path;
pub use package::{extract_packages, packages_from_captures, Package, PackageSet};
pub use paths::{categorize_from_spans, categorize_paths};
pub use pathset::PathSet;
pub use pattern::{Capture, Compiled, Patterns, ScanError, Span};
pub use toolchain::{extract_rustc_info, hash_from_capture};
pub use update::{process_tags, FetchProgress, GitHubCommit, GitHubTag, PageReply, TagFetch, TAGS_PER_PAGE};
pub use versions::{parse_version_mappings, resolve_rust_version, table_from_pairs, VersionTable};
