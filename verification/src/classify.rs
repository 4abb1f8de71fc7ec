//! The rule that tells toolchain and registry paths from an author's own.

use vstd::prelude::*;
use crate::text::{contains_seq, starts_with, str_contains, str_starts_with};

verus! {

/// The rule itself: a path belongs to the build environment when it begins
/// with `/rust`, holds `.cargo`, `.rustup` or `.crates.io`, or begins with one
/// of the directories under which the compiler and its library are built.
pub open spec fn is_framework_text(path: Seq<char>) -> bool {
    ||| starts_with(path, "/rust"@)
    ||| contains_seq(path, ".cargo"@)
    ||| contains_seq(path, ".rustup"@)
    ||| contains_seq(path, ".crates.io"@)
    ||| starts_with(path, "/root/"@)
    ||| starts_with(path, "/cargo/"@)
    ||| starts_with(path, "/core/"@)
    ||| starts_with(path, "/std/"@)
    ||| starts_with(path, "/alloc/"@)
    ||| starts_with(path, "/library/"@)
    ||| starts_with(path, "/proc_macro/"@)
    ||| starts_with(path, "/test/"@)
}

/// Whether a source path belongs to the compiler, the standard library or
/// the registry cache rather than to the project that was built.
pub fn is_framework_path(path: &str) -> (framework: bool)
    ensures
        framework == is_framework_text(path@),
{
    str_starts_with(path, "/rust")
        || str_contains(path, ".cargo")
        || str_contains(path, ".rustup")
        || str_contains(path, ".crates.io")
        || str_starts_with(path, "/root/")
        || str_starts_with(path, "/cargo/")
        || str_starts_with(path, "/core/")
        || str_starts_with(path, "/std/")
        || str_starts_with(path, "/alloc/")
        || str_starts_with(path, "/library/")
        || str_starts_with(path, "/proc_macro/")
        || str_starts_with(path, "/test/")
}

} // verus!
