//! Filesystem paths as the library sees them: plain strings.
//!
//! The library never touches the disk. Where it has to combine or compare
//! locations it asks `std::path`, and speaks of the answers by name.

use std::collections::hash_map::DefaultHasher;
use std::hash::{Hash, Hasher};
use std::path::Path;
use vstd::prelude::*;

verus! {

/// What `Path::join` gives for the base `base` and the relative part `tail`.
pub uninterp spec fn joined_path(base: Seq<char>, tail: Seq<char>) -> Seq<char>;

/// Whether `Path::starts_with` finds `base` to be `path` itself or one of the
/// directories above it, comparing whole components.
pub uninterp spec fn path_within(path: Seq<char>, base: Seq<char>) -> bool;

/// What a `DefaultHasher` made by `DefaultHasher::new` holds after the path
/// `path` alone was fed to it.
pub uninterp spec fn path_hash(path: Seq<char>) -> u64;

/// What `Path::parent` gives for the path `path`: the path without its last
/// component, if it has one to drop.
pub uninterp spec fn parent_of(path: Seq<char>) -> Option<Seq<char>>;

/// What `Path::file_name` gives for the path `path`: its last component, if
/// that is a name.
pub uninterp spec fn file_name_of(path: Seq<char>) -> Option<Seq<char>>;

/// `Path::join`: `tail` appended to `base` as further components. The result
/// depends on the two texts alone; nothing more is claimed about it.
#[verifier::external_body]
pub(crate) fn join_path(base: &str, tail: &str) -> (r: String)
    ensures
        r@ == joined_path(base@, tail@),
{
    Path::new(base).join(tail).to_string_lossy().into_owned()
}

/// `Path::parent`: `path` without its last component, `None` where `path`
/// ends in a root or is empty. The result depends on the text alone; nothing
/// more is claimed about it.
#[verifier::external_body]
pub(crate) fn path_parent(path: &str) -> (r: Option<String>)
    ensures
        r.deep_view() == parent_of(path@),
{
    match Path::new(path).parent() {
        Some(parent) => Some(parent.to_string_lossy().into_owned()),
        None => None,
    }
}

/// `Path::file_name`: the last component of `path`, `None` where `path` ends
/// in `..` or is a root. The result depends on the text alone; nothing more
/// is claimed about it.
#[verifier::external_body]
pub(crate) fn path_file_name(path: &str) -> (r: Option<String>)
    ensures
        r.deep_view() == file_name_of(path@),
{
    match Path::new(path).file_name() {
        Some(name) => Some(name.to_string_lossy().into_owned()),
        None => None,
    }
}

/// `Path::starts_with`: whether `base` is a prefix of `path` made of whole
/// components. The answer depends on the two texts alone; nothing more is
/// claimed about it.
#[verifier::external_body]
pub(crate) fn path_starts_with(path: &str, base: &str) -> (r: bool)
    ensures
        r == path_within(path@, base@),
{
    Path::new(path).starts_with(Path::new(base))
}

/// `DefaultHasher::new`, `Hash::hash` on the path and `Hasher::finish`: the
/// hash of a path under the fixed keys of a fresh default hasher. The value
/// depends on the text alone; nothing more is claimed about it.
#[verifier::external_body]
pub(crate) fn hash_path(path: &str) -> (r: u64)
    ensures
        r == path_hash(path@),
{
    let mut hasher = DefaultHasher::new();
    Path::new(path).hash(&mut hasher);
    hasher.finish()
}

/// `dirs::cache_dir`: the user's cache directory as the platform and the
/// environment name it, if they name one that is valid Unicode. Nothing is
/// claimed about the value.
#[verifier::external_body]
pub(crate) fn user_cache_dir() -> Option<String> {
    match dirs::cache_dir() {
        Some(dir) => dir.into_os_string().into_string().ok(),
        None => None,
    }
}

/// Whether the process that works at `current` stands at or beneath the
/// checkout at `path`.
pub fn is_at_or_beneath(current: &str, path: &str) -> (r: bool)
    ensures
        r == path_within(current@, path@),
{
    path_starts_with(current, path)
}

} // verus!
