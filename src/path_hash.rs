//! The string-hash adapter: a stable 64-bit identifier for a device path.
use std::collections::hash_map::DefaultHasher;
use std::hash::{BuildHasher, BuildHasherDefault};
use vstd::prelude::*;

verus! {

/// The 64-bit value that std's `DefaultHasher`, as `DefaultHasher::new` or
/// `default` builds it, gives for a string.
pub uninterp spec fn default_hash_of(s: Seq<char>) -> u64;

/// Relies on std's `BuildHasher::hash_one` over `BuildHasherDefault<DefaultHasher>`:
/// each hasher it builds is `DefaultHasher::default()`, which has fixed keys,
/// so the result depends on the string alone.
#[verifier::external_body]
fn default_hash(s: &str) -> (r: u64)
    ensures
        r == default_hash_of(s@),
{
    BuildHasherDefault::<DefaultHasher>::default().hash_one(s)
}

/// Hashes a device path to the identifier that haptics commands carry.
pub fn path_string_to_hash(path: &str) -> (r: u64)
    ensures
        r == default_hash_of(path@),
{
    default_hash(path)
}

} // verus!
