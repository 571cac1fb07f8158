use alvr_server::path_hash::path_string_to_hash;
use std::collections::hash_map::DefaultHasher;
use std::hash::{Hash, Hasher};

fn expected(s: &str) -> u64 {
    let mut h = DefaultHasher::new();
    s.hash(&mut h);
    h.finish()
}

#[test]
fn hash_matches_default_hasher() {
    let p = "/user/hand/left/output/haptic";
    assert_eq!(path_string_to_hash(p), expected(p));
    assert_eq!(path_string_to_hash(""), expected(""));
}

#[test]
fn hash_is_stable_and_distinguishes_paths() {
    let a = "/user/hand/left/output/haptic";
    let b = "/user/hand/right/output/haptic";
    assert_eq!(path_string_to_hash(a), path_string_to_hash(a));
    assert_ne!(path_string_to_hash(a), path_string_to_hash(b));
}
