//! Repository resolution and path arithmetic.
use mygit::errors::WebError;
use mygit::paths::{
    extension_of, file_name_of, join_path, path_within, pop_segment, strip_prefix_or_empty,
};
use mygit::resolver::{percent_decode, repo_candidate_path, resolve_decision};
use mygit::views::git_data_access;

/// A name that resolves outside the project root is refused with
/// `Forbidden`, whatever else the disk says.
#[test]
fn traversal_outside_root_is_forbidden() {
    let escaped = String::from("/etc/passwd");
    for opened in [false, true] {
        for exported in [false, true] {
            let r = resolve_decision("/srv/repos", Some(&escaped), opened, exported);
            let f = r.err().unwrap();
            assert_eq!(f.kind, WebError::Forbidden);
            assert_eq!(f.message, "You do not have access to this resource.");
        }
    }
}

/// A sibling directory sharing the root as a string prefix is still outside.
#[test]
fn prefix_on_non_boundary_is_outside() {
    let sneaky = String::from("/srv/repos-evil/x");
    let r = resolve_decision("/srv/repos", Some(&sneaky), true, true);
    assert_eq!(r.err().unwrap().kind, WebError::Forbidden);
    assert!(!path_within("/srv/repos", "/srv/repos-evil/x"));
    assert!(path_within("/srv/repos", "/srv/repos/x"));
    assert!(path_within("/srv/repos", "/srv/repos"));
}

/// A repository without the export marker fails exactly like a nonexistent
/// one: the same kind and the same message.
#[test]
fn unexported_looks_like_missing() {
    let inside = String::from("/srv/repos/private");
    let unexported = resolve_decision("/srv/repos", Some(&inside), true, false).err().unwrap();
    let unresolved = resolve_decision("/srv/repos", None, false, false).err().unwrap();
    let unopened = resolve_decision("/srv/repos", Some(&inside), false, false).err().unwrap();
    assert_eq!(unexported.kind, WebError::NotFound);
    assert_eq!(unexported.kind, unresolved.kind);
    assert_eq!(unexported.kind, unopened.kind);
    assert_eq!(unexported.message, unresolved.message);
    assert_eq!(unexported.message, unopened.message);
    assert_eq!(unexported.message, "This repository does not exist.");
}

#[test]
fn exported_repository_is_admitted() {
    let inside = String::from("/srv/repos/public");
    assert!(resolve_decision("/srv/repos", Some(&inside), true, true).is_ok());
}

#[test]
fn percent_decoding_applies() {
    assert_eq!(percent_decode("foo%2Fbar"), "foo/bar");
    assert_eq!(percent_decode("a%20b"), "a b");
    assert_eq!(percent_decode("plain"), "plain");
}

#[test]
fn candidate_path_joins_decoded_name() {
    assert_eq!(repo_candidate_path("repos", "project"), "repos/project");
    assert_eq!(repo_candidate_path("repos", "..%2F..%2Fetc"), "repos/../../etc");
    // an absolute decoded name replaces the root and is later caught by the
    // descendant check
    assert_eq!(repo_candidate_path("repos", "%2Fetc%2Fpasswd"), "/etc/passwd");
}

#[test]
fn join_and_components() {
    assert_eq!(join_path("/srv", "x"), "/srv/x");
    assert_eq!(join_path("/srv", "/abs"), "/abs");
    assert_eq!(file_name_of("/a/b/c"), "c");
    assert_eq!(file_name_of("/a/b/c/"), "c");
    assert_eq!(file_name_of("bare.git"), "bare.git");
    assert_eq!(pop_segment("/a/b/c"), "/a/b");
    assert_eq!(pop_segment("/a/b/c/"), "/a/b/c");
    assert_eq!(strip_prefix_or_empty("/repo/objects/ab", "/repo/"), "objects/ab");
    assert_eq!(strip_prefix_or_empty("/other/x", "/repo/"), "");
}

#[test]
fn extension_rules_match_path_semantics() {
    assert_eq!(extension_of("src/main.rs"), "rs");
    assert_eq!(extension_of("archive.tar.gz"), "gz");
    assert_eq!(extension_of("Makefile"), "");
    assert_eq!(extension_of(".gitignore"), "");
    assert_eq!(extension_of("dir.d/file"), "");
    assert_eq!(extension_of("trailing."), "");
}

#[test]
fn git_data_access_decisions() {
    let inside = String::from("/srv/repos/x/.git/objects/ab");
    let outside = String::from("/srv/secrets");
    assert!(git_data_access("/srv/repos/x/.git", Some(&inside), true).is_ok());
    let not_file = git_data_access("/srv/repos/x/.git", Some(&inside), false).err().unwrap();
    assert_eq!(not_file.kind, WebError::NotFound);
    let escape = git_data_access("/srv/repos/x/.git", Some(&outside), true).err().unwrap();
    assert_eq!(escape.kind, WebError::Forbidden);
    let missing = git_data_access("/srv/repos/x/.git", None, true).err().unwrap();
    assert_eq!(missing.kind, WebError::NotFound);
}
