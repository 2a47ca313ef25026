use ade_host::path_guard::{check, path_within};

fn bytes(s: &str) -> Vec<u8> {
    s.as_bytes().to_vec()
}

#[test]
fn root_itself_is_within() {
    assert!(path_within(&bytes("/home/u/proj"), &bytes("/home/u/proj")));
}

#[test]
fn descendant_is_within() {
    assert!(path_within(&bytes("/home/u/proj/src/main.rs"), &bytes("/home/u/proj")));
}

#[test]
fn sibling_sharing_a_prefix_is_not_within() {
    assert!(!path_within(&bytes("/home/u/project"), &bytes("/home/u/proj")));
    assert!(!path_within(&bytes("/home/u/proj2/x"), &bytes("/home/u/proj")));
}

#[test]
fn parent_is_not_within() {
    assert!(!path_within(&bytes("/home/u"), &bytes("/home/u/proj")));
}

#[test]
fn filesystem_root_holds_every_absolute_path() {
    assert!(path_within(&bytes("/etc/passwd"), &bytes("/")));
    assert!(path_within(&bytes("/"), &bytes("/")));
}

#[test]
fn check_admits_target_under_some_root() {
    let roots = vec![Some(bytes("/p/ade/flows")), Some(bytes("/p/kit/flows"))];
    assert!(check(&Some(bytes("/p/kit/flows/a.json")), &roots));
}

#[test]
fn check_refuses_escape_through_parent_segments() {
    // "../../etc/passwd" from "/home/u/proj" resolves to "/etc/passwd".
    let roots = vec![Some(bytes("/home/u/proj"))];
    assert!(!check(&Some(bytes("/etc/passwd")), &roots));
}

#[test]
fn check_refuses_symlink_resolving_outside() {
    // A link inside the root whose target lies elsewhere resolves outside.
    let roots = vec![Some(bytes("/home/u/proj")), Some(bytes("/home/u/proj/src"))];
    assert!(!check(&Some(bytes("/tmp/secret")), &roots));
}

#[test]
fn check_refuses_unresolved_target() {
    let roots = vec![Some(bytes("/"))];
    assert!(!check(&None, &roots));
}

#[test]
fn unresolved_root_matches_nothing() {
    let roots: Vec<Option<Vec<u8>>> = vec![None, None];
    assert!(!check(&Some(bytes("/home/u/proj")), &roots));
    let roots = vec![None, Some(bytes("/home/u/proj"))];
    assert!(check(&Some(bytes("/home/u/proj")), &roots));
}

#[test]
fn check_with_no_roots_refuses() {
    let roots: Vec<Option<Vec<u8>>> = vec![];
    assert!(!check(&Some(bytes("/a")), &roots));
}

#[test]
fn repeated_path_refusal_is_the_same() {
    let roots = vec![Some(bytes("/home/u/proj"))];
    let target = Some(bytes("/etc/passwd"));
    for _ in 0..3 {
        assert!(!check(&target, &roots));
    }
    assert_eq!(roots, vec![Some(bytes("/home/u/proj"))]);
}
