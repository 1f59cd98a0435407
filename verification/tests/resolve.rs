use http_file_server::errors::DeliveryError;
use http_file_server::resolve::{candidate_path, is_within_root, join_under_root, resolve_decision};

#[test]
fn plain_path_joins_under_root() {
    let c = candidate_path("/srv", "report.pdf").unwrap();
    assert_eq!(c, "/srv/report.pdf");
}

#[test]
fn traversal_attempt_joins_verbatim_and_is_caught_after_canonicalization() {
    // Request path from the end-to-end scenario: "a/../../etc/passwd".
    let c = candidate_path("/srv", "a/../../etc/passwd").unwrap();
    assert_eq!(c, "/srv/a/../../etc/passwd");
    // The filesystem canonicalizes that to a path outside the root; the
    // decision must refuse it, so no input can reach file contents outside
    // the root.
    let r = resolve_decision("/srv", Some("/etc/passwd".to_string()));
    assert_eq!(r, Err(DeliveryError::TraversalBlocked));
    assert_eq!(DeliveryError::TraversalBlocked.status_code(), 403);
    // If canonicalization fails instead (the path does not exist), the
    // request is not found; either way no contents are served.
    let r = resolve_decision("/srv", None);
    assert_eq!(r, Err(DeliveryError::NotFound));
    assert_eq!(DeliveryError::NotFound.status_code(), 404);
}

#[test]
fn encoded_absolute_path_replaces_the_root_and_is_blocked() {
    // "%2Fetc%2Fpasswd" decodes to "/etc/passwd"; a join treats an absolute
    // path as a replacement, and the guard then blocks it.
    let c = candidate_path("/srv", "%2Fetc%2Fpasswd").unwrap();
    assert_eq!(c, "/etc/passwd");
    let r = resolve_decision("/srv", Some("/etc/passwd".to_string()));
    assert_eq!(r, Err(DeliveryError::TraversalBlocked));
}

#[test]
fn percent_sequences_decode_before_joining() {
    let c = candidate_path("/srv", "my%20file%2Etxt").unwrap();
    assert_eq!(c, "/srv/my file.txt");
}

#[test]
fn invalid_utf8_in_path_is_bad_request() {
    let r = candidate_path("/srv", "%FF%FE");
    assert_eq!(r, Err(DeliveryError::InvalidEncoding));
    assert_eq!(DeliveryError::InvalidEncoding.status_code(), 400);
}

#[test]
fn within_root_accepts_the_root_and_its_descendants() {
    assert!(is_within_root("/srv", "/srv"));
    assert!(is_within_root("/srv/a/b.txt", "/srv"));
    assert!(is_within_root("/etc/passwd", "/"));
}

#[test]
fn within_root_rejects_prefix_tricks_and_escapes() {
    assert!(!is_within_root("/etc/passwd", "/srv"));
    // A sibling whose name merely starts with the root's name is outside.
    assert!(!is_within_root("/srvother/file", "/srv"));
    assert!(!is_within_root("/", "/srv"));
}

#[test]
fn admitted_path_is_returned_unchanged() {
    let r = resolve_decision("/srv", Some("/srv/data/file.bin".to_string()));
    assert_eq!(r, Ok("/srv/data/file.bin".to_string()));
}

#[test]
fn resolving_twice_yields_the_same_path() {
    // With no filesystem change, the canonicalization answer is the same,
    // and resolution is a pure function of it.
    let first = resolve_decision("/srv", Some("/srv/a.txt".to_string()));
    let second = resolve_decision("/srv", Some("/srv/a.txt".to_string()));
    assert_eq!(first, second);
    let c1 = candidate_path("/srv", "a%20b/c");
    let c2 = candidate_path("/srv", "a%20b/c");
    assert_eq!(c1, c2);
}

#[test]
fn join_respects_roots_with_trailing_separator() {
    assert_eq!(join_under_root("/", "etc"), "/etc");
    assert_eq!(join_under_root("/srv", "a/b"), "/srv/a/b");
    assert_eq!(join_under_root("/srv", ""), "/srv/");
}

#[test]
fn io_failure_maps_to_internal_error() {
    assert_eq!(DeliveryError::IoFailure.status_code(), 500);
}
