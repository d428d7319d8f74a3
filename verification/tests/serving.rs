use hls_server::paths::{base_dir_bytes, check_tail, resolve_tail, PathRejection};
use hls_server::response::{response_status, OpenFailure, RequestOutcome};

#[test]
fn base_prefix_is_the_hls_directory() {
    assert_eq!(base_dir_bytes(), b"./hls/".to_vec());
}

#[test]
fn playlist_resolves_under_base() {
    assert_eq!(
        resolve_tail(b"stream.m3u8"),
        Ok(b"./hls/stream.m3u8".to_vec())
    );
}

#[test]
fn nested_segment_resolves_under_base() {
    assert_eq!(resolve_tail(b"seg/001.ts"), Ok(b"./hls/seg/001.ts".to_vec()));
}

#[test]
fn missing_file_resolves_then_maps_to_not_found() {
    // The tail is acceptable, so the resolver hands back a path; only
    // the filesystem can report that nothing lives there, and that
    // report is owed a 404.
    assert_eq!(
        resolve_tail(b"missing.m3u8"),
        Ok(b"./hls/missing.m3u8".to_vec())
    );
    let outcome = RequestOutcome::OpenFailed(OpenFailure::NotFound);
    assert_eq!(response_status(&outcome), 404);
}

#[test]
fn traversal_is_rejected() {
    assert_eq!(
        resolve_tail(b"../../etc/passwd"),
        Err(PathRejection::Traversal)
    );
    assert_eq!(resolve_tail(b".."), Err(PathRejection::Traversal));
    assert_eq!(resolve_tail(b"../a"), Err(PathRejection::Traversal));
    assert_eq!(resolve_tail(b"a/.."), Err(PathRejection::Traversal));
    assert_eq!(resolve_tail(b"seg/../../x.ts"), Err(PathRejection::Traversal));
}

#[test]
fn dots_inside_names_are_allowed() {
    assert_eq!(resolve_tail(b"a..b"), Ok(b"./hls/a..b".to_vec()));
    assert_eq!(resolve_tail(b"..a"), Ok(b"./hls/..a".to_vec()));
    assert_eq!(resolve_tail(b"a.."), Ok(b"./hls/a..".to_vec()));
    assert_eq!(resolve_tail(b"a../b"), Ok(b"./hls/a../b".to_vec()));
    assert_eq!(resolve_tail(b"seg/.hidden"), Ok(b"./hls/seg/.hidden".to_vec()));
}

#[test]
fn absolute_path_is_rejected() {
    assert_eq!(resolve_tail(b"/etc/passwd"), Err(PathRejection::Absolute));
    assert_eq!(resolve_tail(b"/"), Err(PathRejection::Absolute));
}

#[test]
fn nul_byte_is_malformed() {
    assert_eq!(resolve_tail(b"a\0b"), Err(PathRejection::Malformed));
    assert_eq!(resolve_tail(b"\0"), Err(PathRejection::Malformed));
    // A NUL byte is reported before anything else about the tail.
    assert_eq!(resolve_tail(b"/..\0"), Err(PathRejection::Malformed));
    assert_eq!(check_tail(b"x\0"), Err(PathRejection::Malformed));
}

#[test]
fn empty_tail_resolves_to_the_base_itself() {
    assert_eq!(resolve_tail(b""), Ok(b"./hls/".to_vec()));
}

#[test]
fn statuses_follow_the_outcome() {
    assert_eq!(response_status(&RequestOutcome::Served), 200);
    assert_eq!(
        response_status(&RequestOutcome::Rejected(PathRejection::Malformed)),
        400
    );
    assert_eq!(
        response_status(&RequestOutcome::Rejected(PathRejection::Absolute)),
        400
    );
    assert_eq!(
        response_status(&RequestOutcome::Rejected(PathRejection::Traversal)),
        400
    );
    assert_eq!(
        response_status(&RequestOutcome::OpenFailed(OpenFailure::NotFound)),
        404
    );
    assert_eq!(
        response_status(&RequestOutcome::OpenFailed(OpenFailure::OtherIo)),
        500
    );
}

#[test]
fn unserved_outcomes_never_answer_success() {
    let unserved = [
        RequestOutcome::Rejected(PathRejection::Malformed),
        RequestOutcome::Rejected(PathRejection::Absolute),
        RequestOutcome::Rejected(PathRejection::Traversal),
        RequestOutcome::OpenFailed(OpenFailure::NotFound),
        RequestOutcome::OpenFailed(OpenFailure::OtherIo),
    ];
    for o in unserved.iter() {
        let s = response_status(o);
        assert!((400..600).contains(&s));
        assert_ne!(s, 200);
    }
}

#[test]
fn distinct_requests_resolve_independently() {
    let a = resolve_tail(b"one.ts");
    let b = resolve_tail(b"two.ts");
    assert_eq!(a, Ok(b"./hls/one.ts".to_vec()));
    assert_eq!(b, Ok(b"./hls/two.ts".to_vec()));
    assert_ne!(a, b);
}

#[test]
fn a_rejected_request_does_not_poison_later_ones() {
    assert_eq!(resolve_tail(b"../escape"), Err(PathRejection::Traversal));
    assert_eq!(resolve_tail(b"after.m3u8"), Ok(b"./hls/after.m3u8".to_vec()));
    assert_eq!(resolve_tail(b"\0"), Err(PathRejection::Malformed));
    assert_eq!(resolve_tail(b"after.m3u8"), Ok(b"./hls/after.m3u8".to_vec()));
}
