use buzz_policy::linux_media::{
    answer_permission_request, is_trusted_media_origin, PermissionAnswer, PermissionRequest,
};

#[test]
fn allows_production_app_origin() {
    for debug_build in [false, true] {
        assert!(is_trusted_media_origin("tauri://localhost", debug_build));
        assert!(is_trusted_media_origin(
            "tauri://localhost/channels/general",
            debug_build
        ));
    }
}

#[test]
fn denies_untrusted_origins() {
    for debug_build in [false, true] {
        assert!(!is_trusted_media_origin("", debug_build));
        assert!(!is_trusted_media_origin("https://evil.example.com", debug_build));
        assert!(!is_trusted_media_origin("tauri://localhost.evil.com", debug_build));
        assert!(!is_trusted_media_origin("tauri://localhostfoo", debug_build));
    }
}

#[test]
fn allows_dev_origin_in_debug_only() {
    assert!(is_trusted_media_origin("http://localhost:1420", true));
    assert!(is_trusted_media_origin("http://localhost:1420/", true));
    assert!(!is_trusted_media_origin("http://localhost:14200", true));
    assert!(!is_trusted_media_origin("http://localhost:3000", true));
}

#[test]
fn denies_dev_origin_in_release() {
    assert!(!is_trusted_media_origin("http://localhost:1420", false));
}

#[test]
fn denies_dev_pages_in_release() {
    assert!(!is_trusted_media_origin("http://localhost:1420/index.html", false));
}

#[test]
fn origin_matches_as_a_whole() {
    assert!(!is_trusted_media_origin("tauri://localhos", true));
    assert!(!is_trusted_media_origin("TAURI://localhost", true));
    assert!(!is_trusted_media_origin("tauri://localhost\u{2215}page", true));
    assert!(is_trusted_media_origin("tauri://localhost/\u{e9}", false));
    assert!(!is_trusted_media_origin("https://example.com/tauri://localhost/", true));
}

#[test]
fn media_request_needs_a_device_and_a_trusted_origin() {
    let uri = Some("tauri://localhost/call");
    let ask = |audio: bool, video: bool| PermissionRequest::UserMedia { audio, video };
    assert_eq!(
        answer_permission_request(ask(true, false), uri, false),
        PermissionAnswer::Allow
    );
    assert_eq!(
        answer_permission_request(ask(false, true), uri, false),
        PermissionAnswer::Allow
    );
    assert_eq!(
        answer_permission_request(ask(false, false), uri, false),
        PermissionAnswer::Deny
    );
    assert_eq!(
        answer_permission_request(ask(true, true), Some("https://evil.example.com"), true),
        PermissionAnswer::Deny
    );
    assert_eq!(
        answer_permission_request(ask(true, true), None, true),
        PermissionAnswer::Deny
    );
}

#[test]
fn other_requests_keep_their_default_handling() {
    assert_eq!(
        answer_permission_request(PermissionRequest::Other, Some("tauri://localhost"), false),
        PermissionAnswer::Default
    );
    assert_eq!(
        answer_permission_request(PermissionRequest::Other, None, false),
        PermissionAnswer::Default
    );
}
