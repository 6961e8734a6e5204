use centraldogma::model::{Change, ChangeContent, CommitMessage, Revision};
use centraldogma::request::{
    auth_header_value, classify_status, content_type_value, is_success_status, validate_push,
    watch_request_meta, PushError, StatusCategory,
};

#[test]
fn test_auth_header_value() {
    assert_eq!(auth_header_value(None).unwrap(), "Bearer anonymous");
    assert_eq!(auth_header_value(Some("s3cr3t")).unwrap(), "Bearer s3cr3t");
    // A control character cannot stand in a header value.
    assert!(auth_header_value(Some("bad\ntoken")).is_none());
    assert!(auth_header_value(Some("bad\u{7f}")).is_none());
    // A tab may.
    assert_eq!(auth_header_value(Some("a\tb")).unwrap(), "Bearer a\tb");
}

#[test]
fn test_content_type_value() {
    assert_eq!(content_type_value(true), "application/json-patch+json");
    assert_eq!(content_type_value(false), "application/json");
}

#[test]
fn test_classify_status() {
    assert_eq!(classify_status(200), StatusCategory::Success);
    assert_eq!(classify_status(204), StatusCategory::Success);
    assert_eq!(classify_status(299), StatusCategory::Success);
    assert_eq!(classify_status(304), StatusCategory::NotModified);
    assert_eq!(classify_status(300), StatusCategory::Failure);
    assert_eq!(classify_status(404), StatusCategory::Failure);
    assert_eq!(classify_status(500), StatusCategory::Failure);
    assert_eq!(classify_status(199), StatusCategory::Failure);

    assert!(is_success_status(200));
    assert!(is_success_status(201));
    assert!(!is_success_status(304));
    assert!(!is_success_status(404));
}

#[test]
fn test_watch_request_meta_known_revision() {
    let m = watch_request_meta(Some(Revision::from(5)), 60);
    assert_eq!(m.if_none_match, "5");
    assert_eq!(m.prefer.as_deref(), Some("wait=60"));
    assert_eq!(m.timeout_secs, 65);
}

#[test]
fn test_watch_request_meta_no_revision() {
    let m = watch_request_meta(None, 60);
    assert_eq!(m.if_none_match, "-1");
    assert_eq!(m.prefer.as_deref(), Some("wait=60"));
    assert_eq!(m.timeout_secs, 65);
}

#[test]
fn test_watch_request_meta_zero_timeout() {
    let m = watch_request_meta(Some(Revision::from(-1)), 0);
    assert_eq!(m.if_none_match, "-1");
    assert!(m.prefer.is_none());
    assert_eq!(m.timeout_secs, 5);
}

#[test]
fn test_validate_push() {
    let cm = CommitMessage { summary: "Add a.json".to_string(), detail: None };
    let changes = vec![Change {
        path: "/a.json".to_string(),
        content: ChangeContent::UpsertText("hello".to_string()),
    }];
    assert!(validate_push(&cm, &changes).is_ok());

    let empty_summary = CommitMessage { summary: String::new(), detail: None };
    assert_eq!(
        validate_push(&empty_summary, &changes),
        Err(PushError::EmptySummary)
    );

    let no_changes: Vec<Change> = Vec::new();
    assert_eq!(validate_push(&cm, &no_changes), Err(PushError::NoChanges));
}
