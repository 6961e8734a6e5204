use centraldogma::model::{
    Entry, EntryContent, EntryType, Query, QueryType, Revision, Watchable, WatchFileResult,
    WatchRepoResult,
};

#[test]
fn test_revision_values() {
    assert_eq!(Revision::from(42).as_i64(), 42);
    assert_eq!(Revision::head().as_i64(), -1);
    assert_eq!(Revision::init().as_i64(), 1);
    assert_eq!(Revision::default().as_i64(), 0);
    assert_eq!(Revision::from(3), Revision::from(3));
    assert_ne!(Revision::from(3), Revision::from(4));
}

#[test]
fn test_revision_display_string() {
    assert_eq!(Revision::from(3).display_string(), "3");
    assert_eq!(Revision::from(-12).display_string(), "-12");
    assert_eq!(Revision::head().display_string(), "-1");
    assert_eq!(Revision::default().display_string(), "");
    assert_eq!(Revision::from(1234567890).display_string(), "1234567890");
    assert_eq!(
        Revision::from(i64::MIN).display_string(),
        "-9223372036854775808"
    );
    assert_eq!(
        Revision::from(i64::MAX).display_string(),
        "9223372036854775807"
    );
}

#[test]
fn test_query_identity() {
    let q = Query::identity("/a.json").unwrap();
    assert_eq!(q.path, "/a.json");
    assert!(matches!(q.query_type, QueryType::Identity));

    let normalized = Query::identity("a.json").unwrap();
    assert_eq!(normalized.path, "/a.json");

    assert!(Query::identity("").is_none());
}

#[test]
fn test_query_of_text_and_of_json() {
    let t = Query::of_text("b.txt").unwrap();
    assert_eq!(t.path, "/b.txt");
    assert!(matches!(t.query_type, QueryType::IdentityText));
    assert!(Query::of_text("").is_none());

    let j = Query::of_json("/a.json").unwrap();
    assert_eq!(j.path, "/a.json");
    assert!(matches!(j.query_type, QueryType::IdentityJson));
    assert!(Query::of_json("").is_none());
}

#[test]
fn test_query_of_json_path() {
    let q = Query::of_json_path("/a.json", vec!["$.a".to_string()]).unwrap();
    assert_eq!(q.path, "/a.json");
    match &q.query_type {
        QueryType::JsonPath(exprs) => assert_eq!(exprs, &vec!["$.a".to_string()]),
        other => panic!("unexpected query type: {:?}", other),
    }

    // The suffix check ignores ASCII case and tolerates a missing dot-prefix.
    assert!(Query::of_json_path("/a.JSON", vec![]).is_some());
    // A non-json path is rejected.
    assert!(Query::of_json_path("/a.txt", vec![]).is_none());
    assert!(Query::of_json_path("", vec![]).is_none());
}

#[test]
fn test_entry_type() {
    let json_value: serde_json::Value = serde_json::from_str("{\"a\":1}").unwrap();
    let entry = Entry {
        path: "/a.json".to_string(),
        content: EntryContent::Json(json_value),
        revision: Revision::from(3),
        url: "/api/v1/projects/foo/repos/bar/contents/a.json".to_string(),
        modified_at: None,
    };
    assert_eq!(entry.entry_type(), EntryType::Json);

    let text_entry = Entry {
        path: "/b.txt".to_string(),
        content: EntryContent::Text("hello".to_string()),
        revision: Revision::from(1),
        url: "/api/v1/projects/foo/repos/bar/contents/b.txt".to_string(),
        modified_at: None,
    };
    assert_eq!(text_entry.entry_type(), EntryType::Text);

    let dir_entry = Entry {
        path: "/d".to_string(),
        content: EntryContent::Directory,
        revision: Revision::from(1),
        url: "/api/v1/projects/foo/repos/bar/contents/d".to_string(),
        modified_at: None,
    };
    assert_eq!(dir_entry.entry_type(), EntryType::Directory);
}

#[test]
fn test_watchable_revisions() {
    let json_value: serde_json::Value = serde_json::from_str("[1,2]").unwrap();
    let file_result = WatchFileResult {
        revision: Revision::from(7),
        entry: Entry {
            path: "/a.json".to_string(),
            content: EntryContent::Json(json_value),
            revision: Revision::from(7),
            url: "/x".to_string(),
            modified_at: None,
        },
    };
    assert_eq!(file_result.revision().as_i64(), 7);

    let repo_result = WatchRepoResult { revision: Revision::from(9) };
    assert_eq!(repo_result.revision().as_i64(), 9);
}
