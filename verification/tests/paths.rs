use centraldogma::model::{Query, Revision};
use centraldogma::path::{
    content_commits_path, content_compare_path, content_path, content_watch_path, contents_compare_path,
    contents_path, contents_push_path, list_contents_path, normalize_path_pattern, project_path,
    projects_path, removed_project_path, removed_projects_path, removed_repo_path, removed_repos_path,
    repo_path, repo_watch_path, repos_path,
};

#[test]
fn test_content_commits_path() {
    let full_arg_path = content_commits_path(
        "foo",
        "bar",
        Revision::from(1),
        Revision::from(2),
        "/a.json",
        Some(5),
    );
    assert_eq!(
        full_arg_path,
        "/api/v1/projects/foo/repos/bar/commits/1?path=%2Fa.json&to=2&maxCommits=5"
    );

    let omitted_max_commmit_path = content_commits_path(
        "foo",
        "bar",
        Revision::from(1),
        Revision::from(2),
        "/a.json",
        None,
    );
    assert_eq!(
        omitted_max_commmit_path,
        "/api/v1/projects/foo/repos/bar/commits/1?path=%2Fa.json&to=2"
    );

    let omitted_from_to_path = content_commits_path(
        "foo",
        "bar",
        Revision::default(),
        Revision::default(),
        "/a.json",
        Some(5),
    );
    assert_eq!(
        omitted_from_to_path,
        "/api/v1/projects/foo/repos/bar/commits/?path=%2Fa.json&maxCommits=5"
    );

    let omitted_all_path = content_commits_path(
        "foo",
        "bar",
        Revision::default(),
        Revision::default(),
        "/a.json",
        None,
    );
    assert_eq!(
        omitted_all_path,
        "/api/v1/projects/foo/repos/bar/commits/?path=%2Fa.json"
    );
}

#[test]
fn test_content_compare_path() {
    let full_arg_path = content_compare_path(
        "foo",
        "bar",
        Revision::from(1),
        Revision::from(2),
        &Query::identity("/a.json").unwrap(),
    );
    assert_eq!(
        full_arg_path,
        "/api/v1/projects/foo/repos/bar/compare?path=%2Fa.json&from=1&to=2"
    );

    let omitted_from_path = content_compare_path(
        "foo",
        "bar",
        Revision::default(),
        Revision::from(2),
        &Query::identity("/a.json").unwrap(),
    );
    assert_eq!(
        omitted_from_path,
        "/api/v1/projects/foo/repos/bar/compare?path=%2Fa.json&to=2"
    );

    let omitted_to_path = content_compare_path(
        "foo",
        "bar",
        Revision::from(1),
        Revision::default(),
        &Query::identity("/a.json").unwrap(),
    );
    assert_eq!(
        omitted_to_path,
        "/api/v1/projects/foo/repos/bar/compare?path=%2Fa.json&from=1"
    );

    let omitted_all_path = content_compare_path(
        "foo",
        "bar",
        Revision::default(),
        Revision::default(),
        &Query::identity("/a.json").unwrap(),
    );
    assert_eq!(
        omitted_all_path,
        "/api/v1/projects/foo/repos/bar/compare?path=%2Fa.json"
    );

    let with_json_query = content_compare_path(
        "foo",
        "bar",
        Revision::default(),
        Revision::default(),
        &Query::of_json_path("/a.json", vec!["a".to_string()]).unwrap(),
    );
    assert_eq!(
        with_json_query,
        "/api/v1/projects/foo/repos/bar/compare?path=%2Fa.json&jsonpath=a"
    );
}

#[test]
fn test_project_and_repo_paths() {
    assert_eq!(projects_path(), "/api/v1/projects");
    assert_eq!(removed_projects_path(), "/api/v1/projects?status=removed");
    assert_eq!(project_path("foo"), "/api/v1/projects/foo");
    assert_eq!(removed_project_path("foo"), "/api/v1/projects/foo/removed");
    assert_eq!(repos_path("foo"), "/api/v1/projects/foo/repos");
    assert_eq!(
        removed_repos_path("foo"),
        "/api/v1/projects/foo/repos?status=removed"
    );
    assert_eq!(repo_path("foo", "bar"), "/api/v1/projects/foo/repos/bar");
    assert_eq!(
        removed_repo_path("foo", "bar"),
        "/api/v1/projects/foo/repos/bar/removed"
    );
}

#[test]
fn test_normalize_path_pattern_forms() {
    assert_eq!(normalize_path_pattern(""), "/**");
    assert_eq!(normalize_path_pattern("**/a.json"), "/**/a.json");
    assert_eq!(normalize_path_pattern("a.json"), "/**/a.json");
    assert_eq!(normalize_path_pattern("/a/b.txt"), "/a/b.txt");
}

#[test]
fn test_list_and_contents_paths() {
    assert_eq!(
        list_contents_path("foo", "bar", Revision::from(2), "/**"),
        "/api/v1/projects/foo/repos/bar/list/**?revision=2"
    );
    assert_eq!(
        list_contents_path("foo", "bar", Revision::default(), ""),
        "/api/v1/projects/foo/repos/bar/list/**?"
    );
    assert_eq!(
        contents_path("foo", "bar", Revision::from(-1), "*.json"),
        "/api/v1/projects/foo/repos/bar/contents/**/*.json?revision=-1"
    );
}

#[test]
fn test_content_path_with_query() {
    let q = Query::identity("/b.txt").unwrap();
    assert_eq!(
        content_path("foo", "bar", Revision::from(3), &q),
        "/api/v1/projects/foo/repos/bar/contents/b.txt?revision=3"
    );

    let jq = Query::of_json_path("/a.json", vec!["$.a".to_string()]).unwrap();
    assert_eq!(
        content_path("foo", "bar", Revision::default(), &jq),
        "/api/v1/projects/foo/repos/bar/contents/a.json?jsonpath=%24.a"
    );
    assert_eq!(
        content_path("foo", "bar", Revision::from(1), &jq),
        "/api/v1/projects/foo/repos/bar/contents/a.json?revision=1&jsonpath=%24.a"
    );
}

#[test]
fn test_contents_compare_and_push_paths() {
    assert_eq!(
        contents_compare_path("foo", "bar", Revision::from(1), Revision::from(2), "/**"),
        "/api/v1/projects/foo/repos/bar/compare?pathPattern=%2F**&from=1&to=2"
    );
    assert_eq!(
        contents_push_path("foo", "bar", Revision::from(4)),
        "/api/v1/projects/foo/repos/bar/contents?revision=4"
    );
    assert_eq!(
        contents_push_path("foo", "bar", Revision::default()),
        "/api/v1/projects/foo/repos/bar/contents?"
    );
}

#[test]
fn test_watch_paths() {
    let q = Query::identity("/a.json").unwrap();
    assert_eq!(
        content_watch_path("foo", "bar", &q),
        "/api/v1/projects/foo/repos/bar/contents/a.json?"
    );
    let jq = Query::of_json_path("/a.json", vec!["a".to_string(), "b c".to_string()]).unwrap();
    assert_eq!(
        content_watch_path("foo", "bar", &jq),
        "/api/v1/projects/foo/repos/bar/contents/a.json?jsonpath=a&jsonpath=b+c"
    );
    assert_eq!(
        repo_watch_path("foo", "bar", "/**"),
        "/api/v1/projects/foo/repos/bar/contents/**"
    );
    assert_eq!(
        repo_watch_path("foo", "bar", "a.json"),
        "/api/v1/projects/foo/repos/bar/contents/**/a.json"
    );
}
