//! Request path construction.
//!
//! Every path builder states the exact text it produces. Query parameters are
//! rendered in `application/x-www-form-urlencoded` form; the encoding of one
//! string is delegated to the `form_urlencoded` crate and described by
//! [`form_urlencoded_of`] together with [`form_encode`] on ASCII input.

use vstd::prelude::*;

use crate::model::{Query, QueryType, Revision};
use crate::strfmt::{dec_digits, dec_int};

verus! {

/// The uppercase hexadecimal character for `d`.
pub open spec fn hex_char(d: nat) -> char {
    if d == 10 {
        'A'
    } else if d == 11 {
        'B'
    } else if d == 12 {
        'C'
    } else if d == 13 {
        'D'
    } else if d == 14 {
        'E'
    } else if d == 15 {
        'F'
    } else {
        crate::strfmt::digit_char(d)
    }
}

/// True of the characters that `application/x-www-form-urlencoded` leaves
/// unchanged: ASCII alphanumerics and `*`, `-`, `.`, `_`.
pub open spec fn form_unchanged(c: char) -> bool {
    ||| c == '*'
    ||| c == '-'
    ||| c == '.'
    ||| c == '_'
    ||| '0' as int <= c as int <= '9' as int
    ||| 'A' as int <= c as int <= 'Z' as int
    ||| 'a' as int <= c as int <= 'z' as int
}

/// The form-urlencoding of one ASCII character: unchanged characters stand as
/// themselves, a space becomes `+`, anything else becomes `%` followed by two
/// uppercase hexadecimal digits.
pub open spec fn form_encode_char(c: char) -> Seq<char> {
    if form_unchanged(c) {
        seq![c]
    } else if c == ' ' {
        seq!['+']
    } else {
        seq!['%', hex_char((c as int / 16) as nat), hex_char((c as int % 16) as nat)]
    }
}

/// The form-urlencoding of an ASCII string, character by character.
pub open spec fn form_encode(s: Seq<char>) -> Seq<char>
    decreases s.len(),
{
    if s.len() == 0 {
        Seq::empty()
    } else {
        form_encode_char(s[0]) + form_encode(s.drop_first())
    }
}

/// True when every character of `s` is ASCII.
pub open spec fn is_ascii_seq(s: Seq<char>) -> bool {
    forall|i: int| #![auto] 0 <= i < s.len() ==> (s[i] as int) < 128
}

/// The form-urlencoding of an arbitrary string. On non-ASCII input the
/// encoding runs over the UTF-8 bytes of the character, which this library
/// does not spell out; on ASCII input it coincides with [`form_encode`].
pub uninterp spec fn form_urlencoded_of(s: Seq<char>) -> Seq<char>;

/// Relies on form_urlencoded::byte_serialize: it percent-encodes every byte
/// except ASCII alphanumerics and `*-._`, writes a space as `+`, and its
/// output depends on the input characters alone.
#[verifier::external_body]
fn urlencode(s: &str) -> (r: String)
    ensures
        r@ == form_urlencoded_of(s@),
        is_ascii_seq(s@) ==> r@ == form_encode(s@),
{
    form_urlencoded::byte_serialize(s.as_bytes()).collect()
}

/// The text a query pair contributes: nothing when the value is empty,
/// otherwise `key=value` in encoded form, preceded by `&` when an earlier
/// pair has already been written.
pub open spec fn pair_fragment(started: bool, key: Seq<char>, value: Seq<char>) -> Seq<char> {
    if value.len() == 0 {
        Seq::empty()
    } else {
        let sep: Seq<char> = if started {
            seq!['&']
        } else {
            Seq::empty()
        };
        sep + form_urlencoded_of(key) + seq!['='] + form_urlencoded_of(value)
    }
}

/// Whether a pair has been written once this one is handled.
pub open spec fn pair_started(started: bool, value: Seq<char>) -> bool {
    started || value.len() > 0
}

/// Appends one query pair, skipping it when the value is empty.
fn append_pair(s: &mut String, started: bool, key: &str, value: &str) -> (now_started: bool)
    ensures
        final(s)@ == old(s)@ + pair_fragment(started, key@, value@),
        now_started == pair_started(started, value@),
{
    if value.is_empty() {
        proof {
            assert(final(s)@ =~= old(s)@ + pair_fragment(started, key@, value@));
        }
        return started;
    }
    if started {
        s.append("&");
    }
    let encoded_key = urlencode(key);
    s.append(encoded_key.as_str());
    s.append("=");
    let encoded_value = urlencode(value);
    s.append(encoded_value.as_str());
    proof {
        reveal_strlit("&");
        reveal_strlit("=");
        assert(final(s)@ =~= old(s)@ + pair_fragment(started, key@, value@));
    }
    true
}

/// The query-parameter rendering of a revision: empty (omitted) for the
/// unspecified revision, decimal otherwise.
pub open spec fn revision_param(rev: int) -> Seq<char> {
    if rev == 0 {
        Seq::empty()
    } else {
        dec_int(rev)
    }
}

/// Renders a revision for use as a query-parameter value.
fn revision_value(rev: Revision) -> (r: String)
    ensures
        r@ == revision_param(rev@),
{
    let n: i64 = rev.as_i64();
    if n == 0 {
        let s = String::new();
        proof {
            assert(s@ =~= revision_param(rev@));
        }
        s
    } else {
        crate::strfmt::i64_dec_string(n)
    }
}

/// The glob pattern with a guaranteed absolute form: `/**` when empty, `/`
/// prepended when the pattern starts with `**`, `/**/` prepended when it is
/// relative, and the pattern itself otherwise.
pub open spec fn normalized_pattern(p: Seq<char>) -> Seq<char> {
    if p.len() == 0 {
        "/**"@
    } else if p.len() >= 2 && p[0] == '*' && p[1] == '*' {
        seq!['/'] + p
    } else if p[0] != '/' {
        "/**/"@ + p
    } else {
        p
    }
}

/// Normalizes a glob-style path pattern to its absolute form.
pub fn normalize_path_pattern(path_pattern: &str) -> (r: String)
    ensures
        r@ == normalized_pattern(path_pattern@),
{
    let len: usize = path_pattern.unicode_len();
    if len == 0 {
        return String::from_str("/**");
    }
    if len >= 2 && path_pattern.get_char(0) == '*' && path_pattern.get_char(1) == '*' {
        let mut s = String::new();
        s.append("/");
        s.append(path_pattern);
        proof {
            reveal_strlit("/");
            assert(s@ =~= normalized_pattern(path_pattern@));
        }
        return s;
    }
    if path_pattern.get_char(0) != '/' {
        let mut s = String::new();
        s.append("/**/");
        s.append(path_pattern);
        proof {
            assert(s@ =~= normalized_pattern(path_pattern@));
        }
        return s;
    }
    path_pattern.to_owned()
}

/// The JSON path expressions a query carries; empty for the other query
/// kinds.
pub open spec fn query_expressions(q: Query) -> Seq<Seq<char>> {
    match q.query_type {
        QueryType::JsonPath(es) => es.deep_view(),
        _ => Seq::empty(),
    }
}

/// The text the `jsonpath` parameters contribute, one pair per expression.
pub open spec fn jsonpath_fragments(started: bool, exprs: Seq<Seq<char>>) -> Seq<char>
    decreases exprs.len(),
{
    if exprs.len() == 0 {
        Seq::empty()
    } else {
        pair_fragment(started, "jsonpath"@, exprs[0]) + jsonpath_fragments(
            pair_started(started, exprs[0]),
            exprs.drop_first(),
        )
    }
}

/// Appends one `jsonpath` pair for each expression from `i` on.
fn append_jsonpath_pairs(s: &mut String, started: bool, exprs: &Vec<String>, i: usize)
    requires
        i <= exprs.len(),
    ensures
        final(s)@ == old(s)@ + jsonpath_fragments(started, exprs.deep_view().skip(i as int)),
    decreases exprs.len() - i,
{
    if i < exprs.len() {
        let now_started = append_pair(s, started, "jsonpath", exprs[i].as_str());
        append_jsonpath_pairs(s, now_started, exprs, i + 1);
        proof {
            let tail = exprs.deep_view().skip(i as int);
            assert(tail[0] == exprs.deep_view()[i as int]);
            assert(tail.drop_first() =~= exprs.deep_view().skip(i as int + 1));
            assert(final(s)@ =~= old(s)@ + jsonpath_fragments(started, tail));
        }
    } else {
        proof {
            assert(exprs.deep_view().skip(i as int) =~= Seq::<Seq<char>>::empty());
            assert(final(s)@ =~= old(s)@ + jsonpath_fragments(
                started,
                exprs.deep_view().skip(i as int),
            ));
        }
    }
}

/// Appends the `jsonpath` pairs of a query; queries of other kinds add
/// nothing.
fn append_query_jsonpath(s: &mut String, started: bool, query: &Query)
    ensures
        final(s)@ == old(s)@ + jsonpath_fragments(started, query_expressions(*query)),
{
    match &query.query_type {
        QueryType::JsonPath(exprs) => {
            append_jsonpath_pairs(s, started, exprs, 0);
            proof {
                assert(exprs.deep_view().skip(0) =~= exprs.deep_view());
            }
        },
        _ => {
            proof {
                assert(final(s)@ =~= old(s)@ + jsonpath_fragments(
                    started,
                    query_expressions(*query),
                ));
            }
        },
    }
}

/// The path prefix addressing one repository.
pub open spec fn repo_prefix(project: Seq<char>, repo: Seq<char>) -> Seq<char> {
    "/api/v1/projects/"@ + project + "/repos/"@ + repo
}

/// Builds the path prefix addressing one repository.
fn repo_prefix_string(project_name: &str, repo_name: &str) -> (r: String)
    ensures
        r@ == repo_prefix(project_name@, repo_name@),
{
    let mut s = String::new();
    s.append("/api/v1/projects/");
    s.append(project_name);
    s.append("/repos/");
    s.append(repo_name);
    proof {
        assert(s@ =~= repo_prefix(project_name@, repo_name@));
    }
    s
}

/// The path listing all projects.
pub fn projects_path() -> (r: String)
    ensures
        r@ == "/api/v1/projects"@,
{
    String::from_str("/api/v1/projects")
}

/// The path listing removed projects.
pub fn removed_projects_path() -> (r: String)
    ensures
        r@ == "/api/v1/projects?status=removed"@,
{
    String::from_str("/api/v1/projects?status=removed")
}

/// The path addressing one project.
pub fn project_path(project_name: &str) -> (r: String)
    ensures
        r@ == "/api/v1/projects/"@ + project_name@,
{
    let mut s = String::new();
    s.append("/api/v1/projects/");
    s.append(project_name);
    proof {
        assert(s@ =~= "/api/v1/projects/"@ + project_name@);
    }
    s
}

/// The path addressing one removed project.
pub fn removed_project_path(project_name: &str) -> (r: String)
    ensures
        r@ == "/api/v1/projects/"@ + project_name@ + "/removed"@,
{
    let mut s = String::new();
    s.append("/api/v1/projects/");
    s.append(project_name);
    s.append("/removed");
    proof {
        assert(s@ =~= "/api/v1/projects/"@ + project_name@ + "/removed"@);
    }
    s
}

/// The path listing the repositories of a project.
pub fn repos_path(project_name: &str) -> (r: String)
    ensures
        r@ == "/api/v1/projects/"@ + project_name@ + "/repos"@,
{
    let mut s = String::new();
    s.append("/api/v1/projects/");
    s.append(project_name);
    s.append("/repos");
    proof {
        assert(s@ =~= "/api/v1/projects/"@ + project_name@ + "/repos"@);
    }
    s
}

/// The path listing the removed repositories of a project.
pub fn removed_repos_path(project_name: &str) -> (r: String)
    ensures
        r@ == "/api/v1/projects/"@ + project_name@ + "/repos?status=removed"@,
{
    let mut s = String::new();
    s.append("/api/v1/projects/");
    s.append(project_name);
    s.append("/repos?status=removed");
    proof {
        assert(s@ =~= "/api/v1/projects/"@ + project_name@ + "/repos?status=removed"@);
    }
    s
}

/// The path addressing one repository.
pub fn repo_path(project_name: &str, repo_name: &str) -> (r: String)
    ensures
        r@ == repo_prefix(project_name@, repo_name@),
{
    repo_prefix_string(project_name, repo_name)
}

/// The path addressing one removed repository.
pub fn removed_repo_path(project_name: &str, repo_name: &str) -> (r: String)
    ensures
        r@ == repo_prefix(project_name@, repo_name@) + "/removed"@,
{
    let mut s = repo_prefix_string(project_name, repo_name);
    s.append("/removed");
    proof {
        assert(s@ =~= repo_prefix(project_name@, repo_name@) + "/removed"@);
    }
    s
}

/// The text of the `list` path: the repository prefix, the normalized
/// pattern, and the optional `revision` parameter.
pub open spec fn list_contents_path_spec(
    project: Seq<char>,
    repo: Seq<char>,
    revision: int,
    pattern: Seq<char>,
) -> Seq<char> {
    repo_prefix(project, repo) + "/list"@ + normalized_pattern(pattern) + "?"@ + pair_fragment(
        false,
        "revision"@,
        revision_param(revision),
    )
}

/// The path listing the files matched by a pattern at a revision.
pub fn list_contents_path(
    project_name: &str,
    repo_name: &str,
    revision: Revision,
    path_pattern: &str,
) -> (r: String)
    ensures
        r@ == list_contents_path_spec(project_name@, repo_name@, revision@, path_pattern@),
{
    let mut s = repo_prefix_string(project_name, repo_name);
    s.append("/list");
    let pattern = normalize_path_pattern(path_pattern);
    s.append(pattern.as_str());
    s.append("?");
    let rev = revision_value(revision);
    append_pair(&mut s, false, "revision", rev.as_str());
    proof {
        assert(s@ =~= list_contents_path_spec(
            project_name@,
            repo_name@,
            revision@,
            path_pattern@,
        ));
    }
    s
}

/// The text of the `contents` path for a pattern: the repository prefix, the
/// normalized pattern, and the optional `revision` parameter.
pub open spec fn contents_path_spec(
    project: Seq<char>,
    repo: Seq<char>,
    revision: int,
    pattern: Seq<char>,
) -> Seq<char> {
    repo_prefix(project, repo) + "/contents"@ + normalized_pattern(pattern) + "?"@ + pair_fragment(
        false,
        "revision"@,
        revision_param(revision),
    )
}

/// The path fetching the files matched by a pattern at a revision.
pub fn contents_path(
    project_name: &str,
    repo_name: &str,
    revision: Revision,
    path_pattern: &str,
) -> (r: String)
    ensures
        r@ == contents_path_spec(project_name@, repo_name@, revision@, path_pattern@),
{
    let mut s = repo_prefix_string(project_name, repo_name);
    s.append("/contents");
    let pattern = normalize_path_pattern(path_pattern);
    s.append(pattern.as_str());
    s.append("?");
    let rev = revision_value(revision);
    append_pair(&mut s, false, "revision", rev.as_str());
    proof {
        assert(s@ =~= contents_path_spec(project_name@, repo_name@, revision@, path_pattern@));
    }
    s
}

/// The text of the `contents` path for a query: the repository prefix, the
/// query's file path, the optional `revision` parameter, and one `jsonpath`
/// parameter per expression.
pub open spec fn content_path_spec(
    project: Seq<char>,
    repo: Seq<char>,
    revision: int,
    query: Query,
) -> Seq<char> {
    repo_prefix(project, repo) + "/contents"@ + query.path@ + "?"@ + pair_fragment(
        false,
        "revision"@,
        revision_param(revision),
    ) + jsonpath_fragments(
        pair_started(false, revision_param(revision)),
        query_expressions(query),
    )
}

/// The path fetching one file at a revision under a query.
pub fn content_path(project_name: &str, repo_name: &str, revision: Revision, query: &Query) -> (r:
    String)
    ensures
        r@ == content_path_spec(project_name@, repo_name@, revision@, *query),
{
    let mut s = repo_prefix_string(project_name, repo_name);
    s.append("/contents");
    s.append(query.path.as_str());
    s.append("?");
    let rev = revision_value(revision);
    let started = append_pair(&mut s, false, "revision", rev.as_str());
    append_query_jsonpath(&mut s, started, query);
    proof {
        assert(s@ =~= content_path_spec(project_name@, repo_name@, revision@, *query));
    }
    s
}

/// The query-parameter rendering of an optional commit count.
pub open spec fn max_commits_param(max_commits: Option<u32>) -> Seq<char> {
    match max_commits {
        Option::None => Seq::empty(),
        Option::Some(c) => dec_digits(c as nat),
    }
}

/// The text of the `commits` path: the repository prefix, the starting
/// revision in the path itself, and the `path`, `to` and `maxCommits`
/// parameters, each omitted when absent.
pub open spec fn content_commits_path_spec(
    project: Seq<char>,
    repo: Seq<char>,
    from_rev: int,
    to_rev: int,
    path: Seq<char>,
    max_commits: Option<u32>,
) -> Seq<char> {
    let started_path = pair_started(false, path);
    let started_to = pair_started(started_path, revision_param(to_rev));
    repo_prefix(project, repo) + "/commits/"@ + revision_param(from_rev) + "?"@ + pair_fragment(
        false,
        "path"@,
        path,
    ) + pair_fragment(started_path, "to"@, revision_param(to_rev)) + pair_fragment(
        started_to,
        "maxCommits"@,
        max_commits_param(max_commits),
    )
}

/// The path listing the commits that touched `path` between two revisions.
pub fn content_commits_path(
    project_name: &str,
    repo_name: &str,
    from_rev: Revision,
    to_rev: Revision,
    path: &str,
    max_commits: Option<u32>,
) -> (r: String)
    ensures
        r@ == content_commits_path_spec(
            project_name@,
            repo_name@,
            from_rev@,
            to_rev@,
            path@,
            max_commits,
        ),
{
    let mut s = repo_prefix_string(project_name, repo_name);
    s.append("/commits/");
    let from_value = revision_value(from_rev);
    s.append(from_value.as_str());
    s.append("?");
    let started = append_pair(&mut s, false, "path", path);
    let to_value = revision_value(to_rev);
    let started2 = append_pair(&mut s, started, "to", to_value.as_str());
    let mc_value: String = match max_commits {
        Option::None => String::new(),
        Option::Some(c) => crate::strfmt::u64_dec_string(c as u64),
    };
    append_pair(&mut s, started2, "maxCommits", mc_value.as_str());
    proof {
        assert(s@ =~= content_commits_path_spec(
            project_name@,
            repo_name@,
            from_rev@,
            to_rev@,
            path@,
            max_commits,
        ));
    }
    s
}

/// The text of the `compare` path for a query: the `path`, `from` and `to`
/// parameters followed by one `jsonpath` parameter per expression.
pub open spec fn content_compare_path_spec(
    project: Seq<char>,
    repo: Seq<char>,
    from_rev: int,
    to_rev: int,
    query: Query,
) -> Seq<char> {
    let started_path = pair_started(false, query.path@);
    let started_from = pair_started(started_path, revision_param(from_rev));
    let started_to = pair_started(started_from, revision_param(to_rev));
    repo_prefix(project, repo) + "/compare?"@ + pair_fragment(false, "path"@, query.path@)
        + pair_fragment(started_path, "from"@, revision_param(from_rev)) + pair_fragment(
        started_from,
        "to"@,
        revision_param(to_rev),
    ) + jsonpath_fragments(started_to, query_expressions(query))
}

/// The path comparing one file between two revisions under a query.
pub fn content_compare_path(
    project_name: &str,
    repo_name: &str,
    from_rev: Revision,
    to_rev: Revision,
    query: &Query,
) -> (r: String)
    ensures
        r@ == content_compare_path_spec(project_name@, repo_name@, from_rev@, to_rev@, *query),
{
    let mut s = repo_prefix_string(project_name, repo_name);
    s.append("/compare?");
    let started = append_pair(&mut s, false, "path", query.path.as_str());
    let from_value = revision_value(from_rev);
    let started2 = append_pair(&mut s, started, "from", from_value.as_str());
    let to_value = revision_value(to_rev);
    let started3 = append_pair(&mut s, started2, "to", to_value.as_str());
    append_query_jsonpath(&mut s, started3, query);
    proof {
        assert(s@ =~= content_compare_path_spec(
            project_name@,
            repo_name@,
            from_rev@,
            to_rev@,
            *query,
        ));
    }
    s
}

/// The text of the `compare` path for a pattern: the `pathPattern`, `from`
/// and `to` parameters.
pub open spec fn contents_compare_path_spec(
    project: Seq<char>,
    repo: Seq<char>,
    from_rev: int,
    to_rev: int,
    pattern: Seq<char>,
) -> Seq<char> {
    let started_pattern = pair_started(false, normalized_pattern(pattern));
    let started_from = pair_started(started_pattern, revision_param(from_rev));
    repo_prefix(project, repo) + "/compare?"@ + pair_fragment(
        false,
        "pathPattern"@,
        normalized_pattern(pattern),
    ) + pair_fragment(started_pattern, "from"@, revision_param(from_rev)) + pair_fragment(
        started_from,
        "to"@,
        revision_param(to_rev),
    )
}

/// The path comparing the files matched by a pattern between two revisions.
pub fn contents_compare_path(
    project_name: &str,
    repo_name: &str,
    from_rev: Revision,
    to_rev: Revision,
    path_pattern: &str,
) -> (r: String)
    ensures
        r@ == contents_compare_path_spec(
            project_name@,
            repo_name@,
            from_rev@,
            to_rev@,
            path_pattern@,
        ),
{
    let mut s = repo_prefix_string(project_name, repo_name);
    s.append("/compare?");
    let pattern = normalize_path_pattern(path_pattern);
    let started = append_pair(&mut s, false, "pathPattern", pattern.as_str());
    let from_value = revision_value(from_rev);
    let started2 = append_pair(&mut s, started, "from", from_value.as_str());
    let to_value = revision_value(to_rev);
    append_pair(&mut s, started2, "to", to_value.as_str());
    proof {
        assert(s@ =~= contents_compare_path_spec(
            project_name@,
            repo_name@,
            from_rev@,
            to_rev@,
            path_pattern@,
        ));
    }
    s
}

/// The text of the push path: the repository prefix and the optional base
/// `revision` parameter.
pub open spec fn contents_push_path_spec(
    project: Seq<char>,
    repo: Seq<char>,
    base_revision: int,
) -> Seq<char> {
    repo_prefix(project, repo) + "/contents?"@ + pair_fragment(
        false,
        "revision"@,
        revision_param(base_revision),
    )
}

/// The path pushing changes on top of a base revision.
pub fn contents_push_path(project_name: &str, repo_name: &str, base_revision: Revision) -> (r:
    String)
    ensures
        r@ == contents_push_path_spec(project_name@, repo_name@, base_revision@),
{
    let mut s = repo_prefix_string(project_name, repo_name);
    s.append("/contents?");
    let rev = revision_value(base_revision);
    append_pair(&mut s, false, "revision", rev.as_str());
    proof {
        assert(s@ =~= contents_push_path_spec(project_name@, repo_name@, base_revision@));
    }
    s
}

/// The text of the watch path for a query: the query's file path followed by
/// one `jsonpath` parameter per expression.
pub open spec fn content_watch_path_spec(
    project: Seq<char>,
    repo: Seq<char>,
    query: Query,
) -> Seq<char> {
    repo_prefix(project, repo) + "/contents"@ + query.path@ + "?"@ + jsonpath_fragments(
        false,
        query_expressions(query),
    )
}

/// The path watching one file under a query.
pub fn content_watch_path(project_name: &str, repo_name: &str, query: &Query) -> (r: String)
    ensures
        r@ == content_watch_path_spec(project_name@, repo_name@, *query),
{
    let mut s = repo_prefix_string(project_name, repo_name);
    s.append("/contents");
    s.append(query.path.as_str());
    s.append("?");
    append_query_jsonpath(&mut s, false, query);
    proof {
        assert(s@ =~= content_watch_path_spec(project_name@, repo_name@, *query));
    }
    s
}

/// The text of the watch path for a pattern: the repository prefix and the
/// normalized pattern, with no query string.
pub open spec fn repo_watch_path_spec(
    project: Seq<char>,
    repo: Seq<char>,
    pattern: Seq<char>,
) -> Seq<char> {
    repo_prefix(project, repo) + "/contents"@ + normalized_pattern(pattern)
}

/// The path watching the files matched by a pattern.
pub fn repo_watch_path(project_name: &str, repo_name: &str, path_pattern: &str) -> (r: String)
    ensures
        r@ == repo_watch_path_spec(project_name@, repo_name@, path_pattern@),
{
    let mut s = repo_prefix_string(project_name, repo_name);
    s.append("/contents");
    let pattern = normalize_path_pattern(path_pattern);
    s.append(pattern.as_str());
    proof {
        assert(s@ =~= repo_watch_path_spec(project_name@, repo_name@, path_pattern@));
    }
    s
}

} // verus!
