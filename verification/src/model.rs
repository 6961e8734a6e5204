//! Data model of the repository service.

use vstd::prelude::*;

verus! {

/// A revision number of a commit.
///
/// A revision number is an integer which refers to a specific point of
/// repository history. When a repository is created, it starts with an initial
/// commit whose revision is 1. As new commits are added, each commit gets its
/// own revision number, monotonically increasing from the previous commit's
/// revision, i.e. 1, 2, 3, ...
///
/// A revision number can also be represented as a negative integer. When a
/// revision number is negative, we start from -1 which refers to the latest
/// commit in repository history, which is often called 'HEAD' of the
/// repository. A smaller revision number refers to an older commit, e.g. -2
/// refers to the commit before the latest commit, and so on.
///
/// Revision 0 is reserved: it stands for "no revision given" and is omitted
/// wherever a revision would be rendered into a request.
#[derive(Debug, Clone, Copy, PartialEq, Eq, Structural)]
pub struct Revision(i64);

impl View for Revision {
    type V = int;

    closed spec fn view(&self) -> int {
        self.0 as int
    }
}

impl Revision {
    /// True of the reserved revision that stands for "no revision given".
    pub open spec fn is_unspecified(&self) -> bool {
        self@ == 0
    }

    /// The revision number this value carries.
    pub fn as_i64(&self) -> (r: i64)
        ensures
            r == self@,
    {
        self.0
    }

    /// Create a new instance with the specified revision number.
    pub fn from(i: i64) -> (r: Self)
        ensures
            r@ == i,
    {
        Revision(i)
    }

    /// Revision `-1`, also known as `HEAD`.
    pub fn head() -> (r: Self)
        ensures
            r@ == -1,
    {
        Revision(-1)
    }

    /// Revision `1`, also known as `INIT`.
    pub fn init() -> (r: Self)
        ensures
            r@ == 1,
    {
        Revision(1)
    }

    /// The decimal rendering of this revision; the unspecified revision
    /// renders as the empty string, as it is omitted from requests.
    pub fn display_string(&self) -> (r: String)
        ensures
            self@ == 0 ==> r@ == Seq::<char>::empty(),
            self@ != 0 ==> r@ == crate::strfmt::dec_int(self@),
    {
        if self.0 == 0 {
            String::new()
        } else {
            crate::strfmt::i64_dec_string(self.0)
        }
    }
}

impl Default for Revision {
    /// The unspecified revision: it stands for "no revision given" and is
    /// omitted wherever a revision would be rendered into a request.
    fn default() -> (r: Self)
        ensures
            r@ == 0,
    {
        Revision(0)
    }
}

/// Declares serde_json's JSON value type so that entries and changes can
/// carry decoded JSON content. The value is opaque here; only its variant
/// placement inside [`EntryContent`] and [`ChangeContent`] matters.
#[verifier::external_type_specification]
#[verifier::external_body]
pub struct ExValue(serde_json::Value);

/// Creator of a project or repository or commit.
#[derive(Debug, PartialEq, Eq)]
pub struct Author {
    /// Name of this author.
    pub name: String,
    /// Email of this author.
    pub email: String,
}

/// A top-level element in the storage model. A project has "dogma" and "meta"
/// repositories by default which contain project configuration files
/// accessible by administrators and project owners respectively.
#[derive(Debug)]
pub struct Project {
    /// Name of this project.
    pub name: String,
    /// The author who initially created this project.
    pub creator: Author,
    /// Url of this project.
    pub url: Option<String>,
    /// When the project was created.
    pub created_at: Option<String>,
}

/// Repository information.
#[derive(Debug)]
pub struct Repository {
    /// Name of this repository.
    pub name: String,
    /// The author who initially created this repository.
    pub creator: Author,
    /// Head [`Revision`] of the repository.
    pub head_revision: Revision,
    /// Url of this repository.
    pub url: Option<String>,
    /// When the repository was created.
    pub created_at: Option<String>,
}

/// The content of an [`Entry`].
#[derive(Debug)]
pub enum EntryContent {
    /// Content as a JSON value.
    Json(serde_json::Value),
    /// Content as a string.
    Text(String),
    /// This entry is a directory.
    Directory,
}

/// A file or a directory in a repository.
#[derive(Debug)]
pub struct Entry {
    /// Path of this entry.
    pub path: String,
    /// Content of this entry.
    pub content: EntryContent,
    /// Revision of this entry.
    pub revision: Revision,
    /// Url of this entry.
    pub url: String,
    /// When this entry was last modified.
    pub modified_at: Option<String>,
}

/// The type of a [`ListEntry`].
#[derive(Debug, PartialEq, Eq, Structural)]
pub enum EntryType {
    /// A UTF-8 encoded JSON file.
    Json,
    /// A UTF-8 encoded text file.
    Text,
    /// A directory.
    Directory,
}

impl Entry {
    /// The [`EntryType`] that corresponds to this entry's content.
    pub open spec fn spec_entry_type(&self) -> EntryType {
        match self.content {
            EntryContent::Json(_) => EntryType::Json,
            EntryContent::Text(_) => EntryType::Text,
            EntryContent::Directory => EntryType::Directory,
        }
    }

    /// Returns the [`EntryType`] of this entry.
    pub fn entry_type(&self) -> (r: EntryType)
        ensures
            r == self.spec_entry_type(),
    {
        match &self.content {
            EntryContent::Json(_) => EntryType::Json,
            EntryContent::Text(_) => EntryType::Text,
            EntryContent::Directory => EntryType::Directory,
        }
    }
}

/// A metadata of a file or a directory in a repository. A `ListEntry` has no
/// content.
#[derive(Debug, PartialEq, Eq)]
pub struct ListEntry {
    /// Path of this entry.
    pub path: String,
    /// The type of this entry.
    pub entry_type: EntryType,
}

/// Type of a [`Query`].
#[derive(Debug)]
pub enum QueryType {
    Identity,
    IdentityJson,
    IdentityText,
    JsonPath(Vec<String>),
}

/// A query on a file.
#[derive(Debug)]
pub struct Query {
    /// The normalized file path the query addresses.
    pub path: String,
    /// How the file content is projected.
    pub query_type: QueryType,
}

/// A path with a guaranteed leading slash: `p` itself when it already starts
/// with `/`, otherwise `p` with `/` prepended.
pub open spec fn normalized_path(p: Seq<char>) -> Seq<char> {
    if p.len() > 0 && p[0] == '/' {
        p
    } else {
        seq!['/'] + p
    }
}

/// True when the last four characters of `p` spell `json`, compared without
/// regard to ASCII case.
pub open spec fn json_suffix(p: Seq<char>) -> bool {
    &&& p.len() >= 4
    &&& (p[p.len() - 4] == 'j' || p[p.len() - 4] == 'J')
    &&& (p[p.len() - 3] == 's' || p[p.len() - 3] == 'S')
    &&& (p[p.len() - 2] == 'o' || p[p.len() - 2] == 'O')
    &&& (p[p.len() - 1] == 'n' || p[p.len() - 1] == 'N')
}

/// Prepends `/` to `path` unless it already starts with one.
fn normalize_query_path(path: &str) -> (r: String)
    ensures
        r@ == normalized_path(path@),
{
    let len: usize = path.unicode_len();
    if len > 0 && path.get_char(0) == '/' {
        path.to_owned()
    } else {
        let mut s = String::new();
        s.append("/");
        s.append(path);
        proof {
            reveal_strlit("/");
            assert(s@ =~= normalized_path(path@));
        }
        s
    }
}

/// True when the path ends in `json`, compared without regard to ASCII case.
fn has_json_suffix(path: &str) -> (r: bool)
    ensures
        r == json_suffix(path@),
{
    let len: usize = path.unicode_len();
    if len < 4 {
        return false;
    }
    let c0 = path.get_char(len - 4);
    let c1 = path.get_char(len - 3);
    let c2 = path.get_char(len - 2);
    let c3 = path.get_char(len - 1);
    (c0 == 'j' || c0 == 'J') && (c1 == 's' || c1 == 'S') && (c2 == 'o' || c2 == 'O') && (c3 == 'n'
        || c3 == 'N')
}

impl Query {
    /// Returns a newly-created [`Query`] that retrieves the content as it is.
    /// Returns `None` if `path` is empty.
    pub fn identity(path: &str) -> (r: Option<Self>)
        ensures
            path@.len() == 0 <==> r is None,
            r matches Some(q) ==> q.path@ == normalized_path(path@) && q.query_type is Identity,
    {
        if path.is_empty() {
            return None;
        }
        Some(Query { path: normalize_query_path(path), query_type: QueryType::Identity })
    }

    /// Returns a newly-created [`Query`] that retrieves the textual content as
    /// it is. Returns `None` if `path` is empty.
    pub fn of_text(path: &str) -> (r: Option<Self>)
        ensures
            path@.len() == 0 <==> r is None,
            r matches Some(q) ==> q.path@ == normalized_path(path@) && q.query_type is IdentityText,
    {
        if path.is_empty() {
            return None;
        }
        Some(Query { path: normalize_query_path(path), query_type: QueryType::IdentityText })
    }

    /// Returns a newly-created [`Query`] that retrieves the JSON content as it
    /// is. Returns `None` if `path` is empty.
    pub fn of_json(path: &str) -> (r: Option<Self>)
        ensures
            path@.len() == 0 <==> r is None,
            r matches Some(q) ==> q.path@ == normalized_path(path@) && q.query_type is IdentityJson,
    {
        if path.is_empty() {
            return None;
        }
        Some(Query { path: normalize_query_path(path), query_type: QueryType::IdentityJson })
    }

    /// Returns a newly-created [`Query`] that applies a series of JSON path
    /// expressions to the content. Returns `None` if `path` does not end with
    /// `json` (compared without regard to ASCII case).
    pub fn of_json_path(path: &str, exprs: Vec<String>) -> (r: Option<Self>)
        ensures
            json_suffix(path@) <==> r is Some,
            r matches Some(q) ==> q.path@ == normalized_path(path@) && (q.query_type matches
                QueryType::JsonPath(es) && es.deep_view() == exprs.deep_view()),
    {
        if !has_json_suffix(path) {
            return None;
        }
        Some(Query { path: normalize_query_path(path), query_type: QueryType::JsonPath(exprs) })
    }
}

/// Typed content of a [`CommitMessage`].
#[derive(Debug, PartialEq, Eq)]
pub enum CommitDetail {
    /// Commit details as markdown.
    Markdown(String),
    /// Commit details as plaintext.
    Plaintext(String),
}

/// Description of a [`Commit`].
#[derive(Debug, PartialEq, Eq)]
pub struct CommitMessage {
    /// Summary of this commit message.
    pub summary: String,
    /// Detailed description of this commit message.
    pub detail: Option<CommitDetail>,
}

/// Result of a push operation.
#[derive(Debug)]
pub struct PushResult {
    /// Revision of this commit.
    pub revision: Revision,
    /// When this commit was pushed.
    pub pushed_at: Option<String>,
}

/// A set of changes and its metadata.
#[derive(Debug)]
pub struct Commit {
    /// Revision of this commit.
    pub revision: Revision,
    /// Author of this commit.
    pub author: Author,
    /// Description of this commit.
    pub commit_message: CommitMessage,
    /// When this commit was pushed.
    pub pushed_at: Option<String>,
}

/// Typed content of a [`Change`].
#[derive(Debug)]
pub enum ChangeContent {
    /// Adds a new JSON file or replaces an existing file with the provided
    /// JSON.
    UpsertJson(serde_json::Value),
    /// Adds a new text file or replaces an existing file with the provided
    /// content.
    UpsertText(String),
    /// Removes an existing file.
    Remove,
    /// Renames an existing file to the provided path.
    Rename(String),
    /// Applies a JSON patch to a JSON file with the provided JSON patch
    /// object.
    ApplyJsonPatch(serde_json::Value),
    /// Applies a textual patch in unified format to a text file.
    ApplyTextPatch(String),
}

/// A modification of an individual [`Entry`].
#[derive(Debug)]
pub struct Change {
    /// Path of the file change.
    pub path: String,
    /// Content of the file change.
    pub content: ChangeContent,
}

/// A change result from a watch operation on a single file.
#[derive(Debug)]
pub struct WatchFileResult {
    /// Revision of the change.
    pub revision: Revision,
    /// Content of the change.
    pub entry: Entry,
}

/// A change result from a watch operation on a repository.
#[derive(Debug, PartialEq, Eq)]
pub struct WatchRepoResult {
    /// Revision of the change.
    pub revision: Revision,
}

/// A decoded watch payload that knows the revision it was produced at.
pub trait Watchable: Sized {
    /// The revision this payload carries.
    spec fn rev(&self) -> int;

    /// Returns the revision this payload carries.
    fn revision(&self) -> (r: Revision)
        ensures
            r@ == self.rev(),
    ;
}

impl Watchable for WatchFileResult {
    open spec fn rev(&self) -> int {
        self.revision@
    }

    fn revision(&self) -> (r: Revision)
        ensures
            r@ == self.rev(),
    {
        self.revision
    }
}

impl Watchable for WatchRepoResult {
    open spec fn rev(&self) -> int {
        self.revision@
    }

    fn revision(&self) -> (r: Revision)
        ensures
            r@ == self.rev(),
    {
        self.revision
    }
}

} // verus!
