//! Request metadata: authorization and content-type headers, the conditional
//! long-poll headers, status classification, and pre-flight validation of
//! push arguments.

use vstd::prelude::*;

use crate::model::{Change, CommitMessage, Revision};
use crate::strfmt::{dec_digits, dec_int};

verus! {

/// The grace buffer added on top of the long-poll wait timeout, so that the
/// client does not cut the connection before the server's own deadline.
pub const WATCH_BUFFER_TIMEOUT_SECS: u64 = 5;

/// True of a character that may stand in an authorization header value: the
/// horizontal tab and everything from the space character on, except delete.
pub open spec fn valid_header_char(c: char) -> bool {
    c == '\t' || (32 <= c as int && c as int != 127)
}

/// True when every character of a token may stand in a header value.
pub open spec fn valid_token(t: Seq<char>) -> bool {
    forall|i: int| 0 <= i < t.len() ==> valid_header_char(#[trigger] t[i])
}

/// True when every character of the token is acceptable in a header value.
fn is_valid_token(t: &str) -> (r: bool)
    ensures
        r == valid_token(t@),
{
    let len: usize = t.unicode_len();
    let mut i: usize = 0;
    while i < len
        invariant
            i <= len,
            len == t@.len(),
            forall|j: int| 0 <= j < i ==> valid_header_char(#[trigger] t@[j]),
        decreases len - i,
    {
        let c = t.get_char(i);
        let v: u32 = c as u32;
        if !(v == 9 || (v >= 32 && v != 127)) {
            return false;
        }
        i = i + 1;
    }
    true
}

/// The authorization header for a token: `Bearer ` followed by the token, or
/// `Bearer anonymous` when no token is given. `None` when the token holds a
/// character that cannot stand in a header value.
pub fn auth_header_value(token: Option<&str>) -> (r: Option<String>)
    ensures
        match token {
            Option::None => r matches Some(s) && s@ == "Bearer anonymous"@,
            Option::Some(t) => {
                if valid_token(t@) {
                    r matches Some(s) && s@ == "Bearer "@ + t@
                } else {
                    r is None
                }
            },
        },
{
    match token {
        Option::None => Option::Some(String::from_str("Bearer anonymous")),
        Option::Some(t) => {
            if is_valid_token(t) {
                let mut s = String::new();
                s.append("Bearer ");
                s.append(t);
                proof {
                    assert(s@ =~= "Bearer "@ + t@);
                }
                Option::Some(s)
            } else {
                Option::None
            }
        },
    }
}

/// The content type a request carries: the JSON-patch type for a patch
/// request, plain JSON otherwise.
pub fn content_type_value(is_patch: bool) -> (r: String)
    ensures
        is_patch ==> r@ == "application/json-patch+json"@,
        !is_patch ==> r@ == "application/json"@,
{
    if is_patch {
        String::from_str("application/json-patch+json")
    } else {
        String::from_str("application/json")
    }
}

/// How a response status is read.
#[derive(Debug, Clone, Copy, PartialEq, Eq, Structural)]
pub enum StatusCategory {
    /// A 2xx status: the body describes the requested data.
    Success,
    /// Status 304: the long poll elapsed with no change.
    NotModified,
    /// Any other status: the request failed.
    Failure,
}

/// The category of a status code: 304 is "not modified", 2xx is success, and
/// everything else is a failure.
pub open spec fn status_category(code: u16) -> StatusCategory {
    if code == 304 {
        StatusCategory::NotModified
    } else if 200 <= code < 300 {
        StatusCategory::Success
    } else {
        StatusCategory::Failure
    }
}

/// Classifies a response status code.
pub fn classify_status(code: u16) -> (c: StatusCategory)
    ensures
        c == status_category(code),
{
    if code == 304 {
        StatusCategory::NotModified
    } else if 200 <= code && code < 300 {
        StatusCategory::Success
    } else {
        StatusCategory::Failure
    }
}

/// True exactly of the 2xx status codes.
pub fn is_success_status(code: u16) -> (ok: bool)
    ensures
        ok == (200 <= code < 300),
{
    200 <= code && code < 300
}

/// The computed pieces of one conditional long-poll request: the
/// `If-None-Match` header value, the optional `Prefer` header value, and the
/// overall request timeout.
pub struct WatchRequestMeta {
    /// The last known revision in decimal, or `-1` when none is known.
    pub if_none_match: String,
    /// `wait=<seconds>`, omitted when the wait timeout is zero.
    pub prefer: Option<String>,
    /// The wait timeout plus the grace buffer.
    pub timeout_secs: u64,
}

/// Builds the header values and the request timeout of one conditional
/// long-poll request.
pub fn watch_request_meta(last_known_revision: Option<Revision>, timeout_secs: u64) -> (m:
    WatchRequestMeta)
    requires
        timeout_secs + WATCH_BUFFER_TIMEOUT_SECS <= u64::MAX,
    ensures
        m.if_none_match@ == dec_int(
            match last_known_revision {
                Option::Some(r) => r@,
                Option::None => -1,
            },
        ),
        m.timeout_secs == timeout_secs + WATCH_BUFFER_TIMEOUT_SECS,
        timeout_secs == 0 ==> m.prefer is None,
        timeout_secs > 0 ==> (m.prefer matches Some(p) && p@ == "wait="@ + dec_digits(
            timeout_secs as nat,
        )),
{
    let if_none_match = match last_known_revision {
        Option::Some(r) => crate::strfmt::i64_dec_string(r.as_i64()),
        Option::None => crate::strfmt::i64_dec_string(-1),
    };
    let prefer = if timeout_secs == 0 {
        Option::None
    } else {
        let mut p = String::new();
        p.append("wait=");
        crate::strfmt::push_dec_u64(&mut p, timeout_secs);
        proof {
            assert(p@ =~= "wait="@ + dec_digits(timeout_secs as nat));
        }
        Option::Some(p)
    };
    WatchRequestMeta { if_none_match, prefer, timeout_secs: timeout_secs
        + WATCH_BUFFER_TIMEOUT_SECS }
}

/// Why a push is rejected before any request is made.
#[derive(Debug, Clone, Copy, PartialEq, Eq, Structural)]
pub enum PushError {
    /// The commit message has an empty summary.
    EmptySummary,
    /// There is no change to commit.
    NoChanges,
}

/// Checks the arguments of a push: the commit summary must not be empty and
/// there must be at least one change.
pub fn validate_push(cm: &CommitMessage, changes: &Vec<Change>) -> (r: Result<(), PushError>)
    ensures
        cm.summary@.len() == 0 ==> r == Result::<(), PushError>::Err(PushError::EmptySummary),
        cm.summary@.len() > 0 && changes@.len() == 0 ==> r == Result::<(), PushError>::Err(
            PushError::NoChanges,
        ),
        cm.summary@.len() > 0 && changes@.len() > 0 ==> r is Ok,
{
    if cm.summary.as_str().is_empty() {
        return Result::Err(PushError::EmptySummary);
    }
    if changes.len() == 0 {
        return Result::Err(PushError::NoChanges);
    }
    Result::Ok(())
}

} // verus!
