//! Failure taxonomy and the uniform tool-scoped outcome.  Transport
//! faults, non-2xx statuses and unreadable response bodies are all
//! converted into a structured error outcome; none of them may escape
//! as a hard fault.

use vstd::prelude::*;
use vstd::string::StringExecFns;

use crate::textfmt::{spec_dec, u64_string};

verus! {

/// What went wrong after validation, at or behind the HTTP boundary.
pub enum ApiError {
    /// The transport failed: connection or timeout; carries the
    /// transport's own diagnostic text.
    Transport(String),
    /// The remote service answered outside the 2xx range; carries the
    /// status and the response body verbatim.
    RemoteApi { status: u16, body: String },
    /// The response body did not match the expected typed shape;
    /// carries the parser's diagnostic text.
    Serialization(String),
}

/// The display text of a failure.  A remote error embeds the numeric
/// status code and the raw body; the other two embed the diagnostic
/// they carry.
pub open spec fn spec_failure_text(f: ApiError) -> Seq<char> {
    match f {
        ApiError::Transport(m) => "HTTP request failed: "@ + m@,
        ApiError::RemoteApi { status, body } => "xAI API error ("@ + spec_dec(status as nat)
            + "): "@ + body@,
        ApiError::Serialization(m) => "HTTP request failed: "@ + m@,
    }
}

/// Render a failure for the caller.
pub fn failure_text(f: &ApiError) -> (t: String)
    ensures
        t@ == spec_failure_text(*f),
{
    match f {
        ApiError::Transport(m) => {
            let mut t = "HTTP request failed: ".to_owned();
            t.append(m.as_str());
            t
        },
        ApiError::RemoteApi { status, body } => {
            let mut t = "xAI API error (".to_owned();
            t.append(u64_string(*status as u64).as_str());
            t.append("): ");
            t.append(body.as_str());
            proof {
                assert(t@ =~= spec_failure_text(*f));
            }
            t
        },
        ApiError::Serialization(m) => {
            let mut t = "HTTP request failed: ".to_owned();
            t.append(m.as_str());
            t
        },
    }
}

/// A remote status is a success exactly when it lies in the 2xx range.
pub open spec fn spec_status_success(status: u16) -> bool {
    200 <= status < 300
}

/// Classify a remote status: nothing to report on a 2xx answer, a
/// remote-error failure carrying the status and the body verbatim
/// otherwise.
pub fn status_to_failure(status: u16, body: String) -> (r: Option<ApiError>)
    ensures
        r is None <==> spec_status_success(status),
        !spec_status_success(status) ==> (r matches Some(f) && f == (ApiError::RemoteApi {
            status,
            body,
        })),
{
    if 200 <= status && status < 300 {
        None
    } else {
        Some(ApiError::RemoteApi { status, body })
    }
}

/// What every tool entry point hands back: rendered text, marked as a
/// success or as a tool-scoped error.
pub struct ToolOutcome {
    /// Whether the text reports an error.
    pub is_error: bool,
    /// The rendered result or the failure's display text.
    pub text: String,
}

impl ToolOutcome {
    /// A success outcome carrying rendered text.
    pub fn success(text: String) -> (r: Self)
        ensures
            r.is_error == false,
            r.text@ == text@,
    {
        ToolOutcome { is_error: false, text }
    }

    /// An error outcome carrying given text.
    pub fn error(text: String) -> (r: Self)
        ensures
            r.is_error == true,
            r.text@ == text@,
    {
        ToolOutcome { is_error: true, text }
    }

    /// The error outcome of a failure: tool-scoped, never a fault, its
    /// text the failure's display text.
    pub fn of_failure(f: &ApiError) -> (r: Self)
        ensures
            r.is_error == true,
            r.text@ == spec_failure_text(*f),
    {
        ToolOutcome { is_error: true, text: failure_text(f) }
    }
}

} // verus!
