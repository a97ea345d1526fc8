//! Uniform error currency: an HTTP status code paired with a message.
use vstd::prelude::*;

verus! {

/// Status of a rejected request: the input was malformed or inadmissible.
pub const BAD_REQUEST: u16 = 400;

/// Status for failures with no more specific classification.
pub const INTERNAL_SERVER_ERROR: u16 = 500;

/// Status for a missing dependency or an upstream connection failure.
pub const BAD_GATEWAY: u16 = 502;

/// Status for a full session pool, exhausted allocator, or failed render.
pub const SERVICE_UNAVAILABLE: u16 = 503;

/// The error value that every fallible operation of this crate returns.
#[derive(Debug)]
pub struct Error {
    pub status_code: u16,
    pub message: String,
}

/// The canonical reason phrase of the status codes this crate uses;
/// empty for any other code.
pub open spec fn spec_reason_phrase(status: u16) -> Seq<char> {
    if status == BAD_REQUEST {
        "Bad Request"@
    } else if status == INTERNAL_SERVER_ERROR {
        "Internal Server Error"@
    } else if status == BAD_GATEWAY {
        "Bad Gateway"@
    } else if status == SERVICE_UNAVAILABLE {
        "Service Unavailable"@
    } else {
        ""@
    }
}

/// The body an error renders to: its message, or the status' reason
/// phrase when the message is empty.
pub open spec fn spec_body_text(e: Error) -> Seq<char> {
    if e.message@.len() > 0 {
        e.message@
    } else {
        spec_reason_phrase(e.status_code)
    }
}

pub fn reason_phrase(status: u16) -> (r: &'static str)
    ensures
        r@ == spec_reason_phrase(status),
{
    if status == BAD_REQUEST {
        "Bad Request"
    } else if status == INTERNAL_SERVER_ERROR {
        "Internal Server Error"
    } else if status == BAD_GATEWAY {
        "Bad Gateway"
    } else if status == SERVICE_UNAVAILABLE {
        "Service Unavailable"
    } else {
        ""
    }
}

impl Error {
    pub fn new(status_code: u16, message: &str) -> (r: Self)
        ensures
            r.status_code == status_code,
            r.message@ == message@,
    {
        Error { status_code, message: message.to_owned() }
    }

    /// A failure reported by the browser-control layer maps to 500.
    pub fn from_upstream(message: &str) -> (r: Self)
        ensures
            r.status_code == INTERNAL_SERVER_ERROR,
            r.message@ == message@,
    {
        Error::new(INTERNAL_SERVER_ERROR, message)
    }

    /// The text that an HTTP response built from this error carries.
    pub fn body_text(&self) -> (r: String)
        ensures
            r@ == spec_body_text(*self),
    {
        if self.message.as_str().is_empty() {
            reason_phrase(self.status_code).to_owned()
        } else {
            self.message.clone()
        }
    }
}

} // verus!
