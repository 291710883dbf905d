//! The error taxonomy of the client: transport failures, non-success API
//! responses, and responses whose expected field is missing.

use vstd::prelude::*;

use crate::json::push_char;

verus! {

/// The decimal digit character for a value below 10.
pub open spec fn dec_digit(n: int) -> char {
    if n == 0 { '0' } else if n == 1 { '1' } else if n == 2 { '2' } else if n == 3 { '3' }
    else if n == 4 { '4' } else if n == 5 { '5' } else if n == 6 { '6' } else if n == 7 { '7' }
    else if n == 8 { '8' } else { '9' }
}

/// The decimal rendering of a non-negative number, without leading zeros.
pub open spec fn dec_str(n: int) -> Seq<char>
    decreases n,
{
    if n < 10 {
        seq![dec_digit(n)]
    } else {
        dec_str(n / 10) + seq![dec_digit(n % 10)]
    }
}

fn dec_digit_exec(n: u16) -> (r: char)
    requires
        n < 10,
    ensures
        r == dec_digit(n as int),
{
    if n == 0 { '0' } else if n == 1 { '1' } else if n == 2 { '2' } else if n == 3 { '3' }
    else if n == 4 { '4' } else if n == 5 { '5' } else if n == 6 { '6' } else if n == 7 { '7' }
    else if n == 8 { '8' } else { '9' }
}

fn push_dec(r: &mut String, n: u16)
    ensures
        final(r)@ == old(r)@ + dec_str(n as int),
    decreases n,
{
    if n < 10 {
        let d = dec_digit_exec(n);
        push_char(r, d);
    } else {
        push_dec(r, n / 10);
        let d = dec_digit_exec(n % 10);
        push_char(r, d);
        proof {
            assert(old(r)@ + dec_str(n as int / 10) + seq![dec_digit(n as int % 10)] =~= old(r)@
                + (dec_str(n as int / 10) + seq![dec_digit(n as int % 10)]));
        }
    }
}

/// What a client call can fail with.
#[derive(Clone, Debug)]
pub enum GitHubError {
    /// No usable response was obtained: a transport failure, or a response
    /// body that was not JSON at all. Carries the HTTP status when known.
    RequestError { status: Option<u16> },
    /// The response decoded as JSON but the expected field path was absent
    /// or not a string.
    ParseError(String),
    /// A non-success response whose JSON body was read; carries the status
    /// and the body's `message` field (or a fixed default).
    ApiError { status: u16, message: String },
}

/// The HTTP status an error carries, when one is known.
pub open spec fn carried_status(e: GitHubError) -> Option<u16> {
    match e {
        GitHubError::RequestError { status } => status,
        GitHubError::ApiError { status, .. } => Some(status),
        GitHubError::ParseError(_) => None,
    }
}

impl GitHubError {
    /// The HTTP status carried by the error, when one is known.
    pub fn status(&self) -> (r: Option<u16>)
        ensures
            r == carried_status(*self),
    {
        match self {
            GitHubError::RequestError { status } => *status,
            GitHubError::ApiError { status, .. } => Some(*status),
            GitHubError::ParseError(_) => None,
        }
    }

    /// A short rendering of the error for user-facing messages.
    pub fn describe(&self) -> (r: String)
        ensures
            *self matches GitHubError::ApiError { status, message } ==> r@
                == "Request failed with status "@ + dec_str(status as int) + ": "@ + message@,
            *self matches GitHubError::ParseError(m) ==> r@ == "Failed to parse response: "@ + m@,
            *self matches GitHubError::RequestError { .. } ==> r@ == "HTTP request failed"@,
    {
        match self {
            GitHubError::RequestError { .. } => String::from_str("HTTP request failed"),
            GitHubError::ParseError(m) => {
                let mut r = String::from_str("Failed to parse response: ");
                r.append(m.as_str());
                r
            },
            GitHubError::ApiError { status, message } => {
                let mut r = String::from_str("Request failed with status ");
                push_dec(&mut r, *status);
                r.append(": ");
                r.append(message.as_str());
                r
            },
        }
    }
}

} // verus!
