//! The error taxonomy of the client: the remote service's error
//! payload, and the typed failures a call can end in.

use vstd::prelude::*;
use crate::json::{is_ws, skip_ws, parse_json_spec, str_member, parse_json};

verus! {

/// The last index of `s` before which only whitespace follows, walking
/// back from `i`.
pub open spec fn trim_end_idx(s: Seq<char>, i: nat) -> nat
    decreases i,
{
    if i > 0 && is_ws(s[i - 1]) {
        trim_end_idx(s, (i - 1) as nat)
    } else {
        i
    }
}

/// `s` without leading and trailing whitespace.
pub open spec fn trimmed(s: Seq<char>) -> Seq<char> {
    let a = skip_ws(s, 0);
    let b = trim_end_idx(s, s.len());
    if a <= b {
        s.subrange(a as int, b as int)
    } else {
        Seq::empty()
    }
}

/// An error payload of the remote service.
#[derive(Clone, Debug, PartialEq)]
pub struct ErganiError {
    pub message: String,
}

proof fn lemma_trim_end_bounds(s: Seq<char>, i: nat)
    requires
        i <= s.len(),
    ensures
        trim_end_idx(s, i) <= i,
    decreases i,
{
    if i > 0 && is_ws(s[i - 1]) {
        lemma_trim_end_bounds(s, (i - 1) as nat);
    }
}

impl ErganiError {
    /// The message with surrounding whitespace removed.
    pub fn message(&self) -> (r: &str)
        ensures
            r@ == trimmed(self.message@),
    {
        let s = self.message.as_str();
        let n = s.unicode_len();
        let a = crate::json::skip_ws_exec(s, 0, n);
        let mut b = n;
        while b > 0 && crate::json::is_ws_exec(s.get_char(b - 1))
            invariant
                n == s@.len(),
                b <= n,
                trim_end_idx(s@, n as nat) == trim_end_idx(s@, b as nat),
            decreases b,
        {
            b = b - 1;
        }
        proof {
            lemma_trim_end_bounds(s@, b as nat);
        }
        if a <= b {
            s.substring_char(a, b)
        } else {
            crate::wire::empty_str()
        }
    }
}

/// The typed failures of a call against the remote service.
#[derive(Clone, Debug, PartialEq)]
pub enum APIError {
    /// A login or refresh was rejected, or an authorization failure
    /// survived the one refresh-and-retry.
    AuthenticationFailed(ErganiError),
    /// The requested resource does not exist.
    NotFound(ErganiError),
    /// Any other unsuccessful response.
    General(ErganiError),
    /// A response body that could not be decoded.
    Decode(ErganiError),
}

impl APIError {
    /// The error payload carried by this failure.
    pub fn detail(&self) -> (r: &ErganiError)
        ensures
            *self matches APIError::AuthenticationFailed(e) ==> *r == e,
            *self matches APIError::NotFound(e) ==> *r == e,
            *self matches APIError::General(e) ==> *r == e,
            *self matches APIError::Decode(e) ==> *r == e,
    {
        match self {
            APIError::AuthenticationFailed(e) => e,
            APIError::NotFound(e) => e,
            APIError::General(e) => e,
            APIError::Decode(e) => e,
        }
    }

    /// How this failure reads: the message with a prefix naming the
    /// class of failure where one helps.
    pub open spec fn spec_describe(self) -> Seq<char> {
        match self {
            APIError::AuthenticationFailed(e) => "Authentication failed: "@ + trimmed(e.message@),
            APIError::NotFound(e) => "Resource not found: "@ + trimmed(e.message@),
            APIError::General(e) => trimmed(e.message@),
            APIError::Decode(e) => "Invalid response body: "@ + trimmed(e.message@),
        }
    }

    /// How this failure reads, for display by a caller.
    pub fn describe(&self) -> (r: String)
        ensures
            r@ == self.spec_describe(),
    {
        match self {
            APIError::AuthenticationFailed(e) => {
                let mut out = String::from_str("Authentication failed: ");
                out.append(e.message());
                assert(out@ =~= self.spec_describe());
                out
            },
            APIError::NotFound(e) => {
                let mut out = String::from_str("Resource not found: ");
                out.append(e.message());
                assert(out@ =~= self.spec_describe());
                out
            },
            APIError::General(e) => {
                let out = String::from_str(e.message());
                out
            },
            APIError::Decode(e) => {
                let mut out = String::from_str("Invalid response body: ");
                out.append(e.message());
                assert(out@ =~= self.spec_describe());
                out
            },
        }
    }

    /// A decode failure with its fixed message.
    pub fn decode_failure() -> (r: APIError)
        ensures
            r is Decode,
    {
        APIError::Decode(
            ErganiError { message: String::from_str("the response body could not be decoded") },
        )
    }
}

/// The message a response body carries: the `message` member when the
/// body is JSON with a string there, else the body text itself.
pub open spec fn error_message_of(body: Seq<char>) -> Seq<char> {
    match parse_json_spec(body) {
        Some(v) => match str_member(v, "message"@) {
            Some(m) => m,
            None => body,
        },
        None => body,
    }
}

/// Decodes an error body tolerantly: the `message` member of a JSON
/// body, or the body text as it stands.
pub fn decode_error_message(body: &str) -> (r: ErganiError)
    ensures
        r.message@ == error_message_of(body@),
{
    match parse_json(body) {
        Some(j) => match j.get_str("message") {
            Some(m) => ErganiError { message: m.clone() },
            None => ErganiError { message: body.to_owned() },
        },
        None => ErganiError { message: body.to_owned() },
    }
}

} // verus!
