//! The failure taxonomy and its classification rules.

use vstd::prelude::*;
use crate::text::{dec_digits, chars_of_bytes, u64_to_dec};

verus! {

/// Everything a request, a token mint or a construction can fail with.
#[derive(Debug)]
pub enum Error {
    /// The server rejected the bearer token (HTTP 401); carries the raw
    /// response body. May trigger exactly one reauthentication attempt.
    Unauthorized { body: String },
    /// A 4xx response other than 401: never retried, always surfaced.
    ClientError { status: u16, body: String },
    /// A 5xx response, or a transport-level failure (`status` is `None`):
    /// presumed transient, retried by the request executor.
    ServerOrTransport { status: Option<u16>, body: String },
    /// A response body that did not have the expected shape; the raw body
    /// text is preserved for diagnostics.
    Decode { body: String },
    /// Invalid construction input, e.g. a header value with characters
    /// illegal in an HTTP header.
    Configuration,
    /// A call expecting exactly one result got zero (`empty` is true) or
    /// more than one (`empty` is false).
    EmptyOrAmbiguous { empty: bool },
}

/// Mathematical model of an [`Error`].
pub enum ErrorV {
    Unauthorized { body: Seq<char> },
    ClientError { status: u16, body: Seq<char> },
    ServerOrTransport { status: Option<u16>, body: Seq<char> },
    Decode { body: Seq<char> },
    Configuration,
    EmptyOrAmbiguous { empty: bool },
}

impl View for Error {
    type V = ErrorV;

    open spec fn view(&self) -> ErrorV {
        match self {
            Error::Unauthorized { body } => ErrorV::Unauthorized { body: body@ },
            Error::ClientError { status, body } => ErrorV::ClientError {
                status: *status,
                body: body@,
            },
            Error::ServerOrTransport { status, body } => ErrorV::ServerOrTransport {
                status: *status,
                body: body@,
            },
            Error::Decode { body } => ErrorV::Decode { body: body@ },
            Error::Configuration => ErrorV::Configuration,
            Error::EmptyOrAmbiguous { empty } => ErrorV::EmptyOrAmbiguous { empty: *empty },
        }
    }
}

impl Error {
    /// True exactly of the failure that means the bearer token was rejected,
    /// the one kind that warrants a reauthentication attempt.
    pub fn is_invalid_oauth_token(&self) -> (r: bool)
        ensures
            r == (self@ is Unauthorized),
    {
        matches!(self, Error::Unauthorized { .. })
    }

    /// True exactly of the failures presumed transient (server fault or
    /// transport fault), which the request executor retries.
    pub fn is_spurious_network_error(&self) -> (r: bool)
        ensures
            r == (self@ is ServerOrTransport),
    {
        matches!(self, Error::ServerOrTransport { .. })
    }
}

impl Error {
    /// A copy that models identically.
    pub fn duplicate(&self) -> (r: Error)
        ensures
            r@ == self@,
    {
        match self {
            Error::Unauthorized { body } => Error::Unauthorized { body: body.clone() },
            Error::ClientError { status, body } => Error::ClientError {
                status: *status,
                body: body.clone(),
            },
            Error::ServerOrTransport { status, body } => Error::ServerOrTransport {
                status: *status,
                body: body.clone(),
            },
            Error::Decode { body } => Error::Decode { body: body.clone() },
            Error::Configuration => Error::Configuration,
            Error::EmptyOrAmbiguous { empty } => Error::EmptyOrAmbiguous { empty: *empty },
        }
    }
}

/// The view of an optional triggering failure.
pub open spec fn opt_error_view(o: Option<Error>) -> Option<ErrorV> {
    match o {
        Some(e) => Some(e@),
        None => None,
    }
}

/// The view of a string-or-error result.
pub open spec fn res_string_view(r: Result<String, Error>) -> Result<Seq<char>, ErrorV> {
    match r {
        Ok(s) => Ok(s@),
        Err(e) => Err(e@),
    }
}

/// The error for a completed HTTP exchange that did not succeed: 401 is the
/// rejected-token failure, any other 4xx is a terminal client error, and
/// everything else — 5xx, informational or redirect statuses, and transport
/// failures that produced no status — is presumed transient.
pub open spec fn classify_status_spec(status: Option<u16>, body: Seq<char>) -> ErrorV {
    match status {
        None => ErrorV::ServerOrTransport { status: None, body },
        Some(s) => if s == 401 {
            ErrorV::Unauthorized { body }
        } else if 400 <= s < 500 {
            ErrorV::ClientError { status: s, body }
        } else {
            ErrorV::ServerOrTransport { status: Some(s), body }
        },
    }
}

/// Classifies a completed exchange that did not succeed.
pub fn classify_status(status: Option<u16>, body: String) -> (e: Error)
    ensures
        e@ == classify_status_spec(status, body@),
{
    match status {
        None => Error::ServerOrTransport { status: None, body },
        Some(s) => if s == 401 {
            Error::Unauthorized { body }
        } else if s >= 400 && s < 500 {
            Error::ClientError { status: s, body }
        } else {
            Error::ServerOrTransport { status: Some(s), body }
        },
    }
}

/// What [`Error::describe`] returns for a given error model.
pub open spec fn describe_spec(e: ErrorV) -> Seq<char> {
    match e {
        ErrorV::Unauthorized { body } => "unauthorized, body:\n\n"@ + body,
        ErrorV::ClientError { status, body } => "client error, status "@ + chars_of_bytes(
            dec_digits(status as nat),
        ) + ", body:\n\n"@ + body,
        ErrorV::ServerOrTransport { status: Some(status), body } => "server error, status "@
            + chars_of_bytes(dec_digits(status as nat)) + ", body:\n\n"@ + body,
        ErrorV::ServerOrTransport { status: None, body } => "network error"@,
        ErrorV::Decode { body } => "malformed response, body:\n\n"@ + body,
        ErrorV::Configuration => "invalid configuration"@,
        ErrorV::EmptyOrAmbiguous { empty: true } => "expected exactly one item, got none"@,
        ErrorV::EmptyOrAmbiguous { empty: false } => "expected exactly one item, got several"@,
    }
}

impl Error {
    /// A human-readable account of the error, with the preserved response
    /// body appended where one was kept.
    pub fn describe(&self) -> (r: String)
        ensures
            r@ == describe_spec(self@),
    {
        match self {
            Error::Unauthorized { body } => {
                let mut r = String::from_str("unauthorized, body:\n\n");
                r.append(body.as_str());
                r
            },
            Error::ClientError { status, body } => {
                let mut r = String::from_str("client error, status ");
                let digits = u64_to_dec(*status as u64);
                r.append(digits.as_str());
                r.append(", body:\n\n");
                r.append(body.as_str());
                r
            },
            Error::ServerOrTransport { status: Some(status), body } => {
                let mut r = String::from_str("server error, status ");
                let digits = u64_to_dec(*status as u64);
                r.append(digits.as_str());
                r.append(", body:\n\n");
                r.append(body.as_str());
                r
            },
            Error::ServerOrTransport { status: None, body: _ } => {
                String::from_str("network error")
            },
            Error::Decode { body } => {
                let mut r = String::from_str("malformed response, body:\n\n");
                r.append(body.as_str());
                r
            },
            Error::Configuration => String::from_str("invalid configuration"),
            Error::EmptyOrAmbiguous { empty } => {
                if *empty {
                    String::from_str("expected exactly one item, got none")
                } else {
                    String::from_str("expected exactly one item, got several")
                }
            },
        }
    }
}

} // verus!
