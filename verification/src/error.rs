//! The two ways a notification operation can fail: a missing credential at
//! construction, or a request that did not succeed.

use vstd::prelude::*;
use crate::json::{spec_decimal, push_u32_decimal};

verus! {

/// A typed failure, surfaced directly to the caller; nothing is retried.
#[derive(Clone, Copy, Debug, PartialEq, Eq)]
pub enum NotifyError {
    /// The bot token was absent when the client was constructed.  Fatal:
    /// no client exists, so no request can be attempted.
    Configuration,
    /// The request did not succeed: the endpoint answered with the carried
    /// non-success HTTP status, or (`None`) the exchange failed in
    /// transport before any status arrived.
    Request { status: Option<u16> },
}

/// The text that `message` renders for each failure.
pub open spec fn spec_error_message(e: NotifyError) -> Seq<char> {
    match e {
        NotifyError::Configuration => "missing bot token: the credential must be supplied at construction"@,
        NotifyError::Request { status: Some(s) } => "request failed with HTTP status "@
            + spec_decimal(s as nat),
        NotifyError::Request { status: None } => "request failed before any response arrived"@,
    }
}

impl NotifyError {
    /// Whether this failure arose at construction rather than from a request.
    pub fn is_configuration(&self) -> (r: bool)
        ensures
            r == (*self is Configuration),
    {
        match self {
            NotifyError::Configuration => true,
            NotifyError::Request { .. } => false,
        }
    }

    /// The HTTP status carried by a request failure, if one arrived.
    pub fn http_status(&self) -> (r: Option<u16>)
        ensures
            match *self {
                NotifyError::Request { status } => r == status,
                NotifyError::Configuration => r is None,
            },
    {
        match self {
            NotifyError::Configuration => None,
            NotifyError::Request { status } => *status,
        }
    }

    /// A human-readable account of the failure.
    pub fn message(&self) -> (s: String)
        ensures
            s@ == spec_error_message(*self),
    {
        match self {
            NotifyError::Configuration => {
                "missing bot token: the credential must be supplied at construction".to_owned()
            },
            NotifyError::Request { status: Some(s) } => {
                let mut out = "request failed with HTTP status ".to_owned();
                push_u32_decimal(&mut out, *s as u32);
                out
            },
            NotifyError::Request { status: None } => {
                "request failed before any response arrived".to_owned()
            },
        }
    }
}

} // verus!
