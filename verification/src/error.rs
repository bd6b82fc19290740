//! The ways in which handling one inbound event can fail.

use vstd::prelude::*;
use crate::text::{decimal, decimal_text};

verus! {

/// Why the handling of an inbound event stopped. Every failure ends the
/// request; none is retried here.
#[derive(Clone, Debug, PartialEq, Eq)]
pub enum Error {
    /// The inbound JSON does not have the shape of the data it stands for.
    MalformedPayload,
    /// No bearer token could be had.
    AuthError,
    /// The event lacks an identifier without which it cannot be verified.
    MissingIdentifiers,
    /// The lookup got no answer (`status` is `None`), or an answer other
    /// than a readable 200.
    VerificationTransportError { url: String, status: Option<u16> },
    /// The body of the lookup's answer is no notification.
    VerificationDecodeError { body: String },
    /// The source system's record disagrees with the event: trust denied.
    VerificationFailed,
    /// A handler was given an event without a resource.
    MissingResource,
    /// The resource does not have the shape that the event's type calls for.
    ResourcePayloadMismatch,
}

impl Error {
    /// A short description, fit for a log line.
    pub fn describe(&self) -> (text: String)
        ensures
            text@ == match *self {
                Error::MalformedPayload => "malformed payload"@,
                Error::AuthError => "failed to query identity"@,
                Error::MissingIdentifiers => "event lacks the identifiers needed to verify it"@,
                Error::VerificationTransportError { url, status: None } => "failed to fetch notification data: "@
                    + url@,
                Error::VerificationTransportError { url, status: Some(code) } => url@ + ": code "@ + decimal(
                    code as nat,
                ),
                Error::VerificationDecodeError { body } => "failed to decode notification data: "@ + body@,
                Error::VerificationFailed => "failed to verify event"@,
                Error::MissingResource => "resource data not present"@,
                Error::ResourcePayloadMismatch => "failed to decode resource"@,
            },
    {
        match self {
            Error::MalformedPayload => String::from_str("malformed payload"),
            Error::AuthError => String::from_str("failed to query identity"),
            Error::MissingIdentifiers => String::from_str(
                "event lacks the identifiers needed to verify it",
            ),
            Error::VerificationTransportError { url, status: None } => String::from_str(
                "failed to fetch notification data: ",
            ).concat(url.as_str()),
            Error::VerificationTransportError { url, status: Some(code) } => {
                let code = decimal_text(*code as u64);
                url.clone().concat(": code ").concat(code.as_str())
            },
            Error::VerificationDecodeError { body } => String::from_str(
                "failed to decode notification data: ",
            ).concat(body.as_str()),
            Error::VerificationFailed => String::from_str("failed to verify event"),
            Error::MissingResource => String::from_str("resource data not present"),
            Error::ResourcePayloadMismatch => String::from_str("failed to decode resource"),
        }
    }
}

/// Whether a decoder's outcome is the one that the model prescribes: the
/// value whose model is prescribed, or `MalformedPayload` where none is.
pub open spec fn agrees<T: DeepView>(got: Result<T, Error>, want: Option<T::V>) -> bool {
    match got {
        Ok(value) => want == Some(value.deep_view()),
        Err(error) => error is MalformedPayload && want is None,
    }
}

} // verus!
