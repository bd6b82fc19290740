//! Verification: is an inbound event one that the source system sent?
//!
//! The inbound payload is not trusted. The source system is asked for the
//! notification that the event names, and the record it returns has to agree
//! with the event. The request itself is made elsewhere: here the lookup is
//! prepared, and its reply judged.
//!
//! What is confirmed is the identity of the event and the status of its
//! delivery, not the content of its payload: the source system offers no way
//! to check that. An event with true identifiers and an altered resource
//! passes. That limitation is known and accepted.

use vstd::prelude::*;
use crate::error::Error;
use crate::event::{Event, EventView, Notification, NotificationView, notification_of};
use crate::ident::{hyphenated, Uuid};
use crate::text::{decimal, decimal_text};
use crate::json::json_parse;

verus! {

/// The organization whose events are verified, unless another is given.
pub const ADO_ORGANIZATION: &'static str = "https://dev.azure.com/jusmoore";

/// The address at which the source system keeps the notification
/// `notification_id` of the subscription `subscription_id`.
pub open spec fn lookup_url(base: Seq<char>, subscription_id: u128, notification_id: u64) -> Seq<char> {
    base + "/_apis/hooks/subscriptions/"@ + hyphenated(subscription_id) + "/notifications/"@ + decimal(
        notification_id as nat,
    ) + "?api-version=7.1-preview.1"@
}

/// The value of the `Authorization` header that carries a bearer token.
pub open spec fn bearer(token: Seq<char>) -> Seq<char> {
    "Bearer "@ + token
}

/// The lookup for an event: its address, or nothing where the event lacks
/// its subscription id or its notification id.
pub open spec fn lookup_of(base: Seq<char>, event: EventView) -> Option<Seq<char>> {
    match (event.subscription_id, event.notification_id) {
        (Some(subscription_id), Some(notification_id)) => Some(
            lookup_url(base, subscription_id, notification_id),
        ),
        _ => None,
    }
}

/// Whether the source system's record confirms the event: it names the
/// event's id, its own id is the event's notification id, and its status is
/// exactly `processing`.
pub open spec fn confirms(record: NotificationView, event: EventView) -> bool {
    &&& record.event_id == Some(event.id)
    &&& event.notification_id is Some
    &&& record.id == event.notification_id
    &&& record.status == Some("processing"@)
}

/// The address of the lookup.
pub fn build_lookup_url(base: &str, subscription_id: Uuid, notification_id: u64) -> (url: String)
    ensures
        url@ == lookup_url(base@, subscription_id.bits, notification_id),
{
    let id = subscription_id.to_text();
    let number = decimal_text(notification_id);
    String::from_str(base).concat("/_apis/hooks/subscriptions/").concat(id.as_str()).concat(
        "/notifications/",
    ).concat(number.as_str()).concat("?api-version=7.1-preview.1")
}

/// The value of the `Authorization` header for a bearer token.
pub fn bearer_header(token: &str) -> (header: String)
    ensures
        header@ == bearer(token@),
{
    String::from_str("Bearer ").concat(token)
}

/// The address of the lookup for an event, or `MissingIdentifiers` where the
/// event lacks its subscription id or its notification id: such an event
/// cannot be verified, and is never trusted instead.
pub fn lookup_request(base: &str, event: &Event) -> (url: Result<String, Error>)
    ensures
        match url {
            Ok(url) => lookup_of(base@, event@) == Some(url@),
            Err(error) => error is MissingIdentifiers && lookup_of(base@, event@) is None,
        },
{
    match (event.subscription_id, event.notification_id) {
        (Some(subscription_id), Some(notification_id)) => Ok(
            build_lookup_url(base, subscription_id, notification_id),
        ),
        _ => Err(Error::MissingIdentifiers),
    }
}

/// How the lookup ended.
#[derive(Clone, Debug, PartialEq, Eq)]
pub enum Reply {
    /// No answer came: the connection failed, or the time allowed ran out.
    Unreachable,
    /// An answer came, with its status code, and its body where it could be
    /// read.
    Answer { status: u16, body: Option<String> },
}

/// Whether the record confirms the event.
pub fn cross_check(record: &Notification, event: &Event) -> (confirmed: bool)
    ensures
        confirmed == confirms(record@, event@),
{
    let same_event = match record.event_id {
        Some(id) => id == event.id,
        None => false,
    };
    let same_notification = match (record.id, event.notification_id) {
        (Some(recorded), Some(claimed)) => recorded == claimed,
        _ => false,
    };
    let processing = match &record.status {
        Some(status) => *status == String::from_str("processing"),
        None => false,
    };
    same_event && same_notification && processing
}

/// The verdict on an event, given how its lookup ended.
pub enum Verdict {
    /// The source system's record confirms the event.
    Confirmed,
    /// The event lacks an identifier: there was nothing to look up.
    MissingIdentifiers,
    /// No answer, or none with status 200 and a readable body.
    Transport { url: Seq<char>, status: Option<u16> },
    /// The body is no notification.
    Undecodable { body: Seq<char> },
    /// The record disagrees with the event.
    Denied,
}

/// The verdict that the reply to an event's lookup calls for.
pub open spec fn verdict(base: Seq<char>, event: EventView, reply: Reply) -> Verdict {
    match lookup_of(base, event) {
        None => Verdict::MissingIdentifiers,
        Some(url) => match reply {
            Reply::Unreachable => Verdict::Transport { url, status: None },
            Reply::Answer { status, body } => if status != 200 {
                Verdict::Transport { url, status: Some(status) }
            } else {
                match body {
                    None => Verdict::Transport { url, status: Some(status) },
                    Some(body) => match record_of(body@) {
                        None => Verdict::Undecodable { body: body@ },
                        Some(record) => if confirms(record, event) {
                            Verdict::Confirmed
                        } else {
                            Verdict::Denied
                        },
                    },
                }
            },
        },
    }
}

/// The notification that a reply's body holds.
pub open spec fn record_of(body: Seq<char>) -> Option<NotificationView> {
    match json_parse(body) {
        Some(document) => notification_of(document),
        None => None,
    }
}

/// Whether an outcome of verification is the one that a verdict calls for.
/// A confirmed event comes back as it went in.
pub open spec fn follows(outcome: Result<Event, Error>, event: Event, verdict: Verdict) -> bool {
    match verdict {
        Verdict::Confirmed => outcome == Ok::<Event, Error>(event),
        Verdict::MissingIdentifiers => outcome matches Err(Error::MissingIdentifiers),
        Verdict::Transport { url, status } => outcome matches Err(
            Error::VerificationTransportError { url: at, status: code },
        ) && at@ == url && code == status,
        Verdict::Undecodable { body } => outcome matches Err(
            Error::VerificationDecodeError { body: text },
        ) && text@ == body,
        Verdict::Denied => outcome matches Err(Error::VerificationFailed),
    }
}

/// Judges the reply to an event's lookup at the organization `base`.
///
/// The event comes back, unchanged, exactly where the reply has status 200
/// and its body is a notification that confirms the event. Every other reply
/// is an error: trust is never assumed.
pub fn verify(base: &str, event: Event, reply: Reply) -> (outcome: Result<Event, Error>)
    ensures
        follows(outcome, event, verdict(base@, event@, reply)),
{
    let url = match lookup_request(base, &event) {
        Ok(url) => url,
        Err(error) => {
            return Err(error);
        },
    };
    match reply {
        Reply::Unreachable => Err(Error::VerificationTransportError { url, status: None }),
        Reply::Answer { status, body } => {
            if status != 200 {
                return Err(Error::VerificationTransportError { url, status: Some(status) });
            }
            match body {
                None => Err(Error::VerificationTransportError { url, status: Some(status) }),
                Some(body) => match Notification::from_text(body.as_str()) {
                    Err(_) => Err(Error::VerificationDecodeError { body }),
                    Ok(record) => if cross_check(&record, &event) {
                        Ok(event)
                    } else {
                        Err(Error::VerificationFailed)
                    },
                },
            }
        },
    }
}

} // verus!
