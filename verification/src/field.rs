//! Typed members of JSON objects.
//!
//! A member that is absent or `null` is not there. An optional member may be
//! missing; where it is there, it must have the shape of its type. A required
//! member must be there and have that shape.

use vstd::prelude::*;
use crate::error::{agrees, Error};
use crate::ident::{uuid_parse, Uuid};
use crate::json::{Json, JsonValue};
use crate::time::{timestamp_normal, Timestamp};
use crate::web::{url_normal, Url};

verus! {

impl JsonValue {
    /// The UUID that a string spells.
    pub open spec fn uuid(self) -> Option<u128> {
        match self.text() {
            Some(text) => uuid_parse(text),
            None => None,
        }
    }

    /// The point in time that a string spells, in canonical form.
    pub open spec fn time(self) -> Option<Seq<char>> {
        match self.text() {
            Some(text) => timestamp_normal(text),
            None => None,
        }
    }

    /// The URL that a string spells, in canonical form.
    pub open spec fn url(self) -> Option<Seq<char>> {
        match self.text() {
            Some(text) => url_normal(text),
            None => None,
        }
    }

    /// The text in the member `name`, which may be missing.
    pub open spec fn optional_text(self, name: Seq<char>) -> Option<Option<Seq<char>>> {
        match self.present(name) {
            None => Some(None),
            Some(member) => match member.text() {
                Some(text) => Some(Some(text)),
                None => None,
            },
        }
    }

    /// The text in the member `name`, which must be there.
    pub open spec fn required_text(self, name: Seq<char>) -> Option<Seq<char>> {
        match self.present(name) {
            None => None,
            Some(member) => member.text(),
        }
    }

    /// The number in the member `name`, which may be missing.
    pub open spec fn optional_unsigned(self, name: Seq<char>) -> Option<Option<u64>> {
        match self.present(name) {
            None => Some(None),
            Some(member) => match member.unsigned() {
                Some(number) => Some(Some(number)),
                None => None,
            },
        }
    }

    /// The number in the member `name`, which must be there.
    pub open spec fn required_unsigned(self, name: Seq<char>) -> Option<u64> {
        match self.present(name) {
            None => None,
            Some(member) => member.unsigned(),
        }
    }

    /// The UUID in the member `name`, which may be missing.
    pub open spec fn optional_uuid(self, name: Seq<char>) -> Option<Option<u128>> {
        match self.present(name) {
            None => Some(None),
            Some(member) => match member.uuid() {
                Some(id) => Some(Some(id)),
                None => None,
            },
        }
    }

    /// The UUID in the member `name`, which must be there.
    pub open spec fn required_uuid(self, name: Seq<char>) -> Option<u128> {
        match self.present(name) {
            None => None,
            Some(member) => member.uuid(),
        }
    }

    /// The point in time in the member `name`, which may be missing.
    pub open spec fn optional_time(self, name: Seq<char>) -> Option<Option<Seq<char>>> {
        match self.present(name) {
            None => Some(None),
            Some(member) => match member.time() {
                Some(at) => Some(Some(at)),
                None => None,
            },
        }
    }

    /// The point in time in the member `name`, which must be there.
    pub open spec fn required_time(self, name: Seq<char>) -> Option<Seq<char>> {
        match self.present(name) {
            None => None,
            Some(member) => member.time(),
        }
    }

    /// The URL in the member `name`, which must be there.
    pub open spec fn required_url(self, name: Seq<char>) -> Option<Seq<char>> {
        match self.present(name) {
            None => None,
            Some(member) => member.url(),
        }
    }
}

impl Json {
    /// The UUID that a string spells.
    pub fn as_uuid(&self) -> (id: Result<Uuid, Error>)
        ensures
            agrees(id, self@.uuid()),
    {
        match self.as_text() {
            Some(text) => match Uuid::parse(text) {
                Some(id) => Ok(id),
                None => Err(Error::MalformedPayload),
            },
            None => Err(Error::MalformedPayload),
        }
    }

    /// The point in time that a string spells.
    pub fn as_time(&self) -> (at: Result<Timestamp, Error>)
        ensures
            agrees(at, self@.time()),
            at matches Ok(t) ==> crate::time::is_canonical_time(t@),
    {
        match self.as_text() {
            Some(text) => match Timestamp::parse(text) {
                Some(at) => Ok(at),
                None => Err(Error::MalformedPayload),
            },
            None => Err(Error::MalformedPayload),
        }
    }

    /// The URL that a string spells.
    pub fn as_url(&self) -> (address: Result<Url, Error>)
        ensures
            agrees(address, self@.url()),
    {
        match self.as_text() {
            Some(text) => match Url::parse(text) {
                Some(address) => Ok(address),
                None => Err(Error::MalformedPayload),
            },
            None => Err(Error::MalformedPayload),
        }
    }

    /// Reads the text in the member `name`, which may be missing.
    pub fn optional_text(&self, name: &str) -> (member: Result<Option<String>, Error>)
        ensures
            agrees(member, self@.optional_text(name@)),
    {
        match self.get_present(name) {
            None => Ok(None),
            Some(member) => match member.as_text() {
                Some(text) => Ok(Some(String::from_str(text))),
                None => Err(Error::MalformedPayload),
            },
        }
    }

    /// Reads the text in the member `name`, which must be there.
    pub fn required_text(&self, name: &str) -> (member: Result<String, Error>)
        ensures
            agrees(member, self@.required_text(name@)),
    {
        match self.get_present(name) {
            None => Err(Error::MalformedPayload),
            Some(member) => match member.as_text() {
                Some(text) => Ok(String::from_str(text)),
                None => Err(Error::MalformedPayload),
            },
        }
    }

    /// Reads the number in the member `name`, which may be missing.
    pub fn optional_unsigned(&self, name: &str) -> (member: Result<Option<u64>, Error>)
        ensures
            agrees(member, self@.optional_unsigned(name@)),
    {
        match self.get_present(name) {
            None => Ok(None),
            Some(member) => match member.as_u64() {
                Some(number) => Ok(Some(number)),
                None => Err(Error::MalformedPayload),
            },
        }
    }

    /// Reads the number in the member `name`, which must be there.
    pub fn required_unsigned(&self, name: &str) -> (member: Result<u64, Error>)
        ensures
            agrees(member, self@.required_unsigned(name@)),
    {
        match self.get_present(name) {
            None => Err(Error::MalformedPayload),
            Some(member) => match member.as_u64() {
                Some(number) => Ok(number),
                None => Err(Error::MalformedPayload),
            },
        }
    }

    /// Reads the UUID in the member `name`, which may be missing.
    pub fn optional_uuid(&self, name: &str) -> (member: Result<Option<Uuid>, Error>)
        ensures
            agrees(member, self@.optional_uuid(name@)),
    {
        match self.get_present(name) {
            None => Ok(None),
            Some(member) => match member.as_uuid() {
                Ok(id) => Ok(Some(id)),
                Err(error) => Err(error),
            },
        }
    }

    /// Reads the UUID in the member `name`, which must be there.
    pub fn required_uuid(&self, name: &str) -> (member: Result<Uuid, Error>)
        ensures
            agrees(member, self@.required_uuid(name@)),
    {
        match self.get_present(name) {
            None => Err(Error::MalformedPayload),
            Some(member) => member.as_uuid(),
        }
    }

    /// Reads the point in time in the member `name`, which may be missing.
    pub fn optional_time(&self, name: &str) -> (member: Result<Option<Timestamp>, Error>)
        ensures
            agrees(member, self@.optional_time(name@)),
            member matches Ok(Some(t)) ==> crate::time::is_canonical_time(t@),
    {
        match self.get_present(name) {
            None => Ok(None),
            Some(member) => match member.as_time() {
                Ok(at) => Ok(Some(at)),
                Err(error) => Err(error),
            },
        }
    }

    /// Reads the point in time in the member `name`, which must be there.
    pub fn required_time(&self, name: &str) -> (member: Result<Timestamp, Error>)
        ensures
            agrees(member, self@.required_time(name@)),
            member matches Ok(t) ==> crate::time::is_canonical_time(t@),
    {
        match self.get_present(name) {
            None => Err(Error::MalformedPayload),
            Some(member) => member.as_time(),
        }
    }

    /// Reads the URL in the member `name`, which must be there.
    pub fn required_url(&self, name: &str) -> (member: Result<Url, Error>)
        ensures
            agrees(member, self@.required_url(name@)),
    {
        match self.get_present(name) {
            None => Err(Error::MalformedPayload),
            Some(member) => member.as_url(),
        }
    }
}

} // verus!
