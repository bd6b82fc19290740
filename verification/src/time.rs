//! Points in time, held as canonical RFC 3339 text.

use vstd::prelude::*;

verus! {

/// What `chrono` makes of a date-and-time text: the text in canonical form
/// (RFC 3339, in UTC with the suffix `Z`, with 0, 3, 6 or 9 digits of a
/// second's fraction), or nothing where `chrono` does not read the text as a
/// point in time. Two texts for one point in time have one canonical form.
pub uninterp spec fn timestamp_normal(text: Seq<char>) -> Option<Seq<char>>;

/// `str::parse::<chrono::DateTime<chrono::Utc>>`, with the point in time
/// handed out as the text that `DateTime::to_rfc3339_opts` gives for it with
/// `SecondsFormat::AutoSi` and `Z`. Both are functions of their argument
/// alone, and the parser reads the canonical text back as the same point in
/// time.
#[verifier::external_body]
fn normalize_timestamp(text: &str) -> (normal: Option<String>)
    ensures
        match normal {
            Some(n) => timestamp_normal(text@) == Some(n@) && timestamp_normal(n@) == Some(n@),
            None => timestamp_normal(text@) is None,
        },
{
    match text.parse::<chrono::DateTime<chrono::Utc>>() {
        Ok(at) => Some(at.to_rfc3339_opts(chrono::SecondsFormat::AutoSi, true)),
        Err(_) => None,
    }
}

/// A point in time. Its model is its canonical text.
#[derive(Debug, PartialEq, Eq)]
pub struct Timestamp {
    text: String,
}

impl View for Timestamp {
    type V = Seq<char>;

    closed spec fn view(&self) -> Seq<char> {
        self.text@
    }
}

impl DeepView for Timestamp {
    type V = Seq<char>;

    open spec fn deep_view(&self) -> Seq<char> {
        self@
    }
}

/// Whether a text is the canonical form of a point in time.
pub open spec fn is_canonical_time(text: Seq<char>) -> bool {
    timestamp_normal(text) == Some(text)
}

impl Timestamp {
    /// Reads a point in time from RFC 3339 text.
    pub fn parse(text: &str) -> (parsed: Option<Timestamp>)
        ensures
            match parsed {
                Some(at) => timestamp_normal(text@) == Some(at@) && is_canonical_time(at@),
                None => timestamp_normal(text@) is None,
            },
    {
        match normalize_timestamp(text) {
            Some(text) => Some(Timestamp { text }),
            None => None,
        }
    }

    /// The canonical text.
    pub fn as_str(&self) -> (text: &str)
        ensures
            text@ == self@,
    {
        self.text.as_str()
    }
}

impl Clone for Timestamp {
    fn clone(&self) -> (copy: Timestamp)
        ensures
            copy@ == self@,
    {
        Timestamp { text: self.text.clone() }
    }
}

} // verus!
