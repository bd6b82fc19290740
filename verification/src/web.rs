//! Web addresses, held as canonical text.

use vstd::prelude::*;

verus! {

/// What `url::Url::parse` makes of a text: the serialization of the URL it
/// reads (`Url::as_str`), or nothing where the text is no absolute URL.
pub uninterp spec fn url_normal(text: Seq<char>) -> Option<Seq<char>>;

/// `url::Url::parse`, with the URL handed out as its serialization
/// (`Url::as_str`). The parser is a function of the text alone.
#[verifier::external_body]
fn normalize_url(text: &str) -> (normal: Option<String>)
    ensures
        match normal {
            Some(n) => url_normal(text@) == Some(n@),
            None => url_normal(text@) is None,
        },
{
    match url::Url::parse(text) {
        Ok(address) => Some(address.as_str().to_string()),
        Err(_) => None,
    }
}

/// An absolute URL. Its model is its serialization.
#[derive(Debug, PartialEq, Eq)]
pub struct Url {
    text: String,
}

impl View for Url {
    type V = Seq<char>;

    closed spec fn view(&self) -> Seq<char> {
        self.text@
    }
}

impl DeepView for Url {
    type V = Seq<char>;

    open spec fn deep_view(&self) -> Seq<char> {
        self@
    }
}

impl Url {
    /// Reads an absolute URL from its text.
    pub fn parse(text: &str) -> (parsed: Option<Url>)
        ensures
            match parsed {
                Some(address) => url_normal(text@) == Some(address@),
                None => url_normal(text@) is None,
            },
    {
        match normalize_url(text) {
            Some(text) => Some(Url { text }),
            None => None,
        }
    }

    /// The serialization.
    pub fn as_str(&self) -> (text: &str)
        ensures
            text@ == self@,
    {
        self.text.as_str()
    }
}

impl Clone for Url {
    fn clone(&self) -> (copy: Url)
        ensures
            copy@ == self@,
    {
        Url { text: self.text.clone() }
    }
}

} // verus!
