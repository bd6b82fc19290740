//! Identifiers: 128-bit UUIDs and their text.

use vstd::prelude::*;
use crate::text::all_url_safe;

verus! {

/// A UUID, held as the 128-bit number that its text spells out.
#[derive(Clone, Copy, Debug, PartialEq, Eq, Structural)]
pub struct Uuid {
    pub bits: u128,
}

/// The lower-case hexadecimal digit for a number below sixteen.
pub open spec fn hex_digit(nibble: int) -> char {
    seq!['0', '1', '2', '3', '4', '5', '6', '7', '8', '9', 'a', 'b', 'c', 'd', 'e', 'f'][nibble]
}

/// The last `width` hexadecimal digits of `n`, most significant first.
pub open spec fn hex(n: nat, width: nat) -> Seq<char>
    decreases width,
{
    if width == 0 {
        Seq::empty()
    } else {
        hex(n / 16, (width - 1) as nat).push(hex_digit((n % 16) as int))
    }
}

/// The canonical text of a UUID: thirty-two lower-case hexadecimal digits in
/// groups of 8, 4, 4, 4 and 12, with a hyphen between the groups.
pub open spec fn hyphenated(bits: u128) -> Seq<char> {
    let digits = hex(bits as nat, 32);
    digits.subrange(0, 8) + seq!['-'] + digits.subrange(8, 12) + seq!['-'] + digits.subrange(12, 16)
        + seq!['-'] + digits.subrange(16, 20) + seq!['-'] + digits.subrange(20, 32)
}

/// What `uuid::Uuid::parse_str` makes of a text: the number of the UUID that
/// the text spells in one of the forms the parser takes, or nothing.
pub uninterp spec fn uuid_parse(text: Seq<char>) -> Option<u128>;

/// `uuid::Uuid::parse_str`, with the UUID handed out as its number
/// (`Uuid::as_u128`). The parser is a function of the text alone.
#[verifier::external_body]
fn parse_uuid(text: &str) -> (parsed: Option<u128>)
    ensures
        parsed == uuid_parse(text@),
{
    match uuid::Uuid::parse_str(text) {
        Ok(id) => Some(id.as_u128()),
        Err(_) => None,
    }
}

/// The hyphenated lower-case text of the UUID with the given number
/// (`Uuid::from_u128`, then `Uuid::hyphenated`). The parser reads that text
/// back as the same UUID.
#[verifier::external_body]
fn format_uuid(bits: u128) -> (text: String)
    ensures
        text@ == hyphenated(bits),
        uuid_parse(text@) == Some(bits),
{
    uuid::Uuid::from_u128(bits).hyphenated().to_string()
}

/// Whether the canonical text of a UUID is read back as that UUID.
pub open spec fn reads_back(bits: u128) -> bool {
    uuid_parse(hyphenated(bits)) == Some(bits)
}

impl View for Uuid {
    type V = u128;

    open spec fn view(&self) -> u128 {
        self.bits
    }
}

impl DeepView for Uuid {
    type V = u128;

    open spec fn deep_view(&self) -> u128 {
        self.bits
    }
}

impl Uuid {
    /// Reads a UUID from its text.
    pub fn parse(text: &str) -> (parsed: Option<Uuid>)
        ensures
            match parsed {
                Some(id) => uuid_parse(text@) == Some(id.bits),
                None => uuid_parse(text@) is None,
            },
    {
        match parse_uuid(text) {
            Some(bits) => Some(Uuid { bits }),
            None => None,
        }
    }

    /// The canonical text, which `parse` reads back as the same UUID.
    pub fn to_text(&self) -> (text: String)
        ensures
            text@ == hyphenated(self.bits),
            reads_back(self.bits),
    {
        format_uuid(self.bits)
    }
}

proof fn lemma_hex_shape(n: nat, width: nat)
    ensures
        hex(n, width).len() == width,
        all_url_safe(hex(n, width)),
    decreases width,
{
    if width > 0 {
        lemma_hex_shape(n / 16, (width - 1) as nat);
    }
}

/// The canonical text of any UUID is thirty-six characters long and made of
/// URL-safe characters only.
pub proof fn lemma_hyphenated_url_safe(bits: u128)
    ensures
        hyphenated(bits).len() == 36,
        all_url_safe(hyphenated(bits)),
{
    lemma_hex_shape(bits as nat, 32);
}

} // verus!
