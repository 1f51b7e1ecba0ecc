//! Identifiers of sessions, profiles and recordings.

use crate::text;
use vstd::prelude::*;

verus! {

/// The thirty-two lower case hexadecimal digits of an identifier.
pub open spec fn uuid_digits(id: u128) -> Seq<char> {
    text::zero_padded(text::hex(id as nat), 32)
}

/// The text of an identifier: its digits in five groups, with hyphens between them.
pub open spec fn uuid_text(id: u128) -> Seq<char> {
    let d = uuid_digits(id);
    d.subrange(0, 8).push('-') + d.subrange(8, 12).push('-') + d.subrange(12, 16).push('-')
        + d.subrange(16, 20).push('-') + d.subrange(20, 32)
}

/// The identifier that `uuid::Uuid::parse_str` reads from a text, or what is wrong.
pub uninterp spec fn uuid_read(text: Seq<char>) -> Result<u128, Seq<char>>;

/// Whether an identifier is read from a text.
pub open spec fn reads_as(text: Seq<char>, id: u128) -> bool {
    uuid_read(text) matches Ok(back) && back == id
}

/// `uuid::Uuid::from_u128` and its `Display`: the digits in hyphenated groups, from which
/// `uuid::Uuid::parse_str` reads the identifier back.
#[verifier::external_body]
fn write_uuid(id: u128) -> (r: String)
    ensures
        r@ == uuid_text(id),
        reads_as(r@, id),
{
    uuid::Uuid::from_u128(id).to_string()
}

/// `uuid::Uuid::parse_str`: the name stands for the outcome.
#[verifier::external_body]
fn read_uuid(text: &str) -> (r: Result<u128, String>)
    ensures
        match r {
            Ok(id) => uuid_read(text@) matches Ok(read) && read == id,
            Err(e) => uuid_read(text@) matches Err(m) && m == e@,
        },
{
    uuid::Uuid::parse_str(text).map(|id| id.as_u128()).map_err(|error| error.to_string())
}

/// Whether an identifier is marked as a random one: its version is four, and its variant is
/// that of all common identifiers.
pub open spec fn marked_random(id: u128) -> bool {
    (id / 0x1000_0000_0000_0000_0000) % 16 == 4 && (id / 0x4000_0000_0000_0000) % 4 == 2
}

/// `uuid::Uuid::new_v4`: an identifier that is random but for the digit and the two bits that
/// mark it as such.
#[verifier::external_body]
fn random_uuid() -> (r: u128)
    ensures
        marked_random(r),
{
    uuid::Uuid::new_v4().as_u128()
}

/// The identifier of a session.
#[derive(Debug, Clone, Copy, PartialEq, Eq, Structural)]
pub struct SessionId(pub u128);

impl SessionId {
    /// A fresh random identifier. That it differs from all others is likely, not certain.
    pub fn new() -> (r: SessionId)
        ensures
            marked_random(r.0),
    {
        SessionId(random_uuid())
    }

    /// The text of the identifier.
    pub fn to_text(&self) -> (r: String)
        ensures
            r@ == uuid_text(self.0),
            reads_as(r@, self.0),
    {
        write_uuid(self.0)
    }

    /// Reads an identifier from its text.
    pub fn parse(text: &str) -> (r: Result<SessionId, String>)
        ensures
            match r {
                Ok(id) => uuid_read(text@) matches Ok(read) && read == id.0,
                Err(e) => uuid_read(text@) matches Err(m) && m == e@,
            },
    {
        match read_uuid(text) {
            Ok(id) => Ok(SessionId(id)),
            Err(error) => Err(error),
        }
    }
}

} // verus!
