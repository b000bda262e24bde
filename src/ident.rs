//! UUIDs, read and written through the `uuid` crate.

use vstd::prelude::*;

verus! {

/// What `uuid::Uuid::parse_str` reads from a string, as a 128-bit value.
pub uninterp spec fn uuid_of(s: Seq<char>) -> Option<u128>;

/// How `uuid::Uuid` displays a 128-bit value.
pub uninterp spec fn uuid_text(v: u128) -> Seq<char>;

/// Relies on `uuid::Uuid::parse_str` (with `as_u128`): the value a string
/// denotes as a UUID, if it denotes one.
#[verifier::external_body]
fn parse_uuid(s: &str) -> (r: Option<u128>)
    ensures
        r == uuid_of(s@),
{
    match uuid::Uuid::parse_str(s) {
        Ok(u) => Some(u.as_u128()),
        Err(_) => None,
    }
}

/// Relies on `uuid::Uuid::from_u128` and its `Display`, the hyphenated
/// lower-case form, which `uuid::Uuid::parse_str` reads back to the same value.
#[verifier::external_body]
fn format_uuid(v: u128) -> (r: String)
    ensures
        r@ == uuid_text(v),
        uuid_of(r@) == Some(v),
{
    uuid::Uuid::from_u128(v).to_string()
}

/// A UUID, held as its 128-bit value.
#[derive(Clone, Copy, Debug, PartialEq, Eq, Structural)]
pub struct Uuid {
    pub value: u128,
}

impl View for Uuid {
    type V = Uuid;

    open spec fn view(&self) -> Uuid {
        *self
    }
}

impl Uuid {
    /// Reads a UUID from text; `None` when the text is not one.
    pub fn parse(s: &str) -> (r: Option<Uuid>)
        ensures
            r matches Some(u) ==> uuid_of(s@) == Some(u.value),
            r is None <==> uuid_of(s@) is None,
    {
        match parse_uuid(s) {
            Some(v) => Some(Uuid { value: v }),
            None => None,
        }
    }

    /// The hyphenated lower-case text of the UUID.
    pub fn to_text(&self) -> (r: String)
        ensures
            r@ == uuid_text(self.value),
            uuid_of(r@) == Some(self.value),
    {
        format_uuid(self.value)
    }
}

} // verus!
