//! Twelve-byte document identifiers and their 24-digit hexadecimal notation.
use vstd::prelude::*;

verus! {

/// The identifier of a stored document (twelve raw bytes).
#[derive(Debug, Clone, Copy, PartialEq, Eq)]
pub struct ObjectId {
    pub bytes: [u8; 12],
}

/// The value of a hexadecimal digit, upper or lower case.
pub open spec fn hex_value(c: char) -> Option<int> {
    if '0' <= c && c <= '9' {
        Some(c as int - '0' as int)
    } else if 'a' <= c && c <= 'f' {
        Some(c as int - 'a' as int + 10)
    } else if 'A' <= c && c <= 'F' {
        Some(c as int - 'A' as int + 10)
    } else {
        None
    }
}

/// The twelve bytes written by a 24-digit hexadecimal text, or `None` when
/// the text is not exactly 24 hexadecimal digits.
pub open spec fn hex_id(s: Seq<char>) -> Option<Seq<u8>> {
    if s.len() == 24 && (forall|i: int| 0 <= i < 24 ==> (#[trigger] hex_value(s[i])) is Some) {
        Some(
            Seq::new(
                12,
                |i: int| (hex_value(s[2 * i])->0 * 16 + hex_value(s[2 * i + 1])->0) as u8,
            ),
        )
    } else {
        None
    }
}

/// Parses an identifier with `bson`'s `ObjectId::parse_str`, which
/// hex-decodes the text and accepts exactly twelve bytes; the contract
/// states that outcome over `hex_id`.
#[verifier::external_body]
fn bson_parse_str(s: &str) -> (r: Option<[u8; 12]>)
    ensures
        match r {
            Some(b) => hex_id(s@) == Some(b@),
            None => hex_id(s@) is None,
        },
{
    match mongodb::bson::oid::ObjectId::parse_str(s) {
        Ok(o) => Some(o.bytes()),
        Err(_) => None,
    }
}

/// A fresh identifier from `bson`'s `ObjectId::new` (time, process and a
/// counter); nothing is stated of its bytes.
#[verifier::external_body]
fn bson_new_id() -> (r: [u8; 12]) {
    mongodb::bson::oid::ObjectId::new().bytes()
}

impl ObjectId {
    /// Reads an identifier from its 24-digit hexadecimal notation.
    pub fn parse_str(s: &str) -> (r: Option<ObjectId>)
        ensures
            r is Some <==> hex_id(s@) is Some,
            r matches Some(o) ==> hex_id(s@) == Some(o.bytes@),
    {
        match bson_parse_str(s) {
            Some(b) => Some(ObjectId { bytes: b }),
            None => None,
        }
    }

    /// A newly generated identifier.
    pub fn new() -> (r: ObjectId) {
        ObjectId { bytes: bson_new_id() }
    }
}

} // verus!
