//! Footprint identifiers: UUIDs of version 4.

use vstd::prelude::*;
use crate::error::{Field, Reason, ValidationError};
use crate::json::{DecodeError, Json, JsonModel, Wire};
use crate::validate::Validate;

verus! {

/// The error with which the `uuid` crate rejects a text.
#[verifier::external_type_specification]
#[verifier::external_body]
pub struct ExUuidError(uuid::Error);

/// Why a text is no footprint identifier.
#[derive(Debug)]
pub enum UuidError {
    /// The text is no UUID at all.
    ParseError(uuid::Error),
    /// The text is a UUID of another version than 4.
    VersionError,
}

/// The identifier of a product footprint: the 128 bits of a UUID, its first
/// byte in the highest eight bits.
#[derive(Clone, Copy, Debug, PartialEq, Eq, Hash, Structural)]
pub struct PfId(pub u128);

/// The version of a UUID: the high four bits of its seventh byte.
pub open spec fn version_of(bits: u128) -> u128 {
    (bits >> 76) & 0xf
}

/// The bits of the UUID that the `uuid` crate reads from a text: `None`
/// where it rejects the text.
pub uninterp spec fn uuid_from_text(text: Seq<char>) -> Option<u128>;

/// The lower-case hexadecimal digit of a number below sixteen.
pub open spec fn hex_digit(n: u128) -> char {
    if n < 10 {
        ((n + 48) as u8) as char
    } else {
        ((n + 87) as u8) as char
    }
}

/// The number of hexadecimal digits that stand before position `i` of the
/// text of a UUID.
pub open spec fn digits_before(i: int) -> int {
    if i < 8 {
        i
    } else if i < 13 {
        i - 1
    } else if i < 18 {
        i - 2
    } else if i < 23 {
        i - 3
    } else {
        i - 4
    }
}

/// The text of a UUID: its 32 hexadecimal digits in lower case, the highest
/// first, in groups of 8, 4, 4, 4 and 12 with hyphens between them.
pub open spec fn uuid_text(bits: u128) -> Seq<char> {
    Seq::new(
        36,
        |i: int|
            if i == 8 || i == 13 || i == 18 || i == 23 {
                '-'
            } else {
                hex_digit((bits >> ((4 * (31 - digits_before(i))) as u128)) & 0xf)
            },
    )
}

/// Calls `uuid::Uuid::parse_str` and hands out the bits of the UUID it read
/// (by `as_u128`), or its error. Which texts it accepts, and with which
/// bits, is whatever that function does.
#[verifier::external_body]
fn outside_parse_str(text: &str) -> (r: Result<u128, uuid::Error>)
    ensures
        match r {
            Ok(bits) => uuid_from_text(text@) == Some(bits),
            Err(_) => uuid_from_text(text@) is None,
        },
{
    match uuid::Uuid::parse_str(text) {
        Ok(id) => Ok(id.as_u128()),
        Err(e) => Err(e),
    }
}

/// Calls `uuid::Uuid::new_v4` and hands out the bits of the random UUID. That
/// function sets the version field to 4 whatever the random bits are; nothing
/// else is claimed of the value.
#[verifier::external_body]
fn outside_new_v4() -> (r: u128)
    ensures
        version_of(r) == 4,
{
    uuid::Uuid::new_v4().as_u128()
}

/// Calls `to_string` on the `uuid::Uuid` with these bits. That crate writes
/// a UUID in its hyphenated form with lower-case digits.
#[verifier::external_body]
fn outside_uuid_to_string(bits: u128) -> (r: String)
    ensures
        r@ == uuid_text(bits),
{
    uuid::Uuid::from_u128(bits).to_string()
}

impl PfId {
    /// The identifier is a UUID of version 4.
    pub open spec fn wf(self) -> bool {
        version_of(self.0) == 4
    }

    /// The version number of the UUID.
    pub fn version(&self) -> (r: u8)
        ensures
            r == version_of(self.0),
    {
        let bits: u128 = self.0;
        let v: u128 = (bits >> 76) & 0xf;
        assert(v < 16) by (bit_vector)
            requires
                v == (bits >> 76) & 0xf,
        ;
        v as u8
    }

    pub fn is_valid(&self) -> (r: bool)
        ensures
            r == self.wf(),
    {
        self.version() == 4
    }

    /// Decides on what a UUID parser returned: its error is handed on, a UUID
    /// of another version than 4 is a version error, and a UUID of version 4
    /// is the identifier.
    pub fn from_parsed(parsed: Result<u128, uuid::Error>) -> (r: Result<PfId, UuidError>)
        ensures
            match parsed {
                Ok(bits) => if version_of(bits) == 4 {
                    r matches Ok(id) && id == PfId(bits)
                } else {
                    r matches Err(UuidError::VersionError)
                },
                Err(e) => r matches Err(UuidError::ParseError(f)) && f == e,
            },
    {
        match parsed {
            Ok(bits) => {
                let id = PfId(bits);
                if id.is_valid() {
                    Ok(id)
                } else {
                    Err(UuidError::VersionError)
                }
            },
            Err(e) => Err(UuidError::ParseError(e)),
        }
    }

    /// Reads an identifier from a text: a parse error where the text is no
    /// UUID, a version error where it is a UUID of another version than 4.
    pub fn parse(text: &str) -> (r: Result<PfId, UuidError>)
        ensures
            match uuid_from_text(text@) {
                Some(bits) => if version_of(bits) == 4 {
                    r matches Ok(id) && id == PfId(bits)
                } else {
                    r matches Err(UuidError::VersionError)
                },
                None => r matches Err(UuidError::ParseError(_)),
            },
    {
        PfId::from_parsed(outside_parse_str(text))
    }

    /// A fresh random identifier.
    pub fn new_v4() -> (r: PfId)
        ensures
            r.wf(),
    {
        PfId(outside_new_v4())
    }

    /// The identifier as text.
    pub fn to_text(&self) -> (r: String)
        ensures
            r@ == uuid_text(self.0),
    {
        outside_uuid_to_string(self.0)
    }
}

impl Validate for PfId {
    open spec fn violation(&self) -> Option<ValidationError> {
        if self.wf() {
            None
        } else {
            Some(ValidationError { field: Field::PfId, reason: Reason::OutOfRange })
        }
    }

    fn validate(&self) -> (r: Result<(), ValidationError>) {
        if self.is_valid() {
            Ok(())
        } else {
            Err(ValidationError::new(Field::PfId, Reason::OutOfRange))
        }
    }
}

impl DeepView for PfId {
    type V = PfId;

    open spec fn deep_view(&self) -> PfId {
        *self
    }
}

impl Wire for PfId {
    open spec fn to_wire(v: PfId) -> JsonModel {
        JsonModel::Text(uuid_text(v.0))
    }

    /// A text that is no UUID is malformed; a UUID of another version than 4
    /// is out of range.
    open spec fn from_wire(j: JsonModel) -> Result<PfId, DecodeError> {
        match j {
            JsonModel::Text(s) => match uuid_from_text(s) {
                Some(bits) => if version_of(bits) == 4 {
                    Ok(PfId(bits))
                } else {
                    Err(
                        DecodeError::Invalid(
                            ValidationError { field: Field::PfId, reason: Reason::OutOfRange },
                        ),
                    )
                },
                None => Err(
                    DecodeError::Invalid(
                        ValidationError { field: Field::PfId, reason: Reason::Malformed },
                    ),
                ),
            },
            _ => Err(DecodeError::WrongType),
        }
    }

    /// The identifier has version 4 and its text is read back as the same.
    open spec fn faithful(v: PfId) -> bool {
        v.wf() && uuid_from_text(uuid_text(v.0)) == Some(v.0)
    }

    proof fn lemma_round_trip(v: PfId) {
    }

    fn to_json(&self) -> (r: Json) {
        Json::Text(self.to_text())
    }

    fn from_json(j: &Json) -> (r: Result<PfId, DecodeError>) {
        match j {
            Json::Text(s) => match PfId::parse(s.as_str()) {
                Ok(id) => Ok(id),
                Err(UuidError::VersionError) => Err(
                    DecodeError::Invalid(ValidationError::new(Field::PfId, Reason::OutOfRange)),
                ),
                Err(UuidError::ParseError(_)) => Err(
                    DecodeError::Invalid(ValidationError::new(Field::PfId, Reason::Malformed)),
                ),
            },
            _ => Err(DecodeError::WrongType),
        }
    }
}

} // verus!
