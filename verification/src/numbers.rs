//! Constrained numbers: decimals with a prescribed sign, and binary
//! floating-point quantities with a prescribed range.
//!
//! A floating-point quantity is held as the bit pattern of its IEEE 754
//! encoding. Among the patterns with a clear sign bit, a greater number has a
//! greater pattern, and the patterns of the infinities and of the
//! not-a-numbers lie above those of all finite numbers; so a range that
//! starts at zero or above is a range of bit patterns.

use vstd::prelude::*;
use crate::decimal::{decimal_text, Decimal};
use crate::json::{DecodeError, Json, JsonModel, Wire};
use crate::error::{Field, Reason, ValidationError};
use crate::text::{
    is_non_positive_decimal, is_nonzero_unsigned_decimal, is_signed_decimal, is_unsigned_decimal,
    matches_non_positive_decimal, matches_nonzero_unsigned_decimal, matches_signed_decimal,
    matches_unsigned_decimal,
};
use crate::validate::Validate;

verus! {

/// A decimal of either sign.
#[derive(Clone, Copy, Debug, PartialEq, Eq, Hash, Structural)]
pub struct WrappedDecimal(pub Decimal);

/// A decimal that is zero or more.
#[derive(Clone, Copy, Debug, PartialEq, Eq, Hash, Structural)]
pub struct PositiveDecimal(pub Decimal);

/// A decimal that is zero or less.
#[derive(Clone, Copy, Debug, PartialEq, Eq, Hash, Structural)]
pub struct NegativeDecimal(pub Decimal);

/// A decimal that is more than zero.
#[derive(Clone, Copy, Debug, PartialEq, Eq, Hash, Structural)]
pub struct StrictlyPositiveDecimal(pub Decimal);

/// A share in percent, from zero to one hundred: the bits of a 64-bit
/// floating-point number.
#[derive(Clone, Copy, Debug, PartialEq, Eq, Hash, Structural)]
pub struct Percent {
    pub bits: u64,
}

/// The share of exempted emissions in percent, from zero to five: the bits
/// of a 64-bit floating-point number.
#[derive(Clone, Copy, Debug, PartialEq, Eq, Hash, Structural)]
pub struct ExemptedEmissionsPercent {
    pub bits: u64,
}

/// A data quality rating from one to three: the bits of a 32-bit
/// floating-point number.
#[derive(Clone, Copy, Debug, PartialEq, Eq, Hash, Structural)]
pub struct FloatBetween1and3 {
    pub bits: u32,
}

/// The 64-bit pattern of one hundred.
pub const HUNDRED_BITS: u64 = 0x4059_0000_0000_0000;

/// The 64-bit pattern of five.
pub const FIVE_BITS: u64 = 0x4014_0000_0000_0000;

/// The 64-bit pattern of negative zero, which equals zero.
pub const NEGATIVE_ZERO_BITS: u64 = 0x8000_0000_0000_0000;

/// The 32-bit pattern of one.
pub const ONE_BITS_32: u32 = 0x3F80_0000;

/// The 32-bit pattern of three.
pub const THREE_BITS_32: u32 = 0x4040_0000;

/// The pattern stands for a number from zero to the number whose pattern is
/// `upper`.
pub open spec fn in_range_from_zero(bits: u64, upper: u64) -> bool {
    bits <= upper || bits == NEGATIVE_ZERO_BITS
}

/// The error of a decimal that is malformed or has the wrong sign for `field`.
pub open spec fn out_of_range(field: Field) -> ValidationError {
    ValidationError { field, reason: Reason::OutOfRange }
}

/// The error of a text that does not follow the pattern of `field`.
pub open spec fn malformed(field: Field) -> ValidationError {
    ValidationError { field, reason: Reason::Malformed }
}

impl WrappedDecimal {
    pub open spec fn wf(&self) -> bool {
        self.0.wf()
    }

    /// What a text stands for: a pattern error where it is no decimal with
    /// an optional minus sign, a range error where the decimal cannot be
    /// represented.
    pub open spec fn from_text(text: Seq<char>) -> Result<WrappedDecimal, ValidationError> {
        if !is_signed_decimal(text) {
            Err(malformed(Field::Decimal))
        } else {
            match Decimal::from_text(text) {
                Some(d) => Ok(WrappedDecimal(d)),
                None => Err(out_of_range(Field::Decimal)),
            }
        }
    }

    pub fn is_valid(&self) -> (r: bool)
        ensures
            r == self.wf(),
    {
        self.0.is_valid()
    }

    /// The decimal, or an error where it is malformed.
    pub fn new(d: Decimal) -> (r: Result<WrappedDecimal, ValidationError>)
        ensures
            r == match WrappedDecimal(d).violation() {
                None => Ok::<WrappedDecimal, ValidationError>(WrappedDecimal(d)),
                Some(e) => Err(e),
            },
    {
        let v = WrappedDecimal(d);
        match v.validate() {
            Ok(()) => Ok(v),
            Err(e) => Err(e),
        }
    }

    /// Reads a decimal from its text on the wire.
    pub fn parse(text: &str) -> (r: Result<WrappedDecimal, ValidationError>)
        ensures
            r == WrappedDecimal::from_text(text@),
            r matches Ok(v) ==> v.wf(),
    {
        if !matches_signed_decimal(text) {
            return Err(ValidationError::new(Field::Decimal, Reason::Malformed));
        }
        match Decimal::parse(text) {
            Some(d) => Ok(WrappedDecimal(d)),
            None => Err(ValidationError::new(Field::Decimal, Reason::OutOfRange)),
        }
    }
}

impl Validate for WrappedDecimal {
    open spec fn violation(&self) -> Option<ValidationError> {
        if self.0.wf() {
            None
        } else {
            Some(out_of_range(Field::Decimal))
        }
    }

    fn validate(&self) -> (r: Result<(), ValidationError>)
        ensures
            r is Ok <==> self.wf(),
    {
        if self.0.is_valid() {
            Ok(())
        } else {
            Err(ValidationError::new(Field::Decimal, Reason::OutOfRange))
        }
    }
}

impl PositiveDecimal {
    pub open spec fn wf(&self) -> bool {
        self.0.wf() && self.0.mantissa >= 0
    }

    /// What a text stands for: a pattern error where it is no unsigned
    /// decimal, a range error where the decimal cannot be represented.
    pub open spec fn from_text(text: Seq<char>) -> Result<PositiveDecimal, ValidationError> {
        if !is_unsigned_decimal(text) {
            Err(malformed(Field::PositiveDecimal))
        } else {
            match Decimal::from_text(text) {
                Some(d) => if d.mantissa >= 0 {
                    Ok(PositiveDecimal(d))
                } else {
                    Err(out_of_range(Field::PositiveDecimal))
                },
                None => Err(out_of_range(Field::PositiveDecimal)),
            }
        }
    }

    pub fn is_valid(&self) -> (r: bool)
        ensures
            r == self.wf(),
    {
        self.0.is_valid() && self.0.mantissa >= 0
    }

    /// The decimal, or an error where it is malformed or below zero.
    pub fn new(d: Decimal) -> (r: Result<PositiveDecimal, ValidationError>)
        ensures
            r == match PositiveDecimal(d).violation() {
                None => Ok::<PositiveDecimal, ValidationError>(PositiveDecimal(d)),
                Some(e) => Err(e),
            },
    {
        let v = PositiveDecimal(d);
        match v.validate() {
            Ok(()) => Ok(v),
            Err(e) => Err(e),
        }
    }

    /// Reads a decimal that is zero or more from its text on the wire.
    pub fn parse(text: &str) -> (r: Result<PositiveDecimal, ValidationError>)
        ensures
            r == PositiveDecimal::from_text(text@),
            r matches Ok(v) ==> v.wf(),
    {
        if !matches_unsigned_decimal(text) {
            return Err(ValidationError::new(Field::PositiveDecimal, Reason::Malformed));
        }
        match Decimal::parse(text) {
            Some(d) => if d.mantissa >= 0 {
                Ok(PositiveDecimal(d))
            } else {
                Err(ValidationError::new(Field::PositiveDecimal, Reason::OutOfRange))
            },
            None => Err(ValidationError::new(Field::PositiveDecimal, Reason::OutOfRange)),
        }
    }
}

impl Validate for PositiveDecimal {
    open spec fn violation(&self) -> Option<ValidationError> {
        if self.wf() {
            None
        } else {
            Some(out_of_range(Field::PositiveDecimal))
        }
    }

    fn validate(&self) -> (r: Result<(), ValidationError>)
        ensures
            r is Ok <==> self.wf(),
    {
        if self.is_valid() {
            Ok(())
        } else {
            Err(ValidationError::new(Field::PositiveDecimal, Reason::OutOfRange))
        }
    }
}

impl NegativeDecimal {
    pub open spec fn wf(&self) -> bool {
        self.0.wf() && self.0.mantissa <= 0
    }

    /// What a text stands for: a pattern error where it is neither `0` nor a
    /// minus sign with an unsigned decimal, a range error where the decimal
    /// cannot be represented.
    pub open spec fn from_text(text: Seq<char>) -> Result<NegativeDecimal, ValidationError> {
        if !is_non_positive_decimal(text) {
            Err(malformed(Field::NegativeDecimal))
        } else {
            match Decimal::from_text(text) {
                Some(d) => if d.mantissa <= 0 {
                    Ok(NegativeDecimal(d))
                } else {
                    Err(out_of_range(Field::NegativeDecimal))
                },
                None => Err(out_of_range(Field::NegativeDecimal)),
            }
        }
    }

    pub fn is_valid(&self) -> (r: bool)
        ensures
            r == self.wf(),
    {
        self.0.is_valid() && self.0.mantissa <= 0
    }

    /// The decimal, or an error where it is malformed or above zero.
    pub fn new(d: Decimal) -> (r: Result<NegativeDecimal, ValidationError>)
        ensures
            r == match NegativeDecimal(d).violation() {
                None => Ok::<NegativeDecimal, ValidationError>(NegativeDecimal(d)),
                Some(e) => Err(e),
            },
    {
        let v = NegativeDecimal(d);
        match v.validate() {
            Ok(()) => Ok(v),
            Err(e) => Err(e),
        }
    }

    /// Reads a decimal that is zero or less from its text on the wire.
    pub fn parse(text: &str) -> (r: Result<NegativeDecimal, ValidationError>)
        ensures
            r == NegativeDecimal::from_text(text@),
            r matches Ok(v) ==> v.wf(),
    {
        if !matches_non_positive_decimal(text) {
            return Err(ValidationError::new(Field::NegativeDecimal, Reason::Malformed));
        }
        match Decimal::parse(text) {
            Some(d) => if d.mantissa <= 0 {
                Ok(NegativeDecimal(d))
            } else {
                Err(ValidationError::new(Field::NegativeDecimal, Reason::OutOfRange))
            },
            None => Err(ValidationError::new(Field::NegativeDecimal, Reason::OutOfRange)),
        }
    }
}

impl Validate for NegativeDecimal {
    open spec fn violation(&self) -> Option<ValidationError> {
        if self.wf() {
            None
        } else {
            Some(out_of_range(Field::NegativeDecimal))
        }
    }

    fn validate(&self) -> (r: Result<(), ValidationError>)
        ensures
            r is Ok <==> self.wf(),
    {
        if self.is_valid() {
            Ok(())
        } else {
            Err(ValidationError::new(Field::NegativeDecimal, Reason::OutOfRange))
        }
    }
}

impl StrictlyPositiveDecimal {
    pub open spec fn wf(&self) -> bool {
        self.0.wf() && self.0.mantissa > 0
    }

    /// What a text stands for: a pattern error where it is no unsigned
    /// decimal with a digit other than zero, a range error where the decimal
    /// cannot be represented or is not more than zero.
    pub open spec fn from_text(text: Seq<char>) -> Result<
        StrictlyPositiveDecimal,
        ValidationError,
    > {
        if !is_nonzero_unsigned_decimal(text) {
            Err(malformed(Field::StrictlyPositiveDecimal))
        } else {
            match Decimal::from_text(text) {
                Some(d) => if d.mantissa > 0 {
                    Ok(StrictlyPositiveDecimal(d))
                } else {
                    Err(out_of_range(Field::StrictlyPositiveDecimal))
                },
                None => Err(out_of_range(Field::StrictlyPositiveDecimal)),
            }
        }
    }

    pub fn is_valid(&self) -> (r: bool)
        ensures
            r == self.wf(),
    {
        self.0.is_valid() && self.0.mantissa > 0
    }

    /// The decimal, or an error where it is malformed or not more than zero.
    pub fn new(d: Decimal) -> (r: Result<StrictlyPositiveDecimal, ValidationError>)
        ensures
            r == match StrictlyPositiveDecimal(d).violation() {
                None => Ok::<StrictlyPositiveDecimal, ValidationError>(
                    StrictlyPositiveDecimal(d),
                ),
                Some(e) => Err(e),
            },
    {
        let v = StrictlyPositiveDecimal(d);
        match v.validate() {
            Ok(()) => Ok(v),
            Err(e) => Err(e),
        }
    }

    /// Reads a decimal that is more than zero from its text on the wire.
    pub fn parse(text: &str) -> (r: Result<StrictlyPositiveDecimal, ValidationError>)
        ensures
            r == StrictlyPositiveDecimal::from_text(text@),
            r matches Ok(v) ==> v.wf(),
    {
        if !matches_nonzero_unsigned_decimal(text) {
            return Err(ValidationError::new(Field::StrictlyPositiveDecimal, Reason::Malformed));
        }
        match Decimal::parse(text) {
            Some(d) => if d.mantissa > 0 {
                Ok(StrictlyPositiveDecimal(d))
            } else {
                Err(ValidationError::new(Field::StrictlyPositiveDecimal, Reason::OutOfRange))
            },
            None => Err(ValidationError::new(Field::StrictlyPositiveDecimal, Reason::OutOfRange)),
        }
    }
}

impl Validate for StrictlyPositiveDecimal {
    open spec fn violation(&self) -> Option<ValidationError> {
        if self.wf() {
            None
        } else {
            Some(out_of_range(Field::StrictlyPositiveDecimal))
        }
    }

    fn validate(&self) -> (r: Result<(), ValidationError>)
        ensures
            r is Ok <==> self.wf(),
    {
        if self.is_valid() {
            Ok(())
        } else {
            Err(ValidationError::new(Field::StrictlyPositiveDecimal, Reason::OutOfRange))
        }
    }
}

impl Percent {
    pub open spec fn wf(&self) -> bool {
        in_range_from_zero(self.bits, HUNDRED_BITS)
    }

    pub fn is_valid(&self) -> (r: bool)
        ensures
            r == self.wf(),
    {
        self.bits <= HUNDRED_BITS || self.bits == NEGATIVE_ZERO_BITS
    }

    /// The number with these bits as a percentage, or an error where it is
    /// not from zero to one hundred.
    pub fn from_bits(bits: u64) -> (r: Result<Percent, ValidationError>)
        ensures
            r == match (Percent { bits }).violation() {
                None => Ok::<Percent, ValidationError>(Percent { bits }),
                Some(e) => Err(e),
            },
    {
        let v = Percent { bits };
        match v.validate() {
            Ok(()) => Ok(v),
            Err(e) => Err(e),
        }
    }
}

impl Validate for Percent {
    open spec fn violation(&self) -> Option<ValidationError> {
        if self.wf() {
            None
        } else {
            Some(out_of_range(Field::Percent))
        }
    }

    fn validate(&self) -> (r: Result<(), ValidationError>)
        ensures
            r is Ok <==> self.wf(),
    {
        if self.is_valid() {
            Ok(())
        } else {
            Err(ValidationError::new(Field::Percent, Reason::OutOfRange))
        }
    }
}

impl ExemptedEmissionsPercent {
    pub open spec fn wf(&self) -> bool {
        in_range_from_zero(self.bits, FIVE_BITS)
    }

    pub fn is_valid(&self) -> (r: bool)
        ensures
            r == self.wf(),
    {
        self.bits <= FIVE_BITS || self.bits == NEGATIVE_ZERO_BITS
    }

    /// No exempted emissions: zero percent.
    pub fn zero() -> (r: ExemptedEmissionsPercent)
        ensures
            r.bits == 0,
            r.wf(),
    {
        ExemptedEmissionsPercent { bits: 0 }
    }

    /// The number with these bits as a share of exempted emissions, or an
    /// error where it is not from zero to five.
    pub fn from_bits(bits: u64) -> (r: Result<ExemptedEmissionsPercent, ValidationError>)
        ensures
            r == match (ExemptedEmissionsPercent { bits }).violation() {
                None => Ok::<ExemptedEmissionsPercent, ValidationError>(
                    ExemptedEmissionsPercent { bits },
                ),
                Some(e) => Err(e),
            },
    {
        let v = ExemptedEmissionsPercent { bits };
        match v.validate() {
            Ok(()) => Ok(v),
            Err(e) => Err(e),
        }
    }
}

impl Validate for ExemptedEmissionsPercent {
    open spec fn violation(&self) -> Option<ValidationError> {
        if self.wf() {
            None
        } else {
            Some(out_of_range(Field::ExemptedEmissionsPercent))
        }
    }

    fn validate(&self) -> (r: Result<(), ValidationError>)
        ensures
            r is Ok <==> self.wf(),
    {
        if self.is_valid() {
            Ok(())
        } else {
            Err(ValidationError::new(Field::ExemptedEmissionsPercent, Reason::OutOfRange))
        }
    }
}

impl FloatBetween1and3 {
    pub open spec fn wf(&self) -> bool {
        ONE_BITS_32 <= self.bits <= THREE_BITS_32
    }

    pub fn is_valid(&self) -> (r: bool)
        ensures
            r == self.wf(),
    {
        ONE_BITS_32 <= self.bits && self.bits <= THREE_BITS_32
    }

    /// The number with these bits as a rating, or an error where it is not
    /// from one to three.
    pub fn from_bits(bits: u32) -> (r: Result<FloatBetween1and3, ValidationError>)
        ensures
            r == match (FloatBetween1and3 { bits }).violation() {
                None => Ok::<FloatBetween1and3, ValidationError>(FloatBetween1and3 { bits }),
                Some(e) => Err(e),
            },
    {
        let v = FloatBetween1and3 { bits };
        match v.validate() {
            Ok(()) => Ok(v),
            Err(e) => Err(e),
        }
    }
}

impl Validate for FloatBetween1and3 {
    open spec fn violation(&self) -> Option<ValidationError> {
        if self.wf() {
            None
        } else {
            Some(out_of_range(Field::FloatBetween1And3))
        }
    }

    fn validate(&self) -> (r: Result<(), ValidationError>)
        ensures
            r is Ok <==> self.wf(),
    {
        if self.is_valid() {
            Ok(())
        } else {
            Err(ValidationError::new(Field::FloatBetween1And3, Reason::OutOfRange))
        }
    }
}

/// Two to the power 52: the weight of the lowest bit of the exponent in a
/// 64-bit floating-point number.
pub const EXPONENT_UNIT: u64 = 4_503_599_627_370_496;

/// The exponent of the greatest power of two that is at most `n`, for `n`
/// from 1 to 127.
pub open spec fn leading_exponent(n: nat) -> nat {
    if n < 2 {
        0
    } else if n < 4 {
        1
    } else if n < 8 {
        2
    } else if n < 16 {
        3
    } else if n < 32 {
        4
    } else if n < 64 {
        5
    } else {
        6
    }
}

/// The greatest power of two that is at most `n`, for `n` from 1 to 127.
pub open spec fn leading_power(n: nat) -> nat {
    if n < 2 {
        1
    } else if n < 4 {
        2
    } else if n < 8 {
        4
    } else if n < 16 {
        8
    } else if n < 32 {
        16
    } else if n < 64 {
        32
    } else {
        64
    }
}

/// The bits of the 64-bit floating-point number that equals the whole number
/// `n`, for `n` below 128: zero for zero; else the exponent of the leading
/// power of two, biased by 1023, above the 52 bits of what `n` exceeds that
/// power by, in units of the power.
pub open spec fn whole_bits(n: nat) -> u64 {
    if n == 0 {
        0
    } else {
        ((1023 + leading_exponent(n)) * EXPONENT_UNIT + (n - leading_power(n)) * (EXPONENT_UNIT
            / leading_power(n) as u64)) as u64
    }
}

/// The bits of the 32-bit floating-point number that equals one, two or three.
pub open spec fn whole_bits_32(n: nat) -> u32 {
    if n == 1 {
        ONE_BITS_32
    } else if n == 2 {
        0x4000_0000
    } else {
        THREE_BITS_32
    }
}

/// The bits of the 64-bit floating-point number that equals a whole number
/// below 128.
pub fn whole_number_bits(n: u8) -> (r: u64)
    requires
        n < 128,
    ensures
        r == whole_bits(n as nat),
{
    if n == 0 {
        return 0;
    }
    let (exponent, power): (u64, u64) = if n < 2 {
        (0, 1)
    } else if n < 4 {
        (1, 2)
    } else if n < 8 {
        (2, 4)
    } else if n < 16 {
        (3, 8)
    } else if n < 32 {
        (4, 16)
    } else if n < 64 {
        (5, 32)
    } else {
        (6, 64)
    };
    let unit: u64 = EXPONENT_UNIT / power;
    let excess: u64 = n as u64 - power;
    assert(excess * unit <= 64 * EXPONENT_UNIT) by (nonlinear_arith)
        requires
            excess <= 64,
            unit <= EXPONENT_UNIT,
    ;
    (1023 + exponent) * EXPONENT_UNIT + excess * unit
}

/// The bits of the 32-bit floating-point number that equals one, two or three.
pub fn whole_number_bits_32(n: u8) -> (r: u32)
    ensures
        r == whole_bits_32(n as nat),
{
    if n == 1 {
        ONE_BITS_32
    } else if n == 2 {
        0x4000_0000
    } else {
        THREE_BITS_32
    }
}

impl DeepView for WrappedDecimal {
    type V = WrappedDecimal;

    open spec fn deep_view(&self) -> WrappedDecimal {
        *self
    }
}

impl Wire for WrappedDecimal {
    /// A decimal stands on the wire as its text; a malformed one has no
    /// text and is written as null.
    open spec fn to_wire(v: WrappedDecimal) -> JsonModel {
        if v.0.wf() {
            JsonModel::Text(decimal_text(v.0))
        } else {
            JsonModel::Null
        }
    }

    open spec fn from_wire(j: JsonModel) -> Result<WrappedDecimal, DecodeError> {
        match j {
            JsonModel::Text(s) => match WrappedDecimal::from_text(s) {
                Ok(v) => Ok(v),
                Err(e) => Err(DecodeError::Invalid(e)),
            },
            _ => Err(DecodeError::WrongType),
        }
    }

    /// The decimal is well formed and its text is read back as the same.
    open spec fn faithful(v: WrappedDecimal) -> bool {
        v.0.wf() && WrappedDecimal::from_text(decimal_text(v.0)) == Ok::<WrappedDecimal, ValidationError>(v)
    }

    proof fn lemma_round_trip(v: WrappedDecimal) {
    }

    fn to_json(&self) -> (r: Json) {
        if self.0.is_valid() {
            Json::Text(self.0.to_text())
        } else {
            Json::Null
        }
    }

    fn from_json(j: &Json) -> (r: Result<WrappedDecimal, DecodeError>) {
        match j {
            Json::Text(s) => match WrappedDecimal::parse(s.as_str()) {
                Ok(v) => Ok(v),
                Err(e) => Err(DecodeError::Invalid(e)),
            },
            _ => Err(DecodeError::WrongType),
        }
    }
}

impl DeepView for PositiveDecimal {
    type V = PositiveDecimal;

    open spec fn deep_view(&self) -> PositiveDecimal {
        *self
    }
}

impl Wire for PositiveDecimal {
    /// A decimal stands on the wire as its text; a malformed one has no
    /// text and is written as null.
    open spec fn to_wire(v: PositiveDecimal) -> JsonModel {
        if v.0.wf() {
            JsonModel::Text(decimal_text(v.0))
        } else {
            JsonModel::Null
        }
    }

    open spec fn from_wire(j: JsonModel) -> Result<PositiveDecimal, DecodeError> {
        match j {
            JsonModel::Text(s) => match PositiveDecimal::from_text(s) {
                Ok(v) => Ok(v),
                Err(e) => Err(DecodeError::Invalid(e)),
            },
            _ => Err(DecodeError::WrongType),
        }
    }

    /// The decimal is well formed and its text is read back as the same.
    open spec fn faithful(v: PositiveDecimal) -> bool {
        v.0.wf() && PositiveDecimal::from_text(decimal_text(v.0)) == Ok::<PositiveDecimal, ValidationError>(v)
    }

    proof fn lemma_round_trip(v: PositiveDecimal) {
    }

    fn to_json(&self) -> (r: Json) {
        if self.0.is_valid() {
            Json::Text(self.0.to_text())
        } else {
            Json::Null
        }
    }

    fn from_json(j: &Json) -> (r: Result<PositiveDecimal, DecodeError>) {
        match j {
            Json::Text(s) => match PositiveDecimal::parse(s.as_str()) {
                Ok(v) => Ok(v),
                Err(e) => Err(DecodeError::Invalid(e)),
            },
            _ => Err(DecodeError::WrongType),
        }
    }
}

impl DeepView for NegativeDecimal {
    type V = NegativeDecimal;

    open spec fn deep_view(&self) -> NegativeDecimal {
        *self
    }
}

impl Wire for NegativeDecimal {
    /// A decimal stands on the wire as its text; a malformed one has no
    /// text and is written as null.
    open spec fn to_wire(v: NegativeDecimal) -> JsonModel {
        if v.0.wf() {
            JsonModel::Text(decimal_text(v.0))
        } else {
            JsonModel::Null
        }
    }

    open spec fn from_wire(j: JsonModel) -> Result<NegativeDecimal, DecodeError> {
        match j {
            JsonModel::Text(s) => match NegativeDecimal::from_text(s) {
                Ok(v) => Ok(v),
                Err(e) => Err(DecodeError::Invalid(e)),
            },
            _ => Err(DecodeError::WrongType),
        }
    }

    /// The decimal is well formed and its text is read back as the same.
    open spec fn faithful(v: NegativeDecimal) -> bool {
        v.0.wf() && NegativeDecimal::from_text(decimal_text(v.0)) == Ok::<NegativeDecimal, ValidationError>(v)
    }

    proof fn lemma_round_trip(v: NegativeDecimal) {
    }

    fn to_json(&self) -> (r: Json) {
        if self.0.is_valid() {
            Json::Text(self.0.to_text())
        } else {
            Json::Null
        }
    }

    fn from_json(j: &Json) -> (r: Result<NegativeDecimal, DecodeError>) {
        match j {
            Json::Text(s) => match NegativeDecimal::parse(s.as_str()) {
                Ok(v) => Ok(v),
                Err(e) => Err(DecodeError::Invalid(e)),
            },
            _ => Err(DecodeError::WrongType),
        }
    }
}

impl DeepView for StrictlyPositiveDecimal {
    type V = StrictlyPositiveDecimal;

    open spec fn deep_view(&self) -> StrictlyPositiveDecimal {
        *self
    }
}

impl Wire for StrictlyPositiveDecimal {
    /// A decimal stands on the wire as its text; a malformed one has no
    /// text and is written as null.
    open spec fn to_wire(v: StrictlyPositiveDecimal) -> JsonModel {
        if v.0.wf() {
            JsonModel::Text(decimal_text(v.0))
        } else {
            JsonModel::Null
        }
    }

    open spec fn from_wire(j: JsonModel) -> Result<StrictlyPositiveDecimal, DecodeError> {
        match j {
            JsonModel::Text(s) => match StrictlyPositiveDecimal::from_text(s) {
                Ok(v) => Ok(v),
                Err(e) => Err(DecodeError::Invalid(e)),
            },
            _ => Err(DecodeError::WrongType),
        }
    }

    /// The decimal is well formed and its text is read back as the same.
    open spec fn faithful(v: StrictlyPositiveDecimal) -> bool {
        v.0.wf() && StrictlyPositiveDecimal::from_text(decimal_text(v.0)) == Ok::<StrictlyPositiveDecimal, ValidationError>(v)
    }

    proof fn lemma_round_trip(v: StrictlyPositiveDecimal) {
    }

    fn to_json(&self) -> (r: Json) {
        if self.0.is_valid() {
            Json::Text(self.0.to_text())
        } else {
            Json::Null
        }
    }

    fn from_json(j: &Json) -> (r: Result<StrictlyPositiveDecimal, DecodeError>) {
        match j {
            Json::Text(s) => match StrictlyPositiveDecimal::parse(s.as_str()) {
                Ok(v) => Ok(v),
                Err(e) => Err(DecodeError::Invalid(e)),
            },
            _ => Err(DecodeError::WrongType),
        }
    }
}

impl DeepView for Percent {
    type V = Percent;

    open spec fn deep_view(&self) -> Percent {
        *self
    }
}

impl Wire for Percent {
    open spec fn to_wire(v: Percent) -> JsonModel {
        JsonModel::Float(v.bits as u64)
    }

    /// A number with a fraction or an exponent is taken by its bits; a whole
    /// number from 0 to 100 is taken as the floating-point number equal to it.
    open spec fn from_wire(j: JsonModel) -> Result<Percent, DecodeError> {
        match j {
            JsonModel::Float(bits) => if bits <= u64::MAX && (Percent { bits: bits as u64 }).wf() {
                Ok(Percent { bits: bits as u64 })
            } else {
                Err(DecodeError::Invalid(out_of_range(Field::Percent)))
            },
            JsonModel::Integer(n) => if 0 <= n <= 100 {
                Ok(Percent { bits: whole_bits(n as nat) })
            } else {
                Err(DecodeError::Invalid(out_of_range(Field::Percent)))
            },
            _ => Err(DecodeError::WrongType),
        }
    }

    open spec fn faithful(v: Percent) -> bool {
        v.wf()
    }

    proof fn lemma_round_trip(v: Percent) {
    }

    fn to_json(&self) -> (r: Json) {
        Json::Float { bits: self.bits as u64 }
    }

    fn from_json(j: &Json) -> (r: Result<Percent, DecodeError>) {
        match j {
            Json::Float { bits } => {
                if *bits <= u64::MAX as u64 {
                    let v = Percent { bits: *bits as u64 };
                    if v.is_valid() {
                        return Ok(v);
                    }
                }
                Err(
                    DecodeError::Invalid(
                        ValidationError::new(Field::Percent, Reason::OutOfRange),
                    ),
                )
            },
            Json::Integer(n) => if 0 <= *n && *n <= 100 {
                Ok(Percent { bits: whole_number_bits(*n as u8) })
            } else {
                Err(
                    DecodeError::Invalid(
                        ValidationError::new(Field::Percent, Reason::OutOfRange),
                    ),
                )
            },
            _ => Err(DecodeError::WrongType),
        }
    }
}

impl DeepView for ExemptedEmissionsPercent {
    type V = ExemptedEmissionsPercent;

    open spec fn deep_view(&self) -> ExemptedEmissionsPercent {
        *self
    }
}

impl Wire for ExemptedEmissionsPercent {
    open spec fn to_wire(v: ExemptedEmissionsPercent) -> JsonModel {
        JsonModel::Float(v.bits as u64)
    }

    /// A number with a fraction or an exponent is taken by its bits; a whole
    /// number from 0 to 5 is taken as the floating-point number equal to it.
    open spec fn from_wire(j: JsonModel) -> Result<ExemptedEmissionsPercent, DecodeError> {
        match j {
            JsonModel::Float(bits) => if bits <= u64::MAX && (ExemptedEmissionsPercent { bits: bits as u64 }).wf() {
                Ok(ExemptedEmissionsPercent { bits: bits as u64 })
            } else {
                Err(DecodeError::Invalid(out_of_range(Field::ExemptedEmissionsPercent)))
            },
            JsonModel::Integer(n) => if 0 <= n <= 5 {
                Ok(ExemptedEmissionsPercent { bits: whole_bits(n as nat) })
            } else {
                Err(DecodeError::Invalid(out_of_range(Field::ExemptedEmissionsPercent)))
            },
            _ => Err(DecodeError::WrongType),
        }
    }

    open spec fn faithful(v: ExemptedEmissionsPercent) -> bool {
        v.wf()
    }

    proof fn lemma_round_trip(v: ExemptedEmissionsPercent) {
    }

    fn to_json(&self) -> (r: Json) {
        Json::Float { bits: self.bits as u64 }
    }

    fn from_json(j: &Json) -> (r: Result<ExemptedEmissionsPercent, DecodeError>) {
        match j {
            Json::Float { bits } => {
                if *bits <= u64::MAX as u64 {
                    let v = ExemptedEmissionsPercent { bits: *bits as u64 };
                    if v.is_valid() {
                        return Ok(v);
                    }
                }
                Err(
                    DecodeError::Invalid(
                        ValidationError::new(Field::ExemptedEmissionsPercent, Reason::OutOfRange),
                    ),
                )
            },
            Json::Integer(n) => if 0 <= *n && *n <= 5 {
                Ok(ExemptedEmissionsPercent { bits: whole_number_bits(*n as u8) })
            } else {
                Err(
                    DecodeError::Invalid(
                        ValidationError::new(Field::ExemptedEmissionsPercent, Reason::OutOfRange),
                    ),
                )
            },
            _ => Err(DecodeError::WrongType),
        }
    }
}

impl DeepView for FloatBetween1and3 {
    type V = FloatBetween1and3;

    open spec fn deep_view(&self) -> FloatBetween1and3 {
        *self
    }
}

/// Two to the power 23: the weight of the lowest bit of the exponent in a
/// 32-bit floating-point number.
pub const EXPONENT_UNIT_32: u32 = 8_388_608;

/// Two to the power 29: what the fraction of a 64-bit number has more than
/// that of a 32-bit number.
pub const FRACTION_SURPLUS: u64 = 536_870_912;

/// The difference between the biases of the exponents of the two formats.
pub const BIAS_DIFFERENCE: u64 = 896;

/// The bits of the 64-bit floating-point number that equals the 32-bit
/// number with the bits `x`, for a positive number that is neither
/// subnormal nor infinite.
pub open spec fn widened(x: u32) -> u64 {
    ((x / EXPONENT_UNIT_32 + BIAS_DIFFERENCE) * EXPONENT_UNIT + (x % EXPONENT_UNIT_32)
        * FRACTION_SURPLUS) as u64
}

/// The bits of the 32-bit floating-point number nearest to the 64-bit number
/// with the bits `b`, halves going to the even neighbour, for a positive
/// number whose exponent a 32-bit number can have; `None` for any other.
pub open spec fn narrowed(b: u64) -> Option<u32> {
    let exponent = b / EXPONENT_UNIT;
    let fraction = b % EXPONENT_UNIT;
    let kept = fraction / FRACTION_SURPLUS;
    let dropped = fraction % FRACTION_SURPLUS;
    let up: int = if dropped > FRACTION_SURPLUS / 2 || (dropped == FRACTION_SURPLUS / 2 && kept % 2
        == 1) {
        1
    } else {
        0
    };
    if 897 <= exponent <= 1149 {
        Some(((exponent - BIAS_DIFFERENCE) * EXPONENT_UNIT_32 + kept + up) as u32)
    } else {
        None
    }
}

/// Widens the bits of a 32-bit floating-point number.
pub fn widen(x: u32) -> (r: u64)
    ensures
        r == widened(x),
{
    let exponent: u64 = (x / EXPONENT_UNIT_32) as u64;
    let fraction: u64 = (x % EXPONENT_UNIT_32) as u64;
    (exponent + BIAS_DIFFERENCE) * EXPONENT_UNIT + fraction * FRACTION_SURPLUS
}

/// Narrows the bits of a 64-bit floating-point number.
pub fn narrow(b: u64) -> (r: Option<u32>)
    ensures
        r == narrowed(b),
{
    let exponent: u64 = b / EXPONENT_UNIT;
    let fraction: u64 = b % EXPONENT_UNIT;
    let kept: u64 = fraction / FRACTION_SURPLUS;
    let dropped: u64 = fraction % FRACTION_SURPLUS;
    let up: u64 = if dropped > FRACTION_SURPLUS / 2 || (dropped == FRACTION_SURPLUS / 2 && kept % 2
        == 1) {
        1
    } else {
        0
    };
    if 897 <= exponent && exponent <= 1149 {
        Some(((exponent - BIAS_DIFFERENCE) * (EXPONENT_UNIT_32 as u64) + kept + up) as u32)
    } else {
        None
    }
}

/// A rating is read back from the bits it was widened to.
pub proof fn lemma_narrow_widened(x: u32)
    requires
        ONE_BITS_32 <= x <= THREE_BITS_32,
    ensures
        narrowed(widened(x)) == Some(x),
{
    let exponent = x / EXPONENT_UNIT_32;
    let fraction = x % EXPONENT_UNIT_32;
    assert(exponent == 127 || exponent == 128);
    let b = widened(x);
    assert(b == (exponent + 896) * EXPONENT_UNIT + fraction * FRACTION_SURPLUS);
    assert(fraction * FRACTION_SURPLUS < EXPONENT_UNIT);
    assert(b / EXPONENT_UNIT == exponent + 896);
    assert(b % EXPONENT_UNIT == fraction * FRACTION_SURPLUS);
    assert((fraction * FRACTION_SURPLUS) / (FRACTION_SURPLUS as int) == fraction);
    assert((fraction * FRACTION_SURPLUS) % (FRACTION_SURPLUS as int) == 0);
}

impl Wire for FloatBetween1and3 {
    /// A rating stands on the wire as the number it is.
    open spec fn to_wire(v: FloatBetween1and3) -> JsonModel {
        JsonModel::Float(widened(v.bits))
    }

    /// A number with a fraction or an exponent is taken as the 32-bit number
    /// nearest to it; a whole number from 1 to 3 is taken as the
    /// floating-point number equal to it.
    open spec fn from_wire(j: JsonModel) -> Result<FloatBetween1and3, DecodeError> {
        match j {
            JsonModel::Float(bits) => match narrowed(bits) {
                Some(x) => if (FloatBetween1and3 { bits: x }).wf() {
                    Ok(FloatBetween1and3 { bits: x })
                } else {
                    Err(DecodeError::Invalid(out_of_range(Field::FloatBetween1And3)))
                },
                None => Err(DecodeError::Invalid(out_of_range(Field::FloatBetween1And3))),
            },
            JsonModel::Integer(n) => if 1 <= n <= 3 {
                Ok(FloatBetween1and3 { bits: whole_bits_32(n as nat) })
            } else {
                Err(DecodeError::Invalid(out_of_range(Field::FloatBetween1And3)))
            },
            _ => Err(DecodeError::WrongType),
        }
    }

    open spec fn faithful(v: FloatBetween1and3) -> bool {
        v.wf()
    }

    proof fn lemma_round_trip(v: FloatBetween1and3) {
        lemma_narrow_widened(v.bits);
    }

    fn to_json(&self) -> (r: Json) {
        Json::Float { bits: widen(self.bits) }
    }

    fn from_json(j: &Json) -> (r: Result<FloatBetween1and3, DecodeError>) {
        match j {
            Json::Float { bits } => {
                match narrow(*bits) {
                    Some(x) => {
                        let v = FloatBetween1and3 { bits: x };
                        if v.is_valid() {
                            return Ok(v);
                        }
                    },
                    None => {},
                }
                Err(
                    DecodeError::Invalid(
                        ValidationError::new(Field::FloatBetween1And3, Reason::OutOfRange),
                    ),
                )
            },
            Json::Integer(n) => if 1 <= *n && *n <= 3 {
                Ok(FloatBetween1and3 { bits: whole_number_bits_32(*n as u8) })
            } else {
                Err(
                    DecodeError::Invalid(
                        ValidationError::new(Field::FloatBetween1And3, Reason::OutOfRange),
                    ),
                )
            },
            _ => Err(DecodeError::WrongType),
        }
    }
}

} // verus!
