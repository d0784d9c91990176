//! Constrained scalar types: a primitive value together with the rule it
//! must obey. Each type has a spec function `wf` that states the rule, a
//! constructor that enforces it and `is_valid`, which tests it on a value
//! built in another way.

use vstd::prelude::*;
use vstd::string::*;
use crate::error::{Field, Reason, ValidationError};
use crate::json::{
    all_faithful, each, from_json_each, lemma_each_round_trip, to_json_each, wires, DecodeError,
    Json, JsonModel, Wire,
};
use crate::text::{
    all_upper, has_urn_prefix, is_spec_version, is_two_capitals, matches_spec_version,
    starts_with_urn,
};
use crate::validate::Validate;

verus! {

/// A string of at least one character.
#[derive(Clone, Debug, PartialEq, Eq, Hash)]
pub struct NonEmptyString(pub String);

/// A uniform resource name: a string that begins with `urn:`, in either case.
#[derive(Clone, Debug, PartialEq, Eq, Hash)]
pub struct Urn(pub String);

/// An ISO 3166-1 alpha-2 country code: exactly two ASCII capital letters.
#[derive(Clone, Debug, PartialEq, Eq, Hash)]
pub struct ISO3166CC(pub String);

/// A version of the technical specification: three numbers separated by
/// dots, optionally followed by a hyphen and eight digits.
#[derive(Clone, Debug, PartialEq, Eq, Hash)]
pub struct SpecVersionString(pub String);

/// The version of a footprint: zero or more.
#[derive(Clone, Copy, Debug, PartialEq, Eq, Hash, Structural)]
pub struct VersionInteger(pub i32);

/// An IATA airport code: at most three characters.
#[derive(Clone, Debug, PartialEq, Eq, Hash)]
pub struct IataCode(pub String);

/// A UN/LOCODE: exactly five characters.
#[derive(Clone, Debug, PartialEq, Eq, Hash)]
pub struct Locode(pub String);

/// A UIC country code: exactly two characters.
#[derive(Clone, Debug, PartialEq, Eq, Hash)]
pub struct UicCode(pub String);

/// A sequence of at least one element.
#[derive(Clone, Debug, PartialEq, Eq, Hash)]
pub struct NonEmptyVec<T>(pub Vec<T>);

/// A GLEC data quality index: a whole number from 0 to 4.
#[derive(Clone, Copy, Debug, PartialEq, Eq, Hash, Structural)]
pub struct GlecDataQualityIndex(pub u8);

/// What is wrong with a string that must not be empty, if anything.
pub open spec fn non_empty_violation(s: Seq<char>, field: Field) -> Option<ValidationError> {
    if s.len() == 0 {
        Some(ValidationError { field, reason: Reason::Empty })
    } else {
        None
    }
}

/// What is wrong with a string that must have exactly `n` characters.
pub open spec fn exact_length_violation(s: Seq<char>, n: nat, field: Field) -> Option<
    ValidationError,
> {
    if s.len() != n {
        Some(ValidationError { field, reason: Reason::WrongLength })
    } else {
        None
    }
}

impl NonEmptyString {
    pub open spec fn wf(&self) -> bool {
        self.0@.len() >= 1
    }

    pub fn is_valid(&self) -> (r: bool)
        ensures
            r == self.wf(),
    {
        !self.0.as_str().is_empty()
    }

    /// The string as a non-empty string, or an error where it is empty.
    pub fn new(s: String) -> (r: Result<NonEmptyString, ValidationError>)
        ensures
            match r {
                Ok(v) => v.0 == s && v.wf(),
                Err(e) => s@.len() == 0 && e == (ValidationError {
                    field: Field::NonEmptyString,
                    reason: Reason::Empty,
                }),
            },
    {
        let v = NonEmptyString(s);
        match v.validate() {
            Ok(()) => Ok(v),
            Err(e) => Err(e),
        }
    }
}

impl Validate for NonEmptyString {
    open spec fn violation(&self) -> Option<ValidationError> {
        non_empty_violation(self.0@, Field::NonEmptyString)
    }

    fn validate(&self) -> (r: Result<(), ValidationError>)
        ensures
            r is Ok <==> self.wf(),
    {
        if self.0.as_str().is_empty() {
            Err(ValidationError::new(Field::NonEmptyString, Reason::Empty))
        } else {
            Ok(())
        }
    }
}

impl Urn {
    pub open spec fn wf(&self) -> bool {
        has_urn_prefix(self.0@)
    }

    pub fn is_valid(&self) -> (r: bool)
        ensures
            r == self.wf(),
    {
        starts_with_urn(self.0.as_str())
    }

    /// The string as a URN, or an error where it does not begin with `urn:`.
    pub fn new(s: String) -> (r: Result<Urn, ValidationError>)
        ensures
            match r {
                Ok(v) => v.0 == s && v.wf(),
                Err(e) => !has_urn_prefix(s@) && e == (ValidationError {
                    field: Field::Urn,
                    reason: Reason::Malformed,
                }),
            },
    {
        let v = Urn(s);
        match v.validate() {
            Ok(()) => Ok(v),
            Err(e) => Err(e),
        }
    }
}

impl Validate for Urn {
    open spec fn violation(&self) -> Option<ValidationError> {
        if has_urn_prefix(self.0@) {
            None
        } else {
            Some(ValidationError { field: Field::Urn, reason: Reason::Malformed })
        }
    }

    fn validate(&self) -> (r: Result<(), ValidationError>)
        ensures
            r is Ok <==> self.wf(),
    {
        if starts_with_urn(self.0.as_str()) {
            Ok(())
        } else {
            Err(ValidationError::new(Field::Urn, Reason::Malformed))
        }
    }
}

impl ISO3166CC {
    pub open spec fn wf(&self) -> bool {
        self.0@.len() == 2 && all_upper(self.0@)
    }

    /// Whether the code is two ASCII capital letters.
    pub fn is_valid(&self) -> (r: bool)
        ensures
            r == self.wf(),
    {
        is_two_capitals(self.0.as_str())
    }

    /// The string as a country code: a length error where it does not have
    /// two characters, a pattern error where one of the two is no ASCII
    /// capital letter.
    pub fn new(s: String) -> (r: Result<ISO3166CC, ValidationError>)
        ensures
            match r {
                Ok(v) => v.0 == s && v.wf(),
                Err(e) => Some(e) == ISO3166CC(s).violation(),
            },
    {
        let v = ISO3166CC(s);
        match v.validate() {
            Ok(()) => Ok(v),
            Err(e) => Err(e),
        }
    }
}

impl Validate for ISO3166CC {
    open spec fn violation(&self) -> Option<ValidationError> {
        if self.0@.len() != 2 {
            Some(ValidationError { field: Field::Iso3166Cc, reason: Reason::WrongLength })
        } else if !all_upper(self.0@) {
            Some(ValidationError { field: Field::Iso3166Cc, reason: Reason::Malformed })
        } else {
            None
        }
    }

    fn validate(&self) -> (r: Result<(), ValidationError>)
        ensures
            r is Ok <==> self.wf(),
    {
        if self.0.as_str().unicode_len() != 2 {
            Err(ValidationError::new(Field::Iso3166Cc, Reason::WrongLength))
        } else if !is_two_capitals(self.0.as_str()) {
            Err(ValidationError::new(Field::Iso3166Cc, Reason::Malformed))
        } else {
            Ok(())
        }
    }
}

impl SpecVersionString {
    pub open spec fn wf(&self) -> bool {
        is_spec_version(self.0@)
    }

    pub fn is_valid(&self) -> (r: bool)
        ensures
            r == self.wf(),
    {
        matches_spec_version(self.0.as_str())
    }

    /// The string as a specification version, or an error where it does not
    /// follow the pattern.
    pub fn new(s: String) -> (r: Result<SpecVersionString, ValidationError>)
        ensures
            match r {
                Ok(v) => v.0 == s && v.wf(),
                Err(e) => Some(e) == SpecVersionString(s).violation(),
            },
    {
        let v = SpecVersionString(s);
        match v.validate() {
            Ok(()) => Ok(v),
            Err(e) => Err(e),
        }
    }
}

impl Validate for SpecVersionString {
    open spec fn violation(&self) -> Option<ValidationError> {
        if is_spec_version(self.0@) {
            None
        } else {
            Some(ValidationError { field: Field::SpecVersionString, reason: Reason::Malformed })
        }
    }

    fn validate(&self) -> (r: Result<(), ValidationError>)
        ensures
            r is Ok <==> self.wf(),
    {
        if matches_spec_version(self.0.as_str()) {
            Ok(())
        } else {
            Err(ValidationError::new(Field::SpecVersionString, Reason::Malformed))
        }
    }
}

impl VersionInteger {
    pub open spec fn wf(&self) -> bool {
        self.0 >= 0
    }

    pub fn is_valid(&self) -> (r: bool)
        ensures
            r == self.wf(),
    {
        self.0 >= 0
    }

    /// The number as a version, or an error where it is negative.
    pub fn new(n: i32) -> (r: Result<VersionInteger, ValidationError>)
        ensures
            match r {
                Ok(v) => v.0 == n && n >= 0,
                Err(e) => n < 0 && e == (ValidationError {
                    field: Field::VersionInteger,
                    reason: Reason::OutOfRange,
                }),
            },
    {
        if n >= 0 {
            Ok(VersionInteger(n))
        } else {
            Err(ValidationError::new(Field::VersionInteger, Reason::OutOfRange))
        }
    }
}

impl Validate for VersionInteger {
    open spec fn violation(&self) -> Option<ValidationError> {
        if self.0 >= 0 {
            None
        } else {
            Some(ValidationError { field: Field::VersionInteger, reason: Reason::OutOfRange })
        }
    }

    fn validate(&self) -> (r: Result<(), ValidationError>)
        ensures
            r is Ok <==> self.wf(),
    {
        if self.0 >= 0 {
            Ok(())
        } else {
            Err(ValidationError::new(Field::VersionInteger, Reason::OutOfRange))
        }
    }
}

impl IataCode {
    pub open spec fn wf(&self) -> bool {
        self.0@.len() <= 3
    }

    pub fn is_valid(&self) -> (r: bool)
        ensures
            r == self.wf(),
    {
        self.0.as_str().unicode_len() <= 3
    }

    /// The string as an IATA code, or an error where it has more than three
    /// characters.
    pub fn new(s: String) -> (r: Result<IataCode, ValidationError>)
        ensures
            match r {
                Ok(v) => v.0 == s && v.wf(),
                Err(e) => Some(e) == IataCode(s).violation(),
            },
    {
        let v = IataCode(s);
        match v.validate() {
            Ok(()) => Ok(v),
            Err(e) => Err(e),
        }
    }
}

impl Validate for IataCode {
    open spec fn violation(&self) -> Option<ValidationError> {
        if self.0@.len() <= 3 {
            None
        } else {
            Some(ValidationError { field: Field::IataCode, reason: Reason::TooLong })
        }
    }

    fn validate(&self) -> (r: Result<(), ValidationError>)
        ensures
            r is Ok <==> self.wf(),
    {
        if self.0.as_str().unicode_len() <= 3 {
            Ok(())
        } else {
            Err(ValidationError::new(Field::IataCode, Reason::TooLong))
        }
    }
}

impl Locode {
    pub open spec fn wf(&self) -> bool {
        self.0@.len() == 5
    }

    pub fn is_valid(&self) -> (r: bool)
        ensures
            r == self.wf(),
    {
        self.0.as_str().unicode_len() == 5
    }

    /// The string as a LOCODE, or an error where it does not have five
    /// characters.
    pub fn new(s: String) -> (r: Result<Locode, ValidationError>)
        ensures
            match r {
                Ok(v) => v.0 == s && v.wf(),
                Err(e) => Some(e) == Locode(s).violation(),
            },
    {
        let v = Locode(s);
        match v.validate() {
            Ok(()) => Ok(v),
            Err(e) => Err(e),
        }
    }
}

impl Validate for Locode {
    open spec fn violation(&self) -> Option<ValidationError> {
        exact_length_violation(self.0@, 5, Field::Locode)
    }

    fn validate(&self) -> (r: Result<(), ValidationError>)
        ensures
            r is Ok <==> self.wf(),
    {
        if self.0.as_str().unicode_len() == 5 {
            Ok(())
        } else {
            Err(ValidationError::new(Field::Locode, Reason::WrongLength))
        }
    }
}

impl UicCode {
    pub open spec fn wf(&self) -> bool {
        self.0@.len() == 2
    }

    pub fn is_valid(&self) -> (r: bool)
        ensures
            r == self.wf(),
    {
        self.0.as_str().unicode_len() == 2
    }

    /// The string as a UIC code, or an error where it does not have two
    /// characters.
    pub fn new(s: String) -> (r: Result<UicCode, ValidationError>)
        ensures
            match r {
                Ok(v) => v.0 == s && v.wf(),
                Err(e) => Some(e) == UicCode(s).violation(),
            },
    {
        let v = UicCode(s);
        match v.validate() {
            Ok(()) => Ok(v),
            Err(e) => Err(e),
        }
    }
}

impl Validate for UicCode {
    open spec fn violation(&self) -> Option<ValidationError> {
        exact_length_violation(self.0@, 2, Field::UicCode)
    }

    fn validate(&self) -> (r: Result<(), ValidationError>)
        ensures
            r is Ok <==> self.wf(),
    {
        if self.0.as_str().unicode_len() == 2 {
            Ok(())
        } else {
            Err(ValidationError::new(Field::UicCode, Reason::WrongLength))
        }
    }
}

impl<T> NonEmptyVec<T> {
    pub open spec fn wf(&self) -> bool {
        self.0@.len() >= 1
    }

    pub fn is_valid(&self) -> (r: bool)
        ensures
            r == self.wf(),
    {
        self.0.len() >= 1
    }

    /// The vector as a non-empty vector, or an error where it is empty.
    pub fn new(v: Vec<T>) -> (r: Result<NonEmptyVec<T>, ValidationError>)
        ensures
            match r {
                Ok(w) => w.0 == v && v@.len() >= 1,
                Err(e) => v@.len() == 0 && e == (ValidationError {
                    field: Field::NonEmptyVec,
                    reason: Reason::Empty,
                }),
            },
    {
        if v.len() >= 1 {
            Ok(NonEmptyVec(v))
        } else {
            Err(ValidationError::new(Field::NonEmptyVec, Reason::Empty))
        }
    }

    pub fn len(&self) -> (r: usize)
        ensures
            r == self.0@.len(),
    {
        self.0.len()
    }
}

impl GlecDataQualityIndex {
    pub open spec fn wf(&self) -> bool {
        self.0 <= 4
    }

    pub fn is_valid(&self) -> (r: bool)
        ensures
            r == self.wf(),
    {
        self.0 <= 4
    }

    /// The number as a data quality index, or an error where it exceeds 4.
    pub fn new(n: u8) -> (r: Result<GlecDataQualityIndex, ValidationError>)
        ensures
            match r {
                Ok(v) => v.0 == n && n <= 4,
                Err(e) => n > 4 && e == (ValidationError {
                    field: Field::GlecDataQualityIndex,
                    reason: Reason::OutOfRange,
                }),
            },
    {
        if n <= 4 {
            Ok(GlecDataQualityIndex(n))
        } else {
            Err(ValidationError::new(Field::GlecDataQualityIndex, Reason::OutOfRange))
        }
    }
}

impl DeepView for NonEmptyString {
    type V = Seq<char>;

    open spec fn deep_view(&self) -> Seq<char> {
        self.0@
    }
}

impl Wire for NonEmptyString {
    open spec fn to_wire(v: Seq<char>) -> JsonModel {
        JsonModel::Text(v)
    }

    open spec fn from_wire(j: JsonModel) -> Result<Seq<char>, DecodeError> {
        match j {
            JsonModel::Text(s) => if s.len() == 0 {
                    Err(DecodeError::Invalid(ValidationError { field: Field::NonEmptyString, reason: Reason::Empty }))
                } else {
                    Ok(s)
                },
            _ => Err(DecodeError::WrongType),
        }
    }

    open spec fn faithful(v: Seq<char>) -> bool {
        v.len() != 0
    }

    proof fn lemma_round_trip(v: Seq<char>) {
    }

    fn to_json(&self) -> (r: Json) {
        Json::Text(self.0.clone())
    }

    fn from_json(j: &Json) -> (r: Result<NonEmptyString, DecodeError>) {
        match j {
            Json::Text(s) => match NonEmptyString::new(s.clone()) {
                Ok(v) => Ok(v),
                Err(e) => Err(DecodeError::Invalid(e)),
            },
            _ => Err(DecodeError::WrongType),
        }
    }
}

impl DeepView for Urn {
    type V = Seq<char>;

    open spec fn deep_view(&self) -> Seq<char> {
        self.0@
    }
}

impl Wire for Urn {
    open spec fn to_wire(v: Seq<char>) -> JsonModel {
        JsonModel::Text(v)
    }

    open spec fn from_wire(j: JsonModel) -> Result<Seq<char>, DecodeError> {
        match j {
            JsonModel::Text(s) => if !has_urn_prefix(s) {
                    Err(DecodeError::Invalid(ValidationError { field: Field::Urn, reason: Reason::Malformed }))
                } else {
                    Ok(s)
                },
            _ => Err(DecodeError::WrongType),
        }
    }

    open spec fn faithful(v: Seq<char>) -> bool {
        has_urn_prefix(v)
    }

    proof fn lemma_round_trip(v: Seq<char>) {
    }

    fn to_json(&self) -> (r: Json) {
        Json::Text(self.0.clone())
    }

    fn from_json(j: &Json) -> (r: Result<Urn, DecodeError>) {
        match j {
            Json::Text(s) => match Urn::new(s.clone()) {
                Ok(v) => Ok(v),
                Err(e) => Err(DecodeError::Invalid(e)),
            },
            _ => Err(DecodeError::WrongType),
        }
    }
}

impl DeepView for ISO3166CC {
    type V = Seq<char>;

    open spec fn deep_view(&self) -> Seq<char> {
        self.0@
    }
}

impl Wire for ISO3166CC {
    open spec fn to_wire(v: Seq<char>) -> JsonModel {
        JsonModel::Text(v)
    }

    open spec fn from_wire(j: JsonModel) -> Result<Seq<char>, DecodeError> {
        match j {
            JsonModel::Text(s) => if s.len() != 2 {
                    Err(DecodeError::Invalid(ValidationError { field: Field::Iso3166Cc, reason: Reason::WrongLength }))
                } else if !all_upper(s) {
                    Err(DecodeError::Invalid(ValidationError { field: Field::Iso3166Cc, reason: Reason::Malformed }))
                } else {
                    Ok(s)
                },
            _ => Err(DecodeError::WrongType),
        }
    }

    open spec fn faithful(v: Seq<char>) -> bool {
        v.len() == 2 && all_upper(v)
    }

    proof fn lemma_round_trip(v: Seq<char>) {
    }

    fn to_json(&self) -> (r: Json) {
        Json::Text(self.0.clone())
    }

    fn from_json(j: &Json) -> (r: Result<ISO3166CC, DecodeError>) {
        match j {
            Json::Text(s) => match ISO3166CC::new(s.clone()) {
                Ok(v) => Ok(v),
                Err(e) => Err(DecodeError::Invalid(e)),
            },
            _ => Err(DecodeError::WrongType),
        }
    }
}

impl DeepView for SpecVersionString {
    type V = Seq<char>;

    open spec fn deep_view(&self) -> Seq<char> {
        self.0@
    }
}

impl Wire for SpecVersionString {
    open spec fn to_wire(v: Seq<char>) -> JsonModel {
        JsonModel::Text(v)
    }

    open spec fn from_wire(j: JsonModel) -> Result<Seq<char>, DecodeError> {
        match j {
            JsonModel::Text(s) => if !is_spec_version(s) {
                    Err(DecodeError::Invalid(ValidationError { field: Field::SpecVersionString, reason: Reason::Malformed }))
                } else {
                    Ok(s)
                },
            _ => Err(DecodeError::WrongType),
        }
    }

    open spec fn faithful(v: Seq<char>) -> bool {
        is_spec_version(v)
    }

    proof fn lemma_round_trip(v: Seq<char>) {
    }

    fn to_json(&self) -> (r: Json) {
        Json::Text(self.0.clone())
    }

    fn from_json(j: &Json) -> (r: Result<SpecVersionString, DecodeError>) {
        match j {
            Json::Text(s) => match SpecVersionString::new(s.clone()) {
                Ok(v) => Ok(v),
                Err(e) => Err(DecodeError::Invalid(e)),
            },
            _ => Err(DecodeError::WrongType),
        }
    }
}

impl DeepView for IataCode {
    type V = Seq<char>;

    open spec fn deep_view(&self) -> Seq<char> {
        self.0@
    }
}

impl Wire for IataCode {
    open spec fn to_wire(v: Seq<char>) -> JsonModel {
        JsonModel::Text(v)
    }

    open spec fn from_wire(j: JsonModel) -> Result<Seq<char>, DecodeError> {
        match j {
            JsonModel::Text(s) => if s.len() > 3 {
                    Err(DecodeError::Invalid(ValidationError { field: Field::IataCode, reason: Reason::TooLong }))
                } else {
                    Ok(s)
                },
            _ => Err(DecodeError::WrongType),
        }
    }

    open spec fn faithful(v: Seq<char>) -> bool {
        v.len() <= 3
    }

    proof fn lemma_round_trip(v: Seq<char>) {
    }

    fn to_json(&self) -> (r: Json) {
        Json::Text(self.0.clone())
    }

    fn from_json(j: &Json) -> (r: Result<IataCode, DecodeError>) {
        match j {
            Json::Text(s) => match IataCode::new(s.clone()) {
                Ok(v) => Ok(v),
                Err(e) => Err(DecodeError::Invalid(e)),
            },
            _ => Err(DecodeError::WrongType),
        }
    }
}

impl DeepView for Locode {
    type V = Seq<char>;

    open spec fn deep_view(&self) -> Seq<char> {
        self.0@
    }
}

impl Wire for Locode {
    open spec fn to_wire(v: Seq<char>) -> JsonModel {
        JsonModel::Text(v)
    }

    open spec fn from_wire(j: JsonModel) -> Result<Seq<char>, DecodeError> {
        match j {
            JsonModel::Text(s) => if s.len() != 5 {
                    Err(DecodeError::Invalid(ValidationError { field: Field::Locode, reason: Reason::WrongLength }))
                } else {
                    Ok(s)
                },
            _ => Err(DecodeError::WrongType),
        }
    }

    open spec fn faithful(v: Seq<char>) -> bool {
        v.len() == 5
    }

    proof fn lemma_round_trip(v: Seq<char>) {
    }

    fn to_json(&self) -> (r: Json) {
        Json::Text(self.0.clone())
    }

    fn from_json(j: &Json) -> (r: Result<Locode, DecodeError>) {
        match j {
            Json::Text(s) => match Locode::new(s.clone()) {
                Ok(v) => Ok(v),
                Err(e) => Err(DecodeError::Invalid(e)),
            },
            _ => Err(DecodeError::WrongType),
        }
    }
}

impl DeepView for UicCode {
    type V = Seq<char>;

    open spec fn deep_view(&self) -> Seq<char> {
        self.0@
    }
}

impl Wire for UicCode {
    open spec fn to_wire(v: Seq<char>) -> JsonModel {
        JsonModel::Text(v)
    }

    open spec fn from_wire(j: JsonModel) -> Result<Seq<char>, DecodeError> {
        match j {
            JsonModel::Text(s) => if s.len() != 2 {
                    Err(DecodeError::Invalid(ValidationError { field: Field::UicCode, reason: Reason::WrongLength }))
                } else {
                    Ok(s)
                },
            _ => Err(DecodeError::WrongType),
        }
    }

    open spec fn faithful(v: Seq<char>) -> bool {
        v.len() == 2
    }

    proof fn lemma_round_trip(v: Seq<char>) {
    }

    fn to_json(&self) -> (r: Json) {
        Json::Text(self.0.clone())
    }

    fn from_json(j: &Json) -> (r: Result<UicCode, DecodeError>) {
        match j {
            Json::Text(s) => match UicCode::new(s.clone()) {
                Ok(v) => Ok(v),
                Err(e) => Err(DecodeError::Invalid(e)),
            },
            _ => Err(DecodeError::WrongType),
        }
    }
}

impl Wire for VersionInteger {
    open spec fn to_wire(v: VersionInteger) -> JsonModel {
        JsonModel::Integer(v.0 as int)
    }

    open spec fn from_wire(j: JsonModel) -> Result<VersionInteger, DecodeError> {
        match j {
            JsonModel::Integer(n) => if 0 <= n <= i32::MAX {
                Ok(VersionInteger(n as i32))
            } else {
                Err(
                    DecodeError::Invalid(
                        ValidationError {
                            field: Field::VersionInteger,
                            reason: Reason::OutOfRange,
                        },
                    ),
                )
            },
            _ => Err(DecodeError::WrongType),
        }
    }

    open spec fn faithful(v: VersionInteger) -> bool {
        v.0 >= 0
    }

    proof fn lemma_round_trip(v: VersionInteger) {
    }

    fn to_json(&self) -> (r: Json) {
        Json::Integer(self.0 as i128)
    }

    fn from_json(j: &Json) -> (r: Result<VersionInteger, DecodeError>) {
        match j {
            Json::Integer(n) => if 0 <= *n && *n <= i32::MAX as i128 {
                Ok(VersionInteger(*n as i32))
            } else {
                Err(
                    DecodeError::Invalid(
                        ValidationError::new(Field::VersionInteger, Reason::OutOfRange),
                    ),
                )
            },
            _ => Err(DecodeError::WrongType),
        }
    }
}

impl DeepView for VersionInteger {
    type V = VersionInteger;

    open spec fn deep_view(&self) -> VersionInteger {
        *self
    }
}

impl<T: DeepView> DeepView for NonEmptyVec<T> {
    type V = Seq<T::V>;

    open spec fn deep_view(&self) -> Seq<T::V> {
        self.0.deep_view()
    }
}

impl<T: Wire> Wire for NonEmptyVec<T> {
    open spec fn to_wire(v: Seq<T::V>) -> JsonModel {
        JsonModel::Array(wires::<T>(v))
    }

    open spec fn from_wire(j: JsonModel) -> Result<Seq<T::V>, DecodeError> {
        match j {
            JsonModel::Array(items) => match each::<T>(items) {
                Ok(values) => if values.len() == 0 {
                    Err(
                        DecodeError::Invalid(
                            ValidationError { field: Field::NonEmptyVec, reason: Reason::Empty },
                        ),
                    )
                } else {
                    Ok(values)
                },
                Err(e) => Err(e),
            },
            _ => Err(DecodeError::WrongType),
        }
    }

    open spec fn faithful(v: Seq<T::V>) -> bool {
        v.len() >= 1 && all_faithful::<T>(v)
    }

    proof fn lemma_round_trip(v: Seq<T::V>) {
        lemma_each_round_trip::<T>(v);
    }

    fn to_json(&self) -> (r: Json) {
        Json::Array(to_json_each(&self.0))
    }

    fn from_json(j: &Json) -> (r: Result<NonEmptyVec<T>, DecodeError>) {
        match j {
            Json::Array(items) => {
                let values = from_json_each::<T>(items)?;
                if values.len() == 0 {
                    Err(
                        DecodeError::Invalid(
                            ValidationError::new(Field::NonEmptyVec, Reason::Empty),
                        ),
                    )
                } else {
                    Ok(NonEmptyVec(values))
                }
            },
            _ => Err(DecodeError::WrongType),
        }
    }
}

} // verus!
