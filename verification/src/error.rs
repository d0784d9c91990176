//! Errors reported by validating constructors and by record validation.

use vstd::prelude::*;

verus! {

/// What a rejected value was meant to be: a constrained scalar type or a rule
/// that ties several members of a record together.
#[derive(Clone, Copy, Debug, PartialEq, Eq, Structural)]
pub enum Field {
    NonEmptyString,
    Urn,
    Iso3166Cc,
    SpecVersionString,
    VersionInteger,
    PfId,
    Timestamp,
    Decimal,
    PositiveDecimal,
    NegativeDecimal,
    StrictlyPositiveDecimal,
    Percent,
    ExemptedEmissionsPercent,
    FloatBetween1And3,
    GlecDataQualityIndex,
    IataCode,
    Locode,
    UicCode,
    NonEmptyVec,
    GeographicScope,
    GlecDistance,
    CompanyIds,
    ProductIds,
    PrecedingPfIds,
    Extensions,
    ReferencePeriod,
    TceOperator,
    TceShipmentId,
    FeedstockShares,
    OtherOperatorName,
    CharacterizationFactorsSource,
    EmissionFactorSources,
    TransportActivity,
    EnergyCarriers,
}

/// Why a value was rejected.
#[derive(Clone, Copy, Debug, PartialEq, Eq, Structural)]
pub enum Reason {
    /// A string or a sequence that must hold something is empty.
    Empty,
    /// A string is longer than its type allows.
    TooLong,
    /// A string does not have the one length its type allows.
    WrongLength,
    /// The text does not follow the pattern of its type.
    Malformed,
    /// A number lies outside the range of its type.
    OutOfRange,
    /// The same entry occurs twice where entries must differ.
    Duplicate,
    /// More than one of several mutually exclusive members is set.
    Conflict,
    /// None of several members is set where exactly one must be.
    Missing,
    /// Two members that must agree differ.
    Mismatch,
}

/// A rejected value: which kind of value it was and what is wrong with it.
#[derive(Clone, Copy, Debug, PartialEq, Eq, Structural)]
pub struct ValidationError {
    pub field: Field,
    pub reason: Reason,
}

/// The first error among two optional ones.
pub open spec fn first_of(a: Option<ValidationError>, b: Option<ValidationError>) -> Option<
    ValidationError,
> {
    if a is Some {
        a
    } else {
        b
    }
}

/// The outcome of a validation whose first violation, if any, is `v`.
pub open spec fn outcome(v: Option<ValidationError>) -> Result<(), ValidationError> {
    match v {
        Some(e) => Err(e),
        None => Ok(()),
    }
}

impl Field {
    /// The name of the field as it is shown in messages.
    pub open spec fn name_text(self) -> Seq<char> {
        match self {
            Field::NonEmptyString => "NonEmptyString"@,
            Field::Urn => "Urn"@,
            Field::Iso3166Cc => "ISO3166CC"@,
            Field::SpecVersionString => "SpecVersionString"@,
            Field::VersionInteger => "VersionInteger"@,
            Field::PfId => "PfId"@,
            Field::Timestamp => "DateTime"@,
            Field::Decimal => "Decimal"@,
            Field::PositiveDecimal => "PositiveDecimal"@,
            Field::NegativeDecimal => "NegativeDecimal"@,
            Field::StrictlyPositiveDecimal => "StrictlyPositiveDecimal"@,
            Field::Percent => "Percent"@,
            Field::ExemptedEmissionsPercent => "ExemptedEmissionsPercent"@,
            Field::FloatBetween1And3 => "FloatBetween1and3"@,
            Field::GlecDataQualityIndex => "GlecDataQualityIndex"@,
            Field::IataCode => "IataCode"@,
            Field::Locode => "Locode"@,
            Field::UicCode => "UicCode"@,
            Field::NonEmptyVec => "NonEmptyVec"@,
            Field::GeographicScope => "GeographicScope"@,
            Field::GlecDistance => "GlecDistance"@,
            Field::CompanyIds => "companyIds"@,
            Field::ProductIds => "productIds"@,
            Field::PrecedingPfIds => "precedingPfIds"@,
            Field::Extensions => "extensions"@,
            Field::ReferencePeriod => "referencePeriodEnd"@,
            Field::TceOperator => "tocId/hocId"@,
            Field::TceShipmentId => "shipmentId"@,
            Field::FeedstockShares => "feedstockShare"@,
            Field::OtherOperatorName => "otherOperatorName"@,
            Field::CharacterizationFactorsSource => "ipccCharacterizationFactorsSources"@,
            Field::EmissionFactorSources => "secondaryEmissionFactorSources"@,
            Field::TransportActivity => "transportActivity"@,
            Field::EnergyCarriers => "energyCarriers"@,
        }
    }

    /// The name of the field as it is shown in messages.
    pub fn name(&self) -> (r: &'static str)
        ensures
            r@ == self.name_text(),
    {
        match self {
            Field::NonEmptyString => "NonEmptyString",
            Field::Urn => "Urn",
            Field::Iso3166Cc => "ISO3166CC",
            Field::SpecVersionString => "SpecVersionString",
            Field::VersionInteger => "VersionInteger",
            Field::PfId => "PfId",
            Field::Timestamp => "DateTime",
            Field::Decimal => "Decimal",
            Field::PositiveDecimal => "PositiveDecimal",
            Field::NegativeDecimal => "NegativeDecimal",
            Field::StrictlyPositiveDecimal => "StrictlyPositiveDecimal",
            Field::Percent => "Percent",
            Field::ExemptedEmissionsPercent => "ExemptedEmissionsPercent",
            Field::FloatBetween1And3 => "FloatBetween1and3",
            Field::GlecDataQualityIndex => "GlecDataQualityIndex",
            Field::IataCode => "IataCode",
            Field::Locode => "Locode",
            Field::UicCode => "UicCode",
            Field::NonEmptyVec => "NonEmptyVec",
            Field::GeographicScope => "GeographicScope",
            Field::GlecDistance => "GlecDistance",
            Field::CompanyIds => "companyIds",
            Field::ProductIds => "productIds",
            Field::PrecedingPfIds => "precedingPfIds",
            Field::Extensions => "extensions",
            Field::ReferencePeriod => "referencePeriodEnd",
            Field::TceOperator => "tocId/hocId",
            Field::TceShipmentId => "shipmentId",
            Field::FeedstockShares => "feedstockShare",
            Field::OtherOperatorName => "otherOperatorName",
            Field::CharacterizationFactorsSource => "ipccCharacterizationFactorsSources",
            Field::EmissionFactorSources => "secondaryEmissionFactorSources",
            Field::TransportActivity => "transportActivity",
            Field::EnergyCarriers => "energyCarriers",
        }
    }
}

impl Reason {
    /// A short description of the reason.
    pub open spec fn description_text(self) -> Seq<char> {
        match self {
            Reason::Empty => "must not be empty"@,
            Reason::TooLong => "is too long"@,
            Reason::WrongLength => "has the wrong length"@,
            Reason::Malformed => "does not match the expected pattern"@,
            Reason::OutOfRange => "is out of range"@,
            Reason::Duplicate => "holds an entry twice"@,
            Reason::Conflict => "sets more than one of several exclusive members"@,
            Reason::Missing => "sets none of several members of which one is required"@,
            Reason::Mismatch => "does not agree with the enclosing record"@,
        }
    }

    /// A short description of the reason.
    pub fn description(&self) -> (r: &'static str)
        ensures
            r@ == self.description_text(),
    {
        match self {
            Reason::Empty => "must not be empty",
            Reason::TooLong => "is too long",
            Reason::WrongLength => "has the wrong length",
            Reason::Malformed => "does not match the expected pattern",
            Reason::OutOfRange => "is out of range",
            Reason::Duplicate => "holds an entry twice",
            Reason::Conflict => "sets more than one of several exclusive members",
            Reason::Missing => "sets none of several members of which one is required",
            Reason::Mismatch => "does not agree with the enclosing record",
        }
    }
}

impl ValidationError {
    pub fn new(field: Field, reason: Reason) -> (r: ValidationError)
        ensures
            r == (ValidationError { field, reason }),
    {
        ValidationError { field, reason }
    }

    /// The error as one line of text: the field, a space, the reason.
    pub fn message(&self) -> (r: String)
        ensures
            r@ == self.field.name_text() + " "@ + self.reason.description_text(),
    {
        let mut out = self.field.name().to_owned();
        out.append(" ");
        out.append(self.reason.description());
        out
    }
}

} // verus!
