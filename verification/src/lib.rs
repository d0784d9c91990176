//! The PACT product-footprint data model with its logistics extension:
//! validated value types, the records built from them, and the mapping of
//! logistics records into product footprints.

pub mod api;
pub mod decimal;
pub mod demo_data;
pub mod distance;
pub mod error;
pub mod filter;
pub mod flatten;
pub mod geography;
pub mod ileap;
pub mod json;
pub mod ileap_vocabulary;
pub mod ileap_wire;
pub mod mapping;
pub mod numbers;
pub mod pact;
pub mod pact_vocabulary;
pub mod pact_wire;
pub mod pf_id;
pub mod random;
pub mod scalars;
pub mod text;
pub mod time;
pub mod validate;

pub use crate::api::{
    filtered_by_auth, get_footprints, get_list, get_pcf, ErrorBody, Host, OAuth2ErrorMessage, Page,
    PfListing,
};
pub use crate::filter::{filtered_data, Filter, FilterError};
pub use crate::decimal::Decimal;
pub use crate::demo_data::{gen_rnd_demo_data, LowerAToZNumDash};
pub use crate::distance::{DistanceKeys, GlecDistance};
pub use crate::error::{Field, Reason, ValidationError};
pub use crate::geography::{GeographicKeys, GeographicScope};
pub use crate::ileap::{
    ActivityId, ConsignementId, EnergyCarrier, Feedstock, Hoc, ILeapType, Location,
    ShipmentFootprint, ShipmentId, Tad, Tce, Toc,
};
pub use crate::ileap_vocabulary::{
    AirShippingOption, Certification, EnergyCarrierType, EnergyConsumptionUnit, FeedstockType,
    FlightLength, HubActivityUnit, HubType, Incoterms, PackagingOrTrEqType, TadTempControl,
    TemperatureControl, TransportActivityUnit, TransportMode, TruckLoadingSequence,
};
pub use crate::json::{DecodeError, Json, Wire};
pub use crate::mapping::{
    assemble_pcf, to_char_factors, to_pcf, PactMapped, PactMappedFields, PcfError,
};
pub use crate::numbers::{
    ExemptedEmissionsPercent, FloatBetween1and3, NegativeDecimal, Percent, PositiveDecimal,
    StrictlyPositiveDecimal, WrappedDecimal,
};
pub use crate::pact::{
    Assurance, CarbonFootprint, CompanyIdSet, CrossSectoralStandardSet, DataModelExtension,
    DataQualityIndicators, EmissionFactorDS, EmissionFactorDSSet,
    IpccCharacterizationFactorsSource, IpccCharacterizationFactorsSources, NonEmptyPfIdVec,
    NonEmptyStringVec, ProductFootprint, ProductIdSet, ProductOrSectorSpecificRule,
    ProductOrSectorSpecificRuleSet,
};
pub use crate::pact_vocabulary::{
    AssuranceBoundary, AssuranceCoverage, AssuranceLevel, BiogenicAccountingMethodology,
    CharacterizationFactors, CrossSectoralStandard, DeclaredUnit, DeprecatedCrossSectoralStandard,
    PfStatus, ProductOrSectorSpecificRuleOperator, UNRegionOrSubregion,
};
pub use crate::pf_id::{PfId, UuidError};
pub use crate::scalars::{
    GlecDataQualityIndex, IataCode, ISO3166CC, Locode, NonEmptyString, NonEmptyVec,
    SpecVersionString, UicCode, Urn, VersionInteger,
};
pub use crate::time::Timestamp;
pub use crate::validate::Validate;
