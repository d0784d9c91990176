//! The records of the product-footprint model.

use vstd::prelude::*;
use crate::error::{first_of, Field, Reason, ValidationError};
use crate::geography::GeographicScope;
use crate::json::{DecodeError, Json, JsonModel, Wire};
use crate::numbers::{
    ExemptedEmissionsPercent, FloatBetween1and3, NegativeDecimal, Percent, PositiveDecimal,
    StrictlyPositiveDecimal, WrappedDecimal,
};
use crate::pact_vocabulary::{
    AssuranceBoundary, AssuranceCoverage, AssuranceLevel, BiogenicAccountingMethodology,
    CharacterizationFactors, CrossSectoralStandard, DeclaredUnit, PfStatus,
    ProductOrSectorSpecificRuleOperator,
};
use crate::pf_id::PfId;
use crate::scalars::{NonEmptyString, SpecVersionString, Urn, VersionInteger};
use crate::text::{is_assessment_report, matches_assessment_report};
use crate::time::Timestamp;
use crate::validate::{
    first_violation, optional_violation, validate_all, validate_optional, Validate,
};

verus! {

/// The name of an IPCC assessment report: `AR` and a number.
#[derive(Clone, Debug, PartialEq, Eq, Hash)]
pub struct IpccCharacterizationFactorsSource(pub String);

/// The assessment reports whose characterization factors were used: at least one.
#[derive(Clone, Debug, PartialEq, Eq, Hash)]
pub struct IpccCharacterizationFactorsSources(pub Vec<IpccCharacterizationFactorsSource>);

/// At least one non-empty string.
#[derive(Clone, Debug, PartialEq, Eq, Hash)]
pub struct NonEmptyStringVec(pub Vec<NonEmptyString>);

/// At least one footprint identifier.
#[derive(Clone, Debug, PartialEq, Eq, Hash)]
pub struct NonEmptyPfIdVec(pub Vec<PfId>);

/// The identifiers of a company: at least one URN, none twice.
#[derive(Clone, Debug, PartialEq, Eq, Hash)]
pub struct CompanyIdSet(pub Vec<Urn>);

/// The identifiers of a product: at least one URN, none twice.
#[derive(Clone, Debug, PartialEq, Eq, Hash)]
pub struct ProductIdSet(pub Vec<Urn>);

/// The sources of secondary emission factors: at least one.
#[derive(Clone, Debug, PartialEq, Eq, Hash)]
pub struct EmissionFactorDSSet(pub Vec<EmissionFactorDS>);

/// The product or sector specific rules that were applied.
#[derive(Clone, Debug, PartialEq, Eq, Hash)]
pub struct ProductOrSectorSpecificRuleSet(pub Vec<ProductOrSectorSpecificRule>);

/// The cross-sectoral standards that were applied.
#[derive(Clone, Debug, PartialEq, Eq, Hash)]
pub struct CrossSectoralStandardSet(pub Vec<CrossSectoralStandard>);

/// A set of rules of one operator. The operator is named beside the rules
/// exactly when it is none of the listed ones.
#[derive(Clone, Debug, PartialEq, Eq, Hash)]
pub struct ProductOrSectorSpecificRule {
    pub operator: ProductOrSectorSpecificRuleOperator,
    pub rule_names: NonEmptyStringVec,
    pub other_operator_name: Option<NonEmptyString>,
}

/// A database of emission factors.
#[derive(Clone, Debug, PartialEq, Eq, Hash)]
pub struct EmissionFactorDS {
    pub name: NonEmptyString,
    pub version: NonEmptyString,
}

/// The data quality indicators of a footprint.
#[derive(Clone, Copy, Debug, PartialEq, Eq, Hash, Structural)]
pub struct DataQualityIndicators {
    pub coverage_percent: Percent,
    pub technological_d_q_r: FloatBetween1and3,
    pub temporal_d_q_r: FloatBetween1and3,
    pub geographical_d_q_r: FloatBetween1and3,
    pub completeness_d_q_r: FloatBetween1and3,
    pub reliability_d_q_r: FloatBetween1and3,
}

/// The assurance of a footprint.
#[derive(Clone, Debug, PartialEq, Eq, Hash)]
pub struct Assurance {
    pub assurance: bool,
    pub coverage: Option<AssuranceCoverage>,
    pub level: Option<AssuranceLevel>,
    pub boundary: Option<AssuranceBoundary>,
    pub provider_name: String,
    pub completed_at: Option<Timestamp>,
    pub standard_name: Option<String>,
    pub comments: Option<String>,
}

/// An extension of the data model: a payload with the schema that describes it.
#[derive(Clone, Debug, PartialEq, Eq, Hash)]
pub struct DataModelExtension<T> {
    pub spec_version: SpecVersionString,
    pub data_schema: String,
    pub documentation: Option<String>,
    pub data: T,
}

/// What is wrong with a sequence that must not be empty.
pub open spec fn emptiness_violation(len: nat, field: Field) -> Option<ValidationError> {
    if len == 0 {
        Some(ValidationError { field, reason: Reason::Empty })
    } else {
        None
    }
}

/// No two of the URNs have the same text.
pub open spec fn urns_distinct(s: Seq<Urn>) -> bool {
    forall|i: int, j: int| 0 <= i < j < s.len() ==> (#[trigger] s[i]).0@ != (#[trigger] s[j]).0@
}

/// What is wrong with a set of URNs: it is empty, holds something that is no
/// URN, or holds a URN twice.
pub open spec fn urn_set_violation(s: Seq<Urn>, field: Field) -> Option<ValidationError> {
    first_of(
        emptiness_violation(s.len(), field),
        first_of(
            first_violation(s),
            if urns_distinct(s) {
                None
            } else {
                Some(ValidationError { field, reason: Reason::Duplicate })
            },
        ),
    )
}

/// Whether no two of the URNs have the same text.
pub fn all_urns_distinct(v: &Vec<Urn>) -> (r: bool)
    ensures
        r == urns_distinct(v@),
{
    let n = v.len();
    let mut i: usize = 0;
    while i < n
        invariant
            n == v@.len(),
            i <= n,
            forall|a: int, b: int| 0 <= a < b < n && a < i ==> (#[trigger] v@[a]).0@ != (
            #[trigger] v@[b]).0@,
        decreases n - i,
    {
        let mut j: usize = i + 1;
        while j < n
            invariant
                n == v@.len(),
                i < j <= n,
                forall|b: int| i < b < j ==> v@[i as int].0@ != (#[trigger] v@[b]).0@,
            decreases n - j,
        {
            if v[i].0 == v[j].0 {
                return false;
            }
            j = j + 1;
        }
        i = i + 1;
    }
    true
}

/// Validates a set of URNs.
pub fn validate_urn_set(v: &Vec<Urn>, field: Field) -> (r: Result<(), ValidationError>)
    ensures
        r == crate::error::outcome(urn_set_violation(v@, field)),
{
    if v.len() == 0 {
        return Err(ValidationError::new(field, Reason::Empty));
    }
    validate_all(v)?;
    if all_urns_distinct(v) {
        Ok(())
    } else {
        Err(ValidationError::new(field, Reason::Duplicate))
    }
}

impl IpccCharacterizationFactorsSource {
    pub open spec fn wf(&self) -> bool {
        is_assessment_report(self.0@)
    }

    /// The string as the name of an assessment report, or an error where it
    /// is not `AR` and a number.
    pub fn new(s: String) -> (r: Result<IpccCharacterizationFactorsSource, ValidationError>)
        ensures
            match r {
                Ok(v) => v.0 == s && v.wf(),
                Err(e) => Some(e) == IpccCharacterizationFactorsSource(s).violation(),
            },
    {
        let v = IpccCharacterizationFactorsSource(s);
        match v.validate() {
            Ok(()) => Ok(v),
            Err(e) => Err(e),
        }
    }

    /// The name under which the characterization factors of a report are cited.
    pub fn of(factors: CharacterizationFactors) -> (r: IpccCharacterizationFactorsSource)
        ensures
            r.0@ == factors.wire_name(),
            r.wf(),
    {
        proof {
            reveal_strlit("AR5");
            reveal_strlit("AR6");
            reveal_with_fuel(crate::text::digits_end, 3);
        }
        IpccCharacterizationFactorsSource(factors.as_str().to_owned())
    }
}

impl Validate for IpccCharacterizationFactorsSource {
    open spec fn violation(&self) -> Option<ValidationError> {
        if is_assessment_report(self.0@) {
            None
        } else {
            Some(ValidationError { field: Field::CharacterizationFactorsSource, reason: Reason::Malformed })
        }
    }

    fn validate(&self) -> (r: Result<(), ValidationError>)
        ensures
            r is Ok <==> self.wf(),
    {
        if matches_assessment_report(self.0.as_str()) {
            Ok(())
        } else {
            Err(ValidationError::new(Field::CharacterizationFactorsSource, Reason::Malformed))
        }
    }
}

impl Validate for IpccCharacterizationFactorsSources {
    open spec fn violation(&self) -> Option<ValidationError> {
        first_of(
            emptiness_violation(self.0@.len(), Field::CharacterizationFactorsSource),
            first_violation(self.0@),
        )
    }

    fn validate(&self) -> (r: Result<(), ValidationError>) {
        if self.0.len() == 0 {
            return Err(ValidationError::new(Field::CharacterizationFactorsSource, Reason::Empty));
        }
        validate_all(&self.0)
    }
}

impl Validate for NonEmptyStringVec {
    open spec fn violation(&self) -> Option<ValidationError> {
        first_of(emptiness_violation(self.0@.len(), Field::NonEmptyVec), first_violation(self.0@))
    }

    fn validate(&self) -> (r: Result<(), ValidationError>) {
        if self.0.len() == 0 {
            return Err(ValidationError::new(Field::NonEmptyVec, Reason::Empty));
        }
        validate_all(&self.0)
    }
}

impl Validate for NonEmptyPfIdVec {
    open spec fn violation(&self) -> Option<ValidationError> {
        first_of(
            emptiness_violation(self.0@.len(), Field::PrecedingPfIds),
            first_violation(self.0@),
        )
    }

    fn validate(&self) -> (r: Result<(), ValidationError>) {
        if self.0.len() == 0 {
            return Err(ValidationError::new(Field::PrecedingPfIds, Reason::Empty));
        }
        validate_all(&self.0)
    }
}

impl Validate for CompanyIdSet {
    open spec fn violation(&self) -> Option<ValidationError> {
        urn_set_violation(self.0@, Field::CompanyIds)
    }

    fn validate(&self) -> (r: Result<(), ValidationError>) {
        validate_urn_set(&self.0, Field::CompanyIds)
    }
}

impl Validate for ProductIdSet {
    open spec fn violation(&self) -> Option<ValidationError> {
        urn_set_violation(self.0@, Field::ProductIds)
    }

    fn validate(&self) -> (r: Result<(), ValidationError>) {
        validate_urn_set(&self.0, Field::ProductIds)
    }
}

impl Validate for EmissionFactorDS {
    open spec fn violation(&self) -> Option<ValidationError> {
        first_of(self.name.violation(), self.version.violation())
    }

    fn validate(&self) -> (r: Result<(), ValidationError>) {
        self.name.validate()?;
        self.version.validate()
    }
}

impl Validate for EmissionFactorDSSet {
    open spec fn violation(&self) -> Option<ValidationError> {
        first_of(
            emptiness_violation(self.0@.len(), Field::EmissionFactorSources),
            first_violation(self.0@),
        )
    }

    fn validate(&self) -> (r: Result<(), ValidationError>) {
        if self.0.len() == 0 {
            return Err(ValidationError::new(Field::EmissionFactorSources, Reason::Empty));
        }
        validate_all(&self.0)
    }
}

impl ProductOrSectorSpecificRule {
    /// What is wrong with the name of the operator: it is missing for an
    /// operator that is none of the listed ones, or given for a listed one.
    pub open spec fn operator_name_violation(&self) -> Option<ValidationError> {
        if self.operator == ProductOrSectorSpecificRuleOperator::Other {
            if self.other_operator_name is None {
                Some(ValidationError { field: Field::OtherOperatorName, reason: Reason::Missing })
            } else {
                None
            }
        } else {
            if self.other_operator_name is Some {
                Some(ValidationError { field: Field::OtherOperatorName, reason: Reason::Conflict })
            } else {
                None
            }
        }
    }
}

impl Validate for ProductOrSectorSpecificRule {
    open spec fn violation(&self) -> Option<ValidationError> {
        first_of(
            self.rule_names.violation(),
            first_of(
                optional_violation(self.other_operator_name),
                self.operator_name_violation(),
            ),
        )
    }

    fn validate(&self) -> (r: Result<(), ValidationError>) {
        self.rule_names.validate()?;
        validate_optional(&self.other_operator_name)?;
        let is_other = match self.operator {
            ProductOrSectorSpecificRuleOperator::Other => true,
            _ => false,
        };
        if is_other && self.other_operator_name.is_none() {
            Err(ValidationError::new(Field::OtherOperatorName, Reason::Missing))
        } else if !is_other && self.other_operator_name.is_some() {
            Err(ValidationError::new(Field::OtherOperatorName, Reason::Conflict))
        } else {
            Ok(())
        }
    }
}

impl Validate for ProductOrSectorSpecificRuleSet {
    open spec fn violation(&self) -> Option<ValidationError> {
        first_violation(self.0@)
    }

    fn validate(&self) -> (r: Result<(), ValidationError>) {
        validate_all(&self.0)
    }
}

impl Validate for DataQualityIndicators {
    open spec fn violation(&self) -> Option<ValidationError> {
        first_of(
            self.coverage_percent.violation(),
            first_of(
                self.technological_d_q_r.violation(),
                first_of(
                    self.temporal_d_q_r.violation(),
                    first_of(
                        self.geographical_d_q_r.violation(),
                        first_of(
                            self.completeness_d_q_r.violation(),
                            self.reliability_d_q_r.violation(),
                        ),
                    ),
                ),
            ),
        )
    }

    fn validate(&self) -> (r: Result<(), ValidationError>) {
        self.coverage_percent.validate()?;
        self.technological_d_q_r.validate()?;
        self.temporal_d_q_r.validate()?;
        self.geographical_d_q_r.validate()?;
        self.completeness_d_q_r.validate()?;
        self.reliability_d_q_r.validate()
    }
}

impl Default for Assurance {
    /// No assurance, nothing said of it.
    fn default() -> (r: Assurance)
        ensures
            !r.assurance,
            r.coverage is None,
            r.level is None,
            r.boundary is None,
            r.provider_name@ == Seq::<char>::empty(),
            r.completed_at is None,
            r.standard_name is None,
            r.comments is None,
    {
        Assurance {
            assurance: false,
            coverage: None,
            level: None,
            boundary: None,
            provider_name: String::new(),
            completed_at: None,
            standard_name: None,
            comments: None,
        }
    }
}

impl<T: Validate> Validate for DataModelExtension<T> {
    open spec fn violation(&self) -> Option<ValidationError> {
        first_of(self.spec_version.violation(), self.data.violation())
    }

    fn validate(&self) -> (r: Result<(), ValidationError>) {
        self.spec_version.validate()?;
        self.data.validate()
    }
}

/// The carbon footprint of a product.
#[derive(Clone, Debug, PartialEq, Eq, Hash)]
pub struct CarbonFootprint {
    pub declared_unit: DeclaredUnit,
    pub unitary_product_amount: StrictlyPositiveDecimal,
    pub p_cf_excluding_biogenic: PositiveDecimal,
    pub p_cf_including_biogenic: Option<WrappedDecimal>,
    pub fossil_ghg_emissions: PositiveDecimal,
    pub fossil_carbon_content: PositiveDecimal,
    pub biogenic_carbon_content: PositiveDecimal,
    pub d_luc_ghg_emissions: Option<PositiveDecimal>,
    pub land_management_ghg_emissions: Option<PositiveDecimal>,
    pub other_biogenic_ghg_emissions: Option<PositiveDecimal>,
    pub i_luc_ghg_emissions: Option<PositiveDecimal>,
    pub biogenic_carbon_withdrawal: Option<NegativeDecimal>,
    pub aircraft_ghg_emissions: Option<PositiveDecimal>,
    pub characterization_factors: CharacterizationFactors,
    pub ipcc_characterization_factors_sources: IpccCharacterizationFactorsSources,
    pub cross_sectoral_standards_used: CrossSectoralStandardSet,
    pub product_or_sector_specific_rules: Option<ProductOrSectorSpecificRuleSet>,
    pub biogenic_accounting_methodology: Option<BiogenicAccountingMethodology>,
    pub boundary_processes_description: String,
    pub reference_period_start: Timestamp,
    pub reference_period_end: Timestamp,
    /// The geographic scope; its keys stand among those of this record on
    /// the wire.
    pub geographic_scope: Option<GeographicScope>,
    pub secondary_emission_factor_sources: Option<EmissionFactorDSSet>,
    pub exempted_emissions_percent: ExemptedEmissionsPercent,
    pub exempted_emissions_description: String,
    pub packaging_emissions_included: bool,
    pub packaging_ghg_emissions: Option<PositiveDecimal>,
    pub allocation_rules_description: Option<String>,
    pub uncertainty_assessment_description: Option<String>,
    pub primary_data_share: Option<Percent>,
    pub dqi: Option<DataQualityIndicators>,
    pub assurance: Option<Assurance>,
}

/// A product footprint: the envelope around a carbon footprint, with the
/// extensions of the data model that come with it.
#[derive(Clone, Debug, PartialEq, Eq, Hash)]
pub struct ProductFootprint<T> {
    pub id: PfId,
    pub spec_version: SpecVersionString,
    pub preceding_pf_ids: Option<NonEmptyPfIdVec>,
    pub version: VersionInteger,
    pub created: Timestamp,
    pub updated: Option<Timestamp>,
    pub status: PfStatus,
    pub status_comment: Option<String>,
    pub validity_period_start: Option<Timestamp>,
    pub validity_period_end: Option<Timestamp>,
    pub company_name: NonEmptyString,
    pub company_ids: CompanyIdSet,
    pub product_description: String,
    pub product_ids: ProductIdSet,
    pub product_category_cpc: NonEmptyString,
    pub product_name_company: NonEmptyString,
    pub comment: String,
    pub pcf: CarbonFootprint,
    pub extensions: Option<Vec<DataModelExtension<T>>>,
}

impl CarbonFootprint {
    /// What is wrong with the declared amount and the emissions.
    pub open spec fn emissions_violation(&self) -> Option<ValidationError> {
        first_of(
            self.unitary_product_amount.violation(),
            first_of(
                self.p_cf_excluding_biogenic.violation(),
                first_of(
                    optional_violation(self.p_cf_including_biogenic),
                    first_of(
                        self.fossil_ghg_emissions.violation(),
                        first_of(
                            self.fossil_carbon_content.violation(),
                            self.biogenic_carbon_content.violation(),
                        ),
                    ),
                ),
            ),
        )
    }

    /// What is wrong with the optional breakdown of the emissions.
    pub open spec fn breakdown_violation(&self) -> Option<ValidationError> {
        first_of(
            optional_violation(self.d_luc_ghg_emissions),
            first_of(
                optional_violation(self.land_management_ghg_emissions),
                first_of(
                    optional_violation(self.other_biogenic_ghg_emissions),
                    first_of(
                        optional_violation(self.i_luc_ghg_emissions),
                        first_of(
                            optional_violation(self.biogenic_carbon_withdrawal),
                            optional_violation(self.aircraft_ghg_emissions),
                        ),
                    ),
                ),
            ),
        )
    }

    /// What is wrong with the reference period: it must end after it starts.
    pub open spec fn period_violation(&self) -> Option<ValidationError> {
        if self.reference_period_start.before(self.reference_period_end) {
            None
        } else {
            Some(ValidationError { field: Field::ReferencePeriod, reason: Reason::OutOfRange })
        }
    }

    /// What is wrong with the method, the period and the scope.
    pub open spec fn method_violation(&self) -> Option<ValidationError> {
        first_of(
            self.ipcc_characterization_factors_sources.violation(),
            first_of(
                optional_violation(self.product_or_sector_specific_rules),
                first_of(
                    self.period_violation(),
                    first_of(
                        optional_violation(self.geographic_scope),
                        optional_violation(self.secondary_emission_factor_sources),
                    ),
                ),
            ),
        )
    }

    /// What is wrong with the exemptions, the packaging and the data quality.
    pub open spec fn quality_violation(&self) -> Option<ValidationError> {
        first_of(
            self.exempted_emissions_percent.violation(),
            first_of(
                optional_violation(self.packaging_ghg_emissions),
                first_of(
                    optional_violation(self.primary_data_share),
                    optional_violation(self.dqi),
                ),
            ),
        )
    }

    fn validate_emissions(&self) -> (r: Result<(), ValidationError>)
        ensures
            r == crate::error::outcome(self.emissions_violation()),
    {
        self.unitary_product_amount.validate()?;
        self.p_cf_excluding_biogenic.validate()?;
        validate_optional(&self.p_cf_including_biogenic)?;
        self.fossil_ghg_emissions.validate()?;
        self.fossil_carbon_content.validate()?;
        self.biogenic_carbon_content.validate()
    }

    fn validate_breakdown(&self) -> (r: Result<(), ValidationError>)
        ensures
            r == crate::error::outcome(self.breakdown_violation()),
    {
        validate_optional(&self.d_luc_ghg_emissions)?;
        validate_optional(&self.land_management_ghg_emissions)?;
        validate_optional(&self.other_biogenic_ghg_emissions)?;
        validate_optional(&self.i_luc_ghg_emissions)?;
        validate_optional(&self.biogenic_carbon_withdrawal)?;
        validate_optional(&self.aircraft_ghg_emissions)
    }

    fn validate_method(&self) -> (r: Result<(), ValidationError>)
        ensures
            r == crate::error::outcome(self.method_violation()),
    {
        self.ipcc_characterization_factors_sources.validate()?;
        validate_optional(&self.product_or_sector_specific_rules)?;
        if !self.reference_period_start.is_before(&self.reference_period_end) {
            return Err(ValidationError::new(Field::ReferencePeriod, Reason::OutOfRange));
        }
        validate_optional(&self.geographic_scope)?;
        validate_optional(&self.secondary_emission_factor_sources)
    }

    fn validate_quality(&self) -> (r: Result<(), ValidationError>)
        ensures
            r == crate::error::outcome(self.quality_violation()),
    {
        self.exempted_emissions_percent.validate()?;
        validate_optional(&self.packaging_ghg_emissions)?;
        validate_optional(&self.primary_data_share)?;
        validate_optional(&self.dqi)
    }
}

impl Validate for CarbonFootprint {
    open spec fn violation(&self) -> Option<ValidationError> {
        first_of(
            self.emissions_violation(),
            first_of(
                self.breakdown_violation(),
                first_of(self.method_violation(), self.quality_violation()),
            ),
        )
    }

    fn validate(&self) -> (r: Result<(), ValidationError>) {
        self.validate_emissions()?;
        self.validate_breakdown()?;
        self.validate_method()?;
        self.validate_quality()
    }
}

impl<T: Validate> ProductFootprint<T> {
    /// What is wrong with the identity of the footprint: its identifier, its
    /// versions and those it replaces. A footprint has version one or more.
    pub open spec fn identity_violation(&self) -> Option<ValidationError> {
        first_of(
            self.id.violation(),
            first_of(
                self.spec_version.violation(),
                first_of(
                    optional_violation(self.preceding_pf_ids),
                    if self.version.0 >= 1 {
                        None
                    } else {
                        Some(
                            ValidationError {
                                field: Field::VersionInteger,
                                reason: Reason::OutOfRange,
                            },
                        )
                    },
                ),
            ),
        )
    }

    /// What is wrong with the company and the product.
    pub open spec fn subject_violation(&self) -> Option<ValidationError> {
        first_of(
            self.company_name.violation(),
            first_of(
                self.company_ids.violation(),
                first_of(
                    self.product_ids.violation(),
                    first_of(
                        self.product_category_cpc.violation(),
                        self.product_name_company.violation(),
                    ),
                ),
            ),
        )
    }

    /// What is wrong with the extensions: where the member is present it
    /// holds at least one extension, and each is valid.
    pub open spec fn extensions_violation(&self) -> Option<ValidationError> {
        match self.extensions {
            Some(list) => first_of(
                emptiness_violation(list@.len(), Field::Extensions),
                first_violation(list@),
            ),
            None => None,
        }
    }

    fn validate_identity(&self) -> (r: Result<(), ValidationError>)
        ensures
            r == crate::error::outcome(self.identity_violation()),
    {
        self.id.validate()?;
        self.spec_version.validate()?;
        validate_optional(&self.preceding_pf_ids)?;
        if self.version.0 >= 1 {
            Ok(())
        } else {
            Err(ValidationError::new(Field::VersionInteger, Reason::OutOfRange))
        }
    }

    fn validate_subject(&self) -> (r: Result<(), ValidationError>)
        ensures
            r == crate::error::outcome(self.subject_violation()),
    {
        self.company_name.validate()?;
        self.company_ids.validate()?;
        self.product_ids.validate()?;
        self.product_category_cpc.validate()?;
        self.product_name_company.validate()
    }

    fn validate_extensions(&self) -> (r: Result<(), ValidationError>)
        ensures
            r == crate::error::outcome(self.extensions_violation()),
    {
        match &self.extensions {
            Some(list) => {
                if list.len() == 0 {
                    return Err(ValidationError::new(Field::Extensions, Reason::Empty));
                }
                validate_all(list)
            },
            None => Ok(()),
        }
    }
}

impl<T: Validate> Validate for ProductFootprint<T> {
    open spec fn violation(&self) -> Option<ValidationError> {
        first_of(
            self.identity_violation(),
            first_of(
                self.subject_violation(),
                first_of(self.pcf.violation(), self.extensions_violation()),
            ),
        )
    }

    fn validate(&self) -> (r: Result<(), ValidationError>) {
        self.validate_identity()?;
        self.validate_subject()?;
        self.pcf.validate()?;
        self.validate_extensions()
    }
}

impl DeepView for IpccCharacterizationFactorsSource {
    type V = Seq<char>;

    open spec fn deep_view(&self) -> Seq<char> {
        self.0@
    }
}

impl Wire for IpccCharacterizationFactorsSource {
    open spec fn to_wire(v: Seq<char>) -> JsonModel {
        JsonModel::Text(v)
    }

    open spec fn from_wire(j: JsonModel) -> Result<Seq<char>, DecodeError> {
        match j {
            JsonModel::Text(s) => if !is_assessment_report(s) {
                    Err(DecodeError::Invalid(ValidationError { field: Field::CharacterizationFactorsSource, reason: Reason::Malformed }))
                } else {
                    Ok(s)
                },
            _ => Err(DecodeError::WrongType),
        }
    }

    open spec fn faithful(v: Seq<char>) -> bool {
        is_assessment_report(v)
    }

    proof fn lemma_round_trip(v: Seq<char>) {
    }

    fn to_json(&self) -> (r: Json) {
        Json::Text(self.0.clone())
    }

    fn from_json(j: &Json) -> (r: Result<IpccCharacterizationFactorsSource, DecodeError>) {
        match j {
            Json::Text(s) => match IpccCharacterizationFactorsSource::new(s.clone()) {
                Ok(v) => Ok(v),
                Err(e) => Err(DecodeError::Invalid(e)),
            },
            _ => Err(DecodeError::WrongType),
        }
    }
}

} // verus!
