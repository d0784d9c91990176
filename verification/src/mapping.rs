//! The mapping of logistics records into product footprints.
//!
//! A shipment footprint, a transport operation category or a hub operation
//! category becomes the payload of the single extension of a product
//! footprint. The declared unit, the declared amount and the emissions of
//! the footprint are derived from the record; the rest of the envelope is the
//! same for every record.

use vstd::prelude::*;
use vstd::string::*;
use crate::decimal::{lemma_total_stays_none, total, total_of_first, Decimal};
use crate::error::{Field, Reason, ValidationError};
use crate::ileap::{Hoc, ILeapType, ShipmentFootprint, Tce, Toc};
use crate::ileap_vocabulary::HubActivityUnit;
use crate::numbers::{ExemptedEmissionsPercent, PositiveDecimal, StrictlyPositiveDecimal};
use crate::pact::{
    CarbonFootprint, CompanyIdSet, CrossSectoralStandardSet, DataModelExtension,
    IpccCharacterizationFactorsSource, IpccCharacterizationFactorsSources, ProductFootprint,
    ProductIdSet,
};
use crate::pact_vocabulary::{
    CharacterizationFactors, CrossSectoralStandard, DeclaredUnit, PfStatus,
};
use crate::pf_id::PfId;
use crate::scalars::{NonEmptyString, SpecVersionString, Urn, VersionInteger};
use crate::text::{digits_end, has_urn_prefix, is_spec_version};
use crate::time::Timestamp;
use crate::validate::{first_violation, first_violation_from, Validate};

verus! {

/// The days of a reference period.
pub const REFERENCE_PERIOD_DAYS: i64 = 364;

/// Why a record cannot be mapped into a product footprint.
#[derive(Clone, Copy, Debug, PartialEq, Eq, Structural)]
pub enum PcfError {
    /// The record is a hub operation category whose intensity refers to
    /// twenty-foot equivalent units: there is no conversion of them to mass.
    UnsupportedThroughputUnit,
    /// A value that the footprint needs breaks the rule of its type.
    Validation(ValidationError),
}

/// What a product footprint takes from the record it is made for.
#[derive(Clone, Debug, PartialEq, Eq)]
pub struct PactMappedFields {
    pub product_id_type: &'static str,
    pub data_schema_id: &'static str,
    pub id: String,
    pub product_name_company: String,
    pub declared_unit: DeclaredUnit,
    pub unitary_product_amount: Decimal,
    pub p_cf_excluding_biogenic: Decimal,
}

/// The mapped fields as a mathematical value.
pub struct PactMappedFieldsView {
    pub product_id_type: Seq<char>,
    pub data_schema_id: Seq<char>,
    pub id: Seq<char>,
    pub product_name_company: Seq<char>,
    pub declared_unit: DeclaredUnit,
    pub unitary_product_amount: Decimal,
    pub p_cf_excluding_biogenic: Decimal,
}

impl View for PactMappedFields {
    type V = PactMappedFieldsView;

    open spec fn view(&self) -> PactMappedFieldsView {
        PactMappedFieldsView {
            product_id_type: self.product_id_type@,
            data_schema_id: self.data_schema_id@,
            id: self.id@,
            product_name_company: self.product_name_company@,
            declared_unit: self.declared_unit,
            unitary_product_amount: self.unitary_product_amount,
            p_cf_excluding_biogenic: self.p_cf_excluding_biogenic,
        }
    }
}

/// The view of the outcome of a mapping.
pub open spec fn fields_outcome(r: Result<PactMappedFields, PcfError>) -> Result<
    PactMappedFieldsView,
    PcfError,
> {
    match r {
        Ok(f) => Ok(f@),
        Err(e) => Err(e),
    }
}

/// The error of a sum of decimals that cannot be formed.
pub open spec fn sum_error() -> PcfError {
    PcfError::Validation(ValidationError { field: Field::Decimal, reason: Reason::OutOfRange })
}

/// A record that can be the payload of a product footprint.
pub trait PactMapped {
    /// What a product footprint takes from the record, or why the record
    /// cannot be mapped.
    spec fn pact_fields(&self) -> Result<PactMappedFieldsView, PcfError>;

    /// Derives what a product footprint takes from the record.
    fn to_pact_fields(&self) -> (r: Result<PactMappedFields, PcfError>)
        ensures
            fields_outcome(r) == self.pact_fields(),
    ;
}

/// The transport activities of the legs in their order.
pub open spec fn activities(tces: Seq<Tce>) -> Seq<Decimal> {
    tces.map_values(|t: Tce| t.transport_activity.0)
}

/// The well-to-wheel emissions of the legs in their order.
pub open spec fn emissions(tces: Seq<Tce>) -> Seq<Decimal> {
    tces.map_values(|t: Tce| t.co2e_wtw.0)
}

/// Adds up the transport activities of the legs.
pub fn total_activity(tces: &Vec<Tce>) -> (r: Option<Decimal>)
    ensures
        r == total(activities(tces@)),
{
    let mut acc = Decimal::from_i64(0);
    let mut i: usize = 0;
    while i < tces.len()
        invariant
            i <= tces@.len(),
            total_of_first(activities(tces@), i as nat) == Some(acc),
        decreases tces@.len() - i,
    {
        assert(tces@[i as int].transport_activity.0 == activities(tces@)[i as int]);
        match acc.checked_add(&tces[i].transport_activity.0) {
            Some(next) => {
                acc = next;
            },
            None => {
                proof {
                    lemma_total_stays_none(activities(tces@), (i + 1) as nat, tces@.len());
                }
                return None;
            },
        }
        i = i + 1;
    }
    Some(acc)
}

/// Adds up the well-to-wheel emissions of the legs.
pub fn total_emissions(tces: &Vec<Tce>) -> (r: Option<Decimal>)
    ensures
        r == total(emissions(tces@)),
{
    let mut acc = Decimal::from_i64(0);
    let mut i: usize = 0;
    while i < tces.len()
        invariant
            i <= tces@.len(),
            total_of_first(emissions(tces@), i as nat) == Some(acc),
        decreases tces@.len() - i,
    {
        assert(tces@[i as int].co2e_wtw.0 == emissions(tces@)[i as int]);
        match acc.checked_add(&tces[i].co2e_wtw.0) {
            Some(next) => {
                acc = next;
            },
            None => {
                proof {
                    lemma_total_stays_none(emissions(tces@), (i + 1) as nat, tces@.len());
                }
                return None;
            },
        }
        i = i + 1;
    }
    Some(acc)
}

impl PactMapped for ShipmentFootprint {
    /// A shipment is declared in ton kilometers: the amount is the sum of the
    /// transport activities of its legs, the emissions are the sum of their
    /// well-to-wheel emissions.
    open spec fn pact_fields(&self) -> Result<PactMappedFieldsView, PcfError> {
        match total(activities(self.tces.0@)) {
            Some(amount) => match total(emissions(self.tces.0@)) {
                Some(co2e) => Ok(
                    PactMappedFieldsView {
                        product_id_type: "shipment"@,
                        data_schema_id: "shipment-footprint"@,
                        id: self.shipment_id@,
                        product_name_company: "ShipmentFootprint with id "@ + self.shipment_id@,
                        declared_unit: DeclaredUnit::TonKilometer,
                        unitary_product_amount: amount,
                        p_cf_excluding_biogenic: co2e,
                    },
                ),
                None => Err(sum_error()),
            },
            None => Err(sum_error()),
        }
    }

    fn to_pact_fields(&self) -> (r: Result<PactMappedFields, PcfError>) {
        let amount = match total_activity(&self.tces.0) {
            Some(amount) => amount,
            None => {
                return Err(
                    PcfError::Validation(
                        ValidationError::new(Field::Decimal, Reason::OutOfRange),
                    ),
                );
            },
        };
        let co2e = match total_emissions(&self.tces.0) {
            Some(co2e) => co2e,
            None => {
                return Err(
                    PcfError::Validation(
                        ValidationError::new(Field::Decimal, Reason::OutOfRange),
                    ),
                );
            },
        };
        let mut name = "ShipmentFootprint with id ".to_owned();
        name.append(self.shipment_id.as_str());
        Ok(
            PactMappedFields {
                product_id_type: "shipment",
                data_schema_id: "shipment-footprint",
                id: self.shipment_id.clone(),
                product_name_company: name,
                declared_unit: DeclaredUnit::TonKilometer,
                unitary_product_amount: amount,
                p_cf_excluding_biogenic: co2e,
            },
        )
    }
}

impl PactMapped for Hoc {
    /// A hub operation category is declared in kilograms: the amount is one
    /// thousand, the emissions are the well-to-wheel intensity per tonne. An
    /// intensity per twenty-foot equivalent unit cannot be mapped.
    open spec fn pact_fields(&self) -> Result<PactMappedFieldsView, PcfError> {
        match self.hub_activity_unit {
            HubActivityUnit::TEU => Err(PcfError::UnsupportedThroughputUnit),
            HubActivityUnit::Tonnes => Ok(
                PactMappedFieldsView {
                    product_id_type: "hoc"@,
                    data_schema_id: "hoc"@,
                    id: self.hoc_id@,
                    product_name_company: "HOC with ID "@ + self.hoc_id@,
                    declared_unit: DeclaredUnit::Kilogram,
                    unitary_product_amount: Decimal { mantissa: 1000, scale: 0 },
                    p_cf_excluding_biogenic: self.co2e_intensity_wtw.0,
                },
            ),
        }
    }

    fn to_pact_fields(&self) -> (r: Result<PactMappedFields, PcfError>) {
        match self.hub_activity_unit {
            HubActivityUnit::TEU => Err(PcfError::UnsupportedThroughputUnit),
            HubActivityUnit::Tonnes => {
                let mut name = "HOC with ID ".to_owned();
                name.append(self.hoc_id.as_str());
                Ok(
                    PactMappedFields {
                        product_id_type: "hoc",
                        data_schema_id: "hoc",
                        id: self.hoc_id.clone(),
                        product_name_company: name,
                        declared_unit: DeclaredUnit::Kilogram,
                        unitary_product_amount: Decimal::from_i64(1000),
                        p_cf_excluding_biogenic: self.co2e_intensity_wtw.0,
                    },
                )
            },
        }
    }
}

impl PactMapped for Toc {
    /// A transport operation category is declared in ton kilometers: the
    /// amount is one, the emissions are the well-to-wheel intensity.
    open spec fn pact_fields(&self) -> Result<PactMappedFieldsView, PcfError> {
        Ok(
            PactMappedFieldsView {
                product_id_type: "toc"@,
                data_schema_id: "toc"@,
                id: self.toc_id@,
                product_name_company: "TOC with ID "@ + self.toc_id@,
                declared_unit: DeclaredUnit::TonKilometer,
                unitary_product_amount: Decimal { mantissa: 1, scale: 0 },
                p_cf_excluding_biogenic: self.co2e_intensity_wtw.0,
            },
        )
    }

    fn to_pact_fields(&self) -> (r: Result<PactMappedFields, PcfError>) {
        let mut name = "TOC with ID ".to_owned();
        name.append(self.toc_id.as_str());
        Ok(
            PactMappedFields {
                product_id_type: "toc",
                data_schema_id: "toc",
                id: self.toc_id.clone(),
                product_name_company: name,
                declared_unit: DeclaredUnit::TonKilometer,
                unitary_product_amount: Decimal::from_i64(1),
                p_cf_excluding_biogenic: self.co2e_intensity_wtw.0,
            },
        )
    }
}

impl PactMapped for ILeapType {
    open spec fn pact_fields(&self) -> Result<PactMappedFieldsView, PcfError> {
        match self {
            ILeapType::ShipmentFootprint(shipment) => shipment.pact_fields(),
            ILeapType::Toc(toc) => toc.pact_fields(),
            ILeapType::Hoc(hoc) => hoc.pact_fields(),
        }
    }

    fn to_pact_fields(&self) -> (r: Result<PactMappedFields, PcfError>) {
        match self {
            ILeapType::ShipmentFootprint(shipment) => shipment.to_pact_fields(),
            ILeapType::Toc(toc) => toc.to_pact_fields(),
            ILeapType::Hoc(hoc) => hoc.to_pact_fields(),
        }
    }
}

/// The characterization factors that were given, as a mathematical value.
pub open spec fn factors_of(given: Option<Vec<CharacterizationFactors>>) -> Option<
    Seq<CharacterizationFactors>,
> {
    match given {
        Some(list) => Some(list@),
        None => None,
    }
}

/// The characterization factors under which the footprint is filed: those
/// of the fifth assessment report where none are given or they are among
/// the given ones, else those of the sixth.
pub open spec fn headline_factor(
    given: Option<Seq<CharacterizationFactors>>,
) -> CharacterizationFactors {
    match given {
        Some(list) => if list.len() == 0 || list.contains(CharacterizationFactors::Ar5) {
            CharacterizationFactors::Ar5
        } else {
            CharacterizationFactors::Ar6
        },
        None => CharacterizationFactors::Ar5,
    }
}

/// The names of the sources of the characterization factors: the name of
/// each given one in its place, or the fifth assessment report alone where
/// none are given.
pub open spec fn source_names(given: Option<Seq<CharacterizationFactors>>) -> Seq<Seq<char>> {
    match given {
        Some(list) => if list.len() == 0 {
            seq!["AR5"@]
        } else {
            list.map_values(|f: CharacterizationFactors| f.wire_name())
        },
        None => seq!["AR5"@],
    }
}

/// The texts of the sources in their order.
pub open spec fn source_texts(sources: Seq<IpccCharacterizationFactorsSource>) -> Seq<Seq<char>> {
    sources.map_values(|s: IpccCharacterizationFactorsSource| s.0@)
}

/// Every source is the name of an assessment report.
pub open spec fn sources_wf(sources: Seq<IpccCharacterizationFactorsSource>) -> bool {
    forall|i: int| 0 <= i < sources.len() ==> (#[trigger] sources[i]).wf()
}

/// Resolves the optional characterization factors into the factors under
/// which the footprint is filed and the list of their sources.
pub fn to_char_factors(characterization_factors: Option<Vec<CharacterizationFactors>>) -> (r: (
    CharacterizationFactors,
    Vec<IpccCharacterizationFactorsSource>,
))
    ensures
        r.0 == headline_factor(factors_of(characterization_factors)),
        source_texts(r.1@) == source_names(factors_of(characterization_factors)),
        sources_wf(r.1@),
        r.1@.len() >= 1,
{
    let given = match characterization_factors {
        Some(list) => list,
        None => Vec::new(),
    };
    if given.len() == 0 {
        let sources = vec![IpccCharacterizationFactorsSource::of(CharacterizationFactors::Ar5)];
        assert(source_texts(sources@) =~= seq!["AR5"@]);
        return (CharacterizationFactors::Ar5, sources);
    }
    let mut sources: Vec<IpccCharacterizationFactorsSource> = Vec::new();
    let mut has_ar5 = false;
    let mut i: usize = 0;
    while i < given.len()
        invariant
            i <= given@.len(),
            sources@.len() == i,
            sources_wf(sources@),
            forall|k: int| 0 <= k < i ==> (#[trigger] sources@[k]).0@ == given@[k].wire_name(),
            has_ar5 <==> given@.take(i as int).contains(CharacterizationFactors::Ar5),
        decreases given@.len() - i,
    {
        let factor = given[i];
        sources.push(IpccCharacterizationFactorsSource::of(factor));
        proof {
            let before = given@.take(i as int);
            let after = given@.take(i + 1);
            assert(after =~= before.push(factor));
            if before.contains(CharacterizationFactors::Ar5) {
                let k = choose|k: int| 0 <= k < before.len() && before[k] == CharacterizationFactors::Ar5;
                assert(after[k] == CharacterizationFactors::Ar5);
            }
            if factor == CharacterizationFactors::Ar5 {
                assert(after[i as int] == CharacterizationFactors::Ar5);
            }
        }
        match factor {
            CharacterizationFactors::Ar5 => {
                has_ar5 = true;
            },
            CharacterizationFactors::Ar6 => {},
        }
        i = i + 1;
    }
    proof {
        assert(given@.take(given@.len() as int) =~= given@);
        assert(source_texts(sources@) =~= given@.map_values(
            |f: CharacterizationFactors| f.wire_name(),
        ));
    }
    let headline = if has_ar5 {
        CharacterizationFactors::Ar5
    } else {
        CharacterizationFactors::Ar6
    };
    (headline, sources)
}

/// The URN of a product of the given kind with the given identifier.
pub open spec fn product_urn(kind: Seq<char>, id: Seq<char>) -> Seq<char> {
    "urn:pathfinder:product:customcode:vendor-assigned:"@ + kind + ":"@ + id
}

/// The address of the schema with the given identifier.
pub open spec fn schema_url(schema_id: Seq<char>) -> Seq<char> {
    "https://api.ileap.sine.dev/"@ + schema_id + ".json"@
}

/// The error of a value that breaks the rule of its type.
pub open spec fn invalid(field: Field, reason: Reason) -> PcfError {
    PcfError::Validation(ValidationError { field, reason })
}

/// The first reason for which no footprint can be made of the arguments: the
/// fields could not be derived from the record, the name of the company is
/// empty, its identifier is no URN, the name of the product is empty, the
/// amount is not more than zero, or the emissions are below zero.
pub open spec fn input_error(
    fields: Result<PactMappedFieldsView, PcfError>,
    company_name: Seq<char>,
    company_urn: Seq<char>,
) -> Option<PcfError> {
    match fields {
        Err(e) => Some(e),
        Ok(f) => if company_name.len() == 0 {
            Some(invalid(Field::NonEmptyString, Reason::Empty))
        } else if !has_urn_prefix(company_urn) {
            Some(invalid(Field::Urn, Reason::Malformed))
        } else if f.product_name_company.len() == 0 {
            Some(invalid(Field::NonEmptyString, Reason::Empty))
        } else if !StrictlyPositiveDecimal(f.unitary_product_amount).wf() {
            Some(invalid(Field::StrictlyPositiveDecimal, Reason::OutOfRange))
        } else if !PositiveDecimal(f.p_cf_excluding_biogenic).wf() {
            Some(invalid(Field::PositiveDecimal, Reason::OutOfRange))
        } else {
            None
        },
    }
}

/// The first reason for which no footprint can be assembled under the
/// identifier `id` at the time `now`: what is wrong with the arguments, else
/// an identifier of another version than 4, else a reference period that
/// ends beyond the range of time.
pub open spec fn assembly_error(
    fields: Result<PactMappedFieldsView, PcfError>,
    company_name: Seq<char>,
    company_urn: Seq<char>,
    id: PfId,
    now: Timestamp,
) -> Option<PcfError> {
    if input_error(fields, company_name, company_urn) is Some {
        input_error(fields, company_name, company_urn)
    } else if !id.wf() {
        Some(invalid(Field::PfId, Reason::OutOfRange))
    } else if now.shifted_by_days(REFERENCE_PERIOD_DAYS) is None {
        Some(invalid(Field::ReferencePeriod, Reason::OutOfRange))
    } else {
        None
    }
}

/// The carbon footprint is the one that is derived from the mapped fields:
/// the declared unit, the amount and the emissions come from the record, and
/// every other member has its fixed value.
pub open spec fn is_mapped_carbon_footprint(
    pcf: CarbonFootprint,
    f: PactMappedFieldsView,
    given: Option<Seq<CharacterizationFactors>>,
    now: Timestamp,
) -> bool {
    &&& pcf.declared_unit == f.declared_unit
    &&& pcf.unitary_product_amount.0 == f.unitary_product_amount
    &&& pcf.p_cf_excluding_biogenic.0 == f.p_cf_excluding_biogenic
    &&& pcf.p_cf_including_biogenic is None
    &&& pcf.fossil_ghg_emissions.0 == f.p_cf_excluding_biogenic
    &&& pcf.fossil_carbon_content.0 == (Decimal { mantissa: 0, scale: 0 })
    &&& pcf.biogenic_carbon_content.0 == (Decimal { mantissa: 0, scale: 0 })
    &&& pcf.d_luc_ghg_emissions is None
    &&& pcf.land_management_ghg_emissions is None
    &&& pcf.other_biogenic_ghg_emissions is None
    &&& pcf.i_luc_ghg_emissions is None
    &&& pcf.biogenic_carbon_withdrawal is None
    &&& pcf.aircraft_ghg_emissions is None
    &&& pcf.characterization_factors == headline_factor(given)
    &&& source_texts(pcf.ipcc_characterization_factors_sources.0@) == source_names(given)
    &&& pcf.cross_sectoral_standards_used.0@ == seq![CrossSectoralStandard::ISO14083]
    &&& pcf.product_or_sector_specific_rules is None
    &&& pcf.biogenic_accounting_methodology is None
    &&& pcf.boundary_processes_description@ == Seq::<char>::empty()
    &&& pcf.reference_period_start == now
    &&& Some(pcf.reference_period_end) == now.shifted_by_days(REFERENCE_PERIOD_DAYS)
    &&& pcf.geographic_scope is None
    &&& pcf.secondary_emission_factor_sources is None
    &&& pcf.exempted_emissions_percent.bits == 0
    &&& pcf.exempted_emissions_description@ == Seq::<char>::empty()
    &&& !pcf.packaging_emissions_included
    &&& pcf.packaging_ghg_emissions is None
    &&& pcf.allocation_rules_description is None
    &&& pcf.uncertainty_assessment_description is None
    &&& pcf.primary_data_share is None
    &&& pcf.dqi is None
    &&& pcf.assurance is None
}

/// The extensions are the single extension that carries the record.
pub open spec fn is_single_extension<T>(
    extensions: Option<Vec<DataModelExtension<T>>>,
    payload: T,
    f: PactMappedFieldsView,
) -> bool {
    &&& extensions matches Some(list)
    &&& list@.len() == 1
    &&& list@[0].spec_version.0@ == "0.2.0"@
    &&& list@[0].data_schema@ == schema_url(f.data_schema_id)
    &&& list@[0].documentation matches Some(d)
    &&& d@ == "https://sine-fdn.github.io/ileap-extension/"@
    &&& list@[0].data == payload
}

/// The footprint is the one that is assembled for the record `payload` with
/// the mapped fields `f`, for the company with the given name and URN, under
/// the identifier `id` at the time `now`.
pub open spec fn is_footprint_of<T>(
    pf: ProductFootprint<T>,
    payload: T,
    f: PactMappedFieldsView,
    company_name: Seq<char>,
    company_urn: Seq<char>,
    given: Option<Seq<CharacterizationFactors>>,
    id: PfId,
    now: Timestamp,
) -> bool {
    &&& pf.id == id
    &&& pf.spec_version.0@ == "2.2.0"@
    &&& pf.preceding_pf_ids is None
    &&& pf.version == VersionInteger(1)
    &&& pf.created == now
    &&& pf.updated is None
    &&& pf.status == PfStatus::Active
    &&& pf.status_comment is None
    &&& pf.validity_period_start is None
    &&& pf.validity_period_end is None
    &&& pf.company_name.0@ == company_name
    &&& pf.company_ids.0@.len() == 1
    &&& pf.company_ids.0@[0].0@ == company_urn
    &&& pf.product_description@ == Seq::<char>::empty()
    &&& pf.product_ids.0@.len() == 1
    &&& pf.product_ids.0@[0].0@ == product_urn(f.product_id_type, f.id)
    &&& pf.product_category_cpc.0@ == "83117"@
    &&& pf.product_name_company.0@ == f.product_name_company
    &&& pf.comment@ == Seq::<char>::empty()
    &&& is_mapped_carbon_footprint(pf.pcf, f, given, now)
    &&& is_single_extension(pf.extensions, payload, f)
}

/// The envelope of the footprint is valid: its identity, its subject and its
/// carbon footprint break no rule, and it has at least one extension.
pub open spec fn envelope_valid<T: Validate>(pf: ProductFootprint<T>) -> bool {
    &&& pf.identity_violation() is None
    &&& pf.subject_violation() is None
    &&& pf.pcf.violation() is None
    &&& pf.extensions matches Some(list) && list@.len() >= 1
}

/// The two versions named in a footprint follow the pattern of versions.
proof fn lemma_fixed_versions()
    ensures
        is_spec_version("2.2.0"@),
        is_spec_version("0.2.0"@),
{
    reveal_strlit("2.2.0");
    reveal_strlit("0.2.0");
    reveal_with_fuel(digits_end, 3);
}

/// A mapped footprint of a record whose fields pass the checks of the
/// assembly has a valid envelope.
proof fn lemma_envelope_valid<T: Validate>(
    pf: ProductFootprint<T>,
    payload: T,
    f: PactMappedFieldsView,
    company_name: Seq<char>,
    company_urn: Seq<char>,
    given: Option<Seq<CharacterizationFactors>>,
    id: PfId,
    now: Timestamp,
)
    requires
        is_footprint_of(pf, payload, f, company_name, company_urn, given, id, now),
        assembly_error(Ok(f), company_name, company_urn, id, now) is None,
        sources_wf(pf.pcf.ipcc_characterization_factors_sources.0@),
        pf.pcf.ipcc_characterization_factors_sources.0@.len() >= 1,
    ensures
        envelope_valid(pf),
{
    lemma_fixed_versions();
    reveal_strlit("83117");
    reveal_strlit("urn:pathfinder:product:customcode:vendor-assigned:");
    let urn = product_urn(f.product_id_type, f.id);
    let prefix = "urn:pathfinder:product:customcode:vendor-assigned:"@;
    assert(prefix.len() == 50);
    assert(urn[0] == prefix[0] && urn[1] == prefix[1] && urn[2] == prefix[2] && urn[3]
        == prefix[3]);
    assert(has_urn_prefix(urn));
    reveal_with_fuel(first_violation_from, 2);
    assert(first_violation(pf.company_ids.0@) is None);
    assert(first_violation(pf.product_ids.0@) is None);
    crate::validate::lemma_first_violation_none(pf.pcf.ipcc_characterization_factors_sources.0@, 0);
    assert(pf.pcf.ipcc_characterization_factors_sources.violation() is None);
    assert(pf.pcf.emissions_violation() is None);
    assert(pf.pcf.breakdown_violation() is None);
    assert(pf.pcf.reference_period_start.before(pf.pcf.reference_period_end));
    assert(pf.pcf.method_violation() is None);
    assert(pf.pcf.quality_violation() is None);
}

/// Assembles the product footprint of a record under the identifier `id` at
/// the time `now`. The record becomes the payload of the single extension;
/// the reference period starts at `now` and lasts 364 days.
pub fn assemble_pcf<T: PactMapped + Validate>(
    ileap_type: T,
    company_name: &str,
    company_urn: &str,
    characterization_factors: Option<Vec<CharacterizationFactors>>,
    id: PfId,
    now: Timestamp,
) -> (r: Result<ProductFootprint<T>, PcfError>)
    ensures
        match assembly_error(ileap_type.pact_fields(), company_name@, company_urn@, id, now) {
            Some(e) => r == Err::<ProductFootprint<T>, PcfError>(e),
            None => r matches Ok(pf) && is_footprint_of(
                pf,
                ileap_type,
                ileap_type.pact_fields()->Ok_0,
                company_name@,
                company_urn@,
                factors_of(characterization_factors),
                id,
                now,
            ) && envelope_valid(pf),
        },
{
    let ghost given = factors_of(characterization_factors);
    let (headline, sources) = to_char_factors(characterization_factors);
    let fields = match ileap_type.to_pact_fields() {
        Ok(fields) => fields,
        Err(e) => {
            return Err(e);
        },
    };
    let ghost f = fields@;
    let PactMappedFields {
        product_id_type,
        data_schema_id,
        id: record_id,
        product_name_company,
        declared_unit,
        unitary_product_amount,
        p_cf_excluding_biogenic,
    } = fields;
    let company = match NonEmptyString::new(company_name.to_owned()) {
        Ok(company) => company,
        Err(e) => {
            return Err(PcfError::Validation(e));
        },
    };
    let company_id = match Urn::new(company_urn.to_owned()) {
        Ok(company_id) => company_id,
        Err(e) => {
            return Err(PcfError::Validation(e));
        },
    };
    let product_name = match NonEmptyString::new(product_name_company) {
        Ok(product_name) => product_name,
        Err(e) => {
            return Err(PcfError::Validation(e));
        },
    };
    let amount = match StrictlyPositiveDecimal::new(unitary_product_amount) {
        Ok(amount) => amount,
        Err(e) => {
            return Err(PcfError::Validation(e));
        },
    };
    let co2e = match PositiveDecimal::new(p_cf_excluding_biogenic) {
        Ok(co2e) => co2e,
        Err(e) => {
            return Err(PcfError::Validation(e));
        },
    };
    if !id.is_valid() {
        return Err(PcfError::Validation(ValidationError::new(Field::PfId, Reason::OutOfRange)));
    }
    let period_end = match now.plus_days(REFERENCE_PERIOD_DAYS) {
        Some(period_end) => period_end,
        None => {
            return Err(
                PcfError::Validation(
                    ValidationError::new(Field::ReferencePeriod, Reason::OutOfRange),
                ),
            );
        },
    };
    let mut product_id = "urn:pathfinder:product:customcode:vendor-assigned:".to_owned();
    product_id.append(product_id_type);
    product_id.append(":");
    product_id.append(record_id.as_str());
    let mut data_schema = "https://api.ileap.sine.dev/".to_owned();
    data_schema.append(data_schema_id);
    data_schema.append(".json");
    let zero = PositiveDecimal(Decimal::from_i64(0));
    let footprint = ProductFootprint {
        id,
        spec_version: SpecVersionString("2.2.0".to_owned()),
        preceding_pf_ids: None,
        version: VersionInteger(1),
        created: now,
        updated: None,
        status: PfStatus::Active,
        status_comment: None,
        validity_period_start: None,
        validity_period_end: None,
        company_name: company,
        company_ids: CompanyIdSet(vec![company_id]),
        product_description: String::new(),
        product_ids: ProductIdSet(vec![Urn(product_id)]),
        product_category_cpc: NonEmptyString("83117".to_owned()),
        product_name_company: product_name,
        comment: String::new(),
        pcf: CarbonFootprint {
            declared_unit,
            unitary_product_amount: amount,
            p_cf_excluding_biogenic: co2e,
            p_cf_including_biogenic: None,
            fossil_ghg_emissions: co2e,
            fossil_carbon_content: zero,
            biogenic_carbon_content: zero,
            d_luc_ghg_emissions: None,
            land_management_ghg_emissions: None,
            other_biogenic_ghg_emissions: None,
            i_luc_ghg_emissions: None,
            biogenic_carbon_withdrawal: None,
            aircraft_ghg_emissions: None,
            characterization_factors: headline,
            ipcc_characterization_factors_sources: IpccCharacterizationFactorsSources(sources),
            cross_sectoral_standards_used: CrossSectoralStandardSet(
                vec![CrossSectoralStandard::ISO14083],
            ),
            product_or_sector_specific_rules: None,
            biogenic_accounting_methodology: None,
            boundary_processes_description: String::new(),
            reference_period_start: now,
            reference_period_end: period_end,
            geographic_scope: None,
            secondary_emission_factor_sources: None,
            exempted_emissions_percent: ExemptedEmissionsPercent::zero(),
            exempted_emissions_description: String::new(),
            packaging_emissions_included: false,
            packaging_ghg_emissions: None,
            allocation_rules_description: None,
            uncertainty_assessment_description: None,
            primary_data_share: None,
            dqi: None,
            assurance: None,
        },
        extensions: Some(
            vec![
                DataModelExtension {
                    spec_version: SpecVersionString("0.2.0".to_owned()),
                    data_schema,
                    documentation: Some("https://sine-fdn.github.io/ileap-extension/".to_owned()),
                    data: ileap_type,
                },
            ],
        ),
    };
    proof {
        assert(footprint.pcf.cross_sectoral_standards_used.0@ =~= seq![
            CrossSectoralStandard::ISO14083,
        ]);
        assert(is_footprint_of(
            footprint,
            ileap_type,
            f,
            company_name@,
            company_urn@,
            given,
            id,
            now,
        ));
        lemma_envelope_valid(
            footprint,
            ileap_type,
            f,
            company_name@,
            company_urn@,
            given,
            id,
            now,
        );
    }
    Ok(footprint)
}

/// `r` is what the conversion of `payload` may return for the company with
/// the given name and URN: the error of the arguments where they have one,
/// else a footprint with an identifier of version 4 and a time of the
/// calendar, assembled for them.
pub open spec fn is_conversion_of<T: PactMapped + Validate>(
    r: Result<ProductFootprint<T>, PcfError>,
    payload: T,
    company_name: Seq<char>,
    company_urn: Seq<char>,
    given: Option<Seq<CharacterizationFactors>>,
) -> bool {
    match input_error(payload.pact_fields(), company_name, company_urn) {
        Some(e) => r == Err::<ProductFootprint<T>, PcfError>(e),
        None => {
            &&& r matches Ok(pf)
            &&& pf.id.wf()
            &&& pf.created.in_calendar_range()
            &&& is_footprint_of(
                pf,
                payload,
                payload.pact_fields()->Ok_0,
                company_name,
                company_urn,
                given,
                pf.id,
                pf.created,
            )
            &&& envelope_valid(pf)
        },
    }
}

/// Converts a logistics record into a product footprint of the company with
/// the given name and URN. The footprint gets a fresh random identifier and
/// the current time; everything else is determined by the arguments.
pub fn to_pcf<T: PactMapped + Validate>(
    ileap_type: T,
    company_name: &str,
    company_urn: &str,
    characterization_factors: Option<Vec<CharacterizationFactors>>,
) -> (r: Result<ProductFootprint<T>, PcfError>)
    ensures
        is_conversion_of(
            r,
            ileap_type,
            company_name@,
            company_urn@,
            factors_of(characterization_factors),
        ),
{
    let id = PfId::new_v4();
    let now = Timestamp::now();
    assemble_pcf(ileap_type, company_name, company_urn, characterization_factors, id, now)
}

/// The footprint of a shipment declares the sum of the transport activities
/// of the legs as its amount and the sum of their well-to-wheel emissions as
/// its emissions, in ton kilometers.
pub proof fn lemma_shipment_conversion(
    shipment: ShipmentFootprint,
    company_name: Seq<char>,
    company_urn: Seq<char>,
    given: Option<Seq<CharacterizationFactors>>,
    pf: ProductFootprint<ShipmentFootprint>,
)
    requires
        is_conversion_of(Ok(pf), shipment, company_name, company_urn, given),
    ensures
        pf.pcf.declared_unit == DeclaredUnit::TonKilometer,
        total(activities(shipment.tces.0@)) == Some(pf.pcf.unitary_product_amount.0),
        total(emissions(shipment.tces.0@)) == Some(pf.pcf.p_cf_excluding_biogenic.0),
{
}

/// A hub operation category whose intensity refers to tonnes is declared as
/// one thousand kilograms with that intensity as emissions; one whose
/// intensity refers to twenty-foot equivalent units is not converted.
pub proof fn lemma_hoc_conversion(
    hoc: Hoc,
    company_name: Seq<char>,
    company_urn: Seq<char>,
    given: Option<Seq<CharacterizationFactors>>,
    r: Result<ProductFootprint<Hoc>, PcfError>,
)
    requires
        is_conversion_of(r, hoc, company_name, company_urn, given),
    ensures
        hoc.hub_activity_unit == HubActivityUnit::TEU ==> r == Err::<
            ProductFootprint<Hoc>,
            PcfError,
        >(PcfError::UnsupportedThroughputUnit),
        r matches Ok(pf) ==> {
            &&& hoc.hub_activity_unit == HubActivityUnit::Tonnes
            &&& pf.pcf.declared_unit == DeclaredUnit::Kilogram
            &&& pf.pcf.unitary_product_amount.0 == (Decimal { mantissa: 1000, scale: 0 })
            &&& pf.pcf.p_cf_excluding_biogenic.0 == hoc.co2e_intensity_wtw.0
        },
{
}

/// A transport operation category is declared as one ton kilometer with its
/// well-to-wheel intensity as emissions.
pub proof fn lemma_toc_conversion(
    toc: Toc,
    company_name: Seq<char>,
    company_urn: Seq<char>,
    given: Option<Seq<CharacterizationFactors>>,
    pf: ProductFootprint<Toc>,
)
    requires
        is_conversion_of(Ok(pf), toc, company_name, company_urn, given),
    ensures
        pf.pcf.declared_unit == DeclaredUnit::TonKilometer,
        pf.pcf.unitary_product_amount.0 == (Decimal { mantissa: 1, scale: 0 }),
        pf.pcf.p_cf_excluding_biogenic.0 == toc.co2e_intensity_wtw.0,
{
}

/// A record is converted exactly when it can be mapped, the company has a
/// name and a URN, and the mapped amount and emissions have their signs.
pub proof fn lemma_conversion_succeeds<T: PactMapped + Validate>(
    payload: T,
    company_name: Seq<char>,
    company_urn: Seq<char>,
    given: Option<Seq<CharacterizationFactors>>,
    r: Result<ProductFootprint<T>, PcfError>,
)
    requires
        is_conversion_of(r, payload, company_name, company_urn, given),
    ensures
        r is Ok <==> input_error(payload.pact_fields(), company_name, company_urn) is None,
{
}

/// The sources of the characterization factors: the fifth assessment report
/// alone where no factors are given, else the given ones in their order; the
/// footprint is filed under the fifth report unless only others are given.
pub proof fn lemma_characterization_factors(given: Option<Seq<CharacterizationFactors>>)
    ensures
        given is None || given->Some_0.len() == 0 ==> headline_factor(given)
            == CharacterizationFactors::Ar5 && source_names(given) == seq!["AR5"@],
        given is Some && given->Some_0.len() > 0 ==> {
            let list = given->Some_0;
            &&& source_names(given).len() == list.len()
            &&& forall|i: int|
                0 <= i < list.len() ==> #[trigger] source_names(given)[i] == list[i].wire_name()
            &&& headline_factor(given) == CharacterizationFactors::Ar5 <==> exists|i: int|
                0 <= i < list.len() && list[i] == CharacterizationFactors::Ar5
        },
{
}

} // verus!
