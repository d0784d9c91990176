//! The records of the logistics extension: shipments and their legs, the
//! operation categories of transports and hubs, and transport activity data.

use vstd::prelude::*;
use crate::decimal::{
    lemma_total_stays_none, total, total_of_first, Decimal,
};
use crate::distance::GlecDistance;
use crate::error::{first_of, outcome, Field, Reason, ValidationError};
use crate::ileap_vocabulary::{
    AirShippingOption, Certification, EnergyCarrierType, EnergyConsumptionUnit, FeedstockType,
    FlightLength, HubActivityUnit, HubType, Incoterms, PackagingOrTrEqType, TadTempControl,
    TemperatureControl, TransportActivityUnit, TransportMode, TruckLoadingSequence,
};
use crate::numbers::{PositiveDecimal, WrappedDecimal};
use crate::scalars::{IataCode, ISO3166CC, Locode, NonEmptyVec, UicCode};
use crate::time::Timestamp;
use crate::validate::{
    first_violation, optional_violation, validate_all, validate_optional, Validate,
};

verus! {

/// The identifier of a transport activity.
pub type ActivityId = String;

/// The identifier of a consignment.
pub type ConsignementId = String;

/// The identifier of a shipment.
pub type ShipmentId = String;

/// A feedstock of an energy carrier, with its share of the carrier as a
/// fraction of one where the share is known.
#[derive(Clone, Debug, PartialEq, Eq, Hash)]
pub struct Feedstock {
    pub feedstock: FeedstockType,
    pub feedstock_share: Option<WrappedDecimal>,
    pub region_provenance: Option<String>,
}

/// An energy carrier of an operation category. The known shares of its
/// feedstocks add up to one at most.
#[derive(Clone, Debug, PartialEq, Eq, Hash)]
pub struct EnergyCarrier {
    pub energy_carrier: EnergyCarrierType,
    pub feedstocks: Option<Vec<Feedstock>>,
    pub energy_consumption: Option<WrappedDecimal>,
    pub energy_consumption_unit: Option<EnergyConsumptionUnit>,
    pub emission_factor_wtw: WrappedDecimal,
    pub emission_factor_ttw: WrappedDecimal,
    pub relative_share: WrappedDecimal,
}

/// A place.
#[derive(Clone, Debug, PartialEq, Eq, Hash)]
pub struct Location {
    pub street: Option<String>,
    pub zip: Option<String>,
    pub city: String,
    pub country: ISO3166CC,
    pub iata: Option<IataCode>,
    pub locode: Option<Locode>,
    pub uic: Option<UicCode>,
    pub lat: Option<WrappedDecimal>,
    pub lng: Option<WrappedDecimal>,
}

/// A transport chain element: one leg of the path of a shipment, operated
/// either by a transport (`toc_id`) or by a hub (`hoc_id`), never by both
/// and never by neither. A leg through a hub moves no cargo over a distance:
/// its transport activity is zero.
#[derive(Clone, Debug, PartialEq, Eq, Hash)]
pub struct Tce {
    pub tce_id: String,
    pub prev_tce_ids: Option<Vec<String>>,
    pub toc_id: Option<String>,
    pub hoc_id: Option<String>,
    pub shipment_id: String,
    pub consignment_id: Option<String>,
    pub mass: WrappedDecimal,
    pub packaging_or_tr_eq_type: Option<PackagingOrTrEqType>,
    pub packaging_or_tr_eq_amount: Option<PositiveDecimal>,
    pub distance: GlecDistance,
    pub origin: Option<Location>,
    pub destination: Option<Location>,
    pub transport_activity: WrappedDecimal,
    pub departure_at: Option<Timestamp>,
    pub arrival_at: Option<Timestamp>,
    pub flight_no: Option<String>,
    pub voyage_no: Option<String>,
    pub incoterms: Option<Incoterms>,
    pub co2e_wtw: WrappedDecimal,
    pub co2e_ttw: WrappedDecimal,
    pub nox_ttw: Option<WrappedDecimal>,
    pub sox_ttw: Option<WrappedDecimal>,
    pub ch4_ttw: Option<WrappedDecimal>,
    pub pm_ttw: Option<WrappedDecimal>,
}

/// The footprint of a shipment: its legs in order, each carrying the
/// identifier of the shipment.
#[derive(Clone, Debug, PartialEq, Eq, Hash)]
pub struct ShipmentFootprint {
    pub mass: String,
    pub volume: Option<String>,
    pub shipment_id: String,
    pub tces: NonEmptyVec<Tce>,
}

/// A transport operation category: the emission intensity of a kind of
/// transport per unit of transport activity.
#[derive(Clone, Debug, PartialEq, Eq, Hash)]
pub struct Toc {
    pub toc_id: String,
    pub certifications: Option<NonEmptyVec<Certification>>,
    pub description: Option<String>,
    pub mode: TransportMode,
    pub load_factor: Option<String>,
    pub empty_distance_factor: Option<String>,
    pub temperature_control: Option<TemperatureControl>,
    pub truck_loading_sequence: Option<TruckLoadingSequence>,
    pub air_shipping_option: Option<AirShippingOption>,
    pub flight_length: Option<FlightLength>,
    pub energy_carriers: NonEmptyVec<EnergyCarrier>,
    pub co2e_intensity_wtw: WrappedDecimal,
    pub co2e_intensity_ttw: WrappedDecimal,
    pub transport_activity_unit: TransportActivityUnit,
}

/// A hub operation category: the emission intensity of a kind of hub per
/// unit of throughput.
#[derive(Clone, Debug, PartialEq, Eq, Hash)]
pub struct Hoc {
    pub hoc_id: String,
    pub description: Option<String>,
    pub certifications: Option<NonEmptyVec<Certification>>,
    pub hub_type: HubType,
    pub temperature_control: Option<TemperatureControl>,
    pub hub_location: Option<Location>,
    pub inbound_transport_mode: Option<TransportMode>,
    pub outbound_transport_mode: Option<TransportMode>,
    pub packaging_or_tr_eq_type: Option<PackagingOrTrEqType>,
    pub packaging_or_tr_eq_amount: Option<usize>,
    pub energy_carriers: NonEmptyVec<EnergyCarrier>,
    pub co2e_intensity_wtw: WrappedDecimal,
    pub co2e_intensity_ttw: WrappedDecimal,
    pub hub_activity_unit: HubActivityUnit,
}

/// Transport activity data: one observed movement of cargo.
#[derive(Clone, Debug, PartialEq, Eq, Hash)]
pub struct Tad {
    pub activity_id: ActivityId,
    pub consignment_ids: Vec<ConsignementId>,
    pub distance: GlecDistance,
    pub mass: Option<WrappedDecimal>,
    pub load_factor: Option<WrappedDecimal>,
    pub empty_distance_factor: Option<WrappedDecimal>,
    pub origin: Location,
    pub destination: Location,
    pub departure_at: Timestamp,
    pub arrival_at: Timestamp,
    pub mode: TransportMode,
    pub packaging_or_tr_eq_type: Option<PackagingOrTrEqType>,
    pub packaging_or_tr_eq_amount: Option<usize>,
    pub energy_carriers: Option<NonEmptyVec<EnergyCarrier>>,
    pub temperature_control: Option<TadTempControl>,
}

/// A record of the logistics extension that can be the payload of a product
/// footprint.
#[derive(Clone, Debug, PartialEq, Eq, Hash)]
pub enum ILeapType {
    ShipmentFootprint(ShipmentFootprint),
    Toc(Toc),
    Hoc(Hoc),
}

/// The share of a feedstock, zero where it is not known.
pub open spec fn share_of(f: Feedstock) -> Decimal {
    match f.feedstock_share {
        Some(share) => share.0,
        None => Decimal { mantissa: 0, scale: 0 },
    }
}

/// The shares of the feedstocks in their order.
pub open spec fn shares(feedstocks: Seq<Feedstock>) -> Seq<Decimal> {
    feedstocks.map_values(|f: Feedstock| share_of(f))
}

/// What is wrong with the shares of the feedstocks: their sum cannot be
/// formed, or it exceeds one.
pub open spec fn shares_violation(feedstocks: Seq<Feedstock>) -> Option<ValidationError> {
    match total(shares(feedstocks)) {
        Some(sum) => if sum.at_most_one() {
            None
        } else {
            Some(ValidationError { field: Field::FeedstockShares, reason: Reason::OutOfRange })
        },
        None => Some(ValidationError { field: Field::Decimal, reason: Reason::OutOfRange }),
    }
}

/// Adds up the shares of the feedstocks, those not known counting as zero.
pub fn total_share(feedstocks: &Vec<Feedstock>) -> (r: Option<Decimal>)
    ensures
        r == total(shares(feedstocks@)),
        r matches Some(sum) ==> sum.wf(),
{
    let mut acc = Decimal::from_i64(0);
    let mut i: usize = 0;
    while i < feedstocks.len()
        invariant
            i <= feedstocks@.len(),
            total_of_first(shares(feedstocks@), i as nat) == Some(acc),
            acc.wf(),
        decreases feedstocks@.len() - i,
    {
        let share = match &feedstocks[i].feedstock_share {
            Some(share) => share.0,
            None => Decimal::from_i64(0),
        };
        assert(share == shares(feedstocks@)[i as int]);
        match acc.checked_add(&share) {
            Some(next) => {
                acc = next;
            },
            None => {
                proof {
                    lemma_total_stays_none(
                        shares(feedstocks@),
                        (i + 1) as nat,
                        feedstocks@.len(),
                    );
                }
                return None;
            },
        }
        i = i + 1;
    }
    Some(acc)
}

impl Validate for Feedstock {
    open spec fn violation(&self) -> Option<ValidationError> {
        optional_violation(self.feedstock_share)
    }

    fn validate(&self) -> (r: Result<(), ValidationError>) {
        validate_optional(&self.feedstock_share)
    }
}

impl EnergyCarrier {
    /// What is wrong with the feedstocks, where they are given: the first
    /// invalid one, else their shares.
    pub open spec fn feedstocks_violation(&self) -> Option<ValidationError> {
        match self.feedstocks {
            Some(list) => first_of(first_violation(list@), shares_violation(list@)),
            None => None,
        }
    }

    fn validate_feedstocks(&self) -> (r: Result<(), ValidationError>)
        ensures
            r == outcome(self.feedstocks_violation()),
    {
        match &self.feedstocks {
            Some(list) => {
                validate_all(list)?;
                match total_share(list) {
                    Some(sum) => if sum.is_at_most_one() {
                        Ok(())
                    } else {
                        Err(ValidationError::new(Field::FeedstockShares, Reason::OutOfRange))
                    },
                    None => Err(ValidationError::new(Field::Decimal, Reason::OutOfRange)),
                }
            },
            None => Ok(()),
        }
    }
}

impl Validate for EnergyCarrier {
    open spec fn violation(&self) -> Option<ValidationError> {
        first_of(
            self.feedstocks_violation(),
            first_of(
                optional_violation(self.energy_consumption),
                first_of(
                    self.emission_factor_wtw.violation(),
                    first_of(
                        self.emission_factor_ttw.violation(),
                        self.relative_share.violation(),
                    ),
                ),
            ),
        )
    }

    fn validate(&self) -> (r: Result<(), ValidationError>) {
        self.validate_feedstocks()?;
        validate_optional(&self.energy_consumption)?;
        self.emission_factor_wtw.validate()?;
        self.emission_factor_ttw.validate()?;
        self.relative_share.validate()
    }
}

impl Validate for Location {
    open spec fn violation(&self) -> Option<ValidationError> {
        first_of(
            self.country.violation(),
            first_of(
                optional_violation(self.iata),
                first_of(
                    optional_violation(self.locode),
                    first_of(
                        optional_violation(self.uic),
                        first_of(optional_violation(self.lat), optional_violation(self.lng)),
                    ),
                ),
            ),
        )
    }

    fn validate(&self) -> (r: Result<(), ValidationError>) {
        self.country.validate()?;
        validate_optional(&self.iata)?;
        validate_optional(&self.locode)?;
        validate_optional(&self.uic)?;
        validate_optional(&self.lat)?;
        validate_optional(&self.lng)
    }
}

impl Tce {
    /// What is wrong with the operator of the leg: both a transport and a
    /// hub are named, or neither is.
    pub open spec fn operator_violation(&self) -> Option<ValidationError> {
        if self.toc_id is Some && self.hoc_id is Some {
            Some(ValidationError { field: Field::TceOperator, reason: Reason::Conflict })
        } else if self.toc_id is None && self.hoc_id is None {
            Some(ValidationError { field: Field::TceOperator, reason: Reason::Missing })
        } else {
            None
        }
    }

    /// What is wrong with the cargo, the distance and the two places.
    pub open spec fn cargo_violation(&self) -> Option<ValidationError> {
        first_of(
            self.mass.violation(),
            first_of(
                optional_violation(self.packaging_or_tr_eq_amount),
                first_of(
                    self.distance.violation(),
                    first_of(
                        optional_violation(self.origin),
                        optional_violation(self.destination),
                    ),
                ),
            ),
        )
    }

    /// What is wrong with the transport activity: it is malformed, or it is
    /// not zero on a leg through a hub.
    pub open spec fn activity_violation(&self) -> Option<ValidationError> {
        first_of(
            self.transport_activity.violation(),
            if self.hoc_id is Some && self.transport_activity.0.mantissa != 0 {
                Some(ValidationError { field: Field::TransportActivity, reason: Reason::Mismatch })
            } else {
                None
            },
        )
    }

    /// What is wrong with the emissions.
    pub open spec fn emissions_violation(&self) -> Option<ValidationError> {
        first_of(
            self.co2e_wtw.violation(),
            first_of(
                self.co2e_ttw.violation(),
                first_of(
                    optional_violation(self.nox_ttw),
                    first_of(
                        optional_violation(self.sox_ttw),
                        first_of(
                            optional_violation(self.ch4_ttw),
                            optional_violation(self.pm_ttw),
                        ),
                    ),
                ),
            ),
        )
    }

    fn validate_operator(&self) -> (r: Result<(), ValidationError>)
        ensures
            r == outcome(self.operator_violation()),
    {
        if self.toc_id.is_some() && self.hoc_id.is_some() {
            Err(ValidationError::new(Field::TceOperator, Reason::Conflict))
        } else if self.toc_id.is_none() && self.hoc_id.is_none() {
            Err(ValidationError::new(Field::TceOperator, Reason::Missing))
        } else {
            Ok(())
        }
    }

    fn validate_cargo(&self) -> (r: Result<(), ValidationError>)
        ensures
            r == outcome(self.cargo_violation()),
    {
        self.mass.validate()?;
        validate_optional(&self.packaging_or_tr_eq_amount)?;
        self.distance.validate()?;
        validate_optional(&self.origin)?;
        validate_optional(&self.destination)
    }

    fn validate_activity(&self) -> (r: Result<(), ValidationError>)
        ensures
            r == outcome(self.activity_violation()),
    {
        self.transport_activity.validate()?;
        if self.hoc_id.is_some() && !self.transport_activity.0.is_zero() {
            Err(ValidationError::new(Field::TransportActivity, Reason::Mismatch))
        } else {
            Ok(())
        }
    }

    fn validate_emissions(&self) -> (r: Result<(), ValidationError>)
        ensures
            r == outcome(self.emissions_violation()),
    {
        self.co2e_wtw.validate()?;
        self.co2e_ttw.validate()?;
        validate_optional(&self.nox_ttw)?;
        validate_optional(&self.sox_ttw)?;
        validate_optional(&self.ch4_ttw)?;
        validate_optional(&self.pm_ttw)
    }
}

impl Validate for Tce {
    open spec fn violation(&self) -> Option<ValidationError> {
        first_of(
            self.operator_violation(),
            first_of(
                self.cargo_violation(),
                first_of(self.activity_violation(), self.emissions_violation()),
            ),
        )
    }

    fn validate(&self) -> (r: Result<(), ValidationError>)
        ensures
            r is Ok ==> (self.toc_id is Some) != (self.hoc_id is Some),
    {
        self.validate_operator()?;
        self.validate_cargo()?;
        self.validate_activity()?;
        self.validate_emissions()
    }
}

impl<T: Validate> Validate for NonEmptyVec<T> {
    open spec fn violation(&self) -> Option<ValidationError> {
        first_of(
            if self.0@.len() == 0 {
                Some(ValidationError { field: Field::NonEmptyVec, reason: Reason::Empty })
            } else {
                None
            },
            first_violation(self.0@),
        )
    }

    fn validate(&self) -> (r: Result<(), ValidationError>)
        ensures
            r is Ok ==> self.wf(),
    {
        if self.0.len() == 0 {
            return Err(ValidationError::new(Field::NonEmptyVec, Reason::Empty));
        }
        validate_all(&self.0)
    }
}

impl Validate for Certification {
    open spec fn violation(&self) -> Option<ValidationError> {
        None
    }

    fn validate(&self) -> (r: Result<(), ValidationError>) {
        Ok(())
    }
}

/// Every leg from position `from` on carries the identifier `id`.
pub open spec fn legs_carry_id(tces: Seq<Tce>, id: Seq<char>, from: int) -> bool {
    forall|i: int| from <= i < tces.len() ==> (#[trigger] tces[i]).shipment_id@ == id
}

impl ShipmentFootprint {
    /// What is wrong with the identifiers of the legs: one differs from the
    /// identifier of the shipment.
    pub open spec fn leg_ids_violation(&self) -> Option<ValidationError> {
        if legs_carry_id(self.tces.0@, self.shipment_id@, 0) {
            None
        } else {
            Some(ValidationError { field: Field::TceShipmentId, reason: Reason::Mismatch })
        }
    }

    fn validate_leg_ids(&self) -> (r: Result<(), ValidationError>)
        ensures
            r == outcome(self.leg_ids_violation()),
    {
        let mut i: usize = 0;
        while i < self.tces.0.len()
            invariant
                i <= self.tces.0@.len(),
                forall|k: int| 0 <= k < i ==> (#[trigger] self.tces.0@[k]).shipment_id@
                    == self.shipment_id@,
            decreases self.tces.0@.len() - i,
        {
            if !(self.tces.0[i].shipment_id == self.shipment_id) {
                return Err(ValidationError::new(Field::TceShipmentId, Reason::Mismatch));
            }
            i = i + 1;
        }
        Ok(())
    }
}

impl Validate for ShipmentFootprint {
    open spec fn violation(&self) -> Option<ValidationError> {
        first_of(self.tces.violation(), self.leg_ids_violation())
    }

    fn validate(&self) -> (r: Result<(), ValidationError>) {
        self.tces.validate()?;
        self.validate_leg_ids()
    }
}

impl Validate for Toc {
    open spec fn violation(&self) -> Option<ValidationError> {
        first_of(
            optional_violation(self.certifications),
            first_of(
                self.energy_carriers.violation(),
                first_of(self.co2e_intensity_wtw.violation(), self.co2e_intensity_ttw.violation()),
            ),
        )
    }

    fn validate(&self) -> (r: Result<(), ValidationError>) {
        validate_optional(&self.certifications)?;
        self.energy_carriers.validate()?;
        self.co2e_intensity_wtw.validate()?;
        self.co2e_intensity_ttw.validate()
    }
}

impl Validate for Hoc {
    open spec fn violation(&self) -> Option<ValidationError> {
        first_of(
            optional_violation(self.certifications),
            first_of(
                optional_violation(self.hub_location),
                first_of(
                    self.energy_carriers.violation(),
                    first_of(
                        self.co2e_intensity_wtw.violation(),
                        self.co2e_intensity_ttw.violation(),
                    ),
                ),
            ),
        )
    }

    fn validate(&self) -> (r: Result<(), ValidationError>) {
        validate_optional(&self.certifications)?;
        validate_optional(&self.hub_location)?;
        self.energy_carriers.validate()?;
        self.co2e_intensity_wtw.validate()?;
        self.co2e_intensity_ttw.validate()
    }
}

impl Validate for Tad {
    open spec fn violation(&self) -> Option<ValidationError> {
        first_of(
            self.distance.violation(),
            first_of(
                optional_violation(self.mass),
                first_of(
                    optional_violation(self.load_factor),
                    first_of(
                        optional_violation(self.empty_distance_factor),
                        first_of(
                            self.origin.violation(),
                            first_of(
                                self.destination.violation(),
                                optional_violation(self.energy_carriers),
                            ),
                        ),
                    ),
                ),
            ),
        )
    }

    fn validate(&self) -> (r: Result<(), ValidationError>) {
        self.distance.validate()?;
        validate_optional(&self.mass)?;
        validate_optional(&self.load_factor)?;
        validate_optional(&self.empty_distance_factor)?;
        self.origin.validate()?;
        self.destination.validate()?;
        validate_optional(&self.energy_carriers)
    }
}

impl Validate for ILeapType {
    open spec fn violation(&self) -> Option<ValidationError> {
        match self {
            ILeapType::ShipmentFootprint(shipment) => shipment.violation(),
            ILeapType::Toc(toc) => toc.violation(),
            ILeapType::Hoc(hoc) => hoc.violation(),
        }
    }

    fn validate(&self) -> (r: Result<(), ValidationError>) {
        match self {
            ILeapType::ShipmentFootprint(shipment) => shipment.validate(),
            ILeapType::Toc(toc) => toc.validate(),
            ILeapType::Hoc(hoc) => hoc.validate(),
        }
    }
}

} // verus!
