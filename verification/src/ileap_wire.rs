//! The form of the logistics records on the wire: for each record the
//! names of its members, the document that stands for it and the reading of
//! a document.

use vstd::prelude::*;
use crate::distance::GlecDistance;
use crate::ileap::{
    EnergyCarrier, Feedstock, Hoc, ILeapType, Location, ShipmentFootprint, Tad, Tce, Toc,
};
use crate::ileap_vocabulary::{
    AirShippingOption, Certification, EnergyCarrierType, EnergyConsumptionUnit, FeedstockType,
    FlightLength, HubActivityUnit, HubType, Incoterms, PackagingOrTrEqType, TadTempControl,
    TemperatureControl, TransportActivityUnit, TransportMode, TruckLoadingSequence,
};
use crate::json::{
    faithful_optional, holds, lemma_optional_member, lemma_optional_round_trip,
    lemma_required_member, optional, or_error, put_optional, put_value, read_optional,
    read_required, required, wire_of_optional, with_optional, DecodeError, Json, JsonModel, Wire,
};
use crate::numbers::{PositiveDecimal, WrappedDecimal};
use crate::scalars::{IataCode, ISO3166CC, Locode, NonEmptyVec, UicCode};
use crate::time::Timestamp;

verus! {

/// A feedstock as a mathematical value.
pub struct FeedstockModel {
    pub feedstock: FeedstockType,
    pub feedstock_share: Option<WrappedDecimal>,
    pub region_provenance: Option<Seq<char>>,
}

impl DeepView for Feedstock {
    type V = FeedstockModel;

    open spec fn deep_view(&self) -> FeedstockModel {
        FeedstockModel {
            feedstock: self.feedstock.deep_view(),
            feedstock_share: self.feedstock_share.deep_view(),
            region_provenance: self.region_provenance.deep_view(),
        }
    }
}

/// The position of a member of a feedstock by its name, or -1 for any
/// other name.
pub open spec fn feedstock_member(name: Seq<char>) -> int {
    if name == "feedstock"@ {
        0
    } else if name == "feedstockShare"@ {
        1
    } else if name == "regionProvenance"@ {
        2
    } else {
        -1
    }
}

/// Each member of a feedstock has a position of its own: no two have
/// the same name.
pub proof fn lemma_feedstock_keys()
    ensures
        feedstock_member("feedstock"@) == 0,
        feedstock_member("feedstockShare"@) == 1,
        feedstock_member("regionProvenance"@) == 2,
{
    reveal_strlit("feedstock");
    reveal_strlit("feedstockShare");
    reveal_strlit("regionProvenance");
    assert("feedstock"@.len() == 9);
    assert("feedstockShare"@.len() == 14);
    assert("regionProvenance"@.len() == 16);
}

impl Feedstock {
    /// The first error among the members of an object, in the order in
    /// which the record declares them.
    pub open spec fn member_error(m: Map<Seq<char>, JsonModel>) -> Option<DecodeError> {
        let e = None;
        let e = or_error(e, required::<FeedstockType>(m, "feedstock"@));
        let e = or_error(e, optional::<WrappedDecimal>(m, "feedstockShare"@));
        let e = or_error(e, optional::<String>(m, "regionProvenance"@));
        e
    }

    /// The record that the members of an object stand for, where none of
    /// them is in error.
    pub open spec fn of_members(m: Map<Seq<char>, JsonModel>) -> FeedstockModel {
        FeedstockModel {
            feedstock: required::<FeedstockType>(m, "feedstock"@)->Ok_0,
            feedstock_share: optional::<WrappedDecimal>(m, "feedstockShare"@)->Ok_0,
            region_provenance: optional::<String>(m, "regionProvenance"@)->Ok_0,
        }
    }

    /// The document of the member at a position, where the record has a
    /// value for it.
    pub open spec fn expected_member(v: FeedstockModel, i: int) -> Option<JsonModel> {
        if i == 0 {
            Some(<FeedstockType as Wire>::to_wire(v.feedstock))
        } else if i == 1 {
            wire_of_optional::<WrappedDecimal>(v.feedstock_share)
        } else if i == 2 {
            wire_of_optional::<String>(v.region_provenance)
        } else {
            None
        }
    }

    /// The document of a faithful record holds exactly the members of the
    /// record.
    pub proof fn lemma_members_held(v: FeedstockModel)
        requires
            <Self as Wire>::faithful(v),
        ensures
            <Self as Wire>::to_wire(v) is Object,
            holds(
                <Self as Wire>::to_wire(v)->Object_0,
                |name: Seq<char>| feedstock_member(name),
                |i: int| Self::expected_member(v, i),
                3,
            ),
    {
        lemma_feedstock_keys();
        let index = |name: Seq<char>| feedstock_member(name);
        let expected = |i: int| Self::expected_member(v, i);
        let m0 = Map::<Seq<char>, JsonModel>::empty();
        let m1 = m0.insert("feedstock"@, <FeedstockType as Wire>::to_wire(v.feedstock));
        lemma_required_member::<FeedstockType>(m0, index, expected, 0, "feedstock"@, v.feedstock);
        let m2 = with_optional::<WrappedDecimal>(m1, "feedstockShare"@, v.feedstock_share);
        lemma_optional_member::<WrappedDecimal>(
            m1,
            index,
            expected,
            1,
            "feedstockShare"@,
            v.feedstock_share,
        );
        let m3 = with_optional::<String>(m2, "regionProvenance"@, v.region_provenance);
        lemma_optional_member::<String>(
            m2,
            index,
            expected,
            2,
            "regionProvenance"@,
            v.region_provenance,
        );
    }

    /// From an object that holds exactly the members of a faithful record
    /// the record is read back.
    pub proof fn lemma_members_read(v: FeedstockModel, m: Map<Seq<char>, JsonModel>)
        requires
            <Self as Wire>::faithful(v),
            holds(
                m,
                |name: Seq<char>| feedstock_member(name),
                |i: int| Self::expected_member(v, i),
                3,
            ),
        ensures
            Self::member_error(m) is None,
            Self::of_members(m) == v,
    {
        lemma_feedstock_keys();
        <FeedstockType as Wire>::lemma_round_trip(v.feedstock);
        assert(required::<FeedstockType>(m, "feedstock"@) == Ok::<
            FeedstockType,
            DecodeError,
        >(v.feedstock));
        lemma_optional_round_trip::<WrappedDecimal>(v.feedstock_share);
        assert(optional::<WrappedDecimal>(m, "feedstockShare"@) == Ok::<
            Option<WrappedDecimal>,
            DecodeError,
        >(v.feedstock_share));
        lemma_optional_round_trip::<String>(v.region_provenance);
        assert(optional::<String>(m, "regionProvenance"@) == Ok::<
            Option<Seq<char>>,
            DecodeError,
        >(v.region_provenance));
    }
}

impl Wire for Feedstock {
    open spec fn to_wire(v: FeedstockModel) -> JsonModel {
        let m = Map::<Seq<char>, JsonModel>::empty();
        let m = m.insert("feedstock"@, <FeedstockType as Wire>::to_wire(v.feedstock));
        let m = with_optional::<WrappedDecimal>(m, "feedstockShare"@, v.feedstock_share);
        let m = with_optional::<String>(m, "regionProvenance"@, v.region_provenance);
        JsonModel::Object(m)
    }

    open spec fn from_wire(j: JsonModel) -> Result<FeedstockModel, DecodeError> {
        match j {
            JsonModel::Object(m) => match Self::member_error(m) {
                Some(e) => Err(e),
                None => Ok(Self::of_members(m)),
            },
            _ => Err(DecodeError::WrongType),
        }
    }

    open spec fn faithful(v: FeedstockModel) -> bool {
        &&& <FeedstockType as Wire>::faithful(v.feedstock)
        &&& faithful_optional::<WrappedDecimal>(v.feedstock_share)
        &&& faithful_optional::<String>(v.region_provenance)
    }

    proof fn lemma_round_trip(v: FeedstockModel) {
        Self::lemma_members_held(v);
        Self::lemma_members_read(v, Self::to_wire(v)->Object_0);
    }

    fn to_json(&self) -> (r: Json) {
        let mut entries: Vec<(String, Json)> = Vec::new();
        put_value(&mut entries, "feedstock", &self.feedstock);
        put_optional(&mut entries, "feedstockShare", &self.feedstock_share);
        put_optional(&mut entries, "regionProvenance", &self.region_provenance);
        Json::Object(entries)
    }

    fn from_json(j: &Json) -> (r: Result<Feedstock, DecodeError>) {
        let entries = match j {
            Json::Object(entries) => entries,
            _ => {
                return Err(DecodeError::WrongType);
            },
        };
        let feedstock = read_required::<FeedstockType>(entries, "feedstock")?;
        let feedstock_share = read_optional::<WrappedDecimal>(entries, "feedstockShare")?;
        let region_provenance = read_optional::<String>(entries, "regionProvenance")?;
        Ok(Feedstock { feedstock, feedstock_share, region_provenance })
    }
}

/// An energy carrier as a mathematical value.
pub struct EnergyCarrierModel {
    pub energy_carrier: EnergyCarrierType,
    pub feedstocks: Option<Seq<FeedstockModel>>,
    pub energy_consumption: Option<WrappedDecimal>,
    pub energy_consumption_unit: Option<EnergyConsumptionUnit>,
    pub emission_factor_wtw: WrappedDecimal,
    pub emission_factor_ttw: WrappedDecimal,
    pub relative_share: WrappedDecimal,
}

impl DeepView for EnergyCarrier {
    type V = EnergyCarrierModel;

    open spec fn deep_view(&self) -> EnergyCarrierModel {
        EnergyCarrierModel {
            energy_carrier: self.energy_carrier.deep_view(),
            feedstocks: self.feedstocks.deep_view(),
            energy_consumption: self.energy_consumption.deep_view(),
            energy_consumption_unit: self.energy_consumption_unit.deep_view(),
            emission_factor_wtw: self.emission_factor_wtw.deep_view(),
            emission_factor_ttw: self.emission_factor_ttw.deep_view(),
            relative_share: self.relative_share.deep_view(),
        }
    }
}

/// The position of a member of an energy carrier by its name, or -1 for any
/// other name.
pub open spec fn energy_carrier_member(name: Seq<char>) -> int {
    if name == "energyCarrier"@ {
        0
    } else if name == "feedstocks"@ {
        1
    } else if name == "energyConsumption"@ {
        2
    } else if name == "energyConsumptionUnit"@ {
        3
    } else if name == "emissionFactorWTW"@ {
        4
    } else if name == "emissionFactorTTW"@ {
        5
    } else if name == "relativeShare"@ {
        6
    } else {
        -1
    }
}

/// Each member of an energy carrier has a position of its own: no two have
/// the same name.
pub proof fn lemma_energy_carrier_keys()
    ensures
        energy_carrier_member("energyCarrier"@) == 0,
        energy_carrier_member("feedstocks"@) == 1,
        energy_carrier_member("energyConsumption"@) == 2,
        energy_carrier_member("energyConsumptionUnit"@) == 3,
        energy_carrier_member("emissionFactorWTW"@) == 4,
        energy_carrier_member("emissionFactorTTW"@) == 5,
        energy_carrier_member("relativeShare"@) == 6,
{
    reveal_strlit("energyCarrier");
    reveal_strlit("feedstocks");
    reveal_strlit("energyConsumption");
    reveal_strlit("energyConsumptionUnit");
    reveal_strlit("emissionFactorWTW");
    reveal_strlit("emissionFactorTTW");
    reveal_strlit("relativeShare");
    assert("energyCarrier"@.len() == 13);
    assert("feedstocks"@.len() == 10);
    assert("energyConsumption"@.len() == 17);
    assert("energyConsumptionUnit"@.len() == 21);
    assert("emissionFactorWTW"@.len() == 17);
    assert("emissionFactorTTW"@.len() == 17);
    assert("relativeShare"@.len() == 13);
    assert("energyCarrier"@[0] != "relativeShare"@[0]);
    assert("energyConsumption"@[1] != "emissionFactorWTW"@[1]);
    assert("energyConsumption"@[1] != "emissionFactorTTW"@[1]);
    assert("emissionFactorWTW"@[14] != "emissionFactorTTW"@[14]);
}

impl EnergyCarrier {
    /// The first error among the members of an object, in the order in
    /// which the record declares them.
    pub open spec fn member_error(m: Map<Seq<char>, JsonModel>) -> Option<DecodeError> {
        let e = None;
        let e = or_error(e, required::<EnergyCarrierType>(m, "energyCarrier"@));
        let e = or_error(e, optional::<Vec<Feedstock>>(m, "feedstocks"@));
        let e = or_error(e, optional::<WrappedDecimal>(m, "energyConsumption"@));
        let e = or_error(e, optional::<EnergyConsumptionUnit>(m, "energyConsumptionUnit"@));
        let e = or_error(e, required::<WrappedDecimal>(m, "emissionFactorWTW"@));
        let e = or_error(e, required::<WrappedDecimal>(m, "emissionFactorTTW"@));
        let e = or_error(e, required::<WrappedDecimal>(m, "relativeShare"@));
        e
    }

    /// The record that the members of an object stand for, where none of
    /// them is in error.
    pub open spec fn of_members(m: Map<Seq<char>, JsonModel>) -> EnergyCarrierModel {
        EnergyCarrierModel {
            energy_carrier: required::<EnergyCarrierType>(m, "energyCarrier"@)->Ok_0,
            feedstocks: optional::<Vec<Feedstock>>(m, "feedstocks"@)->Ok_0,
            energy_consumption: optional::<WrappedDecimal>(m, "energyConsumption"@)->Ok_0,
            energy_consumption_unit: optional::<EnergyConsumptionUnit>(
                m,
                "energyConsumptionUnit"@,
            )->Ok_0,
            emission_factor_wtw: required::<WrappedDecimal>(m, "emissionFactorWTW"@)->Ok_0,
            emission_factor_ttw: required::<WrappedDecimal>(m, "emissionFactorTTW"@)->Ok_0,
            relative_share: required::<WrappedDecimal>(m, "relativeShare"@)->Ok_0,
        }
    }

    /// The document of the member at a position, where the record has a
    /// value for it.
    pub open spec fn expected_member(v: EnergyCarrierModel, i: int) -> Option<JsonModel> {
        if i == 0 {
            Some(<EnergyCarrierType as Wire>::to_wire(v.energy_carrier))
        } else if i == 1 {
            wire_of_optional::<Vec<Feedstock>>(v.feedstocks)
        } else if i == 2 {
            wire_of_optional::<WrappedDecimal>(v.energy_consumption)
        } else if i == 3 {
            wire_of_optional::<EnergyConsumptionUnit>(v.energy_consumption_unit)
        } else if i == 4 {
            Some(<WrappedDecimal as Wire>::to_wire(v.emission_factor_wtw))
        } else if i == 5 {
            Some(<WrappedDecimal as Wire>::to_wire(v.emission_factor_ttw))
        } else if i == 6 {
            Some(<WrappedDecimal as Wire>::to_wire(v.relative_share))
        } else {
            None
        }
    }

    /// The document of a faithful record holds exactly the members of the
    /// record.
    pub proof fn lemma_members_held(v: EnergyCarrierModel)
        requires
            <Self as Wire>::faithful(v),
        ensures
            <Self as Wire>::to_wire(v) is Object,
            holds(
                <Self as Wire>::to_wire(v)->Object_0,
                |name: Seq<char>| energy_carrier_member(name),
                |i: int| Self::expected_member(v, i),
                7,
            ),
    {
        lemma_energy_carrier_keys();
        let index = |name: Seq<char>| energy_carrier_member(name);
        let expected = |i: int| Self::expected_member(v, i);
        let m0 = Map::<Seq<char>, JsonModel>::empty();
        let m1 = m0.insert("energyCarrier"@, <EnergyCarrierType as Wire>::to_wire(v.energy_carrier));
        lemma_required_member::<EnergyCarrierType>(
            m0,
            index,
            expected,
            0,
            "energyCarrier"@,
            v.energy_carrier,
        );
        let m2 = with_optional::<Vec<Feedstock>>(m1, "feedstocks"@, v.feedstocks);
        lemma_optional_member::<Vec<Feedstock>>(
            m1,
            index,
            expected,
            1,
            "feedstocks"@,
            v.feedstocks,
        );
        let m3 = with_optional::<WrappedDecimal>(m2, "energyConsumption"@, v.energy_consumption);
        lemma_optional_member::<WrappedDecimal>(
            m2,
            index,
            expected,
            2,
            "energyConsumption"@,
            v.energy_consumption,
        );
        let m4 = with_optional::<EnergyConsumptionUnit>(m3, "energyConsumptionUnit"@, v.energy_consumption_unit);
        lemma_optional_member::<EnergyConsumptionUnit>(
            m3,
            index,
            expected,
            3,
            "energyConsumptionUnit"@,
            v.energy_consumption_unit,
        );
        let m5 = m4.insert("emissionFactorWTW"@, <WrappedDecimal as Wire>::to_wire(v.emission_factor_wtw));
        lemma_required_member::<WrappedDecimal>(
            m4,
            index,
            expected,
            4,
            "emissionFactorWTW"@,
            v.emission_factor_wtw,
        );
        let m6 = m5.insert("emissionFactorTTW"@, <WrappedDecimal as Wire>::to_wire(v.emission_factor_ttw));
        lemma_required_member::<WrappedDecimal>(
            m5,
            index,
            expected,
            5,
            "emissionFactorTTW"@,
            v.emission_factor_ttw,
        );
        let m7 = m6.insert("relativeShare"@, <WrappedDecimal as Wire>::to_wire(v.relative_share));
        lemma_required_member::<WrappedDecimal>(
            m6,
            index,
            expected,
            6,
            "relativeShare"@,
            v.relative_share,
        );
    }

    /// From an object that holds exactly the members of a faithful record
    /// the record is read back.
    pub proof fn lemma_members_read(v: EnergyCarrierModel, m: Map<Seq<char>, JsonModel>)
        requires
            <Self as Wire>::faithful(v),
            holds(
                m,
                |name: Seq<char>| energy_carrier_member(name),
                |i: int| Self::expected_member(v, i),
                7,
            ),
        ensures
            Self::member_error(m) is None,
            Self::of_members(m) == v,
    {
        lemma_energy_carrier_keys();
        <EnergyCarrierType as Wire>::lemma_round_trip(v.energy_carrier);
        assert(required::<EnergyCarrierType>(m, "energyCarrier"@) == Ok::<
            EnergyCarrierType,
            DecodeError,
        >(v.energy_carrier));
        lemma_optional_round_trip::<Vec<Feedstock>>(v.feedstocks);
        assert(optional::<Vec<Feedstock>>(m, "feedstocks"@) == Ok::<
            Option<Seq<FeedstockModel>>,
            DecodeError,
        >(v.feedstocks));
        lemma_optional_round_trip::<WrappedDecimal>(v.energy_consumption);
        assert(optional::<WrappedDecimal>(m, "energyConsumption"@) == Ok::<
            Option<WrappedDecimal>,
            DecodeError,
        >(v.energy_consumption));
        lemma_optional_round_trip::<EnergyConsumptionUnit>(v.energy_consumption_unit);
        assert(optional::<EnergyConsumptionUnit>(m, "energyConsumptionUnit"@) == Ok::<
            Option<EnergyConsumptionUnit>,
            DecodeError,
        >(v.energy_consumption_unit));
        <WrappedDecimal as Wire>::lemma_round_trip(v.emission_factor_wtw);
        assert(required::<WrappedDecimal>(m, "emissionFactorWTW"@) == Ok::<
            WrappedDecimal,
            DecodeError,
        >(v.emission_factor_wtw));
        <WrappedDecimal as Wire>::lemma_round_trip(v.emission_factor_ttw);
        assert(required::<WrappedDecimal>(m, "emissionFactorTTW"@) == Ok::<
            WrappedDecimal,
            DecodeError,
        >(v.emission_factor_ttw));
        <WrappedDecimal as Wire>::lemma_round_trip(v.relative_share);
        assert(required::<WrappedDecimal>(m, "relativeShare"@) == Ok::<
            WrappedDecimal,
            DecodeError,
        >(v.relative_share));
    }
}

impl Wire for EnergyCarrier {
    open spec fn to_wire(v: EnergyCarrierModel) -> JsonModel {
        let m = Map::<Seq<char>, JsonModel>::empty();
        let m = m.insert("energyCarrier"@, <EnergyCarrierType as Wire>::to_wire(v.energy_carrier));
        let m = with_optional::<Vec<Feedstock>>(m, "feedstocks"@, v.feedstocks);
        let m = with_optional::<WrappedDecimal>(m, "energyConsumption"@, v.energy_consumption);
        let m = with_optional::<EnergyConsumptionUnit>(m, "energyConsumptionUnit"@, v.energy_consumption_unit);
        let m = m.insert("emissionFactorWTW"@, <WrappedDecimal as Wire>::to_wire(v.emission_factor_wtw));
        let m = m.insert("emissionFactorTTW"@, <WrappedDecimal as Wire>::to_wire(v.emission_factor_ttw));
        let m = m.insert("relativeShare"@, <WrappedDecimal as Wire>::to_wire(v.relative_share));
        JsonModel::Object(m)
    }

    open spec fn from_wire(j: JsonModel) -> Result<EnergyCarrierModel, DecodeError> {
        match j {
            JsonModel::Object(m) => match Self::member_error(m) {
                Some(e) => Err(e),
                None => Ok(Self::of_members(m)),
            },
            _ => Err(DecodeError::WrongType),
        }
    }

    open spec fn faithful(v: EnergyCarrierModel) -> bool {
        &&& <EnergyCarrierType as Wire>::faithful(v.energy_carrier)
        &&& faithful_optional::<Vec<Feedstock>>(v.feedstocks)
        &&& faithful_optional::<WrappedDecimal>(v.energy_consumption)
        &&& faithful_optional::<EnergyConsumptionUnit>(v.energy_consumption_unit)
        &&& <WrappedDecimal as Wire>::faithful(v.emission_factor_wtw)
        &&& <WrappedDecimal as Wire>::faithful(v.emission_factor_ttw)
        &&& <WrappedDecimal as Wire>::faithful(v.relative_share)
    }

    proof fn lemma_round_trip(v: EnergyCarrierModel) {
        Self::lemma_members_held(v);
        Self::lemma_members_read(v, Self::to_wire(v)->Object_0);
    }

    fn to_json(&self) -> (r: Json) {
        let mut entries: Vec<(String, Json)> = Vec::new();
        put_value(&mut entries, "energyCarrier", &self.energy_carrier);
        put_optional(&mut entries, "feedstocks", &self.feedstocks);
        put_optional(&mut entries, "energyConsumption", &self.energy_consumption);
        put_optional(&mut entries, "energyConsumptionUnit", &self.energy_consumption_unit);
        put_value(&mut entries, "emissionFactorWTW", &self.emission_factor_wtw);
        put_value(&mut entries, "emissionFactorTTW", &self.emission_factor_ttw);
        put_value(&mut entries, "relativeShare", &self.relative_share);
        Json::Object(entries)
    }

    fn from_json(j: &Json) -> (r: Result<EnergyCarrier, DecodeError>) {
        let entries = match j {
            Json::Object(entries) => entries,
            _ => {
                return Err(DecodeError::WrongType);
            },
        };
        let energy_carrier = read_required::<EnergyCarrierType>(entries, "energyCarrier")?;
        let feedstocks = read_optional::<Vec<Feedstock>>(entries, "feedstocks")?;
        let energy_consumption = read_optional::<WrappedDecimal>(entries, "energyConsumption")?;
        let energy_consumption_unit = read_optional::<EnergyConsumptionUnit>(entries, "energyConsumptionUnit")?;
        let emission_factor_wtw = read_required::<WrappedDecimal>(entries, "emissionFactorWTW")?;
        let emission_factor_ttw = read_required::<WrappedDecimal>(entries, "emissionFactorTTW")?;
        let relative_share = read_required::<WrappedDecimal>(entries, "relativeShare")?;
        Ok(EnergyCarrier {
            energy_carrier,
            feedstocks,
            energy_consumption,
            energy_consumption_unit,
            emission_factor_wtw,
            emission_factor_ttw,
            relative_share,
        })
    }
}

/// A place as a mathematical value.
pub struct LocationModel {
    pub street: Option<Seq<char>>,
    pub zip: Option<Seq<char>>,
    pub city: Seq<char>,
    pub country: Seq<char>,
    pub iata: Option<Seq<char>>,
    pub locode: Option<Seq<char>>,
    pub uic: Option<Seq<char>>,
    pub lat: Option<WrappedDecimal>,
    pub lng: Option<WrappedDecimal>,
}

impl DeepView for Location {
    type V = LocationModel;

    open spec fn deep_view(&self) -> LocationModel {
        LocationModel {
            street: self.street.deep_view(),
            zip: self.zip.deep_view(),
            city: self.city.deep_view(),
            country: self.country.deep_view(),
            iata: self.iata.deep_view(),
            locode: self.locode.deep_view(),
            uic: self.uic.deep_view(),
            lat: self.lat.deep_view(),
            lng: self.lng.deep_view(),
        }
    }
}

/// The position of a member of a location by its name, or -1 for any
/// other name.
pub open spec fn location_member(name: Seq<char>) -> int {
    if name == "street"@ {
        0
    } else if name == "zip"@ {
        1
    } else if name == "city"@ {
        2
    } else if name == "country"@ {
        3
    } else if name == "iata"@ {
        4
    } else if name == "locode"@ {
        5
    } else if name == "uic"@ {
        6
    } else if name == "lat"@ {
        7
    } else if name == "lng"@ {
        8
    } else {
        -1
    }
}

/// Each member of a location has a position of its own: no two have
/// the same name.
pub proof fn lemma_location_keys()
    ensures
        location_member("street"@) == 0,
        location_member("zip"@) == 1,
        location_member("city"@) == 2,
        location_member("country"@) == 3,
        location_member("iata"@) == 4,
        location_member("locode"@) == 5,
        location_member("uic"@) == 6,
        location_member("lat"@) == 7,
        location_member("lng"@) == 8,
{
    reveal_strlit("street");
    reveal_strlit("zip");
    reveal_strlit("city");
    reveal_strlit("country");
    reveal_strlit("iata");
    reveal_strlit("locode");
    reveal_strlit("uic");
    reveal_strlit("lat");
    reveal_strlit("lng");
    assert("street"@.len() == 6);
    assert("zip"@.len() == 3);
    assert("city"@.len() == 4);
    assert("country"@.len() == 7);
    assert("iata"@.len() == 4);
    assert("locode"@.len() == 6);
    assert("uic"@.len() == 3);
    assert("lat"@.len() == 3);
    assert("lng"@.len() == 3);
    assert("street"@[0] != "locode"@[0]);
    assert("zip"@[0] != "uic"@[0]);
    assert("zip"@[0] != "lat"@[0]);
    assert("zip"@[0] != "lng"@[0]);
    assert("city"@[0] != "iata"@[0]);
    assert("uic"@[0] != "lat"@[0]);
    assert("uic"@[0] != "lng"@[0]);
    assert("lat"@[1] != "lng"@[1]);
}

impl Location {
    /// The first error among the members of an object, in the order in
    /// which the record declares them.
    pub open spec fn member_error(m: Map<Seq<char>, JsonModel>) -> Option<DecodeError> {
        let e = None;
        let e = or_error(e, optional::<String>(m, "street"@));
        let e = or_error(e, optional::<String>(m, "zip"@));
        let e = or_error(e, required::<String>(m, "city"@));
        let e = or_error(e, required::<ISO3166CC>(m, "country"@));
        let e = or_error(e, optional::<IataCode>(m, "iata"@));
        let e = or_error(e, optional::<Locode>(m, "locode"@));
        let e = or_error(e, optional::<UicCode>(m, "uic"@));
        let e = or_error(e, optional::<WrappedDecimal>(m, "lat"@));
        let e = or_error(e, optional::<WrappedDecimal>(m, "lng"@));
        e
    }

    /// The record that the members of an object stand for, where none of
    /// them is in error.
    pub open spec fn of_members(m: Map<Seq<char>, JsonModel>) -> LocationModel {
        LocationModel {
            street: optional::<String>(m, "street"@)->Ok_0,
            zip: optional::<String>(m, "zip"@)->Ok_0,
            city: required::<String>(m, "city"@)->Ok_0,
            country: required::<ISO3166CC>(m, "country"@)->Ok_0,
            iata: optional::<IataCode>(m, "iata"@)->Ok_0,
            locode: optional::<Locode>(m, "locode"@)->Ok_0,
            uic: optional::<UicCode>(m, "uic"@)->Ok_0,
            lat: optional::<WrappedDecimal>(m, "lat"@)->Ok_0,
            lng: optional::<WrappedDecimal>(m, "lng"@)->Ok_0,
        }
    }

    /// The document of the member at a position, where the record has a
    /// value for it.
    pub open spec fn expected_member(v: LocationModel, i: int) -> Option<JsonModel> {
        if i == 0 {
            wire_of_optional::<String>(v.street)
        } else if i == 1 {
            wire_of_optional::<String>(v.zip)
        } else if i == 2 {
            Some(<String as Wire>::to_wire(v.city))
        } else if i == 3 {
            Some(<ISO3166CC as Wire>::to_wire(v.country))
        } else if i == 4 {
            wire_of_optional::<IataCode>(v.iata)
        } else if i == 5 {
            wire_of_optional::<Locode>(v.locode)
        } else if i == 6 {
            wire_of_optional::<UicCode>(v.uic)
        } else if i == 7 {
            wire_of_optional::<WrappedDecimal>(v.lat)
        } else if i == 8 {
            wire_of_optional::<WrappedDecimal>(v.lng)
        } else {
            None
        }
    }

    /// The document of a faithful record holds exactly the members of the
    /// record.
    pub proof fn lemma_members_held(v: LocationModel)
        requires
            <Self as Wire>::faithful(v),
        ensures
            <Self as Wire>::to_wire(v) is Object,
            holds(
                <Self as Wire>::to_wire(v)->Object_0,
                |name: Seq<char>| location_member(name),
                |i: int| Self::expected_member(v, i),
                9,
            ),
    {
        lemma_location_keys();
        let index = |name: Seq<char>| location_member(name);
        let expected = |i: int| Self::expected_member(v, i);
        let m0 = Map::<Seq<char>, JsonModel>::empty();
        let m1 = with_optional::<String>(m0, "street"@, v.street);
        lemma_optional_member::<String>(m0, index, expected, 0, "street"@, v.street);
        let m2 = with_optional::<String>(m1, "zip"@, v.zip);
        lemma_optional_member::<String>(m1, index, expected, 1, "zip"@, v.zip);
        let m3 = m2.insert("city"@, <String as Wire>::to_wire(v.city));
        lemma_required_member::<String>(m2, index, expected, 2, "city"@, v.city);
        let m4 = m3.insert("country"@, <ISO3166CC as Wire>::to_wire(v.country));
        lemma_required_member::<ISO3166CC>(m3, index, expected, 3, "country"@, v.country);
        let m5 = with_optional::<IataCode>(m4, "iata"@, v.iata);
        lemma_optional_member::<IataCode>(m4, index, expected, 4, "iata"@, v.iata);
        let m6 = with_optional::<Locode>(m5, "locode"@, v.locode);
        lemma_optional_member::<Locode>(m5, index, expected, 5, "locode"@, v.locode);
        let m7 = with_optional::<UicCode>(m6, "uic"@, v.uic);
        lemma_optional_member::<UicCode>(m6, index, expected, 6, "uic"@, v.uic);
        let m8 = with_optional::<WrappedDecimal>(m7, "lat"@, v.lat);
        lemma_optional_member::<WrappedDecimal>(m7, index, expected, 7, "lat"@, v.lat);
        let m9 = with_optional::<WrappedDecimal>(m8, "lng"@, v.lng);
        lemma_optional_member::<WrappedDecimal>(m8, index, expected, 8, "lng"@, v.lng);
    }

    /// From an object that holds exactly the members of a faithful record
    /// the record is read back.
    pub proof fn lemma_members_read(v: LocationModel, m: Map<Seq<char>, JsonModel>)
        requires
            <Self as Wire>::faithful(v),
            holds(
                m,
                |name: Seq<char>| location_member(name),
                |i: int| Self::expected_member(v, i),
                9,
            ),
        ensures
            Self::member_error(m) is None,
            Self::of_members(m) == v,
    {
        lemma_location_keys();
        lemma_optional_round_trip::<String>(v.street);
        assert(optional::<String>(m, "street"@) == Ok::<Option<Seq<char>>, DecodeError>(v.street));
        lemma_optional_round_trip::<String>(v.zip);
        assert(optional::<String>(m, "zip"@) == Ok::<Option<Seq<char>>, DecodeError>(v.zip));
        <String as Wire>::lemma_round_trip(v.city);
        assert(required::<String>(m, "city"@) == Ok::<Seq<char>, DecodeError>(v.city));
        <ISO3166CC as Wire>::lemma_round_trip(v.country);
        assert(required::<ISO3166CC>(m, "country"@) == Ok::<Seq<char>, DecodeError>(v.country));
        lemma_optional_round_trip::<IataCode>(v.iata);
        assert(optional::<IataCode>(m, "iata"@) == Ok::<Option<Seq<char>>, DecodeError>(v.iata));
        lemma_optional_round_trip::<Locode>(v.locode);
        assert(optional::<Locode>(m, "locode"@) == Ok::<Option<Seq<char>>, DecodeError>(v.locode));
        lemma_optional_round_trip::<UicCode>(v.uic);
        assert(optional::<UicCode>(m, "uic"@) == Ok::<Option<Seq<char>>, DecodeError>(v.uic));
        lemma_optional_round_trip::<WrappedDecimal>(v.lat);
        assert(optional::<WrappedDecimal>(m, "lat"@) == Ok::<
            Option<WrappedDecimal>,
            DecodeError,
        >(v.lat));
        lemma_optional_round_trip::<WrappedDecimal>(v.lng);
        assert(optional::<WrappedDecimal>(m, "lng"@) == Ok::<
            Option<WrappedDecimal>,
            DecodeError,
        >(v.lng));
    }
}

impl Wire for Location {
    open spec fn to_wire(v: LocationModel) -> JsonModel {
        let m = Map::<Seq<char>, JsonModel>::empty();
        let m = with_optional::<String>(m, "street"@, v.street);
        let m = with_optional::<String>(m, "zip"@, v.zip);
        let m = m.insert("city"@, <String as Wire>::to_wire(v.city));
        let m = m.insert("country"@, <ISO3166CC as Wire>::to_wire(v.country));
        let m = with_optional::<IataCode>(m, "iata"@, v.iata);
        let m = with_optional::<Locode>(m, "locode"@, v.locode);
        let m = with_optional::<UicCode>(m, "uic"@, v.uic);
        let m = with_optional::<WrappedDecimal>(m, "lat"@, v.lat);
        let m = with_optional::<WrappedDecimal>(m, "lng"@, v.lng);
        JsonModel::Object(m)
    }

    open spec fn from_wire(j: JsonModel) -> Result<LocationModel, DecodeError> {
        match j {
            JsonModel::Object(m) => match Self::member_error(m) {
                Some(e) => Err(e),
                None => Ok(Self::of_members(m)),
            },
            _ => Err(DecodeError::WrongType),
        }
    }

    open spec fn faithful(v: LocationModel) -> bool {
        &&& faithful_optional::<String>(v.street)
        &&& faithful_optional::<String>(v.zip)
        &&& <String as Wire>::faithful(v.city)
        &&& <ISO3166CC as Wire>::faithful(v.country)
        &&& faithful_optional::<IataCode>(v.iata)
        &&& faithful_optional::<Locode>(v.locode)
        &&& faithful_optional::<UicCode>(v.uic)
        &&& faithful_optional::<WrappedDecimal>(v.lat)
        &&& faithful_optional::<WrappedDecimal>(v.lng)
    }

    proof fn lemma_round_trip(v: LocationModel) {
        Self::lemma_members_held(v);
        Self::lemma_members_read(v, Self::to_wire(v)->Object_0);
    }

    fn to_json(&self) -> (r: Json) {
        let mut entries: Vec<(String, Json)> = Vec::new();
        put_optional(&mut entries, "street", &self.street);
        put_optional(&mut entries, "zip", &self.zip);
        put_value(&mut entries, "city", &self.city);
        put_value(&mut entries, "country", &self.country);
        put_optional(&mut entries, "iata", &self.iata);
        put_optional(&mut entries, "locode", &self.locode);
        put_optional(&mut entries, "uic", &self.uic);
        put_optional(&mut entries, "lat", &self.lat);
        put_optional(&mut entries, "lng", &self.lng);
        Json::Object(entries)
    }

    fn from_json(j: &Json) -> (r: Result<Location, DecodeError>) {
        let entries = match j {
            Json::Object(entries) => entries,
            _ => {
                return Err(DecodeError::WrongType);
            },
        };
        let street = read_optional::<String>(entries, "street")?;
        let zip = read_optional::<String>(entries, "zip")?;
        let city = read_required::<String>(entries, "city")?;
        let country = read_required::<ISO3166CC>(entries, "country")?;
        let iata = read_optional::<IataCode>(entries, "iata")?;
        let locode = read_optional::<Locode>(entries, "locode")?;
        let uic = read_optional::<UicCode>(entries, "uic")?;
        let lat = read_optional::<WrappedDecimal>(entries, "lat")?;
        let lng = read_optional::<WrappedDecimal>(entries, "lng")?;
        Ok(Location { street, zip, city, country, iata, locode, uic, lat, lng })
    }
}

/// A transport chain element as a mathematical value.
pub struct TceModel {
    pub tce_id: Seq<char>,
    pub prev_tce_ids: Option<Seq<Seq<char>>>,
    pub toc_id: Option<Seq<char>>,
    pub hoc_id: Option<Seq<char>>,
    pub shipment_id: Seq<char>,
    pub consignment_id: Option<Seq<char>>,
    pub mass: WrappedDecimal,
    pub packaging_or_tr_eq_type: Option<PackagingOrTrEqType>,
    pub packaging_or_tr_eq_amount: Option<PositiveDecimal>,
    pub distance: GlecDistance,
    pub origin: Option<LocationModel>,
    pub destination: Option<LocationModel>,
    pub transport_activity: WrappedDecimal,
    pub departure_at: Option<Timestamp>,
    pub arrival_at: Option<Timestamp>,
    pub flight_no: Option<Seq<char>>,
    pub voyage_no: Option<Seq<char>>,
    pub incoterms: Option<Incoterms>,
    pub co2e_wtw: WrappedDecimal,
    pub co2e_ttw: WrappedDecimal,
    pub nox_ttw: Option<WrappedDecimal>,
    pub sox_ttw: Option<WrappedDecimal>,
    pub ch4_ttw: Option<WrappedDecimal>,
    pub pm_ttw: Option<WrappedDecimal>,
}

impl DeepView for Tce {
    type V = TceModel;

    open spec fn deep_view(&self) -> TceModel {
        TceModel {
            tce_id: self.tce_id.deep_view(),
            prev_tce_ids: self.prev_tce_ids.deep_view(),
            toc_id: self.toc_id.deep_view(),
            hoc_id: self.hoc_id.deep_view(),
            shipment_id: self.shipment_id.deep_view(),
            consignment_id: self.consignment_id.deep_view(),
            mass: self.mass.deep_view(),
            packaging_or_tr_eq_type: self.packaging_or_tr_eq_type.deep_view(),
            packaging_or_tr_eq_amount: self.packaging_or_tr_eq_amount.deep_view(),
            distance: self.distance.deep_view(),
            origin: self.origin.deep_view(),
            destination: self.destination.deep_view(),
            transport_activity: self.transport_activity.deep_view(),
            departure_at: self.departure_at.deep_view(),
            arrival_at: self.arrival_at.deep_view(),
            flight_no: self.flight_no.deep_view(),
            voyage_no: self.voyage_no.deep_view(),
            incoterms: self.incoterms.deep_view(),
            co2e_wtw: self.co2e_wtw.deep_view(),
            co2e_ttw: self.co2e_ttw.deep_view(),
            nox_ttw: self.nox_ttw.deep_view(),
            sox_ttw: self.sox_ttw.deep_view(),
            ch4_ttw: self.ch4_ttw.deep_view(),
            pm_ttw: self.pm_ttw.deep_view(),
        }
    }
}

/// The position of a member of a tce by its name, or -1 for any
/// other name.
pub open spec fn tce_member(name: Seq<char>) -> int {
    if name == "tceId"@ {
        0
    } else if name == "prevTceIds"@ {
        1
    } else if name == "tocId"@ {
        2
    } else if name == "hocId"@ {
        3
    } else if name == "shipmentId"@ {
        4
    } else if name == "consignmentId"@ {
        5
    } else if name == "mass"@ {
        6
    } else if name == "packagingOrTrEqType"@ {
        7
    } else if name == "packagingOrTrEqAmount"@ {
        8
    } else if name == "distance"@ {
        9
    } else if name == "origin"@ {
        10
    } else if name == "destination"@ {
        11
    } else if name == "transportActivity"@ {
        12
    } else if name == "departureAt"@ {
        13
    } else if name == "arrivalAt"@ {
        14
    } else if name == "flightNo"@ {
        15
    } else if name == "voyageNo"@ {
        16
    } else if name == "incoterms"@ {
        17
    } else if name == "co2eWTW"@ {
        18
    } else if name == "co2eTTW"@ {
        19
    } else if name == "noxTTW"@ {
        20
    } else if name == "soxTTW"@ {
        21
    } else if name == "ch4TTW"@ {
        22
    } else if name == "pmTTW"@ {
        23
    } else {
        -1
    }
}

/// Each member of a tce has a position of its own: no two have
/// the same name.
pub proof fn lemma_tce_keys()
    ensures
        tce_member("tceId"@) == 0,
        tce_member("prevTceIds"@) == 1,
        tce_member("tocId"@) == 2,
        tce_member("hocId"@) == 3,
        tce_member("shipmentId"@) == 4,
        tce_member("consignmentId"@) == 5,
        tce_member("mass"@) == 6,
        tce_member("packagingOrTrEqType"@) == 7,
        tce_member("packagingOrTrEqAmount"@) == 8,
        tce_member("distance"@) == 9,
        tce_member("origin"@) == 10,
        tce_member("destination"@) == 11,
        tce_member("transportActivity"@) == 12,
        tce_member("departureAt"@) == 13,
        tce_member("arrivalAt"@) == 14,
        tce_member("flightNo"@) == 15,
        tce_member("voyageNo"@) == 16,
        tce_member("incoterms"@) == 17,
        tce_member("co2eWTW"@) == 18,
        tce_member("co2eTTW"@) == 19,
        tce_member("noxTTW"@) == 20,
        tce_member("soxTTW"@) == 21,
        tce_member("ch4TTW"@) == 22,
        tce_member("pmTTW"@) == 23,
{
    reveal_strlit("tceId");
    reveal_strlit("prevTceIds");
    reveal_strlit("tocId");
    reveal_strlit("hocId");
    reveal_strlit("shipmentId");
    reveal_strlit("consignmentId");
    reveal_strlit("mass");
    reveal_strlit("packagingOrTrEqType");
    reveal_strlit("packagingOrTrEqAmount");
    reveal_strlit("distance");
    reveal_strlit("origin");
    reveal_strlit("destination");
    reveal_strlit("transportActivity");
    reveal_strlit("departureAt");
    reveal_strlit("arrivalAt");
    reveal_strlit("flightNo");
    reveal_strlit("voyageNo");
    reveal_strlit("incoterms");
    reveal_strlit("co2eWTW");
    reveal_strlit("co2eTTW");
    reveal_strlit("noxTTW");
    reveal_strlit("soxTTW");
    reveal_strlit("ch4TTW");
    reveal_strlit("pmTTW");
    assert("tceId"@.len() == 5);
    assert("prevTceIds"@.len() == 10);
    assert("tocId"@.len() == 5);
    assert("hocId"@.len() == 5);
    assert("shipmentId"@.len() == 10);
    assert("consignmentId"@.len() == 13);
    assert("mass"@.len() == 4);
    assert("packagingOrTrEqType"@.len() == 19);
    assert("packagingOrTrEqAmount"@.len() == 21);
    assert("distance"@.len() == 8);
    assert("origin"@.len() == 6);
    assert("destination"@.len() == 11);
    assert("transportActivity"@.len() == 17);
    assert("departureAt"@.len() == 11);
    assert("arrivalAt"@.len() == 9);
    assert("flightNo"@.len() == 8);
    assert("voyageNo"@.len() == 8);
    assert("incoterms"@.len() == 9);
    assert("co2eWTW"@.len() == 7);
    assert("co2eTTW"@.len() == 7);
    assert("noxTTW"@.len() == 6);
    assert("soxTTW"@.len() == 6);
    assert("ch4TTW"@.len() == 6);
    assert("pmTTW"@.len() == 5);
    assert("tceId"@[1] != "tocId"@[1]);
    assert("tceId"@[0] != "hocId"@[0]);
    assert("tceId"@[0] != "pmTTW"@[0]);
    assert("prevTceIds"@[0] != "shipmentId"@[0]);
    assert("tocId"@[0] != "hocId"@[0]);
    assert("tocId"@[0] != "pmTTW"@[0]);
    assert("hocId"@[0] != "pmTTW"@[0]);
    assert("distance"@[0] != "flightNo"@[0]);
    assert("distance"@[0] != "voyageNo"@[0]);
    assert("origin"@[0] != "noxTTW"@[0]);
    assert("origin"@[0] != "soxTTW"@[0]);
    assert("origin"@[0] != "ch4TTW"@[0]);
    assert("destination"@[2] != "departureAt"@[2]);
    assert("arrivalAt"@[0] != "incoterms"@[0]);
    assert("flightNo"@[0] != "voyageNo"@[0]);
    assert("co2eWTW"@[4] != "co2eTTW"@[4]);
    assert("noxTTW"@[0] != "soxTTW"@[0]);
    assert("noxTTW"@[0] != "ch4TTW"@[0]);
    assert("soxTTW"@[0] != "ch4TTW"@[0]);
}

impl Tce {
    /// The first error among the members of an object, in the order in
    /// which the record declares them.
    pub open spec fn member_error(m: Map<Seq<char>, JsonModel>) -> Option<DecodeError> {
        let e = None;
        let e = or_error(e, required::<String>(m, "tceId"@));
        let e = or_error(e, optional::<Vec<String>>(m, "prevTceIds"@));
        let e = or_error(e, optional::<String>(m, "tocId"@));
        let e = or_error(e, optional::<String>(m, "hocId"@));
        let e = or_error(e, required::<String>(m, "shipmentId"@));
        let e = or_error(e, optional::<String>(m, "consignmentId"@));
        let e = or_error(e, required::<WrappedDecimal>(m, "mass"@));
        let e = or_error(e, optional::<PackagingOrTrEqType>(m, "packagingOrTrEqType"@));
        let e = or_error(e, optional::<PositiveDecimal>(m, "packagingOrTrEqAmount"@));
        let e = or_error(e, required::<GlecDistance>(m, "distance"@));
        let e = or_error(e, optional::<Location>(m, "origin"@));
        let e = or_error(e, optional::<Location>(m, "destination"@));
        let e = or_error(e, required::<WrappedDecimal>(m, "transportActivity"@));
        let e = or_error(e, optional::<Timestamp>(m, "departureAt"@));
        let e = or_error(e, optional::<Timestamp>(m, "arrivalAt"@));
        let e = or_error(e, optional::<String>(m, "flightNo"@));
        let e = or_error(e, optional::<String>(m, "voyageNo"@));
        let e = or_error(e, optional::<Incoterms>(m, "incoterms"@));
        let e = or_error(e, required::<WrappedDecimal>(m, "co2eWTW"@));
        let e = or_error(e, required::<WrappedDecimal>(m, "co2eTTW"@));
        let e = or_error(e, optional::<WrappedDecimal>(m, "noxTTW"@));
        let e = or_error(e, optional::<WrappedDecimal>(m, "soxTTW"@));
        let e = or_error(e, optional::<WrappedDecimal>(m, "ch4TTW"@));
        let e = or_error(e, optional::<WrappedDecimal>(m, "pmTTW"@));
        e
    }

    /// The record that the members of an object stand for, where none of
    /// them is in error.
    pub open spec fn of_members(m: Map<Seq<char>, JsonModel>) -> TceModel {
        TceModel {
            tce_id: required::<String>(m, "tceId"@)->Ok_0,
            prev_tce_ids: optional::<Vec<String>>(m, "prevTceIds"@)->Ok_0,
            toc_id: optional::<String>(m, "tocId"@)->Ok_0,
            hoc_id: optional::<String>(m, "hocId"@)->Ok_0,
            shipment_id: required::<String>(m, "shipmentId"@)->Ok_0,
            consignment_id: optional::<String>(m, "consignmentId"@)->Ok_0,
            mass: required::<WrappedDecimal>(m, "mass"@)->Ok_0,
            packaging_or_tr_eq_type: optional::<PackagingOrTrEqType>(
                m,
                "packagingOrTrEqType"@,
            )->Ok_0,
            packaging_or_tr_eq_amount: optional::<PositiveDecimal>(
                m,
                "packagingOrTrEqAmount"@,
            )->Ok_0,
            distance: required::<GlecDistance>(m, "distance"@)->Ok_0,
            origin: optional::<Location>(m, "origin"@)->Ok_0,
            destination: optional::<Location>(m, "destination"@)->Ok_0,
            transport_activity: required::<WrappedDecimal>(m, "transportActivity"@)->Ok_0,
            departure_at: optional::<Timestamp>(m, "departureAt"@)->Ok_0,
            arrival_at: optional::<Timestamp>(m, "arrivalAt"@)->Ok_0,
            flight_no: optional::<String>(m, "flightNo"@)->Ok_0,
            voyage_no: optional::<String>(m, "voyageNo"@)->Ok_0,
            incoterms: optional::<Incoterms>(m, "incoterms"@)->Ok_0,
            co2e_wtw: required::<WrappedDecimal>(m, "co2eWTW"@)->Ok_0,
            co2e_ttw: required::<WrappedDecimal>(m, "co2eTTW"@)->Ok_0,
            nox_ttw: optional::<WrappedDecimal>(m, "noxTTW"@)->Ok_0,
            sox_ttw: optional::<WrappedDecimal>(m, "soxTTW"@)->Ok_0,
            ch4_ttw: optional::<WrappedDecimal>(m, "ch4TTW"@)->Ok_0,
            pm_ttw: optional::<WrappedDecimal>(m, "pmTTW"@)->Ok_0,
        }
    }

    /// The document of the member at a position, where the record has a
    /// value for it.
    pub open spec fn expected_member(v: TceModel, i: int) -> Option<JsonModel> {
        if i == 0 {
            Some(<String as Wire>::to_wire(v.tce_id))
        } else if i == 1 {
            wire_of_optional::<Vec<String>>(v.prev_tce_ids)
        } else if i == 2 {
            wire_of_optional::<String>(v.toc_id)
        } else if i == 3 {
            wire_of_optional::<String>(v.hoc_id)
        } else if i == 4 {
            Some(<String as Wire>::to_wire(v.shipment_id))
        } else if i == 5 {
            wire_of_optional::<String>(v.consignment_id)
        } else if i == 6 {
            Some(<WrappedDecimal as Wire>::to_wire(v.mass))
        } else if i == 7 {
            wire_of_optional::<PackagingOrTrEqType>(v.packaging_or_tr_eq_type)
        } else if i == 8 {
            wire_of_optional::<PositiveDecimal>(v.packaging_or_tr_eq_amount)
        } else if i == 9 {
            Some(<GlecDistance as Wire>::to_wire(v.distance))
        } else if i == 10 {
            wire_of_optional::<Location>(v.origin)
        } else if i == 11 {
            wire_of_optional::<Location>(v.destination)
        } else if i == 12 {
            Some(<WrappedDecimal as Wire>::to_wire(v.transport_activity))
        } else if i == 13 {
            wire_of_optional::<Timestamp>(v.departure_at)
        } else if i == 14 {
            wire_of_optional::<Timestamp>(v.arrival_at)
        } else if i == 15 {
            wire_of_optional::<String>(v.flight_no)
        } else if i == 16 {
            wire_of_optional::<String>(v.voyage_no)
        } else if i == 17 {
            wire_of_optional::<Incoterms>(v.incoterms)
        } else if i == 18 {
            Some(<WrappedDecimal as Wire>::to_wire(v.co2e_wtw))
        } else if i == 19 {
            Some(<WrappedDecimal as Wire>::to_wire(v.co2e_ttw))
        } else if i == 20 {
            wire_of_optional::<WrappedDecimal>(v.nox_ttw)
        } else if i == 21 {
            wire_of_optional::<WrappedDecimal>(v.sox_ttw)
        } else if i == 22 {
            wire_of_optional::<WrappedDecimal>(v.ch4_ttw)
        } else if i == 23 {
            wire_of_optional::<WrappedDecimal>(v.pm_ttw)
        } else {
            None
        }
    }

    /// The document of a faithful record holds exactly the members of the
    /// record.
    #[verifier::rlimit(60)]
    pub proof fn lemma_members_held(v: TceModel)
        requires
            <Self as Wire>::faithful(v),
        ensures
            <Self as Wire>::to_wire(v) is Object,
            holds(
                <Self as Wire>::to_wire(v)->Object_0,
                |name: Seq<char>| tce_member(name),
                |i: int| Self::expected_member(v, i),
                24,
            ),
    {
        lemma_tce_keys();
        let index = |name: Seq<char>| tce_member(name);
        let expected = |i: int| Self::expected_member(v, i);
        let m0 = Map::<Seq<char>, JsonModel>::empty();
        let m1 = m0.insert("tceId"@, <String as Wire>::to_wire(v.tce_id));
        lemma_required_member::<String>(m0, index, expected, 0, "tceId"@, v.tce_id);
        let m2 = with_optional::<Vec<String>>(m1, "prevTceIds"@, v.prev_tce_ids);
        lemma_optional_member::<Vec<String>>(m1, index, expected, 1, "prevTceIds"@, v.prev_tce_ids);
        let m3 = with_optional::<String>(m2, "tocId"@, v.toc_id);
        lemma_optional_member::<String>(m2, index, expected, 2, "tocId"@, v.toc_id);
        let m4 = with_optional::<String>(m3, "hocId"@, v.hoc_id);
        lemma_optional_member::<String>(m3, index, expected, 3, "hocId"@, v.hoc_id);
        let m5 = m4.insert("shipmentId"@, <String as Wire>::to_wire(v.shipment_id));
        lemma_required_member::<String>(m4, index, expected, 4, "shipmentId"@, v.shipment_id);
        let m6 = with_optional::<String>(m5, "consignmentId"@, v.consignment_id);
        lemma_optional_member::<String>(m5, index, expected, 5, "consignmentId"@, v.consignment_id);
        let m7 = m6.insert("mass"@, <WrappedDecimal as Wire>::to_wire(v.mass));
        lemma_required_member::<WrappedDecimal>(m6, index, expected, 6, "mass"@, v.mass);
        let m8 = with_optional::<PackagingOrTrEqType>(m7, "packagingOrTrEqType"@, v.packaging_or_tr_eq_type);
        lemma_optional_member::<PackagingOrTrEqType>(
            m7,
            index,
            expected,
            7,
            "packagingOrTrEqType"@,
            v.packaging_or_tr_eq_type,
        );
        let m9 = with_optional::<PositiveDecimal>(m8, "packagingOrTrEqAmount"@, v.packaging_or_tr_eq_amount);
        lemma_optional_member::<PositiveDecimal>(
            m8,
            index,
            expected,
            8,
            "packagingOrTrEqAmount"@,
            v.packaging_or_tr_eq_amount,
        );
        let m10 = m9.insert("distance"@, <GlecDistance as Wire>::to_wire(v.distance));
        lemma_required_member::<GlecDistance>(m9, index, expected, 9, "distance"@, v.distance);
        let m11 = with_optional::<Location>(m10, "origin"@, v.origin);
        lemma_optional_member::<Location>(m10, index, expected, 10, "origin"@, v.origin);
        let m12 = with_optional::<Location>(m11, "destination"@, v.destination);
        lemma_optional_member::<Location>(m11, index, expected, 11, "destination"@, v.destination);
        let m13 = m12.insert("transportActivity"@, <WrappedDecimal as Wire>::to_wire(v.transport_activity));
        lemma_required_member::<WrappedDecimal>(
            m12,
            index,
            expected,
            12,
            "transportActivity"@,
            v.transport_activity,
        );
        let m14 = with_optional::<Timestamp>(m13, "departureAt"@, v.departure_at);
        lemma_optional_member::<Timestamp>(
            m13,
            index,
            expected,
            13,
            "departureAt"@,
            v.departure_at,
        );
        let m15 = with_optional::<Timestamp>(m14, "arrivalAt"@, v.arrival_at);
        lemma_optional_member::<Timestamp>(m14, index, expected, 14, "arrivalAt"@, v.arrival_at);
        let m16 = with_optional::<String>(m15, "flightNo"@, v.flight_no);
        lemma_optional_member::<String>(m15, index, expected, 15, "flightNo"@, v.flight_no);
        let m17 = with_optional::<String>(m16, "voyageNo"@, v.voyage_no);
        lemma_optional_member::<String>(m16, index, expected, 16, "voyageNo"@, v.voyage_no);
        let m18 = with_optional::<Incoterms>(m17, "incoterms"@, v.incoterms);
        lemma_optional_member::<Incoterms>(m17, index, expected, 17, "incoterms"@, v.incoterms);
        let m19 = m18.insert("co2eWTW"@, <WrappedDecimal as Wire>::to_wire(v.co2e_wtw));
        lemma_required_member::<WrappedDecimal>(m18, index, expected, 18, "co2eWTW"@, v.co2e_wtw);
        let m20 = m19.insert("co2eTTW"@, <WrappedDecimal as Wire>::to_wire(v.co2e_ttw));
        lemma_required_member::<WrappedDecimal>(m19, index, expected, 19, "co2eTTW"@, v.co2e_ttw);
        let m21 = with_optional::<WrappedDecimal>(m20, "noxTTW"@, v.nox_ttw);
        lemma_optional_member::<WrappedDecimal>(m20, index, expected, 20, "noxTTW"@, v.nox_ttw);
        let m22 = with_optional::<WrappedDecimal>(m21, "soxTTW"@, v.sox_ttw);
        lemma_optional_member::<WrappedDecimal>(m21, index, expected, 21, "soxTTW"@, v.sox_ttw);
        let m23 = with_optional::<WrappedDecimal>(m22, "ch4TTW"@, v.ch4_ttw);
        lemma_optional_member::<WrappedDecimal>(m22, index, expected, 22, "ch4TTW"@, v.ch4_ttw);
        let m24 = with_optional::<WrappedDecimal>(m23, "pmTTW"@, v.pm_ttw);
        lemma_optional_member::<WrappedDecimal>(m23, index, expected, 23, "pmTTW"@, v.pm_ttw);
    }

    /// From an object that holds exactly the members of a faithful record
    /// the record is read back.
    #[verifier::rlimit(60)]
    pub proof fn lemma_members_read(v: TceModel, m: Map<Seq<char>, JsonModel>)
        requires
            <Self as Wire>::faithful(v),
            holds(
                m,
                |name: Seq<char>| tce_member(name),
                |i: int| Self::expected_member(v, i),
                24,
            ),
        ensures
            Self::member_error(m) is None,
            Self::of_members(m) == v,
    {
        lemma_tce_keys();
        <String as Wire>::lemma_round_trip(v.tce_id);
        assert(required::<String>(m, "tceId"@) == Ok::<Seq<char>, DecodeError>(v.tce_id));
        lemma_optional_round_trip::<Vec<String>>(v.prev_tce_ids);
        assert(optional::<Vec<String>>(m, "prevTceIds"@) == Ok::<
            Option<Seq<Seq<char>>>,
            DecodeError,
        >(v.prev_tce_ids));
        lemma_optional_round_trip::<String>(v.toc_id);
        assert(optional::<String>(m, "tocId"@) == Ok::<Option<Seq<char>>, DecodeError>(v.toc_id));
        lemma_optional_round_trip::<String>(v.hoc_id);
        assert(optional::<String>(m, "hocId"@) == Ok::<Option<Seq<char>>, DecodeError>(v.hoc_id));
        <String as Wire>::lemma_round_trip(v.shipment_id);
        assert(required::<String>(m, "shipmentId"@) == Ok::<Seq<char>, DecodeError>(v.shipment_id));
        lemma_optional_round_trip::<String>(v.consignment_id);
        assert(optional::<String>(m, "consignmentId"@) == Ok::<
            Option<Seq<char>>,
            DecodeError,
        >(v.consignment_id));
        <WrappedDecimal as Wire>::lemma_round_trip(v.mass);
        assert(required::<WrappedDecimal>(m, "mass"@) == Ok::<WrappedDecimal, DecodeError>(v.mass));
        lemma_optional_round_trip::<PackagingOrTrEqType>(v.packaging_or_tr_eq_type);
        assert(optional::<PackagingOrTrEqType>(m, "packagingOrTrEqType"@) == Ok::<
            Option<PackagingOrTrEqType>,
            DecodeError,
        >(v.packaging_or_tr_eq_type));
        lemma_optional_round_trip::<PositiveDecimal>(v.packaging_or_tr_eq_amount);
        assert(optional::<PositiveDecimal>(m, "packagingOrTrEqAmount"@) == Ok::<
            Option<PositiveDecimal>,
            DecodeError,
        >(v.packaging_or_tr_eq_amount));
        <GlecDistance as Wire>::lemma_round_trip(v.distance);
        assert(required::<GlecDistance>(m, "distance"@) == Ok::<
            GlecDistance,
            DecodeError,
        >(v.distance));
        lemma_optional_round_trip::<Location>(v.origin);
        assert(optional::<Location>(m, "origin"@) == Ok::<
            Option<LocationModel>,
            DecodeError,
        >(v.origin));
        lemma_optional_round_trip::<Location>(v.destination);
        assert(optional::<Location>(m, "destination"@) == Ok::<
            Option<LocationModel>,
            DecodeError,
        >(v.destination));
        <WrappedDecimal as Wire>::lemma_round_trip(v.transport_activity);
        assert(required::<WrappedDecimal>(m, "transportActivity"@) == Ok::<
            WrappedDecimal,
            DecodeError,
        >(v.transport_activity));
        lemma_optional_round_trip::<Timestamp>(v.departure_at);
        assert(optional::<Timestamp>(m, "departureAt"@) == Ok::<
            Option<Timestamp>,
            DecodeError,
        >(v.departure_at));
        lemma_optional_round_trip::<Timestamp>(v.arrival_at);
        assert(optional::<Timestamp>(m, "arrivalAt"@) == Ok::<
            Option<Timestamp>,
            DecodeError,
        >(v.arrival_at));
        lemma_optional_round_trip::<String>(v.flight_no);
        assert(optional::<String>(m, "flightNo"@) == Ok::<
            Option<Seq<char>>,
            DecodeError,
        >(v.flight_no));
        lemma_optional_round_trip::<String>(v.voyage_no);
        assert(optional::<String>(m, "voyageNo"@) == Ok::<
            Option<Seq<char>>,
            DecodeError,
        >(v.voyage_no));
        lemma_optional_round_trip::<Incoterms>(v.incoterms);
        assert(optional::<Incoterms>(m, "incoterms"@) == Ok::<
            Option<Incoterms>,
            DecodeError,
        >(v.incoterms));
        <WrappedDecimal as Wire>::lemma_round_trip(v.co2e_wtw);
        assert(required::<WrappedDecimal>(m, "co2eWTW"@) == Ok::<
            WrappedDecimal,
            DecodeError,
        >(v.co2e_wtw));
        <WrappedDecimal as Wire>::lemma_round_trip(v.co2e_ttw);
        assert(required::<WrappedDecimal>(m, "co2eTTW"@) == Ok::<
            WrappedDecimal,
            DecodeError,
        >(v.co2e_ttw));
        lemma_optional_round_trip::<WrappedDecimal>(v.nox_ttw);
        assert(optional::<WrappedDecimal>(m, "noxTTW"@) == Ok::<
            Option<WrappedDecimal>,
            DecodeError,
        >(v.nox_ttw));
        lemma_optional_round_trip::<WrappedDecimal>(v.sox_ttw);
        assert(optional::<WrappedDecimal>(m, "soxTTW"@) == Ok::<
            Option<WrappedDecimal>,
            DecodeError,
        >(v.sox_ttw));
        lemma_optional_round_trip::<WrappedDecimal>(v.ch4_ttw);
        assert(optional::<WrappedDecimal>(m, "ch4TTW"@) == Ok::<
            Option<WrappedDecimal>,
            DecodeError,
        >(v.ch4_ttw));
        lemma_optional_round_trip::<WrappedDecimal>(v.pm_ttw);
        assert(optional::<WrappedDecimal>(m, "pmTTW"@) == Ok::<
            Option<WrappedDecimal>,
            DecodeError,
        >(v.pm_ttw));
    }
}

impl Wire for Tce {
    open spec fn to_wire(v: TceModel) -> JsonModel {
        let m = Map::<Seq<char>, JsonModel>::empty();
        let m = m.insert("tceId"@, <String as Wire>::to_wire(v.tce_id));
        let m = with_optional::<Vec<String>>(m, "prevTceIds"@, v.prev_tce_ids);
        let m = with_optional::<String>(m, "tocId"@, v.toc_id);
        let m = with_optional::<String>(m, "hocId"@, v.hoc_id);
        let m = m.insert("shipmentId"@, <String as Wire>::to_wire(v.shipment_id));
        let m = with_optional::<String>(m, "consignmentId"@, v.consignment_id);
        let m = m.insert("mass"@, <WrappedDecimal as Wire>::to_wire(v.mass));
        let m = with_optional::<PackagingOrTrEqType>(m, "packagingOrTrEqType"@, v.packaging_or_tr_eq_type);
        let m = with_optional::<PositiveDecimal>(m, "packagingOrTrEqAmount"@, v.packaging_or_tr_eq_amount);
        let m = m.insert("distance"@, <GlecDistance as Wire>::to_wire(v.distance));
        let m = with_optional::<Location>(m, "origin"@, v.origin);
        let m = with_optional::<Location>(m, "destination"@, v.destination);
        let m = m.insert("transportActivity"@, <WrappedDecimal as Wire>::to_wire(v.transport_activity));
        let m = with_optional::<Timestamp>(m, "departureAt"@, v.departure_at);
        let m = with_optional::<Timestamp>(m, "arrivalAt"@, v.arrival_at);
        let m = with_optional::<String>(m, "flightNo"@, v.flight_no);
        let m = with_optional::<String>(m, "voyageNo"@, v.voyage_no);
        let m = with_optional::<Incoterms>(m, "incoterms"@, v.incoterms);
        let m = m.insert("co2eWTW"@, <WrappedDecimal as Wire>::to_wire(v.co2e_wtw));
        let m = m.insert("co2eTTW"@, <WrappedDecimal as Wire>::to_wire(v.co2e_ttw));
        let m = with_optional::<WrappedDecimal>(m, "noxTTW"@, v.nox_ttw);
        let m = with_optional::<WrappedDecimal>(m, "soxTTW"@, v.sox_ttw);
        let m = with_optional::<WrappedDecimal>(m, "ch4TTW"@, v.ch4_ttw);
        let m = with_optional::<WrappedDecimal>(m, "pmTTW"@, v.pm_ttw);
        JsonModel::Object(m)
    }

    open spec fn from_wire(j: JsonModel) -> Result<TceModel, DecodeError> {
        match j {
            JsonModel::Object(m) => match Self::member_error(m) {
                Some(e) => Err(e),
                None => Ok(Self::of_members(m)),
            },
            _ => Err(DecodeError::WrongType),
        }
    }

    open spec fn faithful(v: TceModel) -> bool {
        &&& <String as Wire>::faithful(v.tce_id)
        &&& faithful_optional::<Vec<String>>(v.prev_tce_ids)
        &&& faithful_optional::<String>(v.toc_id)
        &&& faithful_optional::<String>(v.hoc_id)
        &&& <String as Wire>::faithful(v.shipment_id)
        &&& faithful_optional::<String>(v.consignment_id)
        &&& <WrappedDecimal as Wire>::faithful(v.mass)
        &&& faithful_optional::<PackagingOrTrEqType>(v.packaging_or_tr_eq_type)
        &&& faithful_optional::<PositiveDecimal>(v.packaging_or_tr_eq_amount)
        &&& <GlecDistance as Wire>::faithful(v.distance)
        &&& faithful_optional::<Location>(v.origin)
        &&& faithful_optional::<Location>(v.destination)
        &&& <WrappedDecimal as Wire>::faithful(v.transport_activity)
        &&& faithful_optional::<Timestamp>(v.departure_at)
        &&& faithful_optional::<Timestamp>(v.arrival_at)
        &&& faithful_optional::<String>(v.flight_no)
        &&& faithful_optional::<String>(v.voyage_no)
        &&& faithful_optional::<Incoterms>(v.incoterms)
        &&& <WrappedDecimal as Wire>::faithful(v.co2e_wtw)
        &&& <WrappedDecimal as Wire>::faithful(v.co2e_ttw)
        &&& faithful_optional::<WrappedDecimal>(v.nox_ttw)
        &&& faithful_optional::<WrappedDecimal>(v.sox_ttw)
        &&& faithful_optional::<WrappedDecimal>(v.ch4_ttw)
        &&& faithful_optional::<WrappedDecimal>(v.pm_ttw)
    }

    proof fn lemma_round_trip(v: TceModel) {
        Self::lemma_members_held(v);
        Self::lemma_members_read(v, Self::to_wire(v)->Object_0);
    }

    fn to_json(&self) -> (r: Json) {
        let mut entries: Vec<(String, Json)> = Vec::new();
        put_value(&mut entries, "tceId", &self.tce_id);
        put_optional(&mut entries, "prevTceIds", &self.prev_tce_ids);
        put_optional(&mut entries, "tocId", &self.toc_id);
        put_optional(&mut entries, "hocId", &self.hoc_id);
        put_value(&mut entries, "shipmentId", &self.shipment_id);
        put_optional(&mut entries, "consignmentId", &self.consignment_id);
        put_value(&mut entries, "mass", &self.mass);
        put_optional(&mut entries, "packagingOrTrEqType", &self.packaging_or_tr_eq_type);
        put_optional(&mut entries, "packagingOrTrEqAmount", &self.packaging_or_tr_eq_amount);
        put_value(&mut entries, "distance", &self.distance);
        put_optional(&mut entries, "origin", &self.origin);
        put_optional(&mut entries, "destination", &self.destination);
        put_value(&mut entries, "transportActivity", &self.transport_activity);
        put_optional(&mut entries, "departureAt", &self.departure_at);
        put_optional(&mut entries, "arrivalAt", &self.arrival_at);
        put_optional(&mut entries, "flightNo", &self.flight_no);
        put_optional(&mut entries, "voyageNo", &self.voyage_no);
        put_optional(&mut entries, "incoterms", &self.incoterms);
        put_value(&mut entries, "co2eWTW", &self.co2e_wtw);
        put_value(&mut entries, "co2eTTW", &self.co2e_ttw);
        put_optional(&mut entries, "noxTTW", &self.nox_ttw);
        put_optional(&mut entries, "soxTTW", &self.sox_ttw);
        put_optional(&mut entries, "ch4TTW", &self.ch4_ttw);
        put_optional(&mut entries, "pmTTW", &self.pm_ttw);
        Json::Object(entries)
    }

    fn from_json(j: &Json) -> (r: Result<Tce, DecodeError>) {
        let entries = match j {
            Json::Object(entries) => entries,
            _ => {
                return Err(DecodeError::WrongType);
            },
        };
        let tce_id = read_required::<String>(entries, "tceId")?;
        let prev_tce_ids = read_optional::<Vec<String>>(entries, "prevTceIds")?;
        let toc_id = read_optional::<String>(entries, "tocId")?;
        let hoc_id = read_optional::<String>(entries, "hocId")?;
        let shipment_id = read_required::<String>(entries, "shipmentId")?;
        let consignment_id = read_optional::<String>(entries, "consignmentId")?;
        let mass = read_required::<WrappedDecimal>(entries, "mass")?;
        let packaging_or_tr_eq_type = read_optional::<PackagingOrTrEqType>(entries, "packagingOrTrEqType")?;
        let packaging_or_tr_eq_amount = read_optional::<PositiveDecimal>(entries, "packagingOrTrEqAmount")?;
        let distance = read_required::<GlecDistance>(entries, "distance")?;
        let origin = read_optional::<Location>(entries, "origin")?;
        let destination = read_optional::<Location>(entries, "destination")?;
        let transport_activity = read_required::<WrappedDecimal>(entries, "transportActivity")?;
        let departure_at = read_optional::<Timestamp>(entries, "departureAt")?;
        let arrival_at = read_optional::<Timestamp>(entries, "arrivalAt")?;
        let flight_no = read_optional::<String>(entries, "flightNo")?;
        let voyage_no = read_optional::<String>(entries, "voyageNo")?;
        let incoterms = read_optional::<Incoterms>(entries, "incoterms")?;
        let co2e_wtw = read_required::<WrappedDecimal>(entries, "co2eWTW")?;
        let co2e_ttw = read_required::<WrappedDecimal>(entries, "co2eTTW")?;
        let nox_ttw = read_optional::<WrappedDecimal>(entries, "noxTTW")?;
        let sox_ttw = read_optional::<WrappedDecimal>(entries, "soxTTW")?;
        let ch4_ttw = read_optional::<WrappedDecimal>(entries, "ch4TTW")?;
        let pm_ttw = read_optional::<WrappedDecimal>(entries, "pmTTW")?;
        Ok(Tce {
            tce_id,
            prev_tce_ids,
            toc_id,
            hoc_id,
            shipment_id,
            consignment_id,
            mass,
            packaging_or_tr_eq_type,
            packaging_or_tr_eq_amount,
            distance,
            origin,
            destination,
            transport_activity,
            departure_at,
            arrival_at,
            flight_no,
            voyage_no,
            incoterms,
            co2e_wtw,
            co2e_ttw,
            nox_ttw,
            sox_ttw,
            ch4_ttw,
            pm_ttw,
        })
    }
}

/// A shipment footprint as a mathematical value.
pub struct ShipmentFootprintModel {
    pub mass: Seq<char>,
    pub volume: Option<Seq<char>>,
    pub shipment_id: Seq<char>,
    pub tces: Seq<TceModel>,
}

impl DeepView for ShipmentFootprint {
    type V = ShipmentFootprintModel;

    open spec fn deep_view(&self) -> ShipmentFootprintModel {
        ShipmentFootprintModel {
            mass: self.mass.deep_view(),
            volume: self.volume.deep_view(),
            shipment_id: self.shipment_id.deep_view(),
            tces: self.tces.deep_view(),
        }
    }
}

/// The position of a member of a shipment footprint by its name, or -1 for any
/// other name.
pub open spec fn shipment_footprint_member(name: Seq<char>) -> int {
    if name == "mass"@ {
        0
    } else if name == "volume"@ {
        1
    } else if name == "shipmentId"@ {
        2
    } else if name == "tces"@ {
        3
    } else {
        -1
    }
}

/// Each member of a shipment footprint has a position of its own: no two have
/// the same name.
pub proof fn lemma_shipment_footprint_keys()
    ensures
        shipment_footprint_member("mass"@) == 0,
        shipment_footprint_member("volume"@) == 1,
        shipment_footprint_member("shipmentId"@) == 2,
        shipment_footprint_member("tces"@) == 3,
{
    reveal_strlit("mass");
    reveal_strlit("volume");
    reveal_strlit("shipmentId");
    reveal_strlit("tces");
    assert("mass"@.len() == 4);
    assert("volume"@.len() == 6);
    assert("shipmentId"@.len() == 10);
    assert("tces"@.len() == 4);
    assert("mass"@[0] != "tces"@[0]);
}

impl ShipmentFootprint {
    /// The first error among the members of an object, in the order in
    /// which the record declares them.
    pub open spec fn member_error(m: Map<Seq<char>, JsonModel>) -> Option<DecodeError> {
        let e = None;
        let e = or_error(e, required::<String>(m, "mass"@));
        let e = or_error(e, optional::<String>(m, "volume"@));
        let e = or_error(e, required::<String>(m, "shipmentId"@));
        let e = or_error(e, required::<NonEmptyVec<Tce>>(m, "tces"@));
        e
    }

    /// The record that the members of an object stand for, where none of
    /// them is in error.
    pub open spec fn of_members(m: Map<Seq<char>, JsonModel>) -> ShipmentFootprintModel {
        ShipmentFootprintModel {
            mass: required::<String>(m, "mass"@)->Ok_0,
            volume: optional::<String>(m, "volume"@)->Ok_0,
            shipment_id: required::<String>(m, "shipmentId"@)->Ok_0,
            tces: required::<NonEmptyVec<Tce>>(m, "tces"@)->Ok_0,
        }
    }

    /// The document of the member at a position, where the record has a
    /// value for it.
    pub open spec fn expected_member(v: ShipmentFootprintModel, i: int) -> Option<JsonModel> {
        if i == 0 {
            Some(<String as Wire>::to_wire(v.mass))
        } else if i == 1 {
            wire_of_optional::<String>(v.volume)
        } else if i == 2 {
            Some(<String as Wire>::to_wire(v.shipment_id))
        } else if i == 3 {
            Some(<NonEmptyVec<Tce> as Wire>::to_wire(v.tces))
        } else {
            None
        }
    }

    /// The document of a faithful record holds exactly the members of the
    /// record.
    pub proof fn lemma_members_held(v: ShipmentFootprintModel)
        requires
            <Self as Wire>::faithful(v),
        ensures
            <Self as Wire>::to_wire(v) is Object,
            holds(
                <Self as Wire>::to_wire(v)->Object_0,
                |name: Seq<char>| shipment_footprint_member(name),
                |i: int| Self::expected_member(v, i),
                4,
            ),
    {
        lemma_shipment_footprint_keys();
        let index = |name: Seq<char>| shipment_footprint_member(name);
        let expected = |i: int| Self::expected_member(v, i);
        let m0 = Map::<Seq<char>, JsonModel>::empty();
        let m1 = m0.insert("mass"@, <String as Wire>::to_wire(v.mass));
        lemma_required_member::<String>(m0, index, expected, 0, "mass"@, v.mass);
        let m2 = with_optional::<String>(m1, "volume"@, v.volume);
        lemma_optional_member::<String>(m1, index, expected, 1, "volume"@, v.volume);
        let m3 = m2.insert("shipmentId"@, <String as Wire>::to_wire(v.shipment_id));
        lemma_required_member::<String>(m2, index, expected, 2, "shipmentId"@, v.shipment_id);
        let m4 = m3.insert("tces"@, <NonEmptyVec<Tce> as Wire>::to_wire(v.tces));
        lemma_required_member::<NonEmptyVec<Tce>>(m3, index, expected, 3, "tces"@, v.tces);
    }

    /// From an object that holds exactly the members of a faithful record
    /// the record is read back.
    pub proof fn lemma_members_read(v: ShipmentFootprintModel, m: Map<Seq<char>, JsonModel>)
        requires
            <Self as Wire>::faithful(v),
            holds(
                m,
                |name: Seq<char>| shipment_footprint_member(name),
                |i: int| Self::expected_member(v, i),
                4,
            ),
        ensures
            Self::member_error(m) is None,
            Self::of_members(m) == v,
    {
        lemma_shipment_footprint_keys();
        <String as Wire>::lemma_round_trip(v.mass);
        assert(required::<String>(m, "mass"@) == Ok::<Seq<char>, DecodeError>(v.mass));
        lemma_optional_round_trip::<String>(v.volume);
        assert(optional::<String>(m, "volume"@) == Ok::<Option<Seq<char>>, DecodeError>(v.volume));
        <String as Wire>::lemma_round_trip(v.shipment_id);
        assert(required::<String>(m, "shipmentId"@) == Ok::<Seq<char>, DecodeError>(v.shipment_id));
        <NonEmptyVec<Tce> as Wire>::lemma_round_trip(v.tces);
        assert(required::<NonEmptyVec<Tce>>(m, "tces"@) == Ok::<
            Seq<TceModel>,
            DecodeError,
        >(v.tces));
    }
}

impl Wire for ShipmentFootprint {
    open spec fn to_wire(v: ShipmentFootprintModel) -> JsonModel {
        let m = Map::<Seq<char>, JsonModel>::empty();
        let m = m.insert("mass"@, <String as Wire>::to_wire(v.mass));
        let m = with_optional::<String>(m, "volume"@, v.volume);
        let m = m.insert("shipmentId"@, <String as Wire>::to_wire(v.shipment_id));
        let m = m.insert("tces"@, <NonEmptyVec<Tce> as Wire>::to_wire(v.tces));
        JsonModel::Object(m)
    }

    open spec fn from_wire(j: JsonModel) -> Result<ShipmentFootprintModel, DecodeError> {
        match j {
            JsonModel::Object(m) => match Self::member_error(m) {
                Some(e) => Err(e),
                None => Ok(Self::of_members(m)),
            },
            _ => Err(DecodeError::WrongType),
        }
    }

    open spec fn faithful(v: ShipmentFootprintModel) -> bool {
        &&& <String as Wire>::faithful(v.mass)
        &&& faithful_optional::<String>(v.volume)
        &&& <String as Wire>::faithful(v.shipment_id)
        &&& <NonEmptyVec<Tce> as Wire>::faithful(v.tces)
    }

    proof fn lemma_round_trip(v: ShipmentFootprintModel) {
        Self::lemma_members_held(v);
        Self::lemma_members_read(v, Self::to_wire(v)->Object_0);
    }

    fn to_json(&self) -> (r: Json) {
        let mut entries: Vec<(String, Json)> = Vec::new();
        put_value(&mut entries, "mass", &self.mass);
        put_optional(&mut entries, "volume", &self.volume);
        put_value(&mut entries, "shipmentId", &self.shipment_id);
        put_value(&mut entries, "tces", &self.tces);
        Json::Object(entries)
    }

    fn from_json(j: &Json) -> (r: Result<ShipmentFootprint, DecodeError>) {
        let entries = match j {
            Json::Object(entries) => entries,
            _ => {
                return Err(DecodeError::WrongType);
            },
        };
        let mass = read_required::<String>(entries, "mass")?;
        let volume = read_optional::<String>(entries, "volume")?;
        let shipment_id = read_required::<String>(entries, "shipmentId")?;
        let tces = read_required::<NonEmptyVec<Tce>>(entries, "tces")?;
        Ok(ShipmentFootprint { mass, volume, shipment_id, tces })
    }
}

/// A transport operation category as a mathematical value.
pub struct TocModel {
    pub toc_id: Seq<char>,
    pub certifications: Option<Seq<Certification>>,
    pub description: Option<Seq<char>>,
    pub mode: TransportMode,
    pub load_factor: Option<Seq<char>>,
    pub empty_distance_factor: Option<Seq<char>>,
    pub temperature_control: Option<TemperatureControl>,
    pub truck_loading_sequence: Option<TruckLoadingSequence>,
    pub air_shipping_option: Option<AirShippingOption>,
    pub flight_length: Option<FlightLength>,
    pub energy_carriers: Seq<EnergyCarrierModel>,
    pub co2e_intensity_wtw: WrappedDecimal,
    pub co2e_intensity_ttw: WrappedDecimal,
    pub transport_activity_unit: TransportActivityUnit,
}

impl DeepView for Toc {
    type V = TocModel;

    open spec fn deep_view(&self) -> TocModel {
        TocModel {
            toc_id: self.toc_id.deep_view(),
            certifications: self.certifications.deep_view(),
            description: self.description.deep_view(),
            mode: self.mode.deep_view(),
            load_factor: self.load_factor.deep_view(),
            empty_distance_factor: self.empty_distance_factor.deep_view(),
            temperature_control: self.temperature_control.deep_view(),
            truck_loading_sequence: self.truck_loading_sequence.deep_view(),
            air_shipping_option: self.air_shipping_option.deep_view(),
            flight_length: self.flight_length.deep_view(),
            energy_carriers: self.energy_carriers.deep_view(),
            co2e_intensity_wtw: self.co2e_intensity_wtw.deep_view(),
            co2e_intensity_ttw: self.co2e_intensity_ttw.deep_view(),
            transport_activity_unit: self.transport_activity_unit.deep_view(),
        }
    }
}

/// The position of a member of a toc by its name, or -1 for any
/// other name.
pub open spec fn toc_member(name: Seq<char>) -> int {
    if name == "tocId"@ {
        0
    } else if name == "certifications"@ {
        1
    } else if name == "description"@ {
        2
    } else if name == "mode"@ {
        3
    } else if name == "loadFactor"@ {
        4
    } else if name == "emptyDistanceFactor"@ {
        5
    } else if name == "temperatureControl"@ {
        6
    } else if name == "truckLoadingSequence"@ {
        7
    } else if name == "airShippingOption"@ {
        8
    } else if name == "flightLength"@ {
        9
    } else if name == "energyCarriers"@ {
        10
    } else if name == "co2eIntensityWTW"@ {
        11
    } else if name == "co2eIntensityTTW"@ {
        12
    } else if name == "transportActivityUnit"@ {
        13
    } else {
        -1
    }
}

/// Each member of a toc has a position of its own: no two have
/// the same name.
pub proof fn lemma_toc_keys()
    ensures
        toc_member("tocId"@) == 0,
        toc_member("certifications"@) == 1,
        toc_member("description"@) == 2,
        toc_member("mode"@) == 3,
        toc_member("loadFactor"@) == 4,
        toc_member("emptyDistanceFactor"@) == 5,
        toc_member("temperatureControl"@) == 6,
        toc_member("truckLoadingSequence"@) == 7,
        toc_member("airShippingOption"@) == 8,
        toc_member("flightLength"@) == 9,
        toc_member("energyCarriers"@) == 10,
        toc_member("co2eIntensityWTW"@) == 11,
        toc_member("co2eIntensityTTW"@) == 12,
        toc_member("transportActivityUnit"@) == 13,
{
    reveal_strlit("tocId");
    reveal_strlit("certifications");
    reveal_strlit("description");
    reveal_strlit("mode");
    reveal_strlit("loadFactor");
    reveal_strlit("emptyDistanceFactor");
    reveal_strlit("temperatureControl");
    reveal_strlit("truckLoadingSequence");
    reveal_strlit("airShippingOption");
    reveal_strlit("flightLength");
    reveal_strlit("energyCarriers");
    reveal_strlit("co2eIntensityWTW");
    reveal_strlit("co2eIntensityTTW");
    reveal_strlit("transportActivityUnit");
    assert("tocId"@.len() == 5);
    assert("certifications"@.len() == 14);
    assert("description"@.len() == 11);
    assert("mode"@.len() == 4);
    assert("loadFactor"@.len() == 10);
    assert("emptyDistanceFactor"@.len() == 19);
    assert("temperatureControl"@.len() == 18);
    assert("truckLoadingSequence"@.len() == 20);
    assert("airShippingOption"@.len() == 17);
    assert("flightLength"@.len() == 12);
    assert("energyCarriers"@.len() == 14);
    assert("co2eIntensityWTW"@.len() == 16);
    assert("co2eIntensityTTW"@.len() == 16);
    assert("transportActivityUnit"@.len() == 21);
    assert("certifications"@[0] != "energyCarriers"@[0]);
    assert("co2eIntensityWTW"@[13] != "co2eIntensityTTW"@[13]);
}

impl Toc {
    /// The first error among the members of an object, in the order in
    /// which the record declares them.
    pub open spec fn member_error(m: Map<Seq<char>, JsonModel>) -> Option<DecodeError> {
        let e = None;
        let e = or_error(e, required::<String>(m, "tocId"@));
        let e = or_error(e, optional::<NonEmptyVec<Certification>>(m, "certifications"@));
        let e = or_error(e, optional::<String>(m, "description"@));
        let e = or_error(e, required::<TransportMode>(m, "mode"@));
        let e = or_error(e, optional::<String>(m, "loadFactor"@));
        let e = or_error(e, optional::<String>(m, "emptyDistanceFactor"@));
        let e = or_error(e, optional::<TemperatureControl>(m, "temperatureControl"@));
        let e = or_error(e, optional::<TruckLoadingSequence>(m, "truckLoadingSequence"@));
        let e = or_error(e, optional::<AirShippingOption>(m, "airShippingOption"@));
        let e = or_error(e, optional::<FlightLength>(m, "flightLength"@));
        let e = or_error(e, required::<NonEmptyVec<EnergyCarrier>>(m, "energyCarriers"@));
        let e = or_error(e, required::<WrappedDecimal>(m, "co2eIntensityWTW"@));
        let e = or_error(e, required::<WrappedDecimal>(m, "co2eIntensityTTW"@));
        let e = or_error(e, required::<TransportActivityUnit>(m, "transportActivityUnit"@));
        e
    }

    /// The record that the members of an object stand for, where none of
    /// them is in error.
    pub open spec fn of_members(m: Map<Seq<char>, JsonModel>) -> TocModel {
        TocModel {
            toc_id: required::<String>(m, "tocId"@)->Ok_0,
            certifications: optional::<NonEmptyVec<Certification>>(m, "certifications"@)->Ok_0,
            description: optional::<String>(m, "description"@)->Ok_0,
            mode: required::<TransportMode>(m, "mode"@)->Ok_0,
            load_factor: optional::<String>(m, "loadFactor"@)->Ok_0,
            empty_distance_factor: optional::<String>(m, "emptyDistanceFactor"@)->Ok_0,
            temperature_control: optional::<TemperatureControl>(m, "temperatureControl"@)->Ok_0,
            truck_loading_sequence: optional::<TruckLoadingSequence>(
                m,
                "truckLoadingSequence"@,
            )->Ok_0,
            air_shipping_option: optional::<AirShippingOption>(m, "airShippingOption"@)->Ok_0,
            flight_length: optional::<FlightLength>(m, "flightLength"@)->Ok_0,
            energy_carriers: required::<NonEmptyVec<EnergyCarrier>>(m, "energyCarriers"@)->Ok_0,
            co2e_intensity_wtw: required::<WrappedDecimal>(m, "co2eIntensityWTW"@)->Ok_0,
            co2e_intensity_ttw: required::<WrappedDecimal>(m, "co2eIntensityTTW"@)->Ok_0,
            transport_activity_unit: required::<TransportActivityUnit>(
                m,
                "transportActivityUnit"@,
            )->Ok_0,
        }
    }

    /// The document of the member at a position, where the record has a
    /// value for it.
    pub open spec fn expected_member(v: TocModel, i: int) -> Option<JsonModel> {
        if i == 0 {
            Some(<String as Wire>::to_wire(v.toc_id))
        } else if i == 1 {
            wire_of_optional::<NonEmptyVec<Certification>>(v.certifications)
        } else if i == 2 {
            wire_of_optional::<String>(v.description)
        } else if i == 3 {
            Some(<TransportMode as Wire>::to_wire(v.mode))
        } else if i == 4 {
            wire_of_optional::<String>(v.load_factor)
        } else if i == 5 {
            wire_of_optional::<String>(v.empty_distance_factor)
        } else if i == 6 {
            wire_of_optional::<TemperatureControl>(v.temperature_control)
        } else if i == 7 {
            wire_of_optional::<TruckLoadingSequence>(v.truck_loading_sequence)
        } else if i == 8 {
            wire_of_optional::<AirShippingOption>(v.air_shipping_option)
        } else if i == 9 {
            wire_of_optional::<FlightLength>(v.flight_length)
        } else if i == 10 {
            Some(<NonEmptyVec<EnergyCarrier> as Wire>::to_wire(v.energy_carriers))
        } else if i == 11 {
            Some(<WrappedDecimal as Wire>::to_wire(v.co2e_intensity_wtw))
        } else if i == 12 {
            Some(<WrappedDecimal as Wire>::to_wire(v.co2e_intensity_ttw))
        } else if i == 13 {
            Some(<TransportActivityUnit as Wire>::to_wire(v.transport_activity_unit))
        } else {
            None
        }
    }

    /// The document of a faithful record holds exactly the members of the
    /// record.
    #[verifier::rlimit(60)]
    pub proof fn lemma_members_held(v: TocModel)
        requires
            <Self as Wire>::faithful(v),
        ensures
            <Self as Wire>::to_wire(v) is Object,
            holds(
                <Self as Wire>::to_wire(v)->Object_0,
                |name: Seq<char>| toc_member(name),
                |i: int| Self::expected_member(v, i),
                14,
            ),
    {
        lemma_toc_keys();
        let index = |name: Seq<char>| toc_member(name);
        let expected = |i: int| Self::expected_member(v, i);
        let m0 = Map::<Seq<char>, JsonModel>::empty();
        let m1 = m0.insert("tocId"@, <String as Wire>::to_wire(v.toc_id));
        lemma_required_member::<String>(m0, index, expected, 0, "tocId"@, v.toc_id);
        let m2 = with_optional::<NonEmptyVec<Certification>>(m1, "certifications"@, v.certifications);
        lemma_optional_member::<NonEmptyVec<Certification>>(
            m1,
            index,
            expected,
            1,
            "certifications"@,
            v.certifications,
        );
        let m3 = with_optional::<String>(m2, "description"@, v.description);
        lemma_optional_member::<String>(m2, index, expected, 2, "description"@, v.description);
        let m4 = m3.insert("mode"@, <TransportMode as Wire>::to_wire(v.mode));
        lemma_required_member::<TransportMode>(m3, index, expected, 3, "mode"@, v.mode);
        let m5 = with_optional::<String>(m4, "loadFactor"@, v.load_factor);
        lemma_optional_member::<String>(m4, index, expected, 4, "loadFactor"@, v.load_factor);
        let m6 = with_optional::<String>(m5, "emptyDistanceFactor"@, v.empty_distance_factor);
        lemma_optional_member::<String>(
            m5,
            index,
            expected,
            5,
            "emptyDistanceFactor"@,
            v.empty_distance_factor,
        );
        let m7 = with_optional::<TemperatureControl>(m6, "temperatureControl"@, v.temperature_control);
        lemma_optional_member::<TemperatureControl>(
            m6,
            index,
            expected,
            6,
            "temperatureControl"@,
            v.temperature_control,
        );
        let m8 = with_optional::<TruckLoadingSequence>(m7, "truckLoadingSequence"@, v.truck_loading_sequence);
        lemma_optional_member::<TruckLoadingSequence>(
            m7,
            index,
            expected,
            7,
            "truckLoadingSequence"@,
            v.truck_loading_sequence,
        );
        let m9 = with_optional::<AirShippingOption>(m8, "airShippingOption"@, v.air_shipping_option);
        lemma_optional_member::<AirShippingOption>(
            m8,
            index,
            expected,
            8,
            "airShippingOption"@,
            v.air_shipping_option,
        );
        let m10 = with_optional::<FlightLength>(m9, "flightLength"@, v.flight_length);
        lemma_optional_member::<FlightLength>(
            m9,
            index,
            expected,
            9,
            "flightLength"@,
            v.flight_length,
        );
        let m11 = m10.insert("energyCarriers"@, <NonEmptyVec<EnergyCarrier> as Wire>::to_wire(v.energy_carriers));
        lemma_required_member::<NonEmptyVec<EnergyCarrier>>(
            m10,
            index,
            expected,
            10,
            "energyCarriers"@,
            v.energy_carriers,
        );
        let m12 = m11.insert("co2eIntensityWTW"@, <WrappedDecimal as Wire>::to_wire(v.co2e_intensity_wtw));
        lemma_required_member::<WrappedDecimal>(
            m11,
            index,
            expected,
            11,
            "co2eIntensityWTW"@,
            v.co2e_intensity_wtw,
        );
        let m13 = m12.insert("co2eIntensityTTW"@, <WrappedDecimal as Wire>::to_wire(v.co2e_intensity_ttw));
        lemma_required_member::<WrappedDecimal>(
            m12,
            index,
            expected,
            12,
            "co2eIntensityTTW"@,
            v.co2e_intensity_ttw,
        );
        let m14 = m13.insert("transportActivityUnit"@, <TransportActivityUnit as Wire>::to_wire(v.transport_activity_unit));
        lemma_required_member::<TransportActivityUnit>(
            m13,
            index,
            expected,
            13,
            "transportActivityUnit"@,
            v.transport_activity_unit,
        );
    }

    /// From an object that holds exactly the members of a faithful record
    /// the record is read back.
    pub proof fn lemma_members_read(v: TocModel, m: Map<Seq<char>, JsonModel>)
        requires
            <Self as Wire>::faithful(v),
            holds(
                m,
                |name: Seq<char>| toc_member(name),
                |i: int| Self::expected_member(v, i),
                14,
            ),
        ensures
            Self::member_error(m) is None,
            Self::of_members(m) == v,
    {
        lemma_toc_keys();
        <String as Wire>::lemma_round_trip(v.toc_id);
        assert(required::<String>(m, "tocId"@) == Ok::<Seq<char>, DecodeError>(v.toc_id));
        lemma_optional_round_trip::<NonEmptyVec<Certification>>(v.certifications);
        assert(optional::<NonEmptyVec<Certification>>(m, "certifications"@) == Ok::<
            Option<Seq<Certification>>,
            DecodeError,
        >(v.certifications));
        lemma_optional_round_trip::<String>(v.description);
        assert(optional::<String>(m, "description"@) == Ok::<
            Option<Seq<char>>,
            DecodeError,
        >(v.description));
        <TransportMode as Wire>::lemma_round_trip(v.mode);
        assert(required::<TransportMode>(m, "mode"@) == Ok::<TransportMode, DecodeError>(v.mode));
        lemma_optional_round_trip::<String>(v.load_factor);
        assert(optional::<String>(m, "loadFactor"@) == Ok::<
            Option<Seq<char>>,
            DecodeError,
        >(v.load_factor));
        lemma_optional_round_trip::<String>(v.empty_distance_factor);
        assert(optional::<String>(m, "emptyDistanceFactor"@) == Ok::<
            Option<Seq<char>>,
            DecodeError,
        >(v.empty_distance_factor));
        lemma_optional_round_trip::<TemperatureControl>(v.temperature_control);
        assert(optional::<TemperatureControl>(m, "temperatureControl"@) == Ok::<
            Option<TemperatureControl>,
            DecodeError,
        >(v.temperature_control));
        lemma_optional_round_trip::<TruckLoadingSequence>(v.truck_loading_sequence);
        assert(optional::<TruckLoadingSequence>(m, "truckLoadingSequence"@) == Ok::<
            Option<TruckLoadingSequence>,
            DecodeError,
        >(v.truck_loading_sequence));
        lemma_optional_round_trip::<AirShippingOption>(v.air_shipping_option);
        assert(optional::<AirShippingOption>(m, "airShippingOption"@) == Ok::<
            Option<AirShippingOption>,
            DecodeError,
        >(v.air_shipping_option));
        lemma_optional_round_trip::<FlightLength>(v.flight_length);
        assert(optional::<FlightLength>(m, "flightLength"@) == Ok::<
            Option<FlightLength>,
            DecodeError,
        >(v.flight_length));
        <NonEmptyVec<EnergyCarrier> as Wire>::lemma_round_trip(v.energy_carriers);
        assert(required::<NonEmptyVec<EnergyCarrier>>(m, "energyCarriers"@) == Ok::<
            Seq<EnergyCarrierModel>,
            DecodeError,
        >(v.energy_carriers));
        <WrappedDecimal as Wire>::lemma_round_trip(v.co2e_intensity_wtw);
        assert(required::<WrappedDecimal>(m, "co2eIntensityWTW"@) == Ok::<
            WrappedDecimal,
            DecodeError,
        >(v.co2e_intensity_wtw));
        <WrappedDecimal as Wire>::lemma_round_trip(v.co2e_intensity_ttw);
        assert(required::<WrappedDecimal>(m, "co2eIntensityTTW"@) == Ok::<
            WrappedDecimal,
            DecodeError,
        >(v.co2e_intensity_ttw));
        <TransportActivityUnit as Wire>::lemma_round_trip(v.transport_activity_unit);
        assert(required::<TransportActivityUnit>(m, "transportActivityUnit"@) == Ok::<
            TransportActivityUnit,
            DecodeError,
        >(v.transport_activity_unit));
    }
}

impl Wire for Toc {
    open spec fn to_wire(v: TocModel) -> JsonModel {
        let m = Map::<Seq<char>, JsonModel>::empty();
        let m = m.insert("tocId"@, <String as Wire>::to_wire(v.toc_id));
        let m = with_optional::<NonEmptyVec<Certification>>(m, "certifications"@, v.certifications);
        let m = with_optional::<String>(m, "description"@, v.description);
        let m = m.insert("mode"@, <TransportMode as Wire>::to_wire(v.mode));
        let m = with_optional::<String>(m, "loadFactor"@, v.load_factor);
        let m = with_optional::<String>(m, "emptyDistanceFactor"@, v.empty_distance_factor);
        let m = with_optional::<TemperatureControl>(m, "temperatureControl"@, v.temperature_control);
        let m = with_optional::<TruckLoadingSequence>(m, "truckLoadingSequence"@, v.truck_loading_sequence);
        let m = with_optional::<AirShippingOption>(m, "airShippingOption"@, v.air_shipping_option);
        let m = with_optional::<FlightLength>(m, "flightLength"@, v.flight_length);
        let m = m.insert("energyCarriers"@, <NonEmptyVec<EnergyCarrier> as Wire>::to_wire(v.energy_carriers));
        let m = m.insert("co2eIntensityWTW"@, <WrappedDecimal as Wire>::to_wire(v.co2e_intensity_wtw));
        let m = m.insert("co2eIntensityTTW"@, <WrappedDecimal as Wire>::to_wire(v.co2e_intensity_ttw));
        let m = m.insert("transportActivityUnit"@, <TransportActivityUnit as Wire>::to_wire(v.transport_activity_unit));
        JsonModel::Object(m)
    }

    open spec fn from_wire(j: JsonModel) -> Result<TocModel, DecodeError> {
        match j {
            JsonModel::Object(m) => match Self::member_error(m) {
                Some(e) => Err(e),
                None => Ok(Self::of_members(m)),
            },
            _ => Err(DecodeError::WrongType),
        }
    }

    open spec fn faithful(v: TocModel) -> bool {
        &&& <String as Wire>::faithful(v.toc_id)
        &&& faithful_optional::<NonEmptyVec<Certification>>(v.certifications)
        &&& faithful_optional::<String>(v.description)
        &&& <TransportMode as Wire>::faithful(v.mode)
        &&& faithful_optional::<String>(v.load_factor)
        &&& faithful_optional::<String>(v.empty_distance_factor)
        &&& faithful_optional::<TemperatureControl>(v.temperature_control)
        &&& faithful_optional::<TruckLoadingSequence>(v.truck_loading_sequence)
        &&& faithful_optional::<AirShippingOption>(v.air_shipping_option)
        &&& faithful_optional::<FlightLength>(v.flight_length)
        &&& <NonEmptyVec<EnergyCarrier> as Wire>::faithful(v.energy_carriers)
        &&& <WrappedDecimal as Wire>::faithful(v.co2e_intensity_wtw)
        &&& <WrappedDecimal as Wire>::faithful(v.co2e_intensity_ttw)
        &&& <TransportActivityUnit as Wire>::faithful(v.transport_activity_unit)
    }

    proof fn lemma_round_trip(v: TocModel) {
        Self::lemma_members_held(v);
        Self::lemma_members_read(v, Self::to_wire(v)->Object_0);
    }

    fn to_json(&self) -> (r: Json) {
        let mut entries: Vec<(String, Json)> = Vec::new();
        put_value(&mut entries, "tocId", &self.toc_id);
        put_optional(&mut entries, "certifications", &self.certifications);
        put_optional(&mut entries, "description", &self.description);
        put_value(&mut entries, "mode", &self.mode);
        put_optional(&mut entries, "loadFactor", &self.load_factor);
        put_optional(&mut entries, "emptyDistanceFactor", &self.empty_distance_factor);
        put_optional(&mut entries, "temperatureControl", &self.temperature_control);
        put_optional(&mut entries, "truckLoadingSequence", &self.truck_loading_sequence);
        put_optional(&mut entries, "airShippingOption", &self.air_shipping_option);
        put_optional(&mut entries, "flightLength", &self.flight_length);
        put_value(&mut entries, "energyCarriers", &self.energy_carriers);
        put_value(&mut entries, "co2eIntensityWTW", &self.co2e_intensity_wtw);
        put_value(&mut entries, "co2eIntensityTTW", &self.co2e_intensity_ttw);
        put_value(&mut entries, "transportActivityUnit", &self.transport_activity_unit);
        Json::Object(entries)
    }

    fn from_json(j: &Json) -> (r: Result<Toc, DecodeError>) {
        let entries = match j {
            Json::Object(entries) => entries,
            _ => {
                return Err(DecodeError::WrongType);
            },
        };
        let toc_id = read_required::<String>(entries, "tocId")?;
        let certifications = read_optional::<NonEmptyVec<Certification>>(entries, "certifications")?;
        let description = read_optional::<String>(entries, "description")?;
        let mode = read_required::<TransportMode>(entries, "mode")?;
        let load_factor = read_optional::<String>(entries, "loadFactor")?;
        let empty_distance_factor = read_optional::<String>(entries, "emptyDistanceFactor")?;
        let temperature_control = read_optional::<TemperatureControl>(entries, "temperatureControl")?;
        let truck_loading_sequence = read_optional::<TruckLoadingSequence>(entries, "truckLoadingSequence")?;
        let air_shipping_option = read_optional::<AirShippingOption>(entries, "airShippingOption")?;
        let flight_length = read_optional::<FlightLength>(entries, "flightLength")?;
        let energy_carriers = read_required::<NonEmptyVec<EnergyCarrier>>(entries, "energyCarriers")?;
        let co2e_intensity_wtw = read_required::<WrappedDecimal>(entries, "co2eIntensityWTW")?;
        let co2e_intensity_ttw = read_required::<WrappedDecimal>(entries, "co2eIntensityTTW")?;
        let transport_activity_unit = read_required::<TransportActivityUnit>(entries, "transportActivityUnit")?;
        Ok(Toc {
            toc_id,
            certifications,
            description,
            mode,
            load_factor,
            empty_distance_factor,
            temperature_control,
            truck_loading_sequence,
            air_shipping_option,
            flight_length,
            energy_carriers,
            co2e_intensity_wtw,
            co2e_intensity_ttw,
            transport_activity_unit,
        })
    }
}

/// A hub operation category as a mathematical value.
pub struct HocModel {
    pub hoc_id: Seq<char>,
    pub description: Option<Seq<char>>,
    pub certifications: Option<Seq<Certification>>,
    pub hub_type: HubType,
    pub temperature_control: Option<TemperatureControl>,
    pub hub_location: Option<LocationModel>,
    pub inbound_transport_mode: Option<TransportMode>,
    pub outbound_transport_mode: Option<TransportMode>,
    pub packaging_or_tr_eq_type: Option<PackagingOrTrEqType>,
    pub packaging_or_tr_eq_amount: Option<usize>,
    pub energy_carriers: Seq<EnergyCarrierModel>,
    pub co2e_intensity_wtw: WrappedDecimal,
    pub co2e_intensity_ttw: WrappedDecimal,
    pub hub_activity_unit: HubActivityUnit,
}

impl DeepView for Hoc {
    type V = HocModel;

    open spec fn deep_view(&self) -> HocModel {
        HocModel {
            hoc_id: self.hoc_id.deep_view(),
            description: self.description.deep_view(),
            certifications: self.certifications.deep_view(),
            hub_type: self.hub_type.deep_view(),
            temperature_control: self.temperature_control.deep_view(),
            hub_location: self.hub_location.deep_view(),
            inbound_transport_mode: self.inbound_transport_mode.deep_view(),
            outbound_transport_mode: self.outbound_transport_mode.deep_view(),
            packaging_or_tr_eq_type: self.packaging_or_tr_eq_type.deep_view(),
            packaging_or_tr_eq_amount: self.packaging_or_tr_eq_amount.deep_view(),
            energy_carriers: self.energy_carriers.deep_view(),
            co2e_intensity_wtw: self.co2e_intensity_wtw.deep_view(),
            co2e_intensity_ttw: self.co2e_intensity_ttw.deep_view(),
            hub_activity_unit: self.hub_activity_unit.deep_view(),
        }
    }
}

/// The position of a member of a hoc by its name, or -1 for any
/// other name.
pub open spec fn hoc_member(name: Seq<char>) -> int {
    if name == "hocId"@ {
        0
    } else if name == "description"@ {
        1
    } else if name == "certifications"@ {
        2
    } else if name == "hubType"@ {
        3
    } else if name == "temperatureControl"@ {
        4
    } else if name == "hubLocation"@ {
        5
    } else if name == "inboundTransportMode"@ {
        6
    } else if name == "outboundTransportMode"@ {
        7
    } else if name == "packagingOrTrEqType"@ {
        8
    } else if name == "packagingOrTrEqAmount"@ {
        9
    } else if name == "energyCarriers"@ {
        10
    } else if name == "co2eIntensityWTW"@ {
        11
    } else if name == "co2eIntensityTTW"@ {
        12
    } else if name == "hubActivityUnit"@ {
        13
    } else {
        -1
    }
}

/// Each member of a hoc has a position of its own: no two have
/// the same name.
pub proof fn lemma_hoc_keys()
    ensures
        hoc_member("hocId"@) == 0,
        hoc_member("description"@) == 1,
        hoc_member("certifications"@) == 2,
        hoc_member("hubType"@) == 3,
        hoc_member("temperatureControl"@) == 4,
        hoc_member("hubLocation"@) == 5,
        hoc_member("inboundTransportMode"@) == 6,
        hoc_member("outboundTransportMode"@) == 7,
        hoc_member("packagingOrTrEqType"@) == 8,
        hoc_member("packagingOrTrEqAmount"@) == 9,
        hoc_member("energyCarriers"@) == 10,
        hoc_member("co2eIntensityWTW"@) == 11,
        hoc_member("co2eIntensityTTW"@) == 12,
        hoc_member("hubActivityUnit"@) == 13,
{
    reveal_strlit("hocId");
    reveal_strlit("description");
    reveal_strlit("certifications");
    reveal_strlit("hubType");
    reveal_strlit("temperatureControl");
    reveal_strlit("hubLocation");
    reveal_strlit("inboundTransportMode");
    reveal_strlit("outboundTransportMode");
    reveal_strlit("packagingOrTrEqType");
    reveal_strlit("packagingOrTrEqAmount");
    reveal_strlit("energyCarriers");
    reveal_strlit("co2eIntensityWTW");
    reveal_strlit("co2eIntensityTTW");
    reveal_strlit("hubActivityUnit");
    assert("hocId"@.len() == 5);
    assert("description"@.len() == 11);
    assert("certifications"@.len() == 14);
    assert("hubType"@.len() == 7);
    assert("temperatureControl"@.len() == 18);
    assert("hubLocation"@.len() == 11);
    assert("inboundTransportMode"@.len() == 20);
    assert("outboundTransportMode"@.len() == 21);
    assert("packagingOrTrEqType"@.len() == 19);
    assert("packagingOrTrEqAmount"@.len() == 21);
    assert("energyCarriers"@.len() == 14);
    assert("co2eIntensityWTW"@.len() == 16);
    assert("co2eIntensityTTW"@.len() == 16);
    assert("hubActivityUnit"@.len() == 15);
    assert("description"@[0] != "hubLocation"@[0]);
    assert("certifications"@[0] != "energyCarriers"@[0]);
    assert("outboundTransportMode"@[0] != "packagingOrTrEqAmount"@[0]);
    assert("co2eIntensityWTW"@[13] != "co2eIntensityTTW"@[13]);
}

impl Hoc {
    /// The first error among the members of an object, in the order in
    /// which the record declares them.
    pub open spec fn member_error(m: Map<Seq<char>, JsonModel>) -> Option<DecodeError> {
        let e = None;
        let e = or_error(e, required::<String>(m, "hocId"@));
        let e = or_error(e, optional::<String>(m, "description"@));
        let e = or_error(e, optional::<NonEmptyVec<Certification>>(m, "certifications"@));
        let e = or_error(e, required::<HubType>(m, "hubType"@));
        let e = or_error(e, optional::<TemperatureControl>(m, "temperatureControl"@));
        let e = or_error(e, optional::<Location>(m, "hubLocation"@));
        let e = or_error(e, optional::<TransportMode>(m, "inboundTransportMode"@));
        let e = or_error(e, optional::<TransportMode>(m, "outboundTransportMode"@));
        let e = or_error(e, optional::<PackagingOrTrEqType>(m, "packagingOrTrEqType"@));
        let e = or_error(e, optional::<usize>(m, "packagingOrTrEqAmount"@));
        let e = or_error(e, required::<NonEmptyVec<EnergyCarrier>>(m, "energyCarriers"@));
        let e = or_error(e, required::<WrappedDecimal>(m, "co2eIntensityWTW"@));
        let e = or_error(e, required::<WrappedDecimal>(m, "co2eIntensityTTW"@));
        let e = or_error(e, required::<HubActivityUnit>(m, "hubActivityUnit"@));
        e
    }

    /// The record that the members of an object stand for, where none of
    /// them is in error.
    pub open spec fn of_members(m: Map<Seq<char>, JsonModel>) -> HocModel {
        HocModel {
            hoc_id: required::<String>(m, "hocId"@)->Ok_0,
            description: optional::<String>(m, "description"@)->Ok_0,
            certifications: optional::<NonEmptyVec<Certification>>(m, "certifications"@)->Ok_0,
            hub_type: required::<HubType>(m, "hubType"@)->Ok_0,
            temperature_control: optional::<TemperatureControl>(m, "temperatureControl"@)->Ok_0,
            hub_location: optional::<Location>(m, "hubLocation"@)->Ok_0,
            inbound_transport_mode: optional::<TransportMode>(m, "inboundTransportMode"@)->Ok_0,
            outbound_transport_mode: optional::<TransportMode>(m, "outboundTransportMode"@)->Ok_0,
            packaging_or_tr_eq_type: optional::<PackagingOrTrEqType>(
                m,
                "packagingOrTrEqType"@,
            )->Ok_0,
            packaging_or_tr_eq_amount: optional::<usize>(m, "packagingOrTrEqAmount"@)->Ok_0,
            energy_carriers: required::<NonEmptyVec<EnergyCarrier>>(m, "energyCarriers"@)->Ok_0,
            co2e_intensity_wtw: required::<WrappedDecimal>(m, "co2eIntensityWTW"@)->Ok_0,
            co2e_intensity_ttw: required::<WrappedDecimal>(m, "co2eIntensityTTW"@)->Ok_0,
            hub_activity_unit: required::<HubActivityUnit>(m, "hubActivityUnit"@)->Ok_0,
        }
    }

    /// The document of the member at a position, where the record has a
    /// value for it.
    pub open spec fn expected_member(v: HocModel, i: int) -> Option<JsonModel> {
        if i == 0 {
            Some(<String as Wire>::to_wire(v.hoc_id))
        } else if i == 1 {
            wire_of_optional::<String>(v.description)
        } else if i == 2 {
            wire_of_optional::<NonEmptyVec<Certification>>(v.certifications)
        } else if i == 3 {
            Some(<HubType as Wire>::to_wire(v.hub_type))
        } else if i == 4 {
            wire_of_optional::<TemperatureControl>(v.temperature_control)
        } else if i == 5 {
            wire_of_optional::<Location>(v.hub_location)
        } else if i == 6 {
            wire_of_optional::<TransportMode>(v.inbound_transport_mode)
        } else if i == 7 {
            wire_of_optional::<TransportMode>(v.outbound_transport_mode)
        } else if i == 8 {
            wire_of_optional::<PackagingOrTrEqType>(v.packaging_or_tr_eq_type)
        } else if i == 9 {
            wire_of_optional::<usize>(v.packaging_or_tr_eq_amount)
        } else if i == 10 {
            Some(<NonEmptyVec<EnergyCarrier> as Wire>::to_wire(v.energy_carriers))
        } else if i == 11 {
            Some(<WrappedDecimal as Wire>::to_wire(v.co2e_intensity_wtw))
        } else if i == 12 {
            Some(<WrappedDecimal as Wire>::to_wire(v.co2e_intensity_ttw))
        } else if i == 13 {
            Some(<HubActivityUnit as Wire>::to_wire(v.hub_activity_unit))
        } else {
            None
        }
    }

    /// The document of a faithful record holds exactly the members of the
    /// record.
    #[verifier::rlimit(60)]
    pub proof fn lemma_members_held(v: HocModel)
        requires
            <Self as Wire>::faithful(v),
        ensures
            <Self as Wire>::to_wire(v) is Object,
            holds(
                <Self as Wire>::to_wire(v)->Object_0,
                |name: Seq<char>| hoc_member(name),
                |i: int| Self::expected_member(v, i),
                14,
            ),
    {
        lemma_hoc_keys();
        let index = |name: Seq<char>| hoc_member(name);
        let expected = |i: int| Self::expected_member(v, i);
        let m0 = Map::<Seq<char>, JsonModel>::empty();
        let m1 = m0.insert("hocId"@, <String as Wire>::to_wire(v.hoc_id));
        lemma_required_member::<String>(m0, index, expected, 0, "hocId"@, v.hoc_id);
        let m2 = with_optional::<String>(m1, "description"@, v.description);
        lemma_optional_member::<String>(m1, index, expected, 1, "description"@, v.description);
        let m3 = with_optional::<NonEmptyVec<Certification>>(m2, "certifications"@, v.certifications);
        lemma_optional_member::<NonEmptyVec<Certification>>(
            m2,
            index,
            expected,
            2,
            "certifications"@,
            v.certifications,
        );
        let m4 = m3.insert("hubType"@, <HubType as Wire>::to_wire(v.hub_type));
        lemma_required_member::<HubType>(m3, index, expected, 3, "hubType"@, v.hub_type);
        let m5 = with_optional::<TemperatureControl>(m4, "temperatureControl"@, v.temperature_control);
        lemma_optional_member::<TemperatureControl>(
            m4,
            index,
            expected,
            4,
            "temperatureControl"@,
            v.temperature_control,
        );
        let m6 = with_optional::<Location>(m5, "hubLocation"@, v.hub_location);
        lemma_optional_member::<Location>(m5, index, expected, 5, "hubLocation"@, v.hub_location);
        let m7 = with_optional::<TransportMode>(m6, "inboundTransportMode"@, v.inbound_transport_mode);
        lemma_optional_member::<TransportMode>(
            m6,
            index,
            expected,
            6,
            "inboundTransportMode"@,
            v.inbound_transport_mode,
        );
        let m8 = with_optional::<TransportMode>(m7, "outboundTransportMode"@, v.outbound_transport_mode);
        lemma_optional_member::<TransportMode>(
            m7,
            index,
            expected,
            7,
            "outboundTransportMode"@,
            v.outbound_transport_mode,
        );
        let m9 = with_optional::<PackagingOrTrEqType>(m8, "packagingOrTrEqType"@, v.packaging_or_tr_eq_type);
        lemma_optional_member::<PackagingOrTrEqType>(
            m8,
            index,
            expected,
            8,
            "packagingOrTrEqType"@,
            v.packaging_or_tr_eq_type,
        );
        let m10 = with_optional::<usize>(m9, "packagingOrTrEqAmount"@, v.packaging_or_tr_eq_amount);
        lemma_optional_member::<usize>(
            m9,
            index,
            expected,
            9,
            "packagingOrTrEqAmount"@,
            v.packaging_or_tr_eq_amount,
        );
        let m11 = m10.insert("energyCarriers"@, <NonEmptyVec<EnergyCarrier> as Wire>::to_wire(v.energy_carriers));
        lemma_required_member::<NonEmptyVec<EnergyCarrier>>(
            m10,
            index,
            expected,
            10,
            "energyCarriers"@,
            v.energy_carriers,
        );
        let m12 = m11.insert("co2eIntensityWTW"@, <WrappedDecimal as Wire>::to_wire(v.co2e_intensity_wtw));
        lemma_required_member::<WrappedDecimal>(
            m11,
            index,
            expected,
            11,
            "co2eIntensityWTW"@,
            v.co2e_intensity_wtw,
        );
        let m13 = m12.insert("co2eIntensityTTW"@, <WrappedDecimal as Wire>::to_wire(v.co2e_intensity_ttw));
        lemma_required_member::<WrappedDecimal>(
            m12,
            index,
            expected,
            12,
            "co2eIntensityTTW"@,
            v.co2e_intensity_ttw,
        );
        let m14 = m13.insert("hubActivityUnit"@, <HubActivityUnit as Wire>::to_wire(v.hub_activity_unit));
        lemma_required_member::<HubActivityUnit>(
            m13,
            index,
            expected,
            13,
            "hubActivityUnit"@,
            v.hub_activity_unit,
        );
    }

    /// From an object that holds exactly the members of a faithful record
    /// the record is read back.
    pub proof fn lemma_members_read(v: HocModel, m: Map<Seq<char>, JsonModel>)
        requires
            <Self as Wire>::faithful(v),
            holds(
                m,
                |name: Seq<char>| hoc_member(name),
                |i: int| Self::expected_member(v, i),
                14,
            ),
        ensures
            Self::member_error(m) is None,
            Self::of_members(m) == v,
    {
        lemma_hoc_keys();
        <String as Wire>::lemma_round_trip(v.hoc_id);
        assert(required::<String>(m, "hocId"@) == Ok::<Seq<char>, DecodeError>(v.hoc_id));
        lemma_optional_round_trip::<String>(v.description);
        assert(optional::<String>(m, "description"@) == Ok::<
            Option<Seq<char>>,
            DecodeError,
        >(v.description));
        lemma_optional_round_trip::<NonEmptyVec<Certification>>(v.certifications);
        assert(optional::<NonEmptyVec<Certification>>(m, "certifications"@) == Ok::<
            Option<Seq<Certification>>,
            DecodeError,
        >(v.certifications));
        <HubType as Wire>::lemma_round_trip(v.hub_type);
        assert(required::<HubType>(m, "hubType"@) == Ok::<HubType, DecodeError>(v.hub_type));
        lemma_optional_round_trip::<TemperatureControl>(v.temperature_control);
        assert(optional::<TemperatureControl>(m, "temperatureControl"@) == Ok::<
            Option<TemperatureControl>,
            DecodeError,
        >(v.temperature_control));
        lemma_optional_round_trip::<Location>(v.hub_location);
        assert(optional::<Location>(m, "hubLocation"@) == Ok::<
            Option<LocationModel>,
            DecodeError,
        >(v.hub_location));
        lemma_optional_round_trip::<TransportMode>(v.inbound_transport_mode);
        assert(optional::<TransportMode>(m, "inboundTransportMode"@) == Ok::<
            Option<TransportMode>,
            DecodeError,
        >(v.inbound_transport_mode));
        lemma_optional_round_trip::<TransportMode>(v.outbound_transport_mode);
        assert(optional::<TransportMode>(m, "outboundTransportMode"@) == Ok::<
            Option<TransportMode>,
            DecodeError,
        >(v.outbound_transport_mode));
        lemma_optional_round_trip::<PackagingOrTrEqType>(v.packaging_or_tr_eq_type);
        assert(optional::<PackagingOrTrEqType>(m, "packagingOrTrEqType"@) == Ok::<
            Option<PackagingOrTrEqType>,
            DecodeError,
        >(v.packaging_or_tr_eq_type));
        lemma_optional_round_trip::<usize>(v.packaging_or_tr_eq_amount);
        assert(optional::<usize>(m, "packagingOrTrEqAmount"@) == Ok::<
            Option<usize>,
            DecodeError,
        >(v.packaging_or_tr_eq_amount));
        <NonEmptyVec<EnergyCarrier> as Wire>::lemma_round_trip(v.energy_carriers);
        assert(required::<NonEmptyVec<EnergyCarrier>>(m, "energyCarriers"@) == Ok::<
            Seq<EnergyCarrierModel>,
            DecodeError,
        >(v.energy_carriers));
        <WrappedDecimal as Wire>::lemma_round_trip(v.co2e_intensity_wtw);
        assert(required::<WrappedDecimal>(m, "co2eIntensityWTW"@) == Ok::<
            WrappedDecimal,
            DecodeError,
        >(v.co2e_intensity_wtw));
        <WrappedDecimal as Wire>::lemma_round_trip(v.co2e_intensity_ttw);
        assert(required::<WrappedDecimal>(m, "co2eIntensityTTW"@) == Ok::<
            WrappedDecimal,
            DecodeError,
        >(v.co2e_intensity_ttw));
        <HubActivityUnit as Wire>::lemma_round_trip(v.hub_activity_unit);
        assert(required::<HubActivityUnit>(m, "hubActivityUnit"@) == Ok::<
            HubActivityUnit,
            DecodeError,
        >(v.hub_activity_unit));
    }
}

impl Wire for Hoc {
    open spec fn to_wire(v: HocModel) -> JsonModel {
        let m = Map::<Seq<char>, JsonModel>::empty();
        let m = m.insert("hocId"@, <String as Wire>::to_wire(v.hoc_id));
        let m = with_optional::<String>(m, "description"@, v.description);
        let m = with_optional::<NonEmptyVec<Certification>>(m, "certifications"@, v.certifications);
        let m = m.insert("hubType"@, <HubType as Wire>::to_wire(v.hub_type));
        let m = with_optional::<TemperatureControl>(m, "temperatureControl"@, v.temperature_control);
        let m = with_optional::<Location>(m, "hubLocation"@, v.hub_location);
        let m = with_optional::<TransportMode>(m, "inboundTransportMode"@, v.inbound_transport_mode);
        let m = with_optional::<TransportMode>(m, "outboundTransportMode"@, v.outbound_transport_mode);
        let m = with_optional::<PackagingOrTrEqType>(m, "packagingOrTrEqType"@, v.packaging_or_tr_eq_type);
        let m = with_optional::<usize>(m, "packagingOrTrEqAmount"@, v.packaging_or_tr_eq_amount);
        let m = m.insert("energyCarriers"@, <NonEmptyVec<EnergyCarrier> as Wire>::to_wire(v.energy_carriers));
        let m = m.insert("co2eIntensityWTW"@, <WrappedDecimal as Wire>::to_wire(v.co2e_intensity_wtw));
        let m = m.insert("co2eIntensityTTW"@, <WrappedDecimal as Wire>::to_wire(v.co2e_intensity_ttw));
        let m = m.insert("hubActivityUnit"@, <HubActivityUnit as Wire>::to_wire(v.hub_activity_unit));
        JsonModel::Object(m)
    }

    open spec fn from_wire(j: JsonModel) -> Result<HocModel, DecodeError> {
        match j {
            JsonModel::Object(m) => match Self::member_error(m) {
                Some(e) => Err(e),
                None => Ok(Self::of_members(m)),
            },
            _ => Err(DecodeError::WrongType),
        }
    }

    open spec fn faithful(v: HocModel) -> bool {
        &&& <String as Wire>::faithful(v.hoc_id)
        &&& faithful_optional::<String>(v.description)
        &&& faithful_optional::<NonEmptyVec<Certification>>(v.certifications)
        &&& <HubType as Wire>::faithful(v.hub_type)
        &&& faithful_optional::<TemperatureControl>(v.temperature_control)
        &&& faithful_optional::<Location>(v.hub_location)
        &&& faithful_optional::<TransportMode>(v.inbound_transport_mode)
        &&& faithful_optional::<TransportMode>(v.outbound_transport_mode)
        &&& faithful_optional::<PackagingOrTrEqType>(v.packaging_or_tr_eq_type)
        &&& faithful_optional::<usize>(v.packaging_or_tr_eq_amount)
        &&& <NonEmptyVec<EnergyCarrier> as Wire>::faithful(v.energy_carriers)
        &&& <WrappedDecimal as Wire>::faithful(v.co2e_intensity_wtw)
        &&& <WrappedDecimal as Wire>::faithful(v.co2e_intensity_ttw)
        &&& <HubActivityUnit as Wire>::faithful(v.hub_activity_unit)
    }

    proof fn lemma_round_trip(v: HocModel) {
        Self::lemma_members_held(v);
        Self::lemma_members_read(v, Self::to_wire(v)->Object_0);
    }

    fn to_json(&self) -> (r: Json) {
        let mut entries: Vec<(String, Json)> = Vec::new();
        put_value(&mut entries, "hocId", &self.hoc_id);
        put_optional(&mut entries, "description", &self.description);
        put_optional(&mut entries, "certifications", &self.certifications);
        put_value(&mut entries, "hubType", &self.hub_type);
        put_optional(&mut entries, "temperatureControl", &self.temperature_control);
        put_optional(&mut entries, "hubLocation", &self.hub_location);
        put_optional(&mut entries, "inboundTransportMode", &self.inbound_transport_mode);
        put_optional(&mut entries, "outboundTransportMode", &self.outbound_transport_mode);
        put_optional(&mut entries, "packagingOrTrEqType", &self.packaging_or_tr_eq_type);
        put_optional(&mut entries, "packagingOrTrEqAmount", &self.packaging_or_tr_eq_amount);
        put_value(&mut entries, "energyCarriers", &self.energy_carriers);
        put_value(&mut entries, "co2eIntensityWTW", &self.co2e_intensity_wtw);
        put_value(&mut entries, "co2eIntensityTTW", &self.co2e_intensity_ttw);
        put_value(&mut entries, "hubActivityUnit", &self.hub_activity_unit);
        Json::Object(entries)
    }

    fn from_json(j: &Json) -> (r: Result<Hoc, DecodeError>) {
        let entries = match j {
            Json::Object(entries) => entries,
            _ => {
                return Err(DecodeError::WrongType);
            },
        };
        let hoc_id = read_required::<String>(entries, "hocId")?;
        let description = read_optional::<String>(entries, "description")?;
        let certifications = read_optional::<NonEmptyVec<Certification>>(entries, "certifications")?;
        let hub_type = read_required::<HubType>(entries, "hubType")?;
        let temperature_control = read_optional::<TemperatureControl>(entries, "temperatureControl")?;
        let hub_location = read_optional::<Location>(entries, "hubLocation")?;
        let inbound_transport_mode = read_optional::<TransportMode>(entries, "inboundTransportMode")?;
        let outbound_transport_mode = read_optional::<TransportMode>(entries, "outboundTransportMode")?;
        let packaging_or_tr_eq_type = read_optional::<PackagingOrTrEqType>(entries, "packagingOrTrEqType")?;
        let packaging_or_tr_eq_amount = read_optional::<usize>(entries, "packagingOrTrEqAmount")?;
        let energy_carriers = read_required::<NonEmptyVec<EnergyCarrier>>(entries, "energyCarriers")?;
        let co2e_intensity_wtw = read_required::<WrappedDecimal>(entries, "co2eIntensityWTW")?;
        let co2e_intensity_ttw = read_required::<WrappedDecimal>(entries, "co2eIntensityTTW")?;
        let hub_activity_unit = read_required::<HubActivityUnit>(entries, "hubActivityUnit")?;
        Ok(Hoc {
            hoc_id,
            description,
            certifications,
            hub_type,
            temperature_control,
            hub_location,
            inbound_transport_mode,
            outbound_transport_mode,
            packaging_or_tr_eq_type,
            packaging_or_tr_eq_amount,
            energy_carriers,
            co2e_intensity_wtw,
            co2e_intensity_ttw,
            hub_activity_unit,
        })
    }
}

/// Transport activity data as a mathematical value.
pub struct TadModel {
    pub activity_id: Seq<char>,
    pub consignment_ids: Seq<Seq<char>>,
    pub distance: GlecDistance,
    pub mass: Option<WrappedDecimal>,
    pub load_factor: Option<WrappedDecimal>,
    pub empty_distance_factor: Option<WrappedDecimal>,
    pub origin: LocationModel,
    pub destination: LocationModel,
    pub departure_at: Timestamp,
    pub arrival_at: Timestamp,
    pub mode: TransportMode,
    pub packaging_or_tr_eq_type: Option<PackagingOrTrEqType>,
    pub packaging_or_tr_eq_amount: Option<usize>,
    pub energy_carriers: Option<Seq<EnergyCarrierModel>>,
    pub temperature_control: Option<TadTempControl>,
}

impl DeepView for Tad {
    type V = TadModel;

    open spec fn deep_view(&self) -> TadModel {
        TadModel {
            activity_id: self.activity_id.deep_view(),
            consignment_ids: self.consignment_ids.deep_view(),
            distance: self.distance.deep_view(),
            mass: self.mass.deep_view(),
            load_factor: self.load_factor.deep_view(),
            empty_distance_factor: self.empty_distance_factor.deep_view(),
            origin: self.origin.deep_view(),
            destination: self.destination.deep_view(),
            departure_at: self.departure_at.deep_view(),
            arrival_at: self.arrival_at.deep_view(),
            mode: self.mode.deep_view(),
            packaging_or_tr_eq_type: self.packaging_or_tr_eq_type.deep_view(),
            packaging_or_tr_eq_amount: self.packaging_or_tr_eq_amount.deep_view(),
            energy_carriers: self.energy_carriers.deep_view(),
            temperature_control: self.temperature_control.deep_view(),
        }
    }
}

/// The position of a member of a tad by its name, or -1 for any
/// other name.
pub open spec fn tad_member(name: Seq<char>) -> int {
    if name == "activityId"@ {
        0
    } else if name == "consignmentIds"@ {
        1
    } else if name == "distance"@ {
        2
    } else if name == "mass"@ {
        3
    } else if name == "loadFactor"@ {
        4
    } else if name == "emptyDistanceFactor"@ {
        5
    } else if name == "origin"@ {
        6
    } else if name == "destination"@ {
        7
    } else if name == "departureAt"@ {
        8
    } else if name == "arrivalAt"@ {
        9
    } else if name == "mode"@ {
        10
    } else if name == "packagingOrTrEqType"@ {
        11
    } else if name == "packagingOrTrEqAmount"@ {
        12
    } else if name == "energyCarriers"@ {
        13
    } else if name == "temperatureControl"@ {
        14
    } else {
        -1
    }
}

/// Each member of a tad has a position of its own: no two have
/// the same name.
pub proof fn lemma_tad_keys()
    ensures
        tad_member("activityId"@) == 0,
        tad_member("consignmentIds"@) == 1,
        tad_member("distance"@) == 2,
        tad_member("mass"@) == 3,
        tad_member("loadFactor"@) == 4,
        tad_member("emptyDistanceFactor"@) == 5,
        tad_member("origin"@) == 6,
        tad_member("destination"@) == 7,
        tad_member("departureAt"@) == 8,
        tad_member("arrivalAt"@) == 9,
        tad_member("mode"@) == 10,
        tad_member("packagingOrTrEqType"@) == 11,
        tad_member("packagingOrTrEqAmount"@) == 12,
        tad_member("energyCarriers"@) == 13,
        tad_member("temperatureControl"@) == 14,
{
    reveal_strlit("activityId");
    reveal_strlit("consignmentIds");
    reveal_strlit("distance");
    reveal_strlit("mass");
    reveal_strlit("loadFactor");
    reveal_strlit("emptyDistanceFactor");
    reveal_strlit("origin");
    reveal_strlit("destination");
    reveal_strlit("departureAt");
    reveal_strlit("arrivalAt");
    reveal_strlit("mode");
    reveal_strlit("packagingOrTrEqType");
    reveal_strlit("packagingOrTrEqAmount");
    reveal_strlit("energyCarriers");
    reveal_strlit("temperatureControl");
    assert("activityId"@.len() == 10);
    assert("consignmentIds"@.len() == 14);
    assert("distance"@.len() == 8);
    assert("mass"@.len() == 4);
    assert("loadFactor"@.len() == 10);
    assert("emptyDistanceFactor"@.len() == 19);
    assert("origin"@.len() == 6);
    assert("destination"@.len() == 11);
    assert("departureAt"@.len() == 11);
    assert("arrivalAt"@.len() == 9);
    assert("mode"@.len() == 4);
    assert("packagingOrTrEqType"@.len() == 19);
    assert("packagingOrTrEqAmount"@.len() == 21);
    assert("energyCarriers"@.len() == 14);
    assert("temperatureControl"@.len() == 18);
    assert("activityId"@[0] != "loadFactor"@[0]);
    assert("consignmentIds"@[0] != "energyCarriers"@[0]);
    assert("mass"@[1] != "mode"@[1]);
    assert("emptyDistanceFactor"@[0] != "packagingOrTrEqType"@[0]);
    assert("destination"@[2] != "departureAt"@[2]);
}

impl Tad {
    /// The first error among the members of an object, in the order in
    /// which the record declares them.
    pub open spec fn member_error(m: Map<Seq<char>, JsonModel>) -> Option<DecodeError> {
        let e = None;
        let e = or_error(e, required::<String>(m, "activityId"@));
        let e = or_error(e, required::<Vec<String>>(m, "consignmentIds"@));
        let e = or_error(e, required::<GlecDistance>(m, "distance"@));
        let e = or_error(e, optional::<WrappedDecimal>(m, "mass"@));
        let e = or_error(e, optional::<WrappedDecimal>(m, "loadFactor"@));
        let e = or_error(e, optional::<WrappedDecimal>(m, "emptyDistanceFactor"@));
        let e = or_error(e, required::<Location>(m, "origin"@));
        let e = or_error(e, required::<Location>(m, "destination"@));
        let e = or_error(e, required::<Timestamp>(m, "departureAt"@));
        let e = or_error(e, required::<Timestamp>(m, "arrivalAt"@));
        let e = or_error(e, required::<TransportMode>(m, "mode"@));
        let e = or_error(e, optional::<PackagingOrTrEqType>(m, "packagingOrTrEqType"@));
        let e = or_error(e, optional::<usize>(m, "packagingOrTrEqAmount"@));
        let e = or_error(e, optional::<NonEmptyVec<EnergyCarrier>>(m, "energyCarriers"@));
        let e = or_error(e, optional::<TadTempControl>(m, "temperatureControl"@));
        e
    }

    /// The record that the members of an object stand for, where none of
    /// them is in error.
    pub open spec fn of_members(m: Map<Seq<char>, JsonModel>) -> TadModel {
        TadModel {
            activity_id: required::<String>(m, "activityId"@)->Ok_0,
            consignment_ids: required::<Vec<String>>(m, "consignmentIds"@)->Ok_0,
            distance: required::<GlecDistance>(m, "distance"@)->Ok_0,
            mass: optional::<WrappedDecimal>(m, "mass"@)->Ok_0,
            load_factor: optional::<WrappedDecimal>(m, "loadFactor"@)->Ok_0,
            empty_distance_factor: optional::<WrappedDecimal>(m, "emptyDistanceFactor"@)->Ok_0,
            origin: required::<Location>(m, "origin"@)->Ok_0,
            destination: required::<Location>(m, "destination"@)->Ok_0,
            departure_at: required::<Timestamp>(m, "departureAt"@)->Ok_0,
            arrival_at: required::<Timestamp>(m, "arrivalAt"@)->Ok_0,
            mode: required::<TransportMode>(m, "mode"@)->Ok_0,
            packaging_or_tr_eq_type: optional::<PackagingOrTrEqType>(
                m,
                "packagingOrTrEqType"@,
            )->Ok_0,
            packaging_or_tr_eq_amount: optional::<usize>(m, "packagingOrTrEqAmount"@)->Ok_0,
            energy_carriers: optional::<NonEmptyVec<EnergyCarrier>>(m, "energyCarriers"@)->Ok_0,
            temperature_control: optional::<TadTempControl>(m, "temperatureControl"@)->Ok_0,
        }
    }

    /// The document of the member at a position, where the record has a
    /// value for it.
    pub open spec fn expected_member(v: TadModel, i: int) -> Option<JsonModel> {
        if i == 0 {
            Some(<String as Wire>::to_wire(v.activity_id))
        } else if i == 1 {
            Some(<Vec<String> as Wire>::to_wire(v.consignment_ids))
        } else if i == 2 {
            Some(<GlecDistance as Wire>::to_wire(v.distance))
        } else if i == 3 {
            wire_of_optional::<WrappedDecimal>(v.mass)
        } else if i == 4 {
            wire_of_optional::<WrappedDecimal>(v.load_factor)
        } else if i == 5 {
            wire_of_optional::<WrappedDecimal>(v.empty_distance_factor)
        } else if i == 6 {
            Some(<Location as Wire>::to_wire(v.origin))
        } else if i == 7 {
            Some(<Location as Wire>::to_wire(v.destination))
        } else if i == 8 {
            Some(<Timestamp as Wire>::to_wire(v.departure_at))
        } else if i == 9 {
            Some(<Timestamp as Wire>::to_wire(v.arrival_at))
        } else if i == 10 {
            Some(<TransportMode as Wire>::to_wire(v.mode))
        } else if i == 11 {
            wire_of_optional::<PackagingOrTrEqType>(v.packaging_or_tr_eq_type)
        } else if i == 12 {
            wire_of_optional::<usize>(v.packaging_or_tr_eq_amount)
        } else if i == 13 {
            wire_of_optional::<NonEmptyVec<EnergyCarrier>>(v.energy_carriers)
        } else if i == 14 {
            wire_of_optional::<TadTempControl>(v.temperature_control)
        } else {
            None
        }
    }

    /// The document of a faithful record holds exactly the members of the
    /// record.
    #[verifier::rlimit(60)]
    pub proof fn lemma_members_held(v: TadModel)
        requires
            <Self as Wire>::faithful(v),
        ensures
            <Self as Wire>::to_wire(v) is Object,
            holds(
                <Self as Wire>::to_wire(v)->Object_0,
                |name: Seq<char>| tad_member(name),
                |i: int| Self::expected_member(v, i),
                15,
            ),
    {
        lemma_tad_keys();
        let index = |name: Seq<char>| tad_member(name);
        let expected = |i: int| Self::expected_member(v, i);
        let m0 = Map::<Seq<char>, JsonModel>::empty();
        let m1 = m0.insert("activityId"@, <String as Wire>::to_wire(v.activity_id));
        lemma_required_member::<String>(m0, index, expected, 0, "activityId"@, v.activity_id);
        let m2 = m1.insert("consignmentIds"@, <Vec<String> as Wire>::to_wire(v.consignment_ids));
        lemma_required_member::<Vec<String>>(
            m1,
            index,
            expected,
            1,
            "consignmentIds"@,
            v.consignment_ids,
        );
        let m3 = m2.insert("distance"@, <GlecDistance as Wire>::to_wire(v.distance));
        lemma_required_member::<GlecDistance>(m2, index, expected, 2, "distance"@, v.distance);
        let m4 = with_optional::<WrappedDecimal>(m3, "mass"@, v.mass);
        lemma_optional_member::<WrappedDecimal>(m3, index, expected, 3, "mass"@, v.mass);
        let m5 = with_optional::<WrappedDecimal>(m4, "loadFactor"@, v.load_factor);
        lemma_optional_member::<WrappedDecimal>(
            m4,
            index,
            expected,
            4,
            "loadFactor"@,
            v.load_factor,
        );
        let m6 = with_optional::<WrappedDecimal>(m5, "emptyDistanceFactor"@, v.empty_distance_factor);
        lemma_optional_member::<WrappedDecimal>(
            m5,
            index,
            expected,
            5,
            "emptyDistanceFactor"@,
            v.empty_distance_factor,
        );
        let m7 = m6.insert("origin"@, <Location as Wire>::to_wire(v.origin));
        lemma_required_member::<Location>(m6, index, expected, 6, "origin"@, v.origin);
        let m8 = m7.insert("destination"@, <Location as Wire>::to_wire(v.destination));
        lemma_required_member::<Location>(m7, index, expected, 7, "destination"@, v.destination);
        let m9 = m8.insert("departureAt"@, <Timestamp as Wire>::to_wire(v.departure_at));
        lemma_required_member::<Timestamp>(m8, index, expected, 8, "departureAt"@, v.departure_at);
        let m10 = m9.insert("arrivalAt"@, <Timestamp as Wire>::to_wire(v.arrival_at));
        lemma_required_member::<Timestamp>(m9, index, expected, 9, "arrivalAt"@, v.arrival_at);
        let m11 = m10.insert("mode"@, <TransportMode as Wire>::to_wire(v.mode));
        lemma_required_member::<TransportMode>(m10, index, expected, 10, "mode"@, v.mode);
        let m12 = with_optional::<PackagingOrTrEqType>(m11, "packagingOrTrEqType"@, v.packaging_or_tr_eq_type);
        lemma_optional_member::<PackagingOrTrEqType>(
            m11,
            index,
            expected,
            11,
            "packagingOrTrEqType"@,
            v.packaging_or_tr_eq_type,
        );
        let m13 = with_optional::<usize>(m12, "packagingOrTrEqAmount"@, v.packaging_or_tr_eq_amount);
        lemma_optional_member::<usize>(
            m12,
            index,
            expected,
            12,
            "packagingOrTrEqAmount"@,
            v.packaging_or_tr_eq_amount,
        );
        let m14 = with_optional::<NonEmptyVec<EnergyCarrier>>(m13, "energyCarriers"@, v.energy_carriers);
        lemma_optional_member::<NonEmptyVec<EnergyCarrier>>(
            m13,
            index,
            expected,
            13,
            "energyCarriers"@,
            v.energy_carriers,
        );
        let m15 = with_optional::<TadTempControl>(m14, "temperatureControl"@, v.temperature_control);
        lemma_optional_member::<TadTempControl>(
            m14,
            index,
            expected,
            14,
            "temperatureControl"@,
            v.temperature_control,
        );
    }

    /// From an object that holds exactly the members of a faithful record
    /// the record is read back.
    pub proof fn lemma_members_read(v: TadModel, m: Map<Seq<char>, JsonModel>)
        requires
            <Self as Wire>::faithful(v),
            holds(
                m,
                |name: Seq<char>| tad_member(name),
                |i: int| Self::expected_member(v, i),
                15,
            ),
        ensures
            Self::member_error(m) is None,
            Self::of_members(m) == v,
    {
        lemma_tad_keys();
        <String as Wire>::lemma_round_trip(v.activity_id);
        assert(required::<String>(m, "activityId"@) == Ok::<Seq<char>, DecodeError>(v.activity_id));
        <Vec<String> as Wire>::lemma_round_trip(v.consignment_ids);
        assert(required::<Vec<String>>(m, "consignmentIds"@) == Ok::<
            Seq<Seq<char>>,
            DecodeError,
        >(v.consignment_ids));
        <GlecDistance as Wire>::lemma_round_trip(v.distance);
        assert(required::<GlecDistance>(m, "distance"@) == Ok::<
            GlecDistance,
            DecodeError,
        >(v.distance));
        lemma_optional_round_trip::<WrappedDecimal>(v.mass);
        assert(optional::<WrappedDecimal>(m, "mass"@) == Ok::<
            Option<WrappedDecimal>,
            DecodeError,
        >(v.mass));
        lemma_optional_round_trip::<WrappedDecimal>(v.load_factor);
        assert(optional::<WrappedDecimal>(m, "loadFactor"@) == Ok::<
            Option<WrappedDecimal>,
            DecodeError,
        >(v.load_factor));
        lemma_optional_round_trip::<WrappedDecimal>(v.empty_distance_factor);
        assert(optional::<WrappedDecimal>(m, "emptyDistanceFactor"@) == Ok::<
            Option<WrappedDecimal>,
            DecodeError,
        >(v.empty_distance_factor));
        <Location as Wire>::lemma_round_trip(v.origin);
        assert(required::<Location>(m, "origin"@) == Ok::<LocationModel, DecodeError>(v.origin));
        <Location as Wire>::lemma_round_trip(v.destination);
        assert(required::<Location>(m, "destination"@) == Ok::<
            LocationModel,
            DecodeError,
        >(v.destination));
        <Timestamp as Wire>::lemma_round_trip(v.departure_at);
        assert(required::<Timestamp>(m, "departureAt"@) == Ok::<
            Timestamp,
            DecodeError,
        >(v.departure_at));
        <Timestamp as Wire>::lemma_round_trip(v.arrival_at);
        assert(required::<Timestamp>(m, "arrivalAt"@) == Ok::<
            Timestamp,
            DecodeError,
        >(v.arrival_at));
        <TransportMode as Wire>::lemma_round_trip(v.mode);
        assert(required::<TransportMode>(m, "mode"@) == Ok::<TransportMode, DecodeError>(v.mode));
        lemma_optional_round_trip::<PackagingOrTrEqType>(v.packaging_or_tr_eq_type);
        assert(optional::<PackagingOrTrEqType>(m, "packagingOrTrEqType"@) == Ok::<
            Option<PackagingOrTrEqType>,
            DecodeError,
        >(v.packaging_or_tr_eq_type));
        lemma_optional_round_trip::<usize>(v.packaging_or_tr_eq_amount);
        assert(optional::<usize>(m, "packagingOrTrEqAmount"@) == Ok::<
            Option<usize>,
            DecodeError,
        >(v.packaging_or_tr_eq_amount));
        lemma_optional_round_trip::<NonEmptyVec<EnergyCarrier>>(v.energy_carriers);
        assert(optional::<NonEmptyVec<EnergyCarrier>>(m, "energyCarriers"@) == Ok::<
            Option<Seq<EnergyCarrierModel>>,
            DecodeError,
        >(v.energy_carriers));
        lemma_optional_round_trip::<TadTempControl>(v.temperature_control);
        assert(optional::<TadTempControl>(m, "temperatureControl"@) == Ok::<
            Option<TadTempControl>,
            DecodeError,
        >(v.temperature_control));
    }
}

impl Wire for Tad {
    open spec fn to_wire(v: TadModel) -> JsonModel {
        let m = Map::<Seq<char>, JsonModel>::empty();
        let m = m.insert("activityId"@, <String as Wire>::to_wire(v.activity_id));
        let m = m.insert("consignmentIds"@, <Vec<String> as Wire>::to_wire(v.consignment_ids));
        let m = m.insert("distance"@, <GlecDistance as Wire>::to_wire(v.distance));
        let m = with_optional::<WrappedDecimal>(m, "mass"@, v.mass);
        let m = with_optional::<WrappedDecimal>(m, "loadFactor"@, v.load_factor);
        let m = with_optional::<WrappedDecimal>(m, "emptyDistanceFactor"@, v.empty_distance_factor);
        let m = m.insert("origin"@, <Location as Wire>::to_wire(v.origin));
        let m = m.insert("destination"@, <Location as Wire>::to_wire(v.destination));
        let m = m.insert("departureAt"@, <Timestamp as Wire>::to_wire(v.departure_at));
        let m = m.insert("arrivalAt"@, <Timestamp as Wire>::to_wire(v.arrival_at));
        let m = m.insert("mode"@, <TransportMode as Wire>::to_wire(v.mode));
        let m = with_optional::<PackagingOrTrEqType>(m, "packagingOrTrEqType"@, v.packaging_or_tr_eq_type);
        let m = with_optional::<usize>(m, "packagingOrTrEqAmount"@, v.packaging_or_tr_eq_amount);
        let m = with_optional::<NonEmptyVec<EnergyCarrier>>(m, "energyCarriers"@, v.energy_carriers);
        let m = with_optional::<TadTempControl>(m, "temperatureControl"@, v.temperature_control);
        JsonModel::Object(m)
    }

    open spec fn from_wire(j: JsonModel) -> Result<TadModel, DecodeError> {
        match j {
            JsonModel::Object(m) => match Self::member_error(m) {
                Some(e) => Err(e),
                None => Ok(Self::of_members(m)),
            },
            _ => Err(DecodeError::WrongType),
        }
    }

    open spec fn faithful(v: TadModel) -> bool {
        &&& <String as Wire>::faithful(v.activity_id)
        &&& <Vec<String> as Wire>::faithful(v.consignment_ids)
        &&& <GlecDistance as Wire>::faithful(v.distance)
        &&& faithful_optional::<WrappedDecimal>(v.mass)
        &&& faithful_optional::<WrappedDecimal>(v.load_factor)
        &&& faithful_optional::<WrappedDecimal>(v.empty_distance_factor)
        &&& <Location as Wire>::faithful(v.origin)
        &&& <Location as Wire>::faithful(v.destination)
        &&& <Timestamp as Wire>::faithful(v.departure_at)
        &&& <Timestamp as Wire>::faithful(v.arrival_at)
        &&& <TransportMode as Wire>::faithful(v.mode)
        &&& faithful_optional::<PackagingOrTrEqType>(v.packaging_or_tr_eq_type)
        &&& faithful_optional::<usize>(v.packaging_or_tr_eq_amount)
        &&& faithful_optional::<NonEmptyVec<EnergyCarrier>>(v.energy_carriers)
        &&& faithful_optional::<TadTempControl>(v.temperature_control)
    }

    proof fn lemma_round_trip(v: TadModel) {
        Self::lemma_members_held(v);
        Self::lemma_members_read(v, Self::to_wire(v)->Object_0);
    }

    fn to_json(&self) -> (r: Json) {
        let mut entries: Vec<(String, Json)> = Vec::new();
        put_value(&mut entries, "activityId", &self.activity_id);
        put_value(&mut entries, "consignmentIds", &self.consignment_ids);
        put_value(&mut entries, "distance", &self.distance);
        put_optional(&mut entries, "mass", &self.mass);
        put_optional(&mut entries, "loadFactor", &self.load_factor);
        put_optional(&mut entries, "emptyDistanceFactor", &self.empty_distance_factor);
        put_value(&mut entries, "origin", &self.origin);
        put_value(&mut entries, "destination", &self.destination);
        put_value(&mut entries, "departureAt", &self.departure_at);
        put_value(&mut entries, "arrivalAt", &self.arrival_at);
        put_value(&mut entries, "mode", &self.mode);
        put_optional(&mut entries, "packagingOrTrEqType", &self.packaging_or_tr_eq_type);
        put_optional(&mut entries, "packagingOrTrEqAmount", &self.packaging_or_tr_eq_amount);
        put_optional(&mut entries, "energyCarriers", &self.energy_carriers);
        put_optional(&mut entries, "temperatureControl", &self.temperature_control);
        Json::Object(entries)
    }

    fn from_json(j: &Json) -> (r: Result<Tad, DecodeError>) {
        let entries = match j {
            Json::Object(entries) => entries,
            _ => {
                return Err(DecodeError::WrongType);
            },
        };
        let activity_id = read_required::<String>(entries, "activityId")?;
        let consignment_ids = read_required::<Vec<String>>(entries, "consignmentIds")?;
        let distance = read_required::<GlecDistance>(entries, "distance")?;
        let mass = read_optional::<WrappedDecimal>(entries, "mass")?;
        let load_factor = read_optional::<WrappedDecimal>(entries, "loadFactor")?;
        let empty_distance_factor = read_optional::<WrappedDecimal>(entries, "emptyDistanceFactor")?;
        let origin = read_required::<Location>(entries, "origin")?;
        let destination = read_required::<Location>(entries, "destination")?;
        let departure_at = read_required::<Timestamp>(entries, "departureAt")?;
        let arrival_at = read_required::<Timestamp>(entries, "arrivalAt")?;
        let mode = read_required::<TransportMode>(entries, "mode")?;
        let packaging_or_tr_eq_type = read_optional::<PackagingOrTrEqType>(entries, "packagingOrTrEqType")?;
        let packaging_or_tr_eq_amount = read_optional::<usize>(entries, "packagingOrTrEqAmount")?;
        let energy_carriers = read_optional::<NonEmptyVec<EnergyCarrier>>(entries, "energyCarriers")?;
        let temperature_control = read_optional::<TadTempControl>(entries, "temperatureControl")?;
        Ok(Tad {
            activity_id,
            consignment_ids,
            distance,
            mass,
            load_factor,
            empty_distance_factor,
            origin,
            destination,
            departure_at,
            arrival_at,
            mode,
            packaging_or_tr_eq_type,
            packaging_or_tr_eq_amount,
            energy_carriers,
            temperature_control,
        })
    }
}

/// A payload of the logistics extension as a mathematical value.
pub enum ILeapTypeModel {
    ShipmentFootprint(ShipmentFootprintModel),
    Toc(TocModel),
    Hoc(HocModel),
}

impl DeepView for ILeapType {
    type V = ILeapTypeModel;

    open spec fn deep_view(&self) -> ILeapTypeModel {
        match self {
            ILeapType::ShipmentFootprint(shipment) => ILeapTypeModel::ShipmentFootprint(
                shipment.deep_view(),
            ),
            ILeapType::Toc(toc) => ILeapTypeModel::Toc(toc.deep_view()),
            ILeapType::Hoc(hoc) => ILeapTypeModel::Hoc(hoc.deep_view()),
        }
    }
}

/// No operation category has a member named `mass`, and no hub operation
/// category has one named `tocId`.
pub proof fn lemma_payload_keys()
    ensures
        toc_member("mass"@) == -1,
        hoc_member("mass"@) == -1,
        hoc_member("tocId"@) == -1,
{
    reveal_strlit("mass");
    reveal_strlit("tocId");
    reveal_strlit("hocId");
    reveal_strlit("mode");
    reveal_strlit("hubType");
    reveal_strlit("description");
    reveal_strlit("certifications");
    reveal_strlit("loadFactor");
    reveal_strlit("emptyDistanceFactor");
    reveal_strlit("temperatureControl");
    reveal_strlit("truckLoadingSequence");
    reveal_strlit("airShippingOption");
    reveal_strlit("flightLength");
    reveal_strlit("energyCarriers");
    reveal_strlit("co2eIntensityWTW");
    reveal_strlit("co2eIntensityTTW");
    reveal_strlit("transportActivityUnit");
    reveal_strlit("hubLocation");
    reveal_strlit("inboundTransportMode");
    reveal_strlit("outboundTransportMode");
    reveal_strlit("packagingOrTrEqType");
    reveal_strlit("packagingOrTrEqAmount");
    reveal_strlit("hubActivityUnit");
    assert("mass"@.len() == 4);
    assert("tocId"@.len() == 5);
    assert("hocId"@.len() == 5);
    assert("tocId"@[0] != "hocId"@[0]);
    assert("mode"@.len() == 4);
    assert("mass"@[1] != "mode"@[1]);
    assert("hubType"@.len() == 7);
    assert("description"@.len() == 11);
    assert("certifications"@.len() == 14);
    assert("loadFactor"@.len() == 10);
    assert("emptyDistanceFactor"@.len() == 19);
    assert("temperatureControl"@.len() == 18);
    assert("truckLoadingSequence"@.len() == 20);
    assert("airShippingOption"@.len() == 17);
    assert("flightLength"@.len() == 12);
    assert("energyCarriers"@.len() == 14);
    assert("co2eIntensityWTW"@.len() == 16);
    assert("co2eIntensityTTW"@.len() == 16);
    assert("transportActivityUnit"@.len() == 21);
    assert("hubLocation"@.len() == 11);
    assert("inboundTransportMode"@.len() == 20);
    assert("outboundTransportMode"@.len() == 21);
    assert("packagingOrTrEqType"@.len() == 19);
    assert("packagingOrTrEqAmount"@.len() == 21);
    assert("hubActivityUnit"@.len() == 15);
}

impl Wire for ILeapType {
    /// A payload stands on the wire as the record it holds, without a mark
    /// of its kind.
    open spec fn to_wire(v: ILeapTypeModel) -> JsonModel {
        match v {
            ILeapTypeModel::ShipmentFootprint(shipment) => ShipmentFootprint::to_wire(shipment),
            ILeapTypeModel::Toc(toc) => Toc::to_wire(toc),
            ILeapTypeModel::Hoc(hoc) => Hoc::to_wire(hoc),
        }
    }

    /// A document stands for the first kind of record that it can be read
    /// as: a shipment footprint, else a transport operation category, else
    /// a hub operation category.
    open spec fn from_wire(j: JsonModel) -> Result<ILeapTypeModel, DecodeError> {
        match ShipmentFootprint::from_wire(j) {
            Ok(shipment) => Ok(ILeapTypeModel::ShipmentFootprint(shipment)),
            Err(_) => match Toc::from_wire(j) {
                Ok(toc) => Ok(ILeapTypeModel::Toc(toc)),
                Err(_) => match Hoc::from_wire(j) {
                    Ok(hoc) => Ok(ILeapTypeModel::Hoc(hoc)),
                    Err(_) => Err(DecodeError::WrongType),
                },
            },
        }
    }

    open spec fn faithful(v: ILeapTypeModel) -> bool {
        match v {
            ILeapTypeModel::ShipmentFootprint(shipment) => ShipmentFootprint::faithful(shipment),
            ILeapTypeModel::Toc(toc) => Toc::faithful(toc),
            ILeapTypeModel::Hoc(hoc) => Hoc::faithful(hoc),
        }
    }

    proof fn lemma_round_trip(v: ILeapTypeModel) {
        lemma_payload_keys();
        match v {
            ILeapTypeModel::ShipmentFootprint(shipment) => {
                ShipmentFootprint::lemma_round_trip(shipment);
            },
            ILeapTypeModel::Toc(toc) => {
                Toc::lemma_round_trip(toc);
                Toc::lemma_members_held(toc);
                let m = Toc::to_wire(toc)->Object_0;
                assert(required::<String>(m, "mass"@) is Err);
                assert(ShipmentFootprint::member_error(m) is Some);
            },
            ILeapTypeModel::Hoc(hoc) => {
                Hoc::lemma_round_trip(hoc);
                Hoc::lemma_members_held(hoc);
                let m = Hoc::to_wire(hoc)->Object_0;
                assert(required::<String>(m, "mass"@) is Err);
                assert(ShipmentFootprint::member_error(m) is Some);
                assert(required::<String>(m, "tocId"@) is Err);
                assert(Toc::member_error(m) is Some);
            },
        }
    }

    fn to_json(&self) -> (r: Json) {
        match self {
            ILeapType::ShipmentFootprint(shipment) => shipment.to_json(),
            ILeapType::Toc(toc) => toc.to_json(),
            ILeapType::Hoc(hoc) => hoc.to_json(),
        }
    }

    fn from_json(j: &Json) -> (r: Result<ILeapType, DecodeError>) {
        match ShipmentFootprint::from_json(j) {
            Ok(shipment) => Ok(ILeapType::ShipmentFootprint(shipment)),
            Err(_) => match Toc::from_json(j) {
                Ok(toc) => Ok(ILeapType::Toc(toc)),
                Err(_) => match Hoc::from_json(j) {
                    Ok(hoc) => Ok(ILeapType::Hoc(hoc)),
                    Err(_) => Err(DecodeError::WrongType),
                },
            },
        }
    }
}

} // verus!
