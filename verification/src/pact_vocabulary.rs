//! The closed vocabularies of the product-footprint model, each value with
//! its exact name on the wire.

use vstd::prelude::*;
use crate::json::{DecodeError, Json, JsonModel, Wire};

verus! {

/// Whether a footprint is in force.
#[derive(Clone, Copy, Debug, PartialEq, Eq, Hash, Structural)]
pub enum PfStatus {
    Active,
    Deprecated,
}

impl PfStatus {
    /// The name of the value on the wire.
    pub open spec fn wire_name(self) -> Seq<char> {
        match self {
            PfStatus::Active => "Active"@,
            PfStatus::Deprecated => "Deprecated"@,
        }
    }

    /// The value that a name on the wire stands for, if any.
    pub open spec fn from_wire_name(s: Seq<char>) -> Option<Self> {
        if s == "Active"@ {
            Some(PfStatus::Active)
        } else if s == "Deprecated"@ {
            Some(PfStatus::Deprecated)
        } else {
            None
        }
    }

    pub fn as_str(&self) -> (r: &'static str)
        ensures
            r@ == self.wire_name(),
    {
        match self {
            PfStatus::Active => "Active",
            PfStatus::Deprecated => "Deprecated",
        }
    }

    /// Reads a value from its name on the wire; `None` for any other text.
    pub fn parse(s: &str) -> (r: Option<Self>)
        ensures
            r == Self::from_wire_name(s@),
            r matches Some(v) ==> v.wire_name() == s@,
    {
        if s.eq("Active") {
            Some(PfStatus::Active)
        } else if s.eq("Deprecated") {
            Some(PfStatus::Deprecated)
        } else {
            None
        }
    }

    /// Reading the name of a value gives the value back: no two values
    /// share a name.
    pub proof fn lemma_wire_name_round_trip(v: Self)
        ensures
            Self::from_wire_name(v.wire_name()) == Some(v),
    {
        reveal_strlit("Active");
        reveal_strlit("Deprecated");
        assert("Active"@.len() == 6);
        assert("Deprecated"@.len() == 10);
    }
}

impl DeepView for PfStatus {
    type V = PfStatus;

    open spec fn deep_view(&self) -> PfStatus {
        *self
    }
}

impl Wire for PfStatus {
    open spec fn to_wire(v: PfStatus) -> JsonModel {
        JsonModel::Text(v.wire_name())
    }

    open spec fn from_wire(j: JsonModel) -> Result<PfStatus, DecodeError> {
        match j {
            JsonModel::Text(s) => match PfStatus::from_wire_name(s) {
                Some(v) => Ok(v),
                None => Err(DecodeError::UnknownName),
            },
            _ => Err(DecodeError::WrongType),
        }
    }

    open spec fn faithful(v: PfStatus) -> bool {
        true
    }

    proof fn lemma_round_trip(v: PfStatus) {
        PfStatus::lemma_wire_name_round_trip(v);
    }

    fn to_json(&self) -> (r: Json) {
        Json::Text(self.as_str().to_owned())
    }

    fn from_json(j: &Json) -> (r: Result<PfStatus, DecodeError>) {
        match j {
            Json::Text(s) => match PfStatus::parse(s.as_str()) {
                Some(v) => Ok(v),
                None => Err(DecodeError::UnknownName),
            },
            _ => Err(DecodeError::WrongType),
        }
    }
}

/// The unit in which the amount of a product is declared.
#[derive(Clone, Copy, Debug, PartialEq, Eq, Hash, Structural)]
pub enum DeclaredUnit {
    Liter,
    Kilogram,
    CubicMeter,
    KilowattHour,
    Megajoule,
    TonKilometer,
    SquareMeter,
}

impl DeclaredUnit {
    /// The name of the value on the wire.
    pub open spec fn wire_name(self) -> Seq<char> {
        match self {
            DeclaredUnit::Liter => "liter"@,
            DeclaredUnit::Kilogram => "kilogram"@,
            DeclaredUnit::CubicMeter => "cubic meter"@,
            DeclaredUnit::KilowattHour => "kilowatt hour"@,
            DeclaredUnit::Megajoule => "megajoule"@,
            DeclaredUnit::TonKilometer => "ton kilometer"@,
            DeclaredUnit::SquareMeter => "square meter"@,
        }
    }

    /// The value that a name on the wire stands for, if any.
    pub open spec fn from_wire_name(s: Seq<char>) -> Option<Self> {
        if s == "liter"@ {
            Some(DeclaredUnit::Liter)
        } else if s == "kilogram"@ {
            Some(DeclaredUnit::Kilogram)
        } else if s == "cubic meter"@ {
            Some(DeclaredUnit::CubicMeter)
        } else if s == "kilowatt hour"@ {
            Some(DeclaredUnit::KilowattHour)
        } else if s == "megajoule"@ {
            Some(DeclaredUnit::Megajoule)
        } else if s == "ton kilometer"@ {
            Some(DeclaredUnit::TonKilometer)
        } else if s == "square meter"@ {
            Some(DeclaredUnit::SquareMeter)
        } else {
            None
        }
    }

    pub fn as_str(&self) -> (r: &'static str)
        ensures
            r@ == self.wire_name(),
    {
        match self {
            DeclaredUnit::Liter => "liter",
            DeclaredUnit::Kilogram => "kilogram",
            DeclaredUnit::CubicMeter => "cubic meter",
            DeclaredUnit::KilowattHour => "kilowatt hour",
            DeclaredUnit::Megajoule => "megajoule",
            DeclaredUnit::TonKilometer => "ton kilometer",
            DeclaredUnit::SquareMeter => "square meter",
        }
    }

    /// Reads a value from its name on the wire; `None` for any other text.
    pub fn parse(s: &str) -> (r: Option<Self>)
        ensures
            r == Self::from_wire_name(s@),
            r matches Some(v) ==> v.wire_name() == s@,
    {
        if s.eq("liter") {
            Some(DeclaredUnit::Liter)
        } else if s.eq("kilogram") {
            Some(DeclaredUnit::Kilogram)
        } else if s.eq("cubic meter") {
            Some(DeclaredUnit::CubicMeter)
        } else if s.eq("kilowatt hour") {
            Some(DeclaredUnit::KilowattHour)
        } else if s.eq("megajoule") {
            Some(DeclaredUnit::Megajoule)
        } else if s.eq("ton kilometer") {
            Some(DeclaredUnit::TonKilometer)
        } else if s.eq("square meter") {
            Some(DeclaredUnit::SquareMeter)
        } else {
            None
        }
    }

    /// Reading the name of a value gives the value back: no two values
    /// share a name.
    pub proof fn lemma_wire_name_round_trip(v: Self)
        ensures
            Self::from_wire_name(v.wire_name()) == Some(v),
    {
        reveal_strlit("liter");
        reveal_strlit("kilogram");
        reveal_strlit("cubic meter");
        reveal_strlit("kilowatt hour");
        reveal_strlit("megajoule");
        reveal_strlit("ton kilometer");
        reveal_strlit("square meter");
        assert("liter"@.len() == 5);
        assert("kilogram"@.len() == 8);
        assert("cubic meter"@.len() == 11);
        assert("kilowatt hour"@.len() == 13);
        assert("megajoule"@.len() == 9);
        assert("ton kilometer"@.len() == 13);
        assert("square meter"@.len() == 12);
        assert("kilowatt hour"@[0] != "ton kilometer"@[0]);
    }
}

impl DeepView for DeclaredUnit {
    type V = DeclaredUnit;

    open spec fn deep_view(&self) -> DeclaredUnit {
        *self
    }
}

impl Wire for DeclaredUnit {
    open spec fn to_wire(v: DeclaredUnit) -> JsonModel {
        JsonModel::Text(v.wire_name())
    }

    open spec fn from_wire(j: JsonModel) -> Result<DeclaredUnit, DecodeError> {
        match j {
            JsonModel::Text(s) => match DeclaredUnit::from_wire_name(s) {
                Some(v) => Ok(v),
                None => Err(DecodeError::UnknownName),
            },
            _ => Err(DecodeError::WrongType),
        }
    }

    open spec fn faithful(v: DeclaredUnit) -> bool {
        true
    }

    proof fn lemma_round_trip(v: DeclaredUnit) {
        DeclaredUnit::lemma_wire_name_round_trip(v);
    }

    fn to_json(&self) -> (r: Json) {
        Json::Text(self.as_str().to_owned())
    }

    fn from_json(j: &Json) -> (r: Result<DeclaredUnit, DecodeError>) {
        match j {
            Json::Text(s) => match DeclaredUnit::parse(s.as_str()) {
                Some(v) => Ok(v),
                None => Err(DecodeError::UnknownName),
            },
            _ => Err(DecodeError::WrongType),
        }
    }
}

/// A cross-sectoral standard for the calculation of a footprint.
#[derive(Clone, Copy, Debug, PartialEq, Eq, Hash, Structural)]
pub enum CrossSectoralStandard {
    Ghgp,
    ISO14067,
    ISO14044,
    ISO14083,
    ISO14040_44,
    Pef,
    PactMethodology,
    Pas2050,
}

impl CrossSectoralStandard {
    /// The name of the value on the wire.
    pub open spec fn wire_name(self) -> Seq<char> {
        match self {
            CrossSectoralStandard::Ghgp => "GHGP Product"@,
            CrossSectoralStandard::ISO14067 => "ISO14067"@,
            CrossSectoralStandard::ISO14044 => "ISO14044"@,
            CrossSectoralStandard::ISO14083 => "ISO14083"@,
            CrossSectoralStandard::ISO14040_44 => "ISO14040-44"@,
            CrossSectoralStandard::Pef => "PEF"@,
            CrossSectoralStandard::PactMethodology => "PACT Methodology 2.0"@,
            CrossSectoralStandard::Pas2050 => "PAS2050"@,
        }
    }

    /// The value that a name on the wire stands for, if any.
    pub open spec fn from_wire_name(s: Seq<char>) -> Option<Self> {
        if s == "GHGP Product"@ {
            Some(CrossSectoralStandard::Ghgp)
        } else if s == "ISO14067"@ {
            Some(CrossSectoralStandard::ISO14067)
        } else if s == "ISO14044"@ {
            Some(CrossSectoralStandard::ISO14044)
        } else if s == "ISO14083"@ {
            Some(CrossSectoralStandard::ISO14083)
        } else if s == "ISO14040-44"@ {
            Some(CrossSectoralStandard::ISO14040_44)
        } else if s == "PEF"@ {
            Some(CrossSectoralStandard::Pef)
        } else if s == "PACT Methodology 2.0"@ {
            Some(CrossSectoralStandard::PactMethodology)
        } else if s == "PAS2050"@ {
            Some(CrossSectoralStandard::Pas2050)
        } else {
            None
        }
    }

    pub fn as_str(&self) -> (r: &'static str)
        ensures
            r@ == self.wire_name(),
    {
        match self {
            CrossSectoralStandard::Ghgp => "GHGP Product",
            CrossSectoralStandard::ISO14067 => "ISO14067",
            CrossSectoralStandard::ISO14044 => "ISO14044",
            CrossSectoralStandard::ISO14083 => "ISO14083",
            CrossSectoralStandard::ISO14040_44 => "ISO14040-44",
            CrossSectoralStandard::Pef => "PEF",
            CrossSectoralStandard::PactMethodology => "PACT Methodology 2.0",
            CrossSectoralStandard::Pas2050 => "PAS2050",
        }
    }

    /// Reads a value from its name on the wire; `None` for any other text.
    pub fn parse(s: &str) -> (r: Option<Self>)
        ensures
            r == Self::from_wire_name(s@),
            r matches Some(v) ==> v.wire_name() == s@,
    {
        if s.eq("GHGP Product") {
            Some(CrossSectoralStandard::Ghgp)
        } else if s.eq("ISO14067") {
            Some(CrossSectoralStandard::ISO14067)
        } else if s.eq("ISO14044") {
            Some(CrossSectoralStandard::ISO14044)
        } else if s.eq("ISO14083") {
            Some(CrossSectoralStandard::ISO14083)
        } else if s.eq("ISO14040-44") {
            Some(CrossSectoralStandard::ISO14040_44)
        } else if s.eq("PEF") {
            Some(CrossSectoralStandard::Pef)
        } else if s.eq("PACT Methodology 2.0") {
            Some(CrossSectoralStandard::PactMethodology)
        } else if s.eq("PAS2050") {
            Some(CrossSectoralStandard::Pas2050)
        } else {
            None
        }
    }

    /// Reading the name of a value gives the value back: no two values
    /// share a name.
    pub proof fn lemma_wire_name_round_trip(v: Self)
        ensures
            Self::from_wire_name(v.wire_name()) == Some(v),
    {
        reveal_strlit("GHGP Product");
        reveal_strlit("ISO14067");
        reveal_strlit("ISO14044");
        reveal_strlit("ISO14083");
        reveal_strlit("ISO14040-44");
        reveal_strlit("PEF");
        reveal_strlit("PACT Methodology 2.0");
        reveal_strlit("PAS2050");
        assert("GHGP Product"@.len() == 12);
        assert("ISO14067"@.len() == 8);
        assert("ISO14044"@.len() == 8);
        assert("ISO14083"@.len() == 8);
        assert("ISO14040-44"@.len() == 11);
        assert("PEF"@.len() == 3);
        assert("PACT Methodology 2.0"@.len() == 20);
        assert("PAS2050"@.len() == 7);
        assert("ISO14067"@[6] != "ISO14044"@[6]);
        assert("ISO14067"@[6] != "ISO14083"@[6]);
        assert("ISO14044"@[6] != "ISO14083"@[6]);
    }
}

impl DeepView for CrossSectoralStandard {
    type V = CrossSectoralStandard;

    open spec fn deep_view(&self) -> CrossSectoralStandard {
        *self
    }
}

impl Wire for CrossSectoralStandard {
    open spec fn to_wire(v: CrossSectoralStandard) -> JsonModel {
        JsonModel::Text(v.wire_name())
    }

    open spec fn from_wire(j: JsonModel) -> Result<CrossSectoralStandard, DecodeError> {
        match j {
            JsonModel::Text(s) => match CrossSectoralStandard::from_wire_name(s) {
                Some(v) => Ok(v),
                None => Err(DecodeError::UnknownName),
            },
            _ => Err(DecodeError::WrongType),
        }
    }

    open spec fn faithful(v: CrossSectoralStandard) -> bool {
        true
    }

    proof fn lemma_round_trip(v: CrossSectoralStandard) {
        CrossSectoralStandard::lemma_wire_name_round_trip(v);
    }

    fn to_json(&self) -> (r: Json) {
        Json::Text(self.as_str().to_owned())
    }

    fn from_json(j: &Json) -> (r: Result<CrossSectoralStandard, DecodeError>) {
        match j {
            Json::Text(s) => match CrossSectoralStandard::parse(s.as_str()) {
                Some(v) => Ok(v),
                None => Err(DecodeError::UnknownName),
            },
            _ => Err(DecodeError::WrongType),
        }
    }
}

/// A cross-sectoral standard under its name in the second version of the technical specification.
#[derive(Clone, Copy, Debug, PartialEq, Eq, Hash, Structural)]
pub enum DeprecatedCrossSectoralStandard {
    Ghgp,
    ISO14067,
    ISO14044,
}

impl DeprecatedCrossSectoralStandard {
    /// The name of the value on the wire.
    pub open spec fn wire_name(self) -> Seq<char> {
        match self {
            DeprecatedCrossSectoralStandard::Ghgp => "GHG Protocol Product standard"@,
            DeprecatedCrossSectoralStandard::ISO14067 => "ISO Standard 14067"@,
            DeprecatedCrossSectoralStandard::ISO14044 => "ISO Standard 14044"@,
        }
    }

    /// The value that a name on the wire stands for, if any.
    pub open spec fn from_wire_name(s: Seq<char>) -> Option<Self> {
        if s == "GHG Protocol Product standard"@ {
            Some(DeprecatedCrossSectoralStandard::Ghgp)
        } else if s == "ISO Standard 14067"@ {
            Some(DeprecatedCrossSectoralStandard::ISO14067)
        } else if s == "ISO Standard 14044"@ {
            Some(DeprecatedCrossSectoralStandard::ISO14044)
        } else {
            None
        }
    }

    pub fn as_str(&self) -> (r: &'static str)
        ensures
            r@ == self.wire_name(),
    {
        match self {
            DeprecatedCrossSectoralStandard::Ghgp => "GHG Protocol Product standard",
            DeprecatedCrossSectoralStandard::ISO14067 => "ISO Standard 14067",
            DeprecatedCrossSectoralStandard::ISO14044 => "ISO Standard 14044",
        }
    }

    /// Reads a value from its name on the wire; `None` for any other text.
    pub fn parse(s: &str) -> (r: Option<Self>)
        ensures
            r == Self::from_wire_name(s@),
            r matches Some(v) ==> v.wire_name() == s@,
    {
        if s.eq("GHG Protocol Product standard") {
            Some(DeprecatedCrossSectoralStandard::Ghgp)
        } else if s.eq("ISO Standard 14067") {
            Some(DeprecatedCrossSectoralStandard::ISO14067)
        } else if s.eq("ISO Standard 14044") {
            Some(DeprecatedCrossSectoralStandard::ISO14044)
        } else {
            None
        }
    }

    /// Reading the name of a value gives the value back: no two values
    /// share a name.
    pub proof fn lemma_wire_name_round_trip(v: Self)
        ensures
            Self::from_wire_name(v.wire_name()) == Some(v),
    {
        reveal_strlit("GHG Protocol Product standard");
        reveal_strlit("ISO Standard 14067");
        reveal_strlit("ISO Standard 14044");
        assert("GHG Protocol Product standard"@.len() == 29);
        assert("ISO Standard 14067"@.len() == 18);
        assert("ISO Standard 14044"@.len() == 18);
        assert("ISO Standard 14067"@[16] != "ISO Standard 14044"@[16]);
    }
}

impl DeepView for DeprecatedCrossSectoralStandard {
    type V = DeprecatedCrossSectoralStandard;

    open spec fn deep_view(&self) -> DeprecatedCrossSectoralStandard {
        *self
    }
}

impl Wire for DeprecatedCrossSectoralStandard {
    open spec fn to_wire(v: DeprecatedCrossSectoralStandard) -> JsonModel {
        JsonModel::Text(v.wire_name())
    }

    open spec fn from_wire(j: JsonModel) -> Result<DeprecatedCrossSectoralStandard, DecodeError> {
        match j {
            JsonModel::Text(s) => match DeprecatedCrossSectoralStandard::from_wire_name(s) {
                Some(v) => Ok(v),
                None => Err(DecodeError::UnknownName),
            },
            _ => Err(DecodeError::WrongType),
        }
    }

    open spec fn faithful(v: DeprecatedCrossSectoralStandard) -> bool {
        true
    }

    proof fn lemma_round_trip(v: DeprecatedCrossSectoralStandard) {
        DeprecatedCrossSectoralStandard::lemma_wire_name_round_trip(v);
    }

    fn to_json(&self) -> (r: Json) {
        Json::Text(self.as_str().to_owned())
    }

    fn from_json(j: &Json) -> (r: Result<DeprecatedCrossSectoralStandard, DecodeError>) {
        match j {
            Json::Text(s) => match DeprecatedCrossSectoralStandard::parse(s.as_str()) {
                Some(v) => Ok(v),
                None => Err(DecodeError::UnknownName),
            },
            _ => Err(DecodeError::WrongType),
        }
    }
}

/// The IPCC assessment report whose characterization factors were used.
#[derive(Clone, Copy, Debug, PartialEq, Eq, Hash, Structural)]
pub enum CharacterizationFactors {
    Ar5,
    Ar6,
}

impl CharacterizationFactors {
    /// The name of the value on the wire.
    pub open spec fn wire_name(self) -> Seq<char> {
        match self {
            CharacterizationFactors::Ar5 => "AR5"@,
            CharacterizationFactors::Ar6 => "AR6"@,
        }
    }

    /// The value that a name on the wire stands for, if any.
    pub open spec fn from_wire_name(s: Seq<char>) -> Option<Self> {
        if s == "AR5"@ {
            Some(CharacterizationFactors::Ar5)
        } else if s == "AR6"@ {
            Some(CharacterizationFactors::Ar6)
        } else {
            None
        }
    }

    pub fn as_str(&self) -> (r: &'static str)
        ensures
            r@ == self.wire_name(),
    {
        match self {
            CharacterizationFactors::Ar5 => "AR5",
            CharacterizationFactors::Ar6 => "AR6",
        }
    }

    /// Reads a value from its name on the wire; `None` for any other text.
    pub fn parse(s: &str) -> (r: Option<Self>)
        ensures
            r == Self::from_wire_name(s@),
            r matches Some(v) ==> v.wire_name() == s@,
    {
        if s.eq("AR5") {
            Some(CharacterizationFactors::Ar5)
        } else if s.eq("AR6") {
            Some(CharacterizationFactors::Ar6)
        } else {
            None
        }
    }

    /// Reading the name of a value gives the value back: no two values
    /// share a name.
    pub proof fn lemma_wire_name_round_trip(v: Self)
        ensures
            Self::from_wire_name(v.wire_name()) == Some(v),
    {
        reveal_strlit("AR5");
        reveal_strlit("AR6");
        assert("AR5"@.len() == 3);
        assert("AR6"@.len() == 3);
        assert("AR5"@[2] != "AR6"@[2]);
    }
}

impl DeepView for CharacterizationFactors {
    type V = CharacterizationFactors;

    open spec fn deep_view(&self) -> CharacterizationFactors {
        *self
    }
}

impl Wire for CharacterizationFactors {
    open spec fn to_wire(v: CharacterizationFactors) -> JsonModel {
        JsonModel::Text(v.wire_name())
    }

    open spec fn from_wire(j: JsonModel) -> Result<CharacterizationFactors, DecodeError> {
        match j {
            JsonModel::Text(s) => match CharacterizationFactors::from_wire_name(s) {
                Some(v) => Ok(v),
                None => Err(DecodeError::UnknownName),
            },
            _ => Err(DecodeError::WrongType),
        }
    }

    open spec fn faithful(v: CharacterizationFactors) -> bool {
        true
    }

    proof fn lemma_round_trip(v: CharacterizationFactors) {
        CharacterizationFactors::lemma_wire_name_round_trip(v);
    }

    fn to_json(&self) -> (r: Json) {
        Json::Text(self.as_str().to_owned())
    }

    fn from_json(j: &Json) -> (r: Result<CharacterizationFactors, DecodeError>) {
        match j {
            Json::Text(s) => match CharacterizationFactors::parse(s.as_str()) {
                Some(v) => Ok(v),
                None => Err(DecodeError::UnknownName),
            },
            _ => Err(DecodeError::WrongType),
        }
    }
}

/// The methodology by which biogenic emissions were accounted for.
#[derive(Clone, Copy, Debug, PartialEq, Eq, Hash, Structural)]
pub enum BiogenicAccountingMethodology {
    Pef,
    Iso,
    Ghpg,
    Quantis,
}

impl BiogenicAccountingMethodology {
    /// The name of the value on the wire.
    pub open spec fn wire_name(self) -> Seq<char> {
        match self {
            BiogenicAccountingMethodology::Pef => "PEF"@,
            BiogenicAccountingMethodology::Iso => "ISO"@,
            BiogenicAccountingMethodology::Ghpg => "GHPG"@,
            BiogenicAccountingMethodology::Quantis => "Quantis"@,
        }
    }

    /// The value that a name on the wire stands for, if any.
    pub open spec fn from_wire_name(s: Seq<char>) -> Option<Self> {
        if s == "PEF"@ {
            Some(BiogenicAccountingMethodology::Pef)
        } else if s == "ISO"@ {
            Some(BiogenicAccountingMethodology::Iso)
        } else if s == "GHPG"@ {
            Some(BiogenicAccountingMethodology::Ghpg)
        } else if s == "Quantis"@ {
            Some(BiogenicAccountingMethodology::Quantis)
        } else {
            None
        }
    }

    pub fn as_str(&self) -> (r: &'static str)
        ensures
            r@ == self.wire_name(),
    {
        match self {
            BiogenicAccountingMethodology::Pef => "PEF",
            BiogenicAccountingMethodology::Iso => "ISO",
            BiogenicAccountingMethodology::Ghpg => "GHPG",
            BiogenicAccountingMethodology::Quantis => "Quantis",
        }
    }

    /// Reads a value from its name on the wire; `None` for any other text.
    pub fn parse(s: &str) -> (r: Option<Self>)
        ensures
            r == Self::from_wire_name(s@),
            r matches Some(v) ==> v.wire_name() == s@,
    {
        if s.eq("PEF") {
            Some(BiogenicAccountingMethodology::Pef)
        } else if s.eq("ISO") {
            Some(BiogenicAccountingMethodology::Iso)
        } else if s.eq("GHPG") {
            Some(BiogenicAccountingMethodology::Ghpg)
        } else if s.eq("Quantis") {
            Some(BiogenicAccountingMethodology::Quantis)
        } else {
            None
        }
    }

    /// Reading the name of a value gives the value back: no two values
    /// share a name.
    pub proof fn lemma_wire_name_round_trip(v: Self)
        ensures
            Self::from_wire_name(v.wire_name()) == Some(v),
    {
        reveal_strlit("PEF");
        reveal_strlit("ISO");
        reveal_strlit("GHPG");
        reveal_strlit("Quantis");
        assert("PEF"@.len() == 3);
        assert("ISO"@.len() == 3);
        assert("GHPG"@.len() == 4);
        assert("Quantis"@.len() == 7);
        assert("PEF"@[0] != "ISO"@[0]);
    }
}

impl DeepView for BiogenicAccountingMethodology {
    type V = BiogenicAccountingMethodology;

    open spec fn deep_view(&self) -> BiogenicAccountingMethodology {
        *self
    }
}

impl Wire for BiogenicAccountingMethodology {
    open spec fn to_wire(v: BiogenicAccountingMethodology) -> JsonModel {
        JsonModel::Text(v.wire_name())
    }

    open spec fn from_wire(j: JsonModel) -> Result<BiogenicAccountingMethodology, DecodeError> {
        match j {
            JsonModel::Text(s) => match BiogenicAccountingMethodology::from_wire_name(s) {
                Some(v) => Ok(v),
                None => Err(DecodeError::UnknownName),
            },
            _ => Err(DecodeError::WrongType),
        }
    }

    open spec fn faithful(v: BiogenicAccountingMethodology) -> bool {
        true
    }

    proof fn lemma_round_trip(v: BiogenicAccountingMethodology) {
        BiogenicAccountingMethodology::lemma_wire_name_round_trip(v);
    }

    fn to_json(&self) -> (r: Json) {
        Json::Text(self.as_str().to_owned())
    }

    fn from_json(j: &Json) -> (r: Result<BiogenicAccountingMethodology, DecodeError>) {
        match j {
            Json::Text(s) => match BiogenicAccountingMethodology::parse(s.as_str()) {
                Some(v) => Ok(v),
                None => Err(DecodeError::UnknownName),
            },
            _ => Err(DecodeError::WrongType),
        }
    }
}

/// A region or subregion of the United Nations geoscheme.
#[derive(Clone, Copy, Debug, PartialEq, Eq, Hash, Structural)]
pub enum UNRegionOrSubregion {
    Africa,
    Americas,
    Asia,
    Europe,
    Oceania,
    AustraliaAndNewZealand,
    CentralAsia,
    EasternAsia,
    EasternEurope,
    LatinAmericaAndTheCaribbean,
    Melanesia,
    Micronesia,
    NorthernAfrica,
    NorthernAmerica,
    NorthernEurope,
    Polynesia,
    SouthEasternAsia,
    SouthernAsia,
    SouthernEurope,
    SubSaharanAfrica,
    WesternAsia,
    WesternEurope,
}

impl UNRegionOrSubregion {
    /// The name of the value on the wire.
    pub open spec fn wire_name(self) -> Seq<char> {
        match self {
            UNRegionOrSubregion::Africa => "Africa"@,
            UNRegionOrSubregion::Americas => "Americas"@,
            UNRegionOrSubregion::Asia => "Asia"@,
            UNRegionOrSubregion::Europe => "Europe"@,
            UNRegionOrSubregion::Oceania => "Oceania"@,
            UNRegionOrSubregion::AustraliaAndNewZealand => "Australia and New Zealand"@,
            UNRegionOrSubregion::CentralAsia => "Central Asia"@,
            UNRegionOrSubregion::EasternAsia => "Eastern Asia"@,
            UNRegionOrSubregion::EasternEurope => "Eastern Europe"@,
            UNRegionOrSubregion::LatinAmericaAndTheCaribbean => "Latin America and the Caribbean"@,
            UNRegionOrSubregion::Melanesia => "Melanesia"@,
            UNRegionOrSubregion::Micronesia => "Micronesia"@,
            UNRegionOrSubregion::NorthernAfrica => "Northern Africa"@,
            UNRegionOrSubregion::NorthernAmerica => "Northern America"@,
            UNRegionOrSubregion::NorthernEurope => "Northern Europe"@,
            UNRegionOrSubregion::Polynesia => "Polynesia"@,
            UNRegionOrSubregion::SouthEasternAsia => "South-eastern Asia"@,
            UNRegionOrSubregion::SouthernAsia => "Southern Asia"@,
            UNRegionOrSubregion::SouthernEurope => "Southern Europe"@,
            UNRegionOrSubregion::SubSaharanAfrica => "Sub-Saharan Africa"@,
            UNRegionOrSubregion::WesternAsia => "Western Asia"@,
            UNRegionOrSubregion::WesternEurope => "Western Europe"@,
        }
    }

    /// The value that a name on the wire stands for, if any.
    pub open spec fn from_wire_name(s: Seq<char>) -> Option<Self> {
        if s == "Africa"@ {
            Some(UNRegionOrSubregion::Africa)
        } else if s == "Americas"@ {
            Some(UNRegionOrSubregion::Americas)
        } else if s == "Asia"@ {
            Some(UNRegionOrSubregion::Asia)
        } else if s == "Europe"@ {
            Some(UNRegionOrSubregion::Europe)
        } else if s == "Oceania"@ {
            Some(UNRegionOrSubregion::Oceania)
        } else if s == "Australia and New Zealand"@ {
            Some(UNRegionOrSubregion::AustraliaAndNewZealand)
        } else if s == "Central Asia"@ {
            Some(UNRegionOrSubregion::CentralAsia)
        } else if s == "Eastern Asia"@ {
            Some(UNRegionOrSubregion::EasternAsia)
        } else if s == "Eastern Europe"@ {
            Some(UNRegionOrSubregion::EasternEurope)
        } else if s == "Latin America and the Caribbean"@ {
            Some(UNRegionOrSubregion::LatinAmericaAndTheCaribbean)
        } else if s == "Melanesia"@ {
            Some(UNRegionOrSubregion::Melanesia)
        } else if s == "Micronesia"@ {
            Some(UNRegionOrSubregion::Micronesia)
        } else if s == "Northern Africa"@ {
            Some(UNRegionOrSubregion::NorthernAfrica)
        } else if s == "Northern America"@ {
            Some(UNRegionOrSubregion::NorthernAmerica)
        } else if s == "Northern Europe"@ {
            Some(UNRegionOrSubregion::NorthernEurope)
        } else if s == "Polynesia"@ {
            Some(UNRegionOrSubregion::Polynesia)
        } else if s == "South-eastern Asia"@ {
            Some(UNRegionOrSubregion::SouthEasternAsia)
        } else if s == "Southern Asia"@ {
            Some(UNRegionOrSubregion::SouthernAsia)
        } else if s == "Southern Europe"@ {
            Some(UNRegionOrSubregion::SouthernEurope)
        } else if s == "Sub-Saharan Africa"@ {
            Some(UNRegionOrSubregion::SubSaharanAfrica)
        } else if s == "Western Asia"@ {
            Some(UNRegionOrSubregion::WesternAsia)
        } else if s == "Western Europe"@ {
            Some(UNRegionOrSubregion::WesternEurope)
        } else {
            None
        }
    }

    pub fn as_str(&self) -> (r: &'static str)
        ensures
            r@ == self.wire_name(),
    {
        match self {
            UNRegionOrSubregion::Africa => "Africa",
            UNRegionOrSubregion::Americas => "Americas",
            UNRegionOrSubregion::Asia => "Asia",
            UNRegionOrSubregion::Europe => "Europe",
            UNRegionOrSubregion::Oceania => "Oceania",
            UNRegionOrSubregion::AustraliaAndNewZealand => "Australia and New Zealand",
            UNRegionOrSubregion::CentralAsia => "Central Asia",
            UNRegionOrSubregion::EasternAsia => "Eastern Asia",
            UNRegionOrSubregion::EasternEurope => "Eastern Europe",
            UNRegionOrSubregion::LatinAmericaAndTheCaribbean => "Latin America and the Caribbean",
            UNRegionOrSubregion::Melanesia => "Melanesia",
            UNRegionOrSubregion::Micronesia => "Micronesia",
            UNRegionOrSubregion::NorthernAfrica => "Northern Africa",
            UNRegionOrSubregion::NorthernAmerica => "Northern America",
            UNRegionOrSubregion::NorthernEurope => "Northern Europe",
            UNRegionOrSubregion::Polynesia => "Polynesia",
            UNRegionOrSubregion::SouthEasternAsia => "South-eastern Asia",
            UNRegionOrSubregion::SouthernAsia => "Southern Asia",
            UNRegionOrSubregion::SouthernEurope => "Southern Europe",
            UNRegionOrSubregion::SubSaharanAfrica => "Sub-Saharan Africa",
            UNRegionOrSubregion::WesternAsia => "Western Asia",
            UNRegionOrSubregion::WesternEurope => "Western Europe",
        }
    }

    /// Reads a value from its name on the wire; `None` for any other text.
    pub fn parse(s: &str) -> (r: Option<Self>)
        ensures
            r == Self::from_wire_name(s@),
            r matches Some(v) ==> v.wire_name() == s@,
    {
        if s.eq("Africa") {
            Some(UNRegionOrSubregion::Africa)
        } else if s.eq("Americas") {
            Some(UNRegionOrSubregion::Americas)
        } else if s.eq("Asia") {
            Some(UNRegionOrSubregion::Asia)
        } else if s.eq("Europe") {
            Some(UNRegionOrSubregion::Europe)
        } else if s.eq("Oceania") {
            Some(UNRegionOrSubregion::Oceania)
        } else if s.eq("Australia and New Zealand") {
            Some(UNRegionOrSubregion::AustraliaAndNewZealand)
        } else if s.eq("Central Asia") {
            Some(UNRegionOrSubregion::CentralAsia)
        } else if s.eq("Eastern Asia") {
            Some(UNRegionOrSubregion::EasternAsia)
        } else if s.eq("Eastern Europe") {
            Some(UNRegionOrSubregion::EasternEurope)
        } else if s.eq("Latin America and the Caribbean") {
            Some(UNRegionOrSubregion::LatinAmericaAndTheCaribbean)
        } else if s.eq("Melanesia") {
            Some(UNRegionOrSubregion::Melanesia)
        } else if s.eq("Micronesia") {
            Some(UNRegionOrSubregion::Micronesia)
        } else if s.eq("Northern Africa") {
            Some(UNRegionOrSubregion::NorthernAfrica)
        } else if s.eq("Northern America") {
            Some(UNRegionOrSubregion::NorthernAmerica)
        } else if s.eq("Northern Europe") {
            Some(UNRegionOrSubregion::NorthernEurope)
        } else if s.eq("Polynesia") {
            Some(UNRegionOrSubregion::Polynesia)
        } else if s.eq("South-eastern Asia") {
            Some(UNRegionOrSubregion::SouthEasternAsia)
        } else if s.eq("Southern Asia") {
            Some(UNRegionOrSubregion::SouthernAsia)
        } else if s.eq("Southern Europe") {
            Some(UNRegionOrSubregion::SouthernEurope)
        } else if s.eq("Sub-Saharan Africa") {
            Some(UNRegionOrSubregion::SubSaharanAfrica)
        } else if s.eq("Western Asia") {
            Some(UNRegionOrSubregion::WesternAsia)
        } else if s.eq("Western Europe") {
            Some(UNRegionOrSubregion::WesternEurope)
        } else {
            None
        }
    }

    /// Reading the name of a value gives the value back: no two values
    /// share a name.
    pub proof fn lemma_wire_name_round_trip(v: Self)
        ensures
            Self::from_wire_name(v.wire_name()) == Some(v),
    {
        reveal_strlit("Africa");
        reveal_strlit("Americas");
        reveal_strlit("Asia");
        reveal_strlit("Europe");
        reveal_strlit("Oceania");
        reveal_strlit("Australia and New Zealand");
        reveal_strlit("Central Asia");
        reveal_strlit("Eastern Asia");
        reveal_strlit("Eastern Europe");
        reveal_strlit("Latin America and the Caribbean");
        reveal_strlit("Melanesia");
        reveal_strlit("Micronesia");
        reveal_strlit("Northern Africa");
        reveal_strlit("Northern America");
        reveal_strlit("Northern Europe");
        reveal_strlit("Polynesia");
        reveal_strlit("South-eastern Asia");
        reveal_strlit("Southern Asia");
        reveal_strlit("Southern Europe");
        reveal_strlit("Sub-Saharan Africa");
        reveal_strlit("Western Asia");
        reveal_strlit("Western Europe");
        assert("Africa"@.len() == 6);
        assert("Americas"@.len() == 8);
        assert("Asia"@.len() == 4);
        assert("Europe"@.len() == 6);
        assert("Oceania"@.len() == 7);
        assert("Australia and New Zealand"@.len() == 25);
        assert("Central Asia"@.len() == 12);
        assert("Eastern Asia"@.len() == 12);
        assert("Eastern Europe"@.len() == 14);
        assert("Latin America and the Caribbean"@.len() == 31);
        assert("Melanesia"@.len() == 9);
        assert("Micronesia"@.len() == 10);
        assert("Northern Africa"@.len() == 15);
        assert("Northern America"@.len() == 16);
        assert("Northern Europe"@.len() == 15);
        assert("Polynesia"@.len() == 9);
        assert("South-eastern Asia"@.len() == 18);
        assert("Southern Asia"@.len() == 13);
        assert("Southern Europe"@.len() == 15);
        assert("Sub-Saharan Africa"@.len() == 18);
        assert("Western Asia"@.len() == 12);
        assert("Western Europe"@.len() == 14);
        assert("Africa"@[0] != "Europe"@[0]);
        assert("Melanesia"@[0] != "Polynesia"@[0]);
        assert("Central Asia"@[0] != "Eastern Asia"@[0]);
        assert("Central Asia"@[0] != "Western Asia"@[0]);
        assert("Eastern Asia"@[0] != "Western Asia"@[0]);
        assert("Eastern Europe"@[0] != "Western Europe"@[0]);
        assert("Northern Africa"@[9] != "Northern Europe"@[9]);
        assert("Northern Africa"@[0] != "Southern Europe"@[0]);
        assert("Northern Europe"@[0] != "Southern Europe"@[0]);
        assert("South-eastern Asia"@[1] != "Sub-Saharan Africa"@[1]);
    }
}

impl DeepView for UNRegionOrSubregion {
    type V = UNRegionOrSubregion;

    open spec fn deep_view(&self) -> UNRegionOrSubregion {
        *self
    }
}

impl Wire for UNRegionOrSubregion {
    open spec fn to_wire(v: UNRegionOrSubregion) -> JsonModel {
        JsonModel::Text(v.wire_name())
    }

    open spec fn from_wire(j: JsonModel) -> Result<UNRegionOrSubregion, DecodeError> {
        match j {
            JsonModel::Text(s) => match UNRegionOrSubregion::from_wire_name(s) {
                Some(v) => Ok(v),
                None => Err(DecodeError::UnknownName),
            },
            _ => Err(DecodeError::WrongType),
        }
    }

    open spec fn faithful(v: UNRegionOrSubregion) -> bool {
        true
    }

    proof fn lemma_round_trip(v: UNRegionOrSubregion) {
        UNRegionOrSubregion::lemma_wire_name_round_trip(v);
    }

    fn to_json(&self) -> (r: Json) {
        Json::Text(self.as_str().to_owned())
    }

    fn from_json(j: &Json) -> (r: Result<UNRegionOrSubregion, DecodeError>) {
        match j {
            Json::Text(s) => match UNRegionOrSubregion::parse(s.as_str()) {
                Some(v) => Ok(v),
                None => Err(DecodeError::UnknownName),
            },
            _ => Err(DecodeError::WrongType),
        }
    }
}

/// Who operates a set of product or sector specific rules.
#[derive(Clone, Copy, Debug, PartialEq, Eq, Hash, Structural)]
pub enum ProductOrSectorSpecificRuleOperator {
    Pef,
    EPDInternational,
    Other,
}

impl ProductOrSectorSpecificRuleOperator {
    /// The name of the value on the wire.
    pub open spec fn wire_name(self) -> Seq<char> {
        match self {
            ProductOrSectorSpecificRuleOperator::Pef => "PEF"@,
            ProductOrSectorSpecificRuleOperator::EPDInternational => "EPD International"@,
            ProductOrSectorSpecificRuleOperator::Other => "Other"@,
        }
    }

    /// The value that a name on the wire stands for, if any.
    pub open spec fn from_wire_name(s: Seq<char>) -> Option<Self> {
        if s == "PEF"@ {
            Some(ProductOrSectorSpecificRuleOperator::Pef)
        } else if s == "EPD International"@ {
            Some(ProductOrSectorSpecificRuleOperator::EPDInternational)
        } else if s == "Other"@ {
            Some(ProductOrSectorSpecificRuleOperator::Other)
        } else {
            None
        }
    }

    pub fn as_str(&self) -> (r: &'static str)
        ensures
            r@ == self.wire_name(),
    {
        match self {
            ProductOrSectorSpecificRuleOperator::Pef => "PEF",
            ProductOrSectorSpecificRuleOperator::EPDInternational => "EPD International",
            ProductOrSectorSpecificRuleOperator::Other => "Other",
        }
    }

    /// Reads a value from its name on the wire; `None` for any other text.
    pub fn parse(s: &str) -> (r: Option<Self>)
        ensures
            r == Self::from_wire_name(s@),
            r matches Some(v) ==> v.wire_name() == s@,
    {
        if s.eq("PEF") {
            Some(ProductOrSectorSpecificRuleOperator::Pef)
        } else if s.eq("EPD International") {
            Some(ProductOrSectorSpecificRuleOperator::EPDInternational)
        } else if s.eq("Other") {
            Some(ProductOrSectorSpecificRuleOperator::Other)
        } else {
            None
        }
    }

    /// Reading the name of a value gives the value back: no two values
    /// share a name.
    pub proof fn lemma_wire_name_round_trip(v: Self)
        ensures
            Self::from_wire_name(v.wire_name()) == Some(v),
    {
        reveal_strlit("PEF");
        reveal_strlit("EPD International");
        reveal_strlit("Other");
        assert("PEF"@.len() == 3);
        assert("EPD International"@.len() == 17);
        assert("Other"@.len() == 5);
    }
}

impl DeepView for ProductOrSectorSpecificRuleOperator {
    type V = ProductOrSectorSpecificRuleOperator;

    open spec fn deep_view(&self) -> ProductOrSectorSpecificRuleOperator {
        *self
    }
}

impl Wire for ProductOrSectorSpecificRuleOperator {
    open spec fn to_wire(v: ProductOrSectorSpecificRuleOperator) -> JsonModel {
        JsonModel::Text(v.wire_name())
    }

    open spec fn from_wire(j: JsonModel) -> Result<ProductOrSectorSpecificRuleOperator, DecodeError> {
        match j {
            JsonModel::Text(s) => match ProductOrSectorSpecificRuleOperator::from_wire_name(s) {
                Some(v) => Ok(v),
                None => Err(DecodeError::UnknownName),
            },
            _ => Err(DecodeError::WrongType),
        }
    }

    open spec fn faithful(v: ProductOrSectorSpecificRuleOperator) -> bool {
        true
    }

    proof fn lemma_round_trip(v: ProductOrSectorSpecificRuleOperator) {
        ProductOrSectorSpecificRuleOperator::lemma_wire_name_round_trip(v);
    }

    fn to_json(&self) -> (r: Json) {
        Json::Text(self.as_str().to_owned())
    }

    fn from_json(j: &Json) -> (r: Result<ProductOrSectorSpecificRuleOperator, DecodeError>) {
        match j {
            Json::Text(s) => match ProductOrSectorSpecificRuleOperator::parse(s.as_str()) {
                Some(v) => Ok(v),
                None => Err(DecodeError::UnknownName),
            },
            _ => Err(DecodeError::WrongType),
        }
    }
}

/// What an assurance covers.
#[derive(Clone, Copy, Debug, PartialEq, Eq, Hash, Structural)]
pub enum AssuranceCoverage {
    CorporateLevel,
    ProductLine,
    PcfSystem,
    ProductLevel,
}

impl AssuranceCoverage {
    /// The name of the value on the wire.
    pub open spec fn wire_name(self) -> Seq<char> {
        match self {
            AssuranceCoverage::CorporateLevel => "corporate level"@,
            AssuranceCoverage::ProductLine => "product line"@,
            AssuranceCoverage::PcfSystem => "PCF system"@,
            AssuranceCoverage::ProductLevel => "product level"@,
        }
    }

    /// The value that a name on the wire stands for, if any.
    pub open spec fn from_wire_name(s: Seq<char>) -> Option<Self> {
        if s == "corporate level"@ {
            Some(AssuranceCoverage::CorporateLevel)
        } else if s == "product line"@ {
            Some(AssuranceCoverage::ProductLine)
        } else if s == "PCF system"@ {
            Some(AssuranceCoverage::PcfSystem)
        } else if s == "product level"@ {
            Some(AssuranceCoverage::ProductLevel)
        } else {
            None
        }
    }

    pub fn as_str(&self) -> (r: &'static str)
        ensures
            r@ == self.wire_name(),
    {
        match self {
            AssuranceCoverage::CorporateLevel => "corporate level",
            AssuranceCoverage::ProductLine => "product line",
            AssuranceCoverage::PcfSystem => "PCF system",
            AssuranceCoverage::ProductLevel => "product level",
        }
    }

    /// Reads a value from its name on the wire; `None` for any other text.
    pub fn parse(s: &str) -> (r: Option<Self>)
        ensures
            r == Self::from_wire_name(s@),
            r matches Some(v) ==> v.wire_name() == s@,
    {
        if s.eq("corporate level") {
            Some(AssuranceCoverage::CorporateLevel)
        } else if s.eq("product line") {
            Some(AssuranceCoverage::ProductLine)
        } else if s.eq("PCF system") {
            Some(AssuranceCoverage::PcfSystem)
        } else if s.eq("product level") {
            Some(AssuranceCoverage::ProductLevel)
        } else {
            None
        }
    }

    /// Reading the name of a value gives the value back: no two values
    /// share a name.
    pub proof fn lemma_wire_name_round_trip(v: Self)
        ensures
            Self::from_wire_name(v.wire_name()) == Some(v),
    {
        reveal_strlit("corporate level");
        reveal_strlit("product line");
        reveal_strlit("PCF system");
        reveal_strlit("product level");
        assert("corporate level"@.len() == 15);
        assert("product line"@.len() == 12);
        assert("PCF system"@.len() == 10);
        assert("product level"@.len() == 13);
    }
}

impl DeepView for AssuranceCoverage {
    type V = AssuranceCoverage;

    open spec fn deep_view(&self) -> AssuranceCoverage {
        *self
    }
}

impl Wire for AssuranceCoverage {
    open spec fn to_wire(v: AssuranceCoverage) -> JsonModel {
        JsonModel::Text(v.wire_name())
    }

    open spec fn from_wire(j: JsonModel) -> Result<AssuranceCoverage, DecodeError> {
        match j {
            JsonModel::Text(s) => match AssuranceCoverage::from_wire_name(s) {
                Some(v) => Ok(v),
                None => Err(DecodeError::UnknownName),
            },
            _ => Err(DecodeError::WrongType),
        }
    }

    open spec fn faithful(v: AssuranceCoverage) -> bool {
        true
    }

    proof fn lemma_round_trip(v: AssuranceCoverage) {
        AssuranceCoverage::lemma_wire_name_round_trip(v);
    }

    fn to_json(&self) -> (r: Json) {
        Json::Text(self.as_str().to_owned())
    }

    fn from_json(j: &Json) -> (r: Result<AssuranceCoverage, DecodeError>) {
        match j {
            Json::Text(s) => match AssuranceCoverage::parse(s.as_str()) {
                Some(v) => Ok(v),
                None => Err(DecodeError::UnknownName),
            },
            _ => Err(DecodeError::WrongType),
        }
    }
}

/// The level of an assurance.
#[derive(Clone, Copy, Debug, PartialEq, Eq, Hash, Structural)]
pub enum AssuranceLevel {
    Limited,
    Reasonable,
}

impl AssuranceLevel {
    /// The name of the value on the wire.
    pub open spec fn wire_name(self) -> Seq<char> {
        match self {
            AssuranceLevel::Limited => "limited"@,
            AssuranceLevel::Reasonable => "reasonable"@,
        }
    }

    /// The value that a name on the wire stands for, if any.
    pub open spec fn from_wire_name(s: Seq<char>) -> Option<Self> {
        if s == "limited"@ {
            Some(AssuranceLevel::Limited)
        } else if s == "reasonable"@ {
            Some(AssuranceLevel::Reasonable)
        } else {
            None
        }
    }

    pub fn as_str(&self) -> (r: &'static str)
        ensures
            r@ == self.wire_name(),
    {
        match self {
            AssuranceLevel::Limited => "limited",
            AssuranceLevel::Reasonable => "reasonable",
        }
    }

    /// Reads a value from its name on the wire; `None` for any other text.
    pub fn parse(s: &str) -> (r: Option<Self>)
        ensures
            r == Self::from_wire_name(s@),
            r matches Some(v) ==> v.wire_name() == s@,
    {
        if s.eq("limited") {
            Some(AssuranceLevel::Limited)
        } else if s.eq("reasonable") {
            Some(AssuranceLevel::Reasonable)
        } else {
            None
        }
    }

    /// Reading the name of a value gives the value back: no two values
    /// share a name.
    pub proof fn lemma_wire_name_round_trip(v: Self)
        ensures
            Self::from_wire_name(v.wire_name()) == Some(v),
    {
        reveal_strlit("limited");
        reveal_strlit("reasonable");
        assert("limited"@.len() == 7);
        assert("reasonable"@.len() == 10);
    }
}

impl DeepView for AssuranceLevel {
    type V = AssuranceLevel;

    open spec fn deep_view(&self) -> AssuranceLevel {
        *self
    }
}

impl Wire for AssuranceLevel {
    open spec fn to_wire(v: AssuranceLevel) -> JsonModel {
        JsonModel::Text(v.wire_name())
    }

    open spec fn from_wire(j: JsonModel) -> Result<AssuranceLevel, DecodeError> {
        match j {
            JsonModel::Text(s) => match AssuranceLevel::from_wire_name(s) {
                Some(v) => Ok(v),
                None => Err(DecodeError::UnknownName),
            },
            _ => Err(DecodeError::WrongType),
        }
    }

    open spec fn faithful(v: AssuranceLevel) -> bool {
        true
    }

    proof fn lemma_round_trip(v: AssuranceLevel) {
        AssuranceLevel::lemma_wire_name_round_trip(v);
    }

    fn to_json(&self) -> (r: Json) {
        Json::Text(self.as_str().to_owned())
    }

    fn from_json(j: &Json) -> (r: Result<AssuranceLevel, DecodeError>) {
        match j {
            Json::Text(s) => match AssuranceLevel::parse(s.as_str()) {
                Some(v) => Ok(v),
                None => Err(DecodeError::UnknownName),
            },
            _ => Err(DecodeError::WrongType),
        }
    }
}

/// The boundary of an assurance.
#[derive(Clone, Copy, Debug, PartialEq, Eq, Hash, Structural)]
pub enum AssuranceBoundary {
    GateToGate,
    CradleToGate,
}

impl AssuranceBoundary {
    /// The name of the value on the wire.
    pub open spec fn wire_name(self) -> Seq<char> {
        match self {
            AssuranceBoundary::GateToGate => "Gate-to-Gate"@,
            AssuranceBoundary::CradleToGate => "Cradle-to-Gate"@,
        }
    }

    /// The value that a name on the wire stands for, if any.
    pub open spec fn from_wire_name(s: Seq<char>) -> Option<Self> {
        if s == "Gate-to-Gate"@ {
            Some(AssuranceBoundary::GateToGate)
        } else if s == "Cradle-to-Gate"@ {
            Some(AssuranceBoundary::CradleToGate)
        } else {
            None
        }
    }

    pub fn as_str(&self) -> (r: &'static str)
        ensures
            r@ == self.wire_name(),
    {
        match self {
            AssuranceBoundary::GateToGate => "Gate-to-Gate",
            AssuranceBoundary::CradleToGate => "Cradle-to-Gate",
        }
    }

    /// Reads a value from its name on the wire; `None` for any other text.
    pub fn parse(s: &str) -> (r: Option<Self>)
        ensures
            r == Self::from_wire_name(s@),
            r matches Some(v) ==> v.wire_name() == s@,
    {
        if s.eq("Gate-to-Gate") {
            Some(AssuranceBoundary::GateToGate)
        } else if s.eq("Cradle-to-Gate") {
            Some(AssuranceBoundary::CradleToGate)
        } else {
            None
        }
    }

    /// Reading the name of a value gives the value back: no two values
    /// share a name.
    pub proof fn lemma_wire_name_round_trip(v: Self)
        ensures
            Self::from_wire_name(v.wire_name()) == Some(v),
    {
        reveal_strlit("Gate-to-Gate");
        reveal_strlit("Cradle-to-Gate");
        assert("Gate-to-Gate"@.len() == 12);
        assert("Cradle-to-Gate"@.len() == 14);
    }
}

impl DeepView for AssuranceBoundary {
    type V = AssuranceBoundary;

    open spec fn deep_view(&self) -> AssuranceBoundary {
        *self
    }
}

impl Wire for AssuranceBoundary {
    open spec fn to_wire(v: AssuranceBoundary) -> JsonModel {
        JsonModel::Text(v.wire_name())
    }

    open spec fn from_wire(j: JsonModel) -> Result<AssuranceBoundary, DecodeError> {
        match j {
            JsonModel::Text(s) => match AssuranceBoundary::from_wire_name(s) {
                Some(v) => Ok(v),
                None => Err(DecodeError::UnknownName),
            },
            _ => Err(DecodeError::WrongType),
        }
    }

    open spec fn faithful(v: AssuranceBoundary) -> bool {
        true
    }

    proof fn lemma_round_trip(v: AssuranceBoundary) {
        AssuranceBoundary::lemma_wire_name_round_trip(v);
    }

    fn to_json(&self) -> (r: Json) {
        Json::Text(self.as_str().to_owned())
    }

    fn from_json(j: &Json) -> (r: Result<AssuranceBoundary, DecodeError>) {
        match j {
            Json::Text(s) => match AssuranceBoundary::parse(s.as_str()) {
                Some(v) => Ok(v),
                None => Err(DecodeError::UnknownName),
            },
            _ => Err(DecodeError::WrongType),
        }
    }
}

} // verus!
