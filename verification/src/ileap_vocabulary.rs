//! The closed vocabularies of the logistics extension, each value with its
//! exact name on the wire.

use vstd::prelude::*;
use crate::json::{DecodeError, Json, JsonModel, Wire};

verus! {

/// The Incoterms rule under which a shipment travels.
#[derive(Clone, Copy, Debug, PartialEq, Eq, Hash, Structural)]
pub enum Incoterms {
    Exw,
    Fca,
    Cpt,
    Cip,
    Dap,
    Dpu,
    Ddp,
    Fas,
    Fob,
    Cfr,
    Cif,
}

impl Incoterms {
    /// The name of the value on the wire.
    pub open spec fn wire_name(self) -> Seq<char> {
        match self {
            Incoterms::Exw => "EXW"@,
            Incoterms::Fca => "FCA"@,
            Incoterms::Cpt => "CPT"@,
            Incoterms::Cip => "CIP"@,
            Incoterms::Dap => "DAP"@,
            Incoterms::Dpu => "DPU"@,
            Incoterms::Ddp => "DDP"@,
            Incoterms::Fas => "FAS"@,
            Incoterms::Fob => "FOB"@,
            Incoterms::Cfr => "CFR"@,
            Incoterms::Cif => "CIF"@,
        }
    }

    /// The value that a name on the wire stands for, if any.
    pub open spec fn from_wire_name(s: Seq<char>) -> Option<Self> {
        if s == "EXW"@ {
            Some(Incoterms::Exw)
        } else if s == "FCA"@ {
            Some(Incoterms::Fca)
        } else if s == "CPT"@ {
            Some(Incoterms::Cpt)
        } else if s == "CIP"@ {
            Some(Incoterms::Cip)
        } else if s == "DAP"@ {
            Some(Incoterms::Dap)
        } else if s == "DPU"@ {
            Some(Incoterms::Dpu)
        } else if s == "DDP"@ {
            Some(Incoterms::Ddp)
        } else if s == "FAS"@ {
            Some(Incoterms::Fas)
        } else if s == "FOB"@ {
            Some(Incoterms::Fob)
        } else if s == "CFR"@ {
            Some(Incoterms::Cfr)
        } else if s == "CIF"@ {
            Some(Incoterms::Cif)
        } else {
            None
        }
    }

    pub fn as_str(&self) -> (r: &'static str)
        ensures
            r@ == self.wire_name(),
    {
        match self {
            Incoterms::Exw => "EXW",
            Incoterms::Fca => "FCA",
            Incoterms::Cpt => "CPT",
            Incoterms::Cip => "CIP",
            Incoterms::Dap => "DAP",
            Incoterms::Dpu => "DPU",
            Incoterms::Ddp => "DDP",
            Incoterms::Fas => "FAS",
            Incoterms::Fob => "FOB",
            Incoterms::Cfr => "CFR",
            Incoterms::Cif => "CIF",
        }
    }

    /// Reads a value from its name on the wire; `None` for any other text.
    pub fn parse(s: &str) -> (r: Option<Self>)
        ensures
            r == Self::from_wire_name(s@),
            r matches Some(v) ==> v.wire_name() == s@,
    {
        if s.eq("EXW") {
            Some(Incoterms::Exw)
        } else if s.eq("FCA") {
            Some(Incoterms::Fca)
        } else if s.eq("CPT") {
            Some(Incoterms::Cpt)
        } else if s.eq("CIP") {
            Some(Incoterms::Cip)
        } else if s.eq("DAP") {
            Some(Incoterms::Dap)
        } else if s.eq("DPU") {
            Some(Incoterms::Dpu)
        } else if s.eq("DDP") {
            Some(Incoterms::Ddp)
        } else if s.eq("FAS") {
            Some(Incoterms::Fas)
        } else if s.eq("FOB") {
            Some(Incoterms::Fob)
        } else if s.eq("CFR") {
            Some(Incoterms::Cfr)
        } else if s.eq("CIF") {
            Some(Incoterms::Cif)
        } else {
            None
        }
    }

    /// Reading the name of a value gives the value back: no two values
    /// share a name.
    pub proof fn lemma_wire_name_round_trip(v: Self)
        ensures
            Self::from_wire_name(v.wire_name()) == Some(v),
    {
        reveal_strlit("EXW");
        reveal_strlit("FCA");
        reveal_strlit("CPT");
        reveal_strlit("CIP");
        reveal_strlit("DAP");
        reveal_strlit("DPU");
        reveal_strlit("DDP");
        reveal_strlit("FAS");
        reveal_strlit("FOB");
        reveal_strlit("CFR");
        reveal_strlit("CIF");
        assert("EXW"@.len() == 3);
        assert("FCA"@.len() == 3);
        assert("CPT"@.len() == 3);
        assert("CIP"@.len() == 3);
        assert("DAP"@.len() == 3);
        assert("DPU"@.len() == 3);
        assert("DDP"@.len() == 3);
        assert("FAS"@.len() == 3);
        assert("FOB"@.len() == 3);
        assert("CFR"@.len() == 3);
        assert("CIF"@.len() == 3);
        assert("EXW"@[0] != "FCA"@[0]);
        assert("EXW"@[0] != "CPT"@[0]);
        assert("EXW"@[0] != "CIP"@[0]);
        assert("EXW"@[0] != "DAP"@[0]);
        assert("EXW"@[0] != "DPU"@[0]);
        assert("EXW"@[0] != "DDP"@[0]);
        assert("EXW"@[0] != "FAS"@[0]);
        assert("EXW"@[0] != "FOB"@[0]);
        assert("EXW"@[0] != "CFR"@[0]);
        assert("EXW"@[0] != "CIF"@[0]);
        assert("FCA"@[0] != "CPT"@[0]);
        assert("FCA"@[0] != "CIP"@[0]);
        assert("FCA"@[0] != "DAP"@[0]);
        assert("FCA"@[0] != "DPU"@[0]);
        assert("FCA"@[0] != "DDP"@[0]);
        assert("FCA"@[1] != "FAS"@[1]);
        assert("FCA"@[1] != "FOB"@[1]);
        assert("FCA"@[0] != "CFR"@[0]);
        assert("FCA"@[0] != "CIF"@[0]);
        assert("CPT"@[1] != "CIP"@[1]);
        assert("CPT"@[0] != "DAP"@[0]);
        assert("CPT"@[0] != "DPU"@[0]);
        assert("CPT"@[0] != "DDP"@[0]);
        assert("CPT"@[0] != "FAS"@[0]);
        assert("CPT"@[0] != "FOB"@[0]);
        assert("CPT"@[1] != "CFR"@[1]);
        assert("CPT"@[1] != "CIF"@[1]);
        assert("CIP"@[0] != "DAP"@[0]);
        assert("CIP"@[0] != "DPU"@[0]);
        assert("CIP"@[0] != "DDP"@[0]);
        assert("CIP"@[0] != "FAS"@[0]);
        assert("CIP"@[0] != "FOB"@[0]);
        assert("CIP"@[1] != "CFR"@[1]);
        assert("CIP"@[2] != "CIF"@[2]);
        assert("DAP"@[1] != "DPU"@[1]);
        assert("DAP"@[1] != "DDP"@[1]);
        assert("DAP"@[0] != "FAS"@[0]);
        assert("DAP"@[0] != "FOB"@[0]);
        assert("DAP"@[0] != "CFR"@[0]);
        assert("DAP"@[0] != "CIF"@[0]);
        assert("DPU"@[1] != "DDP"@[1]);
        assert("DPU"@[0] != "FAS"@[0]);
        assert("DPU"@[0] != "FOB"@[0]);
        assert("DPU"@[0] != "CFR"@[0]);
        assert("DPU"@[0] != "CIF"@[0]);
        assert("DDP"@[0] != "FAS"@[0]);
        assert("DDP"@[0] != "FOB"@[0]);
        assert("DDP"@[0] != "CFR"@[0]);
        assert("DDP"@[0] != "CIF"@[0]);
        assert("FAS"@[1] != "FOB"@[1]);
        assert("FAS"@[0] != "CFR"@[0]);
        assert("FAS"@[0] != "CIF"@[0]);
        assert("FOB"@[0] != "CFR"@[0]);
        assert("FOB"@[0] != "CIF"@[0]);
        assert("CFR"@[1] != "CIF"@[1]);
    }
}

impl DeepView for Incoterms {
    type V = Incoterms;

    open spec fn deep_view(&self) -> Incoterms {
        *self
    }
}

impl Wire for Incoterms {
    open spec fn to_wire(v: Incoterms) -> JsonModel {
        JsonModel::Text(v.wire_name())
    }

    open spec fn from_wire(j: JsonModel) -> Result<Incoterms, DecodeError> {
        match j {
            JsonModel::Text(s) => match Incoterms::from_wire_name(s) {
                Some(v) => Ok(v),
                None => Err(DecodeError::UnknownName),
            },
            _ => Err(DecodeError::WrongType),
        }
    }

    open spec fn faithful(v: Incoterms) -> bool {
        true
    }

    proof fn lemma_round_trip(v: Incoterms) {
        Incoterms::lemma_wire_name_round_trip(v);
    }

    fn to_json(&self) -> (r: Json) {
        Json::Text(self.as_str().to_owned())
    }

    fn from_json(j: &Json) -> (r: Result<Incoterms, DecodeError>) {
        match j {
            Json::Text(s) => match Incoterms::parse(s.as_str()) {
                Some(v) => Ok(v),
                None => Err(DecodeError::UnknownName),
            },
            _ => Err(DecodeError::WrongType),
        }
    }
}

/// A certification of the calculation method.
#[derive(Clone, Copy, Debug, PartialEq, Eq, Hash, Structural)]
pub enum Certification {
    ISO14083_2023,
    GlecV2,
    GlecV3,
    GlecV3_1,
}

impl Certification {
    /// The name of the value on the wire.
    pub open spec fn wire_name(self) -> Seq<char> {
        match self {
            Certification::ISO14083_2023 => "ISO14083:2023"@,
            Certification::GlecV2 => "GLECv2"@,
            Certification::GlecV3 => "GLECv3"@,
            Certification::GlecV3_1 => "GLECv3.1"@,
        }
    }

    /// The value that a name on the wire stands for, if any.
    pub open spec fn from_wire_name(s: Seq<char>) -> Option<Self> {
        if s == "ISO14083:2023"@ {
            Some(Certification::ISO14083_2023)
        } else if s == "GLECv2"@ {
            Some(Certification::GlecV2)
        } else if s == "GLECv3"@ {
            Some(Certification::GlecV3)
        } else if s == "GLECv3.1"@ {
            Some(Certification::GlecV3_1)
        } else {
            None
        }
    }

    pub fn as_str(&self) -> (r: &'static str)
        ensures
            r@ == self.wire_name(),
    {
        match self {
            Certification::ISO14083_2023 => "ISO14083:2023",
            Certification::GlecV2 => "GLECv2",
            Certification::GlecV3 => "GLECv3",
            Certification::GlecV3_1 => "GLECv3.1",
        }
    }

    /// Reads a value from its name on the wire; `None` for any other text.
    pub fn parse(s: &str) -> (r: Option<Self>)
        ensures
            r == Self::from_wire_name(s@),
            r matches Some(v) ==> v.wire_name() == s@,
    {
        if s.eq("ISO14083:2023") {
            Some(Certification::ISO14083_2023)
        } else if s.eq("GLECv2") {
            Some(Certification::GlecV2)
        } else if s.eq("GLECv3") {
            Some(Certification::GlecV3)
        } else if s.eq("GLECv3.1") {
            Some(Certification::GlecV3_1)
        } else {
            None
        }
    }

    /// Reading the name of a value gives the value back: no two values
    /// share a name.
    pub proof fn lemma_wire_name_round_trip(v: Self)
        ensures
            Self::from_wire_name(v.wire_name()) == Some(v),
    {
        reveal_strlit("ISO14083:2023");
        reveal_strlit("GLECv2");
        reveal_strlit("GLECv3");
        reveal_strlit("GLECv3.1");
        assert("ISO14083:2023"@.len() == 13);
        assert("GLECv2"@.len() == 6);
        assert("GLECv3"@.len() == 6);
        assert("GLECv3.1"@.len() == 8);
        assert("GLECv2"@[5] != "GLECv3"@[5]);
    }
}

impl DeepView for Certification {
    type V = Certification;

    open spec fn deep_view(&self) -> Certification {
        *self
    }
}

impl Wire for Certification {
    open spec fn to_wire(v: Certification) -> JsonModel {
        JsonModel::Text(v.wire_name())
    }

    open spec fn from_wire(j: JsonModel) -> Result<Certification, DecodeError> {
        match j {
            JsonModel::Text(s) => match Certification::from_wire_name(s) {
                Some(v) => Ok(v),
                None => Err(DecodeError::UnknownName),
            },
            _ => Err(DecodeError::WrongType),
        }
    }

    open spec fn faithful(v: Certification) -> bool {
        true
    }

    proof fn lemma_round_trip(v: Certification) {
        Certification::lemma_wire_name_round_trip(v);
    }

    fn to_json(&self) -> (r: Json) {
        Json::Text(self.as_str().to_owned())
    }

    fn from_json(j: &Json) -> (r: Result<Certification, DecodeError>) {
        match j {
            Json::Text(s) => match Certification::parse(s.as_str()) {
                Some(v) => Ok(v),
                None => Err(DecodeError::UnknownName),
            },
            _ => Err(DecodeError::WrongType),
        }
    }
}

/// The unit of transport activity to which an intensity refers.
#[derive(Clone, Copy, Debug, PartialEq, Eq, Hash, Structural)]
pub enum TransportActivityUnit {
    /// Twenty-foot equivalent unit kilometres.
    TEUkm,
    /// Tonne kilometres.
    Tkm,
}

impl TransportActivityUnit {
    /// The name of the value on the wire.
    pub open spec fn wire_name(self) -> Seq<char> {
        match self {
            TransportActivityUnit::TEUkm => "TEUkm"@,
            TransportActivityUnit::Tkm => "tkm"@,
        }
    }

    /// The value that a name on the wire stands for, if any.
    pub open spec fn from_wire_name(s: Seq<char>) -> Option<Self> {
        if s == "TEUkm"@ {
            Some(TransportActivityUnit::TEUkm)
        } else if s == "tkm"@ {
            Some(TransportActivityUnit::Tkm)
        } else {
            None
        }
    }

    pub fn as_str(&self) -> (r: &'static str)
        ensures
            r@ == self.wire_name(),
    {
        match self {
            TransportActivityUnit::TEUkm => "TEUkm",
            TransportActivityUnit::Tkm => "tkm",
        }
    }

    /// Reads a value from its name on the wire; `None` for any other text.
    pub fn parse(s: &str) -> (r: Option<Self>)
        ensures
            r == Self::from_wire_name(s@),
            r matches Some(v) ==> v.wire_name() == s@,
    {
        if s.eq("TEUkm") {
            Some(TransportActivityUnit::TEUkm)
        } else if s.eq("tkm") {
            Some(TransportActivityUnit::Tkm)
        } else {
            None
        }
    }

    /// Reading the name of a value gives the value back: no two values
    /// share a name.
    pub proof fn lemma_wire_name_round_trip(v: Self)
        ensures
            Self::from_wire_name(v.wire_name()) == Some(v),
    {
        reveal_strlit("TEUkm");
        reveal_strlit("tkm");
        assert("TEUkm"@.len() == 5);
        assert("tkm"@.len() == 3);
    }
}

impl DeepView for TransportActivityUnit {
    type V = TransportActivityUnit;

    open spec fn deep_view(&self) -> TransportActivityUnit {
        *self
    }
}

impl Wire for TransportActivityUnit {
    open spec fn to_wire(v: TransportActivityUnit) -> JsonModel {
        JsonModel::Text(v.wire_name())
    }

    open spec fn from_wire(j: JsonModel) -> Result<TransportActivityUnit, DecodeError> {
        match j {
            JsonModel::Text(s) => match TransportActivityUnit::from_wire_name(s) {
                Some(v) => Ok(v),
                None => Err(DecodeError::UnknownName),
            },
            _ => Err(DecodeError::WrongType),
        }
    }

    open spec fn faithful(v: TransportActivityUnit) -> bool {
        true
    }

    proof fn lemma_round_trip(v: TransportActivityUnit) {
        TransportActivityUnit::lemma_wire_name_round_trip(v);
    }

    fn to_json(&self) -> (r: Json) {
        Json::Text(self.as_str().to_owned())
    }

    fn from_json(j: &Json) -> (r: Result<TransportActivityUnit, DecodeError>) {
        match j {
            Json::Text(s) => match TransportActivityUnit::parse(s.as_str()) {
                Some(v) => Ok(v),
                None => Err(DecodeError::UnknownName),
            },
            _ => Err(DecodeError::WrongType),
        }
    }
}

/// How the temperature of the cargo is controlled.
#[derive(Clone, Copy, Debug, PartialEq, Eq, Hash, Structural)]
pub enum TemperatureControl {
    Ambient,
    Refrigerated,
    Mixed,
}

impl TemperatureControl {
    /// The name of the value on the wire.
    pub open spec fn wire_name(self) -> Seq<char> {
        match self {
            TemperatureControl::Ambient => "ambient"@,
            TemperatureControl::Refrigerated => "refrigerated"@,
            TemperatureControl::Mixed => "mixed"@,
        }
    }

    /// The value that a name on the wire stands for, if any.
    pub open spec fn from_wire_name(s: Seq<char>) -> Option<Self> {
        if s == "ambient"@ {
            Some(TemperatureControl::Ambient)
        } else if s == "refrigerated"@ {
            Some(TemperatureControl::Refrigerated)
        } else if s == "mixed"@ {
            Some(TemperatureControl::Mixed)
        } else {
            None
        }
    }

    pub fn as_str(&self) -> (r: &'static str)
        ensures
            r@ == self.wire_name(),
    {
        match self {
            TemperatureControl::Ambient => "ambient",
            TemperatureControl::Refrigerated => "refrigerated",
            TemperatureControl::Mixed => "mixed",
        }
    }

    /// Reads a value from its name on the wire; `None` for any other text.
    pub fn parse(s: &str) -> (r: Option<Self>)
        ensures
            r == Self::from_wire_name(s@),
            r matches Some(v) ==> v.wire_name() == s@,
    {
        if s.eq("ambient") {
            Some(TemperatureControl::Ambient)
        } else if s.eq("refrigerated") {
            Some(TemperatureControl::Refrigerated)
        } else if s.eq("mixed") {
            Some(TemperatureControl::Mixed)
        } else {
            None
        }
    }

    /// Reading the name of a value gives the value back: no two values
    /// share a name.
    pub proof fn lemma_wire_name_round_trip(v: Self)
        ensures
            Self::from_wire_name(v.wire_name()) == Some(v),
    {
        reveal_strlit("ambient");
        reveal_strlit("refrigerated");
        reveal_strlit("mixed");
        assert("ambient"@.len() == 7);
        assert("refrigerated"@.len() == 12);
        assert("mixed"@.len() == 5);
    }
}

impl DeepView for TemperatureControl {
    type V = TemperatureControl;

    open spec fn deep_view(&self) -> TemperatureControl {
        *self
    }
}

impl Wire for TemperatureControl {
    open spec fn to_wire(v: TemperatureControl) -> JsonModel {
        JsonModel::Text(v.wire_name())
    }

    open spec fn from_wire(j: JsonModel) -> Result<TemperatureControl, DecodeError> {
        match j {
            JsonModel::Text(s) => match TemperatureControl::from_wire_name(s) {
                Some(v) => Ok(v),
                None => Err(DecodeError::UnknownName),
            },
            _ => Err(DecodeError::WrongType),
        }
    }

    open spec fn faithful(v: TemperatureControl) -> bool {
        true
    }

    proof fn lemma_round_trip(v: TemperatureControl) {
        TemperatureControl::lemma_wire_name_round_trip(v);
    }

    fn to_json(&self) -> (r: Json) {
        Json::Text(self.as_str().to_owned())
    }

    fn from_json(j: &Json) -> (r: Result<TemperatureControl, DecodeError>) {
        match j {
            Json::Text(s) => match TemperatureControl::parse(s.as_str()) {
                Some(v) => Ok(v),
                None => Err(DecodeError::UnknownName),
            },
            _ => Err(DecodeError::WrongType),
        }
    }
}

/// How the temperature of the cargo of one transport activity is controlled.
#[derive(Clone, Copy, Debug, PartialEq, Eq, Hash, Structural)]
pub enum TadTempControl {
    Ambient,
    Refrigerated,
}

impl TadTempControl {
    /// The name of the value on the wire.
    pub open spec fn wire_name(self) -> Seq<char> {
        match self {
            TadTempControl::Ambient => "ambient"@,
            TadTempControl::Refrigerated => "refrigerated"@,
        }
    }

    /// The value that a name on the wire stands for, if any.
    pub open spec fn from_wire_name(s: Seq<char>) -> Option<Self> {
        if s == "ambient"@ {
            Some(TadTempControl::Ambient)
        } else if s == "refrigerated"@ {
            Some(TadTempControl::Refrigerated)
        } else {
            None
        }
    }

    pub fn as_str(&self) -> (r: &'static str)
        ensures
            r@ == self.wire_name(),
    {
        match self {
            TadTempControl::Ambient => "ambient",
            TadTempControl::Refrigerated => "refrigerated",
        }
    }

    /// Reads a value from its name on the wire; `None` for any other text.
    pub fn parse(s: &str) -> (r: Option<Self>)
        ensures
            r == Self::from_wire_name(s@),
            r matches Some(v) ==> v.wire_name() == s@,
    {
        if s.eq("ambient") {
            Some(TadTempControl::Ambient)
        } else if s.eq("refrigerated") {
            Some(TadTempControl::Refrigerated)
        } else {
            None
        }
    }

    /// Reading the name of a value gives the value back: no two values
    /// share a name.
    pub proof fn lemma_wire_name_round_trip(v: Self)
        ensures
            Self::from_wire_name(v.wire_name()) == Some(v),
    {
        reveal_strlit("ambient");
        reveal_strlit("refrigerated");
        assert("ambient"@.len() == 7);
        assert("refrigerated"@.len() == 12);
    }
}

impl DeepView for TadTempControl {
    type V = TadTempControl;

    open spec fn deep_view(&self) -> TadTempControl {
        *self
    }
}

impl Wire for TadTempControl {
    open spec fn to_wire(v: TadTempControl) -> JsonModel {
        JsonModel::Text(v.wire_name())
    }

    open spec fn from_wire(j: JsonModel) -> Result<TadTempControl, DecodeError> {
        match j {
            JsonModel::Text(s) => match TadTempControl::from_wire_name(s) {
                Some(v) => Ok(v),
                None => Err(DecodeError::UnknownName),
            },
            _ => Err(DecodeError::WrongType),
        }
    }

    open spec fn faithful(v: TadTempControl) -> bool {
        true
    }

    proof fn lemma_round_trip(v: TadTempControl) {
        TadTempControl::lemma_wire_name_round_trip(v);
    }

    fn to_json(&self) -> (r: Json) {
        Json::Text(self.as_str().to_owned())
    }

    fn from_json(j: &Json) -> (r: Result<TadTempControl, DecodeError>) {
        match j {
            Json::Text(s) => match TadTempControl::parse(s.as_str()) {
                Some(v) => Ok(v),
                None => Err(DecodeError::UnknownName),
            },
            _ => Err(DecodeError::WrongType),
        }
    }
}

/// Whether a truck carries a partial or a full load.
#[derive(Clone, Copy, Debug, PartialEq, Eq, Hash, Structural)]
pub enum TruckLoadingSequence {
    /// Less than truckload.
    Ltl,
    /// Full truckload.
    Ftl,
}

impl TruckLoadingSequence {
    /// The name of the value on the wire.
    pub open spec fn wire_name(self) -> Seq<char> {
        match self {
            TruckLoadingSequence::Ltl => "LTL"@,
            TruckLoadingSequence::Ftl => "FTL"@,
        }
    }

    /// The value that a name on the wire stands for, if any.
    pub open spec fn from_wire_name(s: Seq<char>) -> Option<Self> {
        if s == "LTL"@ {
            Some(TruckLoadingSequence::Ltl)
        } else if s == "FTL"@ {
            Some(TruckLoadingSequence::Ftl)
        } else {
            None
        }
    }

    pub fn as_str(&self) -> (r: &'static str)
        ensures
            r@ == self.wire_name(),
    {
        match self {
            TruckLoadingSequence::Ltl => "LTL",
            TruckLoadingSequence::Ftl => "FTL",
        }
    }

    /// Reads a value from its name on the wire; `None` for any other text.
    pub fn parse(s: &str) -> (r: Option<Self>)
        ensures
            r == Self::from_wire_name(s@),
            r matches Some(v) ==> v.wire_name() == s@,
    {
        if s.eq("LTL") {
            Some(TruckLoadingSequence::Ltl)
        } else if s.eq("FTL") {
            Some(TruckLoadingSequence::Ftl)
        } else {
            None
        }
    }

    /// Reading the name of a value gives the value back: no two values
    /// share a name.
    pub proof fn lemma_wire_name_round_trip(v: Self)
        ensures
            Self::from_wire_name(v.wire_name()) == Some(v),
    {
        reveal_strlit("LTL");
        reveal_strlit("FTL");
        assert("LTL"@.len() == 3);
        assert("FTL"@.len() == 3);
        assert("LTL"@[0] != "FTL"@[0]);
    }
}

impl DeepView for TruckLoadingSequence {
    type V = TruckLoadingSequence;

    open spec fn deep_view(&self) -> TruckLoadingSequence {
        *self
    }
}

impl Wire for TruckLoadingSequence {
    open spec fn to_wire(v: TruckLoadingSequence) -> JsonModel {
        JsonModel::Text(v.wire_name())
    }

    open spec fn from_wire(j: JsonModel) -> Result<TruckLoadingSequence, DecodeError> {
        match j {
            JsonModel::Text(s) => match TruckLoadingSequence::from_wire_name(s) {
                Some(v) => Ok(v),
                None => Err(DecodeError::UnknownName),
            },
            _ => Err(DecodeError::WrongType),
        }
    }

    open spec fn faithful(v: TruckLoadingSequence) -> bool {
        true
    }

    proof fn lemma_round_trip(v: TruckLoadingSequence) {
        TruckLoadingSequence::lemma_wire_name_round_trip(v);
    }

    fn to_json(&self) -> (r: Json) {
        Json::Text(self.as_str().to_owned())
    }

    fn from_json(j: &Json) -> (r: Result<TruckLoadingSequence, DecodeError>) {
        match j {
            Json::Text(s) => match TruckLoadingSequence::parse(s.as_str()) {
                Some(v) => Ok(v),
                None => Err(DecodeError::UnknownName),
            },
            _ => Err(DecodeError::WrongType),
        }
    }
}

/// How cargo travels by air.
#[derive(Clone, Copy, Debug, PartialEq, Eq, Hash, Structural)]
pub enum AirShippingOption {
    BellyFreight,
    Freighter,
}

impl AirShippingOption {
    /// The name of the value on the wire.
    pub open spec fn wire_name(self) -> Seq<char> {
        match self {
            AirShippingOption::BellyFreight => "belly freight"@,
            AirShippingOption::Freighter => "freighter"@,
        }
    }

    /// The value that a name on the wire stands for, if any.
    pub open spec fn from_wire_name(s: Seq<char>) -> Option<Self> {
        if s == "belly freight"@ {
            Some(AirShippingOption::BellyFreight)
        } else if s == "freighter"@ {
            Some(AirShippingOption::Freighter)
        } else {
            None
        }
    }

    pub fn as_str(&self) -> (r: &'static str)
        ensures
            r@ == self.wire_name(),
    {
        match self {
            AirShippingOption::BellyFreight => "belly freight",
            AirShippingOption::Freighter => "freighter",
        }
    }

    /// Reads a value from its name on the wire; `None` for any other text.
    pub fn parse(s: &str) -> (r: Option<Self>)
        ensures
            r == Self::from_wire_name(s@),
            r matches Some(v) ==> v.wire_name() == s@,
    {
        if s.eq("belly freight") {
            Some(AirShippingOption::BellyFreight)
        } else if s.eq("freighter") {
            Some(AirShippingOption::Freighter)
        } else {
            None
        }
    }

    /// Reading the name of a value gives the value back: no two values
    /// share a name.
    pub proof fn lemma_wire_name_round_trip(v: Self)
        ensures
            Self::from_wire_name(v.wire_name()) == Some(v),
    {
        reveal_strlit("belly freight");
        reveal_strlit("freighter");
        assert("belly freight"@.len() == 13);
        assert("freighter"@.len() == 9);
    }
}

impl DeepView for AirShippingOption {
    type V = AirShippingOption;

    open spec fn deep_view(&self) -> AirShippingOption {
        *self
    }
}

impl Wire for AirShippingOption {
    open spec fn to_wire(v: AirShippingOption) -> JsonModel {
        JsonModel::Text(v.wire_name())
    }

    open spec fn from_wire(j: JsonModel) -> Result<AirShippingOption, DecodeError> {
        match j {
            JsonModel::Text(s) => match AirShippingOption::from_wire_name(s) {
                Some(v) => Ok(v),
                None => Err(DecodeError::UnknownName),
            },
            _ => Err(DecodeError::WrongType),
        }
    }

    open spec fn faithful(v: AirShippingOption) -> bool {
        true
    }

    proof fn lemma_round_trip(v: AirShippingOption) {
        AirShippingOption::lemma_wire_name_round_trip(v);
    }

    fn to_json(&self) -> (r: Json) {
        Json::Text(self.as_str().to_owned())
    }

    fn from_json(j: &Json) -> (r: Result<AirShippingOption, DecodeError>) {
        match j {
            Json::Text(s) => match AirShippingOption::parse(s.as_str()) {
                Some(v) => Ok(v),
                None => Err(DecodeError::UnknownName),
            },
            _ => Err(DecodeError::WrongType),
        }
    }
}

/// The length class of a flight.
#[derive(Clone, Copy, Debug, PartialEq, Eq, Hash, Structural)]
pub enum FlightLength {
    ShortHaul,
    LongHaul,
}

impl FlightLength {
    /// The name of the value on the wire.
    pub open spec fn wire_name(self) -> Seq<char> {
        match self {
            FlightLength::ShortHaul => "short-haul"@,
            FlightLength::LongHaul => "long-haul"@,
        }
    }

    /// The value that a name on the wire stands for, if any.
    pub open spec fn from_wire_name(s: Seq<char>) -> Option<Self> {
        if s == "short-haul"@ {
            Some(FlightLength::ShortHaul)
        } else if s == "long-haul"@ {
            Some(FlightLength::LongHaul)
        } else {
            None
        }
    }

    pub fn as_str(&self) -> (r: &'static str)
        ensures
            r@ == self.wire_name(),
    {
        match self {
            FlightLength::ShortHaul => "short-haul",
            FlightLength::LongHaul => "long-haul",
        }
    }

    /// Reads a value from its name on the wire; `None` for any other text.
    pub fn parse(s: &str) -> (r: Option<Self>)
        ensures
            r == Self::from_wire_name(s@),
            r matches Some(v) ==> v.wire_name() == s@,
    {
        if s.eq("short-haul") {
            Some(FlightLength::ShortHaul)
        } else if s.eq("long-haul") {
            Some(FlightLength::LongHaul)
        } else {
            None
        }
    }

    /// Reading the name of a value gives the value back: no two values
    /// share a name.
    pub proof fn lemma_wire_name_round_trip(v: Self)
        ensures
            Self::from_wire_name(v.wire_name()) == Some(v),
    {
        reveal_strlit("short-haul");
        reveal_strlit("long-haul");
        assert("short-haul"@.len() == 10);
        assert("long-haul"@.len() == 9);
    }
}

impl DeepView for FlightLength {
    type V = FlightLength;

    open spec fn deep_view(&self) -> FlightLength {
        *self
    }
}

impl Wire for FlightLength {
    open spec fn to_wire(v: FlightLength) -> JsonModel {
        JsonModel::Text(v.wire_name())
    }

    open spec fn from_wire(j: JsonModel) -> Result<FlightLength, DecodeError> {
        match j {
            JsonModel::Text(s) => match FlightLength::from_wire_name(s) {
                Some(v) => Ok(v),
                None => Err(DecodeError::UnknownName),
            },
            _ => Err(DecodeError::WrongType),
        }
    }

    open spec fn faithful(v: FlightLength) -> bool {
        true
    }

    proof fn lemma_round_trip(v: FlightLength) {
        FlightLength::lemma_wire_name_round_trip(v);
    }

    fn to_json(&self) -> (r: Json) {
        Json::Text(self.as_str().to_owned())
    }

    fn from_json(j: &Json) -> (r: Result<FlightLength, DecodeError>) {
        match j {
            Json::Text(s) => match FlightLength::parse(s.as_str()) {
                Some(v) => Ok(v),
                None => Err(DecodeError::UnknownName),
            },
            _ => Err(DecodeError::WrongType),
        }
    }
}

/// The unit of hub throughput to which an intensity refers.
#[derive(Clone, Copy, Debug, PartialEq, Eq, Hash, Structural)]
pub enum HubActivityUnit {
    /// Twenty-foot equivalent units.
    TEU,
    Tonnes,
}

impl HubActivityUnit {
    /// The name of the value on the wire.
    pub open spec fn wire_name(self) -> Seq<char> {
        match self {
            HubActivityUnit::TEU => "TEU"@,
            HubActivityUnit::Tonnes => "tonnes"@,
        }
    }

    /// The value that a name on the wire stands for, if any.
    pub open spec fn from_wire_name(s: Seq<char>) -> Option<Self> {
        if s == "TEU"@ {
            Some(HubActivityUnit::TEU)
        } else if s == "tonnes"@ {
            Some(HubActivityUnit::Tonnes)
        } else {
            None
        }
    }

    pub fn as_str(&self) -> (r: &'static str)
        ensures
            r@ == self.wire_name(),
    {
        match self {
            HubActivityUnit::TEU => "TEU",
            HubActivityUnit::Tonnes => "tonnes",
        }
    }

    /// Reads a value from its name on the wire; `None` for any other text.
    pub fn parse(s: &str) -> (r: Option<Self>)
        ensures
            r == Self::from_wire_name(s@),
            r matches Some(v) ==> v.wire_name() == s@,
    {
        if s.eq("TEU") {
            Some(HubActivityUnit::TEU)
        } else if s.eq("tonnes") {
            Some(HubActivityUnit::Tonnes)
        } else {
            None
        }
    }

    /// Reading the name of a value gives the value back: no two values
    /// share a name.
    pub proof fn lemma_wire_name_round_trip(v: Self)
        ensures
            Self::from_wire_name(v.wire_name()) == Some(v),
    {
        reveal_strlit("TEU");
        reveal_strlit("tonnes");
        assert("TEU"@.len() == 3);
        assert("tonnes"@.len() == 6);
    }
}

impl DeepView for HubActivityUnit {
    type V = HubActivityUnit;

    open spec fn deep_view(&self) -> HubActivityUnit {
        *self
    }
}

impl Wire for HubActivityUnit {
    open spec fn to_wire(v: HubActivityUnit) -> JsonModel {
        JsonModel::Text(v.wire_name())
    }

    open spec fn from_wire(j: JsonModel) -> Result<HubActivityUnit, DecodeError> {
        match j {
            JsonModel::Text(s) => match HubActivityUnit::from_wire_name(s) {
                Some(v) => Ok(v),
                None => Err(DecodeError::UnknownName),
            },
            _ => Err(DecodeError::WrongType),
        }
    }

    open spec fn faithful(v: HubActivityUnit) -> bool {
        true
    }

    proof fn lemma_round_trip(v: HubActivityUnit) {
        HubActivityUnit::lemma_wire_name_round_trip(v);
    }

    fn to_json(&self) -> (r: Json) {
        Json::Text(self.as_str().to_owned())
    }

    fn from_json(j: &Json) -> (r: Result<HubActivityUnit, DecodeError>) {
        match j {
            Json::Text(s) => match HubActivityUnit::parse(s.as_str()) {
                Some(v) => Ok(v),
                None => Err(DecodeError::UnknownName),
            },
            _ => Err(DecodeError::WrongType),
        }
    }
}

/// The kind of a logistics hub.
#[derive(Clone, Copy, Debug, PartialEq, Eq, Hash, Structural)]
pub enum HubType {
    Transshipment,
    StorageAndTransshipment,
    Warehouse,
    LiquidBulkTerminal,
    MaritimeContainerTerminal,
}

impl HubType {
    /// The name of the value on the wire.
    pub open spec fn wire_name(self) -> Seq<char> {
        match self {
            HubType::Transshipment => "Transshipment"@,
            HubType::StorageAndTransshipment => "StorageAndTransshipment"@,
            HubType::Warehouse => "Warehouse"@,
            HubType::LiquidBulkTerminal => "LiquidBulkTerminal"@,
            HubType::MaritimeContainerTerminal => "MaritimeContainerTerminal"@,
        }
    }

    /// The value that a name on the wire stands for, if any.
    pub open spec fn from_wire_name(s: Seq<char>) -> Option<Self> {
        if s == "Transshipment"@ {
            Some(HubType::Transshipment)
        } else if s == "StorageAndTransshipment"@ {
            Some(HubType::StorageAndTransshipment)
        } else if s == "Warehouse"@ {
            Some(HubType::Warehouse)
        } else if s == "LiquidBulkTerminal"@ {
            Some(HubType::LiquidBulkTerminal)
        } else if s == "MaritimeContainerTerminal"@ {
            Some(HubType::MaritimeContainerTerminal)
        } else {
            None
        }
    }

    pub fn as_str(&self) -> (r: &'static str)
        ensures
            r@ == self.wire_name(),
    {
        match self {
            HubType::Transshipment => "Transshipment",
            HubType::StorageAndTransshipment => "StorageAndTransshipment",
            HubType::Warehouse => "Warehouse",
            HubType::LiquidBulkTerminal => "LiquidBulkTerminal",
            HubType::MaritimeContainerTerminal => "MaritimeContainerTerminal",
        }
    }

    /// Reads a value from its name on the wire; `None` for any other text.
    pub fn parse(s: &str) -> (r: Option<Self>)
        ensures
            r == Self::from_wire_name(s@),
            r matches Some(v) ==> v.wire_name() == s@,
    {
        if s.eq("Transshipment") {
            Some(HubType::Transshipment)
        } else if s.eq("StorageAndTransshipment") {
            Some(HubType::StorageAndTransshipment)
        } else if s.eq("Warehouse") {
            Some(HubType::Warehouse)
        } else if s.eq("LiquidBulkTerminal") {
            Some(HubType::LiquidBulkTerminal)
        } else if s.eq("MaritimeContainerTerminal") {
            Some(HubType::MaritimeContainerTerminal)
        } else {
            None
        }
    }

    /// Reading the name of a value gives the value back: no two values
    /// share a name.
    pub proof fn lemma_wire_name_round_trip(v: Self)
        ensures
            Self::from_wire_name(v.wire_name()) == Some(v),
    {
        reveal_strlit("Transshipment");
        reveal_strlit("StorageAndTransshipment");
        reveal_strlit("Warehouse");
        reveal_strlit("LiquidBulkTerminal");
        reveal_strlit("MaritimeContainerTerminal");
        assert("Transshipment"@.len() == 13);
        assert("StorageAndTransshipment"@.len() == 23);
        assert("Warehouse"@.len() == 9);
        assert("LiquidBulkTerminal"@.len() == 18);
        assert("MaritimeContainerTerminal"@.len() == 25);
    }
}

impl DeepView for HubType {
    type V = HubType;

    open spec fn deep_view(&self) -> HubType {
        *self
    }
}

impl Wire for HubType {
    open spec fn to_wire(v: HubType) -> JsonModel {
        JsonModel::Text(v.wire_name())
    }

    open spec fn from_wire(j: JsonModel) -> Result<HubType, DecodeError> {
        match j {
            JsonModel::Text(s) => match HubType::from_wire_name(s) {
                Some(v) => Ok(v),
                None => Err(DecodeError::UnknownName),
            },
            _ => Err(DecodeError::WrongType),
        }
    }

    open spec fn faithful(v: HubType) -> bool {
        true
    }

    proof fn lemma_round_trip(v: HubType) {
        HubType::lemma_wire_name_round_trip(v);
    }

    fn to_json(&self) -> (r: Json) {
        Json::Text(self.as_str().to_owned())
    }

    fn from_json(j: &Json) -> (r: Result<HubType, DecodeError>) {
        match j {
            Json::Text(s) => match HubType::parse(s.as_str()) {
                Some(v) => Ok(v),
                None => Err(DecodeError::UnknownName),
            },
            _ => Err(DecodeError::WrongType),
        }
    }
}

/// The mode of a transport.
#[derive(Clone, Copy, Debug, PartialEq, Eq, Hash, Structural)]
pub enum TransportMode {
    Road,
    Rail,
    Air,
    Sea,
    InlandWaterway,
}

impl TransportMode {
    /// The name of the value on the wire.
    pub open spec fn wire_name(self) -> Seq<char> {
        match self {
            TransportMode::Road => "Road"@,
            TransportMode::Rail => "Rail"@,
            TransportMode::Air => "Air"@,
            TransportMode::Sea => "Sea"@,
            TransportMode::InlandWaterway => "InlandWaterway"@,
        }
    }

    /// The value that a name on the wire stands for, if any.
    pub open spec fn from_wire_name(s: Seq<char>) -> Option<Self> {
        if s == "Road"@ {
            Some(TransportMode::Road)
        } else if s == "Rail"@ {
            Some(TransportMode::Rail)
        } else if s == "Air"@ {
            Some(TransportMode::Air)
        } else if s == "Sea"@ {
            Some(TransportMode::Sea)
        } else if s == "InlandWaterway"@ {
            Some(TransportMode::InlandWaterway)
        } else {
            None
        }
    }

    pub fn as_str(&self) -> (r: &'static str)
        ensures
            r@ == self.wire_name(),
    {
        match self {
            TransportMode::Road => "Road",
            TransportMode::Rail => "Rail",
            TransportMode::Air => "Air",
            TransportMode::Sea => "Sea",
            TransportMode::InlandWaterway => "InlandWaterway",
        }
    }

    /// Reads a value from its name on the wire; `None` for any other text.
    pub fn parse(s: &str) -> (r: Option<Self>)
        ensures
            r == Self::from_wire_name(s@),
            r matches Some(v) ==> v.wire_name() == s@,
    {
        if s.eq("Road") {
            Some(TransportMode::Road)
        } else if s.eq("Rail") {
            Some(TransportMode::Rail)
        } else if s.eq("Air") {
            Some(TransportMode::Air)
        } else if s.eq("Sea") {
            Some(TransportMode::Sea)
        } else if s.eq("InlandWaterway") {
            Some(TransportMode::InlandWaterway)
        } else {
            None
        }
    }

    /// Reading the name of a value gives the value back: no two values
    /// share a name.
    pub proof fn lemma_wire_name_round_trip(v: Self)
        ensures
            Self::from_wire_name(v.wire_name()) == Some(v),
    {
        reveal_strlit("Road");
        reveal_strlit("Rail");
        reveal_strlit("Air");
        reveal_strlit("Sea");
        reveal_strlit("InlandWaterway");
        assert("Road"@.len() == 4);
        assert("Rail"@.len() == 4);
        assert("Air"@.len() == 3);
        assert("Sea"@.len() == 3);
        assert("InlandWaterway"@.len() == 14);
        assert("Air"@[0] != "Sea"@[0]);
        assert("Road"@[1] != "Rail"@[1]);
    }
}

impl DeepView for TransportMode {
    type V = TransportMode;

    open spec fn deep_view(&self) -> TransportMode {
        *self
    }
}

impl Wire for TransportMode {
    open spec fn to_wire(v: TransportMode) -> JsonModel {
        JsonModel::Text(v.wire_name())
    }

    open spec fn from_wire(j: JsonModel) -> Result<TransportMode, DecodeError> {
        match j {
            JsonModel::Text(s) => match TransportMode::from_wire_name(s) {
                Some(v) => Ok(v),
                None => Err(DecodeError::UnknownName),
            },
            _ => Err(DecodeError::WrongType),
        }
    }

    open spec fn faithful(v: TransportMode) -> bool {
        true
    }

    proof fn lemma_round_trip(v: TransportMode) {
        TransportMode::lemma_wire_name_round_trip(v);
    }

    fn to_json(&self) -> (r: Json) {
        Json::Text(self.as_str().to_owned())
    }

    fn from_json(j: &Json) -> (r: Result<TransportMode, DecodeError>) {
        match j {
            Json::Text(s) => match TransportMode::parse(s.as_str()) {
                Some(v) => Ok(v),
                None => Err(DecodeError::UnknownName),
            },
            _ => Err(DecodeError::WrongType),
        }
    }
}

/// The kind of packaging or transport equipment.
#[derive(Clone, Copy, Debug, PartialEq, Eq, Hash, Structural)]
pub enum PackagingOrTrEqType {
    Box,
    Pallet,
    ContainerTEU,
    ContainerFEU,
    Container,
}

impl PackagingOrTrEqType {
    /// The name of the value on the wire.
    pub open spec fn wire_name(self) -> Seq<char> {
        match self {
            PackagingOrTrEqType::Box => "Box"@,
            PackagingOrTrEqType::Pallet => "Pallet"@,
            PackagingOrTrEqType::ContainerTEU => "Container-TEU"@,
            PackagingOrTrEqType::ContainerFEU => "Container-FEU"@,
            PackagingOrTrEqType::Container => "Container"@,
        }
    }

    /// The value that a name on the wire stands for, if any.
    pub open spec fn from_wire_name(s: Seq<char>) -> Option<Self> {
        if s == "Box"@ {
            Some(PackagingOrTrEqType::Box)
        } else if s == "Pallet"@ {
            Some(PackagingOrTrEqType::Pallet)
        } else if s == "Container-TEU"@ {
            Some(PackagingOrTrEqType::ContainerTEU)
        } else if s == "Container-FEU"@ {
            Some(PackagingOrTrEqType::ContainerFEU)
        } else if s == "Container"@ {
            Some(PackagingOrTrEqType::Container)
        } else {
            None
        }
    }

    pub fn as_str(&self) -> (r: &'static str)
        ensures
            r@ == self.wire_name(),
    {
        match self {
            PackagingOrTrEqType::Box => "Box",
            PackagingOrTrEqType::Pallet => "Pallet",
            PackagingOrTrEqType::ContainerTEU => "Container-TEU",
            PackagingOrTrEqType::ContainerFEU => "Container-FEU",
            PackagingOrTrEqType::Container => "Container",
        }
    }

    /// Reads a value from its name on the wire; `None` for any other text.
    pub fn parse(s: &str) -> (r: Option<Self>)
        ensures
            r == Self::from_wire_name(s@),
            r matches Some(v) ==> v.wire_name() == s@,
    {
        if s.eq("Box") {
            Some(PackagingOrTrEqType::Box)
        } else if s.eq("Pallet") {
            Some(PackagingOrTrEqType::Pallet)
        } else if s.eq("Container-TEU") {
            Some(PackagingOrTrEqType::ContainerTEU)
        } else if s.eq("Container-FEU") {
            Some(PackagingOrTrEqType::ContainerFEU)
        } else if s.eq("Container") {
            Some(PackagingOrTrEqType::Container)
        } else {
            None
        }
    }

    /// Reading the name of a value gives the value back: no two values
    /// share a name.
    pub proof fn lemma_wire_name_round_trip(v: Self)
        ensures
            Self::from_wire_name(v.wire_name()) == Some(v),
    {
        reveal_strlit("Box");
        reveal_strlit("Pallet");
        reveal_strlit("Container-TEU");
        reveal_strlit("Container-FEU");
        reveal_strlit("Container");
        assert("Box"@.len() == 3);
        assert("Pallet"@.len() == 6);
        assert("Container-TEU"@.len() == 13);
        assert("Container-FEU"@.len() == 13);
        assert("Container"@.len() == 9);
        assert("Container-TEU"@[10] != "Container-FEU"@[10]);
    }
}

impl DeepView for PackagingOrTrEqType {
    type V = PackagingOrTrEqType;

    open spec fn deep_view(&self) -> PackagingOrTrEqType {
        *self
    }
}

impl Wire for PackagingOrTrEqType {
    open spec fn to_wire(v: PackagingOrTrEqType) -> JsonModel {
        JsonModel::Text(v.wire_name())
    }

    open spec fn from_wire(j: JsonModel) -> Result<PackagingOrTrEqType, DecodeError> {
        match j {
            JsonModel::Text(s) => match PackagingOrTrEqType::from_wire_name(s) {
                Some(v) => Ok(v),
                None => Err(DecodeError::UnknownName),
            },
            _ => Err(DecodeError::WrongType),
        }
    }

    open spec fn faithful(v: PackagingOrTrEqType) -> bool {
        true
    }

    proof fn lemma_round_trip(v: PackagingOrTrEqType) {
        PackagingOrTrEqType::lemma_wire_name_round_trip(v);
    }

    fn to_json(&self) -> (r: Json) {
        Json::Text(self.as_str().to_owned())
    }

    fn from_json(j: &Json) -> (r: Result<PackagingOrTrEqType, DecodeError>) {
        match j {
            Json::Text(s) => match PackagingOrTrEqType::parse(s.as_str()) {
                Some(v) => Ok(v),
                None => Err(DecodeError::UnknownName),
            },
            _ => Err(DecodeError::WrongType),
        }
    }
}

/// The kind of an energy carrier.
#[derive(Clone, Copy, Debug, PartialEq, Eq, Hash, Structural)]
pub enum EnergyCarrierType {
    Diesel,
    Hvo,
    Petrol,
    Cng,
    Lng,
    Lpg,
    Hfo,
    Mgo,
    AviationFuel,
    Hydrogen,
    Methanol,
    Electric,
}

impl EnergyCarrierType {
    /// The name of the value on the wire.
    pub open spec fn wire_name(self) -> Seq<char> {
        match self {
            EnergyCarrierType::Diesel => "Diesel"@,
            EnergyCarrierType::Hvo => "HVO"@,
            EnergyCarrierType::Petrol => "Petrol"@,
            EnergyCarrierType::Cng => "CNG"@,
            EnergyCarrierType::Lng => "LNG"@,
            EnergyCarrierType::Lpg => "LPG"@,
            EnergyCarrierType::Hfo => "HFO"@,
            EnergyCarrierType::Mgo => "MGO"@,
            EnergyCarrierType::AviationFuel => "Aviation fuel"@,
            EnergyCarrierType::Hydrogen => "Hydrogen"@,
            EnergyCarrierType::Methanol => "Methanol"@,
            EnergyCarrierType::Electric => "Electric"@,
        }
    }

    /// The value that a name on the wire stands for, if any.
    pub open spec fn from_wire_name(s: Seq<char>) -> Option<Self> {
        if s == "Diesel"@ {
            Some(EnergyCarrierType::Diesel)
        } else if s == "HVO"@ {
            Some(EnergyCarrierType::Hvo)
        } else if s == "Petrol"@ {
            Some(EnergyCarrierType::Petrol)
        } else if s == "CNG"@ {
            Some(EnergyCarrierType::Cng)
        } else if s == "LNG"@ {
            Some(EnergyCarrierType::Lng)
        } else if s == "LPG"@ {
            Some(EnergyCarrierType::Lpg)
        } else if s == "HFO"@ {
            Some(EnergyCarrierType::Hfo)
        } else if s == "MGO"@ {
            Some(EnergyCarrierType::Mgo)
        } else if s == "Aviation fuel"@ {
            Some(EnergyCarrierType::AviationFuel)
        } else if s == "Hydrogen"@ {
            Some(EnergyCarrierType::Hydrogen)
        } else if s == "Methanol"@ {
            Some(EnergyCarrierType::Methanol)
        } else if s == "Electric"@ {
            Some(EnergyCarrierType::Electric)
        } else {
            None
        }
    }

    pub fn as_str(&self) -> (r: &'static str)
        ensures
            r@ == self.wire_name(),
    {
        match self {
            EnergyCarrierType::Diesel => "Diesel",
            EnergyCarrierType::Hvo => "HVO",
            EnergyCarrierType::Petrol => "Petrol",
            EnergyCarrierType::Cng => "CNG",
            EnergyCarrierType::Lng => "LNG",
            EnergyCarrierType::Lpg => "LPG",
            EnergyCarrierType::Hfo => "HFO",
            EnergyCarrierType::Mgo => "MGO",
            EnergyCarrierType::AviationFuel => "Aviation fuel",
            EnergyCarrierType::Hydrogen => "Hydrogen",
            EnergyCarrierType::Methanol => "Methanol",
            EnergyCarrierType::Electric => "Electric",
        }
    }

    /// Reads a value from its name on the wire; `None` for any other text.
    pub fn parse(s: &str) -> (r: Option<Self>)
        ensures
            r == Self::from_wire_name(s@),
            r matches Some(v) ==> v.wire_name() == s@,
    {
        if s.eq("Diesel") {
            Some(EnergyCarrierType::Diesel)
        } else if s.eq("HVO") {
            Some(EnergyCarrierType::Hvo)
        } else if s.eq("Petrol") {
            Some(EnergyCarrierType::Petrol)
        } else if s.eq("CNG") {
            Some(EnergyCarrierType::Cng)
        } else if s.eq("LNG") {
            Some(EnergyCarrierType::Lng)
        } else if s.eq("LPG") {
            Some(EnergyCarrierType::Lpg)
        } else if s.eq("HFO") {
            Some(EnergyCarrierType::Hfo)
        } else if s.eq("MGO") {
            Some(EnergyCarrierType::Mgo)
        } else if s.eq("Aviation fuel") {
            Some(EnergyCarrierType::AviationFuel)
        } else if s.eq("Hydrogen") {
            Some(EnergyCarrierType::Hydrogen)
        } else if s.eq("Methanol") {
            Some(EnergyCarrierType::Methanol)
        } else if s.eq("Electric") {
            Some(EnergyCarrierType::Electric)
        } else {
            None
        }
    }

    /// Reading the name of a value gives the value back: no two values
    /// share a name.
    pub proof fn lemma_wire_name_round_trip(v: Self)
        ensures
            Self::from_wire_name(v.wire_name()) == Some(v),
    {
        reveal_strlit("Diesel");
        reveal_strlit("HVO");
        reveal_strlit("Petrol");
        reveal_strlit("CNG");
        reveal_strlit("LNG");
        reveal_strlit("LPG");
        reveal_strlit("HFO");
        reveal_strlit("MGO");
        reveal_strlit("Aviation fuel");
        reveal_strlit("Hydrogen");
        reveal_strlit("Methanol");
        reveal_strlit("Electric");
        assert("Diesel"@.len() == 6);
        assert("HVO"@.len() == 3);
        assert("Petrol"@.len() == 6);
        assert("CNG"@.len() == 3);
        assert("LNG"@.len() == 3);
        assert("LPG"@.len() == 3);
        assert("HFO"@.len() == 3);
        assert("MGO"@.len() == 3);
        assert("Aviation fuel"@.len() == 13);
        assert("Hydrogen"@.len() == 8);
        assert("Methanol"@.len() == 8);
        assert("Electric"@.len() == 8);
        assert("HVO"@[0] != "CNG"@[0]);
        assert("HVO"@[0] != "LNG"@[0]);
        assert("HVO"@[0] != "LPG"@[0]);
        assert("HVO"@[1] != "HFO"@[1]);
        assert("HVO"@[0] != "MGO"@[0]);
        assert("CNG"@[0] != "LNG"@[0]);
        assert("CNG"@[0] != "LPG"@[0]);
        assert("CNG"@[0] != "HFO"@[0]);
        assert("CNG"@[0] != "MGO"@[0]);
        assert("LNG"@[1] != "LPG"@[1]);
        assert("LNG"@[0] != "HFO"@[0]);
        assert("LNG"@[0] != "MGO"@[0]);
        assert("LPG"@[0] != "HFO"@[0]);
        assert("LPG"@[0] != "MGO"@[0]);
        assert("HFO"@[0] != "MGO"@[0]);
        assert("Diesel"@[0] != "Petrol"@[0]);
        assert("Hydrogen"@[0] != "Methanol"@[0]);
        assert("Hydrogen"@[0] != "Electric"@[0]);
        assert("Methanol"@[0] != "Electric"@[0]);
    }
}

impl DeepView for EnergyCarrierType {
    type V = EnergyCarrierType;

    open spec fn deep_view(&self) -> EnergyCarrierType {
        *self
    }
}

impl Wire for EnergyCarrierType {
    open spec fn to_wire(v: EnergyCarrierType) -> JsonModel {
        JsonModel::Text(v.wire_name())
    }

    open spec fn from_wire(j: JsonModel) -> Result<EnergyCarrierType, DecodeError> {
        match j {
            JsonModel::Text(s) => match EnergyCarrierType::from_wire_name(s) {
                Some(v) => Ok(v),
                None => Err(DecodeError::UnknownName),
            },
            _ => Err(DecodeError::WrongType),
        }
    }

    open spec fn faithful(v: EnergyCarrierType) -> bool {
        true
    }

    proof fn lemma_round_trip(v: EnergyCarrierType) {
        EnergyCarrierType::lemma_wire_name_round_trip(v);
    }

    fn to_json(&self) -> (r: Json) {
        Json::Text(self.as_str().to_owned())
    }

    fn from_json(j: &Json) -> (r: Result<EnergyCarrierType, DecodeError>) {
        match j {
            Json::Text(s) => match EnergyCarrierType::parse(s.as_str()) {
                Some(v) => Ok(v),
                None => Err(DecodeError::UnknownName),
            },
            _ => Err(DecodeError::WrongType),
        }
    }
}

/// The unit in which an energy consumption is given.
#[derive(Clone, Copy, Debug, PartialEq, Eq, Hash, Structural)]
pub enum EnergyConsumptionUnit {
    /// Litres.
    L,
    /// Kilograms.
    Kg,
    /// Kilowatt hours.
    KWh,
    /// Megajoules.
    MJ,
}

impl EnergyConsumptionUnit {
    /// The name of the value on the wire.
    pub open spec fn wire_name(self) -> Seq<char> {
        match self {
            EnergyConsumptionUnit::L => "l"@,
            EnergyConsumptionUnit::Kg => "kg"@,
            EnergyConsumptionUnit::KWh => "kWh"@,
            EnergyConsumptionUnit::MJ => "MJ"@,
        }
    }

    /// The value that a name on the wire stands for, if any.
    pub open spec fn from_wire_name(s: Seq<char>) -> Option<Self> {
        if s == "l"@ {
            Some(EnergyConsumptionUnit::L)
        } else if s == "kg"@ {
            Some(EnergyConsumptionUnit::Kg)
        } else if s == "kWh"@ {
            Some(EnergyConsumptionUnit::KWh)
        } else if s == "MJ"@ {
            Some(EnergyConsumptionUnit::MJ)
        } else {
            None
        }
    }

    pub fn as_str(&self) -> (r: &'static str)
        ensures
            r@ == self.wire_name(),
    {
        match self {
            EnergyConsumptionUnit::L => "l",
            EnergyConsumptionUnit::Kg => "kg",
            EnergyConsumptionUnit::KWh => "kWh",
            EnergyConsumptionUnit::MJ => "MJ",
        }
    }

    /// Reads a value from its name on the wire; `None` for any other text.
    pub fn parse(s: &str) -> (r: Option<Self>)
        ensures
            r == Self::from_wire_name(s@),
            r matches Some(v) ==> v.wire_name() == s@,
    {
        if s.eq("l") {
            Some(EnergyConsumptionUnit::L)
        } else if s.eq("kg") {
            Some(EnergyConsumptionUnit::Kg)
        } else if s.eq("kWh") {
            Some(EnergyConsumptionUnit::KWh)
        } else if s.eq("MJ") {
            Some(EnergyConsumptionUnit::MJ)
        } else {
            None
        }
    }

    /// Reading the name of a value gives the value back: no two values
    /// share a name.
    pub proof fn lemma_wire_name_round_trip(v: Self)
        ensures
            Self::from_wire_name(v.wire_name()) == Some(v),
    {
        reveal_strlit("l");
        reveal_strlit("kg");
        reveal_strlit("kWh");
        reveal_strlit("MJ");
        assert("l"@.len() == 1);
        assert("kg"@.len() == 2);
        assert("kWh"@.len() == 3);
        assert("MJ"@.len() == 2);
        assert("kg"@[0] != "MJ"@[0]);
    }
}

impl DeepView for EnergyConsumptionUnit {
    type V = EnergyConsumptionUnit;

    open spec fn deep_view(&self) -> EnergyConsumptionUnit {
        *self
    }
}

impl Wire for EnergyConsumptionUnit {
    open spec fn to_wire(v: EnergyConsumptionUnit) -> JsonModel {
        JsonModel::Text(v.wire_name())
    }

    open spec fn from_wire(j: JsonModel) -> Result<EnergyConsumptionUnit, DecodeError> {
        match j {
            JsonModel::Text(s) => match EnergyConsumptionUnit::from_wire_name(s) {
                Some(v) => Ok(v),
                None => Err(DecodeError::UnknownName),
            },
            _ => Err(DecodeError::WrongType),
        }
    }

    open spec fn faithful(v: EnergyConsumptionUnit) -> bool {
        true
    }

    proof fn lemma_round_trip(v: EnergyConsumptionUnit) {
        EnergyConsumptionUnit::lemma_wire_name_round_trip(v);
    }

    fn to_json(&self) -> (r: Json) {
        Json::Text(self.as_str().to_owned())
    }

    fn from_json(j: &Json) -> (r: Result<EnergyConsumptionUnit, DecodeError>) {
        match j {
            Json::Text(s) => match EnergyConsumptionUnit::parse(s.as_str()) {
                Some(v) => Ok(v),
                None => Err(DecodeError::UnknownName),
            },
            _ => Err(DecodeError::WrongType),
        }
    }
}

/// The kind of a feedstock.
#[derive(Clone, Copy, Debug, PartialEq, Eq, Hash, Structural)]
pub enum FeedstockType {
    Fossil,
    NaturalGas,
    Grid,
    RenewableElectricity,
    CookingOil,
}

impl FeedstockType {
    /// The name of the value on the wire.
    pub open spec fn wire_name(self) -> Seq<char> {
        match self {
            FeedstockType::Fossil => "Fossil"@,
            FeedstockType::NaturalGas => "Natural gas"@,
            FeedstockType::Grid => "Grid"@,
            FeedstockType::RenewableElectricity => "Renewable electricity"@,
            FeedstockType::CookingOil => "Cooking oil"@,
        }
    }

    /// The value that a name on the wire stands for, if any.
    pub open spec fn from_wire_name(s: Seq<char>) -> Option<Self> {
        if s == "Fossil"@ {
            Some(FeedstockType::Fossil)
        } else if s == "Natural gas"@ {
            Some(FeedstockType::NaturalGas)
        } else if s == "Grid"@ {
            Some(FeedstockType::Grid)
        } else if s == "Renewable electricity"@ {
            Some(FeedstockType::RenewableElectricity)
        } else if s == "Cooking oil"@ {
            Some(FeedstockType::CookingOil)
        } else {
            None
        }
    }

    pub fn as_str(&self) -> (r: &'static str)
        ensures
            r@ == self.wire_name(),
    {
        match self {
            FeedstockType::Fossil => "Fossil",
            FeedstockType::NaturalGas => "Natural gas",
            FeedstockType::Grid => "Grid",
            FeedstockType::RenewableElectricity => "Renewable electricity",
            FeedstockType::CookingOil => "Cooking oil",
        }
    }

    /// Reads a value from its name on the wire; `None` for any other text.
    pub fn parse(s: &str) -> (r: Option<Self>)
        ensures
            r == Self::from_wire_name(s@),
            r matches Some(v) ==> v.wire_name() == s@,
    {
        if s.eq("Fossil") {
            Some(FeedstockType::Fossil)
        } else if s.eq("Natural gas") {
            Some(FeedstockType::NaturalGas)
        } else if s.eq("Grid") {
            Some(FeedstockType::Grid)
        } else if s.eq("Renewable electricity") {
            Some(FeedstockType::RenewableElectricity)
        } else if s.eq("Cooking oil") {
            Some(FeedstockType::CookingOil)
        } else {
            None
        }
    }

    /// Reading the name of a value gives the value back: no two values
    /// share a name.
    pub proof fn lemma_wire_name_round_trip(v: Self)
        ensures
            Self::from_wire_name(v.wire_name()) == Some(v),
    {
        reveal_strlit("Fossil");
        reveal_strlit("Natural gas");
        reveal_strlit("Grid");
        reveal_strlit("Renewable electricity");
        reveal_strlit("Cooking oil");
        assert("Fossil"@.len() == 6);
        assert("Natural gas"@.len() == 11);
        assert("Grid"@.len() == 4);
        assert("Renewable electricity"@.len() == 21);
        assert("Cooking oil"@.len() == 11);
        assert("Natural gas"@[0] != "Cooking oil"@[0]);
    }
}

impl DeepView for FeedstockType {
    type V = FeedstockType;

    open spec fn deep_view(&self) -> FeedstockType {
        *self
    }
}

impl Wire for FeedstockType {
    open spec fn to_wire(v: FeedstockType) -> JsonModel {
        JsonModel::Text(v.wire_name())
    }

    open spec fn from_wire(j: JsonModel) -> Result<FeedstockType, DecodeError> {
        match j {
            JsonModel::Text(s) => match FeedstockType::from_wire_name(s) {
                Some(v) => Ok(v),
                None => Err(DecodeError::UnknownName),
            },
            _ => Err(DecodeError::WrongType),
        }
    }

    open spec fn faithful(v: FeedstockType) -> bool {
        true
    }

    proof fn lemma_round_trip(v: FeedstockType) {
        FeedstockType::lemma_wire_name_round_trip(v);
    }

    fn to_json(&self) -> (r: Json) {
        Json::Text(self.as_str().to_owned())
    }

    fn from_json(j: &Json) -> (r: Result<FeedstockType, DecodeError>) {
        match j {
            Json::Text(s) => match FeedstockType::parse(s.as_str()) {
                Some(v) => Ok(v),
                None => Err(DecodeError::UnknownName),
            },
            _ => Err(DecodeError::WrongType),
        }
    }
}

} // verus!
