//! Distances by the way they were measured.
//!
//! A distance is given as the actual distance travelled, as the great circle
//! distance or as the shortest feasible distance. On the wire it is an object
//! with the keys `actual`, `gcd` and `sfd`. The first of them that is present,
//! in this order, is the distance of the record; what stands under a later
//! key is kept beside it.

use vstd::prelude::*;
use crate::decimal::Decimal;
use crate::error::{first_of, Field, Reason, ValidationError};
use crate::json::{
    faithful_optional, optional, or_error, put_optional, read_optional, with_optional, DecodeError,
    Json, JsonModel, Wire,
};
use crate::numbers::WrappedDecimal;
use crate::validate::{optional_violation, validate_optional, Validate};

verus! {

/// A distance together with the basis on which it was measured.
#[allow(inconsistent_fields)]
#[derive(Clone, Copy, Debug, PartialEq, Eq, Hash, Structural)]
pub enum GlecDistance {
    /// The actual distance, with the other two where they are known too.
    Actual { actual: WrappedDecimal, gcd: Option<WrappedDecimal>, sfd: Option<WrappedDecimal> },
    /// The great circle distance.
    Gcd { actual: Option<WrappedDecimal>, gcd: WrappedDecimal, sfd: Option<WrappedDecimal> },
    /// The shortest feasible distance.
    Sfd { actual: Option<WrappedDecimal>, gcd: Option<WrappedDecimal>, sfd: WrappedDecimal },
}

/// The three keys of a distance as they stand on the wire.
#[derive(Clone, Copy, Debug, PartialEq, Eq, Hash, Structural)]
pub struct DistanceKeys {
    pub actual: Option<WrappedDecimal>,
    pub gcd: Option<WrappedDecimal>,
    pub sfd: Option<WrappedDecimal>,
}

impl DistanceKeys {
    /// The distance that the keys stand for: that of the first key present,
    /// or an error where none is.
    pub open spec fn decode(self) -> Result<GlecDistance, ValidationError> {
        if let Some(actual) = self.actual {
            Ok(GlecDistance::Actual { actual, gcd: self.gcd, sfd: self.sfd })
        } else if let Some(gcd) = self.gcd {
            Ok(GlecDistance::Gcd { actual: None, gcd, sfd: self.sfd })
        } else if let Some(sfd) = self.sfd {
            Ok(GlecDistance::Sfd { actual: None, gcd: None, sfd })
        } else {
            Err(ValidationError { field: Field::GlecDistance, reason: Reason::Missing })
        }
    }
}

impl GlecDistance {
    /// The distance of the record, whatever its basis.
    pub open spec fn distance(self) -> Decimal {
        match self {
            GlecDistance::Actual { actual, .. } => actual.0,
            GlecDistance::Gcd { gcd, .. } => gcd.0,
            GlecDistance::Sfd { sfd, .. } => sfd.0,
        }
    }

    /// No key that comes before the basis of the distance is filled.
    pub open spec fn canonical(self) -> bool {
        match self {
            GlecDistance::Actual { .. } => true,
            GlecDistance::Gcd { actual, .. } => actual is None,
            GlecDistance::Sfd { actual, gcd, .. } => actual is None && gcd is None,
        }
    }

    pub open spec fn wf(self) -> bool {
        self.violation() is None
    }

    /// The keys that stand for the distance.
    pub open spec fn encode_spec(self) -> DistanceKeys {
        match self {
            GlecDistance::Actual { actual, gcd, sfd } => DistanceKeys {
                actual: Some(actual),
                gcd,
                sfd,
            },
            GlecDistance::Gcd { actual, gcd, sfd } => DistanceKeys { actual, gcd: Some(gcd), sfd },
            GlecDistance::Sfd { actual, gcd, sfd } => DistanceKeys { actual, gcd, sfd: Some(sfd) },
        }
    }

    /// A distance of which only the actual distance is known.
    pub fn new_actual(distance: WrappedDecimal) -> (r: GlecDistance)
        ensures
            r == (GlecDistance::Actual { actual: distance, gcd: None, sfd: None }),
    {
        GlecDistance::Actual { actual: distance, gcd: None, sfd: None }
    }

    /// A distance of which only the great circle distance is known.
    pub fn new_gcd(distance: WrappedDecimal) -> (r: GlecDistance)
        ensures
            r == (GlecDistance::Gcd { actual: None, gcd: distance, sfd: None }),
    {
        GlecDistance::Gcd { actual: None, gcd: distance, sfd: None }
    }

    /// A distance of which only the shortest feasible distance is known.
    pub fn new_sfd(distance: WrappedDecimal) -> (r: GlecDistance)
        ensures
            r == (GlecDistance::Sfd { actual: None, gcd: None, sfd: distance }),
    {
        GlecDistance::Sfd { actual: None, gcd: None, sfd: distance }
    }

    /// The distance of the record, whatever its basis.
    pub fn get_distance(&self) -> (r: Decimal)
        ensures
            r == self.distance(),
    {
        match self {
            GlecDistance::Actual { actual, .. } => actual.0,
            GlecDistance::Gcd { gcd, .. } => gcd.0,
            GlecDistance::Sfd { sfd, .. } => sfd.0,
        }
    }

    /// The keys that stand for the distance on the wire.
    pub fn encode(&self) -> (r: DistanceKeys)
        ensures
            r == self.encode_spec(),
    {
        match self {
            GlecDistance::Actual { actual, gcd, sfd } => DistanceKeys {
                actual: Some(*actual),
                gcd: *gcd,
                sfd: *sfd,
            },
            GlecDistance::Gcd { actual, gcd, sfd } => DistanceKeys {
                actual: *actual,
                gcd: Some(*gcd),
                sfd: *sfd,
            },
            GlecDistance::Sfd { actual, gcd, sfd } => DistanceKeys {
                actual: *actual,
                gcd: *gcd,
                sfd: Some(*sfd),
            },
        }
    }

    /// Reads the distance from the keys found on the wire.
    pub fn decode(keys: DistanceKeys) -> (r: Result<GlecDistance, ValidationError>)
        ensures
            r == keys.decode(),
            r matches Ok(d) ==> d.canonical(),
    {
        if let Some(actual) = keys.actual {
            Ok(GlecDistance::Actual { actual, gcd: keys.gcd, sfd: keys.sfd })
        } else if let Some(gcd) = keys.gcd {
            Ok(GlecDistance::Gcd { actual: None, gcd, sfd: keys.sfd })
        } else if let Some(sfd) = keys.sfd {
            Ok(GlecDistance::Sfd { actual: None, gcd: None, sfd })
        } else {
            Err(ValidationError::new(Field::GlecDistance, Reason::Missing))
        }
    }
}

impl Validate for GlecDistance {
    /// The first malformed decimal or, where all are well formed, the
    /// conflict of a key filled before the basis of the distance.
    open spec fn violation(&self) -> Option<ValidationError> {
        let keys = self.encode_spec();
        first_of(
            optional_violation(keys.actual),
            first_of(
                optional_violation(keys.gcd),
                first_of(
                    optional_violation(keys.sfd),
                    if self.canonical() {
                        None
                    } else {
                        Some(
                            ValidationError {
                                field: Field::GlecDistance,
                                reason: Reason::Conflict,
                            },
                        )
                    },
                ),
            ),
        )
    }

    fn validate(&self) -> (r: Result<(), ValidationError>)
        ensures
            r is Ok <==> self.wf(),
    {
        let keys = self.encode();
        validate_optional(&keys.actual)?;
        validate_optional(&keys.gcd)?;
        validate_optional(&keys.sfd)?;
        let canonical = match self {
            GlecDistance::Actual { .. } => true,
            GlecDistance::Gcd { actual, .. } => actual.is_none(),
            GlecDistance::Sfd { actual, gcd, .. } => actual.is_none() && gcd.is_none(),
        };
        if canonical {
            Ok(())
        } else {
            Err(ValidationError::new(Field::GlecDistance, Reason::Conflict))
        }
    }
}

/// Decoding what a canonical distance encodes to gives the distance back, and
/// the distance read from the keys is that of the first key present.
pub proof fn lemma_distance_round_trip(d: GlecDistance)
    requires
        d.canonical(),
    ensures
        d.encode_spec().decode() == Ok::<GlecDistance, ValidationError>(d),
{
}

/// Whatever keys are decoded, encoding the result gives the same keys.
pub proof fn lemma_distance_keys_round_trip(keys: DistanceKeys)
    requires
        keys.decode() is Ok,
    ensures
        keys.decode()->Ok_0.encode_spec() == keys,
        keys.decode()->Ok_0.canonical(),
{
}

impl DeepView for GlecDistance {
    type V = GlecDistance;

    open spec fn deep_view(&self) -> GlecDistance {
        *self
    }
}

/// The names of the three keys of a distance differ from one another.
pub proof fn lemma_distance_keys()
    ensures
        "actual"@ != "gcd"@,
        "actual"@ != "sfd"@,
        "gcd"@ != "sfd"@,
{
    reveal_strlit("actual");
    reveal_strlit("gcd");
    reveal_strlit("sfd");
    assert("actual"@.len() == 6);
    assert("gcd"@.len() == 3);
    assert("sfd"@.len() == 3);
    assert("gcd"@[0] != "sfd"@[0]);
}

impl GlecDistance {
    /// The first error among the three keys of an object.
    pub open spec fn member_error(m: Map<Seq<char>, JsonModel>) -> Option<DecodeError> {
        let e = None;
        let e = or_error(e, optional::<WrappedDecimal>(m, "actual"@));
        let e = or_error(e, optional::<WrappedDecimal>(m, "gcd"@));
        let e = or_error(e, optional::<WrappedDecimal>(m, "sfd"@));
        e
    }

    /// The three keys of an object, where none of them is in error.
    pub open spec fn keys_of_members(m: Map<Seq<char>, JsonModel>) -> DistanceKeys {
        DistanceKeys {
            actual: optional::<WrappedDecimal>(m, "actual"@)->Ok_0,
            gcd: optional::<WrappedDecimal>(m, "gcd"@)->Ok_0,
            sfd: optional::<WrappedDecimal>(m, "sfd"@)->Ok_0,
        }
    }
}

impl Wire for GlecDistance {
    open spec fn to_wire(v: GlecDistance) -> JsonModel {
        let keys = v.encode_spec();
        let m = Map::<Seq<char>, JsonModel>::empty();
        let m = with_optional::<WrappedDecimal>(m, "actual"@, keys.actual);
        let m = with_optional::<WrappedDecimal>(m, "gcd"@, keys.gcd);
        let m = with_optional::<WrappedDecimal>(m, "sfd"@, keys.sfd);
        JsonModel::Object(m)
    }

    open spec fn from_wire(j: JsonModel) -> Result<GlecDistance, DecodeError> {
        match j {
            JsonModel::Object(m) => match Self::member_error(m) {
                Some(e) => Err(e),
                None => match Self::keys_of_members(m).decode() {
                    Ok(d) => Ok(d),
                    Err(e) => Err(DecodeError::Invalid(e)),
                },
            },
            _ => Err(DecodeError::WrongType),
        }
    }

    /// No key before the basis of the distance is filled, and each decimal
    /// is read back from its text.
    open spec fn faithful(v: GlecDistance) -> bool {
        &&& v.canonical()
        &&& faithful_optional::<WrappedDecimal>(v.encode_spec().actual)
        &&& faithful_optional::<WrappedDecimal>(v.encode_spec().gcd)
        &&& faithful_optional::<WrappedDecimal>(v.encode_spec().sfd)
    }

    proof fn lemma_round_trip(v: GlecDistance) {
        lemma_distance_keys();
    }

    fn to_json(&self) -> (r: Json) {
        let keys = self.encode();
        let mut entries: Vec<(String, Json)> = Vec::new();
        put_optional(&mut entries, "actual", &keys.actual);
        put_optional(&mut entries, "gcd", &keys.gcd);
        put_optional(&mut entries, "sfd", &keys.sfd);
        Json::Object(entries)
    }

    fn from_json(j: &Json) -> (r: Result<GlecDistance, DecodeError>) {
        let entries = match j {
            Json::Object(entries) => entries,
            _ => {
                return Err(DecodeError::WrongType);
            },
        };
        let actual = read_optional::<WrappedDecimal>(entries, "actual")?;
        let gcd = read_optional::<WrappedDecimal>(entries, "gcd")?;
        let sfd = read_optional::<WrappedDecimal>(entries, "sfd")?;
        match GlecDistance::decode(DistanceKeys { actual, gcd, sfd }) {
            Ok(d) => Ok(d),
            Err(e) => Err(DecodeError::Invalid(e)),
        }
    }
}

} // verus!
