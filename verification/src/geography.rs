//! The geographic scope of a footprint and its flattened form on the wire.
//!
//! On the wire a scope is not an object of its own. Its three keys,
//! `geographyRegionOrSubregion`, `geographyCountry` and
//! `geographyCountrySubdivision`, stand beside the other members of the carbon
//! footprint, at most one of them is present, and a footprint without any of
//! them has global scope.

use vstd::prelude::*;
use vstd::string::*;
use crate::error::{Field, Reason, ValidationError};
use crate::json::{
    decoded, members, optional, put_optional, read_optional, with_optional, DecodeError, Json,
    JsonModel,
};
use crate::pact_vocabulary::UNRegionOrSubregion;
use crate::scalars::{ISO3166CC, NonEmptyString};
use crate::text::all_upper;
use crate::validate::Validate;

verus! {

/// Where a footprint applies.
#[derive(Clone, Debug, PartialEq, Eq, Hash)]
pub enum GeographicScope {
    Global,
    Regional(UNRegionOrSubregion),
    Country(ISO3166CC),
    Subdivision(NonEmptyString),
}

/// A geographic scope as a mathematical value.
pub enum GeographicScopeView {
    Global,
    Regional(UNRegionOrSubregion),
    Country(Seq<char>),
    Subdivision(Seq<char>),
}

/// The three geographic keys as they stand in a carbon footprint on the wire,
/// each with its text where it is present.
#[derive(Clone, Debug, PartialEq, Eq, Hash)]
pub struct GeographicKeys {
    pub geography_region_or_subregion: Option<String>,
    pub geography_country: Option<String>,
    pub geography_country_subdivision: Option<String>,
}

/// The three geographic keys as a mathematical value.
pub struct GeographicKeysView {
    pub region_or_subregion: Option<Seq<char>>,
    pub country: Option<Seq<char>>,
    pub country_subdivision: Option<Seq<char>>,
}

/// The characters of an optional string.
pub open spec fn text_of(o: Option<String>) -> Option<Seq<char>> {
    match o {
        Some(s) => Some(s@),
        None => None,
    }
}

impl View for GeographicScope {
    type V = GeographicScopeView;

    open spec fn view(&self) -> GeographicScopeView {
        match self {
            GeographicScope::Global => GeographicScopeView::Global,
            GeographicScope::Regional(r) => GeographicScopeView::Regional(*r),
            GeographicScope::Country(c) => GeographicScopeView::Country(c.0@),
            GeographicScope::Subdivision(s) => GeographicScopeView::Subdivision(s.0@),
        }
    }
}

impl View for GeographicKeys {
    type V = GeographicKeysView;

    open spec fn view(&self) -> GeographicKeysView {
        GeographicKeysView {
            region_or_subregion: text_of(self.geography_region_or_subregion),
            country: text_of(self.geography_country),
            country_subdivision: text_of(self.geography_country_subdivision),
        }
    }
}

impl GeographicScopeView {
    /// A country is two ASCII capital letters and a subdivision is not empty.
    pub open spec fn wf(self) -> bool {
        match self {
            GeographicScopeView::Global => true,
            GeographicScopeView::Regional(_) => true,
            GeographicScopeView::Country(c) => c.len() == 2 && all_upper(c),
            GeographicScopeView::Subdivision(s) => s.len() >= 1,
        }
    }

    /// The keys that stand for the scope: none for the global scope, else
    /// the one key of its kind.
    pub open spec fn encode(self) -> GeographicKeysView {
        match self {
            GeographicScopeView::Global => GeographicKeysView {
                region_or_subregion: None,
                country: None,
                country_subdivision: None,
            },
            GeographicScopeView::Regional(r) => GeographicKeysView {
                region_or_subregion: Some(r.wire_name()),
                country: None,
                country_subdivision: None,
            },
            GeographicScopeView::Country(c) => GeographicKeysView {
                region_or_subregion: None,
                country: Some(c),
                country_subdivision: None,
            },
            GeographicScopeView::Subdivision(s) => GeographicKeysView {
                region_or_subregion: None,
                country: None,
                country_subdivision: Some(s),
            },
        }
    }
}

impl GeographicKeysView {
    /// How many of the three keys are present.
    pub open spec fn present(self) -> nat {
        let a: nat = if self.region_or_subregion is Some { 1 } else { 0 };
        let b: nat = if self.country is Some { 1 } else { 0 };
        let c: nat = if self.country_subdivision is Some { 1 } else { 0 };
        a + b + c
    }

    /// The scope that the keys stand for. Two or more keys are a conflict; a
    /// single key must hold a value of its type; no key is the global scope.
    pub open spec fn decode(self) -> Result<GeographicScopeView, ValidationError> {
        if self.present() >= 2 {
            Err(ValidationError { field: Field::GeographicScope, reason: Reason::Conflict })
        } else if let Some(r) = self.region_or_subregion {
            match UNRegionOrSubregion::from_wire_name(r) {
                Some(region) => Ok(GeographicScopeView::Regional(region)),
                None => Err(
                    ValidationError { field: Field::GeographicScope, reason: Reason::Malformed },
                ),
            }
        } else if let Some(c) = self.country {
            if c.len() != 2 {
                Err(ValidationError { field: Field::Iso3166Cc, reason: Reason::WrongLength })
            } else if !all_upper(c) {
                Err(ValidationError { field: Field::Iso3166Cc, reason: Reason::Malformed })
            } else {
                Ok(GeographicScopeView::Country(c))
            }
        } else if let Some(s) = self.country_subdivision {
            if s.len() == 0 {
                Err(ValidationError { field: Field::NonEmptyString, reason: Reason::Empty })
            } else {
                Ok(GeographicScopeView::Subdivision(s))
            }
        } else {
            Ok(GeographicScopeView::Global)
        }
    }
}

/// The view of the outcome of decoding.
pub open spec fn scope_outcome(r: Result<GeographicScope, ValidationError>) -> Result<
    GeographicScopeView,
    ValidationError,
> {
    match r {
        Ok(g) => Ok(g@),
        Err(e) => Err(e),
    }
}

impl GeographicScope {
    pub open spec fn wf(&self) -> bool {
        self@.wf()
    }

    /// The country of the scope, where the scope is a country.
    pub fn geography_country(&self) -> (r: Option<&ISO3166CC>)
        ensures
            match *self {
                GeographicScope::Country(c) => r == Some(&c),
                _ => r is None,
            },
    {
        match self {
            GeographicScope::Country(geography_country) => Some(geography_country),
            _ => None,
        }
    }

    /// The keys that stand for the scope on the wire.
    pub fn encode(&self) -> (r: GeographicKeys)
        ensures
            r@ == self@.encode(),
    {
        match self {
            GeographicScope::Global => GeographicKeys {
                geography_region_or_subregion: None,
                geography_country: None,
                geography_country_subdivision: None,
            },
            GeographicScope::Regional(region) => GeographicKeys {
                geography_region_or_subregion: Some(region.as_str().to_owned()),
                geography_country: None,
                geography_country_subdivision: None,
            },
            GeographicScope::Country(c) => GeographicKeys {
                geography_region_or_subregion: None,
                geography_country: Some(c.0.clone()),
                geography_country_subdivision: None,
            },
            GeographicScope::Subdivision(s) => GeographicKeys {
                geography_region_or_subregion: None,
                geography_country: None,
                geography_country_subdivision: Some(s.0.clone()),
            },
        }
    }

    /// Reads the scope from the keys found on the wire: an error where two or
    /// more keys are present or the one present key holds no value of its
    /// type, the global scope where none is present.
    pub fn decode(keys: GeographicKeys) -> (r: Result<GeographicScope, ValidationError>)
        ensures
            scope_outcome(r) == keys@.decode(),
            r matches Ok(g) ==> g.wf(),
    {
        let GeographicKeys {
            geography_region_or_subregion,
            geography_country,
            geography_country_subdivision,
        } = keys;
        let mut present: u8 = 0;
        if geography_region_or_subregion.is_some() {
            present = present + 1;
        }
        if geography_country.is_some() {
            present = present + 1;
        }
        if geography_country_subdivision.is_some() {
            present = present + 1;
        }
        if present >= 2 {
            return Err(ValidationError::new(Field::GeographicScope, Reason::Conflict));
        }
        if let Some(name) = geography_region_or_subregion {
            match UNRegionOrSubregion::parse(name.as_str()) {
                Some(region) => Ok(GeographicScope::Regional(region)),
                None => Err(ValidationError::new(Field::GeographicScope, Reason::Malformed)),
            }
        } else if let Some(code) = geography_country {
            match ISO3166CC::new(code) {
                Ok(c) => Ok(GeographicScope::Country(c)),
                Err(e) => Err(e),
            }
        } else if let Some(name) = geography_country_subdivision {
            match NonEmptyString::new(name) {
                Ok(s) => Ok(GeographicScope::Subdivision(s)),
                Err(e) => Err(e),
            }
        } else {
            Ok(GeographicScope::Global)
        }
    }
}

impl Validate for GeographicScope {
    open spec fn violation(&self) -> Option<ValidationError> {
        match self {
            GeographicScope::Global => None,
            GeographicScope::Regional(_) => None,
            GeographicScope::Country(c) => c.violation(),
            GeographicScope::Subdivision(s) => s.violation(),
        }
    }

    fn validate(&self) -> (r: Result<(), ValidationError>)
        ensures
            r is Ok <==> self.wf(),
    {
        match self {
            GeographicScope::Global => Ok(()),
            GeographicScope::Regional(_) => Ok(()),
            GeographicScope::Country(c) => c.validate(),
            GeographicScope::Subdivision(s) => s.validate(),
        }
    }
}

/// Decoding what a valid scope encodes to gives the scope back.
pub proof fn lemma_scope_round_trip(scope: GeographicScopeView)
    requires
        scope.wf(),
    ensures
        scope.encode().decode() == Ok::<GeographicScopeView, ValidationError>(scope),
{
    if let GeographicScopeView::Regional(r) = scope {
        UNRegionOrSubregion::lemma_wire_name_round_trip(r);
    }
}

/// Keys of which two or more are present stand for no scope.
pub proof fn lemma_conflicting_keys_rejected(keys: GeographicKeysView)
    requires
        keys.present() >= 2,
    ensures
        keys.decode() is Err,
{
}

/// What a scope encodes to has at most one key, and none for the global scope.
pub proof fn lemma_encoded_keys(scope: GeographicScopeView)
    ensures
        scope.encode().present() <= 1,
        scope is Global <==> scope.encode().present() == 0,
{
}

impl DeepView for GeographicScope {
    type V = GeographicScopeView;

    open spec fn deep_view(&self) -> GeographicScopeView {
        self@
    }
}

/// An object with the keys of a scope among its members. A footprint without
/// a scope has none of the keys, as one with global scope has.
pub open spec fn with_scope(
    m: Map<Seq<char>, JsonModel>,
    scope: Option<GeographicScopeView>,
) -> Map<Seq<char>, JsonModel> {
    match scope {
        Some(s) => {
            let keys = s.encode();
            let m = with_optional::<String>(
                m,
                "geographyRegionOrSubregion"@,
                keys.region_or_subregion,
            );
            let m = with_optional::<String>(m, "geographyCountry"@, keys.country);
            with_optional::<String>(m, "geographyCountrySubdivision"@, keys.country_subdivision)
        },
        None => m,
    }
}

/// The three geographic keys among the members of an object.
pub open spec fn keys_from_members(m: Map<Seq<char>, JsonModel>) -> Result<
    GeographicKeysView,
    DecodeError,
> {
    match optional::<String>(m, "geographyRegionOrSubregion"@) {
        Err(e) => Err(e),
        Ok(region_or_subregion) => match optional::<String>(m, "geographyCountry"@) {
            Err(e) => Err(e),
            Ok(country) => match optional::<String>(m, "geographyCountrySubdivision"@) {
                Err(e) => Err(e),
                Ok(country_subdivision) => Ok(
                    GeographicKeysView { region_or_subregion, country, country_subdivision },
                ),
            },
        },
    }
}

/// The scope that the geographic keys among the members of an object stand
/// for: none where none of the keys is present.
pub open spec fn scope_from_members(m: Map<Seq<char>, JsonModel>) -> Result<
    Option<GeographicScopeView>,
    DecodeError,
> {
    match keys_from_members(m) {
        Err(e) => Err(e),
        Ok(keys) => match keys.decode() {
            Err(e) => Err(DecodeError::Invalid(e)),
            Ok(GeographicScopeView::Global) => Ok(None),
            Ok(scope) => Ok(Some(scope)),
        },
    }
}

/// The scope is read back from its keys: it is valid, and it is not the
/// global scope, which is written as no scope at all.
pub open spec fn scope_faithful(scope: Option<GeographicScopeView>) -> bool {
    match scope {
        Some(s) => s.wf() && s !is Global,
        None => true,
    }
}

/// The keys of a scope that may be absent: none for an absent scope.
pub open spec fn scope_keys(scope: Option<GeographicScopeView>) -> GeographicKeysView {
    match scope {
        Some(s) => s.encode(),
        None => GeographicKeysView {
            region_or_subregion: None,
            country: None,
            country_subdivision: None,
        },
    }
}

/// A faithful scope is read back from its keys.
pub proof fn lemma_scope_keys_round_trip(scope: Option<GeographicScopeView>)
    requires
        scope_faithful(scope),
    ensures
        match scope_keys(scope).decode() {
            Ok(GeographicScopeView::Global) => scope is None,
            Ok(s) => scope == Some(s),
            Err(_) => false,
        },
{
    if let Some(s) = scope {
        lemma_scope_round_trip(s);
    }
}

/// Adds the keys of a scope to the members of an object.
pub fn put_scope(entries: &mut Vec<(String, Json)>, scope: &Option<GeographicScope>)
    ensures
        members(final(entries)@) == with_scope(members(old(entries)@), scope.deep_view()),
{
    match scope {
        Some(s) => {
            let keys = s.encode();
            put_optional(
                entries,
                "geographyRegionOrSubregion",
                &keys.geography_region_or_subregion,
            );
            put_optional(entries, "geographyCountry", &keys.geography_country);
            put_optional(
                entries,
                "geographyCountrySubdivision",
                &keys.geography_country_subdivision,
            );
        },
        None => {},
    }
}

/// Reads the scope from the geographic keys among the members of an object.
pub fn read_scope(entries: &Vec<(String, Json)>) -> (r: Result<
    Option<GeographicScope>,
    DecodeError,
>)
    ensures
        decoded(r) == scope_from_members(members(entries@)),
{
    let geography_region_or_subregion = read_optional::<String>(
        entries,
        "geographyRegionOrSubregion",
    )?;
    let geography_country = read_optional::<String>(entries, "geographyCountry")?;
    let geography_country_subdivision = read_optional::<String>(
        entries,
        "geographyCountrySubdivision",
    )?;
    let keys = GeographicKeys {
        geography_region_or_subregion,
        geography_country,
        geography_country_subdivision,
    };
    match GeographicScope::decode(keys) {
        Ok(GeographicScope::Global) => Ok(None),
        Ok(scope) => Ok(Some(scope)),
        Err(e) => Err(DecodeError::Invalid(e)),
    }
}

} // verus!
