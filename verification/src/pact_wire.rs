//! The form of the records of the product-footprint model on the wire.

use vstd::prelude::*;
use crate::error::{Field, Reason, ValidationError};
use crate::geography::{
    lemma_scope_keys_round_trip, put_scope, read_scope, scope_faithful, scope_from_members,
    scope_keys, with_scope, GeographicScopeView,
};
use crate::json::{
    faithful_optional, holds, lemma_optional_member, lemma_optional_round_trip,
    lemma_required_member, optional, or_error, put_optional, put_value, read_optional,
    read_required, required, wire_of_optional, with_optional, DecodeError, Json, JsonModel, Wire,
};
use crate::numbers::{
    ExemptedEmissionsPercent, FloatBetween1and3, NegativeDecimal, Percent, PositiveDecimal,
    StrictlyPositiveDecimal, WrappedDecimal,
};
use crate::pact::{
    Assurance, CarbonFootprint, CompanyIdSet, CrossSectoralStandardSet, DataModelExtension,
    DataQualityIndicators, EmissionFactorDS, EmissionFactorDSSet,
    IpccCharacterizationFactorsSource, IpccCharacterizationFactorsSources, NonEmptyPfIdVec,
    NonEmptyStringVec, ProductFootprint, ProductIdSet, ProductOrSectorSpecificRule,
    ProductOrSectorSpecificRuleSet,
};
use crate::pact_vocabulary::{
    AssuranceBoundary, AssuranceCoverage, AssuranceLevel, BiogenicAccountingMethodology,
    CharacterizationFactors, CrossSectoralStandard, DeclaredUnit, PfStatus,
    ProductOrSectorSpecificRuleOperator,
};
use crate::pf_id::PfId;
use crate::scalars::{NonEmptyString, SpecVersionString, Urn, VersionInteger};
use crate::time::Timestamp;

verus! {

impl DeepView for CompanyIdSet {
    type V = Seq<Seq<char>>;

    open spec fn deep_view(&self) -> Seq<Seq<char>> {
        self.0.deep_view()
    }
}

impl Wire for CompanyIdSet {
    open spec fn to_wire(v: Seq<Seq<char>>) -> JsonModel {
        <Vec<Urn> as Wire>::to_wire(v)
    }

    open spec fn from_wire(j: JsonModel) -> Result<Seq<Seq<char>>, DecodeError> {
        match <Vec<Urn> as Wire>::from_wire(j) {
            Ok(values) => if values.len() == 0 {
                Err(DecodeError::Invalid(ValidationError { field: Field::CompanyIds, reason: Reason::Empty }))
            } else {
                Ok(values)
            },
            Err(e) => Err(e),
        }
    }

    open spec fn faithful(v: Seq<Seq<char>>) -> bool {
        v.len() >= 1 && <Vec<Urn> as Wire>::faithful(v)
    }

    proof fn lemma_round_trip(v: Seq<Seq<char>>) {
        <Vec<Urn> as Wire>::lemma_round_trip(v);
    }

    fn to_json(&self) -> (r: Json) {
        self.0.to_json()
    }

    fn from_json(j: &Json) -> (r: Result<CompanyIdSet, DecodeError>) {
        let values = <Vec<Urn> as Wire>::from_json(j)?;
        if values.len() == 0 {
            Err(DecodeError::Invalid(ValidationError::new(Field::CompanyIds, Reason::Empty)))
        } else {
            Ok(CompanyIdSet(values))
        }
    }
}

impl DeepView for ProductIdSet {
    type V = Seq<Seq<char>>;

    open spec fn deep_view(&self) -> Seq<Seq<char>> {
        self.0.deep_view()
    }
}

impl Wire for ProductIdSet {
    open spec fn to_wire(v: Seq<Seq<char>>) -> JsonModel {
        <Vec<Urn> as Wire>::to_wire(v)
    }

    open spec fn from_wire(j: JsonModel) -> Result<Seq<Seq<char>>, DecodeError> {
        match <Vec<Urn> as Wire>::from_wire(j) {
            Ok(values) => if values.len() == 0 {
                Err(DecodeError::Invalid(ValidationError { field: Field::ProductIds, reason: Reason::Empty }))
            } else {
                Ok(values)
            },
            Err(e) => Err(e),
        }
    }

    open spec fn faithful(v: Seq<Seq<char>>) -> bool {
        v.len() >= 1 && <Vec<Urn> as Wire>::faithful(v)
    }

    proof fn lemma_round_trip(v: Seq<Seq<char>>) {
        <Vec<Urn> as Wire>::lemma_round_trip(v);
    }

    fn to_json(&self) -> (r: Json) {
        self.0.to_json()
    }

    fn from_json(j: &Json) -> (r: Result<ProductIdSet, DecodeError>) {
        let values = <Vec<Urn> as Wire>::from_json(j)?;
        if values.len() == 0 {
            Err(DecodeError::Invalid(ValidationError::new(Field::ProductIds, Reason::Empty)))
        } else {
            Ok(ProductIdSet(values))
        }
    }
}

impl DeepView for NonEmptyStringVec {
    type V = Seq<Seq<char>>;

    open spec fn deep_view(&self) -> Seq<Seq<char>> {
        self.0.deep_view()
    }
}

impl Wire for NonEmptyStringVec {
    open spec fn to_wire(v: Seq<Seq<char>>) -> JsonModel {
        <Vec<NonEmptyString> as Wire>::to_wire(v)
    }

    open spec fn from_wire(j: JsonModel) -> Result<Seq<Seq<char>>, DecodeError> {
        match <Vec<NonEmptyString> as Wire>::from_wire(j) {
            Ok(values) => if values.len() == 0 {
                Err(DecodeError::Invalid(ValidationError { field: Field::NonEmptyVec, reason: Reason::Empty }))
            } else {
                Ok(values)
            },
            Err(e) => Err(e),
        }
    }

    open spec fn faithful(v: Seq<Seq<char>>) -> bool {
        v.len() >= 1 && <Vec<NonEmptyString> as Wire>::faithful(v)
    }

    proof fn lemma_round_trip(v: Seq<Seq<char>>) {
        <Vec<NonEmptyString> as Wire>::lemma_round_trip(v);
    }

    fn to_json(&self) -> (r: Json) {
        self.0.to_json()
    }

    fn from_json(j: &Json) -> (r: Result<NonEmptyStringVec, DecodeError>) {
        let values = <Vec<NonEmptyString> as Wire>::from_json(j)?;
        if values.len() == 0 {
            Err(DecodeError::Invalid(ValidationError::new(Field::NonEmptyVec, Reason::Empty)))
        } else {
            Ok(NonEmptyStringVec(values))
        }
    }
}

impl DeepView for NonEmptyPfIdVec {
    type V = Seq<PfId>;

    open spec fn deep_view(&self) -> Seq<PfId> {
        self.0.deep_view()
    }
}

impl Wire for NonEmptyPfIdVec {
    open spec fn to_wire(v: Seq<PfId>) -> JsonModel {
        <Vec<PfId> as Wire>::to_wire(v)
    }

    open spec fn from_wire(j: JsonModel) -> Result<Seq<PfId>, DecodeError> {
        match <Vec<PfId> as Wire>::from_wire(j) {
            Ok(values) => if values.len() == 0 {
                Err(DecodeError::Invalid(ValidationError { field: Field::PrecedingPfIds, reason: Reason::Empty }))
            } else {
                Ok(values)
            },
            Err(e) => Err(e),
        }
    }

    open spec fn faithful(v: Seq<PfId>) -> bool {
        v.len() >= 1 && <Vec<PfId> as Wire>::faithful(v)
    }

    proof fn lemma_round_trip(v: Seq<PfId>) {
        <Vec<PfId> as Wire>::lemma_round_trip(v);
    }

    fn to_json(&self) -> (r: Json) {
        self.0.to_json()
    }

    fn from_json(j: &Json) -> (r: Result<NonEmptyPfIdVec, DecodeError>) {
        let values = <Vec<PfId> as Wire>::from_json(j)?;
        if values.len() == 0 {
            Err(DecodeError::Invalid(ValidationError::new(Field::PrecedingPfIds, Reason::Empty)))
        } else {
            Ok(NonEmptyPfIdVec(values))
        }
    }
}

impl DeepView for EmissionFactorDSSet {
    type V = Seq<EmissionFactorDSModel>;

    open spec fn deep_view(&self) -> Seq<EmissionFactorDSModel> {
        self.0.deep_view()
    }
}

impl Wire for EmissionFactorDSSet {
    open spec fn to_wire(v: Seq<EmissionFactorDSModel>) -> JsonModel {
        <Vec<EmissionFactorDS> as Wire>::to_wire(v)
    }

    open spec fn from_wire(j: JsonModel) -> Result<Seq<EmissionFactorDSModel>, DecodeError> {
        match <Vec<EmissionFactorDS> as Wire>::from_wire(j) {
            Ok(values) => if values.len() == 0 {
                Err(DecodeError::Invalid(ValidationError { field: Field::EmissionFactorSources, reason: Reason::Empty }))
            } else {
                Ok(values)
            },
            Err(e) => Err(e),
        }
    }

    open spec fn faithful(v: Seq<EmissionFactorDSModel>) -> bool {
        v.len() >= 1 && <Vec<EmissionFactorDS> as Wire>::faithful(v)
    }

    proof fn lemma_round_trip(v: Seq<EmissionFactorDSModel>) {
        <Vec<EmissionFactorDS> as Wire>::lemma_round_trip(v);
    }

    fn to_json(&self) -> (r: Json) {
        self.0.to_json()
    }

    fn from_json(j: &Json) -> (r: Result<EmissionFactorDSSet, DecodeError>) {
        let values = <Vec<EmissionFactorDS> as Wire>::from_json(j)?;
        if values.len() == 0 {
            Err(DecodeError::Invalid(ValidationError::new(Field::EmissionFactorSources, Reason::Empty)))
        } else {
            Ok(EmissionFactorDSSet(values))
        }
    }
}

impl DeepView for ProductOrSectorSpecificRuleSet {
    type V = Seq<ProductOrSectorSpecificRuleModel>;

    open spec fn deep_view(&self) -> Seq<ProductOrSectorSpecificRuleModel> {
        self.0.deep_view()
    }
}

impl Wire for ProductOrSectorSpecificRuleSet {
    open spec fn to_wire(v: Seq<ProductOrSectorSpecificRuleModel>) -> JsonModel {
        <Vec<ProductOrSectorSpecificRule> as Wire>::to_wire(v)
    }

    open spec fn from_wire(j: JsonModel) -> Result<Seq<ProductOrSectorSpecificRuleModel>, DecodeError> {
        <Vec<ProductOrSectorSpecificRule> as Wire>::from_wire(j)
    }

    open spec fn faithful(v: Seq<ProductOrSectorSpecificRuleModel>) -> bool {
        <Vec<ProductOrSectorSpecificRule> as Wire>::faithful(v)
    }

    proof fn lemma_round_trip(v: Seq<ProductOrSectorSpecificRuleModel>) {
        <Vec<ProductOrSectorSpecificRule> as Wire>::lemma_round_trip(v);
    }

    fn to_json(&self) -> (r: Json) {
        self.0.to_json()
    }

    fn from_json(j: &Json) -> (r: Result<ProductOrSectorSpecificRuleSet, DecodeError>) {
        let values = <Vec<ProductOrSectorSpecificRule> as Wire>::from_json(j)?;
        Ok(ProductOrSectorSpecificRuleSet(values))
    }
}

impl DeepView for CrossSectoralStandardSet {
    type V = Seq<CrossSectoralStandard>;

    open spec fn deep_view(&self) -> Seq<CrossSectoralStandard> {
        self.0.deep_view()
    }
}

impl Wire for CrossSectoralStandardSet {
    open spec fn to_wire(v: Seq<CrossSectoralStandard>) -> JsonModel {
        <Vec<CrossSectoralStandard> as Wire>::to_wire(v)
    }

    open spec fn from_wire(j: JsonModel) -> Result<Seq<CrossSectoralStandard>, DecodeError> {
        <Vec<CrossSectoralStandard> as Wire>::from_wire(j)
    }

    open spec fn faithful(v: Seq<CrossSectoralStandard>) -> bool {
        <Vec<CrossSectoralStandard> as Wire>::faithful(v)
    }

    proof fn lemma_round_trip(v: Seq<CrossSectoralStandard>) {
        <Vec<CrossSectoralStandard> as Wire>::lemma_round_trip(v);
    }

    fn to_json(&self) -> (r: Json) {
        self.0.to_json()
    }

    fn from_json(j: &Json) -> (r: Result<CrossSectoralStandardSet, DecodeError>) {
        let values = <Vec<CrossSectoralStandard> as Wire>::from_json(j)?;
        Ok(CrossSectoralStandardSet(values))
    }
}

impl DeepView for IpccCharacterizationFactorsSources {
    type V = Seq<Seq<char>>;

    open spec fn deep_view(&self) -> Seq<Seq<char>> {
        self.0.deep_view()
    }
}

impl Wire for IpccCharacterizationFactorsSources {
    open spec fn to_wire(v: Seq<Seq<char>>) -> JsonModel {
        <Vec<IpccCharacterizationFactorsSource> as Wire>::to_wire(v)
    }

    open spec fn from_wire(j: JsonModel) -> Result<Seq<Seq<char>>, DecodeError> {
        match <Vec<IpccCharacterizationFactorsSource> as Wire>::from_wire(j) {
            Ok(values) => if values.len() == 0 {
                Err(DecodeError::Invalid(ValidationError { field: Field::CharacterizationFactorsSource, reason: Reason::Empty }))
            } else {
                Ok(values)
            },
            Err(e) => Err(e),
        }
    }

    open spec fn faithful(v: Seq<Seq<char>>) -> bool {
        v.len() >= 1 && <Vec<IpccCharacterizationFactorsSource> as Wire>::faithful(v)
    }

    proof fn lemma_round_trip(v: Seq<Seq<char>>) {
        <Vec<IpccCharacterizationFactorsSource> as Wire>::lemma_round_trip(v);
    }

    fn to_json(&self) -> (r: Json) {
        self.0.to_json()
    }

    fn from_json(j: &Json) -> (r: Result<IpccCharacterizationFactorsSources, DecodeError>) {
        let values = <Vec<IpccCharacterizationFactorsSource> as Wire>::from_json(j)?;
        if values.len() == 0 {
            Err(DecodeError::Invalid(ValidationError::new(Field::CharacterizationFactorsSource, Reason::Empty)))
        } else {
            Ok(IpccCharacterizationFactorsSources(values))
        }
    }
}

/// A database of emission factors as a mathematical value.
pub struct EmissionFactorDSModel {
    pub name: Seq<char>,
    pub version: Seq<char>,
}

impl DeepView for EmissionFactorDS {
    type V = EmissionFactorDSModel;

    open spec fn deep_view(&self) -> EmissionFactorDSModel {
        EmissionFactorDSModel {
            name: self.name.deep_view(),
            version: self.version.deep_view(),
        }
    }
}

/// The position of a member of an emission factor d s by its name, or -1 for any
/// other name.
pub open spec fn emission_factor_d_s_member(name: Seq<char>) -> int {
    if name == "name"@ {
        0
    } else if name == "version"@ {
        1
    } else {
        -1
    }
}

/// Each member of an emission factor d s has a position of its own: no two have
/// the same name.
pub proof fn lemma_emission_factor_d_s_keys()
    ensures
        emission_factor_d_s_member("name"@) == 0,
        emission_factor_d_s_member("version"@) == 1,
{
    reveal_strlit("name");
    reveal_strlit("version");
    assert("name"@.len() == 4);
    assert("version"@.len() == 7);
}

impl EmissionFactorDS {
    /// The first error among the members of an object, in the order in
    /// which the record declares them.
    pub open spec fn member_error(m: Map<Seq<char>, JsonModel>) -> Option<DecodeError> {
        let e = None;
        let e = or_error(e, required::<NonEmptyString>(m, "name"@));
        let e = or_error(e, required::<NonEmptyString>(m, "version"@));
        e
    }

    /// The record that the members of an object stand for, where none of
    /// them is in error.
    pub open spec fn of_members(m: Map<Seq<char>, JsonModel>) -> EmissionFactorDSModel {
        EmissionFactorDSModel {
            name: required::<NonEmptyString>(m, "name"@)->Ok_0,
            version: required::<NonEmptyString>(m, "version"@)->Ok_0,
        }
    }

    /// The document of the member at a position, where the record has a
    /// value for it.
    pub open spec fn expected_member(v: EmissionFactorDSModel, i: int) -> Option<JsonModel> {
        if i == 0 {
            Some(<NonEmptyString as Wire>::to_wire(v.name))
        } else if i == 1 {
            Some(<NonEmptyString as Wire>::to_wire(v.version))
        } else {
            None
        }
    }

    /// The document of a faithful record holds exactly the members of the
    /// record.
    pub proof fn lemma_members_held(v: EmissionFactorDSModel)
        requires
            <Self as Wire>::faithful(v),
        ensures
            <Self as Wire>::to_wire(v) is Object,
            holds(
                <Self as Wire>::to_wire(v)->Object_0,
                |name: Seq<char>| emission_factor_d_s_member(name),
                |i: int| Self::expected_member(v, i),
                2,
            ),
    {
        lemma_emission_factor_d_s_keys();
        let index = |name: Seq<char>| emission_factor_d_s_member(name);
        let expected = |i: int| Self::expected_member(v, i);
        let m0 = Map::<Seq<char>, JsonModel>::empty();
        let m1 = m0.insert("name"@, <NonEmptyString as Wire>::to_wire(v.name));
        lemma_required_member::<NonEmptyString>(m0, index, expected, 0, "name"@, v.name);
        let m2 = m1.insert("version"@, <NonEmptyString as Wire>::to_wire(v.version));
        lemma_required_member::<NonEmptyString>(m1, index, expected, 1, "version"@, v.version);
    }

    /// From an object that holds exactly the members of a faithful record
    /// the record is read back.
    pub proof fn lemma_members_read(v: EmissionFactorDSModel, m: Map<Seq<char>, JsonModel>)
        requires
            <Self as Wire>::faithful(v),
            holds(
                m,
                |name: Seq<char>| emission_factor_d_s_member(name),
                |i: int| Self::expected_member(v, i),
                2,
            ),
        ensures
            Self::member_error(m) is None,
            Self::of_members(m) == v,
    {
        lemma_emission_factor_d_s_keys();
        <NonEmptyString as Wire>::lemma_round_trip(v.name);
        assert(required::<NonEmptyString>(m, "name"@) == Ok::<Seq<char>, DecodeError>(v.name));
        <NonEmptyString as Wire>::lemma_round_trip(v.version);
        assert(required::<NonEmptyString>(m, "version"@) == Ok::<
            Seq<char>,
            DecodeError,
        >(v.version));
    }
}

impl Wire for EmissionFactorDS {
    open spec fn to_wire(v: EmissionFactorDSModel) -> JsonModel {
        let m = Map::<Seq<char>, JsonModel>::empty();
        let m = m.insert("name"@, <NonEmptyString as Wire>::to_wire(v.name));
        let m = m.insert("version"@, <NonEmptyString as Wire>::to_wire(v.version));
        JsonModel::Object(m)
    }

    open spec fn from_wire(j: JsonModel) -> Result<EmissionFactorDSModel, DecodeError> {
        match j {
            JsonModel::Object(m) => match Self::member_error(m) {
                Some(e) => Err(e),
                None => Ok(Self::of_members(m)),
            },
            _ => Err(DecodeError::WrongType),
        }
    }

    open spec fn faithful(v: EmissionFactorDSModel) -> bool {
        &&& <NonEmptyString as Wire>::faithful(v.name)
        &&& <NonEmptyString as Wire>::faithful(v.version)
    }

    proof fn lemma_round_trip(v: EmissionFactorDSModel) {
        Self::lemma_members_held(v);
        Self::lemma_members_read(v, Self::to_wire(v)->Object_0);
    }

    fn to_json(&self) -> (r: Json) {
        let mut entries: Vec<(String, Json)> = Vec::new();
        put_value(&mut entries, "name", &self.name);
        put_value(&mut entries, "version", &self.version);
        Json::Object(entries)
    }

    fn from_json(j: &Json) -> (r: Result<EmissionFactorDS, DecodeError>) {
        let entries = match j {
            Json::Object(entries) => entries,
            _ => {
                return Err(DecodeError::WrongType);
            },
        };
        let name = read_required::<NonEmptyString>(entries, "name")?;
        let version = read_required::<NonEmptyString>(entries, "version")?;
        Ok(EmissionFactorDS { name, version })
    }
}

/// A set of rules of one operator as a mathematical value.
pub struct ProductOrSectorSpecificRuleModel {
    pub operator: ProductOrSectorSpecificRuleOperator,
    pub rule_names: Seq<Seq<char>>,
    pub other_operator_name: Option<Seq<char>>,
}

impl DeepView for ProductOrSectorSpecificRule {
    type V = ProductOrSectorSpecificRuleModel;

    open spec fn deep_view(&self) -> ProductOrSectorSpecificRuleModel {
        ProductOrSectorSpecificRuleModel {
            operator: self.operator.deep_view(),
            rule_names: self.rule_names.deep_view(),
            other_operator_name: self.other_operator_name.deep_view(),
        }
    }
}

/// The position of a member of a product or sector specific rule by its name, or -1 for any
/// other name.
pub open spec fn product_or_sector_specific_rule_member(name: Seq<char>) -> int {
    if name == "operator"@ {
        0
    } else if name == "ruleNames"@ {
        1
    } else if name == "otherOperatorName"@ {
        2
    } else {
        -1
    }
}

/// Each member of a product or sector specific rule has a position of its own: no two have
/// the same name.
pub proof fn lemma_product_or_sector_specific_rule_keys()
    ensures
        product_or_sector_specific_rule_member("operator"@) == 0,
        product_or_sector_specific_rule_member("ruleNames"@) == 1,
        product_or_sector_specific_rule_member("otherOperatorName"@) == 2,
{
    reveal_strlit("operator");
    reveal_strlit("ruleNames");
    reveal_strlit("otherOperatorName");
    assert("operator"@.len() == 8);
    assert("ruleNames"@.len() == 9);
    assert("otherOperatorName"@.len() == 17);
}

impl ProductOrSectorSpecificRule {
    /// The first error among the members of an object, in the order in
    /// which the record declares them.
    pub open spec fn member_error(m: Map<Seq<char>, JsonModel>) -> Option<DecodeError> {
        let e = None;
        let e = or_error(e, required::<ProductOrSectorSpecificRuleOperator>(m, "operator"@));
        let e = or_error(e, required::<NonEmptyStringVec>(m, "ruleNames"@));
        let e = or_error(e, optional::<NonEmptyString>(m, "otherOperatorName"@));
        e
    }

    /// The record that the members of an object stand for, where none of
    /// them is in error.
    pub open spec fn of_members(m: Map<Seq<char>, JsonModel>) -> ProductOrSectorSpecificRuleModel {
        ProductOrSectorSpecificRuleModel {
            operator: required::<ProductOrSectorSpecificRuleOperator>(m, "operator"@)->Ok_0,
            rule_names: required::<NonEmptyStringVec>(m, "ruleNames"@)->Ok_0,
            other_operator_name: optional::<NonEmptyString>(m, "otherOperatorName"@)->Ok_0,
        }
    }

    /// The document of the member at a position, where the record has a
    /// value for it.
    pub open spec fn expected_member(v: ProductOrSectorSpecificRuleModel, i: int) -> Option<JsonModel> {
        if i == 0 {
            Some(<ProductOrSectorSpecificRuleOperator as Wire>::to_wire(v.operator))
        } else if i == 1 {
            Some(<NonEmptyStringVec as Wire>::to_wire(v.rule_names))
        } else if i == 2 {
            wire_of_optional::<NonEmptyString>(v.other_operator_name)
        } else {
            None
        }
    }

    /// The document of a faithful record holds exactly the members of the
    /// record.
    pub proof fn lemma_members_held(v: ProductOrSectorSpecificRuleModel)
        requires
            <Self as Wire>::faithful(v),
        ensures
            <Self as Wire>::to_wire(v) is Object,
            holds(
                <Self as Wire>::to_wire(v)->Object_0,
                |name: Seq<char>| product_or_sector_specific_rule_member(name),
                |i: int| Self::expected_member(v, i),
                3,
            ),
    {
        lemma_product_or_sector_specific_rule_keys();
        let index = |name: Seq<char>| product_or_sector_specific_rule_member(name);
        let expected = |i: int| Self::expected_member(v, i);
        let m0 = Map::<Seq<char>, JsonModel>::empty();
        let m1 = m0.insert("operator"@, <ProductOrSectorSpecificRuleOperator as Wire>::to_wire(v.operator));
        lemma_required_member::<ProductOrSectorSpecificRuleOperator>(
            m0,
            index,
            expected,
            0,
            "operator"@,
            v.operator,
        );
        let m2 = m1.insert("ruleNames"@, <NonEmptyStringVec as Wire>::to_wire(v.rule_names));
        lemma_required_member::<NonEmptyStringVec>(
            m1,
            index,
            expected,
            1,
            "ruleNames"@,
            v.rule_names,
        );
        let m3 = with_optional::<NonEmptyString>(m2, "otherOperatorName"@, v.other_operator_name);
        lemma_optional_member::<NonEmptyString>(
            m2,
            index,
            expected,
            2,
            "otherOperatorName"@,
            v.other_operator_name,
        );
    }

    /// From an object that holds exactly the members of a faithful record
    /// the record is read back.
    pub proof fn lemma_members_read(v: ProductOrSectorSpecificRuleModel, m: Map<Seq<char>, JsonModel>)
        requires
            <Self as Wire>::faithful(v),
            holds(
                m,
                |name: Seq<char>| product_or_sector_specific_rule_member(name),
                |i: int| Self::expected_member(v, i),
                3,
            ),
        ensures
            Self::member_error(m) is None,
            Self::of_members(m) == v,
    {
        lemma_product_or_sector_specific_rule_keys();
        <ProductOrSectorSpecificRuleOperator as Wire>::lemma_round_trip(v.operator);
        assert(required::<ProductOrSectorSpecificRuleOperator>(m, "operator"@) == Ok::<
            ProductOrSectorSpecificRuleOperator,
            DecodeError,
        >(v.operator));
        <NonEmptyStringVec as Wire>::lemma_round_trip(v.rule_names);
        assert(required::<NonEmptyStringVec>(m, "ruleNames"@) == Ok::<
            Seq<Seq<char>>,
            DecodeError,
        >(v.rule_names));
        lemma_optional_round_trip::<NonEmptyString>(v.other_operator_name);
        assert(optional::<NonEmptyString>(m, "otherOperatorName"@) == Ok::<
            Option<Seq<char>>,
            DecodeError,
        >(v.other_operator_name));
    }
}

impl Wire for ProductOrSectorSpecificRule {
    open spec fn to_wire(v: ProductOrSectorSpecificRuleModel) -> JsonModel {
        let m = Map::<Seq<char>, JsonModel>::empty();
        let m = m.insert("operator"@, <ProductOrSectorSpecificRuleOperator as Wire>::to_wire(v.operator));
        let m = m.insert("ruleNames"@, <NonEmptyStringVec as Wire>::to_wire(v.rule_names));
        let m = with_optional::<NonEmptyString>(m, "otherOperatorName"@, v.other_operator_name);
        JsonModel::Object(m)
    }

    open spec fn from_wire(j: JsonModel) -> Result<ProductOrSectorSpecificRuleModel, DecodeError> {
        match j {
            JsonModel::Object(m) => match Self::member_error(m) {
                Some(e) => Err(e),
                None => Ok(Self::of_members(m)),
            },
            _ => Err(DecodeError::WrongType),
        }
    }

    open spec fn faithful(v: ProductOrSectorSpecificRuleModel) -> bool {
        &&& <ProductOrSectorSpecificRuleOperator as Wire>::faithful(v.operator)
        &&& <NonEmptyStringVec as Wire>::faithful(v.rule_names)
        &&& faithful_optional::<NonEmptyString>(v.other_operator_name)
    }

    proof fn lemma_round_trip(v: ProductOrSectorSpecificRuleModel) {
        Self::lemma_members_held(v);
        Self::lemma_members_read(v, Self::to_wire(v)->Object_0);
    }

    fn to_json(&self) -> (r: Json) {
        let mut entries: Vec<(String, Json)> = Vec::new();
        put_value(&mut entries, "operator", &self.operator);
        put_value(&mut entries, "ruleNames", &self.rule_names);
        put_optional(&mut entries, "otherOperatorName", &self.other_operator_name);
        Json::Object(entries)
    }

    fn from_json(j: &Json) -> (r: Result<ProductOrSectorSpecificRule, DecodeError>) {
        let entries = match j {
            Json::Object(entries) => entries,
            _ => {
                return Err(DecodeError::WrongType);
            },
        };
        let operator = read_required::<ProductOrSectorSpecificRuleOperator>(entries, "operator")?;
        let rule_names = read_required::<NonEmptyStringVec>(entries, "ruleNames")?;
        let other_operator_name = read_optional::<NonEmptyString>(entries, "otherOperatorName")?;
        Ok(ProductOrSectorSpecificRule { operator, rule_names, other_operator_name })
    }
}

/// 
pub struct DataQualityIndicatorsModel {
    pub coverage_percent: Percent,
    pub technological_d_q_r: FloatBetween1and3,
    pub temporal_d_q_r: FloatBetween1and3,
    pub geographical_d_q_r: FloatBetween1and3,
    pub completeness_d_q_r: FloatBetween1and3,
    pub reliability_d_q_r: FloatBetween1and3,
}

impl DeepView for DataQualityIndicators {
    type V = DataQualityIndicatorsModel;

    open spec fn deep_view(&self) -> DataQualityIndicatorsModel {
        DataQualityIndicatorsModel {
            coverage_percent: self.coverage_percent.deep_view(),
            technological_d_q_r: self.technological_d_q_r.deep_view(),
            temporal_d_q_r: self.temporal_d_q_r.deep_view(),
            geographical_d_q_r: self.geographical_d_q_r.deep_view(),
            completeness_d_q_r: self.completeness_d_q_r.deep_view(),
            reliability_d_q_r: self.reliability_d_q_r.deep_view(),
        }
    }
}

/// The position of a member of a data quality indicators by its name, or -1 for any
/// other name.
pub open spec fn data_quality_indicators_member(name: Seq<char>) -> int {
    if name == "coveragePercent"@ {
        0
    } else if name == "technologicalDQR"@ {
        1
    } else if name == "temporalDQR"@ {
        2
    } else if name == "geographicalDQR"@ {
        3
    } else if name == "completenessDQR"@ {
        4
    } else if name == "reliabilityDQR"@ {
        5
    } else {
        -1
    }
}

/// Each member of a data quality indicators has a position of its own: no two have
/// the same name.
pub proof fn lemma_data_quality_indicators_keys()
    ensures
        data_quality_indicators_member("coveragePercent"@) == 0,
        data_quality_indicators_member("technologicalDQR"@) == 1,
        data_quality_indicators_member("temporalDQR"@) == 2,
        data_quality_indicators_member("geographicalDQR"@) == 3,
        data_quality_indicators_member("completenessDQR"@) == 4,
        data_quality_indicators_member("reliabilityDQR"@) == 5,
{
    reveal_strlit("coveragePercent");
    reveal_strlit("technologicalDQR");
    reveal_strlit("temporalDQR");
    reveal_strlit("geographicalDQR");
    reveal_strlit("completenessDQR");
    reveal_strlit("reliabilityDQR");
    assert("coveragePercent"@.len() == 15);
    assert("technologicalDQR"@.len() == 16);
    assert("temporalDQR"@.len() == 11);
    assert("geographicalDQR"@.len() == 15);
    assert("completenessDQR"@.len() == 15);
    assert("reliabilityDQR"@.len() == 14);
    assert("coveragePercent"@[0] != "geographicalDQR"@[0]);
    assert("coveragePercent"@[2] != "completenessDQR"@[2]);
    assert("geographicalDQR"@[0] != "completenessDQR"@[0]);
}

impl DataQualityIndicators {
    /// The first error among the members of an object, in the order in
    /// which the record declares them.
    pub open spec fn member_error(m: Map<Seq<char>, JsonModel>) -> Option<DecodeError> {
        let e = None;
        let e = or_error(e, required::<Percent>(m, "coveragePercent"@));
        let e = or_error(e, required::<FloatBetween1and3>(m, "technologicalDQR"@));
        let e = or_error(e, required::<FloatBetween1and3>(m, "temporalDQR"@));
        let e = or_error(e, required::<FloatBetween1and3>(m, "geographicalDQR"@));
        let e = or_error(e, required::<FloatBetween1and3>(m, "completenessDQR"@));
        let e = or_error(e, required::<FloatBetween1and3>(m, "reliabilityDQR"@));
        e
    }

    /// The record that the members of an object stand for, where none of
    /// them is in error.
    pub open spec fn of_members(m: Map<Seq<char>, JsonModel>) -> DataQualityIndicatorsModel {
        DataQualityIndicatorsModel {
            coverage_percent: required::<Percent>(m, "coveragePercent"@)->Ok_0,
            technological_d_q_r: required::<FloatBetween1and3>(m, "technologicalDQR"@)->Ok_0,
            temporal_d_q_r: required::<FloatBetween1and3>(m, "temporalDQR"@)->Ok_0,
            geographical_d_q_r: required::<FloatBetween1and3>(m, "geographicalDQR"@)->Ok_0,
            completeness_d_q_r: required::<FloatBetween1and3>(m, "completenessDQR"@)->Ok_0,
            reliability_d_q_r: required::<FloatBetween1and3>(m, "reliabilityDQR"@)->Ok_0,
        }
    }

    /// The document of the member at a position, where the record has a
    /// value for it.
    pub open spec fn expected_member(v: DataQualityIndicatorsModel, i: int) -> Option<JsonModel> {
        if i == 0 {
            Some(<Percent as Wire>::to_wire(v.coverage_percent))
        } else if i == 1 {
            Some(<FloatBetween1and3 as Wire>::to_wire(v.technological_d_q_r))
        } else if i == 2 {
            Some(<FloatBetween1and3 as Wire>::to_wire(v.temporal_d_q_r))
        } else if i == 3 {
            Some(<FloatBetween1and3 as Wire>::to_wire(v.geographical_d_q_r))
        } else if i == 4 {
            Some(<FloatBetween1and3 as Wire>::to_wire(v.completeness_d_q_r))
        } else if i == 5 {
            Some(<FloatBetween1and3 as Wire>::to_wire(v.reliability_d_q_r))
        } else {
            None
        }
    }

    /// The document of a faithful record holds exactly the members of the
    /// record.
    pub proof fn lemma_members_held(v: DataQualityIndicatorsModel)
        requires
            <Self as Wire>::faithful(v),
        ensures
            <Self as Wire>::to_wire(v) is Object,
            holds(
                <Self as Wire>::to_wire(v)->Object_0,
                |name: Seq<char>| data_quality_indicators_member(name),
                |i: int| Self::expected_member(v, i),
                6,
            ),
    {
        lemma_data_quality_indicators_keys();
        let index = |name: Seq<char>| data_quality_indicators_member(name);
        let expected = |i: int| Self::expected_member(v, i);
        let m0 = Map::<Seq<char>, JsonModel>::empty();
        let m1 = m0.insert("coveragePercent"@, <Percent as Wire>::to_wire(v.coverage_percent));
        lemma_required_member::<Percent>(
            m0,
            index,
            expected,
            0,
            "coveragePercent"@,
            v.coverage_percent,
        );
        let m2 = m1.insert("technologicalDQR"@, <FloatBetween1and3 as Wire>::to_wire(v.technological_d_q_r));
        lemma_required_member::<FloatBetween1and3>(
            m1,
            index,
            expected,
            1,
            "technologicalDQR"@,
            v.technological_d_q_r,
        );
        let m3 = m2.insert("temporalDQR"@, <FloatBetween1and3 as Wire>::to_wire(v.temporal_d_q_r));
        lemma_required_member::<FloatBetween1and3>(
            m2,
            index,
            expected,
            2,
            "temporalDQR"@,
            v.temporal_d_q_r,
        );
        let m4 = m3.insert("geographicalDQR"@, <FloatBetween1and3 as Wire>::to_wire(v.geographical_d_q_r));
        lemma_required_member::<FloatBetween1and3>(
            m3,
            index,
            expected,
            3,
            "geographicalDQR"@,
            v.geographical_d_q_r,
        );
        let m5 = m4.insert("completenessDQR"@, <FloatBetween1and3 as Wire>::to_wire(v.completeness_d_q_r));
        lemma_required_member::<FloatBetween1and3>(
            m4,
            index,
            expected,
            4,
            "completenessDQR"@,
            v.completeness_d_q_r,
        );
        let m6 = m5.insert("reliabilityDQR"@, <FloatBetween1and3 as Wire>::to_wire(v.reliability_d_q_r));
        lemma_required_member::<FloatBetween1and3>(
            m5,
            index,
            expected,
            5,
            "reliabilityDQR"@,
            v.reliability_d_q_r,
        );
    }

    /// From an object that holds exactly the members of a faithful record
    /// the record is read back.
    pub proof fn lemma_members_read(v: DataQualityIndicatorsModel, m: Map<Seq<char>, JsonModel>)
        requires
            <Self as Wire>::faithful(v),
            holds(
                m,
                |name: Seq<char>| data_quality_indicators_member(name),
                |i: int| Self::expected_member(v, i),
                6,
            ),
        ensures
            Self::member_error(m) is None,
            Self::of_members(m) == v,
    {
        lemma_data_quality_indicators_keys();
        <Percent as Wire>::lemma_round_trip(v.coverage_percent);
        assert(required::<Percent>(m, "coveragePercent"@) == Ok::<
            Percent,
            DecodeError,
        >(v.coverage_percent));
        <FloatBetween1and3 as Wire>::lemma_round_trip(v.technological_d_q_r);
        assert(required::<FloatBetween1and3>(m, "technologicalDQR"@) == Ok::<
            FloatBetween1and3,
            DecodeError,
        >(v.technological_d_q_r));
        <FloatBetween1and3 as Wire>::lemma_round_trip(v.temporal_d_q_r);
        assert(required::<FloatBetween1and3>(m, "temporalDQR"@) == Ok::<
            FloatBetween1and3,
            DecodeError,
        >(v.temporal_d_q_r));
        <FloatBetween1and3 as Wire>::lemma_round_trip(v.geographical_d_q_r);
        assert(required::<FloatBetween1and3>(m, "geographicalDQR"@) == Ok::<
            FloatBetween1and3,
            DecodeError,
        >(v.geographical_d_q_r));
        <FloatBetween1and3 as Wire>::lemma_round_trip(v.completeness_d_q_r);
        assert(required::<FloatBetween1and3>(m, "completenessDQR"@) == Ok::<
            FloatBetween1and3,
            DecodeError,
        >(v.completeness_d_q_r));
        <FloatBetween1and3 as Wire>::lemma_round_trip(v.reliability_d_q_r);
        assert(required::<FloatBetween1and3>(m, "reliabilityDQR"@) == Ok::<
            FloatBetween1and3,
            DecodeError,
        >(v.reliability_d_q_r));
    }
}

impl Wire for DataQualityIndicators {
    open spec fn to_wire(v: DataQualityIndicatorsModel) -> JsonModel {
        let m = Map::<Seq<char>, JsonModel>::empty();
        let m = m.insert("coveragePercent"@, <Percent as Wire>::to_wire(v.coverage_percent));
        let m = m.insert("technologicalDQR"@, <FloatBetween1and3 as Wire>::to_wire(v.technological_d_q_r));
        let m = m.insert("temporalDQR"@, <FloatBetween1and3 as Wire>::to_wire(v.temporal_d_q_r));
        let m = m.insert("geographicalDQR"@, <FloatBetween1and3 as Wire>::to_wire(v.geographical_d_q_r));
        let m = m.insert("completenessDQR"@, <FloatBetween1and3 as Wire>::to_wire(v.completeness_d_q_r));
        let m = m.insert("reliabilityDQR"@, <FloatBetween1and3 as Wire>::to_wire(v.reliability_d_q_r));
        JsonModel::Object(m)
    }

    open spec fn from_wire(j: JsonModel) -> Result<DataQualityIndicatorsModel, DecodeError> {
        match j {
            JsonModel::Object(m) => match Self::member_error(m) {
                Some(e) => Err(e),
                None => Ok(Self::of_members(m)),
            },
            _ => Err(DecodeError::WrongType),
        }
    }

    open spec fn faithful(v: DataQualityIndicatorsModel) -> bool {
        &&& <Percent as Wire>::faithful(v.coverage_percent)
        &&& <FloatBetween1and3 as Wire>::faithful(v.technological_d_q_r)
        &&& <FloatBetween1and3 as Wire>::faithful(v.temporal_d_q_r)
        &&& <FloatBetween1and3 as Wire>::faithful(v.geographical_d_q_r)
        &&& <FloatBetween1and3 as Wire>::faithful(v.completeness_d_q_r)
        &&& <FloatBetween1and3 as Wire>::faithful(v.reliability_d_q_r)
    }

    proof fn lemma_round_trip(v: DataQualityIndicatorsModel) {
        Self::lemma_members_held(v);
        Self::lemma_members_read(v, Self::to_wire(v)->Object_0);
    }

    fn to_json(&self) -> (r: Json) {
        let mut entries: Vec<(String, Json)> = Vec::new();
        put_value(&mut entries, "coveragePercent", &self.coverage_percent);
        put_value(&mut entries, "technologicalDQR", &self.technological_d_q_r);
        put_value(&mut entries, "temporalDQR", &self.temporal_d_q_r);
        put_value(&mut entries, "geographicalDQR", &self.geographical_d_q_r);
        put_value(&mut entries, "completenessDQR", &self.completeness_d_q_r);
        put_value(&mut entries, "reliabilityDQR", &self.reliability_d_q_r);
        Json::Object(entries)
    }

    fn from_json(j: &Json) -> (r: Result<DataQualityIndicators, DecodeError>) {
        let entries = match j {
            Json::Object(entries) => entries,
            _ => {
                return Err(DecodeError::WrongType);
            },
        };
        let coverage_percent = read_required::<Percent>(entries, "coveragePercent")?;
        let technological_d_q_r = read_required::<FloatBetween1and3>(entries, "technologicalDQR")?;
        let temporal_d_q_r = read_required::<FloatBetween1and3>(entries, "temporalDQR")?;
        let geographical_d_q_r = read_required::<FloatBetween1and3>(entries, "geographicalDQR")?;
        let completeness_d_q_r = read_required::<FloatBetween1and3>(entries, "completenessDQR")?;
        let reliability_d_q_r = read_required::<FloatBetween1and3>(entries, "reliabilityDQR")?;
        Ok(DataQualityIndicators {
            coverage_percent,
            technological_d_q_r,
            temporal_d_q_r,
            geographical_d_q_r,
            completeness_d_q_r,
            reliability_d_q_r,
        })
    }
}

/// An assurance as a mathematical value.
pub struct AssuranceModel {
    pub assurance: bool,
    pub coverage: Option<AssuranceCoverage>,
    pub level: Option<AssuranceLevel>,
    pub boundary: Option<AssuranceBoundary>,
    pub provider_name: Seq<char>,
    pub completed_at: Option<Timestamp>,
    pub standard_name: Option<Seq<char>>,
    pub comments: Option<Seq<char>>,
}

impl DeepView for Assurance {
    type V = AssuranceModel;

    open spec fn deep_view(&self) -> AssuranceModel {
        AssuranceModel {
            assurance: self.assurance.deep_view(),
            coverage: self.coverage.deep_view(),
            level: self.level.deep_view(),
            boundary: self.boundary.deep_view(),
            provider_name: self.provider_name.deep_view(),
            completed_at: self.completed_at.deep_view(),
            standard_name: self.standard_name.deep_view(),
            comments: self.comments.deep_view(),
        }
    }
}

/// The position of a member of an assurance by its name, or -1 for any
/// other name.
pub open spec fn assurance_member(name: Seq<char>) -> int {
    if name == "assurance"@ {
        0
    } else if name == "coverage"@ {
        1
    } else if name == "level"@ {
        2
    } else if name == "boundary"@ {
        3
    } else if name == "providerName"@ {
        4
    } else if name == "completedAt"@ {
        5
    } else if name == "standardName"@ {
        6
    } else if name == "comments"@ {
        7
    } else {
        -1
    }
}

/// Each member of an assurance has a position of its own: no two have
/// the same name.
pub proof fn lemma_assurance_keys()
    ensures
        assurance_member("assurance"@) == 0,
        assurance_member("coverage"@) == 1,
        assurance_member("level"@) == 2,
        assurance_member("boundary"@) == 3,
        assurance_member("providerName"@) == 4,
        assurance_member("completedAt"@) == 5,
        assurance_member("standardName"@) == 6,
        assurance_member("comments"@) == 7,
{
    reveal_strlit("assurance");
    reveal_strlit("coverage");
    reveal_strlit("level");
    reveal_strlit("boundary");
    reveal_strlit("providerName");
    reveal_strlit("completedAt");
    reveal_strlit("standardName");
    reveal_strlit("comments");
    assert("assurance"@.len() == 9);
    assert("coverage"@.len() == 8);
    assert("level"@.len() == 5);
    assert("boundary"@.len() == 8);
    assert("providerName"@.len() == 12);
    assert("completedAt"@.len() == 11);
    assert("standardName"@.len() == 12);
    assert("comments"@.len() == 8);
    assert("coverage"@[0] != "boundary"@[0]);
    assert("coverage"@[2] != "comments"@[2]);
    assert("boundary"@[0] != "comments"@[0]);
    assert("providerName"@[0] != "standardName"@[0]);
}

impl Assurance {
    /// The first error among the members of an object, in the order in
    /// which the record declares them.
    pub open spec fn member_error(m: Map<Seq<char>, JsonModel>) -> Option<DecodeError> {
        let e = None;
        let e = or_error(e, required::<bool>(m, "assurance"@));
        let e = or_error(e, optional::<AssuranceCoverage>(m, "coverage"@));
        let e = or_error(e, optional::<AssuranceLevel>(m, "level"@));
        let e = or_error(e, optional::<AssuranceBoundary>(m, "boundary"@));
        let e = or_error(e, required::<String>(m, "providerName"@));
        let e = or_error(e, optional::<Timestamp>(m, "completedAt"@));
        let e = or_error(e, optional::<String>(m, "standardName"@));
        let e = or_error(e, optional::<String>(m, "comments"@));
        e
    }

    /// The record that the members of an object stand for, where none of
    /// them is in error.
    pub open spec fn of_members(m: Map<Seq<char>, JsonModel>) -> AssuranceModel {
        AssuranceModel {
            assurance: required::<bool>(m, "assurance"@)->Ok_0,
            coverage: optional::<AssuranceCoverage>(m, "coverage"@)->Ok_0,
            level: optional::<AssuranceLevel>(m, "level"@)->Ok_0,
            boundary: optional::<AssuranceBoundary>(m, "boundary"@)->Ok_0,
            provider_name: required::<String>(m, "providerName"@)->Ok_0,
            completed_at: optional::<Timestamp>(m, "completedAt"@)->Ok_0,
            standard_name: optional::<String>(m, "standardName"@)->Ok_0,
            comments: optional::<String>(m, "comments"@)->Ok_0,
        }
    }

    /// The document of the member at a position, where the record has a
    /// value for it.
    pub open spec fn expected_member(v: AssuranceModel, i: int) -> Option<JsonModel> {
        if i == 0 {
            Some(<bool as Wire>::to_wire(v.assurance))
        } else if i == 1 {
            wire_of_optional::<AssuranceCoverage>(v.coverage)
        } else if i == 2 {
            wire_of_optional::<AssuranceLevel>(v.level)
        } else if i == 3 {
            wire_of_optional::<AssuranceBoundary>(v.boundary)
        } else if i == 4 {
            Some(<String as Wire>::to_wire(v.provider_name))
        } else if i == 5 {
            wire_of_optional::<Timestamp>(v.completed_at)
        } else if i == 6 {
            wire_of_optional::<String>(v.standard_name)
        } else if i == 7 {
            wire_of_optional::<String>(v.comments)
        } else {
            None
        }
    }

    /// The document of a faithful record holds exactly the members of the
    /// record.
    pub proof fn lemma_members_held(v: AssuranceModel)
        requires
            <Self as Wire>::faithful(v),
        ensures
            <Self as Wire>::to_wire(v) is Object,
            holds(
                <Self as Wire>::to_wire(v)->Object_0,
                |name: Seq<char>| assurance_member(name),
                |i: int| Self::expected_member(v, i),
                8,
            ),
    {
        lemma_assurance_keys();
        let index = |name: Seq<char>| assurance_member(name);
        let expected = |i: int| Self::expected_member(v, i);
        let m0 = Map::<Seq<char>, JsonModel>::empty();
        let m1 = m0.insert("assurance"@, <bool as Wire>::to_wire(v.assurance));
        lemma_required_member::<bool>(m0, index, expected, 0, "assurance"@, v.assurance);
        let m2 = with_optional::<AssuranceCoverage>(m1, "coverage"@, v.coverage);
        lemma_optional_member::<AssuranceCoverage>(m1, index, expected, 1, "coverage"@, v.coverage);
        let m3 = with_optional::<AssuranceLevel>(m2, "level"@, v.level);
        lemma_optional_member::<AssuranceLevel>(m2, index, expected, 2, "level"@, v.level);
        let m4 = with_optional::<AssuranceBoundary>(m3, "boundary"@, v.boundary);
        lemma_optional_member::<AssuranceBoundary>(m3, index, expected, 3, "boundary"@, v.boundary);
        let m5 = m4.insert("providerName"@, <String as Wire>::to_wire(v.provider_name));
        lemma_required_member::<String>(m4, index, expected, 4, "providerName"@, v.provider_name);
        let m6 = with_optional::<Timestamp>(m5, "completedAt"@, v.completed_at);
        lemma_optional_member::<Timestamp>(m5, index, expected, 5, "completedAt"@, v.completed_at);
        let m7 = with_optional::<String>(m6, "standardName"@, v.standard_name);
        lemma_optional_member::<String>(m6, index, expected, 6, "standardName"@, v.standard_name);
        let m8 = with_optional::<String>(m7, "comments"@, v.comments);
        lemma_optional_member::<String>(m7, index, expected, 7, "comments"@, v.comments);
    }

    /// From an object that holds exactly the members of a faithful record
    /// the record is read back.
    pub proof fn lemma_members_read(v: AssuranceModel, m: Map<Seq<char>, JsonModel>)
        requires
            <Self as Wire>::faithful(v),
            holds(
                m,
                |name: Seq<char>| assurance_member(name),
                |i: int| Self::expected_member(v, i),
                8,
            ),
        ensures
            Self::member_error(m) is None,
            Self::of_members(m) == v,
    {
        lemma_assurance_keys();
        <bool as Wire>::lemma_round_trip(v.assurance);
        assert(required::<bool>(m, "assurance"@) == Ok::<bool, DecodeError>(v.assurance));
        lemma_optional_round_trip::<AssuranceCoverage>(v.coverage);
        assert(optional::<AssuranceCoverage>(m, "coverage"@) == Ok::<
            Option<AssuranceCoverage>,
            DecodeError,
        >(v.coverage));
        lemma_optional_round_trip::<AssuranceLevel>(v.level);
        assert(optional::<AssuranceLevel>(m, "level"@) == Ok::<
            Option<AssuranceLevel>,
            DecodeError,
        >(v.level));
        lemma_optional_round_trip::<AssuranceBoundary>(v.boundary);
        assert(optional::<AssuranceBoundary>(m, "boundary"@) == Ok::<
            Option<AssuranceBoundary>,
            DecodeError,
        >(v.boundary));
        <String as Wire>::lemma_round_trip(v.provider_name);
        assert(required::<String>(m, "providerName"@) == Ok::<
            Seq<char>,
            DecodeError,
        >(v.provider_name));
        lemma_optional_round_trip::<Timestamp>(v.completed_at);
        assert(optional::<Timestamp>(m, "completedAt"@) == Ok::<
            Option<Timestamp>,
            DecodeError,
        >(v.completed_at));
        lemma_optional_round_trip::<String>(v.standard_name);
        assert(optional::<String>(m, "standardName"@) == Ok::<
            Option<Seq<char>>,
            DecodeError,
        >(v.standard_name));
        lemma_optional_round_trip::<String>(v.comments);
        assert(optional::<String>(m, "comments"@) == Ok::<
            Option<Seq<char>>,
            DecodeError,
        >(v.comments));
    }
}

impl Wire for Assurance {
    open spec fn to_wire(v: AssuranceModel) -> JsonModel {
        let m = Map::<Seq<char>, JsonModel>::empty();
        let m = m.insert("assurance"@, <bool as Wire>::to_wire(v.assurance));
        let m = with_optional::<AssuranceCoverage>(m, "coverage"@, v.coverage);
        let m = with_optional::<AssuranceLevel>(m, "level"@, v.level);
        let m = with_optional::<AssuranceBoundary>(m, "boundary"@, v.boundary);
        let m = m.insert("providerName"@, <String as Wire>::to_wire(v.provider_name));
        let m = with_optional::<Timestamp>(m, "completedAt"@, v.completed_at);
        let m = with_optional::<String>(m, "standardName"@, v.standard_name);
        let m = with_optional::<String>(m, "comments"@, v.comments);
        JsonModel::Object(m)
    }

    open spec fn from_wire(j: JsonModel) -> Result<AssuranceModel, DecodeError> {
        match j {
            JsonModel::Object(m) => match Self::member_error(m) {
                Some(e) => Err(e),
                None => Ok(Self::of_members(m)),
            },
            _ => Err(DecodeError::WrongType),
        }
    }

    open spec fn faithful(v: AssuranceModel) -> bool {
        &&& <bool as Wire>::faithful(v.assurance)
        &&& faithful_optional::<AssuranceCoverage>(v.coverage)
        &&& faithful_optional::<AssuranceLevel>(v.level)
        &&& faithful_optional::<AssuranceBoundary>(v.boundary)
        &&& <String as Wire>::faithful(v.provider_name)
        &&& faithful_optional::<Timestamp>(v.completed_at)
        &&& faithful_optional::<String>(v.standard_name)
        &&& faithful_optional::<String>(v.comments)
    }

    proof fn lemma_round_trip(v: AssuranceModel) {
        Self::lemma_members_held(v);
        Self::lemma_members_read(v, Self::to_wire(v)->Object_0);
    }

    fn to_json(&self) -> (r: Json) {
        let mut entries: Vec<(String, Json)> = Vec::new();
        put_value(&mut entries, "assurance", &self.assurance);
        put_optional(&mut entries, "coverage", &self.coverage);
        put_optional(&mut entries, "level", &self.level);
        put_optional(&mut entries, "boundary", &self.boundary);
        put_value(&mut entries, "providerName", &self.provider_name);
        put_optional(&mut entries, "completedAt", &self.completed_at);
        put_optional(&mut entries, "standardName", &self.standard_name);
        put_optional(&mut entries, "comments", &self.comments);
        Json::Object(entries)
    }

    fn from_json(j: &Json) -> (r: Result<Assurance, DecodeError>) {
        let entries = match j {
            Json::Object(entries) => entries,
            _ => {
                return Err(DecodeError::WrongType);
            },
        };
        let assurance = read_required::<bool>(entries, "assurance")?;
        let coverage = read_optional::<AssuranceCoverage>(entries, "coverage")?;
        let level = read_optional::<AssuranceLevel>(entries, "level")?;
        let boundary = read_optional::<AssuranceBoundary>(entries, "boundary")?;
        let provider_name = read_required::<String>(entries, "providerName")?;
        let completed_at = read_optional::<Timestamp>(entries, "completedAt")?;
        let standard_name = read_optional::<String>(entries, "standardName")?;
        let comments = read_optional::<String>(entries, "comments")?;
        Ok(Assurance {
            assurance,
            coverage,
            level,
            boundary,
            provider_name,
            completed_at,
            standard_name,
            comments,
        })
    }
}

/// An extension of the data model as a mathematical value.
pub struct DataModelExtensionModel<P> {
    pub spec_version: Seq<char>,
    pub data_schema: Seq<char>,
    pub documentation: Option<Seq<char>>,
    pub data: P,
}

impl<T: DeepView> DeepView for DataModelExtension<T> {
    type V = DataModelExtensionModel<T::V>;

    open spec fn deep_view(&self) -> DataModelExtensionModel<T::V> {
        DataModelExtensionModel {
            spec_version: self.spec_version.deep_view(),
            data_schema: self.data_schema.deep_view(),
            documentation: self.documentation.deep_view(),
            data: self.data.deep_view(),
        }
    }
}

/// The position of a member of a data model extension by its name, or -1 for any
/// other name.
pub open spec fn data_model_extension_member(name: Seq<char>) -> int {
    if name == "specVersion"@ {
        0
    } else if name == "dataSchema"@ {
        1
    } else if name == "documentation"@ {
        2
    } else if name == "data"@ {
        3
    } else {
        -1
    }
}

/// Each member of a data model extension has a position of its own: no two have
/// the same name.
pub proof fn lemma_data_model_extension_keys()
    ensures
        data_model_extension_member("specVersion"@) == 0,
        data_model_extension_member("dataSchema"@) == 1,
        data_model_extension_member("documentation"@) == 2,
        data_model_extension_member("data"@) == 3,
{
    reveal_strlit("specVersion");
    reveal_strlit("dataSchema");
    reveal_strlit("documentation");
    reveal_strlit("data");
    assert("specVersion"@.len() == 11);
    assert("dataSchema"@.len() == 10);
    assert("documentation"@.len() == 13);
    assert("data"@.len() == 4);
}

impl<T: Wire> DataModelExtension<T> {
    /// The first error among the members of an object, in the order in
    /// which the record declares them.
    pub open spec fn member_error(m: Map<Seq<char>, JsonModel>) -> Option<DecodeError> {
        let e = None;
        let e = or_error(e, required::<SpecVersionString>(m, "specVersion"@));
        let e = or_error(e, required::<String>(m, "dataSchema"@));
        let e = or_error(e, optional::<String>(m, "documentation"@));
        let e = or_error(e, required::<T>(m, "data"@));
        e
    }

    /// The record that the members of an object stand for, where none of
    /// them is in error.
    pub open spec fn of_members(m: Map<Seq<char>, JsonModel>) -> DataModelExtensionModel<T::V> {
        DataModelExtensionModel {
            spec_version: required::<SpecVersionString>(m, "specVersion"@)->Ok_0,
            data_schema: required::<String>(m, "dataSchema"@)->Ok_0,
            documentation: optional::<String>(m, "documentation"@)->Ok_0,
            data: required::<T>(m, "data"@)->Ok_0,
        }
    }

    /// The document of the member at a position, where the record has a
    /// value for it.
    pub open spec fn expected_member(v: DataModelExtensionModel<T::V>, i: int) -> Option<JsonModel> {
        if i == 0 {
            Some(<SpecVersionString as Wire>::to_wire(v.spec_version))
        } else if i == 1 {
            Some(<String as Wire>::to_wire(v.data_schema))
        } else if i == 2 {
            wire_of_optional::<String>(v.documentation)
        } else if i == 3 {
            Some(<T as Wire>::to_wire(v.data))
        } else {
            None
        }
    }

    /// The document of a faithful record holds exactly the members of the
    /// record.
    pub proof fn lemma_members_held(v: DataModelExtensionModel<T::V>)
        requires
            <Self as Wire>::faithful(v),
        ensures
            <Self as Wire>::to_wire(v) is Object,
            holds(
                <Self as Wire>::to_wire(v)->Object_0,
                |name: Seq<char>| data_model_extension_member(name),
                |i: int| Self::expected_member(v, i),
                4,
            ),
    {
        lemma_data_model_extension_keys();
        let index = |name: Seq<char>| data_model_extension_member(name);
        let expected = |i: int| Self::expected_member(v, i);
        let m0 = Map::<Seq<char>, JsonModel>::empty();
        let m1 = m0.insert("specVersion"@, <SpecVersionString as Wire>::to_wire(v.spec_version));
        lemma_required_member::<SpecVersionString>(
            m0,
            index,
            expected,
            0,
            "specVersion"@,
            v.spec_version,
        );
        let m2 = m1.insert("dataSchema"@, <String as Wire>::to_wire(v.data_schema));
        lemma_required_member::<String>(m1, index, expected, 1, "dataSchema"@, v.data_schema);
        let m3 = with_optional::<String>(m2, "documentation"@, v.documentation);
        lemma_optional_member::<String>(m2, index, expected, 2, "documentation"@, v.documentation);
        let m4 = m3.insert("data"@, <T as Wire>::to_wire(v.data));
        lemma_required_member::<T>(m3, index, expected, 3, "data"@, v.data);
    }

    /// From an object that holds exactly the members of a faithful record
    /// the record is read back.
    pub proof fn lemma_members_read(v: DataModelExtensionModel<T::V>, m: Map<Seq<char>, JsonModel>)
        requires
            <Self as Wire>::faithful(v),
            holds(
                m,
                |name: Seq<char>| data_model_extension_member(name),
                |i: int| Self::expected_member(v, i),
                4,
            ),
        ensures
            Self::member_error(m) is None,
            Self::of_members(m) == v,
    {
        lemma_data_model_extension_keys();
        <SpecVersionString as Wire>::lemma_round_trip(v.spec_version);
        assert(required::<SpecVersionString>(m, "specVersion"@) == Ok::<
            Seq<char>,
            DecodeError,
        >(v.spec_version));
        <String as Wire>::lemma_round_trip(v.data_schema);
        assert(required::<String>(m, "dataSchema"@) == Ok::<Seq<char>, DecodeError>(v.data_schema));
        lemma_optional_round_trip::<String>(v.documentation);
        assert(optional::<String>(m, "documentation"@) == Ok::<
            Option<Seq<char>>,
            DecodeError,
        >(v.documentation));
        <T as Wire>::lemma_round_trip(v.data);
        assert(required::<T>(m, "data"@) == Ok::<T::V, DecodeError>(v.data));
    }
}

impl<T: Wire> Wire for DataModelExtension<T> {
    open spec fn to_wire(v: DataModelExtensionModel<T::V>) -> JsonModel {
        let m = Map::<Seq<char>, JsonModel>::empty();
        let m = m.insert("specVersion"@, <SpecVersionString as Wire>::to_wire(v.spec_version));
        let m = m.insert("dataSchema"@, <String as Wire>::to_wire(v.data_schema));
        let m = with_optional::<String>(m, "documentation"@, v.documentation);
        let m = m.insert("data"@, <T as Wire>::to_wire(v.data));
        JsonModel::Object(m)
    }

    open spec fn from_wire(j: JsonModel) -> Result<DataModelExtensionModel<T::V>, DecodeError> {
        match j {
            JsonModel::Object(m) => match Self::member_error(m) {
                Some(e) => Err(e),
                None => Ok(Self::of_members(m)),
            },
            _ => Err(DecodeError::WrongType),
        }
    }

    open spec fn faithful(v: DataModelExtensionModel<T::V>) -> bool {
        &&& <SpecVersionString as Wire>::faithful(v.spec_version)
        &&& <String as Wire>::faithful(v.data_schema)
        &&& faithful_optional::<String>(v.documentation)
        &&& <T as Wire>::faithful(v.data)
    }

    proof fn lemma_round_trip(v: DataModelExtensionModel<T::V>) {
        Self::lemma_members_held(v);
        Self::lemma_members_read(v, Self::to_wire(v)->Object_0);
    }

    fn to_json(&self) -> (r: Json) {
        let mut entries: Vec<(String, Json)> = Vec::new();
        put_value(&mut entries, "specVersion", &self.spec_version);
        put_value(&mut entries, "dataSchema", &self.data_schema);
        put_optional(&mut entries, "documentation", &self.documentation);
        put_value(&mut entries, "data", &self.data);
        Json::Object(entries)
    }

    fn from_json(j: &Json) -> (r: Result<DataModelExtension<T>, DecodeError>) {
        let entries = match j {
            Json::Object(entries) => entries,
            _ => {
                return Err(DecodeError::WrongType);
            },
        };
        let spec_version = read_required::<SpecVersionString>(entries, "specVersion")?;
        let data_schema = read_required::<String>(entries, "dataSchema")?;
        let documentation = read_optional::<String>(entries, "documentation")?;
        let data = read_required::<T>(entries, "data")?;
        Ok(DataModelExtension { spec_version, data_schema, documentation, data })
    }
}

/// A carbon footprint as a mathematical value.
pub struct CarbonFootprintModel {
    pub declared_unit: DeclaredUnit,
    pub unitary_product_amount: StrictlyPositiveDecimal,
    pub p_cf_excluding_biogenic: PositiveDecimal,
    pub p_cf_including_biogenic: Option<WrappedDecimal>,
    pub fossil_ghg_emissions: PositiveDecimal,
    pub fossil_carbon_content: PositiveDecimal,
    pub biogenic_carbon_content: PositiveDecimal,
    pub d_luc_ghg_emissions: Option<PositiveDecimal>,
    pub land_management_ghg_emissions: Option<PositiveDecimal>,
    pub other_biogenic_ghg_emissions: Option<PositiveDecimal>,
    pub i_luc_ghg_emissions: Option<PositiveDecimal>,
    pub biogenic_carbon_withdrawal: Option<NegativeDecimal>,
    pub aircraft_ghg_emissions: Option<PositiveDecimal>,
    pub characterization_factors: CharacterizationFactors,
    pub ipcc_characterization_factors_sources: Seq<Seq<char>>,
    pub cross_sectoral_standards_used: Seq<CrossSectoralStandard>,
    pub product_or_sector_specific_rules: Option<Seq<ProductOrSectorSpecificRuleModel>>,
    pub biogenic_accounting_methodology: Option<BiogenicAccountingMethodology>,
    pub boundary_processes_description: Seq<char>,
    pub reference_period_start: Timestamp,
    pub reference_period_end: Timestamp,
    pub geographic_scope: Option<GeographicScopeView>,
    pub secondary_emission_factor_sources: Option<Seq<EmissionFactorDSModel>>,
    pub exempted_emissions_percent: ExemptedEmissionsPercent,
    pub exempted_emissions_description: Seq<char>,
    pub packaging_emissions_included: bool,
    pub packaging_ghg_emissions: Option<PositiveDecimal>,
    pub allocation_rules_description: Option<Seq<char>>,
    pub uncertainty_assessment_description: Option<Seq<char>>,
    pub primary_data_share: Option<Percent>,
    pub dqi: Option<DataQualityIndicatorsModel>,
    pub assurance: Option<AssuranceModel>,
}

impl DeepView for CarbonFootprint {
    type V = CarbonFootprintModel;

    open spec fn deep_view(&self) -> CarbonFootprintModel {
        CarbonFootprintModel {
            declared_unit: self.declared_unit.deep_view(),
            unitary_product_amount: self.unitary_product_amount.deep_view(),
            p_cf_excluding_biogenic: self.p_cf_excluding_biogenic.deep_view(),
            p_cf_including_biogenic: self.p_cf_including_biogenic.deep_view(),
            fossil_ghg_emissions: self.fossil_ghg_emissions.deep_view(),
            fossil_carbon_content: self.fossil_carbon_content.deep_view(),
            biogenic_carbon_content: self.biogenic_carbon_content.deep_view(),
            d_luc_ghg_emissions: self.d_luc_ghg_emissions.deep_view(),
            land_management_ghg_emissions: self.land_management_ghg_emissions.deep_view(),
            other_biogenic_ghg_emissions: self.other_biogenic_ghg_emissions.deep_view(),
            i_luc_ghg_emissions: self.i_luc_ghg_emissions.deep_view(),
            biogenic_carbon_withdrawal: self.biogenic_carbon_withdrawal.deep_view(),
            aircraft_ghg_emissions: self.aircraft_ghg_emissions.deep_view(),
            characterization_factors: self.characterization_factors.deep_view(),
            ipcc_characterization_factors_sources: self.ipcc_characterization_factors_sources.deep_view(),
            cross_sectoral_standards_used: self.cross_sectoral_standards_used.deep_view(),
            product_or_sector_specific_rules: self.product_or_sector_specific_rules.deep_view(),
            biogenic_accounting_methodology: self.biogenic_accounting_methodology.deep_view(),
            boundary_processes_description: self.boundary_processes_description.deep_view(),
            reference_period_start: self.reference_period_start.deep_view(),
            reference_period_end: self.reference_period_end.deep_view(),
            geographic_scope: self.geographic_scope.deep_view(),
            secondary_emission_factor_sources: self.secondary_emission_factor_sources.deep_view(),
            exempted_emissions_percent: self.exempted_emissions_percent.deep_view(),
            exempted_emissions_description: self.exempted_emissions_description.deep_view(),
            packaging_emissions_included: self.packaging_emissions_included.deep_view(),
            packaging_ghg_emissions: self.packaging_ghg_emissions.deep_view(),
            allocation_rules_description: self.allocation_rules_description.deep_view(),
            uncertainty_assessment_description: self.uncertainty_assessment_description.deep_view(),
            primary_data_share: self.primary_data_share.deep_view(),
            dqi: self.dqi.deep_view(),
            assurance: self.assurance.deep_view(),
        }
    }
}

/// The position of a member of a carbon footprint by its name, or -1 for any
/// other name.
pub open spec fn carbon_footprint_member(name: Seq<char>) -> int {
    if name == "declaredUnit"@ {
        0
    } else if name == "unitaryProductAmount"@ {
        1
    } else if name == "pCfExcludingBiogenic"@ {
        2
    } else if name == "pCfIncludingBiogenic"@ {
        3
    } else if name == "fossilGhgEmissions"@ {
        4
    } else if name == "fossilCarbonContent"@ {
        5
    } else if name == "biogenicCarbonContent"@ {
        6
    } else if name == "dLucGhgEmissions"@ {
        7
    } else if name == "landManagementGhgEmissions"@ {
        8
    } else if name == "otherBiogenicGhgEmissions"@ {
        9
    } else if name == "iLucGhgEmissions"@ {
        10
    } else if name == "biogenicCarbonWithdrawal"@ {
        11
    } else if name == "aircraftGhgEmissions"@ {
        12
    } else if name == "characterizationFactors"@ {
        13
    } else if name == "ipccCharacterizationFactorsSources"@ {
        14
    } else if name == "crossSectoralStandardsUsed"@ {
        15
    } else if name == "productOrSectorSpecificRules"@ {
        16
    } else if name == "biogenicAccountingMethodology"@ {
        17
    } else if name == "boundaryProcessesDescription"@ {
        18
    } else if name == "referencePeriodStart"@ {
        19
    } else if name == "referencePeriodEnd"@ {
        20
    } else if name == "geographyRegionOrSubregion"@ {
        21
    } else if name == "geographyCountry"@ {
        22
    } else if name == "geographyCountrySubdivision"@ {
        23
    } else if name == "secondaryEmissionFactorSources"@ {
        24
    } else if name == "exemptedEmissionsPercent"@ {
        25
    } else if name == "exemptedEmissionsDescription"@ {
        26
    } else if name == "packagingEmissionsIncluded"@ {
        27
    } else if name == "packagingGhgEmissions"@ {
        28
    } else if name == "allocationRulesDescription"@ {
        29
    } else if name == "uncertaintyAssessmentDescription"@ {
        30
    } else if name == "primaryDataShare"@ {
        31
    } else if name == "dqi"@ {
        32
    } else if name == "assurance"@ {
        33
    } else {
        -1
    }
}

/// Each member of a carbon footprint has a position of its own: no two have
/// the same name.
pub proof fn lemma_carbon_footprint_keys()
    ensures
        carbon_footprint_member("declaredUnit"@) == 0,
        carbon_footprint_member("unitaryProductAmount"@) == 1,
        carbon_footprint_member("pCfExcludingBiogenic"@) == 2,
        carbon_footprint_member("pCfIncludingBiogenic"@) == 3,
        carbon_footprint_member("fossilGhgEmissions"@) == 4,
        carbon_footprint_member("fossilCarbonContent"@) == 5,
        carbon_footprint_member("biogenicCarbonContent"@) == 6,
        carbon_footprint_member("dLucGhgEmissions"@) == 7,
        carbon_footprint_member("landManagementGhgEmissions"@) == 8,
        carbon_footprint_member("otherBiogenicGhgEmissions"@) == 9,
        carbon_footprint_member("iLucGhgEmissions"@) == 10,
        carbon_footprint_member("biogenicCarbonWithdrawal"@) == 11,
        carbon_footprint_member("aircraftGhgEmissions"@) == 12,
        carbon_footprint_member("characterizationFactors"@) == 13,
        carbon_footprint_member("ipccCharacterizationFactorsSources"@) == 14,
        carbon_footprint_member("crossSectoralStandardsUsed"@) == 15,
        carbon_footprint_member("productOrSectorSpecificRules"@) == 16,
        carbon_footprint_member("biogenicAccountingMethodology"@) == 17,
        carbon_footprint_member("boundaryProcessesDescription"@) == 18,
        carbon_footprint_member("referencePeriodStart"@) == 19,
        carbon_footprint_member("referencePeriodEnd"@) == 20,
        carbon_footprint_member("geographyRegionOrSubregion"@) == 21,
        carbon_footprint_member("geographyCountry"@) == 22,
        carbon_footprint_member("geographyCountrySubdivision"@) == 23,
        carbon_footprint_member("secondaryEmissionFactorSources"@) == 24,
        carbon_footprint_member("exemptedEmissionsPercent"@) == 25,
        carbon_footprint_member("exemptedEmissionsDescription"@) == 26,
        carbon_footprint_member("packagingEmissionsIncluded"@) == 27,
        carbon_footprint_member("packagingGhgEmissions"@) == 28,
        carbon_footprint_member("allocationRulesDescription"@) == 29,
        carbon_footprint_member("uncertaintyAssessmentDescription"@) == 30,
        carbon_footprint_member("primaryDataShare"@) == 31,
        carbon_footprint_member("dqi"@) == 32,
        carbon_footprint_member("assurance"@) == 33,
{
    reveal_strlit("declaredUnit");
    reveal_strlit("unitaryProductAmount");
    reveal_strlit("pCfExcludingBiogenic");
    reveal_strlit("pCfIncludingBiogenic");
    reveal_strlit("fossilGhgEmissions");
    reveal_strlit("fossilCarbonContent");
    reveal_strlit("biogenicCarbonContent");
    reveal_strlit("dLucGhgEmissions");
    reveal_strlit("landManagementGhgEmissions");
    reveal_strlit("otherBiogenicGhgEmissions");
    reveal_strlit("iLucGhgEmissions");
    reveal_strlit("biogenicCarbonWithdrawal");
    reveal_strlit("aircraftGhgEmissions");
    reveal_strlit("characterizationFactors");
    reveal_strlit("ipccCharacterizationFactorsSources");
    reveal_strlit("crossSectoralStandardsUsed");
    reveal_strlit("productOrSectorSpecificRules");
    reveal_strlit("biogenicAccountingMethodology");
    reveal_strlit("boundaryProcessesDescription");
    reveal_strlit("referencePeriodStart");
    reveal_strlit("referencePeriodEnd");
    reveal_strlit("geographyRegionOrSubregion");
    reveal_strlit("geographyCountry");
    reveal_strlit("geographyCountrySubdivision");
    reveal_strlit("secondaryEmissionFactorSources");
    reveal_strlit("exemptedEmissionsPercent");
    reveal_strlit("exemptedEmissionsDescription");
    reveal_strlit("packagingEmissionsIncluded");
    reveal_strlit("packagingGhgEmissions");
    reveal_strlit("allocationRulesDescription");
    reveal_strlit("uncertaintyAssessmentDescription");
    reveal_strlit("primaryDataShare");
    reveal_strlit("dqi");
    reveal_strlit("assurance");
    assert("declaredUnit"@.len() == 12);
    assert("unitaryProductAmount"@.len() == 20);
    assert("pCfExcludingBiogenic"@.len() == 20);
    assert("pCfIncludingBiogenic"@.len() == 20);
    assert("fossilGhgEmissions"@.len() == 18);
    assert("fossilCarbonContent"@.len() == 19);
    assert("biogenicCarbonContent"@.len() == 21);
    assert("dLucGhgEmissions"@.len() == 16);
    assert("landManagementGhgEmissions"@.len() == 26);
    assert("otherBiogenicGhgEmissions"@.len() == 25);
    assert("iLucGhgEmissions"@.len() == 16);
    assert("biogenicCarbonWithdrawal"@.len() == 24);
    assert("aircraftGhgEmissions"@.len() == 20);
    assert("characterizationFactors"@.len() == 23);
    assert("ipccCharacterizationFactorsSources"@.len() == 34);
    assert("crossSectoralStandardsUsed"@.len() == 26);
    assert("productOrSectorSpecificRules"@.len() == 28);
    assert("biogenicAccountingMethodology"@.len() == 29);
    assert("boundaryProcessesDescription"@.len() == 28);
    assert("referencePeriodStart"@.len() == 20);
    assert("referencePeriodEnd"@.len() == 18);
    assert("geographyRegionOrSubregion"@.len() == 26);
    assert("geographyCountry"@.len() == 16);
    assert("geographyCountrySubdivision"@.len() == 27);
    assert("secondaryEmissionFactorSources"@.len() == 30);
    assert("exemptedEmissionsPercent"@.len() == 24);
    assert("exemptedEmissionsDescription"@.len() == 28);
    assert("packagingEmissionsIncluded"@.len() == 26);
    assert("packagingGhgEmissions"@.len() == 21);
    assert("allocationRulesDescription"@.len() == 26);
    assert("uncertaintyAssessmentDescription"@.len() == 32);
    assert("primaryDataShare"@.len() == 16);
    assert("dqi"@.len() == 3);
    assert("assurance"@.len() == 9);
    assert("unitaryProductAmount"@[0] != "pCfExcludingBiogenic"@[0]);
    assert("unitaryProductAmount"@[0] != "pCfIncludingBiogenic"@[0]);
    assert("unitaryProductAmount"@[0] != "aircraftGhgEmissions"@[0]);
    assert("unitaryProductAmount"@[0] != "referencePeriodStart"@[0]);
    assert("pCfExcludingBiogenic"@[3] != "pCfIncludingBiogenic"@[3]);
    assert("pCfExcludingBiogenic"@[0] != "aircraftGhgEmissions"@[0]);
    assert("pCfExcludingBiogenic"@[0] != "referencePeriodStart"@[0]);
    assert("pCfIncludingBiogenic"@[0] != "aircraftGhgEmissions"@[0]);
    assert("pCfIncludingBiogenic"@[0] != "referencePeriodStart"@[0]);
    assert("fossilGhgEmissions"@[0] != "referencePeriodEnd"@[0]);
    assert("biogenicCarbonContent"@[0] != "packagingGhgEmissions"@[0]);
    assert("dLucGhgEmissions"@[0] != "iLucGhgEmissions"@[0]);
    assert("dLucGhgEmissions"@[0] != "geographyCountry"@[0]);
    assert("dLucGhgEmissions"@[0] != "primaryDataShare"@[0]);
    assert("landManagementGhgEmissions"@[0] != "crossSectoralStandardsUsed"@[0]);
    assert("landManagementGhgEmissions"@[0] != "geographyRegionOrSubregion"@[0]);
    assert("landManagementGhgEmissions"@[0] != "packagingEmissionsIncluded"@[0]);
    assert("landManagementGhgEmissions"@[0] != "allocationRulesDescription"@[0]);
    assert("iLucGhgEmissions"@[0] != "geographyCountry"@[0]);
    assert("iLucGhgEmissions"@[0] != "primaryDataShare"@[0]);
    assert("biogenicCarbonWithdrawal"@[0] != "exemptedEmissionsPercent"@[0]);
    assert("aircraftGhgEmissions"@[0] != "referencePeriodStart"@[0]);
    assert("crossSectoralStandardsUsed"@[0] != "geographyRegionOrSubregion"@[0]);
    assert("crossSectoralStandardsUsed"@[0] != "packagingEmissionsIncluded"@[0]);
    assert("crossSectoralStandardsUsed"@[0] != "allocationRulesDescription"@[0]);
    assert("productOrSectorSpecificRules"@[0] != "boundaryProcessesDescription"@[0]);
    assert("productOrSectorSpecificRules"@[0] != "exemptedEmissionsDescription"@[0]);
    assert("boundaryProcessesDescription"@[0] != "exemptedEmissionsDescription"@[0]);
    assert("geographyRegionOrSubregion"@[0] != "packagingEmissionsIncluded"@[0]);
    assert("geographyRegionOrSubregion"@[0] != "allocationRulesDescription"@[0]);
    assert("geographyCountry"@[0] != "primaryDataShare"@[0]);
    assert("packagingEmissionsIncluded"@[0] != "allocationRulesDescription"@[0]);
}

impl CarbonFootprint {
    /// The first error among the members of an object, in the order in
    /// which the record declares them.
    pub open spec fn member_error(m: Map<Seq<char>, JsonModel>) -> Option<DecodeError> {
        let e = None;
        let e = or_error(e, required::<DeclaredUnit>(m, "declaredUnit"@));
        let e = or_error(e, required::<StrictlyPositiveDecimal>(m, "unitaryProductAmount"@));
        let e = or_error(e, required::<PositiveDecimal>(m, "pCfExcludingBiogenic"@));
        let e = or_error(e, optional::<WrappedDecimal>(m, "pCfIncludingBiogenic"@));
        let e = or_error(e, required::<PositiveDecimal>(m, "fossilGhgEmissions"@));
        let e = or_error(e, required::<PositiveDecimal>(m, "fossilCarbonContent"@));
        let e = or_error(e, required::<PositiveDecimal>(m, "biogenicCarbonContent"@));
        let e = or_error(e, optional::<PositiveDecimal>(m, "dLucGhgEmissions"@));
        let e = or_error(e, optional::<PositiveDecimal>(m, "landManagementGhgEmissions"@));
        let e = or_error(e, optional::<PositiveDecimal>(m, "otherBiogenicGhgEmissions"@));
        let e = or_error(e, optional::<PositiveDecimal>(m, "iLucGhgEmissions"@));
        let e = or_error(e, optional::<NegativeDecimal>(m, "biogenicCarbonWithdrawal"@));
        let e = or_error(e, optional::<PositiveDecimal>(m, "aircraftGhgEmissions"@));
        let e = or_error(e, required::<CharacterizationFactors>(m, "characterizationFactors"@));
        let e = or_error(
            e,
            required::<IpccCharacterizationFactorsSources>(m, "ipccCharacterizationFactorsSources"@),
        );
        let e = or_error(e, required::<CrossSectoralStandardSet>(m, "crossSectoralStandardsUsed"@));
        let e = or_error(
            e,
            optional::<ProductOrSectorSpecificRuleSet>(m, "productOrSectorSpecificRules"@),
        );
        let e = or_error(
            e,
            optional::<BiogenicAccountingMethodology>(m, "biogenicAccountingMethodology"@),
        );
        let e = or_error(e, required::<String>(m, "boundaryProcessesDescription"@));
        let e = or_error(e, required::<Timestamp>(m, "referencePeriodStart"@));
        let e = or_error(e, required::<Timestamp>(m, "referencePeriodEnd"@));
        let e = or_error(e, scope_from_members(m));
        let e = or_error(e, optional::<EmissionFactorDSSet>(m, "secondaryEmissionFactorSources"@));
        let e = or_error(e, required::<ExemptedEmissionsPercent>(m, "exemptedEmissionsPercent"@));
        let e = or_error(e, required::<String>(m, "exemptedEmissionsDescription"@));
        let e = or_error(e, required::<bool>(m, "packagingEmissionsIncluded"@));
        let e = or_error(e, optional::<PositiveDecimal>(m, "packagingGhgEmissions"@));
        let e = or_error(e, optional::<String>(m, "allocationRulesDescription"@));
        let e = or_error(e, optional::<String>(m, "uncertaintyAssessmentDescription"@));
        let e = or_error(e, optional::<Percent>(m, "primaryDataShare"@));
        let e = or_error(e, optional::<DataQualityIndicators>(m, "dqi"@));
        let e = or_error(e, optional::<Assurance>(m, "assurance"@));
        e
    }

    /// The record that the members of an object stand for, where none of
    /// them is in error.
    pub open spec fn of_members(m: Map<Seq<char>, JsonModel>) -> CarbonFootprintModel {
        CarbonFootprintModel {
            declared_unit: required::<DeclaredUnit>(m, "declaredUnit"@)->Ok_0,
            unitary_product_amount: required::<StrictlyPositiveDecimal>(
                m,
                "unitaryProductAmount"@,
            )->Ok_0,
            p_cf_excluding_biogenic: required::<PositiveDecimal>(m, "pCfExcludingBiogenic"@)->Ok_0,
            p_cf_including_biogenic: optional::<WrappedDecimal>(m, "pCfIncludingBiogenic"@)->Ok_0,
            fossil_ghg_emissions: required::<PositiveDecimal>(m, "fossilGhgEmissions"@)->Ok_0,
            fossil_carbon_content: required::<PositiveDecimal>(m, "fossilCarbonContent"@)->Ok_0,
            biogenic_carbon_content: required::<PositiveDecimal>(m, "biogenicCarbonContent"@)->Ok_0,
            d_luc_ghg_emissions: optional::<PositiveDecimal>(m, "dLucGhgEmissions"@)->Ok_0,
            land_management_ghg_emissions: optional::<PositiveDecimal>(
                m,
                "landManagementGhgEmissions"@,
            )->Ok_0,
            other_biogenic_ghg_emissions: optional::<PositiveDecimal>(
                m,
                "otherBiogenicGhgEmissions"@,
            )->Ok_0,
            i_luc_ghg_emissions: optional::<PositiveDecimal>(m, "iLucGhgEmissions"@)->Ok_0,
            biogenic_carbon_withdrawal: optional::<NegativeDecimal>(
                m,
                "biogenicCarbonWithdrawal"@,
            )->Ok_0,
            aircraft_ghg_emissions: optional::<PositiveDecimal>(m, "aircraftGhgEmissions"@)->Ok_0,
            characterization_factors: required::<CharacterizationFactors>(
                m,
                "characterizationFactors"@,
            )->Ok_0,
            ipcc_characterization_factors_sources: required::<IpccCharacterizationFactorsSources>(
                m,
                "ipccCharacterizationFactorsSources"@,
            )->Ok_0,
            cross_sectoral_standards_used: required::<CrossSectoralStandardSet>(
                m,
                "crossSectoralStandardsUsed"@,
            )->Ok_0,
            product_or_sector_specific_rules: optional::<ProductOrSectorSpecificRuleSet>(
                m,
                "productOrSectorSpecificRules"@,
            )->Ok_0,
            biogenic_accounting_methodology: optional::<BiogenicAccountingMethodology>(
                m,
                "biogenicAccountingMethodology"@,
            )->Ok_0,
            boundary_processes_description: required::<String>(
                m,
                "boundaryProcessesDescription"@,
            )->Ok_0,
            reference_period_start: required::<Timestamp>(m, "referencePeriodStart"@)->Ok_0,
            reference_period_end: required::<Timestamp>(m, "referencePeriodEnd"@)->Ok_0,
            geographic_scope: scope_from_members(m)->Ok_0,
            secondary_emission_factor_sources: optional::<EmissionFactorDSSet>(
                m,
                "secondaryEmissionFactorSources"@,
            )->Ok_0,
            exempted_emissions_percent: required::<ExemptedEmissionsPercent>(
                m,
                "exemptedEmissionsPercent"@,
            )->Ok_0,
            exempted_emissions_description: required::<String>(
                m,
                "exemptedEmissionsDescription"@,
            )->Ok_0,
            packaging_emissions_included: required::<bool>(m, "packagingEmissionsIncluded"@)->Ok_0,
            packaging_ghg_emissions: optional::<PositiveDecimal>(m, "packagingGhgEmissions"@)->Ok_0,
            allocation_rules_description: optional::<String>(
                m,
                "allocationRulesDescription"@,
            )->Ok_0,
            uncertainty_assessment_description: optional::<String>(
                m,
                "uncertaintyAssessmentDescription"@,
            )->Ok_0,
            primary_data_share: optional::<Percent>(m, "primaryDataShare"@)->Ok_0,
            dqi: optional::<DataQualityIndicators>(m, "dqi"@)->Ok_0,
            assurance: optional::<Assurance>(m, "assurance"@)->Ok_0,
        }
    }

    /// The document of the member at a position, where the record has a
    /// value for it.
    pub open spec fn expected_member(v: CarbonFootprintModel, i: int) -> Option<JsonModel> {
        if i == 0 {
            Some(<DeclaredUnit as Wire>::to_wire(v.declared_unit))
        } else if i == 1 {
            Some(<StrictlyPositiveDecimal as Wire>::to_wire(v.unitary_product_amount))
        } else if i == 2 {
            Some(<PositiveDecimal as Wire>::to_wire(v.p_cf_excluding_biogenic))
        } else if i == 3 {
            wire_of_optional::<WrappedDecimal>(v.p_cf_including_biogenic)
        } else if i == 4 {
            Some(<PositiveDecimal as Wire>::to_wire(v.fossil_ghg_emissions))
        } else if i == 5 {
            Some(<PositiveDecimal as Wire>::to_wire(v.fossil_carbon_content))
        } else if i == 6 {
            Some(<PositiveDecimal as Wire>::to_wire(v.biogenic_carbon_content))
        } else if i == 7 {
            wire_of_optional::<PositiveDecimal>(v.d_luc_ghg_emissions)
        } else if i == 8 {
            wire_of_optional::<PositiveDecimal>(v.land_management_ghg_emissions)
        } else if i == 9 {
            wire_of_optional::<PositiveDecimal>(v.other_biogenic_ghg_emissions)
        } else if i == 10 {
            wire_of_optional::<PositiveDecimal>(v.i_luc_ghg_emissions)
        } else if i == 11 {
            wire_of_optional::<NegativeDecimal>(v.biogenic_carbon_withdrawal)
        } else if i == 12 {
            wire_of_optional::<PositiveDecimal>(v.aircraft_ghg_emissions)
        } else if i == 13 {
            Some(<CharacterizationFactors as Wire>::to_wire(v.characterization_factors))
        } else if i == 14 {
            Some(<IpccCharacterizationFactorsSources as Wire>::to_wire(v.ipcc_characterization_factors_sources))
        } else if i == 15 {
            Some(<CrossSectoralStandardSet as Wire>::to_wire(v.cross_sectoral_standards_used))
        } else if i == 16 {
            wire_of_optional::<ProductOrSectorSpecificRuleSet>(v.product_or_sector_specific_rules)
        } else if i == 17 {
            wire_of_optional::<BiogenicAccountingMethodology>(v.biogenic_accounting_methodology)
        } else if i == 18 {
            Some(<String as Wire>::to_wire(v.boundary_processes_description))
        } else if i == 19 {
            Some(<Timestamp as Wire>::to_wire(v.reference_period_start))
        } else if i == 20 {
            Some(<Timestamp as Wire>::to_wire(v.reference_period_end))
        } else if i == 21 {
            wire_of_optional::<String>(scope_keys(v.geographic_scope).region_or_subregion)
        } else if i == 22 {
            wire_of_optional::<String>(scope_keys(v.geographic_scope).country)
        } else if i == 23 {
            wire_of_optional::<String>(scope_keys(v.geographic_scope).country_subdivision)
        } else if i == 24 {
            wire_of_optional::<EmissionFactorDSSet>(v.secondary_emission_factor_sources)
        } else if i == 25 {
            Some(<ExemptedEmissionsPercent as Wire>::to_wire(v.exempted_emissions_percent))
        } else if i == 26 {
            Some(<String as Wire>::to_wire(v.exempted_emissions_description))
        } else if i == 27 {
            Some(<bool as Wire>::to_wire(v.packaging_emissions_included))
        } else if i == 28 {
            wire_of_optional::<PositiveDecimal>(v.packaging_ghg_emissions)
        } else if i == 29 {
            wire_of_optional::<String>(v.allocation_rules_description)
        } else if i == 30 {
            wire_of_optional::<String>(v.uncertainty_assessment_description)
        } else if i == 31 {
            wire_of_optional::<Percent>(v.primary_data_share)
        } else if i == 32 {
            wire_of_optional::<DataQualityIndicators>(v.dqi)
        } else if i == 33 {
            wire_of_optional::<Assurance>(v.assurance)
        } else {
            None
        }
    }

    /// The document of a faithful record holds exactly the members of the
    /// record.
    #[verifier::rlimit(60)]
    pub proof fn lemma_members_held(v: CarbonFootprintModel)
        requires
            <Self as Wire>::faithful(v),
        ensures
            <Self as Wire>::to_wire(v) is Object,
            holds(
                <Self as Wire>::to_wire(v)->Object_0,
                |name: Seq<char>| carbon_footprint_member(name),
                |i: int| Self::expected_member(v, i),
                34,
            ),
    {
        lemma_carbon_footprint_keys();
        let index = |name: Seq<char>| carbon_footprint_member(name);
        let expected = |i: int| Self::expected_member(v, i);
        let m0 = Map::<Seq<char>, JsonModel>::empty();
        let m1 = m0.insert("declaredUnit"@, <DeclaredUnit as Wire>::to_wire(v.declared_unit));
        lemma_required_member::<DeclaredUnit>(
            m0,
            index,
            expected,
            0,
            "declaredUnit"@,
            v.declared_unit,
        );
        let m2 = m1.insert("unitaryProductAmount"@, <StrictlyPositiveDecimal as Wire>::to_wire(v.unitary_product_amount));
        lemma_required_member::<StrictlyPositiveDecimal>(
            m1,
            index,
            expected,
            1,
            "unitaryProductAmount"@,
            v.unitary_product_amount,
        );
        let m3 = m2.insert("pCfExcludingBiogenic"@, <PositiveDecimal as Wire>::to_wire(v.p_cf_excluding_biogenic));
        lemma_required_member::<PositiveDecimal>(
            m2,
            index,
            expected,
            2,
            "pCfExcludingBiogenic"@,
            v.p_cf_excluding_biogenic,
        );
        let m4 = with_optional::<WrappedDecimal>(m3, "pCfIncludingBiogenic"@, v.p_cf_including_biogenic);
        lemma_optional_member::<WrappedDecimal>(
            m3,
            index,
            expected,
            3,
            "pCfIncludingBiogenic"@,
            v.p_cf_including_biogenic,
        );
        let m5 = m4.insert("fossilGhgEmissions"@, <PositiveDecimal as Wire>::to_wire(v.fossil_ghg_emissions));
        lemma_required_member::<PositiveDecimal>(
            m4,
            index,
            expected,
            4,
            "fossilGhgEmissions"@,
            v.fossil_ghg_emissions,
        );
        let m6 = m5.insert("fossilCarbonContent"@, <PositiveDecimal as Wire>::to_wire(v.fossil_carbon_content));
        lemma_required_member::<PositiveDecimal>(
            m5,
            index,
            expected,
            5,
            "fossilCarbonContent"@,
            v.fossil_carbon_content,
        );
        let m7 = m6.insert("biogenicCarbonContent"@, <PositiveDecimal as Wire>::to_wire(v.biogenic_carbon_content));
        lemma_required_member::<PositiveDecimal>(
            m6,
            index,
            expected,
            6,
            "biogenicCarbonContent"@,
            v.biogenic_carbon_content,
        );
        let m8 = with_optional::<PositiveDecimal>(m7, "dLucGhgEmissions"@, v.d_luc_ghg_emissions);
        lemma_optional_member::<PositiveDecimal>(
            m7,
            index,
            expected,
            7,
            "dLucGhgEmissions"@,
            v.d_luc_ghg_emissions,
        );
        let m9 = with_optional::<PositiveDecimal>(m8, "landManagementGhgEmissions"@, v.land_management_ghg_emissions);
        lemma_optional_member::<PositiveDecimal>(
            m8,
            index,
            expected,
            8,
            "landManagementGhgEmissions"@,
            v.land_management_ghg_emissions,
        );
        let m10 = with_optional::<PositiveDecimal>(m9, "otherBiogenicGhgEmissions"@, v.other_biogenic_ghg_emissions);
        lemma_optional_member::<PositiveDecimal>(
            m9,
            index,
            expected,
            9,
            "otherBiogenicGhgEmissions"@,
            v.other_biogenic_ghg_emissions,
        );
        let m11 = with_optional::<PositiveDecimal>(m10, "iLucGhgEmissions"@, v.i_luc_ghg_emissions);
        lemma_optional_member::<PositiveDecimal>(
            m10,
            index,
            expected,
            10,
            "iLucGhgEmissions"@,
            v.i_luc_ghg_emissions,
        );
        let m12 = with_optional::<NegativeDecimal>(m11, "biogenicCarbonWithdrawal"@, v.biogenic_carbon_withdrawal);
        lemma_optional_member::<NegativeDecimal>(
            m11,
            index,
            expected,
            11,
            "biogenicCarbonWithdrawal"@,
            v.biogenic_carbon_withdrawal,
        );
        let m13 = with_optional::<PositiveDecimal>(m12, "aircraftGhgEmissions"@, v.aircraft_ghg_emissions);
        lemma_optional_member::<PositiveDecimal>(
            m12,
            index,
            expected,
            12,
            "aircraftGhgEmissions"@,
            v.aircraft_ghg_emissions,
        );
        let m14 = m13.insert("characterizationFactors"@, <CharacterizationFactors as Wire>::to_wire(v.characterization_factors));
        lemma_required_member::<CharacterizationFactors>(
            m13,
            index,
            expected,
            13,
            "characterizationFactors"@,
            v.characterization_factors,
        );
        let m15 = m14.insert("ipccCharacterizationFactorsSources"@, <IpccCharacterizationFactorsSources as Wire>::to_wire(v.ipcc_characterization_factors_sources));
        lemma_required_member::<IpccCharacterizationFactorsSources>(
            m14,
            index,
            expected,
            14,
            "ipccCharacterizationFactorsSources"@,
            v.ipcc_characterization_factors_sources,
        );
        let m16 = m15.insert("crossSectoralStandardsUsed"@, <CrossSectoralStandardSet as Wire>::to_wire(v.cross_sectoral_standards_used));
        lemma_required_member::<CrossSectoralStandardSet>(
            m15,
            index,
            expected,
            15,
            "crossSectoralStandardsUsed"@,
            v.cross_sectoral_standards_used,
        );
        let m17 = with_optional::<ProductOrSectorSpecificRuleSet>(m16, "productOrSectorSpecificRules"@, v.product_or_sector_specific_rules);
        lemma_optional_member::<ProductOrSectorSpecificRuleSet>(
            m16,
            index,
            expected,
            16,
            "productOrSectorSpecificRules"@,
            v.product_or_sector_specific_rules,
        );
        let m18 = with_optional::<BiogenicAccountingMethodology>(m17, "biogenicAccountingMethodology"@, v.biogenic_accounting_methodology);
        lemma_optional_member::<BiogenicAccountingMethodology>(
            m17,
            index,
            expected,
            17,
            "biogenicAccountingMethodology"@,
            v.biogenic_accounting_methodology,
        );
        let m19 = m18.insert("boundaryProcessesDescription"@, <String as Wire>::to_wire(v.boundary_processes_description));
        lemma_required_member::<String>(
            m18,
            index,
            expected,
            18,
            "boundaryProcessesDescription"@,
            v.boundary_processes_description,
        );
        let m20 = m19.insert("referencePeriodStart"@, <Timestamp as Wire>::to_wire(v.reference_period_start));
        lemma_required_member::<Timestamp>(
            m19,
            index,
            expected,
            19,
            "referencePeriodStart"@,
            v.reference_period_start,
        );
        let m21 = m20.insert("referencePeriodEnd"@, <Timestamp as Wire>::to_wire(v.reference_period_end));
        lemma_required_member::<Timestamp>(
            m20,
            index,
            expected,
            20,
            "referencePeriodEnd"@,
            v.reference_period_end,
        );
        let keys = scope_keys(v.geographic_scope);
        let m22 = with_optional::<String>(m21, "geographyRegionOrSubregion"@, keys.region_or_subregion);
        lemma_optional_member::<String>(
            m21,
            index,
            expected,
            21,
            "geographyRegionOrSubregion"@,
            keys.region_or_subregion,
        );
        let m23 = with_optional::<String>(m22, "geographyCountry"@, keys.country);
        lemma_optional_member::<String>(
            m22,
            index,
            expected,
            22,
            "geographyCountry"@,
            keys.country,
        );
        let m24 = with_optional::<String>(m23, "geographyCountrySubdivision"@, keys.country_subdivision);
        lemma_optional_member::<String>(
            m23,
            index,
            expected,
            23,
            "geographyCountrySubdivision"@,
            keys.country_subdivision,
        );
        assert(m24 == with_scope(m21, v.geographic_scope));
        let m25 = with_optional::<EmissionFactorDSSet>(m24, "secondaryEmissionFactorSources"@, v.secondary_emission_factor_sources);
        lemma_optional_member::<EmissionFactorDSSet>(
            m24,
            index,
            expected,
            24,
            "secondaryEmissionFactorSources"@,
            v.secondary_emission_factor_sources,
        );
        let m26 = m25.insert("exemptedEmissionsPercent"@, <ExemptedEmissionsPercent as Wire>::to_wire(v.exempted_emissions_percent));
        lemma_required_member::<ExemptedEmissionsPercent>(
            m25,
            index,
            expected,
            25,
            "exemptedEmissionsPercent"@,
            v.exempted_emissions_percent,
        );
        let m27 = m26.insert("exemptedEmissionsDescription"@, <String as Wire>::to_wire(v.exempted_emissions_description));
        lemma_required_member::<String>(
            m26,
            index,
            expected,
            26,
            "exemptedEmissionsDescription"@,
            v.exempted_emissions_description,
        );
        let m28 = m27.insert("packagingEmissionsIncluded"@, <bool as Wire>::to_wire(v.packaging_emissions_included));
        lemma_required_member::<bool>(
            m27,
            index,
            expected,
            27,
            "packagingEmissionsIncluded"@,
            v.packaging_emissions_included,
        );
        let m29 = with_optional::<PositiveDecimal>(m28, "packagingGhgEmissions"@, v.packaging_ghg_emissions);
        lemma_optional_member::<PositiveDecimal>(
            m28,
            index,
            expected,
            28,
            "packagingGhgEmissions"@,
            v.packaging_ghg_emissions,
        );
        let m30 = with_optional::<String>(m29, "allocationRulesDescription"@, v.allocation_rules_description);
        lemma_optional_member::<String>(
            m29,
            index,
            expected,
            29,
            "allocationRulesDescription"@,
            v.allocation_rules_description,
        );
        let m31 = with_optional::<String>(m30, "uncertaintyAssessmentDescription"@, v.uncertainty_assessment_description);
        lemma_optional_member::<String>(
            m30,
            index,
            expected,
            30,
            "uncertaintyAssessmentDescription"@,
            v.uncertainty_assessment_description,
        );
        let m32 = with_optional::<Percent>(m31, "primaryDataShare"@, v.primary_data_share);
        lemma_optional_member::<Percent>(
            m31,
            index,
            expected,
            31,
            "primaryDataShare"@,
            v.primary_data_share,
        );
        let m33 = with_optional::<DataQualityIndicators>(m32, "dqi"@, v.dqi);
        lemma_optional_member::<DataQualityIndicators>(m32, index, expected, 32, "dqi"@, v.dqi);
        let m34 = with_optional::<Assurance>(m33, "assurance"@, v.assurance);
        lemma_optional_member::<Assurance>(m33, index, expected, 33, "assurance"@, v.assurance);
    }

    /// From an object that holds exactly the members of a faithful record
    /// the record is read back.
    #[verifier::rlimit(60)]
    pub proof fn lemma_members_read(v: CarbonFootprintModel, m: Map<Seq<char>, JsonModel>)
        requires
            <Self as Wire>::faithful(v),
            holds(
                m,
                |name: Seq<char>| carbon_footprint_member(name),
                |i: int| Self::expected_member(v, i),
                34,
            ),
        ensures
            Self::member_error(m) is None,
            Self::of_members(m) == v,
    {
        lemma_carbon_footprint_keys();
        <DeclaredUnit as Wire>::lemma_round_trip(v.declared_unit);
        assert(required::<DeclaredUnit>(m, "declaredUnit"@) == Ok::<
            DeclaredUnit,
            DecodeError,
        >(v.declared_unit));
        <StrictlyPositiveDecimal as Wire>::lemma_round_trip(v.unitary_product_amount);
        assert(required::<StrictlyPositiveDecimal>(m, "unitaryProductAmount"@) == Ok::<
            StrictlyPositiveDecimal,
            DecodeError,
        >(v.unitary_product_amount));
        <PositiveDecimal as Wire>::lemma_round_trip(v.p_cf_excluding_biogenic);
        assert(required::<PositiveDecimal>(m, "pCfExcludingBiogenic"@) == Ok::<
            PositiveDecimal,
            DecodeError,
        >(v.p_cf_excluding_biogenic));
        lemma_optional_round_trip::<WrappedDecimal>(v.p_cf_including_biogenic);
        assert(optional::<WrappedDecimal>(m, "pCfIncludingBiogenic"@) == Ok::<
            Option<WrappedDecimal>,
            DecodeError,
        >(v.p_cf_including_biogenic));
        <PositiveDecimal as Wire>::lemma_round_trip(v.fossil_ghg_emissions);
        assert(required::<PositiveDecimal>(m, "fossilGhgEmissions"@) == Ok::<
            PositiveDecimal,
            DecodeError,
        >(v.fossil_ghg_emissions));
        <PositiveDecimal as Wire>::lemma_round_trip(v.fossil_carbon_content);
        assert(required::<PositiveDecimal>(m, "fossilCarbonContent"@) == Ok::<
            PositiveDecimal,
            DecodeError,
        >(v.fossil_carbon_content));
        <PositiveDecimal as Wire>::lemma_round_trip(v.biogenic_carbon_content);
        assert(required::<PositiveDecimal>(m, "biogenicCarbonContent"@) == Ok::<
            PositiveDecimal,
            DecodeError,
        >(v.biogenic_carbon_content));
        lemma_optional_round_trip::<PositiveDecimal>(v.d_luc_ghg_emissions);
        assert(optional::<PositiveDecimal>(m, "dLucGhgEmissions"@) == Ok::<
            Option<PositiveDecimal>,
            DecodeError,
        >(v.d_luc_ghg_emissions));
        lemma_optional_round_trip::<PositiveDecimal>(v.land_management_ghg_emissions);
        assert(optional::<PositiveDecimal>(m, "landManagementGhgEmissions"@) == Ok::<
            Option<PositiveDecimal>,
            DecodeError,
        >(v.land_management_ghg_emissions));
        lemma_optional_round_trip::<PositiveDecimal>(v.other_biogenic_ghg_emissions);
        assert(optional::<PositiveDecimal>(m, "otherBiogenicGhgEmissions"@) == Ok::<
            Option<PositiveDecimal>,
            DecodeError,
        >(v.other_biogenic_ghg_emissions));
        lemma_optional_round_trip::<PositiveDecimal>(v.i_luc_ghg_emissions);
        assert(optional::<PositiveDecimal>(m, "iLucGhgEmissions"@) == Ok::<
            Option<PositiveDecimal>,
            DecodeError,
        >(v.i_luc_ghg_emissions));
        lemma_optional_round_trip::<NegativeDecimal>(v.biogenic_carbon_withdrawal);
        assert(optional::<NegativeDecimal>(m, "biogenicCarbonWithdrawal"@) == Ok::<
            Option<NegativeDecimal>,
            DecodeError,
        >(v.biogenic_carbon_withdrawal));
        lemma_optional_round_trip::<PositiveDecimal>(v.aircraft_ghg_emissions);
        assert(optional::<PositiveDecimal>(m, "aircraftGhgEmissions"@) == Ok::<
            Option<PositiveDecimal>,
            DecodeError,
        >(v.aircraft_ghg_emissions));
        <CharacterizationFactors as Wire>::lemma_round_trip(v.characterization_factors);
        assert(required::<CharacterizationFactors>(m, "characterizationFactors"@) == Ok::<
            CharacterizationFactors,
            DecodeError,
        >(v.characterization_factors));
        <IpccCharacterizationFactorsSources as Wire>::lemma_round_trip(v.ipcc_characterization_factors_sources);
        assert(required::<IpccCharacterizationFactorsSources>(m, "ipccCharacterizationFactorsSources"@) == Ok::<
            Seq<Seq<char>>,
            DecodeError,
        >(v.ipcc_characterization_factors_sources));
        <CrossSectoralStandardSet as Wire>::lemma_round_trip(v.cross_sectoral_standards_used);
        assert(required::<CrossSectoralStandardSet>(m, "crossSectoralStandardsUsed"@) == Ok::<
            Seq<CrossSectoralStandard>,
            DecodeError,
        >(v.cross_sectoral_standards_used));
        lemma_optional_round_trip::<ProductOrSectorSpecificRuleSet>(v.product_or_sector_specific_rules);
        assert(optional::<ProductOrSectorSpecificRuleSet>(m, "productOrSectorSpecificRules"@) == Ok::<
            Option<Seq<ProductOrSectorSpecificRuleModel>>,
            DecodeError,
        >(v.product_or_sector_specific_rules));
        lemma_optional_round_trip::<BiogenicAccountingMethodology>(v.biogenic_accounting_methodology);
        assert(optional::<BiogenicAccountingMethodology>(m, "biogenicAccountingMethodology"@) == Ok::<
            Option<BiogenicAccountingMethodology>,
            DecodeError,
        >(v.biogenic_accounting_methodology));
        <String as Wire>::lemma_round_trip(v.boundary_processes_description);
        assert(required::<String>(m, "boundaryProcessesDescription"@) == Ok::<
            Seq<char>,
            DecodeError,
        >(v.boundary_processes_description));
        <Timestamp as Wire>::lemma_round_trip(v.reference_period_start);
        assert(required::<Timestamp>(m, "referencePeriodStart"@) == Ok::<
            Timestamp,
            DecodeError,
        >(v.reference_period_start));
        <Timestamp as Wire>::lemma_round_trip(v.reference_period_end);
        assert(required::<Timestamp>(m, "referencePeriodEnd"@) == Ok::<
            Timestamp,
            DecodeError,
        >(v.reference_period_end));
        lemma_scope_keys_round_trip(v.geographic_scope);
        assert(scope_from_members(m) == Ok::<
            Option<GeographicScopeView>,
            DecodeError,
        >(v.geographic_scope));
        lemma_optional_round_trip::<EmissionFactorDSSet>(v.secondary_emission_factor_sources);
        assert(optional::<EmissionFactorDSSet>(m, "secondaryEmissionFactorSources"@) == Ok::<
            Option<Seq<EmissionFactorDSModel>>,
            DecodeError,
        >(v.secondary_emission_factor_sources));
        <ExemptedEmissionsPercent as Wire>::lemma_round_trip(v.exempted_emissions_percent);
        assert(required::<ExemptedEmissionsPercent>(m, "exemptedEmissionsPercent"@) == Ok::<
            ExemptedEmissionsPercent,
            DecodeError,
        >(v.exempted_emissions_percent));
        <String as Wire>::lemma_round_trip(v.exempted_emissions_description);
        assert(required::<String>(m, "exemptedEmissionsDescription"@) == Ok::<
            Seq<char>,
            DecodeError,
        >(v.exempted_emissions_description));
        <bool as Wire>::lemma_round_trip(v.packaging_emissions_included);
        assert(required::<bool>(m, "packagingEmissionsIncluded"@) == Ok::<
            bool,
            DecodeError,
        >(v.packaging_emissions_included));
        lemma_optional_round_trip::<PositiveDecimal>(v.packaging_ghg_emissions);
        assert(optional::<PositiveDecimal>(m, "packagingGhgEmissions"@) == Ok::<
            Option<PositiveDecimal>,
            DecodeError,
        >(v.packaging_ghg_emissions));
        lemma_optional_round_trip::<String>(v.allocation_rules_description);
        assert(optional::<String>(m, "allocationRulesDescription"@) == Ok::<
            Option<Seq<char>>,
            DecodeError,
        >(v.allocation_rules_description));
        lemma_optional_round_trip::<String>(v.uncertainty_assessment_description);
        assert(optional::<String>(m, "uncertaintyAssessmentDescription"@) == Ok::<
            Option<Seq<char>>,
            DecodeError,
        >(v.uncertainty_assessment_description));
        lemma_optional_round_trip::<Percent>(v.primary_data_share);
        assert(optional::<Percent>(m, "primaryDataShare"@) == Ok::<
            Option<Percent>,
            DecodeError,
        >(v.primary_data_share));
        lemma_optional_round_trip::<DataQualityIndicators>(v.dqi);
        assert(optional::<DataQualityIndicators>(m, "dqi"@) == Ok::<
            Option<DataQualityIndicatorsModel>,
            DecodeError,
        >(v.dqi));
        lemma_optional_round_trip::<Assurance>(v.assurance);
        assert(optional::<Assurance>(m, "assurance"@) == Ok::<
            Option<AssuranceModel>,
            DecodeError,
        >(v.assurance));
    }
}

impl Wire for CarbonFootprint {
    open spec fn to_wire(v: CarbonFootprintModel) -> JsonModel {
        let m = Map::<Seq<char>, JsonModel>::empty();
        let m = m.insert("declaredUnit"@, <DeclaredUnit as Wire>::to_wire(v.declared_unit));
        let m = m.insert("unitaryProductAmount"@, <StrictlyPositiveDecimal as Wire>::to_wire(v.unitary_product_amount));
        let m = m.insert("pCfExcludingBiogenic"@, <PositiveDecimal as Wire>::to_wire(v.p_cf_excluding_biogenic));
        let m = with_optional::<WrappedDecimal>(m, "pCfIncludingBiogenic"@, v.p_cf_including_biogenic);
        let m = m.insert("fossilGhgEmissions"@, <PositiveDecimal as Wire>::to_wire(v.fossil_ghg_emissions));
        let m = m.insert("fossilCarbonContent"@, <PositiveDecimal as Wire>::to_wire(v.fossil_carbon_content));
        let m = m.insert("biogenicCarbonContent"@, <PositiveDecimal as Wire>::to_wire(v.biogenic_carbon_content));
        let m = with_optional::<PositiveDecimal>(m, "dLucGhgEmissions"@, v.d_luc_ghg_emissions);
        let m = with_optional::<PositiveDecimal>(m, "landManagementGhgEmissions"@, v.land_management_ghg_emissions);
        let m = with_optional::<PositiveDecimal>(m, "otherBiogenicGhgEmissions"@, v.other_biogenic_ghg_emissions);
        let m = with_optional::<PositiveDecimal>(m, "iLucGhgEmissions"@, v.i_luc_ghg_emissions);
        let m = with_optional::<NegativeDecimal>(m, "biogenicCarbonWithdrawal"@, v.biogenic_carbon_withdrawal);
        let m = with_optional::<PositiveDecimal>(m, "aircraftGhgEmissions"@, v.aircraft_ghg_emissions);
        let m = m.insert("characterizationFactors"@, <CharacterizationFactors as Wire>::to_wire(v.characterization_factors));
        let m = m.insert("ipccCharacterizationFactorsSources"@, <IpccCharacterizationFactorsSources as Wire>::to_wire(v.ipcc_characterization_factors_sources));
        let m = m.insert("crossSectoralStandardsUsed"@, <CrossSectoralStandardSet as Wire>::to_wire(v.cross_sectoral_standards_used));
        let m = with_optional::<ProductOrSectorSpecificRuleSet>(m, "productOrSectorSpecificRules"@, v.product_or_sector_specific_rules);
        let m = with_optional::<BiogenicAccountingMethodology>(m, "biogenicAccountingMethodology"@, v.biogenic_accounting_methodology);
        let m = m.insert("boundaryProcessesDescription"@, <String as Wire>::to_wire(v.boundary_processes_description));
        let m = m.insert("referencePeriodStart"@, <Timestamp as Wire>::to_wire(v.reference_period_start));
        let m = m.insert("referencePeriodEnd"@, <Timestamp as Wire>::to_wire(v.reference_period_end));
        let m = with_scope(m, v.geographic_scope);
        let m = with_optional::<EmissionFactorDSSet>(m, "secondaryEmissionFactorSources"@, v.secondary_emission_factor_sources);
        let m = m.insert("exemptedEmissionsPercent"@, <ExemptedEmissionsPercent as Wire>::to_wire(v.exempted_emissions_percent));
        let m = m.insert("exemptedEmissionsDescription"@, <String as Wire>::to_wire(v.exempted_emissions_description));
        let m = m.insert("packagingEmissionsIncluded"@, <bool as Wire>::to_wire(v.packaging_emissions_included));
        let m = with_optional::<PositiveDecimal>(m, "packagingGhgEmissions"@, v.packaging_ghg_emissions);
        let m = with_optional::<String>(m, "allocationRulesDescription"@, v.allocation_rules_description);
        let m = with_optional::<String>(m, "uncertaintyAssessmentDescription"@, v.uncertainty_assessment_description);
        let m = with_optional::<Percent>(m, "primaryDataShare"@, v.primary_data_share);
        let m = with_optional::<DataQualityIndicators>(m, "dqi"@, v.dqi);
        let m = with_optional::<Assurance>(m, "assurance"@, v.assurance);
        JsonModel::Object(m)
    }

    open spec fn from_wire(j: JsonModel) -> Result<CarbonFootprintModel, DecodeError> {
        match j {
            JsonModel::Object(m) => match Self::member_error(m) {
                Some(e) => Err(e),
                None => Ok(Self::of_members(m)),
            },
            _ => Err(DecodeError::WrongType),
        }
    }

    open spec fn faithful(v: CarbonFootprintModel) -> bool {
        &&& <DeclaredUnit as Wire>::faithful(v.declared_unit)
        &&& <StrictlyPositiveDecimal as Wire>::faithful(v.unitary_product_amount)
        &&& <PositiveDecimal as Wire>::faithful(v.p_cf_excluding_biogenic)
        &&& faithful_optional::<WrappedDecimal>(v.p_cf_including_biogenic)
        &&& <PositiveDecimal as Wire>::faithful(v.fossil_ghg_emissions)
        &&& <PositiveDecimal as Wire>::faithful(v.fossil_carbon_content)
        &&& <PositiveDecimal as Wire>::faithful(v.biogenic_carbon_content)
        &&& faithful_optional::<PositiveDecimal>(v.d_luc_ghg_emissions)
        &&& faithful_optional::<PositiveDecimal>(v.land_management_ghg_emissions)
        &&& faithful_optional::<PositiveDecimal>(v.other_biogenic_ghg_emissions)
        &&& faithful_optional::<PositiveDecimal>(v.i_luc_ghg_emissions)
        &&& faithful_optional::<NegativeDecimal>(v.biogenic_carbon_withdrawal)
        &&& faithful_optional::<PositiveDecimal>(v.aircraft_ghg_emissions)
        &&& <CharacterizationFactors as Wire>::faithful(v.characterization_factors)
        &&& <IpccCharacterizationFactorsSources as Wire>::faithful(v.ipcc_characterization_factors_sources)
        &&& <CrossSectoralStandardSet as Wire>::faithful(v.cross_sectoral_standards_used)
        &&& faithful_optional::<ProductOrSectorSpecificRuleSet>(v.product_or_sector_specific_rules)
        &&& faithful_optional::<BiogenicAccountingMethodology>(v.biogenic_accounting_methodology)
        &&& <String as Wire>::faithful(v.boundary_processes_description)
        &&& <Timestamp as Wire>::faithful(v.reference_period_start)
        &&& <Timestamp as Wire>::faithful(v.reference_period_end)
        &&& scope_faithful(v.geographic_scope)
        &&& faithful_optional::<EmissionFactorDSSet>(v.secondary_emission_factor_sources)
        &&& <ExemptedEmissionsPercent as Wire>::faithful(v.exempted_emissions_percent)
        &&& <String as Wire>::faithful(v.exempted_emissions_description)
        &&& <bool as Wire>::faithful(v.packaging_emissions_included)
        &&& faithful_optional::<PositiveDecimal>(v.packaging_ghg_emissions)
        &&& faithful_optional::<String>(v.allocation_rules_description)
        &&& faithful_optional::<String>(v.uncertainty_assessment_description)
        &&& faithful_optional::<Percent>(v.primary_data_share)
        &&& faithful_optional::<DataQualityIndicators>(v.dqi)
        &&& faithful_optional::<Assurance>(v.assurance)
    }

    proof fn lemma_round_trip(v: CarbonFootprintModel) {
        Self::lemma_members_held(v);
        Self::lemma_members_read(v, Self::to_wire(v)->Object_0);
    }

    fn to_json(&self) -> (r: Json) {
        let mut entries: Vec<(String, Json)> = Vec::new();
        put_value(&mut entries, "declaredUnit", &self.declared_unit);
        put_value(&mut entries, "unitaryProductAmount", &self.unitary_product_amount);
        put_value(&mut entries, "pCfExcludingBiogenic", &self.p_cf_excluding_biogenic);
        put_optional(&mut entries, "pCfIncludingBiogenic", &self.p_cf_including_biogenic);
        put_value(&mut entries, "fossilGhgEmissions", &self.fossil_ghg_emissions);
        put_value(&mut entries, "fossilCarbonContent", &self.fossil_carbon_content);
        put_value(&mut entries, "biogenicCarbonContent", &self.biogenic_carbon_content);
        put_optional(&mut entries, "dLucGhgEmissions", &self.d_luc_ghg_emissions);
        put_optional(&mut entries, "landManagementGhgEmissions", &self.land_management_ghg_emissions);
        put_optional(&mut entries, "otherBiogenicGhgEmissions", &self.other_biogenic_ghg_emissions);
        put_optional(&mut entries, "iLucGhgEmissions", &self.i_luc_ghg_emissions);
        put_optional(&mut entries, "biogenicCarbonWithdrawal", &self.biogenic_carbon_withdrawal);
        put_optional(&mut entries, "aircraftGhgEmissions", &self.aircraft_ghg_emissions);
        put_value(&mut entries, "characterizationFactors", &self.characterization_factors);
        put_value(&mut entries, "ipccCharacterizationFactorsSources", &self.ipcc_characterization_factors_sources);
        put_value(&mut entries, "crossSectoralStandardsUsed", &self.cross_sectoral_standards_used);
        put_optional(&mut entries, "productOrSectorSpecificRules", &self.product_or_sector_specific_rules);
        put_optional(&mut entries, "biogenicAccountingMethodology", &self.biogenic_accounting_methodology);
        put_value(&mut entries, "boundaryProcessesDescription", &self.boundary_processes_description);
        put_value(&mut entries, "referencePeriodStart", &self.reference_period_start);
        put_value(&mut entries, "referencePeriodEnd", &self.reference_period_end);
        put_scope(&mut entries, &self.geographic_scope);
        put_optional(&mut entries, "secondaryEmissionFactorSources", &self.secondary_emission_factor_sources);
        put_value(&mut entries, "exemptedEmissionsPercent", &self.exempted_emissions_percent);
        put_value(&mut entries, "exemptedEmissionsDescription", &self.exempted_emissions_description);
        put_value(&mut entries, "packagingEmissionsIncluded", &self.packaging_emissions_included);
        put_optional(&mut entries, "packagingGhgEmissions", &self.packaging_ghg_emissions);
        put_optional(&mut entries, "allocationRulesDescription", &self.allocation_rules_description);
        put_optional(&mut entries, "uncertaintyAssessmentDescription", &self.uncertainty_assessment_description);
        put_optional(&mut entries, "primaryDataShare", &self.primary_data_share);
        put_optional(&mut entries, "dqi", &self.dqi);
        put_optional(&mut entries, "assurance", &self.assurance);
        Json::Object(entries)
    }

    fn from_json(j: &Json) -> (r: Result<CarbonFootprint, DecodeError>) {
        let entries = match j {
            Json::Object(entries) => entries,
            _ => {
                return Err(DecodeError::WrongType);
            },
        };
        let declared_unit = read_required::<DeclaredUnit>(entries, "declaredUnit")?;
        let unitary_product_amount = read_required::<StrictlyPositiveDecimal>(entries, "unitaryProductAmount")?;
        let p_cf_excluding_biogenic = read_required::<PositiveDecimal>(entries, "pCfExcludingBiogenic")?;
        let p_cf_including_biogenic = read_optional::<WrappedDecimal>(entries, "pCfIncludingBiogenic")?;
        let fossil_ghg_emissions = read_required::<PositiveDecimal>(entries, "fossilGhgEmissions")?;
        let fossil_carbon_content = read_required::<PositiveDecimal>(entries, "fossilCarbonContent")?;
        let biogenic_carbon_content = read_required::<PositiveDecimal>(entries, "biogenicCarbonContent")?;
        let d_luc_ghg_emissions = read_optional::<PositiveDecimal>(entries, "dLucGhgEmissions")?;
        let land_management_ghg_emissions = read_optional::<PositiveDecimal>(entries, "landManagementGhgEmissions")?;
        let other_biogenic_ghg_emissions = read_optional::<PositiveDecimal>(entries, "otherBiogenicGhgEmissions")?;
        let i_luc_ghg_emissions = read_optional::<PositiveDecimal>(entries, "iLucGhgEmissions")?;
        let biogenic_carbon_withdrawal = read_optional::<NegativeDecimal>(entries, "biogenicCarbonWithdrawal")?;
        let aircraft_ghg_emissions = read_optional::<PositiveDecimal>(entries, "aircraftGhgEmissions")?;
        let characterization_factors = read_required::<CharacterizationFactors>(entries, "characterizationFactors")?;
        let ipcc_characterization_factors_sources = read_required::<IpccCharacterizationFactorsSources>(entries, "ipccCharacterizationFactorsSources")?;
        let cross_sectoral_standards_used = read_required::<CrossSectoralStandardSet>(entries, "crossSectoralStandardsUsed")?;
        let product_or_sector_specific_rules = read_optional::<ProductOrSectorSpecificRuleSet>(entries, "productOrSectorSpecificRules")?;
        let biogenic_accounting_methodology = read_optional::<BiogenicAccountingMethodology>(entries, "biogenicAccountingMethodology")?;
        let boundary_processes_description = read_required::<String>(entries, "boundaryProcessesDescription")?;
        let reference_period_start = read_required::<Timestamp>(entries, "referencePeriodStart")?;
        let reference_period_end = read_required::<Timestamp>(entries, "referencePeriodEnd")?;
        let geographic_scope = read_scope(entries)?;
        let secondary_emission_factor_sources = read_optional::<EmissionFactorDSSet>(entries, "secondaryEmissionFactorSources")?;
        let exempted_emissions_percent = read_required::<ExemptedEmissionsPercent>(entries, "exemptedEmissionsPercent")?;
        let exempted_emissions_description = read_required::<String>(entries, "exemptedEmissionsDescription")?;
        let packaging_emissions_included = read_required::<bool>(entries, "packagingEmissionsIncluded")?;
        let packaging_ghg_emissions = read_optional::<PositiveDecimal>(entries, "packagingGhgEmissions")?;
        let allocation_rules_description = read_optional::<String>(entries, "allocationRulesDescription")?;
        let uncertainty_assessment_description = read_optional::<String>(entries, "uncertaintyAssessmentDescription")?;
        let primary_data_share = read_optional::<Percent>(entries, "primaryDataShare")?;
        let dqi = read_optional::<DataQualityIndicators>(entries, "dqi")?;
        let assurance = read_optional::<Assurance>(entries, "assurance")?;
        Ok(CarbonFootprint {
            declared_unit,
            unitary_product_amount,
            p_cf_excluding_biogenic,
            p_cf_including_biogenic,
            fossil_ghg_emissions,
            fossil_carbon_content,
            biogenic_carbon_content,
            d_luc_ghg_emissions,
            land_management_ghg_emissions,
            other_biogenic_ghg_emissions,
            i_luc_ghg_emissions,
            biogenic_carbon_withdrawal,
            aircraft_ghg_emissions,
            characterization_factors,
            ipcc_characterization_factors_sources,
            cross_sectoral_standards_used,
            product_or_sector_specific_rules,
            biogenic_accounting_methodology,
            boundary_processes_description,
            reference_period_start,
            reference_period_end,
            geographic_scope,
            secondary_emission_factor_sources,
            exempted_emissions_percent,
            exempted_emissions_description,
            packaging_emissions_included,
            packaging_ghg_emissions,
            allocation_rules_description,
            uncertainty_assessment_description,
            primary_data_share,
            dqi,
            assurance,
        })
    }
}

/// A product footprint as a mathematical value.
pub struct ProductFootprintModel<P> {
    pub id: PfId,
    pub spec_version: Seq<char>,
    pub preceding_pf_ids: Option<Seq<PfId>>,
    pub version: VersionInteger,
    pub created: Timestamp,
    pub updated: Option<Timestamp>,
    pub status: PfStatus,
    pub status_comment: Option<Seq<char>>,
    pub validity_period_start: Option<Timestamp>,
    pub validity_period_end: Option<Timestamp>,
    pub company_name: Seq<char>,
    pub company_ids: Seq<Seq<char>>,
    pub product_description: Seq<char>,
    pub product_ids: Seq<Seq<char>>,
    pub product_category_cpc: Seq<char>,
    pub product_name_company: Seq<char>,
    pub comment: Seq<char>,
    pub pcf: CarbonFootprintModel,
    pub extensions: Option<Seq<DataModelExtensionModel<P>>>,
}

impl<T: DeepView> DeepView for ProductFootprint<T> {
    type V = ProductFootprintModel<T::V>;

    open spec fn deep_view(&self) -> ProductFootprintModel<T::V> {
        ProductFootprintModel {
            id: self.id.deep_view(),
            spec_version: self.spec_version.deep_view(),
            preceding_pf_ids: self.preceding_pf_ids.deep_view(),
            version: self.version.deep_view(),
            created: self.created.deep_view(),
            updated: self.updated.deep_view(),
            status: self.status.deep_view(),
            status_comment: self.status_comment.deep_view(),
            validity_period_start: self.validity_period_start.deep_view(),
            validity_period_end: self.validity_period_end.deep_view(),
            company_name: self.company_name.deep_view(),
            company_ids: self.company_ids.deep_view(),
            product_description: self.product_description.deep_view(),
            product_ids: self.product_ids.deep_view(),
            product_category_cpc: self.product_category_cpc.deep_view(),
            product_name_company: self.product_name_company.deep_view(),
            comment: self.comment.deep_view(),
            pcf: self.pcf.deep_view(),
            extensions: self.extensions.deep_view(),
        }
    }
}

/// The position of a member of a product footprint by its name, or -1 for any
/// other name.
pub open spec fn product_footprint_member(name: Seq<char>) -> int {
    if name == "id"@ {
        0
    } else if name == "specVersion"@ {
        1
    } else if name == "precedingPfIds"@ {
        2
    } else if name == "version"@ {
        3
    } else if name == "created"@ {
        4
    } else if name == "updated"@ {
        5
    } else if name == "status"@ {
        6
    } else if name == "statusComment"@ {
        7
    } else if name == "validityPeriodStart"@ {
        8
    } else if name == "validityPeriodEnd"@ {
        9
    } else if name == "companyName"@ {
        10
    } else if name == "companyIds"@ {
        11
    } else if name == "productDescription"@ {
        12
    } else if name == "productIds"@ {
        13
    } else if name == "productCategoryCpc"@ {
        14
    } else if name == "productNameCompany"@ {
        15
    } else if name == "comment"@ {
        16
    } else if name == "pcf"@ {
        17
    } else if name == "extensions"@ {
        18
    } else {
        -1
    }
}

/// Each member of a product footprint has a position of its own: no two have
/// the same name.
pub proof fn lemma_product_footprint_keys()
    ensures
        product_footprint_member("id"@) == 0,
        product_footprint_member("specVersion"@) == 1,
        product_footprint_member("precedingPfIds"@) == 2,
        product_footprint_member("version"@) == 3,
        product_footprint_member("created"@) == 4,
        product_footprint_member("updated"@) == 5,
        product_footprint_member("status"@) == 6,
        product_footprint_member("statusComment"@) == 7,
        product_footprint_member("validityPeriodStart"@) == 8,
        product_footprint_member("validityPeriodEnd"@) == 9,
        product_footprint_member("companyName"@) == 10,
        product_footprint_member("companyIds"@) == 11,
        product_footprint_member("productDescription"@) == 12,
        product_footprint_member("productIds"@) == 13,
        product_footprint_member("productCategoryCpc"@) == 14,
        product_footprint_member("productNameCompany"@) == 15,
        product_footprint_member("comment"@) == 16,
        product_footprint_member("pcf"@) == 17,
        product_footprint_member("extensions"@) == 18,
{
    reveal_strlit("id");
    reveal_strlit("specVersion");
    reveal_strlit("precedingPfIds");
    reveal_strlit("version");
    reveal_strlit("created");
    reveal_strlit("updated");
    reveal_strlit("status");
    reveal_strlit("statusComment");
    reveal_strlit("validityPeriodStart");
    reveal_strlit("validityPeriodEnd");
    reveal_strlit("companyName");
    reveal_strlit("companyIds");
    reveal_strlit("productDescription");
    reveal_strlit("productIds");
    reveal_strlit("productCategoryCpc");
    reveal_strlit("productNameCompany");
    reveal_strlit("comment");
    reveal_strlit("pcf");
    reveal_strlit("extensions");
    assert("id"@.len() == 2);
    assert("specVersion"@.len() == 11);
    assert("precedingPfIds"@.len() == 14);
    assert("version"@.len() == 7);
    assert("created"@.len() == 7);
    assert("updated"@.len() == 7);
    assert("status"@.len() == 6);
    assert("statusComment"@.len() == 13);
    assert("validityPeriodStart"@.len() == 19);
    assert("validityPeriodEnd"@.len() == 17);
    assert("companyName"@.len() == 11);
    assert("companyIds"@.len() == 10);
    assert("productDescription"@.len() == 18);
    assert("productIds"@.len() == 10);
    assert("productCategoryCpc"@.len() == 18);
    assert("productNameCompany"@.len() == 18);
    assert("comment"@.len() == 7);
    assert("pcf"@.len() == 3);
    assert("extensions"@.len() == 10);
    assert("specVersion"@[0] != "companyName"@[0]);
    assert("version"@[0] != "created"@[0]);
    assert("version"@[0] != "updated"@[0]);
    assert("version"@[0] != "comment"@[0]);
    assert("created"@[0] != "updated"@[0]);
    assert("created"@[1] != "comment"@[1]);
    assert("updated"@[0] != "comment"@[0]);
    assert("companyIds"@[0] != "productIds"@[0]);
    assert("companyIds"@[0] != "extensions"@[0]);
    assert("productDescription"@[7] != "productCategoryCpc"@[7]);
    assert("productDescription"@[7] != "productNameCompany"@[7]);
    assert("productIds"@[0] != "extensions"@[0]);
    assert("productCategoryCpc"@[7] != "productNameCompany"@[7]);
}

impl<T: Wire> ProductFootprint<T> {
    /// The first error among the members of an object, in the order in
    /// which the record declares them.
    pub open spec fn member_error(m: Map<Seq<char>, JsonModel>) -> Option<DecodeError> {
        let e = None;
        let e = or_error(e, required::<PfId>(m, "id"@));
        let e = or_error(e, required::<SpecVersionString>(m, "specVersion"@));
        let e = or_error(e, optional::<NonEmptyPfIdVec>(m, "precedingPfIds"@));
        let e = or_error(e, required::<VersionInteger>(m, "version"@));
        let e = or_error(e, required::<Timestamp>(m, "created"@));
        let e = or_error(e, optional::<Timestamp>(m, "updated"@));
        let e = or_error(e, required::<PfStatus>(m, "status"@));
        let e = or_error(e, optional::<String>(m, "statusComment"@));
        let e = or_error(e, optional::<Timestamp>(m, "validityPeriodStart"@));
        let e = or_error(e, optional::<Timestamp>(m, "validityPeriodEnd"@));
        let e = or_error(e, required::<NonEmptyString>(m, "companyName"@));
        let e = or_error(e, required::<CompanyIdSet>(m, "companyIds"@));
        let e = or_error(e, required::<String>(m, "productDescription"@));
        let e = or_error(e, required::<ProductIdSet>(m, "productIds"@));
        let e = or_error(e, required::<NonEmptyString>(m, "productCategoryCpc"@));
        let e = or_error(e, required::<NonEmptyString>(m, "productNameCompany"@));
        let e = or_error(e, required::<String>(m, "comment"@));
        let e = or_error(e, required::<CarbonFootprint>(m, "pcf"@));
        let e = or_error(e, optional::<Vec<DataModelExtension<T>>>(m, "extensions"@));
        e
    }

    /// The record that the members of an object stand for, where none of
    /// them is in error.
    pub open spec fn of_members(m: Map<Seq<char>, JsonModel>) -> ProductFootprintModel<T::V> {
        ProductFootprintModel {
            id: required::<PfId>(m, "id"@)->Ok_0,
            spec_version: required::<SpecVersionString>(m, "specVersion"@)->Ok_0,
            preceding_pf_ids: optional::<NonEmptyPfIdVec>(m, "precedingPfIds"@)->Ok_0,
            version: required::<VersionInteger>(m, "version"@)->Ok_0,
            created: required::<Timestamp>(m, "created"@)->Ok_0,
            updated: optional::<Timestamp>(m, "updated"@)->Ok_0,
            status: required::<PfStatus>(m, "status"@)->Ok_0,
            status_comment: optional::<String>(m, "statusComment"@)->Ok_0,
            validity_period_start: optional::<Timestamp>(m, "validityPeriodStart"@)->Ok_0,
            validity_period_end: optional::<Timestamp>(m, "validityPeriodEnd"@)->Ok_0,
            company_name: required::<NonEmptyString>(m, "companyName"@)->Ok_0,
            company_ids: required::<CompanyIdSet>(m, "companyIds"@)->Ok_0,
            product_description: required::<String>(m, "productDescription"@)->Ok_0,
            product_ids: required::<ProductIdSet>(m, "productIds"@)->Ok_0,
            product_category_cpc: required::<NonEmptyString>(m, "productCategoryCpc"@)->Ok_0,
            product_name_company: required::<NonEmptyString>(m, "productNameCompany"@)->Ok_0,
            comment: required::<String>(m, "comment"@)->Ok_0,
            pcf: required::<CarbonFootprint>(m, "pcf"@)->Ok_0,
            extensions: optional::<Vec<DataModelExtension<T>>>(m, "extensions"@)->Ok_0,
        }
    }

    /// The document of the member at a position, where the record has a
    /// value for it.
    pub open spec fn expected_member(v: ProductFootprintModel<T::V>, i: int) -> Option<JsonModel> {
        if i == 0 {
            Some(<PfId as Wire>::to_wire(v.id))
        } else if i == 1 {
            Some(<SpecVersionString as Wire>::to_wire(v.spec_version))
        } else if i == 2 {
            wire_of_optional::<NonEmptyPfIdVec>(v.preceding_pf_ids)
        } else if i == 3 {
            Some(<VersionInteger as Wire>::to_wire(v.version))
        } else if i == 4 {
            Some(<Timestamp as Wire>::to_wire(v.created))
        } else if i == 5 {
            wire_of_optional::<Timestamp>(v.updated)
        } else if i == 6 {
            Some(<PfStatus as Wire>::to_wire(v.status))
        } else if i == 7 {
            wire_of_optional::<String>(v.status_comment)
        } else if i == 8 {
            wire_of_optional::<Timestamp>(v.validity_period_start)
        } else if i == 9 {
            wire_of_optional::<Timestamp>(v.validity_period_end)
        } else if i == 10 {
            Some(<NonEmptyString as Wire>::to_wire(v.company_name))
        } else if i == 11 {
            Some(<CompanyIdSet as Wire>::to_wire(v.company_ids))
        } else if i == 12 {
            Some(<String as Wire>::to_wire(v.product_description))
        } else if i == 13 {
            Some(<ProductIdSet as Wire>::to_wire(v.product_ids))
        } else if i == 14 {
            Some(<NonEmptyString as Wire>::to_wire(v.product_category_cpc))
        } else if i == 15 {
            Some(<NonEmptyString as Wire>::to_wire(v.product_name_company))
        } else if i == 16 {
            Some(<String as Wire>::to_wire(v.comment))
        } else if i == 17 {
            Some(<CarbonFootprint as Wire>::to_wire(v.pcf))
        } else if i == 18 {
            wire_of_optional::<Vec<DataModelExtension<T>>>(v.extensions)
        } else {
            None
        }
    }

    /// The document of a faithful record holds exactly the members of the
    /// record.
    #[verifier::rlimit(60)]
    pub proof fn lemma_members_held(v: ProductFootprintModel<T::V>)
        requires
            <Self as Wire>::faithful(v),
        ensures
            <Self as Wire>::to_wire(v) is Object,
            holds(
                <Self as Wire>::to_wire(v)->Object_0,
                |name: Seq<char>| product_footprint_member(name),
                |i: int| Self::expected_member(v, i),
                19,
            ),
    {
        lemma_product_footprint_keys();
        let index = |name: Seq<char>| product_footprint_member(name);
        let expected = |i: int| Self::expected_member(v, i);
        let m0 = Map::<Seq<char>, JsonModel>::empty();
        let m1 = m0.insert("id"@, <PfId as Wire>::to_wire(v.id));
        lemma_required_member::<PfId>(m0, index, expected, 0, "id"@, v.id);
        let m2 = m1.insert("specVersion"@, <SpecVersionString as Wire>::to_wire(v.spec_version));
        lemma_required_member::<SpecVersionString>(
            m1,
            index,
            expected,
            1,
            "specVersion"@,
            v.spec_version,
        );
        let m3 = with_optional::<NonEmptyPfIdVec>(m2, "precedingPfIds"@, v.preceding_pf_ids);
        lemma_optional_member::<NonEmptyPfIdVec>(
            m2,
            index,
            expected,
            2,
            "precedingPfIds"@,
            v.preceding_pf_ids,
        );
        let m4 = m3.insert("version"@, <VersionInteger as Wire>::to_wire(v.version));
        lemma_required_member::<VersionInteger>(m3, index, expected, 3, "version"@, v.version);
        let m5 = m4.insert("created"@, <Timestamp as Wire>::to_wire(v.created));
        lemma_required_member::<Timestamp>(m4, index, expected, 4, "created"@, v.created);
        let m6 = with_optional::<Timestamp>(m5, "updated"@, v.updated);
        lemma_optional_member::<Timestamp>(m5, index, expected, 5, "updated"@, v.updated);
        let m7 = m6.insert("status"@, <PfStatus as Wire>::to_wire(v.status));
        lemma_required_member::<PfStatus>(m6, index, expected, 6, "status"@, v.status);
        let m8 = with_optional::<String>(m7, "statusComment"@, v.status_comment);
        lemma_optional_member::<String>(m7, index, expected, 7, "statusComment"@, v.status_comment);
        let m9 = with_optional::<Timestamp>(m8, "validityPeriodStart"@, v.validity_period_start);
        lemma_optional_member::<Timestamp>(
            m8,
            index,
            expected,
            8,
            "validityPeriodStart"@,
            v.validity_period_start,
        );
        let m10 = with_optional::<Timestamp>(m9, "validityPeriodEnd"@, v.validity_period_end);
        lemma_optional_member::<Timestamp>(
            m9,
            index,
            expected,
            9,
            "validityPeriodEnd"@,
            v.validity_period_end,
        );
        let m11 = m10.insert("companyName"@, <NonEmptyString as Wire>::to_wire(v.company_name));
        lemma_required_member::<NonEmptyString>(
            m10,
            index,
            expected,
            10,
            "companyName"@,
            v.company_name,
        );
        let m12 = m11.insert("companyIds"@, <CompanyIdSet as Wire>::to_wire(v.company_ids));
        lemma_required_member::<CompanyIdSet>(
            m11,
            index,
            expected,
            11,
            "companyIds"@,
            v.company_ids,
        );
        let m13 = m12.insert("productDescription"@, <String as Wire>::to_wire(v.product_description));
        lemma_required_member::<String>(
            m12,
            index,
            expected,
            12,
            "productDescription"@,
            v.product_description,
        );
        let m14 = m13.insert("productIds"@, <ProductIdSet as Wire>::to_wire(v.product_ids));
        lemma_required_member::<ProductIdSet>(
            m13,
            index,
            expected,
            13,
            "productIds"@,
            v.product_ids,
        );
        let m15 = m14.insert("productCategoryCpc"@, <NonEmptyString as Wire>::to_wire(v.product_category_cpc));
        lemma_required_member::<NonEmptyString>(
            m14,
            index,
            expected,
            14,
            "productCategoryCpc"@,
            v.product_category_cpc,
        );
        let m16 = m15.insert("productNameCompany"@, <NonEmptyString as Wire>::to_wire(v.product_name_company));
        lemma_required_member::<NonEmptyString>(
            m15,
            index,
            expected,
            15,
            "productNameCompany"@,
            v.product_name_company,
        );
        let m17 = m16.insert("comment"@, <String as Wire>::to_wire(v.comment));
        lemma_required_member::<String>(m16, index, expected, 16, "comment"@, v.comment);
        let m18 = m17.insert("pcf"@, <CarbonFootprint as Wire>::to_wire(v.pcf));
        lemma_required_member::<CarbonFootprint>(m17, index, expected, 17, "pcf"@, v.pcf);
        let m19 = with_optional::<Vec<DataModelExtension<T>>>(m18, "extensions"@, v.extensions);
        lemma_optional_member::<Vec<DataModelExtension<T>>>(
            m18,
            index,
            expected,
            18,
            "extensions"@,
            v.extensions,
        );
    }

    /// From an object that holds exactly the members of a faithful record
    /// the record is read back.
    pub proof fn lemma_members_read(v: ProductFootprintModel<T::V>, m: Map<Seq<char>, JsonModel>)
        requires
            <Self as Wire>::faithful(v),
            holds(
                m,
                |name: Seq<char>| product_footprint_member(name),
                |i: int| Self::expected_member(v, i),
                19,
            ),
        ensures
            Self::member_error(m) is None,
            Self::of_members(m) == v,
    {
        lemma_product_footprint_keys();
        <PfId as Wire>::lemma_round_trip(v.id);
        assert(required::<PfId>(m, "id"@) == Ok::<PfId, DecodeError>(v.id));
        <SpecVersionString as Wire>::lemma_round_trip(v.spec_version);
        assert(required::<SpecVersionString>(m, "specVersion"@) == Ok::<
            Seq<char>,
            DecodeError,
        >(v.spec_version));
        lemma_optional_round_trip::<NonEmptyPfIdVec>(v.preceding_pf_ids);
        assert(optional::<NonEmptyPfIdVec>(m, "precedingPfIds"@) == Ok::<
            Option<Seq<PfId>>,
            DecodeError,
        >(v.preceding_pf_ids));
        <VersionInteger as Wire>::lemma_round_trip(v.version);
        assert(required::<VersionInteger>(m, "version"@) == Ok::<
            VersionInteger,
            DecodeError,
        >(v.version));
        <Timestamp as Wire>::lemma_round_trip(v.created);
        assert(required::<Timestamp>(m, "created"@) == Ok::<Timestamp, DecodeError>(v.created));
        lemma_optional_round_trip::<Timestamp>(v.updated);
        assert(optional::<Timestamp>(m, "updated"@) == Ok::<
            Option<Timestamp>,
            DecodeError,
        >(v.updated));
        <PfStatus as Wire>::lemma_round_trip(v.status);
        assert(required::<PfStatus>(m, "status"@) == Ok::<PfStatus, DecodeError>(v.status));
        lemma_optional_round_trip::<String>(v.status_comment);
        assert(optional::<String>(m, "statusComment"@) == Ok::<
            Option<Seq<char>>,
            DecodeError,
        >(v.status_comment));
        lemma_optional_round_trip::<Timestamp>(v.validity_period_start);
        assert(optional::<Timestamp>(m, "validityPeriodStart"@) == Ok::<
            Option<Timestamp>,
            DecodeError,
        >(v.validity_period_start));
        lemma_optional_round_trip::<Timestamp>(v.validity_period_end);
        assert(optional::<Timestamp>(m, "validityPeriodEnd"@) == Ok::<
            Option<Timestamp>,
            DecodeError,
        >(v.validity_period_end));
        <NonEmptyString as Wire>::lemma_round_trip(v.company_name);
        assert(required::<NonEmptyString>(m, "companyName"@) == Ok::<
            Seq<char>,
            DecodeError,
        >(v.company_name));
        <CompanyIdSet as Wire>::lemma_round_trip(v.company_ids);
        assert(required::<CompanyIdSet>(m, "companyIds"@) == Ok::<
            Seq<Seq<char>>,
            DecodeError,
        >(v.company_ids));
        <String as Wire>::lemma_round_trip(v.product_description);
        assert(required::<String>(m, "productDescription"@) == Ok::<
            Seq<char>,
            DecodeError,
        >(v.product_description));
        <ProductIdSet as Wire>::lemma_round_trip(v.product_ids);
        assert(required::<ProductIdSet>(m, "productIds"@) == Ok::<
            Seq<Seq<char>>,
            DecodeError,
        >(v.product_ids));
        <NonEmptyString as Wire>::lemma_round_trip(v.product_category_cpc);
        assert(required::<NonEmptyString>(m, "productCategoryCpc"@) == Ok::<
            Seq<char>,
            DecodeError,
        >(v.product_category_cpc));
        <NonEmptyString as Wire>::lemma_round_trip(v.product_name_company);
        assert(required::<NonEmptyString>(m, "productNameCompany"@) == Ok::<
            Seq<char>,
            DecodeError,
        >(v.product_name_company));
        <String as Wire>::lemma_round_trip(v.comment);
        assert(required::<String>(m, "comment"@) == Ok::<Seq<char>, DecodeError>(v.comment));
        <CarbonFootprint as Wire>::lemma_round_trip(v.pcf);
        assert(required::<CarbonFootprint>(m, "pcf"@) == Ok::<
            CarbonFootprintModel,
            DecodeError,
        >(v.pcf));
        lemma_optional_round_trip::<Vec<DataModelExtension<T>>>(v.extensions);
        assert(optional::<Vec<DataModelExtension<T>>>(m, "extensions"@) == Ok::<
            Option<Seq<DataModelExtensionModel<T::V>>>,
            DecodeError,
        >(v.extensions));
    }
}

impl<T: Wire> Wire for ProductFootprint<T> {
    open spec fn to_wire(v: ProductFootprintModel<T::V>) -> JsonModel {
        let m = Map::<Seq<char>, JsonModel>::empty();
        let m = m.insert("id"@, <PfId as Wire>::to_wire(v.id));
        let m = m.insert("specVersion"@, <SpecVersionString as Wire>::to_wire(v.spec_version));
        let m = with_optional::<NonEmptyPfIdVec>(m, "precedingPfIds"@, v.preceding_pf_ids);
        let m = m.insert("version"@, <VersionInteger as Wire>::to_wire(v.version));
        let m = m.insert("created"@, <Timestamp as Wire>::to_wire(v.created));
        let m = with_optional::<Timestamp>(m, "updated"@, v.updated);
        let m = m.insert("status"@, <PfStatus as Wire>::to_wire(v.status));
        let m = with_optional::<String>(m, "statusComment"@, v.status_comment);
        let m = with_optional::<Timestamp>(m, "validityPeriodStart"@, v.validity_period_start);
        let m = with_optional::<Timestamp>(m, "validityPeriodEnd"@, v.validity_period_end);
        let m = m.insert("companyName"@, <NonEmptyString as Wire>::to_wire(v.company_name));
        let m = m.insert("companyIds"@, <CompanyIdSet as Wire>::to_wire(v.company_ids));
        let m = m.insert("productDescription"@, <String as Wire>::to_wire(v.product_description));
        let m = m.insert("productIds"@, <ProductIdSet as Wire>::to_wire(v.product_ids));
        let m = m.insert("productCategoryCpc"@, <NonEmptyString as Wire>::to_wire(v.product_category_cpc));
        let m = m.insert("productNameCompany"@, <NonEmptyString as Wire>::to_wire(v.product_name_company));
        let m = m.insert("comment"@, <String as Wire>::to_wire(v.comment));
        let m = m.insert("pcf"@, <CarbonFootprint as Wire>::to_wire(v.pcf));
        let m = with_optional::<Vec<DataModelExtension<T>>>(m, "extensions"@, v.extensions);
        JsonModel::Object(m)
    }

    open spec fn from_wire(j: JsonModel) -> Result<ProductFootprintModel<T::V>, DecodeError> {
        match j {
            JsonModel::Object(m) => match Self::member_error(m) {
                Some(e) => Err(e),
                None => Ok(Self::of_members(m)),
            },
            _ => Err(DecodeError::WrongType),
        }
    }

    open spec fn faithful(v: ProductFootprintModel<T::V>) -> bool {
        &&& <PfId as Wire>::faithful(v.id)
        &&& <SpecVersionString as Wire>::faithful(v.spec_version)
        &&& faithful_optional::<NonEmptyPfIdVec>(v.preceding_pf_ids)
        &&& <VersionInteger as Wire>::faithful(v.version)
        &&& <Timestamp as Wire>::faithful(v.created)
        &&& faithful_optional::<Timestamp>(v.updated)
        &&& <PfStatus as Wire>::faithful(v.status)
        &&& faithful_optional::<String>(v.status_comment)
        &&& faithful_optional::<Timestamp>(v.validity_period_start)
        &&& faithful_optional::<Timestamp>(v.validity_period_end)
        &&& <NonEmptyString as Wire>::faithful(v.company_name)
        &&& <CompanyIdSet as Wire>::faithful(v.company_ids)
        &&& <String as Wire>::faithful(v.product_description)
        &&& <ProductIdSet as Wire>::faithful(v.product_ids)
        &&& <NonEmptyString as Wire>::faithful(v.product_category_cpc)
        &&& <NonEmptyString as Wire>::faithful(v.product_name_company)
        &&& <String as Wire>::faithful(v.comment)
        &&& <CarbonFootprint as Wire>::faithful(v.pcf)
        &&& faithful_optional::<Vec<DataModelExtension<T>>>(v.extensions)
    }

    proof fn lemma_round_trip(v: ProductFootprintModel<T::V>) {
        Self::lemma_members_held(v);
        Self::lemma_members_read(v, Self::to_wire(v)->Object_0);
    }

    fn to_json(&self) -> (r: Json) {
        let mut entries: Vec<(String, Json)> = Vec::new();
        put_value(&mut entries, "id", &self.id);
        put_value(&mut entries, "specVersion", &self.spec_version);
        put_optional(&mut entries, "precedingPfIds", &self.preceding_pf_ids);
        put_value(&mut entries, "version", &self.version);
        put_value(&mut entries, "created", &self.created);
        put_optional(&mut entries, "updated", &self.updated);
        put_value(&mut entries, "status", &self.status);
        put_optional(&mut entries, "statusComment", &self.status_comment);
        put_optional(&mut entries, "validityPeriodStart", &self.validity_period_start);
        put_optional(&mut entries, "validityPeriodEnd", &self.validity_period_end);
        put_value(&mut entries, "companyName", &self.company_name);
        put_value(&mut entries, "companyIds", &self.company_ids);
        put_value(&mut entries, "productDescription", &self.product_description);
        put_value(&mut entries, "productIds", &self.product_ids);
        put_value(&mut entries, "productCategoryCpc", &self.product_category_cpc);
        put_value(&mut entries, "productNameCompany", &self.product_name_company);
        put_value(&mut entries, "comment", &self.comment);
        put_value(&mut entries, "pcf", &self.pcf);
        put_optional(&mut entries, "extensions", &self.extensions);
        Json::Object(entries)
    }

    fn from_json(j: &Json) -> (r: Result<ProductFootprint<T>, DecodeError>) {
        let entries = match j {
            Json::Object(entries) => entries,
            _ => {
                return Err(DecodeError::WrongType);
            },
        };
        let id = read_required::<PfId>(entries, "id")?;
        let spec_version = read_required::<SpecVersionString>(entries, "specVersion")?;
        let preceding_pf_ids = read_optional::<NonEmptyPfIdVec>(entries, "precedingPfIds")?;
        let version = read_required::<VersionInteger>(entries, "version")?;
        let created = read_required::<Timestamp>(entries, "created")?;
        let updated = read_optional::<Timestamp>(entries, "updated")?;
        let status = read_required::<PfStatus>(entries, "status")?;
        let status_comment = read_optional::<String>(entries, "statusComment")?;
        let validity_period_start = read_optional::<Timestamp>(entries, "validityPeriodStart")?;
        let validity_period_end = read_optional::<Timestamp>(entries, "validityPeriodEnd")?;
        let company_name = read_required::<NonEmptyString>(entries, "companyName")?;
        let company_ids = read_required::<CompanyIdSet>(entries, "companyIds")?;
        let product_description = read_required::<String>(entries, "productDescription")?;
        let product_ids = read_required::<ProductIdSet>(entries, "productIds")?;
        let product_category_cpc = read_required::<NonEmptyString>(entries, "productCategoryCpc")?;
        let product_name_company = read_required::<NonEmptyString>(entries, "productNameCompany")?;
        let comment = read_required::<String>(entries, "comment")?;
        let pcf = read_required::<CarbonFootprint>(entries, "pcf")?;
        let extensions = read_optional::<Vec<DataModelExtension<T>>>(entries, "extensions")?;
        Ok(ProductFootprint {
            id,
            spec_version,
            preceding_pf_ids,
            version,
            created,
            updated,
            status,
            status_comment,
            validity_period_start,
            validity_period_end,
            company_name,
            company_ids,
            product_description,
            product_ids,
            product_category_cpc,
            product_name_company,
            comment,
            pcf,
            extensions,
        })
    }
}

} // verus!
