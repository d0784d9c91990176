//! Random demonstration data: shipments with chained legs and the operation
//! categories behind the legs, each as a product footprint.

use vstd::prelude::*;
use vstd::string::*;
use crate::decimal::Decimal;
use crate::distance::GlecDistance;
use crate::ileap::{
    EnergyCarrier, Feedstock, Hoc, ILeapType, Location, ShipmentFootprint, Tce, Toc,
};
use crate::ileap_wire::{ShipmentFootprintModel, TceModel};
use crate::json::{faithful_optional, DecodeError, Wire};
use crate::ileap_vocabulary::{
    AirShippingOption, EnergyCarrierType, EnergyConsumptionUnit, FeedstockType, FlightLength,
    HubActivityUnit, HubType, Incoterms, PackagingOrTrEqType, TemperatureControl,
    TransportActivityUnit, TransportMode, TruckLoadingSequence,
};
use crate::mapping::{input_error, is_conversion_of, to_pcf, PactMapped};
use crate::numbers::{PositiveDecimal, WrappedDecimal};
use crate::pact::ProductFootprint;
use crate::pact_vocabulary::CharacterizationFactors;
use crate::random::{
    draw_below, draw_bool, draw_bytes, draw_optional, draw_text, draw_u16, draw_u8,
    generator_size, is_below_size, new_generator, pick, size_made_with,
};
use crate::scalars::{IataCode, ISO3166CC, Locode, NonEmptyVec, UicCode};
use crate::time::Timestamp;
use crate::validate::{lemma_first_violation_none, Validate};

verus! {

/// A string of lower-case letters, digits and hyphens.
#[derive(Clone, Debug, PartialEq, Eq, Hash)]
pub struct LowerAToZNumDash(pub String);

/// A lower-case letter, a digit or a hyphen.
pub open spec fn is_lower_num_dash(c: char) -> bool {
    ('a' <= c <= 'z') || ('0' <= c <= '9') || c == '-'
}

/// The symbol that a byte stands for: the byte is reduced modulo 37; zero is
/// the hyphen, one to ten are the digits, the rest are the letters.
pub open spec fn symbol_of(v: u8) -> char {
    let i = v % 37;
    if i == 0 {
        '-'
    } else if i <= 10 {
        (i + 47) as char
    } else {
        (i + 86) as char
    }
}

/// The symbols that a sequence of bytes stands for.
pub open spec fn symbols_of(raw: Seq<u8>) -> Seq<char> {
    raw.map_values(|v: u8| symbol_of(v))
}

/// The symbol that a byte stands for.
pub fn symbol(v: u8) -> (r: char)
    ensures
        r == symbol_of(v),
        is_lower_num_dash(r),
{
    let i: u8 = v % 37;
    if i == 0 {
        '-'
    } else if i <= 10 {
        (i + 47) as char
    } else {
        (i + 86) as char
    }
}

impl LowerAToZNumDash {
    /// Every character is a lower-case letter, a digit or a hyphen.
    pub open spec fn wf(&self) -> bool {
        forall|i: int| 0 <= i < self.0@.len() ==> is_lower_num_dash(#[trigger] self.0@[i])
    }

    /// The number of characters.
    pub fn len(&self) -> (r: usize)
        ensures
            r == self.0@.len(),
    {
        self.0.as_str().unicode_len()
    }

    /// The string whose characters are the symbols of the bytes.
    pub fn from_bytes(raw: &Vec<u8>) -> (r: LowerAToZNumDash)
        ensures
            r.0@ == symbols_of(raw@),
            r.wf(),
    {
        let mut text = String::new();
        let mut i: usize = 0;
        while i < raw.len()
            invariant
                i <= raw@.len(),
                text@ == symbols_of(raw@.take(i as int)),
            decreases raw@.len() - i,
        {
            text.push(symbol(raw[i]));
            proof {
                assert(raw@.take(i + 1) =~= raw@.take(i as int).push(raw@[i as int]));
                assert(symbols_of(raw@.take(i + 1)) =~= symbols_of(raw@.take(i as int)).push(
                    symbol_of(raw@[i as int]),
                ));
            }
            i = i + 1;
        }
        proof {
            assert(raw@.take(raw@.len() as int) =~= raw@);
            assert forall|k: int| 0 <= k < text@.len() implies is_lower_num_dash(
                #[trigger] text@[k],
            ) by {
                lemma_symbol_class(raw@[k]);
            }
        }
        LowerAToZNumDash(text)
    }

    /// A random string of lower-case letters, digits and hyphens, shorter
    /// than the size of the generator.
    pub fn arbitrary(g: &mut quickcheck::Gen) -> (r: LowerAToZNumDash)
        ensures
            r.wf(),
            exists|raw: Seq<u8>| r.0@ == #[trigger] symbols_of(raw),
            is_below_size(r.0@.len(), size_made_with(*old(g))),
    {
        let raw = draw_bytes(g);
        LowerAToZNumDash::from_bytes(&raw)
    }

    /// The proper prefixes of the string, the shortest first.
    pub fn shrink(&self) -> (r: Vec<LowerAToZNumDash>)
        requires
            self.wf(),
        ensures
            r@.len() == self.0@.len(),
            forall|i: int| 0 <= i < r@.len() ==> (#[trigger] r@[i]).0@ == self.0@.take(i),
            forall|i: int| 0 <= i < r@.len() ==> (#[trigger] r@[i]).wf(),
    {
        proof {
            lemma_symbols_are_ascii(self.0@);
        }
        let text = self.0.as_str();
        let n = text.unicode_len();
        let mut shrunk: Vec<LowerAToZNumDash> = Vec::new();
        let mut len: usize = 0;
        while len < n
            invariant
                self.wf(),
                text.is_ascii(),
                text@ == self.0@,
                n == self.0@.len(),
                len <= n,
                shrunk@.len() == len,
                forall|i: int| 0 <= i < len ==> (#[trigger] shrunk@[i]).0@ == self.0@.take(i),
                forall|i: int| 0 <= i < len ==> (#[trigger] shrunk@[i]).wf(),
            decreases n - len,
        {
            let prefix = LowerAToZNumDash(text.substring_ascii(0, len).to_owned());
            assert(prefix.0@ =~= self.0@.take(len as int));
            shrunk.push(prefix);
            len = len + 1;
        }
        shrunk
    }
}

/// The symbol of every byte is a lower-case letter, a digit or a hyphen.
pub proof fn lemma_symbol_class(v: u8)
    ensures
        is_lower_num_dash(symbol_of(v)),
{
}

/// A string of lower-case letters, digits and hyphens is ASCII.
pub proof fn lemma_symbols_are_ascii(s: Seq<char>)
    requires
        forall|i: int| 0 <= i < s.len() ==> is_lower_num_dash(#[trigger] s[i]),
    ensures
        vstd::utf8::is_ascii_chars(s),
{
}

impl HubActivityUnit {
    /// A random value.
    pub fn arbitrary(g: &mut quickcheck::Gen) -> HubActivityUnit {
        let options = vec![HubActivityUnit::TEU, HubActivityUnit::Tonnes];
        pick(g, options.as_slice())
    }
}

impl HubType {
    /// A random value.
    pub fn arbitrary(g: &mut quickcheck::Gen) -> HubType {
        let options = vec![
            HubType::Transshipment,
            HubType::StorageAndTransshipment,
            HubType::Warehouse,
            HubType::LiquidBulkTerminal,
            HubType::MaritimeContainerTerminal,
        ];
        pick(g, options.as_slice())
    }
}

impl PackagingOrTrEqType {
    /// A random box, pallet or container of unknown size.
    pub fn arbitrary(g: &mut quickcheck::Gen) -> (r: PackagingOrTrEqType)
        ensures
            r == PackagingOrTrEqType::Box || r == PackagingOrTrEqType::Pallet || r
                == PackagingOrTrEqType::Container,
    {
        let options = vec![
            PackagingOrTrEqType::Box,
            PackagingOrTrEqType::Pallet,
            PackagingOrTrEqType::Container,
        ];
        let chosen = pick(g, options.as_slice());
        assert(chosen == options@[0] || chosen == options@[1] || chosen == options@[2]);
        chosen
    }
}

impl TransportActivityUnit {
    /// A random value.
    pub fn arbitrary(g: &mut quickcheck::Gen) -> TransportActivityUnit {
        let options = vec![TransportActivityUnit::Tkm, TransportActivityUnit::TEUkm];
        pick(g, options.as_slice())
    }
}

impl TransportMode {
    /// A random value.
    pub fn arbitrary(g: &mut quickcheck::Gen) -> TransportMode {
        let options = vec![
            TransportMode::Road,
            TransportMode::Rail,
            TransportMode::Air,
            TransportMode::Sea,
            TransportMode::InlandWaterway,
        ];
        pick(g, options.as_slice())
    }
}

impl TemperatureControl {
    /// A random value.
    pub fn arbitrary(g: &mut quickcheck::Gen) -> TemperatureControl {
        let options = vec![
            TemperatureControl::Ambient,
            TemperatureControl::Refrigerated,
            TemperatureControl::Mixed,
        ];
        pick(g, options.as_slice())
    }
}

impl TruckLoadingSequence {
    /// A random value.
    pub fn arbitrary(g: &mut quickcheck::Gen) -> TruckLoadingSequence {
        let options = vec![TruckLoadingSequence::Ftl, TruckLoadingSequence::Ltl];
        pick(g, options.as_slice())
    }
}

impl AirShippingOption {
    /// A random value.
    pub fn arbitrary(g: &mut quickcheck::Gen) -> AirShippingOption {
        let options = vec![AirShippingOption::BellyFreight, AirShippingOption::Freighter];
        pick(g, options.as_slice())
    }
}

impl FlightLength {
    /// A random value.
    pub fn arbitrary(g: &mut quickcheck::Gen) -> FlightLength {
        let options = vec![FlightLength::ShortHaul, FlightLength::LongHaul];
        pick(g, options.as_slice())
    }
}

impl EnergyCarrierType {
    /// A random value.
    pub fn arbitrary(g: &mut quickcheck::Gen) -> EnergyCarrierType {
        let options = vec![
            EnergyCarrierType::Diesel,
            EnergyCarrierType::Hvo,
            EnergyCarrierType::Petrol,
            EnergyCarrierType::Cng,
            EnergyCarrierType::Lng,
            EnergyCarrierType::Lpg,
            EnergyCarrierType::Hfo,
            EnergyCarrierType::Mgo,
            EnergyCarrierType::AviationFuel,
            EnergyCarrierType::Hydrogen,
            EnergyCarrierType::Methanol,
            EnergyCarrierType::Electric,
        ];
        pick(g, options.as_slice())
    }
}

impl EnergyConsumptionUnit {
    /// A random value.
    pub fn arbitrary(g: &mut quickcheck::Gen) -> EnergyConsumptionUnit {
        let options = vec![
            EnergyConsumptionUnit::KWh,
            EnergyConsumptionUnit::MJ,
            EnergyConsumptionUnit::Kg,
            EnergyConsumptionUnit::L,
        ];
        pick(g, options.as_slice())
    }
}

impl FeedstockType {
    /// A random value.
    pub fn arbitrary(g: &mut quickcheck::Gen) -> FeedstockType {
        let options = vec![
            FeedstockType::Fossil,
            FeedstockType::NaturalGas,
            FeedstockType::Grid,
            FeedstockType::RenewableElectricity,
            FeedstockType::CookingOil,
        ];
        pick(g, options.as_slice())
    }
}

impl Incoterms {
    /// A random value.
    pub fn arbitrary(g: &mut quickcheck::Gen) -> Incoterms {
        let options = vec![
            Incoterms::Exw,
            Incoterms::Fca,
            Incoterms::Cpt,
            Incoterms::Cip,
            Incoterms::Dap,
            Incoterms::Dpu,
            Incoterms::Ddp,
            Incoterms::Fas,
            Incoterms::Fob,
            Incoterms::Cfr,
            Incoterms::Cif,
        ];
        pick(g, options.as_slice())
    }
}

/// The text is `prefix` followed by lower-case letters, digits and hyphens.
pub open spec fn is_tagged(text: Seq<char>, prefix: Seq<char>) -> bool {
    &&& text.len() >= prefix.len()
    &&& forall|i: int| 0 <= i < prefix.len() ==> #[trigger] text[i] == prefix[i]
    &&& forall|i: int| prefix.len() <= i < text.len() ==> is_lower_num_dash(#[trigger] text[i])
}

/// The text `fixed` followed by a random run of lower-case letters, digits
/// and hyphens that is shorter than the size of the generator.
pub fn formatted_arbitrary_string(fixed: &str, g: &mut quickcheck::Gen) -> (r: String)
    ensures
        is_tagged(r@, fixed@),
        exists|raw: Seq<u8>| r@ == fixed@ + #[trigger] symbols_of(raw),
        is_below_size((r@.len() - fixed@.len()) as nat, size_made_with(*old(g))),
{
    let suffix = LowerAToZNumDash::arbitrary(g);
    let mut text = fixed.to_owned();
    text.append(suffix.0.as_str());
    assert(text@.subrange(0, fixed@.len() as int) =~= fixed@);
    text
}

/// The whole number `n` as a decimal, rounded to two places; the whole
/// number itself where the rounding has no result or one below zero.
pub open spec fn whole_decimal_of(n: u16) -> Decimal {
    let raw = Decimal { mantissa: n as i128, scale: 0 };
    match raw.rounded(2) {
        Some(rounded) => if rounded.mantissa >= 0 {
            rounded
        } else {
            raw
        },
        None => raw,
    }
}

/// The decimal is a whole number from 0 to 65535, rounded to two places.
pub open spec fn is_whole_decimal(d: Decimal) -> bool {
    exists|n: u16| d == #[trigger] whole_decimal_of(n)
}

/// The whole number `n` as a decimal, rounded to two places.
pub fn whole_decimal(n: u16) -> (r: WrappedDecimal)
    ensures
        r.0 == whole_decimal_of(n),
        r.0.wf(),
        r.0.mantissa >= 0,
{
    let raw = Decimal::from_i64(n as i64);
    match raw.round_dp(2) {
        Some(rounded) => if rounded.mantissa >= 0 {
            WrappedDecimal(rounded)
        } else {
            WrappedDecimal(raw)
        },
        None => WrappedDecimal(raw),
    }
}

/// A random whole number from 0 to 65535 as a decimal, rounded to two places.
pub fn arbitrary_wrapped_decimal(g: &mut quickcheck::Gen) -> (r: WrappedDecimal)
    ensures
        is_whole_decimal(r.0),
        r.0.wf(),
        r.0.mantissa >= 0,
{
    whole_decimal(draw_u16(g))
}

/// A random decimal, or none.
pub fn arbitrary_option_wrapped_decimal(g: &mut quickcheck::Gen) -> (r: Option<WrappedDecimal>)
    ensures
        r matches Some(d) ==> is_whole_decimal(d.0) && d.0.wf() && d.0.mantissa >= 0,
{
    let value = arbitrary_wrapped_decimal(g);
    let options = vec![Some(value), None];
    let chosen = pick(g, options.as_slice());
    assert(chosen == options@[0] || chosen == options@[1]);
    chosen
}

/// The text is that of a number of tenths from one tenth to one.
pub open spec fn is_factor_text(text: Seq<char>) -> bool {
    exists|tenths: i128|
        1 <= tenths <= 10 && text == #[trigger] crate::decimal::decimal_text(
            Decimal { mantissa: tenths, scale: 1 },
        )
}

/// A random factor from one tenth to one, as text.
pub fn arbitrary_option_factor(g: &mut quickcheck::Gen) -> (r: Option<String>)
    ensures
        r matches Some(text) && is_factor_text(text@),
{
    let rand_num: u8 = draw_u8(g) % 10 + 1;
    let rand_factor = Decimal::new(rand_num as i64, 1);
    let text = rand_factor.to_text();
    assert(text@ == crate::decimal::decimal_text(Decimal { mantissa: rand_num as i128, scale: 1 }));
    Some(text)
}

/// The product of two decimals rounded to two places, or zero where it
/// cannot be formed.
pub open spec fn rounded_product_of(a: Decimal, b: Decimal) -> Decimal {
    match a.product(b) {
        Some(p) => match p.rounded(2) {
            Some(rounded) => rounded,
            None => Decimal { mantissa: 0, scale: 0 },
        },
        None => Decimal { mantissa: 0, scale: 0 },
    }
}

/// The product of two decimals rounded to two places, or zero where it
/// cannot be formed.
pub fn rounded_product(a: &Decimal, b: &Decimal) -> (r: WrappedDecimal)
    ensures
        r.0.wf(),
        r.0 == rounded_product_of(*a, *b),
{
    match a.checked_mul(b) {
        Some(p) => match p.round_dp(2) {
            Some(rounded) => WrappedDecimal(rounded),
            None => WrappedDecimal(Decimal::from_i64(0)),
        },
        None => WrappedDecimal(Decimal::from_i64(0)),
    }
}

/// Whether an energy carrier can be made of a feedstock.
pub open spec fn fits(carrier: EnergyCarrierType, feedstock: FeedstockType) -> bool {
    match carrier {
        EnergyCarrierType::Diesel => feedstock == FeedstockType::Fossil,
        EnergyCarrierType::Hydrogen => feedstock == FeedstockType::CookingOil,
        EnergyCarrierType::Electric => feedstock == FeedstockType::Grid || feedstock
            == FeedstockType::RenewableElectricity,
        _ => feedstock == FeedstockType::Fossil || feedstock == FeedstockType::NaturalGas
            || feedstock == FeedstockType::CookingOil,
    }
}

/// Whether an energy carrier can be made of a feedstock.
pub fn feedstock_fits(carrier: EnergyCarrierType, feedstock: FeedstockType) -> (r: bool)
    ensures
        r == fits(carrier, feedstock),
{
    let liquid_or_gas = match feedstock {
        FeedstockType::Fossil => true,
        FeedstockType::NaturalGas => true,
        FeedstockType::CookingOil => true,
        _ => false,
    };
    match carrier {
        EnergyCarrierType::Diesel => match feedstock {
            FeedstockType::Fossil => true,
            _ => false,
        },
        EnergyCarrierType::Hydrogen => match feedstock {
            FeedstockType::CookingOil => true,
            _ => false,
        },
        EnergyCarrierType::Electric => match feedstock {
            FeedstockType::Grid => true,
            FeedstockType::RenewableElectricity => true,
            _ => false,
        },
        _ => liquid_or_gas,
    }
}

/// The share that a drawn decimal stands for: the decimal divided by 65535
/// and rounded to one place, or zero where that has no result.
pub open spec fn share_of_drawn(drawn: Decimal) -> Decimal {
    match drawn.quotient(Decimal { mantissa: 65535, scale: 0 }) {
        Some(q) => match q.rounded(1) {
            Some(rounded) => rounded,
            None => Decimal { mantissa: 0, scale: 0 },
        },
        None => Decimal { mantissa: 0, scale: 0 },
    }
}

impl Feedstock {
    /// The feedstock of the given kind whose share, where a decimal was
    /// drawn for it, is the decimal divided by 65535 and rounded to one place.
    pub fn with_drawn_share(feedstock: FeedstockType, drawn: Option<WrappedDecimal>) -> (r:
        Feedstock)
        ensures
            r.feedstock == feedstock,
            r.feedstock_share == match drawn {
                Some(f) => Some(WrappedDecimal(share_of_drawn(f.0))),
                None => None,
            },
            r.region_provenance is None,
            r.violation() is None,
    {
        let feedstock_share = match drawn {
            None => None,
            Some(f) => {
                let share = match f.0.checked_div(&Decimal::from_i64(65535)) {
                    Some(q) => match q.round_dp(1) {
                        Some(rounded) => rounded,
                        None => Decimal::from_i64(0),
                    },
                    None => Decimal::from_i64(0),
                };
                Some(WrappedDecimal(share))
            },
        };
        Feedstock { feedstock, feedstock_share, region_provenance: None }
    }

    /// A random feedstock whose share, where it has one, is a random decimal
    /// divided by 65535 and rounded to one place.
    pub fn arbitrary(g: &mut quickcheck::Gen) -> (r: Feedstock)
        ensures
            r.violation() is None,
            r.region_provenance is None,
            r.feedstock_share matches Some(share) ==> exists|n: u16|
                share.0 == share_of_drawn(#[trigger] whole_decimal_of(n)),
    {
        let drawn = arbitrary_option_wrapped_decimal(g);
        Feedstock::with_drawn_share(FeedstockType::arbitrary(g), drawn)
    }
}

/// Every feedstock of the list fits the carrier.
pub open spec fn all_fit(carrier: EnergyCarrierType, feedstocks: Seq<Feedstock>) -> bool {
    forall|i: int| 0 <= i < feedstocks.len() ==> fits(carrier, (#[trigger] feedstocks[i]).feedstock)
}

/// The feedstock, without its share where `keep_shares` is false.
pub open spec fn with_or_without_share(f: Feedstock, keep_shares: bool) -> Feedstock {
    Feedstock {
        feedstock: f.feedstock,
        feedstock_share: if keep_shares {
            f.feedstock_share
        } else {
            None
        },
        region_provenance: f.region_provenance,
    }
}

/// The feedstocks of the list that fit the carrier, in their order, without
/// their shares where `keep_shares` is false.
pub open spec fn fitted(
    carrier: EnergyCarrierType,
    feedstocks: Seq<Feedstock>,
    keep_shares: bool,
) -> Seq<Feedstock>
    decreases feedstocks.len(),
{
    if feedstocks.len() == 0 {
        Seq::empty()
    } else {
        let front = fitted(carrier, feedstocks.drop_last(), keep_shares);
        if fits(carrier, feedstocks.last().feedstock) {
            front.push(with_or_without_share(feedstocks.last(), keep_shares))
        } else {
            front
        }
    }
}

/// The fitted feedstocks all fit the carrier, are no more than those they
/// were taken from, and have no shares where the shares are not kept.
pub proof fn lemma_fitted(carrier: EnergyCarrierType, feedstocks: Seq<Feedstock>, keep_shares: bool)
    ensures
        all_fit(carrier, fitted(carrier, feedstocks, keep_shares)),
        fitted(carrier, feedstocks, keep_shares).len() <= feedstocks.len(),
        !keep_shares ==> forall|i: int|
            0 <= i < fitted(carrier, feedstocks, keep_shares).len() ==> (#[trigger] fitted(
                carrier,
                feedstocks,
                keep_shares,
            )[i]).feedstock_share is None,
        forall|i: int|
            0 <= i < fitted(carrier, feedstocks, keep_shares).len() ==> exists|k: int|
                0 <= k < feedstocks.len() && #[trigger] fitted(carrier, feedstocks, keep_shares)[i]
                    == with_or_without_share(#[trigger] feedstocks[k], keep_shares),
    decreases feedstocks.len(),
{
    if feedstocks.len() > 0 {
        let front = fitted(carrier, feedstocks.drop_last(), keep_shares);
        lemma_fitted(carrier, feedstocks.drop_last(), keep_shares);
        let all = fitted(carrier, feedstocks, keep_shares);
        assert forall|i: int| 0 <= i < all.len() implies exists|k: int|
            0 <= k < feedstocks.len() && #[trigger] all[i] == with_or_without_share(
                #[trigger] feedstocks[k],
                keep_shares,
            ) by {
            if i < front.len() {
                let k = choose|k: int|
                    0 <= k < feedstocks.drop_last().len() && front[i] == with_or_without_share(
                        #[trigger] feedstocks.drop_last()[k],
                        keep_shares,
                    );
                assert(feedstocks[k] == feedstocks.drop_last()[k]);
            } else {
                assert(all[i] == with_or_without_share(
                    feedstocks[feedstocks.len() - 1],
                    keep_shares,
                ));
            }
        }
    }
}

/// The feedstocks of the list that fit the carrier, in their order, without
/// their shares where `keep_shares` is false.
pub fn fitting_feedstocks(
    carrier: EnergyCarrierType,
    feedstocks: &Vec<Feedstock>,
    keep_shares: bool,
) -> (r: Vec<Feedstock>)
    ensures
        r@ == fitted(carrier, feedstocks@, keep_shares),
        all_fit(carrier, r@),
        r@.len() <= feedstocks@.len(),
        !keep_shares ==> forall|i: int| 0 <= i < r@.len() ==> (#[trigger] r@[i]).feedstock_share is None,
{
    let mut kept: Vec<Feedstock> = Vec::new();
    let mut i: usize = 0;
    assert(fitted(carrier, feedstocks@.take(0), keep_shares) =~= kept@);
    while i < feedstocks.len()
        invariant
            i <= feedstocks@.len(),
            kept@ == fitted(carrier, feedstocks@.take(i as int), keep_shares),
        decreases feedstocks@.len() - i,
    {
        proof {
            assert(feedstocks@.take(i + 1).drop_last() =~= feedstocks@.take(i as int));
            assert(feedstocks@.take(i + 1).last() == feedstocks@[i as int]);
        }
        if feedstock_fits(carrier, feedstocks[i].feedstock) {
            let share = if keep_shares {
                feedstocks[i].feedstock_share
            } else {
                None
            };
            let region_provenance = match &feedstocks[i].region_provenance {
                Some(region) => Some(region.clone()),
                None => None,
            };
            kept.push(
                Feedstock { feedstock: feedstocks[i].feedstock, feedstock_share: share, region_provenance },
            );
        }
        i = i + 1;
    }
    proof {
        assert(feedstocks@.take(feedstocks@.len() as int) =~= feedstocks@);
        lemma_fitted(carrier, feedstocks@, keep_shares);
    }
    kept
}

/// The shares of the drawn feedstocks are kept: they add up, and to one at
/// most.
pub open spec fn shares_kept(drawn: Seq<Feedstock>) -> bool {
    crate::decimal::total(crate::ileap::shares(drawn)) matches Some(sum) && sum.at_most_one()
}

/// The feedstocks of a carrier that are made of the drawn ones: those that
/// fit the carrier, without their shares where the shares of the drawn ones
/// do not add up or add up to more than one.
pub fn settled_feedstocks(carrier: EnergyCarrierType, drawn: &Vec<Feedstock>) -> (r: Vec<Feedstock>)
    ensures
        r@ == fitted(carrier, drawn@, shares_kept(drawn@)),
        all_fit(carrier, r@),
{
    let keep_shares = match crate::ileap::total_share(drawn) {
        Some(sum) => sum.is_at_most_one(),
        None => false,
    };
    fitting_feedstocks(carrier, drawn, keep_shares)
}

/// A share of `tenths` tenths.
pub open spec fn tenths_of(tenths: u8) -> Decimal {
    Decimal { mantissa: tenths as i128, scale: 1 }
}

impl EnergyCarrier {
    /// The carrier as it is where it breaks no rule, else without its
    /// feedstocks.
    pub fn without_invalid_feedstocks(carrier: EnergyCarrier) -> (r: EnergyCarrier)
        ensures
            r == if carrier.violation() is None {
                carrier
            } else {
                EnergyCarrier { feedstocks: None, ..carrier }
            },
    {
        let mut carrier = carrier;
        if carrier.validate().is_err() {
            carrier.feedstocks = None;
        }
        carrier
    }

    /// A random energy carrier. Its feedstocks, where it has any, are those
    /// of a random list that fit the carrier; their shares are dropped where
    /// those of the list do not add up to one at most. Its consumption and
    /// its emission factors are whole numbers, its share is a number of
    /// tenths up to one.
    pub fn arbitrary(g: &mut quickcheck::Gen) -> (r: EnergyCarrier)
        ensures
            r.violation() is None,
            r.feedstocks matches Some(list) ==> all_fit(r.energy_carrier, list@) && exists|
                drawn: Seq<Feedstock>,
            |
                list@ == #[trigger] fitted(r.energy_carrier, drawn, shares_kept(drawn)),
            r.energy_consumption matches Some(d) ==> is_whole_decimal(d.0),
            is_whole_decimal(r.emission_factor_wtw.0),
            is_whole_decimal(r.emission_factor_ttw.0),
            exists|tenths: u8| tenths <= 10 && r.relative_share.0 == #[trigger] tenths_of(tenths),
    {
        let energy_carrier = EnergyCarrierType::arbitrary(g);
        let feedstocks = if draw_bool(g) {
            None
        } else {
            let size = generator_size(g);
            let count = if size == 0 {
                0
            } else {
                draw_below(g, size)
            };
            let mut drawn: Vec<Feedstock> = Vec::new();
            let mut i: usize = 0;
            while i < count
                invariant
                    i <= count,
                decreases count - i,
            {
                drawn.push(Feedstock::arbitrary(g));
                i = i + 1;
            }
            Some(settled_feedstocks(energy_carrier, &drawn))
        };
        let tenths: u8 = draw_u8(g) % 11;
        let relative_share = Decimal::new(tenths as i64, 1);
        assert(relative_share == tenths_of(tenths));
        let carrier = EnergyCarrier {
            energy_carrier,
            feedstocks,
            energy_consumption: arbitrary_option_wrapped_decimal(g),
            energy_consumption_unit: draw_optional(EnergyConsumptionUnit::arbitrary(g), g),
            emission_factor_wtw: arbitrary_wrapped_decimal(g),
            emission_factor_ttw: arbitrary_wrapped_decimal(g),
            relative_share: WrappedDecimal(relative_share),
        };
        EnergyCarrier::without_invalid_feedstocks(carrier)
    }
}

/// One to five random energy carriers.
pub fn arbitrary_energy_carriers(g: &mut quickcheck::Gen) -> (r: NonEmptyVec<EnergyCarrier>)
    ensures
        r.violation() is None,
        1 <= r.0@.len() <= 5,
{
    let num: u8 = draw_u8(g) % 5 + 1;
    let mut carriers: Vec<EnergyCarrier> = Vec::new();
    let mut i: u8 = 0;
    while i < num
        invariant
            i <= num,
            carriers@.len() == i,
            forall|k: int| 0 <= k < carriers@.len() ==> (#[trigger] carriers@[k]).violation() is None,
        decreases num - i,
    {
        carriers.push(EnergyCarrier::arbitrary(g));
        i = i + 1;
    }
    proof {
        lemma_first_violation_none(carriers@, 0);
    }
    NonEmptyVec(carriers)
}

/// A mode of transport other than `mode`.
pub fn another_mode(g: &mut quickcheck::Gen, mode: TransportMode) -> (r: TransportMode)
    ensures
        r != mode,
{
    let others = match mode {
        TransportMode::Road => vec![
            TransportMode::Rail,
            TransportMode::Air,
            TransportMode::Sea,
            TransportMode::InlandWaterway,
        ],
        TransportMode::Rail => vec![
            TransportMode::Road,
            TransportMode::Air,
            TransportMode::Sea,
            TransportMode::InlandWaterway,
        ],
        TransportMode::Air => vec![
            TransportMode::Road,
            TransportMode::Rail,
            TransportMode::Sea,
            TransportMode::InlandWaterway,
        ],
        TransportMode::Sea => vec![
            TransportMode::Road,
            TransportMode::Rail,
            TransportMode::Air,
            TransportMode::InlandWaterway,
        ],
        TransportMode::InlandWaterway => vec![
            TransportMode::Road,
            TransportMode::Rail,
            TransportMode::Air,
            TransportMode::Sea,
        ],
    };
    pick(g, others.as_slice())
}

/// The modes by which cargo reaches and leaves a hub of the given kind: two
/// different ones at a transshipment hub, the road on both sides of a
/// warehouse, any at a liquid bulk terminal; and at a maritime container
/// terminal a pair that is drawn again once unless it is empty or names
/// the sea.
pub fn arbitrary_hub_modes(g: &mut quickcheck::Gen, hub_type: HubType) -> (r: (
    Option<TransportMode>,
    Option<TransportMode>,
))
    ensures
        (hub_type == HubType::Transshipment || hub_type == HubType::StorageAndTransshipment) ==> {
            &&& r.0 is Some
            &&& r.1 is Some
            &&& r.0 != r.1
        },
        hub_type == HubType::Warehouse ==> r == (
            Some(TransportMode::Road),
            Some(TransportMode::Road),
        ),
        hub_type == HubType::LiquidBulkTerminal ==> r.0 is Some && r.1 is Some,
{
    match hub_type {
        HubType::Transshipment | HubType::StorageAndTransshipment => {
            let inbound = TransportMode::arbitrary(g);
            let outbound = another_mode(g, inbound);
            (Some(inbound), Some(outbound))
        },
        HubType::Warehouse => (Some(TransportMode::Road), Some(TransportMode::Road)),
        HubType::LiquidBulkTerminal => (
            Some(TransportMode::arbitrary(g)),
            Some(TransportMode::arbitrary(g)),
        ),
        HubType::MaritimeContainerTerminal => {
            let inbound = draw_optional(TransportMode::arbitrary(g), g);
            let outbound = draw_optional(TransportMode::arbitrary(g), g);
            let by_sea = match (inbound, outbound) {
                (None, None) => true,
                (Some(TransportMode::Sea), _) => true,
                (_, Some(TransportMode::Sea)) => true,
                _ => false,
            };
            if by_sea {
                (inbound, outbound)
            } else {
                (
                    draw_optional(TransportMode::arbitrary(g), g),
                    draw_optional(TransportMode::arbitrary(g), g),
                )
            }
        },
    }
}

/// The kind of packaging or transport equipment, where there is one, is a
/// box, a pallet or a container of unknown size.
pub open spec fn is_loading_unit(kind: Option<PackagingOrTrEqType>) -> bool {
    match kind {
        Some(k) => k == PackagingOrTrEqType::Box || k == PackagingOrTrEqType::Pallet || k
            == PackagingOrTrEqType::Container,
        None => true,
    }
}

impl Hoc {
    /// A random hub operation category. A warehouse has the road on both
    /// sides, a transshipment hub two different modes, a liquid bulk
    /// terminal a mode on either side; the identifier begins with `hoc-`.
    pub fn arbitrary(g: &mut quickcheck::Gen) -> (r: Hoc)
        ensures
            r.violation() is None,
            is_tagged(r.hoc_id@, "hoc-"@),
            r.hub_type == HubType::Warehouse ==> r.inbound_transport_mode == Some(
                TransportMode::Road,
            ) && r.outbound_transport_mode == Some(TransportMode::Road),
            (r.hub_type == HubType::Transshipment || r.hub_type
                == HubType::StorageAndTransshipment) ==> r.inbound_transport_mode is Some
                && r.outbound_transport_mode is Some && r.inbound_transport_mode
                != r.outbound_transport_mode,
            r.hub_type == HubType::LiquidBulkTerminal ==> r.inbound_transport_mode is Some
                && r.outbound_transport_mode is Some,
            is_loading_unit(r.packaging_or_tr_eq_type),
            1 <= r.energy_carriers.0@.len() <= 5,
            r.description is None,
            r.certifications is None,
            r.hub_location is None,
            r.packaging_or_tr_eq_amount is None,
            is_whole_decimal(r.co2e_intensity_wtw.0),
            is_whole_decimal(r.co2e_intensity_ttw.0),
            PositiveDecimal(r.co2e_intensity_wtw.0).wf(),
            PositiveDecimal(r.co2e_intensity_ttw.0).wf(),
    {
        let hub_type = HubType::arbitrary(g);
        let (inbound_transport_mode, outbound_transport_mode) = arbitrary_hub_modes(g, hub_type);
        Hoc {
            hoc_id: formatted_arbitrary_string("hoc-", g),
            description: None,
            certifications: None,
            hub_type,
            temperature_control: draw_optional(TemperatureControl::arbitrary(g), g),
            hub_location: None,
            inbound_transport_mode,
            outbound_transport_mode,
            packaging_or_tr_eq_type: draw_optional(PackagingOrTrEqType::arbitrary(g), g),
            packaging_or_tr_eq_amount: None,
            energy_carriers: arbitrary_energy_carriers(g),
            co2e_intensity_wtw: arbitrary_wrapped_decimal(g),
            co2e_intensity_ttw: arbitrary_wrapped_decimal(g),
            hub_activity_unit: HubActivityUnit::arbitrary(g),
        }
    }
}

impl Toc {
    /// A random transport operation category. Only a transport by air has
    /// an air shipping option and a flight length; the load factor and the
    /// empty distance factor are numbers of tenths up to one; the identifier
    /// begins with `toc-`.
    pub fn arbitrary(g: &mut quickcheck::Gen) -> (r: Toc)
        ensures
            r.violation() is None,
            is_tagged(r.toc_id@, "toc-"@),
            r.mode != TransportMode::Air ==> r.air_shipping_option is None && r.flight_length
                is None,
            r.load_factor matches Some(text) && is_factor_text(text@),
            r.empty_distance_factor matches Some(text) && is_factor_text(text@),
            1 <= r.energy_carriers.0@.len() <= 5,
            r.description is None,
            r.certifications is None,
            is_whole_decimal(r.co2e_intensity_wtw.0),
            is_whole_decimal(r.co2e_intensity_ttw.0),
            PositiveDecimal(r.co2e_intensity_wtw.0).wf(),
            PositiveDecimal(r.co2e_intensity_ttw.0).wf(),
    {
        let mode = TransportMode::arbitrary(g);
        let (air_shipping_option, flight_length) = match mode {
            TransportMode::Air => (
                draw_optional(AirShippingOption::arbitrary(g), g),
                draw_optional(FlightLength::arbitrary(g), g),
            ),
            _ => (None, None),
        };
        Toc {
            toc_id: formatted_arbitrary_string("toc-", g),
            certifications: None,
            description: None,
            mode,
            load_factor: arbitrary_option_factor(g),
            empty_distance_factor: arbitrary_option_factor(g),
            temperature_control: draw_optional(TemperatureControl::arbitrary(g), g),
            truck_loading_sequence: draw_optional(TruckLoadingSequence::arbitrary(g), g),
            air_shipping_option,
            flight_length,
            energy_carriers: arbitrary_energy_carriers(g),
            co2e_intensity_wtw: arbitrary_wrapped_decimal(g),
            co2e_intensity_ttw: arbitrary_wrapped_decimal(g),
            transport_activity_unit: TransportActivityUnit::arbitrary(g),
        }
    }
}

/// The whole hours that a distance takes at a hundred kilometres an hour:
/// the hundredth of the distance rounded to a whole number, or zero where
/// that is no whole number of 64 bits.
pub open spec fn journey_hours_of(distance: Decimal) -> i64 {
    match distance.quotient(Decimal { mantissa: 100, scale: 0 }) {
        Some(q) => match q.rounded(0) {
            Some(hours) => if hours.scale == 0 && i64::MIN <= hours.mantissa <= i64::MAX {
                hours.mantissa as i64
            } else {
                0
            },
            None => 0,
        },
        None => 0,
    }
}

/// The whole hours that a distance takes at a hundred kilometres an hour.
pub fn journey_hours(distance: &Decimal) -> (r: i64)
    ensures
        r == journey_hours_of(*distance),
{
    let hours = match distance.checked_div(&Decimal::from_i64(100)) {
        Some(q) => q.round_dp(0),
        None => None,
    };
    match hours {
        Some(hours) => if hours.scale == 0 && hours.mantissa >= -9_223_372_036_854_775_808
            && hours.mantissa <= 9_223_372_036_854_775_807 {
            hours.mantissa as i64
        } else {
            0
        },
        None => 0,
    }
}

/// The time of arrival of a journey over a distance that starts at
/// `departure` and goes at a hundred kilometres an hour; the time of
/// departure itself where that time cannot be represented.
pub open spec fn arrival_of(departure: Timestamp, distance: Decimal) -> Timestamp {
    let seconds = journey_hours_of(distance) * 3600;
    if i64::MIN <= seconds <= i64::MAX {
        match departure.shifted_by_seconds(seconds as i64) {
            Some(t) => t,
            None => departure,
        }
    } else {
        departure
    }
}

/// The time of arrival of a journey over a distance that starts at
/// `departure`.
pub fn arrival(departure: &Timestamp, distance: &Decimal) -> (r: Timestamp)
    ensures
        r == arrival_of(*departure, *distance),
{
    match journey_hours(distance).checked_mul(3600) {
        Some(seconds) => match departure.plus_seconds(seconds) {
            Some(t) => t,
            None => *departure,
        },
        None => *departure,
    }
}

/// Half of `drawn`, as a whole decimal.
pub open spec fn half_of(drawn: u16) -> Decimal {
    Decimal { mantissa: (drawn / 2) as i128, scale: 0 }
}

/// Half of a drawn number, as a decimal.
pub fn halved(drawn: u16) -> (r: WrappedDecimal)
    ensures
        r.0 == half_of(drawn),
        r.0.wf(),
{
    WrappedDecimal(Decimal::from_i64((drawn / 2) as i64))
}

/// The distance is `d` on one basis, with nothing known on the other two.
pub open spec fn on_one_basis(distance: GlecDistance, d: Decimal) -> bool {
    ||| distance == (GlecDistance::Actual { actual: WrappedDecimal(d), gcd: None, sfd: None })
    ||| distance == (GlecDistance::Gcd { actual: None, gcd: WrappedDecimal(d), sfd: None })
    ||| distance == (GlecDistance::Sfd { actual: None, gcd: None, sfd: WrappedDecimal(d) })
}

impl GlecDistance {
    /// A random distance on a random basis: half of a random whole number
    /// from 0 to 65535.
    pub fn arbitrary(g: &mut quickcheck::Gen) -> (r: GlecDistance)
        ensures
            r.violation() is None,
            exists|drawn: u16| on_one_basis(r, #[trigger] half_of(drawn)),
    {
        let actual = GlecDistance::new_actual(halved(draw_u16(g)));
        let gcd = GlecDistance::new_gcd(halved(draw_u16(g)));
        let sfd = GlecDistance::new_sfd(halved(draw_u16(g)));
        let options = vec![actual, gcd, sfd];
        let chosen = pick(g, options.as_slice());
        assert(chosen == options@[0] || chosen == options@[1] || chosen == options@[2]);
        chosen
    }
}

/// The identifier, where there is one, is `prefix` followed by lower-case
/// letters, digits and hyphens.
pub open spec fn tagged_or_absent(id: Option<String>, prefix: Seq<char>) -> bool {
    match id {
        Some(text) => is_tagged(text@, prefix),
        None => true,
    }
}

/// The amount, where there is one, is a whole number from 0 to 65535.
pub open spec fn is_whole_amount(amount: Option<PositiveDecimal>) -> bool {
    match amount {
        Some(a) => exists|n: u16| a.0 == #[trigger] whole_number(n),
        None => true,
    }
}

/// The whole number `n` as a decimal.
pub open spec fn whole_number(n: u16) -> Decimal {
    Decimal { mantissa: n as i128, scale: 0 }
}

/// The leg is one as they are drawn: it has no predecessors and no
/// emissions; it is operated either by a transport or by a hub; its
/// identifiers begin with `tce-`, `toc-`, `hoc-`, `shipment-` and
/// `consignment-`; its mass is a whole number and its distance half of one;
/// its transport activity is the product of its mass and its distance, or
/// zero where that cannot be formed; and it arrives after as many hours as
/// its distance takes at a hundred kilometres an hour.
pub open spec fn is_random_leg(leg: Tce) -> bool {
    &&& is_tagged(leg.tce_id@, "tce-"@)
    &&& is_tagged(leg.shipment_id@, "shipment-"@)
    &&& leg.consignment_id is Some
    &&& tagged_or_absent(leg.consignment_id, "consignment-"@)
    &&& (leg.toc_id is Some) != (leg.hoc_id is Some)
    &&& tagged_or_absent(leg.toc_id, "toc-"@)
    &&& tagged_or_absent(leg.hoc_id, "hoc-"@)
    &&& is_whole_decimal(leg.mass.0)
    &&& exists|drawn: u16| on_one_basis(leg.distance, #[trigger] half_of(drawn))
    &&& leg.transport_activity.0 == match leg.mass.0.product(leg.distance.distance()) {
        Some(p) => p,
        None => Decimal { mantissa: 0, scale: 0 },
    }
    &&& leg.co2e_wtw.0 == (Decimal { mantissa: 0, scale: 0 })
    &&& leg.co2e_ttw.0 == (Decimal { mantissa: 0, scale: 0 })
    &&& match leg.prev_tce_ids {
        Some(prev) => prev@.len() == 0,
        None => false,
    }
    &&& match (leg.departure_at, leg.arrival_at) {
        (Some(departure), Some(arrival)) => arrival == arrival_of(
            departure,
            leg.distance.distance(),
        ),
        _ => false,
    }
    &&& is_loading_unit(leg.packaging_or_tr_eq_type)
    &&& is_whole_amount(leg.packaging_or_tr_eq_amount)
    &&& leg.origin is None
    &&& leg.destination is None
    &&& leg.flight_no is None
    &&& leg.voyage_no is None
    &&& leg.nox_ttw is None
    &&& leg.sox_ttw is None
    &&& leg.ch4_ttw is None
    &&& leg.pm_ttw is None
    &&& leg.operator_violation() is None
    &&& leg.cargo_violation() is None
    &&& leg.emissions_violation() is None
}

impl Tce {
    /// A random leg without predecessors and without emissions. It is
    /// operated either by a transport or by a hub; its identifier begins
    /// with `tce-`; its transport activity is the product of its mass and
    /// its distance; it departs within 255 days and arrives after as many
    /// hours as its distance takes at a hundred kilometres an hour.
    pub fn arbitrary(g: &mut quickcheck::Gen) -> (r: Tce)
        ensures
            is_random_leg(r),
    {
        let toc_id = if draw_bool(g) {
            Some(formatted_arbitrary_string("toc-", g))
        } else {
            None
        };
        let hoc_id = match toc_id {
            Some(_) => None,
            None => Some(formatted_arbitrary_string("hoc-", g)),
        };
        let mass = arbitrary_wrapped_decimal(g);
        let distance = GlecDistance::arbitrary(g);
        let transport_activity = match mass.0.checked_mul(&distance.get_distance()) {
            Some(p) => WrappedDecimal(p),
            None => WrappedDecimal(Decimal::from_i64(0)),
        };
        let now = Timestamp::now();
        let departure = match now.plus_days(draw_u8(g) as i64) {
            Some(t) => t,
            None => now,
        };
        let arrival = arrival(&departure, &distance.get_distance());
        let pieces = draw_u16(g);
        let amount = PositiveDecimal(Decimal::from_i64(pieces as i64));
        assert(amount.0 == whole_number(pieces));
        Tce {
            tce_id: formatted_arbitrary_string("tce-", g),
            prev_tce_ids: Some(Vec::new()),
            toc_id,
            hoc_id,
            shipment_id: formatted_arbitrary_string("shipment-", g),
            consignment_id: Some(formatted_arbitrary_string("consignment-", g)),
            mass,
            packaging_or_tr_eq_type: draw_optional(PackagingOrTrEqType::arbitrary(g), g),
            packaging_or_tr_eq_amount: draw_optional(amount, g),
            distance,
            origin: None,
            destination: None,
            transport_activity,
            departure_at: Some(departure),
            arrival_at: Some(arrival),
            flight_no: None,
            voyage_no: None,
            incoterms: draw_optional(Incoterms::arbitrary(g), g),
            co2e_wtw: WrappedDecimal(Decimal::from_i64(0)),
            co2e_ttw: WrappedDecimal(Decimal::from_i64(0)),
            nox_ttw: None,
            sox_ttw: None,
            ch4_ttw: None,
            pm_ttw: None,
        }
    }
}

/// One to five random legs.
pub fn arbitrary_tces(g: &mut quickcheck::Gen) -> (r: NonEmptyVec<Tce>)
    ensures
        r.wf(),
        1 <= r.0@.len() <= 5,
        forall|i: int| 0 <= i < r.0@.len() ==> is_random_leg(#[trigger] r.0@[i]),
{
    let num: u8 = draw_u8(g) % 5 + 1;
    let mut tces: Vec<Tce> = Vec::new();
    let mut i: u8 = 0;
    while i < num
        invariant
            i <= num <= 5,
            tces@.len() == i,
            forall|k: int| 0 <= k < tces@.len() ==> is_random_leg(#[trigger] tces@[k]),
        decreases num - i,
    {
        tces.push(Tce::arbitrary(g));
        i = i + 1;
    }
    NonEmptyVec(tces)
}

/// The text is that of a whole number from 0 to 65535.
pub open spec fn is_whole_text(text: Seq<char>) -> bool {
    exists|n: u16| text == crate::decimal::decimal_text(#[trigger] whole_number(n))
}

impl ShipmentFootprint {
    /// A random shipment of one to five random legs. Its mass is a whole
    /// number, its identifier begins with `shipment-`, it has no volume.
    pub fn arbitrary(g: &mut quickcheck::Gen) -> (r: ShipmentFootprint)
        ensures
            r.tces.wf(),
            is_random_shipment(r),
    {
        let tonnes = draw_u16(g);
        let mass = Decimal::from_i64(tonnes as i64).to_text();
        assert(mass@ == crate::decimal::decimal_text(whole_number(tonnes)));
        ShipmentFootprint {
            mass,
            shipment_id: formatted_arbitrary_string("shipment-", g),
            tces: arbitrary_tces(g),
            volume: None,
        }
    }
}

/// The texts that are written for the numbers and the times of the leg are
/// read back as the same.
pub open spec fn leg_texts_read_back(leg: Tce) -> bool {
    &&& <WrappedDecimal as Wire>::faithful(leg.mass)
    &&& <WrappedDecimal as Wire>::faithful(leg.transport_activity)
    &&& <WrappedDecimal as Wire>::faithful(leg.co2e_wtw)
    &&& <WrappedDecimal as Wire>::faithful(leg.co2e_ttw)
    &&& <WrappedDecimal as Wire>::faithful(WrappedDecimal(leg.distance.distance()))
    &&& faithful_optional::<PositiveDecimal>(leg.packaging_or_tr_eq_amount)
    &&& faithful_optional::<Timestamp>(leg.departure_at)
    &&& faithful_optional::<Timestamp>(leg.arrival_at)
}

/// Whether the text that is written for the decimal is read back as the
/// same.
pub fn decimal_reads_back(d: &WrappedDecimal) -> (r: bool)
    ensures
        r == <WrappedDecimal as Wire>::faithful(*d),
{
    if !d.0.is_valid() {
        return false;
    }
    match WrappedDecimal::parse(d.0.to_text().as_str()) {
        Ok(read) => read.0.mantissa == d.0.mantissa && read.0.scale == d.0.scale,
        Err(_) => false,
    }
}

/// Whether the text that is written for the amount, where there is one, is
/// read back as the same.
pub fn amount_reads_back(amount: &Option<PositiveDecimal>) -> (r: bool)
    ensures
        r == faithful_optional::<PositiveDecimal>(*amount),
{
    match amount {
        Some(a) => {
            if !a.is_valid() {
                return false;
            }
            match PositiveDecimal::parse(a.0.to_text().as_str()) {
                Ok(read) => read.0.mantissa == a.0.mantissa && read.0.scale == a.0.scale,
                Err(_) => false,
            }
        },
        None => true,
    }
}

/// Whether the text that is written for the time, where there is one, is
/// read back as the same.
pub fn time_reads_back(time: &Option<Timestamp>) -> (r: bool)
    ensures
        r == faithful_optional::<Timestamp>(*time),
{
    match time {
        Some(t) => match t.to_text() {
            Some(text) => match Timestamp::parse(text.as_str()) {
                Some(read) => read.secs == t.secs && read.nanos == t.nanos,
                None => false,
            },
            None => false,
        },
        None => true,
    }
}

impl Tce {
    /// Whether the texts that are written for the numbers and the times of
    /// the leg are read back as the same.
    pub fn texts_read_back(&self) -> (r: bool)
        ensures
            r == leg_texts_read_back(*self),
    {
        decimal_reads_back(&self.mass) && decimal_reads_back(&self.transport_activity)
            && decimal_reads_back(&self.co2e_wtw) && decimal_reads_back(&self.co2e_ttw)
            && decimal_reads_back(&WrappedDecimal(self.distance.get_distance()))
            && amount_reads_back(&self.packaging_or_tr_eq_amount) && time_reads_back(
            &self.departure_at,
        ) && time_reads_back(&self.arrival_at)
    }
}

impl ShipmentFootprint {
    /// Whether the texts that are written for the numbers and the times of
    /// every leg are read back as the same.
    pub fn texts_read_back(&self) -> (r: bool)
        ensures
            r == forall|i: int|
                0 <= i < self.tces.0@.len() ==> leg_texts_read_back(#[trigger] self.tces.0@[i]),
    {
        let mut i: usize = 0;
        while i < self.tces.0.len()
            invariant
                i <= self.tces.0@.len(),
                forall|k: int| 0 <= k < i ==> leg_texts_read_back(#[trigger] self.tces.0@[k]),
            decreases self.tces.0@.len() - i,
        {
            if !self.tces.0[i].texts_read_back() {
                return false;
            }
            i = i + 1;
        }
        true
    }
}

/// A leg as they are drawn is read back unchanged from its own document,
/// provided that the texts that are written for its numbers and its times
/// are read back as the same.
pub proof fn lemma_random_leg_round_trip(leg: Tce)
    requires
        is_random_leg(leg),
        leg_texts_read_back(leg),
    ensures
        <Tce as Wire>::faithful(leg.deep_view()),
        <Tce as Wire>::from_wire(<Tce as Wire>::to_wire(leg.deep_view())) == Ok::<
            TceModel,
            DecodeError,
        >(leg.deep_view()),
{
    let v = leg.deep_view();
    assert(crate::json::all_faithful::<String>(leg.prev_tce_ids->0.deep_view()));
    assert(<GlecDistance as Wire>::faithful(v.distance));
    assert(<Tce as Wire>::faithful(v));
    <Tce as Wire>::lemma_round_trip(v);
}

/// The shipment is one as they are drawn: it has one to five legs as they
/// are drawn, its mass is a whole number, its identifier begins with
/// `shipment-`, and it has no volume.
pub open spec fn is_random_shipment(shipment: ShipmentFootprint) -> bool {
    &&& 1 <= shipment.tces.0@.len() <= 5
    &&& forall|i: int|
        0 <= i < shipment.tces.0@.len() ==> is_random_leg(#[trigger] shipment.tces.0@[i])
    &&& is_tagged(shipment.shipment_id@, "shipment-"@)
    &&& is_whole_text(shipment.mass@)
    &&& shipment.volume is None
}

/// A shipment as they are drawn is read back unchanged from its own
/// document, provided that the texts that are written for the numbers and
/// the times of its legs are read back as the same.
pub proof fn lemma_random_shipment_round_trip(shipment: ShipmentFootprint)
    requires
        is_random_shipment(shipment),
        forall|i: int|
            0 <= i < shipment.tces.0@.len() ==> leg_texts_read_back(#[trigger] shipment.tces.0@[i]),
    ensures
        <ShipmentFootprint as Wire>::faithful(shipment.deep_view()),
        <ShipmentFootprint as Wire>::from_wire(
            <ShipmentFootprint as Wire>::to_wire(shipment.deep_view()),
        ) == Ok::<ShipmentFootprintModel, DecodeError>(shipment.deep_view()),
{
    let v = shipment.deep_view();
    assert forall|i: int| 0 <= i < v.tces.len() implies <Tce as Wire>::faithful(
        #[trigger] v.tces[i],
    ) by {
        assert(v.tces[i] == shipment.tces.0@[i].deep_view());
        lemma_random_leg_round_trip(shipment.tces.0@[i]);
    }
    assert(<ShipmentFootprint as Wire>::faithful(v));
    <ShipmentFootprint as Wire>::lemma_round_trip(v);
}

/// The capital letter that a drawn byte stands for.
pub open spec fn capital_of(v: u8) -> char {
    ((v % 26) + 65) as char
}

/// The capital letter that a drawn byte stands for.
pub fn capital(v: u8) -> (r: char)
    ensures
        r == capital_of(v),
        crate::text::is_upper(r),
{
    let ascii_capital: u8 = (v % 26) + 65;
    ascii_capital as char
}

/// A text of `count` random capital letters.
pub fn arbitrary_capitals(g: &mut quickcheck::Gen, count: usize) -> (r: String)
    ensures
        r@.len() == count,
        crate::text::all_upper(r@),
{
    let mut s = String::new();
    let mut i: usize = 0;
    while i < count
        invariant
            i <= count,
            s@.len() == i,
            crate::text::all_upper(s@),
        decreases count - i,
    {
        s.push(capital(draw_u8(g)));
        i = i + 1;
    }
    s
}

/// The character with a code point from 1 to 9 that a drawn byte stands for.
pub open spec fn low_char_of(v: u8) -> char {
    ((v % 9) + 1) as char
}

/// The text is two characters with code points from 1 to 9.
pub open spec fn is_low_pair(s: Seq<char>) -> bool {
    exists|first: u8, second: u8| s == seq![#[trigger] low_char_of(first), #[trigger] low_char_of(second)]
}

impl IataCode {
    /// A random code of three capital letters.
    pub fn arbitrary(g: &mut quickcheck::Gen) -> (r: IataCode)
        ensures
            r.wf(),
            r.0@.len() == 3,
            crate::text::all_upper(r.0@),
    {
        IataCode(arbitrary_capitals(g, 3))
    }
}

impl Locode {
    /// A random code of five capital letters.
    pub fn arbitrary(g: &mut quickcheck::Gen) -> (r: Locode)
        ensures
            r.wf(),
            crate::text::all_upper(r.0@),
    {
        Locode(arbitrary_capitals(g, 5))
    }
}

impl UicCode {
    /// The code of the two characters that two drawn bytes stand for.
    pub fn from_draws(first: u8, second: u8) -> (r: UicCode)
        ensures
            r.0@ == seq![low_char_of(first), low_char_of(second)],
            r.wf(),
    {
        let mut s = String::new();
        let first: u8 = (first % 9) + 1;
        s.push(first as char);
        let second: u8 = (second % 9) + 1;
        s.push(second as char);
        assert(s@ =~= seq![first as char, second as char]);
        UicCode(s)
    }

    /// A random code of two characters, each with a code point from 1 to 9.
    pub fn arbitrary(g: &mut quickcheck::Gen) -> (r: UicCode)
        ensures
            r.wf(),
            is_low_pair(r.0@),
    {
        let first = draw_u8(g);
        let second = draw_u8(g);
        UicCode::from_draws(first, second)
    }
}

impl Location {
    /// A random place. Its street, its zip code, its city and its country
    /// are random texts, so that the country need not be a country code; its
    /// codes, where it has them, are three capital letters, five capital
    /// letters and two characters with code points from 1 to 9; its
    /// coordinates, where it has them, are whole numbers.
    pub fn arbitrary(g: &mut quickcheck::Gen) -> (r: Location)
        ensures
            r.iata matches Some(code) ==> code.0@.len() == 3 && crate::text::all_upper(code.0@),
            r.locode matches Some(code) ==> code.0@.len() == 5 && crate::text::all_upper(code.0@),
            r.uic matches Some(code) ==> is_low_pair(code.0@),
            r.lat matches Some(d) ==> is_whole_decimal(d.0) && d.0.wf(),
            r.lng matches Some(d) ==> is_whole_decimal(d.0) && d.0.wf(),
    {
        Location {
            street: draw_optional(draw_text(g), g),
            zip: draw_optional(draw_text(g), g),
            city: draw_text(g),
            country: ISO3166CC(draw_text(g)),
            iata: draw_optional(IataCode::arbitrary(g), g),
            locode: draw_optional(Locode::arbitrary(g), g),
            uic: draw_optional(UicCode::arbitrary(g), g),
            lat: arbitrary_option_wrapped_decimal(g),
            lng: arbitrary_option_wrapped_decimal(g),
        }
    }
}

/// The leg at position `i` is in its place in the chain: it has exactly one
/// operator; it is no hub leg at the start or after a hub leg; its
/// predecessors are all the legs before it, in their order; as a hub leg it
/// covers no distance and has no transport activity; and as a transport leg
/// its transport activity is the product of its mass and its distance,
/// rounded to two places. Its identifiers begin with `tce-`, `toc-`, `hoc-`
/// and `consignment-`, and its mass is a whole number.
pub open spec fn leg_in_chain(tces: Seq<Tce>, i: int) -> bool {
    &&& (tces[i].toc_id is Some) != (tces[i].hoc_id is Some)
    &&& i == 0 ==> tces[i].toc_id is Some
    &&& i > 0 && tces[i - 1].hoc_id is Some ==> tces[i].toc_id is Some
    &&& tces[i].prev_tce_ids matches Some(prev) && prev@.len() == i && forall|k: int|
        0 <= k < i ==> (#[trigger] prev@[k])@ == tces[k].tce_id@
    &&& tces[i].hoc_id is Some ==> {
        &&& tces[i].transport_activity.0 == (Decimal { mantissa: 0, scale: 0 })
        &&& tces[i].distance.distance() == (Decimal { mantissa: 0, scale: 0 })
    }
    &&& tces[i].toc_id is Some ==> {
        &&& tces[i].transport_activity.0 == rounded_product_of(
            tces[i].mass.0,
            tces[i].distance.distance(),
        )
        &&& exists|drawn: u16| on_one_basis(tces[i].distance, #[trigger] half_of(drawn))
    }
    &&& is_tagged(tces[i].tce_id@, "tce-"@)
    &&& tagged_or_absent(tces[i].toc_id, "toc-"@)
    &&& tagged_or_absent(tces[i].hoc_id, "hoc-"@)
    &&& tagged_or_absent(tces[i].consignment_id, "consignment-"@)
    &&& is_whole_decimal(tces[i].mass.0)
}

/// The legs form a chain from a transport leg to a transport leg in which
/// no two hub legs follow one another, and all carry the identifier `id`.
pub open spec fn well_chained(tces: Seq<Tce>, id: Seq<char>) -> bool {
    &&& tces.len() >= 1
    &&& forall|i: int| 0 <= i < tces.len() ==> leg_in_chain(tces, i)
    &&& tces[tces.len() - 1].toc_id is Some
    &&& forall|i: int| 0 <= i < tces.len() ==> (#[trigger] tces[i]).shipment_id@ == id
}

/// The name of the company in whose name the demonstration data is issued.
pub const DEMO_COMPANY_NAME: &'static str = "SINE Foundation";

/// The identifier of that company.
pub const DEMO_COMPANY_URN: &'static str = "urn:sine:example";

/// The footprint is one of the demonstration data: the conversion of its
/// payload for the demonstration company under the factors of the sixth
/// assessment report, and as a shipment a well-formed chain of legs.
pub open spec fn is_demo_footprint(pf: ProductFootprint<ILeapType>) -> bool {
    &&& pf.extensions matches Some(list)
    &&& list@.len() == 1
    &&& is_conversion_of(
        Ok(pf),
        list@[0].data,
        DEMO_COMPANY_NAME@,
        DEMO_COMPANY_URN@,
        Some(seq![CharacterizationFactors::Ar6]),
    )
    &&& list@[0].data matches ILeapType::ShipmentFootprint(shipment) ==> well_chained(
        shipment.tces.0@,
        shipment.shipment_id@,
    )
}

/// The record that a footprint carries as the payload of its single
/// extension.
pub open spec fn payload_of(pf: ProductFootprint<ILeapType>) -> Option<ILeapType> {
    match pf.extensions {
        Some(list) => if list@.len() == 1 {
            Some(list@[0].data)
        } else {
            None
        },
        None => None,
    }
}

/// The record can be converted for the demonstration company.
pub open spec fn converts(payload: ILeapType) -> bool {
    input_error(payload.pact_fields(), DEMO_COMPANY_NAME@, DEMO_COMPANY_URN@) is None
}

/// The demonstration company has a name and a URN.
pub proof fn lemma_demo_company()
    ensures
        DEMO_COMPANY_NAME@.len() > 0,
        crate::text::has_urn_prefix(DEMO_COMPANY_URN@),
{
    reveal_strlit("SINE Foundation");
    reveal_strlit("urn:sine:example");
}

/// A transport operation category whose intensity is not below zero can be
/// converted.
pub proof fn lemma_toc_converts(toc: Toc)
    requires
        PositiveDecimal(toc.co2e_intensity_wtw.0).wf(),
    ensures
        converts(ILeapType::Toc(toc)),
{
    lemma_demo_company();
    reveal_strlit("TOC with ID ");
}

/// A hub operation category whose intensity refers to tonnes and is not
/// below zero can be converted.
pub proof fn lemma_hoc_converts(hoc: Hoc)
    requires
        hoc.hub_activity_unit == HubActivityUnit::Tonnes,
        PositiveDecimal(hoc.co2e_intensity_wtw.0).wf(),
    ensures
        converts(ILeapType::Hoc(hoc)),
{
    lemma_demo_company();
    reveal_strlit("HOC with ID ");
}

/// Converts a record of the demonstration data, and hands the footprint out
/// where the record can be converted.
fn demo_footprint(payload: ILeapType) -> (r: Option<ProductFootprint<ILeapType>>)
    ensures
        r is Some <==> converts(payload),
        r matches Some(pf) ==> {
            &&& payload_of(pf) == Some(payload)
            &&& is_conversion_of(
                Ok(pf),
                payload,
                DEMO_COMPANY_NAME@,
                DEMO_COMPANY_URN@,
                Some(seq![CharacterizationFactors::Ar6]),
            )
        },
{
    let factors = vec![CharacterizationFactors::Ar6];
    assert(factors@ =~= seq![CharacterizationFactors::Ar6]);
    match to_pcf(payload, DEMO_COMPANY_NAME, DEMO_COMPANY_URN, Some(factors)) {
        Ok(pf) => Some(pf),
        Err(_) => None,
    }
}

/// The identifiers of the legs in their order.
fn leg_ids(tces: &Vec<Tce>) -> (r: Vec<String>)
    ensures
        r@.len() == tces@.len(),
        forall|k: int| 0 <= k < r@.len() ==> (#[trigger] r@[k])@ == tces@[k].tce_id@,
{
    let mut ids: Vec<String> = Vec::new();
    let mut k: usize = 0;
    while k < tces.len()
        invariant
            k <= tces@.len(),
            ids@.len() == k,
            forall|j: int| 0 <= j < k ==> (#[trigger] ids@[j])@ == tces@[j].tce_id@,
        decreases tces@.len() - k,
    {
        ids.push(tces[k].tce_id.clone());
        k = k + 1;
    }
    ids
}

/// The footprint is that of the transport operation category that
/// operates the leg: it has the identifier that the leg names, and the
/// emissions of the leg are its intensities times the transport activity of
/// the leg, rounded to two places.
pub open spec fn runs_transport(pf: ProductFootprint<ILeapType>, leg: Tce) -> bool {
    match (payload_of(pf), leg.toc_id) {
        (Some(ILeapType::Toc(toc)), Some(id)) => {
            &&& toc.toc_id@ == id@
            &&& leg.co2e_wtw.0 == rounded_product_of(
                toc.co2e_intensity_wtw.0,
                leg.transport_activity.0,
            )
            &&& leg.co2e_ttw.0 == rounded_product_of(
                toc.co2e_intensity_ttw.0,
                leg.transport_activity.0,
            )
        },
        _ => false,
    }
}

/// The footprint is that of the hub operation category that operates the
/// leg: it has the identifier that the leg names, its intensities refer to
/// tonnes, and the emissions of the leg are its intensities times the mass
/// of the leg, rounded to two places.
pub open spec fn runs_hub(pf: ProductFootprint<ILeapType>, leg: Tce) -> bool {
    match (payload_of(pf), leg.hoc_id) {
        (Some(ILeapType::Hoc(hoc)), Some(id)) => {
            &&& hoc.hoc_id@ == id@
            &&& hoc.hub_activity_unit == HubActivityUnit::Tonnes
            &&& leg.co2e_wtw.0 == rounded_product_of(hoc.co2e_intensity_wtw.0, leg.mass.0)
            &&& leg.co2e_ttw.0 == rounded_product_of(hoc.co2e_intensity_ttw.0, leg.mass.0)
        },
        _ => false,
    }
}

/// The footprint is that of a transport operation category.
pub open spec fn carries_toc(pf: ProductFootprint<ILeapType>) -> bool {
    match payload_of(pf) {
        Some(ILeapType::Toc(_)) => true,
        _ => false,
    }
}

/// The footprint is that of a hub operation category.
pub open spec fn carries_hoc(pf: ProductFootprint<ILeapType>) -> bool {
    match payload_of(pf) {
        Some(ILeapType::Hoc(_)) => true,
        _ => false,
    }
}

/// The footprint of the category that operates the leg is among `tocs` or
/// among `hocs`, and the emissions of the leg are those that the
/// intensities of the category give.
pub open spec fn leg_operated(
    leg: Tce,
    tocs: Seq<ProductFootprint<ILeapType>>,
    hocs: Seq<ProductFootprint<ILeapType>>,
) -> bool {
    &&& leg.toc_id is Some ==> exists|j: int|
        0 <= j < tocs.len() && runs_transport(#[trigger] tocs[j], leg)
    &&& leg.hoc_id is Some ==> exists|j: int| 0 <= j < hocs.len() && runs_hub(#[trigger] hocs[j], leg)
}

/// For every leg the footprint of the category that operates it is among
/// `tocs` or among `hocs`.
pub open spec fn legs_operated(
    legs: Seq<Tce>,
    tocs: Seq<ProductFootprint<ILeapType>>,
    hocs: Seq<ProductFootprint<ILeapType>>,
) -> bool {
    forall|k: int| 0 <= k < legs.len() ==> leg_operated(#[trigger] legs[k], tocs, hocs)
}

/// The footprint is that of a shipment of `size` legs at most, each
/// operated by a category whose footprint is among `tocs` or among `hocs`
/// and whose intensities give the emissions of the leg.
pub open spec fn is_shipment_of(
    pf: ProductFootprint<ILeapType>,
    size: u8,
    tocs: Seq<ProductFootprint<ILeapType>>,
    hocs: Seq<ProductFootprint<ILeapType>>,
) -> bool {
    payload_of(pf) matches Some(ILeapType::ShipmentFootprint(shipment))
        && shipment.tces.0@.len() <= size && legs_operated(shipment.tces.0@, tocs, hocs)
}

/// `longer` begins with the elements of `shorter`.
pub open spec fn extends<A>(longer: Seq<A>, shorter: Seq<A>) -> bool {
    shorter.len() <= longer.len() && forall|j: int|
        0 <= j < shorter.len() ==> longer[j] == #[trigger] shorter[j]
}

/// The footprints are demonstration data of the given size, with the
/// shipments before position `a`, the transport operation categories from
/// there to position `b` and the hub operation categories after it: there
/// are `size` shipments at most, each of `size` legs at most, every leg is
/// operated by a category whose footprint is there, and unless the size is
/// zero there is a transport operation category.
pub open spec fn demo_data_split(
    all: Seq<ProductFootprint<ILeapType>>,
    size: u8,
    a: int,
    b: int,
) -> bool {
    &&& 0 <= a <= b <= all.len()
    &&& a <= size
    &&& size > 0 ==> a < b
    &&& forall|i: int|
        0 <= i < a ==> is_shipment_of(
            #[trigger] all[i],
            size,
            all.subrange(a, b),
            all.subrange(b, all.len() as int),
        )
    &&& forall|i: int| a <= i < b ==> carries_toc(#[trigger] all[i])
    &&& forall|i: int|
        b <= i < all.len() ==> carries_hoc(#[trigger] all[i])
}

/// The footprints are demonstration data of the given size: shipments,
/// then transport operation categories, then hub operation categories.
pub open spec fn is_demo_data(all: Seq<ProductFootprint<ILeapType>>, size: u8) -> bool {
    exists|a: int, b: int| #[trigger] demo_data_split(all, size, a, b)
}

/// Legs that are operated by categories among some footprints are operated
/// by categories among more footprints.
pub proof fn lemma_operated_extends(
    legs: Seq<Tce>,
    tocs: Seq<ProductFootprint<ILeapType>>,
    hocs: Seq<ProductFootprint<ILeapType>>,
    more_tocs: Seq<ProductFootprint<ILeapType>>,
    more_hocs: Seq<ProductFootprint<ILeapType>>,
)
    requires
        legs_operated(legs, tocs, hocs),
        extends(more_tocs, tocs),
        extends(more_hocs, hocs),
    ensures
        legs_operated(legs, more_tocs, more_hocs),
{
    assert forall|k: int| 0 <= k < legs.len() implies leg_operated(
        #[trigger] legs[k],
        more_tocs,
        more_hocs,
    ) by {
        assert(leg_operated(legs[k], tocs, hocs));
        if legs[k].toc_id is Some {
            let j = choose|j: int| 0 <= j < tocs.len() && runs_transport(#[trigger] tocs[j], legs[k]);
            assert(more_tocs[j] == tocs[j]);
            assert(runs_transport(more_tocs[j], legs[k]));
        }
        if legs[k].hoc_id is Some {
            let j = choose|j: int| 0 <= j < hocs.len() && runs_hub(#[trigger] hocs[j], legs[k]);
            assert(more_hocs[j] == hocs[j]);
            assert(runs_hub(more_hocs[j], legs[k]));
        }
    }
}

/// Footprints of shipments whose legs are operated by categories among some
/// footprints are so among more footprints.
pub proof fn lemma_shipments_extend(
    shipments: Seq<ProductFootprint<ILeapType>>,
    size: u8,
    tocs: Seq<ProductFootprint<ILeapType>>,
    hocs: Seq<ProductFootprint<ILeapType>>,
    more_tocs: Seq<ProductFootprint<ILeapType>>,
    more_hocs: Seq<ProductFootprint<ILeapType>>,
)
    requires
        forall|i: int|
            0 <= i < shipments.len() ==> is_shipment_of(#[trigger] shipments[i], size, tocs, hocs),
        extends(more_tocs, tocs),
        extends(more_hocs, hocs),
    ensures
        forall|i: int|
            0 <= i < shipments.len() ==> is_shipment_of(
                #[trigger] shipments[i],
                size,
                more_tocs,
                more_hocs,
            ),
{
    assert forall|i: int| 0 <= i < shipments.len() implies is_shipment_of(
        #[trigger] shipments[i],
        size,
        more_tocs,
        more_hocs,
    ) by {
        assert(is_shipment_of(shipments[i], size, tocs, hocs));
        if let Some(ILeapType::ShipmentFootprint(shipment)) = payload_of(shipments[i]) {
            lemma_operated_extends(shipment.tces.0@, tocs, hocs, more_tocs, more_hocs);
        }
    }
}

/// Random demonstration data: up to `size` shipments of up to `size` legs
/// each, and with every leg the operation category that operates it, all as
/// product footprints. The shipments come first, then the transport
/// operation categories, then the hub operation categories. The legs of a
/// shipment form a chain from a transport leg to a transport leg in which no
/// two hub legs follow one another. The transport activity of a transport
/// leg is its mass times its distance, that of a hub leg is zero; the
/// emissions of a leg are the intensities of its operation category times
/// its transport activity, or times its mass at a hub, all rounded to two
/// places. A shipment that cannot be converted into a footprint is left
/// out; size zero gives no records.
pub fn gen_rnd_demo_data(size: u8) -> (r: Vec<ProductFootprint<ILeapType>>)
    ensures
        forall|i: int| 0 <= i < r@.len() ==> is_demo_footprint(#[trigger] r@[i]),
        size == 0 ==> r@.len() == 0,
        is_demo_data(r@, size),
{
    let mut footprints: Vec<ProductFootprint<ILeapType>> = Vec::new();
    if size == 0 {
        assert(demo_data_split(footprints@, size, 0, 0));
        return footprints;
    }
    let mut og = new_generator(size as usize);
    let mut tocs: Vec<ProductFootprint<ILeapType>> = Vec::new();
    let mut hocs: Vec<ProductFootprint<ILeapType>> = Vec::new();
    let num_of_shipments: u8 = draw_u8(&mut og) % size + 1;
    let mut n: u8 = 0;
    while n < num_of_shipments
        invariant
            n <= num_of_shipments <= size,
            size > 0,
            footprints@.len() <= n,
            n > 0 ==> tocs@.len() > 0,
            forall|i: int| 0 <= i < footprints@.len() ==> is_demo_footprint(#[trigger] footprints@[i]),
            forall|i: int| 0 <= i < tocs@.len() ==> is_demo_footprint(#[trigger] tocs@[i]),
            forall|i: int| 0 <= i < hocs@.len() ==> is_demo_footprint(#[trigger] hocs@[i]),
            forall|i: int|
                0 <= i < footprints@.len() ==> is_shipment_of(
                    #[trigger] footprints@[i],
                    size,
                    tocs@,
                    hocs@,
                ),
            forall|i: int|
                0 <= i < tocs@.len() ==> carries_toc(#[trigger] tocs@[i]),
            forall|i: int|
                0 <= i < hocs@.len() ==> carries_hoc(#[trigger] hocs@[i]),
        decreases num_of_shipments - n,
    {
        let mut ship_foot = ShipmentFootprint::arbitrary(&mut og);
        let mut tces: Vec<Tce> = Vec::new();
        let limit: u8 = draw_u8(&mut og) % size + 1;
        let mut i: u8 = 0;
        while i < limit
            invariant
                i <= limit <= size,
                tces@.len() == i,
                forall|k: int| 0 <= k < tces@.len() ==> leg_in_chain(tces@, k),
                forall|k: int| 0 <= k < tces@.len() ==> (#[trigger] tces@[k]).shipment_id@
                    == ship_foot.shipment_id@,
                i > 0 && i == limit ==> tces@[i - 1].toc_id is Some,
                i > 0 ==> tocs@.len() > 0,
                n > 0 ==> tocs@.len() > 0,
                legs_operated(tces@, tocs@, hocs@),
                forall|k: int| 0 <= k < tocs@.len() ==> is_demo_footprint(#[trigger] tocs@[k]),
                forall|k: int| 0 <= k < hocs@.len() ==> is_demo_footprint(#[trigger] hocs@[k]),
                forall|k: int|
                    0 <= k < footprints@.len() ==> is_shipment_of(
                        #[trigger] footprints@[k],
                        size,
                        tocs@,
                        hocs@,
                    ),
                forall|k: int|
                    0 <= k < tocs@.len() ==> carries_toc(#[trigger] tocs@[k]),
                forall|k: int|
                    0 <= k < hocs@.len() ==> carries_hoc(#[trigger] hocs@[k]),
            decreases limit - i,
        {
            let ghost tocs_before = tocs@;
            let ghost hocs_before = hocs@;
            let mut tce = Tce::arbitrary(&mut og);
            tce.prev_tce_ids = Some(leg_ids(&tces));
            let after_hub = i > 0 && tces[(i - 1) as usize].hoc_id.is_some();
            if (i == 0 || i == limit - 1 || after_hub) && tce.hoc_id.is_some() {
                tce.hoc_id = None;
                tce.toc_id = Some(formatted_arbitrary_string("toc-", &mut og));
            }
            match &tce.hoc_id {
                Some(hoc_id) => {
                    let mut hoc = Hoc::arbitrary(&mut og);
                    hoc.hub_activity_unit = HubActivityUnit::Tonnes;
                    hoc.hoc_id = hoc_id.clone();
                    tce.distance = GlecDistance::new_actual(WrappedDecimal(Decimal::from_i64(0)));
                    tce.transport_activity = WrappedDecimal(Decimal::from_i64(0));
                    tce.co2e_wtw = rounded_product(&hoc.co2e_intensity_wtw.0, &tce.mass.0);
                    tce.co2e_ttw = rounded_product(&hoc.co2e_intensity_ttw.0, &tce.mass.0);
                    proof {
                        lemma_hoc_converts(hoc);
                    }
                    match demo_footprint(ILeapType::Hoc(hoc)) {
                        Some(pf) => {
                            hocs.push(pf);
                            assert(runs_hub(hocs@[hocs@.len() - 1], tce));
                        },
                        None => {},
                    }
                },
                None => {},
            }
            match &tce.toc_id {
                Some(toc_id) => {
                    let mut toc = Toc::arbitrary(&mut og);
                    toc.toc_id = toc_id.clone();
                    tce.transport_activity = rounded_product(
                        &tce.mass.0,
                        &tce.distance.get_distance(),
                    );
                    tce.co2e_wtw = rounded_product(
                        &toc.co2e_intensity_wtw.0,
                        &tce.transport_activity.0,
                    );
                    tce.co2e_ttw = rounded_product(
                        &toc.co2e_intensity_ttw.0,
                        &tce.transport_activity.0,
                    );
                    proof {
                        lemma_toc_converts(toc);
                    }
                    match demo_footprint(ILeapType::Toc(toc)) {
                        Some(pf) => {
                            tocs.push(pf);
                            assert(runs_transport(tocs@[tocs@.len() - 1], tce));
                        },
                        None => {},
                    }
                },
                None => {},
            }
            let ghost operated = tce;
            tce.shipment_id = ship_foot.shipment_id.clone();
            let ghost before = tces@;
            tces.push(tce);
            proof {
                assert forall|k: int| 0 <= k < tces@.len() implies leg_in_chain(tces@, k) by {
                    if k < before.len() {
                        assert(leg_in_chain(before, k));
                    }
                }
                assert(extends(tocs@, tocs_before));
                assert(extends(hocs@, hocs_before));
                lemma_operated_extends(before, tocs_before, hocs_before, tocs@, hocs@);
                lemma_shipments_extend(
                    footprints@,
                    size,
                    tocs_before,
                    hocs_before,
                    tocs@,
                    hocs@,
                );
                assert(tce.toc_id is Some ==> runs_transport(tocs@[tocs@.len() - 1], operated));
                assert(tce.hoc_id is Some ==> runs_hub(hocs@[hocs@.len() - 1], operated));
                assert(leg_operated(tce, tocs@, hocs@));
                assert forall|k: int| 0 <= k < tces@.len() implies leg_operated(
                    #[trigger] tces@[k],
                    tocs@,
                    hocs@,
                ) by {
                    if k < before.len() {
                        assert(tces@[k] == before[k]);
                    }
                }
            }
            i = i + 1;
        }
        let ghost id = ship_foot.shipment_id@;
        let ghost legs = tces@;
        ship_foot.tces = NonEmptyVec(tces);
        assert(well_chained(ship_foot.tces.0@, id));
        match demo_footprint(ILeapType::ShipmentFootprint(ship_foot)) {
            Some(pf) => {
                assert(is_shipment_of(pf, size, tocs@, hocs@));
                footprints.push(pf);
            },
            None => {},
        }
        n = n + 1;
    }
    let ghost shipments = footprints@;
    let ghost all_tocs = tocs@;
    let ghost all_hocs = hocs@;
    footprints.append(&mut tocs);
    footprints.append(&mut hocs);
    proof {
        let a = shipments.len() as int;
        let b = a + all_tocs.len();
        assert(footprints@ =~= shipments + all_tocs + all_hocs);
        assert(footprints@.subrange(a, b) =~= all_tocs);
        assert(footprints@.subrange(b, footprints@.len() as int) =~= all_hocs);
        assert forall|i: int| 0 <= i < a implies is_shipment_of(
            #[trigger] footprints@[i],
            size,
            footprints@.subrange(a, b),
            footprints@.subrange(b, footprints@.len() as int),
        ) by {
            assert(footprints@[i] == shipments[i]);
        }
        assert forall|i: int| a <= i < b implies carries_toc(#[trigger] footprints@[i]) by {
            assert(footprints@[i] == all_tocs[i - a]);
        }
        assert forall|i: int| b <= i < footprints@.len() implies carries_hoc(#[trigger] footprints@[i]) by {
            assert(footprints@[i] == all_hocs[i - b]);
        }
        assert(demo_data_split(footprints@, size, a, b));
        assert forall|i: int| 0 <= i < footprints@.len() implies is_demo_footprint(
            #[trigger] footprints@[i],
        ) by {
            if i < a {
                assert(footprints@[i] == shipments[i]);
            } else if i < b {
                assert(footprints@[i] == all_tocs[i - a]);
            } else {
                assert(footprints@[i] == all_hocs[i - b]);
            }
        }
    }
    footprints
}

} // verus!
