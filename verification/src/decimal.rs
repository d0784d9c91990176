//! Decimal numbers: a signed 96-bit mantissa and a power of ten that divides it.
//!
//! The arithmetic is done by the `rust_decimal` crate. A [`Decimal`] holds what
//! that crate's number consists of as two plain integers, so that signs, zero
//! tests and comparisons against one are decided here.

use vstd::prelude::*;
use crate::error::{Field, Reason, ValidationError};

verus! {

/// The largest mantissa: 2^96 - 1.
pub const MAX_MANTISSA: i128 = 79_228_162_514_264_337_593_543_950_335;

/// The largest scale.
pub const MAX_SCALE: u32 = 28;

/// The number `mantissa / 10^scale`.
#[derive(Clone, Copy, Debug, PartialEq, Eq, Hash, Structural)]
pub struct Decimal {
    pub mantissa: i128,
    pub scale: u32,
}

/// Ten to the power `n`.
pub open spec fn pow10(n: nat) -> int
    decreases n,
{
    if n == 0 {
        1
    } else {
        10 * pow10((n - 1) as nat)
    }
}

/// What `rust_decimal` returns for the sum of two decimals, each given as
/// mantissa and scale: `None` where it reports an overflow.
pub uninterp spec fn decimal_sum(a: Decimal, b: Decimal) -> Option<Decimal>;

/// What `rust_decimal` returns for the product of two decimals: `None` where
/// it reports an overflow.
pub uninterp spec fn decimal_product(a: Decimal, b: Decimal) -> Option<Decimal>;

/// What `rust_decimal` returns for the quotient of two decimals: `None`
/// where it reports an overflow or a division by zero.
pub uninterp spec fn decimal_quotient(a: Decimal, b: Decimal) -> Option<Decimal>;

/// What `rust_decimal` returns for a decimal rounded to `dp` places after the
/// point, halves going to the even neighbour.
pub uninterp spec fn decimal_rounded(a: Decimal, dp: u32) -> Decimal;

/// What `rust_decimal` reads from a text: `None` where it rejects the text.
pub uninterp spec fn decimal_from_text(text: Seq<char>) -> Option<Decimal>;

/// The text that `rust_decimal` writes for a decimal.
pub uninterp spec fn decimal_text(a: Decimal) -> Seq<char>;

/// Calls `rust_decimal::Decimal::checked_add` on the two numbers. The result
/// is whatever that function computes from them; nothing is claimed of its
/// value or of its range.
#[verifier::external_body]
fn outside_checked_add(a: Decimal, b: Decimal) -> (r: Option<Decimal>)
    requires
        a.wf(),
        b.wf(),
    ensures
        r == decimal_sum(a, b),
{
    let x = rust_decimal::Decimal::from_i128_with_scale(a.mantissa, a.scale);
    let y = rust_decimal::Decimal::from_i128_with_scale(b.mantissa, b.scale);
    match x.checked_add(y) {
        Some(d) => Some(Decimal { mantissa: d.mantissa(), scale: d.scale() }),
        None => None,
    }
}

/// Calls `rust_decimal::Decimal::checked_mul` on the two numbers. The result
/// is whatever that function computes from them.
#[verifier::external_body]
fn outside_checked_mul(a: Decimal, b: Decimal) -> (r: Option<Decimal>)
    requires
        a.wf(),
        b.wf(),
    ensures
        r == decimal_product(a, b),
{
    let x = rust_decimal::Decimal::from_i128_with_scale(a.mantissa, a.scale);
    let y = rust_decimal::Decimal::from_i128_with_scale(b.mantissa, b.scale);
    match x.checked_mul(y) {
        Some(d) => Some(Decimal { mantissa: d.mantissa(), scale: d.scale() }),
        None => None,
    }
}

/// Calls `rust_decimal::Decimal::checked_div` on the two numbers. The result
/// is whatever that function computes from them.
#[verifier::external_body]
fn outside_checked_div(a: Decimal, b: Decimal) -> (r: Option<Decimal>)
    requires
        a.wf(),
        b.wf(),
    ensures
        r == decimal_quotient(a, b),
{
    let x = rust_decimal::Decimal::from_i128_with_scale(a.mantissa, a.scale);
    let y = rust_decimal::Decimal::from_i128_with_scale(b.mantissa, b.scale);
    match x.checked_div(y) {
        Some(d) => Some(Decimal { mantissa: d.mantissa(), scale: d.scale() }),
        None => None,
    }
}

/// Calls `rust_decimal::Decimal::round_dp`. The result is whatever that
/// function computes from the number and the count of places.
#[verifier::external_body]
fn outside_round_dp(a: Decimal, dp: u32) -> (r: Decimal)
    requires
        a.wf(),
    ensures
        r == decimal_rounded(a, dp),
{
    let d = rust_decimal::Decimal::from_i128_with_scale(a.mantissa, a.scale).round_dp(dp);
    Decimal { mantissa: d.mantissa(), scale: d.scale() }
}

/// Calls `rust_decimal::Decimal::from_str`. The result is whatever that
/// function reads from the text, `None` where it returns an error.
#[verifier::external_body]
fn outside_from_str(text: &str) -> (r: Option<Decimal>)
    ensures
        r == decimal_from_text(text@),
{
    match <rust_decimal::Decimal as core::str::FromStr>::from_str(text) {
        Ok(d) => Some(Decimal { mantissa: d.mantissa(), scale: d.scale() }),
        Err(_) => None,
    }
}

/// Calls `to_string` on the `rust_decimal::Decimal` with this mantissa and
/// scale. The result is whatever text that crate writes for the number.
#[verifier::external_body]
fn outside_to_string(a: Decimal) -> (r: String)
    requires
        a.wf(),
    ensures
        r@ == decimal_text(a),
{
    rust_decimal::Decimal::from_i128_with_scale(a.mantissa, a.scale).to_string()
}

/// Ten to the power 28 written out, and the powers below it.
pub proof fn lemma_pow10_bounds(n: nat)
    requires
        n <= 28,
    ensures
        1 <= pow10(n) <= pow10(28),
        pow10(28) == 10_000_000_000_000_000_000_000_000_000,
    decreases 28 - n,
{
    reveal_with_fuel(pow10, 30);
    if n < 28 {
        lemma_pow10_bounds(n + 1);
    }
}

/// Ten to the power `n`, for the scales a decimal can have.
pub fn ten_to(n: u32) -> (r: i128)
    requires
        n <= 28,
    ensures
        r == pow10(n as nat),
{
    let mut p: i128 = 1;
    let mut i: u32 = 0;
    while i < n
        invariant
            i <= n <= 28,
            p == pow10(i as nat),
        decreases n - i,
    {
        proof {
            lemma_pow10_bounds((i + 1) as nat);
        }
        p = p * 10;
        i = i + 1;
    }
    p
}

impl Decimal {
    /// The mantissa fits in 96 bits and the scale is at most 28.
    pub open spec fn wf(self) -> bool {
        -MAX_MANTISSA <= self.mantissa <= MAX_MANTISSA && self.scale <= MAX_SCALE
    }

    pub open spec fn is_zero_spec(self) -> bool {
        self.mantissa == 0
    }

    /// The number is at most one: `mantissa <= 10^scale`.
    pub open spec fn at_most_one(self) -> bool {
        self.mantissa <= pow10(self.scale as nat)
    }

    /// The sum as this library hands it out: what `rust_decimal` computes,
    /// where both numbers are well formed and so is the sum.
    pub open spec fn sum(self, other: Decimal) -> Option<Decimal> {
        if self.wf() && other.wf() {
            match decimal_sum(self, other) {
                Some(d) => if d.wf() {
                    Some(d)
                } else {
                    None
                },
                None => None,
            }
        } else {
            None
        }
    }

    /// The product as this library hands it out.
    pub open spec fn product(self, other: Decimal) -> Option<Decimal> {
        if self.wf() && other.wf() {
            match decimal_product(self, other) {
                Some(d) => if d.wf() {
                    Some(d)
                } else {
                    None
                },
                None => None,
            }
        } else {
            None
        }
    }

    /// The quotient as this library hands it out.
    pub open spec fn quotient(self, other: Decimal) -> Option<Decimal> {
        if self.wf() && other.wf() {
            match decimal_quotient(self, other) {
                Some(d) => if d.wf() {
                    Some(d)
                } else {
                    None
                },
                None => None,
            }
        } else {
            None
        }
    }

    /// The number rounded to `dp` places as this library hands it out.
    pub open spec fn rounded(self, dp: u32) -> Option<Decimal> {
        if self.wf() && decimal_rounded(self, dp).wf() {
            Some(decimal_rounded(self, dp))
        } else {
            None
        }
    }

    /// The decimal that a text stands for, where it stands for a well-formed one.
    pub open spec fn from_text(text: Seq<char>) -> Option<Decimal> {
        match decimal_from_text(text) {
            Some(d) => if d.wf() {
                Some(d)
            } else {
                None
            },
            None => None,
        }
    }

    /// The decimal `num / 10^scale`. It is well formed when `scale` is at most 28.
    pub fn new(num: i64, scale: u32) -> (r: Decimal)
        ensures
            r == (Decimal { mantissa: num as i128, scale }),
            r.wf() <==> scale <= MAX_SCALE,
    {
        Decimal { mantissa: num as i128, scale }
    }

    /// The decimal with the given parts, if they are in range.
    pub fn from_parts(mantissa: i128, scale: u32) -> (r: Result<Decimal, ValidationError>)
        ensures
            r == if (Decimal { mantissa, scale }).wf() {
                Ok::<Decimal, ValidationError>(Decimal { mantissa, scale })
            } else {
                Err(ValidationError { field: Field::Decimal, reason: Reason::OutOfRange })
            },
    {
        let d = Decimal { mantissa, scale };
        if d.is_valid() {
            Ok(d)
        } else {
            Err(ValidationError::new(Field::Decimal, Reason::OutOfRange))
        }
    }

    /// The whole number `n`.
    pub fn from_i64(n: i64) -> (r: Decimal)
        ensures
            r == (Decimal { mantissa: n as i128, scale: 0 }),
            r.wf(),
    {
        Decimal { mantissa: n as i128, scale: 0 }
    }

    pub fn is_valid(&self) -> (r: bool)
        ensures
            r == self.wf(),
    {
        -MAX_MANTISSA <= self.mantissa && self.mantissa <= MAX_MANTISSA && self.scale <= MAX_SCALE
    }

    pub fn is_zero(&self) -> (r: bool)
        ensures
            r == self.is_zero_spec(),
    {
        self.mantissa == 0
    }

    /// Whether the number is at most one.
    pub fn is_at_most_one(&self) -> (r: bool)
        requires
            self.wf(),
        ensures
            r == self.at_most_one(),
    {
        self.mantissa <= ten_to(self.scale)
    }

    /// The sum of the two numbers, or `None` where a number is malformed or
    /// the sum cannot be represented.
    pub fn checked_add(&self, other: &Decimal) -> (r: Option<Decimal>)
        ensures
            r == self.sum(*other),
    {
        if !self.is_valid() || !other.is_valid() {
            return None;
        }
        match outside_checked_add(*self, *other) {
            Some(d) => if d.is_valid() {
                Some(d)
            } else {
                None
            },
            None => None,
        }
    }

    /// The product of the two numbers, or `None` where a number is malformed
    /// or the product cannot be represented.
    pub fn checked_mul(&self, other: &Decimal) -> (r: Option<Decimal>)
        ensures
            r == self.product(*other),
    {
        if !self.is_valid() || !other.is_valid() {
            return None;
        }
        match outside_checked_mul(*self, *other) {
            Some(d) => if d.is_valid() {
                Some(d)
            } else {
                None
            },
            None => None,
        }
    }

    /// The quotient of the two numbers, or `None` where a number is
    /// malformed, the divisor is zero or the quotient cannot be represented.
    pub fn checked_div(&self, other: &Decimal) -> (r: Option<Decimal>)
        ensures
            r == self.quotient(*other),
    {
        if !self.is_valid() || !other.is_valid() {
            return None;
        }
        match outside_checked_div(*self, *other) {
            Some(d) => if d.is_valid() {
                Some(d)
            } else {
                None
            },
            None => None,
        }
    }

    /// The number rounded to `dp` places after the point, or `None` where the
    /// number is malformed.
    pub fn round_dp(&self, dp: u32) -> (r: Option<Decimal>)
        ensures
            r == self.rounded(dp),
    {
        if !self.is_valid() {
            return None;
        }
        let d = outside_round_dp(*self, dp);
        if d.is_valid() {
            Some(d)
        } else {
            None
        }
    }

    /// Reads a decimal from a text.
    pub fn parse(text: &str) -> (r: Option<Decimal>)
        ensures
            r == Decimal::from_text(text@),
    {
        match outside_from_str(text) {
            Some(d) => if d.is_valid() {
                Some(d)
            } else {
                None
            },
            None => None,
        }
    }

    /// Writes the number as text.
    pub fn to_text(&self) -> (r: String)
        requires
            self.wf(),
        ensures
            r@ == decimal_text(*self),
    {
        outside_to_string(*self)
    }
}

/// The sum of the first `n` of the decimals, added up from zero in their
/// order: `None` as soon as one addition has no result.
pub open spec fn total_of_first(values: Seq<Decimal>, n: nat) -> Option<Decimal>
    decreases n,
{
    if n == 0 {
        Some(Decimal { mantissa: 0, scale: 0 })
    } else {
        match total_of_first(values, (n - 1) as nat) {
            Some(t) => t.sum(values[n - 1]),
            None => None,
        }
    }
}

/// The sum of the decimals, added up from zero in their order.
pub open spec fn total(values: Seq<Decimal>) -> Option<Decimal> {
    total_of_first(values, values.len())
}

/// Once the sum of a prefix has no result, no longer prefix has one.
pub proof fn lemma_total_stays_none(values: Seq<Decimal>, n: nat, m: nat)
    requires
        n <= m,
        total_of_first(values, n) is None,
    ensures
        total_of_first(values, m) is None,
    decreases m,
{
    if n < m {
        lemma_total_stays_none(values, n, (m - 1) as nat);
    }
}

/// Adds up the decimals from zero in their order.
pub fn sum_all(values: &Vec<Decimal>) -> (r: Option<Decimal>)
    ensures
        r == total(values@),
{
    let mut acc = Decimal::from_i64(0);
    let mut i: usize = 0;
    while i < values.len()
        invariant
            i <= values@.len(),
            total_of_first(values@, i as nat) == Some(acc),
        decreases values@.len() - i,
    {
        match acc.checked_add(&values[i]) {
            Some(next) => {
                acc = next;
            },
            None => {
                proof {
                    lemma_total_stays_none(values@, (i + 1) as nat, values@.len());
                }
                return None;
            },
        }
        i = i + 1;
    }
    Some(acc)
}

} // verus!
