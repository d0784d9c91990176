//! Filters on listings of footprints, in the subset of the OData `$filter`
//! syntax that the data exchange protocol uses.
//!
//! A filter is a conjunction of conditions joined by ` and `; parentheses
//! count as blanks. A condition tests whether one of the product or company
//! identifiers of a footprint equals a value, or compares a property of the
//! footprint with a value: `created lt '2023-06-27T13:00:00.000Z'`.

use vstd::prelude::*;
use vstd::string::*;
use crate::geography::GeographicScope;
use crate::pact::ProductFootprint;
use crate::scalars::Urn;
use crate::text::{each_text, list_shown, show_list};
use crate::time::{timestamp_from_text, timestamp_shown, Timestamp};

verus! {

/// A character that counts as white space: the blanks and line ends of
/// ASCII, and those of the other scripts of Unicode.
pub open spec fn is_space(c: char) -> bool {
    ||| c == ' '
    ||| '\u{9}' <= c <= '\u{d}'
    ||| c == '\u{85}'
    ||| c == '\u{a0}'
    ||| c == '\u{1680}'
    ||| '\u{2000}' <= c <= '\u{200a}'
    ||| c == '\u{2028}'
    ||| c == '\u{2029}'
    ||| c == '\u{202f}'
    ||| c == '\u{205f}'
    ||| c == '\u{3000}'
}

/// Whether a character counts as white space.
pub fn space(c: char) -> (r: bool)
    ensures
        r == is_space(c),
{
    c == ' ' || ('\u{9}' <= c && c <= '\u{d}') || c == '\u{85}' || c == '\u{a0}' || c == '\u{1680}'
        || ('\u{2000}' <= c && c <= '\u{200a}') || c == '\u{2028}' || c == '\u{2029}' || c
        == '\u{202f}' || c == '\u{205f}' || c == '\u{3000}'
}

/// The characters of a text.
pub fn chars_of(text: &str) -> (r: Vec<char>)
    ensures
        r@ == text@,
{
    let n = text.unicode_len();
    let mut out: Vec<char> = Vec::new();
    let mut i: usize = 0;
    while i < n
        invariant
            n == text@.len(),
            i <= n,
            out@ == text@.take(i as int),
        decreases n - i,
    {
        out.push(text.get_char(i));
        assert(text@.take(i + 1) =~= text@.take(i as int).push(text@[i as int]));
        i = i + 1;
    }
    assert(text@.take(n as int) =~= text@);
    out
}

/// The text of the characters from `from` up to but not including `to`.
pub fn text_of(chars: &Vec<char>, from: usize, to: usize) -> (r: String)
    requires
        from <= to <= chars@.len(),
    ensures
        r@ == chars@.subrange(from as int, to as int),
{
    let mut out = String::new();
    let mut i: usize = from;
    while i < to
        invariant
            from <= i <= to <= chars@.len(),
            out@ == chars@.subrange(from as int, i as int),
        decreases to - i,
    {
        out.push(chars[i]);
        assert(chars@.subrange(from as int, i + 1) =~= chars@.subrange(from as int, i as int).push(
            chars@[i as int],
        ));
        i = i + 1;
    }
    out
}

/// The text with a blank in place of every parenthesis.
pub open spec fn blanked(s: Seq<char>) -> Seq<char> {
    s.map_values(
        |c: char|
            if c == '(' || c == ')' {
                ' '
            } else {
                c
            },
    )
}

/// Puts a blank in place of every parenthesis.
pub fn blank_parentheses(chars: &Vec<char>) -> (r: Vec<char>)
    ensures
        r@ == blanked(chars@),
{
    let mut out: Vec<char> = Vec::new();
    let mut i: usize = 0;
    while i < chars.len()
        invariant
            i <= chars@.len(),
            out@ == blanked(chars@.take(i as int)),
        decreases chars@.len() - i,
    {
        let c = chars[i];
        out.push(
            if c == '(' || c == ')' {
                ' '
            } else {
                c
            },
        );
        proof {
            assert(chars@.take(i + 1) =~= chars@.take(i as int).push(c));
            assert(blanked(chars@.take(i + 1)) =~= blanked(chars@.take(i as int)).push(
                if c == '(' || c == ')' {
                    ' '
                } else {
                    c
                },
            ));
        }
        i = i + 1;
    }
    assert(chars@.take(chars@.len() as int) =~= chars@);
    out
}

/// `sep` stands in `s` at position `at`.
pub open spec fn occurs_at(s: Seq<char>, sep: Seq<char>, at: int) -> bool {
    0 <= at && at + sep.len() <= s.len() && s.subrange(at, at + sep.len()) == sep
}

/// Whether `sep` stands in `s` at position `at`.
pub fn stands_at(s: &Vec<char>, sep: &Vec<char>, at: usize) -> (r: bool)
    ensures
        r == occurs_at(s@, sep@, at as int),
{
    let n = sep.len();
    if at > s.len() || n > s.len() - at {
        return false;
    }
    let mut k: usize = 0;
    while k < n
        invariant
            n == sep@.len(),
            at + n <= s@.len() <= usize::MAX,
            k <= n,
            forall|j: int| 0 <= j < k ==> s@[at + j] == sep@[j],
        decreases n - k,
    {
        if s[at + k] != sep[k] {
            assert(s@.subrange(at as int, at + n)[k as int] != sep@[k as int]);
            return false;
        }
        k = k + 1;
    }
    assert(s@.subrange(at as int, at + n) =~= sep@);
    true
}

/// The pieces into which the occurrences of `sep` cut `s`, found from left
/// to right without overlap: the piece that starts at `start`, with the
/// search for the next occurrence at `at`, and the pieces after it.
pub open spec fn pieces_from(s: Seq<char>, sep: Seq<char>, start: int, at: int) -> Seq<Seq<char>>
    decreases s.len() - at,
{
    if sep.len() == 0 || at < 0 || at + sep.len() > s.len() {
        seq![s.subrange(start, s.len() as int)]
    } else if occurs_at(s, sep, at) {
        seq![s.subrange(start, at)] + pieces_from(s, sep, at + sep.len(), at + sep.len())
    } else {
        pieces_from(s, sep, start, at + 1)
    }
}

/// The pieces into which the occurrences of `sep` cut `s`.
pub open spec fn pieces(s: Seq<char>, sep: Seq<char>) -> Seq<Seq<char>> {
    pieces_from(s, sep, 0, 0)
}

/// The characters of each of the vectors.
pub open spec fn texts(v: Seq<Vec<char>>) -> Seq<Seq<char>> {
    v.map_values(|p: Vec<char>| p@)
}

/// The characters from `from` up to but not including `to`.
pub fn slice(chars: &Vec<char>, from: usize, to: usize) -> (r: Vec<char>)
    requires
        from <= to <= chars@.len(),
    ensures
        r@ == chars@.subrange(from as int, to as int),
{
    let mut out: Vec<char> = Vec::new();
    let mut i: usize = from;
    while i < to
        invariant
            from <= i <= to <= chars@.len(),
            out@ == chars@.subrange(from as int, i as int),
        decreases to - i,
    {
        out.push(chars[i]);
        assert(chars@.subrange(from as int, i + 1) =~= chars@.subrange(from as int, i as int).push(
            chars@[i as int],
        ));
        i = i + 1;
    }
    out
}

/// Cuts `s` at the occurrences of `sep`.
pub fn split(s: &Vec<char>, sep: &Vec<char>) -> (r: Vec<Vec<char>>)
    ensures
        texts(r@) == pieces(s@, sep@),
        r@.len() >= 1,
{
    let n = s.len();
    let m = sep.len();
    let mut out: Vec<Vec<char>> = Vec::new();
    if m == 0 || m > n {
        out.push(slice(s, 0, n));
        assert(texts(out@) =~= seq![s@.subrange(0, n as int)]);
        proof {
            reveal_with_fuel(pieces_from, 1);
        }
        return out;
    }
    let mut start: usize = 0;
    let mut at: usize = 0;
    while at <= n - m
        invariant
            n == s@.len(),
            m == sep@.len(),
            0 < m <= n,
            start <= at <= n,
            pieces(s@, sep@) == texts(out@) + pieces_from(s@, sep@, start as int, at as int),
        decreases n - at,
    {
        if stands_at(s, sep, at) {
            let ghost before = out@;
            out.push(slice(s, start, at));
            proof {
                assert(texts(out@) =~= texts(before) + seq![s@.subrange(start as int, at as int)]);
                assert(texts(before) + (seq![s@.subrange(start as int, at as int)] + pieces_from(
                    s@,
                    sep@,
                    at + m,
                    at + m,
                )) =~= texts(out@) + pieces_from(s@, sep@, at + m, at + m));
            }
            at = at + m;
            start = at;
        } else {
            at = at + 1;
        }
    }
    let ghost before = out@;
    out.push(slice(s, start, n));
    proof {
        assert(texts(out@) =~= texts(before) + seq![s@.subrange(start as int, n as int)]);
    }
    out
}

/// Where the white space at the start of `s` ends, searching from `i`.
pub open spec fn leading_end(s: Seq<char>, i: int) -> int
    decreases s.len() - i,
{
    if 0 <= i < s.len() && is_space(s[i]) {
        leading_end(s, i + 1)
    } else {
        i
    }
}

/// Where the white space at the end of `s` starts, searching down from `j`
/// and not below `low`.
pub open spec fn trailing_start(s: Seq<char>, low: int, j: int) -> int
    decreases j,
{
    if 0 <= low < j <= s.len() && is_space(s[j - 1]) {
        trailing_start(s, low, j - 1)
    } else {
        j
    }
}

/// The text without the white space at its start and at its end.
pub open spec fn trimmed(s: Seq<char>) -> Seq<char> {
    let from = leading_end(s, 0);
    if from >= s.len() {
        Seq::empty()
    } else {
        s.subrange(from, trailing_start(s, from, s.len() as int))
    }
}

/// Removes the white space at the start and at the end.
pub fn trim(s: &Vec<char>) -> (r: Vec<char>)
    ensures
        r@ == trimmed(s@),
{
    let n = s.len();
    let mut from: usize = 0;
    while from < n && space(s[from])
        invariant
            n == s@.len(),
            from <= n,
            leading_end(s@, 0) == leading_end(s@, from as int),
        decreases n - from,
    {
        from = from + 1;
    }
    if from >= n {
        return Vec::new();
    }
    let mut to: usize = n;
    while to > from && space(s[to - 1])
        invariant
            n == s@.len(),
            from <= to <= n,
            trailing_start(s@, from as int, n as int) == trailing_start(s@, from as int, to as int),
        decreases to,
    {
        to = to - 1;
    }
    slice(s, from, to)
}

/// Of the given texts, those that are not empty once trimmed, trimmed.
pub open spec fn trimmed_words(parts: Seq<Seq<char>>) -> Seq<Seq<char>>
    decreases parts.len(),
{
    if parts.len() == 0 {
        Seq::empty()
    } else {
        let front = trimmed_words(parts.drop_last());
        let word = trimmed(parts.last());
        if word.len() == 0 {
            front
        } else {
            front.push(word)
        }
    }
}

/// The words of a text: the pieces between its blanks that are not empty
/// once trimmed, trimmed.
pub open spec fn words(s: Seq<char>) -> Seq<Seq<char>> {
    trimmed_words(pieces(s, seq![' ']))
}

/// Cuts a text into its words.
pub fn split_words(s: &Vec<char>) -> (r: Vec<Vec<char>>)
    ensures
        texts(r@) == words(s@),
{
    let blank = vec![' '];
    assert(blank@ =~= seq![' ']);
    let parts = split(s, &blank);
    let mut out: Vec<Vec<char>> = Vec::new();
    let mut i: usize = 0;
    assert(texts(out@) =~= trimmed_words(texts(parts@).take(0)));
    while i < parts.len()
        invariant
            i <= parts@.len(),
            texts(out@) == trimmed_words(texts(parts@).take(i as int)),
        decreases parts@.len() - i,
    {
        let word = trim(&parts[i]);
        let ghost before = out@;
        proof {
            assert(texts(parts@).take(i + 1).drop_last() =~= texts(parts@).take(i as int));
            assert(texts(parts@).take(i + 1).last() == parts@[i as int]@);
        }
        if word.len() > 0 {
            out.push(word);
            assert(texts(out@) =~= texts(before).push(word@));
        }
        i = i + 1;
    }
    assert(texts(parts@).take(parts@.len() as int) =~= texts(parts@));
    out
}

/// Whether the characters are those of the text.
pub fn is_text(chars: &Vec<char>, text: &str) -> (r: bool)
    ensures
        r == (chars@ == text@),
{
    let n = text.unicode_len();
    if chars.len() != n {
        return false;
    }
    let mut i: usize = 0;
    while i < n
        invariant
            n == text@.len(),
            n == chars@.len(),
            i <= n,
            forall|k: int| 0 <= k < i ==> chars@[k] == text@[k],
        decreases n - i,
    {
        if chars[i] != text.get_char(i) {
            return false;
        }
        i = i + 1;
    }
    assert(chars@ =~= text@);
    true
}

/// A property of a footprint that a condition can name.
#[derive(Clone, Copy, Debug, PartialEq, Eq, Structural)]
pub enum Property {
    Created,
    Updated,
    ProductCategoryCpc,
    GeographyCountry,
    ReferencePeriodStart,
    ReferencePeriodEnd,
}

/// An order between two points in time.
#[derive(Clone, Copy, Debug, PartialEq, Eq, Structural)]
pub enum Comparison {
    Lt,
    Le,
    Gt,
    Ge,
}

/// A condition on a footprint.
#[derive(Clone, Debug, PartialEq, Eq)]
pub enum Condition {
    /// One of the product identifiers is the value.
    ProductId(String),
    /// One of the company identifiers is the value.
    CompanyId(String),
    /// The property, written as text, is the value.
    Equals(Property, String),
    /// The property is a point in time in the given order to the value.
    Compares(Property, Comparison, Timestamp),
}

/// A condition as a mathematical value.
pub enum ConditionModel {
    ProductId(Seq<char>),
    CompanyId(Seq<char>),
    Equals(Property, Seq<char>),
    Compares(Property, Comparison, Timestamp),
}

/// Why a text is no filter, with what was found in it.
#[derive(Clone, Debug, PartialEq, Eq)]
pub enum FilterError {
    /// A condition does not consist of a property, an operator and a value:
    /// the words that were found.
    MalformedCondition(Vec<String>),
    /// A value is not enclosed in quotes: the value.
    MalformedValue(String),
    /// The property is not known, or cannot be compared in this way: its
    /// name.
    UnsupportedProperty(String),
    /// The operator is not known: its name.
    UnsupportedOperator(String),
    /// The value of a comparison is no point in time: the value without its
    /// quotes.
    InvalidDateTime(String),
}

/// Why a text is no filter, as a mathematical value.
pub enum FilterFault {
    MalformedCondition(Seq<Seq<char>>),
    MalformedValue(Seq<char>),
    UnsupportedProperty(Seq<char>),
    UnsupportedOperator(Seq<char>),
    InvalidDateTime(Seq<char>),
}

impl DeepView for FilterError {
    type V = FilterFault;

    open spec fn deep_view(&self) -> FilterFault {
        match self {
            FilterError::MalformedCondition(words) => FilterFault::MalformedCondition(
                each_text(words@),
            ),
            FilterError::MalformedValue(v) => FilterFault::MalformedValue(v@),
            FilterError::UnsupportedProperty(p) => FilterFault::UnsupportedProperty(p@),
            FilterError::UnsupportedOperator(o) => FilterFault::UnsupportedOperator(o@),
            FilterError::InvalidDateTime(v) => FilterFault::InvalidDateTime(v@),
        }
    }
}

impl DeepView for Condition {
    type V = ConditionModel;

    open spec fn deep_view(&self) -> ConditionModel {
        match self {
            Condition::ProductId(v) => ConditionModel::ProductId(v@),
            Condition::CompanyId(v) => ConditionModel::CompanyId(v@),
            Condition::Equals(p, v) => ConditionModel::Equals(*p, v@),
            Condition::Compares(p, c, t) => ConditionModel::Compares(*p, *c, *t),
        }
    }
}

impl FilterFault {
    /// The error as a sentence that ends with what was found.
    pub open spec fn message_text(self) -> Seq<char> {
        match self {
            FilterFault::MalformedCondition(words) =>
                "Not a valid condition, expected 3 parts, but found: "@ + list_shown(words),
            FilterFault::MalformedValue(v) =>
                "Value must be a string enclosed in '...', but found: "@ + v,
            FilterFault::UnsupportedProperty(p) => "Unsupported property "@ + p,
            FilterFault::UnsupportedOperator(o) => "Unsupported operator "@ + o,
            FilterFault::InvalidDateTime(v) => "Not a valid datetime: "@ + v,
        }
    }
}

impl FilterError {
    /// The error as a sentence that ends with what was found.
    pub fn message(&self) -> (r: String)
        ensures
            r@ == self.deep_view().message_text(),
    {
        let (mut sentence, found) = match self {
            FilterError::MalformedCondition(words) => (
                "Not a valid condition, expected 3 parts, but found: ".to_owned(),
                show_list(words),
            ),
            FilterError::MalformedValue(v) => (
                "Value must be a string enclosed in '...', but found: ".to_owned(),
                v.clone(),
            ),
            FilterError::UnsupportedProperty(p) => ("Unsupported property ".to_owned(), p.clone()),
            FilterError::UnsupportedOperator(o) => ("Unsupported operator ".to_owned(), o.clone()),
            FilterError::InvalidDateTime(v) => ("Not a valid datetime: ".to_owned(), v.clone()),
        };
        sentence.append(found.as_str());
        sentence
    }
}

impl Property {
    /// The property with the given name, if there is one.
    pub open spec fn from_name(s: Seq<char>) -> Option<Property> {
        if s == "created"@ {
            Some(Property::Created)
        } else if s == "updated"@ {
            Some(Property::Updated)
        } else if s == "productCategoryCpc"@ {
            Some(Property::ProductCategoryCpc)
        } else if s == "pcf/geographyCountry"@ {
            Some(Property::GeographyCountry)
        } else if s == "pcf/referencePeriodStart"@ {
            Some(Property::ReferencePeriodStart)
        } else if s == "pcf/referencePeriodEnd"@ {
            Some(Property::ReferencePeriodEnd)
        } else {
            None
        }
    }

    /// The property is a point in time.
    pub open spec fn is_time(self) -> bool {
        self != Property::ProductCategoryCpc && self != Property::GeographyCountry
    }

    /// Reads a property from its name.
    pub fn parse(name: &Vec<char>) -> (r: Option<Property>)
        ensures
            r == Property::from_name(name@),
    {
        if is_text(name, "created") {
            Some(Property::Created)
        } else if is_text(name, "updated") {
            Some(Property::Updated)
        } else if is_text(name, "productCategoryCpc") {
            Some(Property::ProductCategoryCpc)
        } else if is_text(name, "pcf/geographyCountry") {
            Some(Property::GeographyCountry)
        } else if is_text(name, "pcf/referencePeriodStart") {
            Some(Property::ReferencePeriodStart)
        } else if is_text(name, "pcf/referencePeriodEnd") {
            Some(Property::ReferencePeriodEnd)
        } else {
            None
        }
    }
}

impl Comparison {
    /// The order with the given name, if there is one.
    pub open spec fn from_name(s: Seq<char>) -> Option<Comparison> {
        if s == "lt"@ {
            Some(Comparison::Lt)
        } else if s == "le"@ {
            Some(Comparison::Le)
        } else if s == "gt"@ {
            Some(Comparison::Gt)
        } else if s == "ge"@ {
            Some(Comparison::Ge)
        } else {
            None
        }
    }

    /// `a` stands in this order to `b`.
    pub open spec fn holds(self, a: Timestamp, b: Timestamp) -> bool {
        match self {
            Comparison::Lt => a.before(b),
            Comparison::Le => !b.before(a),
            Comparison::Gt => b.before(a),
            Comparison::Ge => !a.before(b),
        }
    }

    /// Reads an order from its name.
    pub fn parse(name: &Vec<char>) -> (r: Option<Comparison>)
        ensures
            r == Comparison::from_name(name@),
    {
        if is_text(name, "lt") {
            Some(Comparison::Lt)
        } else if is_text(name, "le") {
            Some(Comparison::Le)
        } else if is_text(name, "gt") {
            Some(Comparison::Gt)
        } else if is_text(name, "ge") {
            Some(Comparison::Ge)
        } else {
            None
        }
    }

    /// Whether `a` stands in this order to `b`.
    pub fn test(&self, a: &Timestamp, b: &Timestamp) -> (r: bool)
        ensures
            r == self.holds(*a, *b),
    {
        match self {
            Comparison::Lt => a.is_before(b),
            Comparison::Le => !b.is_before(a),
            Comparison::Gt => b.is_before(a),
            Comparison::Ge => !a.is_before(b),
        }
    }
}

/// The start of a condition on the product identifiers.
pub const PRODUCT_ID_CONDITION: &'static str = "productIds/any productId: productId eq ";

/// The start of a condition on the company identifiers.
pub const COMPANY_ID_CONDITION: &'static str = "companyIds/any companyId: companyId eq ";

/// The text between the first and the last character, which are taken to be
/// quotes: `None` for a text of less than two characters.
pub open spec fn unquoted(s: Seq<char>) -> Option<Seq<char>> {
    if s.len() >= 2 {
        Some(s.subrange(1, s.len() - 1))
    } else {
        None
    }
}

/// The value of a condition on identifiers: what follows the last ` eq `,
/// without its quotes.
pub open spec fn identifier_value(c: Seq<char>) -> Option<Seq<char>> {
    unquoted(pieces(c, " eq "@).last())
}

/// The condition that three words stand for.
pub open spec fn comparison_of(
    property: Seq<char>,
    operator: Seq<char>,
    value: Seq<char>,
) -> Result<ConditionModel, FilterFault> {
    if value.len() > 0 && value[0] != '\'' && value.last() == '\'' {
        Err(FilterFault::MalformedValue(value))
    } else {
        match unquoted(value) {
            None => Err(FilterFault::MalformedValue(value)),
            Some(v) => if operator == "eq"@ {
                match Property::from_name(property) {
                    Some(p) => Ok(ConditionModel::Equals(p, v)),
                    None => Err(FilterFault::UnsupportedProperty(property)),
                }
            } else {
                match timestamp_from_text(v) {
                    None => Err(FilterFault::InvalidDateTime(v)),
                    Some(t) => match Property::from_name(property) {
                        Some(p) => if !p.is_time() {
                            Err(FilterFault::UnsupportedProperty(property))
                        } else {
                            match Comparison::from_name(operator) {
                                Some(c) => Ok(ConditionModel::Compares(p, c, t)),
                                None => Err(FilterFault::UnsupportedOperator(operator)),
                            }
                        },
                        None => Err(FilterFault::UnsupportedProperty(property)),
                    },
                }
            },
        }
    }
}

/// The condition that a text stands for, once it is trimmed.
pub open spec fn condition_of(c: Seq<char>) -> Result<ConditionModel, FilterFault> {
    if crate::text::starts_with(c, PRODUCT_ID_CONDITION@) {
        match identifier_value(c) {
            Some(v) => Ok(ConditionModel::ProductId(v)),
            None => Err(FilterFault::MalformedValue(pieces(c, " eq "@).last())),
        }
    } else if crate::text::starts_with(c, COMPANY_ID_CONDITION@) {
        match identifier_value(c) {
            Some(v) => Ok(ConditionModel::CompanyId(v)),
            None => Err(FilterFault::MalformedValue(pieces(c, " eq "@).last())),
        }
    } else {
        let w = words(c);
        if w.len() != 3 {
            Err(FilterFault::MalformedCondition(w))
        } else {
            comparison_of(w[0], w[1], w[2])
        }
    }
}

/// The conditions that the given texts stand for, each trimmed: the first
/// error where one of them stands for none.
pub open spec fn conditions_in(parts: Seq<Seq<char>>) -> Result<Seq<ConditionModel>, FilterFault>
    decreases parts.len(),
{
    if parts.len() == 0 {
        Ok(Seq::empty())
    } else {
        match conditions_in(parts.drop_last()) {
            Err(e) => Err(e),
            Ok(front) => match condition_of(trimmed(parts.last())) {
                Err(e) => Err(e),
                Ok(c) => Ok(front.push(c)),
            },
        }
    }
}

/// The conditions of a filter: those between the ` and ` of the text, with
/// blanks in place of its parentheses.
pub open spec fn conditions_of(filter: Seq<char>) -> Result<Seq<ConditionModel>, FilterFault> {
    conditions_in(pieces(blanked(filter), " and "@))
}

/// An error among the first texts is the error of the whole list.
pub proof fn lemma_conditions_error(parts: Seq<Seq<char>>, n: int)
    requires
        0 <= n <= parts.len(),
        conditions_in(parts.take(n)) is Err,
    ensures
        conditions_in(parts) == conditions_in(parts.take(n)),
    decreases parts.len() - n,
{
    if n < parts.len() {
        assert(parts.take(n + 1).drop_last() =~= parts.take(n));
        lemma_conditions_error(parts, n + 1);
    } else {
        assert(parts.take(n) =~= parts);
    }
}

/// Whether `s` begins with the characters of `prefix`.
pub fn begins_with(s: &Vec<char>, prefix: &str) -> (r: bool)
    ensures
        r == crate::text::starts_with(s@, prefix@),
{
    let n = prefix.unicode_len();
    if s.len() < n {
        return false;
    }
    let mut i: usize = 0;
    while i < n
        invariant
            n == prefix@.len(),
            n <= s@.len(),
            i <= n,
            forall|k: int| 0 <= k < i ==> s@[k] == prefix@[k],
        decreases n - i,
    {
        if s[i] != prefix.get_char(i) {
            assert(s@.subrange(0, n as int)[i as int] != prefix@[i as int]);
            return false;
        }
        i = i + 1;
    }
    assert(s@.subrange(0, n as int) =~= prefix@);
    true
}

/// Takes the quotes off a value.
pub fn unquote(value: &Vec<char>) -> (r: Option<String>)
    ensures
        match r {
            Some(v) => unquoted(value@) == Some(v@),
            None => unquoted(value@) is None,
        },
{
    if value.len() >= 2 {
        Some(text_of(value, 1, value.len() - 1))
    } else {
        None
    }
}

/// The outcome of reading a condition, as a mathematical value.
pub open spec fn condition_outcome(r: Result<Condition, FilterError>) -> Result<
    ConditionModel,
    FilterFault,
> {
    match r {
        Ok(c) => Ok(c.deep_view()),
        Err(e) => Err(e.deep_view()),
    }
}

/// The characters as a text.
pub fn whole_text(chars: &Vec<char>) -> (r: String)
    ensures
        r@ == chars@,
{
    let text = text_of(chars, 0, chars.len());
    assert(chars@.subrange(0, chars@.len() as int) =~= chars@);
    text
}

/// The words as texts.
pub fn word_texts(words: &Vec<Vec<char>>) -> (r: Vec<String>)
    ensures
        each_text(r@) == texts(words@),
{
    let mut out: Vec<String> = Vec::new();
    let mut i: usize = 0;
    while i < words.len()
        invariant
            i <= words@.len(),
            out@.len() == i,
            forall|k: int| 0 <= k < i ==> (#[trigger] out@[k])@ == words@[k]@,
        decreases words@.len() - i,
    {
        out.push(whole_text(&words[i]));
        i = i + 1;
    }
    assert(each_text(out@) =~= texts(words@));
    out
}

/// Reads a condition from three words.
pub fn parse_comparison(property: &Vec<char>, operator: &Vec<char>, value: &Vec<char>) -> (r:
    Result<Condition, FilterError>)
    ensures
        condition_outcome(r) == comparison_of(property@, operator@, value@),
{
    if value.len() > 0 && value[0] != '\'' && value[value.len() - 1] == '\'' {
        return Err(FilterError::MalformedValue(whole_text(value)));
    }
    let v = match unquote(value) {
        Some(v) => v,
        None => {
            return Err(FilterError::MalformedValue(whole_text(value)));
        },
    };
    if is_text(operator, "eq") {
        match Property::parse(property) {
            Some(p) => Ok(Condition::Equals(p, v)),
            None => Err(FilterError::UnsupportedProperty(whole_text(property))),
        }
    } else {
        let t = match Timestamp::parse(v.as_str()) {
            Some(t) => t,
            None => {
                return Err(FilterError::InvalidDateTime(v));
            },
        };
        let p = match Property::parse(property) {
            Some(p) => p,
            None => {
                return Err(FilterError::UnsupportedProperty(whole_text(property)));
            },
        };
        match p {
            Property::ProductCategoryCpc => {
                return Err(FilterError::UnsupportedProperty(whole_text(property)));
            },
            Property::GeographyCountry => {
                return Err(FilterError::UnsupportedProperty(whole_text(property)));
            },
            _ => {},
        }
        match Comparison::parse(operator) {
            Some(c) => Ok(Condition::Compares(p, c, t)),
            None => Err(FilterError::UnsupportedOperator(whole_text(operator))),
        }
    }
}

/// Reads a condition from a trimmed text.
pub fn parse_condition(c: &Vec<char>) -> (r: Result<Condition, FilterError>)
    ensures
        condition_outcome(r) == condition_of(c@),
{
    let on_products = begins_with(c, PRODUCT_ID_CONDITION);
    if on_products || begins_with(c, COMPANY_ID_CONDITION) {
        let parts = split(c, &chars_of(" eq "));
        let last = &parts[parts.len() - 1];
        assert(last@ == texts(parts@).last());
        match unquote(last) {
            Some(v) => if on_products {
                Ok(Condition::ProductId(v))
            } else {
                Ok(Condition::CompanyId(v))
            },
            None => Err(FilterError::MalformedValue(whole_text(last))),
        }
    } else {
        let w = split_words(c);
        if w.len() != 3 {
            return Err(FilterError::MalformedCondition(word_texts(&w)));
        }
        assert(texts(w@)[0] == w@[0]@ && texts(w@)[1] == w@[1]@ && texts(w@)[2] == w@[2]@);
        parse_comparison(&w[0], &w[1], &w[2])
    }
}

/// The conditions as mathematical values.
pub open spec fn condition_models(conditions: Seq<Condition>) -> Seq<ConditionModel> {
    conditions.map_values(|c: Condition| c.deep_view())
}

/// The outcome of reading a filter, as a mathematical value.
pub open spec fn filter_outcome(r: Result<Vec<Condition>, FilterError>) -> Result<
    Seq<ConditionModel>,
    FilterFault,
> {
    match r {
        Ok(conditions) => Ok(condition_models(conditions@)),
        Err(e) => Err(e.deep_view()),
    }
}

/// Reads the conditions of a filter.
pub fn parse_filter(filter: &str) -> (r: Result<Vec<Condition>, FilterError>)
    ensures
        filter_outcome(r) == conditions_of(filter@),
{
    let blank = blank_parentheses(&chars_of(filter));
    let parts = split(&blank, &chars_of(" and "));
    let mut out: Vec<Condition> = Vec::new();
    let mut i: usize = 0;
    assert(conditions_in(texts(parts@).take(0))->Ok_0 =~= condition_models(out@));
    while i < parts.len()
        invariant
            i <= parts@.len(),
            texts(parts@) == pieces(blanked(filter@), " and "@),
            conditions_in(texts(parts@).take(i as int)) == Ok::<Seq<ConditionModel>, FilterFault>(
                condition_models(out@),
            ),
        decreases parts@.len() - i,
    {
        proof {
            assert(texts(parts@).take(i + 1).drop_last() =~= texts(parts@).take(i as int));
            assert(texts(parts@).take(i + 1).last() == parts@[i as int]@);
        }
        let ghost before = out@;
        match parse_condition(&trim(&parts[i])) {
            Ok(c) => {
                out.push(c);
                assert(condition_models(out@) =~= condition_models(before).push(c.deep_view()));
            },
            Err(e) => {
                proof {
                    lemma_conditions_error(texts(parts@), i + 1);
                }
                return Err(e);
            },
        }
        i = i + 1;
    }
    assert(texts(parts@).take(parts@.len() as int) =~= texts(parts@));
    Ok(out)
}

/// One of the identifiers has the given text.
pub open spec fn names(ids: Seq<Urn>, value: Seq<char>) -> bool {
    exists|i: int| 0 <= i < ids.len() && (#[trigger] ids[i]).0@ == value
}

/// Whether one of the identifiers has the given text.
pub fn has_id(ids: &Vec<Urn>, value: &str) -> (r: bool)
    ensures
        r == names(ids@, value@),
{
    let mut i: usize = 0;
    while i < ids.len()
        invariant
            i <= ids@.len(),
            forall|k: int| 0 <= k < i ==> (#[trigger] ids@[k]).0@ != value@,
        decreases ids@.len() - i,
    {
        if ids[i].0.as_str().eq(value) {
            return true;
        }
        i = i + 1;
    }
    false
}

/// The point in time that a property of a footprint holds, if it holds one.
pub open spec fn time_of<T>(pf: ProductFootprint<T>, property: Property) -> Option<Timestamp> {
    match property {
        Property::Created => Some(pf.created),
        Property::Updated => pf.updated,
        Property::ReferencePeriodStart => Some(pf.pcf.reference_period_start),
        Property::ReferencePeriodEnd => Some(pf.pcf.reference_period_end),
        _ => None,
    }
}

/// The text of a property of a footprint: a point in time as it is shown to
/// people, the country only of a scope that is a country.
pub open spec fn text_of_property<T>(pf: ProductFootprint<T>, property: Property) -> Option<
    Seq<char>,
> {
    match property {
        Property::ProductCategoryCpc => Some(pf.product_category_cpc.0@),
        Property::GeographyCountry => match pf.pcf.geographic_scope {
            Some(GeographicScope::Country(c)) => Some(c.0@),
            _ => None,
        },
        _ => match time_of(pf, property) {
            Some(t) => timestamp_shown(t),
            None => None,
        },
    }
}

/// The footprint meets the condition.
pub open spec fn satisfies<T>(pf: ProductFootprint<T>, c: ConditionModel) -> bool {
    match c {
        ConditionModel::ProductId(v) => names(pf.product_ids.0@, v),
        ConditionModel::CompanyId(v) => names(pf.company_ids.0@, v),
        ConditionModel::Equals(p, v) => text_of_property(pf, p) == Some(v),
        ConditionModel::Compares(p, order, t) => time_of(pf, p) matches Some(d) && order.holds(
            d,
            t,
        ),
    }
}

/// The footprint meets every condition.
pub open spec fn satisfies_all<T>(pf: ProductFootprint<T>, cs: Seq<ConditionModel>) -> bool {
    forall|i: int| 0 <= i < cs.len() ==> satisfies(pf, #[trigger] cs[i])
}

/// The point in time that a property of a footprint holds, if it holds one.
pub fn property_time<T>(pf: &ProductFootprint<T>, property: Property) -> (r: Option<Timestamp>)
    ensures
        r == time_of(*pf, property),
{
    match property {
        Property::Created => Some(pf.created),
        Property::Updated => pf.updated,
        Property::ReferencePeriodStart => Some(pf.pcf.reference_period_start),
        Property::ReferencePeriodEnd => Some(pf.pcf.reference_period_end),
        _ => None,
    }
}

/// Whether the text of a property of a footprint is the given value.
pub fn property_is<T>(pf: &ProductFootprint<T>, property: Property, value: &str) -> (r: bool)
    ensures
        r == (text_of_property(*pf, property) == Some(value@)),
{
    match property {
        Property::ProductCategoryCpc => pf.product_category_cpc.0.as_str().eq(value),
        Property::GeographyCountry => match &pf.pcf.geographic_scope {
            Some(scope) => match scope.geography_country() {
                Some(c) => c.0.as_str().eq(value),
                None => false,
            },
            None => false,
        },
        _ => match property_time(pf, property) {
            Some(t) => match t.shown() {
                Some(text) => text.as_str().eq(value),
                None => false,
            },
            None => false,
        },
    }
}

/// Whether the footprint meets the condition.
pub fn meets<T>(pf: &ProductFootprint<T>, c: &Condition) -> (r: bool)
    ensures
        r == satisfies(*pf, c.deep_view()),
{
    match c {
        Condition::ProductId(v) => has_id(&pf.product_ids.0, v.as_str()),
        Condition::CompanyId(v) => has_id(&pf.company_ids.0, v.as_str()),
        Condition::Equals(p, v) => property_is(pf, *p, v.as_str()),
        Condition::Compares(p, order, t) => match property_time(pf, *p) {
            Some(d) => order.test(&d, t),
            None => false,
        },
    }
}

/// Whether the footprint meets every condition.
pub fn meets_all<T>(pf: &ProductFootprint<T>, conditions: &Vec<Condition>) -> (r: bool)
    ensures
        r == satisfies_all(*pf, condition_models(conditions@)),
{
    let mut i: usize = 0;
    while i < conditions.len()
        invariant
            i <= conditions@.len(),
            forall|k: int|
                0 <= k < i ==> satisfies(*pf, #[trigger] condition_models(conditions@)[k]),
        decreases conditions@.len() - i,
    {
        if !meets(pf, &conditions[i]) {
            assert(!satisfies(*pf, condition_models(conditions@)[i as int]));
            return false;
        }
        i = i + 1;
    }
    true
}

/// The test that keeps the footprints that meet every condition.
pub open spec fn condition_filter<T>(cs: Seq<ConditionModel>) -> spec_fn(
    ProductFootprint<T>,
) -> bool {
    |pf: ProductFootprint<T>| satisfies_all(pf, cs)
}

/// Keeps the footprints that meet every condition, in their order.
pub fn retain_matching<T>(data: Vec<ProductFootprint<T>>, conditions: &Vec<Condition>) -> (r: Vec<
    ProductFootprint<T>,
>)
    ensures
        r@ == data@.filter(condition_filter(condition_models(conditions@))),
{
    let ghost all = data@;
    let ghost keep = condition_filter::<T>(condition_models(conditions@));
    let mut rest = data;
    let mut kept: Vec<ProductFootprint<T>> = Vec::new();
    let mut i: usize = 0;
    let n = rest.len();
    proof {
        reveal(Seq::filter);
        assert(all.take(0).filter(keep) =~= Seq::<ProductFootprint<T>>::empty());
    }
    while i < n
        invariant
            n == all.len(),
            i <= n,
            rest@ == all.skip(i as int),
            kept@ == all.take(i as int).filter(keep),
            keep == condition_filter::<T>(condition_models(conditions@)),
        decreases n - i,
    {
        let pf = rest.remove(0);
        proof {
            reveal(Seq::filter);
            assert(all.skip(i as int).remove(0) =~= all.skip(i + 1));
            assert(all.take(i + 1).drop_last() =~= all.take(i as int));
            assert(all.take(i + 1).last() == pf);
        }
        if meets_all(&pf, conditions) {
            kept.push(pf);
        }
        i = i + 1;
    }
    proof {
        assert(all.take(n as int) =~= all);
    }
    kept
}

/// The footprints that pass a filter: all of them where there is no filter,
/// else those that meet every condition of the filter, in their order; or
/// the error of the filter where the text is none.
pub fn filtered_data<T>(data: Vec<ProductFootprint<T>>, filter: Option<&str>) -> (r: Result<
    Vec<ProductFootprint<T>>,
    FilterError,
>)
    ensures
        match filter {
            None => r == Ok::<Vec<ProductFootprint<T>>, FilterError>(data),
            Some(text) => match conditions_of(text@) {
                Err(e) => r matches Err(found) && found.deep_view() == e,
                Ok(cs) => r matches Ok(kept) && kept@ == data@.filter(condition_filter(cs)),
            },
        },
{
    match filter {
        None => Ok(data),
        Some(text) => {
            let conditions = parse_filter(text)?;
            Ok(retain_matching(data, &conditions))
        },
    }
}

/// The `$filter` of a request, where the request has one.
#[derive(Clone, Copy, Debug, PartialEq, Eq)]
pub struct Filter<'r>(pub Option<&'r str>);

impl<'r> Filter<'r> {
    /// The text of the filter as a mathematical value.
    pub open spec fn text(&self) -> Option<Seq<char>> {
        match self.0 {
            Some(t) => Some(t@),
            None => None,
        }
    }

    /// What the filter lets pass of the footprints `data`: `kept`, or an
    /// error.
    pub open spec fn passes<T>(
        &self,
        data: Seq<ProductFootprint<T>>,
        r: Result<Seq<ProductFootprint<T>>, FilterFault>,
    ) -> bool {
        match self.text() {
            None => r == Ok::<Seq<ProductFootprint<T>>, FilterFault>(data),
            Some(text) => match conditions_of(text) {
                Err(e) => r == Err::<Seq<ProductFootprint<T>>, FilterFault>(e),
                Ok(cs) => r == Ok::<Seq<ProductFootprint<T>>, FilterFault>(
                    data.filter(condition_filter(cs)),
                ),
            },
        }
    }

    /// The footprints that pass the filter.
    pub fn apply<T>(&self, data: Vec<ProductFootprint<T>>) -> (r: Result<
        Vec<ProductFootprint<T>>,
        FilterError,
    >)
        ensures
            self.passes(
                data@,
                match r {
                    Ok(kept) => Ok(kept@),
                    Err(e) => Err(e.deep_view()),
                },
            ),
    {
        filtered_data(data, self.0)
    }
}

} // verus!
