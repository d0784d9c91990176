//! JSON documents as trees, and what it takes for a type to have a form on
//! the wire.
//!
//! A [`Json`] value is a document that was parsed elsewhere or is about to be
//! written elsewhere. Numbers are kept apart by the way they were written: a
//! whole number is kept exactly, any other number as the bits of the
//! 64-bit binary floating-point number nearest to it.

use vstd::prelude::*;
use vstd::string::*;
use crate::error::ValidationError;

verus! {

/// A JSON document.
#[derive(Debug)]
pub enum Json {
    Null,
    Bool(bool),
    /// A number written without fraction and exponent.
    Integer(i128),
    /// Any other number.
    Float { bits: u64 },
    Text(String),
    Array(Vec<Json>),
    /// An object: its members in the order in which they were written. Of two
    /// members with the same name the later one counts.
    Object(Vec<(String, Json)>),
}

/// A JSON document as a mathematical value.
pub enum JsonModel {
    Null,
    Bool(bool),
    Integer(int),
    Float(u64),
    Text(Seq<char>),
    Array(Seq<JsonModel>),
    Object(Map<Seq<char>, JsonModel>),
}

/// Why a document does not stand for a value of a type.
#[derive(Clone, Copy, Debug, PartialEq, Eq, Structural)]
pub enum DecodeError {
    /// A member that the type requires is absent or null.
    Missing,
    /// A value has another JSON type than its place requires.
    WrongType,
    /// A text is none of the names of a closed vocabulary.
    UnknownName,
    /// A value breaks the rule of its type.
    Invalid(ValidationError),
}

/// The models of the documents in their order.
pub open spec fn models(items: Seq<Json>) -> Seq<JsonModel>
    decreases items,
{
    if items.len() == 0 {
        Seq::empty()
    } else {
        models(items.drop_last()).push(items.last().deep_view())
    }
}

/// The members of an object as a map from their names to their values.
pub open spec fn members(entries: Seq<(String, Json)>) -> Map<Seq<char>, JsonModel>
    decreases entries,
{
    if entries.len() == 0 {
        Map::empty()
    } else {
        members(entries.drop_last()).insert(entries.last().0@, entries.last().1.deep_view())
    }
}

impl DeepView for Json {
    type V = JsonModel;

    open spec fn deep_view(&self) -> JsonModel
        decreases self,
    {
        match self {
            Json::Null => JsonModel::Null,
            Json::Bool(b) => JsonModel::Bool(*b),
            Json::Integer(n) => JsonModel::Integer(*n as int),
            Json::Float { bits } => JsonModel::Float(*bits),
            Json::Text(s) => JsonModel::Text(s@),
            Json::Array(items) => JsonModel::Array(models(items@)),
            Json::Object(entries) => JsonModel::Object(members(entries@)),
        }
    }
}

/// The outcome of reading a document, with the value as a mathematical value.
pub open spec fn decoded<T: DeepView>(r: Result<T, DecodeError>) -> Result<T::V, DecodeError> {
    match r {
        Ok(x) => Ok(x.deep_view()),
        Err(e) => Err(e),
    }
}

/// A type with a form on the wire.
pub trait Wire: DeepView + Sized {
    /// The document that stands for a value.
    spec fn to_wire(v: Self::V) -> JsonModel;

    /// The value that a document stands for, or why it stands for none.
    spec fn from_wire(j: JsonModel) -> Result<Self::V, DecodeError>;

    /// The value is read back from its own document: it obeys the rules
    /// that reading enforces, and the texts written for its numbers, times
    /// and identifiers are read back as the same.
    spec fn faithful(v: Self::V) -> bool;

    /// A faithful value is read back from its document, and its document is
    /// not null.
    proof fn lemma_round_trip(v: Self::V)
        requires
            Self::faithful(v),
        ensures
            Self::from_wire(Self::to_wire(v)) == Ok::<Self::V, DecodeError>(v),
            Self::to_wire(v) !is Null,
    ;

    /// Writes the value as a document.
    fn to_json(&self) -> (r: Json)
        ensures
            r.deep_view() == Self::to_wire(self.deep_view()),
    ;

    /// Reads a value from a document.
    fn from_json(j: &Json) -> (r: Result<Self, DecodeError>)
        ensures
            decoded(r) == Self::from_wire(j.deep_view()),
    ;
}

/// The member with the given name, where the object has one that is not null.
pub open spec fn present(m: Map<Seq<char>, JsonModel>, key: Seq<char>) -> Option<JsonModel> {
    if m.dom().contains(key) && m[key] !is Null {
        Some(m[key])
    } else {
        None
    }
}

/// What a member that must be present stands for.
pub open spec fn required<T: Wire>(m: Map<Seq<char>, JsonModel>, key: Seq<char>) -> Result<
    T::V,
    DecodeError,
> {
    match present(m, key) {
        Some(j) => T::from_wire(j),
        None => Err(DecodeError::Missing),
    }
}

/// What a member that may be absent stands for.
pub open spec fn optional<T: Wire>(m: Map<Seq<char>, JsonModel>, key: Seq<char>) -> Result<
    Option<T::V>,
    DecodeError,
> {
    match present(m, key) {
        Some(j) => match T::from_wire(j) {
            Ok(v) => Ok(Some(v)),
            Err(e) => Err(e),
        },
        None => Ok(None),
    }
}

/// The error found so far, or else the error of the next reading.
pub open spec fn or_error<A>(e: Option<DecodeError>, next: Result<A, DecodeError>) -> Option<
    DecodeError,
> {
    if e is Some {
        e
    } else {
        match next {
            Ok(_) => None,
            Err(x) => Some(x),
        }
    }
}

/// The object with one more member, where there is a value for it.
pub open spec fn with_optional<T: Wire>(
    m: Map<Seq<char>, JsonModel>,
    key: Seq<char>,
    v: Option<T::V>,
) -> Map<Seq<char>, JsonModel> {
    match v {
        Some(x) => m.insert(key, T::to_wire(x)),
        None => m,
    }
}

/// The document of a value that may be absent.
pub open spec fn wire_of_optional<T: Wire>(v: Option<T::V>) -> Option<JsonModel> {
    match v {
        Some(x) => Some(T::to_wire(x)),
        None => None,
    }
}

/// The object holds exactly the first `n` members of a record: the member
/// at position `i` below `n` is `expected(i)` under the name with
/// `index(name) == i`, and there is no member under any other name.
pub open spec fn holds(
    m: Map<Seq<char>, JsonModel>,
    index: spec_fn(Seq<char>) -> int,
    expected: spec_fn(int) -> Option<JsonModel>,
    n: int,
) -> bool {
    forall|k: Seq<char>| #[trigger]
        present(m, k) == if 0 <= index(k) < n {
            expected(index(k))
        } else {
            None
        }
}

/// An object that holds the first `n` members of a record holds the first
/// `n + 1` once the next member is added, where there is one.
pub proof fn lemma_next_member(
    m: Map<Seq<char>, JsonModel>,
    index: spec_fn(Seq<char>) -> int,
    expected: spec_fn(int) -> Option<JsonModel>,
    n: int,
    key: Seq<char>,
    value: Option<JsonModel>,
)
    requires
        holds(m, index, expected, n),
        0 <= n,
        index(key) == n,
        forall|k: Seq<char>| #[trigger] index(k) == n ==> k == key,
        expected(n) == value,
        value matches Some(j) ==> j !is Null,
    ensures
        holds(
            match value {
                Some(j) => m.insert(key, j),
                None => m,
            },
            index,
            expected,
            n + 1,
        ),
{
    let m2 = match value {
        Some(j) => m.insert(key, j),
        None => m,
    };
    assert forall|k: Seq<char>| #[trigger]
        present(m2, k) == if 0 <= index(k) < n + 1 {
            expected(index(k))
        } else {
            None
        } by {
        assert(present(m, k) == if 0 <= index(k) < n {
            expected(index(k))
        } else {
            None
        });
    }
}

/// A faithful value that may be absent has a document that is not null, and
/// is read back from it.
pub proof fn lemma_optional_round_trip<T: Wire>(v: Option<T::V>)
    requires
        faithful_optional::<T>(v),
    ensures
        v matches Some(x) ==> T::from_wire(T::to_wire(x)) == Ok::<T::V, DecodeError>(x)
            && T::to_wire(x) !is Null,
{
    if let Some(x) = v {
        T::lemma_round_trip(x);
    }
}

/// An object that holds the first `n` members of a record holds the first
/// `n + 1` once the member of a faithful value is added, and the value is
/// read back from its document.
pub proof fn lemma_required_member<T: Wire>(
    m: Map<Seq<char>, JsonModel>,
    index: spec_fn(Seq<char>) -> int,
    expected: spec_fn(int) -> Option<JsonModel>,
    n: int,
    key: Seq<char>,
    v: T::V,
)
    requires
        holds(m, index, expected, n),
        0 <= n,
        index(key) == n,
        forall|k: Seq<char>| #[trigger] index(k) == n ==> k == key,
        expected(n) == Some(T::to_wire(v)),
        T::faithful(v),
    ensures
        holds(m.insert(key, T::to_wire(v)), index, expected, n + 1),
        T::from_wire(T::to_wire(v)) == Ok::<T::V, DecodeError>(v),
        T::to_wire(v) !is Null,
{
    T::lemma_round_trip(v);
    lemma_next_member(m, index, expected, n, key, Some(T::to_wire(v)));
}

/// An object that holds the first `n` members of a record holds the first
/// `n + 1` once the member of a faithful value is added where there is a
/// value, and the value is read back from its document.
pub proof fn lemma_optional_member<T: Wire>(
    m: Map<Seq<char>, JsonModel>,
    index: spec_fn(Seq<char>) -> int,
    expected: spec_fn(int) -> Option<JsonModel>,
    n: int,
    key: Seq<char>,
    v: Option<T::V>,
)
    requires
        holds(m, index, expected, n),
        0 <= n,
        index(key) == n,
        forall|k: Seq<char>| #[trigger] index(k) == n ==> k == key,
        expected(n) == wire_of_optional::<T>(v),
        faithful_optional::<T>(v),
    ensures
        holds(with_optional::<T>(m, key, v), index, expected, n + 1),
        v matches Some(x) ==> T::from_wire(T::to_wire(x)) == Ok::<T::V, DecodeError>(x)
            && T::to_wire(x) !is Null,
{
    if let Some(x) = v {
        T::lemma_round_trip(x);
    }
    lemma_next_member(m, index, expected, n, key, wire_of_optional::<T>(v));
}

/// A value that may be absent is faithful where it is absent or faithful.
pub open spec fn faithful_optional<T: Wire>(v: Option<T::V>) -> bool {
    match v {
        Some(x) => T::faithful(x),
        None => true,
    }
}

/// The models of a list of documents, element by element.
pub proof fn lemma_models(items: Seq<Json>)
    ensures
        models(items).len() == items.len(),
        forall|i: int| 0 <= i < items.len() ==> #[trigger] models(items)[i] == items[i].deep_view(),
    decreases items.len(),
{
    reveal_with_fuel(models, 2);
    if items.len() > 0 {
        lemma_models(items.drop_last());
    }
}

/// Looks a member up by its name. Of several members with the name the last
/// one is found.
pub fn member<'a>(entries: &'a Vec<(String, Json)>, key: &str) -> (r: Option<&'a Json>)
    ensures
        match r {
            Some(j) => members(entries@).dom().contains(key@) && members(entries@)[key@]
                == j.deep_view(),
            None => !members(entries@).dom().contains(key@),
        },
{
    let mut i: usize = entries.len();
    while i > 0
        invariant
            i <= entries@.len(),
            forall|k: int| i <= k < entries@.len() ==> (#[trigger] entries@[k]).0@ != key@,
        decreases i,
    {
        i = i - 1;
        if entries[i].0.as_str().eq(key) {
            proof {
                lemma_member_found(entries@, i as int, key@);
            }
            return Some(&entries[i].1);
        }
    }
    proof {
        lemma_member_absent(entries@, key@);
    }
    None
}

/// A member after which no member has the same name is the one that counts.
pub proof fn lemma_member_found(entries: Seq<(String, Json)>, i: int, key: Seq<char>)
    requires
        0 <= i < entries.len(),
        entries[i].0@ == key,
        forall|k: int| i < k < entries.len() ==> (#[trigger] entries[k]).0@ != key,
    ensures
        members(entries).dom().contains(key),
        members(entries)[key] == entries[i].1.deep_view(),
    decreases entries.len(),
{
    reveal_with_fuel(members, 2);
    if i < entries.len() - 1 {
        lemma_member_found(entries.drop_last(), i, key);
    }
}

/// An object has no member with a name that none of its members has.
pub proof fn lemma_member_absent(entries: Seq<(String, Json)>, key: Seq<char>)
    requires
        forall|k: int| 0 <= k < entries.len() ==> (#[trigger] entries[k]).0@ != key,
    ensures
        !members(entries).dom().contains(key),
    decreases entries.len(),
{
    reveal_with_fuel(members, 2);
    if entries.len() > 0 {
        lemma_member_absent(entries.drop_last(), key);
    }
}

/// Looks up a member that is not null.
pub fn present_member<'a>(entries: &'a Vec<(String, Json)>, key: &str) -> (r: Option<&'a Json>)
    ensures
        match r {
            Some(j) => present(members(entries@), key@) == Some(j.deep_view()),
            None => present(members(entries@), key@) is None,
        },
{
    match member(entries, key) {
        Some(j) => match j {
            Json::Null => None,
            _ => Some(j),
        },
        None => None,
    }
}

/// Reads a member that must be present.
pub fn read_required<T: Wire>(entries: &Vec<(String, Json)>, key: &str) -> (r: Result<
    T,
    DecodeError,
>)
    ensures
        decoded(r) == required::<T>(members(entries@), key@),
{
    match present_member(entries, key) {
        Some(j) => T::from_json(j),
        None => Err(DecodeError::Missing),
    }
}

/// Reads a member that may be absent.
pub fn read_optional<T: Wire>(entries: &Vec<(String, Json)>, key: &str) -> (r: Result<
    Option<T>,
    DecodeError,
>)
    ensures
        decoded(r) == optional::<T>(members(entries@), key@),
{
    match present_member(entries, key) {
        Some(j) => match T::from_json(j) {
            Ok(v) => Ok(Some(v)),
            Err(e) => Err(e),
        },
        None => Ok(None),
    }
}

/// Adds a member to an object.
pub fn put(entries: &mut Vec<(String, Json)>, key: &str, value: Json)
    ensures
        members(final(entries)@) == members(old(entries)@).insert(key@, value.deep_view()),
{
    let ghost before = entries@;
    entries.push((key.to_owned(), value));
    assert(entries@.drop_last() =~= before);
}

/// Adds the member of a value to an object.
pub fn put_value<T: Wire>(entries: &mut Vec<(String, Json)>, key: &str, value: &T)
    ensures
        members(final(entries)@) == members(old(entries)@).insert(
            key@,
            T::to_wire(value.deep_view()),
        ),
{
    put(entries, key, value.to_json());
}

/// Adds the member of a value to an object, where there is a value.
pub fn put_optional<T: Wire>(entries: &mut Vec<(String, Json)>, key: &str, value: &Option<T>)
    ensures
        members(final(entries)@) == with_optional::<T>(
            members(old(entries)@),
            key@,
            value.deep_view(),
        ),
{
    match value {
        Some(v) => put(entries, key, v.to_json()),
        None => {},
    }
}

impl Wire for String {
    open spec fn to_wire(v: Seq<char>) -> JsonModel {
        JsonModel::Text(v)
    }

    open spec fn from_wire(j: JsonModel) -> Result<Seq<char>, DecodeError> {
        match j {
            JsonModel::Text(s) => Ok(s),
            _ => Err(DecodeError::WrongType),
        }
    }

    open spec fn faithful(v: Seq<char>) -> bool {
        true
    }

    proof fn lemma_round_trip(v: Seq<char>) {
    }

    fn to_json(&self) -> (r: Json) {
        Json::Text(self.clone())
    }

    fn from_json(j: &Json) -> (r: Result<String, DecodeError>) {
        match j {
            Json::Text(s) => Ok(s.clone()),
            _ => Err(DecodeError::WrongType),
        }
    }
}

impl Wire for bool {
    open spec fn to_wire(v: bool) -> JsonModel {
        JsonModel::Bool(v)
    }

    open spec fn from_wire(j: JsonModel) -> Result<bool, DecodeError> {
        match j {
            JsonModel::Bool(b) => Ok(b),
            _ => Err(DecodeError::WrongType),
        }
    }

    open spec fn faithful(v: bool) -> bool {
        true
    }

    proof fn lemma_round_trip(v: bool) {
    }

    fn to_json(&self) -> (r: Json) {
        Json::Bool(*self)
    }

    fn from_json(j: &Json) -> (r: Result<bool, DecodeError>) {
        match j {
            Json::Bool(b) => Ok(*b),
            _ => Err(DecodeError::WrongType),
        }
    }
}

impl Wire for usize {
    open spec fn to_wire(v: usize) -> JsonModel {
        JsonModel::Integer(v as int)
    }

    open spec fn from_wire(j: JsonModel) -> Result<usize, DecodeError> {
        match j {
            JsonModel::Integer(n) => if 0 <= n <= usize::MAX {
                Ok(n as usize)
            } else {
                Err(DecodeError::WrongType)
            },
            _ => Err(DecodeError::WrongType),
        }
    }

    open spec fn faithful(v: usize) -> bool {
        true
    }

    proof fn lemma_round_trip(v: usize) {
    }

    fn to_json(&self) -> (r: Json) {
        Json::Integer(*self as i128)
    }

    fn from_json(j: &Json) -> (r: Result<usize, DecodeError>) {
        match j {
            Json::Integer(n) => if 0 <= *n && *n <= usize::MAX as i128 {
                Ok(*n as usize)
            } else {
                Err(DecodeError::WrongType)
            },
            _ => Err(DecodeError::WrongType),
        }
    }
}

/// What the documents stand for, element by element: the first error where
/// one of them stands for no value.
pub open spec fn each<T: Wire>(items: Seq<JsonModel>) -> Result<Seq<T::V>, DecodeError>
    decreases items.len(),
{
    if items.len() == 0 {
        Ok(Seq::empty())
    } else {
        match each::<T>(items.drop_last()) {
            Ok(front) => match T::from_wire(items.last()) {
                Ok(v) => Ok(front.push(v)),
                Err(e) => Err(e),
            },
            Err(e) => Err(e),
        }
    }
}

/// The documents of the values in their order.
pub open spec fn wires<T: Wire>(values: Seq<T::V>) -> Seq<JsonModel> {
    Seq::new(values.len(), |i: int| T::to_wire(values[i]))
}

/// Every value is faithful.
pub open spec fn all_faithful<T: Wire>(values: Seq<T::V>) -> bool {
    forall|i: int| 0 <= i < values.len() ==> T::faithful(#[trigger] values[i])
}

/// An error among the first documents is the error of the whole list.
pub proof fn lemma_each_error<T: Wire>(items: Seq<JsonModel>, n: int)
    requires
        0 <= n <= items.len(),
        each::<T>(items.take(n)) is Err,
    ensures
        each::<T>(items) == each::<T>(items.take(n)),
    decreases items.len() - n,
{
    if n < items.len() {
        assert(items.take(n + 1).drop_last() =~= items.take(n));
        lemma_each_error::<T>(items, n + 1);
    } else {
        assert(items.take(n) =~= items);
    }
}

/// Faithful values are read back from their documents.
pub proof fn lemma_each_round_trip<T: Wire>(values: Seq<T::V>)
    requires
        all_faithful::<T>(values),
    ensures
        each::<T>(wires::<T>(values)) == Ok::<Seq<T::V>, DecodeError>(values),
    decreases values.len(),
{
    if values.len() == 0 {
        assert(each::<T>(wires::<T>(values)).unwrap() =~= values);
    } else {
        let front = values.drop_last();
        assert(wires::<T>(values).drop_last() =~= wires::<T>(front));
        lemma_each_round_trip::<T>(front);
        T::lemma_round_trip(values.last());
        assert(front.push(values.last()) =~= values);
    }
}

/// Writes the values as documents.
pub fn to_json_each<T: Wire>(values: &Vec<T>) -> (r: Vec<Json>)
    ensures
        models(r@) == wires::<T>(values.deep_view()),
{
    let mut out: Vec<Json> = Vec::new();
    let mut i: usize = 0;
    while i < values.len()
        invariant
            i <= values@.len(),
            out@.len() == i,
            forall|k: int| 0 <= k < i ==> (#[trigger] out@[k]).deep_view() == T::to_wire(
                values@[k].deep_view(),
            ),
        decreases values@.len() - i,
    {
        out.push(values[i].to_json());
        i = i + 1;
    }
    proof {
        lemma_models(out@);
        assert(models(out@) =~= wires::<T>(values.deep_view()));
    }
    out
}

/// Reads a value from each of the documents.
pub fn from_json_each<T: Wire>(items: &Vec<Json>) -> (r: Result<Vec<T>, DecodeError>)
    ensures
        decoded(r) == each::<T>(models(items@)),
{
    let mut out: Vec<T> = Vec::new();
    let mut i: usize = 0;
    proof {
        lemma_models(items@);
        assert(each::<T>(models(items@).take(0)).unwrap() =~= out.deep_view());
    }
    while i < items.len()
        invariant
            i <= items@.len(),
            each::<T>(models(items@).take(i as int)) == Ok::<Seq<T::V>, DecodeError>(
                out.deep_view(),
            ),
        decreases items@.len() - i,
    {
        let ghost before = out.deep_view();
        proof {
            lemma_models(items@);
            assert(models(items@).take(i + 1).drop_last() =~= models(items@).take(i as int));
        }
        match T::from_json(&items[i]) {
            Ok(v) => {
                out.push(v);
                assert(out.deep_view() =~= before.push(v.deep_view()));
            },
            Err(e) => {
                proof {
                    lemma_each_error::<T>(models(items@), i + 1);
                }
                return Err(e);
            },
        }
        i = i + 1;
    }
    proof {
        assert(models(items@).take(items@.len() as int) =~= models(items@));
    }
    Ok(out)
}

impl<T: Wire> Wire for Vec<T> {
    open spec fn to_wire(v: Seq<T::V>) -> JsonModel {
        JsonModel::Array(wires::<T>(v))
    }

    open spec fn from_wire(j: JsonModel) -> Result<Seq<T::V>, DecodeError> {
        match j {
            JsonModel::Array(items) => each::<T>(items),
            _ => Err(DecodeError::WrongType),
        }
    }

    open spec fn faithful(v: Seq<T::V>) -> bool {
        all_faithful::<T>(v)
    }

    proof fn lemma_round_trip(v: Seq<T::V>) {
        lemma_each_round_trip::<T>(v);
    }

    fn to_json(&self) -> (r: Json) {
        Json::Array(to_json_each(self))
    }

    fn from_json(j: &Json) -> (r: Result<Vec<T>, DecodeError>) {
        match j {
            Json::Array(items) => from_json_each(items),
            _ => Err(DecodeError::WrongType),
        }
    }
}

} // verus!
