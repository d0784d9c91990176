//! Flattened records: a nested document as a list of the paths of its
//! members, each with its text in lower case.
//!
//! `{ "abc": { "def": "Ghi" } }` becomes `abc.def` with the text `ghi`; the
//! members of the objects of an array stand under `name[0].member`,
//! `name[1].member` and so on. No path stands twice: a member that is written
//! again takes the place of the one before.

use vstd::prelude::*;
use vstd::string::*;
use crate::api::{
    get_tad, is_tad_listing, passing_tad, ErrorBody, Flattened, Host, TadFilter, TadListing,
};
use crate::ileap::Tad;
use crate::json::{members, Json, JsonModel, Wire};
use crate::text::{digits_of, integer_digits, integer_text, lowercase, lowercase_of, number_text};

verus! {

/// A flattened record as a mathematical value: paths and texts.
pub type FlatModel = Seq<(Seq<char>, Seq<char>)>;

/// The paths and texts of a flattened record.
pub open spec fn flat_view(flat: Seq<(String, String)>) -> FlatModel {
    flat.map_values(|m: (String, String)| (m.0@, m.1@))
}

/// Some member of the record has the path.
pub open spec fn has_path(flat: FlatModel, path: Seq<char>) -> bool {
    exists|i: int| 0 <= i < flat.len() && (#[trigger] flat[i]).0 == path
}

/// The record with the text `text` under `path`: in the place of what stood
/// under the path, or at the end where nothing did.
pub open spec fn with_member(flat: FlatModel, path: Seq<char>, text: Seq<char>) -> FlatModel {
    if has_path(flat, path) {
        flat.map_values(
            |m: (Seq<char>, Seq<char>)|
                if m.0 == path {
                    (path, text)
                } else {
                    m
                },
        )
    } else {
        flat.push((path, text))
    }
}

/// The record with the members of the flattened record `inner`, each under
/// `prefix` followed by its own path and with its text in lower case.
pub open spec fn with_nested(flat: FlatModel, prefix: Seq<char>, inner: FlatModel) -> FlatModel
    decreases inner.len(),
{
    if inner.len() == 0 {
        flat
    } else {
        with_member(
            with_nested(flat, prefix, inner.drop_last()),
            prefix + inner.last().0,
            lowercase_of(inner.last().1),
        )
    }
}

/// The prefix of the paths of the members of the object at position `i` of
/// the array `name`.
pub open spec fn item_prefix(name: Seq<char>, i: nat) -> Seq<char> {
    name + seq!['['] + digits_of(i) + seq![']', '.']
}

/// The record with the members of the objects among `items`, the members of
/// the object at position `i` under `name[i].`; what is no object is left
/// out.
pub open spec fn with_items(flat: FlatModel, name: Seq<char>, items: Seq<Json>) -> FlatModel
    decreases items, 0nat,
{
    if items.len() == 0 {
        flat
    } else {
        let before = with_items(flat, name, items.drop_last());
        match items.last() {
            Json::Object(inner) => with_nested(
                before,
                item_prefix(name, (items.len() - 1) as nat),
                flattened(inner@),
            ),
            _ => before,
        }
    }
}

/// The name of the array that is left out of a flattened record.
pub const SKIPPED_ARRAY: &'static str = "consignmentIds";

/// The flattened record of the members of an object: a text stands under
/// its name in lower case, a whole number as its digits, the members of an
/// object under the name, a dot and their own paths, those of the objects of
/// an array under the name, the position in brackets, a dot and their own
/// paths. Nulls, truth values, numbers with a fraction and the array of the
/// consignment identifiers are left out.
pub open spec fn flattened(entries: Seq<(String, Json)>) -> FlatModel
    decreases entries, 1nat,
{
    if entries.len() == 0 {
        Seq::empty()
    } else {
        let before = flattened(entries.drop_last());
        let name = entries.last().0@;
        match entries.last().1 {
            Json::Text(s) => with_member(before, name, lowercase_of(s@)),
            Json::Integer(n) => with_member(before, name, integer_digits(n as int)),
            Json::Object(inner) => with_nested(before, name + seq!['.'], flattened(inner@)),
            Json::Array(items) => if name == SKIPPED_ARRAY@ {
                before
            } else {
                with_items(before, name, items@)
            },
            _ => before,
        }
    }
}

/// The path and the text of a member.
pub open spec fn member_view(m: (String, String)) -> (Seq<char>, Seq<char>) {
    (m.0@, m.1@)
}

/// Puts the text under the path: in the place of what stood there, or at
/// the end.
pub fn set_member(flat: &mut Flattened, path: String, text: String)
    ensures
        flat_view(final(flat)@) == with_member(flat_view(old(flat)@), path@, text@),
{
    let ghost before = flat_view(flat@);
    let mut found = false;
    let mut i: usize = 0;
    while i < flat.len()
        invariant
            i <= flat@.len(),
            flat@.len() == before.len(),
            found == has_path(before.take(i as int), path@),
            forall|k: int|
                0 <= k < i ==> member_view(#[trigger] flat@[k]) == if before[k].0 == path@ {
                    (path@, text@)
                } else {
                    before[k]
                },
            forall|k: int| i <= k < flat@.len() ==> member_view(#[trigger] flat@[k]) == before[k],
        decreases flat@.len() - i,
    {
        let ghost earlier = flat@;
        let same = flat[i].0.as_str().eq(path.as_str());
        assert(same == (before[i as int].0 == path@));
        if same {
            let member = (path.clone(), text.clone());
            assert(member_view(member) == (path@, text@));
            flat.set(i, member);
            found = true;
        }
        proof {
            assert forall|k: int| 0 <= k < i + 1 implies member_view(#[trigger] flat@[k])
                == if before[k].0 == path@ {
                (path@, text@)
            } else {
                before[k]
            } by {
                if k < i {
                    assert(flat@[k] == earlier[k]);
                }
            }
            assert forall|k: int| i + 1 <= k < flat@.len() implies member_view(
                #[trigger] flat@[k],
            ) == before[k] by {
                assert(flat@[k] == earlier[k]);
            }
            let shorter = before.take(i as int);
            let longer = before.take(i + 1);
            if has_path(shorter, path@) {
                let k = choose|k: int| 0 <= k < shorter.len() && (#[trigger] shorter[k]).0 == path@;
                assert(longer[k].0 == path@);
            }
            if same {
                assert(longer[i as int].0 == path@);
            }
            if has_path(longer, path@) {
                let k = choose|k: int| 0 <= k < longer.len() && (#[trigger] longer[k]).0 == path@;
                if k < i {
                    assert(shorter[k].0 == path@);
                }
            }
        }
        i = i + 1;
    }
    assert(before.take(before.len() as int) =~= before);
    if !found {
        flat.push((path, text));
        assert(flat_view(flat@) =~= before.push((path@, text@)));
    } else {
        assert(flat_view(flat@) =~= with_member(before, path@, text@));
    }
}

/// Puts the members of a flattened record under `prefix` followed by their
/// own paths, with their texts in lower case.
pub fn add_nested(flat: &mut Flattened, prefix: &str, inner: &Flattened)
    ensures
        flat_view(final(flat)@) == with_nested(flat_view(old(flat)@), prefix@, flat_view(inner@)),
{
    let ghost before = flat_view(flat@);
    let mut k: usize = 0;
    assert(flat_view(inner@).take(0) =~= Seq::empty());
    while k < inner.len()
        invariant
            k <= inner@.len(),
            flat_view(flat@) == with_nested(before, prefix@, flat_view(inner@).take(k as int)),
        decreases inner@.len() - k,
    {
        let mut path = prefix.to_owned();
        path.append(inner[k].0.as_str());
        let text = lowercase(inner[k].1.as_str());
        proof {
            assert(flat_view(inner@).take(k + 1).drop_last() =~= flat_view(inner@).take(k as int));
            assert(flat_view(inner@).take(k + 1).last() == (inner@[k as int].0@, inner@[k as int].1@));
        }
        set_member(flat, path, text);
        k = k + 1;
    }
    assert(flat_view(inner@).take(inner@.len() as int) =~= flat_view(inner@));
}

/// Puts the members of the objects among `items` under `name[i].` followed
/// by their own paths.
pub fn add_items(flat: &mut Flattened, name: &str, items: &Vec<Json>)
    ensures
        flat_view(final(flat)@) == with_items(flat_view(old(flat)@), name@, items@),
    decreases items, 0nat,
{
    let ghost before = flat_view(flat@);
    let mut i: usize = 0;
    assert(items@.take(0) =~= Seq::empty());
    while i < items.len()
        invariant
            i <= items@.len(),
            flat_view(flat@) == with_items(before, name@, items@.take(i as int)),
        decreases items@.len() - i,
    {
        proof {
            assert(items@.take(i + 1).drop_last() =~= items@.take(i as int));
            assert(items@.take(i + 1).last() == items@[i as int]);
        }
        match &items[i] {
            Json::Object(inner) => {
                let mut prefix = name.to_owned();
                prefix.push('[');
                prefix.append(number_text(i).as_str());
                prefix.push(']');
                prefix.push('.');
                assert(prefix@ =~= item_prefix(name@, i as nat));
                let nested = flatten(inner);
                add_nested(flat, prefix.as_str(), &nested);
            },
            _ => {},
        }
        i = i + 1;
    }
    assert(items@.take(items@.len() as int) =~= items@);
}

/// Flattens the members of an object.
pub fn flatten(entries: &Vec<(String, Json)>) -> (r: Flattened)
    ensures
        flat_view(r@) == flattened(entries@),
    decreases entries, 1nat,
{
    let mut flat: Flattened = Vec::new();
    let mut i: usize = 0;
    assert(entries@.take(0) =~= Seq::empty());
    assert(flat_view(flat@) =~= Seq::empty());
    while i < entries.len()
        invariant
            i <= entries@.len(),
            flat_view(flat@) == flattened(entries@.take(i as int)),
        decreases entries@.len() - i,
    {
        proof {
            assert(entries@.take(i + 1).drop_last() =~= entries@.take(i as int));
            assert(entries@.take(i + 1).last() == entries@[i as int]);
        }
        let name = &entries[i].0;
        match &entries[i].1 {
            Json::Text(s) => {
                let path = name.clone();
                assert(path@ == name@);
                set_member(&mut flat, path, lowercase(s.as_str()));
            },
            Json::Integer(n) => {
                let path = name.clone();
                assert(path@ == name@);
                set_member(&mut flat, path, integer_text(*n));
            },
            Json::Object(inner) => {
                let mut prefix = name.clone();
                prefix.push('.');
                assert(prefix@ =~= name@ + seq!['.']);
                let nested = flatten(inner);
                add_nested(&mut flat, prefix.as_str(), &nested);
            },
            Json::Array(items) => {
                if !name.as_str().eq(SKIPPED_ARRAY) {
                    add_items(&mut flat, name.as_str(), items);
                }
            },
            _ => {},
        }
        i = i + 1;
    }
    assert(entries@.take(entries@.len() as int) =~= entries@);
    flat
}

/// The flattened record is that of a document of the transport activity.
pub open spec fn is_flat_of(flat: Seq<(String, String)>, tad: Tad) -> bool {
    exists|entries: Seq<(String, Json)>|
        JsonModel::Object(members(entries)) == <Tad as Wire>::to_wire(tad.deep_view())
            && flat_view(flat) == #[trigger] flattened(entries)
}

/// Each of the flattened records is that of a document of the transport
/// activity at its position.
pub open spec fn are_flat_of(flattened: Seq<Vec<(String, String)>>, data: Seq<Tad>) -> bool {
    &&& flattened.len() == data.len()
    &&& forall|i: int| 0 <= i < data.len() ==> is_flat_of((#[trigger] flattened[i])@, data[i])
}

/// The transport activities flattened, each from its document.
pub fn flatten_each(data: &Vec<Tad>) -> (r: Vec<Flattened>)
    ensures
        are_flat_of(r@, data@),
{
    let mut records: Vec<Flattened> = Vec::new();
    let mut i: usize = 0;
    while i < data.len()
        invariant
            i <= data@.len(),
            records@.len() == i,
            forall|k: int| 0 <= k < i ==> is_flat_of((#[trigger] records@[k])@, data@[k]),
        decreases data@.len() - i,
    {
        let flat = match data[i].to_json() {
            Json::Object(entries) => {
                let flat = flatten(&entries);
                assert(flat_view(flat@) == flattened(entries@));
                flat
            },
            _ => Vec::new(),
        };
        assert(is_flat_of(flat@, data@[i as int]));
        records.push(flat);
        i = i + 1;
    }
    records
}

/// A page of the transport activity data that pass the filter: a transport
/// activity passes where its identifier is that of a transport activity of
/// which some member, in its flattened document, passes the filter.
pub fn list_tad(
    data: Vec<Tad>,
    authorized: bool,
    limit: Option<usize>,
    offset: Option<usize>,
    filter: Option<TadFilter>,
    host: Host,
) -> (r: Result<TadListing, ErrorBody>)
    ensures
        exists|flattened: Seq<Vec<(String, String)>>|
            are_flat_of(flattened, data@) && #[trigger] is_tad_listing(
                r,
                passing_tad(data@, flattened, filter),
                authorized,
                limit,
                offset,
                host.name(),
            ),
{
    let records = flatten_each(&data);
    get_tad(data, &records, authorized, limit, offset, filter, host)
}

} // verus!
