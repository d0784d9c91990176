//! What a data exchange service decides when it lists footprints: who may
//! see which footprints, which page of a listing is returned, and where the
//! next page is found.

use vstd::prelude::*;
use vstd::string::*;
use crate::demo_data::{gen_rnd_demo_data, is_demo_data, is_demo_footprint};
use crate::filter::{chars_of, occurs_at, stands_at, Filter};
use crate::ileap::Tad;
use crate::text::{lowercase, lowercase_of};
use crate::ileap::ILeapType;
use crate::pact::ProductFootprint;
use crate::pf_id::PfId;
use crate::text::{digits_of, has_prefix, number_text, starts_with};

verus! {

/// The user who may see every footprint.
pub const DEMO_GLOBAL_USERNAME: &'static str = "hello";

/// The password of the user who may see every footprint.
pub const DEMO_GLOBAL_PASSWORD: &'static str = "pathfinder";

/// The user who sees the footprints of shipments.
pub const DEMO_SHIPPER_USERNAME: &'static str = "transport_service_user";

/// The password of the user who sees the footprints of shipments.
pub const DEMO_SHIPPER_PASSWORD: &'static str = "ileap";

/// The user who sees the footprints of operation categories.
pub const DEMO_LSP_USERNAME: &'static str = "transport_service_organizer";

/// The password of the user who sees the footprints of operation categories.
pub const DEMO_LSP_PASSWORD: &'static str = "ileap";

/// The user who gets random footprints.
pub const RANDOM_DATA_USERNAME: &'static str = "random_data";

/// The password of the user who gets random footprints.
pub const RANDOM_DATA_PASSWORD: &'static str = "random_data";

/// The address of the schema of shipment footprints.
pub const SHIPMENT_SCHEMA: &'static str = "https://api.ileap.sine.dev/shipment-footprint.json";

/// The address of the schema of transport operation categories.
pub const TOC_SCHEMA: &'static str = "https://api.ileap.sine.dev/toc.json";

/// The address of the schema of hub operation categories.
pub const HOC_SCHEMA: &'static str = "https://api.ileap.sine.dev/hoc.json";

/// The size of the random data that the user of random data gets.
pub const RANDOM_DATA_SIZE: u8 = 10;

/// The body of an error response: a message for people and a code for
/// programs.
#[derive(Clone, Copy, Debug, PartialEq, Eq)]
pub struct ErrorBody {
    pub message: &'static str,
    pub code: &'static str,
}

/// The error of the token endpoint, as OAuth 2.0 words it.
#[derive(Clone, Copy, Debug, PartialEq, Eq)]
pub struct OAuth2ErrorMessage {
    pub error: &'static str,
    pub error_description: &'static str,
}

impl ErrorBody {
    /// The request was malformed or lacked data.
    pub fn bad_request() -> (r: ErrorBody)
        ensures
            r.message@ == "Bad Request"@,
            r.code@ == "BadRequest"@,
    {
        ErrorBody { message: "Bad Request", code: "BadRequest" }
    }

    /// The caller may not see what it asked for.
    pub fn access_denied() -> (r: ErrorBody)
        ensures
            r.message@ == "Access Denied"@,
            r.code@ == "AccessDenied"@,
    {
        ErrorBody { message: "Access Denied", code: "AccessDenied" }
    }

    /// There is no footprint with the identifier asked for.
    pub fn no_such_footprint() -> (r: ErrorBody)
        ensures
            r.message@ == "The specified footprint does not exist"@,
            r.code@ == "NoSuchFootprint"@,
    {
        ErrorBody { message: "The specified footprint does not exist", code: "NoSuchFootprint" }
    }

    /// The service does not implement what was asked for.
    pub fn not_implemented() -> (r: ErrorBody)
        ensures
            r.message@ == "Not Implemented"@,
            r.code@ == "NotImplemented"@,
    {
        ErrorBody { message: "Not Implemented", code: "NotImplemented" }
    }

    /// The access token is not valid.
    pub fn unauthorized() -> (r: ErrorBody)
        ensures
            r.message@ == "Unauthorized"@,
            r.code@ == "Unauthorized"@,
    {
        ErrorBody { message: "Unauthorized", code: "Unauthorized" }
    }
}

/// The pair of a user and a password is one of the four known pairs.
pub open spec fn known_credentials(id: Seq<char>, secret: Seq<char>) -> bool {
    ||| id == DEMO_GLOBAL_USERNAME@ && secret == DEMO_GLOBAL_PASSWORD@
    ||| id == DEMO_SHIPPER_USERNAME@ && secret == DEMO_SHIPPER_PASSWORD@
    ||| id == DEMO_LSP_USERNAME@ && secret == DEMO_LSP_PASSWORD@
    ||| id == RANDOM_DATA_USERNAME@ && secret == RANDOM_DATA_PASSWORD@
}

/// Decides on a request for a token: any grant type but client credentials
/// is unsupported, and credentials that are not known are invalid.
pub fn check_token_request(grant_type: &str, id: &str, secret: &str) -> (r: Result<
    (),
    OAuth2ErrorMessage,
>)
    ensures
        match r {
            Ok(()) => grant_type@ == "client_credentials"@ && known_credentials(id@, secret@),
            Err(e) => if grant_type@ != "client_credentials"@ {
                &&& e.error@ == "unsupported_grant_type"@
                &&& e.error_description@ == "The grant type is not supported by this server"@
            } else {
                &&& !known_credentials(id@, secret@)
                &&& e.error@ == "invalid_client"@
                &&& e.error_description@ == "Invalid client credentials"@
            },
        },
{
    if !grant_type.eq("client_credentials") {
        return Err(
            OAuth2ErrorMessage {
                error_description: "The grant type is not supported by this server",
                error: "unsupported_grant_type",
            },
        );
    }
    if (id.eq(DEMO_GLOBAL_USERNAME) && secret.eq(DEMO_GLOBAL_PASSWORD)) || (id.eq(
        DEMO_SHIPPER_USERNAME,
    ) && secret.eq(DEMO_SHIPPER_PASSWORD)) || (id.eq(DEMO_LSP_USERNAME) && secret.eq(
        DEMO_LSP_PASSWORD,
    )) || (id.eq(RANDOM_DATA_USERNAME) && secret.eq(RANDOM_DATA_PASSWORD)) {
        Ok(())
    } else {
        Err(
            OAuth2ErrorMessage {
                error_description: "Invalid client credentials",
                error: "invalid_client",
            },
        )
    }
}

/// The host to which a request was addressed, where the request names one.
#[derive(Clone, Copy, Debug, PartialEq, Eq)]
pub struct Host<'r>(pub Option<&'r str>);

/// The host is reached without encryption: it is the local machine under
/// one of its two names, with a port.
pub open spec fn is_local(host: Seq<char>) -> bool {
    starts_with(host, "127.0.0.1:"@) || starts_with(host, "localhost:"@)
}

/// The address of the service on a host: `http` on the local machine,
/// `https` elsewhere, and nothing where no host is known.
pub open spec fn origin_of(host: Option<Seq<char>>) -> Seq<char> {
    match host {
        Some(h) => if is_local(h) {
            "http://"@ + h
        } else {
            "https://"@ + h
        },
        None => Seq::empty(),
    }
}

impl<'r> Host<'r> {
    /// The name of the host as a mathematical value.
    pub open spec fn name(&self) -> Option<Seq<char>> {
        match self.0 {
            Some(h) => Some(h@),
            None => None,
        }
    }

    /// The address of the service on this host.
    pub fn origin(&self) -> (r: String)
        ensures
            r@ == origin_of(self.name()),
    {
        match self.0 {
            Some(host) => {
                let mut text = if has_prefix(host, "127.0.0.1:") || has_prefix(
                    host,
                    "localhost:",
                ) {
                    "http://".to_owned()
                } else {
                    "https://".to_owned()
                };
                text.append(host);
                text
            },
            None => String::new(),
        }
    }
}

/// A page of a listing: the positions from `start` up to but not including
/// `end`, and the offset of the next page where the listing goes on.
#[derive(Clone, Copy, Debug, PartialEq, Eq, Structural)]
pub struct Page {
    pub start: usize,
    pub end: usize,
    pub limit: usize,
    pub next_offset: Option<usize>,
}

/// The page of a listing of `total` entries that starts at `offset` and
/// holds `limit` entries at most: `None` where the offset lies beyond the
/// listing.
pub open spec fn page_of(total: usize, offset: usize, limit: usize) -> Option<Page> {
    if offset > total {
        None
    } else {
        let count = if limit <= total - offset {
            limit
        } else {
            (total - offset) as usize
        };
        let end = (offset + count) as usize;
        Some(
            Page {
                start: offset,
                end,
                limit: count,
                next_offset: if end < total {
                    Some(end)
                } else {
                    None
                },
            },
        )
    }
}

/// Computes the page of a listing.
pub fn page(total: usize, offset: usize, limit: usize) -> (r: Option<Page>)
    ensures
        r == page_of(total, offset, limit),
        r matches Some(p) ==> p.start <= p.end <= total && p.end - p.start <= limit,
{
    if offset > total {
        return None;
    }
    let max_limit = total - offset;
    let count = if limit <= max_limit {
        limit
    } else {
        max_limit
    };
    let end = offset + count;
    Some(
        Page {
            start: offset,
            end,
            limit: count,
            next_offset: if end < total {
                Some(end)
            } else {
                None
            },
        },
    )
}

/// The value of the link header that points to the next page of the listing
/// at `path`.
pub open spec fn next_link_of(
    host: Option<Seq<char>>,
    path: Seq<char>,
    next_offset: usize,
    limit: usize,
) -> Seq<char> {
    "<"@ + origin_of(host) + path + "?offset="@ + digits_of(next_offset as nat) + "&limit="@
        + digits_of(limit as nat) + ">; rel=\"next\""@
}

/// Writes the value of the link header that points to the next page.
pub fn next_link(host: &Host, path: &str, next_offset: usize, limit: usize) -> (r: String)
    ensures
        r@ == next_link_of(host.name(), path@, next_offset, limit),
{
    let mut link = "<".to_owned();
    link.append(host.origin().as_str());
    link.append(path);
    link.append("?offset=");
    link.append(number_text(next_offset).as_str());
    link.append("&limit=");
    link.append(number_text(limit).as_str());
    link.append(">; rel=\"next\"");
    link
}

/// Some extension of the footprint is described by one of the schemas.
pub open spec fn carries_schema<T>(pf: ProductFootprint<T>, schemas: Seq<Seq<char>>) -> bool {
    pf.extensions matches Some(list) && exists|i: int, j: int|
        0 <= i < list@.len() && 0 <= j < schemas.len() && (#[trigger] list@[i]).data_schema@
            == #[trigger] schemas[j]
}

/// The texts of the schemas.
pub open spec fn schema_texts(schemas: Seq<&'static str>) -> Seq<Seq<char>> {
    schemas.map_values(|s: &'static str| s@)
}

/// Whether some extension of the footprint is described by one of the schemas.
pub fn has_schema<T>(pf: &ProductFootprint<T>, schemas: &Vec<&'static str>) -> (r: bool)
    ensures
        r == carries_schema(*pf, schema_texts(schemas@)),
{
    match &pf.extensions {
        Some(list) => {
            let mut i: usize = 0;
            while i < list.len()
                invariant
                    i <= list@.len(),
                    pf.extensions == Some(*list),
                    forall|a: int, b: int|
                        0 <= a < i && 0 <= b < schemas@.len() ==> (#[trigger] list@[a]).data_schema@
                            != #[trigger] schema_texts(schemas@)[b],
                decreases list@.len() - i,
            {
                let mut j: usize = 0;
                while j < schemas.len()
                    invariant
                        i < list@.len(),
                        j <= schemas@.len(),
                        pf.extensions == Some(*list),
                        forall|b: int|
                            0 <= b < j ==> list@[i as int].data_schema@ != #[trigger] schema_texts(
                                schemas@,
                            )[b],
                    decreases schemas@.len() - j,
                {
                    if list[i].data_schema.as_str().eq(schemas[j]) {
                        assert(list@[i as int].data_schema@ == schema_texts(schemas@)[j as int]);
                        return true;
                    }
                    j = j + 1;
                }
                i = i + 1;
            }
            false
        },
        None => false,
    }
}

/// The test that keeps the footprints with one of the schemas.
pub open spec fn schema_filter<T>(schemas: Seq<Seq<char>>) -> spec_fn(ProductFootprint<T>) -> bool {
    |pf: ProductFootprint<T>| carries_schema(pf, schemas)
}

/// Keeps the footprints with one of the schemas, in their order.
pub fn with_schemas<T>(data: Vec<ProductFootprint<T>>, schemas: &Vec<&'static str>) -> (r: Vec<
    ProductFootprint<T>,
>)
    ensures
        r@ == data@.filter(schema_filter(schema_texts(schemas@))),
{
    let ghost all = data@;
    let ghost keep = schema_filter::<T>(schema_texts(schemas@));
    let mut rest = data;
    let mut kept: Vec<ProductFootprint<T>> = Vec::new();
    let mut i: usize = 0;
    let n = rest.len();
    proof {
        reveal(Seq::filter);
        assert(all.take(0).filter(keep) =~= Seq::<ProductFootprint<T>>::empty());
    }
    while i < n
        invariant
            n == all.len(),
            i <= n,
            rest@ == all.skip(i as int),
            kept@ == all.take(i as int).filter(keep),
            keep == schema_filter::<T>(schema_texts(schemas@)),
        decreases n - i,
    {
        let pf = rest.remove(0);
        proof {
            reveal(Seq::filter);
            assert(all.skip(i as int).remove(0) =~= all.skip(i + 1));
            assert(all.take(i + 1).drop_last() =~= all.take(i as int));
            assert(all.take(i + 1).last() == pf);
        }
        if has_schema(&pf, schemas) {
            kept.push(pf);
        }
        i = i + 1;
    }
    proof {
        assert(all.take(n as int) =~= all);
    }
    kept
}

/// The schemas whose footprints a user sees, or `None` for a user who is
/// not restricted to schemas.
pub open spec fn schemas_of(username: Seq<char>) -> Option<Seq<Seq<char>>> {
    if username == DEMO_SHIPPER_USERNAME@ {
        Some(seq![SHIPMENT_SCHEMA@])
    } else if username == DEMO_LSP_USERNAME@ {
        Some(seq![TOC_SCHEMA@, HOC_SCHEMA@])
    } else {
        None
    }
}

/// The footprints that a user may see: the shipper sees the footprints of
/// shipments, the organizer those of the operation categories, the user of
/// random data gets freshly generated footprints, and everybody else sees
/// all.
pub fn filtered_by_auth(data: Vec<ProductFootprint<ILeapType>>, username: &str) -> (r: Vec<
    ProductFootprint<ILeapType>,
>)
    ensures
        match schemas_of(username@) {
            Some(schemas) => r@ == data@.filter(schema_filter(schemas)),
            None => if username@ == RANDOM_DATA_USERNAME@ {
                &&& forall|i: int| 0 <= i < r@.len() ==> is_demo_footprint(#[trigger] r@[i])
                &&& is_demo_data(r@, RANDOM_DATA_SIZE)
            } else {
                r == data
            },
        },
{
    if username.eq(DEMO_SHIPPER_USERNAME) {
        let schemas = vec![SHIPMENT_SCHEMA];
        assert(schema_texts(schemas@) =~= seq![SHIPMENT_SCHEMA@]);
        with_schemas(data, &schemas)
    } else if username.eq(DEMO_LSP_USERNAME) {
        let schemas = vec![TOC_SCHEMA, HOC_SCHEMA];
        assert(schema_texts(schemas@) =~= seq![TOC_SCHEMA@, HOC_SCHEMA@]);
        with_schemas(data, &schemas)
    } else if username.eq(RANDOM_DATA_USERNAME) {
        gen_rnd_demo_data(RANDOM_DATA_SIZE)
    } else {
        data
    }
}

/// The position of the first footprint with the identifier `id`.
pub fn find_footprint<T>(data: &Vec<ProductFootprint<T>>, id: PfId) -> (r: Option<usize>)
    ensures
        match r {
            Some(i) => i < data@.len() && data@[i as int].id == id && forall|k: int|
                0 <= k < i ==> (#[trigger] data@[k]).id != id,
            None => forall|k: int| 0 <= k < data@.len() ==> (#[trigger] data@[k]).id != id,
        },
{
    let mut i: usize = 0;
    while i < data.len()
        invariant
            i <= data@.len(),
            forall|k: int| 0 <= k < i ==> (#[trigger] data@[k]).id != id,
        decreases data@.len() - i,
    {
        if data[i].id.0 == id.0 {
            return Some(i);
        }
        i = i + 1;
    }
    None
}

/// The greatest number of results of a listing of footprints.
pub const ACTION_LIST_FOOTPRINTS_MAX_RESULTS: usize = usize::MAX;

/// `seen` is what the user with the given name may see of `data`.
pub open spec fn may_see(
    seen: Seq<ProductFootprint<ILeapType>>,
    data: Seq<ProductFootprint<ILeapType>>,
    username: Seq<char>,
) -> bool {
    match schemas_of(username) {
        Some(schemas) => seen == data.filter(schema_filter(schemas)),
        None => if username == RANDOM_DATA_USERNAME@ {
            &&& forall|i: int| 0 <= i < seen.len() ==> is_demo_footprint(#[trigger] seen[i])
            &&& is_demo_data(seen, RANDOM_DATA_SIZE)
        } else {
            seen == data
        },
    }
}

/// A page of a listing of footprints, with the link to the next page where
/// the listing goes on.
#[derive(Clone, Debug, PartialEq, Eq)]
pub struct PfListing {
    pub data: Vec<ProductFootprint<ILeapType>>,
    pub link: Option<String>,
}

/// The listing is the page at `offset` of the footprints `seen`, with
/// `limit` entries at most.
pub open spec fn is_page_of(
    listing: PfListing,
    seen: Seq<ProductFootprint<ILeapType>>,
    offset: usize,
    limit: usize,
    host: Option<Seq<char>>,
) -> bool {
    &&& seen.len() <= usize::MAX
    &&& page_of(seen.len() as usize, offset, limit) matches Some(p)
    &&& listing.data@ == seen.subrange(p.start as int, p.end as int)
    &&& match p.next_offset {
        Some(next) => listing.link matches Some(link) && link@ == next_link_of(
            host,
            "/2/footprints"@,
            next,
            p.limit,
        ),
        None => listing.link is None,
    }
}

/// What a user sees of `data` whose footprints are not drawn at random: the
/// shipper sees the footprints of shipments, the organizer those of the
/// operation categories, everybody else sees all.
pub open spec fn seen_by(
    data: Seq<ProductFootprint<ILeapType>>,
    username: Seq<char>,
) -> Seq<ProductFootprint<ILeapType>> {
    match schemas_of(username) {
        Some(schemas) => data.filter(schema_filter(schemas)),
        None => data,
    }
}

/// What such a user sees of the footprints of `data` that pass the filter:
/// `None` where the text is no filter.
pub open spec fn listed_for(
    filter: Option<Seq<char>>,
    data: Seq<ProductFootprint<ILeapType>>,
    username: Seq<char>,
) -> Option<Seq<ProductFootprint<ILeapType>>> {
    match filter {
        None => Some(seen_by(data, username)),
        Some(text) => match crate::filter::conditions_of(text) {
            Ok(cs) => Some(seen_by(data.filter(crate::filter::condition_filter(cs)), username)),
            Err(_) => None,
        },
    }
}

/// The page at `offset` of the footprints `seen`, with `limit` entries at
/// most and the link to the next page where the listing goes on. An offset
/// beyond the listing is a bad request.
pub fn page_of_listing(
    seen: Vec<ProductFootprint<ILeapType>>,
    limit: usize,
    offset: usize,
    host: &Host,
) -> (r: Result<PfListing, ErrorBody>)
    ensures
        match r {
            Ok(listing) => offset <= seen@.len() && is_page_of(
                listing,
                seen@,
                offset,
                limit,
                host.name(),
            ),
            Err(e) => offset > seen@.len() && e.code@ == "BadRequest"@ && e.message@
                == "Bad Request"@,
        },
{
    let ghost seen_view = seen@;
    let mut seen = seen;
    let window = match page(seen.len(), offset, limit) {
        Some(window) => window,
        None => {
            return Err(ErrorBody::bad_request());
        },
    };
    seen.truncate(window.end);
    let page_data = seen.split_off(window.start);
    assert(page_data@ =~= seen_view.subrange(window.start as int, window.end as int));
    let link = match window.next_offset {
        Some(next) => Some(next_link(host, "/2/footprints", next, window.limit)),
        None => None,
    };
    Ok(PfListing { data: page_data, link })
}

/// Action `ListFootprints`: the page at `offset` of the footprints that
/// pass the filter and that the user may see. A request without a user, with
/// a text that is no filter, or with an offset beyond the listing is a bad
/// request, and no other is. For the user of random data the listing is
/// made of freshly generated footprints.
pub fn get_list(
    data: Vec<ProductFootprint<ILeapType>>,
    username: Option<&str>,
    limit: usize,
    offset: usize,
    filter: Filter,
    host: Host,
) -> (r: Result<PfListing, ErrorBody>)
    ensures
        match r {
            Ok(listing) => {
                &&& username matches Some(name)
                &&& exists|
                    passed: Seq<ProductFootprint<ILeapType>>,
                    seen: Seq<ProductFootprint<ILeapType>>,
                |
                    {
                        &&& filter.passes(data@, Ok(passed))
                        &&& #[trigger] may_see(seen, passed, name@)
                        &&& is_page_of(listing, seen, offset, limit, host.name())
                    }
            },
            Err(e) => e.code@ == "BadRequest"@ && e.message@ == "Bad Request"@,
        },
        filter.text() matches Some(text) && crate::filter::conditions_of(text) is Err ==> r is Err,
        match username {
            Some(name) => name@ != RANDOM_DATA_USERNAME@ ==> match listed_for(
                filter.text(),
                data@,
                name@,
            ) {
                Some(seen) => if offset <= seen.len() {
                    r matches Ok(listing) && is_page_of(listing, seen, offset, limit, host.name())
                } else {
                    r is Err
                },
                None => r is Err,
            },
            None => r is Err,
        },
{
    let name = match username {
        Some(name) => name,
        None => {
            return Err(ErrorBody::bad_request());
        },
    };
    let passed = match filter.apply(data) {
        Ok(passed) => passed,
        Err(_) => {
            return Err(ErrorBody::bad_request());
        },
    };
    let ghost passed_view = passed@;
    let seen = filtered_by_auth(passed, name);
    assert(may_see(seen@, passed_view, name@));
    page_of_listing(seen, limit, offset, &host)
}

/// Action `ListFootprints` from the start of the listing, with as many
/// entries as there are where no limit is given. A request without a user
/// or with a text that is no filter is a bad request, and no other is.
pub fn get_footprints(
    data: Vec<ProductFootprint<ILeapType>>,
    username: Option<&str>,
    limit: Option<usize>,
    filter: Filter,
    host: Host,
) -> (r: Result<PfListing, ErrorBody>)
    ensures
        match r {
            Ok(listing) => {
                &&& username matches Some(name)
                &&& exists|
                    passed: Seq<ProductFootprint<ILeapType>>,
                    seen: Seq<ProductFootprint<ILeapType>>,
                |
                    {
                        &&& filter.passes(data@, Ok(passed))
                        &&& #[trigger] may_see(seen, passed, name@)
                        &&& is_page_of(
                            listing,
                            seen,
                            0,
                            match limit {
                                Some(l) => l,
                                None => ACTION_LIST_FOOTPRINTS_MAX_RESULTS,
                            },
                            host.name(),
                        )
                    }
            },
            Err(e) => e.code@ == "BadRequest"@ && e.message@ == "Bad Request"@,
        },
        r is Ok <==> username is Some && !(filter.text() matches Some(text)
            && crate::filter::conditions_of(text) is Err),
        match username {
            Some(name) => name@ != RANDOM_DATA_USERNAME@ ==> match listed_for(
                filter.text(),
                data@,
                name@,
            ) {
                Some(seen) => r matches Ok(listing) && is_page_of(
                    listing,
                    seen,
                    0,
                    match limit {
                        Some(l) => l,
                        None => ACTION_LIST_FOOTPRINTS_MAX_RESULTS,
                    },
                    host.name(),
                ),
                None => r is Err,
            },
            None => r is Err,
        },
{
    let name = match username {
        Some(name) => name,
        None => {
            return Err(ErrorBody::bad_request());
        },
    };
    let passed = match filter.apply(data) {
        Ok(passed) => passed,
        Err(_) => {
            return Err(ErrorBody::bad_request());
        },
    };
    let ghost passed_view = passed@;
    let seen = filtered_by_auth(passed, name);
    assert(may_see(seen@, passed_view, name@));
    let limit = match limit {
        Some(l) => l,
        None => ACTION_LIST_FOOTPRINTS_MAX_RESULTS,
    };
    page_of_listing(seen, limit, 0, &host)
}

/// The first of the footprints `seen` with the identifier `id`, where there
/// is one.
pub open spec fn is_first_with_id(
    pf: ProductFootprint<ILeapType>,
    seen: Seq<ProductFootprint<ILeapType>>,
    id: PfId,
) -> bool {
    exists|i: int|
        {
            &&& 0 <= i < seen.len()
            &&& #[trigger] seen[i] == pf
            &&& pf.id == id
            &&& forall|k: int| 0 <= k < i ==> (#[trigger] seen[k]).id != id
        }
}

/// The first of the footprints `seen` with the identifier `id`; a bad
/// request where none of them has it.
pub fn footprint_with_id(seen: Vec<ProductFootprint<ILeapType>>, id: PfId) -> (r: Result<
    ProductFootprint<ILeapType>,
    ErrorBody,
>)
    ensures
        match r {
            Ok(pf) => is_first_with_id(pf, seen@, id),
            Err(e) => {
                &&& forall|k: int| 0 <= k < seen@.len() ==> (#[trigger] seen@[k]).id != id
                &&& e.code@ == "BadRequest"@
                &&& e.message@ == "Bad Request"@
            },
        },
{
    let ghost seen_view = seen@;
    let mut seen = seen;
    match find_footprint(&seen, id) {
        Some(i) => {
            let pf = seen.swap_remove(i);
            assert(seen_view[i as int] == pf);
            Ok(pf)
        },
        None => Err(ErrorBody::bad_request()),
    }
}

/// Action `GetFootprint`: the first footprint with the identifier among
/// those that the user may see. A request without a user or for an
/// identifier that the user sees no footprint of is a bad request, and no
/// other is. For the user of random data the footprint is looked for among
/// freshly generated ones.
pub fn get_pcf(data: Vec<ProductFootprint<ILeapType>>, id: PfId, username: Option<&str>) -> (r:
    Result<ProductFootprint<ILeapType>, ErrorBody>)
    ensures
        match r {
            Ok(pf) => {
                &&& username matches Some(name)
                &&& pf.id == id
                &&& exists|seen: Seq<ProductFootprint<ILeapType>>|
                    #[trigger] may_see(seen, data@, name@) && is_first_with_id(pf, seen, id)
            },
            Err(e) => e.code@ == "BadRequest"@ && e.message@ == "Bad Request"@,
        },
        match username {
            Some(name) => name@ != RANDOM_DATA_USERNAME@ ==> match r {
                Ok(pf) => is_first_with_id(pf, seen_by(data@, name@), id),
                Err(_) => forall|k: int|
                    0 <= k < seen_by(data@, name@).len() ==> (#[trigger] seen_by(
                        data@,
                        name@,
                    )[k]).id != id,
            },
            None => r is Err,
        },
{
    let name = match username {
        Some(name) => name,
        None => {
            return Err(ErrorBody::bad_request());
        },
    };
    let seen = filtered_by_auth(data, name);
    assert(may_see(seen@, data@, name@));
    footprint_with_id(seen, id)
}

/// The number of results of a listing of transport activity data where the
/// request names none.
pub const DEFAULT_TAD_LIMIT: usize = 10;

/// A record flattened into the paths of its members and their texts in
/// lower case.
pub type Flattened = Vec<(String, String)>;

/// A filter on transport activity data: names of members, each with the
/// values that pass.
pub type TadFilter = Vec<(String, Vec<String>)>;

/// `needle` stands somewhere in `hay`.
pub open spec fn contains_text(hay: Seq<char>, needle: Seq<char>) -> bool {
    exists|i: int| #[trigger] occurs_at(hay, needle, i)
}

/// Whether `needle` stands somewhere in `hay`.
pub fn text_contains(hay: &str, needle: &str) -> (r: bool)
    ensures
        r == contains_text(hay@, needle@),
{
    let h = chars_of(hay);
    let n = chars_of(needle);
    if n.len() > h.len() {
        assert forall|i: int| !occurs_at(h@, n@, i) by {}
        return false;
    }
    let last = h.len() - n.len();
    let mut i: usize = 0;
    loop
        invariant
            last == h@.len() - n@.len(),
            i <= last,
            h@ == hay@,
            n@ == needle@,
            forall|k: int| 0 <= k < i ==> !occurs_at(h@, n@, k),
        decreases last - i,
    {
        if stands_at(&h, &n, i) {
            assert(occurs_at(hay@, needle@, i as int));
            return true;
        }
        if i == last {
            assert forall|k: int| !occurs_at(h@, n@, k) by {
                if 0 <= k <= last {
                }
            }
            return false;
        }
        i = i + 1;
    }
}

/// One of the values, in lower case, is the text.
pub open spec fn lowered_has(values: Seq<String>, text: Seq<char>) -> bool {
    exists|i: int| 0 <= i < values.len() && lowercase_of((#[trigger] values[i])@) == text
}

/// Whether one of the values, in lower case, is the text.
pub fn has_lowered(values: &Vec<String>, text: &str) -> (r: bool)
    ensures
        r == lowered_has(values@, text@),
{
    let mut i: usize = 0;
    while i < values.len()
        invariant
            i <= values@.len(),
            forall|k: int| 0 <= k < i ==> lowercase_of((#[trigger] values@[k])@) != text@,
        decreases values@.len() - i,
    {
        if lowercase(values[i].as_str()).as_str().eq(text) {
            return true;
        }
        i = i + 1;
    }
    false
}

/// The member passes the entry of a filter: its path holds the name of the
/// entry and its text is one of the values of the entry in lower case.
pub open spec fn member_passes(member: (String, String), entry: (String, Vec<String>)) -> bool {
    contains_text(member.0@, entry.0@) && lowered_has(entry.1@, member.1@)
}

/// Some member of the record passes some entry of the filter.
pub open spec fn record_passes(flat: Seq<(String, String)>, filter: Seq<(String, Vec<String>)>) -> bool {
    exists|i: int, j: int|
        0 <= i < flat.len() && 0 <= j < filter.len() && member_passes(
            #[trigger] flat[i],
            #[trigger] filter[j],
        )
}

/// Whether some member of the record passes some entry of the filter.
pub fn passes_filter(flat: &Flattened, filter: &TadFilter) -> (r: bool)
    ensures
        r == record_passes(flat@, filter@),
{
    let mut i: usize = 0;
    while i < flat.len()
        invariant
            i <= flat@.len(),
            forall|a: int, b: int|
                0 <= a < i && 0 <= b < filter@.len() ==> !member_passes(
                    #[trigger] flat@[a],
                    #[trigger] filter@[b],
                ),
        decreases flat@.len() - i,
    {
        let mut j: usize = 0;
        while j < filter.len()
            invariant
                i < flat@.len(),
                j <= filter@.len(),
                forall|b: int| 0 <= b < j ==> !member_passes(flat@[i as int], #[trigger] filter@[b]),
            decreases filter@.len() - j,
        {
            if text_contains(flat[i].0.as_str(), filter[j].0.as_str()) && has_lowered(
                &filter[j].1,
                flat[i].1.as_str(),
            ) {
                assert(member_passes(flat@[i as int], filter@[j as int]));
                return true;
            }
            j = j + 1;
        }
        i = i + 1;
    }
    false
}

/// The text under the path `activityId` of a flattened record: that of the
/// last member with the path.
pub open spec fn activity_of(flat: Seq<(String, String)>) -> Option<Seq<char>>
    decreases flat.len(),
{
    if flat.len() == 0 {
        None
    } else if flat.last().0@ == "activityId"@ {
        Some(flat.last().1@)
    } else {
        activity_of(flat.drop_last())
    }
}

/// Whether the text under the path `activityId` of the record is `id`.
pub fn has_activity(flat: &Flattened, id: &str) -> (r: bool)
    ensures
        r == (activity_of(flat@) == Some(id@)),
{
    let mut i: usize = flat.len();
    assert(flat@.take(flat@.len() as int) =~= flat@);
    while i > 0
        invariant
            i <= flat@.len(),
            activity_of(flat@) == activity_of(flat@.take(i as int)),
        decreases i,
    {
        i = i - 1;
        proof {
            assert(flat@.take(i + 1).drop_last() =~= flat@.take(i as int));
            assert(flat@.take(flat@.len() as int) =~= flat@);
        }
        if flat[i].0.as_str().eq("activityId") {
            return flat[i].1.as_str().eq(id);
        }
    }
    proof {
        assert(flat@.take(0).len() == 0);
    }
    false
}

/// The identifier is that of a flattened record that passes the filter.
pub open spec fn activity_passes(
    id: Seq<char>,
    flattened: Seq<Vec<(String, String)>>,
    filter: Seq<(String, Vec<String>)>,
) -> bool {
    exists|k: int|
        0 <= k < flattened.len() && record_passes((#[trigger] flattened[k])@, filter)
            && activity_of(flattened[k]@) == Some(id)
}

/// Whether the identifier is that of a flattened record that passes the
/// filter.
pub fn passing_activity(id: &str, flattened: &Vec<Flattened>, filter: &TadFilter) -> (r: bool)
    ensures
        r == activity_passes(id@, flattened@, filter@),
{
    let mut k: usize = 0;
    while k < flattened.len()
        invariant
            k <= flattened@.len(),
            forall|a: int|
                0 <= a < k ==> !(record_passes((#[trigger] flattened@[a])@, filter@) && activity_of(
                    flattened@[a]@,
                ) == Some(id@)),
        decreases flattened@.len() - k,
    {
        if passes_filter(&flattened[k], filter) && has_activity(&flattened[k], id) {
            return true;
        }
        k = k + 1;
    }
    false
}

/// The test that keeps the transport activity data whose identifier is
/// that of a flattened record that passes the filter.
pub open spec fn tad_filter(
    flattened: Seq<Vec<(String, String)>>,
    filter: Seq<(String, Vec<String>)>,
) -> spec_fn(Tad) -> bool {
    |tad: Tad| activity_passes(tad.activity_id@, flattened, filter)
}

/// Keeps the transport activity data whose identifier is that of a
/// flattened record that passes the filter, in their order.
pub fn retain_passing(data: Vec<Tad>, flattened: &Vec<Flattened>, filter: &TadFilter) -> (r: Vec<
    Tad,
>)
    ensures
        r@ == data@.filter(tad_filter(flattened@, filter@)),
{
    let ghost all = data@;
    let ghost keep = tad_filter(flattened@, filter@);
    let mut rest = data;
    let mut kept: Vec<Tad> = Vec::new();
    let mut i: usize = 0;
    let n = rest.len();
    proof {
        reveal(Seq::filter);
        assert(all.take(0).filter(keep) =~= Seq::<Tad>::empty());
    }
    while i < n
        invariant
            n == all.len(),
            i <= n,
            rest@ == all.skip(i as int),
            kept@ == all.take(i as int).filter(keep),
            keep == tad_filter(flattened@, filter@),
        decreases n - i,
    {
        let tad = rest.remove(0);
        proof {
            reveal(Seq::filter);
            assert(all.skip(i as int).remove(0) =~= all.skip(i + 1));
            assert(all.take(i + 1).drop_last() =~= all.take(i as int));
            assert(all.take(i + 1).last() == tad);
        }
        if passing_activity(tad.activity_id.as_str(), flattened, filter) {
            kept.push(tad);
        }
        i = i + 1;
    }
    proof {
        assert(all.take(n as int) =~= all);
    }
    kept
}

/// A page of a listing of transport activity data, with the link to the
/// next page where the listing goes on.
#[derive(Clone, Debug, PartialEq, Eq)]
pub struct TadListing {
    pub data: Vec<Tad>,
    pub link: Option<String>,
}

/// The transport activity data that a filter lets pass.
pub open spec fn passing_tad(
    data: Seq<Tad>,
    flattened: Seq<Vec<(String, String)>>,
    filter: Option<Vec<(String, Vec<String>)>>,
) -> Seq<Tad> {
    match filter {
        Some(f) => data.filter(tad_filter(flattened, f@)),
        None => data,
    }
}

/// The outcome of a listing of transport activity data: denied without
/// authorization or with an offset beyond the listing, else the page at the
/// offset, which is zero where none is given, with as many entries as the
/// limit, which is ten where none is given.
pub open spec fn is_tad_listing(
    r: Result<TadListing, ErrorBody>,
    passed: Seq<Tad>,
    authorized: bool,
    limit: Option<usize>,
    offset: Option<usize>,
    host: Option<Seq<char>>,
) -> bool {
    let limit = match limit {
        Some(l) => l,
        None => DEFAULT_TAD_LIMIT,
    };
    let offset = match offset {
        Some(o) => o,
        None => 0,
    };
    if !authorized || passed.len() > usize::MAX || page_of(passed.len() as usize, offset, limit)
        is None {
        r matches Err(e) && e.code@ == "AccessDenied"@ && e.message@ == "Access Denied"@
    } else {
        let p = page_of(passed.len() as usize, offset, limit)->Some_0;
        &&& r matches Ok(listing)
        &&& listing.data@ == passed.subrange(p.start as int, p.end as int)
        &&& match p.next_offset {
            Some(next) => listing.link matches Some(link) && link@ == next_link_of(
                host,
                "/2/ileap/tad"@,
                next,
                p.limit,
            ),
            None => listing.link is None,
        }
    }
}

/// A page of the transport activity data that pass the filter. `flattened`
/// holds the records of `data` flattened; a record passes where its
/// identifier is that of a flattened record of which some member passes the
/// filter.
pub fn get_tad(
    data: Vec<Tad>,
    flattened: &Vec<Flattened>,
    authorized: bool,
    limit: Option<usize>,
    offset: Option<usize>,
    filter: Option<TadFilter>,
    host: Host,
) -> (r: Result<TadListing, ErrorBody>)
    ensures
        is_tad_listing(
            r,
            passing_tad(data@, flattened@, filter),
            authorized,
            limit,
            offset,
            host.name(),
        ),
{
    if !authorized {
        return Err(ErrorBody::access_denied());
    }
    let mut result = match &filter {
        Some(f) => retain_passing(data, flattened, f),
        None => data,
    };
    let ghost passed = result@;
    let limit = match limit {
        Some(l) => l,
        None => DEFAULT_TAD_LIMIT,
    };
    let offset = match offset {
        Some(o) => o,
        None => 0,
    };
    let window = match page(result.len(), offset, limit) {
        Some(window) => window,
        None => {
            return Err(ErrorBody::access_denied());
        },
    };
    result.truncate(window.end);
    let page_data = result.split_off(window.start);
    assert(page_data@ =~= passed.subrange(window.start as int, window.end as int));
    let link = match window.next_offset {
        Some(next) => Some(next_link(&host, "/2/ileap/tad", next, window.limit)),
        None => None,
    };
    Ok(TadListing { data: page_data, link })
}

} // verus!
