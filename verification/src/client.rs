//! The query engine: planning requests against the catalog API and
//! collapsing their outcomes.
//!
//! The engine never performs network I/O itself. Each operation is split at
//! the transport boundary: a request-planning step hands the caller the one
//! HTTP GET to issue (URL, query parameters, headers), and a receiving step
//! takes the response body back — or `None` for a transport failure — and
//! decodes it. A transport error, an undecodable body, and a genuinely
//! absent resource are deliberately not told apart: a lookup yields nothing
//! and a collection fetch yields the empty sequence.
//!
//! A collection fetch issues exactly one request. A `page` filter argument
//! selects which page it asks for; no page argument is added otherwise, and
//! no further pages are fetched.

use vstd::prelude::*;

use crate::ResourceKind;
use crate::segment_spec;
use crate::envelope::{
    decode_single, decode_record_list, decode_name_list, spec_single_payload, spec_record_items,
    spec_name_items,
};
use crate::kv::{unique_keys, clone_pairs};
use crate::record::Record;

verus! {

/// The base URL of the catalog API.
pub open spec fn base_url_spec() -> Seq<char> {
    "https://api.pokemontcg.io/v2"@
}

/// The base URL of the catalog API.
pub fn base_url() -> (r: &'static str)
    ensures
        r@ == base_url_spec(),
{
    "https://api.pokemontcg.io/v2"
}

/// The fixed user-agent header value sent with every request.
pub open spec fn user_agent_spec() -> Seq<char> {
    "Mozilla/5.0"@
}

/// Whether a resource kind has a lookup-by-id endpoint upstream: only cards
/// and sets do; types, supertypes, subtypes, and rarities do not.
pub open spec fn has_id_endpoint(k: ResourceKind) -> bool {
    k == ResourceKind::Cards || k == ResourceKind::Sets
}

/// The URL that serves a kind's collection.
pub open spec fn collection_url_spec(k: ResourceKind) -> Seq<char> {
    base_url_spec() + "/"@ + segment_spec(k)
}

/// The URL that serves one resource of a kind, by identifier.
pub open spec fn find_url_spec(k: ResourceKind, id: Seq<char>) -> Seq<char> {
    collection_url_spec(k) + "/"@ + id
}

/// One HTTP GET for the caller's transport to issue: the URL, the query
/// parameters (an empty list means no query string), and the two headers —
/// `X-Api-Key` and `User-Agent` — every request carries.
pub struct ApiRequest {
    pub url: String,
    pub query: Vec<(String, String)>,
    pub api_key: String,
    pub user_agent: String,
}

/// What a lookup yields for a response: nothing for a transport failure,
/// otherwise the payload of the single-resource envelope, if the body is one.
pub open spec fn spec_find_outcome(b: Option<Seq<char>>) -> Option<Seq<(Seq<char>, Seq<char>)>> {
    match b {
        None => None,
        Some(t) => spec_single_payload(t),
    }
}

/// What a record-collection fetch yields for a response: the envelope's
/// items in wire order, and the empty sequence on a transport failure or an
/// undecodable body.
pub open spec fn spec_collection_records(b: Option<Seq<char>>) -> Seq<Seq<(Seq<char>, Seq<char>)>> {
    match b {
        None => Seq::empty(),
        Some(t) => match spec_record_items(t) {
            None => Seq::empty(),
            Some(items) => items,
        },
    }
}

/// What a name-collection fetch yields for a response: the envelope's items
/// in wire order, and the empty sequence on a transport failure or an
/// undecodable body.
pub open spec fn spec_collection_names(b: Option<Seq<char>>) -> Seq<Seq<char>> {
    match b {
        None => Seq::empty(),
        Some(t) => match spec_name_items(t) {
            None => Seq::empty(),
            Some(items) => items,
        },
    }
}

/// Holds the API credential and the filter arguments of the collection
/// fetch in progress. The arguments are call-scoped: a collection fetch
/// sets them, and its receiving step clears them whatever the outcome.
pub struct Client {
    key: String,
    args: Vec<(String, String)>,
}

impl Client {
    /// A client for the given API key, with no filter arguments set.
    pub fn new(key: String) -> (c: Client)
        ensures
            c.spec_key() == key@,
            c.spec_args() == Seq::<(Seq<char>, Seq<char>)>::empty(),
    {
        let c = Client { key, args: Vec::new() };
        proof {
            assert(c.spec_args() =~= Seq::<(Seq<char>, Seq<char>)>::empty());
        }
        c
    }
}

/// The query operations against the catalog API, split at the transport
/// boundary: `*_request` plans the one HTTP GET to issue, `*_receive` takes
/// the response body back (`None` for a transport failure) and decodes it.
pub trait Query {
    /// The configured API key.
    spec fn spec_key(&self) -> Seq<char>;

    /// The filter arguments currently set for a collection fetch.
    spec fn spec_args(&self) -> Seq<(Seq<char>, Seq<char>)>;

    /// Plans a lookup by identifier: the request to issue, or nothing for
    /// the kinds that have no lookup-by-id endpoint upstream. Never reads
    /// or changes the filter arguments, and carries no query string.
    fn find_request(&self, kind: ResourceKind, id: &str) -> (r: Option<ApiRequest>)
        ensures
            (r is Some) == has_id_endpoint(kind),
            r matches Some(req) ==> {
                &&& req.url@ == find_url_spec(kind, id@)
                &&& req.query@.len() == 0
                &&& req.api_key@ == self.spec_key()
                &&& req.user_agent@ == user_agent_spec()
            },
    ;

    /// Collapses the outcome of a lookup request: the decoded payload on a
    /// successful transport and decode, and nothing on any failure — a
    /// transport error, an undecodable body, and an absent resource are not
    /// told apart.
    fn find_receive(&self, body: Option<&str>) -> (r: Option<Record>)
        ensures
            r.deep_view() == spec_find_outcome(body.deep_view()),
    ;

    /// Replaces the filter arguments wholesale with the supplied mapping;
    /// the next collection request carries them as its query string. A
    /// mapping's keys are distinct.
    fn _where(&mut self, args: Vec<(String, String)>)
        requires
            unique_keys(args.deep_view()),
        ensures
            final(self).spec_args() == args.deep_view(),
            final(self).spec_key() == old(self).spec_key(),
    ;

    /// The collection request for a kind: the collection URL, with the
    /// current filter arguments as its query string — none when no
    /// arguments are set.
    fn all_request(&self, kind: ResourceKind) -> (r: ApiRequest)
        ensures
            r.url@ == collection_url_spec(kind),
            r.query.deep_view() == self.spec_args(),
            r.api_key@ == self.spec_key(),
            r.user_agent@ == user_agent_spec(),
    ;

    /// Ends a collection fetch of record payloads (cards, sets): the
    /// decoded items in wire order, and the empty sequence on any failure.
    /// The filter arguments are cleared whatever the outcome.
    fn all_receive_records(&mut self, body: Option<&str>) -> (r: Vec<Record>)
        ensures
            r.deep_view() == spec_collection_records(body.deep_view()),
            final(self).spec_args().len() == 0,
            final(self).spec_key() == old(self).spec_key(),
    ;

    /// Ends a collection fetch of name payloads (types, supertypes,
    /// subtypes, rarities): the decoded items in wire order, and the empty
    /// sequence on any failure. The filter arguments are cleared whatever
    /// the outcome.
    fn all_receive_names(&mut self, body: Option<&str>) -> (r: Vec<String>)
        ensures
            r.deep_view() == spec_collection_names(body.deep_view()),
            final(self).spec_args().len() == 0,
            final(self).spec_key() == old(self).spec_key(),
    ;
}

impl Query for Client {
    /// The configured API key.
    closed spec fn spec_key(&self) -> Seq<char> {
        self.key@
    }

    /// The filter arguments currently set for a collection fetch.
    closed spec fn spec_args(&self) -> Seq<(Seq<char>, Seq<char>)> {
        self.args.deep_view()
    }

    fn find_request(&self, kind: ResourceKind, id: &str) -> (r: Option<ApiRequest>) {
        if !kind.supports_find() {
            return None;
        }
        let mut url: String = base_url().to_owned();
        url.push_str("/");
        url.push_str(kind.path());
        url.push_str("/");
        url.push_str(id);
        proof {
            assert(url@ =~= find_url_spec(kind, id@));
        }
        Some(
            ApiRequest {
                url,
                query: Vec::new(),
                api_key: self.key.clone(),
                user_agent: "Mozilla/5.0".to_owned(),
            },
        )
    }

    fn find_receive(&self, body: Option<&str>) -> (r: Option<Record>) {
        match body {
            None => None,
            Some(b) => decode_single(b),
        }
    }

    fn _where(&mut self, args: Vec<(String, String)>) {
        self.args = args;
    }

    fn all_request(&self, kind: ResourceKind) -> (r: ApiRequest) {
        let mut url: String = base_url().to_owned();
        url.push_str("/");
        url.push_str(kind.path());
        proof {
            assert(url@ =~= collection_url_spec(kind));
        }
        let query = clone_pairs(&self.args);
        proof {
            assert(query.deep_view() =~= self.args.deep_view());
        }
        ApiRequest {
            url,
            query,
            api_key: self.key.clone(),
            user_agent: "Mozilla/5.0".to_owned(),
        }
    }

    fn all_receive_records(&mut self, body: Option<&str>) -> (r: Vec<Record>) {
        self.args = Vec::new();
        match body {
            None => {
                let out: Vec<Record> = Vec::new();
                proof {
                    assert(out.deep_view() =~= spec_collection_records(body.deep_view()));
                }
                out
            },
            Some(b) => match decode_record_list(b) {
                None => {
                    let out: Vec<Record> = Vec::new();
                    proof {
                        assert(out.deep_view() =~= spec_collection_records(body.deep_view()));
                    }
                    out
                },
                Some(items) => items,
            },
        }
    }

    fn all_receive_names(&mut self, body: Option<&str>) -> (r: Vec<String>) {
        self.args = Vec::new();
        match body {
            None => {
                let out: Vec<String> = Vec::new();
                proof {
                    assert(out.deep_view() =~= spec_collection_names(body.deep_view()));
                }
                out
            },
            Some(b) => match decode_name_list(b) {
                None => {
                    let out: Vec<String> = Vec::new();
                    proof {
                        assert(out.deep_view() =~= spec_collection_names(body.deep_view()));
                    }
                    out
                },
                Some(items) => items,
            },
        }
    }
}

/// Law: the kinds without a lookup-by-id endpoint upstream — types,
/// supertypes, subtypes, and rarities — are never looked up by identifier:
/// `find_request` plans no request for them, whatever the identifier, so no
/// network call is ever issued.
pub proof fn lemma_find_short_circuit(kind: ResourceKind)
    requires
        kind == ResourceKind::Types || kind == ResourceKind::Supertypes || kind
            == ResourceKind::Subtypes || kind == ResourceKind::Rarities,
    ensures
        !has_id_endpoint(kind),
{
}

/// Law: the kinds without a lookup-by-id endpoint are exactly those routed
/// to the segments the upstream API serves only as collections.
pub proof fn lemma_no_id_endpoint_segments(k: ResourceKind)
    ensures
        !has_id_endpoint(k) <==> (segment_spec(k) == "types"@ || segment_spec(k) == "supertypes"@
            || segment_spec(k) == "subtypes"@ || segment_spec(k) == "rarities"@),
{
    reveal_strlit("cards");
    reveal_strlit("sets");
    reveal_strlit("types");
    reveal_strlit("supertypes");
    reveal_strlit("subtypes");
    reveal_strlit("rarities");
    assert("cards"@.len() == 5 && "sets"@.len() == 4 && "types"@.len() == 5 && "supertypes"@.len()
        == 10 && "subtypes"@.len() == 8 && "rarities"@.len() == 8);
    assert("cards"@[0] == 'c' && "types"@[0] == 't');
    assert("cards"@ != "types"@);
}

/// Law: when the transport returns a well-formed single-resource envelope
/// whose payload carries the requested identifier, a lookup yields that
/// payload, identifier intact.
pub proof fn lemma_find_returns_requested(
    body: Seq<char>,
    fields: Seq<(Seq<char>, Seq<char>)>,
    id: Seq<char>,
)
    requires
        crate::envelope::single_doc(body) matches Some(d) && crate::kv::assoc_lookup(d, "data"@)
            == Some(fields),
        crate::kv::assoc_lookup(fields, "id"@) == Some(id),
    ensures
        spec_find_outcome(Some(body)) matches Some(rec) && crate::kv::assoc_lookup(rec, "id"@)
            == Some(id),
{
}

/// Law: a collection fetch whose one request fails at the transport layer
/// yields the empty sequence — the failure surfaces as no error.
pub proof fn lemma_collection_failure_is_empty()
    ensures
        spec_collection_records(None) == Seq::<Seq<(Seq<char>, Seq<char>)>>::empty(),
        spec_collection_names(None) == Seq::<Seq<char>>::empty(),
{
}

/// Law: a record-collection fetch whose one request comes back as a
/// well-formed multi-item envelope yields exactly the envelope's items,
/// element for element, in wire order.
pub proof fn lemma_record_page_is_kept(body: Seq<char>, items: Seq<Seq<(Seq<char>, Seq<char>)>>)
    requires
        spec_record_items(body) == Some(items),
    ensures
        spec_collection_records(Some(body)) == items,
{
}

/// Law: a name-collection fetch whose one request comes back as a
/// well-formed multi-item envelope yields exactly the envelope's items,
/// element for element, in wire order.
pub proof fn lemma_name_page_is_kept(body: Seq<char>, items: Seq<Seq<char>>)
    requires
        spec_name_items(body) == Some(items),
    ensures
        spec_collection_names(Some(body)) == items,
{
}

} // verus!
