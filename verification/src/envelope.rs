//! The two wire envelopes the catalog API wraps every response in, and their
//! decoding.
//!
//! A single-resource response is the JSON object `{"data": <payload>}`; a
//! collection response is `{"data": [<payload>, ...]}`. Payloads are either
//! objects with string-valued fields (cards, sets) or bare strings (types,
//! supertypes, subtypes, rarities). JSON parsing itself is the serialization
//! library's work; the envelope rule — the payload sits under the `data`
//! key — is decided here, in verified code.

use vstd::prelude::*;

use crate::kv::{assoc_lookup, assoc_get, clone_pairs};
use crate::record::Record;

verus! {

/// What the JSON parser yields for text in the single-resource shape:
/// an object whose fields are objects with string-valued fields, or nothing.
pub uninterp spec fn single_doc(s: Seq<char>) -> Option<
    Seq<(Seq<char>, Seq<(Seq<char>, Seq<char>)>)>,
>;

/// What the JSON parser yields for text in the record-collection shape:
/// an object whose fields are arrays of objects with string-valued fields.
pub uninterp spec fn record_list_doc(s: Seq<char>) -> Option<
    Seq<(Seq<char>, Seq<Seq<(Seq<char>, Seq<char>)>>)>,
>;

/// What the JSON parser yields for text in the name-collection shape:
/// an object whose fields are arrays of strings.
pub uninterp spec fn name_list_doc(s: Seq<char>) -> Option<Seq<(Seq<char>, Seq<Seq<char>>)>>;

/// Relies on `serde_json::from_str`: decodes JSON text as a map from strings
/// to maps from strings to strings, or fails; the result depends on the text
/// alone, and the pairs come out ordered by key.
#[verifier::external_body]
fn parse_single_doc(body: &str) -> (r: Option<Vec<(String, Vec<(String, String)>)>>)
    ensures
        (r is Some) == (single_doc(body@) is Some),
        r matches Some(d) ==> single_doc(body@) == Some(d.deep_view()),
{
    let parsed: Result<
        std::collections::BTreeMap<String, std::collections::BTreeMap<String, String>>,
        serde_json::Error,
    > = serde_json::from_str(body);
    match parsed {
        Ok(m) => Some(m.into_iter().map(|(k, v)| (k, v.into_iter().collect())).collect()),
        Err(_) => None,
    }
}

/// Relies on `serde_json::from_str`: decodes JSON text as a map from strings
/// to arrays of maps from strings to strings, or fails; the result depends on
/// the text alone, and the pairs come out ordered by key.
#[verifier::external_body]
fn parse_record_list_doc(body: &str) -> (r: Option<Vec<(String, Vec<Vec<(String, String)>>)>>)
    ensures
        (r is Some) == (record_list_doc(body@) is Some),
        r matches Some(d) ==> record_list_doc(body@) == Some(d.deep_view()),
{
    let parsed: Result<
        std::collections::BTreeMap<String, Vec<std::collections::BTreeMap<String, String>>>,
        serde_json::Error,
    > = serde_json::from_str(body);
    match parsed {
        Ok(m) => Some(
            m.into_iter()
                .map(|(k, v)| (k, v.into_iter().map(|o| o.into_iter().collect()).collect()))
                .collect(),
        ),
        Err(_) => None,
    }
}

/// Relies on `serde_json::from_str`: decodes JSON text as a map from strings
/// to arrays of strings, or fails; the result depends on the text alone, and
/// the pairs come out ordered by key.
#[verifier::external_body]
fn parse_name_list_doc(body: &str) -> (r: Option<Vec<(String, Vec<String>)>>)
    ensures
        (r is Some) == (name_list_doc(body@) is Some),
        r matches Some(d) ==> name_list_doc(body@) == Some(d.deep_view()),
{
    let parsed: Result<
        std::collections::BTreeMap<String, Vec<String>>,
        serde_json::Error,
    > = serde_json::from_str(body);
    match parsed {
        Ok(m) => Some(m.into_iter().collect()),
        Err(_) => None,
    }
}

/// The payload of a single-resource envelope: the fields under the `data`
/// key of a decoded document, if the text decoded at all and carries one.
pub open spec fn spec_single_payload(s: Seq<char>) -> Option<Seq<(Seq<char>, Seq<char>)>> {
    match single_doc(s) {
        None => None,
        Some(d) => assoc_lookup(d, "data"@),
    }
}

/// The items of a record-collection envelope, in wire order, if the text
/// decoded at all and carries a `data` key.
pub open spec fn spec_record_items(s: Seq<char>) -> Option<Seq<Seq<(Seq<char>, Seq<char>)>>> {
    match record_list_doc(s) {
        None => None,
        Some(d) => assoc_lookup(d, "data"@),
    }
}

/// The items of a name-collection envelope, in wire order, if the text
/// decoded at all and carries a `data` key.
pub open spec fn spec_name_items(s: Seq<char>) -> Option<Seq<Seq<char>>> {
    match name_list_doc(s) {
        None => None,
        Some(d) => assoc_lookup(d, "data"@),
    }
}

/// Decodes a single-resource envelope: the record under the `data` key, or
/// nothing when the text is not in that shape.
pub fn decode_single(body: &str) -> (r: Option<Record>)
    ensures
        r.deep_view() == spec_single_payload(body@),
{
    match parse_single_doc(body) {
        None => None,
        Some(d) => match assoc_get(&d, "data") {
            None => None,
            Some(fs) => Some(Record { fields: clone_pairs(fs) }),
        },
    }
}

/// Decodes a record-collection envelope: the records under the `data` key,
/// in wire order, or nothing when the text is not in that shape.
pub fn decode_record_list(body: &str) -> (r: Option<Vec<Record>>)
    ensures
        r.deep_view() == spec_record_items(body@),
{
    match parse_record_list_doc(body) {
        None => None,
        Some(d) => match assoc_get(&d, "data") {
            None => None,
            Some(items) => {
                let mut out: Vec<Record> = Vec::new();
                let mut i: usize = 0;
                while i < items.len()
                    invariant
                        i <= items.len(),
                        out@.len() == i,
                        forall|j: int|
                            0 <= j < i ==> #[trigger] out.deep_view()[j] == items.deep_view()[j],
                    decreases items.len() - i,
                {
                    let ghost prev = out@;
                    let ghost prev_dv = out.deep_view();
                    let rec = Record { fields: clone_pairs(&items[i]) };
                    let ghost grec = rec;
                    proof {
                        assert(grec.deep_view() =~= items@[i as int].deep_view());
                    }
                    out.push(rec);
                    proof {
                        assert forall|j: int| 0 <= j < i + 1 implies #[trigger] out.deep_view()[j]
                            == items.deep_view()[j] by {
                            assert(items.deep_view()[j] == items@[j].deep_view());
                            if j < i as int {
                                assert(out@[j] == prev[j]);
                                assert(out.deep_view()[j] == prev_dv[j]);
                                assert(prev_dv[j] == items.deep_view()[j]);
                            } else {
                                assert(out@[j] == grec);
                            }
                        }
                    }
                    i = i + 1;
                }
                proof {
                    assert(out.deep_view() =~= items.deep_view());
                }
                Some(out)
            },
        },
    }
}

/// Decodes a name-collection envelope: the strings under the `data` key, in
/// wire order, or nothing when the text is not in that shape.
pub fn decode_name_list(body: &str) -> (r: Option<Vec<String>>)
    ensures
        r.deep_view() == spec_name_items(body@),
{
    match parse_name_list_doc(body) {
        None => None,
        Some(d) => match assoc_get(&d, "data") {
            None => None,
            Some(items) => {
                let mut out: Vec<String> = Vec::new();
                let mut i: usize = 0;
                while i < items.len()
                    invariant
                        i <= items.len(),
                        out@.len() == i,
                        forall|j: int|
                            0 <= j < i ==> #[trigger] out.deep_view()[j] == items.deep_view()[j],
                    decreases items.len() - i,
                {
                    let ghost prev = out@;
                    let ghost prev_dv = out.deep_view();
                    let item = items[i].clone();
                    let ghost gitem = item;
                    out.push(item);
                    proof {
                        assert forall|j: int| 0 <= j < i + 1 implies #[trigger] out.deep_view()[j]
                            == items.deep_view()[j] by {
                            assert(items.deep_view()[j] == items@[j].deep_view());
                            if j < i as int {
                                assert(out@[j] == prev[j]);
                                assert(out.deep_view()[j] == prev_dv[j]);
                                assert(prev_dv[j] == items.deep_view()[j]);
                            } else {
                                assert(out@[j] == gitem);
                            }
                        }
                    }
                    i = i + 1;
                }
                proof {
                    assert(out.deep_view() =~= items.deep_view());
                }
                Some(out)
            },
        },
    }
}

} // verus!
