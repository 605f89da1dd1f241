//! The query engine against a stub transport: a test plans a request, plays
//! the server's body back into the receiving step, and checks what comes out.

use tcg_client::client::{Client, Query};
use tcg_client::errors::Error;
use tcg_client::ResourceKind;

const KEY: &str = "test-api-key";

#[test]
fn test_find_card_by_id() {
    let api = Client::new(KEY.to_string());
    let req = api.find_request(ResourceKind::Cards, "xy1-1").expect("cards have an id endpoint");
    assert_eq!(req.url, "https://api.pokemontcg.io/v2/cards/xy1-1");
    let body = r#"{"data":{"id":"xy1-1","name":"Venusaur-EX","hp":"180"}}"#;
    let card = api.find_receive(Some(body)).unwrap();
    assert!(card.field("id").unwrap().as_str() == "xy1-1");
}

#[test]
fn test_find_set_by_id() {
    let api = Client::new(KEY.to_string());
    let req = api.find_request(ResourceKind::Sets, "xy1").expect("sets have an id endpoint");
    assert_eq!(req.url, "https://api.pokemontcg.io/v2/sets/xy1");
    let body = r#"{"data":{"id":"xy1","name":"XY","series":"XY"}}"#;
    let set = api.find_receive(Some(body)).unwrap();
    assert!(set.field("id").unwrap().as_str() == "xy1");
    assert!(set.field("name").unwrap().as_str() == "XY");
}

#[test]
fn test_fetch_all_types() {
    let mut api = Client::new(KEY.to_string());
    let req = api.all_request(ResourceKind::Types);
    assert_eq!(req.url, "https://api.pokemontcg.io/v2/types");
    let body = r#"{"data":["Colorless","Darkness","Dragon","Fairy","Fighting","Fire","Grass","Lightning","Metal","Psychic","Water"]}"#;
    let expected = vec![
        "Colorless", "Darkness", "Dragon", "Fairy", "Fighting", "Fire", "Grass", "Lightning",
        "Metal", "Psychic", "Water",
    ];
    let types = api.all_receive_names(Some(body));
    assert!(types.len() == expected.len());
    assert!(types.contains(&"Colorless".to_string()) == types.contains(&"Colorless".to_string()));
}

#[test]
fn test_fetch_all_subtypes() {
    let mut api = Client::new(KEY.to_string());
    let body = r#"{"data":["BREAK","Baby","Basic","EX","GX","Item","Stadium","Supporter"]}"#;
    let expected = vec![
        "BREAK".to_string(),
        "Baby".to_string(),
        "Basic".to_string(),
        "EX".to_string(),
        "GX".to_string(),
        "Item".to_string(),
        "Stadium".to_string(),
        "Supporter".to_string(),
    ];
    let types = api.all_receive_names(Some(body));
    assert!(types.len() == expected.len());
    assert!(types.contains(&"Item".to_string()) == expected.contains(&"Item".to_string()));
    assert!(types.contains(&"Supporter".to_string()) == expected.contains(&"Item".to_string()));
}

#[test]
fn test_fetch_all_supertypes() {
    let mut api = Client::new(KEY.to_string());
    let body = r#"{"data":["Energy","Pokémon","Trainer"]}"#;
    let expected = vec!["Energy".to_string(), "Pokémon".to_string(), "Trainer".to_string()];
    let types = api.all_receive_names(Some(body));
    assert!(types.len() == expected.len());
    assert!(types.contains(&"Trainer".to_string()));
}

#[test]
fn test_no_find_by_id_on_types() {
    let api = Client::new(KEY.to_string());
    let types = api.find_request(ResourceKind::Types, "Colorless");
    assert!(types.is_none());
}

#[test]
fn test_no_find_by_id_on_subtypes() {
    let api = Client::new(KEY.to_string());
    let subtypes = api.find_request(ResourceKind::Subtypes, "Supporter");
    assert!(subtypes.is_none());
}

#[test]
fn test_no_find_by_id_on_supertypes() {
    let api = Client::new(KEY.to_string());
    let supertypes = api.find_request(ResourceKind::Supertypes, "Trainer");
    assert!(supertypes.is_none());
}

#[test]
fn test_no_find_by_id_on_rarities() {
    let api = Client::new(KEY.to_string());
    let rarities = api.find_request(ResourceKind::Rarities, "Rare");
    assert!(rarities.is_none());
}

#[test]
fn empty_args_means_no_query_string() {
    let api = Client::new(KEY.to_string());
    let req = api.all_request(ResourceKind::Cards);
    assert!(req.query.is_empty());
}

#[test]
fn where_sets_query_and_fetch_clears_it() {
    let mut api = Client::new(KEY.to_string());
    api._where(vec![("q".to_string(), "name:charizard".to_string())]);
    let req = api.all_request(ResourceKind::Cards);
    assert_eq!(req.query, vec![("q".to_string(), "name:charizard".to_string())]);
    let _ = api.all_receive_records(Some(r#"{"data":[]}"#));
    // a second, unrelated fetch carries no leftover filter
    let req2 = api.all_request(ResourceKind::Cards);
    assert!(req2.query.is_empty());
}

#[test]
fn transport_failure_yields_empty_not_error() {
    let mut api = Client::new(KEY.to_string());
    api._where(vec![("q".to_string(), "name:mew".to_string())]);
    let got = api.all_receive_records(None);
    assert!(got.is_empty());
    let names = api.all_receive_names(None);
    assert!(names.is_empty());
}

#[test]
fn undecodable_body_yields_empty() {
    let mut api = Client::new(KEY.to_string());
    let got = api.all_receive_records(Some("not json at all"));
    assert!(got.is_empty());
    // an envelope without the data key fails the decode as well
    let got2 = api.all_receive_records(Some(r#"{"payload":[]}"#));
    assert!(got2.is_empty());
}

#[test]
fn single_page_items_come_back_in_order() {
    let mut api = Client::new(KEY.to_string());
    let body = r#"{"data":[{"id":"a-1","name":"First"},{"id":"a-2","name":"Second"},{"id":"a-3","name":"Third"}]}"#;
    let got = api.all_receive_records(Some(body));
    assert_eq!(got.len(), 3);
    assert_eq!(got[0].field("id").unwrap().as_str(), "a-1");
    assert_eq!(got[1].field("id").unwrap().as_str(), "a-2");
    assert_eq!(got[2].field("id").unwrap().as_str(), "a-3");
}

#[test]
fn multi_envelope_round_trip_field_for_field() {
    let mut api = Client::new(KEY.to_string());
    let body = r#"{"data":[{"id":"xy1-1","name":"Venusaur-EX"},{"id":"xy1-2","name":"M Venusaur-EX"}]}"#;
    let got = api.all_receive_records(Some(body));
    assert_eq!(got.len(), 2);
    // field-for-field, keys in wire order (objects decode with sorted keys)
    assert_eq!(
        got[0].fields,
        vec![
            ("id".to_string(), "xy1-1".to_string()),
            ("name".to_string(), "Venusaur-EX".to_string()),
        ]
    );
    assert_eq!(
        got[1].fields,
        vec![
            ("id".to_string(), "xy1-2".to_string()),
            ("name".to_string(), "M Venusaur-EX".to_string()),
        ]
    );
}

#[test]
fn find_scenario_returns_requested_card() {
    let api = Client::new(KEY.to_string());
    let req = api.find_request(ResourceKind::Cards, "xy1-1").unwrap();
    assert_eq!(req.url, "https://api.pokemontcg.io/v2/cards/xy1-1");
    assert_eq!(req.api_key, KEY);
    assert_eq!(req.user_agent, "Mozilla/5.0");
    let found = api.find_receive(Some(r#"{"data":{"id":"xy1-1","name":"Test"}}"#));
    let card = found.expect("a well-formed envelope decodes");
    assert_eq!(card.field("id").unwrap().as_str(), "xy1-1");
    assert_eq!(card.field("name").unwrap().as_str(), "Test");
}

#[test]
fn find_failure_collapses_to_none() {
    let api = Client::new(KEY.to_string());
    assert!(api.find_receive(None).is_none());
    assert!(api.find_receive(Some("oops")).is_none());
    assert!(api.find_receive(Some(r#"{"other":{"id":"x"}}"#)).is_none());
}

#[test]
fn invalid_argument_error_carries_the_text() {
    let e = Error::from("page");
    match e {
        Error::InvalidArgument { arg } => assert_eq!(arg, "page"),
        _ => panic!("expected the invalid-argument variant"),
    }
}

#[test]
fn record_field_lookup_misses_absent_names() {
    let api = Client::new(KEY.to_string());
    let card = api.find_receive(Some(r#"{"data":{"id":"xy1-1"}}"#)).unwrap();
    assert!(card.field("name").is_none());
}

#[test]
fn query_preserves_argument_order() {
    let mut api = Client::new(KEY.to_string());
    api._where(vec![
        ("q".to_string(), "name:mew".to_string()),
        ("page".to_string(), "2".to_string()),
    ]);
    let req = api.all_request(ResourceKind::Cards);
    assert_eq!(
        req.query,
        vec![("q".to_string(), "name:mew".to_string()), ("page".to_string(), "2".to_string())]
    );
}

#[test]
fn empty_page_yields_empty() {
    let mut api = Client::new(KEY.to_string());
    let names = api.all_receive_names(Some(r#"{"data":[]}"#));
    assert!(names.is_empty());
    let records = api.all_receive_records(Some(r#"{"data":[]}"#));
    assert!(records.is_empty());
}
