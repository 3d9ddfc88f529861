use topgg::webhook::{parse_query_string, str_eq, vote_type_is_test, webhook, _true};
use topgg::{IncomingVote, QueryMap, Vote};

fn vote() -> Vote {
    Vote {
        receiver_id: 1,
        voter_id: 2,
        is_server: false,
        is_test: false,
        is_weekend: false,
        query: QueryMap::new(),
    }
}

#[test]
fn query_string_parses_plain_pairs() {
    let m = parse_query_string("a=1&b=2");
    assert_eq!(m.get("a"), Some("1".to_string()));
    assert_eq!(m.get("b"), Some("2".to_string()));
    assert_eq!(m.get("c"), None);
}

#[test]
fn query_string_values_are_percent_decoded() {
    // The value would stay "x%20y" if the decoder handed it back unchanged.
    let m = parse_query_string("greeting=hello%20there");
    assert_eq!(m.get("greeting"), Some("hello there".to_string()));
}

#[test]
fn query_string_duplicate_keys_keep_the_last_value() {
    let m = parse_query_string("k=1&k=2&k=3");
    assert_eq!(m.get("k"), Some("3".to_string()));
}

#[test]
fn query_string_skips_segments_without_a_separator() {
    let m = parse_query_string("plain&k=v");
    assert_eq!(m.get("plain"), None);
    assert_eq!(m.get("k"), Some("v".to_string()));
}

#[test]
fn query_string_value_stops_at_the_second_separator() {
    let m = parse_query_string("a=b=c");
    assert_eq!(m.get("a"), Some("b".to_string()));
}

#[test]
fn query_string_empty_value_is_kept() {
    let m = parse_query_string("a=");
    assert_eq!(m.get("a"), Some(String::new()));
}

#[test]
fn query_map_insert_overrides() {
    let mut m = QueryMap::new();
    m.insert("k".to_string(), "1".to_string());
    m.insert("k".to_string(), "2".to_string());
    m.insert("other".to_string(), "x".to_string());
    assert_eq!(m.get("k"), Some("2".to_string()));
    assert_eq!(m.get("other"), Some("x".to_string()));
}

#[test]
fn string_equality_compares_contents() {
    assert!(str_eq("abc", "abc"));
    assert!(!str_eq("abc", "abd"));
    assert!(!str_eq("abc", "abcd"));
    assert!(str_eq("", ""));
}

#[test]
fn vote_type_test_is_recognised() {
    assert!(vote_type_is_test("test"));
    assert!(!vote_type_is_test("upvote"));
}

#[test]
fn default_server_flag_is_true() {
    assert!(_true());
}

#[test]
fn authenticate_matches_the_password() {
    let incoming = IncomingVote { authorization: "SECRET-REDACTED".to_string(), vote: vote() };
    let out = incoming.authenticate("SECRET-REDACTED");
    assert!(out.is_some());
    assert_eq!(out.unwrap().voter_id, 2);
}

#[test]
fn authenticate_rejects_a_wrong_password() {
    let incoming = IncomingVote { authorization: "guess".to_string(), vote: vote() };
    assert!(incoming.authenticate("SECRET-REDACTED").is_none());
}

#[test]
fn webhook_accepts_only_a_full_authorized_request() {
    let accepted = webhook("pw", Some("pw"), Some(vote()));
    assert!(accepted.is_some());
    assert!(webhook("pw", Some("wrong"), Some(vote())).is_none());
    assert!(webhook("pw", None, Some(vote())).is_none());
    assert!(webhook("pw", Some("pw"), None).is_none());
}
