use did_cheqd::error::DidCheqdError;
use did_cheqd::resolution::parser::{parse_query_string, DidCheqdParser, DEFAULT_NAMESPACE};
use did_cheqd::resolution::query::QueryMap;

#[test]
fn parse_basic_did_with_namespace() {
    let s = "did:cheqd:mainnet:abcd123";
    let p = DidCheqdParser::parse(s).unwrap();
    assert_eq!(p.did, "did:cheqd:mainnet:abcd123".to_string());
    assert_eq!(p.namespace, "mainnet".to_string());
    assert_eq!(p.id, "abcd123".to_string());
    assert!(p.version.is_none());
    assert!(p.query.is_none());
}

#[test]
fn parse_basic_did_without_namespace() {
    let s = "did:cheqd:abcd123";
    let p = DidCheqdParser::parse(s).unwrap();
    assert_eq!(p.did, "did:cheqd:mainnet:abcd123".to_string());
    assert_eq!(p.namespace, "mainnet".to_string());
    assert_eq!(p.id, "abcd123".to_string());
}

#[test]
fn parse_resource_path() {
    let s = "did:cheqd:mainnet:abcd123/resources/r1";
    let p = DidCheqdParser::parse(s).unwrap();
    assert_eq!(p.did, "did:cheqd:mainnet:abcd123".to_string());
    assert_eq!(p.namespace, "mainnet".to_string());
    assert_eq!(p.id, "abcd123".to_string());
    // resource id should be injected into the query map as `resourceId`
    let q = p.query.unwrap();
    assert_eq!(q.get("resourceId").map(String::as_str), Some("r1"));
    assert!(p.version.is_none());
}

#[test]
fn parse_versions_path() {
    let s = "did:cheqd:mainnet:abcd123/versions/v1";
    let p = DidCheqdParser::parse(s).unwrap();
    assert_eq!(p.did, "did:cheqd:mainnet:abcd123".to_string());
    assert_eq!(p.namespace, "mainnet".to_string());
    assert_eq!(p.id, "abcd123".to_string());
    assert_eq!(p.version, Some("v1".to_string()));
}

#[test]
fn parse_query_params() {
    let s = "did:cheqd:mainnet:abcd123?resourceName=foo&resourceType=bar&foo=bar";
    let p = DidCheqdParser::parse(s).unwrap();
    assert_eq!(p.namespace, "mainnet".to_string());
    assert_eq!(p.id, "abcd123".to_string());
    let q = p.query.unwrap();
    assert_eq!(q.get("resourceName").map(String::as_str), Some("foo"));
    assert_eq!(q.get("resourceType").map(String::as_str), Some("bar"));
    assert_eq!(q.get("foo").map(String::as_str), Some("bar"));
}

#[test]
fn parse_without_namespace_but_with_query() {
    let s = "did:cheqd:abcd123?resourceName=foo";
    let p = DidCheqdParser::parse(s).unwrap();
    assert_eq!(p.namespace, "mainnet".to_string());
    assert_eq!(p.id, "abcd123".to_string());
    let q = p.query.unwrap();
    assert_eq!(q.get("resourceName").map(String::as_str), Some("foo"));
}

#[test]
fn parse_malformed_not_cheqd() {
    let s = "did:xyz:abc";
    let e = DidCheqdParser::parse(s).unwrap_err();
    let es = e.to_string();
    assert!(es.contains("not a did:cheqd"));
}

#[test]
fn parse_version_from_query() {
    let s = "did:cheqd:mainnet:abcd123?resourceName=foo&versionId=v42";
    let p = DidCheqdParser::parse(s).unwrap();
    assert_eq!(p.version, Some("v42".to_string()));
    let q = p.query.unwrap();
    // versionId remains present in the query map
    assert_eq!(q.get("versionId").map(String::as_str), Some("v42"));
}

#[test]
fn parse_invalid_path_param() {
    let s = "did:cheqd:mainnet:f5a28137-5cfa-486f-bf88-3fbe6507eac5/invalid/r1";
    let e = DidCheqdParser::parse(s).unwrap_err();
    let es = e.to_string();
    assert!(es.contains("unsupported path segment"));
}

#[test]
fn default_namespace_is_mainnet() {
    assert_eq!(DEFAULT_NAMESPACE, "mainnet");
}

#[test]
fn parse_minimal_input() {
    let p = DidCheqdParser::parse("did:cheqd:x").unwrap();
    assert_eq!(p.did, "did:cheqd:mainnet:x");
    assert_eq!(p.namespace, "mainnet");
    assert_eq!(p.id, "x");
    assert!(p.query.is_none());
    assert!(p.version.is_none());
}

#[test]
fn parse_keeps_given_namespace() {
    let p = DidCheqdParser::parse("did:cheqd:testnet:zF7rhDBfUt9d1gJPjx7s1J").unwrap();
    assert_eq!(p.namespace, "testnet");
    assert_eq!(p.id, "zF7rhDBfUt9d1gJPjx7s1J");
    assert_eq!(p.did, "did:cheqd:testnet:zF7rhDBfUt9d1gJPjx7s1J");
}

#[test]
fn parse_splits_namespace_at_first_colon() {
    let p = DidCheqdParser::parse("did:cheqd:a:b:c").unwrap();
    assert_eq!(p.namespace, "a");
    assert_eq!(p.id, "b:c");
    assert_eq!(p.did, "did:cheqd:a:b:c");
}

#[test]
fn parse_empty_namespace_and_id() {
    let p = DidCheqdParser::parse("did:cheqd:").unwrap();
    assert_eq!(p.namespace, "mainnet");
    assert_eq!(p.id, "");
    assert_eq!(p.did, "did:cheqd:mainnet:");
    let p = DidCheqdParser::parse("did:cheqd::abc").unwrap();
    assert_eq!(p.namespace, "");
    assert_eq!(p.id, "abc");
}

#[test]
fn parse_resource_path_sets_no_version() {
    let p = DidCheqdParser::parse("did:cheqd:testnet:id1/resources/R").unwrap();
    let q = p.query.unwrap();
    assert_eq!(q.len(), 1);
    assert_eq!(q.get("resourceId").map(String::as_str), Some("R"));
    assert_eq!(p.version, None);
}

#[test]
fn parse_versions_path_adds_no_query() {
    let p = DidCheqdParser::parse("did:cheqd:testnet:id1/versions/V").unwrap();
    assert_eq!(p.version, Some("V".to_string()));
    assert!(p.query.is_none());
}

#[test]
fn parse_query_version_overrides_path_version() {
    let p = DidCheqdParser::parse("did:cheqd:testnet:id1/versions/V1?versionId=V2").unwrap();
    assert_eq!(p.version, Some("V2".to_string()));
    assert_eq!(p.did, "did:cheqd:testnet:id1");
    let q = p.query.unwrap();
    assert_eq!(q.get("versionId").map(String::as_str), Some("V2"));
    assert_eq!(q.len(), 1);
}

#[test]
fn parse_resource_path_joins_query() {
    let p = DidCheqdParser::parse("did:cheqd:testnet:id1/resources/r9?a=b&versionId=v7").unwrap();
    let q = p.query.unwrap();
    assert_eq!(q.len(), 3);
    assert_eq!(q.get("resourceId").map(String::as_str), Some("r9"));
    assert_eq!(q.get("a").map(String::as_str), Some("b"));
    assert_eq!(p.version, Some("v7".to_string()));
}

#[test]
fn parse_resource_path_overrides_resource_id_of_query() {
    let p = DidCheqdParser::parse("did:cheqd:testnet:id1/resources/fromPath?resourceId=fromQuery")
        .unwrap();
    let q = p.query.unwrap();
    assert_eq!(q.get("resourceId").map(String::as_str), Some("fromPath"));
}

#[test]
fn parse_other_method_is_method_mismatch() {
    let e = DidCheqdParser::parse("did:xyz:abc").unwrap_err();
    assert_eq!(
        e,
        DidCheqdError::MethodMismatch("not a did:cheqd string: did:xyz:abc".to_string())
    );
    assert_eq!(
        e.to_string(),
        "DID method not supported: not a did:cheqd string: did:xyz:abc"
    );
    assert!(matches!(
        DidCheqdParser::parse(""),
        Err(DidCheqdError::MethodMismatch(_))
    ));
    assert!(matches!(
        DidCheqdParser::parse("did:cheqd"),
        Err(DidCheqdError::MethodMismatch(_))
    ));
    assert!(matches!(
        DidCheqdParser::parse("DID:CHEQD:mainnet:abc"),
        Err(DidCheqdError::MethodMismatch(_))
    ));
}

#[test]
fn parse_unknown_kind_is_unsupported_path_segment() {
    let e = DidCheqdParser::parse("did:cheqd:mainnet:abc/invalid/r1").unwrap_err();
    assert_eq!(
        e,
        DidCheqdError::UnsupportedPathSegment(
            "unsupported path segment; only `resources` and `versions` are accepted".to_string()
        )
    );
    assert!(matches!(
        DidCheqdParser::parse("did:cheqd:mainnet:abc/resource/r1?versionId=1"),
        Err(DidCheqdError::UnsupportedPathSegment(_))
    ));
    assert!(matches!(
        DidCheqdParser::parse("did:cheqd:mainnet:abc/Versions/r1"),
        Err(DidCheqdError::UnsupportedPathSegment(_))
    ));
}

#[test]
fn parse_path_of_other_than_two_segments_is_malformed() {
    let e = DidCheqdParser::parse("did:cheqd:mainnet:abc/resources").unwrap_err();
    assert_eq!(
        e,
        DidCheqdError::MalformedPath(
            "unsupported path format; expected /resources/<id> or /versions/<id>".to_string()
        )
    );
    for s in [
        "did:cheqd:mainnet:abc/",
        "did:cheqd:mainnet:abc/resources/",
        "did:cheqd:mainnet:abc//r1",
        "did:cheqd:mainnet:abc/resources/r1/extra",
        "did:cheqd:mainnet:abc/resources/r1/",
        "did:cheqd:mainnet:abc//resources/r1",
        "did:cheqd:mainnet:abc/invalid",
        "did:cheqd:mainnet:abc/invalid/a/b",
        "did:cheqd:mainnet:abc/versions?versionId=1",
    ] {
        assert!(
            matches!(DidCheqdParser::parse(s), Err(DidCheqdError::MalformedPath(_))),
            "{}",
            s
        );
    }
}

#[test]
fn parse_query_may_hold_slash_and_question_mark() {
    let p = DidCheqdParser::parse("did:cheqd:mainnet:abc?a=x/y&b=1?2").unwrap();
    assert_eq!(p.id, "abc");
    let q = p.query.unwrap();
    assert_eq!(q.get("a").map(String::as_str), Some("x/y"));
    assert_eq!(q.get("b").map(String::as_str), Some("1?2"));
    assert!(p.version.is_none());
}

#[test]
fn parse_empty_query_is_an_empty_mapping() {
    let p = DidCheqdParser::parse("did:cheqd:mainnet:abc?").unwrap();
    let q = p.query.unwrap();
    assert!(q.is_empty());
    assert_eq!(q.len(), 0);
}

#[test]
fn parse_handles_characters_beyond_ascii() {
    let p = DidCheqdParser::parse("did:cheqd:r\u{e9}seau:\u{fc}ber/resources/\u{4e2d}\u{6587}?n\u{e4}me=w\u{e9}rt")
        .unwrap();
    assert_eq!(p.namespace, "r\u{e9}seau");
    assert_eq!(p.id, "\u{fc}ber");
    assert_eq!(p.did, "did:cheqd:r\u{e9}seau:\u{fc}ber");
    let q = p.query.unwrap();
    assert_eq!(q.get("resourceId").map(String::as_str), Some("\u{4e2d}\u{6587}"));
    assert_eq!(q.get("n\u{e4}me").map(String::as_str), Some("w\u{e9}rt"));
}

#[test]
fn query_string_last_occurrence_wins() {
    let q = parse_query_string("a=1&b=2&a=3");
    assert_eq!(q.len(), 2);
    assert_eq!(q.get("a").map(String::as_str), Some("3"));
    assert_eq!(q.get("b").map(String::as_str), Some("2"));
}

#[test]
fn query_string_drops_pieces_without_equals_sign() {
    let q = parse_query_string("flag&a=1&&other");
    assert_eq!(q.len(), 1);
    assert_eq!(q.get("a").map(String::as_str), Some("1"));
    assert!(q.get("flag").is_none());
    assert!(!q.contains_key("other"));
}

#[test]
fn query_string_splits_at_first_equals_sign() {
    let q = parse_query_string("a=b=c&=v&k=");
    assert_eq!(q.get("a").map(String::as_str), Some("b=c"));
    assert_eq!(q.get("").map(String::as_str), Some("v"));
    assert_eq!(q.get("k").map(String::as_str), Some(""));
    assert_eq!(q.len(), 3);
}

#[test]
fn query_string_of_nothing_is_empty() {
    let q = parse_query_string("");
    assert!(q.is_empty());
}

#[test]
fn query_map_insert_and_get() {
    let mut q = QueryMap::new();
    assert!(q.is_empty());
    q.insert("k".to_string(), "v1".to_string());
    q.insert("other".to_string(), "x".to_string());
    q.insert("k".to_string(), "v2".to_string());
    assert_eq!(q.len(), 2);
    assert_eq!(q.get("k").map(String::as_str), Some("v2"));
    assert!(q.contains_key("other"));
    assert!(!q.contains_key("missing"));
    assert_eq!(q.get("missing"), None);
}

#[test]
fn query_map_equality_ignores_order() {
    let a = parse_query_string("x=1&y=2");
    let b = parse_query_string("y=2&x=1");
    let c = parse_query_string("y=2&x=3");
    let d = parse_query_string("y=2");
    assert!(a == b);
    assert!(a != c);
    assert!(a != d);
    assert!(a.clone() == a);
}

#[test]
fn parsed_identifiers_compare_by_their_parts() {
    let a = DidCheqdParser::parse("did:cheqd:abc?x=1&y=2").unwrap();
    let b = DidCheqdParser::parse("did:cheqd:mainnet:abc?y=2&x=1").unwrap();
    let c = DidCheqdParser::parse("did:cheqd:testnet:abc?y=2&x=1").unwrap();
    assert_eq!(a, b);
    assert_ne!(a, c);
}
