use did_cheqd::error::DidCheqdError;
use did_cheqd::text::{
    decimal_string, find_from, joined, split_once, starts_with, str_eq, to_chars,
};
use did_cheqd::{DIDCheqd, Target, DID_METHOD_NAME};

#[test]
fn decimal_of_numbers() {
    assert_eq!(decimal_string(0), "0");
    assert_eq!(decimal_string(7), "7");
    assert_eq!(decimal_string(10), "10");
    assert_eq!(decimal_string(-5), "-5");
    assert_eq!(decimal_string(1_234_567_890), "1234567890");
    assert_eq!(decimal_string(-1_000), "-1000");
    assert_eq!(decimal_string(i64::MAX), "9223372036854775807");
    assert_eq!(decimal_string(i64::MIN), "-9223372036854775808");
    for n in [-101i64, -100, -99, -11, -10, -9, -1, 1, 9, 11, 99, 100, 101, 909, 1_000_000] {
        assert_eq!(decimal_string(n), n.to_string());
    }
}

#[test]
fn split_once_at_first_occurrence() {
    assert_eq!(split_once("a=b=c", '='), Some(("a", "b=c")));
    assert_eq!(split_once("=b", '='), Some(("", "b")));
    assert_eq!(split_once("a=", '='), Some(("a", "")));
    assert_eq!(split_once("abc", '='), None);
    assert_eq!(split_once("", '='), None);
    assert_eq!(split_once("\u{e9}\u{4e2d}/\u{fc}", '/'), Some(("\u{e9}\u{4e2d}", "\u{fc}")));
}

#[test]
fn starts_with_and_equality() {
    assert!(starts_with("did:cheqd:abc", "did:cheqd:"));
    assert!(starts_with("did:cheqd:", "did:cheqd:"));
    assert!(starts_with("anything", ""));
    assert!(!starts_with("did:cheq", "did:cheqd:"));
    assert!(!starts_with("did:cheqx:abc", "did:cheqd:"));
    assert!(str_eq("", ""));
    assert!(str_eq("\u{e9}t\u{e9}", "\u{e9}t\u{e9}"));
    assert!(!str_eq("abc", "abd"));
    assert!(!str_eq("abc", "ab"));
}

#[test]
fn characters_and_positions() {
    let chars = to_chars("a\u{e9}?b?");
    assert_eq!(chars, vec!['a', '\u{e9}', '?', 'b', '?']);
    assert_eq!(find_from(&chars, 0, '?'), 2);
    assert_eq!(find_from(&chars, 2, '?'), 2);
    assert_eq!(find_from(&chars, 3, '?'), 4);
    assert_eq!(find_from(&chars, 5, '?'), 5);
    assert_eq!(find_from(&chars, 0, 'z'), 5);
    assert_eq!(find_from(&chars, 9, '?'), 5);
    assert_eq!(joined("ab", "cd"), "abcd");
    assert_eq!(joined("", ""), "");
}

#[test]
fn errors_as_text() {
    let cases = [
        (DidCheqdError::MethodMismatch("m".into()), "DID method not supported: m"),
        (DidCheqdError::MalformedPath("m".into()), "Invalid DID Url: m"),
        (DidCheqdError::UnsupportedPathSegment("m".into()), "Invalid DID Url: m"),
        (DidCheqdError::InvalidDidUrl("m".into()), "Invalid DID Url: m"),
        (DidCheqdError::NetworkNotSupported("m".into()), "Cheqd network not supported: m"),
        (DidCheqdError::BadConfiguration("m".into()), "Bad configuration: m"),
        (DidCheqdError::TransportError("m".into()), "Transport error: m"),
        (DidCheqdError::NonSuccessResponse("m".into()), "Non-success resolver response: m"),
        (DidCheqdError::InvalidResponse("m".into()), "Response from resolver is invalid: m"),
        (DidCheqdError::ResourceNotFound("m".into()), "Resource could not be found: m"),
        (
            DidCheqdError::InvalidDidDocument("m".into()),
            "Invalid DID Document structure resolved: m",
        ),
        (DidCheqdError::Other("m".into()), "m"),
    ];
    for (error, line) in cases {
        assert_eq!(error.to_string(), line);
    }
}

#[test]
fn method_name_and_construction() {
    assert_eq!(DID_METHOD_NAME, "cheqd");
    assert_eq!(DIDCheqd::new(), DIDCheqd::default());
}

#[test]
fn identifier_with_slash_or_question_mark_is_a_resource() {
    assert_eq!(DIDCheqd::target_of("testnet:abc"), Target::Document);
    assert_eq!(DIDCheqd::target_of("abc"), Target::Document);
    assert_eq!(DIDCheqd::target_of(""), Target::Document);
    assert_eq!(DIDCheqd::target_of("testnet:abc/resources/r"), Target::Resource);
    assert_eq!(DIDCheqd::target_of("testnet:abc/versions/v"), Target::Resource);
    assert_eq!(DIDCheqd::target_of("testnet:abc?resourceName=n"), Target::Resource);
    assert_eq!(DIDCheqd::target_of("testnet:abc?"), Target::Resource);
    assert_eq!(DIDCheqd::target_of("/"), Target::Resource);
    assert_eq!(DIDCheqd::did_of("testnet:abc"), "did:cheqd:testnet:abc");
}
