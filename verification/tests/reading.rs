use auth_core::claims::{
    read_audience, read_claims, read_membership, read_memberships, read_metadata, OrgMembership,
};
use auth_core::json::{
    read_optional_text, read_optional_texts, read_optional_unsigned, read_text, read_texts,
    read_unsigned,
};
use auth_core::middleware::bearer_token;
use auth_core::text::{contains_all_texts, contains_text, copy_texts, same_text};
use auth_core::token::read_header;
use serde_json::Value;

fn doc(text: &str) -> Value {
    serde_json::from_str(text).expect("a JSON document")
}

fn texts(items: &[&str]) -> Vec<String> {
    items.iter().map(|s| s.to_string()).collect()
}

#[test]
fn read_text_wants_a_text() {
    let d = doc(r#"{"a":"x","b":1,"c":null,"d":["x"],"e":""}"#);
    assert_eq!(read_text(&d, "a"), Some("x".to_string()));
    assert_eq!(read_text(&d, "e"), Some(String::new()));
    assert_eq!(read_text(&d, "b"), None);
    assert_eq!(read_text(&d, "c"), None);
    assert_eq!(read_text(&d, "d"), None);
    assert_eq!(read_text(&d, "z"), None);
    assert_eq!(read_text(&doc(r#"["a"]"#), "a"), None);
    assert_eq!(read_text(&doc(r#""a""#), "a"), None);
}

#[test]
fn read_optional_text_lets_a_member_be_missing() {
    let d = doc(r#"{"a":"x","b":1,"c":null}"#);
    assert_eq!(read_optional_text(&d, "a"), Some(Some("x".to_string())));
    assert_eq!(read_optional_text(&d, "z"), Some(None));
    assert_eq!(read_optional_text(&d, "b"), None);
    assert_eq!(read_optional_text(&d, "c"), None);
    assert_eq!(read_optional_text(&doc("[]"), "a"), Some(None));
}

#[test]
fn read_unsigned_wants_an_integer_from_zero() {
    let d = doc(
        r#"{"zero":0,"n":1700000000,"max":18446744073709551615,"over":18446744073709551616,"neg":-1,"real":1.5,"whole":2.0,"text":"7"}"#,
    );
    assert_eq!(read_unsigned(&d, "zero"), Some(0));
    assert_eq!(read_unsigned(&d, "n"), Some(1_700_000_000));
    assert_eq!(read_unsigned(&d, "max"), Some(u64::MAX));
    assert_eq!(read_unsigned(&d, "over"), None);
    assert_eq!(read_unsigned(&d, "neg"), None);
    assert_eq!(read_unsigned(&d, "real"), None);
    assert_eq!(read_unsigned(&d, "whole"), None);
    assert_eq!(read_unsigned(&d, "text"), None);
    assert_eq!(read_unsigned(&d, "missing"), None);
}

#[test]
fn read_optional_unsigned_lets_a_member_be_missing() {
    let d = doc(r#"{"n":5,"neg":-1}"#);
    assert_eq!(read_optional_unsigned(&d, "n"), Some(Some(5)));
    assert_eq!(read_optional_unsigned(&d, "missing"), Some(None));
    assert_eq!(read_optional_unsigned(&d, "neg"), None);
}

#[test]
fn read_texts_wants_every_item_to_be_a_text() {
    let items = |text: &str| doc(text).as_array().expect("an array").clone();
    assert_eq!(read_texts(&items(r#"["b","a","b"]"#)), Some(texts(&["b", "a", "b"])));
    assert_eq!(read_texts(&items("[]")), Some(vec![]));
    assert_eq!(read_texts(&items(r#"["a",1]"#)), None);
    assert_eq!(read_texts(&items(r#"[["a"]]"#)), None);
}

#[test]
fn read_optional_texts_reads_a_missing_list_as_empty() {
    let d = doc(r#"{"a":["x","y"],"b":"x","c":[1]}"#);
    assert_eq!(read_optional_texts(&d, "a"), Some(texts(&["x", "y"])));
    assert_eq!(read_optional_texts(&d, "missing"), Some(vec![]));
    assert_eq!(read_optional_texts(&d, "b"), None);
    assert_eq!(read_optional_texts(&d, "c"), None);
}

#[test]
fn read_membership_takes_the_id_from_the_entry() {
    let d = doc(
        r#"{"org_id":"inner","org_name":"Acme","user_role":"admin","inherited_user_roles_plus_current_role":["admin","member"],"user_permissions":["read"],"url_safe_org_name":"acme"}"#,
    );
    assert_eq!(
        read_membership("org_a", &d),
        Some(OrgMembership {
            org_id: "org_a".to_string(),
            org_name: "Acme".to_string(),
            role: "admin".to_string(),
            inherited_roles: texts(&["admin", "member"]),
            permissions: texts(&["read"]),
        })
    );
    assert_eq!(read_membership("org_a", &doc(r#"{"org_name":"Acme"}"#)), None);
    assert_eq!(read_membership("org_a", &doc(r#""Acme""#)), None);
}

#[test]
fn read_memberships_follows_the_map() {
    let d = doc(
        r#"{"org_id_to_org_member_info":{"a":{"org_name":"A","user_role":"x"},"b":{"org_name":"B","user_role":"y"}}}"#,
    );
    let list = read_memberships(&d).expect("memberships");
    let ids: Vec<&str> = list.iter().map(|m| m.org_id.as_str()).collect();
    assert_eq!(ids, vec!["a", "b"]);
    assert_eq!(list[1].org_name, "B");
    assert_eq!(read_memberships(&doc("{}")), Some(vec![]));
    assert_eq!(read_memberships(&doc(r#"{"org_id_to_org_member_info":{}}"#)), Some(vec![]));
    assert_eq!(read_memberships(&doc(r#"{"org_id_to_org_member_info":null}"#)), None);
    assert_eq!(read_memberships(&doc(r#"{"org_id_to_org_member_info":{"a":{}}}"#)), None);
}

#[test]
fn read_metadata_wants_texts() {
    assert_eq!(
        read_metadata(&doc(r#"{"metadata":{"k":"v"}}"#)),
        Some(vec![("k".to_string(), "v".to_string())])
    );
    assert_eq!(read_metadata(&doc("{}")), Some(vec![]));
    assert_eq!(read_metadata(&doc(r#"{"metadata":{"k":1}}"#)), None);
    assert_eq!(read_metadata(&doc(r#"{"metadata":"k"}"#)), None);
}

#[test]
fn read_audience_takes_one_or_many() {
    assert_eq!(read_audience(&doc(r#"{"aud":"api"}"#)), Some(texts(&["api"])));
    assert_eq!(read_audience(&doc(r#"{"aud":["api","web"]}"#)), Some(texts(&["api", "web"])));
    assert_eq!(read_audience(&doc(r#"{"aud":[]}"#)), Some(vec![]));
    assert_eq!(read_audience(&doc("{}")), Some(vec![]));
    assert_eq!(read_audience(&doc(r#"{"aud":7}"#)), None);
}

#[test]
fn read_claims_wants_subject_and_expiry() {
    let claims = read_claims(&doc(r#"{"sub":"u1","exp":10,"iat":5,"other":true}"#)).expect("claims");
    assert_eq!(claims.subject, "u1");
    assert_eq!(claims.expires_at, 10);
    assert_eq!(claims.issued_at, Some(5));
    assert_eq!(read_claims(&doc(r#"{"sub":"u1"}"#)), None);
    assert_eq!(read_claims(&doc(r#"{"exp":10}"#)), None);
    assert_eq!(read_claims(&doc(r#"{"user_id":"u1","exp":10}"#)), None);
}

#[test]
fn read_header_wants_an_algorithm() {
    let header = read_header(&doc(r#"{"alg":"RS256","kid":"k"}"#)).expect("a header");
    assert_eq!(header.algorithm, "RS256");
    assert_eq!(header.key_id, Some("k".to_string()));
    assert_eq!(read_header(&doc(r#"{"kid":"k"}"#)), None);
    assert_eq!(read_header(&doc(r#"{"alg":"RS256","kid":null}"#)), None);
}

#[test]
fn bearer_token_takes_what_follows_the_scheme() {
    assert_eq!(bearer_token("Bearer abc.def.ghi"), Some("abc.def.ghi"));
    assert_eq!(bearer_token("bearer abc"), Some("abc"));
    assert_eq!(bearer_token("bEaReR abc"), Some("abc"));
    assert_eq!(bearer_token("Bearer   abc  "), Some("abc"));
    assert_eq!(bearer_token("Bearer \t abc\t \t"), Some("abc"));
    assert_eq!(bearer_token("Bearer a b"), Some("a b"));
    assert_eq!(bearer_token("Bearer "), Some(""));
    assert_eq!(bearer_token("Bearer    "), Some(""));
    assert_eq!(bearer_token("Bearer \n"), Some("\n"));
}

#[test]
fn bearer_token_wants_the_scheme_and_a_space() {
    assert_eq!(bearer_token(""), None);
    assert_eq!(bearer_token("Bearer"), None);
    assert_eq!(bearer_token("Bearerabc"), None);
    assert_eq!(bearer_token("Bearer\tabc"), None);
    assert_eq!(bearer_token(" Bearer abc"), None);
    assert_eq!(bearer_token("Basic abc"), None);
    assert_eq!(bearer_token("Bearar abc"), None);
    assert_eq!(bearer_token("abc.def.ghi"), None);
    assert_eq!(bearer_token("Bearer abc\u{e9}"), None);
}

#[test]
fn text_helpers_compare_whole_texts() {
    assert!(same_text("abc", "abc"));
    assert!(same_text("", ""));
    assert!(!same_text("abc", "abd"));
    assert!(!same_text("abc", "ab"));
    assert!(!same_text("abc", "ABC"));
    let items = texts(&["read", "write"]);
    assert!(contains_text(&items, "write"));
    assert!(!contains_text(&items, "writ"));
    assert!(!contains_text(&vec![], "read"));
    assert!(contains_all_texts(&items, &texts(&["write", "read"])));
    assert!(contains_all_texts(&items, &vec![]));
    assert!(!contains_all_texts(&items, &texts(&["read", "admin"])));
    assert_eq!(copy_texts(&items), items);
    assert_eq!(copy_texts(&vec![]), Vec::<String>::new());
}
