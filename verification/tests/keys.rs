use auth_core::cache::{KeyMaterialCache, DEFAULT_REFRESH_COOLDOWN_SECS};
use auth_core::keys::{
    find_key, find_key_index, find_key_named, judge_keys, key_ids_distinct, read_key, read_keys, same_optional_text, FetchOutcome, InitError, SigningKey, SigningKeySet,
    MAX_KEY_PEM_LEN,
};

// The public half of an RSA key pair that was made for these tests.
const PUBLIC_KEY_A: &str = "-----BEGIN PUBLIC KEY-----\n\
MIIBIjANBgkqhkiG9w0BAQEFAAOCAQ8AMIIBCgKCAQEAt45nRKjtIEmiPSO+tQpD\n\
QZfrvw5S1xMvyFDxDbRez/gXCh5VB5eFqWcq7ZYQAND57oD0YJeSOpLz6q8chTRt\n\
9QCvLuBKnzFI9zqs99DNy7W33hSD00Yhq+CsrPFwRhZ+fBm9aUP4SbAKB2ff1xHf\n\
ileC70MQOgfWDzFcpdMGwEp5Ru7NIr0lJoHhF9uJlL8KBQ4HoxFlutvH3nzvhYuk\n\
6zlZtmpnKF/mlN0SQV6yIMT2kb8fwf/WB5aBGRPOOOXcSqYdVIcPJjSm5elWLHC3\n\
Vee0Bc+A5T8UyXN2IWUgNARFeEW/JYRoS4jpEnobRP0bP/TpidIg3bl8+nuxqLci\n\
iQIDAQAB\n\
-----END PUBLIC KEY-----\n";

const PUBLIC_KEY_B: &str = "-----BEGIN PUBLIC KEY-----\n\
MIIBIjANBgkqhkiG9w0BAQEFAAOCAQ8AMIIBCgKCAQEAj0+OUI8Ux6qWzMRyibOQ\n\
pvq57SrWKtm6H9bOQhXaQJsOI2dIKfoNdyg5uMaM8cSJn6j3z+PNys4cb8Y7y4H8\n\
Uld8brTS52BeLNJaKgR6G+J4oVm0tmikLQoT8C0bHCvXjW5wxFpNFpojR2U7vFuo\n\
QcrWMvlAmeaXewTZZkufQ9v/YcnY5gUOBT6WWPPKH22g1a2dM9gcDSbmqGSMTzLG\n\
jRpM9SnxXNhLcPNzUKKZ+awbUAdJDQRmh3koimCkhSebrLzG0ZYwriv0LK8maspV\n\
HZYIFeeO885dot8u8wm1ILATqw2FGo6kAQ/coKIai6/Wn/lJQH68k2H9d00lXKut\n\
aQIDAQAB\n\
-----END PUBLIC KEY-----\n";

const NOW: u64 = 1_700_000_000;

fn key(id: Option<&str>, pem: &str) -> SigningKey {
    SigningKey { key_id: id.map(|s| s.to_string()), public_key_pem: pem.to_string() }
}

fn initialize(outcome: FetchOutcome) -> Result<SigningKeySet, InitError> {
    SigningKeySet::initialize("https://auth.example.com", "api-key", outcome, NOW)
}

fn fault(outcome: FetchOutcome) -> Option<InitError> {
    initialize(outcome).err()
}

fn usable(keys: Vec<SigningKey>) -> SigningKeySet {
    match initialize(FetchOutcome::Received(keys)) {
        Ok(set) => set,
        Err(error) => panic!("the keys are not usable: {:?}", error),
    }
}

#[test]
fn initialize_keeps_what_was_fetched() {
    let keys = vec![key(Some("key-a"), PUBLIC_KEY_A), key(None, PUBLIC_KEY_B)];
    let set = usable(keys);
    assert_eq!(set.keys(), &vec![key(Some("key-a"), PUBLIC_KEY_A), key(None, PUBLIC_KEY_B)]);
    assert_eq!(set.fetched_at(), NOW);
    assert_eq!(set.source_url(), "https://auth.example.com");
    assert_eq!(set.api_key(), "api-key");
}

#[test]
fn initialize_fails_when_the_fetch_failed() {
    assert_eq!(fault(FetchOutcome::Failed), Some(InitError::FetchFailed));
}

#[test]
fn initialize_fails_when_the_fetch_timed_out() {
    assert_eq!(fault(FetchOutcome::TimedOut), Some(InitError::FetchTimedOut));
}

#[test]
fn initialize_fails_without_keys() {
    assert_eq!(fault(FetchOutcome::Received(vec![])), Some(InitError::NoKeys));
}

#[test]
fn initialize_fails_on_a_key_that_cannot_be_read() {
    for pem in ["", "not a key", "-----BEGIN PUBLIC KEY-----\nAAAA\n-----END PUBLIC KEY-----\n"] {
        let keys = vec![key(Some("key-a"), PUBLIC_KEY_A), key(Some("key-b"), pem)];
        assert_eq!(fault(FetchOutcome::Received(keys)), Some(InitError::UnreadableKey));
    }
}

#[test]
fn initialize_fails_on_a_key_id_that_comes_twice() {
    let named = vec![
        key(Some("key-a"), PUBLIC_KEY_A),
        key(Some("key-b"), PUBLIC_KEY_B),
        key(Some("key-a"), PUBLIC_KEY_B),
    ];
    assert_eq!(fault(FetchOutcome::Received(named)), Some(InitError::DuplicateKeyId));
    let unnamed = vec![key(None, PUBLIC_KEY_A), key(None, PUBLIC_KEY_B)];
    assert_eq!(fault(FetchOutcome::Received(unnamed)), Some(InitError::DuplicateKeyId));
}

#[test]
fn initialize_reports_an_unreadable_key_before_a_repeated_id() {
    let keys = vec![key(Some("key-a"), PUBLIC_KEY_A), key(Some("key-a"), "not a key")];
    assert_eq!(fault(FetchOutcome::Received(keys)), Some(InitError::UnreadableKey));
}

#[test]
fn the_same_key_under_two_ids_is_usable() {
    let keys = vec![key(Some("old"), PUBLIC_KEY_A), key(Some("new"), PUBLIC_KEY_A)];
    assert!(initialize(FetchOutcome::Received(keys)).is_ok());
}

#[test]
fn find_key_prefers_the_named_key_to_the_unnamed_one() {
    let keys = vec![
        key(None, PUBLIC_KEY_B),
        key(Some("key-a"), PUBLIC_KEY_A),
        key(Some("key-a"), PUBLIC_KEY_B),
    ];
    assert_eq!(find_key(&keys, &Some("key-a".to_string())), Some(&keys[1]));
    assert_eq!(find_key_index(&keys, &Some("key-a".to_string())), Some(1));
    assert_eq!(find_key(&keys, &None), Some(&keys[0]));
    assert_eq!(find_key(&keys, &Some("key-b".to_string())), Some(&keys[0]));
    assert_eq!(find_key_index(&keys, &Some(String::new())), Some(0));
    assert_eq!(find_key_named(&keys, &Some("key-b".to_string())), None);
    assert_eq!(find_key_named(&keys, &Some("key-a".to_string())), Some(1));
    assert_eq!(find_key_named(&keys, &None), Some(0));
}

#[test]
fn find_key_finds_nothing_where_every_key_has_another_name() {
    let keys = vec![key(Some("key-a"), PUBLIC_KEY_A), key(Some("key-b"), PUBLIC_KEY_B)];
    assert_eq!(find_key(&keys, &Some("key-c".to_string())), None);
    assert_eq!(find_key(&keys, &None), None);
    assert_eq!(find_key_index(&keys, &Some("key-b".to_string())), Some(1));
    assert_eq!(find_key(&vec![], &None), None);
}

#[test]
fn judge_keys_orders_the_faults() {
    assert_eq!(judge_keys(0, true, true), Some(InitError::NoKeys));
    assert_eq!(judge_keys(0, false, false), Some(InitError::NoKeys));
    assert_eq!(judge_keys(2, false, true), Some(InitError::UnreadableKey));
    assert_eq!(judge_keys(2, false, false), Some(InitError::UnreadableKey));
    assert_eq!(judge_keys(2, true, false), Some(InitError::DuplicateKeyId));
    assert_eq!(judge_keys(1, true, true), None);
    assert_eq!(judge_keys(usize::MAX, true, true), None);
}

#[test]
fn a_key_text_past_the_bound_is_not_read() {
    assert_eq!(MAX_KEY_PEM_LEN, 4096);
    assert!(PUBLIC_KEY_A.len() < MAX_KEY_PEM_LEN);
    assert!(read_key(PUBLIC_KEY_A).is_some());
    let at_the_bound = format!("{}{}", PUBLIC_KEY_A, "\n".repeat(MAX_KEY_PEM_LEN - PUBLIC_KEY_A.len()));
    assert_eq!(at_the_bound.chars().count(), MAX_KEY_PEM_LEN);
    assert!(read_key(&at_the_bound).is_some());
    let past_the_bound = format!("{}\n", at_the_bound);
    assert!(read_key(&past_the_bound).is_none());
    assert!(read_keys(&vec![key(Some("key-a"), &past_the_bound)]).is_none());
    assert_eq!(
        fault(FetchOutcome::Received(vec![key(Some("key-a"), &past_the_bound)])),
        Some(InitError::UnreadableKey)
    );
    assert!(read_key("").is_none());
    assert!(read_keys(&vec![key(None, PUBLIC_KEY_A), key(None, "x")]).is_none());
    assert_eq!(read_keys(&vec![key(None, PUBLIC_KEY_A), key(None, PUBLIC_KEY_B)]).map(|k| k.len()), Some(2));
}

#[test]
fn read_keys_and_key_ids_distinct_look_at_every_key() {
    let good = vec![key(Some("a"), PUBLIC_KEY_A), key(Some("b"), PUBLIC_KEY_B), key(None, PUBLIC_KEY_A)];
    assert!(read_keys(&good).is_some());
    assert!(key_ids_distinct(&good));
    let bad_last = vec![key(Some("a"), PUBLIC_KEY_A), key(Some("a"), "x")];
    assert!(read_keys(&bad_last).is_none());
    assert!(!key_ids_distinct(&bad_last));
    assert_eq!(read_keys(&vec![]).map(|read| read.len()), Some(0));
    assert!(key_ids_distinct(&vec![]));
}

#[test]
fn same_optional_text_compares_presence_and_text() {
    let a = Some("a".to_string());
    let b = Some("b".to_string());
    assert!(same_optional_text(&a, &Some("a".to_string())));
    assert!(!same_optional_text(&a, &b));
    assert!(!same_optional_text(&a, &None));
    assert!(!same_optional_text(&None, &b));
    assert!(same_optional_text(&None, &None));
}

fn cache(cooldown_secs: u64) -> KeyMaterialCache {
    KeyMaterialCache::new(usable(vec![key(Some("key-a"), PUBLIC_KEY_A)]), cooldown_secs)
}

#[test]
fn a_new_cache_serves_its_keys_and_may_refresh() {
    let cache = cache(DEFAULT_REFRESH_COOLDOWN_SECS);
    assert_eq!(cache.current_keys().keys(), &vec![key(Some("key-a"), PUBLIC_KEY_A)]);
    assert!(cache.may_refresh(0));
    assert!(cache.may_refresh(NOW));
}

#[test]
fn the_default_cooldown_is_five_minutes() {
    assert_eq!(DEFAULT_REFRESH_COOLDOWN_SECS, 300);
}

#[test]
fn begin_refresh_grants_one_fetch_per_cooldown() {
    let mut cache = cache(300);
    assert!(cache.begin_refresh(NOW));
    assert!(!cache.begin_refresh(NOW));
    assert!(!cache.begin_refresh(NOW + 1));
    assert!(!cache.begin_refresh(NOW + 299));
    assert!(cache.begin_refresh(NOW + 300));
    assert!(!cache.begin_refresh(NOW + 599));
    assert!(cache.begin_refresh(NOW + 600));
}

#[test]
fn a_refused_fetch_does_not_restart_the_cooldown() {
    let mut cache = cache(300);
    assert!(cache.begin_refresh(NOW));
    assert!(!cache.begin_refresh(NOW + 200));
    assert!(!cache.may_refresh(NOW + 299));
    assert!(cache.may_refresh(NOW + 300));
}

#[test]
fn a_clock_that_runs_backwards_grants_nothing() {
    let mut cache = cache(300);
    assert!(cache.begin_refresh(NOW));
    assert!(!cache.may_refresh(NOW - 1));
    assert!(!cache.may_refresh(0));
}

#[test]
fn a_cooldown_of_zero_grants_every_fetch() {
    let mut cache = cache(0);
    assert!(cache.begin_refresh(NOW));
    assert!(cache.begin_refresh(NOW));
    assert!(!cache.may_refresh(NOW - 1));
}

#[test]
fn a_cooldown_past_the_end_of_time_grants_one_fetch() {
    let mut cache = cache(u64::MAX);
    assert!(cache.begin_refresh(1));
    assert!(!cache.may_refresh(u64::MAX));
    let mut from_zero = self::cache(u64::MAX);
    assert!(from_zero.begin_refresh(0));
    assert!(from_zero.may_refresh(u64::MAX));
}

#[test]
fn install_swaps_the_whole_set_and_keeps_the_cooldown() {
    let mut cache = cache(300);
    assert!(cache.begin_refresh(NOW));
    let fetched = FetchOutcome::Received(vec![key(Some("key-b"), PUBLIC_KEY_B)]);
    match SigningKeySet::initialize("https://auth.example.com", "api-key", fetched, NOW + 5) {
        Ok(fresh) => cache.install(fresh),
        Err(error) => panic!("the keys are not usable: {:?}", error),
    }
    assert_eq!(cache.current_keys().keys(), &vec![key(Some("key-b"), PUBLIC_KEY_B)]);
    assert_eq!(cache.current_keys().fetched_at(), NOW + 5);
    assert!(!cache.may_refresh(NOW + 299));
    assert!(cache.may_refresh(NOW + 300));
}
