//! The public keys that tokens are verified with.
//!
//! The keys come from the issuer, over the network, before any request is served.
//! The caller of this module fetches them; [`SigningKeySet::initialize`] decides
//! whether what came back can be served with. [`crate::cache::KeyMaterialCache`]
//! holds the set in use and says when it may be fetched again.

use crate::claims::optional_view;
use crate::text::{same_text, views};
use vstd::prelude::*;
use vstd::string::*;

verus! {

/// The longest key text that is read, in characters. An RSA key of 8192 bits is
/// under 2000 characters in PEM; a longer text is not looked into.
pub const MAX_KEY_PEM_LEN: usize = 4096;

/// `jsonwebtoken::DecodingKey`, a key that was read. Nothing of it is known here
/// but the bytes that it holds.
#[verifier::external_type_specification]
#[verifier::external_body]
pub struct ExDecodingKey(jsonwebtoken::DecodingKey);

/// The bytes that a key holds.
pub uninterp spec fn key_bytes(key: jsonwebtoken::DecodingKey) -> Seq<u8>;

/// The bytes of the RSA key that a PEM text holds, where it holds one as
/// `jsonwebtoken` reads it.
pub uninterp spec fn rsa_pem_bytes(pem: Seq<char>) -> Option<Seq<u8>>;

/// Whether the RSA key with these bytes accepts `signature`, in base64url, as an
/// RS256 signature of `message`.
pub uninterp spec fn rs256_verified(key: Seq<u8>, message: Seq<char>, signature: Seq<char>) -> bool;

/// `DecodingKey::from_rsa_pem`: the key that a PEM text holds, or nothing where the
/// text is not the PEM form of an RSA key. The text is bounded, because the reader
/// follows the nesting of what the text encodes as deep as it goes.
#[verifier::external_body]
pub(crate) fn decoding_key(pem: &str) -> (key: Option<jsonwebtoken::DecodingKey>)
    requires
        pem@.len() <= MAX_KEY_PEM_LEN,
    ensures
        key.is_some() == rsa_pem_bytes(pem@).is_some(),
        key matches Some(k) ==> rsa_pem_bytes(pem@) == Some(key_bytes(k)),
{
    match jsonwebtoken::DecodingKey::from_rsa_pem(pem.as_bytes()) {
        Ok(key) => Some(key),
        Err(_) => None,
    }
}

/// `jsonwebtoken::crypto::verify` with the algorithm RS256: whether the key accepts
/// `signature` for `message`. A signature that is not base64url is not accepted.
/// The answer depends on the key's bytes, the message and the signature alone.
#[verifier::external_body]
pub(crate) fn verify_rs256(key: &jsonwebtoken::DecodingKey, message: &str, signature: &str) -> (valid:
    bool)
    ensures
        valid == rs256_verified(key_bytes(*key), message@, signature@),
{
    match jsonwebtoken::crypto::verify(
        signature,
        message.as_bytes(),
        key,
        jsonwebtoken::Algorithm::RS256,
    ) {
        Ok(valid) => valid,
        Err(_) => false,
    }
}

/// One public key of the issuer.
#[derive(Debug, PartialEq, Eq)]
pub struct SigningKey {
    /// The identifier that tokens signed with this key declare. A key without one
    /// serves every token for which no other key is named.
    pub key_id: Option<String>,
    pub public_key_pem: String,
}

pub struct SigningKeyView {
    pub key_id: Option<Seq<char>>,
    pub public_key_pem: Seq<char>,
}

impl View for SigningKey {
    type V = SigningKeyView;

    open spec fn view(&self) -> SigningKeyView {
        SigningKeyView { key_id: optional_view(self.key_id), public_key_pem: self.public_key_pem@ }
    }
}

/// Whether a text can be read as a key: it is no longer than `MAX_KEY_PEM_LEN` and
/// is the PEM form of an RSA key.
pub open spec fn readable_key(pem: Seq<char>) -> bool {
    pem.len() <= MAX_KEY_PEM_LEN && rsa_pem_bytes(pem) is Some
}

/// Whether every key can be read.
pub open spec fn all_keys_readable(keys: Seq<SigningKeyView>) -> bool {
    forall|i: int| 0 <= i < keys.len() ==> readable_key((#[trigger] keys[i]).public_key_pem)
}

/// Whether no two keys have the same identifier, and no two are without one.
pub open spec fn distinct_key_ids(keys: Seq<SigningKeyView>) -> bool {
    forall|i: int, j: int| 0 <= i < j < keys.len() ==> keys[i].key_id != keys[j].key_id
}

/// What holds of the keys of every key set: there is at least one, each can be
/// read, and an identifier names at most one of them.
pub open spec fn usable_keys(keys: Seq<SigningKeyView>) -> bool {
    keys.len() > 0 && all_keys_readable(keys) && distinct_key_ids(keys)
}

/// Where the first key with exactly the identifier `key_id` is.
pub open spec fn key_named(keys: Seq<SigningKeyView>, key_id: Option<Seq<char>>) -> Option<int>
    decreases keys.len(),
{
    if keys.len() == 0 {
        None
    } else if keys.last().key_id == key_id && key_named(keys.drop_last(), key_id) is None {
        Some(keys.len() - 1)
    } else {
        key_named(keys.drop_last(), key_id)
    }
}

/// Where the key for a token that declares `declared` is: the key with that
/// identifier, or else the key without identifier.
pub open spec fn key_index(keys: Seq<SigningKeyView>, declared: Option<Seq<char>>) -> Option<int> {
    match key_named(keys, declared) {
        Some(i) => Some(i),
        None => key_named(keys, None),
    }
}

/// The key for a token that declares `declared`.
pub open spec fn key_for(keys: Seq<SigningKeyView>, declared: Option<Seq<char>>) -> Option<
    SigningKeyView,
> {
    match key_index(keys, declared) {
        Some(i) => Some(keys[i]),
        None => None,
    }
}

/// `key_named` finds the first key with the identifier, and finds none only where
/// no key has it.
pub proof fn lemma_key_named(keys: Seq<SigningKeyView>, key_id: Option<Seq<char>>)
    ensures
        match key_named(keys, key_id) {
            Some(i) => 0 <= i < keys.len() && keys[i].key_id == key_id && forall|k: int|
                0 <= k < i ==> (#[trigger] keys[k]).key_id != key_id,
            None => forall|k: int| 0 <= k < keys.len() ==> (#[trigger] keys[k]).key_id != key_id,
        },
    decreases keys.len(),
{
    if keys.len() > 0 {
        let front = keys.drop_last();
        lemma_key_named(front, key_id);
        assert(forall|k: int| 0 <= k < front.len() ==> front[k] == keys[k]);
    }
}

/// The key for a token is one of the keys, and it has the identifier that the token
/// declares or has none. Where there is no key for a token, every key has an
/// identifier, and another one than the token declares.
pub proof fn lemma_key_for(keys: Seq<SigningKeyView>, declared: Option<Seq<char>>)
    ensures
        match key_index(keys, declared) {
            Some(i) => 0 <= i < keys.len() && (keys[i].key_id == declared || keys[i].key_id
                is None),
            None => forall|k: int|
                0 <= k < keys.len() ==> (#[trigger] keys[k]).key_id != declared && keys[k].key_id
                    is Some,
        },
{
    lemma_key_named(keys, declared);
    lemma_key_named(keys, None);
}

/// Whether the key accepts `signature` as an RS256 signature of `message`. A key
/// that cannot be read accepts nothing.
pub open spec fn key_accepts(key: SigningKeyView, message: Seq<char>, signature: Seq<char>) -> bool {
    readable_key(key.public_key_pem) && rs256_verified(
        rsa_pem_bytes(key.public_key_pem).unwrap(),
        message,
        signature,
    )
}

/// Whether two optional texts are both missing or hold the same characters.
pub fn same_optional_text(a: &Option<String>, b: &Option<String>) -> (same: bool)
    ensures
        same == (optional_view(*a) == optional_view(*b)),
{
    match (a, b) {
        (Some(x), Some(y)) => same_text(x.as_str(), y.as_str()),
        (None, None) => true,
        _ => false,
    }
}

/// Where the first of `keys` with exactly the identifier `key_id` is.
pub fn find_key_named(keys: &Vec<SigningKey>, key_id: &Option<String>) -> (found: Option<usize>)
    ensures
        match found {
            Some(i) => key_named(views(keys@), optional_view(*key_id)) == Some(i as int),
            None => key_named(views(keys@), optional_view(*key_id)) is None,
        },
{
    let ghost all = views(keys@);
    let mut i: usize = 0;
    while i < keys.len()
        invariant
            i <= keys.len(),
            all == views(keys@),
            forall|k: int| 0 <= k < i ==> (#[trigger] all[k]).key_id != optional_view(*key_id),
        decreases keys.len() - i,
    {
        if same_optional_text(&keys[i].key_id, key_id) {
            proof {
                lemma_key_named(all, optional_view(*key_id));
                assert(all[i as int].key_id == optional_view(*key_id));
                let j = key_named(all, optional_view(*key_id)).unwrap();
                assert(all[j].key_id == optional_view(*key_id));
            }
            return Some(i);
        }
        i = i + 1;
    }
    proof {
        lemma_key_named(all, optional_view(*key_id));
    }
    None
}

/// Where the key for a token that declares `declared` is.
pub fn find_key_index(keys: &Vec<SigningKey>, declared: &Option<String>) -> (found: Option<usize>)
    ensures
        match found {
            Some(i) => i < keys@.len() && key_index(views(keys@), optional_view(*declared)) == Some(
                i as int,
            ),
            None => key_index(views(keys@), optional_view(*declared)) is None,
        },
{
    proof {
        lemma_key_named(views(keys@), optional_view(*declared));
        lemma_key_named(views(keys@), None);
    }
    match find_key_named(keys, declared) {
        Some(i) => Some(i),
        None => find_key_named(keys, &None),
    }
}

/// The key for a token that declares `declared`.
pub fn find_key<'a>(keys: &'a Vec<SigningKey>, declared: &Option<String>) -> (found: Option<
    &'a SigningKey,
>)
    ensures
        found.is_some() == key_for(views(keys@), optional_view(*declared)).is_some(),
        found matches Some(key) ==> key_for(views(keys@), optional_view(*declared)) == Some(key@),
{
    match find_key_index(keys, declared) {
        Some(i) => Some(&keys[i]),
        None => None,
    }
}

/// Reads a key from its text. A text longer than `MAX_KEY_PEM_LEN` is not read.
pub fn read_key(pem: &str) -> (key: Option<jsonwebtoken::DecodingKey>)
    ensures
        key.is_some() == readable_key(pem@),
        key matches Some(k) ==> rsa_pem_bytes(pem@) == Some(key_bytes(k)),
{
    if pem.unicode_len() > MAX_KEY_PEM_LEN {
        None
    } else {
        decoding_key(pem)
    }
}

/// Whether `key` accepts `signature` as an RS256 signature of `message`.
pub fn check_signature(key: &SigningKey, message: &str, signature: &str) -> (accepted: bool)
    ensures
        accepted == key_accepts(key@, message@, signature@),
{
    match read_key(key.public_key_pem.as_str()) {
        Some(read) => verify_rs256(&read, message, signature),
        None => false,
    }
}

/// How an attempt to fetch the issuer's keys ended.
#[derive(Debug, PartialEq, Eq)]
pub enum FetchOutcome {
    /// The issuer answered with these keys.
    Received(Vec<SigningKey>),
    Failed,
    TimedOut,
}

/// Why there are no keys to serve with.
#[derive(Debug, Clone, Copy, PartialEq, Eq, Structural)]
pub enum InitError {
    FetchFailed,
    FetchTimedOut,
    /// The issuer answered with no key at all.
    NoKeys,
    /// One of the keys is not the PEM form of an RSA key.
    UnreadableKey,
    /// Two of the keys have the same identifier.
    DuplicateKeyId,
}

/// What is wrong with keys of which this much is known: how many there are,
/// whether all can be read, and whether their identifiers are distinct. Having
/// none comes first, an unreadable key before a repeated identifier.
pub open spec fn fault_of(count: nat, readable: bool, distinct: bool) -> Option<InitError> {
    if count == 0 {
        Some(InitError::NoKeys)
    } else if !readable {
        Some(InitError::UnreadableKey)
    } else if !distinct {
        Some(InitError::DuplicateKeyId)
    } else {
        None
    }
}

/// What is wrong with the keys that the issuer answered with, if anything.
pub open spec fn key_fault(keys: Seq<SigningKeyView>) -> Option<InitError> {
    fault_of(keys.len(), all_keys_readable(keys), distinct_key_ids(keys))
}

/// Keys are usable exactly where nothing is wrong with them.
pub proof fn usable_without_fault(keys: Seq<SigningKeyView>)
    ensures
        usable_keys(keys) <==> key_fault(keys) is None,
{
}

/// The keys that a fetch brought; none where it brought nothing.
pub open spec fn fetched_keys(outcome: FetchOutcome) -> Seq<SigningKeyView> {
    match outcome {
        FetchOutcome::Received(keys) => views(keys@),
        _ => Seq::empty(),
    }
}

/// Why a fetch that ended with `outcome` gives no keys to serve with, if it gives
/// none.
pub open spec fn fetch_fault(outcome: FetchOutcome) -> Option<InitError> {
    match outcome {
        FetchOutcome::Failed => Some(InitError::FetchFailed),
        FetchOutcome::TimedOut => Some(InitError::FetchTimedOut),
        FetchOutcome::Received(keys) => key_fault(views(keys@)),
    }
}

/// What is wrong with keys, from how many there are, whether all can be read and
/// whether their identifiers are distinct.
pub fn judge_keys(count: usize, readable: bool, distinct: bool) -> (fault: Option<InitError>)
    ensures
        fault == fault_of(count as nat, readable, distinct),
{
    if count == 0 {
        Some(InitError::NoKeys)
    } else if !readable {
        Some(InitError::UnreadableKey)
    } else if !distinct {
        Some(InitError::DuplicateKeyId)
    } else {
        None
    }
}

/// Whether each of some keys is the one that the text of the key beside it holds.
pub open spec fn read_from(read: Seq<jsonwebtoken::DecodingKey>, keys: Seq<SigningKeyView>) -> bool {
    &&& read.len() == keys.len()
    &&& forall|i: int|
        0 <= i < keys.len() ==> rsa_pem_bytes((#[trigger] keys[i]).public_key_pem) == Some(
            key_bytes(read[i]),
        )
}

/// Reads every one of `keys`; nothing where one cannot be read.
pub fn read_keys(keys: &Vec<SigningKey>) -> (read: Option<Vec<jsonwebtoken::DecodingKey>>)
    ensures
        read.is_some() == all_keys_readable(views(keys@)),
        read matches Some(list) ==> read_from(list@, views(keys@)),
{
    let ghost all = views(keys@);
    let mut list: Vec<jsonwebtoken::DecodingKey> = Vec::new();
    let mut i: usize = 0;
    while i < keys.len()
        invariant
            i <= keys.len(),
            list@.len() == i,
            all == views(keys@),
            forall|k: int| 0 <= k < i ==> readable_key((#[trigger] all[k]).public_key_pem),
            forall|k: int|
                0 <= k < i ==> rsa_pem_bytes((#[trigger] all[k]).public_key_pem) == Some(
                    key_bytes(list@[k]),
                ),
        decreases keys.len() - i,
    {
        match read_key(keys[i].public_key_pem.as_str()) {
            Some(key) => {
                list.push(key);
            },
            None => {
                assert(!readable_key(all[i as int].public_key_pem));
                return None;
            },
        }
        i = i + 1;
    }
    Some(list)
}

/// Whether no two of `keys` have the same identifier.
pub fn key_ids_distinct(keys: &Vec<SigningKey>) -> (distinct: bool)
    ensures
        distinct == distinct_key_ids(views(keys@)),
{
    let ghost all = views(keys@);
    let mut j: usize = 0;
    while j < keys.len()
        invariant
            j <= keys.len(),
            all == views(keys@),
            forall|a: int, b: int| 0 <= a < b < j ==> all[a].key_id != all[b].key_id,
        decreases keys.len() - j,
    {
        let mut i: usize = 0;
        while i < j
            invariant
                i <= j < keys.len(),
                all == views(keys@),
                forall|a: int| 0 <= a < i ==> all[a].key_id != all[j as int].key_id,
            decreases j - i,
        {
            if same_optional_text(&keys[i].key_id, &keys[j].key_id) {
                assert(all[i as int].key_id == all[j as int].key_id);
                return false;
            }
            i = i + 1;
        }
        j = j + 1;
    }
    true
}

/// The keys in use, with where and when they were fetched. A key set is never
/// empty, and it is replaced as a whole, never changed in place. Its keys are
/// read once, when the set is made.
pub struct SigningKeySet {
    keys: Vec<SigningKey>,
    read: Vec<jsonwebtoken::DecodingKey>,
    fetched_at: u64,
    source_url: String,
    api_key: String,
}

pub struct SigningKeySetView {
    pub keys: Seq<SigningKeyView>,
    pub fetched_at: u64,
    pub source_url: Seq<char>,
    pub api_key: Seq<char>,
}

impl View for SigningKeySet {
    type V = SigningKeySetView;

    closed spec fn view(&self) -> SigningKeySetView {
        SigningKeySetView {
            keys: views(self.keys@),
            fetched_at: self.fetched_at,
            source_url: self.source_url@,
            api_key: self.api_key@,
        }
    }
}

impl SigningKeySet {
    #[verifier::type_invariant]
    spec fn usable(&self) -> bool {
        usable_keys(views(self.keys@)) && read_from(self.read@, views(self.keys@))
    }

    /// Makes the key set that the service starts with, from the outcome of the one
    /// fetch at start-up. It fails if the fetch failed or timed out, and if what
    /// came back is no usable set of keys; a service without keys must not serve.
    pub fn initialize(auth_url: &str, api_key: &str, outcome: FetchOutcome, now: u64) -> (made:
        Result<SigningKeySet, InitError>)
        ensures
            match made {
                Ok(set) => fetch_fault(outcome) is None && set@ == (SigningKeySetView {
                    keys: fetched_keys(outcome),
                    fetched_at: now,
                    source_url: auth_url@,
                    api_key: api_key@,
                }),
                Err(error) => fetch_fault(outcome) == Some(error),
            },
    {
        match outcome {
            FetchOutcome::Failed => Err(InitError::FetchFailed),
            FetchOutcome::TimedOut => Err(InitError::FetchTimedOut),
            FetchOutcome::Received(keys) => {
                let read = read_keys(&keys);
                let distinct = key_ids_distinct(&keys);
                match judge_keys(keys.len(), read.is_some(), distinct) {
                    Some(fault) => Err(fault),
                    None => match read {
                        Some(read) => Ok(
                            SigningKeySet {
                                keys,
                                read,
                                fetched_at: now,
                                source_url: auth_url.to_owned(),
                                api_key: api_key.to_owned(),
                            },
                        ),
                        None => Err(InitError::UnreadableKey),
                    },
                }
            },
        }
    }

    /// The keys. There is at least one, each can be read, and no two share an
    /// identifier.
    pub fn keys(&self) -> (keys: &Vec<SigningKey>)
        ensures
            views(keys@) == self@.keys,
            usable_keys(self@.keys),
    {
        proof {
            use_type_invariant(self);
        }
        &self.keys
    }

    /// Whether the key for a token that declares `declared` accepts `signature` as
    /// an RS256 signature of `message`; nothing where the set has no key for such a
    /// token.
    pub fn signature_accepted(&self, declared: &Option<String>, message: &str, signature: &str) -> (accepted:
        Option<bool>)
        ensures
            accepted == match key_for(self@.keys, optional_view(*declared)) {
                Some(key) => Some(key_accepts(key, message@, signature@)),
                None => None,
            },
    {
        proof {
            use_type_invariant(self);
        }
        match find_key_index(&self.keys, declared) {
            Some(i) => {
                assert(readable_key(views(self.keys@)[i as int].public_key_pem));
                Some(verify_rs256(&self.read[i], message, signature))
            },
            None => None,
        }
    }

    /// When the keys were fetched, in seconds since the epoch.
    pub fn fetched_at(&self) -> (at: u64)
        ensures
            at == self@.fetched_at,
    {
        self.fetched_at
    }

    /// The address that the keys were fetched from.
    pub fn source_url(&self) -> (url: &String)
        ensures
            url@ == self@.source_url,
    {
        &self.source_url
    }

    /// The credential that the keys were fetched with.
    pub fn api_key(&self) -> (key: &String)
        ensures
            key@ == self@.api_key,
    {
        &self.api_key
    }
}

} // verus!
