//! Verification of a bearer token.
//!
//! A token is three texts in base64url, joined by two dots: a header, a payload and
//! a signature over the first two. The header is a JSON object that names the
//! algorithm under `alg` and may name the key under `kid`; the payload holds the
//! claims.

use crate::claims::{claims_of, distinct_orgs, optional_view, read_claims, Claims, ClaimsView};
use crate::json::{
    json_document, json_shape, optional_text_member, parse_json, read_optional_text, read_text,
    text_member, Json,
};
use crate::keys::{key_accepts, key_for, key_index, lemma_key_for, SigningKeySet, SigningKeyView};
use crate::text::{contains_text, same_text};
use vstd::prelude::*;
use vstd::string::*;
use vstd::utf8::is_ascii_chars;

verus! {

/// The clock skew to allow where nothing else is configured, in seconds.
pub const DEFAULT_CLOCK_SKEW_SECS: u64 = 60;

/// Why a token is not accepted.
#[derive(Debug, Clone, Copy, PartialEq, Eq, Structural)]
pub enum VerificationError {
    /// The token is not three base64url texts joined by dots, or its header or its
    /// payload does not hold what it must.
    Malformed,
    /// The token declares another algorithm than RS256, the set holds no key for
    /// the token, or the key does not accept the signature.
    InvalidSignature,
    Expired,
    /// The issuer or the audience is not the expected one.
    InvalidIssuer,
    /// The set holds no key for the token, also after the set was fetched again.
    UnknownKeyId,
}

/// What a token must match beyond its signature.
#[derive(Debug, PartialEq, Eq)]
pub struct VerifierConfig {
    /// The issuer that a token must name, if it names one.
    pub expected_issuer: Option<String>,
    /// The audience that must be among those that a token names, if it names any.
    pub expected_audience: Option<String>,
    /// For how many seconds past its expiry a token is still accepted.
    pub clock_skew_secs: u64,
}

pub struct VerifierConfigView {
    pub expected_issuer: Option<Seq<char>>,
    pub expected_audience: Option<Seq<char>>,
    pub clock_skew_secs: u64,
}

impl View for VerifierConfig {
    type V = VerifierConfigView;

    open spec fn view(&self) -> VerifierConfigView {
        VerifierConfigView {
            expected_issuer: optional_view(self.expected_issuer),
            expected_audience: optional_view(self.expected_audience),
            clock_skew_secs: self.clock_skew_secs,
        }
    }
}

/// The bytes that a base64url text without padding stands for, where it is one.
pub uninterp spec fn base64url_bytes(text: Seq<char>) -> Option<Seq<u8>>;

/// `Engine::decode` of `base64::engine::general_purpose::URL_SAFE_NO_PAD`: the bytes
/// that a text stands for, or nothing where the text is not base64url without
/// padding.
#[verifier::external_body]
pub(crate) fn decode_base64url(text: &str) -> (bytes: Option<Vec<u8>>)
    ensures
        bytes.is_some() == base64url_bytes(text@).is_some(),
        bytes matches Some(b) ==> base64url_bytes(text@) == Some(b@),
{
    match base64::Engine::decode(&base64::engine::general_purpose::URL_SAFE_NO_PAD, text) {
        Ok(bytes) => Some(bytes),
        Err(_) => None,
    }
}

/// The byte of a dot.
const DOT: u8 = 46;

/// The three parts of a token, and the text that the signature is over.
#[derive(Debug, Clone, Copy, PartialEq, Eq)]
pub struct TokenParts<'a> {
    pub header: &'a str,
    pub payload: &'a str,
    pub signature: &'a str,
    /// The header, a dot and the payload.
    pub signed: &'a str,
}

pub struct TokenPartsView {
    pub header: Seq<char>,
    pub payload: Seq<char>,
    pub signature: Seq<char>,
    pub signed: Seq<char>,
}

impl<'a> View for TokenParts<'a> {
    type V = TokenPartsView;

    open spec fn view(&self) -> TokenPartsView {
        TokenPartsView {
            header: self.header@,
            payload: self.payload@,
            signature: self.signature@,
            signed: self.signed@,
        }
    }
}

/// Whether the dots of `token` are the two at `i` and `j`.
pub open spec fn splits_at(token: Seq<char>, i: int, j: int) -> bool {
    &&& 0 <= i < j < token.len()
    &&& token[i] == '.'
    &&& token[j] == '.'
    &&& forall|k: int| 0 <= k < token.len() && k != i && k != j ==> token[k] != '.'
}

/// The parts of a token whose dots are at `i` and `j`.
pub open spec fn parts_at(token: Seq<char>, i: int, j: int) -> TokenPartsView {
    TokenPartsView {
        header: token.subrange(0, i),
        payload: token.subrange(i + 1, j),
        signature: token.subrange(j + 1, token.len() as int),
        signed: token.subrange(0, j),
    }
}

/// Whether a text is made of ASCII characters, exactly two of them dots.
pub open spec fn framed(token: Seq<char>) -> bool {
    is_ascii_chars(token) && exists|i: int, j: int| splits_at(token, i, j)
}

/// The parts of a token; nothing for a text that is not framed as one.
pub open spec fn parts_of(token: Seq<char>) -> Option<TokenPartsView> {
    if framed(token) {
        let (i, j) = choose|i: int, j: int| splits_at(token, i, j);
        Some(parts_at(token, i, j))
    } else {
        None
    }
}

/// A text has its two dots in one place only.
pub proof fn lemma_split_unique(token: Seq<char>, i: int, j: int, x: int, y: int)
    requires
        splits_at(token, i, j),
        splits_at(token, x, y),
    ensures
        i == x,
        j == y,
{
    assert(token[i] == '.');
    assert(token[j] == '.');
    assert(token[x] == '.');
    assert(token[y] == '.');
}

/// Splits a token into its parts.
pub fn split_token<'a>(token: &'a str) -> (parts: Option<TokenParts<'a>>)
    ensures
        parts.is_some() == parts_of(token@).is_some(),
        parts matches Some(p) ==> parts_of(token@) == Some(p@),
{
    if !token.is_ascii() {
        return None;
    }
    let n = token.unicode_len();
    let mut first: Option<usize> = None;
    let mut second: Option<usize> = None;
    let mut i: usize = 0;
    while i < n
        invariant
            i <= n,
            n == token@.len(),
            token.is_ascii(),
            match (first, second) {
                (None, None) => forall|k: int| 0 <= k < i ==> token@[k] != '.',
                (None, Some(_)) => false,
                (Some(a), None) => a < i && token@[a as int] == '.' && forall|k: int|
                    0 <= k < i && k != a ==> token@[k] != '.',
                (Some(a), Some(b)) => a < b < i && token@[a as int] == '.' && token@[b as int]
                    == '.' && forall|k: int| 0 <= k < i && k != a && k != b ==> token@[k] != '.',
            },
        decreases n - i,
    {
        if token.get_ascii(i) == DOT {
            assert(token@[i as int] == '.');
            match (first, second) {
                (None, _) => {
                    first = Some(i);
                },
                (Some(_), None) => {
                    second = Some(i);
                },
                (Some(a), Some(b)) => {
                    assert forall|x: int, y: int| !splits_at(token@, x, y) by {
                        if splits_at(token@, x, y) {
                            assert(token@[a as int] == '.');
                            assert(token@[b as int] == '.');
                            assert(token@[i as int] == '.');
                        }
                    }
                    return None;
                },
            }
        } else {
            assert(token@[i as int] != '.');
        }
        i = i + 1;
    }
    match (first, second) {
        (Some(a), Some(b)) => {
            proof {
                assert(splits_at(token@, a as int, b as int));
                let (x, y) = choose|x: int, y: int| splits_at(token@, x, y);
                lemma_split_unique(token@, a as int, b as int, x, y);
            }
            Some(
                TokenParts {
                    header: token.substring_ascii(0, a),
                    payload: token.substring_ascii(a + 1, b),
                    signature: token.substring_ascii(b + 1, n),
                    signed: token.substring_ascii(0, b),
                },
            )
        },
        (Some(a), None) => {
            assert forall|x: int, y: int| !splits_at(token@, x, y) by {
                if splits_at(token@, x, y) {
                    assert(token@[x] == '.');
                    assert(token@[y] == '.');
                }
            }
            None
        },
        _ => {
            assert forall|x: int, y: int| !splits_at(token@, x, y) by {
                if splits_at(token@, x, y) {
                    assert(token@[x] == '.');
                }
            }
            None
        },
    }
}

/// What the header of a token declares.
#[derive(Debug, PartialEq, Eq)]
pub struct TokenHeader {
    pub algorithm: String,
    pub key_id: Option<String>,
}

pub struct TokenHeaderView {
    pub algorithm: Seq<char>,
    pub key_id: Option<Seq<char>>,
}

impl View for TokenHeader {
    type V = TokenHeaderView;

    open spec fn view(&self) -> TokenHeaderView {
        TokenHeaderView { algorithm: self.algorithm@, key_id: optional_view(self.key_id) }
    }
}

/// What a header document declares: `alg` is a text, and `kid` is a text or is
/// missing.
pub open spec fn header_fields(doc: Json) -> Option<TokenHeaderView> {
    match (text_member(doc, "alg"@), optional_text_member(doc, "kid"@)) {
        (Some(algorithm), Some(key_id)) => Some(TokenHeaderView { algorithm, key_id }),
        _ => None,
    }
}

/// What the header part of a token declares; nothing where the part is not the
/// base64url form of such a document.
pub open spec fn header_of(part: Seq<char>) -> Option<TokenHeaderView> {
    match base64url_bytes(part) {
        Some(bytes) => match json_document(bytes) {
            Some(doc) => header_fields(doc),
            None => None,
        },
        None => None,
    }
}

/// The claims that the payload part of a token holds; nothing where the part is
/// not the base64url form of a document that holds claims.
pub open spec fn payload_claims(part: Seq<char>) -> Option<ClaimsView> {
    match base64url_bytes(part) {
        Some(bytes) => match json_document(bytes) {
            Some(doc) => claims_of(doc),
            None => None,
        },
        None => None,
    }
}

/// Reads what a header document declares.
pub fn read_header(doc: &serde_json::Value) -> (header: Option<TokenHeader>)
    ensures
        header.is_some() == header_fields(json_shape(*doc)).is_some(),
        header matches Some(h) ==> header_fields(json_shape(*doc)) == Some(h@),
{
    let algorithm = match read_text(doc, "alg") {
        Some(text) => text,
        None => {
            return None;
        },
    };
    let key_id = match read_optional_text(doc, "kid") {
        Some(text) => text,
        None => {
            return None;
        },
    };
    Some(TokenHeader { algorithm, key_id })
}

/// Decodes the header part of a token.
pub fn decode_header(part: &str) -> (header: Option<TokenHeader>)
    ensures
        header.is_some() == header_of(part@).is_some(),
        header matches Some(h) ==> header_of(part@) == Some(h@),
{
    match decode_base64url(part) {
        Some(bytes) => match parse_json(bytes.as_slice()) {
            Some(doc) => read_header(&doc),
            None => None,
        },
        None => None,
    }
}

/// Decodes the payload part of a token. The memberships that come out are in
/// distinct organizations.
pub fn decode_claims(part: &str) -> (claims: Option<Claims>)
    ensures
        claims.is_some() == payload_claims(part@).is_some(),
        claims matches Some(c) ==> payload_claims(part@) == Some(c@) && distinct_orgs(
            c@.memberships,
        ),
{
    match decode_base64url(part) {
        Some(bytes) => match parse_json(bytes.as_slice()) {
            Some(doc) => read_claims(&doc),
            None => None,
        },
        None => None,
    }
}

/// Whether a token that expires at `expires_at` is out of date at `now`: its
/// expiry lies more than `skew` seconds in the past.
pub open spec fn expired(expires_at: u64, skew: u64, now: u64) -> bool {
    expires_at + skew < now
}

/// Whether claims name the issuer and the audience that are expected. Claims that
/// name no issuer pass, and so do claims that name no audience; nothing is asked
/// where nothing is expected.
pub open spec fn issuer_accepted(claims: ClaimsView, config: VerifierConfigView) -> bool {
    &&& match (config.expected_issuer, claims.issuer) {
        (Some(expected), Some(named)) => named == expected,
        _ => true,
    }
    &&& match config.expected_audience {
        Some(expected) => claims.audience.len() == 0 || claims.audience.contains(expected),
        None => true,
    }
}

/// The verdict on claims whose token is signed: expiry first, then issuer and
/// audience.
pub open spec fn claims_verdict(claims: ClaimsView, config: VerifierConfigView, now: u64) -> Result<
    ClaimsView,
    VerificationError,
> {
    if expired(claims.expires_at, config.clock_skew_secs, now) {
        Err(VerificationError::Expired)
    } else if !issuer_accepted(claims, config) {
        Err(VerificationError::InvalidIssuer)
    } else {
        Ok(claims)
    }
}

/// Whether a token's signature stands, from the algorithm that the token declares
/// and from what the key for the token said of the signature, if there is such a
/// key: the algorithm is RS256, and the key accepted.
pub open spec fn signed_by(algorithm: Seq<char>, accepted: Option<bool>) -> bool {
    algorithm == "RS256"@ && accepted == Some(true)
}

/// What the key for a token says of its signature; nothing where `keys` has no key
/// for the token.
pub open spec fn acceptance(
    parts: TokenPartsView,
    header: TokenHeaderView,
    keys: Seq<SigningKeyView>,
) -> Option<bool> {
    match key_for(keys, header.key_id) {
        Some(key) => Some(key_accepts(key, parts.signed, parts.signature)),
        None => None,
    }
}

/// Whether the token declares RS256 and the key for it accepts its signature.
pub open spec fn signature_holds(
    parts: TokenPartsView,
    header: TokenHeaderView,
    keys: Seq<SigningKeyView>,
) -> bool {
    signed_by(header.algorithm, acceptance(parts, header, keys))
}

/// The verdict on a token, from whether its signature stands and from the claims
/// that its payload holds, if it holds any: the signature first, then the payload,
/// then the claims. Without a signature that stands the payload does not count.
pub open spec fn settled(
    signed: bool,
    claims: Option<ClaimsView>,
    config: VerifierConfigView,
    now: u64,
) -> Result<ClaimsView, VerificationError> {
    if !signed {
        Err(VerificationError::InvalidSignature)
    } else {
        match claims {
            Some(claims) => claims_verdict(claims, config, now),
            None => Err(VerificationError::Malformed),
        }
    }
}

/// The verdict on a token that is split and whose header is read.
pub open spec fn verdict_on(
    parts: TokenPartsView,
    header: TokenHeaderView,
    keys: Seq<SigningKeyView>,
    config: VerifierConfigView,
    now: u64,
) -> Result<ClaimsView, VerificationError> {
    settled(signature_holds(parts, header, keys), payload_claims(parts.payload), config, now)
}

/// A token as far as it can be read without a key.
pub open spec fn opened(token: Seq<char>) -> Option<(TokenPartsView, TokenHeaderView)> {
    match parts_of(token) {
        Some(parts) => match header_of(parts.header) {
            Some(header) => Some((parts, header)),
            None => None,
        },
        None => None,
    }
}

/// Whether a token is well-formed: it splits into three parts and its header can
/// be read.
pub open spec fn well_formed(token: Seq<char>) -> bool {
    opened(token) is Some
}

/// The verdict on a token at the time `now`.
pub open spec fn verify_outcome(
    token: Seq<char>,
    keys: Seq<SigningKeyView>,
    config: VerifierConfigView,
    now: u64,
) -> Result<ClaimsView, VerificationError> {
    match opened(token) {
        Some((parts, header)) => verdict_on(parts, header, keys, config, now),
        None => Err(VerificationError::Malformed),
    }
}

/// The view of a verdict.
pub open spec fn verdict_view(verdict: Result<Claims, VerificationError>) -> Result<
    ClaimsView,
    VerificationError,
> {
    match verdict {
        Ok(claims) => Ok(claims@),
        Err(error) => Err(error),
    }
}

/// Checks claims against the clock and the configuration, and hands them back if
/// they pass.
pub fn validate_claims(claims: Claims, config: &VerifierConfig, now: u64) -> (verdict: Result<
    Claims,
    VerificationError,
>)
    ensures
        verdict_view(verdict) == claims_verdict(claims@, config@, now),
        verdict matches Ok(same) ==> same == claims,
{
    if now > claims.expires_at && now - claims.expires_at > config.clock_skew_secs {
        return Err(VerificationError::Expired);
    }
    match (&config.expected_issuer, &claims.issuer) {
        (Some(expected), Some(named)) => {
            if !same_text(named.as_str(), expected.as_str()) {
                return Err(VerificationError::InvalidIssuer);
            }
        },
        _ => {},
    }
    match &config.expected_audience {
        Some(expected) => {
            if claims.audience.len() > 0 && !contains_text(&claims.audience, expected.as_str()) {
                return Err(VerificationError::InvalidIssuer);
            }
        },
        None => {},
    }
    Ok(claims)
}

/// Splits a token and reads its header.
pub fn open_token<'a>(token: &'a str) -> (read: Option<(TokenParts<'a>, TokenHeader)>)
    ensures
        read.is_some() == opened(token@).is_some(),
        read matches Some((parts, header)) ==> opened(token@) == Some((parts@, header@)),
{
    match split_token(token) {
        Some(parts) => match decode_header(parts.header) {
            Some(header) => Some((parts, header)),
            None => None,
        },
        None => None,
    }
}

/// The view of claims that may be missing.
pub open spec fn claims_view(claims: Option<Claims>) -> Option<ClaimsView> {
    match claims {
        Some(claims) => Some(claims@),
        None => None,
    }
}

/// Whether a token's signature stands, from the algorithm that it declares and
/// from what the key for it said of the signature.
pub fn signature_stands(algorithm: &str, accepted: Option<bool>) -> (signed: bool)
    ensures
        signed == signed_by(algorithm@, accepted),
{
    match accepted {
        Some(true) => same_text(algorithm, "RS256"),
        _ => false,
    }
}

/// The verdict on a token, from whether its signature stands and from the claims
/// of its payload.
pub fn settle(signed: bool, claims: Option<Claims>, config: &VerifierConfig, now: u64) -> (verdict:
    Result<Claims, VerificationError>)
    ensures
        verdict_view(verdict) == settled(signed, claims_view(claims), config@, now),
        verdict matches Ok(same) ==> claims == Some(same),
{
    if !signed {
        return Err(VerificationError::InvalidSignature);
    }
    match claims {
        Some(claims) => validate_claims(claims, config, now),
        None => Err(VerificationError::Malformed),
    }
}

/// Verifies a token that is split and whose header is read. The key is asked only
/// where the token declares RS256, and the payload is decoded only where the
/// signature stands.
pub fn verify_opened(
    parts: &TokenParts,
    header: &TokenHeader,
    keys: &SigningKeySet,
    config: &VerifierConfig,
    now: u64,
) -> (verdict: Result<Claims, VerificationError>)
    ensures
        verdict_view(verdict) == verdict_on(parts@, header@, keys@.keys, config@, now),
        verdict matches Ok(claims) ==> distinct_orgs(claims@.memberships),
{
    let accepted = if same_text(header.algorithm.as_str(), "RS256") {
        keys.signature_accepted(&header.key_id, parts.signed, parts.signature)
    } else {
        None
    };
    let signed = signature_stands(header.algorithm.as_str(), accepted);
    let claims = if signed {
        decode_claims(parts.payload)
    } else {
        None
    };
    settle(signed, claims, config, now)
}

/// Verifies a token against the keys in use, at the time `now` in seconds since
/// the epoch. Nothing is fetched. The claims that come out hold their memberships
/// in distinct organizations.
pub fn verify(token: &str, keys: &SigningKeySet, config: &VerifierConfig, now: u64) -> (verdict:
    Result<Claims, VerificationError>)
    ensures
        verdict_view(verdict) == verify_outcome(token@, keys@.keys, config@, now),
        verdict matches Ok(claims) ==> distinct_orgs(claims@.memberships),
{
    match open_token(token) {
        Some((parts, header)) => verify_opened(&parts, &header, keys, config, now),
        None => Err(VerificationError::Malformed),
    }
}

/// Claims are trusted only when everything was checked: where a token is accepted,
/// it declares RS256, a key of the set that has the identifier that it declares, or
/// has none, accepts its signature, the claims are those of its payload, they have
/// not expired by more than the allowed skew, and issuer and audience are the
/// expected ones.
pub proof fn accepted_token_was_checked(
    token: Seq<char>,
    keys: Seq<SigningKeyView>,
    config: VerifierConfigView,
    now: u64,
    claims: ClaimsView,
)
    requires
        verify_outcome(token, keys, config, now) == Ok::<_, VerificationError>(claims),
    ensures
        match opened(token) {
            Some((parts, header)) => {
                &&& header.algorithm == "RS256"@
                &&& payload_claims(parts.payload) == Some(claims)
                &&& exists|i: int|
                    0 <= i < keys.len() && (keys[i].key_id == header.key_id || keys[i].key_id
                        is None) && key_accepts(keys[i], parts.signed, parts.signature)
            },
            None => false,
        },
        now <= claims.expires_at + config.clock_skew_secs,
        issuer_accepted(claims, config),
{
    let (parts, header) = opened(token).unwrap();
    lemma_key_for(keys, header.key_id);
    let i = key_index(keys, header.key_id).unwrap();
    assert(key_accepts(keys[i], parts.signed, parts.signature));
}

/// A well-formed token whose signature no key of the set accepts is refused for
/// its signature, whatever key it declares and whatever its payload holds.
pub proof fn foreign_signature_is_rejected(
    token: Seq<char>,
    keys: Seq<SigningKeyView>,
    config: VerifierConfigView,
    now: u64,
)
    requires
        match opened(token) {
            Some((parts, _)) => forall|i: int|
                0 <= i < keys.len() ==> !key_accepts(
                    #[trigger] keys[i],
                    parts.signed,
                    parts.signature,
                ),
            None => false,
        },
    ensures
        verify_outcome(token, keys, config, now) == Err::<ClaimsView, _>(
            VerificationError::InvalidSignature,
        ),
{
    let (_, header) = opened(token).unwrap();
    lemma_key_for(keys, header.key_id);
}

/// A well-formed token for which the set holds no key is refused for its
/// signature.
pub proof fn unknown_key_is_rejected(
    token: Seq<char>,
    keys: Seq<SigningKeyView>,
    config: VerifierConfigView,
    now: u64,
)
    requires
        match opened(token) {
            Some((_, header)) => key_for(keys, header.key_id) is None,
            None => false,
        },
    ensures
        verify_outcome(token, keys, config, now) == Err::<ClaimsView, _>(
            VerificationError::InvalidSignature,
        ),
{
}

/// Claims whose expiry lies more than the allowed skew in the past are refused as
/// expired, whatever else they hold.
pub proof fn expired_claims_are_rejected(claims: ClaimsView, config: VerifierConfigView, now: u64)
    requires
        claims.expires_at + config.clock_skew_secs < now,
    ensures
        claims_verdict(claims, config, now) == Err::<ClaimsView, _>(VerificationError::Expired),
{
}

/// A token whose signature holds and whose claims expired more than the allowed
/// skew ago is refused as expired.
pub proof fn expired_token_is_rejected(
    token: Seq<char>,
    keys: Seq<SigningKeyView>,
    config: VerifierConfigView,
    now: u64,
)
    requires
        match opened(token) {
            Some((parts, header)) => signature_holds(parts, header, keys) && match payload_claims(
                parts.payload,
            ) {
                Some(claims) => claims.expires_at + config.clock_skew_secs < now,
                None => false,
            },
            None => false,
        },
    ensures
        verify_outcome(token, keys, config, now) == Err::<ClaimsView, _>(
            VerificationError::Expired,
        ),
{
}

} // verus!
