//! Verification that may ask for the keys to be fetched again.
//!
//! Fetching is the caller's work. [`verify_cached`] verifies against the keys in
//! use without changing anything, and says when a fetch is called for;
//! [`verify_or_refresh`] does the same and records the fetch as granted. After the
//! fetch, successful or not, the caller ends with [`finish_refresh`].

use crate::cache::{refresh_due, KeyMaterialCache, KeyMaterialCacheView};
use crate::claims::{distinct_orgs, Claims, ClaimsView};
use crate::keys::{find_key, key_for, InitError, SigningKeySet, SigningKeyView};
use crate::token::{
    open_token, opened, verdict_view, verify_opened, verify_outcome, VerificationError,
    VerifierConfig, VerifierConfigView,
};
use vstd::prelude::*;

verus! {

/// Whether a token is well-formed and `keys` holds no key for it: none with the
/// identifier that the token declares, and none without identifier.
pub open spec fn names_unknown_key(token: Seq<char>, keys: Seq<SigningKeyView>) -> bool {
    match opened(token) {
        Some((_, header)) => key_for(keys, header.key_id) is None,
        None => false,
    }
}

/// What to do next with a token.
#[derive(Debug, PartialEq, Eq)]
pub enum VerifyStep {
    /// The verdict stands.
    Done(Result<Claims, VerificationError>),
    /// The token declares a key that is not in the set, and a fetch is due: fetch
    /// the keys, then verify once more.
    FetchKeys,
}

pub enum VerifyStepView {
    Done(Result<ClaimsView, VerificationError>),
    FetchKeys,
}

impl View for VerifyStep {
    type V = VerifyStepView;

    open spec fn view(&self) -> VerifyStepView {
        match self {
            VerifyStep::Done(verdict) => VerifyStepView::Done(verdict_view(*verdict)),
            VerifyStep::FetchKeys => VerifyStepView::FetchKeys,
        }
    }
}

/// Whether a token calls for the keys to be fetched at `now`: it declares an
/// unknown key, and a fetch is due.
pub open spec fn fetch_called_for(token: Seq<char>, cache: KeyMaterialCacheView, now: u64) -> bool {
    names_unknown_key(token, cache.keys.keys) && refresh_due(cache, now)
}

/// Verifies a token against the keys in use and changes nothing. A token that
/// declares an unknown key calls for a fetch if one is due; the fetch is not yet
/// granted by this. In every other case the verdict is that of
/// [`crate::token::verify`].
pub fn verify_cached(token: &str, cache: &KeyMaterialCache, config: &VerifierConfig, now: u64) -> (step:
    VerifyStep)
    ensures
        step@ == if fetch_called_for(token@, cache@, now) {
            VerifyStepView::FetchKeys
        } else {
            VerifyStepView::Done(verify_outcome(token@, cache@.keys.keys, config@, now))
        },
        step matches VerifyStep::Done(Ok(claims)) ==> distinct_orgs(claims@.memberships),
{
    match open_token(token) {
        Some((parts, header)) => {
            let known = find_key(cache.current_keys().keys(), &header.key_id).is_some();
            if !known && cache.may_refresh(now) {
                VerifyStep::FetchKeys
            } else {
                VerifyStep::Done(verify_opened(&parts, &header, cache.current_keys(), config, now))
            }
        },
        None => VerifyStep::Done(Err(VerificationError::Malformed)),
    }
}

/// Verifies a token against the keys in use. A token that declares an unknown key
/// calls for a fetch if one is due, which is then recorded as granted at `now`;
/// if none is due the token is refused for its signature. In every other case the
/// verdict is that of [`crate::token::verify`] and the cache stays as it is.
pub fn verify_or_refresh(
    token: &str,
    cache: &mut KeyMaterialCache,
    config: &VerifierConfig,
    now: u64,
) -> (step: VerifyStep)
    ensures
        step@ == if fetch_called_for(token@, old(cache)@, now) {
            VerifyStepView::FetchKeys
        } else {
            VerifyStepView::Done(verify_outcome(token@, old(cache)@.keys.keys, config@, now))
        },
        final(cache)@ == if fetch_called_for(token@, old(cache)@, now) {
            KeyMaterialCacheView { last_attempt: Some(now), ..old(cache)@ }
        } else {
            old(cache)@
        },
        step matches VerifyStep::Done(Ok(claims)) ==> distinct_orgs(claims@.memberships),
{
    match open_token(token) {
        Some((parts, header)) => {
            let known = find_key(cache.current_keys().keys(), &header.key_id).is_some();
            if !known && cache.begin_refresh(now) {
                VerifyStep::FetchKeys
            } else {
                VerifyStep::Done(verify_opened(&parts, &header, cache.current_keys(), config, now))
            }
        },
        None => VerifyStep::Done(Err(VerificationError::Malformed)),
    }
}

/// The verdict on a token after the keys were fetched again: a token that still
/// declares an unknown key is refused for that; any other token gets the verdict
/// of [`crate::token::verify`].
pub open spec fn refreshed_outcome(
    token: Seq<char>,
    keys: Seq<SigningKeyView>,
    config: VerifierConfigView,
    now: u64,
) -> Result<ClaimsView, VerificationError> {
    if names_unknown_key(token, keys) {
        Err(VerificationError::UnknownKeyId)
    } else {
        verify_outcome(token, keys, config, now)
    }
}

/// Verifies a token once more, after a fetch that [`verify_or_refresh`] called
/// for. `keys` is the set in use now: the new one, or the old one if the fetch
/// brought nothing usable. No further fetch is asked for.
pub fn verify_refreshed(token: &str, keys: &SigningKeySet, config: &VerifierConfig, now: u64) -> (verdict:
    Result<Claims, VerificationError>)
    ensures
        verdict_view(verdict) == refreshed_outcome(token@, keys@.keys, config@, now),
        verdict matches Ok(claims) ==> distinct_orgs(claims@.memberships),
{
    match open_token(token) {
        Some((parts, header)) => {
            if find_key(keys.keys(), &header.key_id).is_none() {
                Err(VerificationError::UnknownKeyId)
            } else {
                verify_opened(&parts, &header, keys, config, now)
            }
        },
        None => Err(VerificationError::Malformed),
    }
}

/// Ends a fetch that [`verify_or_refresh`] called for. Keys that were fetched and
/// are usable replace the set in use, as a whole; after a fetch that brought
/// nothing usable the set stays. The token is then verified once more, and no
/// further fetch is asked for.
pub fn finish_refresh(
    token: &str,
    cache: &mut KeyMaterialCache,
    fetched: Result<SigningKeySet, InitError>,
    config: &VerifierConfig,
    now: u64,
) -> (verdict: Result<Claims, VerificationError>)
    ensures
        final(cache)@ == match fetched {
            Ok(keys) => KeyMaterialCacheView { keys: keys@, ..old(cache)@ },
            Err(_) => old(cache)@,
        },
        verdict_view(verdict) == refreshed_outcome(token@, final(cache)@.keys.keys, config@, now),
        verdict matches Ok(claims) ==> distinct_orgs(claims@.memberships),
{
    match fetched {
        Ok(keys) => {
            cache.install(keys);
        },
        Err(_) => {},
    }
    verify_refreshed(token, cache.current_keys(), config, now)
}

/// A token that declares an unknown key makes the keys be fetched at most once per
/// cool-down: after a fetch was granted at `granted_at`, such a token calls for
/// none at any `now` before `granted_at` plus the cool-down, and is refused for
/// its signature.
pub proof fn unknown_key_refreshes_once(
    token: Seq<char>,
    cache: KeyMaterialCacheView,
    config: VerifierConfigView,
    granted_at: u64,
    now: u64,
)
    requires
        names_unknown_key(token, cache.keys.keys),
        cache.last_attempt == Some(granted_at),
        now < granted_at + cache.cooldown_secs,
    ensures
        !fetch_called_for(token, cache, now),
        verify_outcome(token, cache.keys.keys, config, now) == Err::<ClaimsView, _>(
            VerificationError::InvalidSignature,
        ),
{
}

} // verus!
