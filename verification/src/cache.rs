//! The key set in use, and when it may be fetched again.
//!
//! A token that names a key which the set does not hold may have been signed after
//! the issuer rotated its keys. The set may then be fetched once more, but no more
//! often than once per cool-down, so that tokens with made-up key identifiers cannot
//! make the service fetch over and over.

use crate::keys::{SigningKeySet, SigningKeySetView};
use vstd::prelude::*;

verus! {

/// The cool-down to use where nothing else is configured, in seconds.
pub const DEFAULT_REFRESH_COOLDOWN_SECS: u64 = 300;

/// The key set in use, with the time of the last attempt to fetch it again.
pub struct KeyMaterialCache {
    keys: SigningKeySet,
    cooldown_secs: u64,
    last_attempt: Option<u64>,
}

pub struct KeyMaterialCacheView {
    pub keys: SigningKeySetView,
    pub cooldown_secs: u64,
    /// When a new fetch was last granted, in seconds since the epoch.
    pub last_attempt: Option<u64>,
}

/// Whether a new fetch may start at `now`: none was granted before, or the last
/// one was granted at least a cool-down ago.
pub open spec fn refresh_due(cache: KeyMaterialCacheView, now: u64) -> bool {
    match cache.last_attempt {
        None => true,
        Some(at) => at + cache.cooldown_secs <= now,
    }
}

impl View for KeyMaterialCache {
    type V = KeyMaterialCacheView;

    closed spec fn view(&self) -> KeyMaterialCacheView {
        KeyMaterialCacheView {
            keys: self.keys@,
            cooldown_secs: self.cooldown_secs,
            last_attempt: self.last_attempt,
        }
    }
}

impl KeyMaterialCache {
    /// A cache that holds `keys` and has granted no fetch yet.
    pub fn new(keys: SigningKeySet, cooldown_secs: u64) -> (cache: KeyMaterialCache)
        ensures
            cache@ == (KeyMaterialCacheView { keys: keys@, cooldown_secs, last_attempt: None }),
    {
        KeyMaterialCache { keys, cooldown_secs, last_attempt: None }
    }

    /// The key set in use. Reading it fetches nothing.
    pub fn current_keys(&self) -> (keys: &SigningKeySet)
        ensures
            keys@ == self@.keys,
    {
        &self.keys
    }

    /// Whether a new fetch may start at `now`.
    pub fn may_refresh(&self, now: u64) -> (due: bool)
        ensures
            due == refresh_due(self@, now),
    {
        match self.last_attempt {
            None => true,
            Some(at) => now >= at && now - at >= self.cooldown_secs,
        }
    }

    /// Asks for a new fetch at `now`. Where one is due it is granted and `now` is
    /// recorded as the time of the last attempt; otherwise nothing changes.
    pub fn begin_refresh(&mut self, now: u64) -> (granted: bool)
        ensures
            granted == refresh_due(old(self)@, now),
            granted ==> final(self)@ == (KeyMaterialCacheView {
                last_attempt: Some(now),
                ..old(self)@
            }),
            !granted ==> final(self)@ == old(self)@,
    {
        if self.may_refresh(now) {
            self.last_attempt = Some(now);
            true
        } else {
            false
        }
    }

    /// Replaces the key set in use by `keys`, as a whole.
    pub fn install(&mut self, keys: SigningKeySet)
        ensures
            final(self)@ == (KeyMaterialCacheView { keys: keys@, ..old(self)@ }),
    {
        self.keys = keys;
    }
}

/// Fetches are bounded: once a fetch was granted, none is granted again before a
/// full cool-down has passed.
pub proof fn no_refresh_within_cooldown(cache: KeyMaterialCacheView, granted_at: u64, now: u64)
    requires
        cache.last_attempt == Some(granted_at),
        now < granted_at + cache.cooldown_secs,
    ensures
        !refresh_due(cache, now),
{
}

} // verus!
