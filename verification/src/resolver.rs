//! The version resolver: which adapter version to run.
//!
//! The resolver walks a fixed chain of sources and stops at the first that
//! gives a version: an explicit override, the cached latest version while it
//! is fresh, the release listing, the cached version whatever its age, and
//! at last a fixed floor. The release listing is asked for by the host, and
//! only when the first two sources gave nothing, so the chain is split in
//! two steps around that request.

use vstd::prelude::*;

verus! {

/// The version that is taken when no other source gives one.
pub const MINIMUM_ADAPTER_VERSION: &'static str = "0.1.1";

/// The number of seconds for which a cached version is taken without
/// asking the release listing again.
pub const VERSION_CACHE_TTL_SECS: u64 = 24 * 60 * 60;

/// The cached latest version and the time, in seconds since the epoch, at
/// which it was fetched.
#[derive(Clone, Debug, PartialEq, Eq)]
pub struct CachedVersion {
    pub version: String,
    pub fetched_at: u64,
}

/// The model of a `CachedVersion`.
pub struct CacheEntry {
    pub version: Seq<char>,
    pub fetched_at: u64,
}

impl View for CachedVersion {
    type V = CacheEntry;

    open spec fn view(&self) -> CacheEntry {
        CacheEntry { version: self.version@, fetched_at: self.fetched_at }
    }
}

impl DeepView for CachedVersion {
    type V = CacheEntry;

    open spec fn deep_view(&self) -> CacheEntry {
        self.view()
    }
}

/// The source that a resolved version was taken from.
#[derive(Clone, Copy, Debug, PartialEq, Eq, Structural)]
pub enum VersionSource {
    /// The explicit override.
    Override,
    /// The cache, younger than the time to live.
    FreshCache,
    /// The release listing.
    Remote,
    /// The cache, whatever its age, after the release listing gave nothing.
    StaleCache,
    /// The fixed floor.
    Floor,
}

/// A resolved version and where it came from.
#[derive(Clone, Debug, PartialEq, Eq)]
pub struct Resolution {
    pub version: String,
    pub source: VersionSource,
}

/// The model of a `Resolution`.
pub struct Choice {
    pub version: Seq<char>,
    pub source: VersionSource,
}

impl View for Resolution {
    type V = Choice;

    open spec fn view(&self) -> Choice {
        Choice { version: self.version@, source: self.source }
    }
}

impl DeepView for Resolution {
    type V = Choice;

    open spec fn deep_view(&self) -> Choice {
        self.view()
    }
}

/// The age of a cache entry fetched at `fetched_at` when the clock reads
/// `now`: a clock that reads less than `fetched_at` gives age zero.
pub open spec fn cache_age(now: u64, fetched_at: u64) -> int {
    if now >= fetched_at {
        now - fetched_at
    } else {
        0
    }
}

/// The entry is younger than `ttl` seconds.
pub open spec fn is_fresh(entry: CacheEntry, now: u64, ttl: u64) -> bool {
    cache_age(now, entry.fetched_at) < ttl
}

/// The first two links of the chain: a non-empty override, taken as it
/// stands, else a fresh cache entry. `None` says that the release listing
/// has to be asked.
pub open spec fn offline_choice(
    pin: Option<Seq<char>>,
    cache: Option<CacheEntry>,
    now: u64,
    ttl: u64,
) -> Option<Choice> {
    if pin is Some && pin->0.len() > 0 {
        Some(Choice { version: pin->0, source: VersionSource::Override })
    } else if cache is Some && is_fresh(cache->0, now, ttl) {
        Some(Choice { version: cache->0.version, source: VersionSource::FreshCache })
    } else {
        None
    }
}

/// The last three links of the chain: what the release listing gave, else
/// the cache entry whatever its age, else the floor.
pub open spec fn online_choice(fetched: Option<Seq<char>>, cache: Option<CacheEntry>) -> Choice {
    if fetched is Some {
        Choice { version: fetched->0, source: VersionSource::Remote }
    } else if cache is Some {
        Choice { version: cache->0.version, source: VersionSource::StaleCache }
    } else {
        Choice { version: MINIMUM_ADAPTER_VERSION@, source: VersionSource::Floor }
    }
}

/// The whole chain, for a release listing that gives `fetched` when asked.
pub open spec fn choice(
    pin: Option<Seq<char>>,
    cache: Option<CacheEntry>,
    now: u64,
    ttl: u64,
    fetched: Option<Seq<char>>,
) -> Choice {
    match offline_choice(pin, cache, now, ttl) {
        Some(c) => c,
        None => online_choice(fetched, cache),
    }
}

/// Tells whether a cache entry fetched at `fetched_at` is younger than
/// `ttl` seconds at `now`.
pub fn fresh(fetched_at: u64, now: u64, ttl: u64) -> (r: bool)
    ensures
        r == (cache_age(now, fetched_at) < ttl),
{
    let age: u64 = if now >= fetched_at {
        now - fetched_at
    } else {
        0
    };
    age < ttl
}

/// Resolves the version without the release listing, if that can be done.
pub fn resolve_offline(pin: Option<&str>, cache: Option<&CachedVersion>, now: u64, ttl: u64) -> (r:
    Option<Resolution>)
    ensures
        r.deep_view() == offline_choice(pin.deep_view(), cache.deep_view(), now, ttl),
{
    if let Some(p) = pin {
        if p.unicode_len() > 0 {
            return Some(Resolution { version: p.to_owned(), source: VersionSource::Override });
        }
    }
    if let Some(entry) = cache {
        if fresh(entry.fetched_at, now, ttl) {
            return Some(
                Resolution { version: entry.version.clone(), source: VersionSource::FreshCache },
            );
        }
    }
    None
}

/// Resolves the version from what the release listing gave.
pub fn resolve_online(fetched: Option<String>, cache: Option<CachedVersion>) -> (r: Resolution)
    ensures
        r@ == online_choice(fetched.deep_view(), cache.deep_view()),
{
    match fetched {
        Some(version) => Resolution { version, source: VersionSource::Remote },
        None => match cache {
            Some(entry) => Resolution { version: entry.version, source: VersionSource::StaleCache },
            None => Resolution {
                version: MINIMUM_ADAPTER_VERSION.to_owned(),
                source: VersionSource::Floor,
            },
        },
    }
}

/// No override is given: there is none, or it is empty.
pub open spec fn no_override(pin: Option<Seq<char>>) -> bool {
    pin is None || pin->0.len() == 0
}

/// A non-empty override is the version, as it stands, whatever the cache
/// holds and whatever the release listing gives.
pub proof fn lemma_override_wins(
    pin: Seq<char>,
    cache: Option<CacheEntry>,
    now: u64,
    ttl: u64,
    fetched: Option<Seq<char>>,
)
    requires
        pin.len() > 0,
    ensures
        choice(Some(pin), cache, now, ttl, fetched) == (Choice {
            version: pin,
            source: VersionSource::Override,
        }),
{
}

/// Without an override, a cache entry younger than the time to live is the
/// version: the release listing is not asked, and what it would give
/// changes nothing.
pub proof fn lemma_fresh_cache_wins(
    pin: Option<Seq<char>>,
    entry: CacheEntry,
    now: u64,
    ttl: u64,
    fetched: Option<Seq<char>>,
)
    requires
        no_override(pin),
        is_fresh(entry, now, ttl),
    ensures
        offline_choice(pin, Some(entry), now, ttl) is Some,
        choice(pin, Some(entry), now, ttl, fetched) == (Choice {
            version: entry.version,
            source: VersionSource::FreshCache,
        }),
{
}

/// Without an override and without a fresh cache entry, what the release
/// listing gives is the version.
pub proof fn lemma_listing_wins(
    pin: Option<Seq<char>>,
    cache: Option<CacheEntry>,
    now: u64,
    ttl: u64,
    fetched: Seq<char>,
)
    requires
        no_override(pin),
        cache is Some ==> !is_fresh(cache->0, now, ttl),
    ensures
        offline_choice(pin, cache, now, ttl) is None,
        choice(pin, cache, now, ttl, Some(fetched)) == (Choice {
            version: fetched,
            source: VersionSource::Remote,
        }),
{
}

/// Without an override, with a cache entry that is too old and a release
/// listing that gives nothing, the cache entry is the version, not the
/// floor.
pub proof fn lemma_stale_cache_outlives_outage(
    pin: Option<Seq<char>>,
    entry: CacheEntry,
    now: u64,
    ttl: u64,
)
    requires
        no_override(pin),
        !is_fresh(entry, now, ttl),
    ensures
        choice(pin, Some(entry), now, ttl, None) == (Choice {
            version: entry.version,
            source: VersionSource::StaleCache,
        }),
{
}

/// Without an override, without a cache entry and with a release listing
/// that gives nothing, the floor is the version.
pub proof fn lemma_floor_is_last(pin: Option<Seq<char>>, now: u64, ttl: u64)
    requires
        no_override(pin),
    ensures
        choice(pin, None, now, ttl, None) == (Choice {
            version: MINIMUM_ADAPTER_VERSION@,
            source: VersionSource::Floor,
        }),
{
}

/// The chain always gives a version that is not empty, as long as the
/// cache and the release listing give none that is.
pub proof fn lemma_choice_not_empty(
    pin: Option<Seq<char>>,
    cache: Option<CacheEntry>,
    now: u64,
    ttl: u64,
    fetched: Option<Seq<char>>,
)
    requires
        cache is Some ==> cache->0.version.len() > 0,
        fetched is Some ==> fetched->0.len() > 0,
    ensures
        choice(pin, cache, now, ttl, fetched).version.len() > 0,
{
    reveal_strlit("0.1.1");
}

} // verus!
