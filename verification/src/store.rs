//! The local state store: what the three records say.
//!
//! The host keeps three small text records: the installed version, the
//! latest known version, and the time at which that one was fetched. It
//! reads and writes them; this module says what a record's text means and
//! what text is written. A record that is missing or cannot be read is
//! handed in as `None`.

use crate::decimal::{
    decimal_u64, digits_of, format_u64, is_digit, lemma_decimal_round_trip, lemma_digits_of,
    parse_u64,
};
use crate::resolver::{CacheEntry, CachedVersion};
use crate::text::{
    lemma_trimmed_fixed, lemma_trimmed_idempotent, non_blank, trim, trim_non_blank, trimmed,
};
use vstd::prelude::*;

verus! {

/// Text that can stand for a version in a record: it is not empty and
/// trimming leaves it as it is.
pub open spec fn is_version_text(version: Seq<char>) -> bool {
    version.len() > 0 && trimmed(version) == version
}

/// The version that a record names: its trimmed text, unless that is
/// empty.
pub open spec fn version_record(text: Option<Seq<char>>) -> Option<Seq<char>> {
    non_blank(text)
}

/// The time that a record names: its trimmed text read as a number, and
/// zero where there is no such number.
pub open spec fn timestamp_record(text: Option<Seq<char>>) -> u64 {
    match text {
        Some(t) => match decimal_u64(trimmed(t)) {
            Some(seconds) => seconds,
            None => 0,
        },
        None => 0,
    }
}

/// The cache entry that the two cache records make: none without a
/// version, and one fetched at time zero without a readable time.
pub open spec fn cache_record(version: Option<Seq<char>>, timestamp: Option<Seq<char>>) -> Option<
    CacheEntry,
> {
    match version_record(version) {
        Some(v) => Some(CacheEntry { version: v, fetched_at: timestamp_record(timestamp) }),
        None => None,
    }
}

/// The installed version that the marker's text names.
pub fn installed_version(marker: Option<&str>) -> (r: Option<String>)
    ensures
        r.deep_view() == version_record(marker.deep_view()),
{
    trim_non_blank(marker)
}

/// The cached latest version that the two cache records name.
pub fn cached_latest_version(version: Option<&str>, timestamp: Option<&str>) -> (r: Option<
    CachedVersion,
>)
    ensures
        r.deep_view() == cache_record(version.deep_view(), timestamp.deep_view()),
{
    let version = match installed_version(version) {
        Some(version) => version,
        None => { return None; },
    };
    let fetched_at = match timestamp {
        Some(text) => match parse_u64(trim(text)) {
            Some(seconds) => seconds,
            None => 0,
        },
        None => 0,
    };
    Some(CachedVersion { version, fetched_at })
}

/// The text of the marker that names `version` as installed.
pub fn installed_marker(version: &str) -> (r: String)
    ensures
        r@ == version@,
{
    version.to_owned()
}

/// The texts of the two cache records for a version fetched at `now`.
pub fn cache_records(version: &str, now: u64) -> (r: (String, String))
    ensures
        r.0@ == version@,
        r.1@ == digits_of(now as nat),
{
    (version.to_owned(), format_u64(now))
}

/// What a record names is a version text.
pub proof fn lemma_record_names_version_text(text: Option<Seq<char>>)
    ensures
        version_record(text) matches Some(version) ==> is_version_text(version),
{
    if text is Some {
        lemma_trimmed_idempotent(text->0);
    }
}

/// A marker that was written for a version names that version when it is
/// read.
pub proof fn lemma_marker_round_trip(version: Seq<char>)
    requires
        is_version_text(version),
    ensures
        version_record(Some(version)) == Some(version),
{
}

/// Cache records that were written for a version and a time name that
/// version and that time when they are read.
pub proof fn lemma_cache_round_trip(version: Seq<char>, now: u64)
    requires
        is_version_text(version),
    ensures
        cache_record(Some(version), Some(digits_of(now as nat))) == Some(
            CacheEntry { version, fetched_at: now },
        ),
{
    let digits = digits_of(now as nat);
    lemma_digits_of(now as nat);
    lemma_decimal_round_trip(now);
    assert(is_digit(digits.first()));
    assert(is_digit(digits.last()));
    lemma_trimmed_fixed(digits);
}

} // verus!
