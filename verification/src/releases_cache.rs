//! Cache and rate limit for release-feed fetches: how long a cached list stays fresh, how
//! soon a manual check may run again, and the notes shown with cached results.
//!
//! The clock and the environment settings are read by the caller and handed in.

use vstd::prelude::*;
use vstd::string::*;
use crate::releases::CpnRelease;
use crate::text::{dec, parse_u64, parse_u64_spec, push_dec};

verus! {

/// Cached lists stay fresh for 30 minutes unless configured otherwise.
pub const DEFAULT_CACHE_TTL_SECS: u64 = 1800;

/// A manual check waits at least a minute after the previous attempt unless configured.
pub const DEFAULT_CHECK_MIN_INTERVAL_SECS: u64 = 60;

/// The cache file: the repository, when it was fetched and last tried, and the releases.
pub struct ReleasesCacheFile {
    pub schema_version: u32,
    pub repo: String,
    pub fetched_at_unix: u64,
    pub last_attempt_unix: u64,
    pub etag: Option<String>,
    pub releases: Vec<CpnRelease>,
    pub last_error: Option<String>,
}

/// What a fetch hands back: the releases and how they were obtained.
pub struct ReleasesFetchResult {
    pub releases: Vec<CpnRelease>,
    pub from_cache: bool,
    pub cache_age_secs: Option<u64>,
    pub rate_limited: bool,
    pub retry_after_secs: Option<u64>,
    pub note: Option<String>,
    pub soft_error: Option<String>,
}

/// A numeric setting: its parsed value when it parses and is at least `floor`, else `default`.
pub open spec fn setting_spec(raw: Option<Seq<char>>, floor: u64, default: u64) -> u64 {
    match raw {
        Some(s) => match parse_u64_spec(s) {
            Some(v) => if v >= floor {
                v
            } else {
                default
            },
            None => default,
        },
        None => default,
    }
}

fn setting_or(raw: Option<&str>, floor: u64, default: u64) -> (r: u64)
    ensures
        r == setting_spec(crate::text::opt_view(raw), floor, default),
{
    match raw {
        Some(s) => match parse_u64(s) {
            Some(v) => if v >= floor {
                v
            } else {
                default
            },
            None => default,
        },
        None => default,
    }
}

/// Cache lifetime from the `CPN_RELEASES_CACHE_TTL_SECS` setting (at least 60 s).
pub fn cache_ttl_secs(raw: Option<&str>) -> (r: u64)
    ensures
        r == setting_spec(crate::text::opt_view(raw), 60, DEFAULT_CACHE_TTL_SECS),
{
    setting_or(raw, 60, DEFAULT_CACHE_TTL_SECS)
}

/// Minimum interval between manual checks from `CPN_RELEASES_CHECK_MIN_INTERVAL_SECS`
/// (at least 5 s).
pub fn check_min_interval_secs(raw: Option<&str>) -> (r: u64)
    ensures
        r == setting_spec(crate::text::opt_view(raw), 5, DEFAULT_CHECK_MIN_INTERVAL_SECS),
{
    setting_or(raw, 5, DEFAULT_CHECK_MIN_INTERVAL_SECS)
}

/// `a.saturating_sub(b)`.
pub open spec fn sat_sub(a: u64, b: u64) -> u64 {
    if a >= b {
        (a - b) as u64
    } else {
        0
    }
}

/// Fresh: same repository, at least one release, and fetched no more than `ttl` seconds
/// before `now`.
pub open spec fn cache_fresh_spec(cache: ReleasesCacheFile, repo: Seq<char>, now: u64, ttl: u64) -> bool {
    cache.repo@ == repo && cache.releases@.len() > 0 && sat_sub(now, cache.fetched_at_unix) <= ttl
}

pub fn cache_is_fresh(cache: &ReleasesCacheFile, repo: &str, now: u64, ttl: u64) -> (r: bool)
    ensures
        r == cache_fresh_spec(*cache, repo@, now, ttl),
{
    if !crate::text::str_eq(cache.repo.as_str(), repo) || cache.releases.len() == 0 {
        return false;
    }
    let age = now.saturating_sub(cache.fetched_at_unix);
    age <= ttl
}

/// Seconds left before another check may run, `None` when it may run now.
pub open spec fn next_check_spec(last_attempt: u64, now: u64, min: u64) -> Option<u64> {
    let elapsed = sat_sub(now, last_attempt);
    if elapsed >= min {
        None
    } else {
        Some((min - elapsed) as u64)
    }
}

pub fn seconds_until_next_check(cache: &ReleasesCacheFile, now: u64, min_interval: u64) -> (r: Option<u64>)
    ensures
        r == next_check_spec(cache.last_attempt_unix, now, min_interval),
{
    let elapsed = now.saturating_sub(cache.last_attempt_unix);
    if elapsed >= min_interval {
        None
    } else {
        Some(min_interval - elapsed)
    }
}

/// The message for a failed fetch with HTTP `status`.
pub open spec fn rate_limit_message_spec(status: u16) -> Seq<char> {
    if status == 403 {
        "GitHub Releases returned HTTP 403 (rate limit or access denied). Showing cached results when available. Try again later, or set a token in CPN_GITHUB_TOKEN / secrets/github-token."@
    } else if status == 429 {
        "GitHub Releases returned HTTP 429 (rate limited). Showing cached results when available. Try again later."@
    } else {
        "GitHub Releases request failed (HTTP "@ + dec(status as nat)
            + "). Showing cached results when available."@
    }
}

pub fn friendly_rate_limit_message(status: u16) -> (r: String)
    ensures
        r@ == rate_limit_message_spec(status),
{
    if status == 403 {
        "GitHub Releases returned HTTP 403 (rate limit or access denied). Showing cached results when available. Try again later, or set a token in CPN_GITHUB_TOKEN / secrets/github-token.".to_owned()
    } else if status == 429 {
        "GitHub Releases returned HTTP 429 (rate limited). Showing cached results when available. Try again later.".to_owned()
    } else {
        let mut out = "GitHub Releases request failed (HTTP ".to_owned();
        push_dec(&mut out, status as u64);
        out.append("). Showing cached results when available.");
        out
    }
}

/// The note shown with cached results.
pub open spec fn note_for_cached_spec(age_secs: u64, rate_limited: bool, retry_after: Option<u64>) -> Seq<
    char,
> {
    if rate_limited {
        match retry_after {
            Some(secs) => "Checked recently; showing cached results. Try again in "@ + dec(
                secs as nat,
            ) + " seconds."@,
            None => "Checked recently; showing cached results."@,
        }
    } else if age_secs == 0 {
        "Showing cached release list."@
    } else if age_secs < 120 {
        "Showing cached release list (about "@ + dec(age_secs as nat) + " seconds old)."@
    } else {
        "Showing cached release list (about "@ + dec((age_secs / 60) as nat) + " minutes old)."@
    }
}

#[verifier::rlimit(60)]
#[verifier::spinoff_prover]
pub fn note_for_cached(age_secs: u64, rate_limited: bool, retry_after: Option<u64>) -> (r: String)
    ensures
        r@ == note_for_cached_spec(age_secs, rate_limited, retry_after),
{
    if rate_limited {
        if let Some(secs) = retry_after {
            let mut out = "Checked recently; showing cached results. Try again in ".to_owned();
            push_dec(&mut out, secs);
            out.append(" seconds.");
            return out;
        }
        return "Checked recently; showing cached results.".to_owned();
    }
    if age_secs == 0 {
        "Showing cached release list.".to_owned()
    } else if age_secs < 120 {
        let mut out = "Showing cached release list (about ".to_owned();
        push_dec(&mut out, age_secs);
        out.append(" seconds old).");
        out
    } else {
        let mins = age_secs / 60;
        let mut out = "Showing cached release list (about ".to_owned();
        push_dec(&mut out, mins);
        out.append(" minutes old).");
        out
    }
}

/// Records an attempt at time `now`; nothing else changes.
pub fn mark_attempt(cache: &mut ReleasesCacheFile, now: u64)
    ensures
        final(cache).last_attempt_unix == now,
        final(cache).schema_version == old(cache).schema_version,
        final(cache).repo == old(cache).repo,
        final(cache).fetched_at_unix == old(cache).fetched_at_unix,
        final(cache).etag == old(cache).etag,
        final(cache).releases == old(cache).releases,
        final(cache).last_error == old(cache).last_error,
{
    cache.last_attempt_unix = now;
}

/// The cache after a successful fetch at `now`: fetched and attempted then, no error, and
/// the new entity tag, or the previous one when the response had none.
pub fn store_success(
    repo: &str,
    releases: Vec<CpnRelease>,
    etag: Option<String>,
    previous: Option<ReleasesCacheFile>,
    now: u64,
) -> (r: ReleasesCacheFile)
    ensures
        r.schema_version == 1,
        r.repo@ == repo@,
        r.fetched_at_unix == now,
        r.last_attempt_unix == now,
        r.etag == (match etag {
            Some(e) => Some(e),
            None => match previous {
                Some(p) => p.etag,
                None => None,
            },
        }),
        r.releases == releases,
        r.last_error is None,
{
    let tag = match etag {
        Some(e) => Some(e),
        None => match previous {
            Some(p) => p.etag,
            None => None,
        },
    };
    ReleasesCacheFile {
        schema_version: 1,
        repo: repo.to_owned(),
        fetched_at_unix: now,
        last_attempt_unix: now,
        etag: tag,
        releases,
        last_error: None,
    }
}

/// Seconds since the cached list was fetched, `0` when the clock is behind it.
pub fn age_secs(cache: &ReleasesCacheFile, now: u64) -> (r: u64)
    ensures
        r == sat_sub(now, cache.fetched_at_unix),
{
    now.saturating_sub(cache.fetched_at_unix)
}

/// Law: a list just stored is fresh for its repository at the moment it was stored.
pub proof fn lemma_stored_cache_is_fresh(cache: ReleasesCacheFile, repo: Seq<char>, now: u64, ttl: u64)
    requires
        cache.repo@ == repo,
        cache.fetched_at_unix == now,
        cache.releases@.len() > 0,
    ensures
        cache_fresh_spec(cache, repo, now, ttl),
{
}

/// Law: right after an attempt at `now`, another check must wait the full interval.
pub proof fn lemma_check_waits_after_attempt(now: u64, min: u64)
    requires
        min > 0,
    ensures
        next_check_spec(now, now, min) == Some(min),
{
}


/// Where the releases cache is kept: `github-releases-cache.json` in the data directory.
pub fn cache_path(data_dir: &str) -> (r: String)
    ensures
        r@ == crate::paths::path_join(data_dir@, "github-releases-cache.json"@),
{
    crate::paths::join_data(data_dir, "github-releases-cache.json")
}

} // verus!
