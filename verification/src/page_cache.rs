//! Expiry rules of the page cache.

use vstd::prelude::*;

verus! {

/// How long a cached page stays valid, in seconds (one day).
pub const PAGE_CACHE_TTL_SECONDS: i64 = 86400;

/// When a page cached at `now` expires.
pub fn page_expiry(now: i64, ttl_seconds: i64) -> (r: i64)
    requires
        i64::MIN <= now + ttl_seconds <= i64::MAX,
    ensures
        r == now + ttl_seconds,
{
    now + ttl_seconds
}

/// Whether an entry expiring at `expires_at` is still served at `now`.
pub open spec fn page_live(expires_at: i64, now: i64) -> bool {
    expires_at > now
}

pub fn is_page_live(expires_at: i64, now: i64) -> (r: bool)
    ensures
        r == page_live(expires_at, now),
{
    expires_at > now
}

/// A page cached at `cached_at` is served at `now` exactly while less than
/// the time to live has passed.
pub proof fn lemma_page_live_window(cached_at: i64, ttl_seconds: i64, now: i64)
    requires
        i64::MIN <= cached_at + ttl_seconds <= i64::MAX,
    ensures
        page_live((cached_at + ttl_seconds) as i64, now) <==> now - cached_at < ttl_seconds,
{
}

/// Counts of the page cache: all entries, live ones, expired ones.
#[derive(Debug, Clone, Copy, PartialEq, Eq, Structural)]
pub struct CacheStats {
    pub total: i32,
    pub valid: i32,
    pub expired: i32,
}

/// The statistics of a cache holding `total` entries of which `valid` are
/// live: the others are expired.
pub fn cache_stats_from_counts(total: i32, valid: i32) -> (r: CacheStats)
    requires
        i32::MIN <= total - valid <= i32::MAX,
    ensures
        r.total == total,
        r.valid == valid,
        r.expired == total - valid,
        r.valid + r.expired == r.total,
{
    CacheStats { total, valid, expired: total - valid }
}

} // verus!
