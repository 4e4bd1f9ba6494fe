//! Size, count and age limits of the image cache, and which entries go when
//! they are exceeded.

use vstd::prelude::*;

verus! {

/// The limits of the image cache: total bytes, entries, and age in days.
#[derive(Debug, Clone, Copy, PartialEq, Eq, Structural)]
pub struct ImageCachePolicy {
    pub max_cache_size: i64,
    pub max_cache_items: i32,
    pub ttl_days: i64,
}

/// 500 MiB, 1000 entries, 60 days.
pub fn default_image_cache_policy() -> (r: ImageCachePolicy)
    ensures
        r.max_cache_size == 500 * 1024 * 1024,
        r.max_cache_items == 1000,
        r.ttl_days == 60,
{
    ImageCachePolicy { max_cache_size: 500 * 1024 * 1024, max_cache_items: 1000, ttl_days: 60 }
}

/// The creation time before which an entry has expired at `now`.
pub fn expiry_cutoff(now: i64, ttl_days: i64) -> (r: i64)
    requires
        i64::MIN <= ttl_days * 86400 <= i64::MAX,
        i64::MIN <= now - ttl_days * 86400 <= i64::MAX,
    ensures
        r == now - ttl_days * 86400,
{
    now - ttl_days * 86400
}

/// Whether an entry created at `created_at` is served at the cutoff.
pub fn is_image_fresh(created_at: i64, cutoff: i64) -> (r: bool)
    ensures
        r == (created_at > cutoff),
{
    created_at > cutoff
}

/// The sum of the first `n` sizes.
pub open spec fn prefix_sum(sizes: Seq<i64>, n: int) -> int
    decreases n,
{
    if n <= 0 {
        0
    } else {
        prefix_sum(sizes, n - 1) + sizes[n - 1]
    }
}

/// How many bytes an oversized cache frees: twice the excess.
pub open spec fn bytes_to_free(total_size: i64, max_size: i64) -> int {
    (total_size - max_size) * 2
}

/// The number of least recently used entries removed when the cache is over
/// its size: none within the limit; else the shortest run from the least
/// recently used whose sizes reach twice the excess, or all of them.
pub open spec fn size_eviction_count(sizes: Seq<i64>, total_size: i64, max_size: i64) -> int {
    if total_size <= max_size {
        0
    } else {
        size_eviction_from(sizes, bytes_to_free(total_size, max_size), 1)
    }
}

/// The first `k >= from` whose prefix reaches `target`, or the length.
pub open spec fn size_eviction_from(sizes: Seq<i64>, target: int, from: int) -> int
    decreases sizes.len() - from,
{
    if from >= sizes.len() {
        sizes.len() as int
    } else if prefix_sum(sizes, from) >= target {
        from
    } else {
        size_eviction_from(sizes, target, from + 1)
    }
}

proof fn lemma_prefix_sum_nonneg(sizes: Seq<i64>, n: int)
    requires
        n <= sizes.len(),
        forall|i: int| 0 <= i < sizes.len() ==> sizes[i] >= 0,
    ensures
        0 <= prefix_sum(sizes, n),
    decreases n,
{
    if n > 0 {
        lemma_prefix_sum_nonneg(sizes, n - 1);
    }
}

proof fn lemma_prefix_sum_mono(sizes: Seq<i64>, n: int, m: int)
    requires
        0 <= n <= m <= sizes.len(),
        forall|i: int| 0 <= i < sizes.len() ==> sizes[i] >= 0,
    ensures
        prefix_sum(sizes, n) <= prefix_sum(sizes, m),
    decreases m - n,
{
    if n < m {
        lemma_prefix_sum_mono(sizes, n, m - 1);
    }
}

/// The entries to remove, in least-recently-used order, given their sizes,
/// the cache's total size and its limit.
pub fn size_eviction_len(sizes: &Vec<i64>, total_size: i64, max_size: i64) -> (r: usize)
    requires
        forall|i: int| 0 <= i < sizes.len() ==> sizes@[i] >= 0,
        prefix_sum(sizes@, sizes.len() as int) <= i64::MAX,
        0 <= max_size <= total_size,
        total_size - max_size <= i64::MAX / 2,
    ensures
        r as int == size_eviction_count(sizes@, total_size, max_size),
        r <= sizes.len(),
        total_size > max_size ==> r >= 1 || sizes.len() == 0,
        total_size > max_size && r < sizes.len() ==> prefix_sum(sizes@, r as int) >= bytes_to_free(
            total_size,
            max_size,
        ),
{
    if total_size <= max_size {
        return 0;
    }
    let target = (total_size - max_size) * 2;
    let mut freed: i64 = 0;
    let mut k: usize = 0;
    while k < sizes.len()
        invariant
            k <= sizes.len(),
            target as int == bytes_to_free(total_size, max_size),
            target > 0,
            forall|i: int| 0 <= i < sizes.len() ==> sizes@[i] >= 0,
            prefix_sum(sizes@, sizes.len() as int) <= i64::MAX,
            freed as int == prefix_sum(sizes@, k as int),
            size_eviction_from(sizes@, target as int, 1) == size_eviction_from(
                sizes@,
                target as int,
                k + 1,
            ),
        decreases sizes.len() - k,
    {
        proof {
            lemma_prefix_sum_nonneg(sizes@, k + 1);
            lemma_prefix_sum_mono(sizes@, k + 1, sizes.len() as int);
        }
        freed = freed + sizes[k];
        k += 1;
        if freed >= target {
            return k;
        }
    }
    k
}

/// How many of the least recently used entries go when the cache holds too
/// many: the excess and a hundred more.
pub fn item_eviction_count(count: i32, max_items: i32) -> (r: i32)
    requires
        count > max_items ==> count - max_items + 100 <= i32::MAX,
    ensures
        r == if count > max_items {
            count - max_items + 100
        } else {
            0
        },
{
    if count > max_items {
        count - max_items + 100
    } else {
        0
    }
}

} // verus!
