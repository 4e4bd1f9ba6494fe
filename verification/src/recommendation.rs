//! Recommendation rules: categories, strategy by history size, and the
//! choice of which candidates are shown.

use vstd::prelude::*;
use crate::text::{contains, contains_seq, str_eq, trim, trim_seq};
use crate::video::string_views;

verus! {

/// Why an item is recommended (kept internal; never shown).
#[derive(Debug, Clone, Copy, PartialEq, Eq, Structural)]
pub enum RecommendationReason {
    Popular,
    SimilarToHistory,
    Favorite,
    CategoryBased,
    NewContent,
    ContentDiscovery,
}

impl Default for RecommendationReason {
    fn default() -> (r: Self)
        ensures
            r == RecommendationReason::Popular,
    {
        RecommendationReason::Popular
    }
}

/// The kind of a programme.
#[derive(Debug, Clone, Copy, PartialEq, Eq, Structural)]
pub enum VideoCategory {
    Movie,
    TvSeries,
    Anime,
    Variety,
    Documentary,
    Unknown,
}

/// What a user watches: titles, their kinds, their years.
#[derive(Debug, Clone)]
pub struct UserProfile {
    pub watched_titles: Vec<String>,
    pub favorite_categories: Vec<VideoCategory>,
    pub favorite_years: Vec<String>,
}

/// The category stored for an item, inferred from its source: Bangumi items
/// are anime, Douban items are films; other sources give none.
pub open spec fn inferred_category(source_name: Seq<char>) -> Option<Seq<char>> {
    if contains_seq(source_name, "Bangumi"@) {
        Some("Anime"@)
    } else if contains_seq(source_name, "豆瓣"@) {
        Some("Movie"@)
    } else {
        None
    }
}

pub fn infer_category(_title: &str, source_name: &str) -> (r: Option<String>)
    ensures
        match (r, inferred_category(source_name@)) {
            (Some(a), Some(b)) => a@ == b,
            (None, None) => true,
            _ => false,
        },
{
    if contains(source_name, "Bangumi") {
        return Some(String::from_str("Anime"));
    }
    if contains(source_name, "豆瓣") {
        return Some(String::from_str("Movie"));
    }
    None
}

/// The category recorded with a cached picture's metadata: the one given
/// when it is not empty; else, for a picture with a title, the one inferred
/// from its source (a missing source counting as an empty name); else none.
pub open spec fn metadata_category_spec(
    category: Option<Seq<char>>,
    title: Option<Seq<char>>,
    source_name: Option<Seq<char>>,
) -> Option<Seq<char>> {
    match category {
        Some(c) if c.len() > 0 => Some(c),
        _ => match title {
            Some(_) => inferred_category(
                match source_name {
                    Some(s) => s,
                    None => Seq::empty(),
                },
            ),
            None => None,
        },
    }
}

pub fn metadata_category(category: Option<String>, title: &Option<String>, source_name: &Option<String>) -> (r:
    Option<String>)
    ensures
        crate::douban::opt_text(r) == metadata_category_spec(
            crate::douban::opt_text(category),
            crate::douban::opt_text(*title),
            crate::douban::opt_text(*source_name),
        ),
{
    match category {
        Some(c) if !c.as_str().is_empty() => Some(c),
        _ => match title {
            Some(t) => {
                let r = match source_name {
                    Some(s) => infer_category(t.as_str(), s.as_str()),
                    None => {
                        proof {
                            reveal_strlit("");
                            assert(""@ =~= Seq::<char>::empty());
                        }
                        infer_category(t.as_str(), "")
                    },
                };
                r
            },
            None => None,
        },
    }
}

/// Whether an entry can go into the content pool: it names a title and a
/// source.
pub fn is_pool_entry(title: &str, source_name: &str) -> (r: bool)
    ensures
        r == (title@.len() > 0 && source_name@.len() > 0),
{
    !title.is_empty() && !source_name.is_empty()
}

/// The category that a stored category label names, in English or Chinese;
/// none for a label that names no category.
pub open spec fn category_of_label(label: Seq<char>) -> Option<VideoCategory> {
    if label == "Anime"@ || label == "动漫"@ || label == "动画"@ {
        Some(VideoCategory::Anime)
    } else if label == "Movie"@ || label == "电影"@ || label == "movie"@ {
        Some(VideoCategory::Movie)
    } else if label == "TvSeries"@ || label == "电视剧"@ || label == "剧集"@ || label == "tv"@ {
        Some(VideoCategory::TvSeries)
    } else if label == "Variety"@ || label == "综艺"@ || label == "show"@ {
        Some(VideoCategory::Variety)
    } else if label == "Documentary"@ || label == "纪录片"@ {
        Some(VideoCategory::Documentary)
    } else {
        None
    }
}

pub fn category_from_label(label: &str) -> (r: Option<VideoCategory>)
    ensures
        r == category_of_label(label@),
{
    if str_eq(label, "Anime") || str_eq(label, "动漫") || str_eq(label, "动画") {
        Some(VideoCategory::Anime)
    } else if str_eq(label, "Movie") || str_eq(label, "电影") || str_eq(label, "movie") {
        Some(VideoCategory::Movie)
    } else if str_eq(label, "TvSeries") || str_eq(label, "电视剧") || str_eq(label, "剧集") || str_eq(
        label,
        "tv",
    ) {
        Some(VideoCategory::TvSeries)
    } else if str_eq(label, "Variety") || str_eq(label, "综艺") || str_eq(label, "show") {
        Some(VideoCategory::Variety)
    } else if str_eq(label, "Documentary") || str_eq(label, "纪录片") {
        Some(VideoCategory::Documentary)
    } else {
        None
    }
}

/// A category left unknown by title analysis, settled by the source: Bangumi
/// items are anime, the rest films.
pub fn category_or_source_default(analyzed: VideoCategory, source_name: &str) -> (r: VideoCategory)
    ensures
        r == if analyzed == VideoCategory::Unknown {
            if contains_seq(source_name@, "Bangumi"@) {
                VideoCategory::Anime
            } else {
                VideoCategory::Movie
            }
        } else {
            analyzed
        },
{
    if analyzed == VideoCategory::Unknown {
        if contains(source_name, "Bangumi") {
            VideoCategory::Anime
        } else {
            VideoCategory::Movie
        }
    } else {
        analyzed
    }
}

/// A category left unknown by analysis of a watched item, settled by its
/// episode count: series when it has more than one episode, else film.
pub fn category_or_episode_default(analyzed: VideoCategory, total_episodes: i32) -> (r: VideoCategory)
    ensures
        r == if analyzed == VideoCategory::Unknown {
            if total_episodes > 1 {
                VideoCategory::TvSeries
            } else {
                VideoCategory::Movie
            }
        } else {
            analyzed
        },
{
    if analyzed == VideoCategory::Unknown {
        if total_episodes > 1 {
            VideoCategory::TvSeries
        } else {
            VideoCategory::Movie
        }
    } else {
        analyzed
    }
}

/// `std::time::Instant`, carried through as it is: nothing is read of it.
#[verifier::external_type_specification]
#[verifier::external_body]
pub struct ExInstant(std::time::Instant);

/// Counts of a user's history, and when they were taken.
#[derive(Debug)]
pub struct UserHistoryStats {
    pub total_records: usize,
    pub favorite_count: usize,
    pub search_count: usize,
    pub last_update: std::time::Instant,
}

/// How recommendations are mixed, by the size of the play history.
#[derive(Debug, Clone, Copy, PartialEq, Eq, Structural)]
pub enum RecommendationStrategy {
    /// Fewer than 5 records: cold-start recommendations only.
    ColdStart,
    /// Fewer than 20 records: a mix led by personal recommendations.
    LightHistory,
    /// 20 records or more: a mix led by intelligent recommendations.
    RichHistory,
}

pub open spec fn strategy_for(total_records: usize) -> RecommendationStrategy {
    if total_records < 5 {
        RecommendationStrategy::ColdStart
    } else if total_records < 20 {
        RecommendationStrategy::LightHistory
    } else {
        RecommendationStrategy::RichHistory
    }
}

pub fn recommendation_strategy(stats: &UserHistoryStats) -> (r: RecommendationStrategy)
    ensures
        r == strategy_for(stats.total_records),
{
    let total_records = stats.total_records;
    if total_records < 5 {
        RecommendationStrategy::ColdStart
    } else if total_records < 20 {
        RecommendationStrategy::LightHistory
    } else {
        RecommendationStrategy::RichHistory
    }
}

/// Whether candidate `i` is shown: it is the first candidate with its title,
/// and its cover is not blank.
pub open spec fn shown_candidate(titles: Seq<Seq<char>>, covers: Seq<Seq<char>>, i: int) -> bool {
    &&& forall|j: int| 0 <= j < i ==> titles[j] != titles[i]
    &&& trim_seq(covers[i]).len() > 0
}

/// The positions of the candidates shown, in order.
pub open spec fn shown_positions(titles: Seq<Seq<char>>, covers: Seq<Seq<char>>, n: int) -> Seq<int>
    decreases n,
{
    if n <= 0 {
        Seq::empty()
    } else {
        let prev = shown_positions(titles, covers, n - 1);
        if shown_candidate(titles, covers, n - 1) {
            prev.push(n - 1)
        } else {
            prev
        }
    }
}

/// The positions shown rise strictly, name candidates that exist, and no
/// two of them share a title; none has a blank cover.
pub proof fn lemma_shown_positions(titles: Seq<Seq<char>>, covers: Seq<Seq<char>>, n: int)
    requires
        0 <= n <= titles.len(),
        titles.len() == covers.len(),
    ensures
        forall|a: int, b: int|
            0 <= a < b < shown_positions(titles, covers, n).len() ==> shown_positions(titles, covers, n)[a]
                < shown_positions(titles, covers, n)[b],
        forall|a: int|
            0 <= a < shown_positions(titles, covers, n).len() ==> 0 <= #[trigger] shown_positions(
                titles,
                covers,
                n,
            )[a] < n && trim_seq(covers[shown_positions(titles, covers, n)[a]]).len() > 0,
        forall|a: int, b: int|
            0 <= a < b < shown_positions(titles, covers, n).len() ==> titles[shown_positions(
                titles,
                covers,
                n,
            )[a]] != titles[shown_positions(titles, covers, n)[b]],
    decreases n,
{
    if n > 0 {
        lemma_shown_positions(titles, covers, n - 1);
        let prev = shown_positions(titles, covers, n - 1);
        if shown_candidate(titles, covers, n - 1) {
            let cur = prev.push(n - 1);
            assert(cur == shown_positions(titles, covers, n));
            assert forall|a: int| 0 <= a < cur.len() implies 0 <= #[trigger] cur[a] < n && trim_seq(
                covers[cur[a]],
            ).len() > 0 by {
                if a < prev.len() {
                    assert(cur[a] == prev[a]);
                }
            }
            assert forall|a: int, b: int| 0 <= a < b < cur.len() implies cur[a] < cur[b] && titles[cur[a]]
                != titles[cur[b]] by {
                assert(cur[a] == prev[a]);
                if b < prev.len() {
                    assert(cur[b] == prev[b]);
                } else {
                    assert(cur[b] == n - 1);
                    assert(0 <= prev[a] < n - 1);
                }
            }
        }
    }
}

/// The candidates kept for display, by position: each title once (its first
/// candidate), and never one with a blank cover.
pub fn select_recommendation_positions(titles: &Vec<String>, covers: &Vec<String>) -> (r: Vec<usize>)
    requires
        titles.len() == covers.len(),
    ensures
        r@.map_values(|i: usize| i as int) == shown_positions(
            string_views(titles@),
            string_views(covers@),
            titles.len() as int,
        ),
{
    let ghost tv = string_views(titles@);
    let ghost cv = string_views(covers@);
    let mut r: Vec<usize> = Vec::new();
    let mut i: usize = 0;
    while i < titles.len()
        invariant
            i <= titles.len(),
            titles.len() == covers.len(),
            tv == string_views(titles@),
            cv == string_views(covers@),
            r@.map_values(|k: usize| k as int) == shown_positions(tv, cv, i as int),
        decreases titles.len() - i,
    {
        let mut first = true;
        let mut j: usize = 0;
        while j < i
            invariant
                j <= i,
                i < titles.len(),
                tv == string_views(titles@),
                first == (forall|k: int| 0 <= k < j ==> tv[k] != tv[i as int]),
            decreases i - j,
        {
            assert(tv[j as int] == titles@[j as int]@ && tv[i as int] == titles@[i as int]@);
            if titles[j] == titles[i] {
                first = false;
            }
            j += 1;
        }
        let cover = trim(covers[i].as_str());
        assert(cv[i as int] == covers@[i as int]@);
        let ghost before = r@;
        if first && !cover.as_str().is_empty() {
            r.push(i);
            assert(r@.map_values(|k: usize| k as int) =~= before.map_values(|k: usize| k as int).push(
                i as int,
            ));
        }
        i += 1;
    }
    r
}

/// Whether candidate `i` is the first with its title.
pub open spec fn first_of_title(titles: Seq<Seq<char>>, i: int) -> bool {
    forall|j: int| 0 <= j < i ==> titles[j] != titles[i]
}

/// The positions of the first candidate of each title, in order.
pub open spec fn first_title_positions(titles: Seq<Seq<char>>, n: int) -> Seq<int>
    decreases n,
{
    if n <= 0 {
        Seq::empty()
    } else {
        let prev = first_title_positions(titles, n - 1);
        if first_of_title(titles, n - 1) {
            prev.push(n - 1)
        } else {
            prev
        }
    }
}

/// The titles of the candidates kept by deduplication, in order.
pub open spec fn first_titles(titles: Seq<Seq<char>>, n: int) -> Seq<Seq<char>> {
    first_title_positions(titles, n).map_values(|p: int| titles[p])
}

/// Deduplication keeps the order of the candidates and keeps each title once.
pub proof fn lemma_first_title_positions(titles: Seq<Seq<char>>, n: int)
    requires
        0 <= n <= titles.len(),
    ensures
        forall|a: int, b: int|
            0 <= a < b < first_title_positions(titles, n).len() ==> first_title_positions(titles, n)[a]
                < first_title_positions(titles, n)[b],
        forall|a: int|
            0 <= a < first_title_positions(titles, n).len() ==> 0 <= #[trigger] first_title_positions(
                titles,
                n,
            )[a] < n,
        forall|a: int, b: int|
            0 <= a < b < first_title_positions(titles, n).len() ==> titles[first_title_positions(
                titles,
                n,
            )[a]] != titles[first_title_positions(titles, n)[b]],
    decreases n,
{
    if n > 0 {
        lemma_first_title_positions(titles, n - 1);
        let prev = first_title_positions(titles, n - 1);
        let cur = first_title_positions(titles, n);
        if first_of_title(titles, n - 1) {
            assert(cur == prev.push(n - 1));
            assert forall|a: int| 0 <= a < cur.len() implies 0 <= #[trigger] cur[a] < n by {
                if a < prev.len() {
                    assert(cur[a] == prev[a]);
                }
            }
            assert forall|a: int, b: int| 0 <= a < b < cur.len() implies cur[a] < cur[b] && titles[cur[a]]
                != titles[cur[b]] by {
                assert(cur[a] == prev[a]);
                if b < prev.len() {
                    assert(cur[b] == prev[b]);
                } else {
                    assert(cur[b] == n - 1);
                    assert(0 <= prev[a] < n - 1);
                }
            }
        }
    }
}

/// Deduplication loses no title: every title among the first `n`
/// candidates is the title of a kept one.
pub proof fn lemma_first_titles_complete(titles: Seq<Seq<char>>, n: int)
    requires
        0 <= n <= titles.len(),
    ensures
        forall|i: int| 0 <= i < n ==> first_titles(titles, n).contains(#[trigger] titles[i]),
    decreases n,
{
    if n > 0 {
        lemma_first_titles_complete(titles, n - 1);
        let prev = first_titles(titles, n - 1);
        let cur = first_titles(titles, n);
        if first_of_title(titles, n - 1) {
            assert(cur =~= prev.push(titles[n - 1]));
            assert forall|i: int| 0 <= i < n implies cur.contains(#[trigger] titles[i]) by {
                if i < n - 1 {
                    let a = choose|a: int| 0 <= a < prev.len() && prev[a] == titles[i];
                    assert(cur[a] == prev[a]);
                } else {
                    assert(cur[prev.len() as int] == titles[i]);
                }
            }
        } else {
            assert(cur =~= prev);
            let j = choose|j: int| 0 <= j < n - 1 && #[trigger] titles[j] == titles[n - 1];
            assert(prev.contains(titles[j]));
        }
    }
}

/// The candidates left after deduplication, by position: the first
/// candidate of each title, in their order.
pub fn deduplicate_recommendations(titles: &Vec<String>) -> (r: Vec<usize>)
    ensures
        r@.map_values(|i: usize| i as int) == first_title_positions(string_views(titles@), titles.len() as int),
{
    let ghost tv = string_views(titles@);
    let mut r: Vec<usize> = Vec::new();
    let mut i: usize = 0;
    while i < titles.len()
        invariant
            i <= titles.len(),
            tv == string_views(titles@),
            r@.map_values(|k: usize| k as int) == first_title_positions(tv, i as int),
        decreases titles.len() - i,
    {
        let mut first = true;
        let mut j: usize = 0;
        while j < i
            invariant
                j <= i,
                i < titles.len(),
                tv == string_views(titles@),
                first == (forall|k: int| 0 <= k < j ==> tv[k] != tv[i as int]),
            decreases i - j,
        {
            assert(tv[j as int] == titles@[j as int]@ && tv[i as int] == titles@[i as int]@);
            if titles[j] == titles[i] {
                first = false;
            }
            j += 1;
        }
        let ghost before = r@;
        if first {
            r.push(i);
            assert(r@.map_values(|k: usize| k as int) =~= before.map_values(|k: usize| k as int).push(
                i as int,
            ));
        }
        i += 1;
    }
    r
}

/// An optional text that is empty means nothing.
pub fn nonempty_text(s: String) -> (r: Option<String>)
    ensures
        match r {
            Some(t) => t == s && s@.len() > 0,
            None => s@.len() == 0,
        },
{
    if s.as_str().is_empty() {
        None
    } else {
        Some(s)
    }
}

/// Whether a title is among the watched ones.
pub fn is_watched(watched_titles: &Vec<String>, title: &str) -> (r: bool)
    ensures
        r == string_views(watched_titles@).contains(title@),
{
    let ghost wv = string_views(watched_titles@);
    let mut i: usize = 0;
    while i < watched_titles.len()
        invariant
            i <= watched_titles.len(),
            wv == string_views(watched_titles@),
            forall|k: int| 0 <= k < i ==> wv[k] != title@,
        decreases watched_titles.len() - i,
    {
        assert(wv[i as int] == watched_titles@[i as int]@);
        if str_eq(watched_titles[i].as_str(), title) {
            return true;
        }
        i += 1;
    }
    false
}

} // verus!
