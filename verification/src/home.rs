//! Home page assembly: favourites, continue-watching and today's calendar.

use vstd::prelude::*;
use crate::bangumi::{
    day_items, find_day, find_day_from, keep_listed, listed_items, BangumiCalendarData, Items,
};
use crate::douban::{DoubanItem, DoubanResult};
use crate::sorting::{sort_desc_stable, stable_desc, SortKey};
use crate::text::{find_from, str_eq, trim, trim_seq, vec_find_from};

verus! {

/// A favourite as stored.
#[derive(Debug)]
pub struct FavoriteRecord {
    pub key: String,
    pub title: String,
    pub source_name: String,
    pub year: String,
    pub cover: String,
    pub total_episodes: i32,
    pub save_time: i32,
    pub search_title: String,
}

/// The episode reached in a play record.
#[derive(Debug)]
pub struct PlayRecordMeta {
    pub key: String,
    pub episode_index: i32,
}

/// A play record as stored.
#[derive(Debug)]
pub struct ContinueWatchingRecord {
    pub key: String,
    pub title: String,
    pub source_name: String,
    pub year: String,
    pub cover: String,
    pub episode_index: i32,
    pub total_episodes: i32,
    pub play_time: i32,
    pub total_time: i32,
    pub save_time: i32,
    pub search_title: String,
}

/// A favourite as the home page shows it.
#[derive(Debug)]
pub struct FavoriteCard {
    pub id: String,
    pub source: String,
    pub title: String,
    pub year: String,
    pub poster: String,
    pub episodes: i32,
    pub source_name: String,
    pub current_episode: Option<i32>,
    pub search_title: String,
}

#[derive(Debug)]
pub struct HomePageData {
    pub hot_movies: Vec<DoubanItem>,
    pub hot_tv_shows: Vec<DoubanItem>,
    pub hot_variety_shows: Vec<DoubanItem>,
    pub today_bangumi: Vec<Items>,
}

#[derive(Debug)]
pub struct HomeBootstrapResponse {
    pub resolved_weekday: String,
    pub home_data: HomePageData,
    pub has_seen_announcement: String,
    pub should_show_announcement: bool,
}

impl SortKey for FavoriteRecord {
    open spec fn sort_key(&self) -> int {
        self.save_time as int
    }

    fn key(&self) -> (r: i64) {
        self.save_time as i64
    }
}

impl SortKey for ContinueWatchingRecord {
    open spec fn sort_key(&self) -> int {
        self.save_time as int
    }

    fn key(&self) -> (r: i64) {
        self.save_time as i64
    }
}

/// A storage key `source+id` split at its first `+`; without one, the whole
/// key is the source and the id is empty.
pub open spec fn split_key_spec(key: Seq<char>) -> (Seq<char>, Seq<char>) {
    let i = find_from(key, "+"@, 0);
    if i < 0 {
        (key, Seq::empty())
    } else {
        (key.take(i), key.skip(i + 1))
    }
}

pub fn split_storage_key(key: &str) -> (r: (String, String))
    ensures
        r.0@ == split_key_spec(key@).0,
        r.1@ == split_key_spec(key@).1,
{
    let v = crate::text::to_chars(key);
    let plus = crate::text::to_chars("+");
    match vec_find_from(&v, &plus, 0) {
        None => (String::from_str(key), String::new()),
        Some(i) => {
            proof {
                reveal_strlit("+");
                crate::text::lemma_find_from(key@, "+"@, 0);
            }
            (
                crate::text::string_from_chars(&v, 0, i),
                crate::text::string_from_chars(&v, i + 1, v.len()),
            )
        },
    }
}

/// A storage key written from a source without `+` and an id splits back
/// into that source and id.
pub proof fn lemma_record_key_splits_back(source: Seq<char>, id: Seq<char>)
    requires
        !crate::text::contains_seq(source, "+"@),
    ensures
        split_key_spec(crate::video::record_key(source, id)) == (source, id),
{
    reveal_strlit("+");
    let key = crate::video::record_key(source, id);
    assert(key.subrange(source.len() as int, source.len() + 1int) =~= "+"@);
    assert(crate::text::match_at(key, "+"@, source.len() as int));
    crate::text::lemma_find_from(key, "+"@, 0);
    let i = find_from(key, "+"@, 0);
    if i < source.len() {
        assert(key.subrange(i, i + 1) =~= source.subrange(i, i + 1));
        assert(crate::text::match_at(source, "+"@, i));
    }
    assert(i == source.len());
    assert(key.take(i) =~= source);
    assert(key.skip(i + 1) =~= id);
}

/// Splitting a key that holds a `+` and joining the parts with `+` gives the
/// key back.
pub proof fn lemma_split_key_roundtrip(key: Seq<char>)
    requires
        crate::text::contains_seq(key, "+"@),
    ensures
        split_key_spec(key).0 + "+"@ + split_key_spec(key).1 == key,
{
    reveal_strlit("+");
    crate::text::lemma_find_from(key, "+"@, 0);
    let i = find_from(key, "+"@, 0);
    if i < 0 {
        let w = choose|w: int| crate::text::match_at(key, "+"@, w);
        assert(false);
    }
    assert(key.subrange(i, i + 1) == "+"@);
    assert(key.take(i) + key.subrange(i, i + 1) + key.skip(i + 1) =~= key);
}

/// The episode of the last play record stored under `key` (a later record
/// with the same key replaces an earlier one).
pub open spec fn last_episode(records: Seq<PlayRecordMeta>, key: Seq<char>) -> Option<i32>
    decreases records.len(),
{
    if records.len() == 0 {
        None
    } else if records.last().key@ == key {
        Some(records.last().episode_index)
    } else {
        last_episode(records.drop_last(), key)
    }
}

/// The card shown for a favourite, given the play records.
pub open spec fn card_of(card: FavoriteCard, fav: FavoriteRecord, plays: Seq<PlayRecordMeta>) -> bool {
    &&& card.source@ == split_key_spec(fav.key@).0
    &&& card.id@ == split_key_spec(fav.key@).1
    &&& card.title == fav.title
    &&& card.year == fav.year
    &&& card.poster == fav.cover
    &&& card.episodes == fav.total_episodes
    &&& card.source_name == fav.source_name
    &&& card.current_episode == last_episode(plays, fav.key@)
    &&& card.search_title == fav.search_title
}

fn lookup_last_episode(records: &Vec<PlayRecordMeta>, key: &str) -> (r: Option<i32>)
    ensures
        r == last_episode(records@, key@),
{
    let mut i = records.len();
    assert(records@.take(i as int) =~= records@);
    while i > 0
        invariant
            i <= records.len(),
            last_episode(records@, key@) == last_episode(records@.take(i as int), key@),
        decreases i,
    {
        assert(records@.take(i as int).drop_last() =~= records@.take(i - 1));
        if str_eq(records[i - 1].key.as_str(), key) {
            return Some(records[i - 1].episode_index);
        }
        i -= 1;
    }
    None
}

/// Favourites as cards, most recently saved first (equal times keep their
/// order), each with the episode of its last play record.
pub fn build_favorite_cards(favorites: Vec<FavoriteRecord>, play_records: Vec<PlayRecordMeta>) -> (r:
    Vec<FavoriteCard>)
    ensures
        r.len() == favorites.len(),
        forall|i: int|
            0 <= i < r.len() ==> card_of(#[trigger] r@[i], stable_desc(favorites@)[i], play_records@),
{
    proof {
        crate::sorting::lemma_stable_desc(favorites@);
    }
    let sorted = sort_desc_stable(favorites);
    let mut cards: Vec<FavoriteCard> = Vec::new();
    let mut i: usize = 0;
    while i < sorted.len()
        invariant
            i <= sorted.len(),
            cards.len() == i,
            forall|j: int| 0 <= j < i ==> card_of(#[trigger] cards@[j], sorted@[j], play_records@),
        decreases sorted.len() - i,
    {
        let fav = &sorted[i];
        let (source, id) = split_storage_key(fav.key.as_str());
        let card = FavoriteCard {
            id,
            source,
            title: fav.title.clone(),
            year: fav.year.clone(),
            poster: fav.cover.clone(),
            episodes: fav.total_episodes,
            source_name: fav.source_name.clone(),
            current_episode: lookup_last_episode(&play_records, fav.key.as_str()),
            search_title: fav.search_title.clone(),
        };
        cards.push(card);
        i += 1;
    }
    cards
}

/// Play records, most recently saved first (equal times keep their order).
pub fn sort_continue_watching(records: Vec<ContinueWatchingRecord>) -> (r: Vec<
    ContinueWatchingRecord,
>)
    ensures
        r@ == stable_desc(records@),
{
    sort_desc_stable(records)
}

/// The listed programmes of the first calendar day named `weekday_en`.
pub open spec fn bangumi_for_weekday_spec(cal: Seq<BangumiCalendarData>, weekday_en: Seq<char>) -> Seq<
    Items,
> {
    let i = find_day_from(cal, weekday_en, 0);
    if i < 0 {
        Seq::empty()
    } else {
        listed_items(day_items(cal[i]))
    }
}

pub fn select_bangumi_for_weekday(calendar: &[BangumiCalendarData], weekday_en: &str) -> (r: Vec<
    Items,
>)
    ensures
        r@ == bangumi_for_weekday_spec(calendar@, weekday_en@),
{
    match find_day(calendar, weekday_en) {
        None => Vec::new(),
        Some(i) => match &calendar[i].items {
            Some(items) => keep_listed(items),
            None => {
                assert(listed_items(Seq::<Items>::empty()) =~= Seq::<Items>::empty());
                Vec::new()
            },
        },
    }
}

/// The selected value trimmed, or the fallback when nothing but white space
/// was selected.
pub open spec fn weekday_input_spec(selected: Option<Seq<char>>, fallback: Seq<char>) -> Seq<char> {
    match selected {
        Some(v) => if trim_seq(v).len() > 0 {
            trim_seq(v)
        } else {
            fallback
        },
        None => fallback,
    }
}

pub fn resolve_weekday_input(selected: Option<&str>, fallback: &str) -> (r: String)
    ensures
        r@ == weekday_input_spec(
            match selected {
                Some(v) => Some(v@),
                None => None,
            },
            fallback@,
        ),
{
    match selected {
        Some(v) => {
            let t = trim(v);
            if t.as_str().is_empty() {
                String::from_str(fallback)
            } else {
                t
            }
        },
        None => String::from_str(fallback),
    }
}

/// The items of a listing that succeeded (code 200), else none.
pub fn extract_list_or_empty(result: DoubanResult) -> (r: Vec<DoubanItem>)
    ensures
        result.code == 200 ==> r == result.list,
        result.code != 200 ==> r@.len() == 0,
{
    if result.code == 200 {
        result.list
    } else {
        Vec::new()
    }
}

/// The announcement is shown when it is not blank and differs, trimmed, from
/// the one last seen.
pub open spec fn show_announcement_spec(announcement: Option<Seq<char>>, seen: Seq<char>) -> bool {
    let a = match announcement {
        Some(a) => trim_seq(a),
        None => Seq::empty(),
    };
    a.len() > 0 && trim_seq(seen) != a
}

pub fn should_show_announcement(announcement: Option<&str>, has_seen_announcement: &str) -> (r: bool)
    ensures
        r == show_announcement_spec(
            match announcement {
                Some(a) => Some(a@),
                None => None,
            },
            has_seen_announcement@,
        ),
{
    let a = match announcement {
        Some(a) => trim(a),
        None => String::new(),
    };
    if a.as_str().is_empty() {
        return false;
    }
    let seen = trim(has_seen_announcement);
    !str_eq(seen.as_str(), a.as_str())
}

/// The page-cache key of the home page of a weekday.
pub fn home_cache_key(weekday: &str) -> (r: String)
    ensures
        r@ == "home:"@ + weekday@,
{
    let mut k = String::from_str("home:");
    k.append(weekday);
    k
}

/// The kind a continue-watching card shows: a series when the record counts
/// more than one episode, nothing otherwise.
pub fn continue_watching_video_type(total_episodes: i32) -> (r: &'static str)
    ensures
        r@ == if total_episodes > 1 {
            "tv"@
        } else {
            ""@
        },
{
    if total_episodes > 1 {
        "tv"
    } else {
        ""
    }
}

/// The home page from the three hot listings and the calendar: the items of
/// each listing that succeeded and the weekday's listed programmes.
pub fn assemble_home_page(
    movies: DoubanResult,
    tv_shows: DoubanResult,
    variety_shows: DoubanResult,
    calendar: &[BangumiCalendarData],
    weekday: &str,
) -> (r: HomePageData)
    ensures
        movies.code == 200 ==> r.hot_movies == movies.list,
        movies.code != 200 ==> r.hot_movies@.len() == 0,
        tv_shows.code == 200 ==> r.hot_tv_shows == tv_shows.list,
        tv_shows.code != 200 ==> r.hot_tv_shows@.len() == 0,
        variety_shows.code == 200 ==> r.hot_variety_shows == variety_shows.list,
        variety_shows.code != 200 ==> r.hot_variety_shows@.len() == 0,
        r.today_bangumi@ == bangumi_for_weekday_spec(calendar@, weekday@),
{
    HomePageData {
        hot_movies: extract_list_or_empty(movies),
        hot_tv_shows: extract_list_or_empty(tv_shows),
        hot_variety_shows: extract_list_or_empty(variety_shows),
        today_bangumi: select_bangumi_for_weekday(calendar, weekday),
    }
}

} // verus!
