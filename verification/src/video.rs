//! Playback sources: search results, source selection, episode lists and
//! playback bookkeeping.

use vstd::prelude::*;
use crate::numtext::{nat_digits, parse_u64, parse_u64_spec, u64_to_string, u64_zero_padded, zero_pad};
use crate::sorting::{
    distinct_by, is_asc, lemma_stable_asc, lemma_stable_asc_distinct, lemma_stable_asc_members,
    sort_asc_by_keys, stable_asc,
};
use vstd::utf8::encode_utf8;
use crate::text::{
    clone_strings, ends_with, ends_with_seq, split, split_seq, starts_with_seq, str_eq, to_uppercase, unicode_uppercase, contains, contains_seq, eq_ignore_ascii_case, eq_ignore_ascii_case_seq,
    replace, replace_seq, to_lowercase, trim, trim_seq, unicode_lowercase,
};

verus! {

/// A scalar of a source's JSON answer: a string, a number (held as the text
/// that `serde_json` prints for it), a boolean, or anything else.
#[derive(Debug, Clone)]
pub enum JsonScalar {
    Text(String),
    Number(String),
    Bool(bool),
    Other,
}

/// One category of a source's category listing.
#[derive(Debug, Clone)]
pub struct SourceCategoryItem {
    pub type_id: JsonScalar,
    pub type_label: String,
    pub type_pid: Option<JsonScalar>,
}

/// One programme found on one source: its episodes (playable URLs and their
/// titles) and what the source says about it.
#[derive(Debug)]
pub struct SearchResult {
    pub id: String,
    pub title: String,
    pub poster: String,
    pub episodes: Vec<String>,
    pub episodes_titles: Vec<String>,
    pub source: String,
    pub source_name: String,
    pub class: Option<String>,
    pub year: Option<String>,
    pub desc: Option<String>,
    pub type_label: Option<String>,
    pub douban_id: Option<i32>,
}

/// What a search result says, with its episode lists as sequences.
pub ghost struct SearchResultView {
    pub id: String,
    pub title: String,
    pub poster: String,
    pub episodes: Seq<String>,
    pub episodes_titles: Seq<String>,
    pub source: String,
    pub source_name: String,
    pub class: Option<String>,
    pub year: Option<String>,
    pub desc: Option<String>,
    pub type_label: Option<String>,
    pub douban_id: Option<i32>,
}

impl View for SearchResult {
    type V = SearchResultView;

    open spec fn view(&self) -> SearchResultView {
        SearchResultView {
            id: self.id,
            title: self.title,
            poster: self.poster,
            episodes: self.episodes@,
            episodes_titles: self.episodes_titles@,
            source: self.source,
            source_name: self.source_name,
            class: self.class,
            year: self.year,
            desc: self.desc,
            type_label: self.type_label,
            douban_id: self.douban_id,
        }
    }
}

/// The views of a sequence of search results.
pub open spec fn result_views(s: Seq<SearchResult>) -> Seq<SearchResultView> {
    s.map_values(|x: SearchResult| x@)
}

impl Clone for SearchResult {
    fn clone(&self) -> (r: Self)
        ensures
            r@ == self@,
    {
        SearchResult {
            id: self.id.clone(),
            title: self.title.clone(),
            poster: self.poster.clone(),
            episodes: clone_strings(&self.episodes),
            episodes_titles: clone_strings(&self.episodes_titles),
            source: self.source.clone(),
            source_name: self.source_name.clone(),
            class: self.class.clone(),
            year: self.year.clone(),
            desc: self.desc.clone(),
            type_label: self.type_label.clone(),
            douban_id: self.douban_id,
        }
    }
}

/// Where a player resumes: an episode (0-based) and a position in seconds.
#[derive(Debug, Clone, Copy, PartialEq, Eq, Structural)]
pub struct PlayRecordInfo {
    pub episode_index: i32,
    pub play_time: i32,
}

/// Intro and outro skipping of one programme, in seconds.
#[derive(Debug, Clone, Copy, PartialEq, Eq, Structural)]
pub struct SkipConfigInfo {
    pub enable: bool,
    pub intro_time: i32,
    pub outro_time: i32,
}

/// Whether a programme is looked for as a series or as a film.
#[derive(Debug, Clone, Copy, PartialEq, Eq, Structural)]
pub enum SearchTypeFilter {
    Tv,
    Movie,
}

/// The 0-based episode to open for a stored 1-based episode number, kept
/// inside the list.
pub open spec fn normalized_episode_index(record_episode_index: int, total_episodes: int) -> int {
    if total_episodes == 0 {
        0
    } else {
        let zero_based = if record_episode_index <= 0 { 0 } else { record_episode_index - 1 };
        if zero_based > total_episodes - 1 { total_episodes - 1 } else { zero_based }
    }
}

pub fn normalize_episode_index(record_episode_index: i32, total_episodes: usize) -> (r: i32)
    requires
        total_episodes <= i32::MAX + 1,
    ensures
        r == normalized_episode_index(record_episode_index as int, total_episodes as int),
        total_episodes > 0 ==> 0 <= r < total_episodes,
        total_episodes == 0 ==> r == 0,
{
    if total_episodes == 0 {
        return 0;
    }
    let zero_based: i32 = if record_episode_index <= 0 { 0 } else { record_episode_index - 1 };
    let max_index: i32 = (total_episodes - 1) as i32;
    if zero_based > max_index { max_index } else { zero_based }
}

/// The episode and position a player starts at: those of the record, or the
/// first episode from its start.
pub fn resolve_initial_playback_state(play_record: Option<&PlayRecordInfo>) -> (r: (i32, Option<i32>))
    ensures
        r == (match play_record {
            Some(record) => (record.episode_index, Some(record.play_time)),
            None => (0i32, None),
        }),
{
    match play_record {
        Some(record) => (record.episode_index, Some(record.play_time)),
        None => (0, None),
    }
}

/// A title with its spaces removed, in lower case.
pub open spec fn title_match_key(title: Seq<char>) -> Seq<char> {
    unicode_lowercase(replace_seq(title, " "@, ""@))
}

pub fn normalize_title_for_match(title: &str) -> (r: String)
    ensures
        r@ == title_match_key(title@),
{
    proof {
        reveal_strlit(" ");
    }
    let no_spaces = replace(title, " ", "");
    to_lowercase(no_spaces.as_str())
}

/// Series when a record counts more than one episode, film when it counts one.
pub open spec fn search_type_for_total(total_episodes: Option<i32>) -> Option<SearchTypeFilter> {
    match total_episodes {
        Some(total) => if total > 1 {
            Some(SearchTypeFilter::Tv)
        } else if total == 1 {
            Some(SearchTypeFilter::Movie)
        } else {
            None
        },
        None => None,
    }
}

pub fn derive_search_type_filter(total_episodes: Option<i32>) -> (r: Option<SearchTypeFilter>)
    ensures
        r == search_type_for_total(total_episodes),
{
    match total_episodes {
        Some(total) => if total > 1 {
            Some(SearchTypeFilter::Tv)
        } else if total == 1 {
            Some(SearchTypeFilter::Movie)
        } else {
            None
        },
        None => None,
    }
}

/// "tv" and "movie", in any ASCII case, name the two search types.
pub open spec fn search_type_named(search_type: Option<Seq<char>>) -> Option<SearchTypeFilter> {
    match search_type {
        Some(value) => if eq_ignore_ascii_case_seq(value, "tv"@) {
            Some(SearchTypeFilter::Tv)
        } else if eq_ignore_ascii_case_seq(value, "movie"@) {
            Some(SearchTypeFilter::Movie)
        } else {
            None
        },
        None => None,
    }
}

pub fn parse_search_type_filter(search_type: Option<&str>) -> (r: Option<SearchTypeFilter>)
    ensures
        r == search_type_named(match search_type {
            Some(s) => Some(s@),
            None => None,
        }),
{
    match search_type {
        Some(value) => if eq_ignore_ascii_case(value, "tv") {
            Some(SearchTypeFilter::Tv)
        } else if eq_ignore_ascii_case(value, "movie") {
            Some(SearchTypeFilter::Movie)
        } else {
            None
        },
        None => None,
    }
}

/// Whether a URL names an HLS playlist: its lower-case form holds ".m3u8".
pub open spec fn playable_m3u8(url: Seq<char>) -> bool {
    contains_seq(unicode_lowercase(url), ".m3u8"@)
}

pub fn is_playable_m3u8(url: &str) -> (r: bool)
    ensures
        r == playable_m3u8(url@),
{
    let lower = to_lowercase(url);
    contains(lower.as_str(), ".m3u8")
}

/// A description with its paragraph and division tags removed and its line
/// breaks turned into newlines.
pub open spec fn cleaned_description(html: Seq<char>) -> Seq<char> {
    let a = replace_seq(html, "<p>"@, ""@);
    let b = replace_seq(a, "</p>"@, ""@);
    let c = replace_seq(b, "<br>"@, "\n"@);
    let d = replace_seq(c, "<br/>"@, "\n"@);
    let e = replace_seq(d, "<div>"@, ""@);
    replace_seq(e, "</div>"@, ""@)
}

pub fn clean_html_tags(html: &str) -> (r: String)
    ensures
        r@ == cleaned_description(html@),
{
    proof {
        reveal_strlit("<p>");
        reveal_strlit("</p>");
        reveal_strlit("<br>");
        reveal_strlit("<br/>");
        reveal_strlit("<div>");
        reveal_strlit("</div>");
    }
    let a = replace(html, "<p>", "");
    let b = replace(a.as_str(), "</p>", "");
    let c = replace(b.as_str(), "<br>", "\n");
    let d = replace(c.as_str(), "<br/>", "\n");
    let e = replace(d.as_str(), "<div>", "");
    replace(e.as_str(), "</div>", "")
}

/// The character sequences of a sequence of strings.
pub open spec fn string_views(v: Seq<String>) -> Seq<Seq<char>> {
    v.map_values(|p: String| p@)
}

/// The playable entries of one group of a play list, as (URLs, titles).
/// An entry is `title$url`, or a bare `url` titled by its 1-based position
/// among the group's playable entries; other entries are skipped.
pub open spec fn group_entries(items: Seq<Seq<char>>) -> (Seq<Seq<char>>, Seq<Seq<char>>)
    decreases items.len(),
{
    if items.len() == 0 {
        (Seq::empty(), Seq::empty())
    } else {
        let (e, t) = group_entries(items.drop_last());
        let parts = split_seq(items.last(), "$"@);
        if parts.len() == 2 && playable_m3u8(parts[1]) {
            (e.push(parts[1]), t.push(parts[0]))
        } else if parts.len() == 1 && playable_m3u8(parts[0]) {
            (e.push(parts[0]), t.push(nat_digits((e.len() + 1) as nat)))
        } else {
            (e, t)
        }
    }
}

/// Among the `$$$`-separated groups, the first one with the most playable
/// entries (none when no group has any).
pub open spec fn best_group(groups: Seq<Seq<char>>) -> (Seq<Seq<char>>, Seq<Seq<char>>)
    decreases groups.len(),
{
    if groups.len() == 0 {
        (Seq::empty(), Seq::empty())
    } else {
        let (be, bt) = best_group(groups.drop_last());
        let (ge, gt) = group_entries(split_seq(groups.last(), "#"@));
        if ge.len() > be.len() {
            (ge, gt)
        } else {
            (be, bt)
        }
    }
}

/// The episode list of a play-URL field.
pub open spec fn episodes_of(play_url: Seq<char>) -> (Seq<Seq<char>>, Seq<Seq<char>>) {
    best_group(split_seq(play_url, "$$$"@))
}

/// Every group lists as many titles as URLs, and every URL is playable.
pub proof fn lemma_group_entries_wellformed(items: Seq<Seq<char>>)
    ensures
        group_entries(items).0.len() == group_entries(items).1.len(),
        forall|i: int|
            0 <= i < group_entries(items).0.len() ==> playable_m3u8(
                #[trigger] group_entries(items).0[i],
            ),
    decreases items.len(),
{
    if items.len() > 0 {
        lemma_group_entries_wellformed(items.drop_last());
    }
}

/// A parsed episode list has as many titles as URLs, and every URL in it is
/// playable.
pub proof fn lemma_episodes_wellformed(groups: Seq<Seq<char>>)
    ensures
        best_group(groups).0.len() == best_group(groups).1.len(),
        forall|i: int|
            0 <= i < best_group(groups).0.len() ==> playable_m3u8(#[trigger] best_group(groups).0[i]),
    decreases groups.len(),
{
    if groups.len() > 0 {
        lemma_episodes_wellformed(groups.drop_last());
        lemma_group_entries_wellformed(split_seq(groups.last(), "#"@));
    }
}

fn parse_group(group: &str) -> (r: (Vec<String>, Vec<String>))
    ensures
        (string_views(r.0@), string_views(r.1@)) == group_entries(split_seq(group@, "#"@)),
{
    proof {
        reveal_strlit("#");
        reveal_strlit("$");
    }
    let items = split(group, "#");
    let ghost iv = string_views(items@);
    let mut eps: Vec<String> = Vec::new();
    let mut titles: Vec<String> = Vec::new();
    let mut i: usize = 0;
    while i < items.len()
        invariant
            i <= items.len(),
            iv == string_views(items@),
            iv == split_seq(group@, "#"@),
            (string_views(eps@), string_views(titles@)) == group_entries(iv.take(i as int)),
            eps.len() <= i,
        decreases items.len() - i,
    {
        proof {
            reveal_strlit("$");
        }
        assert(iv.take(i + 1).drop_last() =~= iv.take(i as int));
        assert(iv.take(i + 1).last() == items@[i as int]@);
        let parts = split(items[i].as_str(), "$");
        let ghost pv = string_views(parts@);
        assert(pv.len() == parts.len());
        if parts.len() == 2 && is_playable_m3u8(parts[1].as_str()) {
            assert(pv[1] == parts@[1]@);
            titles.push(parts[0].clone());
            eps.push(parts[1].clone());
            assert(string_views(eps@) =~= group_entries(iv.take(i + 1)).0);
            assert(string_views(titles@) =~= group_entries(iv.take(i + 1)).1);
        } else if parts.len() == 1 && is_playable_m3u8(parts[0].as_str()) {
            assert(pv[0] == parts@[0]@);
            let n = eps.len();
            assert(string_views(eps@).len() == n);
            let label = u64_to_string((n as u64) + 1);
            titles.push(label);
            eps.push(parts[0].clone());
            assert(string_views(eps@) =~= group_entries(iv.take(i + 1)).0);
            assert(string_views(titles@) =~= group_entries(iv.take(i + 1)).1);
        } else {
            assert(parts.len() == 2 ==> pv[1] == parts@[1]@);
            assert(parts.len() == 1 ==> pv[0] == parts@[0]@);
        }
        i += 1;
    }
    assert(iv.take(items.len() as int) =~= iv);
    (eps, titles)
}

/// Splits a play-URL field into episode URLs and titles: the groups are
/// separated by `$$$`, the entries of a group by `#`, a title from its URL by
/// `$`; the first group with the most playable entries wins.
pub fn parse_episodes(play_url: &str) -> (r: (Vec<String>, Vec<String>))
    ensures
        (string_views(r.0@), string_views(r.1@)) == episodes_of(play_url@),
        r.0.len() == r.1.len(),
        forall|i: int| 0 <= i < r.0.len() ==> playable_m3u8(#[trigger] r.0@[i]@),
{
    proof {
        reveal_strlit("$$$");
    }
    let groups = split(play_url, "$$$");
    let ghost gv = string_views(groups@);
    let mut episodes: Vec<String> = Vec::new();
    let mut titles: Vec<String> = Vec::new();
    let mut i: usize = 0;
    while i < groups.len()
        invariant
            i <= groups.len(),
            gv == string_views(groups@),
            gv == split_seq(play_url@, "$$$"@),
            (string_views(episodes@), string_views(titles@)) == best_group(gv.take(i as int)),
        decreases groups.len() - i,
    {
        assert(gv.take(i + 1).drop_last() =~= gv.take(i as int));
        assert(gv.take(i + 1).last() == groups@[i as int]@);
        let (group_episodes, group_titles) = parse_group(groups[i].as_str());
        if group_episodes.len() > episodes.len() {
            episodes = group_episodes;
            titles = group_titles;
        }
        i += 1;
    }
    assert(gv.take(groups.len() as int) =~= gv);
    proof {
        lemma_episodes_wellformed(gv);
        assert forall|i: int| 0 <= i < episodes.len() implies playable_m3u8(
            #[trigger] episodes@[i]@,
        ) by {
            assert(string_views(episodes@)[i] == episodes@[i]@);
        }
    }
    (episodes, titles)
}

/// One entry of a source's video list, as the search reads it. `vod_id` is
/// the JSON id; `vod_douban_id` is the Douban id when the JSON value is an
/// integer that fits in an `i64`.
#[derive(Debug, Clone)]
pub struct ApiSearchItem {
    pub vod_id: JsonScalar,
    pub vod_name: String,
    pub vod_pic: String,
    pub vod_remarks: Option<String>,
    pub vod_play_url: Option<String>,
    pub vod_class: Option<String>,
    pub vod_year: Option<String>,
    pub vod_content: Option<String>,
    pub vod_douban_id: Option<i64>,
    pub type_label: Option<String>,
}

/// A configured video source.
#[derive(Debug)]
pub struct ApiSite {
    pub key: String,
    pub api: String,
    pub name: String,
    pub detail: Option<String>,
    pub is_adult: Option<bool>,
}

impl Clone for ApiSite {
    fn clone(&self) -> (r: Self)
        ensures
            r == *self,
    {
        ApiSite {
            key: self.key.clone(),
            api: self.api.clone(),
            name: self.name.clone(),
            detail: self.detail.clone(),
            is_adult: self.is_adult,
        }
    }
}

/// The id of a list entry as text: a string as it is, a number as printed,
/// anything else empty.
pub open spec fn item_id_text(v: JsonScalar) -> Seq<char> {
    match v {
        JsonScalar::Text(s) => s@,
        JsonScalar::Number(n) => n@,
        _ => Seq::empty(),
    }
}

/// Whether `r` is the search result that the list entry `item` of `site`
/// gives: trimmed title, parsed episodes, cleaned description, the site's key
/// and name, the Douban id cut to 32 bits.
pub open spec fn is_result_of_item(r: SearchResultView, item: ApiSearchItem, site: ApiSite) -> bool {
    let play = match item.vod_play_url {
        Some(p) => p@,
        None => Seq::empty(),
    };
    &&& r.id@ == item_id_text(item.vod_id)
    &&& r.title@ == trim_seq(item.vod_name@)
    &&& r.poster == item.vod_pic
    &&& (string_views(r.episodes), string_views(r.episodes_titles)) == episodes_of(play)
    &&& r.source == site.key
    &&& r.source_name == site.name
    &&& r.class == item.vod_class
    &&& r.year == item.vod_year
    &&& match (r.desc, item.vod_content) {
        (Some(d), Some(c)) => d@ == cleaned_description(c@),
        (None, None) => true,
        _ => false,
    }
    &&& r.type_label == item.type_label
    &&& r.douban_id == match item.vod_douban_id {
        Some(v) => Some(v as i32),
        None => None,
    }
}

/// The search result of one list entry of `site`.
pub fn search_result_from_item(item: ApiSearchItem, site: &ApiSite) -> (r: SearchResult)
    ensures
        is_result_of_item(r@, item, *site),
{
    let (episodes, episodes_titles) = match &item.vod_play_url {
        Some(p) => parse_episodes(p.as_str()),
        None => {
            proof {
                reveal_strlit("");
                assert(""@ =~= Seq::<char>::empty());
            }
            parse_episodes("")
        },
    };
    let id = match &item.vod_id {
        JsonScalar::Text(s) => s.clone(),
        JsonScalar::Number(n) => n.clone(),
        _ => String::new(),
    };
    let desc = match &item.vod_content {
        Some(c) => Some(clean_html_tags(c.as_str())),
        None => None,
    };
    let douban_id: Option<i32> = match item.vod_douban_id {
        Some(v) => Some(#[verifier::truncate] (v as i32)),
        None => None,
    };
    let r = SearchResult {
        id,
        title: trim(item.vod_name.as_str()),
        poster: item.vod_pic,
        episodes,
        episodes_titles,
        source: site.key.clone(),
        source_name: site.name.clone(),
        class: item.vod_class,
        year: item.vod_year,
        desc,
        type_label: item.type_label,
        douban_id,
    };
    r
}

/// Words that mark a category name as adult content.
pub open spec fn yellow_words() -> Seq<Seq<char>> {
    seq![
        "伦理片"@,
        "成人"@,
        "情色"@,
        "福利"@,
        "三上"@,
        "里番动漫"@,
        "门事件"@,
        "萝莉少女"@,
        "制服诱惑"@,
        "国产传媒"@,
        "cosplay"@,
        "黑丝诱惑"@,
        "无码"@,
        "日本无码"@,
        "有码"@,
        "cosplay"@,
        "swag"@,
        "av"@,
        "三级片"@,
        "日本有码"@,
        "SWAG"@,
        "网红主播"@,
        "色情片"@,
        "同性片"@,
        "福利视频"@,
        "福利片"@,
        "写真热舞"@,
        "倫理片"@,
        "理论片"@,
        "韩国伦理"@,
        "港台三级"@,
        "电影解说"@,
        "伦理"@,
        "写真"@,
        "诱惑"@,
    ]
}

fn yellow_word_list() -> (r: Vec<&'static str>)
    ensures
        r@.map_values(|w: &str| w@) == yellow_words(),
{
    let r = vec![
        "伦理片",
        "成人",
        "情色",
        "福利",
        "三上",
        "里番动漫",
        "门事件",
        "萝莉少女",
        "制服诱惑",
        "国产传媒",
        "cosplay",
        "黑丝诱惑",
        "无码",
        "日本无码",
        "有码",
        "cosplay",
        "swag",
        "av",
        "三级片",
        "日本有码",
        "SWAG",
        "网红主播",
        "色情片",
        "同性片",
        "福利视频",
        "福利片",
        "写真热舞",
        "倫理片",
        "理论片",
        "韩国伦理",
        "港台三级",
        "电影解说",
        "伦理",
        "写真",
        "诱惑",
    ];
    assert(r@.map_values(|w: &str| w@) =~= yellow_words());
    r
}

/// The category name of a result, empty when there is none.
pub open spec fn label_text(type_label: Option<String>) -> Seq<char> {
    match type_label {
        Some(t) => t@,
        None => Seq::empty(),
    }
}

/// Whether a category name holds one of the adult-content words.
pub open spec fn is_yellow_label(label: Seq<char>) -> bool {
    exists|i: int| 0 <= i < yellow_words().len() && contains_seq(label, #[trigger] yellow_words()[i])
}

pub fn is_yellow_type(type_label: &Option<String>) -> (r: bool)
    ensures
        r == is_yellow_label(label_text(*type_label)),
{
    let label = match type_label {
        Some(t) => t.clone(),
        None => String::new(),
    };
    let words = yellow_word_list();
    let ghost wv = words@.map_values(|w: &str| w@);
    let mut i: usize = 0;
    while i < words.len()
        invariant
            i <= words.len(),
            wv == words@.map_values(|w: &str| w@),
            wv == yellow_words(),
            label@ == label_text(*type_label),
            forall|j: int| 0 <= j < i ==> !contains_seq(label@, #[trigger] yellow_words()[j]),
        decreases words.len() - i,
    {
        assert(wv[i as int] == words@[i as int]@);
        if contains(label.as_str(), words[i]) {
            return true;
        }
        i += 1;
    }
    false
}

/// The key under which the search drops repeated results: source, a bar,
/// id.
pub open spec fn result_key(r: SearchResult) -> Seq<char> {
    r.source@ + "|"@ + r.id@
}

fn result_key_text(r: &SearchResult) -> (k: String)
    ensures
        k@ == result_key(*r),
{
    let mut k = r.source.clone();
    k.append("|");
    k.append(r.id.as_str());
    k
}

/// Whether an earlier result of `s` has the key of `s[n]`.
pub open spec fn seen_before(s: Seq<SearchResult>, n: int) -> bool {
    exists|j: int| 0 <= j < n && result_key(#[trigger] s[j]) == result_key(s[n])
}

/// What the search keeps of the results of all sources, in order: the first
/// result of each key, unless its category name marks adult content (while
/// the filter is on) or it has no episode.
pub open spec fn kept_results(s: Seq<SearchResult>, disable_yellow_filter: bool) -> Seq<SearchResult>
    decreases s.len(),
{
    if s.len() == 0 {
        s
    } else {
        let prev = kept_results(s.drop_last(), disable_yellow_filter);
        let x = s.last();
        if seen_before(s, s.len() - 1) || (!disable_yellow_filter && is_yellow_label(
            label_text(x.type_label),
        )) || x.episodes@.len() == 0 {
            prev
        } else {
            prev.push(x)
        }
    }
}

/// The positions of the first `n` list entries a source search keeps: all
/// of them, or, with the adult filter on, those whose category names no
/// adult word.
pub open spec fn kept_item_positions(items: Seq<ApiSearchItem>, disable_yellow_filter: bool, n: int) -> Seq<int>
    decreases n,
{
    if n <= 0 {
        Seq::empty()
    } else {
        let prev = kept_item_positions(items, disable_yellow_filter, n - 1);
        if !disable_yellow_filter && is_yellow_label(label_text(items[n - 1].type_label)) {
            prev
        } else {
            prev.push(n - 1)
        }
    }
}

/// The results one source gives for a search: its list entries as results
/// of the site, in order, without those of adult categories unless the
/// filter is off.
pub fn source_search_results(items: Vec<ApiSearchItem>, site: &ApiSite, disable_yellow_filter: bool) -> (r: Vec<
    SearchResult,
>)
    ensures
        r.len() == kept_item_positions(items@, disable_yellow_filter, items.len() as int).len(),
        forall|k: int|
            0 <= k < r.len() ==> is_result_of_item(
                #[trigger] r@[k]@,
                items@[kept_item_positions(items@, disable_yellow_filter, items.len() as int)[k]],
                *site,
            ),
{
    let ghost orig = items@;
    let n = items.len();
    let mut rest = items;
    let mut r: Vec<SearchResult> = Vec::new();
    let mut i: usize = 0;
    while rest.len() > 0
        invariant
            n == orig.len(),
            i + rest.len() == n,
            rest@ == orig.skip(i as int),
            r.len() == kept_item_positions(orig, disable_yellow_filter, i as int).len(),
            forall|k: int| 0 <= k < r.len() ==> is_result_of_item(
                #[trigger] r@[k]@,
                orig[kept_item_positions(orig, disable_yellow_filter, i as int)[k]],
                *site,
            ),
        decreases rest.len(),
    {
        let ghost kept_before = kept_item_positions(orig, disable_yellow_filter, i as int);
        let item = rest.remove(0);
        assert(item == orig[i as int]);
        assert(rest@ =~= orig.skip(i + 1));
        let yellow = is_yellow_type(&item.type_label);
        if disable_yellow_filter || !yellow {
            let ghost before = r@;
            let x = search_result_from_item(item, site);
            r.push(x);
            assert(kept_item_positions(orig, disable_yellow_filter, i + 1) == kept_before.push(i as int));
            assert forall|k: int| 0 <= k < r.len() implies is_result_of_item(
                #[trigger] r@[k]@,
                orig[kept_item_positions(orig, disable_yellow_filter, i + 1)[k]],
                *site,
            ) by {
                if k < before.len() {
                    assert(r@[k] == before[k]);
                }
            }
        }
        i += 1;
    }
    assert(orig.skip(n as int) =~= Seq::<ApiSearchItem>::empty());
    r
}

/// The rank of a result for a query: results whose title holds the query
/// come first, then shorter titles (in UTF-8 bytes) first.
pub open spec fn search_rank(r: SearchResult, query: Seq<char>) -> int {
    (if contains_seq(r.title@, query) { 0int } else { 0x1_0000_0000_0000_0000int })
        + (encode_utf8(r.title@).len() as usize) as int
}

/// The rank of results for a query, as a key.
pub open spec fn rank_for(query: Seq<char>) -> spec_fn(SearchResult) -> int {
    |x: SearchResult| search_rank(x, query)
}

/// The list a search answers for the results of all sources.
pub open spec fn search_answer(all_results: Seq<SearchResult>, query: Seq<char>, disable_yellow_filter: bool) -> Seq<
    SearchResult,
> {
    stable_asc(kept_results(all_results, disable_yellow_filter), rank_for(query))
}

fn search_rank_of(r: &SearchResult, query: &str) -> (k: i128)
    ensures
        k as int == search_rank(*r, query@),
{
    let len: usize = r.title.as_str().len();
    if contains(r.title.as_str(), query) {
        len as i128
    } else {
        0x1_0000_0000_0000_0000i128 + len as i128
    }
}

/// Merges the results of all sources into the list the search answers:
/// repeated results, adult content (while the filter is on) and results
/// without episodes are dropped, and what is left is ranked for the query,
/// equal ranks keeping their order.
pub fn finalize_search_results(
    all_results: Vec<SearchResult>,
    query: &str,
    disable_yellow_filter: bool,
) -> (r: Vec<SearchResult>)
    ensures
        r@ == search_answer(all_results@, query@, disable_yellow_filter),
{
    let ghost orig = all_results@;
    let mut rest = all_results;
    let mut kept: Vec<SearchResult> = Vec::new();
    let mut seen: Vec<String> = Vec::new();
    let mut n: usize = 0;
    let total = rest.len();
    while rest.len() > 0
        invariant
            total == orig.len(),
            n + rest.len() == total,
            rest@ == orig.skip(n as int),
            kept@ == kept_results(orig.take(n as int), disable_yellow_filter),
            seen.len() == n,
            forall|j: int| 0 <= j < n ==> (#[trigger] seen@[j])@ == result_key(orig[j]),
        decreases rest.len(),
    {
        let x = rest.remove(0);
        let ghost s1 = orig.take(n + 1);
        assert(s1.drop_last() =~= orig.take(n as int));
        assert(s1.last() == x);
        assert(rest@ =~= orig.skip(n + 1));
        let key = result_key_text(&x);
        let mut dup = false;
        let mut j: usize = 0;
        while j < seen.len()
            invariant
                j <= seen.len(),
                seen.len() == n,
                n < orig.len(),
                x == orig[n as int],
                key@ == result_key(x),
                forall|i: int| 0 <= i < n ==> (#[trigger] seen@[i])@ == result_key(orig[i]),
                dup == (exists|i: int| 0 <= i < j && result_key(#[trigger] orig[i]) == key@),
            decreases seen.len() - j,
        {
            if str_eq(seen[j].as_str(), key.as_str()) {
                dup = true;
            }
            assert(seen@[j as int]@ == result_key(orig[j as int]));
            j += 1;
        }
        assert(dup == seen_before(s1, n as int)) by {
            if dup {
                let i = choose|i: int| 0 <= i < n && result_key(#[trigger] orig[i]) == key@;
                assert(s1[i] == orig[i]);
            }
            if seen_before(s1, n as int) {
                let i = choose|i: int| 0 <= i < n && result_key(#[trigger] s1[i]) == result_key(s1[n as int]);
                assert(s1[i] == orig[i]);
            }
        }
        seen.push(key);
        if !dup && !(!disable_yellow_filter && is_yellow_type(&x.type_label)) && x.episodes.len() > 0 {
            kept.push(x);
        }
        n += 1;
    }
    assert(orig.take(total as int) =~= orig);
    let mut keys: Vec<i128> = Vec::new();
    let mut i: usize = 0;
    while i < kept.len()
        invariant
            i <= kept.len(),
            keys.len() == i,
            forall|j: int| 0 <= j < i ==> keys@[j] as int == rank_for(query@)(#[trigger] kept@[j]),
        decreases kept.len() - i,
    {
        let k = search_rank_of(&kept[i], query);
        keys.push(k);
        i += 1;
    }
    sort_asc_by_keys(kept, keys, Ghost(rank_for(query@)))
}

/// The search's answer is ranked, and holds exactly what was kept.
pub proof fn lemma_search_results_ranked(all_results: Seq<SearchResult>, query: Seq<char>, disable_yellow_filter: bool)
    ensures
        is_asc(search_answer(all_results, query, disable_yellow_filter), rank_for(query)),
        search_answer(all_results, query, disable_yellow_filter).to_multiset() == kept_results(
            all_results,
            disable_yellow_filter,
        ).to_multiset(),
{
    lemma_stable_asc(kept_results(all_results, disable_yellow_filter), rank_for(query));
}

/// Every kept result is a result of some source that was the first with its
/// key, has episodes, and (while the filter is on) is not adult content.
proof fn lemma_kept_members(s: Seq<SearchResult>, disable_yellow_filter: bool)
    ensures
        forall|k: int|
            0 <= k < kept_results(s, disable_yellow_filter).len() ==> exists|j: int|
                0 <= j < s.len() && #[trigger] kept_results(s, disable_yellow_filter)[k] == s[j]
                    && !seen_before(s, j),
        forall|k: int|
            0 <= k < kept_results(s, disable_yellow_filter).len() ==> (
            #[trigger] kept_results(s, disable_yellow_filter)[k]).episodes@.len() > 0 && (
            !disable_yellow_filter ==> !is_yellow_label(
                label_text(kept_results(s, disable_yellow_filter)[k].type_label),
            )),
    decreases s.len(),
{
    if s.len() > 0 {
        let d = s.drop_last();
        lemma_kept_members(d, disable_yellow_filter);
        let prev = kept_results(d, disable_yellow_filter);
        assert forall|k: int| 0 <= k < prev.len() implies exists|j: int|
            0 <= j < s.len() && #[trigger] prev[k] == s[j] && !seen_before(s, j) by {
            let j = choose|j: int| 0 <= j < d.len() && prev[k] == d[j] && !seen_before(d, j);
            assert(d[j] == s[j]);
            if seen_before(s, j) {
                let i = choose|i: int| 0 <= i < j && result_key(#[trigger] s[i]) == result_key(s[j]);
                assert(d[i] == s[i]);
                assert(seen_before(d, j));
            }
        }
        let x = s.last();
        if !(seen_before(s, s.len() - 1) || (!disable_yellow_filter && is_yellow_label(
            label_text(x.type_label),
        )) || x.episodes@.len() == 0) {
            let kept = prev.push(x);
            assert(kept[prev.len() as int] == s[s.len() - 1]);
        }
    }
}

/// No two kept results share a key.
proof fn lemma_kept_distinct(s: Seq<SearchResult>, disable_yellow_filter: bool)
    ensures
        distinct_by(kept_results(s, disable_yellow_filter), |x: SearchResult| result_key(x)),
    decreases s.len(),
{
    if s.len() > 0 {
        let d = s.drop_last();
        lemma_kept_distinct(d, disable_yellow_filter);
        lemma_kept_members(d, disable_yellow_filter);
        let prev = kept_results(d, disable_yellow_filter);
        let x = s.last();
        if !(seen_before(s, s.len() - 1) || (!disable_yellow_filter && is_yellow_label(
            label_text(x.type_label),
        )) || x.episodes@.len() == 0) {
            let kept = prev.push(x);
            assert forall|k: int| 0 <= k < prev.len() implies result_key(#[trigger] prev[k])
                != result_key(x) by {
                let j = choose|j: int| 0 <= j < d.len() && prev[k] == d[j] && !seen_before(d, j);
                assert(d[j] == s[j]);
                assert(!seen_before(s, s.len() - 1));
            }
            assert forall|i: int, j: int| 0 <= i < j < kept.len() implies result_key(
                #[trigger] kept[i],
            ) != result_key(#[trigger] kept[j]) by {
                if j == prev.len() {
                    assert(kept[i] == prev[i]);
                } else {
                    assert(kept[i] == prev[i] && kept[j] == prev[j]);
                }
            }
        }
    }
}

/// The key of a result, as a function.
pub open spec fn key_of_result() -> spec_fn(SearchResult) -> Seq<char> {
    |x: SearchResult| result_key(x)
}

/// The search's answer never lists a (source, id) key twice; every result in
/// it has episodes, came from some source, and is no adult content while the
/// filter is on.
pub proof fn lemma_search_results_clean(all_results: Seq<SearchResult>, query: Seq<char>, disable_yellow_filter: bool)
    ensures
        distinct_by(search_answer(all_results, query, disable_yellow_filter), key_of_result()),
        forall|k: int|
            0 <= k < search_answer(all_results, query, disable_yellow_filter).len() ==> {
                let r = #[trigger] search_answer(all_results, query, disable_yellow_filter)[k];
                &&& r.episodes@.len() > 0
                &&& (!disable_yellow_filter ==> !is_yellow_label(label_text(r.type_label)))
                &&& exists|j: int| 0 <= j < all_results.len() && r == all_results[j]
            },
{
    let kept = kept_results(all_results, disable_yellow_filter);
    lemma_kept_distinct(all_results, disable_yellow_filter);
    lemma_kept_members(all_results, disable_yellow_filter);
    assert(key_of_result() =~= (|x: SearchResult| result_key(x)));
    lemma_stable_asc_distinct(kept, rank_for(query), key_of_result());
    lemma_stable_asc_members(kept, rank_for(query));
    let fin = search_answer(all_results, query, disable_yellow_filter);
    assert forall|k: int| 0 <= k < fin.len() implies {
        let r = #[trigger] fin[k];
        &&& r.episodes@.len() > 0
        &&& (!disable_yellow_filter ==> !is_yellow_label(label_text(r.type_label)))
        &&& exists|j: int| 0 <= j < all_results.len() && r == all_results[j]
    } by {
        let m = choose|m: int| 0 <= m < kept.len() && fin[k] == kept[m];
        assert(kept[m].episodes@.len() > 0);
        let j = choose|j: int| 0 <= j < all_results.len() && kept[m] == all_results[j] && !seen_before(all_results, j);
    }
}

/// What the search should keep of a result: it is the first with its key,
/// has episodes, and (while the filter is on) is no adult content.
pub open spec fn keeps_result(s: Seq<SearchResult>, j: int, disable_yellow_filter: bool) -> bool {
    &&& !seen_before(s, j)
    &&& s[j].episodes@.len() > 0
    &&& (disable_yellow_filter || !is_yellow_label(label_text(s[j].type_label)))
}

proof fn lemma_kept_complete(s: Seq<SearchResult>, disable_yellow_filter: bool)
    ensures
        forall|j: int|
            0 <= j < s.len() && keeps_result(s, j, disable_yellow_filter) ==> kept_results(
                s,
                disable_yellow_filter,
            ).contains(#[trigger] s[j]),
    decreases s.len(),
{
    if s.len() > 0 {
        let t = s.drop_last();
        lemma_kept_complete(t, disable_yellow_filter);
        let prev = kept_results(t, disable_yellow_filter);
        let cur = kept_results(s, disable_yellow_filter);
        assert forall|j: int| 0 <= j < s.len() && keeps_result(s, j, disable_yellow_filter) implies cur.contains(
            #[trigger] s[j],
        ) by {
            if j < s.len() - 1 {
                assert(t[j] == s[j]);
                if seen_before(t, j) {
                    let i = choose|i: int| 0 <= i < j && result_key(#[trigger] t[i]) == result_key(t[j]);
                    assert(s[i] == t[i]);
                    assert(seen_before(s, j));
                }
                assert(keeps_result(t, j, disable_yellow_filter));
                assert(prev.contains(t[j]));
                let k = choose|k: int| 0 <= k < prev.len() && prev[k] == t[j];
                if cur != prev {
                    assert(cur == prev.push(s.last()));
                    assert(cur[k] == prev[k]);
                }
            } else {
                assert(cur == prev.push(s.last()));
                assert(cur[prev.len() as int] == s[j]);
            }
        }
    }
}

/// Nothing that should be found is lost: every result that is the first
/// with its (source, id) key, has episodes, and (while the filter is on) is
/// no adult content, is in the search's answer.
pub proof fn lemma_search_results_complete(all_results: Seq<SearchResult>, query: Seq<char>, disable_yellow_filter: bool)
    ensures
        forall|j: int|
            0 <= j < all_results.len() && keeps_result(all_results, j, disable_yellow_filter) ==> search_answer(
                all_results,
                query,
                disable_yellow_filter,
            ).contains(#[trigger] all_results[j]),
{
    broadcast use vstd::seq_lib::to_multiset_contains;

    lemma_kept_complete(all_results, disable_yellow_filter);
    lemma_search_results_ranked(all_results, query, disable_yellow_filter);
    let kept = kept_results(all_results, disable_yellow_filter);
    let fin = search_answer(all_results, query, disable_yellow_filter);
    assert forall|j: int| 0 <= j < all_results.len() && keeps_result(all_results, j, disable_yellow_filter) implies fin.contains(
        #[trigger] all_results[j],
    ) by {
        assert(kept.contains(all_results[j]));
        assert(kept.to_multiset().count(all_results[j]) > 0);
        assert(fin.to_multiset().count(all_results[j]) > 0);
    }
}

/// Whether a result matches what a fallback search looks for: the same title
/// once spaces are removed and case is folded, the same year (when one is
/// given, trimmed and lower-cased), and the kind of programme.
pub open spec fn fallback_match(
    x: SearchResult,
    title: Seq<char>,
    year: Option<Seq<char>>,
    search_type: Option<SearchTypeFilter>,
) -> bool {
    &&& title_match_key(x.title@) == title_match_key(title)
    &&& match year {
        Some(y) => {
            let ny = unicode_lowercase(trim_seq(y));
            ny.len() == 0 || unicode_lowercase(label_text(x.year)) == ny
        },
        None => true,
    }
    &&& match search_type {
        Some(SearchTypeFilter::Tv) => x.episodes@.len() > 1,
        Some(SearchTypeFilter::Movie) => x.episodes@.len() == 1,
        None => true,
    }
}

/// The results that match a fallback search, in order.
pub open spec fn fallback_matches(
    s: Seq<SearchResult>,
    title: Seq<char>,
    year: Option<Seq<char>>,
    search_type: Option<SearchTypeFilter>,
) -> Seq<SearchResult>
    decreases s.len(),
{
    if s.len() == 0 {
        s
    } else {
        let prev = fallback_matches(s.drop_last(), title, year, search_type);
        if fallback_match(s.last(), title, year, search_type) {
            prev.push(s.last())
        } else {
            prev
        }
    }
}

/// An optional string slice as an optional character sequence.
pub open spec fn opt_str_view(o: Option<&str>) -> Option<Seq<char>> {
    match o {
        Some(s) => Some(s@),
        None => None,
    }
}

pub fn filter_sources_for_fallback(
    results: &Vec<SearchResult>,
    title: &str,
    year: Option<&str>,
    search_type: Option<SearchTypeFilter>,
) -> (r: Vec<SearchResult>)
    ensures
        result_views(r@) == result_views(
            fallback_matches(results@, title@, opt_str_view(year), search_type),
        ),
{
    let normalized_title = normalize_title_for_match(title);
    let normalized_year: Option<String> = match year {
        Some(y) => {
            let t = trim(y);
            Some(to_lowercase(t.as_str()))
        },
        None => None,
    };
    let ghost yv = opt_str_view(year);
    let mut r: Vec<SearchResult> = Vec::new();
    let mut i: usize = 0;
    while i < results.len()
        invariant
            i <= results.len(),
            normalized_title@ == title_match_key(title@),
            yv == opt_str_view(year),
            match normalized_year {
                Some(ny) => yv is Some && ny@ == unicode_lowercase(trim_seq(yv->Some_0)),
                None => yv is None,
            },
            result_views(r@) == result_views(
                fallback_matches(results@.take(i as int), title@, yv, search_type),
            ),
        decreases results.len() - i,
    {
        assert(results@.take(i + 1).drop_last() =~= results@.take(i as int));
        let x = &results[i];
        let key = normalize_title_for_match(x.title.as_str());
        let mut keep = str_eq(key.as_str(), normalized_title.as_str());
        if keep {
            match &normalized_year {
                Some(ny) => {
                    if !ny.as_str().is_empty() {
                        let ry = match &x.year {
                            Some(y) => to_lowercase(y.as_str()),
                            None => to_lowercase(String::new().as_str()),
                        };
                        keep = str_eq(ry.as_str(), ny.as_str());
                    }
                },
                None => {},
            }
        }
        if keep {
            keep = match search_type {
                Some(SearchTypeFilter::Tv) => x.episodes.len() > 1,
                Some(SearchTypeFilter::Movie) => x.episodes.len() == 1,
                None => true,
            };
        }
        let ghost before = r@;
        if keep {
            r.push(x.clone());
            assert(result_views(r@) =~= result_views(before).push(x@));
        }
        proof {
            assert(fallback_match(results@.take(i + 1).last(), title@, yv, search_type) == keep);
            if keep {
                assert(result_views(fallback_matches(results@.take(i + 1), title@, yv, search_type))
                    =~= result_views(fallback_matches(results@.take(i as int), title@, yv, search_type)).push(x@));
            }
        }
        i += 1;
    }
    assert(results@.take(results.len() as int) =~= results@);
    r
}

/// The candidates of a fallback search: the matching results, or all results
/// when none matches.
pub fn choose_fallback_candidates(
    results: Vec<SearchResult>,
    title: &str,
    year: Option<&str>,
    search_type: Option<SearchTypeFilter>,
) -> (r: Vec<SearchResult>)
    ensures
        result_views(r@) == if fallback_matches(
            results@,
            title@,
            opt_str_view(year),
            search_type,
        ).len() == 0 {
            result_views(results@)
        } else {
            result_views(fallback_matches(results@, title@, opt_str_view(year), search_type))
        },
        results@.len() > 0 ==> r@.len() > 0,
{
    let filtered = filter_sources_for_fallback(&results, title, year, search_type);
    if filtered.len() == 0 {
        results
    } else {
        filtered
    }
}

/// Whether a result is the one of `source` and `id`.
pub open spec fn same_entry(x: SearchResultView, source: String, id: String) -> bool {
    x.source@ == source@ && x.id@ == id@
}

/// The results other than the one of `source` and `id`, in order.
pub open spec fn without_entry(s: Seq<SearchResultView>, source: String, id: String) -> Seq<
    SearchResultView,
>
    decreases s.len(),
{
    if s.len() == 0 {
        s
    } else {
        let prev = without_entry(s.drop_last(), source, id);
        if same_entry(s.last(), source, id) {
            prev
        } else {
            prev.push(s.last())
        }
    }
}

/// `results` without the entries of `source` and `id`, order kept.
pub fn drop_entry(results: Vec<SearchResult>, source: &String, id: &String) -> (r: Vec<SearchResult>)
    ensures
        result_views(r@) == without_entry(result_views(results@), *source, *id),
{
    let ghost orig = results@;
    let mut rest = results;
    let mut r: Vec<SearchResult> = Vec::new();
    let mut n: usize = 0;
    let total = rest.len();
    while rest.len() > 0
        invariant
            total == orig.len(),
            n + rest.len() == total,
            rest@ == orig.skip(n as int),
            result_views(r@) == without_entry(result_views(orig.take(n as int)), *source, *id),
        decreases rest.len(),
    {
        let x = rest.remove(0);
        assert(rest@ =~= orig.skip(n + 1));
        assert(result_views(orig.take(n + 1)).drop_last() =~= result_views(orig.take(n as int)));
        assert(result_views(orig.take(n + 1)).last() == x@);
        let ghost before = r@;
        if !(x.source == *source && x.id == *id) {
            r.push(x);
            assert(result_views(r@) =~= result_views(before).push(r@.last()@));
        }
        n += 1;
    }
    assert(orig.take(total as int) =~= orig);
    r
}

/// Puts the best result first, followed by the others in their order.
pub fn reorder_results_with_best(best: &SearchResult, results: Vec<SearchResult>) -> (r: Vec<
    SearchResult,
>)
    ensures
        result_views(r@) == seq![best@] + without_entry(result_views(results@), best.source, best.id),
{
    let rest = drop_entry(results, &best.source, &best.id);
    let mut r: Vec<SearchResult> = Vec::new();
    r.push(best.clone());
    let ghost first = r@;
    let ghost tail = rest@;
    let mut rest = rest;
    r.append(&mut rest);
    assert(result_views(r@) =~= seq![best@] + result_views(tail));
    r
}

/// The sources of a sequence of results, each once, in order of first
/// appearance.
pub open spec fn distinct_in_order(s: Seq<Seq<char>>) -> Seq<Seq<char>>
    decreases s.len(),
{
    if s.len() == 0 {
        s
    } else {
        let prev = distinct_in_order(s.drop_last());
        if prev.contains(s.last()) {
            prev
        } else {
            prev.push(s.last())
        }
    }
}

/// The sources of the results, as a ranking asks for them.
pub open spec fn result_sources(s: Seq<SearchResult>) -> Seq<Seq<char>> {
    s.map_values(|x: SearchResult| x.source@)
}

pub fn distinct_sources(results: &Vec<SearchResult>) -> (r: Vec<String>)
    ensures
        string_views(r@) == distinct_in_order(result_sources(results@)),
{
    let ghost all = result_sources(results@);
    let mut r: Vec<String> = Vec::new();
    let mut i: usize = 0;
    while i < results.len()
        invariant
            i <= results.len(),
            all == result_sources(results@),
            string_views(r@) == distinct_in_order(all.take(i as int)),
        decreases results.len() - i,
    {
        assert(all.take(i + 1).drop_last() =~= all.take(i as int));
        assert(all.take(i + 1).last() == results@[i as int].source@);
        let ghost prev = string_views(r@);
        let mut found = false;
        let mut j: usize = 0;
        while j < r.len()
            invariant
                j <= r.len(),
                i < results.len(),
                prev == string_views(r@),
                found == (exists|k: int| 0 <= k < j && prev[k] == results@[i as int].source@),
            decreases r.len() - j,
        {
            if r[j] == results[i].source {
                found = true;
            }
            assert(prev[j as int] == r@[j as int]@);
            j += 1;
        }
        assert(found == prev.contains(results@[i as int].source@));
        if !found {
            r.push(results[i].source.clone());
            assert(string_views(r@) =~= prev.push(results@[i as int].source@));
        }
        i += 1;
    }
    assert(all.take(results.len() as int) =~= all);
    r
}

/// The rank of a source in a ranking: its last position, or `usize::MAX`
/// when the ranking does not name it.
pub open spec fn rank_in(ranked: Seq<Seq<char>>, source: Seq<char>) -> int
    decreases ranked.len(),
{
    if ranked.len() == 0 {
        usize::MAX as int
    } else if ranked.last() == source {
        ranked.len() - 1
    } else {
        rank_in(ranked.drop_last(), source)
    }
}

fn rank_of_source(ranked: &Vec<String>, source: &String) -> (r: usize)
    ensures
        r as int == rank_in(string_views(ranked@), source@),
{
    let ghost rv = string_views(ranked@);
    let mut n = ranked.len();
    assert(rv.take(n as int) =~= rv);
    while n > 0
        invariant
            n <= ranked.len(),
            rv == string_views(ranked@),
            rank_in(rv, source@) == rank_in(rv.take(n as int), source@),
        decreases n,
    {
        assert(rv.take(n as int).last() == ranked@[n - 1]@);
        assert(rv.take(n as int).drop_last() =~= rv.take(n - 1));
        if ranked[n - 1] == *source {
            return n - 1;
        }
        n -= 1;
    }
    usize::MAX
}

/// The rank key of a result under a ranking of its source.
pub open spec fn source_rank_key(ranked: Seq<Seq<char>>) -> spec_fn(SearchResult) -> int {
    |x: SearchResult| rank_in(ranked, x.source@)
}

/// Orders results by the rank of their source in `ranked_keys` (a ranking of
/// the sources, best first); results of the same rank, and those of sources
/// it does not name, keep their order.
pub fn reorder_by_source_rank(results: Vec<SearchResult>, ranked_keys: &Vec<String>) -> (r: Vec<
    SearchResult,
>)
    ensures
        r@ == stable_asc(results@, source_rank_key(string_views(ranked_keys@))),
{
    let ghost key = source_rank_key(string_views(ranked_keys@));
    let mut keys: Vec<i128> = Vec::new();
    let mut i: usize = 0;
    while i < results.len()
        invariant
            i <= results.len(),
            keys.len() == i,
            key == source_rank_key(string_views(ranked_keys@)),
            forall|j: int| 0 <= j < i ==> keys@[j] as int == key(#[trigger] results@[j]),
        decreases results.len() - i,
    {
        let k = rank_of_source(ranked_keys, &results[i].source);
        keys.push(k as i128);
        i += 1;
    }
    sort_asc_by_keys(results, keys, Ghost(key))
}

/// Where playback resumes after a change of source: at the start, at the
/// position the request asked for, or at the current position.
#[derive(Debug, Clone, Copy, PartialEq, Eq, Structural)]
pub enum ResumeChoice {
    Start,
    Requested,
    Current,
}

/// The episode and resume position chosen when the source changes.
#[derive(Debug, Clone, Copy, PartialEq, Eq, Structural)]
pub struct SourceChangePlan {
    pub target_episode_index: i32,
    pub resume: ResumeChoice,
}

/// The plan for a change to a source with `total_episodes` episodes (counted
/// as an `i32`): an episode index out of range restarts the first episode;
/// otherwise the episode is kept and playback resumes at the requested
/// position when it is positive, else at the current one when it is past the
/// first second, else at the start.
pub open spec fn source_change_plan(
    total_episodes: usize,
    current_episode_index: i32,
    requested_resume_positive: bool,
    current_play_time_above_one: bool,
) -> SourceChangePlan {
    let total = total_episodes as i32;
    if total <= 0 || current_episode_index < 0 || current_episode_index > total - 1 {
        SourceChangePlan { target_episode_index: 0, resume: ResumeChoice::Start }
    } else {
        SourceChangePlan {
            target_episode_index: current_episode_index,
            resume: if requested_resume_positive {
                ResumeChoice::Requested
            } else if current_play_time_above_one {
                ResumeChoice::Current
            } else {
                ResumeChoice::Start
            },
        }
    }
}

/// Chooses the episode and resume position on the new source `detail`. The
/// two positions are judged by the caller: whether the requested resume time
/// is above zero, and whether the current play time is above one second.
pub fn resolve_source_change(
    detail: &SearchResult,
    current_episode_index: i32,
    requested_resume_positive: bool,
    current_play_time_above_one: bool,
) -> (r: SourceChangePlan)
    ensures
        r == source_change_plan(
            detail.episodes.len(),
            current_episode_index,
            requested_resume_positive,
            current_play_time_above_one,
        ),
{
    let total: i32 = #[verifier::truncate] (detail.episodes.len() as i32);
    if total <= 0 {
        return SourceChangePlan { target_episode_index: 0, resume: ResumeChoice::Start };
    }
    let max_index = total - 1;
    if current_episode_index < 0 || current_episode_index > max_index {
        return SourceChangePlan { target_episode_index: 0, resume: ResumeChoice::Start };
    }
    let resume = if requested_resume_positive {
        ResumeChoice::Requested
    } else if current_play_time_above_one {
        ResumeChoice::Current
    } else {
        ResumeChoice::Start
    };
    SourceChangePlan { target_episode_index: current_episode_index, resume }
}

/// The storage key of a programme of a source: source, a plus sign, id.
pub open spec fn record_key(source: Seq<char>, id: Seq<char>) -> Seq<char> {
    source + "+"@ + id
}

pub fn play_record_key(source: &str, id: &str) -> (r: String)
    ensures
        r@ == record_key(source@, id@),
{
    let mut k = String::from_str(source);
    k.append("+");
    k.append(id);
    k
}

/// The key of the programme playing before a change of source, when both
/// its source and its id are given and not empty.
pub open spec fn previous_record_key(source: Option<Seq<char>>, id: Option<Seq<char>>) -> Option<
    Seq<char>,
> {
    match (source, id) {
        (Some(s), Some(i)) => if s.len() > 0 && i.len() > 0 {
            Some(record_key(s, i))
        } else {
            None
        },
        _ => None,
    }
}

pub fn old_play_record_key(current_source: Option<&str>, current_id: Option<&str>) -> (r: Option<
    String,
>)
    ensures
        match (r, previous_record_key(opt_str_view(current_source), opt_str_view(current_id))) {
            (Some(k), Some(e)) => k@ == e,
            (None, None) => true,
            _ => false,
        },
{
    match (current_source, current_id) {
        (Some(source), Some(id)) => if !source.is_empty() && !id.is_empty() {
            Some(play_record_key(source, id))
        } else {
            None
        },
        _ => None,
    }
}

/// The first position `i` in `s` whose result satisfies `pick`, or none.
pub open spec fn first_where(s: Seq<SearchResult>, pick: spec_fn(SearchResult) -> bool) -> Option<int>
    decreases s.len(),
{
    if s.len() == 0 {
        None
    } else if pick(s[0]) {
        Some(0)
    } else {
        match first_where(s.drop_first(), pick) {
            Some(i) => Some(i + 1),
            None => None,
        }
    }
}

/// The result a change of source switches to, among the ordered sources:
/// the one asked for, or, when the source asked for is degraded, the first
/// one of another source (the one asked for when there is none).
pub open spec fn chosen_source(
    ordered: Seq<SearchResult>,
    new_source: Seq<char>,
    new_id: Seq<char>,
    requested_is_degraded: bool,
) -> Option<int> {
    let asked = |x: SearchResult| x.source@ == new_source && x.id@ == new_id;
    let other = |x: SearchResult| x.source@ != new_source;
    if requested_is_degraded {
        match first_where(ordered, other) {
            Some(i) => Some(i),
            None => first_where(ordered, asked),
        }
    } else {
        first_where(ordered, asked)
    }
}

fn find_first(s: &Vec<SearchResult>, new_source: &str, new_id: &str, other_source: bool) -> (r: Option<usize>)
    ensures
        match r {
            Some(i) => first_where(
                s@,
                if other_source {
                    |x: SearchResult| x.source@ != new_source@
                } else {
                    |x: SearchResult| x.source@ == new_source@ && x.id@ == new_id@
                },
            ) == Some(i as int),
            None => first_where(
                s@,
                if other_source {
                    |x: SearchResult| x.source@ != new_source@
                } else {
                    |x: SearchResult| x.source@ == new_source@ && x.id@ == new_id@
                },
            ) is None,
        },
{
    let ghost pick = if other_source {
        |x: SearchResult| x.source@ != new_source@
    } else {
        |x: SearchResult| x.source@ == new_source@ && x.id@ == new_id@
    };
    let mut i: usize = 0;
    assert(s@.skip(0) =~= s@);
    while i < s.len()
        invariant
            i <= s.len(),
            pick == (if other_source {
                |x: SearchResult| x.source@ != new_source@
            } else {
                |x: SearchResult| x.source@ == new_source@ && x.id@ == new_id@
            }),
            first_where(s@, pick) == match first_where(s@.skip(i as int), pick) {
                Some(j) => Some(j + i),
                None => None,
            },
        decreases s.len() - i,
    {
        assert(s@.skip(i as int)[0] == s@[i as int]);
        assert(s@.skip(i as int).drop_first() =~= s@.skip(i + 1));
        let hit = if other_source {
            !str_eq(s[i].source.as_str(), new_source)
        } else {
            str_eq(s[i].source.as_str(), new_source) && str_eq(s[i].id.as_str(), new_id)
        };
        if hit {
            return Some(i);
        }
        i += 1;
    }
    assert(s@.skip(i as int) =~= Seq::<SearchResult>::empty());
    None
}

/// The position, among the ordered sources, of the result a change of
/// source switches to; none when it is not there.
pub fn select_play_source(
    ordered: &Vec<SearchResult>,
    new_source: &str,
    new_id: &str,
    requested_is_degraded: bool,
) -> (r: Option<usize>)
    ensures
        match r {
            Some(i) => chosen_source(ordered@, new_source@, new_id@, requested_is_degraded) == Some(
                i as int,
            ),
            None => chosen_source(ordered@, new_source@, new_id@, requested_is_degraded) is None,
        },
{
    if requested_is_degraded {
        match find_first(ordered, new_source, new_id, true) {
            Some(i) => Some(i),
            None => find_first(ordered, new_source, new_id, false),
        }
    } else {
        find_first(ordered, new_source, new_id, false)
    }
}

/// A progress report of the player, its times in whole seconds (rounded
/// down).
#[derive(Debug, Clone)]
pub struct PlayProgress {
    pub source: String,
    pub id: String,
    pub title: String,
    pub source_name: String,
    pub year: String,
    pub cover: String,
    pub episode_index: i32,
    pub total_episodes: i32,
    pub play_time_secs: i32,
    pub total_time_secs: i32,
    pub search_title: Option<String>,
}

/// The play record stored for a progress report.
#[derive(Debug, Clone)]
pub struct PlayRecordRow {
    pub key: String,
    pub title: String,
    pub source_name: String,
    pub year: String,
    pub cover: String,
    pub episode_index: i32,
    pub total_episodes: i32,
    pub play_time: i32,
    pub total_time: i32,
    pub save_time: i32,
    pub search_title: String,
}

/// Whether a progress report is stored: it names a source, an id, a title and
/// a source name, and has played at least one second of a known length.
pub open spec fn progress_worth_saving(p: PlayProgress) -> bool {
    &&& p.source@.len() > 0
    &&& p.id@.len() > 0
    &&& trim_seq(p.title@).len() > 0
    &&& trim_seq(p.source_name@).len() > 0
    &&& p.play_time_secs >= 1
    &&& p.total_time_secs > 0
}

/// Whether `row` is the record stored for `p` at `save_time`: the 0-based
/// episode stored 1-based, an unknown episode count stored as one.
pub open spec fn is_record_of(row: PlayRecordRow, p: PlayProgress, save_time: i32) -> bool {
    &&& row.key@ == record_key(p.source@, p.id@)
    &&& row.title == p.title
    &&& row.source_name == p.source_name
    &&& row.year == p.year
    &&& row.cover == p.cover
    &&& row.episode_index == (if p.episode_index < 0 { 0 } else { p.episode_index }) + 1
    &&& row.total_episodes == (if p.total_episodes <= 0 { 1 } else { p.total_episodes })
    &&& row.play_time == p.play_time_secs
    &&& row.total_time == p.total_time_secs
    &&& row.save_time == save_time
    &&& row.search_title@ == match p.search_title {
        Some(t) => t@,
        None => Seq::empty(),
    }
}

/// The record to store for a progress report, or none when the report is
/// not worth saving.
pub fn prepare_play_record(p: PlayProgress, save_time: i32) -> (r: Option<PlayRecordRow>)
    requires
        p.episode_index < i32::MAX,
    ensures
        match r {
            Some(row) => progress_worth_saving(p) && is_record_of(row, p, save_time),
            None => !progress_worth_saving(p),
        },
{
    if p.source.as_str().is_empty() || p.id.as_str().is_empty() {
        return None;
    }
    let t = trim(p.title.as_str());
    let n = trim(p.source_name.as_str());
    if t.as_str().is_empty() || n.as_str().is_empty() {
        return None;
    }
    if p.play_time_secs < 1 || p.total_time_secs <= 0 {
        return None;
    }
    let total_episodes = if p.total_episodes <= 0 { 1 } else { p.total_episodes };
    let episode_index = (if p.episode_index < 0 { 0 } else { p.episode_index }) + 1;
    let search_title = match p.search_title {
        Some(t) => t,
        None => String::new(),
    };
    Some(
        PlayRecordRow {
            key: play_record_key(p.source.as_str(), p.id.as_str()),
            title: p.title,
            source_name: p.source_name,
            year: p.year,
            cover: p.cover,
            episode_index,
            total_episodes,
            play_time: p.play_time_secs,
            total_time: p.total_time_secs,
            save_time,
            search_title,
        },
    )
}

/// How often the player checks for intro and outro skipping, in ms.
pub const PLAYER_SKIP_CHECK_INTERVAL_MS: i64 = 1500;

/// What a player tick does with its two clocks.
#[derive(Debug, Clone, Copy, PartialEq, Eq, Structural)]
pub struct TickTimingDecision {
    pub should_save_progress: bool,
    pub should_check_skip: bool,
    pub next_last_save_at_ms: i64,
    pub next_last_skip_check_at_ms: i64,
}

/// A tick saves progress once the save interval (at least half a second)
/// has passed since the last save, and checks skipping once the check
/// interval has passed; each clock moves to now when its action runs.
pub open spec fn tick_timing(now_ms: i64, last_save_at_ms: i64, save_interval_ms: i64, last_skip_check_at_ms: i64) -> TickTimingDecision {
    let interval = if save_interval_ms < 500 { 500 } else { save_interval_ms };
    let save = now_ms - last_save_at_ms >= interval;
    let check = now_ms - last_skip_check_at_ms >= PLAYER_SKIP_CHECK_INTERVAL_MS;
    TickTimingDecision {
        should_save_progress: save,
        should_check_skip: check,
        next_last_save_at_ms: if save { now_ms } else { last_save_at_ms },
        next_last_skip_check_at_ms: if check { now_ms } else { last_skip_check_at_ms },
    }
}

pub fn decide_tick_timing(now_ms: i64, last_save_at_ms: i64, save_interval_ms: i64, last_skip_check_at_ms: i64) -> (r: TickTimingDecision)
    requires
        i64::MIN <= now_ms - last_save_at_ms <= i64::MAX,
        i64::MIN <= now_ms - last_skip_check_at_ms <= i64::MAX,
    ensures
        r == tick_timing(now_ms, last_save_at_ms, save_interval_ms, last_skip_check_at_ms),
{
    let interval = if save_interval_ms < 500 { 500 } else { save_interval_ms };
    let save = now_ms - last_save_at_ms >= interval;
    let check = now_ms - last_skip_check_at_ms >= PLAYER_SKIP_CHECK_INTERVAL_MS;
    TickTimingDecision {
        should_save_progress: save,
        should_check_skip: check,
        next_last_save_at_ms: if save { now_ms } else { last_save_at_ms },
        next_last_skip_check_at_ms: if check { now_ms } else { last_skip_check_at_ms },
    }
}

/// The outcome of one attempt to fetch a resource.
#[derive(Debug, Clone, Copy, PartialEq, Eq, Structural)]
pub enum FetchOutcome {
    Success,
    NotFound,
    OtherStatus,
    NetworkError,
}

/// How often and how patiently a fetch is retried: the attempts it gets,
/// the first pause and the longest pause (ms).
#[derive(Debug, Clone, Copy, PartialEq, Eq, Structural)]
pub struct RetryPolicy {
    pub attempts: u32,
    pub initial_delay_ms: u64,
    pub max_delay_ms: u64,
}

/// The attempts left and the next pause of a fetch being retried.
#[derive(Debug, Clone, Copy, PartialEq, Eq, Structural)]
pub struct RetryState {
    pub retries_left: u32,
    pub delay_ms: u64,
}

/// What a fetch does after an attempt.
#[derive(Debug, Clone, Copy, PartialEq, Eq, Structural)]
pub enum RetryStep {
    /// The attempt succeeded.
    Done,
    /// The resource does not exist; no retry.
    Missing,
    /// The last attempt failed.
    GiveUp,
    /// Wait `delay_ms`, then try again in state `next`.
    Retry { delay_ms: u64, next: RetryState },
}

/// Three attempts, 300 ms then doubling up to 3 s between them.
pub open spec fn fetch_retry_policy_spec() -> RetryPolicy {
    RetryPolicy { attempts: 3, initial_delay_ms: 300, max_delay_ms: 3000 }
}

/// Three attempts, 200 ms then doubling up to 2 s between them (segment
/// prefetch).
pub open spec fn prefetch_retry_policy_spec() -> RetryPolicy {
    RetryPolicy { attempts: 3, initial_delay_ms: 200, max_delay_ms: 2000 }
}

pub fn fetch_retry_policy() -> (r: RetryPolicy)
    ensures
        r == fetch_retry_policy_spec(),
{
    RetryPolicy { attempts: 3, initial_delay_ms: 300, max_delay_ms: 3000 }
}

pub fn prefetch_retry_policy() -> (r: RetryPolicy)
    ensures
        r == prefetch_retry_policy_spec(),
{
    RetryPolicy { attempts: 3, initial_delay_ms: 200, max_delay_ms: 2000 }
}

/// A policy that the retry loop can follow without overflow.
pub open spec fn policy_ok(p: RetryPolicy) -> bool {
    p.attempts >= 1 && p.initial_delay_ms <= p.max_delay_ms && p.max_delay_ms <= u64::MAX / 2
}

/// A state reachable under a policy.
pub open spec fn state_ok(p: RetryPolicy, s: RetryState) -> bool {
    1 <= s.retries_left <= p.attempts && s.delay_ms <= p.max_delay_ms
}

pub fn first_retry_state(p: RetryPolicy) -> (r: RetryState)
    requires
        policy_ok(p),
    ensures
        state_ok(p, r),
        r == (RetryState { retries_left: p.attempts, delay_ms: p.initial_delay_ms }),
{
    RetryState { retries_left: p.attempts, delay_ms: p.initial_delay_ms }
}

/// The step after an attempt: success ends, a missing resource ends without
/// retry, any other failure spends one attempt and, while attempts are left,
/// waits and doubles the pause up to the longest one.
pub open spec fn retry_step(p: RetryPolicy, s: RetryState, outcome: FetchOutcome) -> RetryStep {
    match outcome {
        FetchOutcome::Success => RetryStep::Done,
        FetchOutcome::NotFound => RetryStep::Missing,
        _ => if s.retries_left <= 1 {
            RetryStep::GiveUp
        } else {
            RetryStep::Retry {
                delay_ms: s.delay_ms,
                next: RetryState {
                    retries_left: (s.retries_left - 1) as u32,
                    delay_ms: if s.delay_ms * 2 < p.max_delay_ms {
                        (s.delay_ms * 2) as u64
                    } else {
                        p.max_delay_ms
                    },
                },
            }
        },
    }
}

pub fn next_retry_step(p: RetryPolicy, s: RetryState, outcome: FetchOutcome) -> (r: RetryStep)
    requires
        policy_ok(p),
        state_ok(p, s),
    ensures
        r == retry_step(p, s, outcome),
        r matches RetryStep::Retry { next, .. } ==> state_ok(p, next) && next.retries_left
            < s.retries_left,
{
    match outcome {
        FetchOutcome::Success => RetryStep::Done,
        FetchOutcome::NotFound => RetryStep::Missing,
        _ => if s.retries_left <= 1 {
            RetryStep::GiveUp
        } else {
            let doubled = s.delay_ms * 2;
            RetryStep::Retry {
                delay_ms: s.delay_ms,
                next: RetryState {
                    retries_left: s.retries_left - 1,
                    delay_ms: if doubled < p.max_delay_ms { doubled } else { p.max_delay_ms },
                },
            }
        },
    }
}

/// After `k` failed attempts a fetch has `p.attempts - k` attempts left; so a
/// fetch that keeps failing gives up after exactly `p.attempts` attempts.
pub open spec fn failures_from(p: RetryPolicy, s: RetryState, k: nat) -> Option<RetryState>
    decreases k,
{
    if k == 0 {
        Some(s)
    } else {
        match failures_from(p, s, (k - 1) as nat) {
            Some(t) => match retry_step(p, t, FetchOutcome::NetworkError) {
                RetryStep::Retry { next, .. } => Some(next),
                _ => None,
            },
            None => None,
        }
    }
}

/// A fetch that keeps failing makes exactly `attempts` attempts: after
/// `k < attempts` failures it retries with `attempts - k` left, and the
/// failure of the last attempt gives up.
pub proof fn lemma_retries_bounded(p: RetryPolicy, k: nat)
    requires
        policy_ok(p),
        k < p.attempts,
    ensures
        failures_from(p, RetryState { retries_left: p.attempts, delay_ms: p.initial_delay_ms }, k)
            matches Some(t) && t.retries_left == p.attempts - k && state_ok(p, t),
        k == p.attempts - 1 ==> retry_step(
            p,
            failures_from(
                p,
                RetryState { retries_left: p.attempts, delay_ms: p.initial_delay_ms },
                k,
            )->Some_0,
            FetchOutcome::NetworkError,
        ) == RetryStep::GiveUp,
    decreases k,
{
    if k > 0 {
        lemma_retries_bounded(p, (k - 1) as nat);
    }
}

/// The width and height an image is scaled into before caching: images
/// wider than 800 pixels go to 800 wide with the height scaled alike.
pub open spec fn target_dimensions(width: u32, height: u32) -> (u32, u32) {
    if width > 800 {
        (800, ((800 * height) / (width as int)) as u32)
    } else {
        (width, height)
    }
}

pub fn resized_dimensions(width: u32, height: u32) -> (r: (u32, u32))
    requires
        width > 800 ==> 800 * height <= u32::MAX,
    ensures
        r == target_dimensions(width, height),
{
    if width > 800 {
        (800, 800 * height / width)
    } else {
        (width, height)
    }
}

/// Whether an image request names Douban's image host (and so sends
/// Douban's referer).
pub fn needs_douban_image_referer(url: &str) -> (r: bool)
    ensures
        r == contains_seq(url@, "doubanio.com"@),
{
    contains(url, "doubanio.com")
}

/// Whether a media request goes to Douban (and so sends Douban's referer).
pub fn needs_douban_referer(url: &str) -> (r: bool)
    ensures
        r == (contains_seq(url@, "doubanio.com"@) || contains_seq(url@, "douban.com"@)),
{
    contains(url, "doubanio.com") || contains(url, "douban.com")
}

/// Whether a request is for a transport-stream segment (sent with a range
/// header, and followed by a prefetch of the next segments).
pub fn is_ts_segment_url(url: &str) -> (r: bool)
    ensures
        r == contains_seq(url@, ".ts"@),
{
    contains(url, ".ts")
}

/// The HTTP methods a binary fetch can use.
#[derive(Debug, Clone, Copy, PartialEq, Eq, Structural)]
pub enum HttpMethod {
    Get,
    Post,
    Head,
}

/// How a binary fetch is made: its method, whether it goes through the
/// segment cache (GET only), whether it sends Douban's referer, and whether
/// it asks for the whole range of a transport-stream segment.
#[derive(Debug, Clone, Copy, PartialEq, Eq, Structural)]
pub struct BinaryFetchPlan {
    pub method: HttpMethod,
    pub use_cache: bool,
    pub douban_referer: bool,
    pub range_header: bool,
}

/// The method named (GET when none), read in upper case.
pub open spec fn method_named(upper: Seq<char>) -> HttpMethod {
    if upper == "POST"@ {
        HttpMethod::Post
    } else if upper == "HEAD"@ {
        HttpMethod::Head
    } else {
        HttpMethod::Get
    }
}

/// The plan of a binary fetch of `url` with the method named `method`.
pub open spec fn binary_fetch_plan_spec(url: Seq<char>, method: Option<Seq<char>>) -> BinaryFetchPlan {
    let upper = unicode_uppercase(
        match method {
            Some(m) => m,
            None => "GET"@,
        },
    );
    BinaryFetchPlan {
        method: method_named(upper),
        use_cache: upper == "GET"@,
        douban_referer: contains_seq(url, "doubanio.com"@) || contains_seq(url, "douban.com"@),
        range_header: contains_seq(url, ".ts"@),
    }
}

pub fn binary_fetch_plan(url: &str, method: Option<&str>) -> (r: BinaryFetchPlan)
    ensures
        r == binary_fetch_plan_spec(url@, opt_str_view(method)),
{
    let upper = match method {
        Some(m) => to_uppercase(m),
        None => to_uppercase("GET"),
    };
    let u = upper.as_str();
    let m = if str_eq(u, "POST") {
        HttpMethod::Post
    } else if str_eq(u, "HEAD") {
        HttpMethod::Head
    } else {
        HttpMethod::Get
    };
    BinaryFetchPlan {
        method: m,
        use_cache: str_eq(u, "GET"),
        douban_referer: needs_douban_referer(url),
        range_header: is_ts_segment_url(url),
    }
}

/// Whether a fetched body goes into the segment cache: a GET answered 200.
pub fn should_cache_fetched(plan: &BinaryFetchPlan, status: u16) -> (r: bool)
    ensures
        r == (plan.use_cache && status == 200),
{
    plan.use_cache && status == 200
}

/// What the pattern `(\d+)(\.ts.*)$` of the regex crate finds in a URL: the
/// text before the number, the number, and the rest from `.ts` on.
pub uninterp spec fn ts_segment_split(url: Seq<char>) -> Option<(Seq<char>, Seq<char>, Seq<char>)>;

/// Calls `regex::Regex::captures` with the pattern `(\d+)(\.ts.*)$` and
/// returns the text before group 1, group 1 and group 2. The contract names
/// the result, and states what the pattern makes plain: the three pieces
/// make up the URL (the match runs to its end), the number is not empty,
/// and the rest starts with `.ts`.
#[verifier::external_body]
fn split_ts_segment(url: &str) -> (r: Option<(String, String, String)>)
    ensures
        match (r, ts_segment_split(url@)) {
            (Some((a, b, c)), Some((x, y, z))) => a@ == x && b@ == y && c@ == z,
            (None, None) => true,
            _ => false,
        },
        r matches Some((a, b, c)) ==> a@ + b@ + c@ == url@ && b@.len() > 0 && starts_with_seq(
            c@,
            ".ts"@,
        ),
{
    let re = regex::Regex::new(r"(\d+)(\.ts.*)$").unwrap();
    let caps = re.captures(url)?;
    let number = caps.get(1)?;
    let rest = caps.get(2)?;
    Some(
        (
            url[..number.start()].to_string(),
            number.as_str().to_string(),
            rest.as_str().to_string(),
        ),
    )
}

/// How many segments after the current one are prefetched.
pub const PREFETCH_SEGMENTS: u64 = 25;

/// The URL of segment `n` of a numbered series: the number padded with
/// zeros to the width of the current one.
pub open spec fn segment_url(prefix: Seq<char>, n: nat, width: nat, suffix: Seq<char>) -> Seq<char> {
    prefix + zero_pad(nat_digits(n), width) + suffix
}

/// The URLs of the segments that follow a numbered transport-stream segment:
/// the next 25 numbers, each padded to the width of the current number. None
/// when the URL has no such number, the number is not a `u64`, or a next
/// number would not be one.
pub open spec fn next_segment_urls_spec(url: Seq<char>) -> Seq<Seq<char>> {
    match ts_segment_split(url) {
        Some((prefix, digits, suffix)) => match parse_u64_spec(digits) {
            Some(n) => if n as int + PREFETCH_SEGMENTS <= u64::MAX {
                Seq::new(
                    PREFETCH_SEGMENTS as nat,
                    |i: int| segment_url(prefix, (n + i + 1) as nat, digits.len(), suffix),
                )
            } else {
                Seq::empty()
            },
            None => Seq::empty(),
        },
        None => Seq::empty(),
    }
}

pub fn next_segment_urls(url: &str) -> (r: Vec<String>)
    ensures
        string_views(r@) == next_segment_urls_spec(url@),
{
    let mut r: Vec<String> = Vec::new();
    let (prefix, digits, suffix) = match split_ts_segment(url) {
        Some(parts) => parts,
        None => {
            return r;
        },
    };
    let n = match parse_u64(digits.as_str()) {
        Some(n) => n,
        None => {
            return r;
        },
    };
    if n > u64::MAX - PREFETCH_SEGMENTS {
        return r;
    }
    let width = digits.unicode_len();
    let mut i: u64 = 1;
    while i <= PREFETCH_SEGMENTS
        invariant
            1 <= i <= PREFETCH_SEGMENTS + 1,
            n as int + PREFETCH_SEGMENTS <= u64::MAX,
            width == digits@.len(),
            string_views(r@) == Seq::new(
                (i - 1) as nat,
                |j: int| segment_url(prefix@, (n + j + 1) as nat, digits@.len(), suffix@),
            ),
        decreases PREFETCH_SEGMENTS + 1 - i,
    {
        let mut u = prefix.clone();
        let padded = u64_zero_padded(n + i, width);
        u.append(padded.as_str());
        u.append(suffix.as_str());
        assert(u@ == segment_url(prefix@, (n + i) as nat, digits@.len(), suffix@));
        let ghost prev = string_views(r@);
        r.push(u);
        assert(string_views(r@) =~= prev.push(segment_url(prefix@, (n + i) as nat, digits@.len(), suffix@)));
        assert(string_views(r@) =~= Seq::new(
            i as nat,
            |j: int| segment_url(prefix@, (n + j + 1) as nat, digits@.len(), suffix@),
        ));
        i += 1;
    }
    r
}

/// Entry count and weighted size of an in-memory cache.
#[derive(Debug, Clone, Copy, PartialEq, Eq, Structural)]
pub struct CacheStats {
    pub entry_count: u64,
    pub weighted_size: u64,
}

/// The key under which a search is cached: the query trimmed and in lower
/// case.
pub open spec fn search_cache_key(query: Seq<char>) -> Seq<char> {
    unicode_lowercase(trim_seq(query))
}

pub fn normalize_search_key(query: &str) -> (r: String)
    ensures
        r@ == search_cache_key(query@),
{
    let t = trim(query);
    to_lowercase(t.as_str())
}

/// The answer to a fetch of bytes: status and body.
#[derive(Debug, Clone)]
pub struct FetchBinaryResponse {
    pub status: u16,
    pub body: Vec<u8>,
}

/// A request to open the player from a search.
#[derive(Debug, Clone)]
pub struct InitializePlayerByQueryRequest {
    pub query: String,
    pub filter_title: String,
    pub year: Option<String>,
    pub search_type: Option<String>,
    pub prefer_best: bool,
}

/// The query a player search runs: the request's query trimmed; an empty one
/// is refused.
pub fn player_search_query(request: &InitializePlayerByQueryRequest) -> (r: Result<String, String>)
    ensures
        match r {
            Ok(q) => q@ == trim_seq(request.query@) && q@.len() > 0,
            Err(e) => trim_seq(request.query@).len() == 0 && e@ == "Missing query"@,
        },
{
    let q = trim(request.query.as_str());
    if q.as_str().is_empty() {
        Err(String::from_str("Missing query"))
    } else {
        Ok(q)
    }
}

/// An optional string, trimmed, kept only when something is left.
pub open spec fn trimmed_nonempty(o: Option<String>) -> Option<Seq<char>> {
    match o {
        Some(s) => if trim_seq(s@).len() > 0 {
            Some(trim_seq(s@))
        } else {
            None
        },
        None => None,
    }
}

/// What a player search keeps of its results: all of them when the request
/// gives no title to filter by, else the fallback matches of that title, of
/// the given year (trimmed, when not empty) and of the requested kind.
pub open spec fn query_candidates(results: Seq<SearchResult>, request: InitializePlayerByQueryRequest) -> Seq<
    SearchResult,
> {
    let title = trim_seq(request.filter_title@);
    if title.len() == 0 {
        results
    } else {
        fallback_matches(
            results,
            title,
            trimmed_nonempty(request.year),
            search_type_named(
                match request.search_type {
                    Some(t) => Some(t@),
                    None => None,
                },
            ),
        )
    }
}

pub fn filter_query_results(results: Vec<SearchResult>, request: &InitializePlayerByQueryRequest) -> (r:
    Vec<SearchResult>)
    ensures
        result_views(r@) == result_views(query_candidates(results@, *request)),
{
    let title = trim(request.filter_title.as_str());
    if title.as_str().is_empty() {
        return results;
    }
    let year: Option<String> = match &request.year {
        Some(y) => {
            let t = trim(y.as_str());
            if t.as_str().is_empty() {
                None
            } else {
                Some(t)
            }
        },
        None => None,
    };
    let search_type = match &request.search_type {
        Some(t) => parse_search_type_filter(Some(t.as_str())),
        None => parse_search_type_filter(None),
    };
    match &year {
        Some(y) => filter_sources_for_fallback(&results, title.as_str(), Some(y.as_str()), search_type),
        None => filter_sources_for_fallback(&results, title.as_str(), None, search_type),
    }
}

/// Whether a player search tests the candidates to put the best first: asked
/// for, more than one candidate, and no statistics known about them.
pub fn should_test_candidates(prefer_best: bool, candidates: usize, has_source_statistics: bool) -> (r: bool)
    ensures
        r == (prefer_best && candidates > 1 && !has_source_statistics),
{
    prefer_best && candidates > 1 && !has_source_statistics
}

/// The stored play record of the programme a player opens.
#[derive(Debug, Clone)]
pub struct PlayRecordMeta {
    pub episode_index: i32,
    pub play_time: i32,
    pub title: String,
    pub year: String,
    pub total_episodes: i32,
    pub search_title: String,
}

/// The title a fallback search uses: the title given (trimmed, when not
/// empty), else the record's search title (same), else the record's title.
pub open spec fn fallback_title_spec(title: Option<String>, record: Option<PlayRecordMeta>) -> Option<Seq<char>> {
    match trimmed_nonempty(title) {
        Some(t) => Some(t),
        None => match record {
            Some(r) => if trim_seq(r.search_title@).len() > 0 {
                Some(trim_seq(r.search_title@))
            } else {
                Some(r.title@)
            },
            None => None,
        },
    }
}

pub fn fallback_title(title: &Option<String>, record: &Option<PlayRecordMeta>) -> (r: Option<String>)
    ensures
        match (r, fallback_title_spec(*title, *record)) {
            (Some(a), Some(b)) => a@ == b,
            (None, None) => true,
            _ => false,
        },
{
    match title {
        Some(t) => {
            let tt = trim(t.as_str());
            if !tt.as_str().is_empty() {
                return Some(tt);
            }
        },
        None => {},
    }
    match record {
        Some(r) => {
            let st = trim(r.search_title.as_str());
            if !st.as_str().is_empty() {
                Some(st)
            } else {
                Some(r.title.clone())
            }
        },
        None => None,
    }
}

/// The year a fallback search uses: the record's year, trimmed, when not
/// empty.
pub fn fallback_year(record: &Option<PlayRecordMeta>) -> (r: Option<String>)
    ensures
        match (r, record) {
            (Some(y), Some(rec)) => y@ == trim_seq(rec.year@) && y@.len() > 0,
            (None, Some(rec)) => trim_seq(rec.year@).len() == 0,
            (None, None) => true,
            _ => false,
        },
{
    match record {
        Some(rec) => {
            let y = trim(rec.year.as_str());
            if y.as_str().is_empty() {
                None
            } else {
                Some(y)
            }
        },
        None => None,
    }
}

/// The kind of programme a fallback search looks for, from the episode count
/// of the record.
pub fn record_search_type(record: &Option<PlayRecordMeta>) -> (r: Option<SearchTypeFilter>)
    ensures
        r == search_type_for_total(
            match record {
                Some(rec) => Some(rec.total_episodes),
                None => None,
            },
        ),
{
    match record {
        Some(rec) => derive_search_type_filter(Some(rec.total_episodes)),
        None => derive_search_type_filter(None),
    }
}

/// The play record a player starts from, its episode kept inside the list
/// of `total_episodes` episodes.
pub fn initial_play_record(record: &Option<PlayRecordMeta>, total_episodes: usize) -> (r: Option<PlayRecordInfo>)
    requires
        total_episodes <= i32::MAX + 1,
    ensures
        match (r, record) {
            (Some(info), Some(rec)) => info.episode_index == normalized_episode_index(
                rec.episode_index as int,
                total_episodes as int,
            ) && info.play_time == rec.play_time,
            (None, None) => true,
            _ => false,
        },
{
    match record {
        Some(rec) => Some(
            PlayRecordInfo {
                episode_index: normalize_episode_index(rec.episode_index, total_episodes),
                play_time: rec.play_time,
            },
        ),
        None => None,
    }
}

/// The episode probed for playback: the record's episode kept inside the
/// list, or the first one.
pub fn probe_episode_index(record: &Option<PlayRecordMeta>, total_episodes: usize) -> (r: usize)
    requires
        total_episodes <= i32::MAX + 1,
    ensures
        r as int == match record {
            Some(rec) => normalized_episode_index(rec.episode_index as int, total_episodes as int),
            None => 0,
        },
{
    match record {
        Some(rec) => {
            let i = normalize_episode_index(rec.episode_index, total_episodes);
            if i < 0 {
                0
            } else {
                i as usize
            }
        },
        None => 0,
    }
}

/// An address under a source's API: the query follows the API address,
/// with a slash between them unless the address ends with one.
pub open spec fn source_url_spec(base_api: Seq<char>, query: Seq<char>) -> Seq<char> {
    if ends_with_seq(base_api, "/"@) {
        base_api + query
    } else {
        base_api + "/"@ + query
    }
}

pub fn source_url(base_api: &str, query: &str) -> (r: String)
    ensures
        r@ == source_url_spec(base_api@, query@),
{
    let mut u = String::from_str(base_api);
    if !ends_with(base_api, "/") {
        u.append("/");
    }
    u.append(query);
    u
}

/// What `urlencoding::encode` gives for a text: its UTF-8 bytes
/// percent-encoded with upper-case digits, letters, digits and `-`, `.`,
/// `_`, `~` kept.
pub open spec fn urlencoded(s: Seq<char>) -> Seq<char> {
    crate::text::url_encoded_bytes(encode_utf8(s))
}

/// Calls `urlencoding::encode`. The contract states the text it writes.
#[verifier::external_body]
fn url_encode(s: &str) -> (r: String)
    ensures
        r@ == urlencoded(s@),
{
    urlencoding::encode(s).into_owned()
}

/// The search address of a site for a query.
pub fn search_url(api: &str, query: &str) -> (r: String)
    ensures
        r@ == api@ + "?ac=videolist&wd="@ + urlencoded(query@),
{
    let mut u = String::from_str(api);
    u.append("?ac=videolist&wd=");
    u.append(url_encode(query).as_str());
    u
}

/// The detail address of a programme of a site.
pub fn detail_url(api: &str, id: &str) -> (r: String)
    ensures
        r@ == api@ + "?ac=videolist&ids="@ + id@,
{
    let mut u = String::from_str(api);
    u.append("?ac=videolist&ids=");
    u.append(id);
    u
}

/// The query listing the videos of a category of a source: the trimmed
/// category id, encoded, and the page (1 by default, at least 1).
pub fn videos_by_type_query(type_id: &str, page: Option<u32>) -> (r: String)
    ensures
        r@ == "?ac=videolist&t="@ + urlencoded(trim_seq(type_id@)) + "&pg="@ + nat_digits(
            (match page {
                Some(p) => if p < 1 {
                    1
                } else {
                    p
                },
                None => 1,
            }) as nat,
        ),
{
    let p: u32 = match page {
        Some(p) => if p < 1 {
            1
        } else {
            p
        },
        None => 1,
    };
    let t = trim(type_id);
    let mut q = String::from_str("?ac=videolist&t=");
    q.append(url_encode(t.as_str()).as_str());
    q.append("&pg=");
    q.append(u64_to_string(p as u64).as_str());
    q
}

/// The entry a detail request reads: the first of the list.
pub fn first_listed_item(list: Vec<ApiSearchItem>) -> (r: Result<ApiSearchItem, String>)
    ensures
        match r {
            Ok(item) => list@.len() > 0 && item == list@[0],
            Err(e) => list@.len() == 0 && e@ == "Video not found"@,
        },
{
    let mut list = list;
    if list.len() == 0 {
        Err(String::from_str("Video not found"))
    } else {
        Ok(list.remove(0))
    }
}

/// The episode a playback probe tries: the one asked for, else the first.
pub open spec fn probe_url_spec(episodes: Seq<String>, episode_index: int) -> Option<String> {
    if 0 <= episode_index < episodes.len() {
        Some(episodes[episode_index])
    } else if episodes.len() > 0 {
        Some(episodes[0])
    } else {
        None
    }
}

pub fn probe_episode_url(detail: &SearchResult, episode_index: usize) -> (r: Option<String>)
    ensures
        r == probe_url_spec(detail.episodes@, episode_index as int),
{
    if episode_index < detail.episodes.len() {
        Some(detail.episodes[episode_index].clone())
    } else if detail.episodes.len() > 0 {
        Some(detail.episodes[0].clone())
    } else {
        None
    }
}

/// The key under which a source test reports on a result: source, a dash,
/// id.
pub open spec fn lookup_key_spec(r: SearchResult) -> Seq<char> {
    r.source@ + "-"@ + r.id@
}

pub fn source_lookup_key(result: &SearchResult) -> (r: String)
    ensures
        r@ == lookup_key_spec(*result),
{
    let mut k = result.source.clone();
    k.append("-");
    k.append(result.id.as_str());
    k
}

/// The source a test report names by its lookup key: that of the last
/// result with the key.
pub open spec fn source_for_lookup(results: Seq<SearchResult>, key: Seq<char>) -> Option<String>
    decreases results.len(),
{
    if results.len() == 0 {
        None
    } else if lookup_key_spec(results.last()) == key {
        Some(results.last().source)
    } else {
        source_for_lookup(results.drop_last(), key)
    }
}

pub fn lookup_source(results: &Vec<SearchResult>, key: &str) -> (r: Option<String>)
    ensures
        r == source_for_lookup(results@, key@),
{
    let mut n = results.len();
    assert(results@.take(n as int) =~= results@);
    while n > 0
        invariant
            n <= results.len(),
            source_for_lookup(results@, key@) == source_for_lookup(results@.take(n as int), key@),
        decreases n,
    {
        assert(results@.take(n as int).drop_last() =~= results@.take(n - 1));
        assert(results@.take(n as int).last() == results@[n - 1]);
        let k = source_lookup_key(&results[n - 1]);
        if str_eq(k.as_str(), key) {
            return Some(results[n - 1].source.clone());
        }
        n -= 1;
    }
    None
}

} // verus!
