//! Request normalisation and response shaping for the Douban browsing pages.

use vstd::prelude::*;
use crate::bangumi::{
    day_items, find_day, find_day_from, keep_listed, listed_items, BangumiCalendarData, Items,
};
use crate::clock::{current_weekday_en, is_weekday_name};
use crate::home::{resolve_weekday_input, weekday_input_spec};
use crate::numtext::{i64_to_string, int_text};
use crate::video::{JsonScalar, SourceCategoryItem};
use crate::text::{
    unicode_lowercase, to_lowercase,
    ascii_lower_seq, contains, contains_seq, eq_ignore_ascii_case, eq_ignore_ascii_case_seq, str_eq,
    to_ascii_lowercase, trim, trim_seq,
};

verus! {

pub const ANIME_DAILY_SELECTION: &'static str = "每日放送";

pub const ANIME_SERIES_SELECTION: &'static str = "番剧";

pub const ANIME_THEATRICAL_SELECTION: &'static str = "剧场版";

pub const ANIME_LEGACY_SERIES_SELECTION: &'static str = "热门";

pub const ALL_SELECTION: &'static str = "全部";

#[derive(Debug, PartialEq, Eq, Structural, Clone, Copy)]
pub enum Kind {
    Tv,
    Movie,
}

/// The spelling of a kind in Douban URLs.
pub open spec fn kind_text(kind: Kind) -> Seq<char> {
    match kind {
        Kind::Tv => "tv"@,
        Kind::Movie => "movie"@,
    }
}

pub fn kind_str(kind: Kind) -> (r: &'static str)
    ensures
        r@ == kind_text(kind),
{
    match kind {
        Kind::Tv => "tv",
        Kind::Movie => "movie",
    }
}

/// Whether the selection, trimmed, is the daily-broadcast anime tab.
pub open spec fn is_anime_daily_spec(value: Seq<char>) -> bool {
    trim_seq(value) == ANIME_DAILY_SELECTION@
}

/// Whether the selection, trimmed, asks for anime series (shown as TV).
pub open spec fn anime_prefers_tv_spec(value: Seq<char>) -> bool {
    let t = trim_seq(value);
    ||| t == ANIME_SERIES_SELECTION@
    ||| t == ANIME_LEGACY_SERIES_SELECTION@
    ||| t == ALL_SELECTION@
    ||| eq_ignore_ascii_case_seq(t, "tv"@)
}

/// Whether the selection, trimmed, asks for anime films.
pub open spec fn anime_theatrical_spec(value: Seq<char>) -> bool {
    let t = trim_seq(value);
    t == ANIME_THEATRICAL_SELECTION@ || eq_ignore_ascii_case_seq(t, "movie"@)
}

pub fn is_anime_daily_selection(value: &str) -> (r: bool)
    ensures
        r == is_anime_daily_spec(value@),
{
    let t = trim(value);
    str_eq(t.as_str(), ANIME_DAILY_SELECTION)
}

pub fn anime_selection_prefers_tv(value: &str) -> (r: bool)
    ensures
        r == anime_prefers_tv_spec(value@),
{
    let t = trim(value);
    str_eq(t.as_str(), ANIME_SERIES_SELECTION) || str_eq(t.as_str(), ANIME_LEGACY_SERIES_SELECTION)
        || str_eq(t.as_str(), ALL_SELECTION) || eq_ignore_ascii_case(t.as_str(), "tv")
}

pub fn is_anime_theatrical_selection(value: &str) -> (r: bool)
    ensures
        r == anime_theatrical_spec(value@),
{
    let t = trim(value);
    str_eq(t.as_str(), ANIME_THEATRICAL_SELECTION) || eq_ignore_ascii_case(t.as_str(), "movie")
}

/// Parameters of the "recent hot" category listing.
#[derive(Debug, Clone)]
pub struct DoubanCategoriesParams {
    pub kind: Kind,
    pub category: String,
    pub type_: String,
    pub page_limit: Option<i32>,
    pub page_start: Option<i32>,
}

/// Parameters of the tag-search listing.
#[derive(Debug, Clone)]
pub struct DoubanListParams {
    pub tag: String,
    pub type_: String,
    pub page_limit: Option<i32>,
    pub page_start: Option<i32>,
}

/// Parameters of the recommendation listing.
#[derive(Debug, Clone)]
pub struct DoubanRecommendsParams {
    pub kind: Kind,
    pub page_limit: Option<i32>,
    pub page_start: Option<i32>,
    pub category: String,
    pub format: String,
    pub label: String,
    pub region: String,
    pub year: String,
    pub platform: String,
    pub sort: String,
}

#[derive(Debug)]
pub struct DoubanItem {
    pub id: String,
    pub title: String,
    pub poster: String,
    pub rate: String,
    pub year: String,
}

impl Clone for DoubanItem {
    fn clone(&self) -> (r: Self)
        ensures
            r == *self,
    {
        DoubanItem {
            id: self.id.clone(),
            title: self.title.clone(),
            poster: self.poster.clone(),
            rate: self.rate.clone(),
            year: self.year.clone(),
        }
    }
}

#[derive(Debug, Clone)]
pub struct DoubanResult {
    pub code: i32,
    pub message: String,
    pub list: Vec<DoubanItem>,
}

/// A multi-level filter selection: key/value pairs, keys unique.
pub type Selection = Vec<(String, String)>;

#[derive(Debug, Clone)]
pub struct DoubanPageRequest {
    pub request_type: String,
    pub primary_selection: String,
    pub secondary_selection: String,
    pub multi_level_selection: Option<Selection>,
    pub selected_weekday: Option<String>,
    pub page: Option<i32>,
    pub page_limit: Option<i32>,
}

#[derive(Debug, Clone)]
pub struct DoubanPageResponse {
    pub list: Vec<DoubanItem>,
    pub has_more: bool,
}

#[derive(Debug, PartialEq, Eq)]
pub struct DoubanSourceCategory {
    pub type_id: String,
    pub type_label: String,
    pub type_pid: Option<String>,
}

impl Clone for DoubanSourceCategory {
    fn clone(&self) -> (r: Self)
        ensures
            r == *self,
    {
        DoubanSourceCategory {
            type_id: self.type_id.clone(),
            type_label: self.type_label.clone(),
            type_pid: self.type_pid.clone(),
        }
    }
}

#[derive(Debug, Clone)]
pub struct DoubanCustomCategory {
    pub name: Option<String>,
    pub category_type: String,
    pub query: String,
    pub disabled: Option<bool>,
}

#[derive(Debug, Clone)]
pub struct DoubanPageStateRequest {
    pub request_type: String,
    pub source_key: Option<String>,
    pub primary_selection: Option<String>,
    pub secondary_selection: Option<String>,
    pub multi_level_selection: Option<Selection>,
    pub selected_weekday: Option<String>,
    pub custom_categories: Option<Vec<DoubanCustomCategory>>,
    pub source_category_type_id: Option<String>,
    pub page_limit: Option<i32>,
}

#[derive(Debug, Clone)]
pub struct DoubanPageStateResponse {
    pub request_type: String,
    pub source_key: String,
    pub primary_selection: String,
    pub secondary_selection: String,
    pub multi_level_selection: Selection,
    pub selected_weekday: String,
    pub source_categories: Vec<DoubanSourceCategory>,
    pub selected_source_category_id: Option<String>,
    pub list: Vec<DoubanItem>,
    pub has_more: bool,
}

#[derive(Debug, Clone)]
pub struct LoadMoreDoubanPageRequest {
    pub request_type: String,
    pub source_key: Option<String>,
    pub primary_selection: String,
    pub secondary_selection: String,
    pub multi_level_selection: Option<Selection>,
    pub selected_weekday: Option<String>,
    pub source_category_type_id: Option<String>,
    pub page: i32,
    pub page_limit: Option<i32>,
}

#[derive(Debug, Clone)]
pub struct ResolvedDoubanPageStateRequest {
    pub request_type: String,
    pub source_key: String,
    pub primary_selection: String,
    pub secondary_selection: String,
    pub multi_level_selection: Selection,
    pub selected_weekday: String,
    pub source_category_type_id: Option<String>,
    pub page_limit: i32,
}

#[derive(Debug, Clone)]
pub struct DoubanDefaultsRequest {
    pub request_type: String,
    pub custom_categories: Option<Vec<DoubanCustomCategory>>,
    pub fallback_secondary: Option<String>,
}

#[derive(Debug, Clone)]
pub struct DoubanDefaultsResponse {
    pub primary_selection: String,
    pub secondary_selection: String,
    pub multi_level_selection: Selection,
    pub cache_enabled: bool,
    pub require_secondary: bool,
}

#[derive(Debug, PartialEq, Eq, Structural, Clone, Copy)]
pub enum DoubanPageMode {
    Categories,
    Recommends,
    Custom,
    AnimeDaily,
}

#[derive(Debug, PartialEq, Eq, Structural, Clone, Copy)]
pub enum DoubanProxyType {
    Direct,
    CorsProxyZwei,
    CmliussssCdnTencent,
    CmliussssCdnAli,
    CorsAnywhere,
    Custom,
}

#[derive(Debug, Clone)]
pub struct DoubanProxyConfig {
    pub proxy_type: DoubanProxyType,
    pub proxy_url: String,
}

/// Whether a page request asks for anime films, which the tag-search
/// listing serves better than the recommendation listing.
pub open spec fn prefers_list_api_spec(request_type: Seq<char>, primary: Seq<char>) -> bool {
    request_type == "anime"@ && anime_theatrical_spec(primary)
}

pub fn should_prefer_list_api_for_recommends(request: &DoubanPageRequest) -> (r: bool)
    ensures
        r == prefers_list_api_spec(request.request_type@, request.primary_selection@),
{
    str_eq(request.request_type.as_str(), "anime") && is_anime_theatrical_selection(
        request.primary_selection.as_str(),
    )
}

pub open spec fn limit_or_default(limit: Option<i32>) -> i32 {
    match limit {
        Some(v) => v,
        None => 20,
    }
}

pub open spec fn start_or_default(start: Option<i32>) -> i32 {
    match start {
        Some(v) => v,
        None => 0,
    }
}

/// The string with `"all"` (or another placeholder) mapped to the empty
/// string.
pub open spec fn drop_placeholder(value: Seq<char>, placeholder: Seq<char>) -> Seq<char> {
    if value == placeholder {
        Seq::empty()
    } else {
        value
    }
}

fn without_placeholder(value: &String, placeholder: &str) -> (r: String)
    ensures
        r@ == drop_placeholder(value@, placeholder@),
{
    if str_eq(value.as_str(), placeholder) {
        String::new()
    } else {
        value.clone()
    }
}

/// The host of the recommendation API for the chosen route.
pub open spec fn recommend_host(use_tencent_cdn: bool, use_ali_cdn: bool) -> Seq<char> {
    if use_tencent_cdn {
        "https://m.douban.cmliussss.net/rexxar/api/v2/"@
    } else if use_ali_cdn {
        "https://m.douban.cmliussss.com/rexxar/api/v2/"@
    } else {
        "https://m.douban.com/rexxar/api/v2/"@
    }
}

impl DoubanRecommendsParams {
    pub fn page_limit(&self) -> (r: i32)
        ensures
            r == limit_or_default(self.page_limit),
    {
        match self.page_limit {
            Some(v) => v,
            None => 20,
        }
    }

    pub fn page_start(&self) -> (r: i32)
        ensures
            r == start_or_default(self.page_start),
    {
        match self.page_start {
            Some(v) => v,
            None => 0,
        }
    }

    pub fn kind(&self) -> (r: &'static str)
        ensures
            r@ == kind_text(self.kind),
    {
        kind_str(self.kind)
    }

    /// Category, format, label, region, year and platform with `"all"`
    /// dropped, and the sort order with the default `"T"` dropped.
    pub fn normalized_params(&self) -> (r: (String, String, String, String, String, String, String))
        ensures
            r.0@ == drop_placeholder(self.category@, "all"@),
            r.1@ == drop_placeholder(self.format@, "all"@),
            r.2@ == drop_placeholder(self.label@, "all"@),
            r.3@ == drop_placeholder(self.region@, "all"@),
            r.4@ == drop_placeholder(self.year@, "all"@),
            r.5@ == drop_placeholder(self.platform@, "all"@),
            r.6@ == drop_placeholder(self.sort@, "T"@),
    {
        (
            without_placeholder(&self.category, "all"),
            without_placeholder(&self.format, "all"),
            without_placeholder(&self.label, "all"),
            without_placeholder(&self.region, "all"),
            without_placeholder(&self.year, "all"),
            without_placeholder(&self.platform, "all"),
            without_placeholder(&self.sort, "T"),
        )
    }

    pub fn base_url(&self, use_tencent_cdn: bool, use_ali_cdn: bool) -> (r: String)
        ensures
            r@ == recommend_host(use_tencent_cdn, use_ali_cdn) + kind_text(self.kind)
                + "/recommend"@,
    {
        let host = if use_tencent_cdn {
            "https://m.douban.cmliussss.net/rexxar/api/v2/"
        } else if use_ali_cdn {
            "https://m.douban.cmliussss.com/rexxar/api/v2/"
        } else {
            "https://m.douban.com/rexxar/api/v2/"
        };
        let mut url = String::from_str(host);
        url.append(self.kind());
        url.append("/recommend");
        url
    }
}

impl DoubanCategoriesParams {
    pub fn new(
        kind: Kind,
        category: &str,
        type_: &str,
        page_limit: Option<i32>,
        page_start: Option<i32>,
    ) -> (r: Self)
        ensures
            r.kind == kind,
            r.category@ == category@,
            r.type_@ == type_@,
            r.page_limit == page_limit,
            r.page_start == page_start,
    {
        DoubanCategoriesParams {
            kind,
            category: String::from_str(category),
            type_: String::from_str(type_),
            page_limit,
            page_start,
        }
    }

    pub fn page_limit(&self) -> (r: i32)
        ensures
            r == limit_or_default(self.page_limit),
    {
        match self.page_limit {
            Some(v) => v,
            None => 20,
        }
    }

    pub fn page_start(&self) -> (r: i32)
        ensures
            r == start_or_default(self.page_start),
    {
        match self.page_start {
            Some(v) => v,
            None => 0,
        }
    }

    pub fn kind(&self) -> (r: &'static str)
        ensures
            r@ == kind_text(self.kind),
    {
        kind_str(self.kind)
    }

    /// Category and type must be given, the page size lie in 1..=100 and the
    /// start not be negative; the first rule broken gives its message.
    pub fn validate(&self) -> (r: Result<(), String>)
        ensures
            r is Ok <==> (self.category@.len() > 0 && self.type_@.len() > 0 && 1 <= limit_or_default(
                self.page_limit,
            ) <= 100 && start_or_default(self.page_start) >= 0),
            r is Err ==> r->Err_0@ == (if self.category@.len() == 0 || self.type_@.len() == 0 {
                "category 和 type 参数不能为空"@
            } else if !(1 <= limit_or_default(self.page_limit) <= 100) {
                "page_limit 必须在 1-100 之间"@
            } else {
                "page_start 不能小于 0"@
            }),
    {
        if self.category.as_str().is_empty() || self.type_.as_str().is_empty() {
            return Err(String::from_str("category 和 type 参数不能为空"));
        }
        let limit = self.page_limit();
        if !(1 <= limit && limit <= 100) {
            return Err(String::from_str("page_limit 必须在 1-100 之间"));
        }
        let start = self.page_start();
        if start < 0 {
            return Err(String::from_str("page_start 不能小于 0"));
        }
        Ok(())
    }
}

impl DoubanListParams {
    pub fn page_limit(&self) -> (r: i32)
        ensures
            r == limit_or_default(self.page_limit),
    {
        match self.page_limit {
            Some(v) => v,
            None => 20,
        }
    }

    pub fn page_start(&self) -> (r: i32)
        ensures
            r == start_or_default(self.page_start),
    {
        match self.page_start {
            Some(v) => v,
            None => 0,
        }
    }

    /// Tag and type must be given, the type be `tv` or `movie`, the page size
    /// lie in 1..=100 and the start not be negative.
    pub fn validate(&self) -> (r: Result<(), String>)
        ensures
            r is Ok <==> (self.tag@.len() > 0 && self.type_@.len() > 0 && (self.type_@ == "tv"@
                || self.type_@ == "movie"@) && 1 <= limit_or_default(self.page_limit) <= 100
                && start_or_default(self.page_start) >= 0),
            r is Err ==> r->Err_0@ == (if self.tag@.len() == 0 || self.type_@.len() == 0 {
                "tag 和 type 参数不能为空"@
            } else if !(self.type_@ == "tv"@ || self.type_@ == "movie"@) {
                "type 参数必须是 tv 或 movie"@
            } else if !(1 <= limit_or_default(self.page_limit) <= 100) {
                "page_limit 必须在 1-100 之间"@
            } else {
                "page_start 不能小于 0"@
            }),
    {
        if self.tag.as_str().is_empty() || self.type_.as_str().is_empty() {
            return Err(String::from_str("tag 和 type 参数不能为空"));
        }
        if !str_eq(self.type_.as_str(), "tv") && !str_eq(self.type_.as_str(), "movie") {
            return Err(String::from_str("type 参数必须是 tv 或 movie"));
        }
        let limit = self.page_limit();
        if !(1 <= limit && limit <= 100) {
            return Err(String::from_str("page_limit 必须在 1-100 之间"));
        }
        let start = self.page_start();
        if start < 0 {
            return Err(String::from_str("page_start 不能小于 0"));
        }
        Ok(())
    }
}

/// The route named by a configuration value; unknown names take the
/// Tencent CDN mirror.
pub open spec fn proxy_type_of(value: Seq<char>) -> DoubanProxyType {
    if value == "direct"@ {
        DoubanProxyType::Direct
    } else if value == "cors-proxy-zwei"@ {
        DoubanProxyType::CorsProxyZwei
    } else if value == "cmliussss-cdn-tencent"@ {
        DoubanProxyType::CmliussssCdnTencent
    } else if value == "cmliussss-cdn-ali"@ {
        DoubanProxyType::CmliussssCdnAli
    } else if value == "cors-anywhere"@ {
        DoubanProxyType::CorsAnywhere
    } else if value == "custom"@ {
        DoubanProxyType::Custom
    } else {
        DoubanProxyType::CmliussssCdnTencent
    }
}

impl DoubanProxyType {
    pub fn from_name(value: &str) -> (r: DoubanProxyType)
        ensures
            r == proxy_type_of(value@),
    {
        if str_eq(value, "direct") {
            DoubanProxyType::Direct
        } else if str_eq(value, "cors-proxy-zwei") {
            DoubanProxyType::CorsProxyZwei
        } else if str_eq(value, "cmliussss-cdn-tencent") {
            DoubanProxyType::CmliussssCdnTencent
        } else if str_eq(value, "cmliussss-cdn-ali") {
            DoubanProxyType::CmliussssCdnAli
        } else if str_eq(value, "cors-anywhere") {
            DoubanProxyType::CorsAnywhere
        } else if str_eq(value, "custom") {
            DoubanProxyType::Custom
        } else {
            DoubanProxyType::CmliussssCdnTencent
        }
    }
}

impl<'a> From<&'a str> for DoubanProxyType {
    fn from(value: &'a str) -> (r: DoubanProxyType) {
        DoubanProxyType::from_name(value)
    }
}

impl<'a> vstd::std_specs::convert::FromSpecImpl<&'a str> for DoubanProxyType {
    open spec fn obeys_from_spec() -> bool {
        true
    }

    open spec fn from_spec(v: &'a str) -> DoubanProxyType {
        proxy_type_of(v@)
    }
}

/// The first of two optional values that is present.
pub open spec fn first_present(a: Option<String>, b: Option<String>) -> Option<String> {
    match a {
        Some(x) => Some(x),
        None => b,
    }
}

/// The explicit data source wins over the runtime setting, which wins over
/// the Tencent CDN mirror; likewise for the proxy address, whose default is
/// empty.
pub fn get_douban_proxy_config(
    douban_data_source: Option<String>,
    runtime_proxy_type: Option<String>,
    douban_proxy_url: Option<String>,
    runtime_proxy_url: Option<String>,
) -> (r: DoubanProxyConfig)
    ensures
        r.proxy_type == (match first_present(douban_data_source, runtime_proxy_type) {
            Some(t) => proxy_type_of(t@),
            None => DoubanProxyType::CmliussssCdnTencent,
        }),
        r.proxy_url@ == (match first_present(douban_proxy_url, runtime_proxy_url) {
            Some(u) => u@,
            None => Seq::empty(),
        }),
{
    let proxy_type = match douban_data_source {
        Some(t) => DoubanProxyType::from_name(t.as_str()),
        None => match runtime_proxy_type {
            Some(t) => DoubanProxyType::from_name(t.as_str()),
            None => DoubanProxyType::CmliussssCdnTencent,
        },
    };
    let proxy_url = match douban_proxy_url {
        Some(u) => u,
        None => match runtime_proxy_url {
            Some(u) => u,
            None => String::new(),
        },
    };
    DoubanProxyConfig { proxy_type, proxy_url }
}

/// Which listing serves a page request.
pub open spec fn page_mode_spec(request_type: Seq<char>, primary: Seq<char>) -> DoubanPageMode {
    if request_type == "custom"@ {
        DoubanPageMode::Custom
    } else if request_type == "anime"@ {
        if is_anime_daily_spec(primary) {
            DoubanPageMode::AnimeDaily
        } else {
            DoubanPageMode::Recommends
        }
    } else if (request_type == "tv"@ || request_type == "show"@) && primary == ALL_SELECTION@ {
        DoubanPageMode::Recommends
    } else {
        DoubanPageMode::Categories
    }
}

pub fn resolve_douban_page_mode(request: &DoubanPageRequest) -> (r: DoubanPageMode)
    ensures
        r == page_mode_spec(request.request_type@, request.primary_selection@),
{
    let rt = request.request_type.as_str();
    if str_eq(rt, "custom") {
        return DoubanPageMode::Custom;
    }
    if str_eq(rt, "anime") {
        if is_anime_daily_selection(request.primary_selection.as_str()) {
            return DoubanPageMode::AnimeDaily;
        }
        return DoubanPageMode::Recommends;
    }
    if (str_eq(rt, "tv") || str_eq(rt, "show")) && str_eq(
        request.primary_selection.as_str(),
        ALL_SELECTION,
    ) {
        return DoubanPageMode::Recommends;
    }
    DoubanPageMode::Categories
}

/// The key/value contents of a selection.
pub open spec fn selection_view(sel: Seq<(String, String)>) -> Seq<(Seq<char>, Seq<char>)> {
    sel.map_values(|p: (String, String)| (p.0@, p.1@))
}

/// The selection that leaves every filter open.
pub open spec fn default_selection_spec() -> Seq<(Seq<char>, Seq<char>)> {
    seq![
        ("type"@, "all"@),
        ("region"@, "all"@),
        ("year"@, "all"@),
        ("platform"@, "all"@),
        ("label"@, "all"@),
        ("sort"@, "T"@),
    ]
}

fn pair(k: &str, v: &str) -> (r: (String, String))
    ensures
        r.0@ == k@,
        r.1@ == v@,
{
    (String::from_str(k), String::from_str(v))
}

pub fn default_multi_level_selection() -> (r: Selection)
    ensures
        selection_view(r@) == default_selection_spec(),
{
    let mut r: Selection = Vec::new();
    r.push(pair("type", "all"));
    r.push(pair("region", "all"));
    r.push(pair("year", "all"));
    r.push(pair("platform", "all"));
    r.push(pair("label", "all"));
    r.push(pair("sort", "T"));
    assert(selection_view(r@) =~= default_selection_spec());
    r
}

/// The value of the first entry with `key`.
pub open spec fn selection_lookup(sel: Seq<(Seq<char>, Seq<char>)>, key: Seq<char>) -> Option<
    Seq<char>,
>
    decreases sel.len(),
{
    if sel.len() == 0 {
        None
    } else if sel[0].0 == key {
        Some(sel[0].1)
    } else {
        selection_lookup(sel.drop_first(), key)
    }
}

/// The value under `key`, or the empty string.
pub open spec fn multi_value_spec(selection: Option<Seq<(String, String)>>, key: Seq<char>) -> Seq<
    char,
> {
    match selection {
        Some(sel) => match selection_lookup(selection_view(sel), key) {
            Some(v) => v,
            None => Seq::empty(),
        },
        None => Seq::empty(),
    }
}

pub fn extract_multi_value(selection: Option<&Selection>, key: &str) -> (r: String)
    ensures
        r@ == multi_value_spec(
            match selection {
                Some(s) => Some(s@),
                None => None,
            },
            key@,
        ),
{
    match selection {
        None => String::new(),
        Some(sel) => {
            let mut i: usize = 0;
            assert(selection_view(sel@).skip(0) =~= selection_view(sel@));
            while i < sel.len()
                invariant
                    selection == Some(sel),
                    i <= sel.len(),
                    selection_lookup(selection_view(sel@), key@) == selection_lookup(
                        selection_view(sel@).skip(i as int),
                        key@,
                    ),
                decreases sel.len() - i,
            {
                assert(selection_view(sel@).skip(i as int).drop_first() =~= selection_view(
                    sel@,
                ).skip(i + 1));
                assert(selection_view(sel@).skip(i as int)[0] == (sel@[i as int].0@, sel@[
                    i as int].1@));
                if str_eq(sel[i].0.as_str(), key) {
                    let v = sel[i].1.clone();
                    assert(selection_lookup(selection_view(sel@).skip(i as int), key@) == Some(
                        v@,
                    ));
                    return v;
                }
                i += 1;
            }
            String::new()
        },
    }
}

/// A listing result's items when its code is 200, else its message.
pub fn ensure_success(result: DoubanResult) -> (r: Result<Vec<DoubanItem>, String>)
    ensures
        result.code == 200 ==> r == Ok::<Vec<DoubanItem>, String>(result.list),
        result.code != 200 ==> r == Err::<Vec<DoubanItem>, String>(result.message),
{
    if result.code == 200 {
        Ok(result.list)
    } else {
        Err(result.message)
    }
}

/// The message, in ASCII lower case, mentions a body that could not be decoded.
pub open spec fn body_decode_error_spec(message: Seq<char>) -> bool {
    contains_seq(ascii_lower_seq(message), "decoding response body"@)
}

/// The message, in ASCII lower case, names a failure worth another try.
pub open spec fn retryable_error_spec(message: Seq<char>) -> bool {
    let m = ascii_lower_seq(message);
    ||| contains_seq(m, "decoding response body"@)
    ||| contains_seq(m, "json parse error"@)
    ||| contains_seq(m, "request failed"@)
    ||| contains_seq(m, "network request failed"@)
}

pub fn is_body_decode_error(message: &str) -> (r: bool)
    ensures
        r == body_decode_error_spec(message@),
{
    let lower = to_ascii_lowercase(message);
    contains(lower.as_str(), "decoding response body")
}

pub fn is_retryable_douban_error(message: &str) -> (r: bool)
    ensures
        r == retryable_error_spec(message@),
{
    let m = to_ascii_lowercase(message);
    contains(m.as_str(), "decoding response body") || contains(m.as_str(), "json parse error")
        || contains(m.as_str(), "request failed") || contains(
        m.as_str(),
        "network request failed",
    )
}

/// The content type that the tag-search fallback asks for.
pub open spec fn fallback_content_type(request_type: Seq<char>, primary: Seq<char>) -> Seq<char> {
    if request_type == "movie"@ {
        "movie"@
    } else if request_type == "anime"@ {
        if anime_prefers_tv_spec(primary) {
            "tv"@
        } else {
            "movie"@
        }
    } else {
        "tv"@
    }
}

/// A secondary selection that names no particular tag.
pub open spec fn generic_secondary(secondary: Seq<char>) -> bool {
    let s = trim_seq(secondary);
    ||| s.len() == 0
    ||| s == ALL_SELECTION@
    ||| eq_ignore_ascii_case_seq(s, "tv"@)
    ||| eq_ignore_ascii_case_seq(s, "show"@)
}

/// The tag that the tag-search fallback asks for.
pub open spec fn fallback_tag(request_type: Seq<char>, secondary: Seq<char>) -> Seq<char> {
    if generic_secondary(secondary) {
        if request_type == "anime"@ {
            "动画"@
        } else {
            "热门"@
        }
    } else {
        trim_seq(secondary)
    }
}

pub fn build_recommends_fallback_list_params(
    request: &DoubanPageRequest,
    page_limit: i32,
    page_start: i32,
) -> (r: DoubanListParams)
    ensures
        r.type_@ == fallback_content_type(request.request_type@, request.primary_selection@),
        r.tag@ == fallback_tag(request.request_type@, request.secondary_selection@),
        r.page_limit == Some(page_limit),
        r.page_start == Some(page_start),
{
    let rt = request.request_type.as_str();
    let content_type = if str_eq(rt, "movie") {
        "movie"
    } else if str_eq(rt, "anime") {
        if anime_selection_prefers_tv(request.primary_selection.as_str()) {
            "tv"
        } else {
            "movie"
        }
    } else {
        "tv"
    };
    let secondary = trim(request.secondary_selection.as_str());
    let is_generic = secondary.as_str().is_empty() || str_eq(secondary.as_str(), ALL_SELECTION)
        || eq_ignore_ascii_case(secondary.as_str(), "tv") || eq_ignore_ascii_case(
        secondary.as_str(),
        "show",
    );
    let tag = if is_generic {
        if str_eq(rt, "anime") {
            String::from_str("动画")
        } else {
            String::from_str("热门")
        }
    } else {
        secondary
    };
    DoubanListParams {
        tag,
        type_: String::from_str(content_type),
        page_limit: Some(page_limit),
        page_start: Some(page_start),
    }
}

pub open spec fn all_primary_spec(value: Seq<char>) -> bool {
    trim_seq(value) == ALL_SELECTION@
}

/// A secondary selection that stands for every value of its filter.
pub open spec fn all_secondary_spec(request_type: Seq<char>, value: Seq<char>) -> bool {
    let n = trim_seq(value);
    if n.len() == 0 {
        false
    } else if n == ALL_SELECTION@ || eq_ignore_ascii_case_seq(n, "all"@) {
        true
    } else if request_type == "tv"@ {
        eq_ignore_ascii_case_seq(n, "tv"@)
    } else if request_type == "show"@ {
        eq_ignore_ascii_case_seq(n, "show"@)
    } else {
        false
    }
}

pub fn is_all_primary_selection(value: &str) -> (r: bool)
    ensures
        r == all_primary_spec(value@),
{
    let t = trim(value);
    str_eq(t.as_str(), ALL_SELECTION)
}

pub fn is_all_secondary_selection(request_type: &str, value: &str) -> (r: bool)
    ensures
        r == all_secondary_spec(request_type@, value@),
{
    let n = trim(value);
    if n.as_str().is_empty() {
        return false;
    }
    if str_eq(n.as_str(), ALL_SELECTION) || eq_ignore_ascii_case(n.as_str(), "all") {
        return true;
    }
    if str_eq(request_type, "tv") {
        return eq_ignore_ascii_case(n.as_str(), "tv");
    }
    if str_eq(request_type, "show") {
        return eq_ignore_ascii_case(n.as_str(), "show");
    }
    false
}

/// `request_type`'s defaults: primary and secondary selection, whether pages
/// are cached, whether the secondary selection must match for that.
pub open spec fn defaults_spec(
    request_type: Seq<char>,
    custom: Option<Seq<DoubanCustomCategory>>,
    fallback: Option<Seq<char>>,
) -> (Seq<char>, Seq<char>, bool, bool) {
    let fb = match fallback {
        Some(f) => f,
        None => Seq::empty(),
    };
    if request_type == "custom"@ {
        let cats = match custom {
            Some(c) => c,
            None => Seq::empty(),
        };
        if cats.len() == 0 {
            (Seq::empty(), fb, false, false)
        } else {
            let selected = custom_selected_type(cats);
            let secondary = match first_query_of_type(cats, selected) {
                Some(q) => q,
                None => fb,
            };
            (selected, secondary, false, false)
        }
    } else if request_type == "movie"@ {
        ("热门"@, "全部"@, true, true)
    } else if request_type == "tv"@ {
        ("最近热门"@, "tv"@, true, true)
    } else if request_type == "show"@ {
        ("最近热门"@, "show"@, true, true)
    } else if request_type == "anime"@ {
        (ANIME_DAILY_SELECTION@, "全部"@, true, false)
    } else {
        (Seq::empty(), "全部"@, false, true)
    }
}

/// Among custom categories, `movie` if any category has that type, else the
/// type of the first.
pub open spec fn custom_selected_type(cats: Seq<DoubanCustomCategory>) -> Seq<char> {
    if exists|i: int| 0 <= i < cats.len() && #[trigger] cats[i].category_type@ == "movie"@ {
        "movie"@
    } else if cats.len() > 0 {
        cats[0].category_type@
    } else {
        Seq::empty()
    }
}

/// The query of the first category of type `ty`.
pub open spec fn first_query_of_type(cats: Seq<DoubanCustomCategory>, ty: Seq<char>) -> Option<
    Seq<char>,
>
    decreases cats.len(),
{
    if cats.len() == 0 {
        None
    } else if cats[0].category_type@ == ty {
        Some(cats[0].query@)
    } else {
        first_query_of_type(cats.drop_first(), ty)
    }
}

fn custom_defaults_type(cats: &[DoubanCustomCategory]) -> (r: String)
    requires
        cats@.len() > 0,
    ensures
        r@ == custom_selected_type(cats@),
{
    let mut i: usize = 0;
    while i < cats.len()
        invariant
            i <= cats@.len(),
            forall|j: int| 0 <= j < i ==> cats@[j].category_type@ != "movie"@,
        decreases cats@.len() - i,
    {
        if str_eq(cats[i].category_type.as_str(), "movie") {
            assert(cats@[i as int].category_type@ == "movie"@);
            return String::from_str("movie");
        }
        i += 1;
    }
    cats[0].category_type.clone()
}

fn custom_defaults_query(cats: &[DoubanCustomCategory], ty: &str) -> (r: Option<String>)
    ensures
        match r {
            Some(q) => first_query_of_type(cats@, ty@) == Some(q@),
            None => first_query_of_type(cats@, ty@) is None,
        },
{
    let mut i: usize = 0;
    assert(cats@.skip(0) =~= cats@);
    while i < cats.len()
        invariant
            i <= cats@.len(),
            first_query_of_type(cats@, ty@) == first_query_of_type(cats@.skip(i as int), ty@),
        decreases cats@.len() - i,
    {
        assert(cats@.skip(i as int).drop_first() =~= cats@.skip(i + 1));
        assert(cats@.skip(i as int)[0] == cats@[i as int]);
        if str_eq(cats[i].category_type.as_str(), ty) {
            return Some(cats[i].query.clone());
        }
        i += 1;
    }
    None
}

pub fn resolve_douban_defaults(
    request_type: &str,
    custom_categories: Option<&[DoubanCustomCategory]>,
    fallback_secondary: Option<&str>,
) -> (r: DoubanDefaultsResponse)
    ensures
        ({
            let d = defaults_spec(
                request_type@,
                match custom_categories {
                    Some(c) => Some(c@),
                    None => None,
                },
                match fallback_secondary {
                    Some(f) => Some(f@),
                    None => None,
                },
            );
            &&& r.primary_selection@ == d.0
            &&& r.secondary_selection@ == d.1
            &&& r.cache_enabled == d.2
            &&& r.require_secondary == d.3
        }),
        selection_view(r.multi_level_selection@) == default_selection_spec(),
{
    let multi_level_selection = default_multi_level_selection();
    let fb = match fallback_secondary {
        Some(f) => String::from_str(f),
        None => String::new(),
    };
    if str_eq(request_type, "custom") {
        let empty: bool = match custom_categories {
            Some(c) => c.len() == 0,
            None => true,
        };
        if empty {
            return DoubanDefaultsResponse {
                primary_selection: String::new(),
                secondary_selection: fb,
                multi_level_selection,
                cache_enabled: false,
                require_secondary: false,
            };
        }
        let cats = custom_categories.unwrap();
        let selected = custom_defaults_type(cats);
        let secondary = match custom_defaults_query(cats, selected.as_str()) {
            Some(q) => q,
            None => fb,
        };
        return DoubanDefaultsResponse {
            primary_selection: selected,
            secondary_selection: secondary,
            multi_level_selection,
            cache_enabled: false,
            require_secondary: false,
        };
    }
    if str_eq(request_type, "movie") {
        defaults_response("热门", "全部", true, true, multi_level_selection)
    } else if str_eq(request_type, "tv") {
        defaults_response("最近热门", "tv", true, true, multi_level_selection)
    } else if str_eq(request_type, "show") {
        defaults_response("最近热门", "show", true, true, multi_level_selection)
    } else if str_eq(request_type, "anime") {
        defaults_response(ANIME_DAILY_SELECTION, "全部", true, false, multi_level_selection)
    } else {
        DoubanDefaultsResponse {
            primary_selection: String::new(),
            secondary_selection: String::from_str("全部"),
            multi_level_selection,
            cache_enabled: false,
            require_secondary: true,
        }
    }
}

fn defaults_response(
    primary: &str,
    secondary: &str,
    cache_enabled: bool,
    require_secondary: bool,
    multi_level_selection: Selection,
) -> (r: DoubanDefaultsResponse)
    ensures
        r.primary_selection@ == primary@,
        r.secondary_selection@ == secondary@,
        r.cache_enabled == cache_enabled,
        r.require_secondary == require_secondary,
        r.multi_level_selection == multi_level_selection,
{
    DoubanDefaultsResponse {
        primary_selection: String::from_str(primary),
        secondary_selection: String::from_str(secondary),
        multi_level_selection,
        cache_enabled,
        require_secondary,
    }
}

/// The defaults for a request's type, custom categories and fallback.
pub fn get_douban_defaults(request: DoubanDefaultsRequest) -> (r: DoubanDefaultsResponse)
    ensures
        ({
            let d = defaults_spec(
                request.request_type@,
                match request.custom_categories {
                    Some(c) => Some(c@),
                    None => None,
                },
                match request.fallback_secondary {
                    Some(f) => Some(f@),
                    None => None,
                },
            );
            &&& r.primary_selection@ == d.0
            &&& r.secondary_selection@ == d.1
            &&& r.cache_enabled == d.2
            &&& r.require_secondary == d.3
        }),
        selection_view(r.multi_level_selection@) == default_selection_spec(),
{
    let cats: Option<&[DoubanCustomCategory]> = match &request.custom_categories {
        Some(c) => Some(c.as_slice()),
        None => None,
    };
    let fb: Option<&str> = match &request.fallback_secondary {
        Some(f) => Some(f.as_str()),
        None => None,
    };
    resolve_douban_defaults(request.request_type.as_str(), cats, fb)
}

/// Whether a page request's answer may be cached: never for custom
/// categories or the daily anime tab, otherwise only for types with
/// caching on, when the primary selection is "all" or the secondary one is
/// the default or "all".
pub open spec fn should_cache_spec(
    request_type: Seq<char>,
    primary: Seq<char>,
    secondary: Seq<char>,
) -> bool {
    if request_type == "custom"@ {
        false
    } else if request_type == "anime"@ {
        !is_anime_daily_spec(primary)
    } else {
        let d = defaults_spec(request_type, None, None);
        if !d.2 {
            false
        } else if primary != d.0 && all_primary_spec(primary) {
            true
        } else if d.3 && secondary != d.1 && !all_secondary_spec(request_type, secondary) {
            false
        } else {
            true
        }
    }
}

pub fn should_cache_douban_request(request: &DoubanPageRequest) -> (r: bool)
    ensures
        r == should_cache_spec(
            request.request_type@,
            request.primary_selection@,
            request.secondary_selection@,
        ),
{
    let rt = request.request_type.as_str();
    if str_eq(rt, "custom") {
        return false;
    }
    if str_eq(rt, "anime") {
        return !is_anime_daily_selection(request.primary_selection.as_str());
    }
    let defaults = resolve_douban_defaults(rt, None, None);
    if !defaults.cache_enabled {
        return false;
    }
    if !str_eq(request.primary_selection.as_str(), defaults.primary_selection.as_str()) {
        if is_all_primary_selection(request.primary_selection.as_str()) {
            return true;
        }
    }
    if defaults.require_secondary && !str_eq(
        request.secondary_selection.as_str(),
        defaults.secondary_selection.as_str(),
    ) && !is_all_secondary_selection(rt, request.secondary_selection.as_str()) {
        return false;
    }
    true
}

/// A request that keeps its type's default selections is cached whenever
/// its type caches at all.
pub proof fn lemma_default_selection_is_cached(request_type: Seq<char>)
    requires
        request_type != "custom"@,
        request_type != "anime"@,
        defaults_spec(request_type, None, None).2,
    ensures
        should_cache_spec(
            request_type,
            defaults_spec(request_type, None, None).0,
            defaults_spec(request_type, None, None).1,
        ),
{
}

/// The kind and format that the recommendation listing is asked for.
pub open spec fn recommends_kind_format(request_type: Seq<char>, primary: Seq<char>) -> (
    Kind,
    Seq<char>,
) {
    if request_type == "anime"@ {
        if anime_prefers_tv_spec(primary) {
            (Kind::Tv, "电视剧"@)
        } else {
            (Kind::Movie, Seq::empty())
        }
    } else if request_type == "show"@ {
        (Kind::Tv, "综艺"@)
    } else if request_type == "tv"@ {
        (Kind::Tv, "电视剧"@)
    } else {
        (Kind::Movie, Seq::empty())
    }
}

pub fn build_recommends_params(request: &DoubanPageRequest, page_limit: i32, page_start: i32) -> (r:
    DoubanRecommendsParams)
    ensures
        ({
            let sel = match request.multi_level_selection {
                Some(s) => Some(s@),
                None => None,
            };
            let kf = recommends_kind_format(request.request_type@, request.primary_selection@);
            &&& r.kind == kf.0
            &&& r.format@ == kf.1
            &&& r.category@ == (if request.request_type@ == "anime"@ {
                "动画"@
            } else {
                multi_value_spec(sel, "type"@)
            })
            &&& r.region@ == multi_value_spec(sel, "region"@)
            &&& r.year@ == multi_value_spec(sel, "year"@)
            &&& r.platform@ == multi_value_spec(sel, "platform"@)
            &&& r.sort@ == multi_value_spec(sel, "sort"@)
            &&& r.label@ == multi_value_spec(sel, "label"@)
            &&& r.page_limit == Some(page_limit)
            &&& r.page_start == Some(page_start)
        }),
{
    let selection: Option<&Selection> = match &request.multi_level_selection {
        Some(s) => Some(s),
        None => None,
    };
    let region = extract_multi_value(selection, "region");
    let year = extract_multi_value(selection, "year");
    let platform = extract_multi_value(selection, "platform");
    let sort = extract_multi_value(selection, "sort");
    let label = extract_multi_value(selection, "label");
    let rt = request.request_type.as_str();
    let category = if str_eq(rt, "anime") {
        String::from_str("动画")
    } else {
        extract_multi_value(selection, "type")
    };
    let (kind, format) = if str_eq(rt, "anime") {
        if anime_selection_prefers_tv(request.primary_selection.as_str()) {
            (Kind::Tv, String::from_str("电视剧"))
        } else {
            (Kind::Movie, String::new())
        }
    } else if str_eq(rt, "show") {
        (Kind::Tv, String::from_str("综艺"))
    } else if str_eq(rt, "tv") {
        (Kind::Tv, String::from_str("电视剧"))
    } else {
        (Kind::Movie, String::new())
    };
    DoubanRecommendsParams {
        kind,
        page_limit: Some(page_limit),
        page_start: Some(page_start),
        category,
        format,
        label,
        region,
        year,
        platform,
        sort,
    }
}

/// TV and variety pages ask by type and secondary selection; other pages by
/// primary and secondary selection, as films for `movie` and as TV otherwise.
pub fn build_categories_params(request: &DoubanPageRequest, page_limit: i32, page_start: i32) -> (r:
    DoubanCategoriesParams)
    ensures
        r.page_limit == Some(page_limit),
        r.page_start == Some(page_start),
        r.type_@ == request.secondary_selection@,
        (request.request_type@ == "tv"@ || request.request_type@ == "show"@) ==> (r.kind == Kind::Tv
            && r.category@ == request.request_type@),
        !(request.request_type@ == "tv"@ || request.request_type@ == "show"@) ==> (r.kind == (
        if request.request_type@ == "movie"@ {
            Kind::Movie
        } else {
            Kind::Tv
        }) && r.category@ == request.primary_selection@),
{
    let rt = request.request_type.as_str();
    if str_eq(rt, "tv") || str_eq(rt, "show") {
        DoubanCategoriesParams::new(
            Kind::Tv,
            rt,
            request.secondary_selection.as_str(),
            Some(page_limit),
            Some(page_start),
        )
    } else {
        let kind = if str_eq(rt, "movie") {
            Kind::Movie
        } else {
            Kind::Tv
        };
        DoubanCategoriesParams::new(
            kind,
            request.primary_selection.as_str(),
            request.secondary_selection.as_str(),
            Some(page_limit),
            Some(page_start),
        )
    }
}

/// The trimmed selection, or today's weekday when it is blank or absent.
pub fn resolve_selected_weekday(selected: Option<&str>) -> (r: String)
    ensures
        ({
            let sel = match selected {
                Some(v) => Some(v@),
                None => None,
            };
            weekday_input_spec(sel, Seq::empty()).len() > 0 ==> r@ == weekday_input_spec(
                sel,
                Seq::empty(),
            )
        }),
        ({
            let sel = match selected {
                Some(v) => Some(v@),
                None => None,
            };
            weekday_input_spec(sel, Seq::empty()).len() == 0 ==> is_weekday_name(r@)
        }),
{
    let today = current_weekday_en();
    resolve_weekday_input(selected, today)
}

/// The contents of a listing item: id, title, poster, rating and year.
pub open spec fn douban_item_view(item: DoubanItem) -> (
    Seq<char>,
    Seq<char>,
    Seq<char>,
    Seq<char>,
    Seq<char>,
) {
    (item.id@, item.title@, item.poster@, item.rate@, item.year@)
}

pub open spec fn opt_text(o: Option<String>) -> Option<Seq<char>> {
    match o {
        Some(s) => Some(s@),
        None => None,
    }
}

/// The first image of a programme, largest first, or the app logo.
pub open spec fn bangumi_poster(item: Items) -> Seq<char> {
    match item.images {
        Some(im) => if im.large is Some {
            im.large->0@
        } else if im.common is Some {
            im.common->0@
        } else if im.medium is Some {
            im.medium->0@
        } else if im.small is Some {
            im.small->0@
        } else if im.grid is Some {
            im.grid->0@
        } else {
            "/logo.png"@
        },
        None => "/logo.png"@,
    }
}

/// The part of a date before its first `-`.
pub open spec fn year_of_date(date: Seq<char>) -> Seq<char> {
    let i = crate::text::find_from(date, "-"@, 0);
    if i < 0 {
        date
    } else {
        date.take(i)
    }
}

/// A calendar programme as a listing item.
pub open spec fn bangumi_item_view(item: Items) -> (Seq<char>, Seq<char>, Seq<char>, Seq<char>, Seq<
    char,
>) {
    (
        int_text(item.id as int),
        if item.name_cn@.len() > 0 {
            item.name_cn@
        } else {
            item.name@
        },
        bangumi_poster(item),
        match item.rating {
            Some(r) => match r.score {
                Some(t) => t@,
                None => Seq::empty(),
            },
            None => Seq::empty(),
        },
        match item.air_date {
            Some(d) => year_of_date(d@),
            None => Seq::empty(),
        },
    )
}

fn first_piece_before_dash(date: &str) -> (r: String)
    ensures
        r@ == year_of_date(date@),
{
    let v = crate::text::to_chars(date);
    let dash = crate::text::to_chars("-");
    match crate::text::vec_find_from(&v, &dash, 0) {
        None => String::from_str(date),
        Some(i) => {
            proof {
                crate::text::lemma_find_from(date@, "-"@, 0);
            }
            crate::text::string_from_chars(&v, 0, i)
        },
    }
}

fn bangumi_to_douban_item(item: &Items) -> (r: DoubanItem)
    ensures
        douban_item_view(r) == bangumi_item_view(*item),
{
    let title = if item.name_cn.as_str().is_empty() {
        item.name.clone()
    } else {
        item.name_cn.clone()
    };
    let poster = match &item.images {
        Some(im) => if im.large.is_some() {
            im.large.clone().unwrap()
        } else if im.common.is_some() {
            im.common.clone().unwrap()
        } else if im.medium.is_some() {
            im.medium.clone().unwrap()
        } else if im.small.is_some() {
            im.small.clone().unwrap()
        } else if im.grid.is_some() {
            im.grid.clone().unwrap()
        } else {
            String::from_str("/logo.png")
        },
        None => String::from_str("/logo.png"),
    };
    let rate = match &item.rating {
        Some(r) => match &r.score {
            Some(t) => t.clone(),
            None => String::new(),
        },
        None => String::new(),
    };
    let year = match &item.air_date {
        Some(d) => first_piece_before_dash(d.as_str()),
        None => String::new(),
    };
    DoubanItem { id: i64_to_string(item.id), title, poster, rate, year }
}

/// The listed programmes of the weekday named `weekday` as listing items,
/// or an error when the calendar has no such day.
pub fn build_bangumi_daily_list(data: Vec<BangumiCalendarData>, weekday: &str) -> (r: Result<
    Vec<DoubanItem>,
    String,
>)
    ensures
        find_day_from(data@, weekday@, 0) < 0 ==> (r is Err && r->Err_0@ == "没有找到对应的日期"@),
        find_day_from(data@, weekday@, 0) >= 0 ==> (r is Ok && r->Ok_0@.map_values(
            |d: DoubanItem| douban_item_view(d),
        ) == listed_items(day_items(data@[find_day_from(data@, weekday@, 0)])).map_values(
            |b: Items| bangumi_item_view(b),
        )),
{
    let day = match find_day(data.as_slice(), weekday) {
        None => {
            return Err(String::from_str("没有找到对应的日期"));
        },
        Some(i) => i,
    };
    let items: Vec<Items> = match &data[day].items {
        Some(v) => keep_listed(v),
        None => {
            assert(listed_items(Seq::<Items>::empty()) =~= Seq::<Items>::empty());
            Vec::new()
        },
    };
    let mut list: Vec<DoubanItem> = Vec::new();
    let mut i: usize = 0;
    while i < items.len()
        invariant
            i <= items.len(),
            list.len() == i,
            forall|j: int| 0 <= j < i ==> douban_item_view(#[trigger] list@[j]) == bangumi_item_view(
                items@[j],
            ),
        decreases items.len() - i,
    {
        let d = bangumi_to_douban_item(&items[i]);
        list.push(d);
        i += 1;
    }
    assert(list@.map_values(|d: DoubanItem| douban_item_view(d)) =~= items@.map_values(
        |b: Items| bangumi_item_view(b),
    ));
    Ok(list)
}

/// The trimmed value when it is not blank.
pub open spec fn trim_to_option_spec(value: Option<Seq<char>>) -> Option<Seq<char>> {
    match value {
        Some(v) => if trim_seq(v).len() > 0 {
            Some(trim_seq(v))
        } else {
            None
        },
        None => None,
    }
}

pub fn trim_to_option(value: Option<&str>) -> (r: Option<String>)
    ensures
        opt_text(r) == trim_to_option_spec(
            match value {
                Some(v) => Some(v@),
                None => None,
            },
        ),
{
    match value {
        Some(v) => {
            let t = trim(v);
            if t.as_str().is_empty() {
                None
            } else {
                Some(t)
            }
        },
        None => None,
    }
}

/// The trimmed source key, or `auto` (every source) when it is blank.
pub open spec fn source_key_spec(source_key: Option<Seq<char>>) -> Seq<char> {
    match trim_to_option_spec(source_key) {
        Some(k) => k,
        None => "auto"@,
    }
}

pub fn normalize_source_key(source_key: Option<&str>) -> (r: String)
    ensures
        r@ == source_key_spec(
            match source_key {
                Some(v) => Some(v@),
                None => None,
            },
        ),
{
    match trim_to_option(source_key) {
        Some(k) => k,
        None => String::from_str("auto"),
    }
}

/// The text of an optional string, or `default`.
pub open spec fn text_or(o: Option<String>, default: Seq<char>) -> Seq<char> {
    match o {
        Some(s) => s@,
        None => default,
    }
}

/// The weekday that a resolved page state carries: for the daily anime tab
/// the selection or, when blank, `today`; otherwise the selection as given.
pub open spec fn state_weekday_spec(
    request_type: Seq<char>,
    primary: Seq<char>,
    selected: Option<String>,
    today: Seq<char>,
) -> Seq<char> {
    if request_type == "anime"@ && is_anime_daily_spec(primary) {
        weekday_input_spec(opt_text(selected), today)
    } else {
        text_or(selected, Seq::empty())
    }
}

/// How a page-state request is resolved, `today` standing for the current
/// weekday: a particular source takes the selections as given (blank when
/// absent); the aggregate (`auto`) applies the type's defaults and drops the
/// source category.
pub open spec fn resolved_spec(
    r: ResolvedDoubanPageStateRequest,
    request: DoubanPageStateRequest,
    today: Seq<char>,
) -> bool {
    let key = source_key_spec(opt_text(request.source_key));
    let d = defaults_spec(request.request_type@, None, None);
    &&& r.request_type == request.request_type
    &&& r.source_key@ == key
    &&& r.page_limit == (match request.page_limit {
        Some(v) => v,
        None => 25,
    })
    &&& if key != "auto"@ {
        &&& r.primary_selection@ == text_or(request.primary_selection, Seq::empty())
        &&& r.secondary_selection@ == text_or(request.secondary_selection, Seq::empty())
        &&& r.multi_level_selection@ == (match request.multi_level_selection {
            Some(m) => m@,
            None => Seq::empty(),
        })
        &&& r.selected_weekday@ == text_or(request.selected_weekday, Seq::empty())
        &&& r.source_category_type_id == request.source_category_type_id
    } else {
        &&& r.primary_selection@ == text_or(request.primary_selection, d.0)
        &&& r.secondary_selection@ == text_or(request.secondary_selection, d.1)
        &&& (match request.multi_level_selection {
            Some(m) => r.multi_level_selection == m,
            None => selection_view(r.multi_level_selection@) == default_selection_spec(),
        })
        &&& r.selected_weekday@ == state_weekday_spec(
            request.request_type@,
            r.primary_selection@,
            request.selected_weekday,
            today,
        )
        &&& r.source_category_type_id is None
    }
}

/// Resolves a page-state request, `today` being the current weekday.
pub fn resolve_douban_page_state_request_at(request: DoubanPageStateRequest, today: &str) -> (r:
    ResolvedDoubanPageStateRequest)
    ensures
        resolved_spec(r, request, today@),
{
    let ghost req = request;
    let source_key = normalize_source_key(
        match &request.source_key {
            Some(k) => Some(k.as_str()),
            None => None,
        },
    );
    let page_limit = match request.page_limit {
        Some(v) => v,
        None => 25,
    };
    if !str_eq(source_key.as_str(), "auto") {
        return ResolvedDoubanPageStateRequest {
            request_type: request.request_type,
            source_key,
            primary_selection: match request.primary_selection {
                Some(p) => p,
                None => String::new(),
            },
            secondary_selection: match request.secondary_selection {
                Some(p) => p,
                None => String::new(),
            },
            multi_level_selection: match request.multi_level_selection {
                Some(m) => m,
                None => Vec::new(),
            },
            selected_weekday: match request.selected_weekday {
                Some(w) => w,
                None => String::new(),
            },
            source_category_type_id: request.source_category_type_id,
            page_limit,
        };
    }
    let defaults = resolve_douban_defaults(request.request_type.as_str(), None, None);
    let primary_selection = match request.primary_selection {
        Some(p) => p,
        None => defaults.primary_selection,
    };
    let secondary_selection = match request.secondary_selection {
        Some(p) => p,
        None => defaults.secondary_selection,
    };
    let selected_weekday = if str_eq(request.request_type.as_str(), "anime")
        && is_anime_daily_selection(primary_selection.as_str()) {
        resolve_weekday_input(
            match &request.selected_weekday {
                Some(w) => Some(w.as_str()),
                None => None,
            },
            today,
        )
    } else {
        match request.selected_weekday {
            Some(w) => w,
            None => String::new(),
        }
    };
    let multi_level_selection = match request.multi_level_selection {
        Some(m) => m,
        None => default_multi_level_selection(),
    };
    ResolvedDoubanPageStateRequest {
        request_type: request.request_type,
        source_key,
        primary_selection,
        secondary_selection,
        multi_level_selection,
        selected_weekday,
        source_category_type_id: None,
        page_limit,
    }
}

/// Resolves a page-state request against today's weekday.
pub fn resolve_douban_page_state_request(request: DoubanPageStateRequest) -> (r:
    ResolvedDoubanPageStateRequest)
    ensures
        exists|today: Seq<char>| is_weekday_name(today) && #[trigger] resolved_spec(r, request, today),
{
    let today = current_weekday_en();
    let r = resolve_douban_page_state_request_at(request, today);
    assert(resolved_spec(r, request, today@));
    r
}

/// The category keywords of a content type.
pub open spec fn keywords_spec(request_type: Seq<char>) -> Seq<Seq<char>> {
    if request_type == "movie"@ {
        seq!["电影"@, "影片"@, "院线"@, "4k"@, "蓝光"@]
    } else if request_type == "tv"@ {
        seq!["电视剧"@, "剧集"@, "美剧"@, "韩剧"@, "日剧"@, "港剧"@]
    } else if request_type == "anime"@ {
        seq!["动漫"@, "动画"@, "番剧"@, "漫画"@]
    } else if request_type == "show"@ {
        seq!["综艺"@, "真人秀"@, "脱口秀"@, "晚会"@, "纪录片"@]
    } else {
        Seq::empty()
    }
}

pub open spec fn str_views(v: Seq<&str>) -> Seq<Seq<char>> {
    v.map_values(|k: &str| k@)
}

pub fn category_keywords_for_request_type(request_type: &str) -> (r: Vec<&'static str>)
    ensures
        str_views(r@) == keywords_spec(request_type@),
{
    let r: Vec<&'static str> = if str_eq(request_type, "movie") {
        vec!["电影", "影片", "院线", "4k", "蓝光"]
    } else if str_eq(request_type, "tv") {
        vec!["电视剧", "剧集", "美剧", "韩剧", "日剧", "港剧"]
    } else if str_eq(request_type, "anime") {
        vec!["动漫", "动画", "番剧", "漫画"]
    } else if str_eq(request_type, "show") {
        vec!["综艺", "真人秀", "脱口秀", "晚会", "纪录片"]
    } else {
        Vec::new()
    };
    assert(str_views(r@) =~= keywords_spec(request_type@));
    r
}

/// The category name, lower-cased, holds one of the keywords, lower-cased.
pub open spec fn matches_keywords_spec(name: Seq<char>, keywords: Seq<Seq<char>>) -> bool {
    exists|i: int|
        0 <= i < keywords.len() && contains_seq(
            unicode_lowercase(name),
            unicode_lowercase(#[trigger] keywords[i]),
        )
}

pub fn matches_category_keywords(category_name: &str, keywords: &[&str]) -> (r: bool)
    ensures
        r == matches_keywords_spec(category_name@, str_views(keywords@)),
{
    let lowered = to_lowercase(category_name);
    let mut i: usize = 0;
    while i < keywords.len()
        invariant
            i <= keywords@.len(),
            lowered@ == unicode_lowercase(category_name@),
            forall|j: int|
                0 <= j < i ==> !contains_seq(
                    unicode_lowercase(category_name@),
                    unicode_lowercase(#[trigger] str_views(keywords@)[j]),
                ),
        decreases keywords@.len() - i,
    {
        let k = to_lowercase(keywords[i]);
        assert(str_views(keywords@)[i as int] == keywords@[i as int]@);
        if contains(lowered.as_str(), k.as_str()) {
            return true;
        }
        i += 1;
    }
    false
}

/// The text of a category field: strings and numbers as written, booleans
/// as `true`/`false`, nothing for other values.
pub open spec fn category_value_text(value: JsonScalar) -> Option<Seq<char>> {
    match value {
        JsonScalar::Text(t) => Some(t@),
        JsonScalar::Number(n) => Some(n@),
        JsonScalar::Bool(b) => Some(
            if b {
                "true"@
            } else {
                "false"@
            },
        ),
        JsonScalar::Other => None,
    }
}

pub fn stringify_source_category_value(value: &JsonScalar) -> (r: Option<String>)
    ensures
        opt_text(r) == category_value_text(*value),
{
    match value {
        JsonScalar::Text(t) => Some(t.clone()),
        JsonScalar::Number(n) => Some(n.clone()),
        JsonScalar::Bool(b) => Some(
            if *b {
                String::from_str("true")
            } else {
                String::from_str("false")
            },
        ),
        JsonScalar::Other => None,
    }
}

/// The contents of a page category: id, name and parent id.
pub open spec fn category_view(c: DoubanSourceCategory) -> (Seq<char>, Seq<char>, Option<Seq<char>>) {
    (c.type_id@, c.type_label@, opt_text(c.type_pid))
}

/// A source category as a page category, when its id can be written; a
/// parent id that cannot be written is dropped.
pub open spec fn normalize_category_spec(item: SourceCategoryItem) -> Option<
    (Seq<char>, Seq<char>, Option<Seq<char>>),
> {
    match category_value_text(item.type_id) {
        Some(id) => Some(
            (
                id,
                item.type_label@,
                match item.type_pid {
                    Some(p) => category_value_text(p),
                    None => None,
                },
            ),
        ),
        None => None,
    }
}

pub fn normalize_source_category(category: &SourceCategoryItem) -> (r: Option<DoubanSourceCategory>)
    ensures
        match r {
            Some(c) => normalize_category_spec(*category) == Some(category_view(c)),
            None => normalize_category_spec(*category) is None,
        },
{
    let type_id = match stringify_source_category_value(&category.type_id) {
        Some(id) => id,
        None => {
            return None;
        },
    };
    let type_pid = match &category.type_pid {
        Some(p) => stringify_source_category_value(p),
        None => None,
    };
    Some(DoubanSourceCategory { type_id, type_label: category.type_label.clone(), type_pid })
}

/// The page categories that the source categories give, in order.
pub open spec fn normalized_categories(items: Seq<SourceCategoryItem>) -> Seq<
    (Seq<char>, Seq<char>, Option<Seq<char>>),
>
    decreases items.len(),
{
    if items.len() == 0 {
        Seq::empty()
    } else {
        let rest = normalized_categories(items.drop_last());
        match normalize_category_spec(items.last()) {
            Some(c) => rest.push(c),
            None => rest,
        }
    }
}

/// The categories whose name matches one of the type's keywords.
pub open spec fn keyword_matches(
    cats: Seq<(Seq<char>, Seq<char>, Option<Seq<char>>)>,
    keywords: Seq<Seq<char>>,
) -> Seq<(Seq<char>, Seq<char>, Option<Seq<char>>)>
    decreases cats.len(),
{
    if cats.len() == 0 {
        cats
    } else {
        let rest = keyword_matches(cats.drop_last(), keywords);
        if matches_keywords_spec(cats.last().1, keywords) {
            rest.push(cats.last())
        } else {
            rest
        }
    }
}

/// The generic fallback keywords: film, series, comics.
pub open spec fn generic_keywords() -> Seq<Seq<char>> {
    seq!["影"@, "剧"@, "漫"@]
}

/// The name holds one of the generic keywords as written.
pub open spec fn has_generic_keyword(name: Seq<char>) -> bool {
    exists|i: int| 0 <= i < 3 && contains_seq(name, #[trigger] generic_keywords()[i])
}

/// The categories whose name holds a generic keyword.
pub open spec fn generic_matches(cats: Seq<(Seq<char>, Seq<char>, Option<Seq<char>>)>) -> Seq<
    (Seq<char>, Seq<char>, Option<Seq<char>>),
>
    decreases cats.len(),
{
    if cats.len() == 0 {
        cats
    } else {
        let rest = generic_matches(cats.drop_last());
        if has_generic_keyword(cats.last().1) {
            rest.push(cats.last())
        } else {
            rest
        }
    }
}

/// At most this many categories are offered.
pub const SOURCE_CATEGORY_FALLBACK_LIMIT: usize = 15;

/// The categories offered for a content type: those matching its keywords,
/// or when none does those matching a generic keyword, at most fifteen.
pub open spec fn filtered_categories_spec(request_type: Seq<char>, items: Seq<SourceCategoryItem>) -> Seq<
    (Seq<char>, Seq<char>, Option<Seq<char>>),
> {
    let normalized = normalized_categories(items);
    let matched = keyword_matches(normalized, keywords_spec(request_type));
    let chosen = if matched.len() > 0 {
        matched
    } else {
        generic_matches(normalized)
    };
    if chosen.len() > 15 {
        chosen.take(15)
    } else {
        chosen
    }
}

fn has_generic_keyword_exec(name: &str) -> (r: bool)
    ensures
        r == has_generic_keyword(name@),
{
    let r = contains(name, "影") || contains(name, "剧") || contains(name, "漫");
    assert(generic_keywords()[0] == "影"@);
    assert(generic_keywords()[1] == "剧"@);
    assert(generic_keywords()[2] == "漫"@);
    r
}

pub fn filter_source_categories_by_request_type(
    request_type: &str,
    categories: &[SourceCategoryItem],
) -> (r: Vec<DoubanSourceCategory>)
    ensures
        r@.map_values(|c: DoubanSourceCategory| category_view(c)) == filtered_categories_spec(
            request_type@,
            categories@,
        ),
        r@.len() <= SOURCE_CATEGORY_FALLBACK_LIMIT,
{
    let mut normalized: Vec<DoubanSourceCategory> = Vec::new();
    let mut i: usize = 0;
    while i < categories.len()
        invariant
            i <= categories@.len(),
            normalized@.map_values(|c: DoubanSourceCategory| category_view(c))
                == normalized_categories(categories@.take(i as int)),
        decreases categories@.len() - i,
    {
        assert(categories@.take(i + 1).drop_last() =~= categories@.take(i as int));
        let ghost before = normalized@;
        match normalize_source_category(&categories[i]) {
            Some(c) => {
                normalized.push(c);
                assert(normalized@.map_values(|c: DoubanSourceCategory| category_view(c))
                    =~= before.map_values(|c: DoubanSourceCategory| category_view(c)).push(
                    category_view(normalized@.last()),
                ));
            },
            None => {},
        }
        i += 1;
    }
    assert(categories@.take(categories@.len() as int) =~= categories@);
    let ghost nview = normalized@.map_values(|c: DoubanSourceCategory| category_view(c));
    if normalized.len() == 0 {
        assert(keyword_matches(nview, keywords_spec(request_type@)) =~= nview);
        assert(generic_matches(nview) =~= nview);
        return normalized;
    }
    let keywords = category_keywords_for_request_type(request_type);
    let mut matched: Vec<DoubanSourceCategory> = Vec::new();
    let mut j: usize = 0;
    while j < normalized.len()
        invariant
            j <= normalized.len(),
            nview == normalized@.map_values(|c: DoubanSourceCategory| category_view(c)),
            str_views(keywords@) == keywords_spec(request_type@),
            matched@.map_values(|c: DoubanSourceCategory| category_view(c)) == keyword_matches(
                nview.take(j as int),
                keywords_spec(request_type@),
            ),
        decreases normalized.len() - j,
    {
        assert(nview.take(j + 1).drop_last() =~= nview.take(j as int));
        assert(nview.take(j + 1).last() == category_view(normalized@[j as int]));
        let ghost before = matched@;
        if matches_category_keywords(normalized[j].type_label.as_str(), keywords.as_slice()) {
            matched.push(normalized[j].clone());
            assert(matched@.map_values(|c: DoubanSourceCategory| category_view(c))
                =~= before.map_values(|c: DoubanSourceCategory| category_view(c)).push(
                category_view(normalized@[j as int]),
            ));
        }
        j += 1;
    }
    assert(nview.take(normalized.len() as int) =~= nview);
    if matched.len() == 0 {
        let mut k: usize = 0;
        while k < normalized.len()
            invariant
                k <= normalized.len(),
                nview == normalized@.map_values(|c: DoubanSourceCategory| category_view(c)),
                matched@.map_values(|c: DoubanSourceCategory| category_view(c)) == generic_matches(
                    nview.take(k as int),
                ),
            decreases normalized.len() - k,
        {
            assert(nview.take(k + 1).drop_last() =~= nview.take(k as int));
            assert(nview.take(k + 1).last() == category_view(normalized@[k as int]));
            let ghost before = matched@;
            if has_generic_keyword_exec(normalized[k].type_label.as_str()) {
                matched.push(normalized[k].clone());
                assert(matched@.map_values(|c: DoubanSourceCategory| category_view(c))
                    =~= before.map_values(|c: DoubanSourceCategory| category_view(c)).push(
                    category_view(normalized@[k as int]),
                ));
            }
            k += 1;
        }
    }
    if matched.len() > SOURCE_CATEGORY_FALLBACK_LIMIT {
        matched.truncate(SOURCE_CATEGORY_FALLBACK_LIMIT);
        assert(matched@.map_values(|c: DoubanSourceCategory| category_view(c)) =~= filtered_categories_spec(
            request_type@,
            categories@,
        ));
    }
    matched
}

} // verus!
