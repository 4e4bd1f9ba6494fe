//! How the Douban listings are fetched: the route (proxy or mirror), the
//! addresses and query strings, and the items read from each API's answer.

use vstd::prelude::*;
use crate::douban::{
    drop_placeholder, kind_text, limit_or_default, start_or_default, DoubanCategoriesParams,
    DoubanItem, DoubanListParams, DoubanProxyConfig, DoubanProxyType, DoubanRecommendsParams,
};
use crate::numtext::{i32_to_string, int_text, is_ascii_digit};
use crate::text::{first_capture, regex_group1, str_eq, to_chars};
use crate::video::string_views;

verus! {

/// Where a listing request goes: the application's own local endpoint, or
/// Douban (through a proxy address, or one of the two CDN mirrors).
#[derive(Debug, Clone)]
pub enum DoubanRoute {
    Local,
    Remote { proxy_url: String, use_tencent_cdn: bool, use_ali_cdn: bool },
}

/// The remote route for a proxy setting; `direct` goes to Douban with the
/// configured proxy address.
pub open spec fn remote_route_spec(proxy_type: DoubanProxyType, proxy_url: Seq<char>) -> (Seq<char>, bool, bool) {
    match proxy_type {
        DoubanProxyType::CorsProxyZwei => ("https://ciao-cors.is-an.org/"@, false, false),
        DoubanProxyType::CmliussssCdnTencent => (Seq::empty(), true, false),
        DoubanProxyType::CmliussssCdnAli => (Seq::empty(), false, true),
        DoubanProxyType::CorsAnywhere => ("https://cors-anywhere.com/"@, false, false),
        DoubanProxyType::Custom => (proxy_url, false, false),
        DoubanProxyType::Direct => (proxy_url, false, false),
    }
}

/// The route of a listing request. The tag and recommendation listings
/// answer `direct` from the local endpoint (`direct_is_local`); the category
/// listing goes to Douban.
pub fn listing_route(config: &DoubanProxyConfig, direct_is_local: bool) -> (r: DoubanRoute)
    ensures
        match r {
            DoubanRoute::Local => direct_is_local && config.proxy_type == DoubanProxyType::Direct,
            DoubanRoute::Remote { proxy_url, use_tencent_cdn, use_ali_cdn } => !(direct_is_local
                && config.proxy_type == DoubanProxyType::Direct) && (proxy_url@, use_tencent_cdn, use_ali_cdn)
                == remote_route_spec(config.proxy_type, config.proxy_url@),
        },
{
    match config.proxy_type {
        DoubanProxyType::CorsProxyZwei => DoubanRoute::Remote {
            proxy_url: String::from_str("https://ciao-cors.is-an.org/"),
            use_tencent_cdn: false,
            use_ali_cdn: false,
        },
        DoubanProxyType::CmliussssCdnTencent => DoubanRoute::Remote {
            proxy_url: String::new(),
            use_tencent_cdn: true,
            use_ali_cdn: false,
        },
        DoubanProxyType::CmliussssCdnAli => DoubanRoute::Remote {
            proxy_url: String::new(),
            use_tencent_cdn: false,
            use_ali_cdn: true,
        },
        DoubanProxyType::CorsAnywhere => DoubanRoute::Remote {
            proxy_url: String::from_str("https://cors-anywhere.com/"),
            use_tencent_cdn: false,
            use_ali_cdn: false,
        },
        DoubanProxyType::Custom => DoubanRoute::Remote {
            proxy_url: config.proxy_url.clone(),
            use_tencent_cdn: false,
            use_ali_cdn: false,
        },
        DoubanProxyType::Direct => if direct_is_local {
            DoubanRoute::Local
        } else {
            DoubanRoute::Remote {
                proxy_url: config.proxy_url.clone(),
                use_tencent_cdn: false,
                use_ali_cdn: false,
            }
        },
    }
}

/// A proxy is used only for a given address and when no mirror is chosen.
pub fn uses_proxy(proxy_url: &str, use_tencent_cdn: bool, use_ali_cdn: bool) -> (r: bool)
    ensures
        r == (proxy_url@.len() > 0 && !use_tencent_cdn && !use_ali_cdn),
{
    !proxy_url.is_empty() && !use_tencent_cdn && !use_ali_cdn
}

/// The host of the mobile API for a route.
pub open spec fn mobile_host(use_tencent_cdn: bool, use_ali_cdn: bool) -> Seq<char> {
    if use_tencent_cdn {
        "https://m.douban.cmliussss.net"@
    } else if use_ali_cdn {
        "https://m.douban.cmliussss.com"@
    } else {
        "https://m.douban.com"@
    }
}

/// The address of the "recent hot" listing of a category.
pub open spec fn categories_url_spec(p: DoubanCategoriesParams, use_tencent_cdn: bool, use_ali_cdn: bool) -> Seq<char> {
    mobile_host(use_tencent_cdn, use_ali_cdn) + "/rexxar/api/v2/subject/recent_hot/"@ + kind_text(p.kind)
        + "?start="@ + int_text(start_or_default(p.page_start) as int) + "&limit="@ + int_text(
        limit_or_default(p.page_limit) as int,
    ) + "&category="@ + p.category@ + "&type="@ + p.type_@
}

pub fn categories_url(p: &DoubanCategoriesParams, use_tencent_cdn: bool, use_ali_cdn: bool) -> (r: String)
    ensures
        r@ == categories_url_spec(*p, use_tencent_cdn, use_ali_cdn),
{
    let mut u = if use_tencent_cdn {
        String::from_str("https://m.douban.cmliussss.net")
    } else if use_ali_cdn {
        String::from_str("https://m.douban.cmliussss.com")
    } else {
        String::from_str("https://m.douban.com")
    };
    u.append("/rexxar/api/v2/subject/recent_hot/");
    u.append(p.kind());
    u.append("?start=");
    u.append(i32_to_string(p.page_start()).as_str());
    u.append("&limit=");
    u.append(i32_to_string(p.page_limit()).as_str());
    u.append("&category=");
    u.append(p.category.as_str());
    u.append("&type=");
    u.append(p.type_.as_str());
    u
}

/// The address of the tag-search listing.
pub open spec fn list_url_spec(p: DoubanListParams, use_tencent_cdn: bool, use_ali_cdn: bool) -> Seq<char> {
    (if use_tencent_cdn {
        "https://movie.douban.cmliussss.net/j/search_subjects"@
    } else if use_ali_cdn {
        "https://movie.douban.cmliussss.com/j/search_subjects"@
    } else {
        "https://movie.douban.com/j/search_subjects"@
    }) + "?type="@ + p.type_@ + "&tag="@ + p.tag@ + "&sort=recommend&page_limit="@ + int_text(
        limit_or_default(p.page_limit) as int,
    ) + "&page_start="@ + int_text(start_or_default(p.page_start) as int)
}

pub fn list_url(p: &DoubanListParams, use_tencent_cdn: bool, use_ali_cdn: bool) -> (r: String)
    ensures
        r@ == list_url_spec(*p, use_tencent_cdn, use_ali_cdn),
{
    let mut u = if use_tencent_cdn {
        String::from_str("https://movie.douban.cmliussss.net/j/search_subjects")
    } else if use_ali_cdn {
        String::from_str("https://movie.douban.cmliussss.com/j/search_subjects")
    } else {
        String::from_str("https://movie.douban.com/j/search_subjects")
    };
    u.append("?type=");
    u.append(p.type_.as_str());
    u.append("&tag=");
    u.append(p.tag.as_str());
    u.append("&sort=recommend&page_limit=");
    u.append(i32_to_string(p.page_limit()).as_str());
    u.append("&page_start=");
    u.append(i32_to_string(p.page_start()).as_str());
    u
}

/// The local endpoint's address for a tag-search listing.
pub open spec fn local_list_url_spec(p: DoubanListParams) -> Seq<char> {
    "/api/douban?tag="@ + p.tag@ + "&type="@ + p.type_@ + "&pageSize="@ + int_text(
        limit_or_default(p.page_limit) as int,
    ) + "&pageStart="@ + int_text(start_or_default(p.page_start) as int)
}

pub fn local_list_url(p: &DoubanListParams) -> (r: String)
    ensures
        r@ == local_list_url_spec(*p),
{
    let mut u = String::from_str("/api/douban?tag=");
    u.append(p.tag.as_str());
    u.append("&type=");
    u.append(p.type_.as_str());
    u.append("&pageSize=");
    u.append(i32_to_string(p.page_limit()).as_str());
    u.append("&pageStart=");
    u.append(i32_to_string(p.page_start()).as_str());
    u
}

/// The local endpoint's address for a recommendation listing (parameters
/// as given).
pub open spec fn local_recommends_url_spec(p: DoubanRecommendsParams) -> Seq<char> {
    "/api/douban/recommends?kind="@ + kind_text(p.kind) + "&limit="@ + int_text(
        limit_or_default(p.page_limit) as int,
    ) + "&start="@ + int_text(start_or_default(p.page_start) as int) + "&category="@ + p.category@
        + "&format="@ + p.format@ + "&region="@ + p.region@ + "&year="@ + p.year@ + "&platform="@
        + p.platform@ + "&sort="@ + p.sort@ + "&label="@ + p.label@
}

pub fn local_recommends_url(p: &DoubanRecommendsParams) -> (r: String)
    ensures
        r@ == local_recommends_url_spec(*p),
{
    let mut u = String::from_str("/api/douban/recommends?kind=");
    u.append(p.kind());
    u.append("&limit=");
    u.append(i32_to_string(p.page_limit()).as_str());
    u.append("&start=");
    u.append(i32_to_string(p.page_start()).as_str());
    u.append("&category=");
    u.append(p.category.as_str());
    u.append("&format=");
    u.append(p.format.as_str());
    u.append("&region=");
    u.append(p.region.as_str());
    u.append("&year=");
    u.append(p.year.as_str());
    u.append("&platform=");
    u.append(p.platform.as_str());
    u.append("&sort=");
    u.append(p.sort.as_str());
    u.append("&label=");
    u.append(p.label.as_str());
    u
}

/// How long the category listing waits after its `failures`-th failed
/// attempt: 500 ms times the number of failures, and no further attempt
/// after the third.
pub fn categories_retry_delay_ms(failures: u32) -> (r: Option<u64>)
    requires
        failures >= 1,
    ensures
        r == if failures >= 3 {
            None::<u64>
        } else {
            Some((500 * failures) as u64)
        },
{
    if failures >= 3 {
        None
    } else {
        Some(500 * failures as u64)
    }
}

/// The ASCII digits of a text, in order.
pub open spec fn ascii_digits_of(s: Seq<char>) -> Seq<char>
    decreases s.len(),
{
    if s.len() == 0 {
        s
    } else if is_ascii_digit(s.last()) {
        ascii_digits_of(s.drop_last()).push(s.last())
    } else {
        ascii_digits_of(s.drop_last())
    }
}

pub fn digits_only(s: &str) -> (r: String)
    ensures
        r@ == ascii_digits_of(s@),
{
    let v = to_chars(s);
    let mut r = String::new();
    let mut i: usize = 0;
    while i < v.len()
        invariant
            i <= v.len(),
            v@ == s@,
            r@ == ascii_digits_of(v@.take(i as int)),
        decreases v.len() - i,
    {
        assert(v@.take(i + 1).drop_last() =~= v@.take(i as int));
        if '0' <= v[i] && v[i] <= '9' {
            crate::text::push_char(&mut r, v[i]);
        }
        i += 1;
    }
    assert(v@.take(v.len() as int) =~= v@);
    r
}

/// An item of the category listing's answer; the rating as the text that
/// the number prints as.
#[derive(Debug, Clone)]
pub struct CategoryApiItem {
    pub id: String,
    pub title: String,
    pub card_subtitle: String,
    pub pic_normal: Option<String>,
    pub rating_text: Option<String>,
}

/// The item a category listing entry gives: the normal-size picture, the
/// rating, and the digits of the subtitle as year.
pub open spec fn is_category_item(r: DoubanItem, x: CategoryApiItem) -> bool {
    &&& r.id == x.id
    &&& r.title == x.title
    &&& r.poster@ == match x.pic_normal {
        Some(p) => p@,
        None => Seq::empty(),
    }
    &&& r.rate@ == match x.rating_text {
        Some(t) => t@,
        None => Seq::empty(),
    }
    &&& r.year@ == ascii_digits_of(x.card_subtitle@)
}

pub fn category_item(x: CategoryApiItem) -> (r: DoubanItem)
    ensures
        is_category_item(r, x),
{
    let year = digits_only(x.card_subtitle.as_str());
    DoubanItem {
        id: x.id,
        title: x.title,
        poster: match x.pic_normal {
            Some(p) => p,
            None => String::new(),
        },
        rate: match x.rating_text {
            Some(t) => t,
            None => String::new(),
        },
        year,
    }
}

/// An item of the recommendation listing's answer; the rating as printed
/// with one decimal.
#[derive(Debug, Clone)]
pub struct RecommendApiItem {
    pub id: String,
    pub title: String,
    pub year: String,
    pub type_: String,
    pub pic_normal: Option<String>,
    pub pic_large: Option<String>,
    pub rating_text: Option<String>,
}

/// The poster of a recommendation: the normal picture, else the large one,
/// when not empty.
pub open spec fn recommend_poster(x: RecommendApiItem) -> Seq<char> {
    match (x.pic_normal, x.pic_large) {
        (Some(n), Some(l)) => if n@.len() > 0 {
            n@
        } else {
            l@
        },
        _ => Seq::empty(),
    }
}

/// Whether a recommendation is a film or a series (other kinds are dropped).
pub open spec fn is_film_or_series(x: RecommendApiItem) -> bool {
    x.type_@ == "movie"@ || x.type_@ == "tv"@
}

pub open spec fn is_recommend_item(r: DoubanItem, x: RecommendApiItem) -> bool {
    &&& r.id == x.id
    &&& r.title == x.title
    &&& r.poster@ == recommend_poster(x)
    &&& r.rate@ == match x.rating_text {
        Some(t) => t@,
        None => Seq::empty(),
    }
    &&& r.year == x.year
}

pub fn recommend_item(x: RecommendApiItem) -> (r: Option<DoubanItem>)
    ensures
        match r {
            Some(item) => is_film_or_series(x) && is_recommend_item(item, x),
            None => !is_film_or_series(x),
        },
{
    if !(str_eq(x.type_.as_str(), "movie") || str_eq(x.type_.as_str(), "tv")) {
        return None;
    }
    let poster = match (&x.pic_normal, &x.pic_large) {
        (Some(n), Some(l)) => if !n.as_str().is_empty() {
            n.clone()
        } else {
            l.clone()
        },
        _ => String::new(),
    };
    Some(
        DoubanItem {
            id: x.id,
            title: x.title,
            poster,
            rate: match x.rating_text {
                Some(t) => t,
                None => String::new(),
            },
            year: x.year,
        },
    )
}

/// A subject of the tag-search listing's answer.
#[derive(Debug, Clone)]
pub struct ListApiSubject {
    pub id: String,
    pub title: String,
    pub card_subtitle: String,
    pub cover: String,
    pub rate: String,
}

/// The pattern whose group 1 is a listing's year: four digits in a row.
pub const FOUR_DIGITS_PATTERN: &'static str = "(\\d{4})";

pub open spec fn is_list_item(r: DoubanItem, x: ListApiSubject) -> bool {
    &&& r.id == x.id
    &&& r.title == x.title
    &&& r.poster == x.cover
    &&& r.rate == x.rate
    &&& r.year@ == match regex_group1(FOUR_DIGITS_PATTERN@, x.card_subtitle@) {
        Some(y) => y,
        None => Seq::empty(),
    }
}

pub fn list_item(x: ListApiSubject) -> (r: DoubanItem)
    ensures
        is_list_item(r, x),
{
    let year = match first_capture(FOUR_DIGITS_PATTERN, x.card_subtitle.as_str()) {
        Some(y) => y,
        None => String::new(),
    };
    DoubanItem { id: x.id, title: x.title, poster: x.cover, rate: x.rate, year }
}

/// `serde_json::Error`, carried through as it is: nothing is read of it.
#[verifier::external_type_specification]
#[verifier::external_body]
pub struct ExJsonError(serde_json::Error);

/// Why a query string could not be built: a value could not be written as
/// JSON.
#[derive(Debug)]
pub enum QueryError {
    Json(serde_json::Error),
}

/// What `serde_json::to_string` writes for a string: the JSON string
/// literal, the text between quotes with each character escaped.
pub open spec fn json_string_literal(s: Seq<char>) -> Seq<char> {
    seq!['"'] + crate::text::json_escaped(s) + seq!['"']
}

/// Calls `serde_json::to_string` on a string slice. The contract says that
/// it succeeds (a string is written into an in-memory buffer, which cannot
/// fail; only maps with non-string keys or a failing `Serialize` impl make it
/// fail) and states the literal it writes.
#[verifier::external_body]
fn json_quote(s: &str) -> (r: Result<String, serde_json::Error>)
    ensures
        r is Ok,
        r matches Ok(t) ==> t@ == json_string_literal(s@),
{
    serde_json::to_string(s)
}

/// What `url::form_urlencoded::byte_serialize` writes for a text: the
/// `application/x-www-form-urlencoded` form of its UTF-8 bytes (space as
/// `+`; letters, digits and `*`, `-`, `.`, `_` kept; the rest
/// percent-encoded with upper-case digits).
pub open spec fn form_urlencoded_component(s: Seq<char>) -> Seq<char> {
    crate::text::form_encoded_bytes(vstd::utf8::encode_utf8(s))
}

/// Calls `url::form_urlencoded::byte_serialize` on the text's bytes and
/// collects the pieces. The contract states the text it writes.
#[verifier::external_body]
fn form_component(s: &str) -> (r: String)
    ensures
        r@ == form_urlencoded_component(s@),
{
    url::form_urlencoded::byte_serialize(s.as_bytes()).collect()
}

/// The parts joined with a separator between each two.
pub open spec fn join_with(parts: Seq<Seq<char>>, sep: Seq<char>) -> Seq<char>
    decreases parts.len(),
{
    if parts.len() == 0 {
        Seq::empty()
    } else if parts.len() == 1 {
        parts[0]
    } else {
        join_with(parts.drop_last(), sep) + sep + parts.last()
    }
}

pub fn join_strings(parts: &Vec<String>, sep: &str) -> (r: String)
    ensures
        r@ == join_with(string_views(parts@), sep@),
{
    let ghost pv = string_views(parts@);
    let mut r = String::new();
    let mut i: usize = 0;
    while i < parts.len()
        invariant
            i <= parts.len(),
            pv == string_views(parts@),
            r@ == join_with(pv.take(i as int), sep@),
        decreases parts.len() - i,
    {
        assert(pv.take(i + 1).drop_last() =~= pv.take(i as int));
        assert(pv.take(i + 1).last() == parts@[i as int]@);
        if i > 0 {
            r.append(sep);
        }
        r.append(parts[i].as_str());
        i += 1;
    }
    assert(pv.take(parts.len() as int) =~= pv);
    r
}

/// The character sequences of key/value pairs.
pub open spec fn pair_views(v: Seq<(String, String)>) -> Seq<(Seq<char>, Seq<char>)> {
    v.map_values(|p: (String, String)| (p.0@, p.1@))
}

/// A pair when its value is not empty.
pub open spec fn pair_if_set(key: Seq<char>, value: Seq<char>) -> Seq<(Seq<char>, Seq<char>)> {
    if value.len() > 0 {
        seq![(key, value)]
    } else {
        Seq::empty()
    }
}

/// A value when it is not empty.
pub open spec fn value_if_set(value: Seq<char>) -> Seq<Seq<char>> {
    if value.len() > 0 {
        seq![value]
    } else {
        Seq::empty()
    }
}

/// The filter a recommendation request selects: its category always, and
/// its format, label, region and year when set (placeholders dropped).
pub open spec fn selected_pairs_spec(p: DoubanRecommendsParams) -> Seq<(Seq<char>, Seq<char>)> {
    seq![("类型"@, drop_placeholder(p.category@, "all"@))] + pair_if_set(
        "形式"@,
        drop_placeholder(p.format@, "all"@),
    ) + pair_if_set("标签"@, drop_placeholder(p.label@, "all"@)) + pair_if_set(
        "地区"@,
        drop_placeholder(p.region@, "all"@),
    ) + pair_if_set("年份"@, drop_placeholder(p.year@, "all"@))
}

/// The tags of a recommendation request: its category, or its format when
/// it has no category, then its label, region, year and platform, each when
/// set.
pub open spec fn tags_spec(p: DoubanRecommendsParams) -> Seq<Seq<char>> {
    let category = drop_placeholder(p.category@, "all"@);
    let format = drop_placeholder(p.format@, "all"@);
    value_if_set(category) + (if category.len() == 0 {
        value_if_set(format)
    } else {
        Seq::empty()
    }) + value_if_set(drop_placeholder(p.label@, "all"@)) + value_if_set(
        drop_placeholder(p.region@, "all"@),
    ) + value_if_set(drop_placeholder(p.year@, "all"@)) + value_if_set(
        drop_placeholder(p.platform@, "all"@),
    )
}

/// A JSON object of string members, written compactly in the given order.
pub open spec fn json_object_spec(pairs: Seq<(Seq<char>, Seq<char>)>) -> Seq<char> {
    "{"@ + join_with(
        pairs.map_values(
            |kv: (Seq<char>, Seq<char>)| json_string_literal(kv.0) + ":"@ + json_string_literal(kv.1),
        ),
        ","@,
    ) + "}"@
}

/// The parameters of the recommendation query, `selected_json` being the
/// selected filter written as JSON.
pub open spec fn query_pairs_spec(p: DoubanRecommendsParams, selected_json: Seq<char>) -> Seq<
    (Seq<char>, Seq<char>),
> {
    seq![
        ("refresh"@, "0"@),
        ("start"@, int_text(start_or_default(p.page_start) as int)),
        ("count"@, int_text(limit_or_default(p.page_limit) as int)),
        ("selected_categories"@, selected_json),
        ("uncollect"@, "false"@),
        ("score_range"@, "0,10"@),
        ("tags"@, join_with(tags_spec(p), ","@)),
    ] + pair_if_set("sort"@, drop_placeholder(p.sort@, "T"@))
}

/// Parameters written as a form: `name=value` pairs, each part encoded,
/// separated by `&`.
pub open spec fn form_text_spec(pairs: Seq<(Seq<char>, Seq<char>)>) -> Seq<char> {
    join_with(
        pairs.map_values(
            |kv: (Seq<char>, Seq<char>)| form_urlencoded_component(kv.0) + "="@
                + form_urlencoded_component(kv.1),
        ),
        "&"@,
    )
}

fn push_pair_if_set(v: &mut Vec<(String, String)>, key: &str, value: &String)
    ensures
        pair_views(final(v)@) == pair_views(old(v)@) + pair_if_set(key@, value@),
{
    if !value.as_str().is_empty() {
        let ghost before = pair_views(v@);
        v.push((String::from_str(key), value.clone()));
        assert(pair_views(v@) =~= before + pair_if_set(key@, value@));
    } else {
        assert(pair_if_set(key@, value@) =~= Seq::<(Seq<char>, Seq<char>)>::empty());
        assert(pair_views(v@) =~= pair_views(v@) + pair_if_set(key@, value@));
    }
}

fn push_if_set(v: &mut Vec<String>, value: &String)
    ensures
        string_views(final(v)@) == string_views(old(v)@) + value_if_set(value@),
{
    if !value.as_str().is_empty() {
        let ghost before = string_views(v@);
        v.push(value.clone());
        assert(string_views(v@) =~= before + value_if_set(value@));
    } else {
        assert(string_views(v@) =~= string_views(v@) + value_if_set(value@));
    }
}

/// Writes parameters as a form.
pub fn encode_form(pairs: &Vec<(String, String)>) -> (r: String)
    ensures
        r@ == form_text_spec(pair_views(pairs@)),
{
    let mut parts: Vec<String> = Vec::new();
    let mut i: usize = 0;
    while i < pairs.len()
        invariant
            i <= pairs.len(),
            string_views(parts@) == pair_views(pairs@).take(i as int).map_values(
                |kv: (Seq<char>, Seq<char>)| form_urlencoded_component(kv.0) + "="@
                    + form_urlencoded_component(kv.1),
            ),
        decreases pairs.len() - i,
    {
        let mut part = form_component(pairs[i].0.as_str());
        part.append("=");
        part.append(form_component(pairs[i].1.as_str()).as_str());
        assert(pair_views(pairs@)[i as int] == (pairs@[i as int].0@, pairs@[i as int].1@));
        let ghost before = string_views(parts@);
        parts.push(part);
        assert(string_views(parts@) =~= before.push(part@));
        assert(string_views(parts@) =~= pair_views(pairs@).take(i + 1).map_values(
            |kv: (Seq<char>, Seq<char>)| form_urlencoded_component(kv.0) + "="@
                + form_urlencoded_component(kv.1),
        ));
        i += 1;
    }
    assert(pair_views(pairs@).take(pairs.len() as int) =~= pair_views(pairs@));
    join_strings(&parts, "&")
}

/// Writes string pairs as a compact JSON object, in order.
pub fn json_object(pairs: &Vec<(String, String)>) -> (r: Result<String, QueryError>)
    ensures
        r matches Ok(t) && t@ == json_object_spec(pair_views(pairs@)),
{
    let mut parts: Vec<String> = Vec::new();
    let mut i: usize = 0;
    while i < pairs.len()
        invariant
            i <= pairs.len(),
            string_views(parts@) == pair_views(pairs@).take(i as int).map_values(
                |kv: (Seq<char>, Seq<char>)| json_string_literal(kv.0) + ":"@ + json_string_literal(
                    kv.1,
                ),
            ),
        decreases pairs.len() - i,
    {
        let k = match json_quote(pairs[i].0.as_str()) {
            Ok(k) => k,
            Err(e) => {
                return Err(QueryError::Json(e));
            },
        };
        let v = match json_quote(pairs[i].1.as_str()) {
            Ok(v) => v,
            Err(e) => {
                return Err(QueryError::Json(e));
            },
        };
        let mut part = k;
        part.append(":");
        part.append(v.as_str());
        assert(pair_views(pairs@)[i as int] == (pairs@[i as int].0@, pairs@[i as int].1@));
        let ghost before = string_views(parts@);
        parts.push(part);
        assert(string_views(parts@) =~= before.push(part@));
        assert(string_views(parts@) =~= pair_views(pairs@).take(i + 1).map_values(
            |kv: (Seq<char>, Seq<char>)| json_string_literal(kv.0) + ":"@ + json_string_literal(kv.1),
        ));
        i += 1;
    }
    assert(pair_views(pairs@).take(pairs.len() as int) =~= pair_views(pairs@));
    let mut r = String::from_str("{");
    r.append(join_strings(&parts, ",").as_str());
    r.append("}");
    Ok(r)
}

impl DoubanRecommendsParams {
    /// The filter the request selects, as key/value pairs.
    pub fn selected_categories(&self) -> (r: Vec<(String, String)>)
        ensures
            pair_views(r@) == selected_pairs_spec(*self),
    {
        let (category, format, label, region, year, _platform, _sort) = self.normalized_params();
        let mut v: Vec<(String, String)> = Vec::new();
        v.push((String::from_str("类型"), category));
        assert(pair_views(v@) =~= seq![("类型"@, drop_placeholder(self.category@, "all"@))]);
        push_pair_if_set(&mut v, "形式", &format);
        push_pair_if_set(&mut v, "标签", &label);
        push_pair_if_set(&mut v, "地区", &region);
        push_pair_if_set(&mut v, "年份", &year);
        v
    }

    /// The tags of the request.
    pub fn tags(&self) -> (r: Vec<String>)
        ensures
            string_views(r@) == tags_spec(*self),
    {
        let (category, format, label, region, year, platform, _sort) = self.normalized_params();
        let mut v: Vec<String> = Vec::new();
        assert(string_views(v@) =~= Seq::<Seq<char>>::empty());
        push_if_set(&mut v, &category);
        if category.as_str().is_empty() {
            push_if_set(&mut v, &format);
        } else {
            assert(string_views(v@) =~= string_views(v@) + Seq::<Seq<char>>::empty());
        }
        push_if_set(&mut v, &label);
        push_if_set(&mut v, &region);
        push_if_set(&mut v, &year);
        push_if_set(&mut v, &platform);
        v
    }

    /// The query parameters, given the selected filter written as JSON.
    pub fn query_pairs(&self, selected_json: &str) -> (r: Vec<(String, String)>)
        ensures
            pair_views(r@) == query_pairs_spec(*self, selected_json@),
    {
        let (_c, _f, _l, _r, _y, _p, sort) = self.normalized_params();
        let tags = join_strings(&self.tags(), ",");
        let mut v: Vec<(String, String)> = Vec::new();
        v.push((String::from_str("refresh"), String::from_str("0")));
        v.push((String::from_str("start"), i32_to_string(self.page_start())));
        v.push((String::from_str("count"), i32_to_string(self.page_limit())));
        v.push((String::from_str("selected_categories"), String::from_str(selected_json)));
        v.push((String::from_str("uncollect"), String::from_str("false")));
        v.push((String::from_str("score_range"), String::from_str("0,10")));
        v.push((String::from_str("tags"), tags));
        assert(pair_views(v@) =~= seq![
            ("refresh"@, "0"@),
            ("start"@, int_text(start_or_default(self.page_start) as int)),
            ("count"@, int_text(limit_or_default(self.page_limit) as int)),
            ("selected_categories"@, selected_json@),
            ("uncollect"@, "false"@),
            ("score_range"@, "0,10"@),
            ("tags"@, join_with(tags_spec(*self), ","@)),
        ]);
        push_pair_if_set(&mut v, "sort", &sort);
        v
    }

    /// The query string of the recommendation listing: the parameters as a
    /// form, the selected filter as a JSON object. Writing strings as JSON
    /// does not fail, so it always succeeds.
    pub fn build_query_string(&self) -> (r: Result<String, QueryError>)
        ensures
            r matches Ok(q) && q@ == form_text_spec(
                query_pairs_spec(*self, json_object_spec(selected_pairs_spec(*self))),
            ),
    {
        let selected = self.selected_categories();
        let json = match json_object(&selected) {
            Ok(j) => j,
            Err(e) => {
                return Err(e);
            },
        };
        let pairs = self.query_pairs(json.as_str());
        Ok(encode_form(&pairs))
    }

    /// The full address of a recommendation listing.
    pub fn target_url(&self, use_tencent_cdn: bool, use_ali_cdn: bool) -> (r: Result<String, QueryError>)
        ensures
            r matches Ok(u) && u@ == crate::douban::recommend_host(use_tencent_cdn, use_ali_cdn)
                + kind_text(self.kind) + "/recommend"@ + "?"@ + form_text_spec(
                query_pairs_spec(*self, json_object_spec(selected_pairs_spec(*self))),
            ),
    {
        let mut u = self.base_url(use_tencent_cdn, use_ali_cdn);
        match self.build_query_string() {
            Ok(q) => {
                u.append("?");
                u.append(q.as_str());
                Ok(u)
            },
            Err(e) => Err(e),
        }
    }
}

} // verus!
