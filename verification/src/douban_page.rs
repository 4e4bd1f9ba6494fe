//! Paging and retries of the Douban browsing pages, and the page state
//! they answer with.

use vstd::prelude::*;
use crate::douban::{
    default_multi_level_selection, default_selection_spec, is_anime_daily_selection,
    is_anime_daily_spec, normalize_source_key, opt_text, prefers_list_api_spec, resolve_selected_weekday,
    retryable_error_spec, selection_view, should_prefer_list_api_for_recommends, source_key_spec,
    is_retryable_douban_error, DoubanItem, DoubanPageRequest, DoubanPageResponse,
    DoubanPageStateResponse, DoubanSourceCategory, LoadMoreDoubanPageRequest,
    ResolvedDoubanPageStateRequest, DoubanListParams, DoubanPageMode, page_mode_spec,
    resolve_douban_page_mode,
};
use crate::home::weekday_input_spec;
use crate::clock::is_weekday_name;
use crate::recommendation::{infer_category, inferred_category};
use crate::text::str_eq;

verus! {

/// The page window of a request: its page size (25 by default), its page
/// (0 by default, never negative) and the first item's offset.
#[derive(Debug, Clone, Copy, PartialEq, Eq, Structural)]
pub struct PageWindow {
    pub page_limit: i32,
    pub page: i32,
    pub page_start: i32,
}

/// `a * b` clamped to the `i32` range.
pub open spec fn saturating_product(a: int, b: int) -> int {
    if a * b > i32::MAX {
        i32::MAX as int
    } else if a * b < i32::MIN {
        i32::MIN as int
    } else {
        a * b
    }
}

pub open spec fn page_window_spec(page: Option<i32>, page_limit: Option<i32>) -> PageWindow {
    let limit = match page_limit {
        Some(v) => v,
        None => 25,
    };
    let p = match page {
        Some(v) => if v < 0 {
            0
        } else {
            v
        },
        None => 0,
    };
    PageWindow { page_limit: limit, page: p, page_start: saturating_product(p as int, limit as int) as i32 }
}

pub fn page_window(request: &DoubanPageRequest) -> (r: PageWindow)
    ensures
        r == page_window_spec(request.page, request.page_limit),
{
    let limit: i32 = match request.page_limit {
        Some(v) => v,
        None => 25,
    };
    let p: i32 = match request.page {
        Some(v) => if v < 0 {
            0
        } else {
            v
        },
        None => 0,
    };
    assert(-0x4000_0000_0000_0000 <= (p as int) * (limit as int) <= 0x4000_0000_0000_0000) by (nonlinear_arith)
        requires
            0 <= p <= i32::MAX,
            i32::MIN <= limit <= i32::MAX,
    ;
    let product: i64 = (p as i64) * (limit as i64);
    let start: i32 = if product > i32::MAX as i64 {
        i32::MAX
    } else if product < i32::MIN as i64 {
        i32::MIN
    } else {
        product as i32
    };
    PageWindow { page_limit: limit, page: p, page_start: start }
}

/// How many times a page request is tried: once for anime films (served by
/// the tag-search listing), twice for other anime, three times otherwise.
pub open spec fn max_attempts_spec(request: DoubanPageRequest) -> u32 {
    if prefers_list_api_spec(request.request_type@, request.primary_selection@) {
        1
    } else if request.request_type@ == "anime"@ {
        2
    } else {
        3
    }
}

pub fn max_fetch_attempts(request: &DoubanPageRequest) -> (r: u32)
    ensures
        r == max_attempts_spec(*request),
{
    if should_prefer_list_api_for_recommends(request) {
        1
    } else if str_eq(request.request_type.as_str(), "anime") {
        2
    } else {
        3
    }
}

/// After the `attempts`-th failure with message `error`: wait 120 ms per
/// attempt made and try again, unless the attempts are spent or the error
/// is not worth another try.
pub fn retry_delay_after(attempts: u32, max_attempts: u32, error: &str) -> (r: Option<u64>)
    ensures
        r == if attempts >= max_attempts || !retryable_error_spec(error@) {
            None::<u64>
        } else {
            Some((120 * attempts) as u64)
        },
{
    if attempts >= max_attempts || !is_retryable_douban_error(error) {
        None
    } else {
        Some(120 * attempts as u64)
    }
}

/// What a page request fetches first.
#[derive(Debug, Clone, Copy, PartialEq, Eq, Structural)]
pub enum PageFetch {
    /// The tag-search listing of a custom category.
    CustomList,
    /// The anime calendar of the selected weekday.
    BangumiDaily,
    /// Nothing: the anime calendar has a single page.
    NoMorePages,
    /// The tag-search listing, then, when its answer cannot be decoded, the
    /// recommendation listing.
    ListThenRecommends,
    /// The recommendation listing, then, when its answer cannot be decoded,
    /// the tag-search listing.
    RecommendsThenList,
    /// The "recent hot" category listing.
    Categories,
}

pub open spec fn page_fetch_spec(request: DoubanPageRequest) -> PageFetch {
    match page_mode_spec(request.request_type@, request.primary_selection@) {
        DoubanPageMode::Custom => PageFetch::CustomList,
        DoubanPageMode::AnimeDaily => if page_window_spec(request.page, request.page_limit).page > 0 {
            PageFetch::NoMorePages
        } else {
            PageFetch::BangumiDaily
        },
        DoubanPageMode::Recommends => if prefers_list_api_spec(request.request_type@, request.primary_selection@) {
            PageFetch::ListThenRecommends
        } else {
            PageFetch::RecommendsThenList
        },
        DoubanPageMode::Categories => PageFetch::Categories,
    }
}

/// What a page request fetches: by its listing mode, with the anime
/// calendar giving only the first page and anime films tried on the
/// tag-search listing first.
pub fn page_fetch(request: &DoubanPageRequest) -> (r: PageFetch)
    ensures
        r == page_fetch_spec(*request),
{
    match resolve_douban_page_mode(request) {
        DoubanPageMode::Custom => PageFetch::CustomList,
        DoubanPageMode::AnimeDaily => if page_window(request).page > 0 {
            PageFetch::NoMorePages
        } else {
            PageFetch::BangumiDaily
        },
        DoubanPageMode::Recommends => if should_prefer_list_api_for_recommends(request) {
            PageFetch::ListThenRecommends
        } else {
            PageFetch::RecommendsThenList
        },
        DoubanPageMode::Categories => PageFetch::Categories,
    }
}

/// The tag-search parameters of a custom category page: the secondary
/// selection is the tag, the primary one the type, over the page window.
pub fn custom_list_params(request: &DoubanPageRequest) -> (r: DoubanListParams)
    ensures
        r.tag == request.secondary_selection,
        r.type_ == request.primary_selection,
        r.page_limit == Some(page_window_spec(request.page, request.page_limit).page_limit),
        r.page_start == Some(page_window_spec(request.page, request.page_limit).page_start),
{
    let w = page_window(request);
    DoubanListParams {
        tag: request.secondary_selection.clone(),
        type_: request.primary_selection.clone(),
        page_limit: Some(w.page_limit),
        page_start: Some(w.page_start),
    }
}

/// A page has more after it when it came back full.
pub fn page_has_more(items: usize, page_limit: i32) -> (r: bool)
    ensures
        r == (items == page_limit as usize),
{
    items == #[verifier::truncate] (page_limit as usize)
}

/// The message of a failure whose fallback failed too.
pub fn fallback_error_text(error: &str, fallback_error: &str) -> (r: String)
    ensures
        r@ == error@ + "; fallback failed: "@ + fallback_error@,
{
    let mut s = String::from_str(error);
    s.append("; fallback failed: ");
    s.append(fallback_error);
    s
}

/// The id of the source category a page state selects: the requested one
/// when the filtered categories hold it, the first category when none is
/// requested.
pub open spec fn selected_category_spec(categories: Seq<DoubanSourceCategory>, type_id: Option<String>) -> Option<
    Seq<char>,
> {
    match type_id {
        Some(t) => if exists|i: int| 0 <= i < categories.len() && categories[i].type_id@ == t@ {
            Some(t@)
        } else {
            None
        },
        None => if categories.len() > 0 {
            Some(categories[0].type_id@)
        } else {
            None
        },
    }
}

pub fn selected_source_category(categories: &Vec<DoubanSourceCategory>, type_id: &Option<String>) -> (r:
    Option<String>)
    ensures
        match (r, selected_category_spec(categories@, *type_id)) {
            (Some(a), Some(b)) => a@ == b,
            (None, None) => true,
            _ => false,
        },
{
    match type_id {
        Some(t) => {
            let mut i: usize = 0;
            while i < categories.len()
                invariant
                    i <= categories.len(),
                    *type_id == Some(*t),
                    forall|j: int| 0 <= j < i ==> categories@[j].type_id@ != t@,
                decreases categories.len() - i,
            {
                if str_eq(categories[i].type_id.as_str(), t.as_str()) {
                    assert(categories@[i as int].type_id@ == t@);
                    return Some(categories[i].type_id.clone());
                }
                i += 1;
            }
            None
        },
        None => if categories.len() > 0 {
            Some(categories[0].type_id.clone())
        } else {
            None
        },
    }
}

/// The page state of a source-backed page: the source's categories and the
/// one selected, and no items yet (the page loads them by category).
pub fn source_page_state(resolved: ResolvedDoubanPageStateRequest, source_categories: Vec<DoubanSourceCategory>) -> (r:
    DoubanPageStateResponse)
    ensures
        r.request_type == resolved.request_type,
        r.source_key == resolved.source_key,
        r.primary_selection == resolved.primary_selection,
        r.secondary_selection == resolved.secondary_selection,
        r.multi_level_selection == resolved.multi_level_selection,
        r.selected_weekday == resolved.selected_weekday,
        r.source_categories == source_categories,
        match (r.selected_source_category_id, selected_category_spec(
            source_categories@,
            resolved.source_category_type_id,
        )) {
            (Some(a), Some(b)) => a@ == b,
            (None, None) => true,
            _ => false,
        },
        r.list@.len() == 0,
        r.has_more,
{
    let selected = selected_source_category(&source_categories, &resolved.source_category_type_id);
    DoubanPageStateResponse {
        request_type: resolved.request_type,
        source_key: resolved.source_key,
        primary_selection: resolved.primary_selection,
        secondary_selection: resolved.secondary_selection,
        multi_level_selection: resolved.multi_level_selection,
        selected_weekday: resolved.selected_weekday,
        source_categories,
        selected_source_category_id: selected,
        list: Vec::new(),
        has_more: true,
    }
}

/// The first page that an aggregated page state asks Douban for.
pub open spec fn is_state_page_request(r: DoubanPageRequest, resolved: ResolvedDoubanPageStateRequest) -> bool {
    &&& r.request_type == resolved.request_type
    &&& r.primary_selection == resolved.primary_selection
    &&& r.secondary_selection == resolved.secondary_selection
    &&& r.multi_level_selection matches Some(m) && selection_view(m@) == selection_view(
        resolved.multi_level_selection@,
    )
    &&& r.selected_weekday == Some(resolved.selected_weekday)
    &&& r.page == Some(0i32)
    &&& r.page_limit == Some(resolved.page_limit)
}

fn clone_selection(sel: &Vec<(String, String)>) -> (r: Vec<(String, String)>)
    ensures
        selection_view(r@) == selection_view(sel@),
{
    let mut r: Vec<(String, String)> = Vec::new();
    let mut i: usize = 0;
    while i < sel.len()
        invariant
            i <= sel.len(),
            selection_view(r@) == selection_view(sel@.take(i as int)),
        decreases sel.len() - i,
    {
        let ghost before = selection_view(r@);
        let k = sel[i].0.clone();
        let v = sel[i].1.clone();
        r.push((k, v));
        assert(selection_view(r@) =~= before.push((sel@[i as int].0@, sel@[i as int].1@)));
        assert(selection_view(sel@.take(i + 1)) =~= selection_view(sel@.take(i as int)).push(
            (sel@[i as int].0@, sel@[i as int].1@),
        ));
        i += 1;
    }
    assert(sel@.take(sel.len() as int) =~= sel@);
    r
}

pub fn state_page_request(resolved: &ResolvedDoubanPageStateRequest) -> (r: DoubanPageRequest)
    ensures
        is_state_page_request(r, *resolved),
{
    DoubanPageRequest {
        request_type: resolved.request_type.clone(),
        primary_selection: resolved.primary_selection.clone(),
        secondary_selection: resolved.secondary_selection.clone(),
        multi_level_selection: Some(clone_selection(&resolved.multi_level_selection)),
        selected_weekday: Some(resolved.selected_weekday.clone()),
        page: Some(0),
        page_limit: Some(resolved.page_limit),
    }
}

/// The page state of an aggregated page: the resolved request and the first
/// page Douban gave.
pub fn aggregated_page_state(resolved: ResolvedDoubanPageStateRequest, page: DoubanPageResponse) -> (r:
    DoubanPageStateResponse)
    ensures
        r.request_type == resolved.request_type,
        r.source_key == resolved.source_key,
        r.primary_selection == resolved.primary_selection,
        r.secondary_selection == resolved.secondary_selection,
        r.multi_level_selection == resolved.multi_level_selection,
        r.selected_weekday == resolved.selected_weekday,
        r.source_categories@.len() == 0,
        r.selected_source_category_id is None,
        r.list == page.list,
        r.has_more == page.has_more,
{
    DoubanPageStateResponse {
        request_type: resolved.request_type,
        source_key: resolved.source_key,
        primary_selection: resolved.primary_selection,
        secondary_selection: resolved.secondary_selection,
        multi_level_selection: resolved.multi_level_selection,
        selected_weekday: resolved.selected_weekday,
        source_categories: Vec::new(),
        selected_source_category_id: None,
        list: page.list,
        has_more: page.has_more,
    }
}

/// The Douban page that a "load more" asks for, or none for a source-backed
/// page (which answers an empty page with more to come). The selection
/// defaults to all filters open; the weekday of the daily anime page is
/// resolved, other pages keep the one given (empty by default).
pub fn load_more_plan(request: LoadMoreDoubanPageRequest) -> (r: Option<DoubanPageRequest>)
    ensures
        match r {
            None => source_key_spec(opt_text(request.source_key)) != "auto"@,
            Some(p) => {
                &&& source_key_spec(opt_text(request.source_key)) == "auto"@
                &&& p.request_type == request.request_type
                &&& p.primary_selection == request.primary_selection
                &&& p.secondary_selection == request.secondary_selection
                &&& p.page == Some(request.page)
                &&& p.page_limit == Some(
                    match request.page_limit {
                        Some(v) => v,
                        None => 25i32,
                    },
                )
                &&& p.multi_level_selection matches Some(m) && (match request.multi_level_selection {
                    Some(given) => m == given,
                    None => selection_view(m@) == default_selection_spec(),
                })
                &&& p.selected_weekday matches Some(w) && if request.request_type@ == "anime"@
                    && is_anime_daily_spec(request.primary_selection@) {
                    let sel = match request.selected_weekday {
                        Some(v) => Some(v@),
                        None => None,
                    };
                    if weekday_input_spec(sel, Seq::empty()).len() > 0 {
                        w@ == weekday_input_spec(sel, Seq::empty())
                    } else {
                        is_weekday_name(w@)
                    }
                } else {
                    w@ == match request.selected_weekday {
                        Some(v) => v@,
                        None => Seq::empty(),
                    }
                }
            },
        },
{
    let source_key = match &request.source_key {
        Some(k) => normalize_source_key(Some(k.as_str())),
        None => normalize_source_key(None),
    };
    if !str_eq(source_key.as_str(), "auto") {
        return None;
    }
    let page_limit: i32 = match request.page_limit {
        Some(v) => v,
        None => 25,
    };
    let multi_level_selection = match request.multi_level_selection {
        Some(m) => m,
        None => default_multi_level_selection(),
    };
    let selected_weekday = if str_eq(request.request_type.as_str(), "anime")
        && is_anime_daily_selection(request.primary_selection.as_str()) {
        match &request.selected_weekday {
            Some(v) => resolve_selected_weekday(Some(v.as_str())),
            None => resolve_selected_weekday(None),
        }
    } else {
        match request.selected_weekday {
            Some(v) => v,
            None => String::new(),
        }
    };
    Some(
        DoubanPageRequest {
            request_type: request.request_type,
            primary_selection: request.primary_selection,
            secondary_selection: request.secondary_selection,
            multi_level_selection: Some(multi_level_selection),
            selected_weekday: Some(selected_weekday),
            page: Some(request.page),
            page_limit: Some(page_limit),
        },
    )
}

/// The content-pool category of a page's items: by the page's type, else
/// the one inferred for Douban items.
pub open spec fn pool_category_spec(request_type: Seq<char>) -> Seq<char> {
    if request_type == "movie"@ {
        "Movie"@
    } else if request_type == "tv"@ {
        "TvSeries"@
    } else if request_type == "anime"@ {
        "Anime"@
    } else if request_type == "show"@ {
        "Variety"@
    } else {
        match inferred_category("豆瓣"@) {
            Some(c) => c,
            None => Seq::empty(),
        }
    }
}

pub fn pool_category(request_type: &str, title: &str) -> (r: String)
    ensures
        r@ == pool_category_spec(request_type@),
{
    if str_eq(request_type, "movie") {
        String::from_str("Movie")
    } else if str_eq(request_type, "tv") {
        String::from_str("TvSeries")
    } else if str_eq(request_type, "anime") {
        String::from_str("Anime")
    } else if str_eq(request_type, "show") {
        String::from_str("Variety")
    } else {
        match infer_category(title, "豆瓣") {
            Some(c) => c,
            None => String::new(),
        }
    }
}

/// Whether a page item goes into the content pool (it has a title), and
/// whether its picture's cache entry is labelled (it has a poster).
pub fn pool_sync_actions(item: &DoubanItem) -> (r: (bool, bool))
    ensures
        r == (item.title@.len() > 0, item.title@.len() > 0 && item.poster@.len() > 0),
{
    let keep = !item.title.as_str().is_empty();
    (keep, keep && !item.poster.as_str().is_empty())
}

} // verus!
