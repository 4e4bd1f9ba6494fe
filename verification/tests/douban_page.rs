use quantumtv::douban::{
    default_multi_level_selection, DoubanItem, DoubanPageRequest, DoubanPageResponse,
    DoubanSourceCategory, LoadMoreDoubanPageRequest, ResolvedDoubanPageStateRequest,
};
use quantumtv::douban_page::{
    aggregated_page_state, custom_list_params, fallback_error_text, page_fetch, PageFetch, load_more_plan, max_fetch_attempts, page_has_more,
    page_window, pool_category, pool_sync_actions, retry_delay_after, selected_source_category,
    source_page_state, state_page_request,
};

fn request(request_type: &str, primary: &str, page: Option<i32>, page_limit: Option<i32>) -> DoubanPageRequest {
    DoubanPageRequest {
        request_type: request_type.to_string(),
        primary_selection: primary.to_string(),
        secondary_selection: "全部".to_string(),
        multi_level_selection: None,
        selected_weekday: None,
        page,
        page_limit,
    }
}

fn category(id: &str) -> DoubanSourceCategory {
    DoubanSourceCategory { type_id: id.to_string(), type_label: format!("c{}", id), type_pid: None }
}

fn resolved(type_id: Option<&str>) -> ResolvedDoubanPageStateRequest {
    ResolvedDoubanPageStateRequest {
        request_type: "movie".to_string(),
        source_key: "src".to_string(),
        primary_selection: "热门".to_string(),
        secondary_selection: "全部".to_string(),
        multi_level_selection: default_multi_level_selection(),
        selected_weekday: String::new(),
        source_category_type_id: type_id.map(|t| t.to_string()),
        page_limit: 30,
    }
}

#[test]
fn page_windows_and_attempts() {
    let w = page_window(&request("movie", "热门", Some(2), None));
    assert_eq!((w.page_limit, w.page, w.page_start), (25, 2, 50));
    let w = page_window(&request("movie", "热门", Some(-3), Some(10)));
    assert_eq!((w.page, w.page_start), (0, 0));
    let w = page_window(&request("movie", "热门", Some(i32::MAX), Some(25)));
    assert_eq!(w.page_start, i32::MAX);
    assert_eq!(max_fetch_attempts(&request("anime", "剧场版", None, None)), 1);
    assert_eq!(max_fetch_attempts(&request("anime", "番剧", None, None)), 2);
    assert_eq!(max_fetch_attempts(&request("tv", "热门", None, None)), 3);
    assert_eq!(retry_delay_after(1, 3, "Network request failed: x"), Some(120));
    assert_eq!(retry_delay_after(2, 3, "JSON parse error"), Some(240));
    assert_eq!(retry_delay_after(3, 3, "Network request failed: x"), None);
    assert_eq!(retry_delay_after(1, 3, "HTTP error! Status: 403"), None);
    assert!(page_has_more(25, 25));
    assert!(!page_has_more(3, 25));
    assert_eq!(fallback_error_text("a", "b"), "a; fallback failed: b");
}

#[test]
fn page_states() {
    let cats = vec![category("1"), category("2")];
    assert_eq!(selected_source_category(&cats, &Some("2".to_string())), Some("2".to_string()));
    assert_eq!(selected_source_category(&cats, &Some("9".to_string())), None);
    assert_eq!(selected_source_category(&cats, &None), Some("1".to_string()));
    let state = source_page_state(resolved(None), cats);
    assert_eq!(state.selected_source_category_id, Some("1".to_string()));
    assert!(state.list.is_empty());
    assert!(state.has_more);
    let r = resolved(None);
    let first = state_page_request(&r);
    assert_eq!(first.page, Some(0));
    assert_eq!(first.page_limit, Some(30));
    let page = DoubanPageResponse {
        list: vec![DoubanItem {
            id: "1".to_string(),
            title: "t".to_string(),
            poster: "p".to_string(),
            rate: "9".to_string(),
            year: "2024".to_string(),
        }],
        has_more: false,
    };
    let agg = aggregated_page_state(r, page);
    assert_eq!(agg.list.len(), 1);
    assert!(agg.source_categories.is_empty());
    assert!(!agg.has_more);
}

#[test]
fn load_more_plans() {
    let more = LoadMoreDoubanPageRequest {
        request_type: "tv".to_string(),
        source_key: Some("  ".to_string()),
        primary_selection: "热门".to_string(),
        secondary_selection: "全部".to_string(),
        multi_level_selection: None,
        selected_weekday: None,
        source_category_type_id: None,
        page: 3,
        page_limit: None,
    };
    let plan = load_more_plan(more.clone()).expect("aggregated");
    assert_eq!(plan.page, Some(3));
    assert_eq!(plan.page_limit, Some(25));
    assert_eq!(plan.selected_weekday, Some(String::new()));
    assert_eq!(plan.multi_level_selection.unwrap().len(), 6);
    let mut source = more;
    source.source_key = Some("src".to_string());
    assert!(load_more_plan(source).is_none());
}

#[test]
fn pool_categories() {
    assert_eq!(pool_category("tv", "x"), "TvSeries");
    assert_eq!(pool_category("custom", "x"), "Movie");
    let item = DoubanItem {
        id: "1".to_string(),
        title: "t".to_string(),
        poster: String::new(),
        rate: String::new(),
        year: String::new(),
    };
    assert_eq!(pool_sync_actions(&item), (true, false));
}

#[test]
fn page_fetch_follows_the_listing_mode() {
    assert_eq!(page_fetch(&request("custom", "movie", Some(0), None)), PageFetch::CustomList);
    assert_eq!(page_fetch(&request("anime", "每日放送", Some(0), None)), PageFetch::BangumiDaily);
    assert_eq!(page_fetch(&request("anime", "每日放送", Some(2), None)), PageFetch::NoMorePages);
    assert_eq!(page_fetch(&request("anime", "剧场版", Some(0), None)), PageFetch::ListThenRecommends);
    assert_eq!(page_fetch(&request("anime", "番剧", Some(0), None)), PageFetch::RecommendsThenList);
    assert_eq!(page_fetch(&request("tv", "全部", Some(0), None)), PageFetch::RecommendsThenList);
    assert_eq!(page_fetch(&request("movie", "热门", Some(0), None)), PageFetch::Categories);
}

#[test]
fn custom_list_params_use_the_page_window() {
    let mut r = request("custom", "movie", Some(3), Some(20));
    r.secondary_selection = "华语".to_string();
    let p = custom_list_params(&r);
    assert_eq!(p.tag, "华语");
    assert_eq!(p.type_, "movie");
    assert_eq!((p.page_limit, p.page_start), (Some(20), Some(60)));
}
