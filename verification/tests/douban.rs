use quantumtv::clock::current_weekday_en;
use quantumtv::douban::{
    anime_selection_prefers_tv, build_bangumi_daily_list, build_categories_params, ensure_success,
    extract_multi_value, get_douban_defaults, get_douban_proxy_config, is_all_primary_selection,
    is_all_secondary_selection, is_anime_daily_selection, is_anime_theatrical_selection, kind_str,
    normalize_source_category, resolve_douban_page_state_request_at,
    stringify_source_category_value, trim_to_option, DoubanDefaultsRequest, DoubanListParams,
    DoubanProxyType, DoubanRecommendsParams,
    build_recommends_fallback_list_params, build_recommends_params, category_keywords_for_request_type,
    default_multi_level_selection, filter_source_categories_by_request_type, is_body_decode_error,
    is_retryable_douban_error, matches_category_keywords, normalize_source_key,
    resolve_douban_defaults, resolve_douban_page_mode, resolve_douban_page_state_request,
    resolve_selected_weekday, should_cache_douban_request, should_prefer_list_api_for_recommends,
    DoubanCategoriesParams, DoubanCustomCategory, DoubanItem, DoubanPageMode, DoubanPageRequest,
    DoubanPageResponse, DoubanPageStateRequest, DoubanResult, DoubanSourceCategory, Kind,
    ANIME_DAILY_SELECTION, ANIME_SERIES_SELECTION, ANIME_THEATRICAL_SELECTION,
};
use quantumtv::bangumi::{BangumiCalendarData, BangumiImages, BangumiRating, Items, Weekday};
use quantumtv::video::{JsonScalar, SourceCategoryItem};

fn page_request(request_type: &str, primary: &str, secondary: &str) -> DoubanPageRequest {
    DoubanPageRequest {
        request_type: request_type.to_string(),
        primary_selection: primary.to_string(),
        secondary_selection: secondary.to_string(),
        multi_level_selection: None,
        selected_weekday: None,
        page: Some(0),
        page_limit: Some(25),
    }
}

fn state_request(request_type: &str) -> DoubanPageStateRequest {
    DoubanPageStateRequest {
        request_type: request_type.to_string(),
        source_key: None,
        primary_selection: None,
        secondary_selection: None,
        multi_level_selection: None,
        selected_weekday: None,
        custom_categories: None,
        source_category_type_id: None,
        page_limit: None,
    }
}

fn category(id: &str, name: &str) -> SourceCategoryItem {
    SourceCategoryItem {
        type_id: JsonScalar::Text(id.to_string()),
        type_label: name.to_string(),
        type_pid: None,
    }
}

#[test]
fn resolve_douban_page_mode_custom() {
    let request = page_request("custom", "movie", "tag");
    assert_eq!(resolve_douban_page_mode(&request), DoubanPageMode::Custom);
}

#[test]
fn resolve_douban_page_mode_anime_daily() {
    let request = page_request("anime", ANIME_DAILY_SELECTION, "全部");
    assert_eq!(resolve_douban_page_mode(&request), DoubanPageMode::AnimeDaily);
}

#[test]
fn resolve_douban_page_mode_recommends() {
    let request = page_request("show", "全部", "show");
    assert_eq!(resolve_douban_page_mode(&request), DoubanPageMode::Recommends);
}

#[test]
fn resolve_douban_page_mode_movie_all_is_categories() {
    let request = page_request("movie", "全部", "全部");
    assert_eq!(resolve_douban_page_mode(&request), DoubanPageMode::Categories);
}

#[test]
fn build_recommends_params_for_show() {
    let request = page_request("show", "全部", "show");
    let params = build_recommends_params(&request, 25, 0);
    assert_eq!(params.kind, Kind::Tv);
    assert_eq!(params.format, "综艺");
}

#[test]
fn resolve_douban_page_mode_anime_non_daily_is_recommends() {
    let request = page_request("anime", ANIME_SERIES_SELECTION, "全部");
    assert_eq!(resolve_douban_page_mode(&request), DoubanPageMode::Recommends);
}

#[test]
fn build_recommends_params_for_anime_series_uses_tv_format() {
    let request = page_request("anime", ANIME_SERIES_SELECTION, "全部");
    let params = build_recommends_params(&request, 25, 0);
    assert_eq!(params.kind, Kind::Tv);
    assert_eq!(params.format, "电视剧");
    assert_eq!(params.category, "动画");
}

#[test]
fn build_recommends_params_for_anime_theatrical_uses_movie_format() {
    let request = page_request("anime", ANIME_THEATRICAL_SELECTION, "全部");
    let params = build_recommends_params(&request, 25, 0);
    assert_eq!(params.kind, Kind::Movie);
    assert_eq!(params.format, "");
    assert_eq!(params.category, "动画");
}

#[test]
fn build_recommends_fallback_list_params_anime_theatrical_uses_movie_type() {
    let request = page_request("anime", ANIME_THEATRICAL_SELECTION, "全部");
    let params = build_recommends_fallback_list_params(&request, 25, 0);
    assert_eq!(params.type_, "movie");
    assert_eq!(params.tag, "动画");
}

#[test]
fn should_prefer_list_api_for_recommends_anime_theatrical() {
    let request = page_request("anime", ANIME_THEATRICAL_SELECTION, "全部");
    assert!(should_prefer_list_api_for_recommends(&request));
}

#[test]
fn should_not_prefer_list_api_for_recommends_anime_series() {
    let request = page_request("anime", ANIME_SERIES_SELECTION, "全部");
    assert!(!should_prefer_list_api_for_recommends(&request));
}

#[test]
fn resolve_douban_defaults_movie() {
    let defaults = resolve_douban_defaults("movie", None, None);
    assert_eq!(defaults.primary_selection, "热门");
    assert_eq!(defaults.secondary_selection, "全部");
    assert!(defaults.cache_enabled);
    assert!(defaults.require_secondary);
}

#[test]
fn resolve_douban_defaults_anime() {
    let defaults = resolve_douban_defaults("anime", None, None);
    assert_eq!(defaults.primary_selection, "每日放送");
    assert_eq!(defaults.secondary_selection, "全部");
    assert!(defaults.cache_enabled);
    assert!(!defaults.require_secondary);
}

#[test]
fn resolve_douban_defaults_custom_prefers_movie() {
    let categories = vec![
        DoubanCustomCategory {
            name: None,
            category_type: "tv".to_string(),
            query: "q1".to_string(),
            disabled: None,
        },
        DoubanCustomCategory {
            name: None,
            category_type: "movie".to_string(),
            query: "q2".to_string(),
            disabled: None,
        },
    ];
    let defaults = resolve_douban_defaults("custom", Some(&categories), Some("fallback"));
    assert_eq!(defaults.primary_selection, "movie");
    assert_eq!(defaults.secondary_selection, "q2");
    assert!(!defaults.cache_enabled);
}

#[test]
fn resolve_selected_weekday_prefers_trimmed_value() {
    let resolved = resolve_selected_weekday(Some("  Wed  "));
    assert_eq!(resolved, "Wed");
}

#[test]
fn resolve_selected_weekday_falls_back_on_empty() {
    let fallback = current_weekday_en().to_string();
    let resolved = resolve_selected_weekday(Some("   "));
    assert_eq!(resolved, fallback);
}

#[test]
fn build_recommends_fallback_list_params_movie_all() {
    let request = page_request("movie", "全部", "全部");
    let params = build_recommends_fallback_list_params(&request, 25, 0);
    assert_eq!(params.type_, "movie");
    assert_eq!(params.tag, "热门");
}

#[test]
fn build_recommends_fallback_list_params_anime_defaults_to_animation_tag() {
    let request = page_request("anime", "全部", "tv");
    let params = build_recommends_fallback_list_params(&request, 25, 0);
    assert_eq!(params.type_, "tv");
    assert_eq!(params.tag, "动画");
}

#[test]
fn is_body_decode_error_matches_reqwest_text() {
    assert!(is_body_decode_error("JSON parse error: error decoding response body"));
    assert!(!is_body_decode_error("network timeout"));
}

#[test]
fn is_retryable_douban_error_covers_decode_and_json_parse() {
    assert!(is_retryable_douban_error(
        "JSON parse error (ce=none, ct=application/json; charset=utf-8): error decoding response body"
    ));
    assert!(is_retryable_douban_error("JSON parse error: invalid type"));
    assert!(is_retryable_douban_error("Network request failed: timeout"));
    assert!(!is_retryable_douban_error("HTTP error! Status: 403"));
}

#[test]
fn should_cache_tv_when_primary_is_all() {
    let mut request = page_request("tv", "全部", "tv");
    request.multi_level_selection = Some(default_multi_level_selection());
    assert!(should_cache_douban_request(&request));
}

#[test]
fn should_cache_movie_when_secondary_is_all() {
    let request = page_request("movie", "最新", "全部");
    assert!(should_cache_douban_request(&request));
}

#[test]
fn should_not_cache_movie_when_secondary_is_not_all_and_not_default() {
    let request = page_request("movie", "热门", "韩国");
    assert!(!should_cache_douban_request(&request));
}

#[test]
fn should_cache_anime_non_daily_selection() {
    let mut request = page_request("anime", "番剧", "全部");
    request.multi_level_selection = Some(default_multi_level_selection());
    assert!(should_cache_douban_request(&request));
}

#[test]
fn should_not_cache_anime_daily_selection() {
    let mut request = page_request("anime", ANIME_DAILY_SELECTION, "全部");
    request.multi_level_selection = Some(default_multi_level_selection());
    request.selected_weekday = Some("Mon".to_string());
    assert!(!should_cache_douban_request(&request));
}

#[test]
fn test_resolve_douban_page_state_request_movie_defaults() {
    let resolved = resolve_douban_page_state_request(state_request("movie"));
    assert_eq!(resolved.request_type, "movie");
    assert_eq!(resolved.source_key, "auto");
    assert_eq!(resolved.primary_selection, "热门");
    assert_eq!(resolved.secondary_selection, "全部");
    assert_eq!(resolved.page_limit, 25);
}

#[test]
fn test_resolve_douban_page_state_request_tv_defaults() {
    let resolved = resolve_douban_page_state_request(state_request("tv"));
    assert_eq!(resolved.request_type, "tv");
    assert_eq!(resolved.source_key, "auto");
    assert_eq!(resolved.primary_selection, "最近热门");
    assert_eq!(resolved.secondary_selection, "tv");
}

#[test]
fn test_resolve_douban_page_state_request_anime_defaults() {
    let resolved = resolve_douban_page_state_request(state_request("anime"));
    assert_eq!(resolved.request_type, "anime");
    assert_eq!(resolved.primary_selection, "每日放送");
    assert_eq!(resolved.secondary_selection, "全部");
    assert_eq!(resolved.selected_weekday, current_weekday_en());
}

#[test]
fn test_resolve_douban_page_state_request_show_defaults() {
    let resolved = resolve_douban_page_state_request(state_request("show"));
    assert_eq!(resolved.request_type, "show");
    assert_eq!(resolved.primary_selection, "最近热门");
    assert_eq!(resolved.secondary_selection, "show");
}

#[test]
fn test_filter_source_categories_by_request_type_movie() {
    let categories = vec![category("1", "电影"), category("2", "电视剧"), category("3", "动漫")];
    let filtered = filter_source_categories_by_request_type("movie", &categories);
    assert_eq!(filtered.len(), 1);
    assert_eq!(filtered[0].type_label, "电影");
}

#[test]
fn test_filter_source_categories_by_request_type_tv() {
    let categories = vec![category("1", "电影"), category("2", "电视剧"), category("3", "美剧")];
    let filtered = filter_source_categories_by_request_type("tv", &categories);
    assert_eq!(filtered.len(), 2);
    assert!(filtered.iter().any(|c| c.type_label == "电视剧"));
    assert!(filtered.iter().any(|c| c.type_label == "美剧"));
}

#[test]
fn test_filter_source_categories_by_request_type_anime() {
    let categories = vec![category("1", "电影"), category("2", "动漫"), category("3", "动画")];
    let filtered = filter_source_categories_by_request_type("anime", &categories);
    assert_eq!(filtered.len(), 2);
    assert!(filtered.iter().any(|c| c.type_label == "动漫"));
    assert!(filtered.iter().any(|c| c.type_label == "动画"));
}

#[test]
fn test_filter_source_categories_fallback_generic() {
    let categories = vec![category("1", "影视"), category("2", "剧集"), category("3", "漫画")];
    let filtered = filter_source_categories_by_request_type("movie", &categories);
    assert!(filtered.len() > 0);
    assert!(filtered.iter().any(|c| c.type_label.contains("影")));
}

#[test]
fn test_filter_source_categories_limit() {
    let mut categories = Vec::new();
    for i in 0..20 {
        categories.push(category(&i.to_string(), &format!("电影{}", i)));
    }
    let filtered = filter_source_categories_by_request_type("movie", &categories);
    assert!(filtered.len() <= 15);
}

#[test]
fn test_matches_category_keywords() {
    assert!(matches_category_keywords("电影", &["电影", "影片"]));
    assert!(matches_category_keywords("4K电影", &["电影", "影片"]));
    assert!(matches_category_keywords("蓝光影片", &["电影", "影片"]));
    assert!(!matches_category_keywords("电视剧", &["电影", "影片"]));
}

#[test]
fn test_normalize_source_key() {
    assert_eq!(normalize_source_key(None), "auto");
    assert_eq!(normalize_source_key(Some("")), "auto");
    assert_eq!(normalize_source_key(Some("  ")), "auto");
    assert_eq!(normalize_source_key(Some("source1")), "source1");
    assert_eq!(normalize_source_key(Some("  source1  ")), "source1");
}

#[test]
fn test_category_keywords_for_request_type() {
    let movie_keywords = category_keywords_for_request_type("movie");
    assert!(movie_keywords.contains(&"电影"));
    assert!(movie_keywords.contains(&"影片"));
    let tv_keywords = category_keywords_for_request_type("tv");
    assert!(tv_keywords.contains(&"电视剧"));
    assert!(tv_keywords.contains(&"剧集"));
    let anime_keywords = category_keywords_for_request_type("anime");
    assert!(anime_keywords.contains(&"动漫"));
    assert!(anime_keywords.contains(&"动画"));
    let show_keywords = category_keywords_for_request_type("show");
    assert!(show_keywords.contains(&"综艺"));
    assert!(show_keywords.contains(&"真人秀"));
}

#[test]
fn douban_item_creation() {
    let item = DoubanItem {
        id: "12345".to_string(),
        title: "Test Title".to_string(),
        poster: "http://example.com/poster.jpg".to_string(),
        rate: "8.5".to_string(),
        year: "2024".to_string(),
    };
    assert_eq!(item.id, "12345");
    assert_eq!(item.title, "Test Title");
    assert!((item.rate.parse::<f64>().unwrap() - 8.5).abs() < 0.01);
}

#[test]
fn douban_result_creation() {
    let items = vec![
        DoubanItem {
            id: "1".to_string(),
            title: "Item 1".to_string(),
            poster: "url1".to_string(),
            rate: "8.0".to_string(),
            year: "2024".to_string(),
        },
        DoubanItem {
            id: "2".to_string(),
            title: "Item 2".to_string(),
            poster: "url2".to_string(),
            rate: "7.5".to_string(),
            year: "2023".to_string(),
        },
    ];
    let result = DoubanResult { code: 0, message: "success".to_string(), list: items };
    assert_eq!(result.code, 0);
    assert_eq!(result.message, "success");
    assert_eq!(result.list.len(), 2);
}

#[test]
fn douban_page_request_creation() {
    let request = DoubanPageRequest {
        request_type: "movie".to_string(),
        primary_selection: "hot".to_string(),
        secondary_selection: "all".to_string(),
        multi_level_selection: None,
        selected_weekday: None,
        page: Some(0),
        page_limit: Some(25),
    };
    assert_eq!(request.request_type, "movie");
    assert_eq!(request.page, Some(0));
    assert_eq!(request.page_limit, Some(25));
}

#[test]
fn douban_page_response_creation() {
    let items = vec![DoubanItem {
        id: "1".to_string(),
        title: "Item".to_string(),
        poster: "url".to_string(),
        rate: "8.0".to_string(),
        year: "2024".to_string(),
    }];
    let response = DoubanPageResponse { list: items, has_more: true };
    assert_eq!(response.list.len(), 1);
    assert!(response.has_more);
}

#[test]
fn douban_source_category_equality() {
    let cat1 = DoubanSourceCategory {
        type_id: "1".to_string(),
        type_label: "电影".to_string(),
        type_pid: None,
    };
    let cat2 = DoubanSourceCategory {
        type_id: "1".to_string(),
        type_label: "电影".to_string(),
        type_pid: None,
    };
    assert_eq!(cat1, cat2);
}

#[test]
fn douban_source_category_with_parent_id() {
    let cat = DoubanSourceCategory {
        type_id: "2".to_string(),
        type_label: "爱情".to_string(),
        type_pid: Some("1".to_string()),
    };
    assert_eq!(cat.type_id, "2");
    assert_eq!(cat.type_label, "爱情");
    assert_eq!(cat.type_pid, Some("1".to_string()));
}

#[test]
fn category_keywords_variation_coverage() {
    let tv_keywords = category_keywords_for_request_type("tv");
    assert!(tv_keywords.contains(&"电视剧"));
    assert!(tv_keywords.len() > 2);
    let anime_keywords = category_keywords_for_request_type("anime");
    assert!(anime_keywords.contains(&"动漫"));
    assert!(anime_keywords.len() > 2);
    let movie_keywords = category_keywords_for_request_type("movie");
    assert!(movie_keywords.contains(&"电影"));
    assert!(movie_keywords.len() > 2);
    let show_keywords = category_keywords_for_request_type("show");
    assert!(show_keywords.contains(&"综艺"));
    assert!(show_keywords.len() > 2);
    let unknown_keywords = category_keywords_for_request_type("unknown");
    assert!(unknown_keywords.is_empty());
}

#[test]
fn normalize_source_key_comprehensive() {
    assert_eq!(normalize_source_key(None), "auto");
    assert_eq!(normalize_source_key(Some("")), "auto");
    assert_eq!(normalize_source_key(Some("   ")), "auto");
    assert_eq!(normalize_source_key(Some("\t\n")), "auto");
    assert_eq!(normalize_source_key(Some("source1")), "source1");
    assert_eq!(normalize_source_key(Some("  source1")), "source1");
    assert_eq!(normalize_source_key(Some("source1  ")), "source1");
    assert_eq!(normalize_source_key(Some("  source1  ")), "source1");
    assert_eq!(normalize_source_key(Some("source-1")), "source-1");
    assert_eq!(normalize_source_key(Some("source_1")), "source_1");
}

#[test]
fn matches_category_keywords_comprehensive() {
    assert!(matches_category_keywords("电影", &["电影"]));
    assert!(matches_category_keywords("电视剧", &["电视剧"]));
    assert!(matches_category_keywords("高清电影", &["电影"]));
    assert!(matches_category_keywords("喜剧电视剧", &["电视剧"]));
    assert!(matches_category_keywords("电影", &["电视剧", "电影"]));
    assert!(!matches_category_keywords("电视剧", &["电影"]));
    assert!(!matches_category_keywords("动漫", &["电视剧"]));
}

#[test]
fn douban_categories_params_creation() {
    let params = DoubanCategoriesParams {
        kind: Kind::Movie,
        category: "冒险".to_string(),
        type_: "热门".to_string(),
        page_limit: Some(20),
        page_start: Some(0),
    };
    assert_eq!(params.kind, Kind::Movie);
    assert_eq!(params.category, "冒险");
    assert_eq!(params.page_limit, Some(20));
}

#[test]
fn anime_selection_predicates() {
    assert!(is_anime_daily_selection(" 每日放送 "));
    assert!(!is_anime_daily_selection("番剧"));
    assert!(anime_selection_prefers_tv("番剧"));
    assert!(anime_selection_prefers_tv("热门"));
    assert!(anime_selection_prefers_tv(" TV "));
    assert!(!anime_selection_prefers_tv("剧场版"));
    assert!(is_anime_theatrical_selection("剧场版"));
    assert!(is_anime_theatrical_selection("Movie"));
    assert!(!is_anime_theatrical_selection("番剧"));
    assert!(is_all_primary_selection(" 全部 "));
    assert!(!is_all_primary_selection("热门"));
    assert!(is_all_secondary_selection("movie", "ALL"));
    assert!(is_all_secondary_selection("tv", "Tv"));
    assert!(!is_all_secondary_selection("movie", "tv"));
    assert!(is_all_secondary_selection("show", "show"));
    assert!(!is_all_secondary_selection("show", "  "));
    assert_eq!(kind_str(Kind::Tv), "tv");
    assert_eq!(kind_str(Kind::Movie), "movie");
}

#[test]
fn params_defaults_and_validation() {
    let p = DoubanCategoriesParams::new(Kind::Movie, "热门", "全部", None, None);
    assert_eq!((p.page_limit(), p.page_start(), p.kind()), (20, 0, "movie"));
    assert!(p.validate().is_ok());
    let bad = DoubanCategoriesParams::new(Kind::Tv, "", "tv", None, None);
    assert_eq!(bad.validate(), Err("category 和 type 参数不能为空".to_string()));
    let bad = DoubanCategoriesParams::new(Kind::Tv, "a", "tv", Some(101), None);
    assert_eq!(bad.validate(), Err("page_limit 必须在 1-100 之间".to_string()));
    let bad = DoubanCategoriesParams::new(Kind::Tv, "a", "tv", Some(10), Some(-1));
    assert_eq!(bad.validate(), Err("page_start 不能小于 0".to_string()));
    let list = DoubanListParams {
        tag: "热门".to_string(),
        type_: "anime".to_string(),
        page_limit: Some(10),
        page_start: Some(0),
    };
    assert_eq!(list.validate(), Err("type 参数必须是 tv 或 movie".to_string()));
    let list = DoubanListParams { type_: "tv".to_string(), ..list };
    assert!(list.validate().is_ok());
    assert_eq!((list.page_limit(), list.page_start()), (10, 0));
}

#[test]
fn recommends_params_urls_and_placeholders() {
    let p = DoubanRecommendsParams {
        kind: Kind::Tv,
        page_limit: None,
        page_start: Some(40),
        category: "all".to_string(),
        format: "电视剧".to_string(),
        label: "all".to_string(),
        region: "华语".to_string(),
        year: "all".to_string(),
        platform: "all".to_string(),
        sort: "T".to_string(),
    };
    assert_eq!((p.page_limit(), p.page_start(), p.kind()), (20, 40, "tv"));
    let n = p.normalized_params();
    assert_eq!(n.0, "");
    assert_eq!(n.1, "电视剧");
    assert_eq!(n.3, "华语");
    assert_eq!(n.6, "");
    assert_eq!(p.base_url(false, false), "https://m.douban.com/rexxar/api/v2/tv/recommend");
    assert_eq!(p.base_url(true, true), "https://m.douban.cmliussss.net/rexxar/api/v2/tv/recommend");
    assert_eq!(p.base_url(false, true), "https://m.douban.cmliussss.com/rexxar/api/v2/tv/recommend");
}

#[test]
fn proxy_config_prefers_explicit_values() {
    let c = get_douban_proxy_config(Some("direct".to_string()), Some("custom".to_string()), None, None);
    assert_eq!(c.proxy_type, DoubanProxyType::Direct);
    assert_eq!(c.proxy_url, "");
    let c = get_douban_proxy_config(None, Some("custom".to_string()), None, Some("http://p".to_string()));
    assert_eq!(c.proxy_type, DoubanProxyType::Custom);
    assert_eq!(c.proxy_url, "http://p");
    let c = get_douban_proxy_config(None, None, Some("http://a".to_string()), Some("http://b".to_string()));
    assert_eq!(c.proxy_type, DoubanProxyType::CmliussssCdnTencent);
    assert_eq!(c.proxy_url, "http://a");
    assert_eq!(DoubanProxyType::from("cors-anywhere"), DoubanProxyType::CorsAnywhere);
    assert_eq!(DoubanProxyType::from_name("unknown"), DoubanProxyType::CmliussssCdnTencent);
}

#[test]
fn categories_params_follow_request_type() {
    let p = build_categories_params(&page_request("tv", "最近热门", "tv_domestic"), 25, 50);
    assert_eq!(p.kind, Kind::Tv);
    assert_eq!(p.category, "tv");
    assert_eq!(p.type_, "tv_domestic");
    assert_eq!((p.page_limit, p.page_start), (Some(25), Some(50)));
    let p = build_categories_params(&page_request("movie", "热门", "全部"), 25, 0);
    assert_eq!(p.kind, Kind::Movie);
    assert_eq!(p.category, "热门");
    assert_eq!(p.type_, "全部");
}

#[test]
fn ensure_success_and_selection_values() {
    let ok = DoubanResult { code: 200, message: "ok".to_string(), list: Vec::new() };
    assert_eq!(ensure_success(ok).unwrap().len(), 0);
    let failed = DoubanResult { code: 500, message: "boom".to_string(), list: Vec::new() };
    assert_eq!(ensure_success(failed).unwrap_err(), "boom");
    let selection = vec![
        ("type".to_string(), "喜剧".to_string()),
        ("region".to_string(), "华语".to_string()),
        ("type".to_string(), "动作".to_string()),
    ];
    assert_eq!(extract_multi_value(Some(&selection), "type"), "喜剧");
    assert_eq!(extract_multi_value(Some(&selection), "year"), "");
    assert_eq!(extract_multi_value(None, "type"), "");
    assert_eq!(trim_to_option(Some("  x ")), Some("x".to_string()));
    assert_eq!(trim_to_option(Some("   ")), None);
    assert_eq!(trim_to_option(None), None);
}

#[test]
fn source_category_values_are_written_out() {
    assert_eq!(stringify_source_category_value(&JsonScalar::Number("7".to_string())), Some("7".to_string()));
    assert_eq!(stringify_source_category_value(&JsonScalar::Bool(false)), Some("false".to_string()));
    assert_eq!(stringify_source_category_value(&JsonScalar::Other), None);
    let item = SourceCategoryItem {
        type_id: JsonScalar::Number("12".to_string()),
        type_label: "动作片".to_string(),
        type_pid: Some(JsonScalar::Other),
    };
    let c = normalize_source_category(&item).unwrap();
    assert_eq!(c.type_id, "12");
    assert_eq!(c.type_label, "动作片");
    assert_eq!(c.type_pid, None);
    let unnamed = SourceCategoryItem { type_id: JsonScalar::Other, ..item };
    assert!(normalize_source_category(&unnamed).is_none());
}

#[test]
fn defaults_for_types() {
    let d = get_douban_defaults(DoubanDefaultsRequest {
        request_type: "tv".to_string(),
        custom_categories: None,
        fallback_secondary: None,
    });
    assert_eq!(d.primary_selection, "最近热门");
    assert_eq!(d.secondary_selection, "tv");
    assert!(d.cache_enabled);
    assert!(d.require_secondary);
    let d = get_douban_defaults(DoubanDefaultsRequest {
        request_type: "custom".to_string(),
        custom_categories: Some(Vec::new()),
        fallback_secondary: Some("x".to_string()),
    });
    assert_eq!(d.primary_selection, "");
    assert_eq!(d.secondary_selection, "x");
    assert!(!d.cache_enabled);
}

#[test]
fn page_state_request_uses_today_for_daily_anime() {
    let mut request = state_request("anime");
    request.primary_selection = Some("每日放送".to_string());
    let r = resolve_douban_page_state_request_at(request, "Tue");
    assert_eq!(r.source_key, "auto");
    assert_eq!(r.primary_selection, "每日放送");
    assert_eq!(r.selected_weekday, "Tue");
    assert_eq!(r.page_limit, 25);
    let mut request = state_request("movie");
    request.source_key = Some("s1".to_string());
    request.page_limit = Some(10);
    let r = resolve_douban_page_state_request_at(request, "Tue");
    assert_eq!(r.source_key, "s1");
    assert_eq!(r.primary_selection, "");
    assert_eq!(r.selected_weekday, "");
    assert_eq!(r.page_limit, 10);
}

fn calendar_item(id: i64, name: &str, name_cn: &str) -> Items {
    Items {
        id,
        name: name.to_string(),
        name_cn: name_cn.to_string(),
        rating: Some(BangumiRating { score: Some("7.5".to_string()) }),
        air_date: Some("2024-04-06".to_string()),
        images: Some(BangumiImages {
            large: None,
            common: Some("http://img/c.jpg".to_string()),
            medium: None,
            small: None,
            grid: None,
        }),
    }
}

#[test]
fn bangumi_daily_list_maps_listed_items() {
    let data = vec![
        BangumiCalendarData { weekday: Some(Weekday { en: "Mon".to_string() }), items: None },
        BangumiCalendarData {
            weekday: Some(Weekday { en: "Tue".to_string() }),
            items: Some(vec![calendar_item(0, "skip", ""), calendar_item(5, "Orig", "译名")]),
        },
    ];
    let list = build_bangumi_daily_list(data, "Tue").unwrap();
    assert_eq!(list.len(), 1);
    assert_eq!(list[0].id, "5");
    assert_eq!(list[0].title, "译名");
    assert_eq!(list[0].poster, "http://img/c.jpg");
    assert_eq!(list[0].rate, "7.5");
    assert_eq!(list[0].year, "2024");
    let data = vec![BangumiCalendarData { weekday: None, items: None }];
    assert_eq!(build_bangumi_daily_list(data, "Tue").unwrap_err(), "没有找到对应的日期");
}
