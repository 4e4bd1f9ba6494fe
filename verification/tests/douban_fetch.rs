use quantumtv::douban::{
    DoubanCategoriesParams, DoubanListParams, DoubanProxyConfig, DoubanProxyType,
    DoubanRecommendsParams, Kind,
};
use quantumtv::douban_fetch::{
    categories_retry_delay_ms, categories_url, category_item, digits_only, encode_form, join_strings,
    json_object,
    list_item, list_url, listing_route, local_list_url, local_recommends_url, recommend_item,
    uses_proxy, CategoryApiItem, DoubanRoute, ListApiSubject, RecommendApiItem,
};

fn recommend_params(category: &str, format: &str, label: &str, sort: &str) -> DoubanRecommendsParams {
    DoubanRecommendsParams {
        kind: Kind::Tv,
        page_limit: Some(25),
        page_start: Some(50),
        category: category.to_string(),
        format: format.to_string(),
        label: label.to_string(),
        region: "all".to_string(),
        year: "2024".to_string(),
        platform: "all".to_string(),
        sort: sort.to_string(),
    }
}

#[test]
fn routes_follow_the_proxy_setting() {
    let config = |t: DoubanProxyType| DoubanProxyConfig { proxy_type: t, proxy_url: "http://p".to_string() };
    assert!(matches!(listing_route(&config(DoubanProxyType::Direct), true), DoubanRoute::Local));
    match listing_route(&config(DoubanProxyType::Direct), false) {
        DoubanRoute::Remote { proxy_url, use_tencent_cdn, use_ali_cdn } => {
            assert_eq!(proxy_url, "http://p");
            assert!(!use_tencent_cdn && !use_ali_cdn);
        }
        DoubanRoute::Local => panic!("categories go to Douban"),
    }
    match listing_route(&config(DoubanProxyType::CmliussssCdnAli), true) {
        DoubanRoute::Remote { proxy_url, use_tencent_cdn, use_ali_cdn } => {
            assert_eq!(proxy_url, "");
            assert!(!use_tencent_cdn && use_ali_cdn);
        }
        DoubanRoute::Local => panic!("mirror"),
    }
    match listing_route(&config(DoubanProxyType::CorsAnywhere), true) {
        DoubanRoute::Remote { proxy_url, .. } => assert_eq!(proxy_url, "https://cors-anywhere.com/"),
        DoubanRoute::Local => panic!("proxy"),
    }
    assert!(uses_proxy("http://p", false, false));
    assert!(!uses_proxy("http://p", true, false));
    assert!(!uses_proxy("", false, false));
}

#[test]
fn listing_addresses() {
    let p = DoubanCategoriesParams {
        kind: Kind::Movie,
        category: "热门".to_string(),
        type_: "全部".to_string(),
        page_limit: None,
        page_start: Some(40),
    };
    assert_eq!(
        categories_url(&p, true, false),
        "https://m.douban.cmliussss.net/rexxar/api/v2/subject/recent_hot/movie?start=40&limit=20&category=热门&type=全部"
    );
    let l = DoubanListParams { tag: "热门".to_string(), type_: "tv".to_string(), page_limit: Some(25), page_start: None };
    assert_eq!(
        list_url(&l, false, false),
        "https://movie.douban.com/j/search_subjects?type=tv&tag=热门&sort=recommend&page_limit=25&page_start=0"
    );
    assert_eq!(local_list_url(&l), "/api/douban?tag=热门&type=tv&pageSize=25&pageStart=0");
    assert_eq!(
        local_recommends_url(&recommend_params("all", "综艺", "all", "T")),
        "/api/douban/recommends?kind=tv&limit=25&start=50&category=all&format=综艺&region=all&year=2024&platform=all&sort=T&label=all"
    );
}

#[test]
fn recommend_query_lists_filters_and_tags() {
    let p = recommend_params("all", "综艺", "真人秀", "U");
    let pairs = p.selected_categories();
    let keys: Vec<&str> = pairs.iter().map(|(k, _)| k.as_str()).collect();
    assert_eq!(keys, vec!["类型", "形式", "标签", "年份"]);
    assert_eq!(pairs[0].1, "");
    assert_eq!(p.tags(), vec!["综艺".to_string(), "真人秀".to_string(), "2024".to_string()]);
    let query = p.build_query_string().expect("query");
    assert!(query.starts_with("refresh=0&start=50&count=25&selected_categories="));
    assert!(query.contains("&uncollect=false&score_range=0%2C10&tags="));
    assert!(query.ends_with("&sort=U"));
    let selected: String = query
        .split('&')
        .find(|part| part.starts_with("selected_categories="))
        .map(|part| part["selected_categories=".len()..].to_string())
        .unwrap();
    let decoded: String = url::form_urlencoded::parse(format!("v={}", selected).as_bytes())
        .next()
        .map(|(_, v)| v.into_owned())
        .unwrap();
    let value: serde_json::Value = serde_json::from_str(&decoded).expect("json object");
    assert_eq!(value["类型"], "");
    assert_eq!(value["形式"], "综艺");
    assert_eq!(value["年份"], "2024");
    let plain = recommend_params("动画", "all", "all", "T").build_query_string().unwrap();
    assert!(!plain.contains("sort="));
}

#[test]
fn api_items_become_listing_items() {
    let c = category_item(CategoryApiItem {
        id: "1".to_string(),
        title: "T".to_string(),
        card_subtitle: "2024 / 美国 / 剧情".to_string(),
        pic_normal: Some("n".to_string()),
        rating_text: Some("8.5".to_string()),
    });
    assert_eq!(c.year, "2024");
    assert_eq!(c.poster, "n");
    assert_eq!(c.rate, "8.5");
    let r = recommend_item(RecommendApiItem {
        id: "2".to_string(),
        title: "R".to_string(),
        year: "2023".to_string(),
        type_: "tv".to_string(),
        pic_normal: Some(String::new()),
        pic_large: Some("large".to_string()),
        rating_text: None,
    })
    .expect("series kept");
    assert_eq!(r.poster, "large");
    assert_eq!(r.rate, "");
    assert!(recommend_item(RecommendApiItem {
        id: "3".to_string(),
        title: "B".to_string(),
        year: "2023".to_string(),
        type_: "book".to_string(),
        pic_normal: None,
        pic_large: None,
        rating_text: None,
    })
    .is_none());
    let l = list_item(ListApiSubject {
        id: "4".to_string(),
        title: "L".to_string(),
        card_subtitle: "中国 1999 年".to_string(),
        cover: "c".to_string(),
        rate: "7.0".to_string(),
    });
    assert_eq!(l.year, "1999");
    assert_eq!(digits_only("a1b2"), "12");
    assert_eq!(join_strings(&vec!["a".to_string(), "b".to_string()], ","), "a,b");
    assert_eq!(categories_retry_delay_ms(1), Some(500));
    assert_eq!(categories_retry_delay_ms(2), Some(1000));
    assert_eq!(categories_retry_delay_ms(3), None);
}

fn pair(k: &str, v: &str) -> (String, String) {
    (k.to_string(), v.to_string())
}

#[test]
fn form_and_json_writers() {
    assert_eq!(encode_form(&vec![pair("a", "1 2"), pair("b", "x&y")]), "a=1+2&b=x%26y");
    assert_eq!(encode_form(&Vec::new()), "");
    assert_eq!(json_object(&vec![pair("k", "v\"q"), pair("类型", "")]).unwrap(), "{\"k\":\"v\\\"q\",\"类型\":\"\"}");
    assert_eq!(json_object(&Vec::new()).unwrap(), "{}");
}

#[test]
fn recommend_target_url_joins_host_and_query() {
    let p = recommend_params("all", "综艺", "真人秀", "U");
    let url = p.target_url(false, false).unwrap();
    let query = p.build_query_string().unwrap();
    assert_eq!(url, format!("https://m.douban.com/rexxar/api/v2/tv/recommend?{}", query));
    let pairs = p.query_pairs("{}");
    assert_eq!(pairs[0], pair("refresh", "0"));
    assert_eq!(pairs[1], pair("start", "50"));
    assert_eq!(pairs[2], pair("count", "25"));
    assert_eq!(pairs[3], pair("selected_categories", "{}"));
    assert_eq!(pairs.last().unwrap(), &pair("sort", "U"));
}

#[test]
fn writers_escape_as_their_crates_do() {
    assert_eq!(
        json_object(&vec![pair("a\u{1}\u{8}\t\n\u{c}\r/", "é\\")]).unwrap(),
        "{\"a\\u0001\\b\\t\\n\\f\\r/\":\"é\\\\\"}"
    );
    assert_eq!(encode_form(&vec![pair("a*~", "é")]), "a*%7E=%C3%A9");
}
