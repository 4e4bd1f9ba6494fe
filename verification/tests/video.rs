use quantumtv::video::{
    binary_fetch_plan, choose_fallback_candidates, detail_url, fallback_year, filter_query_results,
    first_listed_item, initial_play_record, is_ts_segment_url, lookup_source,
    needs_douban_image_referer, needs_douban_referer, prefetch_retry_policy, probe_episode_index,
    probe_episode_url, record_search_type, search_url, should_cache_fetched, should_test_candidates,
    source_lookup_key, source_search_results, videos_by_type_query, clean_html_tags, decide_tick_timing,
    derive_search_type_filter, distinct_sources, drop_entry, fallback_title, fetch_retry_policy,
    filter_sources_for_fallback, finalize_search_results, first_retry_state, is_playable_m3u8,
    is_yellow_type, next_retry_step, next_segment_urls, normalize_episode_index,
    normalize_search_key, normalize_title_for_match, old_play_record_key, parse_episodes,
    parse_search_type_filter, play_record_key, player_search_query, prepare_play_record,
    reorder_by_source_rank, reorder_results_with_best, resized_dimensions,
    resolve_initial_playback_state, resolve_source_change, search_result_from_item,
    select_play_source, source_url, ApiSearchItem, ApiSite, CacheStats, FetchOutcome, HttpMethod,
    InitializePlayerByQueryRequest, JsonScalar, PlayProgress, PlayRecordInfo, PlayRecordMeta,
    ResumeChoice, RetryStep, SearchResult, SearchTypeFilter, SkipConfigInfo,
};

fn make_result(title: &str, year: &str, episodes_len: usize, source: &str, id: &str) -> SearchResult {
    SearchResult {
        id: id.to_string(),
        title: title.to_string(),
        poster: String::new(),
        episodes: vec!["http://example.com/1.m3u8".to_string(); episodes_len],
        episodes_titles: Vec::new(),
        source: source.to_string(),
        source_name: "TestSource".to_string(),
        class: None,
        year: Some(year.to_string()),
        desc: None,
        type_label: None,
        douban_id: None,
    }
}

#[test]
fn normalize_episode_index_clamps_and_converts() {
    assert_eq!(normalize_episode_index(1, 10), 0);
    assert_eq!(normalize_episode_index(0, 10), 0);
    assert_eq!(normalize_episode_index(-2, 10), 0);
    assert_eq!(normalize_episode_index(5, 3), 2);
    assert_eq!(normalize_episode_index(3, 3), 2);
    assert_eq!(normalize_episode_index(1, 0), 0);
}

#[test]
fn resolve_initial_playback_state_prefers_record() {
    let record = PlayRecordInfo { episode_index: 4, play_time: 120 };
    let resolved = resolve_initial_playback_state(Some(&record));
    assert_eq!(resolved.0, 4);
    assert_eq!(resolved.1, Some(120));
    let resolved_none = resolve_initial_playback_state(None);
    assert_eq!(resolved_none.0, 0);
    assert_eq!(resolved_none.1, None);
}

#[test]
fn derive_search_type_filter_detects_tv_and_movie() {
    assert_eq!(derive_search_type_filter(Some(10)), Some(SearchTypeFilter::Tv));
    assert_eq!(derive_search_type_filter(Some(1)), Some(SearchTypeFilter::Movie));
    assert_eq!(derive_search_type_filter(Some(0)), None);
    assert_eq!(derive_search_type_filter(None), None);
}

#[test]
fn filter_sources_for_fallback_matches_title_year_and_type() {
    let results = vec![
        make_result("Test Show", "2020", 12, "s1", "1"),
        make_result("Test Show", "2019", 12, "s2", "2"),
        make_result("Test Movie", "2020", 1, "s3", "3"),
        make_result("TestShow", "2020", 12, "s4", "4"),
    ];
    let filtered = filter_sources_for_fallback(&results, "Test Show", Some("2020"), Some(SearchTypeFilter::Tv));
    assert_eq!(filtered.len(), 2);
    let sources: Vec<String> = filtered.iter().map(|item| item.source.clone()).collect();
    assert!(sources.contains(&"s1".to_string()));
    assert!(sources.contains(&"s4".to_string()));
    let filtered_no_year = filter_sources_for_fallback(&results, "Test Show", None, Some(SearchTypeFilter::Tv));
    assert_eq!(filtered_no_year.len(), 3);
}

#[test]
fn choose_fallback_candidates_returns_original_when_filtered_empty() {
    let results = vec![make_result("Movie A", "2022", 1, "s1", "1"), make_result("Movie A", "2022", 1, "s2", "2")];
    let candidates = choose_fallback_candidates(results.clone(), "Movie A", Some("2022"), Some(SearchTypeFilter::Tv));
    assert_eq!(candidates.len(), results.len());
}

#[test]
fn parse_search_type_filter_maps_strings() {
    assert_eq!(parse_search_type_filter(Some("tv")), Some(SearchTypeFilter::Tv));
    assert_eq!(parse_search_type_filter(Some("movie")), Some(SearchTypeFilter::Movie));
    assert_eq!(parse_search_type_filter(Some("other")), None);
    assert_eq!(parse_search_type_filter(None), None);
}

#[test]
fn reorder_results_with_best_places_best_first() {
    let best = make_result("Best", "2024", 1, "s1", "1");
    let other = make_result("Other", "2024", 1, "s2", "2");
    let results = vec![other.clone(), best.clone()];
    let ordered = reorder_results_with_best(&best, results);
    assert_eq!(ordered.len(), 2);
    assert_eq!(ordered[0].source, best.source);
    assert_eq!(ordered[0].id, best.id);
    assert_eq!(ordered[1].source, other.source);
}

#[test]
fn resolve_source_change_uses_current_play_time_when_no_resume() {
    let detail = make_result("Show", "2024", 3, "s1", "1");
    let current_play_time = 12.5f64;
    let resume_time: Option<f64> = None;
    let resolved = resolve_source_change(&detail, 1, resume_time.unwrap_or(0.0) > 0.0, current_play_time > 1.0);
    assert_eq!(resolved.target_episode_index, 1);
    assert_eq!(resolved.resume, ResumeChoice::Current);
}

#[test]
fn resolve_source_change_keeps_existing_resume_time() {
    let detail = make_result("Show", "2024", 3, "s1", "1");
    let resume_time = Some(35.0f64);
    let resolved = resolve_source_change(&detail, 0, resume_time.unwrap_or(0.0) > 0.0, 20.0f64 > 1.0);
    assert_eq!(resolved.target_episode_index, 0);
    assert_eq!(resolved.resume, ResumeChoice::Requested);
}

#[test]
fn resolve_source_change_clears_when_index_out_of_range() {
    let detail = make_result("Show", "2024", 2, "s1", "1");
    let resolved = resolve_source_change(&detail, 5, 15.0f64 > 0.0, 30.0f64 > 1.0);
    assert_eq!(resolved.target_episode_index, 0);
    assert_eq!(resolved.resume, ResumeChoice::Start);
}

#[test]
fn resolve_source_change_with_clamping() {
    let detail = make_result("Show", "2024", 3, "s1", "1");
    let resolved = resolve_source_change(&detail, 100, false, 10.0f64 > 1.0);
    assert_eq!(resolved.target_episode_index, 0);
    assert_eq!(resolved.resume, ResumeChoice::Start);
    let resolved = resolve_source_change(&detail, -5, false, 10.0f64 > 1.0);
    assert_eq!(resolved.target_episode_index, 0);
}

fn progress(play_time: f64, total_time: f64, search_title: Option<&str>) -> PlayProgress {
    PlayProgress {
        source: "s1".to_string(),
        id: "1".to_string(),
        title: "Title".to_string(),
        source_name: "Source".to_string(),
        year: "2024".to_string(),
        cover: "cover".to_string(),
        episode_index: 0,
        total_episodes: 10,
        play_time_secs: play_time.floor() as i32,
        total_time_secs: total_time.floor() as i32,
        search_title: search_title.map(|s| s.to_string()),
    }
}

#[test]
fn save_play_progress_inserts_one_based_episode_index() {
    let row = prepare_play_record(progress(12.7, 120.2, Some("search")), 123).expect("saved");
    assert_eq!(row.key, "s1+1");
    assert_eq!(row.episode_index, 1);
    assert_eq!(row.play_time, 12);
    assert_eq!(row.total_time, 120);
    assert_eq!(row.search_title, "search");
}

#[test]
fn save_play_progress_skips_when_too_short() {
    assert!(prepare_play_record(progress(0.5, 120.0, None), 123).is_none());
}

#[test]
fn decide_tick_timing_updates_timestamps_when_threshold_met() {
    let decision = decide_tick_timing(20_000, 14_000, 5_000, 18_000);
    assert!(decision.should_save_progress);
    assert!(decision.should_check_skip);
    assert_eq!(decision.next_last_save_at_ms, 20_000);
    assert_eq!(decision.next_last_skip_check_at_ms, 20_000);
}

#[test]
fn decide_tick_timing_keeps_timestamps_when_not_due() {
    let decision = decide_tick_timing(20_000, 19_000, 5_000, 19_200);
    assert!(!decision.should_save_progress);
    assert!(!decision.should_check_skip);
    assert_eq!(decision.next_last_save_at_ms, 19_000);
    assert_eq!(decision.next_last_skip_check_at_ms, 19_200);
}

#[test]
fn cache_stats_creation() {
    let stats = CacheStats { entry_count: 100, weighted_size: 50000 };
    assert_eq!(stats.entry_count, 100);
    assert_eq!(stats.weighted_size, 50000);
}

#[test]
fn play_record_info_with_values() {
    let info = PlayRecordInfo { episode_index: 5, play_time: 123 };
    assert_eq!(info.episode_index, 5);
    assert_eq!(info.play_time, 123);
}

#[test]
fn skip_config_info_fields() {
    let config = SkipConfigInfo { enable: true, intro_time: 10, outro_time: -5 };
    assert!(config.enable);
    assert_eq!(config.intro_time, 10);
    assert_eq!(config.outro_time, -5);
}

#[test]
fn normalize_episode_index_boundary_cases() {
    assert_eq!(normalize_episode_index(1, 0), 0);
    assert_eq!(normalize_episode_index(0, 0), 0);
    assert_eq!(normalize_episode_index(-1, 0), 0);
    assert_eq!(normalize_episode_index(1000, 100), 99);
    assert_eq!(normalize_episode_index(99, 100), 98);
    assert_eq!(normalize_episode_index(-10, 50), 0);
    assert_eq!(normalize_episode_index(-1, 50), 0);
}

#[test]
fn filter_sources_for_fallback_title_matching() {
    let results = vec![
        make_result("Exact Title", "2020", 12, "s1", "1"),
        make_result("exact title", "2020", 12, "s2", "2"),
        make_result("Exact", "2020", 12, "s3", "3"),
        make_result("Exact Title Extra", "2020", 12, "s4", "4"),
    ];
    let filtered = filter_sources_for_fallback(&results, "Exact Title", Some("2020"), None);
    assert!(filtered.len() > 0);
    let sources: Vec<String> = filtered.iter().map(|r| r.source.clone()).collect();
    assert!(sources.contains(&"s1".to_string()));
    assert!(sources.contains(&"s2".to_string()));
}

#[test]
fn parse_search_type_filter_valid_cases() {
    assert_eq!(parse_search_type_filter(Some("tv")), Some(SearchTypeFilter::Tv));
    assert_eq!(parse_search_type_filter(Some("movie")), Some(SearchTypeFilter::Movie));
    assert_eq!(parse_search_type_filter(None), None);
}

#[test]
fn derive_search_type_filter_tv_range() {
    assert_eq!(derive_search_type_filter(Some(2)), Some(SearchTypeFilter::Tv));
    assert_eq!(derive_search_type_filter(Some(10)), Some(SearchTypeFilter::Tv));
    assert_eq!(derive_search_type_filter(Some(100)), Some(SearchTypeFilter::Tv));
}

#[test]
fn derive_search_type_filter_movie_range() {
    assert_eq!(derive_search_type_filter(Some(1)), Some(SearchTypeFilter::Movie));
}

#[test]
fn derive_search_type_filter_edge_values() {
    assert_eq!(derive_search_type_filter(Some(0)), None);
    assert_eq!(derive_search_type_filter(Some(-1)), None);
    assert_eq!(derive_search_type_filter(None), None);
}

#[test]
fn parse_search_type_filter_ignores_ascii_case() {
    assert_eq!(parse_search_type_filter(Some("TV")), Some(SearchTypeFilter::Tv));
    assert_eq!(parse_search_type_filter(Some("Movie")), Some(SearchTypeFilter::Movie));
}

#[test]
fn normalize_title_for_match_drops_spaces_and_case() {
    assert_eq!(normalize_title_for_match("Test Show Ⅱ"), "testshowⅱ");
}

#[test]
fn parse_episodes_picks_the_longest_playable_group() {
    let (episodes, titles) = parse_episodes(
        "第1集$http://a/1.m3u8#第2集$http://a/2.mp4$$$http://b/1.m3u8#http://b/2.M3U8#bad$x$y",
    );
    assert_eq!(episodes, vec!["http://b/1.m3u8".to_string(), "http://b/2.M3U8".to_string()]);
    assert_eq!(titles, vec!["1".to_string(), "2".to_string()]);
}

#[test]
fn parse_episodes_keeps_first_group_on_ties() {
    let (episodes, titles) = parse_episodes("A$http://a/1.m3u8$$$B$http://b/1.m3u8");
    assert_eq!(episodes, vec!["http://a/1.m3u8".to_string()]);
    assert_eq!(titles, vec!["A".to_string()]);
    let (episodes, titles) = parse_episodes("");
    assert!(episodes.is_empty());
    assert!(titles.is_empty());
}

#[test]
fn playable_and_html_cleaning() {
    assert!(is_playable_m3u8("HTTP://X/INDEX.M3U8"));
    assert!(!is_playable_m3u8("http://x/index.mp4"));
    assert_eq!(clean_html_tags("<p>a<br>b<br/>c</p><div>d</div>"), "a\nb\ncd");
}

#[test]
fn yellow_words_mark_adult_categories() {
    assert!(is_yellow_type(&Some("日本伦理片".to_string())));
    assert!(is_yellow_type(&Some("cosplay".to_string())));
    assert!(!is_yellow_type(&Some("动作片".to_string())));
    assert!(!is_yellow_type(&None));
}

fn site() -> ApiSite {
    ApiSite {
        key: "s1".to_string(),
        api: "https://a.example.com".to_string(),
        name: "Site One".to_string(),
        detail: None,
        is_adult: None,
    }
}

#[test]
fn search_result_from_item_maps_fields() {
    let item = ApiSearchItem {
        vod_id: JsonScalar::Number("42".to_string()),
        vod_name: "  Name  ".to_string(),
        vod_pic: "pic".to_string(),
        vod_remarks: None,
        vod_play_url: Some("E1$http://x/1.m3u8#E2$http://x/2.m3u8".to_string()),
        vod_class: Some("c".to_string()),
        vod_year: Some("2020".to_string()),
        vod_content: Some("<p>hi</p>".to_string()),
        vod_douban_id: Some(4_294_967_297),
        type_label: Some("剧集".to_string()),
    };
    let r = search_result_from_item(item, &site());
    assert_eq!(r.id, "42");
    assert_eq!(r.title, "Name");
    assert_eq!(r.episodes.len(), 2);
    assert_eq!(r.episodes_titles, vec!["E1".to_string(), "E2".to_string()]);
    assert_eq!(r.source, "s1");
    assert_eq!(r.source_name, "Site One");
    assert_eq!(r.desc, Some("hi".to_string()));
    assert_eq!(r.douban_id, Some(1));
}

#[test]
fn finalize_search_results_dedupes_filters_and_ranks() {
    let mut adult = make_result("Query adult", "2020", 2, "s9", "9");
    adult.type_label = Some("伦理片".to_string());
    let all = vec![
        make_result("Something long", "2020", 2, "s1", "1"),
        make_result("Query long title", "2020", 2, "s2", "2"),
        make_result("Query", "2020", 2, "s3", "3"),
        make_result("Query dup", "2020", 2, "s3", "3"),
        make_result("Query none", "2020", 0, "s4", "4"),
        adult,
        make_result("abc", "2020", 2, "s5", "5"),
    ];
    let ranked = finalize_search_results(all.clone(), "Query", false);
    let titles: Vec<&str> = ranked.iter().map(|r| r.title.as_str()).collect();
    assert_eq!(titles, vec!["Query", "Query long title", "abc", "Something long"]);
    let unfiltered = finalize_search_results(all, "Query", true);
    assert_eq!(unfiltered.len(), 5);
}

#[test]
fn reorder_by_source_rank_orders_by_ranking() {
    let results = vec![
        make_result("A", "2020", 1, "slow", "1"),
        make_result("B", "2020", 1, "fast", "2"),
        make_result("C", "2020", 1, "unknown", "3"),
        make_result("D", "2020", 1, "slow", "4"),
    ];
    let sources = distinct_sources(&results);
    assert_eq!(sources, vec!["slow".to_string(), "fast".to_string(), "unknown".to_string()]);
    let ranking = vec!["fast".to_string(), "slow".to_string()];
    let ordered = reorder_by_source_rank(results, &ranking);
    let ids: Vec<&str> = ordered.iter().map(|r| r.id.as_str()).collect();
    assert_eq!(ids, vec!["2", "1", "4", "3"]);
}

#[test]
fn drop_entry_and_select_play_source() {
    let results = vec![
        make_result("A", "2020", 1, "s1", "1"),
        make_result("A", "2020", 1, "s2", "2"),
    ];
    assert_eq!(select_play_source(&results, "s1", "1", false), Some(0));
    assert_eq!(select_play_source(&results, "s1", "1", true), Some(1));
    assert_eq!(select_play_source(&results, "s3", "1", false), None);
    let rest = drop_entry(results, &"s1".to_string(), &"1".to_string());
    assert_eq!(rest.len(), 1);
    assert_eq!(rest[0].source, "s2");
}

#[test]
fn record_keys() {
    assert_eq!(play_record_key("s1", "abc"), "s1+abc");
    assert_eq!(old_play_record_key(Some("s"), Some("i")), Some("s+i".to_string()));
    assert_eq!(old_play_record_key(Some(""), Some("i")), None);
    assert_eq!(old_play_record_key(None, Some("i")), None);
}

#[test]
fn retry_policy_gives_up_after_three_attempts() {
    let policy = fetch_retry_policy();
    let s0 = first_retry_state(policy);
    let s1 = match next_retry_step(policy, s0, FetchOutcome::NetworkError) {
        RetryStep::Retry { delay_ms, next } => {
            assert_eq!(delay_ms, 300);
            next
        }
        other => panic!("unexpected {:?}", other),
    };
    let s2 = match next_retry_step(policy, s1, FetchOutcome::OtherStatus) {
        RetryStep::Retry { delay_ms, next } => {
            assert_eq!(delay_ms, 600);
            next
        }
        other => panic!("unexpected {:?}", other),
    };
    assert_eq!(next_retry_step(policy, s2, FetchOutcome::NetworkError), RetryStep::GiveUp);
    assert_eq!(next_retry_step(policy, s0, FetchOutcome::NotFound), RetryStep::Missing);
    assert_eq!(next_retry_step(policy, s0, FetchOutcome::Success), RetryStep::Done);
}

#[test]
fn next_segment_urls_keeps_padding() {
    let urls = next_segment_urls("http://cdn/v/seg_0009.ts?token=1");
    assert_eq!(urls.len(), 25);
    assert_eq!(urls[0], "http://cdn/v/seg_0010.ts?token=1");
    assert_eq!(urls[24], "http://cdn/v/seg_0034.ts?token=1");
    assert!(next_segment_urls("http://cdn/v/index.m3u8").is_empty());
}

#[test]
fn binary_fetch_plan_reads_method_and_url() {
    let plan = binary_fetch_plan("https://img.doubanio.com/a.ts", Some("post"));
    assert_eq!(plan.method, HttpMethod::Post);
    assert!(!plan.use_cache);
    assert!(plan.douban_referer);
    assert!(plan.range_header);
    let plan = binary_fetch_plan("https://example.com/a.jpg", None);
    assert_eq!(plan.method, HttpMethod::Get);
    assert!(plan.use_cache);
    assert!(!plan.douban_referer);
    assert!(!plan.range_header);
}

#[test]
fn resized_dimensions_caps_width() {
    assert_eq!(resized_dimensions(1600, 900), (800, 450));
    assert_eq!(resized_dimensions(640, 480), (640, 480));
}

#[test]
fn search_keys_and_urls() {
    assert_eq!(normalize_search_key("  Hello World "), "hello world");
    assert_eq!(source_url("https://a/api/", "?ac=list"), "https://a/api/?ac=list");
    assert_eq!(source_url("https://a/api", "?ac=list"), "https://a/api/?ac=list");
}

#[test]
fn player_query_and_fallback_title() {
    let request = InitializePlayerByQueryRequest {
        query: "  ".to_string(),
        filter_title: String::new(),
        year: None,
        search_type: None,
        prefer_best: false,
    };
    assert_eq!(player_search_query(&request), Err("Missing query".to_string()));
    let record = Some(PlayRecordMeta {
        episode_index: 2,
        play_time: 30,
        title: "Title".to_string(),
        year: " 2020 ".to_string(),
        total_episodes: 12,
        search_title: "  ".to_string(),
    });
    assert_eq!(fallback_title(&Some("  Given ".to_string()), &record), Some("Given".to_string()));
    assert_eq!(fallback_title(&None, &record), Some("Title".to_string()));
    assert_eq!(fallback_title(&None, &None), None);
}

fn record_meta(episode_index: i32, total_episodes: i32) -> Option<PlayRecordMeta> {
    Some(PlayRecordMeta {
        episode_index,
        play_time: 95,
        title: "Title".to_string(),
        year: " 2020 ".to_string(),
        total_episodes,
        search_title: String::new(),
    })
}

#[test]
fn record_derived_player_inputs() {
    let record = record_meta(3, 12);
    assert_eq!(fallback_year(&record), Some("2020".to_string()));
    assert_eq!(fallback_year(&record_meta(3, 1).map(|mut r| {
        r.year = "   ".to_string();
        r
    })), None);
    assert_eq!(fallback_year(&None), None);
    assert_eq!(record_search_type(&record), Some(SearchTypeFilter::Tv));
    assert_eq!(record_search_type(&record_meta(1, 1)), Some(SearchTypeFilter::Movie));
    assert_eq!(record_search_type(&None), None);
    let info = initial_play_record(&record, 10).unwrap();
    assert_eq!(info.episode_index, 2);
    assert_eq!(info.play_time, 95);
    assert_eq!(initial_play_record(&record, 2).unwrap().episode_index, 1);
    assert!(initial_play_record(&None, 10).is_none());
    assert_eq!(probe_episode_index(&record, 10), 2);
    assert_eq!(probe_episode_index(&record_meta(0, 5), 10), 0);
    assert_eq!(probe_episode_index(&None, 10), 0);
}

#[test]
fn probe_url_falls_back_to_first_episode() {
    let mut detail = make_result("T", "2020", 0, "s1", "9");
    assert_eq!(probe_episode_url(&detail, 0), None);
    detail.episodes = vec!["http://x/1.m3u8".to_string(), "http://x/2.m3u8".to_string()];
    assert_eq!(probe_episode_url(&detail, 1), Some("http://x/2.m3u8".to_string()));
    assert_eq!(probe_episode_url(&detail, 7), Some("http://x/1.m3u8".to_string()));
}

#[test]
fn lookup_keys_name_sources() {
    let results = vec![make_result("A", "2020", 1, "s1", "7"), make_result("B", "2021", 1, "s2", "8")];
    assert_eq!(source_lookup_key(&results[0]), "s1-7");
    assert_eq!(lookup_source(&results, "s2-8"), Some("s2".to_string()));
    assert_eq!(lookup_source(&results, "s1-8"), None);
    assert_eq!(lookup_source(&Vec::new(), "s1-7"), None);
}

#[test]
fn source_request_urls() {
    assert_eq!(search_url("https://a/api", "a b"), "https://a/api?ac=videolist&wd=a%20b");
    assert_eq!(detail_url("https://a/api", "42"), "https://a/api?ac=videolist&ids=42");
    assert_eq!(videos_by_type_query(" 5 ", Some(0)), "?ac=videolist&t=5&pg=1");
    assert_eq!(videos_by_type_query("5", Some(3)), "?ac=videolist&t=5&pg=3");
    assert_eq!(videos_by_type_query("5", None), "?ac=videolist&t=5&pg=1");
}

fn api_item(name: &str) -> ApiSearchItem {
    ApiSearchItem {
        vod_id: JsonScalar::Text("1".to_string()),
        vod_name: name.to_string(),
        vod_pic: String::new(),
        vod_remarks: None,
        vod_play_url: None,
        vod_class: None,
        vod_year: None,
        vod_content: None,
        vod_douban_id: None,
        type_label: None,
    }
}

#[test]
fn first_listed_item_or_not_found() {
    assert_eq!(first_listed_item(vec![api_item("a"), api_item("b")]).unwrap().vod_name, "a");
    assert_eq!(first_listed_item(Vec::new()).unwrap_err(), "Video not found");
}

#[test]
fn fetch_decisions() {
    assert!(is_ts_segment_url("http://cdn/seg1.ts?x=1"));
    assert!(!is_ts_segment_url("http://cdn/index.m3u8"));
    assert!(needs_douban_image_referer("https://img1.doubanio.com/p.jpg"));
    assert!(!needs_douban_image_referer("https://movie.douban.com/"));
    assert!(needs_douban_referer("https://movie.douban.com/"));
    assert!(!needs_douban_referer("https://example.com/"));
    let plan = binary_fetch_plan("https://example.com/a.jpg", None);
    assert!(should_cache_fetched(&plan, 200));
    assert!(!should_cache_fetched(&plan, 404));
    let post = binary_fetch_plan("https://example.com/a.ts", Some("POST"));
    assert!(!should_cache_fetched(&post, 200));
    let p = prefetch_retry_policy();
    assert_eq!((p.attempts, p.initial_delay_ms, p.max_delay_ms), (3, 200, 2000));
    assert!(should_test_candidates(true, 2, false));
    assert!(!should_test_candidates(true, 1, false));
    assert!(!should_test_candidates(true, 3, true));
    assert!(!should_test_candidates(false, 3, false));
}

#[test]
fn query_results_follow_the_filter_title() {
    let results = vec![
        make_result("Show", "2020", 10, "s1", "1"),
        make_result("Other", "2020", 10, "s2", "2"),
    ];
    let request = InitializePlayerByQueryRequest {
        query: "Show".to_string(),
        filter_title: String::new(),
        year: None,
        search_type: None,
        prefer_best: false,
    };
    assert_eq!(filter_query_results(results, &request).len(), 2);
    let results = vec![
        make_result("Show", "2020", 10, "s1", "1"),
        make_result("Other", "2020", 10, "s2", "2"),
    ];
    let request = InitializePlayerByQueryRequest { filter_title: " show ".to_string(), ..request };
    let kept = filter_query_results(results, &request);
    assert_eq!(kept.len(), 1);
    assert_eq!(kept[0].source, "s1");
}

#[test]
fn source_search_results_drop_adult_categories_unless_allowed() {
    let mut adult = api_item("B");
    adult.type_label = Some("伦理片".to_string());
    let mut plain = api_item("  A ");
    plain.type_label = Some("动作片".to_string());
    let kept = source_search_results(vec![plain.clone(), adult.clone()], &site(), false);
    assert_eq!(kept.len(), 1);
    assert_eq!(kept[0].title, "A");
    assert_eq!(kept[0].source, "s1");
    let all = source_search_results(vec![plain, adult], &site(), true);
    assert_eq!(all.len(), 2);
    assert_eq!(all[1].title, "B");
}

#[test]
fn search_url_keeps_unreserved_characters() {
    assert_eq!(search_url("u", "a-._~*é"), "u?ac=videolist&wd=a-._~%2A%C3%A9");
}
