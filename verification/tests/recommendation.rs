use quantumtv::recommendation::{
    category_from_label, deduplicate_recommendations, is_pool_entry, metadata_category, category_or_episode_default, category_or_source_default, infer_category,
    is_watched, nonempty_text, recommendation_strategy, select_recommendation_positions,
    RecommendationReason, RecommendationStrategy, UserHistoryStats, UserProfile, VideoCategory,
};
use std::time::Instant;

#[test]
fn test_recommendation_reason_variants() {
    let reasons = vec![
        RecommendationReason::Popular,
        RecommendationReason::SimilarToHistory,
        RecommendationReason::Favorite,
        RecommendationReason::CategoryBased,
        RecommendationReason::NewContent,
        RecommendationReason::ContentDiscovery,
    ];
    assert_eq!(reasons.len(), 6);
}

#[test]
fn test_user_profile_initialization() {
    let profile = UserProfile {
        watched_titles: vec!["Show1".to_string(), "Show2".to_string()],
        favorite_categories: vec![VideoCategory::Movie, VideoCategory::Anime],
        favorite_years: vec!["2023".to_string(), "2024".to_string()],
    };
    assert_eq!(profile.watched_titles.len(), 2);
    assert_eq!(profile.favorite_categories.len(), 2);
    assert_eq!(profile.favorite_years.len(), 2);
}

#[test]
fn test_user_history_stats() {
    let stats = UserHistoryStats {
        total_records: 50,
        favorite_count: 10,
        last_update: Instant::now(),
        search_count: 5,
    };
    assert_eq!(stats.total_records, 50);
    assert_eq!(stats.favorite_count, 10);
    assert_eq!(stats.search_count, 5);
}

#[test]
fn test_video_category_enum_variants() {
    let categories = vec![VideoCategory::Movie, VideoCategory::Anime];
    assert_eq!(categories.len(), 2);
}

#[test]
fn test_recommendation_reason_default() {
    let reason = RecommendationReason::default();
    match reason {
        RecommendationReason::Popular => assert!(true),
        _ => assert!(false, "Default should be Popular"),
    }
}

#[test]
fn infer_category_by_source() {
    assert_eq!(infer_category("x", "Bangumi 每日"), Some("Anime".to_string()));
    assert_eq!(infer_category("x", "豆瓣"), Some("Movie".to_string()));
    assert_eq!(infer_category("x", "other"), None);
}

#[test]
fn categories_from_labels_and_defaults() {
    assert_eq!(category_from_label("动画"), Some(VideoCategory::Anime));
    assert_eq!(category_from_label("tv"), Some(VideoCategory::TvSeries));
    assert_eq!(category_from_label("纪录片"), Some(VideoCategory::Documentary));
    assert_eq!(category_from_label("科幻"), None);
    assert_eq!(category_or_source_default(VideoCategory::Unknown, "Bangumi"), VideoCategory::Anime);
    assert_eq!(category_or_source_default(VideoCategory::Unknown, "x"), VideoCategory::Movie);
    assert_eq!(category_or_source_default(VideoCategory::Variety, "Bangumi"), VideoCategory::Variety);
    assert_eq!(category_or_episode_default(VideoCategory::Unknown, 12), VideoCategory::TvSeries);
    assert_eq!(category_or_episode_default(VideoCategory::Unknown, 1), VideoCategory::Movie);
}

fn stats(total_records: usize) -> UserHistoryStats {
    UserHistoryStats { total_records, favorite_count: 0, search_count: 0, last_update: Instant::now() }
}

#[test]
fn strategy_by_history_size() {
    assert_eq!(recommendation_strategy(&stats(4)), RecommendationStrategy::ColdStart);
    assert_eq!(recommendation_strategy(&stats(5)), RecommendationStrategy::LightHistory);
    assert_eq!(recommendation_strategy(&stats(19)), RecommendationStrategy::LightHistory);
    assert_eq!(recommendation_strategy(&stats(20)), RecommendationStrategy::RichHistory);
}

#[test]
fn shown_candidates_are_first_titles_with_covers() {
    let titles: Vec<String> = ["A", "A", "B", "C", "B"].iter().map(|s| s.to_string()).collect();
    let covers: Vec<String> = ["x", "y", "  ", "z", "w"].iter().map(|s| s.to_string()).collect();
    assert_eq!(select_recommendation_positions(&titles, &covers), vec![0, 3]);
}

#[test]
fn shown_candidates_keep_order() {
    let titles: Vec<String> = ["First", "Second", "Third"].iter().map(|s| s.to_string()).collect();
    let covers: Vec<String> = ["c", "c", "c"].iter().map(|s| s.to_string()).collect();
    assert_eq!(select_recommendation_positions(&titles, &covers), vec![0, 1, 2]);
}

#[test]
fn watched_titles_and_empty_text() {
    let watched = vec!["A".to_string(), "B".to_string()];
    assert!(is_watched(&watched, "B"));
    assert!(!is_watched(&watched, "C"));
    assert_eq!(nonempty_text(String::new()), None);
    assert_eq!(nonempty_text("x".to_string()), Some("x".to_string()));
}

/// The titles kept by deduplication, in order.
fn deduplicated_titles(titles: &[&str]) -> Vec<String> {
    let owned: Vec<String> = titles.iter().map(|t| t.to_string()).collect();
    deduplicate_recommendations(&owned).into_iter().map(|p| owned[p].clone()).collect()
}

#[test]
fn test_deduplicate_recommendations() {
    let deduplicated = deduplicated_titles(&["Test1", "Test1", "Test2"]);
    assert_eq!(deduplicated.len(), 2);
    assert_eq!(deduplicated[0], "Test1");
    assert_eq!(deduplicated[1], "Test2");
}

#[test]
fn test_deduplicate_basic() {
    let deduplicated = deduplicated_titles(&["Duplicate", "Duplicate"]);
    assert_eq!(deduplicated.len(), 1);
    assert_eq!(deduplicated[0], "Duplicate");
}

#[test]
fn test_deduplicate_empty_list() {
    let result = deduplicated_titles(&[]);
    assert!(result.is_empty());
}

#[test]
fn test_deduplicate_single_item() {
    let result = deduplicated_titles(&["Single"]);
    assert_eq!(result.len(), 1);
    assert_eq!(result[0], "Single");
}

#[test]
fn test_deduplicate_maintains_order() {
    let deduplicated = deduplicated_titles(&["First", "Second", "Third"]);
    assert_eq!(deduplicated.len(), 3);
    assert_eq!(deduplicated[0], "First");
    assert_eq!(deduplicated[1], "Second");
    assert_eq!(deduplicated[2], "Third");
}

#[test]
fn deduplicate_keeps_first_position_of_each_title() {
    let owned: Vec<String> = ["A", "B", "A", "C", "B"].iter().map(|t| t.to_string()).collect();
    assert_eq!(deduplicate_recommendations(&owned), vec![0, 1, 3]);
}

#[test]
fn metadata_category_prefers_given_then_inferred() {
    let title = Some("T".to_string());
    assert_eq!(metadata_category(Some("Movie".to_string()), &title, &None), Some("Movie".to_string()));
    assert_eq!(metadata_category(Some(String::new()), &title, &Some("Bangumi".to_string())), Some("Anime".to_string()));
    assert_eq!(metadata_category(None, &title, &Some("豆瓣热门".to_string())), Some("Movie".to_string()));
    assert_eq!(metadata_category(None, &title, &None), None);
    assert_eq!(metadata_category(None, &None, &Some("Bangumi".to_string())), None);
    assert!(is_pool_entry("T", "S"));
    assert!(!is_pool_entry("", "S"));
    assert!(!is_pool_entry("T", ""));
}
