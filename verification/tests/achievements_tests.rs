use kazeta_core::achievements::{AchievementFilter, AchievementFilterState, AchievementTracker};
use kazeta_core::ipc::AchievementInfo;

// Helper to create a test achievement
fn create_test_achievement(id: u32, title: &str, earned: bool) -> AchievementInfo {
    AchievementInfo {
        id,
        title: title.to_string(),
        description: format!("{} description", title),
        points: 10,
        earned,
        earned_hardcore: false,
        rarity_basis_points: None,
        earned_at: None,
        progress: None,
    }
}

#[test]
fn test_achievement_tracker_basic() {
    let mut tracker = AchievementTracker::new();

    assert!(!tracker.has_game());
    assert_eq!(tracker.progress.total, 0);
    assert_eq!(tracker.progress.earned, 0);

    // Set game info
    tracker.set_game_info(1234, "Test Game".to_string(), "GBA".to_string());
    assert!(tracker.has_game());
    assert_eq!(tracker.game_id, Some(1234));
    assert_eq!(tracker.game_title, "Test Game");
}

#[test]
fn test_achievement_tracker_progress() {
    let mut tracker = AchievementTracker::new();

    let achievements = vec![
        create_test_achievement(1, "First", true),
        create_test_achievement(2, "Second", false),
        create_test_achievement(3, "Third", true),
    ];

    tracker.set_achievements(achievements);

    assert_eq!(tracker.progress.total, 3);
    assert_eq!(tracker.progress.earned, 2);
    let percent = (tracker.progress.earned * 100) as f32 / tracker.progress.total as f32;
    assert_eq!(percent, 66.666664); // 2/3 * 100
    assert_eq!(tracker.get_progress_basis_points(), 6666);
}

#[test]
fn test_achievement_tracker_unlock() {
    let mut tracker = AchievementTracker::new();

    let achievements =
        vec![create_test_achievement(1, "Achievement 1", false), create_test_achievement(2, "Achievement 2", false)];

    tracker.set_achievements(achievements);
    assert_eq!(tracker.progress.earned, 0);

    // Unlock achievement
    tracker.unlock_achievement(1);
    assert_eq!(tracker.progress.earned, 1);
    assert!(tracker.achievements[0].earned);
    assert!(!tracker.achievements[1].earned);

    // Unlock same achievement again (should not double-count)
    tracker.unlock_achievement(1);
    assert_eq!(tracker.progress.earned, 1);
}

#[test]
fn test_achievement_tracker_clear() {
    let mut tracker = AchievementTracker::new();

    tracker.set_game_info(100, "Game".to_string(), "Console".to_string());
    tracker.set_achievements(vec![create_test_achievement(1, "Test", false)]);

    tracker.clear();

    assert!(!tracker.has_game());
    assert_eq!(tracker.achievements.len(), 0);
    assert_eq!(tracker.progress.total, 0);
    assert_eq!(tracker.progress.earned, 0);
}

#[test]
fn test_achievement_filter_all() {
    let mut filter = AchievementFilterState::new();
    let achievements = vec![
        create_test_achievement(1, "Earned", true),
        create_test_achievement(2, "Unearned", false),
        create_test_achievement(3, "Another Earned", true),
    ];

    filter.set_filter(AchievementFilter::All);
    filter.apply_filter(&achievements);

    assert_eq!(filter.get_filtered_count(), 3);
}

#[test]
fn test_achievement_filter_earned() {
    let mut filter = AchievementFilterState::new();
    let achievements = vec![
        create_test_achievement(1, "Earned", true),
        create_test_achievement(2, "Unearned", false),
        create_test_achievement(3, "Another Earned", true),
    ];

    filter.set_filter(AchievementFilter::Earned);
    filter.apply_filter(&achievements);

    assert_eq!(filter.get_filtered_count(), 2);
    assert_eq!(filter.get_achievement_at(0), Some(0));
    assert_eq!(filter.get_achievement_at(1), Some(2));
}

#[test]
fn test_achievement_filter_unearned() {
    let mut filter = AchievementFilterState::new();
    let achievements = vec![
        create_test_achievement(1, "Earned", true),
        create_test_achievement(2, "Unearned", false),
        create_test_achievement(3, "Another Earned", true),
    ];

    filter.set_filter(AchievementFilter::Unearned);
    filter.apply_filter(&achievements);

    assert_eq!(filter.get_filtered_count(), 1);
    assert_eq!(filter.get_achievement_at(0), Some(1));
}

#[test]
fn test_achievement_search() {
    let mut filter = AchievementFilterState::new();
    let achievements = vec![
        create_test_achievement(1, "First Achievement", false),
        create_test_achievement(2, "Second Achievement", false),
        create_test_achievement(3, "Special Badge", false),
    ];

    filter.update_search("achievement".to_string());
    filter.apply_filter(&achievements);

    assert_eq!(filter.get_filtered_count(), 2);
    assert_eq!(filter.get_achievement_at(0), Some(0));
    assert_eq!(filter.get_achievement_at(1), Some(1));
}

#[test]
fn test_achievement_search_case_insensitive() {
    let mut filter = AchievementFilterState::new();
    let achievements =
        vec![create_test_achievement(1, "UPPERCASE", false), create_test_achievement(2, "lowercase", false)];

    filter.update_search("case".to_string());
    filter.apply_filter(&achievements);

    assert_eq!(filter.get_filtered_count(), 2);
}

#[test]
fn search_looks_into_descriptions_too() {
    let mut filter = AchievementFilterState::new();
    let mut hidden = create_test_achievement(7, "Plain", false);
    hidden.description = "Collect every BADGE".to_string();
    let achievements = vec![create_test_achievement(1, "Other", false), hidden];
    filter.update_search("Badge".to_string());
    filter.apply_filter(&achievements);
    assert_eq!(filter.filtered_indices, vec![1]);
    assert_eq!(filter.get_achievement_at(1), None);
}

#[test]
fn filter_and_search_combine() {
    let mut filter = AchievementFilterState::new();
    let achievements = vec![
        create_test_achievement(1, "Alpha one", true),
        create_test_achievement(2, "Beta one", false),
        create_test_achievement(3, "Alpha two", false),
        create_test_achievement(4, "Alpha three", true),
    ];
    filter.set_filter(AchievementFilter::Earned);
    filter.update_search("alpha".to_string());
    filter.apply_filter(&achievements);
    assert_eq!(filter.filtered_indices, vec![0, 3]);
    assert_eq!(filter.scroll_offset, 0);
}

#[test]
fn tracker_keeps_filtered_list_in_step() {
    let mut tracker = AchievementTracker::new();
    tracker.set_achievements(vec![
        create_test_achievement(1, "One", true),
        create_test_achievement(2, "Two", false),
        create_test_achievement(3, "Three", false),
    ]);
    assert_eq!(tracker.filter.filtered_indices, vec![0, 1, 2]);
    tracker.set_filter(AchievementFilter::Unearned);
    assert_eq!(tracker.filter.filtered_indices, vec![1, 2]);
    // Unlocking changes what the filter lets through.
    tracker.unlock_achievement(3);
    assert_eq!(tracker.filter.filtered_indices, vec![1]);
    tracker.set_search("t".to_string());
    assert_eq!(tracker.filter.filtered_indices, vec![1]);
    tracker.set_search("tw".to_string());
    tracker.set_filter(AchievementFilter::All);
    assert_eq!(tracker.filter.filtered_indices, vec![1]);
    tracker.set_search("T".to_string());
    // Every description holds a t.
    assert_eq!(tracker.filter.filtered_indices, vec![0, 1, 2]);
    tracker.clear();
    assert!(tracker.filter.filtered_indices.is_empty());
    assert_eq!(tracker.filter.filter, AchievementFilter::All);
}

#[test]
fn unlock_of_unknown_id_changes_nothing() {
    let mut tracker = AchievementTracker::new();
    tracker.set_achievements(vec![create_test_achievement(1, "One", false)]);
    tracker.unlock_achievement(99);
    assert_eq!(tracker.progress.earned, 0);
    assert!(!tracker.achievements[0].earned);
}

#[test]
fn unlock_counter_stops_at_the_largest_value() {
    let mut tracker = AchievementTracker::new();
    tracker.set_achievements(vec![create_test_achievement(1, "One", false)]);
    tracker.update_progress(u32::MAX, 5);
    tracker.unlock_achievement(1);
    assert_eq!(tracker.progress.earned, u32::MAX);
    assert_eq!(tracker.progress.total, 5);
}

#[test]
fn load_list_replaces_title_hash_and_counts() {
    let mut tracker = AchievementTracker::new();
    tracker.load_list(
        "Game A".to_string(),
        "abc".to_string(),
        vec![create_test_achievement(1, "One", true), create_test_achievement(2, "Two", true)],
    );
    assert_eq!(tracker.game_title, "Game A");
    assert_eq!(tracker.game_hash, "abc");
    assert_eq!(tracker.progress.total, 2);
    assert_eq!(tracker.progress.earned, 2);
    assert_eq!(tracker.get_progress_basis_points(), 10000);
}

#[test]
fn filter_names_and_order() {
    assert_eq!(
        AchievementFilter::all_filters(),
        vec![AchievementFilter::All, AchievementFilter::Earned, AchievementFilter::Unearned]
    );
    assert_eq!(AchievementFilter::All.display_name(), "All");
    assert_eq!(AchievementFilter::Earned.display_name(), "Earned");
    assert_eq!(AchievementFilter::Unearned.display_name(), "Unearned");
}

#[test]
fn progress_of_empty_tracker_is_zero() {
    let tracker = AchievementTracker::new();
    assert_eq!(tracker.get_progress_basis_points(), 0);
}

#[test]
fn changing_the_filter_relists_at_once() {
    let mut filter = AchievementFilterState::new();
    filter.apply_filter(&[create_test_achievement(1, "Only", true)]);
    assert_eq!(filter.filtered_indices, vec![0]);
    filter.set_filter(AchievementFilter::Unearned);
    assert!(filter.filtered_indices.is_empty());
    assert_eq!(filter.scroll_offset, 0);
    filter.set_filter(AchievementFilter::Earned);
    assert_eq!(filter.filtered_indices, vec![0]);
}

#[test]
fn changing_the_search_relists_at_once() {
    let mut filter = AchievementFilterState::new();
    filter.apply_filter(&[
        create_test_achievement(1, "Red Key", false),
        create_test_achievement(2, "Blue Door", true),
        create_test_achievement(3, "Red Door", true),
    ]);
    filter.scroll_offset = 2;
    filter.update_search("DOOR".to_string());
    assert_eq!(filter.filtered_indices, vec![1, 2]);
    assert_eq!(filter.scroll_offset, 0);
    filter.set_filter(AchievementFilter::Unearned);
    assert!(filter.filtered_indices.is_empty());
    filter.update_search("red".to_string());
    assert_eq!(filter.filtered_indices, vec![0]);
    filter.update_search(String::new());
    filter.set_filter(AchievementFilter::All);
    assert_eq!(filter.filtered_indices, vec![0, 1, 2]);
    filter.clear();
    filter.set_filter(AchievementFilter::All);
    assert!(filter.filtered_indices.is_empty());
}
