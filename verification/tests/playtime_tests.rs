use kazeta_core::playtime::{PlaytimeDatabase, PlaytimeEntry, PlaytimeTracker};

fn tracker() -> PlaytimeTracker {
    PlaytimeTracker::new(PlaytimeDatabase::new())
}

#[test]
fn test_session_tracking() {
    let mut tracker = tracker();

    tracker.start_session("test-game".to_string(), 10_000, 1_700_000_000);
    // Two seconds later.
    tracker.end_session(12_000, 1_700_000_002);

    let entry = tracker.get_playtime("test-game").unwrap();
    assert!(entry.total_seconds >= 2);
    assert_eq!(entry.total_seconds, 2);
    assert_eq!(entry.play_count, 1);
    assert!(entry.last_played.is_some());
}

#[test]
fn test_multiple_sessions() {
    let mut tracker = tracker();
    let mut now: u64 = 500;

    for _ in 0..3 {
        tracker.start_session("test-game".to_string(), now, 1);
        now += 1_000;
        tracker.end_session(now, 2);
    }

    let entry = tracker.get_playtime("test-game").unwrap();
    assert!(entry.total_seconds >= 3);
    assert_eq!(entry.play_count, 3);
}

#[test]
fn test_multiple_games() {
    let mut tracker = tracker();

    tracker.start_session("game1".to_string(), 0, 1);
    tracker.end_session(1_000, 2);

    tracker.start_session("game2".to_string(), 1_000, 2);
    tracker.end_session(2_000, 3);

    assert_eq!(tracker.database.entries.len(), 2);
    assert!(tracker.get_playtime("game1").is_some());
    assert!(tracker.get_playtime("game2").is_some());
}

#[test]
fn session_of_two_seconds_three_times() {
    let mut tracker = tracker();
    let mut now: u64 = 0;
    tracker.start_session("g".to_string(), now, 10);
    now += 2_000;
    assert!(tracker.end_session(now, 12));
    {
        let entry = tracker.get_playtime("g").unwrap();
        assert!(entry.total_seconds >= 2);
        assert_eq!(entry.play_count, 1);
    }
    for _ in 0..2 {
        tracker.start_session("g".to_string(), now, 12);
        now += 2_000;
        tracker.end_session(now, 14);
    }
    let entry = tracker.get_playtime("g").unwrap();
    assert!(entry.total_seconds >= 6);
    assert_eq!(entry.play_count, 3);
    assert_eq!(entry.last_played, Some(14));
}

#[test]
fn seconds_are_rounded_down_and_never_lose_more_than_one() {
    let mut tracker = tracker();
    tracker.start_session("g".to_string(), 1_000, 0);
    tracker.end_session(3_999, 0);
    assert_eq!(tracker.get_playtime("g").unwrap().total_seconds, 2);
    // A clock that reads earlier than the start counts as no time.
    tracker.start_session("g".to_string(), 9_000, 0);
    tracker.end_session(8_000, 0);
    let entry = tracker.get_playtime("g").unwrap();
    assert_eq!(entry.total_seconds, 2);
    assert_eq!(entry.play_count, 2);
}

#[test]
fn end_without_session_changes_nothing() {
    let mut tracker = tracker();
    assert!(!tracker.end_session(5, 5));
    assert!(tracker.database.entries.is_empty());
    assert_eq!(tracker.current_session_seconds(10), None);
}

#[test]
fn starting_a_session_ends_the_one_that_runs() {
    let mut tracker = tracker();
    assert!(!tracker.start_session("a".to_string(), 0, 0));
    assert!(tracker.start_session("b".to_string(), 7_000, 7));
    assert_eq!(tracker.get_playtime("a").unwrap().total_seconds, 7);
    assert_eq!(tracker.current_session.as_ref().unwrap().cart_id, "b");
    assert_eq!(tracker.current_session.as_ref().unwrap().start_ms, 7_000);
}

#[test]
fn counters_stop_at_their_largest_values() {
    let database = PlaytimeDatabase {
        entries: vec![PlaytimeEntry {
            cart_id: "g".to_string(),
            total_seconds: u64::MAX - 1,
            last_played: None,
            play_count: u32::MAX,
        }],
    };
    let mut tracker = PlaytimeTracker::new(database);
    tracker.add_playtime("g", 5, 99);
    let entry = tracker.get_playtime("g").unwrap();
    assert_eq!(entry.total_seconds, u64::MAX);
    assert_eq!(entry.play_count, u32::MAX);
    assert_eq!(entry.last_played, Some(99));
}
