use kazeta_core::client::{availability, OverlayClient, ProbeOutcome};
use kazeta_core::ipc::{
    accepted_messages, frame, is_known_type, message_lines, AchievementInfo, AchievementProgress, Decoded,
    OverlayMessage, OverlayScreen, ToastStyle, SOCKET_PATH,
};
use kazeta_core::decode::{decode_achievement, decode_connection, decode_line, decode_message, parse_percent};
use kazeta_core::wire::{encode_achievement, encode_message};

#[test]
fn test_ipc_message_serialization() {
    let msg = OverlayMessage::ShowToast {
        message: "Test message".to_string(),
        icon: None,
        duration_ms: 3000,
        style: ToastStyle::Info,
    };

    let json = encode_message(&msg);
    let parsed = match decode_line(&json) {
        Decoded::Message(message) => message,
        _ => panic!("Failed to parse message"),
    };

    match parsed {
        OverlayMessage::ShowToast { message, .. } => {
            assert_eq!(message, "Test message");
        }
        _ => panic!("Wrong message type"),
    }
}

#[test]
fn socket_path_is_well_known() {
    assert_eq!(SOCKET_PATH, "/tmp/kazeta-overlay.sock");
}

#[test]
fn encoded_messages_are_exact() {
    let client = OverlayClient::new();
    assert_eq!(
        encode_message(&client.show_toast("hi", ToastStyle::Info, 1000)),
        "{\"type\":\"show_toast\",\"message\":\"hi\",\"duration_ms\":1000,\"style\":\"info\"}"
    );
    assert_eq!(
        encode_message(&client.show_toast_with_icon("a \"b\"\n", "i.png", ToastStyle::Error, 5)),
        "{\"type\":\"show_toast\",\"message\":\"a \\\"b\\\"\\n\",\"icon\":\"i.png\",\"duration_ms\":5,\"style\":\"error\"}"
    );
    assert_eq!(
        encode_message(&client.show_overlay(OverlayScreen::QuitConfirm)),
        "{\"type\":\"show_overlay\",\"screen\":\"quit_confirm\"}"
    );
    assert_eq!(encode_message(&client.hide_overlay()), "{\"type\":\"hide_overlay\"}");
    assert_eq!(encode_message(&client.get_status()), "{\"type\":\"get_status\"}");
    assert_eq!(encode_message(&OverlayMessage::ToggleOverlay), "{\"type\":\"toggle_overlay\"}");
    assert_eq!(encode_message(&OverlayMessage::QuitGame), "{\"type\":\"quit_game\"}");
    assert_eq!(encode_message(&OverlayMessage::QuitGameAck), "{\"type\":\"quit_game_ack\"}");
    assert_eq!(
        encode_message(&client.unlock_achievement("cart", "first", 1_700_000_000)),
        "{\"type\":\"unlock_achievement\",\"cart_id\":\"cart\",\"achievement_id\":\"first\",\"timestamp\":1700000000}"
    );
    assert_eq!(
        encode_message(&client.set_theme("RED", "blue")),
        "{\"type\":\"set_theme\",\"font_color\":\"RED\",\"cursor_color\":\"blue\"}"
    );
    assert_eq!(
        encode_message(&OverlayMessage::GameStarted {
            cart_id: "c".to_string(),
            game_name: "Game".to_string(),
            runtime: "vba-m".to_string()
        }),
        "{\"type\":\"game_started\",\"cart_id\":\"c\",\"game_name\":\"Game\",\"runtime\":\"vba-m\"}"
    );
    assert_eq!(
        encode_message(&OverlayMessage::GameStopped { cart_id: "c".to_string() }),
        "{\"type\":\"game_stopped\",\"cart_id\":\"c\"}"
    );
    assert_eq!(
        encode_message(&OverlayMessage::RaProgressUpdate { earned: 2, total: 40 }),
        "{\"type\":\"ra_progress_update\",\"earned\":2,\"total\":40}"
    );
    assert_eq!(
        encode_message(&OverlayMessage::RaGameStart {
            game_title: "T".to_string(),
            game_id: Some(77),
            game_icon: None,
            total_achievements: 10,
            earned_achievements: 0
        }),
        "{\"type\":\"ra_game_start\",\"game_title\":\"T\",\"game_id\":77,\"total_achievements\":10,\"earned_achievements\":0}"
    );
    assert_eq!(
        encode_message(&OverlayMessage::RaAchievementUnlocked {
            achievement_id: 4,
            title: "Won".to_string(),
            description: Some("d".to_string()),
            points: 50,
            icon_url: None,
            is_hardcore: true
        }),
        "{\"type\":\"ra_achievement_unlocked\",\"achievement_id\":4,\"title\":\"Won\",\"description\":\"d\",\"points\":50,\"is_hardcore\":true}"
    );
}

#[test]
fn encoded_achievement_list() {
    let full = AchievementInfo {
        id: 1,
        title: "One".to_string(),
        description: "First".to_string(),
        points: 5,
        earned: true,
        earned_hardcore: false,
        rarity_basis_points: Some(1205),
        earned_at: Some(1_700_000_000),
        progress: Some(AchievementProgress { current: 3, target: 10 }),
    };
    let bare = AchievementInfo {
        id: 2,
        title: "Two".to_string(),
        description: String::new(),
        points: 0,
        earned: false,
        earned_hardcore: false,
        rarity_basis_points: None,
        earned_at: None,
        progress: None,
    };
    assert_eq!(
        encode_achievement(&full),
        "{\"id\":1,\"title\":\"One\",\"description\":\"First\",\"points\":5,\"earned\":true,\"earned_hardcore\":false,\"rarity_percent\":12.05,\"earned_at\":1700000000,\"progress\":{\"current\":3,\"target\":10}}"
    );
    let message =
        OverlayMessage::RaAchievementList { game_title: "G".to_string(), game_hash: "h".to_string(), achievements: vec![full, bare] };
    let json = encode_message(&message);
    let value: serde_json::Value = serde_json::from_str(&json).unwrap();
    assert_eq!(value["type"], "ra_achievement_list");
    assert_eq!(value["achievements"].as_array().unwrap().len(), 2);
    assert_eq!(value["achievements"][0]["rarity_percent"].as_f64(), Some(12.05));
    assert_eq!(value["achievements"][1]["id"].as_u64(), Some(2));
    assert!(value["achievements"][1].get("progress").is_none());
    let empty =
        OverlayMessage::RaAchievementList { game_title: "G".to_string(), game_hash: "h".to_string(), achievements: vec![] };
    assert_eq!(
        encode_message(&empty),
        "{\"type\":\"ra_achievement_list\",\"game_title\":\"G\",\"game_hash\":\"h\",\"achievements\":[]}"
    );
}

#[test]
fn every_message_carries_a_known_type() {
    let messages = vec![
        OverlayMessage::HideOverlay,
        OverlayMessage::GetStatus,
        OverlayMessage::ToggleOverlay,
        OverlayMessage::QuitGame,
        OverlayMessage::QuitGameAck,
        OverlayMessage::ShowOverlay { screen: OverlayScreen::Main },
    ];
    for message in &messages {
        assert!(is_known_type(message.type_tag()));
    }
    assert!(!is_known_type("reboot"));
    assert!(!is_known_type(""));
    assert!(!is_known_type("Show_Toast"));
}

#[test]
fn wire_names_round_trip() {
    let screens = [
        (OverlayScreen::Main, "main"),
        (OverlayScreen::Settings, "settings"),
        (OverlayScreen::Achievements, "achievements"),
        (OverlayScreen::Performance, "performance"),
        (OverlayScreen::Playtime, "playtime"),
        (OverlayScreen::Controllers, "controllers"),
        (OverlayScreen::BluetoothPairing, "bluetooth_pairing"),
        (OverlayScreen::ControllerAssign, "controller_assign"),
        (OverlayScreen::GamepadTester, "gamepad_tester"),
        (OverlayScreen::HotkeySettings, "hotkey_settings"),
        (OverlayScreen::MenuCustomization, "menu_customization"),
        (OverlayScreen::ThemeSelection, "theme_selection"),
        (OverlayScreen::QuitConfirm, "quit_confirm"),
    ];
    for (screen, name) in screens {
        assert_eq!(screen.wire_name(), name);
        assert_eq!(OverlayScreen::from_wire_name(name), Some(screen));
    }
    assert_eq!(OverlayScreen::from_wire_name("Main"), None);
    for style in [ToastStyle::Info, ToastStyle::Success, ToastStyle::Warning, ToastStyle::Error] {
        assert_eq!(ToastStyle::from_wire_name(style.wire_name()), Some(style));
    }
    assert_eq!(ToastStyle::Warning.wire_name(), "warning");
    assert_eq!(ToastStyle::from_wire_name("fatal"), None);
}

#[test]
fn frames_end_with_a_line_feed_and_lines_come_back_in_order() {
    let first = frame("{\"type\":\"hide_overlay\"}");
    assert_eq!(first, "{\"type\":\"hide_overlay\"}\n");
    let stream = format!("{}{}{}", first, frame("{\"type\":\"get_status\"}"), "{\"type\":\"quit_game\"}");
    assert_eq!(
        message_lines(&stream),
        vec!["{\"type\":\"hide_overlay\"}", "{\"type\":\"get_status\"}", "{\"type\":\"quit_game\"}"]
    );
    assert!(message_lines("").is_empty());
    assert_eq!(message_lines("a\r\nb\n"), vec!["a", "b"]);
}

#[test]
fn connection_delivers_messages_up_to_the_first_malformed_line() {
    let (messages, closed) = accepted_messages(vec![
        Decoded::Message(OverlayMessage::HideOverlay),
        Decoded::Unknown,
        Decoded::Message(OverlayMessage::QuitGame),
        Decoded::Malformed,
        Decoded::Message(OverlayMessage::GetStatus),
    ]);
    assert!(closed);
    assert_eq!(messages.len(), 2);
    assert!(matches!(messages[0], OverlayMessage::HideOverlay));
    assert!(matches!(messages[1], OverlayMessage::QuitGame));
    let (messages, closed) = accepted_messages(vec![Decoded::Unknown, Decoded::Message(OverlayMessage::ToggleOverlay)]);
    assert!(!closed);
    assert_eq!(messages.len(), 1);
    let (messages, closed) = accepted_messages(vec![]);
    assert!(!closed && messages.is_empty());
}

#[test]
fn probe_outcomes() {
    let missing = availability(ProbeOutcome::Missing);
    assert!(!missing.available && !missing.remove_stale);
    let dead = availability(ProbeOutcome::ConnectFailed);
    assert!(!dead.available && dead.remove_stale);
    let stuck = availability(ProbeOutcome::WriteFailed);
    assert!(!stuck.available && stuck.remove_stale);
    let alive = availability(ProbeOutcome::Alive);
    assert!(alive.available && !alive.remove_stale);
}

#[test]
fn client_toasts_have_their_durations() {
    let client = OverlayClient::default();
    let expect = |message: OverlayMessage, style: ToastStyle, duration: u32| match message {
        OverlayMessage::ShowToast { message, icon, duration_ms, style: s } => {
            assert_eq!(message, "m");
            assert_eq!(icon, None);
            assert_eq!(duration_ms, duration);
            assert_eq!(s, style);
        }
        _ => panic!("not a toast"),
    };
    expect(client.info("m"), ToastStyle::Info, 3000);
    expect(client.success("m"), ToastStyle::Success, 3000);
    expect(client.warning("m"), ToastStyle::Warning, 4000);
    expect(client.error("m"), ToastStyle::Error, 5000);
}

fn decoded(line: &str) -> OverlayMessage {
    match decode_line(line) {
        Decoded::Message(message) => message,
        Decoded::Unknown => panic!("unknown: {}", line),
        Decoded::Malformed => panic!("malformed: {}", line),
    }
}

fn sample_achievement() -> AchievementInfo {
    AchievementInfo {
        id: 1,
        title: "One \"quoted\"".to_string(),
        description: "First\nline".to_string(),
        points: 5,
        earned: true,
        earned_hardcore: true,
        rarity_basis_points: Some(1205),
        earned_at: Some(1_700_000_000),
        progress: Some(AchievementProgress { current: 3, target: 10 }),
    }
}

#[test]
fn every_message_survives_the_wire() {
    let bare = AchievementInfo {
        id: 2,
        title: String::new(),
        description: "\u{1F3C6}".to_string(),
        points: 0,
        earned: false,
        earned_hardcore: false,
        rarity_basis_points: None,
        earned_at: None,
        progress: None,
    };
    let messages = vec![
        OverlayMessage::UnlockAchievement { cart_id: "c".to_string(), achievement_id: "a".to_string(), timestamp: u64::MAX },
        OverlayMessage::ShowToast { message: "m".to_string(), icon: Some("i".to_string()), duration_ms: 1, style: ToastStyle::Warning },
        OverlayMessage::ShowToast { message: String::new(), icon: None, duration_ms: u32::MAX, style: ToastStyle::Success },
        OverlayMessage::ShowOverlay { screen: OverlayScreen::ThemeSelection },
        OverlayMessage::HideOverlay,
        OverlayMessage::GetStatus,
        OverlayMessage::SetTheme { font_color: "RED".to_string(), cursor_color: "blue".to_string() },
        OverlayMessage::RaGameStart {
            game_title: "T".to_string(),
            game_id: Some(9),
            game_icon: Some("icon".to_string()),
            total_achievements: 3,
            earned_achievements: 2,
        },
        OverlayMessage::RaGameStart {
            game_title: "T".to_string(),
            game_id: None,
            game_icon: None,
            total_achievements: 0,
            earned_achievements: 0,
        },
        OverlayMessage::RaAchievementUnlocked {
            achievement_id: 4,
            title: "t".to_string(),
            description: Some("d".to_string()),
            points: 10,
            icon_url: Some("u".to_string()),
            is_hardcore: true,
        },
        OverlayMessage::RaProgressUpdate { earned: 1, total: 2 },
        OverlayMessage::RaAchievementList {
            game_title: "G".to_string(),
            game_hash: "h".to_string(),
            achievements: vec![sample_achievement(), bare],
        },
        OverlayMessage::ToggleOverlay,
        OverlayMessage::GameStarted { cart_id: "c".to_string(), game_name: "n".to_string(), runtime: "r".to_string() },
        OverlayMessage::GameStopped { cart_id: "c".to_string() },
        OverlayMessage::QuitGame,
        OverlayMessage::QuitGameAck,
    ];
    for message in &messages {
        let line = encode_message(message);
        let back = decoded(&line);
        assert_eq!(encode_message(&back), line);
        assert_eq!(back.type_tag(), message.type_tag());
    }
    match decoded(&encode_message(&messages[11])) {
        OverlayMessage::RaAchievementList { achievements, .. } => {
            assert_eq!(achievements.len(), 2);
            assert_eq!(achievements[0].title, "One \"quoted\"");
            assert_eq!(achievements[0].description, "First\nline");
            assert_eq!(achievements[0].rarity_basis_points, Some(1205));
            assert_eq!(achievements[0].progress, Some(AchievementProgress { current: 3, target: 10 }));
            assert!(achievements[0].earned_hardcore);
            assert_eq!(achievements[1].description, "\u{1F3C6}");
            assert_eq!(achievements[1].earned_at, None);
        }
        _ => panic!("wrong message"),
    }
}

#[test]
fn lines_from_other_writers_are_read() {
    // Members in any order, white space, and members that are not known.
    match decoded(" { \"style\" : \"info\", \"extra\": [1, 2], \"duration_ms\": 1000, \"message\": \"hi\", \"type\": \"show_toast\" } ") {
        OverlayMessage::ShowToast { message, icon, duration_ms, style } => {
            assert_eq!(message, "hi");
            assert_eq!(icon, None);
            assert_eq!(duration_ms, 1000);
            assert_eq!(style, ToastStyle::Info);
        }
        _ => panic!("wrong message"),
    }
    // A member that is null counts as missing.
    match decoded("{\"type\":\"show_toast\",\"message\":\"hi\",\"icon\":null,\"duration_ms\":5,\"style\":\"error\"}") {
        OverlayMessage::ShowToast { icon, .. } => assert_eq!(icon, None),
        _ => panic!("wrong message"),
    }
    // Flags that are missing are false.
    match decoded("{\"type\":\"ra_achievement_unlocked\",\"achievement_id\":1,\"title\":\"t\",\"points\":2}") {
        OverlayMessage::RaAchievementUnlocked { is_hardcore, description, .. } => {
            assert!(!is_hardcore);
            assert_eq!(description, None);
        }
        _ => panic!("wrong message"),
    }
    let a = decode_achievement("{\"id\":7,\"title\":\"t\",\"description\":\"d\",\"points\":1,\"rarity_percent\":3}").unwrap();
    assert_eq!((a.id, a.earned, a.earned_hardcore, a.rarity_basis_points), (7, false, false, Some(300)));
}

#[test]
fn malformed_and_unknown_lines() {
    let malformed = |line: &str| matches!(decode_line(line), Decoded::Malformed);
    let unknown = |line: &str| matches!(decode_line(line), Decoded::Unknown);
    assert!(malformed(""));
    assert!(malformed("not json"));
    assert!(malformed("[1,2,3]"));
    assert!(malformed("{\"message\":\"no type\"}"));
    assert!(malformed("{\"type\":5}"));
    assert!(malformed("{\"type\":null}"));
    assert!(malformed("{\"type\":\"show_toast\"}"));
    assert!(malformed("{\"type\":\"show_toast\",\"message\":\"m\",\"duration_ms\":1,\"style\":\"loud\"}"));
    assert!(malformed("{\"type\":\"show_toast\",\"message\":\"m\",\"duration_ms\":-1,\"style\":\"info\"}"));
    assert!(malformed("{\"type\":\"show_toast\",\"message\":\"m\",\"duration_ms\":4294967296,\"style\":\"info\"}"));
    assert!(malformed("{\"type\":\"show_toast\",\"message\":\"m\",\"icon\":7,\"duration_ms\":1,\"style\":\"info\"}"));
    assert!(malformed("{\"type\":\"show_overlay\",\"screen\":\"cellar\"}"));
    assert!(malformed("{\"type\":\"game_stopped\"}"));
    assert!(malformed("{\"type\":\"ra_achievement_list\",\"game_title\":\"g\",\"game_hash\":\"h\",\"achievements\":{}}"));
    assert!(malformed("{\"type\":\"ra_achievement_list\",\"game_title\":\"g\",\"game_hash\":\"h\",\"achievements\":[{\"id\":1}]}"));
    assert!(malformed("{\"type\":\"ra_achievement_unlocked\",\"achievement_id\":1,\"title\":\"t\",\"points\":2,\"is_hardcore\":\"yes\"}"));
    assert!(unknown("{\"type\":\"reboot\"}"));
    assert!(unknown("{\"type\":\"\",\"message\":\"m\"}"));
    assert!(decode_message("reboot", "{}").is_none());
    assert!(decode_message("hide_overlay", "anything").is_some());
}

#[test]
fn connection_is_read_in_order_up_to_the_first_malformed_line() {
    let data = "{\"type\":\"hide_overlay\"}\n{\"type\":\"future_message\"}\n{\"type\":\"show_overlay\",\"screen\":\"main\"}\nbroken\n{\"type\":\"quit_game\"}\n";
    let (messages, closed) = decode_connection(data);
    assert!(closed);
    let tags: Vec<&str> = messages.iter().map(|m| m.type_tag()).collect();
    assert_eq!(tags, vec!["hide_overlay", "show_overlay"]);
    let (messages, closed) = decode_connection("{\"type\":\"toggle_overlay\"}");
    assert!(!closed);
    assert_eq!(messages.len(), 1);
    let (messages, closed) = decode_connection("");
    assert!(!closed && messages.is_empty());
}

#[test]
fn percent_texts() {
    assert_eq!(parse_percent("12.05"), Some(1205));
    assert_eq!(parse_percent("0"), Some(0));
    assert_eq!(parse_percent("100"), Some(10000));
    assert_eq!(parse_percent("100.0"), Some(10000));
    assert_eq!(parse_percent("3.5"), Some(350));
    assert_eq!(parse_percent("3.999"), Some(399));
    assert_eq!(parse_percent("0.07"), Some(7));
    assert_eq!(parse_percent("9999999.99"), Some(999999999));
    assert_eq!(parse_percent("10000000"), Some(1000000000));
    assert_eq!(parse_percent("42949672.95"), Some(u32::MAX));
    assert_eq!(parse_percent("42949672.94"), Some(u32::MAX - 1));
    assert_eq!(parse_percent("42949672.96"), Some(u32::MAX));
    assert_eq!(parse_percent("123456789012345678901234567890"), Some(u32::MAX));
    assert_eq!(parse_percent(""), None);
    assert_eq!(parse_percent("."), None);
    assert_eq!(parse_percent(".5"), None);
    assert_eq!(parse_percent("5."), None);
    assert_eq!(parse_percent("-1"), Some(0));
    assert_eq!(parse_percent("-0.0"), Some(0));
    assert_eq!(parse_percent("-"), None);
    assert_eq!(parse_percent("+1"), None);
    assert_eq!(parse_percent("1e2"), Some(10000));
    assert_eq!(parse_percent("1E2"), Some(10000));
    assert_eq!(parse_percent("1e+2"), Some(10000));
    assert_eq!(parse_percent("1.5e1"), Some(1500));
    assert_eq!(parse_percent("1.5e-1"), Some(15));
    assert_eq!(parse_percent("1.25e1"), Some(1250));
    assert_eq!(parse_percent("123.456e-1"), Some(1234));
    assert_eq!(parse_percent("0.000001e8"), Some(10000));
    assert_eq!(parse_percent("5e-3"), Some(0));
    assert_eq!(parse_percent("5e-2"), Some(5));
    assert_eq!(parse_percent("1e-7"), Some(0));
    assert_eq!(parse_percent("1e16"), Some(u32::MAX));
    assert_eq!(parse_percent("0e16"), Some(0));
    assert_eq!(parse_percent("0.0e99999999999999999999999999999999999999999999"), Some(0));
    assert_eq!(parse_percent("1e99999999999999999999999999999999999999999999"), Some(u32::MAX));
    assert_eq!(parse_percent("1e-99999999999999999999999999999999999999999999"), Some(0));
    assert_eq!(parse_percent("1e"), None);
    assert_eq!(parse_percent("1e-"), None);
    assert_eq!(parse_percent("1e2e3"), None);
    assert_eq!(parse_percent("1e2.5"), None);
    assert_eq!(parse_percent("e2"), None);
    assert_eq!(parse_percent("1.e2"), None);
    assert_eq!(parse_percent("1.2.3"), None);
    assert_eq!(parse_percent("\"12\""), None);
}

#[test]
fn any_json_number_is_a_rarity() {
    let with = |rarity: &str| {
        decode_achievement(&format!(
            "{{\"id\":7,\"title\":\"t\",\"description\":\"d\",\"points\":1,\"rarity_percent\":{}}}",
            rarity
        ))
        .map(|a| a.rarity_basis_points)
    };
    assert_eq!(with("12.5"), Some(Some(1250)));
    assert_eq!(with("0.0000001"), Some(Some(0)));
    assert_eq!(with("2.5e-3"), Some(Some(0)));
    assert_eq!(with("25e-1"), Some(Some(250)));
    assert_eq!(with("-2.5"), Some(Some(0)));
    assert_eq!(with("-3"), Some(Some(0)));
    assert_eq!(with("1e20"), Some(Some(u32::MAX)));
    assert_eq!(with("null"), Some(None));
    assert_eq!(with("\"12\""), None);
    assert_eq!(with("true"), None);
}

#[test]
fn lines_end_at_line_feeds() {
    assert_eq!(message_lines("a\nb"), vec!["a", "b"]);
    assert_eq!(message_lines("a\n\nb\n"), vec!["a", "", "b"]);
    assert_eq!(message_lines("\n"), vec![""]);
    assert_eq!(message_lines("a\r"), vec!["a\r"]);
    assert_eq!(message_lines("a\r\r\nb\rc\n"), vec!["a\r", "b\rc"]);
    assert_eq!(message_lines(&format!("{}{}", frame("one"), frame("two"))), vec!["one", "two"]);
}
