use kazeta_core::input::ControllerInput;
use kazeta_core::ipc::{AchievementInfo, OverlayMessage, OverlayScreen, ToastStyle};
use kazeta_core::menu_config::{MenuConfigManager, MenuItemId};
use kazeta_core::playtime::{PlaytimeDatabase, PlaytimeTracker};
use kazeta_core::state::{
    emulator_process_names, quit_signal_text, OverlayAction, OverlayState, QUIT_SIGNAL_FILE, QUIT_SIGNAL_LINE,
};
use kazeta_core::theme::{NamedColor, ThemeConfigManager, ThemePreset};

fn fresh_state() -> OverlayState {
    let playtime = PlaytimeTracker::new(PlaytimeDatabase::new());
    let (menu_config, _) = MenuConfigManager::from_loaded("/tmp/menu.json".to_string(), None);
    let (theme_config, _) = ThemeConfigManager::from_loaded("/tmp/theme.json".to_string(), None);
    OverlayState::new(playtime, menu_config, theme_config, 0)
}

fn state_on(screen: OverlayScreen) -> OverlayState {
    let mut state = fresh_state();
    state.visible = true;
    state.current_screen = screen;
    state
}

fn achievement(id: u32, title: &str, earned: bool) -> AchievementInfo {
    AchievementInfo {
        id,
        title: title.to_string(),
        description: String::new(),
        points: 5,
        earned,
        earned_hardcore: false,
        rarity_basis_points: None,
        earned_at: None,
        progress: None,
    }
}

fn invariant_holds(state: &OverlayState) -> bool {
    let rows = state.menu_config.config().get_visible_items().len();
    let ok = |selected: usize, scroll: usize, max_visible: usize, total: usize| {
        scroll <= selected && selected < scroll + max_visible && scroll <= total.saturating_sub(max_visible)
    };
    ok(state.selected_option, state.main_menu_scroll_offset, 6, rows)
        && ok(state.menu_customization_selected, state.menu_customization_scroll_offset, 6, 8)
        && ok(state.theme_selected, state.theme_selection_scroll_offset, 5, 5)
}

#[test]
fn test_quit_confirm_selection() {
    let mut state = state_on(OverlayScreen::QuitConfirm);

    // Default should be Cancel (0)
    assert_eq!(state.quit_confirm_selected, 0);

    // Navigate to Quit
    state.handle_input(ControllerInput::Right, 0);
    assert_eq!(state.quit_confirm_selected, 1);

    // Navigate back to Cancel
    state.handle_input(ControllerInput::Left, 0);
    assert_eq!(state.quit_confirm_selected, 0);

    // Any direction should toggle
    state.handle_input(ControllerInput::Up, 0);
    assert_eq!(state.quit_confirm_selected, 1);

    state.handle_input(ControllerInput::Down, 0);
    assert_eq!(state.quit_confirm_selected, 0);
}

#[test]
fn test_quit_confirm_cancel() {
    let mut state = state_on(OverlayScreen::QuitConfirm);
    state.quit_confirm_selected = 0; // Cancel selected

    // Select Cancel
    let action = state.handle_input(ControllerInput::Select, 0);

    // Should return to main menu
    assert_eq!(state.current_screen, OverlayScreen::Main);
    // The cancel path asks for no quit signal.
    assert_eq!(action, OverlayAction::Nothing);
    assert!(state.toasts.is_empty());
}

#[test]
fn test_quit_confirm_back_button() {
    let mut state = state_on(OverlayScreen::QuitConfirm);
    state.quit_confirm_selected = 1; // Quit selected

    // Press Back button - should always cancel even if Quit is selected
    let action = state.handle_input(ControllerInput::Back, 0);

    // Should return to main menu
    assert_eq!(state.current_screen, OverlayScreen::Main);
    assert_eq!(action, OverlayAction::Nothing);
}

#[test]
fn test_screen_navigation() {
    let mut state = state_on(OverlayScreen::Main);

    // Navigate to achievements screen
    state.selected_option = 2; // Achievements is typically at index 2
    state.handle_input(ControllerInput::Select, 0);
    assert_eq!(state.current_screen, OverlayScreen::Achievements);

    // Go back to main menu
    state.handle_input(ControllerInput::Back, 0);
    assert_eq!(state.current_screen, OverlayScreen::Main);
}

#[test]
fn quit_flow_signals_then_hides() {
    let mut state = state_on(OverlayScreen::QuitConfirm);
    state.quit_confirm_selected = 1;
    let action = state.handle_input(ControllerInput::Select, 100);
    assert_eq!(action, OverlayAction::SignalQuit);
    assert!(state.is_visible());
    {
        let toasts = state.toasts.get_visible_toasts();
        assert_eq!(toasts.len(), 1);
        assert_eq!(toasts[0].message, "Returning to BIOS...");
        assert_eq!(toasts[0].duration_ms, 2000);
        assert_eq!(toasts[0].style, ToastStyle::Info);
    }
    state.quit_signalled(Ok(()), 120);
    assert!(!state.is_visible());
    assert_eq!(QUIT_SIGNAL_FILE, "/tmp/kazeta-quit-game");
    assert_eq!(format!("{}\n", QUIT_SIGNAL_LINE), "quit\n");
}

#[test]
fn failed_quit_signal_is_an_error_toast_and_overlay_stays() {
    let mut state = state_on(OverlayScreen::QuitConfirm);
    state.quit_confirm_selected = 1;
    state.handle_input(ControllerInput::Select, 100);
    state.quit_signalled(Err("disk full".to_string()), 120);
    assert!(state.is_visible());
    let toasts = state.toasts.get_visible_toasts();
    assert_eq!(toasts.len(), 2);
    assert_eq!(toasts[1].message, "Failed to quit: disk full");
    assert_eq!(toasts[1].style, ToastStyle::Error);
    assert_eq!(toasts[1].duration_ms, 3000);
}

#[test]
fn cancel_reselects_the_quit_entry() {
    let mut state = state_on(OverlayScreen::QuitConfirm);
    state.handle_input(ControllerInput::Back, 0);
    let quit_index = state.menu_config.config().get_visible_index(MenuItemId::Quit).unwrap();
    assert_eq!(quit_index, 7);
    assert_eq!(state.selected_option, 7);
    assert_eq!(state.main_menu_scroll_offset, 2);
    assert!(invariant_holds(&state));
}

#[test]
fn emulators_told_to_end() {
    assert_eq!(emulator_process_names(), vec!["mgba-qt", "vbam", "visualboyadvance-m", "retroarch", "dolphin-emu"]);
}

#[test]
fn hidden_overlay_ignores_input() {
    let mut state = fresh_state();
    let action = state.handle_input(ControllerInput::Down, 0);
    assert_eq!(action, OverlayAction::Nothing);
    assert_eq!(state.selected_option, 0);
    assert!(!state.is_visible());
}

#[test]
fn toggle_opens_on_main_with_first_entry() {
    let mut state = state_on(OverlayScreen::Settings);
    state.selected_option = 7;
    state.main_menu_scroll_offset = 2;
    state.toggle_visibility();
    assert!(!state.is_visible());
    state.toggle_visibility();
    assert!(state.is_visible());
    assert_eq!(state.current_screen, OverlayScreen::Main);
    assert_eq!(state.selected_option, 0);
    assert_eq!(state.main_menu_scroll_offset, 0);
    assert!(invariant_holds(&state));
    let action = state.handle_message(OverlayMessage::ToggleOverlay, 0, 0);
    assert_eq!(action, OverlayAction::Nothing);
    assert!(!state.is_visible());
}

#[test]
fn scroll_follows_selection_through_the_main_menu() {
    let mut state = state_on(OverlayScreen::Main);
    let mut expected_scroll = vec![0, 0, 0, 0, 0, 1, 2, 2, 2];
    expected_scroll.reverse();
    for step in 0..9 {
        state.handle_input(ControllerInput::Down, 0);
        assert!(invariant_holds(&state), "after {} steps down", step + 1);
        assert_eq!(state.main_menu_scroll_offset, expected_scroll.pop().unwrap());
    }
    // Eight entries: the selection stops at the last.
    assert_eq!(state.selected_option, 7);
    for _ in 0..9 {
        state.handle_input(ControllerInput::Up, 0);
        assert!(invariant_holds(&state));
    }
    assert_eq!(state.selected_option, 0);
    assert_eq!(state.main_menu_scroll_offset, 0);
}

#[test]
fn invariant_survives_a_walk_through_the_screens() {
    let mut state = state_on(OverlayScreen::Main);
    let walk = [
        ControllerInput::Down,
        ControllerInput::Select, // Settings
        ControllerInput::Select, // Menu customization
        ControllerInput::Down,
        ControllerInput::Down,
        ControllerInput::Down,
        ControllerInput::Down,
        ControllerInput::Down,
        ControllerInput::Down,
        ControllerInput::Down,
        ControllerInput::Down,
        ControllerInput::Select,
        ControllerInput::Back, // Settings
        ControllerInput::Down,
        ControllerInput::Select, // Theme selection
        ControllerInput::Down,
        ControllerInput::Down,
        ControllerInput::Down,
        ControllerInput::Down,
        ControllerInput::Down,
        ControllerInput::Up,
        ControllerInput::Back, // Settings
        ControllerInput::Up,
        ControllerInput::Select, // Menu customization again, from the top
        ControllerInput::Back,
        ControllerInput::Back, // Main
        ControllerInput::Down,
        ControllerInput::Down,
        ControllerInput::Down,
        ControllerInput::Down,
        ControllerInput::Down,
        ControllerInput::Down,
        ControllerInput::Select, // Quit confirm
        ControllerInput::Back,
        ControllerInput::Guide,
    ];
    for (n, input) in walk.iter().enumerate() {
        state.handle_input(*input, n as u64);
        assert!(invariant_holds(&state), "after input {} ({:?})", n, input);
    }
    assert!(!state.is_visible());
    assert_eq!(state.menu_customization_selected, 0);
    assert_eq!(state.menu_customization_scroll_offset, 0);
    assert_eq!(state.theme_selected, 3);
}

#[test]
fn main_menu_entries_lead_to_their_screens() {
    let targets = [
        (0, OverlayScreen::Controllers),
        (1, OverlayScreen::Settings),
        (2, OverlayScreen::Achievements),
        (3, OverlayScreen::Performance),
        (4, OverlayScreen::Playtime),
        (5, OverlayScreen::Main),
        (7, OverlayScreen::QuitConfirm),
    ];
    for (index, screen) in targets {
        let mut state = state_on(OverlayScreen::Main);
        state.selected_option = index;
        state.clamp_selection();
        state.handle_input(ControllerInput::Select, 0);
        assert_eq!(state.current_screen, screen);
        assert!(state.is_visible());
    }
    // Resume hides the overlay.
    let mut state = state_on(OverlayScreen::Main);
    state.selected_option = 6;
    state.clamp_selection();
    state.handle_input(ControllerInput::Select, 0);
    assert!(!state.is_visible());
}

#[test]
fn back_from_main_hides_the_overlay() {
    let mut state = state_on(OverlayScreen::Main);
    state.handle_input(ControllerInput::Back, 0);
    assert!(!state.is_visible());
}

#[test]
fn controller_menu_entries() {
    let mut state = state_on(OverlayScreen::Controllers);
    for _ in 0..10 {
        state.handle_input(ControllerInput::Down, 0);
    }
    assert_eq!(state.controllers.selected_menu_item, 5);
    for _ in 0..3 {
        state.handle_input(ControllerInput::Up, 0);
    }
    assert_eq!(state.controllers.selected_menu_item, 2);
    state.handle_input(ControllerInput::Select, 0);
    assert_eq!(state.current_screen, OverlayScreen::GamepadTester);
    state.handle_input(ControllerInput::Back, 0);
    assert_eq!(state.current_screen, OverlayScreen::Controllers);
    assert_eq!(state.controllers.selected_menu_item, 2);
    state.handle_input(ControllerInput::Down, 0);
    state.handle_input(ControllerInput::Select, 0);
    assert_eq!(state.current_screen, OverlayScreen::HotkeySettings);
    state.handle_input(ControllerInput::Back, 0);
    assert_eq!(state.controllers.selected_menu_item, 3);
    state.handle_input(ControllerInput::Back, 0);
    assert_eq!(state.current_screen, OverlayScreen::Main);
    assert_eq!(state.selected_option, 0);
}

#[test]
fn theme_selection_asks_for_a_save_and_reports() {
    let mut state = state_on(OverlayScreen::ThemeSelection);
    state.handle_input(ControllerInput::Down, 0);
    state.handle_input(ControllerInput::Down, 0);
    let action = state.handle_input(ControllerInput::Select, 0);
    assert_eq!(action, OverlayAction::SaveTheme);
    assert_eq!(state.theme_config.theme_name(), "Retro Green");
    assert_eq!(state.theme_config.theme().preset, ThemePreset::RetroGreen);
    state.theme_saved(Ok(()), 10);
    state.theme_saved(Err("read-only".to_string()), 20);
    let toasts = state.toasts.get_visible_toasts();
    assert_eq!(toasts[0].message, "Theme set to: Retro Green");
    assert_eq!(toasts[0].duration_ms, 2000);
    assert_eq!(toasts[1].message, "Failed to set theme: read-only");
    assert_eq!(toasts[1].style, ToastStyle::Error);
}

#[test]
fn show_toast_message_from_cold_start() {
    let mut state = fresh_state();
    let message = OverlayMessage::ShowToast {
        message: "hi".to_string(),
        icon: None,
        duration_ms: 1000,
        style: ToastStyle::Info,
    };
    state.handle_message(message, 5000, 0);
    assert!(state.should_render());
    state.update(5000 + 950);
    assert_eq!(state.toasts.get_visible_toasts().len(), 1);
    state.update(5000 + 1100);
    assert_eq!(state.toasts.get_visible_toasts().len(), 0);
    assert!(!state.should_render());
}

#[test]
fn list_after_game_stopped_repopulates_the_tracker() {
    let mut state = fresh_state();
    state.handle_message(
        OverlayMessage::GameStarted { cart_id: "A".to_string(), game_name: "Game A".to_string(), runtime: "gba".to_string() },
        0,
        100,
    );
    state.handle_message(
        OverlayMessage::RaGameStart {
            game_title: "Game A".to_string(),
            game_id: Some(7),
            game_icon: None,
            total_achievements: 2,
            earned_achievements: 1,
        },
        10,
        100,
    );
    state.handle_message(
        OverlayMessage::RaAchievementList {
            game_title: "Game A".to_string(),
            game_hash: "hash-a".to_string(),
            achievements: vec![achievement(1, "a1", true), achievement(2, "a2", false)],
        },
        20,
        100,
    );
    assert_eq!(state.achievements.game_id, Some(7));
    let action = state.handle_message(OverlayMessage::GameStopped { cart_id: "A".to_string() }, 5000, 105);
    assert_eq!(action, OverlayAction::SavePlaytime);
    assert!(!state.achievements.has_game());
    assert_eq!(state.achievements.achievements.len(), 0);
    assert_eq!(state.achievements.game_title, "");
    state.handle_message(
        OverlayMessage::RaAchievementList {
            game_title: "Game B".to_string(),
            game_hash: "hash-b".to_string(),
            achievements: vec![achievement(9, "b1", false)],
        },
        6000,
        106,
    );
    assert_eq!(state.achievements.game_title, "Game B");
    assert_eq!(state.achievements.game_hash, "hash-b");
    assert_eq!(state.achievements.game_id, None);
    assert_eq!(state.achievements.achievements.len(), 1);
    assert_eq!(state.achievements.achievements[0].id, 9);
    assert_eq!(state.achievements.progress.total, 1);
    assert_eq!(state.achievements.progress.earned, 0);
    assert_eq!(state.achievements.filter.filtered_indices, vec![0]);
    let entry = state.playtime.get_playtime("A").unwrap();
    assert_eq!(entry.total_seconds, 5);
    assert_eq!(entry.play_count, 1);
    assert_eq!(entry.last_played, Some(105));
}

#[test]
fn messages_of_one_connection_are_handled_in_order() {
    let mut state = fresh_state();
    let actions = state.handle_messages(
        vec![
            OverlayMessage::ShowOverlay { screen: OverlayScreen::Settings },
            OverlayMessage::HideOverlay,
            OverlayMessage::ShowOverlay { screen: OverlayScreen::Playtime },
            OverlayMessage::QuitGame,
            OverlayMessage::QuitGameAck,
        ],
        0,
        0,
    );
    assert_eq!(
        actions,
        vec![
            OverlayAction::Nothing,
            OverlayAction::Nothing,
            OverlayAction::Nothing,
            OverlayAction::SignalQuit,
            OverlayAction::Nothing
        ]
    );
    assert!(state.is_visible());
    assert_eq!(state.current_screen, OverlayScreen::Playtime);
    assert_eq!(state.toasts.get_visible_toasts()[0].message, "Returning to BIOS...");
}

#[test]
fn unlock_message_marks_counts_and_toasts() {
    let mut state = fresh_state();
    state.handle_message(
        OverlayMessage::RaAchievementList {
            game_title: "G".to_string(),
            game_hash: "h".to_string(),
            achievements: vec![achievement(1, "a1", false)],
        },
        0,
        0,
    );
    state.handle_message(
        OverlayMessage::RaAchievementUnlocked {
            achievement_id: 1,
            title: "First Blood".to_string(),
            description: None,
            points: 25,
            icon_url: None,
            is_hardcore: false,
        },
        50,
        0,
    );
    assert!(state.achievements.achievements[0].earned);
    assert_eq!(state.achievements.progress.earned, 1);
    let toasts = state.toasts.get_visible_toasts();
    assert_eq!(toasts[0].message, "\u{1F3C6} First Blood (25 points)");
    assert_eq!(toasts[0].style, ToastStyle::Success);
    assert_eq!(toasts[0].duration_ms, 5000);
    assert_eq!(toasts[0].created_ms, 50);
}

#[test]
fn progress_and_theme_messages() {
    let mut state = fresh_state();
    state.handle_message(OverlayMessage::RaProgressUpdate { earned: 3, total: 9 }, 0, 0);
    assert_eq!(state.achievements.progress.earned, 3);
    assert_eq!(state.achievements.progress.total, 9);
    state.handle_message(
        OverlayMessage::SetTheme { font_color: "red".to_string(), cursor_color: "nonsense".to_string() },
        0,
        0,
    );
    assert_eq!(state.theme_config.colors(), (Some(NamedColor::Red), Some(NamedColor::White)));
    let before = state.selected_option;
    state.handle_message(OverlayMessage::GetStatus, 0, 0);
    state.handle_message(
        OverlayMessage::UnlockAchievement { cart_id: "c".to_string(), achievement_id: "a".to_string(), timestamp: 1 },
        0,
        0,
    );
    assert_eq!(state.selected_option, before);
    assert!(state.toasts.is_empty());
}

#[test]
fn game_started_twice_records_the_first_session() {
    let mut state = fresh_state();
    let first = state.handle_message(
        OverlayMessage::GameStarted { cart_id: "A".to_string(), game_name: "A".to_string(), runtime: "x".to_string() },
        1_000,
        50,
    );
    assert_eq!(first, OverlayAction::Nothing);
    let second = state.handle_message(
        OverlayMessage::GameStarted { cart_id: "B".to_string(), game_name: "B".to_string(), runtime: "x".to_string() },
        4_500,
        53,
    );
    assert_eq!(second, OverlayAction::SavePlaytime);
    assert_eq!(state.playtime.get_playtime("A").unwrap().total_seconds, 3);
    assert!(state.playtime.get_playtime("B").is_none());
    assert_eq!(state.playtime.current_session_seconds(6_500), Some(2));
}

#[test]
fn adjust_scroll_offset_cases() {
    let mut scroll = 0;
    OverlayState::adjust_scroll_offset(7, &mut scroll, 6, 8);
    assert_eq!(scroll, 2);
    OverlayState::adjust_scroll_offset(1, &mut scroll, 6, 8);
    assert_eq!(scroll, 1);
    OverlayState::adjust_scroll_offset(3, &mut scroll, 6, 8);
    assert_eq!(scroll, 1);
    // Never past the end of the list.
    let mut far = 9;
    OverlayState::adjust_scroll_offset(9, &mut far, 6, 8);
    assert_eq!(far, 2);
    // A short list is never scrolled.
    let mut short = 3;
    OverlayState::adjust_scroll_offset(2, &mut short, 6, 4);
    assert_eq!(short, 0);
}

#[test]
fn clamp_selection_after_entries_were_hidden() {
    let mut state = state_on(OverlayScreen::Main);
    for _ in 0..7 {
        state.handle_input(ControllerInput::Down, 0);
    }
    assert_eq!(state.selected_option, 7);
    state.menu_config.config_mut().set_visibility(MenuItemId::Quit, false);
    state.menu_config.config_mut().set_visibility(MenuItemId::Resume, false);
    state.menu_config.config_mut().set_visibility(MenuItemId::QuickSave, false);
    state.clamp_selection();
    assert_eq!(state.selected_option, 4);
    assert_eq!(state.main_menu_scroll_offset, 0);
    assert!(invariant_holds(&state));
}

#[test]
fn frame_pause_is_long_while_nothing_is_drawn() {
    let mut state = fresh_state();
    assert_eq!(state.frame_pause_us(1_000), 50_000);
    state.performance.toggle_visibility();
    assert_eq!(state.frame_pause_us(1_000), 15_666);
    assert_eq!(state.frame_pause_us(20_000), 0);
    state.performance.toggle_visibility();
    state.toggle_visibility();
    assert_eq!(state.frame_pause_us(16_000), 666);
}

#[test]
fn quit_signal_is_one_line() {
    assert_eq!(quit_signal_text(), "quit\n");
    assert_eq!(QUIT_SIGNAL_FILE, "/tmp/kazeta-quit-game");
}

#[test]
fn only_select_on_quit_asks_for_the_signal() {
    let inputs = [
        ControllerInput::Up,
        ControllerInput::Down,
        ControllerInput::Left,
        ControllerInput::Right,
        ControllerInput::Select,
        ControllerInput::Back,
    ];
    for selected in 0..2usize {
        for input in inputs {
            let mut state = state_on(OverlayScreen::QuitConfirm);
            state.quit_confirm_selected = selected;
            let action = state.handle_input(input, 10);
            let asks = action == OverlayAction::SignalQuit;
            assert_eq!(asks, selected == 1 && input == ControllerInput::Select);
            assert!(state.visible);
            if asks {
                assert_eq!(state.current_screen, OverlayScreen::QuitConfirm);
                state.quit_signalled(Ok(()), 20);
                assert!(!state.visible);
            }
        }
    }
}
