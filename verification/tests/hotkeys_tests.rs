use kazeta_core::hotkeys::{
    GamepadButtonType, HotkeyAction, HotkeyBinding, HotkeyConfig, HotkeyManager, InputComponent, ModifierKey,
};

fn fresh_manager() -> HotkeyManager {
    let (manager, write_default) = HotkeyManager::from_loaded("/tmp/hotkeys.json".to_string(), None);
    assert!(write_default);
    manager
}

#[test]
fn test_default_config_has_all_actions() {
    let config = HotkeyConfig::default_config();

    for action in HotkeyAction::all() {
        assert!(
            config.bindings.iter().any(|list| list.action == action),
            "Default config missing binding for {:?}",
            action
        );
    }
}

#[test]
fn test_binding_display_string() {
    let binding = HotkeyBinding::new(
        vec![InputComponent::Modifier(ModifierKey::Ctrl), InputComponent::Key("F12".to_string())],
        "Test binding".to_string(),
    );

    assert_eq!(binding.display_string(), "Ctrl+F12");
}

#[test]
fn test_conflict_detection() {
    let manager = fresh_manager();

    let test_components = vec![InputComponent::Key("F12".to_string())];

    // F12 is bound to ToggleOverlay by default
    let conflict = manager.has_conflict(&test_components);
    assert_eq!(conflict, Some(HotkeyAction::ToggleOverlay));
}

#[test]
fn test_add_remove_binding() {
    let mut manager = fresh_manager();

    let new_binding = HotkeyBinding::new(vec![InputComponent::Key("F1".to_string())], "Test F1".to_string());

    let initial_count = manager.get_bindings(HotkeyAction::ToggleOverlay).map(|b| b.len()).unwrap_or(0);

    manager.add_binding(HotkeyAction::ToggleOverlay, new_binding);

    let after_add = manager.get_bindings(HotkeyAction::ToggleOverlay).map(|b| b.len()).unwrap_or(0);

    assert_eq!(after_add, initial_count + 1);

    manager.remove_binding(HotkeyAction::ToggleOverlay, initial_count);

    let after_remove = manager.get_bindings(HotkeyAction::ToggleOverlay).map(|b| b.len()).unwrap_or(0);

    assert_eq!(after_remove, initial_count);
}

#[test]
fn display_string_of_empty_binding_is_none() {
    let binding = HotkeyBinding::new(vec![], "nothing".to_string());
    assert_eq!(binding.display_string(), "None");
}

#[test]
fn display_names_of_components() {
    assert_eq!(InputComponent::Key("F12".to_string()).display_name(), "F12");
    assert_eq!(InputComponent::GamepadButton(GamepadButtonType::Mode).display_name(), "Mode");
    assert_eq!(InputComponent::GamepadButton(GamepadButtonType::DPadLeft).display_name(), "DPadLeft");
    assert_eq!(InputComponent::Modifier(ModifierKey::Shift).display_name(), "Shift");
}

#[test]
fn binding_fires_on_rising_edge_only() {
    let mut manager = fresh_manager();
    let f3 = vec![InputComponent::Key("F3".to_string())];
    let nothing: Vec<InputComponent> = vec![];

    assert!(!manager.check_action_pressed(HotkeyAction::TogglePerformance, &nothing));
    assert!(manager.check_action_pressed(HotkeyAction::TogglePerformance, &f3));
    // Still held: no second trigger.
    assert!(!manager.check_action_pressed(HotkeyAction::TogglePerformance, &f3));
    // Released, then pressed again.
    assert!(!manager.check_action_pressed(HotkeyAction::TogglePerformance, &nothing));
    assert!(manager.check_action_pressed(HotkeyAction::TogglePerformance, &f3));
}

#[test]
fn combination_needs_all_components() {
    let mut manager = fresh_manager();
    let only_o = vec![InputComponent::Key("O".to_string())];
    let ctrl_o = vec![InputComponent::Key("O".to_string()), InputComponent::Modifier(ModifierKey::Ctrl)];

    assert!(!manager.check_action_pressed(HotkeyAction::ToggleOverlay, &only_o));
    assert!(manager.check_action_pressed(HotkeyAction::ToggleOverlay, &ctrl_o));
}

#[test]
fn remove_binding_out_of_range_changes_nothing() {
    let mut manager = fresh_manager();
    assert!(!manager.remove_binding(HotkeyAction::QuickSave, 5));
    assert_eq!(manager.get_bindings(HotkeyAction::QuickSave).map(|b| b.len()), Some(1));
    assert!(manager.remove_binding(HotkeyAction::QuickSave, 0));
    assert_eq!(manager.get_bindings(HotkeyAction::QuickSave).map(|b| b.len()), Some(0));
}

#[test]
fn no_conflict_for_unbound_combination() {
    let manager = fresh_manager();
    assert_eq!(manager.has_conflict(&vec![InputComponent::Key("F1".to_string())]), None);
    assert_eq!(
        manager.has_conflict(&vec![InputComponent::Key("F9".to_string())]),
        Some(HotkeyAction::QuickLoad)
    );
}

#[test]
fn stored_names_of_actions_round_trip() {
    for action in HotkeyAction::all() {
        assert_eq!(HotkeyAction::from_stored_name(action.stored_name()), Some(action));
    }
    assert_eq!(HotkeyAction::TogglePerformance.stored_name(), "TogglePerformance");
    assert_eq!(HotkeyAction::from_stored_name("Screenshot"), Some(HotkeyAction::Screenshot));
    assert_eq!(HotkeyAction::from_stored_name("screenshot"), None);
}

#[test]
fn buttons_and_modifiers_are_found_by_name() {
    let buttons = [
        GamepadButtonType::South,
        GamepadButtonType::East,
        GamepadButtonType::West,
        GamepadButtonType::North,
        GamepadButtonType::DPadUp,
        GamepadButtonType::DPadDown,
        GamepadButtonType::DPadLeft,
        GamepadButtonType::DPadRight,
        GamepadButtonType::LeftBumper,
        GamepadButtonType::RightBumper,
        GamepadButtonType::LeftTrigger,
        GamepadButtonType::RightTrigger,
        GamepadButtonType::Select,
        GamepadButtonType::Start,
        GamepadButtonType::Mode,
        GamepadButtonType::LeftStick,
        GamepadButtonType::RightStick,
    ];
    for button in buttons {
        assert_eq!(GamepadButtonType::from_name(button.name()), Some(button));
    }
    for modifier in [ModifierKey::Ctrl, ModifierKey::Alt, ModifierKey::Shift] {
        assert_eq!(ModifierKey::from_name(modifier.name()), Some(modifier));
    }
    assert_eq!(GamepadButtonType::from_name("Guide"), None);
    assert_eq!(ModifierKey::from_name("Super"), None);
}
