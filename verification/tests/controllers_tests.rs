use kazeta_core::controllers::{
    ControllerReport, ControllerState, GamepadButtonState, PadAxis, PadEvent, PadReport, MAX_PLAYERS,
};
use kazeta_core::hotkeys::GamepadButtonType;

fn report(id: usize, name: &str, uuid: &str) -> ControllerReport {
    ControllerReport { id, name: name.to_string(), uuid: uuid.to_string() }
}

fn table(count: usize) -> ControllerState {
    let mut state = ControllerState::new(0);
    let reports = (0..count).map(|i| report(10 + i, &format!("Pad {}", i), &format!("uuid-{}", i))).collect();
    state.update_connected(reports);
    state
}

fn agrees(state: &ControllerState) -> bool {
    let forward = state.controllers.iter().all(|c| match c.assigned_player {
        Some(p) => p >= 1 && p <= MAX_PLAYERS && state.player_assignments[p - 1] == Some(c.id),
        None => true,
    });
    let backward = state.player_assignments.iter().enumerate().all(|(q, slot)| match slot {
        Some(id) => state.controllers.iter().any(|c| c.id == *id && c.assigned_player == Some(q + 1)),
        None => true,
    });
    forward && backward
}

#[test]
fn assignment_sets_both_sides() {
    let mut state = table(3);
    assert_eq!(state.assign_controller_to_player(11, 2), Ok(()));
    assert_eq!(state.controllers[1].assigned_player, Some(2));
    assert_eq!(state.player_assignments, [None, Some(11), None, None]);
    assert_eq!(state.get_player_controller(2).map(|c| c.name.clone()), Some("Pad 1".to_string()));
    assert!(state.get_player_controller(1).is_none());
    assert!(agrees(&state));
}

#[test]
fn assignment_frees_former_player_and_former_controller() {
    let mut state = table(3);
    state.assign_controller_to_player(10, 1).unwrap();
    state.assign_controller_to_player(11, 2).unwrap();
    // Controller 10 moves to player 2: player 1 is free, controller 11 is free.
    state.assign_controller_to_player(10, 2).unwrap();
    assert_eq!(state.player_assignments, [None, Some(10), None, None]);
    assert_eq!(state.controllers[0].assigned_player, Some(2));
    assert_eq!(state.controllers[1].assigned_player, None);
    assert!(agrees(&state));
    // Assigning again to the same player changes nothing.
    state.assign_controller_to_player(10, 2).unwrap();
    assert_eq!(state.player_assignments, [None, Some(10), None, None]);
    assert!(agrees(&state));
}

#[test]
fn assignment_errors() {
    let mut state = table(1);
    assert_eq!(state.assign_controller_to_player(10, 0), Err("Invalid player number: 0".to_string()));
    assert_eq!(state.assign_controller_to_player(10, 5), Err("Invalid player number: 5".to_string()));
    assert_eq!(state.assign_controller_to_player(42, 1), Err("Controller 42 not found".to_string()));
    assert_eq!(state.player_assignments, [None, None, None, None]);
    assert!(state.get_player_controller(0).is_none());
    assert!(state.get_player_controller(5).is_none());
}

#[test]
fn unassign_frees_the_slot() {
    let mut state = table(2);
    state.assign_controller_to_player(11, 4).unwrap();
    state.unassign_controller(11);
    assert_eq!(state.player_assignments, [None, None, None, None]);
    assert_eq!(state.controllers[1].assigned_player, None);
    state.unassign_controller(99);
    assert!(agrees(&state));
}

#[test]
fn auto_assign_fills_slots_in_connection_order() {
    let mut state = table(6);
    state.assign_controller_to_player(15, 1).unwrap();
    state.auto_assign_all();
    assert_eq!(state.player_assignments, [Some(10), Some(11), Some(12), Some(13)]);
    let players: Vec<Option<usize>> = state.controllers.iter().map(|c| c.assigned_player).collect();
    assert_eq!(players, vec![Some(1), Some(2), Some(3), Some(4), None, None]);
    assert!(agrees(&state));
    let mut few = table(2);
    few.auto_assign_all();
    assert_eq!(few.player_assignments, [Some(10), Some(11), None, None]);
    assert!(agrees(&few));
}

#[test]
fn refresh_keeps_players_of_controllers_that_stay() {
    let mut state = table(3);
    state.auto_assign_all();
    // Controller 11 is unplugged, a new one arrives.
    state.update_connected(vec![report(10, "Pad 0", "uuid-0"), report(12, "Pad 2", "uuid-2"), report(20, "New", "uuid-9")]);
    assert_eq!(state.controllers.len(), 3);
    assert_eq!(state.controllers[0].assigned_player, Some(1));
    assert_eq!(state.controllers[1].assigned_player, Some(3));
    assert_eq!(state.controllers[2].assigned_player, None);
    assert_eq!(state.player_assignments, [Some(10), None, Some(12), None]);
    assert!(!state.controllers[2].is_wireless);
    assert_eq!(state.controllers[2].battery_level, None);
    assert!(agrees(&state));
}

#[test]
fn refresh_never_gives_one_player_to_two_controllers() {
    let mut state = ControllerState::new(0);
    state.update_connected(vec![report(1, "Pad", "same-model")]);
    state.assign_controller_to_player(1, 1).unwrap();
    // A second controller of the same model shares the uuid.
    state.update_connected(vec![report(1, "Pad", "same-model"), report(2, "Pad", "same-model")]);
    assert_eq!(state.controllers[0].assigned_player, Some(1));
    assert_eq!(state.controllers[1].assigned_player, None);
    assert_eq!(state.player_assignments, [Some(1), None, None, None]);
    assert!(agrees(&state));
    // A report that repeats an id is passed over.
    state.update_connected(vec![report(1, "Pad", "same-model"), report(1, "Twin", "other")]);
    assert_eq!(state.controllers.len(), 1);
    assert!(agrees(&state));
}

#[test]
fn messages_replace_each_other_and_success_expires() {
    let mut state = ControllerState::new(0);
    state.show_error("bad".to_string());
    state.show_success("good".to_string(), 1000);
    assert_eq!(state.error_message, None);
    state.update_messages(4000);
    assert_eq!(state.success_message, Some(("good".to_string(), 1000)));
    state.update_messages(4001);
    assert_eq!(state.success_message, None);
    state.show_success("again".to_string(), 10);
    state.show_error("bad".to_string());
    assert_eq!(state.success_message, None);
    assert_eq!(state.error_message, Some("bad".to_string()));
    state.clear_messages();
    assert_eq!(state.error_message, None);
}

#[test]
fn tester_follows_the_selected_controller_only() {
    let mut state = table(2);
    state.tester_selected_controller = 1;
    let events = vec![
        PadReport { id: 10, event: PadEvent::Pressed(GamepadButtonType::South) },
        PadReport { id: 11, event: PadEvent::Pressed(GamepadButtonType::East) },
        PadReport { id: 11, event: PadEvent::Pressed(GamepadButtonType::Mode) },
        PadReport { id: 11, event: PadEvent::Released(GamepadButtonType::East) },
        PadReport { id: 11, event: PadEvent::Axis(PadAxis::LeftZ, 1000) },
        PadReport { id: 11, event: PadEvent::Axis(PadAxis::RightZ, 0) },
        PadReport { id: 11, event: PadEvent::Axis(PadAxis::LeftStickX, -250) },
        PadReport { id: 11, event: PadEvent::Axis(PadAxis::RightStickY, 999) },
        PadReport { id: 11, event: PadEvent::Pressed(GamepadButtonType::LeftTrigger) },
        PadReport { id: 11, event: PadEvent::Other },
    ];
    state.update_tester(&events, 777);
    let expected = GamepadButtonState {
        guide: true,
        lt: 1000,
        rt: 500,
        left_stick_x: -250,
        right_stick_y: 999,
        ..GamepadButtonState::default()
    };
    assert_eq!(state.tester_button_state, expected);
    assert_eq!(state.tester_last_input_ms, 777);
    // Events of other controllers leave the time of the last input alone.
    state.update_tester(&vec![PadReport { id: 10, event: PadEvent::Pressed(GamepadButtonType::North) }], 900);
    assert_eq!(state.tester_last_input_ms, 777);
    assert_eq!(state.tester_button_state, expected);
    state.reset_tester_state();
    assert_eq!(state.tester_button_state, GamepadButtonState::default());
    // No controller at the selected place: nothing is followed.
    state.tester_selected_controller = 5;
    state.update_tester(&events, 1000);
    assert_eq!(state.tester_button_state, GamepadButtonState::default());
}

#[test]
fn every_tester_button() {
    let buttons = [
        GamepadButtonType::South,
        GamepadButtonType::East,
        GamepadButtonType::West,
        GamepadButtonType::North,
        GamepadButtonType::DPadUp,
        GamepadButtonType::DPadDown,
        GamepadButtonType::DPadLeft,
        GamepadButtonType::DPadRight,
        GamepadButtonType::LeftBumper,
        GamepadButtonType::RightBumper,
        GamepadButtonType::LeftStick,
        GamepadButtonType::RightStick,
        GamepadButtonType::Start,
        GamepadButtonType::Select,
        GamepadButtonType::Mode,
    ];
    let mut state = GamepadButtonState::new();
    for button in buttons {
        state.apply(PadEvent::Pressed(button));
    }
    let all = [
        state.a, state.b, state.x, state.y, state.dpad_up, state.dpad_down, state.dpad_left, state.dpad_right,
        state.lb, state.rb, state.ls_press, state.rs_press, state.start, state.select, state.guide,
    ];
    assert!(all.iter().all(|down| *down));
    for button in buttons {
        state.apply(PadEvent::Released(button));
    }
    assert_eq!(state, GamepadButtonState::default());
    state.apply(PadEvent::Axis(PadAxis::LeftZ, -1000));
    assert_eq!(state.lt, 0);
    state.apply(PadEvent::Axis(PadAxis::LeftZ, 5000));
    assert_eq!(state.lt, 1000);
    state.apply(PadEvent::Axis(PadAxis::RightZ, -4000));
    assert_eq!(state.rt, 0);
    state.apply(PadEvent::Axis(PadAxis::LeftStickY, 12));
    state.apply(PadEvent::Axis(PadAxis::RightStickX, -7));
    state.apply(PadEvent::Axis(PadAxis::Other, 99));
    assert_eq!((state.left_stick_y, state.right_stick_x), (12, -7));
}

#[test]
fn first_report_of_each_id_stays() {
    let mut state = ControllerState::new(0);
    state.update_connected(vec![
        report(7, "First", "a"),
        report(3, "Other", "b"),
        report(7, "Twin", "c"),
        report(3, "Twin too", "d"),
        report(9, "Last", "e"),
    ]);
    let kept: Vec<(usize, String, String)> =
        state.controllers.iter().map(|c| (c.id, c.name.clone(), c.uuid.clone())).collect();
    assert_eq!(
        kept,
        vec![
            (7, "First".to_string(), "a".to_string()),
            (3, "Other".to_string(), "b".to_string()),
            (9, "Last".to_string(), "e".to_string()),
        ]
    );
    assert!(agrees(&state));
}
