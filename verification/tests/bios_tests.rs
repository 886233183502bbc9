use kazeta_core::bios::cart::{
    get_attribute, get_rom_name_from_exec, parse_kzi_file, read_line, CartInfo, MgbaLaunchOptions,
};
use kazeta_core::bios::dialog::{
    create_confirm_delete_dialog, create_copy_storage_dialog, create_error_dialog, create_main_dialog,
    create_player_count_dialog, create_save_exists_dialog, create_save_slot_dialog, save_slot_of, Dialog,
};
use kazeta_core::bios::launch::{
    classify_launch, get_mgba_save_dir, is_compressed_package, launch_command, launch_command_path, launch_game,
    launch_game_with_options, player_save_file, rom_extract_dir, state_dir, LaunchKind,
};
use kazeta_core::bios::launcher::{
    achievements_enabled, action_for, choose_existing, game_started_message, game_stopped_message, launch_goes_on,
    launcher_step, next_launch_step, overlay_binary_candidates, source_tree_candidates, start_succeeded, LaunchStep,
    LauncherAction, LauncherEvent, LauncherState, StartOutcome, OVERLAY_BINARY, RESTART_SENTINEL,
};
use kazeta_core::bios::playtime_log::{calculate_playtime, parse_playtime_content, playtime_tenths_of_hours};
use kazeta_core::bios::save::{
    copy_progress, get_cache_dir_from_drive_name, get_save_dir_from_drive_name, has_save_dir, is_cart, plan_copy,
    plan_delete, plan_embedded_save, save_archive_name, should_exclude_path, trim_extension, CopyKind, DeleteKind,
};
use kazeta_core::bios::storage::{external_media_base, list_devices, MountedDisk, StorageMediaState};
use kazeta_core::bios::types::{MenuPosition, StorageMedia};
use kazeta_core::client::ProbeOutcome;
use kazeta_core::ipc::OverlayMessage;

fn cart(runtime: Option<&str>) -> CartInfo {
    CartInfo {
        name: Some("Test Game".to_string()),
        id: "test-game".to_string(),
        exec_cmd: "roms/game.gba".to_string(),
        icon: "icon.png".to_string(),
        runtime: runtime.map(|s| s.to_string()),
        ..CartInfo::default()
    }
}

fn env(spec_envs: &[(String, String)]) -> Vec<(&str, &str)> {
    spec_envs.iter().map(|(k, v)| (k.as_str(), v.as_str())).collect()
}

fn texts(dialog: &Dialog) -> Vec<&str> {
    dialog.options.iter().map(|o| o.text.as_str()).collect()
}

fn values(dialog: &Dialog) -> Vec<&str> {
    dialog.options.iter().map(|o| o.value.as_str()).collect()
}

fn run(events: &[LauncherEvent]) -> (LauncherState, Vec<LauncherAction>) {
    let mut state = LauncherState::Probing;
    let mut actions = vec![action_for(state)];
    for event in events {
        let (next, action) = launcher_step(state, *event);
        state = next;
        actions.push(action);
    }
    (state, actions)
}

#[test]
fn live_daemon_is_reused() {
    let (state, actions) = run(&[LauncherEvent::Probed(ProbeOutcome::Alive)]);
    assert_eq!(state, LauncherState::Done(StartOutcome::Reused));
    assert_eq!(actions, vec![LauncherAction::Probe, LauncherAction::Finish(StartOutcome::Reused)]);
}

#[test]
fn stale_socket_is_removed_before_the_daemon_starts() {
    let (state, actions) = run(&[
        LauncherEvent::Probed(ProbeOutcome::ConnectFailed),
        LauncherEvent::StaleRemoved,
        LauncherEvent::Located(true),
        LauncherEvent::Spawned(true),
        LauncherEvent::Waited,
        LauncherEvent::Checked(true),
    ]);
    assert_eq!(state, LauncherState::Done(StartOutcome::Started));
    assert_eq!(
        actions,
        vec![
            LauncherAction::Probe,
            LauncherAction::RemoveSocket,
            LauncherAction::LocateBinary,
            LauncherAction::Spawn,
            LauncherAction::Wait(1000),
            LauncherAction::CheckAvailable,
            LauncherAction::Finish(StartOutcome::Started),
        ]
    );
    let (_, unresponsive) = run(&[LauncherEvent::Probed(ProbeOutcome::WriteFailed)]);
    assert_eq!(unresponsive[1], LauncherAction::RemoveSocket);
}

#[test]
fn socket_is_waited_for_two_seconds_then_the_launch_goes_on() {
    let (state, actions) = run(&[
        LauncherEvent::Probed(ProbeOutcome::Missing),
        LauncherEvent::Located(true),
        LauncherEvent::Spawned(true),
        LauncherEvent::Waited,
        LauncherEvent::Checked(false),
        LauncherEvent::Waited,
        LauncherEvent::Checked(false),
        LauncherEvent::Waited,
        LauncherEvent::Checked(false),
    ]);
    assert_eq!(state, LauncherState::Done(StartOutcome::Unconfirmed));
    let waited: u64 = actions
        .iter()
        .map(|a| match a {
            LauncherAction::Wait(ms) => *ms,
            _ => 0,
        })
        .sum();
    assert_eq!(waited, 2000);
    assert!(launch_goes_on(StartOutcome::Unconfirmed));
    assert!(start_succeeded(StartOutcome::Unconfirmed));
}

#[test]
fn missing_binary_and_failed_spawn() {
    let (state, _) = run(&[LauncherEvent::Probed(ProbeOutcome::Missing), LauncherEvent::Located(false)]);
    assert_eq!(state, LauncherState::Done(StartOutcome::BinaryNotFound));
    let (state, _) =
        run(&[LauncherEvent::Probed(ProbeOutcome::Missing), LauncherEvent::Located(true), LauncherEvent::Spawned(false)]);
    assert_eq!(state, LauncherState::Done(StartOutcome::SpawnFailed));
    assert!(!start_succeeded(StartOutcome::BinaryNotFound));
    assert!(!start_succeeded(StartOutcome::SpawnFailed));
    assert!(launch_goes_on(StartOutcome::BinaryNotFound));
    // Events that a state does not wait for change nothing.
    let (state, action) = launcher_step(LauncherState::Spawning, LauncherEvent::Waited);
    assert_eq!(state, LauncherState::Spawning);
    assert_eq!(action, LauncherAction::Spawn);
}

#[test]
fn binary_candidates_in_order() {
    assert!(overlay_binary_candidates(false, Some("/x"), Some("/home/u"), Some("/src")).is_empty());
    assert_eq!(
        overlay_binary_candidates(true, Some("/opt/bin"), Some("/home/u"), Some("/src")),
        vec![
            "../overlay/target/debug/kazeta-overlay",
            "../../overlay/target/debug/kazeta-overlay",
            "overlay/target/debug/kazeta-overlay",
            "/opt/bin/../overlay/target/debug/kazeta-overlay",
            "/opt/bin/../../overlay/target/debug/kazeta-overlay",
            "/home/u/sandbox/kazeta-plus/overlay/target/debug/kazeta-overlay",
            "/src/overlay/target/debug/kazeta-overlay",
        ]
    );
    assert_eq!(overlay_binary_candidates(true, None, None, None).len(), 3);
    let candidates = vec!["a".to_string(), "b".to_string(), "c".to_string()];
    assert_eq!(choose_existing(&candidates, &vec![false, true, true], OVERLAY_BINARY), "b");
    assert_eq!(choose_existing(&candidates, &vec![false, false, false], OVERLAY_BINARY), "/usr/bin/kazeta-overlay");
    assert_eq!(choose_existing(&candidates, &vec![], OVERLAY_BINARY), "/usr/bin/kazeta-overlay");
    assert_eq!(choose_existing(&vec![], &vec![true], "fallback"), "fallback");
}

#[test]
fn launch_steps_in_order() {
    let mut step = LaunchStep::StartOverlay;
    let mut seen = vec![step];
    for ok in [false, false, false, true, true] {
        step = next_launch_step(step, ok);
        seen.push(step);
    }
    assert_eq!(
        seen,
        vec![
            LaunchStep::StartOverlay,
            LaunchStep::NotifyGameStarted,
            LaunchStep::SetupAchievements,
            LaunchStep::WriteLaunchCommand,
            LaunchStep::WriteRestartSentinel,
            LaunchStep::Restart,
        ]
    );
    assert_eq!(next_launch_step(LaunchStep::WriteLaunchCommand, false), LaunchStep::Abandoned);
    assert_eq!(next_launch_step(LaunchStep::Abandoned, true), LaunchStep::Abandoned);
    assert_eq!(RESTART_SENTINEL, "/var/kazeta/state/.RESTART_SESSION_SENTINEL");
}

#[test]
fn game_lifecycle_messages() {
    match game_started_message(&cart(Some("vba-m"))) {
        OverlayMessage::GameStarted { cart_id, game_name, runtime } => {
            assert_eq!(cart_id, "test-game");
            assert_eq!(game_name, "Test Game");
            assert_eq!(runtime, "vba-m");
        }
        _ => panic!("wrong message"),
    }
    let nameless = CartInfo { name: None, ..cart(None) };
    match game_started_message(&nameless) {
        OverlayMessage::GameStarted { game_name, runtime, .. } => {
            assert_eq!(game_name, "test-game");
            assert_eq!(runtime, "unknown");
        }
        _ => panic!("wrong message"),
    }
    match game_stopped_message("test-game") {
        OverlayMessage::GameStopped { cart_id } => assert_eq!(cart_id, "test-game"),
        _ => panic!("wrong message"),
    }
    assert!(achievements_enabled("{\"enabled\":true}"));
    assert!(achievements_enabled("{ \"enabled\": true }"));
    assert!(!achievements_enabled("{\"enabled\":false}"));
}

#[test]
fn launch_command_file() {
    assert_eq!(launch_command("/run/media/cart/My Game.kzi"), "/usr/bin/kazeta '/run/media/cart/My Game.kzi'");
    assert_eq!(state_dir(false, "/home/u/.local/share/kazeta-plus"), "/var/kazeta/state");
    assert_eq!(state_dir(true, "/home/u/.local/share/kazeta-plus"), "/home/u/.local/share/kazeta-plus/state");
    assert_eq!(launch_command_path(false, "/ignored"), "/var/kazeta/state/.LAUNCH_CMD");
    assert_eq!(launch_command_path(true, "/data"), "/data/state/.LAUNCH_CMD");
}

#[test]
fn packages_go_to_the_wrapper_script() {
    assert!(is_compressed_package("/media/game.kzp"));
    assert!(is_compressed_package("/media/game.KZP"));
    assert!(!is_compressed_package("/media/game.kzi"));
    assert!(!is_compressed_package("/media/kzp"));
    let spec = launch_game(&cart(Some("windows")), "/media/game.kzp", false, "");
    assert_eq!(spec.program, "/usr/bin/kazeta");
    assert_eq!(spec.args, vec!["/media/game.kzp"]);
    assert!(spec.envs.is_empty());
    assert_eq!(spec.current_dir, None);
}

#[test]
fn runtimes_choose_the_program() {
    assert_eq!(classify_launch(&cart(None), "/m/g.kzi", true), LaunchKind::Shell);
    assert_eq!(classify_launch(&cart(Some("linux")), "/m/g.kzi", true), LaunchKind::Shell);
    assert_eq!(classify_launch(&cart(Some("windows")), "/m/g.kzi", true), LaunchKind::Windows);
    assert_eq!(classify_launch(&cart(Some("vba-m")), "/m/g.kzi", true), LaunchKind::VbaDev);
    assert_eq!(classify_launch(&cart(Some("vba-m")), "/m/g.kzi", false), LaunchKind::VbaInstalled);
    assert_eq!(classify_launch(&cart(Some("vba-m")), "/m/g.kzp", true), LaunchKind::Package);

    let shell = launch_game(&cart(None), "/m/cart/g.kzi", false, "");
    assert_eq!(shell.program, "sh");
    assert_eq!(shell.args, vec!["-c", "roms/game.gba"]);
    assert_eq!(shell.current_dir.as_deref(), Some("/m/cart"));

    let wine = launch_game(&cart(Some("windows")), "g.kzi", false, "");
    assert_eq!(wine.program, "wine");
    assert_eq!(wine.args, vec!["roms/game.gba"]);
    assert_eq!(wine.current_dir.as_deref(), Some(""));

    let dev = launch_game(&cart(Some("vba-m")), "/m/cart/g.kzi", true, "/src/runtimes/gba/vba-run-wrapper.sh");
    assert_eq!(dev.program, "bash");
    assert_eq!(dev.args, vec!["/src/runtimes/gba/vba-run-wrapper.sh", "/m/cart/roms/game.gba", "test-game"]);
    assert_eq!(dev.current_dir.as_deref(), Some("/m/cart"));

    let installed = launch_game(&cart(Some("vba-m")), "/m/cart/g.kzi", false, "unused");
    assert_eq!(installed.program, "/usr/bin/kazeta");
    assert_eq!(installed.args, vec!["/m/cart/g.kzi"]);
    assert_eq!(installed.current_dir, None);
}

#[test]
fn multiplayer_variables() {
    let mut multi = cart(Some("vba-m"));
    multi.multiplayer_support = Some(true);
    multi.max_players = Some(4);
    multi.multiplayer_type = Some("link-cable".to_string());
    let two = MgbaLaunchOptions { player_count: 2, save_slots: vec!["p1".to_string(), "p2".to_string()] };
    let one = MgbaLaunchOptions { player_count: 1, save_slots: vec!["p3".to_string()] };
    let none = MgbaLaunchOptions::default();

    let spec = launch_game_with_options(&multi, "/m/g.kzi", Some(&two), false, "");
    assert_eq!(
        env(&spec.envs),
        vec![
            ("VBA_MULTIPLAYER", "true"),
            ("VBA_PLAYERS", "2"),
            ("VBA_SAVE_SLOTS", "p1,p2"),
            ("VBA_MAX_PLAYERS", "4"),
            ("VBA_MULTIPLAYER_TYPE", "link-cable"),
        ]
    );
    let spec = launch_game_with_options(&multi, "/m/g.kzp", Some(&one), false, "");
    assert_eq!(
        env(&spec.envs),
        vec![("MGBA_SAVE_SLOT", "p3"), ("MGBA_MAX_PLAYERS", "4"), ("MGBA_MULTIPLAYER_TYPE", "link-cable")]
    );
    let spec = launch_game_with_options(&multi, "/m/g.kzp", Some(&none), false, "");
    assert_eq!(env(&spec.envs), vec![("MGBA_MAX_PLAYERS", "4"), ("MGBA_MULTIPLAYER_TYPE", "link-cable")]);
    // Without options a multiplayer cartridge starts for two.
    let spec = launch_game(&multi, "/m/g.kzi", true, "w");
    assert_eq!(
        env(&spec.envs),
        vec![
            ("VBA_MULTIPLAYER", "true"),
            ("VBA_MAX_PLAYERS", "4"),
            ("VBA_MULTIPLAYER_TYPE", "link-cable"),
            ("VBA_PLAYERS", "2"),
        ]
    );
    let single = launch_game(&cart(Some("vba-m")), "/m/g.kzi", false, "");
    assert!(single.envs.is_empty());

    let mut native = cart(None);
    native.multiplayer_support = Some(true);
    native.max_players = Some(2);
    let spec = launch_game_with_options(&native, "/m/g.kzi", Some(&two), false, "");
    assert_eq!(
        env(&spec.envs),
        vec![("MGBA_MULTIPLAYER", "true"), ("MGBA_MAX_PLAYERS", "2"), ("MGBA_PLAYERS", "2"), ("MGBA_SAVE_SLOTS", "p1,p2")]
    );
    let spec = launch_game_with_options(&native, "/m/g.kzi", Some(&none), false, "");
    assert_eq!(env(&spec.envs), vec![("MGBA_MULTIPLAYER", "true"), ("MGBA_MAX_PLAYERS", "2"), ("MGBA_PLAYERS", "0")]);
    let spec = launch_game(&native, "/m/g.kzi", false, "");
    assert_eq!(env(&spec.envs), vec![("MGBA_MULTIPLAYER", "true"), ("MGBA_MAX_PLAYERS", "2"), ("MGBA_PLAYERS", "2")]);
    native.multiplayer_support = Some(false);
    assert!(launch_game_with_options(&native, "/m/g.kzi", Some(&two), false, "").envs.is_empty());
}

#[test]
fn save_paths_and_rom_names() {
    assert_eq!(get_rom_name_from_exec("roms/Pokemon Emerald.gba"), "Pokemon Emerald");
    assert_eq!(get_rom_name_from_exec("game"), "game");
    assert_eq!(get_rom_name_from_exec(""), "game");
    assert_eq!(get_rom_name_from_exec("dir/.."), "game");
    assert_eq!(get_mgba_save_dir("/home/u", "cart-1"), "/home/u/.local/share/kazeta/saves/default/cart-1");
    assert_eq!(rom_extract_dir(false, "/data", "cart-1"), "/tmp/kazeta-kzi/cart-1");
    assert_eq!(rom_extract_dir(true, "/data", "cart-1"), "/data/kzi-cache/cart-1");
    assert_eq!(player_save_file("emerald", 2), "emerald_p2.sav");
}

#[test]
fn internal_disk_is_always_first() {
    let disks = vec![
        MountedDisk { name: "SDCARD".to_string(), available_bytes: 5 * 1024 * 1024 + 17 },
        MountedDisk { name: "frzr_efi".to_string(), available_bytes: 1 },
        MountedDisk { name: "USB".to_string(), available_bytes: 1024 * 1024 - 1 },
    ];
    let media = list_devices(100 * 1024 * 1024, &disks);
    let listed: Vec<(&str, u32)> = media.iter().map(|m| (m.id.as_str(), m.free)).collect();
    assert_eq!(listed, vec![("internal", 100), ("SDCARD", 5), ("USB", 0)]);
    assert_eq!(list_devices(0, &vec![]).len(), 1);
    assert_eq!(external_media_base(false, true, "u"), "/media");
    assert_eq!(external_media_base(true, true, "u"), "/run/media/u");
    assert_eq!(external_media_base(true, false, "u"), "/run/media");
}

fn medium(id: &str, free: u32) -> StorageMedia {
    StorageMedia { id: id.to_string(), free }
}

#[test]
fn media_refresh_keeps_the_selection() {
    let mut state = StorageMediaState::new();
    state.update_media(vec![medium("internal", 10), medium("CART", 1), medium("USB", 20)], &vec![true, false, true]);
    assert!(state.needs_memory_refresh);
    let ids: Vec<&str> = state.media.iter().map(|m| m.id.as_str()).collect();
    assert_eq!(ids, vec!["internal", "USB"]);
    assert_eq!(state.selected, 0);
    state.selected = 1;
    state.needs_memory_refresh = false;
    // Same media: only the free space changes.
    state.update_media(vec![medium("internal", 9), medium("CART", 1), medium("USB", 25)], &vec![true, false, true]);
    assert!(!state.needs_memory_refresh);
    assert_eq!(state.selected, 1);
    assert_eq!(state.media[0].free, 9);
    assert_eq!(state.media[1].free, 25);
    assert_eq!(state.all_media[2].free, 25);
    // A medium arrives before the selected one: the selection follows.
    state.update_media(
        vec![medium("internal", 9), medium("SD", 3), medium("USB", 25)],
        &vec![true, true, true],
    );
    assert!(state.needs_memory_refresh);
    assert_eq!(state.selected, 2);
    // The selected medium goes: back to the first.
    state.update_media(vec![medium("internal", 9), medium("SD", 3)], &vec![true, true]);
    assert_eq!(state.selected, 0);
    assert_eq!(state.media.len(), 2);
}

#[test]
fn simple_dialogs() {
    let delete = create_confirm_delete_dialog();
    assert_eq!(delete.id, "confirm_delete");
    assert_eq!(delete.desc.as_deref(), Some("PERMANENTLY DELETE THIS SAVE DATA?"));
    assert_eq!(texts(&delete), vec!["DELETE", "CANCEL"]);
    assert_eq!(values(&delete), vec!["DELETE", "CANCEL"]);
    assert_eq!(delete.selection, 1);

    let exists = create_save_exists_dialog();
    assert_eq!(exists.id, "save_exists");
    assert_eq!(exists.desc.as_deref(), Some("THIS SAVE DATA ALREADY EXISTS AT THE SELECTED DESTINATION"));
    assert_eq!(texts(&exists), vec!["OK"]);
    assert_eq!(exists.selection, 0);

    let error = create_error_dialog("DISK FULL".to_string());
    assert_eq!(error.id, "error");
    assert_eq!(error.desc.as_deref(), Some("DISK FULL"));
    assert_eq!(texts(&error), vec!["OK"]);

    let main = create_main_dialog(false);
    assert_eq!(main.id, "main");
    assert_eq!(main.desc, None);
    assert_eq!(texts(&main), vec!["COPY", "DELETE", "CANCEL"]);
    assert!(main.options[0].disabled);
    assert!(!main.options[1].disabled);
    assert!(!create_main_dialog(true).options[0].disabled);
}

#[test]
fn player_count_dialog() {
    let four = create_player_count_dialog(4);
    assert_eq!(four.id, "player_count_select");
    assert_eq!(four.desc.as_deref(), Some("SELECT NUMBER OF PLAYERS"));
    assert_eq!(texts(&four), vec!["1 PLAYER", "2 PLAYERS", "3 PLAYERS", "4 PLAYERS", "CANCEL"]);
    assert_eq!(values(&four), vec!["1", "2", "3", "4", "CANCEL"]);
    assert_eq!(four.selection, 1);
    let one = create_player_count_dialog(1);
    assert_eq!(texts(&one), vec!["1 PLAYER", "CANCEL"]);
    assert_eq!(one.selection, 0);
    let zero = create_player_count_dialog(0);
    assert_eq!(texts(&zero), vec!["CANCEL"]);
    assert_eq!(create_player_count_dialog(12).options.len(), 13);
    assert_eq!(create_player_count_dialog(12).options[11].text, "12 PLAYERS");
}

#[test]
fn save_slot_dialog() {
    let saves = vec!["default".to_string(), "p2".to_string(), "p1".to_string()];
    let first = create_save_slot_dialog(&saves, 1, "emerald");
    assert_eq!(first.id, "save_slot_select_p1");
    assert_eq!(first.desc.as_deref(), Some("SELECT SAVE FILE\nEMERALD"));
    assert_eq!(texts(&first), vec!["PLAYER 1 SAVE (CONTINUE)", "USE DEFAULT SAVE", "USE P2 SAVE", "CANCEL"]);
    assert_eq!(values(&first), vec!["p1", "default", "p2", "CANCEL"]);
    assert_eq!(first.selection, 0);
    let third = create_save_slot_dialog(&saves, 3, "emerald");
    assert_eq!(third.id, "save_slot_select_p3");
    assert_eq!(third.desc.as_deref(), Some("PLAYER 3 - SELECT SAVE FILE\nEMERALD"));
    assert_eq!(
        texts(&third),
        vec!["PLAYER 3 SAVE (NEW)", "USE DEFAULT SAVE", "USE P2 SAVE", "USE P1 SAVE", "CANCEL"]
    );
    let empty = create_save_slot_dialog(&vec![], 2, "x");
    assert_eq!(texts(&empty), vec!["PLAYER 2 SAVE (NEW)", "CANCEL"]);
}

#[test]
fn copy_storage_dialog() {
    let media = vec![medium("internal", 1024), medium("USB", 20), medium("SD", 0)];
    let dialog = create_copy_storage_dialog(&media, 1);
    assert_eq!(dialog.id, "copy_storage_select");
    assert_eq!(dialog.desc.as_deref(), Some("WHERE TO COPY THIS SAVE DATA?"));
    assert_eq!(texts(&dialog), vec!["internal (1024 MB Free)", "SD (0 MB Free)", "CANCEL"]);
    assert_eq!(values(&dialog), vec!["internal", "SD", "CANCEL"]);
    assert_eq!(dialog.selection, 0);
    // Without media there is nothing to copy to.
    assert_eq!(texts(&create_copy_storage_dialog(&vec![], 0)), vec!["CANCEL"]);
    // Media of the same id as the selected one are left out too.
    let twins = vec![medium("USB", 1), medium("SD", 2), medium("USB", 3)];
    assert_eq!(values(&create_copy_storage_dialog(&twins, 0)), vec!["SD", "CANCEL"]);
}

#[test]
fn menu_positions_cycle() {
    let mut position = MenuPosition::default();
    let mut seen = vec![position];
    for _ in 0..5 {
        position = position.next();
        seen.push(position);
    }
    assert_eq!(
        seen,
        vec![
            MenuPosition::Center,
            MenuPosition::TopLeft,
            MenuPosition::TopRight,
            MenuPosition::BottomLeft,
            MenuPosition::BottomRight,
            MenuPosition::Center,
        ]
    );
    for p in seen {
        assert_eq!(p.next().prev(), p);
        assert_eq!(p.prev().next(), p);
    }
    assert_eq!(MenuPosition::from_str("TopRight"), Some(MenuPosition::TopRight));
    assert_eq!(MenuPosition::from_str("BottomLeft"), Some(MenuPosition::BottomLeft));
    assert_eq!(MenuPosition::from_str("Center"), None);
    assert_eq!(MenuPosition::from_str("topleft"), None);
}

#[test]
fn playtime_log_sums_sessions() {
    let log = "2024-05-01T10:00:00+00:00 2024-05-01T11:00:00+00:00\n\
               garbage line here\n\
               2024-05-02T10:00:00+02:00 2024-05-02T08:30:30Z\n\
               not-a-time 2024-05-02T08:30:30Z\n\
               2024-05-03T00:00:00Z\n";
    assert_eq!(parse_playtime_content(log), 3600 + 1830);
    assert_eq!(parse_playtime_content(""), 0);
    // An end before the start counts against the total.
    assert_eq!(parse_playtime_content("2024-05-01T10:00:10Z 2024-05-01T10:00:00Z"), -10);
    assert_eq!(
        calculate_playtime(
            "  2024-05-01T10:00:00Z 2024-05-01T10:10:00Z\n\n",
            " 2024-05-01T12:00:00Z\n",
            "2024-05-01T12:00:05Z \n"
        ),
        605
    );
    assert_eq!(calculate_playtime("", "", ""), 0);
}

#[test]
fn hours_with_one_decimal() {
    assert_eq!(playtime_tenths_of_hours(0), 0);
    assert_eq!(playtime_tenths_of_hours(179), 0);
    assert_eq!(playtime_tenths_of_hours(180), 1);
    assert_eq!(playtime_tenths_of_hours(3600), 10);
    assert_eq!(playtime_tenths_of_hours(5430), 15);
    assert_eq!(playtime_tenths_of_hours(-180), -1);
    assert_eq!(playtime_tenths_of_hours(-179), 0);
    for seconds in [0i64, 1, 179, 180, 181, 359, 360, 539, 540, 5430, 86_399, 1_000_000, -180, -541] {
        let hours = ((seconds as f64 / 360.0).round() / 10.0) as f32;
        assert_eq!(playtime_tenths_of_hours(seconds) as f32 / 10.0, hours, "{}", seconds);
    }
}

#[test]
fn cartridge_file_is_read_line_by_line() {
    let content = "# A cartridge\n\
                   Name = Pokemon Emerald\n\
                   ; comment\n\
                   Id=pokemon-emerald\n\
                   \n\
                   Exec = \"roms/Pokemon Emerald.gba\"\n\
                   Runtime=vba-m\n\
                   MultiplayerSupport = true\n\
                   MaxPlayers = 4\n\
                   MaxPlayers = many\n\
                   MultiplierType = link-cable\n\
                   RA-Game-Name = Emerald\n\
                   SaveP2 = saves/second.sav\n\
                   Unknown = ignored\n\
                   no equals sign here\n\
                   Name = Renamed = twice\n";
    let cart = parse_kzi_file(content, "/media/cart/game.kzi").unwrap();
    assert_eq!(cart.name.as_deref(), Some("Renamed = twice"));
    assert_eq!(cart.id, "pokemon-emerald");
    assert_eq!(cart.exec_cmd, "roms/Pokemon Emerald.gba");
    assert_eq!(cart.icon, "default.png");
    assert_eq!(cart.runtime.as_deref(), Some("vba-m"));
    assert_eq!(cart.multiplayer_support, Some(true));
    assert_eq!(cart.max_players, Some(4));
    assert_eq!(cart.multiplayer_type.as_deref(), Some("link-cable"));
    assert_eq!(cart.ra_game_name.as_deref(), Some("Emerald"));
    assert_eq!(cart.player_saves, [None, Some("saves/second.sav".to_string()), None, None]);
}

#[test]
fn cartridge_file_needs_id_and_exec() {
    assert_eq!(
        parse_kzi_file("Name=x\nExec=run.sh\n", "/m/a.kzi").err(),
        Some("Invalid .kzi file '/m/a.kzi': missing required fields (Id, Exec, or Icon).".to_string())
    );
    assert!(parse_kzi_file("Id=x\n", "p").is_err());
    assert!(parse_kzi_file("", "p").is_err());
    let cart = parse_kzi_file("id=a\nEXEC=b\nicon=c.png\nmultiplayersupport=yes", "p").unwrap();
    assert_eq!(cart.icon, "c.png");
    assert_eq!(cart.multiplayer_support, None);
    assert_eq!(cart.name, None);
    assert_eq!(cart.max_players, None);
}

#[test]
fn lines_of_a_cartridge_file() {
    assert_eq!(read_line("  Key = value  "), Some(("key".to_string(), "value".to_string())));
    assert_eq!(read_line("k=\"quoted text\""), Some(("k".to_string(), "quoted text".to_string())));
    assert_eq!(read_line("k=\""), Some(("k".to_string(), "\"".to_string())));
    assert_eq!(read_line("k=\"\""), Some(("k".to_string(), String::new())));
    assert_eq!(read_line("k="), Some(("k".to_string(), String::new())));
    assert_eq!(read_line("=v"), Some((String::new(), "v".to_string())));
    assert_eq!(read_line("a=b=c"), Some(("a".to_string(), "b=c".to_string())));
    assert_eq!(read_line("# k=v"), None);
    assert_eq!(read_line("   ; k=v"), None);
    assert_eq!(read_line(""), None);
    assert_eq!(read_line("   "), None);
    assert_eq!(read_line("no separator"), None);
}

#[test]
fn attributes_of_metadata() {
    let content = "Id=abc\nName=First Name\nName=Second\nNameless=x\n";
    assert_eq!(get_attribute(content, "Name"), "First Name");
    assert_eq!(get_attribute(content, "Id"), "abc");
    assert_eq!(get_attribute(content, "name"), "");
    assert_eq!(get_attribute(content, "Missing"), "");
    assert_eq!(get_attribute("Key=", "Key"), "");
}

#[test]
fn save_files_and_their_slots() {
    assert_eq!(save_slot_of("emerald", "emerald"), Some("default".to_string()));
    assert_eq!(save_slot_of("emerald_p1", "emerald"), Some("p1".to_string()));
    assert_eq!(save_slot_of("emerald_backup_2", "emerald"), Some("backup_2".to_string()));
    assert_eq!(save_slot_of("emerald_", "emerald"), Some(String::new()));
    assert_eq!(save_slot_of("emeraldx", "emerald"), None);
    assert_eq!(save_slot_of("ruby_p1", "emerald"), None);
    assert_eq!(save_slot_of("p\u{e9}mon_p2", "p\u{e9}mon"), Some("p2".to_string()));
}

#[test]
fn excluded_paths() {
    assert!(should_exclude_path("/saves/game/.cache/shaders"));
    assert!(should_exclude_path("/saves/game/.config/pulse/cookie"));
    assert!(should_exclude_path("/saves/game/.kazeta/share/icons"));
    assert!(should_exclude_path("/s/.kazeta/var/prefix/dosdevices/c:"));
    assert!(should_exclude_path("/s/.kazeta/var/prefix/drive_c/windows/system32"));
    assert!(should_exclude_path("/s/.kazeta/var/prefix/pfx"));
    assert!(!should_exclude_path("/saves/game/.kazeta/var/playtime.log"));
    assert!(!should_exclude_path("/s/.kazeta/var/prefix/drive_c/users"));
    assert!(!should_exclude_path(""));
}

#[test]
fn directories_of_drives() {
    assert_eq!(get_save_dir_from_drive_name("internal", "/home/u", "/run/media"), "/home/u/.local/share/kazeta/saves/default");
    assert_eq!(get_save_dir_from_drive_name("", "/home/u", "/run/media"), "/home/u/.local/share/kazeta/saves/default");
    assert_eq!(get_save_dir_from_drive_name("USB", "/home/u", "/run/media/u"), "/run/media/u/USB/kazeta/saves");
    assert_eq!(get_cache_dir_from_drive_name("internal", "/home/u", "/media"), "/home/u/.local/share/kazeta/cache");
    assert_eq!(get_cache_dir_from_drive_name("SD", "/home/u", "/media"), "/media/SD/kazeta/cache");
    assert!(has_save_dir("internal", false));
    assert!(has_save_dir("USB", true));
    assert!(!has_save_dir("USB", false));
    assert!(!is_cart("internal", true));
    assert!(is_cart("CART", true));
    assert!(!is_cart("USB", false));
}

#[test]
fn file_names_without_extension() {
    assert_eq!(trim_extension("song.ogg"), "song");
    assert_eq!(trim_extension("archive.tar.gz"), "archive.tar");
    assert_eq!(trim_extension("noext"), "noext");
    assert_eq!(trim_extension(".hidden"), "");
    assert_eq!(trim_extension("trailing."), "trailing");
    assert_eq!(trim_extension(""), "");
    assert_eq!(trim_extension("caf\u{e9}.png"), "caf\u{e9}");
}

#[test]
fn copies_of_saves() {
    assert_eq!(plan_copy("g", "internal", "USB", true, false), Ok(CopyKind::Archive));
    assert_eq!(plan_copy("g", "USB", "internal", true, false), Ok(CopyKind::Extract));
    assert_eq!(plan_copy("g", "USB", "SD", true, false), Ok(CopyKind::Transfer));
    assert_eq!(plan_copy("g", "USB", "USB", true, false), Err("Cannot copy to same location".to_string()));
    assert_eq!(
        plan_copy("g", "USB", "SD", false, true),
        Err("Save file for g does not exist on 'USB' drive".to_string())
    );
    assert_eq!(plan_copy("g", "USB", "SD", true, true), Err("Save file for g already exists on 'SD'".to_string()));
    assert_eq!(plan_delete("g", "internal", true), Ok(DeleteKind::Directory));
    assert_eq!(plan_delete("g", "USB", true), Ok(DeleteKind::Archive));
    assert_eq!(plan_delete("g", "USB", false), Err("Save file for g does not exist on 'USB' drive".to_string()));
    assert_eq!(save_archive_name("pokemon"), "pokemon.tar");
    assert_eq!(copy_progress(0, 10), 0);
    assert_eq!(copy_progress(1, 3), 33);
    assert_eq!(copy_progress(10, 10), 100);
    assert_eq!(copy_progress(u64::MAX, u64::MAX), 100);
    assert_eq!(copy_progress(30, 10), 300);
}

#[test]
fn embedded_saves() {
    let mut info = cart(Some("vba-m"));
    info.player_saves[1] = Some("saves/second.sav".to_string());
    let save = plan_embedded_save(&info, "/media/cart/game.kzi", "emerald", 2).unwrap();
    assert_eq!(save.source_path, "/media/cart/saves/second.sav");
    assert_eq!(save.file_name, "emerald_p2.sav");
    assert_eq!(save.slot, "p2");
    assert_eq!(
        plan_embedded_save(&info, "/media/cart/game.kzi", "emerald", 1).err(),
        Some("No embedded save specified for player 1".to_string())
    );
    assert_eq!(
        plan_embedded_save(&info, "/media/cart/game.kzi", "emerald", 0).err(),
        Some("Invalid player index: 0".to_string())
    );
    assert_eq!(
        plan_embedded_save(&info, "/media/cart/game.kzi", "emerald", 5).err(),
        Some("Invalid player index: 5".to_string())
    );
}

#[test]
fn wrapper_candidates_in_order() {
    assert_eq!(
        source_tree_candidates("runtimes/gba/vba-run-wrapper.sh", Some("/opt/bin/"), None, Some("/src")),
        vec![
            "../runtimes/gba/vba-run-wrapper.sh",
            "../../runtimes/gba/vba-run-wrapper.sh",
            "runtimes/gba/vba-run-wrapper.sh",
            "/opt/bin/../runtimes/gba/vba-run-wrapper.sh",
            "/opt/bin/../../runtimes/gba/vba-run-wrapper.sh",
            "/src/runtimes/gba/vba-run-wrapper.sh",
        ]
    );
    // A path from the root replaces the directory; an empty directory adds nothing.
    assert_eq!(
        source_tree_candidates("/abs/tool", None, Some("/home/u"), Some("")),
        vec!["..//abs/tool", "../..//abs/tool", "/abs/tool", "/home/u/sandbox/kazeta-plus//abs/tool", "/abs/tool"]
    );
    assert_eq!(source_tree_candidates("tool", None, None, Some("")), vec!["../tool", "../../tool", "tool", "tool"]);
}

#[test]
fn first_existing_candidate_wins() {
    let candidates = vec!["a".to_string(), "b".to_string()];
    assert_eq!(choose_existing(&candidates, &vec![true, true], "z"), "a");
    assert_eq!(choose_existing(&candidates, &vec![false, false, true], "z"), "z");
    assert_eq!(choose_existing(&candidates, &vec![false], "z"), "z");
    assert_eq!(choose_existing(&candidates, &vec![false, true], "z"), "b");
}

#[test]
fn player_numbers_of_a_cartridge_file() {
    let players = |text: &str| {
        parse_kzi_file(&format!("Id=a\nExec=b\nIcon=c\nMaxPlayers={}\n", text), "p").unwrap().max_players
    };
    assert_eq!(players("4"), Some(4));
    assert_eq!(players("+4"), Some(4));
    assert_eq!(players("004"), Some(4));
    assert_eq!(players("255"), Some(255));
    assert_eq!(players("256"), None);
    assert_eq!(players("-1"), None);
    assert_eq!(players("+"), None);
    assert_eq!(players("4x"), None);
    assert_eq!(players("1_0"), None);
}

#[test]
fn cartridge_file_with_other_line_endings() {
    let cart = parse_kzi_file("Id=a\r\nExec=b\r\n\r\nIcon=c", "p").unwrap();
    assert_eq!((cart.id.as_str(), cart.exec_cmd.as_str(), cart.icon.as_str()), ("a", "b", "c"));
}
