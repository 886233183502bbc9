use kazeta_core::ra::auth::{credentials_from_config, load_from_bios_config, ConfigError, CredentialManager, Credentials};
use kazeta_core::ra::cache::{progress_of, CachedAchievement};
use kazeta_core::ra::game_names::GameNameMapping;
use kazeta_core::ra::hash::{
    detect_console, detect_from_extension, detect_from_magic_bytes, detect_n64_order, hash_prepared, hash_rom,
    hash_type_name, normalize_rom, verify_with_magic_bytes, DetectError, HashError, N64Order,
};
use kazeta_core::ipc::{OverlayMessage, ToastStyle};
use kazeta_core::ra::notify::{achievement_list_message, game_start_message, sorted_infos, unlocked_toast_message};
use kazeta_core::ra::types::{Achievement, ConsoleId};

#[test]
fn test_generic_rom_hash() {
    // Hash known data as a generic console
    let hash = hash_rom(b"TEST_ROM_DATA_12345", ConsoleId::GameBoyAdvance).unwrap();

    // Verify it produces a valid MD5 hash (32 hex chars)
    assert_eq!(hash.len(), 32);
    assert!(hash.chars().all(|c| c.is_ascii_hexdigit()));
}

#[test]
fn test_nes_header_detection() {
    // Create NES ROM with iNES header
    let mut nes_data = Vec::new();
    nes_data.extend_from_slice(b"NES\x1a\x02\x01\x00\x00\x00\x00\x00\x00\x00\x00\x00\x00");
    nes_data.extend_from_slice(b"ROM_DATA_HERE");

    // Hash it - should skip the 16-byte header
    let hash = hash_rom(&nes_data, ConsoleId::NES).unwrap();

    // Verify it produces a valid MD5 hash
    assert_eq!(hash.len(), 32);
    assert_eq!(hash, hash_rom(b"ROM_DATA_HERE", ConsoleId::GameBoy).unwrap());
}

#[test]
fn md5_of_known_texts() {
    assert_eq!(hash_rom(b"", ConsoleId::GameBoy).unwrap(), "d41d8cd98f00b204e9800998ecf8427e");
    assert_eq!(hash_rom(b"hello world", ConsoleId::PlayStation).unwrap(), "5eb63bbbe01eeed093cb22bb8f5acdc3");
    assert_eq!(hash_prepared(&b"abc".to_vec()), "900150983cd24fb0d6963f7d28e17f72");
}

#[test]
fn nes_without_header_is_hashed_whole() {
    let data = b"0123456789abcdefROM".to_vec();
    assert_eq!(normalize_rom(&data, ConsoleId::NES).unwrap(), data);
    assert_eq!(hash_rom(b"short", ConsoleId::NES), Err(HashError::NesHeaderMissing));
}

#[test]
fn snes_copier_header_is_skipped() {
    let mut data = vec![0xAAu8; 512];
    data.extend(vec![0x55u8; 2048]);
    let prepared = normalize_rom(&data, ConsoleId::SNES).unwrap();
    assert_eq!(prepared.len(), 2048);
    assert!(prepared.iter().all(|b| *b == 0x55));
    let plain = vec![0x55u8; 2048];
    assert_eq!(normalize_rom(&plain, ConsoleId::SNES).unwrap(), plain);
    assert_eq!(hash_rom(&data, ConsoleId::SNES), hash_rom(&plain, ConsoleId::SNES));
}

#[test]
fn n64_images_hash_alike_in_every_byte_order() {
    let big: Vec<u8> = vec![0x80, 0x37, 0x12, 0x40, 1, 2, 3, 4, 5, 6, 7, 8];
    let little: Vec<u8> = vec![0x40, 0x12, 0x37, 0x80, 4, 3, 2, 1, 8, 7, 6, 5];
    let swapped: Vec<u8> = vec![0x37, 0x80, 0x40, 0x12, 2, 1, 4, 3, 6, 5, 8, 7];
    assert_eq!(detect_n64_order(&big), N64Order::Big);
    assert_eq!(detect_n64_order(&little), N64Order::Little);
    assert_eq!(detect_n64_order(&swapped), N64Order::Swapped);
    assert_eq!(detect_n64_order(&[1, 2, 3, 4]), N64Order::Unknown);
    assert_eq!(normalize_rom(&big, ConsoleId::Nintendo64).unwrap(), big);
    assert_eq!(normalize_rom(&little, ConsoleId::Nintendo64).unwrap(), big);
    assert_eq!(normalize_rom(&swapped, ConsoleId::Nintendo64).unwrap(), big);
    let hash = hash_rom(&big, ConsoleId::Nintendo64).unwrap();
    assert_eq!(hash_rom(&little, ConsoleId::Nintendo64).unwrap(), hash);
    assert_eq!(hash_rom(&swapped, ConsoleId::Nintendo64).unwrap(), hash);
    assert_eq!(hash_rom(&[0x80, 0x37], ConsoleId::Nintendo64), Err(HashError::N64MagicMissing));
}

#[test]
fn n64_leftover_bytes_stay_in_place() {
    let little: Vec<u8> = vec![0x40, 0x12, 0x37, 0x80, 4, 3, 2, 1, 9, 10, 11];
    assert_eq!(
        normalize_rom(&little, ConsoleId::Nintendo64).unwrap(),
        vec![0x80, 0x37, 0x12, 0x40, 1, 2, 3, 4, 9, 10, 11]
    );
    let swapped: Vec<u8> = vec![0x37, 0x80, 0x40, 0x12, 2, 1, 9];
    assert_eq!(normalize_rom(&swapped, ConsoleId::Nintendo64).unwrap(), vec![0x80, 0x37, 0x12, 0x40, 1, 2, 9]);
}

#[test]
fn hash_type_names() {
    assert_eq!(hash_type_name(ConsoleId::NES), "MD5 (headerless)");
    assert_eq!(hash_type_name(ConsoleId::SNES), "MD5 (headerless)");
    assert_eq!(hash_type_name(ConsoleId::Nintendo64), "MD5 (big-endian)");
    assert_eq!(hash_type_name(ConsoleId::GameBoyAdvance), "MD5");
}

#[test]
fn consoles_from_extensions_and_magic() {
    assert_eq!(detect_from_extension("gba"), Some(ConsoleId::GameBoyAdvance));
    assert_eq!(detect_from_extension("smc"), Some(ConsoleId::SNES));
    assert_eq!(detect_from_extension("u64"), Some(ConsoleId::Nintendo64));
    assert_eq!(detect_from_extension("cue"), Some(ConsoleId::PlayStation));
    assert_eq!(detect_from_extension("iso"), Some(ConsoleId::PlayStation2));
    assert_eq!(detect_from_extension("md"), Some(ConsoleId::MegaDrive));
    assert_eq!(detect_from_extension("a26"), Some(ConsoleId::Atari2600));
    assert_eq!(detect_from_extension("GBA"), None);
    assert_eq!(detect_from_extension("txt"), None);
    assert_eq!(detect_from_magic_bytes(b"NES\x1a rest"), Ok(ConsoleId::NES));
    assert_eq!(detect_from_magic_bytes(&[0x37, 0x80, 0x40, 0x12]), Ok(ConsoleId::Nintendo64));
    assert_eq!(detect_from_magic_bytes(&[1, 2, 3]), Err(DetectError::TooSmall));
    assert_eq!(detect_from_magic_bytes(&[1, 2, 3, 4, 5]), Err(DetectError::Unknown));
    let mut gba = vec![0u8; 0xA0];
    gba[4] = 0x24;
    assert_eq!(detect_from_magic_bytes(&gba), Ok(ConsoleId::GameBoyAdvance));
    // The extension wins over the bytes.
    assert_eq!(detect_console("/roms/game.gb", Some(b"NES\x1a")), Ok(ConsoleId::GameBoy));
    assert_eq!(detect_console("/roms/game.rom", Some(b"NES\x1a")), Ok(ConsoleId::NES));
    assert_eq!(detect_console("/roms/game", Some(b"????")), Err(DetectError::Unknown));
}

#[test]
fn known_extension_needs_no_image() {
    assert_eq!(detect_console("/roms/Game.GBA", None), Ok(ConsoleId::GameBoyAdvance));
    assert_eq!(detect_console("game.z64", Some(b"")), Ok(ConsoleId::Nintendo64));
    assert_eq!(detect_console("/roms/game.rom", None), Err(DetectError::Unreadable));
    assert_eq!(detect_console("/roms.d/game", None), Err(DetectError::Unreadable));
    assert_eq!(detect_console("/roms/game.rom", Some(&[1, 2])), Err(DetectError::TooSmall));
}

#[test]
fn magic_bytes_against_extension() {
    assert!(verify_with_magic_bytes(b"NES\x1a", ConsoleId::NES));
    assert!(!verify_with_magic_bytes(b"SEN\x1a", ConsoleId::NES));
    assert!(!verify_with_magic_bytes(b"NE", ConsoleId::NES));
    assert!(verify_with_magic_bytes(&[0x80, 0x37, 0x12, 0x40], ConsoleId::Nintendo64));
    assert!(!verify_with_magic_bytes(&[0, 0, 0, 0], ConsoleId::Nintendo64));
    assert!(verify_with_magic_bytes(&[0, 0, 0, 0], ConsoleId::SNES));
    assert!(verify_with_magic_bytes(&[0, 0, 0, 0], ConsoleId::GameBoy));
    let mut nds = vec![0u8; 16];
    assert!(!verify_with_magic_bytes(&nds, ConsoleId::NintendoDS));
    nds[13] = 7;
    assert!(verify_with_magic_bytes(&nds, ConsoleId::NintendoDS));
    assert!(!verify_with_magic_bytes(&nds[..15], ConsoleId::NintendoDS));
}

#[test]
fn console_names_and_numbers() {
    assert_eq!(ConsoleId::from_str("GBA"), Some(ConsoleId::GameBoyAdvance));
    assert_eq!(ConsoleId::from_str("Game Boy Color"), Some(ConsoleId::GameBoyColor));
    assert_eq!(ConsoleId::from_str("super famicom"), Some(ConsoleId::SNES));
    assert_eq!(ConsoleId::from_str("PS1"), Some(ConsoleId::PlayStation));
    assert_eq!(ConsoleId::from_str("2600"), Some(ConsoleId::Atari2600));
    assert_eq!(ConsoleId::from_str("dreamcast"), None);
    let numbers = [
        (ConsoleId::MegaDrive, 1),
        (ConsoleId::Nintendo64, 2),
        (ConsoleId::SNES, 3),
        (ConsoleId::GameBoy, 4),
        (ConsoleId::GameBoyAdvance, 5),
        (ConsoleId::GameBoyColor, 6),
        (ConsoleId::NES, 7),
        (ConsoleId::MasterSystem, 11),
        (ConsoleId::PlayStation, 12),
        (ConsoleId::NintendoDS, 18),
        (ConsoleId::PlayStation2, 21),
        (ConsoleId::Atari2600, 25),
        (ConsoleId::VirtualBoy, 28),
    ];
    for (console, number) in numbers {
        assert_eq!(console.as_u32(), number);
    }
}

fn achievement(date_earned: Option<&str>, hardcore: Option<&str>) -> Achievement {
    Achievement {
        id: 1,
        title: "t".to_string(),
        description: "d".to_string(),
        points: 5,
        badge_name: "12345".to_string(),
        display_order: 0,
        date_earned: date_earned.map(|s| s.to_string()),
        date_earned_hardcore: hardcore.map(|s| s.to_string()),
    }
}

#[test]
fn earned_flags_and_badge_url() {
    assert!(!achievement(None, None).is_earned());
    assert!(achievement(Some("2024-01-01"), None).is_earned());
    assert!(!achievement(Some("2024-01-01"), None).is_earned_hardcore());
    assert!(achievement(None, Some("2024-01-01")).is_earned());
    assert!(achievement(None, Some("2024-01-01")).is_earned_hardcore());
    assert_eq!(achievement(None, None).badge_url(), "https://media.retroachievements.org/Badge/12345.png");
}

#[test]
fn cached_achievements_count() {
    let cached = |earned: bool, hardcore: bool| CachedAchievement {
        id: 1,
        title: "t".to_string(),
        description: None,
        points: 1,
        badge_name: None,
        display_order: 0,
        date_earned: if earned { Some("x".to_string()) } else { None },
        date_earned_hardcore: if hardcore { Some("y".to_string()) } else { None },
    };
    assert!(cached(true, false).is_earned());
    assert!(cached(false, true).is_earned_hardcore());
    assert!(!cached(true, false).is_earned_hardcore());
    let list = vec![cached(true, false), cached(false, false), cached(false, true), cached(true, true)];
    assert_eq!(progress_of(&list), (3, 4));
    assert_eq!(progress_of(&vec![]), (0, 0));
}

#[test]
fn credentials_from_bios_config() {
    let toml = "[retroachievements]\nusername = \"player\"\napi_key = \"secret-key\"\n";
    let found = load_from_bios_config(toml).unwrap().unwrap();
    assert_eq!(found.username, "player");
    assert_eq!(found.api_key, "secret-key");
    assert_eq!(found.token, None);
    assert!(!found.hardcore);
    assert!(load_from_bios_config("[audio]\nvolume = 3\n").unwrap().is_none());
    assert!(load_from_bios_config("[retroachievements]\nusername = \"player\"\n").unwrap().is_none());
    assert!(load_from_bios_config("[retroachievements]\nusername = \"\"\napi_key = \"k\"\n").unwrap().is_none());
    assert!(load_from_bios_config("[retroachievements]\nusername = 5\napi_key = \"k\"\n").unwrap().is_none());
    assert_eq!(load_from_bios_config("not [toml").err(), Some(ConfigError::InvalidToml));
    assert!(credentials_from_config(Some("u".to_string()), None).is_none());
    assert!(credentials_from_config(Some("u".to_string()), Some("k".to_string())).is_some());
}

#[test]
fn credential_manager_paths_and_updates() {
    let manager = CredentialManager::new("/home/player");
    assert_eq!(manager.credentials_path(), "/home/player/.local/share/kazeta-plus/ra_credentials.json");
    assert!(manager.has_credentials(true, false));
    assert!(manager.has_credentials(false, true));
    assert!(!manager.has_credentials(false, false));
    let creds = Credentials::new("u".to_string(), "k".to_string());
    let harder = manager.set_hardcore(Some(creds.clone()), true).unwrap();
    assert!(harder.hardcore);
    assert_eq!(harder.username, "u");
    assert!(manager.set_hardcore(None, true).is_none());
    let renewed = manager.update_token(Some(creds), "tok".to_string(), "2024-05-01T10:00:00+00:00".to_string()).unwrap();
    assert_eq!(renewed.token.as_deref(), Some("tok"));
    assert_eq!(renewed.last_sync.as_deref(), Some("2024-05-01T10:00:00+00:00"));
    assert!(manager.update_token(None, "t".to_string(), "n".to_string()).is_none());
}

#[test]
fn game_names_by_hash() {
    let mut names = GameNameMapping::new();
    assert_eq!(names.get_name("abc", None), None);
    names.set_name("abc".to_string(), "My Game".to_string(), Some("gba".to_string()));
    names.set_name("def".to_string(), "Other".to_string(), None);
    assert_eq!(names.get_name("abc", None), Some("My Game".to_string()));
    // The cartridge's own name wins.
    assert_eq!(names.get_name("abc", Some("Cart Name".to_string())), Some("Cart Name".to_string()));
    names.set_name("abc".to_string(), "Renamed".to_string(), None);
    assert_eq!(names.games.len(), 2);
    assert_eq!(names.get_name("abc", None), Some("Renamed".to_string()));
    names.remove_name("abc");
    assert_eq!(names.get_name("abc", None), None);
    assert_eq!(names.get_name("def", None), Some("Other".to_string()));
    names.remove_name("zzz");
    assert_eq!(names.games.len(), 1);
    assert_eq!(GameNameMapping::default().games.len(), 0);
}

#[test]
fn achievements_are_listed_by_id() {
    let mut list = Vec::new();
    for (id, title, earned) in [(30, "c", None), (10, "a", Some("d")), (20, "b", None), (10, "a again", None)] {
        let mut a = achievement(earned, None);
        a.id = id;
        a.title = title.to_string();
        list.push(a);
    }
    let infos = sorted_infos(&list);
    let seen: Vec<(u32, &str, bool)> = infos.iter().map(|i| (i.id, i.title.as_str(), i.earned)).collect();
    assert_eq!(seen, vec![(10, "a", true), (10, "a again", false), (20, "b", false), (30, "c", false)]);
    assert!(infos.iter().all(|i| i.rarity_basis_points.is_none() && i.progress.is_none() && !i.earned_hardcore));
    match achievement_list_message("My Game", "abc", &list) {
        OverlayMessage::RaAchievementList { game_title, game_hash, achievements } => {
            assert_eq!(game_title, "My Game");
            assert_eq!(game_hash, "abc");
            assert_eq!(achievements.len(), 4);
            assert_eq!(achievements[3].id, 30);
        }
        _ => panic!("wrong message"),
    }
    assert!(sorted_infos(&vec![]).is_empty());
}

#[test]
fn helper_messages() {
    match game_start_message(7, "Game", 3, 40) {
        OverlayMessage::RaGameStart { game_title, game_id, game_icon, total_achievements, earned_achievements } => {
            assert_eq!(game_title, "Game");
            assert_eq!(game_id, Some(7));
            assert_eq!(game_icon, None);
            assert_eq!(total_achievements, 40);
            assert_eq!(earned_achievements, 3);
        }
        _ => panic!("wrong message"),
    }
    match unlocked_toast_message("First Steps") {
        OverlayMessage::ShowToast { message, icon, duration_ms, style } => {
            assert_eq!(message, "\u{1F3C6} Achievement Unlocked: First Steps");
            assert_eq!(icon, None);
            assert_eq!(duration_ms, 5000);
            assert_eq!(style, ToastStyle::Success);
        }
        _ => panic!("wrong message"),
    }
}
