use kazeta_core::theme::{string_to_color, NamedColor, Theme, ThemeConfig, ThemeConfigManager, ThemePreset};

#[test]
fn test_theme_presets() {
    let dark = Theme::dark();
    assert_eq!(dark.name, "Dark");

    let light = Theme::light();
    assert_eq!(light.name, "Light");

    let all = Theme::all_presets();
    assert_eq!(all.len(), 5);
}

#[test]
fn test_theme_by_name() {
    assert!(Theme::by_name("Dark").is_some());
    assert!(Theme::by_name("dark").is_some());
    assert!(Theme::by_name("DARK").is_some());
    assert!(Theme::by_name("Invalid").is_none());
}

#[test]
fn test_string_to_color() {
    assert_eq!(string_to_color("RED"), NamedColor::Red);
    assert_eq!(string_to_color("red"), NamedColor::Red);
    assert_eq!(string_to_color("BLUE"), NamedColor::Blue);
    assert_eq!(string_to_color("INVALID"), NamedColor::White);
}

#[test]
fn all_colour_names() {
    let names = [
        ("black", NamedColor::Black),
        ("Pink", NamedColor::Pink),
        ("orange", NamedColor::Orange),
        ("yellow", NamedColor::Yellow),
        ("green", NamedColor::Green),
        ("purple", NamedColor::Violet),
        ("violet", NamedColor::Violet),
        ("lightgray", NamedColor::LightGray),
        ("darkgray", NamedColor::DarkGray),
        ("gray", NamedColor::Gray),
        ("grey", NamedColor::Gray),
        ("white", NamedColor::White),
        ("", NamedColor::White),
    ];
    for (name, color) in names {
        assert_eq!(string_to_color(name), color, "{}", name);
    }
}

#[test]
fn presets_by_name_and_place() {
    assert_eq!(Theme::by_name("retro green").unwrap().preset, ThemePreset::RetroGreen);
    assert_eq!(Theme::by_name("PLAYSTATION").unwrap().name, "PlayStation");
    assert_eq!(Theme::by_name("xbox").unwrap().preset, ThemePreset::Xbox);
    assert!(Theme::by_name("RetroGreen").is_none());
    assert_eq!(ThemePreset::at(0), Some(ThemePreset::Dark));
    assert_eq!(ThemePreset::at(4), Some(ThemePreset::Xbox));
    assert_eq!(ThemePreset::at(5), None);
    let names: Vec<String> = Theme::all_presets().into_iter().map(|t| t.name).collect();
    assert_eq!(names, vec!["Dark", "Light", "Retro Green", "PlayStation", "Xbox"]);
    assert_eq!(ThemeConfigManager::available_themes(), names);
}

#[test]
fn set_theme_by_name() {
    let (mut manager, write_default) = ThemeConfigManager::from_loaded("/data/theme.json".to_string(), None);
    assert!(write_default);
    assert_eq!(manager.theme_name(), "Dark");
    assert_eq!(manager.theme().preset, ThemePreset::Dark);
    assert_eq!(manager.set_theme("light"), Ok(()));
    assert_eq!(manager.theme_name(), "light");
    assert_eq!(manager.theme().preset, ThemePreset::Light);
    assert_eq!(manager.set_theme("Solarized"), Err("Theme 'Solarized' not found".to_string()));
    assert_eq!(manager.theme_name(), "light");
    assert_eq!(manager.config_path(), "/data/theme.json");
}

#[test]
fn unknown_stored_theme_falls_back_to_dark() {
    let stored = ThemeConfig { theme_name: "Gone".to_string(), version: 1 };
    let (manager, write_default) = ThemeConfigManager::from_loaded("p".to_string(), Some(stored));
    assert!(!write_default);
    assert_eq!(manager.theme_name(), "Gone");
    assert_eq!(manager.theme().preset, ThemePreset::Dark);
    let default = ThemeConfig::default();
    assert_eq!(default.theme_name, "Dark");
    assert_eq!(default.version, 1);
}
