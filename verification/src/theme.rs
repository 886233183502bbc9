//! The overlay's themes by name, and the named colours that clients send.

use vstd::prelude::*;
use crate::text::{
    ascii_case_equal, concat3, same_text, same_text_ignoring_ascii_case, to_uppercase, uppercase,
};

verus! {

/// The themes that are built in. Their colour tables belong to the
/// renderer.
#[derive(Clone, Copy, Debug, PartialEq, Eq, Structural)]
pub enum ThemePreset {
    Dark,
    Light,
    RetroGreen,
    PlayStation,
    Xbox,
}

/// A theme: its name and the preset that gives its colours.
#[derive(Debug)]
pub struct Theme {
    pub name: String,
    pub preset: ThemePreset,
}

/// A colour that can be named in a message.
#[derive(Clone, Copy, Debug, PartialEq, Eq, Structural)]
pub enum NamedColor {
    Black,
    Pink,
    Red,
    Orange,
    Yellow,
    Green,
    Blue,
    Violet,
    LightGray,
    DarkGray,
    Gray,
    White,
}

impl ThemePreset {
    /// The name of the preset.
    pub open spec fn spec_name(self) -> Seq<char> {
        match self {
            ThemePreset::Dark => "Dark"@,
            ThemePreset::Light => "Light"@,
            ThemePreset::RetroGreen => "Retro Green"@,
            ThemePreset::PlayStation => "PlayStation"@,
            ThemePreset::Xbox => "Xbox"@,
        }
    }

    /// The name of the preset.
    pub fn name(&self) -> (r: &'static str)
        ensures
            r@ == self.spec_name(),
    {
        match self {
            ThemePreset::Dark => "Dark",
            ThemePreset::Light => "Light",
            ThemePreset::RetroGreen => "Retro Green",
            ThemePreset::PlayStation => "PlayStation",
            ThemePreset::Xbox => "Xbox",
        }
    }

    /// The presets in the order in which the theme screen lists them.
    pub open spec fn all() -> Seq<ThemePreset> {
        seq![
            ThemePreset::Dark,
            ThemePreset::Light,
            ThemePreset::RetroGreen,
            ThemePreset::PlayStation,
            ThemePreset::Xbox,
        ]
    }

    /// The first preset whose name is `name` up to the case of ASCII
    /// letters.
    pub open spec fn named(name: Seq<char>) -> Option<ThemePreset> {
        if ascii_case_equal(ThemePreset::Dark.spec_name(), name) {
            Some(ThemePreset::Dark)
        } else if ascii_case_equal(ThemePreset::Light.spec_name(), name) {
            Some(ThemePreset::Light)
        } else if ascii_case_equal(ThemePreset::RetroGreen.spec_name(), name) {
            Some(ThemePreset::RetroGreen)
        } else if ascii_case_equal(ThemePreset::PlayStation.spec_name(), name) {
            Some(ThemePreset::PlayStation)
        } else if ascii_case_equal(ThemePreset::Xbox.spec_name(), name) {
            Some(ThemePreset::Xbox)
        } else {
            None
        }
    }

    /// The preset at a place of the list of [`ThemePreset::all`].
    pub fn at(index: usize) -> (r: Option<ThemePreset>)
        ensures
            r == if index < 5 {
                Some(Self::all()[index as int])
            } else {
                None
            },
    {
        if index == 0 {
            Some(ThemePreset::Dark)
        } else if index == 1 {
            Some(ThemePreset::Light)
        } else if index == 2 {
            Some(ThemePreset::RetroGreen)
        } else if index == 3 {
            Some(ThemePreset::PlayStation)
        } else if index == 4 {
            Some(ThemePreset::Xbox)
        } else {
            None
        }
    }
}

/// Number of built-in themes.
pub const THEME_COUNT: usize = 5;

impl Theme {
    /// The theme of a preset.
    pub fn of(preset: ThemePreset) -> (r: Theme)
        ensures
            r.preset == preset,
            r.name@ == preset.spec_name(),
    {
        Theme { name: String::from_str(preset.name()), preset }
    }

    /// The dark theme, which is the default.
    pub fn dark() -> (r: Theme)
        ensures
            r.preset == ThemePreset::Dark,
            r.name@ == "Dark"@,
    {
        Theme::of(ThemePreset::Dark)
    }

    /// The light theme.
    pub fn light() -> (r: Theme)
        ensures
            r.preset == ThemePreset::Light,
            r.name@ == "Light"@,
    {
        Theme::of(ThemePreset::Light)
    }

    /// The green-on-black terminal theme.
    pub fn retro_green() -> (r: Theme)
        ensures
            r.preset == ThemePreset::RetroGreen,
            r.name@ == "Retro Green"@,
    {
        Theme::of(ThemePreset::RetroGreen)
    }

    /// The blue theme.
    pub fn playstation() -> (r: Theme)
        ensures
            r.preset == ThemePreset::PlayStation,
            r.name@ == "PlayStation"@,
    {
        Theme::of(ThemePreset::PlayStation)
    }

    /// The green theme.
    pub fn xbox() -> (r: Theme)
        ensures
            r.preset == ThemePreset::Xbox,
            r.name@ == "Xbox"@,
    {
        Theme::of(ThemePreset::Xbox)
    }

    /// The built-in themes in the order of [`ThemePreset::all`].
    pub fn all_presets() -> (r: Vec<Theme>)
        ensures
            r@.len() == 5,
            forall|i: int|
                0 <= i < 5 ==> (#[trigger] r@[i]).preset == ThemePreset::all()[i] && r@[i].name@
                    == ThemePreset::all()[i].spec_name(),
    {
        let mut v: Vec<Theme> = Vec::new();
        v.push(Theme::dark());
        v.push(Theme::light());
        v.push(Theme::retro_green());
        v.push(Theme::playstation());
        v.push(Theme::xbox());
        v
    }

    /// The built-in theme of this name; the case of ASCII letters does not
    /// count.
    pub fn by_name(name: &str) -> (r: Option<Theme>)
        ensures
            match r {
                Some(t) => ThemePreset::named(name@) == Some(t.preset) && t.name@ == t.preset.spec_name(),
                None => ThemePreset::named(name@) is None,
            },
    {
        if same_text_ignoring_ascii_case("Dark", name) {
            Some(Theme::dark())
        } else if same_text_ignoring_ascii_case("Light", name) {
            Some(Theme::light())
        } else if same_text_ignoring_ascii_case("Retro Green", name) {
            Some(Theme::retro_green())
        } else if same_text_ignoring_ascii_case("PlayStation", name) {
            Some(Theme::playstation())
        } else if same_text_ignoring_ascii_case("Xbox", name) {
            Some(Theme::xbox())
        } else {
            None
        }
    }
}

/// The colour that an upper-case name stands for; white for any other
/// text.
pub open spec fn color_named(upper: Seq<char>) -> NamedColor {
    if upper == "BLACK"@ {
        NamedColor::Black
    } else if upper == "PINK"@ {
        NamedColor::Pink
    } else if upper == "RED"@ {
        NamedColor::Red
    } else if upper == "ORANGE"@ {
        NamedColor::Orange
    } else if upper == "YELLOW"@ {
        NamedColor::Yellow
    } else if upper == "GREEN"@ {
        NamedColor::Green
    } else if upper == "BLUE"@ {
        NamedColor::Blue
    } else if upper == "PURPLE"@ || upper == "VIOLET"@ {
        NamedColor::Violet
    } else if upper == "LIGHTGRAY"@ {
        NamedColor::LightGray
    } else if upper == "DARKGRAY"@ {
        NamedColor::DarkGray
    } else if upper == "GRAY"@ || upper == "GREY"@ {
        NamedColor::Gray
    } else {
        NamedColor::White
    }
}

/// The colour that an upper-case name stands for.
pub fn color_from_upper(upper: &str) -> (r: NamedColor)
    ensures
        r == color_named(upper@),
{
    if same_text(upper, "BLACK") {
        NamedColor::Black
    } else if same_text(upper, "PINK") {
        NamedColor::Pink
    } else if same_text(upper, "RED") {
        NamedColor::Red
    } else if same_text(upper, "ORANGE") {
        NamedColor::Orange
    } else if same_text(upper, "YELLOW") {
        NamedColor::Yellow
    } else if same_text(upper, "GREEN") {
        NamedColor::Green
    } else if same_text(upper, "BLUE") {
        NamedColor::Blue
    } else if same_text(upper, "PURPLE") || same_text(upper, "VIOLET") {
        NamedColor::Violet
    } else if same_text(upper, "LIGHTGRAY") {
        NamedColor::LightGray
    } else if same_text(upper, "DARKGRAY") {
        NamedColor::DarkGray
    } else if same_text(upper, "GRAY") || same_text(upper, "GREY") {
        NamedColor::Gray
    } else {
        NamedColor::White
    }
}

/// Reads a colour name in any case; a name that is not known gives white.
pub fn string_to_color(color_str: &str) -> (r: NamedColor)
    ensures
        r == color_named(uppercase(color_str@)),
{
    let upper = to_uppercase(color_str);
    color_from_upper(upper.as_str())
}

/// What is kept of the theme between runs.
#[derive(Debug)]
pub struct ThemeConfig {
    pub theme_name: String,
    pub version: u32,
}

impl Default for ThemeConfig {
    fn default() -> (r: ThemeConfig)
        ensures
            r.theme_name@ == "Dark"@,
            r.version == 1,
    {
        ThemeConfig { theme_name: String::from_str("Dark"), version: 1 }
    }
}

/// The text of the error for a theme name that no preset has.
pub open spec fn theme_not_found_text(name: Seq<char>) -> Seq<char> {
    "Theme '"@ + name + "' not found"@
}

/// The theme in use, what is kept of it, and the colours that a client
/// asked for.
#[derive(Debug)]
pub struct ThemeConfigManager {
    config: ThemeConfig,
    config_path: String,
    current_theme: Theme,
    font_color: Option<NamedColor>,
    cursor_color: Option<NamedColor>,
}

impl ThemeConfigManager {
    /// The name that is kept.
    pub closed spec fn spec_theme_name(&self) -> Seq<char> {
        self.config.theme_name@
    }

    /// The preset in use.
    pub closed spec fn spec_preset(&self) -> ThemePreset {
        self.current_theme.preset
    }

    /// Where the theme is kept.
    pub closed spec fn spec_path(&self) -> Seq<char> {
        self.config_path@
    }

    /// The colours that a client asked for: text first, cursor second.
    pub closed spec fn spec_colors(&self) -> (Option<NamedColor>, Option<NamedColor>) {
        (self.font_color, self.cursor_color)
    }

    /// A manager for the file at `config_path`: it holds what was read
    /// from the file, or the default where nothing was. A name that no
    /// preset has leaves the dark theme in use. The second result says
    /// whether the default is to be written.
    pub fn from_loaded(config_path: String, loaded: Option<ThemeConfig>) -> (r: (ThemeConfigManager, bool))
        ensures
            r.0.spec_path() == config_path@,
            r.1 == (loaded is None),
            r.0.spec_colors() == (None::<NamedColor>, None::<NamedColor>),
            r.0.spec_theme_name() == match loaded {
                Some(c) => c.theme_name@,
                None => "Dark"@,
            },
            r.0.spec_preset() == match ThemePreset::named(r.0.spec_theme_name()) {
                Some(p) => p,
                None => ThemePreset::Dark,
            },
            r.0.spec_config().version == match loaded {
                Some(c) => c.version,
                None => 1,
            },
    {
        let write_default = loaded.is_none();
        let config = match loaded {
            Some(c) => c,
            None => ThemeConfig::default(),
        };
        let current_theme = match Theme::by_name(config.theme_name.as_str()) {
            Some(t) => t,
            None => Theme::dark(),
        };
        (
            ThemeConfigManager { config, config_path, current_theme, font_color: None, cursor_color: None },
            write_default,
        )
    }

    /// What is kept of the theme between runs.
    pub closed spec fn spec_config(&self) -> ThemeConfig {
        self.config
    }

    /// What is kept of the theme between runs, to be written.
    pub fn config(&self) -> (r: &ThemeConfig)
        ensures
            *r == self.spec_config(),
            r.theme_name@ == self.spec_theme_name(),
    {
        &self.config
    }

    /// The theme in use.
    pub fn theme(&self) -> (r: &Theme)
        ensures
            r.preset == self.spec_preset(),
    {
        &self.current_theme
    }

    /// The name that is kept.
    pub fn theme_name(&self) -> (r: &str)
        ensures
            r@ == self.spec_theme_name(),
    {
        self.config.theme_name.as_str()
    }

    /// Where the theme is kept.
    pub fn config_path(&self) -> (r: &str)
        ensures
            r@ == self.spec_path(),
    {
        self.config_path.as_str()
    }

    /// Puts the built-in theme of this name in use and keeps the name as it
    /// was given. An unknown name is an error and changes nothing. After
    /// success the configuration is to be written.
    pub fn set_theme(&mut self, theme_name: &str) -> (r: Result<(), String>)
        ensures
            final(self).spec_path() == old(self).spec_path(),
            final(self).spec_colors() == old(self).spec_colors(),
            final(self).spec_config().version == old(self).spec_config().version,
            match r {
                Ok(_) => {
                    &&& ThemePreset::named(theme_name@) == Some(final(self).spec_preset())
                    &&& final(self).spec_theme_name() == theme_name@
                },
                Err(e) => {
                    &&& ThemePreset::named(theme_name@) is None
                    &&& e@ == theme_not_found_text(theme_name@)
                    &&& *final(self) == *old(self)
                },
            },
    {
        match Theme::by_name(theme_name) {
            Some(theme) => {
                self.config.theme_name = String::from_str(theme_name);
                self.current_theme = theme;
                Ok(())
            },
            None => Err(concat3("Theme '", theme_name, "' not found")),
        }
    }

    /// Puts a built-in theme in use and keeps its name. Afterwards the
    /// configuration is to be written.
    pub fn set_preset(&mut self, preset: ThemePreset)
        ensures
            final(self).spec_preset() == preset,
            final(self).spec_theme_name() == preset.spec_name(),
            final(self).spec_path() == old(self).spec_path(),
            final(self).spec_colors() == old(self).spec_colors(),
            final(self).spec_config().version == old(self).spec_config().version,
    {
        let theme = Theme::of(preset);
        self.config.theme_name = String::from_str(preset.name());
        self.current_theme = theme;
    }

    /// Takes the colours that a client names for text and cursor.
    pub fn set_colors(&mut self, font_color: &str, cursor_color: &str)
        ensures
            final(self).spec_path() == old(self).spec_path(),
            final(self).spec_theme_name() == old(self).spec_theme_name(),
            final(self).spec_preset() == old(self).spec_preset(),
            final(self).spec_config() == old(self).spec_config(),
            final(self).spec_colors() == (
                Some(color_named(uppercase(font_color@))),
                Some(color_named(uppercase(cursor_color@))),
            ),
    {
        self.font_color = Some(string_to_color(font_color));
        self.cursor_color = Some(string_to_color(cursor_color));
    }

    /// The colours that a client asked for: text first, cursor second.
    pub fn colors(&self) -> (r: (Option<NamedColor>, Option<NamedColor>))
        ensures
            r == self.spec_colors(),
    {
        (self.font_color, self.cursor_color)
    }

    /// The names of the built-in themes.
    pub fn available_themes() -> (r: Vec<String>)
        ensures
            r@.len() == 5,
            forall|i: int| 0 <= i < 5 ==> (#[trigger] r@[i])@ == ThemePreset::all()[i].spec_name(),
    {
        let mut v: Vec<String> = Vec::new();
        v.push(String::from_str(ThemePreset::Dark.name()));
        v.push(String::from_str(ThemePreset::Light.name()));
        v.push(String::from_str(ThemePreset::RetroGreen.name()));
        v.push(String::from_str(ThemePreset::PlayStation.name()));
        v.push(String::from_str(ThemePreset::Xbox.name()));
        v
    }
}

} // verus!
