//! Consoles and the records that the service returns.

use vstd::prelude::*;
use crate::text::{concat3, lowercase, same_text, to_lowercase};

verus! {

/// The consoles that the service knows, each with its number there.
#[derive(Clone, Copy, Debug, PartialEq, Eq, Structural)]
pub enum ConsoleId {
    MegaDrive,
    Nintendo64,
    SNES,
    GameBoy,
    GameBoyAdvance,
    GameBoyColor,
    NES,
    MasterSystem,
    PlayStation,
    NintendoDS,
    PlayStation2,
    Atari2600,
    VirtualBoy,
}

impl ConsoleId {
    /// The number of the console at the service.
    pub open spec fn number(self) -> u32 {
        match self {
            ConsoleId::MegaDrive => 1,
            ConsoleId::Nintendo64 => 2,
            ConsoleId::SNES => 3,
            ConsoleId::GameBoy => 4,
            ConsoleId::GameBoyAdvance => 5,
            ConsoleId::GameBoyColor => 6,
            ConsoleId::NES => 7,
            ConsoleId::MasterSystem => 11,
            ConsoleId::PlayStation => 12,
            ConsoleId::NintendoDS => 18,
            ConsoleId::PlayStation2 => 21,
            ConsoleId::Atari2600 => 25,
            ConsoleId::VirtualBoy => 28,
        }
    }

    /// The console that a lower-case name stands for.
    pub open spec fn named(lower: Seq<char>) -> Option<ConsoleId> {
        if lower == "gba"@ || lower == "gameboy advance"@ || lower == "game boy advance"@ {
            Some(ConsoleId::GameBoyAdvance)
        } else if lower == "gb"@ || lower == "gameboy"@ || lower == "game boy"@ {
            Some(ConsoleId::GameBoy)
        } else if lower == "gbc"@ || lower == "gameboy color"@ || lower == "game boy color"@ {
            Some(ConsoleId::GameBoyColor)
        } else if lower == "nes"@ || lower == "famicom"@ {
            Some(ConsoleId::NES)
        } else if lower == "snes"@ || lower == "super nintendo"@ || lower == "super famicom"@ {
            Some(ConsoleId::SNES)
        } else if lower == "n64"@ || lower == "nintendo 64"@ {
            Some(ConsoleId::Nintendo64)
        } else if lower == "psx"@ || lower == "ps1"@ || lower == "playstation"@ {
            Some(ConsoleId::PlayStation)
        } else if lower == "ps2"@ || lower == "playstation 2"@ {
            Some(ConsoleId::PlayStation2)
        } else if lower == "genesis"@ || lower == "mega drive"@ || lower == "megadrive"@ {
            Some(ConsoleId::MegaDrive)
        } else if lower == "sms"@ || lower == "master system"@ {
            Some(ConsoleId::MasterSystem)
        } else if lower == "nds"@ || lower == "ds"@ || lower == "nintendo ds"@ {
            Some(ConsoleId::NintendoDS)
        } else if lower == "atari2600"@ || lower == "2600"@ {
            Some(ConsoleId::Atari2600)
        } else if lower == "vb"@ || lower == "virtual boy"@ {
            Some(ConsoleId::VirtualBoy)
        } else {
            None
        }
    }

    /// The console that a lower-case name stands for.
    pub fn from_lower(lower: &str) -> (r: Option<ConsoleId>)
        ensures
            r == Self::named(lower@),
    {
        if same_text(lower, "gba") || same_text(lower, "gameboy advance") || same_text(
            lower,
            "game boy advance",
        ) {
            Some(ConsoleId::GameBoyAdvance)
        } else if same_text(lower, "gb") || same_text(lower, "gameboy") || same_text(lower, "game boy") {
            Some(ConsoleId::GameBoy)
        } else if same_text(lower, "gbc") || same_text(lower, "gameboy color") || same_text(
            lower,
            "game boy color",
        ) {
            Some(ConsoleId::GameBoyColor)
        } else if same_text(lower, "nes") || same_text(lower, "famicom") {
            Some(ConsoleId::NES)
        } else if same_text(lower, "snes") || same_text(lower, "super nintendo") || same_text(
            lower,
            "super famicom",
        ) {
            Some(ConsoleId::SNES)
        } else if same_text(lower, "n64") || same_text(lower, "nintendo 64") {
            Some(ConsoleId::Nintendo64)
        } else if same_text(lower, "psx") || same_text(lower, "ps1") || same_text(lower, "playstation") {
            Some(ConsoleId::PlayStation)
        } else if same_text(lower, "ps2") || same_text(lower, "playstation 2") {
            Some(ConsoleId::PlayStation2)
        } else if same_text(lower, "genesis") || same_text(lower, "mega drive") || same_text(
            lower,
            "megadrive",
        ) {
            Some(ConsoleId::MegaDrive)
        } else if same_text(lower, "sms") || same_text(lower, "master system") {
            Some(ConsoleId::MasterSystem)
        } else if same_text(lower, "nds") || same_text(lower, "ds") || same_text(lower, "nintendo ds") {
            Some(ConsoleId::NintendoDS)
        } else if same_text(lower, "atari2600") || same_text(lower, "2600") {
            Some(ConsoleId::Atari2600)
        } else if same_text(lower, "vb") || same_text(lower, "virtual boy") {
            Some(ConsoleId::VirtualBoy)
        } else {
            None
        }
    }

    /// Reads a console from one of its names, in any case.
    pub fn from_str(s: &str) -> (r: Option<ConsoleId>)
        ensures
            r == Self::named(lowercase(s@)),
    {
        let lower = to_lowercase(s);
        Self::from_lower(lower.as_str())
    }

    /// The number of the console at the service.
    pub fn as_u32(&self) -> (r: u32)
        ensures
            r == self.number(),
    {
        match self {
            ConsoleId::MegaDrive => 1,
            ConsoleId::Nintendo64 => 2,
            ConsoleId::SNES => 3,
            ConsoleId::GameBoy => 4,
            ConsoleId::GameBoyAdvance => 5,
            ConsoleId::GameBoyColor => 6,
            ConsoleId::NES => 7,
            ConsoleId::MasterSystem => 11,
            ConsoleId::PlayStation => 12,
            ConsoleId::NintendoDS => 18,
            ConsoleId::PlayStation2 => 21,
            ConsoleId::Atari2600 => 25,
            ConsoleId::VirtualBoy => 28,
        }
    }
}

/// A game that the user played of late.
#[derive(Debug, Clone)]
pub struct RecentGame {
    pub game_id: u32,
    pub title: String,
    pub console_id: u32,
    pub console_name: String,
    pub image_icon: String,
}

/// The profile of a user.
#[derive(Debug, Clone)]
pub struct UserSummary {
    pub user: String,
    pub total_points: u32,
    pub total_softcore_points: u32,
    pub total_true_points: u32,
    pub rank: Option<u32>,
    pub recently_played: Option<Vec<RecentGame>>,
}

/// One achievement of a game.
#[derive(Debug, Clone)]
pub struct Achievement {
    pub id: u32,
    pub title: String,
    pub description: String,
    pub points: u32,
    pub badge_name: String,
    pub display_order: u32,
    pub date_earned: Option<String>,
    pub date_earned_hardcore: Option<String>,
}

/// A game with its achievements and how far the user has come.
#[derive(Debug, Clone)]
pub struct GameInfoAndProgress {
    pub id: u32,
    pub title: String,
    pub console_id: u32,
    pub console_name: String,
    pub image_icon: String,
    pub image_title: Option<String>,
    pub image_ingame: Option<String>,
    pub image_boxart: Option<String>,
    pub num_achievements: u32,
    pub num_players_casual: u32,
    pub num_players_hardcore: u32,
    /// The achievements, each under the key that the service gives it.
    pub achievements: Option<Vec<(String, Achievement)>>,
    pub num_awarded_to_user: Option<u32>,
    pub num_awarded_to_user_hardcore: Option<u32>,
    pub user_completion: Option<String>,
    pub user_completion_hardcore: Option<String>,
}

/// The answer to a lookup of a game by the hash of its ROM.
#[derive(Debug, Clone, Copy, PartialEq, Eq, Structural)]
pub struct GameIdLookup {
    pub success: bool,
    pub game_id: u32,
}

/// The answer to the award of an achievement.
#[derive(Debug, Clone, Copy, PartialEq, Eq, Structural)]
pub struct AwardAchievementResponse {
    pub success: bool,
    pub achievement_id: Option<u32>,
    pub achievements_remaining: Option<u32>,
    pub score: Option<u32>,
    pub softcore_score: Option<u32>,
}

/// A game in a list of games.
#[derive(Debug, Clone)]
pub struct GameListEntry {
    pub id: u32,
    pub title: String,
    pub console_id: u32,
    pub console_name: String,
    pub num_achievements: u32,
    pub points: u32,
}

/// The address of the picture of a badge.
pub open spec fn badge_url_text(badge_name: Seq<char>) -> Seq<char> {
    "https://media.retroachievements.org/Badge/"@ + badge_name + ".png"@
}

impl Achievement {
    /// Whether the achievement is earned in either mode.
    pub fn is_earned(&self) -> (r: bool)
        ensures
            r == (self.date_earned is Some || self.date_earned_hardcore is Some),
    {
        self.date_earned.is_some() || self.date_earned_hardcore.is_some()
    }

    /// Whether the achievement is earned in hardcore mode.
    pub fn is_earned_hardcore(&self) -> (r: bool)
        ensures
            r == (self.date_earned_hardcore is Some),
    {
        self.date_earned_hardcore.is_some()
    }

    /// The address of the picture of the achievement's badge.
    pub fn badge_url(&self) -> (r: String)
        ensures
            r@ == badge_url_text(self.badge_name@),
    {
        concat3("https://media.retroachievements.org/Badge/", self.badge_name.as_str(), ".png")
    }
}

} // verus!
