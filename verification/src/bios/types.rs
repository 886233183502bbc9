//! Small types of the front-end.

use vstd::prelude::*;
use crate::text::same_text;

verus! {

/// Where the menu stands on the screen.
#[derive(Clone, Copy, Debug, PartialEq, Eq, Structural)]
pub enum MenuPosition {
    Center,
    TopLeft,
    TopRight,
    BottomLeft,
    BottomRight,
}

/// A storage medium and the space that is free on it.
#[derive(Clone, Debug)]
pub struct StorageMedia {
    pub id: String,
    /// Free space in megabytes.
    pub free: u32,
}

/// A save on a storage medium.
#[derive(Clone, Debug)]
pub struct Memory {
    pub id: String,
    pub name: Option<String>,
    pub drive_name: String,
}

/// The step of the dialogs before an emulated game starts.
#[derive(Clone, Copy, Debug, PartialEq, Eq, Structural)]
pub enum GameLaunchStep {
    SelectPlayerCount,
    /// The player of this number chooses a save slot.
    SelectSaveSlot { player: u8 },
    Launching,
}

impl MenuPosition {
    /// The position that a corner's name stands for; the centre has no
    /// name that is read.
    pub open spec fn named(name: Seq<char>) -> Option<MenuPosition> {
        if name == "TopLeft"@ {
            Some(MenuPosition::TopLeft)
        } else if name == "TopRight"@ {
            Some(MenuPosition::TopRight)
        } else if name == "BottomLeft"@ {
            Some(MenuPosition::BottomLeft)
        } else if name == "BottomRight"@ {
            Some(MenuPosition::BottomRight)
        } else {
            None
        }
    }

    /// The place of a position in the cycle of the settings menu.
    pub open spec fn rank(self) -> int {
        match self {
            MenuPosition::Center => 0,
            MenuPosition::TopLeft => 1,
            MenuPosition::TopRight => 2,
            MenuPosition::BottomLeft => 3,
            MenuPosition::BottomRight => 4,
        }
    }

    /// Reads a position from the name of a corner.
    pub fn from_str(input: &str) -> (r: Option<MenuPosition>)
        ensures
            r == Self::named(input@),
    {
        if same_text(input, "TopLeft") {
            Some(MenuPosition::TopLeft)
        } else if same_text(input, "TopRight") {
            Some(MenuPosition::TopRight)
        } else if same_text(input, "BottomLeft") {
            Some(MenuPosition::BottomLeft)
        } else if same_text(input, "BottomRight") {
            Some(MenuPosition::BottomRight)
        } else {
            None
        }
    }

    /// The position after this one in the cycle, which begins again after
    /// the last.
    pub fn next(&self) -> (r: MenuPosition)
        ensures
            r.rank() == (self.rank() + 1) % 5,
    {
        match self {
            MenuPosition::Center => MenuPosition::TopLeft,
            MenuPosition::TopLeft => MenuPosition::TopRight,
            MenuPosition::TopRight => MenuPosition::BottomLeft,
            MenuPosition::BottomLeft => MenuPosition::BottomRight,
            MenuPosition::BottomRight => MenuPosition::Center,
        }
    }

    /// The position before this one in the cycle.
    pub fn prev(&self) -> (r: MenuPosition)
        ensures
            r.rank() == (self.rank() + 4) % 5,
    {
        match self {
            MenuPosition::Center => MenuPosition::BottomRight,
            MenuPosition::TopLeft => MenuPosition::Center,
            MenuPosition::TopRight => MenuPosition::TopLeft,
            MenuPosition::BottomLeft => MenuPosition::TopRight,
            MenuPosition::BottomRight => MenuPosition::BottomLeft,
        }
    }

    /// Going on and then back, or back and then on, changes nothing.
    pub proof fn lemma_next_prev(p: MenuPosition, q: MenuPosition, r: MenuPosition)
        requires
            q.rank() == (p.rank() + 1) % 5,
            r.rank() == (q.rank() + 4) % 5,
        ensures
            r == p,
    {
    }
}

impl Default for MenuPosition {
    fn default() -> (r: MenuPosition)
        ensures
            r == MenuPosition::Center,
    {
        MenuPosition::Center
    }
}

} // verus!
