//! The messages that travel over the overlay socket, and the names their
//! parts carry on the wire.

use vstd::prelude::*;
use crate::text::{concat2, first_char_pos, lines_of, same_text, text_lines, views};

verus! {

/// Where the overlay listens unless a client is told otherwise.
pub const SOCKET_PATH: &'static str = "/tmp/kazeta-overlay.sock";

/// The colour scheme of a toast.
#[derive(Clone, Copy, Debug, PartialEq, Eq, Structural)]
pub enum ToastStyle {
    Info,
    Success,
    Warning,
    Error,
}

/// The screens of the overlay.
#[derive(Clone, Copy, Debug, PartialEq, Eq, Structural)]
pub enum OverlayScreen {
    Main,
    Settings,
    Achievements,
    Performance,
    Playtime,
    Controllers,
    BluetoothPairing,
    ControllerAssign,
    GamepadTester,
    HotkeySettings,
    MenuCustomization,
    ThemeSelection,
    QuitConfirm,
}

/// How far a multi-step achievement has come.
#[derive(Clone, Copy, Debug, PartialEq, Eq, Structural)]
pub struct AchievementProgress {
    pub current: u32,
    pub target: u32,
}

/// One achievement as the overlay shows it.
#[derive(Clone, Debug)]
pub struct AchievementInfo {
    pub id: u32,
    pub title: String,
    pub description: String,
    pub points: u32,
    pub earned: bool,
    pub earned_hardcore: bool,
    /// Share of players who earned it, in hundredths of a percent.
    pub rarity_basis_points: Option<u32>,
    /// Unix time in seconds at which it was earned.
    pub earned_at: Option<u64>,
    pub progress: Option<AchievementProgress>,
}

/// What an achievement holds, with its texts as sequences.
pub struct AchievementInfoView {
    pub id: u32,
    pub title: Seq<char>,
    pub description: Seq<char>,
    pub points: u32,
    pub earned: bool,
    pub earned_hardcore: bool,
    pub rarity_basis_points: Option<u32>,
    pub earned_at: Option<u64>,
    pub progress: Option<AchievementProgress>,
}

impl View for AchievementInfo {
    type V = AchievementInfoView;

    open spec fn view(&self) -> AchievementInfoView {
        AchievementInfoView {
            id: self.id,
            title: self.title@,
            description: self.description@,
            points: self.points,
            earned: self.earned,
            earned_hardcore: self.earned_hardcore,
            rarity_basis_points: self.rarity_basis_points,
            earned_at: self.earned_at,
            progress: self.progress,
        }
    }
}

/// The views of a list of achievements.
pub open spec fn achievement_views(list: Seq<AchievementInfo>) -> Seq<AchievementInfoView> {
    Seq::new(list.len(), |i: int| list[i]@)
}

/// One message on the overlay socket.
#[derive(Clone, Debug)]
#[allow(inconsistent_fields)]
pub enum OverlayMessage {
    UnlockAchievement { cart_id: String, achievement_id: String, timestamp: u64 },
    ShowToast { message: String, icon: Option<String>, duration_ms: u32, style: ToastStyle },
    ShowOverlay { screen: OverlayScreen },
    HideOverlay,
    GetStatus,
    SetTheme { font_color: String, cursor_color: String },
    RaGameStart {
        game_title: String,
        game_id: Option<u32>,
        game_icon: Option<String>,
        total_achievements: u32,
        earned_achievements: u32,
    },
    RaAchievementUnlocked {
        achievement_id: u32,
        title: String,
        description: Option<String>,
        points: u32,
        icon_url: Option<String>,
        is_hardcore: bool,
    },
    RaProgressUpdate { earned: u32, total: u32 },
    RaAchievementList { game_title: String, game_hash: String, achievements: Vec<AchievementInfo> },
    ToggleOverlay,
    GameStarted { cart_id: String, game_name: String, runtime: String },
    GameStopped { cart_id: String },
    QuitGame,
    QuitGameAck,
}

impl ToastStyle {
    /// The name of the style on the wire.
    pub open spec fn spec_wire_name(self) -> Seq<char> {
        match self {
            ToastStyle::Info => "info"@,
            ToastStyle::Success => "success"@,
            ToastStyle::Warning => "warning"@,
            ToastStyle::Error => "error"@,
        }
    }

    /// The style that a wire name stands for, if any.
    pub open spec fn spec_from_wire_name(name: Seq<char>) -> Option<ToastStyle> {
        if name == "info"@ {
            Some(ToastStyle::Info)
        } else if name == "success"@ {
            Some(ToastStyle::Success)
        } else if name == "warning"@ {
            Some(ToastStyle::Warning)
        } else if name == "error"@ {
            Some(ToastStyle::Error)
        } else {
            None
        }
    }

    /// The name of the style on the wire.
    pub fn wire_name(&self) -> (r: &'static str)
        ensures
            r@ == self.spec_wire_name(),
    {
        match self {
            ToastStyle::Info => "info",
            ToastStyle::Success => "success",
            ToastStyle::Warning => "warning",
            ToastStyle::Error => "error",
        }
    }

    /// Reads a style from its wire name.
    pub fn from_wire_name(name: &str) -> (r: Option<ToastStyle>)
        ensures
            r == Self::spec_from_wire_name(name@),
    {
        if same_text(name, "info") {
            Some(ToastStyle::Info)
        } else if same_text(name, "success") {
            Some(ToastStyle::Success)
        } else if same_text(name, "warning") {
            Some(ToastStyle::Warning)
        } else if same_text(name, "error") {
            Some(ToastStyle::Error)
        } else {
            None
        }
    }

    /// Every style is read back from its own wire name.
    pub proof fn lemma_wire_name_round_trip(style: ToastStyle)
        ensures
            Self::spec_from_wire_name(style.spec_wire_name()) == Some(style),
    {
        reveal_strlit("info");
        reveal_strlit("success");
        reveal_strlit("warning");
        reveal_strlit("error");
        assert("info"@.len() == 4);
        assert("success"@.len() == 7);
        assert("warning"@.len() == 7);
        assert("error"@.len() == 5);
        assert("success"@[0] == 's');
        assert("warning"@[0] == 'w');
    }
}

impl OverlayScreen {
    /// The name of the screen on the wire.
    pub open spec fn spec_wire_name(self) -> Seq<char> {
        match self {
            OverlayScreen::Main => "main"@,
            OverlayScreen::Settings => "settings"@,
            OverlayScreen::Achievements => "achievements"@,
            OverlayScreen::Performance => "performance"@,
            OverlayScreen::Playtime => "playtime"@,
            OverlayScreen::Controllers => "controllers"@,
            OverlayScreen::BluetoothPairing => "bluetooth_pairing"@,
            OverlayScreen::ControllerAssign => "controller_assign"@,
            OverlayScreen::GamepadTester => "gamepad_tester"@,
            OverlayScreen::HotkeySettings => "hotkey_settings"@,
            OverlayScreen::MenuCustomization => "menu_customization"@,
            OverlayScreen::ThemeSelection => "theme_selection"@,
            OverlayScreen::QuitConfirm => "quit_confirm"@,
        }
    }

    /// The screen that a wire name stands for, if any.
    pub open spec fn spec_from_wire_name(name: Seq<char>) -> Option<OverlayScreen> {
        if name == "main"@ {
            Some(OverlayScreen::Main)
        } else if name == "settings"@ {
            Some(OverlayScreen::Settings)
        } else if name == "achievements"@ {
            Some(OverlayScreen::Achievements)
        } else if name == "performance"@ {
            Some(OverlayScreen::Performance)
        } else if name == "playtime"@ {
            Some(OverlayScreen::Playtime)
        } else if name == "controllers"@ {
            Some(OverlayScreen::Controllers)
        } else if name == "bluetooth_pairing"@ {
            Some(OverlayScreen::BluetoothPairing)
        } else if name == "controller_assign"@ {
            Some(OverlayScreen::ControllerAssign)
        } else if name == "gamepad_tester"@ {
            Some(OverlayScreen::GamepadTester)
        } else if name == "hotkey_settings"@ {
            Some(OverlayScreen::HotkeySettings)
        } else if name == "menu_customization"@ {
            Some(OverlayScreen::MenuCustomization)
        } else if name == "theme_selection"@ {
            Some(OverlayScreen::ThemeSelection)
        } else if name == "quit_confirm"@ {
            Some(OverlayScreen::QuitConfirm)
        } else {
            None
        }
    }

    /// The name of the screen on the wire.
    pub fn wire_name(&self) -> (r: &'static str)
        ensures
            r@ == self.spec_wire_name(),
    {
        match self {
            OverlayScreen::Main => "main",
            OverlayScreen::Settings => "settings",
            OverlayScreen::Achievements => "achievements",
            OverlayScreen::Performance => "performance",
            OverlayScreen::Playtime => "playtime",
            OverlayScreen::Controllers => "controllers",
            OverlayScreen::BluetoothPairing => "bluetooth_pairing",
            OverlayScreen::ControllerAssign => "controller_assign",
            OverlayScreen::GamepadTester => "gamepad_tester",
            OverlayScreen::HotkeySettings => "hotkey_settings",
            OverlayScreen::MenuCustomization => "menu_customization",
            OverlayScreen::ThemeSelection => "theme_selection",
            OverlayScreen::QuitConfirm => "quit_confirm",
        }
    }

    /// Reads a screen from its wire name.
    pub fn from_wire_name(name: &str) -> (r: Option<OverlayScreen>)
        ensures
            r == Self::spec_from_wire_name(name@),
    {
        if same_text(name, "main") {
            Some(OverlayScreen::Main)
        } else if same_text(name, "settings") {
            Some(OverlayScreen::Settings)
        } else if same_text(name, "achievements") {
            Some(OverlayScreen::Achievements)
        } else if same_text(name, "performance") {
            Some(OverlayScreen::Performance)
        } else if same_text(name, "playtime") {
            Some(OverlayScreen::Playtime)
        } else if same_text(name, "controllers") {
            Some(OverlayScreen::Controllers)
        } else if same_text(name, "bluetooth_pairing") {
            Some(OverlayScreen::BluetoothPairing)
        } else if same_text(name, "controller_assign") {
            Some(OverlayScreen::ControllerAssign)
        } else if same_text(name, "gamepad_tester") {
            Some(OverlayScreen::GamepadTester)
        } else if same_text(name, "hotkey_settings") {
            Some(OverlayScreen::HotkeySettings)
        } else if same_text(name, "menu_customization") {
            Some(OverlayScreen::MenuCustomization)
        } else if same_text(name, "theme_selection") {
            Some(OverlayScreen::ThemeSelection)
        } else if same_text(name, "quit_confirm") {
            Some(OverlayScreen::QuitConfirm)
        } else {
            None
        }
    }
}

impl OverlayMessage {
    /// The value of the `type` field that marks the variant on the wire.
    pub open spec fn spec_type_tag(self) -> Seq<char> {
        match self {
            OverlayMessage::UnlockAchievement { .. } => "unlock_achievement"@,
            OverlayMessage::ShowToast { .. } => "show_toast"@,
            OverlayMessage::ShowOverlay { .. } => "show_overlay"@,
            OverlayMessage::HideOverlay => "hide_overlay"@,
            OverlayMessage::GetStatus => "get_status"@,
            OverlayMessage::SetTheme { .. } => "set_theme"@,
            OverlayMessage::RaGameStart { .. } => "ra_game_start"@,
            OverlayMessage::RaAchievementUnlocked { .. } => "ra_achievement_unlocked"@,
            OverlayMessage::RaProgressUpdate { .. } => "ra_progress_update"@,
            OverlayMessage::RaAchievementList { .. } => "ra_achievement_list"@,
            OverlayMessage::ToggleOverlay => "toggle_overlay"@,
            OverlayMessage::GameStarted { .. } => "game_started"@,
            OverlayMessage::GameStopped { .. } => "game_stopped"@,
            OverlayMessage::QuitGame => "quit_game"@,
            OverlayMessage::QuitGameAck => "quit_game_ack"@,
        }
    }

    /// The value of the `type` field that marks the variant on the wire.
    pub fn type_tag(&self) -> (r: &'static str)
        ensures
            r@ == self.spec_type_tag(),
    {
        match self {
            OverlayMessage::UnlockAchievement { .. } => "unlock_achievement",
            OverlayMessage::ShowToast { .. } => "show_toast",
            OverlayMessage::ShowOverlay { .. } => "show_overlay",
            OverlayMessage::HideOverlay => "hide_overlay",
            OverlayMessage::GetStatus => "get_status",
            OverlayMessage::SetTheme { .. } => "set_theme",
            OverlayMessage::RaGameStart { .. } => "ra_game_start",
            OverlayMessage::RaAchievementUnlocked { .. } => "ra_achievement_unlocked",
            OverlayMessage::RaProgressUpdate { .. } => "ra_progress_update",
            OverlayMessage::RaAchievementList { .. } => "ra_achievement_list",
            OverlayMessage::ToggleOverlay => "toggle_overlay",
            OverlayMessage::GameStarted { .. } => "game_started",
            OverlayMessage::GameStopped { .. } => "game_stopped",
            OverlayMessage::QuitGame => "quit_game",
            OverlayMessage::QuitGameAck => "quit_game_ack",
        }
    }
}

/// What became of one line of a connection when it was read as a
/// message.
#[derive(Debug)]
pub enum Decoded {
    /// The line is a message.
    Message(OverlayMessage),
    /// The line is well-formed but of a type that is not known. It is
    /// dropped.
    Unknown,
    /// The line is no message. The connection is closed at it.
    Malformed,
}

/// The messages that a connection delivers: those of its lines, in the
/// order of the lines, up to the first line that is malformed. Lines of
/// unknown type are passed over.
pub open spec fn accepted(lines: Seq<Decoded>) -> Seq<OverlayMessage>
    decreases lines.len(),
{
    if lines.len() == 0 {
        Seq::empty()
    } else {
        match lines[0] {
            Decoded::Message(m) => seq![m] + accepted(lines.drop_first()),
            Decoded::Unknown => accepted(lines.drop_first()),
            Decoded::Malformed => Seq::empty(),
        }
    }
}

/// The place of the first malformed line; the number of lines where none
/// is malformed.
pub open spec fn first_malformed(lines: Seq<Decoded>) -> int
    decreases lines.len(),
{
    if lines.len() == 0 {
        0
    } else if lines[0] is Malformed {
        0
    } else {
        1 + first_malformed(lines.drop_first())
    }
}

/// The messages that a connection delivers, and whether the connection
/// was closed at a malformed line.
pub fn accepted_messages(decoded: Vec<Decoded>) -> (r: (Vec<OverlayMessage>, bool))
    ensures
        r.0@ == accepted(decoded@),
        r.1 == (first_malformed(decoded@) < decoded@.len()),
{
    let mut out: Vec<OverlayMessage> = Vec::new();
    let mut closed = false;
    let ghost all = decoded@;
    assert(all.skip(0) == all);
    for line in it: decoded
        invariant
            it.seq() == all,
            !closed ==> accepted(all) == out@ + accepted(all.skip(it.index() as int)),
            !closed ==> first_malformed(all) == it.index() + first_malformed(all.skip(it.index() as int)),
            closed ==> accepted(all) == out@,
            closed ==> first_malformed(all) < it.index(),
    {
        let ghost n = it.index() as int;
        proof {
            assert(all.skip(n).drop_first() == all.skip(n + 1));
            assert(all.skip(n)[0] == all[n]);
        }
        if !closed {
            match line {
                Decoded::Message(m) => {
                    let ghost before = out@;
                    out.push(m);
                    assert(out@ + accepted(all.skip(n + 1)) =~= before + (seq![m] + accepted(all.skip(n + 1))));
                },
                Decoded::Unknown => {},
                Decoded::Malformed => {
                    closed = true;
                    assert(out@ + Seq::<OverlayMessage>::empty() =~= out@);
                },
            }
        }
    }
    proof {
        if !closed {
            assert(all.skip(all.len() as int).len() == 0);
            assert(out@ + Seq::<OverlayMessage>::empty() =~= out@);
        }
    }
    (out, closed)
}

/// A message as it goes over the socket: its JSON text and a line feed.
pub fn frame(json: &str) -> (r: String)
    ensures
        r@ == json@ + "\n"@,
{
    concat2(json, "\n")
}

/// A text that one line can hold: it has no line feed in it and no
/// carriage return at its end.
pub open spec fn fits_a_line(text: Seq<char>) -> bool {
    &&& forall|i: int| 0 <= i < text.len() ==> #[trigger] text[i] != '\n'
    &&& text.len() > 0 ==> text.last() != '\r'
}

/// What a connection holds after the texts were written to it as frames,
/// one after the other.
pub open spec fn framed(texts: Seq<Seq<char>>) -> Seq<char>
    decreases texts.len(),
{
    if texts.len() == 0 {
        Seq::empty()
    } else {
        texts[0] + "\n"@ + framed(texts.drop_first())
    }
}

/// The first line feed of a text that begins with a run without line
/// feed stands behind that run.
proof fn lemma_first_line_feed(head: Seq<char>, tail: Seq<char>)
    requires
        forall|i: int| 0 <= i < head.len() ==> #[trigger] head[i] != '\n',
    ensures
        first_char_pos(head + tail, '\n') == head.len() + first_char_pos(tail, '\n'),
    decreases head.len(),
{
    if head.len() == 0 {
        assert(head + tail =~= tail);
    } else {
        assert((head + tail)[0] == head[0]);
        assert((head + tail).drop_first() =~= head.drop_first() + tail);
        assert forall|i: int| 0 <= i < head.drop_first().len() implies #[trigger] head.drop_first()[i] != '\n' by {
            assert(head.drop_first()[i] == head[i + 1]);
        }
        lemma_first_line_feed(head.drop_first(), tail);
    }
}

/// The texts that are written as frames to one connection, one after the
/// other, are the lines of that connection, in the order in which they
/// were written.
pub proof fn lemma_frames_in_order(texts: Seq<Seq<char>>)
    requires
        forall|i: int| 0 <= i < texts.len() ==> fits_a_line(#[trigger] texts[i]),
    ensures
        text_lines(framed(texts)) == texts,
    decreases texts.len(),
{
    reveal_strlit("\n");
    if texts.len() == 0 {
        assert(text_lines(framed(texts)) =~= texts);
    } else {
        let first = texts[0];
        let rest = texts.drop_first();
        let tail = "\n"@ + framed(rest);
        let all = framed(texts);
        assert(fits_a_line(first));
        assert(all =~= first + tail);
        assert(tail[0] == '\n');
        lemma_first_line_feed(first, tail);
        assert(first_char_pos(tail, '\n') == 0);
        assert(all.take(first.len() as int) =~= first);
        assert(all.skip(first.len() as int + 1) =~= framed(rest));
        assert forall|i: int| 0 <= i < rest.len() implies fits_a_line(#[trigger] rest[i]) by {
            assert(rest[i] == texts[i + 1]);
        }
        lemma_frames_in_order(rest);
        assert(seq![first] + rest =~= texts);
    }
}

/// The lines that were read from a connection, each to be read as a
/// message.
pub fn message_lines(data: &str) -> (r: Vec<String>)
    ensures
        views(r@) == text_lines(data@),
{
    lines_of(data)
}

/// The values of the `type` field that are known.
pub open spec fn known_type_tags() -> Seq<Seq<char>> {
    seq![
        "unlock_achievement"@,
        "show_toast"@,
        "show_overlay"@,
        "hide_overlay"@,
        "get_status"@,
        "set_theme"@,
        "ra_game_start"@,
        "ra_achievement_unlocked"@,
        "ra_progress_update"@,
        "ra_achievement_list"@,
        "toggle_overlay"@,
        "game_started"@,
        "game_stopped"@,
        "quit_game"@,
        "quit_game_ack"@,
    ]
}

/// Whether a value of the `type` field is that of a known message. A
/// well-formed line of any other type is dropped and is no error.
pub fn is_known_type(tag: &str) -> (r: bool)
    ensures
        r == known_type_tags().contains(tag@),
{
    let known = same_text(tag, "unlock_achievement") || same_text(tag, "show_toast") || same_text(
        tag,
        "show_overlay",
    ) || same_text(tag, "hide_overlay") || same_text(tag, "get_status") || same_text(tag, "set_theme")
        || same_text(tag, "ra_game_start") || same_text(tag, "ra_achievement_unlocked") || same_text(
        tag,
        "ra_progress_update",
    ) || same_text(tag, "ra_achievement_list") || same_text(tag, "toggle_overlay") || same_text(
        tag,
        "game_started",
    ) || same_text(tag, "game_stopped") || same_text(tag, "quit_game") || same_text(tag, "quit_game_ack");
    proof {
        let tags = known_type_tags();
        if known {
            assert(tags[0] == "unlock_achievement"@);
            assert(tags[1] == "show_toast"@);
            assert(tags[2] == "show_overlay"@);
            assert(tags[3] == "hide_overlay"@);
            assert(tags[4] == "get_status"@);
            assert(tags[5] == "set_theme"@);
            assert(tags[6] == "ra_game_start"@);
            assert(tags[7] == "ra_achievement_unlocked"@);
            assert(tags[8] == "ra_progress_update"@);
            assert(tags[9] == "ra_achievement_list"@);
            assert(tags[10] == "toggle_overlay"@);
            assert(tags[11] == "game_started"@);
            assert(tags[12] == "game_stopped"@);
            assert(tags[13] == "quit_game"@);
            assert(tags[14] == "quit_game_ack"@);
        } else if tags.contains(tag@) {
            let i = choose|i: int| 0 <= i < tags.len() && tags[i] == tag@;
            assert(tags[i] == tag@);
        }
    }
    known
}

/// Every message carries a known type.
pub proof fn lemma_type_tag_known(message: OverlayMessage)
    ensures
        known_type_tags().contains(message.spec_type_tag()),
{
    let tags = known_type_tags();
    assert(tags[0] == "unlock_achievement"@);
    assert(tags[1] == "show_toast"@);
    assert(tags[2] == "show_overlay"@);
    assert(tags[3] == "hide_overlay"@);
    assert(tags[4] == "get_status"@);
    assert(tags[5] == "set_theme"@);
    assert(tags[6] == "ra_game_start"@);
    assert(tags[7] == "ra_achievement_unlocked"@);
    assert(tags[8] == "ra_progress_update"@);
    assert(tags[9] == "ra_achievement_list"@);
    assert(tags[10] == "toggle_overlay"@);
    assert(tags[11] == "game_started"@);
    assert(tags[12] == "game_stopped"@);
    assert(tags[13] == "quit_game"@);
    assert(tags[14] == "quit_game_ack"@);
}

} // verus!
