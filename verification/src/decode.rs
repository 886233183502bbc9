//! Reading the lines of a connection as messages: each line is a JSON
//! object whose `type` names the message and whose members are its
//! fields.

use vstd::prelude::*;
use crate::ipc::{
    accepted, accepted_messages, achievement_views, first_malformed, is_known_type, known_type_tags, message_lines,
    AchievementInfo, AchievementInfoView, AchievementProgress, Decoded, OverlayMessage, OverlayScreen, ToastStyle,
};
use crate::text::{
    all_digits, digits_value, first_char_pos, is_digit, option_view, same_text, text_lines, views,
};

verus! {

/// The member of a JSON object under a key, as JSON text: what
/// `serde_json::from_str` reads, `Value::get` finds and `Value::to_string`
/// writes. Nothing where the text is no JSON object or has no such member.
pub uninterp spec fn json_member_text(doc: Seq<char>, key: Seq<char>) -> Option<Seq<char>>;

/// The text that a JSON string holds, as `Value::as_str` gives it; nothing
/// for any other JSON text.
pub uninterp spec fn json_string_value(json: Seq<char>) -> Option<Seq<char>>;

/// The number that a JSON text holds if it is a whole number that is not
/// negative, as `Value::as_u64` gives it.
pub uninterp spec fn json_u64_value(json: Seq<char>) -> Option<u64>;

/// The truth value that a JSON text holds, as `Value::as_bool` gives it.
pub uninterp spec fn json_bool_value(json: Seq<char>) -> Option<bool>;

/// The elements of a JSON array, each as JSON text, as `Value::as_array`
/// gives them and `Value::to_string` writes them.
pub uninterp spec fn json_elements(json: Seq<char>) -> Option<Seq<Seq<char>>>;

/// Reads the text with `serde_json::from_str` into a `Value`, looks the
/// key up with `Value::get` and writes the member with `to_string`. The
/// result is named [`json_member_text`].
#[verifier::external_body]
fn member_of(doc: &str, key: &str) -> (r: Option<String>)
    ensures
        option_view(r) == json_member_text(doc@, key@),
{
    serde_json::from_str::<serde_json::Value>(doc).ok()?.get(key).map(|v| v.to_string())
}

/// Reads the text with `serde_json::from_str` into a `Value` and takes
/// its text with `Value::as_str`. The result is named
/// [`json_string_value`].
#[verifier::external_body]
fn string_value(json: &str) -> (r: Option<String>)
    ensures
        option_view(r) == json_string_value(json@),
{
    serde_json::from_str::<serde_json::Value>(json).ok()?.as_str().map(|s| s.to_string())
}

/// Reads the text with `serde_json::from_str` into a `Value` and takes
/// its number with `Value::as_u64`. The result is named
/// [`json_u64_value`].
#[verifier::external_body]
fn u64_value(json: &str) -> (r: Option<u64>)
    ensures
        r == json_u64_value(json@),
{
    serde_json::from_str::<serde_json::Value>(json).ok()?.as_u64()
}

/// Reads the text with `serde_json::from_str` into a `Value` and takes
/// its truth value with `Value::as_bool`. The result is named
/// [`json_bool_value`].
#[verifier::external_body]
fn bool_value(json: &str) -> (r: Option<bool>)
    ensures
        r == json_bool_value(json@),
{
    serde_json::from_str::<serde_json::Value>(json).ok()?.as_bool()
}

/// Reads the text with `serde_json::from_str` into a `Value`, takes its
/// elements with `Value::as_array` and writes each with `to_string`. The
/// result is named [`json_elements`].
#[verifier::external_body]
fn elements_of(json: &str) -> (r: Option<Vec<String>>)
    ensures
        match r {
            Some(items) => json_elements(json@) == Some(views(items@)),
            None => json_elements(json@) is None,
        },
{
    let value = serde_json::from_str::<serde_json::Value>(json).ok()?;
    Some(value.as_array()?.iter().map(|v| v.to_string()).collect())
}

/// The member under a key, unless it is missing or `null`.
pub open spec fn present(doc: Seq<char>, key: Seq<char>) -> Option<Seq<char>> {
    match json_member_text(doc, key) {
        Some(json) => if json == "null"@ {
            None
        } else {
            Some(json)
        },
        None => None,
    }
}

/// A text that must be there.
pub open spec fn required_text(doc: Seq<char>, key: Seq<char>) -> Option<Seq<char>> {
    match present(doc, key) {
        Some(json) => json_string_value(json),
        None => None,
    }
}

/// A text that may be missing: the outer `None` says that the member is
/// there but is no text.
pub open spec fn optional_text(doc: Seq<char>, key: Seq<char>) -> Option<Option<Seq<char>>> {
    match present(doc, key) {
        Some(json) => match json_string_value(json) {
            Some(text) => Some(Some(text)),
            None => None,
        },
        None => Some(None),
    }
}

/// A number that must be there.
pub open spec fn required_u64(doc: Seq<char>, key: Seq<char>) -> Option<u64> {
    match present(doc, key) {
        Some(json) => json_u64_value(json),
        None => None,
    }
}

/// A number of 32 bits that must be there.
pub open spec fn required_u32(doc: Seq<char>, key: Seq<char>) -> Option<u32> {
    match required_u64(doc, key) {
        Some(n) => if n <= u32::MAX {
            Some(n as u32)
        } else {
            None
        },
        None => None,
    }
}

/// A number that may be missing: the outer `None` says that the member
/// is there but is no such number.
pub open spec fn optional_u64(doc: Seq<char>, key: Seq<char>) -> Option<Option<u64>> {
    match present(doc, key) {
        Some(json) => match json_u64_value(json) {
            Some(n) => Some(Some(n)),
            None => None,
        },
        None => Some(None),
    }
}

/// A number of 32 bits that may be missing.
pub open spec fn optional_u32(doc: Seq<char>, key: Seq<char>) -> Option<Option<u32>> {
    match optional_u64(doc, key) {
        Some(Some(n)) => if n <= u32::MAX {
            Some(Some(n as u32))
        } else {
            None
        },
        Some(None) => Some(None),
        None => None,
    }
}

/// A truth value that is `false` where it is missing.
pub open spec fn flag(doc: Seq<char>, key: Seq<char>) -> Option<bool> {
    match present(doc, key) {
        Some(json) => json_bool_value(json),
        None => Some(false),
    }
}

/// Ten to a power.
pub open spec fn ten_to(n: nat) -> nat
    decreases n,
{
    if n == 0 {
        1
    } else {
        10 * ten_to((n - 1) as nat)
    }
}

/// Position of the first exponent mark, `e` or `E`; the length of the
/// text where it has none.
pub open spec fn first_exponent_mark(s: Seq<char>) -> int
    decreases s.len(),
{
    if s.len() == 0 {
        0
    } else if s[0] == 'e' || s[0] == 'E' {
        0
    } else {
        1 + first_exponent_mark(s.drop_first())
    }
}

/// The exponent that the end of a number writes, from the exponent mark
/// on: zero where there is no mark; nothing where the mark is not
/// followed by digits, with or without a sign before them.
pub open spec fn exponent_of(tail: Seq<char>) -> Option<int> {
    if tail.len() == 0 {
        Some(0)
    } else {
        let rest = tail.skip(1);
        let signed = rest.len() > 0 && (rest[0] == '-' || rest[0] == '+');
        let digits = if signed {
            rest.skip(1)
        } else {
            rest
        };
        if digits.len() > 0 && all_digits(digits) {
            Some(
                if signed && rest[0] == '-' {
                    -(digits_value(digits) as int)
                } else {
                    digits_value(digits) as int
                },
            )
        } else {
            None
        }
    }
}

/// The whole number that digits write once the point stands behind the
/// first `k` of them: the digits behind the point are cut off, and zeros
/// stand at the places before the point for which there is no digit.
pub open spec fn shifted_value(digits: Seq<char>, k: int) -> nat {
    if k <= 0 {
        0
    } else if k <= digits.len() {
        digits_value(digits.take(k))
    } else {
        digits_value(digits) * ten_to((k - digits.len()) as nat)
    }
}

/// A number as a `u32`, the largest `u32` for any number beyond it.
pub open spec fn clamp_u32(n: nat) -> u32 {
    if n > u32::MAX {
        u32::MAX
    } else {
        n as u32
    }
}

/// A number of percent, written as JSON writes numbers (digits, at most
/// one decimal point with digits on both sides, a minus sign before and
/// an exponent behind where they are needed), in hundredths of a percent.
/// What is less than a hundredth is cut off, a number below zero counts
/// as zero and one beyond the largest `u32` as the largest `u32`. Nothing
/// for any other text.
pub open spec fn percent_basis_points(text: Seq<char>) -> Option<u32> {
    let negative = text.len() > 0 && text[0] == '-';
    let unsigned = if negative {
        text.skip(1)
    } else {
        text
    };
    let mark = first_exponent_mark(unsigned);
    let mantissa = unsigned.take(mark);
    let dot = first_char_pos(mantissa, '.');
    let whole = mantissa.take(dot);
    let frac = if dot < mantissa.len() {
        mantissa.skip(dot + 1)
    } else {
        Seq::empty()
    };
    match exponent_of(unsigned.skip(mark)) {
        Some(exponent) => if whole.len() > 0 && all_digits(whole) && all_digits(frac) && (dot < mantissa.len()
            ==> frac.len() > 0) {
            Some(
                if negative {
                    0
                } else {
                    clamp_u32(shifted_value(whole + frac, whole.len() + exponent + 2))
                },
            )
        } else {
            None
        },
        None => None,
    }
}

/// The rarity of an achievement that may be missing: the outer `None`
/// says that the member is there but is no number of percent.
pub open spec fn optional_percent(doc: Seq<char>, key: Seq<char>) -> Option<Option<u32>> {
    match present(doc, key) {
        Some(json) => match percent_basis_points(json) {
            Some(bp) => Some(Some(bp)),
            None => None,
        },
        None => Some(None),
    }
}

/// The progress of an achievement that may be missing: the outer `None`
/// says that the member is there but is no object with the two numbers.
pub open spec fn optional_progress(doc: Seq<char>) -> Option<Option<AchievementProgress>> {
    match present(doc, "progress"@) {
        Some(json) => match (required_u32(json, "current"@), required_u32(json, "target"@)) {
            (Some(current), Some(target)) => Some(Some(AchievementProgress { current, target })),
            _ => None,
        },
        None => Some(None),
    }
}

/// The achievement that a JSON object holds; nothing where a member that
/// must be there is missing or a member does not fit.
pub open spec fn achievement_of(doc: Seq<char>) -> Option<AchievementInfoView> {
    match (
        required_u32(doc, "id"@),
        required_text(doc, "title"@),
        required_text(doc, "description"@),
        required_u32(doc, "points"@),
        flag(doc, "earned"@),
        flag(doc, "earned_hardcore"@),
        optional_percent(doc, "rarity_percent"@),
        optional_u64(doc, "earned_at"@),
        optional_progress(doc),
    ) {
        (
            Some(id),
            Some(title),
            Some(description),
            Some(points),
            Some(earned),
            Some(earned_hardcore),
            Some(rarity_basis_points),
            Some(earned_at),
            Some(progress),
        ) => Some(
            AchievementInfoView {
                id,
                title,
                description,
                points,
                earned,
                earned_hardcore,
                rarity_basis_points,
                earned_at,
                progress,
            },
        ),
        _ => None,
    }
}

/// The achievements that JSON objects hold; nothing where one of them
/// holds none.
pub open spec fn achievements_of(items: Seq<Seq<char>>) -> Option<Seq<AchievementInfoView>>
    decreases items.len(),
{
    if items.len() == 0 {
        Some(Seq::empty())
    } else {
        match (achievements_of(items.drop_last()), achievement_of(items.last())) {
            (Some(list), Some(a)) => Some(list.push(a)),
            _ => None,
        }
    }
}

/// A message with its texts as sequences.
#[allow(inconsistent_fields)]
pub enum MessageView {
    UnlockAchievement { cart_id: Seq<char>, achievement_id: Seq<char>, timestamp: u64 },
    ShowToast { message: Seq<char>, icon: Option<Seq<char>>, duration_ms: u32, style: ToastStyle },
    ShowOverlay { screen: OverlayScreen },
    HideOverlay,
    GetStatus,
    SetTheme { font_color: Seq<char>, cursor_color: Seq<char> },
    RaGameStart {
        game_title: Seq<char>,
        game_id: Option<u32>,
        game_icon: Option<Seq<char>>,
        total_achievements: u32,
        earned_achievements: u32,
    },
    RaAchievementUnlocked {
        achievement_id: u32,
        title: Seq<char>,
        description: Option<Seq<char>>,
        points: u32,
        icon_url: Option<Seq<char>>,
        is_hardcore: bool,
    },
    RaProgressUpdate { earned: u32, total: u32 },
    RaAchievementList { game_title: Seq<char>, game_hash: Seq<char>, achievements: Seq<AchievementInfoView> },
    ToggleOverlay,
    GameStarted { cart_id: Seq<char>, game_name: Seq<char>, runtime: Seq<char> },
    GameStopped { cart_id: Seq<char> },
    QuitGame,
    QuitGameAck,
}

/// The view of a message.
pub open spec fn message_view(message: OverlayMessage) -> MessageView {
    match message {
        OverlayMessage::UnlockAchievement { cart_id, achievement_id, timestamp } => MessageView::UnlockAchievement {
            cart_id: cart_id@,
            achievement_id: achievement_id@,
            timestamp,
        },
        OverlayMessage::ShowToast { message, icon, duration_ms, style } => MessageView::ShowToast {
            message: message@,
            icon: option_view(icon),
            duration_ms,
            style,
        },
        OverlayMessage::ShowOverlay { screen } => MessageView::ShowOverlay { screen },
        OverlayMessage::HideOverlay => MessageView::HideOverlay,
        OverlayMessage::GetStatus => MessageView::GetStatus,
        OverlayMessage::SetTheme { font_color, cursor_color } => MessageView::SetTheme {
            font_color: font_color@,
            cursor_color: cursor_color@,
        },
        OverlayMessage::RaGameStart {
            game_title,
            game_id,
            game_icon,
            total_achievements,
            earned_achievements,
        } => MessageView::RaGameStart {
            game_title: game_title@,
            game_id,
            game_icon: option_view(game_icon),
            total_achievements,
            earned_achievements,
        },
        OverlayMessage::RaAchievementUnlocked {
            achievement_id,
            title,
            description,
            points,
            icon_url,
            is_hardcore,
        } => MessageView::RaAchievementUnlocked {
            achievement_id,
            title: title@,
            description: option_view(description),
            points,
            icon_url: option_view(icon_url),
            is_hardcore,
        },
        OverlayMessage::RaProgressUpdate { earned, total } => MessageView::RaProgressUpdate { earned, total },
        OverlayMessage::RaAchievementList { game_title, game_hash, achievements } => MessageView::RaAchievementList {
            game_title: game_title@,
            game_hash: game_hash@,
            achievements: achievement_views(achievements@),
        },
        OverlayMessage::ToggleOverlay => MessageView::ToggleOverlay,
        OverlayMessage::GameStarted { cart_id, game_name, runtime } => MessageView::GameStarted {
            cart_id: cart_id@,
            game_name: game_name@,
            runtime: runtime@,
        },
        OverlayMessage::GameStopped { cart_id } => MessageView::GameStopped { cart_id: cart_id@ },
        OverlayMessage::QuitGame => MessageView::QuitGame,
        OverlayMessage::QuitGameAck => MessageView::QuitGameAck,
    }
}

/// What became of a line, with its message as a view.
pub enum DecodedView {
    Message(MessageView),
    Unknown,
    Malformed,
}

/// The view of what became of a line.
pub open spec fn decoded_view(decoded: Decoded) -> DecodedView {
    match decoded {
        Decoded::Message(m) => DecodedView::Message(message_view(m)),
        Decoded::Unknown => DecodedView::Unknown,
        Decoded::Malformed => DecodedView::Malformed,
    }
}

/// The achievements of the member `achievements`.
pub open spec fn listed_achievements(doc: Seq<char>) -> Option<Seq<AchievementInfoView>> {
    match present(doc, "achievements"@) {
        Some(json) => match json_elements(json) {
            Some(items) => achievements_of(items),
            None => None,
        },
        None => None,
    }
}

/// The message of a known type that a JSON object holds; nothing where a
/// member that must be there is missing or a member does not fit.
pub open spec fn message_of(tag: Seq<char>, doc: Seq<char>) -> Option<MessageView> {
    if tag == "unlock_achievement"@ {
        match (required_text(doc, "cart_id"@), required_text(doc, "achievement_id"@), required_u64(doc, "timestamp"@)) {
            (Some(cart_id), Some(achievement_id), Some(timestamp)) => Some(
                MessageView::UnlockAchievement { cart_id, achievement_id, timestamp },
            ),
            _ => None,
        }
    } else if tag == "show_toast"@ {
        match (
            required_text(doc, "message"@),
            optional_text(doc, "icon"@),
            required_u32(doc, "duration_ms"@),
            required_text(doc, "style"@),
        ) {
            (Some(message), Some(icon), Some(duration_ms), Some(name)) => match ToastStyle::spec_from_wire_name(
                name,
            ) {
                Some(style) => Some(MessageView::ShowToast { message, icon, duration_ms, style }),
                None => None,
            },
            _ => None,
        }
    } else if tag == "show_overlay"@ {
        match required_text(doc, "screen"@) {
            Some(name) => match OverlayScreen::spec_from_wire_name(name) {
                Some(screen) => Some(MessageView::ShowOverlay { screen }),
                None => None,
            },
            None => None,
        }
    } else if tag == "hide_overlay"@ {
        Some(MessageView::HideOverlay)
    } else if tag == "get_status"@ {
        Some(MessageView::GetStatus)
    } else if tag == "set_theme"@ {
        match (required_text(doc, "font_color"@), required_text(doc, "cursor_color"@)) {
            (Some(font_color), Some(cursor_color)) => Some(MessageView::SetTheme { font_color, cursor_color }),
            _ => None,
        }
    } else if tag == "ra_game_start"@ {
        match (
            required_text(doc, "game_title"@),
            optional_u32(doc, "game_id"@),
            optional_text(doc, "game_icon"@),
            required_u32(doc, "total_achievements"@),
            required_u32(doc, "earned_achievements"@),
        ) {
            (
                Some(game_title),
                Some(game_id),
                Some(game_icon),
                Some(total_achievements),
                Some(earned_achievements),
            ) => Some(
                MessageView::RaGameStart { game_title, game_id, game_icon, total_achievements, earned_achievements },
            ),
            _ => None,
        }
    } else if tag == "ra_achievement_unlocked"@ {
        match (
            required_u32(doc, "achievement_id"@),
            required_text(doc, "title"@),
            optional_text(doc, "description"@),
            required_u32(doc, "points"@),
            optional_text(doc, "icon_url"@),
            flag(doc, "is_hardcore"@),
        ) {
            (Some(achievement_id), Some(title), Some(description), Some(points), Some(icon_url), Some(is_hardcore)) => Some(
                MessageView::RaAchievementUnlocked { achievement_id, title, description, points, icon_url, is_hardcore },
            ),
            _ => None,
        }
    } else if tag == "ra_progress_update"@ {
        match (required_u32(doc, "earned"@), required_u32(doc, "total"@)) {
            (Some(earned), Some(total)) => Some(MessageView::RaProgressUpdate { earned, total }),
            _ => None,
        }
    } else if tag == "ra_achievement_list"@ {
        match (required_text(doc, "game_title"@), required_text(doc, "game_hash"@), listed_achievements(doc)) {
            (Some(game_title), Some(game_hash), Some(achievements)) => Some(
                MessageView::RaAchievementList { game_title, game_hash, achievements },
            ),
            _ => None,
        }
    } else if tag == "toggle_overlay"@ {
        Some(MessageView::ToggleOverlay)
    } else if tag == "game_started"@ {
        match (required_text(doc, "cart_id"@), required_text(doc, "game_name"@), required_text(doc, "runtime"@)) {
            (Some(cart_id), Some(game_name), Some(runtime)) => Some(
                MessageView::GameStarted { cart_id, game_name, runtime },
            ),
            _ => None,
        }
    } else if tag == "game_stopped"@ {
        match required_text(doc, "cart_id"@) {
            Some(cart_id) => Some(MessageView::GameStopped { cart_id }),
            None => None,
        }
    } else if tag == "quit_game"@ {
        Some(MessageView::QuitGame)
    } else if tag == "quit_game_ack"@ {
        Some(MessageView::QuitGameAck)
    } else {
        None
    }
}

/// What becomes of a line of a connection: a line that is a JSON object
/// with a known `type` and fitting members is that message; a line that
/// is a JSON object with a `type` that is not known is dropped; any other
/// line is malformed.
pub open spec fn decoded_line(line: Seq<char>) -> DecodedView {
    match required_text(line, "type"@) {
        Some(tag) => if known_type_tags().contains(tag) {
            match message_of(tag, line) {
                Some(m) => DecodedView::Message(m),
                None => DecodedView::Malformed,
            }
        } else {
            DecodedView::Unknown
        },
        None => DecodedView::Malformed,
    }
}

/// The member under a key, unless it is missing or `null`.
fn member(doc: &str, key: &str) -> (r: Option<String>)
    ensures
        option_view(r) == present(doc@, key@),
{
    match member_of(doc, key) {
        Some(json) => {
            if same_text(json.as_str(), "null") {
                None
            } else {
                Some(json)
            }
        },
        None => None,
    }
}

/// A text that must be there.
fn need_text(doc: &str, key: &str) -> (r: Option<String>)
    ensures
        option_view(r) == required_text(doc@, key@),
{
    match member(doc, key) {
        Some(json) => string_value(json.as_str()),
        None => None,
    }
}

/// The views of a text that may be missing.
pub open spec fn optional_view(o: Option<Option<String>>) -> Option<Option<Seq<char>>> {
    match o {
        Some(inner) => Some(option_view(inner)),
        None => None,
    }
}

/// A text that may be missing.
fn maybe_text(doc: &str, key: &str) -> (r: Option<Option<String>>)
    ensures
        optional_view(r) == optional_text(doc@, key@),
{
    match member(doc, key) {
        Some(json) => match string_value(json.as_str()) {
            Some(text) => Some(Some(text)),
            None => None,
        },
        None => Some(None),
    }
}

/// A number that must be there.
fn need_u64(doc: &str, key: &str) -> (r: Option<u64>)
    ensures
        r == required_u64(doc@, key@),
{
    match member(doc, key) {
        Some(json) => u64_value(json.as_str()),
        None => None,
    }
}

/// A number of 32 bits that must be there.
fn need_u32(doc: &str, key: &str) -> (r: Option<u32>)
    ensures
        r == required_u32(doc@, key@),
{
    match need_u64(doc, key) {
        Some(n) => {
            if n <= 0xffff_ffff {
                Some(n as u32)
            } else {
                None
            }
        },
        None => None,
    }
}

/// A number that may be missing.
fn maybe_u64(doc: &str, key: &str) -> (r: Option<Option<u64>>)
    ensures
        r == optional_u64(doc@, key@),
{
    match member(doc, key) {
        Some(json) => match u64_value(json.as_str()) {
            Some(n) => Some(Some(n)),
            None => None,
        },
        None => Some(None),
    }
}

/// A number of 32 bits that may be missing.
fn maybe_u32(doc: &str, key: &str) -> (r: Option<Option<u32>>)
    ensures
        r == optional_u32(doc@, key@),
{
    match maybe_u64(doc, key) {
        Some(Some(n)) => {
            if n <= 0xffff_ffff {
                Some(Some(n as u32))
            } else {
                None
            }
        },
        Some(None) => Some(None),
        None => None,
    }
}

/// A truth value that is `false` where it is missing.
fn read_flag(doc: &str, key: &str) -> (r: Option<bool>)
    ensures
        r == flag(doc@, key@),
{
    match member(doc, key) {
        Some(json) => bool_value(json.as_str()),
        None => Some(false),
    }
}

/// Whether the characters of a text from `from` up to `to` are digits.
fn digits_between(text: &str, from: usize, to: usize) -> (r: bool)
    requires
        from <= to <= text@.len(),
    ensures
        r == all_digits(text@.subrange(from as int, to as int)),
{
    let mut i: usize = from;
    while i < to
        invariant
            from <= i <= to,
            to <= text@.len(),
            forall|k: int| from <= k < i ==> is_digit(#[trigger] text@[k]),
        decreases to - i,
    {
        let c = text.get_char(i);
        if !('0' <= c && c <= '9') {
            assert(!is_digit(text@.subrange(from as int, to as int)[i - from]));
            return false;
        }
        i = i + 1;
    }
    assert forall|k: int| 0 <= k < to - from implies is_digit(
        #[trigger] text@.subrange(from as int, to as int)[k],
    ) by {
        assert(text@.subrange(from as int, to as int)[k] == text@[from + k]);
    }
    true
}

/// The value of a digit.
fn digit_of(c: char) -> (r: u32)
    requires
        is_digit(c),
    ensures
        r == c as nat - '0' as nat,
{
    (c as u32) - 48
}

/// The powers of ten are at least one and grow with the exponent.
proof fn lemma_ten_to_grows(a: nat, b: nat)
    requires
        a <= b,
    ensures
        1 <= ten_to(a) <= ten_to(b),
    decreases b,
{
    if a < b {
        lemma_ten_to_grows(a, (b - 1) as nat);
    } else if a > 0 {
        lemma_ten_to_grows((a - 1) as nat, (b - 1) as nat);
    }
}

/// The tenth power of ten.
proof fn lemma_ten_to_ten()
    ensures
        ten_to(10) == 10_000_000_000,
{
    assert(ten_to(1) == 10 * ten_to(0));
    assert(ten_to(2) == 10 * ten_to(1));
    assert(ten_to(3) == 10 * ten_to(2));
    assert(ten_to(4) == 10 * ten_to(3));
    assert(ten_to(5) == 10 * ten_to(4));
    assert(ten_to(6) == 10 * ten_to(5));
    assert(ten_to(7) == 10 * ten_to(6));
    assert(ten_to(8) == 10 * ten_to(7));
    assert(ten_to(9) == 10 * ten_to(8));
    assert(ten_to(10) == 10 * ten_to(9));
}

/// With the point ten places or more behind the last digit, digits that
/// write anything but zero write more than a `u32` holds.
proof fn lemma_far_shift(digits: Seq<char>, k: int)
    requires
        k >= digits.len() + 10,
    ensures
        clamp_u32(shifted_value(digits, k)) == if digits_value(digits) == 0 {
            0
        } else {
            u32::MAX
        },
{
    let v = digits_value(digits);
    let t = ten_to((k - digits.len()) as nat);
    lemma_ten_to_ten();
    lemma_ten_to_grows(10, (k - digits.len()) as nat);
    if v == 0 {
        assert(v * t == 0) by (nonlinear_arith)
            requires
                v == 0,
        ;
    } else {
        assert(v * t >= t) by (nonlinear_arith)
            requires
                v >= 1,
                t >= 0,
        ;
    }
}

/// The largest exponent that is read as it stands; one beyond it moves
/// the point as far as this one does.
const EXPONENT_LIMIT: u128 = 0x10_0000_0000_0000_0000_0000_0000;

/// Position of the first occurrence of a character between `from` and
/// `to`; `to` where it does not occur.
fn find_char(text: &str, from: usize, to: usize, c: char) -> (r: usize)
    requires
        from <= to <= text@.len(),
    ensures
        from <= r <= to,
        r - from == first_char_pos(text@.subrange(from as int, to as int), c),
{
    let ghost s = text@.subrange(from as int, to as int);
    let mut i: usize = from;
    assert(s.skip(0) == s);
    while i < to && text.get_char(i) != c
        invariant
            from <= i <= to <= text@.len(),
            s == text@.subrange(from as int, to as int),
            first_char_pos(s, c) == (i - from) + first_char_pos(s.skip(i - from), c),
        decreases to - i,
    {
        proof {
            assert(s.skip(i - from)[0] == text@[i as int]);
            assert(s.skip(i - from).drop_first() == s.skip(i - from + 1));
        }
        i = i + 1;
    }
    proof {
        if i < to {
            assert(s.skip(i - from)[0] == text@[i as int]);
        }
    }
    i
}

/// Position of the first exponent mark from `from` on; the length of the
/// text where there is none.
fn find_mark(text: &str, from: usize, len: usize) -> (r: usize)
    requires
        from <= len == text@.len(),
    ensures
        from <= r <= len,
        r - from == first_exponent_mark(text@.subrange(from as int, len as int)),
{
    let ghost s = text@.subrange(from as int, len as int);
    let mut i: usize = from;
    assert(s.skip(0) == s);
    while i < len && text.get_char(i) != 'e' && text.get_char(i) != 'E'
        invariant
            from <= i <= len == text@.len(),
            s == text@.subrange(from as int, len as int),
            first_exponent_mark(s) == (i - from) + first_exponent_mark(s.skip(i - from)),
        decreases len - i,
    {
        proof {
            assert(s.skip(i - from)[0] == text@[i as int]);
            assert(s.skip(i - from).drop_first() == s.skip(i - from + 1));
        }
        i = i + 1;
    }
    proof {
        if i < len {
            assert(s.skip(i - from)[0] == text@[i as int]);
        }
    }
    i
}

/// The smaller of a number and a limit.
pub open spec fn at_most(n: nat, limit: nat) -> nat {
    if n > limit {
        limit
    } else {
        n
    }
}

/// The number that the digits between `from` and `to` write, or the
/// exponent limit where they write more.
fn limited_digits(text: &str, from: usize, to: usize) -> (r: u128)
    requires
        from <= to <= text@.len(),
        all_digits(text@.subrange(from as int, to as int)),
    ensures
        r == at_most(digits_value(text@.subrange(from as int, to as int)), EXPONENT_LIMIT as nat),
{
    let ghost s = text@.subrange(from as int, to as int);
    let mut value: u128 = 0;
    let mut i: usize = from;
    assert(s.take(0).len() == 0);
    while i < to
        invariant
            from <= i <= to <= text@.len(),
            s == text@.subrange(from as int, to as int),
            all_digits(s),
            value == at_most(digits_value(s.take(i - from)), EXPONENT_LIMIT as nat),
        decreases to - i,
    {
        let c = text.get_char(i);
        proof {
            let next = s.take(i - from + 1);
            assert(next.drop_last() == s.take(i - from));
            assert(next.last() == c);
            assert(s[i - from] == c);
        }
        let more: u128 = value * 10 + digit_of(c) as u128;
        value = if more > EXPONENT_LIMIT {
            EXPONENT_LIMIT
        } else {
            more
        };
        i = i + 1;
    }
    proof {
        assert(s.take(to - from) == s);
    }
    value
}

/// The exponent that the text writes from the exponent mark at `mark`
/// on: whether it is written with a minus sign, and how much it is, or
/// the exponent limit where it is more.
fn read_exponent(text: &str, mark: usize, len: usize) -> (r: Option<(bool, u128)>)
    requires
        mark <= len == text@.len(),
    ensures
        match exponent_of(text@.subrange(mark as int, len as int)) {
            Some(e) => r matches Some((minus, size)) && (minus ==> e <= 0 && size == at_most(
                (-e) as nat,
                EXPONENT_LIMIT as nat,
            )) && (!minus ==> e >= 0 && size == at_most(e as nat, EXPONENT_LIMIT as nat)),
            None => r is None,
        },
{
    if mark == len {
        return Some((false, 0));
    }
    let ghost tail = text@.subrange(mark as int, len as int);
    let ghost rest = tail.skip(1);
    let after: usize = mark + 1;
    let signed = after < len && (text.get_char(after) == '-' || text.get_char(after) == '+');
    let minus = signed && text.get_char(after) == '-';
    let from: usize = if signed {
        after + 1
    } else {
        after
    };
    proof {
        assert(rest =~= text@.subrange(after as int, len as int));
        if after < len {
            assert(rest[0] == text@[after as int]);
        }
        if signed {
            assert(rest.skip(1) =~= text@.subrange(from as int, len as int));
        }
    }
    if from == len {
        return None;
    }
    if !digits_between(text, from, len) {
        return None;
    }
    Some((minus, limited_digits(text, from, len)))
}

/// The number that the digits of a mantissa write with the point behind
/// the first `k` of them, as a `u32`. The digits before the point of the
/// mantissa stand between `start` and `dot`, those behind it between
/// `frac_from` and `mark`.
fn shifted_digits(text: &str, start: usize, dot: usize, frac_from: usize, mark: usize, k: i128) -> (r: u32)
    requires
        start <= dot <= frac_from <= mark <= text@.len(),
        all_digits(text@.subrange(start as int, dot as int)),
        all_digits(text@.subrange(frac_from as int, mark as int)),
    ensures
        r == clamp_u32(
            shifted_value(
                text@.subrange(start as int, dot as int) + text@.subrange(frac_from as int, mark as int),
                k as int,
            ),
        ),
{
    let ghost whole = text@.subrange(start as int, dot as int);
    let ghost frac = text@.subrange(frac_from as int, mark as int);
    let ghost d = whole + frac;
    let before: usize = dot - start;
    let n: usize = before + (mark - frac_from);
    if k <= 0 {
        return 0;
    }
    let m: usize = if k <= n as i128 {
        k as usize
    } else {
        n
    };
    let mut value: u64 = 0;
    let mut i: usize = 0;
    assert(d.take(0).len() == 0);
    while i < m
        invariant
            i <= m <= n,
            n == d.len(),
            before == whole.len(),
            start <= dot <= frac_from <= mark <= text@.len(),
            before == dot - start,
            whole == text@.subrange(start as int, dot as int),
            frac == text@.subrange(frac_from as int, mark as int),
            d == whole + frac,
            all_digits(whole),
            all_digits(frac),
            value == at_most(digits_value(d.take(i as int)), u32::MAX as nat),
        decreases m - i,
    {
        let c = if i < before {
            text.get_char(start + i)
        } else {
            text.get_char(frac_from + (i - before))
        };
        proof {
            let next = d.take(i as int + 1);
            assert(next.drop_last() == d.take(i as int));
            assert(next.last() == d[i as int]);
            if i < before {
                assert(d[i as int] == whole[i as int]);
                assert(is_digit(whole[i as int]));
            } else {
                assert(d[i as int] == frac[i - before]);
                assert(is_digit(frac[i - before]));
            }
        }
        let more: u64 = value * 10 + digit_of(c) as u64;
        value = if more > 0xFFFF_FFFF {
            0xFFFF_FFFF
        } else {
            more
        };
        i = i + 1;
    }
    if k > n as i128 {
        let ghost v = digits_value(d);
        let pad: i128 = k - n as i128;
        let mut j: i128 = 0;
        proof {
            assert(d.take(n as int) == d);
            assert(v * ten_to(0) == v) by (nonlinear_arith)
                requires
                    ten_to(0) == 1,
            ;
        }
        while j < pad && value != 0 && value < 0xFFFF_FFFF
            invariant
                0 <= j <= pad,
                value == at_most(v * ten_to(j as nat), u32::MAX as nat),
            decreases pad - j,
        {
            proof {
                let t = ten_to(j as nat);
                assert(ten_to((j + 1) as nat) == 10 * t);
                assert(v * (10 * t) == 10 * (v * t)) by (nonlinear_arith);
            }
            let more: u64 = value * 10;
            value = if more > 0xFFFF_FFFF {
                0xFFFF_FFFF
            } else {
                more
            };
            j = j + 1;
        }
        proof {
            let t = ten_to(j as nat);
            let full = ten_to(pad as nat);
            lemma_ten_to_grows(j as nat, pad as nat);
            if j < pad {
                if value == 0 {
                    assert(v == 0) by (nonlinear_arith)
                        requires
                            v * t == 0,
                            t >= 1,
                    ;
                    assert(v * full == 0) by (nonlinear_arith)
                        requires
                            v == 0,
                    ;
                } else {
                    assert(v * full >= v * t) by (nonlinear_arith)
                        requires
                            full >= t,
                            v >= 0,
                    ;
                }
            }
        }
    } else {
        proof {
            assert(m == k);
        }
    }
    value as u32
}

/// A number of percent in hundredths of a percent.
pub fn parse_percent(text: &str) -> (r: Option<u32>)
    ensures
        r == percent_basis_points(text@),
{
    let len: usize = text.unicode_len();
    let negative = len > 0 && text.get_char(0) == '-';
    let start: usize = if negative {
        1
    } else {
        0
    };
    let mark = find_mark(text, start, len);
    let dot = find_char(text, start, mark, '.');
    let frac_from: usize = if dot < mark {
        dot + 1
    } else {
        mark
    };
    let ghost unsigned = if negative {
        text@.skip(1)
    } else {
        text@
    };
    let ghost mantissa = unsigned.take(mark - start);
    let ghost whole = mantissa.take(dot - start);
    let ghost frac = if dot - start < mantissa.len() {
        mantissa.skip(dot - start + 1)
    } else {
        Seq::<char>::empty()
    };
    proof {
        assert(unsigned =~= text@.subrange(start as int, len as int));
        assert(mantissa =~= text@.subrange(start as int, mark as int));
        assert(whole =~= text@.subrange(start as int, dot as int));
        assert(frac =~= text@.subrange(frac_from as int, mark as int));
        assert(unsigned.skip(mark - start) =~= text@.subrange(mark as int, len as int));
    }
    let exponent = match read_exponent(text, mark, len) {
        Some(e) => e,
        None => {
            return None;
        },
    };
    if dot == start {
        return None;
    }
    if !digits_between(text, start, dot) {
        return None;
    }
    if dot < mark && frac_from == mark {
        return None;
    }
    if !digits_between(text, frac_from, mark) {
        return None;
    }
    if negative {
        return Some(0);
    }
    let before: i128 = (dot - start) as i128;
    let k: i128 = if exponent.0 {
        before + 2 - exponent.1 as i128
    } else {
        before + 2 + exponent.1 as i128
    };
    proof {
        let e = exponent_of(unsigned.skip(mark - start))->0;
        let exact = whole.len() + e + 2;
        let d = whole + frac;
        if exponent.1 == EXPONENT_LIMIT {
            if exponent.0 {
                assert(k <= 0 && exact <= 0);
            } else {
                lemma_far_shift(d, k as int);
                lemma_far_shift(d, exact);
            }
        } else {
            assert(k == exact);
        }
    }
    Some(shifted_digits(text, start, dot, frac_from, mark, k))
}

/// The rarity of an achievement that may be missing.
fn maybe_percent(doc: &str, key: &str) -> (r: Option<Option<u32>>)
    ensures
        r == optional_percent(doc@, key@),
{
    match member(doc, key) {
        Some(json) => match parse_percent(json.as_str()) {
            Some(bp) => Some(Some(bp)),
            None => None,
        },
        None => Some(None),
    }
}

/// The progress of an achievement that may be missing.
fn maybe_progress(doc: &str) -> (r: Option<Option<AchievementProgress>>)
    ensures
        r == optional_progress(doc@),
{
    match member(doc, "progress") {
        Some(json) => match (need_u32(json.as_str(), "current"), need_u32(json.as_str(), "target")) {
            (Some(current), Some(target)) => Some(Some(AchievementProgress { current, target })),
            _ => None,
        },
        None => Some(None),
    }
}

/// The view of an achievement that may be missing.
pub open spec fn info_view(o: Option<AchievementInfo>) -> Option<AchievementInfoView> {
    match o {
        Some(a) => Some(a@),
        None => None,
    }
}

/// Reads one achievement from its JSON object.
pub fn decode_achievement(doc: &str) -> (r: Option<AchievementInfo>)
    ensures
        info_view(r) == achievement_of(doc@),
{
    match (
        need_u32(doc, "id"),
        need_text(doc, "title"),
        need_text(doc, "description"),
        need_u32(doc, "points"),
        read_flag(doc, "earned"),
        read_flag(doc, "earned_hardcore"),
        maybe_percent(doc, "rarity_percent"),
        maybe_u64(doc, "earned_at"),
        maybe_progress(doc),
    ) {
        (
            Some(id),
            Some(title),
            Some(description),
            Some(points),
            Some(earned),
            Some(earned_hardcore),
            Some(rarity_basis_points),
            Some(earned_at),
            Some(progress),
        ) => Some(
            AchievementInfo {
                id,
                title,
                description,
                points,
                earned,
                earned_hardcore,
                rarity_basis_points,
                earned_at,
                progress,
            },
        ),
        _ => None,
    }
}

/// The views of a list of achievements that may be missing.
pub open spec fn list_view(o: Option<Vec<AchievementInfo>>) -> Option<Seq<AchievementInfoView>> {
    match o {
        Some(list) => Some(achievement_views(list@)),
        None => None,
    }
}

/// Reads the achievements of the member `achievements`.
fn decode_achievements(doc: &str) -> (r: Option<Vec<AchievementInfo>>)
    ensures
        list_view(r) == listed_achievements(doc@),
{
    let json = match member(doc, "achievements") {
        Some(json) => json,
        None => {
            return None;
        },
    };
    let items = match elements_of(json.as_str()) {
        Some(items) => items,
        None => {
            return None;
        },
    };
    let ghost all = views(items@);
    let mut list: Vec<AchievementInfo> = Vec::new();
    let mut i: usize = 0;
    assert(achievement_views(list@) =~= Seq::<AchievementInfoView>::empty());
    while i < items.len()
        invariant
            i <= items.len(),
            all == views(items@),
            listed_achievements(doc@) == achievements_of(all),
            achievements_of(all.take(i as int)) == Some(achievement_views(list@)),
        decreases items.len() - i,
    {
        proof {
            let next = all.take(i as int + 1);
            assert(next.drop_last() == all.take(i as int));
            assert(next.last() == items@[i as int]@);
        }
        match decode_achievement(items[i].as_str()) {
            Some(a) => {
                let ghost before = achievement_views(list@);
                list.push(a);
                assert(achievement_views(list@) =~= before.push(a@));
            },
            None => {
                proof {
                    lemma_achievements_fail(all, i as int + 1);
                }
                return None;
            },
        }
        i = i + 1;
    }
    proof {
        assert(all.take(items.len() as int) == all);
    }
    Some(list)
}

/// Where the first objects hold no list of achievements, all of them hold
/// none.
proof fn lemma_achievements_fail(items: Seq<Seq<char>>, n: int)
    requires
        0 <= n <= items.len(),
        achievements_of(items.take(n)) is None,
    ensures
        achievements_of(items) is None,
    decreases items.len() - n,
{
    if n < items.len() {
        let next = items.take(n + 1);
        assert(next.drop_last() == items.take(n));
        lemma_achievements_fail(items, n + 1);
    } else {
        assert(items.take(n) == items);
    }
}

/// The view of a message that may be missing.
pub open spec fn maybe_message_view(o: Option<OverlayMessage>) -> Option<MessageView> {
    match o {
        Some(m) => Some(message_view(m)),
        None => None,
    }
}

/// Reads the message of a known type from its JSON object.
pub fn decode_message(tag: &str, doc: &str) -> (r: Option<OverlayMessage>)
    ensures
        maybe_message_view(r) == message_of(tag@, doc@),
{
    if same_text(tag, "unlock_achievement") {
        match (need_text(doc, "cart_id"), need_text(doc, "achievement_id"), need_u64(doc, "timestamp")) {
            (Some(cart_id), Some(achievement_id), Some(timestamp)) => Some(
                OverlayMessage::UnlockAchievement { cart_id, achievement_id, timestamp },
            ),
            _ => None,
        }
    } else if same_text(tag, "show_toast") {
        match (
            need_text(doc, "message"),
            maybe_text(doc, "icon"),
            need_u32(doc, "duration_ms"),
            need_text(doc, "style"),
        ) {
            (Some(message), Some(icon), Some(duration_ms), Some(name)) => match ToastStyle::from_wire_name(
                name.as_str(),
            ) {
                Some(style) => Some(OverlayMessage::ShowToast { message, icon, duration_ms, style }),
                None => None,
            },
            _ => None,
        }
    } else if same_text(tag, "show_overlay") {
        match need_text(doc, "screen") {
            Some(name) => match OverlayScreen::from_wire_name(name.as_str()) {
                Some(screen) => Some(OverlayMessage::ShowOverlay { screen }),
                None => None,
            },
            None => None,
        }
    } else if same_text(tag, "hide_overlay") {
        Some(OverlayMessage::HideOverlay)
    } else if same_text(tag, "get_status") {
        Some(OverlayMessage::GetStatus)
    } else if same_text(tag, "set_theme") {
        match (need_text(doc, "font_color"), need_text(doc, "cursor_color")) {
            (Some(font_color), Some(cursor_color)) => Some(OverlayMessage::SetTheme { font_color, cursor_color }),
            _ => None,
        }
    } else if same_text(tag, "ra_game_start") {
        match (
            need_text(doc, "game_title"),
            maybe_u32(doc, "game_id"),
            maybe_text(doc, "game_icon"),
            need_u32(doc, "total_achievements"),
            need_u32(doc, "earned_achievements"),
        ) {
            (
                Some(game_title),
                Some(game_id),
                Some(game_icon),
                Some(total_achievements),
                Some(earned_achievements),
            ) => Some(
                OverlayMessage::RaGameStart {
                    game_title,
                    game_id,
                    game_icon,
                    total_achievements,
                    earned_achievements,
                },
            ),
            _ => None,
        }
    } else if same_text(tag, "ra_achievement_unlocked") {
        match (
            need_u32(doc, "achievement_id"),
            need_text(doc, "title"),
            maybe_text(doc, "description"),
            need_u32(doc, "points"),
            maybe_text(doc, "icon_url"),
            read_flag(doc, "is_hardcore"),
        ) {
            (Some(achievement_id), Some(title), Some(description), Some(points), Some(icon_url), Some(is_hardcore)) => Some(
                OverlayMessage::RaAchievementUnlocked {
                    achievement_id,
                    title,
                    description,
                    points,
                    icon_url,
                    is_hardcore,
                },
            ),
            _ => None,
        }
    } else if same_text(tag, "ra_progress_update") {
        match (need_u32(doc, "earned"), need_u32(doc, "total")) {
            (Some(earned), Some(total)) => Some(OverlayMessage::RaProgressUpdate { earned, total }),
            _ => None,
        }
    } else if same_text(tag, "ra_achievement_list") {
        match (need_text(doc, "game_title"), need_text(doc, "game_hash"), decode_achievements(doc)) {
            (Some(game_title), Some(game_hash), Some(achievements)) => Some(
                OverlayMessage::RaAchievementList { game_title, game_hash, achievements },
            ),
            _ => None,
        }
    } else if same_text(tag, "toggle_overlay") {
        Some(OverlayMessage::ToggleOverlay)
    } else if same_text(tag, "game_started") {
        match (need_text(doc, "cart_id"), need_text(doc, "game_name"), need_text(doc, "runtime")) {
            (Some(cart_id), Some(game_name), Some(runtime)) => Some(
                OverlayMessage::GameStarted { cart_id, game_name, runtime },
            ),
            _ => None,
        }
    } else if same_text(tag, "game_stopped") {
        match need_text(doc, "cart_id") {
            Some(cart_id) => Some(OverlayMessage::GameStopped { cart_id }),
            None => None,
        }
    } else if same_text(tag, "quit_game") {
        Some(OverlayMessage::QuitGame)
    } else if same_text(tag, "quit_game_ack") {
        Some(OverlayMessage::QuitGameAck)
    } else {
        None
    }
}

/// Reads one line of a connection.
pub fn decode_line(line: &str) -> (r: Decoded)
    ensures
        decoded_view(r) == decoded_line(line@),
{
    match need_text(line, "type") {
        Some(tag) => {
            if is_known_type(tag.as_str()) {
                match decode_message(tag.as_str(), line) {
                    Some(message) => Decoded::Message(message),
                    None => Decoded::Malformed,
                }
            } else {
                Decoded::Unknown
            }
        },
        None => Decoded::Malformed,
    }
}

/// Reads the lines that came over one connection: the messages that the
/// connection delivers, in the order in which they were sent, up to the
/// first malformed line; and whether the connection was closed at one.
pub fn decode_connection(data: &str) -> (r: (Vec<OverlayMessage>, bool))
    ensures
        exists|lines: Seq<Decoded>|
            #![auto]
            lines.len() == text_lines(data@).len() && (forall|i: int|
                0 <= i < lines.len() ==> decoded_view(#[trigger] lines[i]) == decoded_line(
                    text_lines(data@)[i],
                )) && r.0@ == accepted(lines) && r.1 == (first_malformed(lines)
                < lines.len()),
{
    let lines = message_lines(data);
    let mut decoded: Vec<Decoded> = Vec::new();
    let mut i: usize = 0;
    while i < lines.len()
        invariant
            i <= lines.len(),
            views(lines@) == text_lines(data@),
            decoded@.len() == i,
            forall|k: int| 0 <= k < i ==> decoded_view(#[trigger] decoded@[k]) == decoded_line(lines@[k]@),
        decreases lines.len() - i,
    {
        decoded.push(decode_line(lines[i].as_str()));
        i = i + 1;
    }
    let ghost all = decoded@;
    proof {
        assert forall|k: int| 0 <= k < all.len() implies decoded_view(#[trigger] all[k]) == decoded_line(
            text_lines(data@)[k],
        ) by {
            assert(views(lines@)[k] == lines@[k]@);
        }
    }
    accepted_messages(decoded)
}

} // verus!
