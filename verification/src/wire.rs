//! The text of a message on the overlay socket: one JSON object with the
//! message's type under `type` and its fields under their names, optional
//! fields only where they are present.

use vstd::prelude::*;
use crate::daemon::TOGGLE_MESSAGE;
use crate::ipc::{AchievementInfo, AchievementInfoView, AchievementProgress, OverlayMessage};
use crate::text::{concat2, decimal, digit_char, join, joined, number_text, owned, views};

verus! {

/// A text as a JSON string, quotes and escapes included, as `serde_json`
/// writes a string value.
pub uninterp spec fn json_quoted(s: Seq<char>) -> Seq<char>;

/// Writes the text as a JSON string by displaying it as a
/// `serde_json::Value::String`. The result is named [`json_quoted`].
#[verifier::external_body]
fn json_quote(s: &str) -> (r: String)
    ensures
        r@ == json_quoted(s@),
{
    serde_json::Value::String(s.to_owned()).to_string()
}

/// The beginning of the object of a message of this type.
pub open spec fn opened(tag: Seq<char>) -> Seq<char> {
    "{\"type\":\""@ + tag + "\""@
}

/// An object under construction with one member more.
pub open spec fn with_member(text: Seq<char>, key: Seq<char>, value: Seq<char>) -> Seq<char> {
    text + ",\""@ + key + "\":"@ + value
}

/// An object under construction with one member more if there is a value.
pub open spec fn with_optional(text: Seq<char>, key: Seq<char>, value: Option<Seq<char>>) -> Seq<char> {
    match value {
        Some(v) => with_member(text, key, v),
        None => text,
    }
}

/// The finished object.
pub open spec fn closed(text: Seq<char>) -> Seq<char> {
    text + "}"@
}

/// `true` or `false`.
pub open spec fn json_bool(b: bool) -> Seq<char> {
    if b {
        "true"@
    } else {
        "false"@
    }
}

/// A share in hundredths of a percent as a number of percent with two
/// decimals.
pub open spec fn json_percent(basis_points: u32) -> Seq<char> {
    decimal((basis_points / 100) as nat) + "."@ + seq![
        digit_char(((basis_points % 100) / 10) as nat),
        digit_char((basis_points % 10) as nat),
    ]
}

/// The object of the progress of an achievement.
pub open spec fn progress_json(p: AchievementProgress) -> Seq<char> {
    "{\"current\":"@ + decimal(p.current as nat) + ",\"target\":"@ + decimal(p.target as nat) + "}"@
}

/// The object of one achievement.
pub open spec fn achievement_json(a: AchievementInfoView) -> Seq<char> {
    let t0 = "{\"id\":"@ + decimal(a.id as nat);
    let t1 = with_member(t0, "title"@, json_quoted(a.title));
    let t2 = with_member(t1, "description"@, json_quoted(a.description));
    let t3 = with_member(t2, "points"@, decimal(a.points as nat));
    let t4 = with_member(t3, "earned"@, json_bool(a.earned));
    let t5 = with_member(t4, "earned_hardcore"@, json_bool(a.earned_hardcore));
    let t6 = with_optional(
        t5,
        "rarity_percent"@,
        match a.rarity_basis_points {
            Some(bp) => Some(json_percent(bp)),
            None => None,
        },
    );
    let t7 = with_optional(
        t6,
        "earned_at"@,
        match a.earned_at {
            Some(t) => Some(decimal(t as nat)),
            None => None,
        },
    );
    let t8 = with_optional(
        t7,
        "progress"@,
        match a.progress {
            Some(p) => Some(progress_json(p)),
            None => None,
        },
    );
    closed(t8)
}

/// The array of the achievements of a list.
pub open spec fn achievements_json(list: Seq<AchievementInfoView>) -> Seq<char> {
    "["@ + joined(Seq::new(list.len(), |i: int| achievement_json(list[i])), ","@) + "]"@
}

/// A text as a JSON string, where there is a text.
pub open spec fn quoted_option(o: Option<String>) -> Option<Seq<char>> {
    match o {
        Some(s) => Some(json_quoted(s@)),
        None => None,
    }
}

/// The JSON text of a message.
pub open spec fn message_json(message: OverlayMessage) -> Seq<char> {
    let start = opened(message.spec_type_tag());
    match message {
        OverlayMessage::UnlockAchievement { cart_id, achievement_id, timestamp } => closed(
            with_member(
                with_member(
                    with_member(start, "cart_id"@, json_quoted(cart_id@)),
                    "achievement_id"@,
                    json_quoted(achievement_id@),
                ),
                "timestamp"@,
                decimal(timestamp as nat),
            ),
        ),
        OverlayMessage::ShowToast { message, icon, duration_ms, style } => closed(
            with_member(
                with_member(
                    with_optional(
                        with_member(start, "message"@, json_quoted(message@)),
                        "icon"@,
                        quoted_option(icon),
                    ),
                    "duration_ms"@,
                    decimal(duration_ms as nat),
                ),
                "style"@,
                json_quoted(style.spec_wire_name()),
            ),
        ),
        OverlayMessage::ShowOverlay { screen } => closed(
            with_member(start, "screen"@, json_quoted(screen.spec_wire_name())),
        ),
        OverlayMessage::SetTheme { font_color, cursor_color } => closed(
            with_member(
                with_member(start, "font_color"@, json_quoted(font_color@)),
                "cursor_color"@,
                json_quoted(cursor_color@),
            ),
        ),
        OverlayMessage::RaGameStart {
            game_title,
            game_id,
            game_icon,
            total_achievements,
            earned_achievements,
        } => closed(
            with_member(
                with_member(
                    with_optional(
                        with_optional(
                            with_member(start, "game_title"@, json_quoted(game_title@)),
                            "game_id"@,
                            match game_id {
                                Some(id) => Some(decimal(id as nat)),
                                None => None,
                            },
                        ),
                        "game_icon"@,
                        quoted_option(game_icon),
                    ),
                    "total_achievements"@,
                    decimal(total_achievements as nat),
                ),
                "earned_achievements"@,
                decimal(earned_achievements as nat),
            ),
        ),
        OverlayMessage::RaAchievementUnlocked {
            achievement_id,
            title,
            description,
            points,
            icon_url,
            is_hardcore,
        } => closed(
            with_member(
                with_optional(
                    with_member(
                        with_optional(
                            with_member(
                                with_member(start, "achievement_id"@, decimal(achievement_id as nat)),
                                "title"@,
                                json_quoted(title@),
                            ),
                            "description"@,
                            quoted_option(description),
                        ),
                        "points"@,
                        decimal(points as nat),
                    ),
                    "icon_url"@,
                    quoted_option(icon_url),
                ),
                "is_hardcore"@,
                json_bool(is_hardcore),
            ),
        ),
        OverlayMessage::RaProgressUpdate { earned, total } => closed(
            with_member(with_member(start, "earned"@, decimal(earned as nat)), "total"@, decimal(total as nat)),
        ),
        OverlayMessage::RaAchievementList { game_title, game_hash, achievements } => closed(
            with_member(
                with_member(
                    with_member(start, "game_title"@, json_quoted(game_title@)),
                    "game_hash"@,
                    json_quoted(game_hash@),
                ),
                "achievements"@,
                achievements_json(crate::ipc::achievement_views(achievements@)),
            ),
        ),
        OverlayMessage::GameStarted { cart_id, game_name, runtime } => closed(
            with_member(
                with_member(
                    with_member(start, "cart_id"@, json_quoted(cart_id@)),
                    "game_name"@,
                    json_quoted(game_name@),
                ),
                "runtime"@,
                json_quoted(runtime@),
            ),
        ),
        OverlayMessage::GameStopped { cart_id } => closed(with_member(start, "cart_id"@, json_quoted(cart_id@))),
        _ => closed(start),
    }
}

/// Begins the object of a message of this type.
fn open(tag: &str) -> (r: String)
    ensures
        r@ == opened(tag@),
{
    let mut text = concat2("{\"type\":\"", tag);
    text.append("\"");
    text
}

/// Adds a member to an object under construction.
fn member(text: String, key: &str, value: &str) -> (r: String)
    ensures
        r@ == with_member(text@, key@, value@),
{
    let mut text = text;
    text.append(",\"");
    text.append(key);
    text.append("\":");
    text.append(value);
    text
}

/// Adds a text member to an object under construction.
fn text_member(text: String, key: &str, value: &str) -> (r: String)
    ensures
        r@ == with_member(text@, key@, json_quoted(value@)),
{
    member(text, key, json_quote(value).as_str())
}

/// Adds a number member to an object under construction.
fn number_member(text: String, key: &str, value: u64) -> (r: String)
    ensures
        r@ == with_member(text@, key@, decimal(value as nat)),
{
    member(text, key, number_text(value).as_str())
}

/// Adds a text member to an object under construction if there is a
/// text.
fn optional_text_member(text: String, key: &str, value: &Option<String>) -> (r: String)
    ensures
        r@ == with_optional(text@, key@, quoted_option(*value)),
{
    match value {
        Some(v) => text_member(text, key, v.as_str()),
        None => text,
    }
}

/// Ends an object under construction.
fn close(text: String) -> (r: String)
    ensures
        r@ == closed(text@),
{
    let mut text = text;
    text.append("}");
    text
}

/// `true` or `false`.
fn bool_text(b: bool) -> (r: &'static str)
    ensures
        r@ == json_bool(b),
{
    if b {
        "true"
    } else {
        "false"
    }
}

/// The character of a decimal digit.
fn digit(d: u32) -> (r: &'static str)
    requires
        d < 10,
    ensures
        r@ == seq![digit_char(d as nat)],
{
    proof {
        reveal_strlit("0");
        reveal_strlit("1");
        reveal_strlit("2");
        reveal_strlit("3");
        reveal_strlit("4");
        reveal_strlit("5");
        reveal_strlit("6");
        reveal_strlit("7");
        reveal_strlit("8");
        reveal_strlit("9");
    }
    let r = if d == 0 {
        "0"
    } else if d == 1 {
        "1"
    } else if d == 2 {
        "2"
    } else if d == 3 {
        "3"
    } else if d == 4 {
        "4"
    } else if d == 5 {
        "5"
    } else if d == 6 {
        "6"
    } else if d == 7 {
        "7"
    } else if d == 8 {
        "8"
    } else {
        "9"
    };
    assert(r@ =~= seq![digit_char(d as nat)]);
    r
}

/// A share in hundredths of a percent as a number of percent.
fn percent_text(basis_points: u32) -> (r: String)
    ensures
        r@ == json_percent(basis_points),
{
    let mut text = number_text((basis_points / 100) as u64);
    text.append(".");
    let ghost whole = text@;
    text.append(digit((basis_points % 100) / 10));
    text.append(digit(basis_points % 10));
    assert(text@ =~= whole + seq![
        digit_char(((basis_points % 100) / 10) as nat),
        digit_char((basis_points % 10) as nat),
    ]);
    text
}

/// The object of the progress of an achievement.
fn progress_text(p: AchievementProgress) -> (r: String)
    ensures
        r@ == progress_json(p),
{
    let mut text = concat2("{\"current\":", number_text(p.current as u64).as_str());
    text.append(",\"target\":");
    text.append(number_text(p.target as u64).as_str());
    text.append("}");
    text
}

/// The JSON text of one achievement.
pub fn encode_achievement(a: &AchievementInfo) -> (r: String)
    ensures
        r@ == achievement_json(a@),
{
    let t0 = concat2("{\"id\":", number_text(a.id as u64).as_str());
    let t1 = text_member(t0, "title", a.title.as_str());
    let t2 = text_member(t1, "description", a.description.as_str());
    let t3 = number_member(t2, "points", a.points as u64);
    let t4 = member(t3, "earned", bool_text(a.earned));
    let t5 = member(t4, "earned_hardcore", bool_text(a.earned_hardcore));
    let t6 = match a.rarity_basis_points {
        Some(bp) => member(t5, "rarity_percent", percent_text(bp).as_str()),
        None => t5,
    };
    let t7 = match a.earned_at {
        Some(t) => number_member(t6, "earned_at", t),
        None => t6,
    };
    let t8 = match a.progress {
        Some(p) => member(t7, "progress", progress_text(p).as_str()),
        None => t7,
    };
    close(t8)
}

/// The JSON text of a list of achievements.
fn encode_achievements(list: &Vec<AchievementInfo>) -> (r: String)
    ensures
        r@ == achievements_json(crate::ipc::achievement_views(list@)),
{
    let mut items: Vec<String> = Vec::new();
    let mut i: usize = 0;
    while i < list.len()
        invariant
            i <= list.len(),
            items@.len() == i,
            forall|k: int| 0 <= k < i ==> (#[trigger] items@[k])@ == achievement_json(list@[k]@),
        decreases list.len() - i,
    {
        items.push(encode_achievement(&list[i]));
        i = i + 1;
    }
    assert(views(items@) =~= Seq::new(
        crate::ipc::achievement_views(list@).len(),
        |i: int| achievement_json(crate::ipc::achievement_views(list@)[i]),
    ));
    let mut text = owned("[");
    text.append(join(&items, ",").as_str());
    text.append("]");
    text
}

/// The JSON text of a message, as it goes over the socket before the
/// line feed.
pub fn encode_message(message: &OverlayMessage) -> (r: String)
    ensures
        r@ == message_json(*message),
{
    let start = open(message.type_tag());
    match message {
        OverlayMessage::UnlockAchievement { cart_id, achievement_id, timestamp } => {
            let t1 = text_member(start, "cart_id", cart_id.as_str());
            let t2 = text_member(t1, "achievement_id", achievement_id.as_str());
            close(number_member(t2, "timestamp", *timestamp))
        },
        OverlayMessage::ShowToast { message, icon, duration_ms, style } => {
            let t1 = text_member(start, "message", message.as_str());
            let t2 = optional_text_member(t1, "icon", icon);
            let t3 = number_member(t2, "duration_ms", *duration_ms as u64);
            close(text_member(t3, "style", style.wire_name()))
        },
        OverlayMessage::ShowOverlay { screen } => close(text_member(start, "screen", screen.wire_name())),
        OverlayMessage::SetTheme { font_color, cursor_color } => {
            let t1 = text_member(start, "font_color", font_color.as_str());
            close(text_member(t1, "cursor_color", cursor_color.as_str()))
        },
        OverlayMessage::RaGameStart { game_title, game_id, game_icon, total_achievements, earned_achievements } => {
            let t1 = text_member(start, "game_title", game_title.as_str());
            let t2 = match game_id {
                Some(id) => number_member(t1, "game_id", *id as u64),
                None => t1,
            };
            let t3 = optional_text_member(t2, "game_icon", game_icon);
            let t4 = number_member(t3, "total_achievements", *total_achievements as u64);
            close(number_member(t4, "earned_achievements", *earned_achievements as u64))
        },
        OverlayMessage::RaAchievementUnlocked { achievement_id, title, description, points, icon_url, is_hardcore } => {
            let t1 = number_member(start, "achievement_id", *achievement_id as u64);
            let t2 = text_member(t1, "title", title.as_str());
            let t3 = optional_text_member(t2, "description", description);
            let t4 = number_member(t3, "points", *points as u64);
            let t5 = optional_text_member(t4, "icon_url", icon_url);
            close(member(t5, "is_hardcore", bool_text(*is_hardcore)))
        },
        OverlayMessage::RaProgressUpdate { earned, total } => {
            let t1 = number_member(start, "earned", *earned as u64);
            close(number_member(t1, "total", *total as u64))
        },
        OverlayMessage::RaAchievementList { game_title, game_hash, achievements } => {
            let t1 = text_member(start, "game_title", game_title.as_str());
            let t2 = text_member(t1, "game_hash", game_hash.as_str());
            close(member(t2, "achievements", encode_achievements(achievements).as_str()))
        },
        OverlayMessage::GameStarted { cart_id, game_name, runtime } => {
            let t1 = text_member(start, "cart_id", cart_id.as_str());
            let t2 = text_member(t1, "game_name", game_name.as_str());
            close(text_member(t2, "runtime", runtime.as_str()))
        },
        OverlayMessage::GameStopped { cart_id } => close(text_member(start, "cart_id", cart_id.as_str())),
        OverlayMessage::HideOverlay => close(start),
        OverlayMessage::GetStatus => close(start),
        OverlayMessage::ToggleOverlay => close(start),
        OverlayMessage::QuitGame => close(start),
        OverlayMessage::QuitGameAck => close(start),
    }
}

/// The line that the hotkey daemon sends is the text of the message that
/// toggles the overlay.
pub proof fn lemma_toggle_message_text()
    ensures
        TOGGLE_MESSAGE@ == message_json(OverlayMessage::ToggleOverlay),
{
    reveal_strlit("{\"type\":\"toggle_overlay\"}");
    reveal_strlit("{\"type\":\"");
    reveal_strlit("toggle_overlay");
    reveal_strlit("\"");
    reveal_strlit("}");
    assert(TOGGLE_MESSAGE@ =~= message_json(OverlayMessage::ToggleOverlay));
}

} // verus!
