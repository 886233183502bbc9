//! What a cartridge says of itself.

use vstd::prelude::*;
use crate::paths::{file_stem, path_file_stem};
use crate::text::{
    concat3, first_char_pos, lines_of, lowercase, option_view, owned, parse_u8, parsed_u8, same_text,
    split_once_at, text_lines, to_lowercase, trim, trimmed, views,
};

verus! {

/// The metadata of a cartridge.
#[derive(Clone, Debug)]
pub struct CartInfo {
    pub name: Option<String>,
    pub id: String,
    pub exec_cmd: String,
    pub icon: String,
    pub runtime: Option<String>,
    pub multiplayer_support: Option<bool>,
    pub max_players: Option<u8>,
    /// `link-cable`, `wireless` or `both`.
    pub multiplayer_type: Option<String>,
    /// The name of the game at the achievement service.
    pub ra_game_name: Option<String>,
    /// Save files that come with the cartridge, for players 1 to 4.
    pub player_saves: [Option<String>; 4],
}

/// How many play and from which save slots.
#[derive(Clone, Debug)]
pub struct MgbaLaunchOptions {
    /// One to four.
    pub player_count: u8,
    /// The save slot of each player.
    pub save_slots: Vec<String>,
}

impl Default for CartInfo {
    fn default() -> (r: CartInfo)
        ensures
            r.name is None,
            r.id@.len() == 0,
            r.exec_cmd@.len() == 0,
            r.icon@.len() == 0,
            r.runtime is None,
            r.multiplayer_support is None,
            r.max_players is None,
            r.multiplayer_type is None,
            r.ra_game_name is None,
            r.player_saves@ == seq![None::<String>, None, None, None],
    {
        let r = CartInfo {
            name: None,
            id: String::new(),
            exec_cmd: String::new(),
            icon: String::new(),
            runtime: None,
            multiplayer_support: None,
            max_players: None,
            multiplayer_type: None,
            ra_game_name: None,
            player_saves: [None, None, None, None],
        };
        assert(r.player_saves@ =~= seq![None::<String>, None, None, None]);
        r
    }
}

impl Default for MgbaLaunchOptions {
    fn default() -> (r: MgbaLaunchOptions)
        ensures
            r.player_count == 0,
            r.save_slots@.len() == 0,
    {
        MgbaLaunchOptions { player_count: 0, save_slots: Vec::new() }
    }
}

/// The name of the ROM of a cartridge: the file name of what it executes,
/// without extension; `game` where that has no file name.
pub fn get_rom_name_from_exec(exec: &str) -> (r: String)
    ensures
        r@ == match path_file_stem(exec@) {
            Some(stem) => stem,
            None => "game"@,
        },
{
    match file_stem(exec) {
        Some(stem) => stem,
        None => owned("game"),
    }
}

/// What a cartridge file has said so far: each field as it was last set.
pub struct KziFields {
    pub name: Option<String>,
    pub id: Option<String>,
    pub exec_cmd: Option<String>,
    pub icon: Option<String>,
    pub runtime: Option<String>,
    pub multiplayer_support: Option<bool>,
    pub max_players: Option<u8>,
    pub multiplayer_type: Option<String>,
    pub ra_game_name: Option<String>,
    pub save_p1: Option<String>,
    pub save_p2: Option<String>,
    pub save_p3: Option<String>,
    pub save_p4: Option<String>,
}

/// The fields of a cartridge file with their texts as sequences.
pub struct KziFieldsView {
    pub name: Option<Seq<char>>,
    pub id: Option<Seq<char>>,
    pub exec_cmd: Option<Seq<char>>,
    pub icon: Option<Seq<char>>,
    pub runtime: Option<Seq<char>>,
    pub multiplayer_support: Option<bool>,
    pub max_players: Option<u8>,
    pub multiplayer_type: Option<Seq<char>>,
    pub ra_game_name: Option<Seq<char>>,
    pub save_p1: Option<Seq<char>>,
    pub save_p2: Option<Seq<char>>,
    pub save_p3: Option<Seq<char>>,
    pub save_p4: Option<Seq<char>>,
}

impl View for KziFields {
    type V = KziFieldsView;

    open spec fn view(&self) -> KziFieldsView {
        KziFieldsView {
            name: option_view(self.name),
            id: option_view(self.id),
            exec_cmd: option_view(self.exec_cmd),
            icon: option_view(self.icon),
            runtime: option_view(self.runtime),
            multiplayer_support: self.multiplayer_support,
            max_players: self.max_players,
            multiplayer_type: option_view(self.multiplayer_type),
            ra_game_name: option_view(self.ra_game_name),
            save_p1: option_view(self.save_p1),
            save_p2: option_view(self.save_p2),
            save_p3: option_view(self.save_p3),
            save_p4: option_view(self.save_p4),
        }
    }
}

/// No field is set.
pub open spec fn no_fields() -> KziFieldsView {
    KziFieldsView {
        name: None,
        id: None,
        exec_cmd: None,
        icon: None,
        runtime: None,
        multiplayer_support: None,
        max_players: None,
        multiplayer_type: None,
        ra_game_name: None,
        save_p1: None,
        save_p2: None,
        save_p3: None,
        save_p4: None,
    }
}

/// A value without the double quotes around it, if it stands in quotes.
pub open spec fn unquoted(value: Seq<char>) -> Seq<char> {
    if value.len() >= 2 && value[0] == '"' && value.last() == '"' {
        value.subrange(1, value.len() - 1)
    } else {
        value
    }
}

/// Key and value of a line of a cartridge file. Empty lines, comments,
/// which begin with `#` or `;`, and lines without `=` have none. The key
/// is what stands before the first `=`, trimmed and in lower case; the
/// value is what stands behind it, trimmed and without quotes around it.
pub open spec fn line_entry(line: Seq<char>) -> Option<(Seq<char>, Seq<char>)> {
    let text = trimmed(line);
    if text.len() == 0 || text[0] == '#' || text[0] == ';' {
        None
    } else {
        let at = first_char_pos(text, '=');
        if at < text.len() {
            Some((lowercase(trimmed(text.take(at))), unquoted(trimmed(text.skip(at + 1)))))
        } else {
            None
        }
    }
}

/// `true` and `false` as truth values; any other text as none.
pub open spec fn parsed_bool(value: Seq<char>) -> Option<bool> {
    if value == "true"@ {
        Some(true)
    } else if value == "false"@ {
        Some(false)
    } else {
        None
    }
}

/// The fields after one key was given a value. A key that is not known
/// changes nothing; neither does a number of players that is no number.
pub open spec fn with_entry(fields: KziFieldsView, key: Seq<char>, value: Seq<char>) -> KziFieldsView {
    if key == "name"@ {
        KziFieldsView { name: Some(value), ..fields }
    } else if key == "id"@ {
        KziFieldsView { id: Some(value), ..fields }
    } else if key == "exec"@ {
        KziFieldsView { exec_cmd: Some(value), ..fields }
    } else if key == "icon"@ {
        KziFieldsView { icon: Some(value), ..fields }
    } else if key == "runtime"@ {
        KziFieldsView { runtime: Some(value), ..fields }
    } else if key == "multiplayersupport"@ {
        KziFieldsView { multiplayer_support: parsed_bool(value), ..fields }
    } else if key == "maxplayers"@ {
        match parsed_u8(value) {
            Some(n) => KziFieldsView { max_players: Some(n), ..fields },
            None => fields,
        }
    } else if key == "multipliertype"@ {
        KziFieldsView { multiplayer_type: Some(value), ..fields }
    } else if key == "ra_game_name"@ || key == "ra-game-name"@ || key == "ra game name"@ {
        KziFieldsView { ra_game_name: Some(value), ..fields }
    } else if key == "savep1"@ {
        KziFieldsView { save_p1: Some(value), ..fields }
    } else if key == "savep2"@ {
        KziFieldsView { save_p2: Some(value), ..fields }
    } else if key == "savep3"@ {
        KziFieldsView { save_p3: Some(value), ..fields }
    } else if key == "savep4"@ {
        KziFieldsView { save_p4: Some(value), ..fields }
    } else {
        fields
    }
}

/// The fields that the lines of a cartridge file set, taken in order.
pub open spec fn fields_of(lines: Seq<Seq<char>>) -> KziFieldsView
    decreases lines.len(),
{
    if lines.len() == 0 {
        no_fields()
    } else {
        let before = fields_of(lines.drop_last());
        match line_entry(lines.last()) {
            Some((key, value)) => with_entry(before, key, value),
            None => before,
        }
    }
}

/// The text of the error for a cartridge file without id or command.
pub open spec fn invalid_kzi_text(kzi_path: Seq<char>) -> Seq<char> {
    "Invalid .kzi file '"@ + kzi_path + "': missing required fields (Id, Exec, or Icon)."@
}

/// A value without the double quotes around it.
fn unquote(value: String) -> (r: String)
    ensures
        r@ == unquoted(value@),
{
    let len: usize = value.as_str().unicode_len();
    if len >= 2 && value.as_str().get_char(0) == '"' && value.as_str().get_char(len - 1) == '"' {
        owned(value.as_str().substring_char(1, len - 1))
    } else {
        value
    }
}

/// Key and value of a line of a cartridge file.
pub fn read_line(line: &str) -> (r: Option<(String, String)>)
    ensures
        match r {
            Some((key, value)) => line_entry(line@) == Some((key@, value@)),
            None => line_entry(line@) is None,
        },
{
    let text = trim(line);
    if text.as_str().unicode_len() == 0 {
        return None;
    }
    let first = text.as_str().get_char(0);
    if first == '#' || first == ';' {
        return None;
    }
    match split_once_at(text.as_str(), '=') {
        Some((before, after)) => {
            let key = to_lowercase(trim(before.as_str()).as_str());
            let value = unquote(trim(after.as_str()));
            Some((key, value))
        },
        None => None,
    }
}

/// `true` and `false` as truth values.
fn parse_bool(value: &str) -> (r: Option<bool>)
    ensures
        r == parsed_bool(value@),
{
    if same_text(value, "true") {
        Some(true)
    } else if same_text(value, "false") {
        Some(false)
    } else {
        None
    }
}

impl KziFields {
    /// No field is set.
    pub fn new() -> (r: KziFields)
        ensures
            r@ == no_fields(),
    {
        KziFields {
            name: None,
            id: None,
            exec_cmd: None,
            icon: None,
            runtime: None,
            multiplayer_support: None,
            max_players: None,
            multiplayer_type: None,
            ra_game_name: None,
            save_p1: None,
            save_p2: None,
            save_p3: None,
            save_p4: None,
        }
    }

    /// Gives a key its value.
    pub fn set(&mut self, key: &str, value: String)
        ensures
            final(self)@ == with_entry(old(self)@, key@, value@),
    {
        if same_text(key, "name") {
            self.name = Some(value);
        } else if same_text(key, "id") {
            self.id = Some(value);
        } else if same_text(key, "exec") {
            self.exec_cmd = Some(value);
        } else if same_text(key, "icon") {
            self.icon = Some(value);
        } else if same_text(key, "runtime") {
            self.runtime = Some(value);
        } else if same_text(key, "multiplayersupport") {
            self.multiplayer_support = parse_bool(value.as_str());
        } else if same_text(key, "maxplayers") {
            match parse_u8(value.as_str()) {
                Some(n) => {
                    self.max_players = Some(n);
                },
                None => {},
            }
        } else if same_text(key, "multipliertype") {
            self.multiplayer_type = Some(value);
        } else if same_text(key, "ra_game_name") || same_text(key, "ra-game-name") || same_text(
            key,
            "ra game name",
        ) {
            self.ra_game_name = Some(value);
        } else if same_text(key, "savep1") {
            self.save_p1 = Some(value);
        } else if same_text(key, "savep2") {
            self.save_p2 = Some(value);
        } else if same_text(key, "savep3") {
            self.save_p3 = Some(value);
        } else if same_text(key, "savep4") {
            self.save_p4 = Some(value);
        }
    }
}

/// The fields that the content of a cartridge file sets.
pub fn read_kzi_fields(content: &str) -> (r: KziFields)
    ensures
        r@ == fields_of(text_lines(content@)),
{
    let lines = lines_of(content);
    let ghost all = views(lines@);
    let mut fields = KziFields::new();
    let mut i: usize = 0;
    while i < lines.len()
        invariant
            i <= lines.len(),
            all == views(lines@),
            fields@ == fields_of(all.take(i as int)),
        decreases lines.len() - i,
    {
        proof {
            let next = all.take(i as int + 1);
            assert(next.drop_last() == all.take(i as int));
            assert(next.last() == lines@[i as int]@);
        }
        match read_line(lines[i].as_str()) {
            Some((key, value)) => {
                fields.set(key.as_str(), value);
            },
            None => {},
        }
        i = i + 1;
    }
    proof {
        assert(all.take(lines.len() as int) == all);
    }
    fields
}

/// Reads the metadata of a cartridge from the content of its file. A
/// cartridge must name its id and what it executes; its icon is
/// `default.png` where it names none.
pub fn parse_kzi_file(content: &str, kzi_path: &str) -> (r: Result<CartInfo, String>)
    ensures
        ({
            let fields = fields_of(text_lines(content@));
            match r {
                Ok(cart) => {
                    &&& fields.id == Some(cart.id@)
                    &&& fields.exec_cmd == Some(cart.exec_cmd@)
                    &&& cart.icon@ == (match fields.icon {
                        Some(icon) => icon,
                        None => "default.png"@,
                    })
                    &&& option_view(cart.name) == fields.name
                    &&& option_view(cart.runtime) == fields.runtime
                    &&& cart.multiplayer_support == fields.multiplayer_support
                    &&& cart.max_players == fields.max_players
                    &&& option_view(cart.multiplayer_type) == fields.multiplayer_type
                    &&& option_view(cart.ra_game_name) == fields.ra_game_name
                    &&& option_view(cart.player_saves@[0]) == fields.save_p1
                    &&& option_view(cart.player_saves@[1]) == fields.save_p2
                    &&& option_view(cart.player_saves@[2]) == fields.save_p3
                    &&& option_view(cart.player_saves@[3]) == fields.save_p4
                },
                Err(message) => {
                    &&& fields.id is None || fields.exec_cmd is None
                    &&& message@ == invalid_kzi_text(kzi_path@)
                },
            }
        }),
{
    let fields = read_kzi_fields(content);
    let KziFields {
        name,
        id,
        exec_cmd,
        icon,
        runtime,
        multiplayer_support,
        max_players,
        multiplayer_type,
        ra_game_name,
        save_p1,
        save_p2,
        save_p3,
        save_p4,
    } = fields;
    match (id, exec_cmd) {
        (Some(id), Some(exec_cmd)) => {
            let icon = match icon {
                Some(icon) => icon,
                None => owned("default.png"),
            };
            Ok(
                CartInfo {
                    name,
                    id,
                    exec_cmd,
                    icon,
                    runtime,
                    multiplayer_support,
                    max_players,
                    multiplayer_type,
                    ra_game_name,
                    player_saves: [save_p1, save_p2, save_p3, save_p4],
                },
            )
        },
        _ => Err(
            concat3("Invalid .kzi file '", kzi_path, "': missing required fields (Id, Exec, or Icon)."),
        ),
    }
}

/// The value of an attribute in a metadata file: what stands behind
/// `attribute=` on the first line that begins so; the empty text where no
/// line does.
pub open spec fn attribute_of(lines: Seq<Seq<char>>, attribute: Seq<char>) -> Seq<char>
    decreases lines.len(),
{
    if lines.len() == 0 {
        Seq::empty()
    } else if crate::text::is_prefix(lines[0], attribute + "="@) {
        lines[0].skip(attribute.len() as int + 1)
    } else {
        attribute_of(lines.drop_first(), attribute)
    }
}

/// The value of an attribute in the content of a metadata file.
pub fn get_attribute(content: &str, attribute: &str) -> (r: String)
    ensures
        r@ == attribute_of(text_lines(content@), attribute@),
{
    let lines = lines_of(content);
    let ghost all = views(lines@);
    let prefix = crate::text::concat2(attribute, "=");
    let mut i: usize = 0;
    assert(all.skip(0) == all);
    while i < lines.len()
        invariant
            i <= lines.len(),
            all == views(lines@),
            all == text_lines(content@),
            prefix@ == attribute@ + "="@,
            attribute_of(all, attribute@) == attribute_of(all.skip(i as int), attribute@),
        decreases lines.len() - i,
    {
        proof {
            assert(all.skip(i as int)[0] == lines@[i as int]@);
            assert(all.skip(i as int).drop_first() == all.skip(i as int + 1));
        }
        if crate::text::starts_with_text(lines[i].as_str(), prefix.as_str()) {
            proof {
                reveal_strlit("=");
                assert(prefix@.len() == attribute@.len() + 1);
            }
            let len: usize = lines[i].as_str().unicode_len();
            let from: usize = attribute.unicode_len() + 1;
            let value = lines[i].as_str().substring_char(from, len);
            assert(value@ =~= lines@[i as int]@.skip(attribute@.len() as int + 1));
            assert(crate::text::is_prefix(all.skip(i as int)[0], attribute@ + "="@));
            assert(attribute_of(all.skip(i as int), attribute@) == all.skip(i as int)[0].skip(
                attribute@.len() as int + 1,
            ));
            return owned(value);
        }
        assert(!crate::text::is_prefix(all.skip(i as int)[0], attribute@ + "="@));
        i = i + 1;
    }
    assert(all.skip(lines.len() as int).len() == 0);
    String::new()
}

} // verus!
