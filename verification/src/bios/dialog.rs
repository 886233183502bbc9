//! The dialogs of the save data screen and of the launch of emulated
//! games.

use vstd::prelude::*;
use crate::bios::storage::{media_views, StorageMediaView};
use crate::bios::types::StorageMedia;
use crate::text::{
    concat2, concat3, decimal, is_prefix, number_text, owned, same_text, starts_with_text, to_uppercase,
    uppercase, views,
};

verus! {

/// One choice of a dialog.
#[derive(Debug)]
pub struct DialogOption {
    pub text: String,
    pub value: String,
    pub disabled: bool,
}

/// A dialog: what it asks, the choices, and the choice that is selected.
#[derive(Debug)]
pub struct Dialog {
    pub id: String,
    pub desc: Option<String>,
    pub options: Vec<DialogOption>,
    pub selection: usize,
}

/// A choice with its texts as sequences.
pub struct DialogOptionView {
    pub text: Seq<char>,
    pub value: Seq<char>,
    pub disabled: bool,
}

/// A dialog with its texts as sequences.
pub struct DialogView {
    pub id: Seq<char>,
    pub desc: Option<Seq<char>>,
    pub options: Seq<DialogOptionView>,
    pub selection: usize,
}

impl View for DialogOption {
    type V = DialogOptionView;

    open spec fn view(&self) -> DialogOptionView {
        DialogOptionView { text: self.text@, value: self.value@, disabled: self.disabled }
    }
}

/// The views of a list of choices.
pub open spec fn option_views(list: Seq<DialogOption>) -> Seq<DialogOptionView> {
    Seq::new(list.len(), |i: int| list[i]@)
}

impl View for Dialog {
    type V = DialogView;

    open spec fn view(&self) -> DialogView {
        DialogView {
            id: self.id@,
            desc: match self.desc {
                Some(d) => Some(d@),
                None => None,
            },
            options: option_views(self.options@),
            selection: self.selection,
        }
    }
}

/// A choice that can be taken, whose value is its text.
pub open spec fn plain_option(text: Seq<char>) -> DialogOptionView {
    DialogOptionView { text, value: text, disabled: false }
}

/// A choice that can be taken, whose value is its text.
fn plain(text: &str) -> (r: DialogOption)
    ensures
        r@ == plain_option(text@),
{
    DialogOption { text: owned(text), value: owned(text), disabled: false }
}

/// The dialog under this id with these choices.
fn dialog(id: String, desc: Option<String>, options: Vec<DialogOption>, selection: usize) -> (r: Dialog)
    ensures
        r@ == (DialogView {
            id: id@,
            desc: match desc {
                Some(d) => Some(d@),
                None => None,
            },
            options: option_views(options@),
            selection,
        }),
{
    Dialog { id, desc, options, selection }
}

/// Asks whether a save is to be deleted for good; Cancel is selected.
pub fn create_confirm_delete_dialog() -> (r: Dialog)
    ensures
        r@ == (DialogView {
            id: "confirm_delete"@,
            desc: Some("PERMANENTLY DELETE THIS SAVE DATA?"@),
            options: seq![plain_option("DELETE"@), plain_option("CANCEL"@)],
            selection: 1,
        }),
{
    let mut options: Vec<DialogOption> = Vec::new();
    options.push(plain("DELETE"));
    options.push(plain("CANCEL"));
    assert(option_views(options@) =~= seq![plain_option("DELETE"@), plain_option("CANCEL"@)]);
    dialog(owned("confirm_delete"), Some(owned("PERMANENTLY DELETE THIS SAVE DATA?")), options, 1)
}

/// Asks where a save is to be copied to: offers every medium but the one
/// whose id is that of the selected medium, then Cancel.
pub fn create_copy_storage_dialog(media: &Vec<StorageMedia>, selected: usize) -> (r: Dialog)
    requires
        selected < media@.len() || media@.len() == 0,
    ensures
        r@ == (DialogView {
            id: "copy_storage_select"@,
            desc: Some("WHERE TO COPY THIS SAVE DATA?"@),
            options: copy_targets_of(media_views(media@), selected as int).push(plain_option("CANCEL"@)),
            selection: 0,
        }),
{
    let ghost all = media_views(media@);
    let mut options: Vec<DialogOption> = Vec::new();
    let mut i: usize = 0;
    assert(option_views(options@) =~= targets_upto(all, selected as int, 0));
    while i < media.len()
        invariant
            i <= media.len(),
            selected < media@.len() || media@.len() == 0,
            all == media_views(media@),
            option_views(options@) == targets_upto(all, selected as int, i as int),
        decreases media.len() - i,
    {
        let ghost prev = option_views(options@);
        assert(all[i as int] == media@[i as int]@);
        assert(all[selected as int] == media@[selected as int]@);
        if !same_text(media[i].id.as_str(), media[selected].id.as_str()) {
            let mut text = media[i].id.clone();
            text.append(" (");
            text.append(number_text(media[i].free as u64).as_str());
            text.append(" MB Free)");
            let option = DialogOption { text, value: media[i].id.clone(), disabled: false };
            options.push(option);
            assert(option_views(options@) =~= prev.push(option@));
        }
        assert(option_views(options@) =~= targets_upto(all, selected as int, i as int + 1));
        i = i + 1;
    }
    let ghost targets = option_views(options@);
    options.push(plain("CANCEL"));
    assert(option_views(options@) =~= targets.push(plain_option("CANCEL"@)));
    dialog(owned("copy_storage_select"), Some(owned("WHERE TO COPY THIS SAVE DATA?")), options, 0)
}

/// The choices to copy to among the first `n` media.
pub open spec fn targets_upto(media: Seq<StorageMediaView>, selected: int, n: int) -> Seq<DialogOptionView>
    decreases n,
{
    if n <= 0 {
        Seq::empty()
    } else {
        let rest = targets_upto(media, selected, n - 1);
        if media[n - 1].id == media[selected].id {
            rest
        } else {
            rest.push(
                DialogOptionView {
                    text: media[n - 1].id + " ("@ + decimal(media[n - 1].free as nat) + " MB Free)"@,
                    value: media[n - 1].id,
                    disabled: false,
                },
            )
        }
    }
}

/// The choices to copy to: every medium whose id is not that of the
/// selected one, in order.
pub open spec fn copy_targets_of(media: Seq<StorageMediaView>, selected: int) -> Seq<DialogOptionView> {
    targets_upto(media, selected, media.len() as int)
}

/// The first dialog of a save: copy, delete or cancel. Copy cannot be
/// taken while there is no second medium.
pub fn create_main_dialog(has_external_devices: bool) -> (r: Dialog)
    ensures
        r@ == (DialogView {
            id: "main"@,
            desc: None,
            options: seq![
                DialogOptionView { text: "COPY"@, value: "COPY"@, disabled: !has_external_devices },
                plain_option("DELETE"@),
                plain_option("CANCEL"@),
            ],
            selection: 0,
        }),
{
    let mut options: Vec<DialogOption> = Vec::new();
    options.push(DialogOption { text: owned("COPY"), value: owned("COPY"), disabled: !has_external_devices });
    options.push(plain("DELETE"));
    options.push(plain("CANCEL"));
    assert(option_views(options@) =~= seq![
        DialogOptionView { text: "COPY"@, value: "COPY"@, disabled: !has_external_devices },
        plain_option("DELETE"@),
        plain_option("CANCEL"@),
    ]);
    dialog(owned("main"), None, options, 0)
}

/// Says that the save is already at the place it was to be copied to.
pub fn create_save_exists_dialog() -> (r: Dialog)
    ensures
        r@ == (DialogView {
            id: "save_exists"@,
            desc: Some("THIS SAVE DATA ALREADY EXISTS AT THE SELECTED DESTINATION"@),
            options: seq![plain_option("OK"@)],
            selection: 0,
        }),
{
    let mut options: Vec<DialogOption> = Vec::new();
    options.push(plain("OK"));
    assert(option_views(options@) =~= seq![plain_option("OK"@)]);
    dialog(
        owned("save_exists"),
        Some(owned("THIS SAVE DATA ALREADY EXISTS AT THE SELECTED DESTINATION")),
        options,
        0,
    )
}

/// Shows an error.
pub fn create_error_dialog(message: String) -> (r: Dialog)
    ensures
        r@ == (DialogView {
            id: "error"@,
            desc: Some(message@),
            options: seq![plain_option("OK"@)],
            selection: 0,
        }),
{
    let mut options: Vec<DialogOption> = Vec::new();
    options.push(plain("OK"));
    assert(option_views(options@) =~= seq![plain_option("OK"@)]);
    dialog(owned("error"), Some(message), options, 0)
}

/// The choice of a number of players.
pub open spec fn player_option(players: int) -> DialogOptionView {
    DialogOptionView {
        text: if players == 1 {
            "1 PLAYER"@
        } else {
            decimal(players as nat) + " PLAYERS"@
        },
        value: decimal(players as nat),
        disabled: false,
    }
}

/// Asks how many play: one choice for each number from one to
/// `max_players`, then Cancel. Two players are selected where two can
/// play.
pub fn create_player_count_dialog(max_players: u8) -> (r: Dialog)
    ensures
        r@ == (DialogView {
            id: "player_count_select"@,
            desc: Some("SELECT NUMBER OF PLAYERS"@),
            options: Seq::new(max_players as nat, |i: int| player_option(i + 1)).push(plain_option("CANCEL"@)),
            selection: if max_players >= 2 {
                1
            } else {
                0
            },
        }),
{
    let mut options: Vec<DialogOption> = Vec::new();
    let mut i: u8 = 0;
    while i < max_players
        invariant
            i <= max_players,
            options@.len() == i,
            forall|k: int| 0 <= k < i ==> (#[trigger] options@[k])@ == player_option(k + 1),
        decreases max_players - i,
    {
        let players: u8 = i + 1;
        let number = number_text(players as u64);
        let text = if players == 1 {
            owned("1 PLAYER")
        } else {
            concat2(number.as_str(), " PLAYERS")
        };
        options.push(DialogOption { text, value: number, disabled: false });
        i = i + 1;
    }
    options.push(plain("CANCEL"));
    assert(option_views(options@) =~= Seq::new(max_players as nat, |i: int| player_option(i + 1)).push(
        plain_option("CANCEL"@),
    ));
    dialog(
        owned("player_count_select"),
        Some(owned("SELECT NUMBER OF PLAYERS")),
        options,
        if max_players >= 2 {
            1
        } else {
            0
        },
    )
}

/// The name of the save slot of a player.
pub open spec fn slot_name(player: u8) -> Seq<char> {
    "p"@ + decimal(player as nat)
}

/// The choices to use the save of another slot, among the first `n`
/// saves.
pub open spec fn other_saves(saves: Seq<Seq<char>>, own: Seq<char>, n: int) -> Seq<DialogOptionView>
    decreases n,
{
    if n <= 0 {
        Seq::empty()
    } else {
        let rest = other_saves(saves, own, n - 1);
        if saves[n - 1] == own {
            rest
        } else {
            rest.push(
                DialogOptionView {
                    text: "USE "@ + uppercase(saves[n - 1]) + " SAVE"@,
                    value: saves[n - 1],
                    disabled: false,
                },
            )
        }
    }
}

/// The first choice of the save slot dialog: the player's own slot, to
/// go on with if there is a save in it, new if there is none.
pub open spec fn own_save(saves: Seq<Seq<char>>, player: u8) -> DialogOptionView {
    DialogOptionView {
        text: "PLAYER "@ + decimal(player as nat) + (if saves.contains(slot_name(player)) {
            " SAVE (CONTINUE)"@
        } else {
            " SAVE (NEW)"@
        }),
        value: slot_name(player),
        disabled: false,
    }
}

/// What the save slot dialog asks.
pub open spec fn save_slot_desc(player: u8, rom_name: Seq<char>) -> Seq<char> {
    if player == 1 {
        "SELECT SAVE FILE\n"@ + uppercase(rom_name)
    } else {
        "PLAYER "@ + decimal(player as nat) + " - SELECT SAVE FILE\n"@ + uppercase(rom_name)
    }
}

/// Asks a player for a save slot: the player's own slot first, then the
/// saves of the other slots, then Cancel.
pub fn create_save_slot_dialog(existing_saves: &Vec<String>, player_num: u8, rom_name: &str) -> (r: Dialog)
    ensures
        r@ == (DialogView {
            id: "save_slot_select_p"@ + decimal(player_num as nat),
            desc: Some(save_slot_desc(player_num, rom_name@)),
            options: (seq![own_save(views(existing_saves@), player_num)] + other_saves(
                views(existing_saves@),
                slot_name(player_num),
                existing_saves@.len() as int,
            )).push(plain_option("CANCEL"@)),
            selection: 0,
        }),
{
    let ghost saves = views(existing_saves@);
    let number = number_text(player_num as u64);
    let new_slot = concat2("p", number.as_str());
    let mut exists = false;
    let mut j: usize = 0;
    while j < existing_saves.len()
        invariant
            j <= existing_saves.len(),
            saves == views(existing_saves@),
            exists == exists|k: int| 0 <= k < j && #[trigger] saves[k] == new_slot@,
        decreases existing_saves.len() - j,
    {
        if same_text(existing_saves[j].as_str(), new_slot.as_str()) {
            exists = true;
            assert(saves[j as int] == new_slot@);
        }
        j = j + 1;
    }
    proof {
        if saves.contains(new_slot@) {
            let k = choose|k: int| 0 <= k < saves.len() && saves[k] == new_slot@;
            assert(saves[k] == new_slot@);
        }
        assert(exists == saves.contains(new_slot@));
    }
    let mut own_text = concat2("PLAYER ", number.as_str());
    if exists {
        own_text.append(" SAVE (CONTINUE)");
    } else {
        own_text.append(" SAVE (NEW)");
    }
    let mut options: Vec<DialogOption> = Vec::new();
    options.push(DialogOption { text: own_text, value: new_slot.clone(), disabled: false });
    let ghost first = seq![own_save(saves, player_num)];
    assert(option_views(options@) =~= first + other_saves(saves, new_slot@, 0));
    let mut i: usize = 0;
    while i < existing_saves.len()
        invariant
            i <= existing_saves.len(),
            saves == views(existing_saves@),
            first == seq![own_save(saves, player_num)],
            option_views(options@) == first + other_saves(saves, new_slot@, i as int),
        decreases existing_saves.len() - i,
    {
        let ghost prev = option_views(options@);
        assert(saves[i as int] == existing_saves@[i as int]@);
        if !same_text(existing_saves[i].as_str(), new_slot.as_str()) {
            let upper = to_uppercase(existing_saves[i].as_str());
            let option = DialogOption {
                text: concat3("USE ", upper.as_str(), " SAVE"),
                value: existing_saves[i].clone(),
                disabled: false,
            };
            options.push(option);
            assert(option_views(options@) =~= prev.push(option@));
        }
        assert(option_views(options@) =~= first + other_saves(saves, new_slot@, i as int + 1));
        i = i + 1;
    }
    let ghost listed = option_views(options@);
    options.push(plain("CANCEL"));
    assert(option_views(options@) =~= listed.push(plain_option("CANCEL"@)));
    let upper_name = to_uppercase(rom_name);
    let desc = if player_num == 1 {
        concat2("SELECT SAVE FILE\n", upper_name.as_str())
    } else {
        let mut d = concat2("PLAYER ", number.as_str());
        d.append(" - SELECT SAVE FILE\n");
        d.append(upper_name.as_str());
        d
    };
    dialog(concat2("save_slot_select_p", number.as_str()), Some(desc), options, 0)
}

/// The save slot that a save file belongs to, by the file name without
/// its extension: the file named like the ROM is the slot `default`; a
/// file named like the ROM, an underscore and more is the slot of what
/// follows the underscore; any other file is no save of the ROM.
pub open spec fn slot_of_stem(stem: Seq<char>, rom_name: Seq<char>) -> Option<Seq<char>> {
    if stem == rom_name {
        Some("default"@)
    } else if is_prefix(stem, rom_name + "_"@) {
        Some(stem.skip(rom_name.len() as int + 1))
    } else {
        None
    }
}

/// The save slot that a save file of this stem belongs to.
pub fn save_slot_of(stem: &str, rom_name: &str) -> (r: Option<String>)
    ensures
        crate::text::option_view(r) == slot_of_stem(stem@, rom_name@),
{
    if same_text(stem, rom_name) {
        Some(owned("default"))
    } else {
        let prefix = concat2(rom_name, "_");
        if starts_with_text(stem, prefix.as_str()) {
            proof {
                reveal_strlit("_");
            }
            let len: usize = stem.unicode_len();
            let name_len: usize = rom_name.unicode_len();
            assert(name_len + 1 <= len) by {
                assert((rom_name@ + "_"@).len() == rom_name@.len() + 1);
            }
            let from: usize = name_len + 1;
            let suffix = stem.substring_char(from, len);
            assert(suffix@ =~= stem@.skip(rom_name@.len() as int + 1));
            Some(owned(suffix))
        } else {
            None
        }
    }
}

} // verus!
