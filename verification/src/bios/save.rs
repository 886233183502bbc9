//! Where saves are kept, and which paths of a save are left out when it
//! is measured or copied.

use vstd::prelude::*;
use crate::bios::cart::CartInfo;
use crate::paths::{join, parent, path_join, path_parent};
use crate::text::{concat2, contains_text, decimal, is_substring, number_text, owned, same_text};

verus! {

/// The data directory of the console, below the home directory.
pub const KAZETA_DATA_DIR: &'static str = ".local/share/kazeta";

/// Whether a path of a save is left out: it holds the name of a cache,
/// of the sound server's cookie, or of a part of the Windows prefix
/// that is made anew on each start.
pub open spec fn is_excluded(path: Seq<char>) -> bool {
    ||| is_substring(path, ".cache"@)
    ||| is_substring(path, ".config/pulse/cookie"@)
    ||| is_substring(path, ".kazeta/share"@)
    ||| is_substring(path, ".kazeta/var/prefix/dosdevices"@)
    ||| is_substring(path, ".kazeta/var/prefix/drive_c/windows"@)
    ||| is_substring(path, ".kazeta/var/prefix/pfx"@)
}

/// Whether a path of a save is left out of its size and of its copies.
pub fn should_exclude_path(path: &str) -> (r: bool)
    ensures
        r == is_excluded(path@),
{
    contains_text(path, ".cache") || contains_text(path, ".config/pulse/cookie") || contains_text(
        path,
        ".kazeta/share",
    ) || contains_text(path, ".kazeta/var/prefix/dosdevices") || contains_text(
        path,
        ".kazeta/var/prefix/drive_c/windows",
    ) || contains_text(path, ".kazeta/var/prefix/pfx")
}

/// The directory of a drive for saves or for the cache: below the home
/// directory for the internal drive, which is also meant by an empty
/// name; below the drive's mount point for any other.
pub open spec fn drive_dir(
    drive_name: Seq<char>,
    home_dir: Seq<char>,
    external_base: Seq<char>,
    internal: Seq<char>,
    external: Seq<char>,
) -> Seq<char> {
    if drive_name == "internal"@ || drive_name.len() == 0 {
        path_join(path_join(home_dir, KAZETA_DATA_DIR@), internal)
    } else {
        path_join(path_join(external_base, drive_name), external)
    }
}

/// The directory of a drive for saves or for the cache.
fn directory_of(drive_name: &str, home_dir: &str, external_base: &str, internal: &str, external: &str) -> (r:
    String)
    ensures
        r@ == drive_dir(drive_name@, home_dir@, external_base@, internal@, external@),
{
    if same_text(drive_name, "internal") || drive_name.is_empty() {
        let base = join(home_dir, KAZETA_DATA_DIR);
        join(base.as_str(), internal)
    } else {
        let mount = join(external_base, drive_name);
        join(mount.as_str(), external)
    }
}

/// The directory in which a drive keeps saves.
pub fn get_save_dir_from_drive_name(drive_name: &str, home_dir: &str, external_base: &str) -> (r: String)
    ensures
        r@ == drive_dir(drive_name@, home_dir@, external_base@, "saves/default"@, "kazeta/saves"@),
{
    directory_of(drive_name, home_dir, external_base, "saves/default", "kazeta/saves")
}

/// The directory in which a drive keeps the metadata of its saves.
pub fn get_cache_dir_from_drive_name(drive_name: &str, home_dir: &str, external_base: &str) -> (r: String)
    ensures
        r@ == drive_dir(drive_name@, home_dir@, external_base@, "cache"@, "kazeta/cache"@),
{
    directory_of(drive_name, home_dir, external_base, "cache", "kazeta/cache")
}

/// Whether saves can be kept on a drive: always on the internal drive,
/// on another if it has a directory for saves.
pub fn has_save_dir(drive_name: &str, save_dir_exists: bool) -> (r: bool)
    ensures
        r == (drive_name@ == "internal"@ || save_dir_exists),
{
    same_text(drive_name, "internal") || save_dir_exists
}

/// Whether a drive is a cartridge: never the internal drive, another if
/// a cartridge file was found on it.
pub fn is_cart(drive_name: &str, cartridge_file_found: bool) -> (r: bool)
    ensures
        r == (drive_name@ != "internal"@ && cartridge_file_found),
{
    !same_text(drive_name, "internal") && cartridge_file_found
}

/// Position of the last occurrence of a character; -1 where it does not
/// occur.
pub open spec fn last_char_pos(s: Seq<char>, c: char) -> int
    decreases s.len(),
{
    if s.len() == 0 {
        -1
    } else if s.last() == c {
        s.len() - 1
    } else {
        last_char_pos(s.drop_last(), c)
    }
}

/// A file name without its extension: what stands before its last dot,
/// or all of it where it has no dot.
pub open spec fn without_extension(filename: Seq<char>) -> Seq<char> {
    let at = last_char_pos(filename, '.');
    if at >= 0 {
        filename.take(at)
    } else {
        filename
    }
}

/// A file name without its extension.
pub fn trim_extension(filename: &str) -> (r: String)
    ensures
        r@ == without_extension(filename@),
{
    let len: usize = filename.unicode_len();
    let mut i: usize = len;
    assert(filename@.take(len as int) == filename@);
    while i > 0 && filename.get_char(i - 1) != '.'
        invariant
            i <= len,
            len == filename@.len(),
            last_char_pos(filename@, '.') == last_char_pos(filename@.take(i as int), '.'),
        decreases i,
    {
        proof {
            let upto = filename@.take(i as int);
            assert(upto.last() == filename@[i - 1]);
            assert(upto.drop_last() == filename@.take(i - 1));
        }
        i = i - 1;
    }
    if i > 0 {
        proof {
            let upto = filename@.take(i as int);
            assert(upto.last() == filename@[i - 1]);
            assert(last_char_pos(upto, '.') == i - 1);
        }
        let stem = filename.substring_char(0, i - 1);
        assert(stem@ =~= filename@.take(i - 1));
        owned(stem)
    } else {
        assert(filename@.take(0).len() == 0);
        owned(filename)
    }
}

/// How a save gets from one drive to another.
#[derive(Clone, Copy, Debug, PartialEq, Eq, Structural)]
pub enum CopyKind {
    /// From the internal drive: the save directory is packed into an
    /// archive on the other drive.
    Archive,
    /// To the internal drive: the archive is unpacked into a save
    /// directory.
    Extract,
    /// Between two other drives: the archive is copied as it is.
    Transfer,
}

/// What is removed when a save is deleted.
#[derive(Clone, Copy, Debug, PartialEq, Eq, Structural)]
pub enum DeleteKind {
    /// The save directory of the internal drive.
    Directory,
    /// The archive of another drive.
    Archive,
}

/// The text of the error for a save that is not on its drive.
pub open spec fn missing_save_text(cart_id: Seq<char>, drive: Seq<char>) -> Seq<char> {
    "Save file for "@ + cart_id + " does not exist on '"@ + drive + "' drive"@
}

/// The text of the error for a save that is already on the other drive.
pub open spec fn existing_save_text(cart_id: Seq<char>, drive: Seq<char>) -> Seq<char> {
    "Save file for "@ + cart_id + " already exists on '"@ + drive + "'"@
}

/// The text of the error for a save that is not on its drive.
fn missing_save(cart_id: &str, drive: &str) -> (r: String)
    ensures
        r@ == missing_save_text(cart_id@, drive@),
{
    let mut text = concat2("Save file for ", cart_id);
    text.append(" does not exist on '");
    text.append(drive);
    text.append("' drive");
    text
}

/// Decides how a save is copied, or why it is not: not onto its own
/// drive, not where there is none, and not over a save that is there.
/// `source_exists` and `destination_exists` say whether a save of the
/// cartridge, as directory or as archive, is on the two drives.
pub fn plan_copy(cart_id: &str, from_drive: &str, to_drive: &str, source_exists: bool, destination_exists: bool) -> (r:
    Result<CopyKind, String>)
    ensures
        match r {
            Ok(kind) => {
                &&& from_drive@ != to_drive@
                &&& source_exists
                &&& !destination_exists
                &&& kind == if from_drive@ == "internal"@ {
                    CopyKind::Archive
                } else if to_drive@ == "internal"@ {
                    CopyKind::Extract
                } else {
                    CopyKind::Transfer
                }
            },
            Err(message) => if from_drive@ == to_drive@ {
                message@ == "Cannot copy to same location"@
            } else if !source_exists {
                message@ == missing_save_text(cart_id@, from_drive@)
            } else {
                destination_exists && message@ == existing_save_text(cart_id@, to_drive@)
            },
        },
{
    if same_text(from_drive, to_drive) {
        Err(owned("Cannot copy to same location"))
    } else if !source_exists {
        Err(missing_save(cart_id, from_drive))
    } else if destination_exists {
        let mut text = concat2("Save file for ", cart_id);
        text.append(" already exists on '");
        text.append(to_drive);
        text.append("'");
        Err(text)
    } else if same_text(from_drive, "internal") {
        Ok(CopyKind::Archive)
    } else if same_text(to_drive, "internal") {
        Ok(CopyKind::Extract)
    } else {
        Ok(CopyKind::Transfer)
    }
}

/// Decides what is removed when a save is deleted, or why nothing is.
pub fn plan_delete(cart_id: &str, from_drive: &str, save_exists: bool) -> (r: Result<DeleteKind, String>)
    ensures
        match r {
            Ok(kind) => save_exists && kind == if from_drive@ == "internal"@ {
                DeleteKind::Directory
            } else {
                DeleteKind::Archive
            },
            Err(message) => !save_exists && message@ == missing_save_text(cart_id@, from_drive@),
        },
{
    if !save_exists {
        Err(missing_save(cart_id, from_drive))
    } else if same_text(from_drive, "internal") {
        Ok(DeleteKind::Directory)
    } else {
        Ok(DeleteKind::Archive)
    }
}

/// The name of the archive of a save.
pub fn save_archive_name(cart_id: &str) -> (r: String)
    ensures
        r@ == cart_id@ + ".tar"@,
{
    concat2(cart_id, ".tar")
}

/// How far a copy has come, in percent, cut down to 16 bits.
pub open spec fn progress_percent(current: u64, total: u64) -> u16 {
    ((current * 100 / (total as int)) % 0x1_0000) as u16
}

/// How far a copy has come, in percent.
pub fn copy_progress(current: u64, total: u64) -> (r: u16)
    requires
        total > 0,
    ensures
        r == progress_percent(current, total),
        current <= total ==> r <= 100,
{
    let scaled: u128 = (current as u128) * 100;
    let percent: u128 = scaled / (total as u128);
    assert(current <= total ==> percent <= 100) by (nonlinear_arith)
        requires
            total > 0,
            percent == (current * 100) / (total as int),
    ;
    let low: u128 = percent % 0x1_0000;
    low as u16
}

/// The files of an embedded save: where it lies beside the cartridge
/// file, and the name under which it is kept for its player.
pub struct EmbeddedSave {
    pub source_path: String,
    pub file_name: String,
    /// The save slot of the player.
    pub slot: String,
}

/// The text of the error for a player that is not one of the four.
pub open spec fn invalid_player_index_text(player: u8) -> Seq<char> {
    "Invalid player index: "@ + decimal(player as nat)
}

/// The text of the error for a player without embedded save.
pub open spec fn no_embedded_save_text(player: u8) -> Seq<char> {
    "No embedded save specified for player "@ + decimal(player as nat)
}

/// Finds the save that a cartridge brings for a player, one to four: the
/// file that the cartridge names, beside the cartridge file, to be kept
/// as `<rom>_p<player>.sav`.
pub fn plan_embedded_save(cart_info: &CartInfo, kzi_path: &str, rom_name: &str, player: u8) -> (r: Result<
    EmbeddedSave,
    String,
>)
    ensures
        match r {
            Ok(save) => {
                &&& 1 <= player <= 4
                &&& cart_info.player_saves@[player - 1] matches Some(key)
                &&& save.source_path@ == (match path_parent(kzi_path@) {
                    Some(dir) => path_join(dir, key@),
                    None => key@,
                })
                &&& save.file_name@ == rom_name@ + "_p"@ + decimal(player as nat) + ".sav"@
                &&& save.slot@ == "p"@ + decimal(player as nat)
            },
            Err(message) => if player == 0 || player > 4 {
                message@ == invalid_player_index_text(player)
            } else {
                cart_info.player_saves@[player - 1] is None && message@ == no_embedded_save_text(player)
            },
        },
{
    let number = number_text(player as u64);
    if player == 0 || player > 4 {
        return Err(concat2("Invalid player index: ", number.as_str()));
    }
    let index: usize = (player - 1) as usize;
    match &cart_info.player_saves[index] {
        Some(key) => {
            let source_path = match parent(kzi_path) {
                Some(dir) => join(dir.as_str(), key.as_str()),
                None => key.clone(),
            };
            let mut file_name = concat2(rom_name, "_p");
            file_name.append(number.as_str());
            file_name.append(".sav");
            Ok(EmbeddedSave { source_path, file_name, slot: concat2("p", number.as_str()) })
        },
        None => Err(concat2("No embedded save specified for player ", number.as_str())),
    }
}

} // verus!
