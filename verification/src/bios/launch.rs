//! The command that starts a game, and the files through which a launch
//! is handed to the session.

use vstd::prelude::*;
use crate::bios::cart::{CartInfo, MgbaLaunchOptions};
use crate::paths::{extension, join, parent, path_extension, path_join, path_parent};
use crate::text::{
    ascii_case_equal, concat2, decimal, join as join_texts, joined, number_text, owned, same_text,
    same_text_ignoring_ascii_case, views,
};

verus! {

/// The script that runs a cartridge on the installed system.
pub const KAZETA_WRAPPER: &'static str = "/usr/bin/kazeta";

/// Directory of the state files on the installed system.
pub const STATE_DIR: &'static str = "/var/kazeta/state";

/// File name of the launch command.
pub const LAUNCH_CMD_FILE: &'static str = ".LAUNCH_CMD";

/// The script that runs a Game Boy Advance ROM, below the root of a
/// source tree.
pub const VBA_WRAPPER: &'static str = "runtimes/gba/vba-run-wrapper.sh";

/// A process to start: program, arguments, additions to the environment
/// and working directory.
#[derive(Debug)]
pub struct LaunchSpec {
    pub program: String,
    pub args: Vec<String>,
    pub envs: Vec<(String, String)>,
    /// The working directory; that of the front-end where none is given.
    pub current_dir: Option<String>,
}

/// The variables of an environment, as texts.
pub open spec fn env_views(envs: Seq<(String, String)>) -> Seq<(Seq<char>, Seq<char>)> {
    Seq::new(envs.len(), |i: int| (envs[i].0@, envs[i].1@))
}

/// The line of the launch command file: the wrapper script with the path
/// of the cartridge in single quotes.
pub open spec fn launch_command_text(kzi_path: Seq<char>) -> Seq<char> {
    KAZETA_WRAPPER@ + " '"@ + kzi_path + "'"@
}

/// The line of the launch command file for a cartridge.
pub fn launch_command(kzi_path: &str) -> (r: String)
    ensures
        r@ == launch_command_text(kzi_path@),
{
    let mut line = concat2(KAZETA_WRAPPER, " '");
    line.append(kzi_path);
    line.append("'");
    line
}

/// The directory of the state files: below the user's data directory in
/// development, the system's on the installed system.
pub fn state_dir(dev_mode: bool, user_data_dir: &str) -> (r: String)
    ensures
        r@ == if dev_mode {
            path_join(user_data_dir@, "state"@)
        } else {
            STATE_DIR@
        },
{
    if dev_mode {
        join(user_data_dir, "state")
    } else {
        owned(STATE_DIR)
    }
}

/// The path of the launch command file.
pub fn launch_command_path(dev_mode: bool, user_data_dir: &str) -> (r: String)
    ensures
        r@ == path_join(
            if dev_mode {
                path_join(user_data_dir@, "state"@)
            } else {
                STATE_DIR@
            },
            LAUNCH_CMD_FILE@,
        ),
{
    let dir = state_dir(dev_mode, user_data_dir);
    join(dir.as_str(), LAUNCH_CMD_FILE)
}

/// Whether a cartridge file is a compressed package, by its extension
/// `kzp` in any case.
pub open spec fn is_package(kzi_path: Seq<char>) -> bool {
    match path_extension(kzi_path) {
        Some(ext) => ascii_case_equal(ext, "kzp"@),
        None => false,
    }
}

/// Whether a cartridge file is a compressed package.
pub fn is_compressed_package(kzi_path: &str) -> (r: bool)
    ensures
        r == is_package(kzi_path@),
{
    match extension(kzi_path) {
        Some(ext) => same_text_ignoring_ascii_case(ext.as_str(), "kzp"),
        None => false,
    }
}

/// The directory of a cartridge file; `.` for a path without parent.
pub open spec fn game_root(kzi_path: Seq<char>) -> Seq<char> {
    match path_parent(kzi_path) {
        Some(dir) => dir,
        None => "."@,
    }
}

/// The limits that a cartridge sets on multiplayer games, as variables
/// with the prefix of the emulator.
pub open spec fn limits_env(prefix: Seq<char>, cart: CartInfo) -> Seq<(Seq<char>, Seq<char>)> {
    (match cart.max_players {
        Some(m) => seq![(prefix + "_MAX_PLAYERS"@, decimal(m as nat))],
        None => Seq::empty(),
    }) + (match cart.multiplayer_type {
        Some(t) => seq![(prefix + "_MULTIPLAYER_TYPE"@, t@)],
        None => Seq::empty(),
    })
}

/// The variables that tell an emulator's wrapper how many play and from
/// which save slots. With options, more than one player gives a
/// multiplayer game over the slots of all players, and one player the
/// first slot, if there is one. Without options, a cartridge that
/// supports multiplayer gives a game for two.
pub open spec fn emulator_env(
    prefix: Seq<char>,
    cart: CartInfo,
    options: Option<MgbaLaunchOptions>,
) -> Seq<(Seq<char>, Seq<char>)> {
    match options {
        Some(o) => (if o.player_count > 1 {
            seq![
                (prefix + "_MULTIPLAYER"@, "true"@),
                (prefix + "_PLAYERS"@, decimal(o.player_count as nat)),
                (prefix + "_SAVE_SLOTS"@, joined(views(o.save_slots@), ","@)),
            ]
        } else if o.save_slots@.len() > 0 {
            seq![(prefix + "_SAVE_SLOT"@, o.save_slots@[0]@)]
        } else {
            Seq::empty()
        }) + limits_env(prefix, cart),
        None => if cart.multiplayer_support == Some(true) {
            seq![(prefix + "_MULTIPLAYER"@, "true"@)] + limits_env(prefix, cart) + seq![
                (prefix + "_PLAYERS"@, "2"@),
            ]
        } else {
            Seq::empty()
        },
    }
}

/// The variables for a game that is started without an emulator's
/// wrapper: none unless the cartridge supports multiplayer.
pub open spec fn plain_env(cart: CartInfo, options: Option<MgbaLaunchOptions>) -> Seq<(Seq<char>, Seq<char>)> {
    if cart.multiplayer_support == Some(true) {
        seq![("MGBA"@ + "_MULTIPLAYER"@, "true"@)] + limits_env("MGBA"@, cart) + (match options {
            Some(o) => seq![("MGBA"@ + "_PLAYERS"@, decimal(o.player_count as nat))] + (if o.save_slots@.len()
                > 0 {
                seq![("MGBA"@ + "_SAVE_SLOTS"@, joined(views(o.save_slots@), ","@))]
            } else {
                Seq::empty()
            }),
            None => seq![("MGBA"@ + "_PLAYERS"@, "2"@)],
        })
    } else {
        Seq::empty()
    }
}

/// One variable: the prefix of the emulator, a name, and a value.
fn variable(prefix: &str, name: &str, value: String) -> (r: (String, String))
    ensures
        r.0@ == prefix@ + name@,
        r.1 == value,
{
    (concat2(prefix, name), value)
}

/// Appends `more` to `out`.
fn extend(out: &mut Vec<(String, String)>, more: Vec<(String, String)>)
    ensures
        env_views(final(out)@) == env_views(old(out)@) + env_views(more@),
{
    let ghost added = more@;
    let mut more = more;
    out.append(&mut more);
    assert(env_views(out@) =~= env_views(old(out)@) + env_views(added));
}

/// One variable as a list.
fn one(prefix: &str, name: &str, value: String) -> (r: Vec<(String, String)>)
    ensures
        env_views(r@) == seq![(prefix@ + name@, value@)],
{
    let mut v: Vec<(String, String)> = Vec::new();
    v.push(variable(prefix, name, value));
    assert(env_views(v@) =~= seq![(prefix@ + name@, value@)]);
    v
}

/// No variable.
fn none() -> (r: Vec<(String, String)>)
    ensures
        env_views(r@) == Seq::<(Seq<char>, Seq<char>)>::empty(),
{
    let v: Vec<(String, String)> = Vec::new();
    assert(env_views(v@) =~= Seq::<(Seq<char>, Seq<char>)>::empty());
    v
}

/// The limits that a cartridge sets on multiplayer games.
fn limits(prefix: &str, cart: &CartInfo) -> (r: Vec<(String, String)>)
    ensures
        env_views(r@) == limits_env(prefix@, *cart),
{
    let mut out = match cart.max_players {
        Some(m) => one(prefix, "_MAX_PLAYERS", number_text(m as u64)),
        None => none(),
    };
    let second = match &cart.multiplayer_type {
        Some(t) => one(prefix, "_MULTIPLAYER_TYPE", t.clone()),
        None => none(),
    };
    extend(&mut out, second);
    out
}

/// The variables that tell an emulator's wrapper how many play.
pub fn emulator_variables(prefix: &str, cart: &CartInfo, options: Option<&MgbaLaunchOptions>) -> (r: Vec<
    (String, String),
>)
    ensures
        env_views(r@) == emulator_env(
            prefix@,
            *cart,
            match options {
                Some(o) => Some(*o),
                None => None,
            },
        ),
{
    match options {
        Some(o) => {
            let mut out = if o.player_count > 1 {
                let mut v = one(prefix, "_MULTIPLAYER", owned("true"));
                extend(&mut v, one(prefix, "_PLAYERS", number_text(o.player_count as u64)));
                extend(&mut v, one(prefix, "_SAVE_SLOTS", join_texts(&o.save_slots, ",")));
                assert(env_views(v@) =~= seq![
                    (prefix@ + "_MULTIPLAYER"@, "true"@),
                    (prefix@ + "_PLAYERS"@, decimal(o.player_count as nat)),
                    (prefix@ + "_SAVE_SLOTS"@, joined(views(o.save_slots@), ","@)),
                ]);
                v
            } else if o.save_slots.len() > 0 {
                one(prefix, "_SAVE_SLOT", o.save_slots[0].clone())
            } else {
                none()
            };
            extend(&mut out, limits(prefix, cart));
            out
        },
        None => {
            if is_true(cart.multiplayer_support) {
                let mut out = one(prefix, "_MULTIPLAYER", owned("true"));
                extend(&mut out, limits(prefix, cart));
                extend(&mut out, one(prefix, "_PLAYERS", owned("2")));
                out
            } else {
                none()
            }
        },
    }
}

/// Whether an optional flag is set.
fn is_true(flag: Option<bool>) -> (r: bool)
    ensures
        r == (flag == Some(true)),
{
    match flag {
        Some(b) => b,
        None => false,
    }
}

/// The variables for a game that is started without an emulator's
/// wrapper.
pub fn plain_variables(cart: &CartInfo, options: Option<&MgbaLaunchOptions>) -> (r: Vec<(String, String)>)
    ensures
        env_views(r@) == plain_env(
            *cart,
            match options {
                Some(o) => Some(*o),
                None => None,
            },
        ),
{
    if is_true(cart.multiplayer_support) {
        let mut out = one("MGBA", "_MULTIPLAYER", owned("true"));
        extend(&mut out, limits("MGBA", cart));
        let players = match options {
            Some(o) => {
                let mut v = one("MGBA", "_PLAYERS", number_text(o.player_count as u64));
                let slots = if o.save_slots.len() > 0 {
                    one("MGBA", "_SAVE_SLOTS", join_texts(&o.save_slots, ","))
                } else {
                    none()
                };
                extend(&mut v, slots);
                v
            },
            None => one("MGBA", "_PLAYERS", owned("2")),
        };
        extend(&mut out, players);
        out
    } else {
        none()
    }
}

/// How a cartridge is started.
#[derive(Clone, Copy, Debug, PartialEq, Eq, Structural)]
pub enum LaunchKind {
    /// A compressed package, handed to the wrapper script.
    Package,
    /// A Game Boy Advance ROM, run by the script of the source tree.
    VbaDev,
    /// A Game Boy Advance ROM, handed to the wrapper script.
    VbaInstalled,
    /// A Windows program, run by Wine.
    Windows,
    /// Anything else, run by the shell.
    Shell,
}

/// How a cartridge is started: a package by the wrapper script whatever
/// its runtime; else by its runtime, which is `linux` where none is
/// named.
pub open spec fn launch_kind(cart: CartInfo, kzi_path: Seq<char>, dev_mode: bool) -> LaunchKind {
    if is_package(kzi_path) {
        LaunchKind::Package
    } else {
        match cart.runtime {
            Some(rt) => if rt@ == "vba-m"@ {
                if dev_mode {
                    LaunchKind::VbaDev
                } else {
                    LaunchKind::VbaInstalled
                }
            } else if rt@ == "windows"@ {
                LaunchKind::Windows
            } else {
                LaunchKind::Shell
            },
            None => LaunchKind::Shell,
        }
    }
}

/// How a cartridge is started.
pub fn classify_launch(cart: &CartInfo, kzi_path: &str, dev_mode: bool) -> (r: LaunchKind)
    ensures
        r == launch_kind(*cart, kzi_path@, dev_mode),
{
    if is_compressed_package(kzi_path) {
        LaunchKind::Package
    } else {
        match &cart.runtime {
            Some(rt) => {
                if same_text(rt.as_str(), "vba-m") {
                    if dev_mode {
                        LaunchKind::VbaDev
                    } else {
                        LaunchKind::VbaInstalled
                    }
                } else if same_text(rt.as_str(), "windows") {
                    LaunchKind::Windows
                } else {
                    LaunchKind::Shell
                }
            },
            None => LaunchKind::Shell,
        }
    }
}

/// The program that starts a cartridge.
pub open spec fn launch_program(kind: LaunchKind) -> Seq<char> {
    match kind {
        LaunchKind::Package => KAZETA_WRAPPER@,
        LaunchKind::VbaDev => "bash"@,
        LaunchKind::VbaInstalled => KAZETA_WRAPPER@,
        LaunchKind::Windows => "wine"@,
        LaunchKind::Shell => "sh"@,
    }
}

/// The arguments of the program that starts a cartridge.
pub open spec fn launch_args(
    kind: LaunchKind,
    cart: CartInfo,
    kzi_path: Seq<char>,
    wrapper_path: Seq<char>,
) -> Seq<Seq<char>> {
    match kind {
        LaunchKind::Package => seq![kzi_path],
        LaunchKind::VbaDev => seq![wrapper_path, path_join(game_root(kzi_path), cart.exec_cmd@), cart.id@],
        LaunchKind::VbaInstalled => seq![kzi_path],
        LaunchKind::Windows => seq![cart.exec_cmd@],
        LaunchKind::Shell => seq!["-c"@, cart.exec_cmd@],
    }
}

/// The working directory of the program that starts a cartridge: the
/// directory of the cartridge, except where the wrapper script finds its
/// own way.
pub open spec fn launch_dir(kind: LaunchKind, kzi_path: Seq<char>) -> Option<Seq<char>> {
    match kind {
        LaunchKind::Package => None,
        LaunchKind::VbaInstalled => None,
        _ => Some(game_root(kzi_path)),
    }
}

/// The additions to the environment of the program that starts a
/// cartridge.
pub open spec fn launch_env(
    kind: LaunchKind,
    cart: CartInfo,
    options: Option<MgbaLaunchOptions>,
) -> Seq<(Seq<char>, Seq<char>)> {
    match kind {
        LaunchKind::Package => emulator_env("MGBA"@, cart, options),
        LaunchKind::VbaDev => emulator_env("VBA"@, cart, options),
        LaunchKind::VbaInstalled => emulator_env("VBA"@, cart, options),
        _ => plain_env(cart, options),
    }
}

/// The process that runs a cartridge, with the number of players and the
/// save slots of `options` if there are any. `wrapper_path` is the script
/// of the source tree that runs Game Boy Advance ROMs; it is used in
/// development only. Output and errors of the process are to be piped.
pub fn launch_game_with_options(
    cart_info: &CartInfo,
    kzi_path: &str,
    mgba_options: Option<&MgbaLaunchOptions>,
    dev_mode: bool,
    wrapper_path: &str,
) -> (r: LaunchSpec)
    ensures
        ({
            let kind = launch_kind(*cart_info, kzi_path@, dev_mode);
            let options = match mgba_options {
                Some(o) => Some(*o),
                None => None,
            };
            &&& r.program@ == launch_program(kind)
            &&& views(r.args@) == launch_args(kind, *cart_info, kzi_path@, wrapper_path@)
            &&& env_views(r.envs@) == launch_env(kind, *cart_info, options)
            &&& crate::text::option_view(r.current_dir) == launch_dir(kind, kzi_path@)
        }),
{
    let kind = classify_launch(cart_info, kzi_path, dev_mode);
    let root = match parent(kzi_path) {
        Some(dir) => dir,
        None => owned("."),
    };
    let mut args: Vec<String> = Vec::new();
    match kind {
        LaunchKind::Package => {
            args.push(owned(kzi_path));
            assert(views(args@) =~= seq![kzi_path@]);
            LaunchSpec {
                program: owned(KAZETA_WRAPPER),
                args,
                envs: emulator_variables("MGBA", cart_info, mgba_options),
                current_dir: None,
            }
        },
        LaunchKind::VbaDev => {
            args.push(owned(wrapper_path));
            args.push(join(root.as_str(), cart_info.exec_cmd.as_str()));
            args.push(cart_info.id.clone());
            assert(views(args@) =~= seq![
                wrapper_path@,
                path_join(game_root(kzi_path@), cart_info.exec_cmd@),
                cart_info.id@,
            ]);
            LaunchSpec {
                program: owned("bash"),
                args,
                envs: emulator_variables("VBA", cart_info, mgba_options),
                current_dir: Some(root),
            }
        },
        LaunchKind::VbaInstalled => {
            args.push(owned(kzi_path));
            assert(views(args@) =~= seq![kzi_path@]);
            LaunchSpec {
                program: owned(KAZETA_WRAPPER),
                args,
                envs: emulator_variables("VBA", cart_info, mgba_options),
                current_dir: None,
            }
        },
        LaunchKind::Windows => {
            args.push(cart_info.exec_cmd.clone());
            assert(views(args@) =~= seq![cart_info.exec_cmd@]);
            LaunchSpec {
                program: owned("wine"),
                args,
                envs: plain_variables(cart_info, mgba_options),
                current_dir: Some(root),
            }
        },
        LaunchKind::Shell => {
            args.push(owned("-c"));
            args.push(cart_info.exec_cmd.clone());
            assert(views(args@) =~= seq!["-c"@, cart_info.exec_cmd@]);
            LaunchSpec {
                program: owned("sh"),
                args,
                envs: plain_variables(cart_info, mgba_options),
                current_dir: Some(root),
            }
        },
    }
}

/// The process that runs a cartridge for one player with the default save
/// slot.
pub fn launch_game(cart_info: &CartInfo, kzi_path: &str, dev_mode: bool, wrapper_path: &str) -> (r: LaunchSpec)
    ensures
        ({
            let kind = launch_kind(*cart_info, kzi_path@, dev_mode);
            &&& r.program@ == launch_program(kind)
            &&& views(r.args@) == launch_args(kind, *cart_info, kzi_path@, wrapper_path@)
            &&& env_views(r.envs@) == launch_env(kind, *cart_info, None)
            &&& crate::text::option_view(r.current_dir) == launch_dir(kind, kzi_path@)
        }),
{
    launch_game_with_options(cart_info, kzi_path, None, dev_mode, wrapper_path)
}

/// The directory of the saves of a cartridge, below a home directory.
pub fn get_mgba_save_dir(home_dir: &str, cart_id: &str) -> (r: String)
    ensures
        r@ == path_join(path_join(home_dir@, ".local/share/kazeta/saves/default"@), cart_id@),
{
    let base = join(home_dir, ".local/share/kazeta/saves/default");
    join(base.as_str(), cart_id)
}

/// The directory into which a cartridge is unpacked to find its ROM.
pub fn rom_extract_dir(dev_mode: bool, user_data_dir: &str, cart_id: &str) -> (r: String)
    ensures
        r@ == if dev_mode {
            path_join(path_join(user_data_dir@, "kzi-cache"@), cart_id@)
        } else {
            path_join(path_join("/tmp"@, "kazeta-kzi"@), cart_id@)
        },
{
    if dev_mode {
        let cache = join(user_data_dir, "kzi-cache");
        join(cache.as_str(), cart_id)
    } else {
        let base = join("/tmp", "kazeta-kzi");
        join(base.as_str(), cart_id)
    }
}

/// The name of the save file of a player.
pub fn player_save_file(rom_name: &str, player: u8) -> (r: String)
    ensures
        r@ == rom_name@ + "_p"@ + decimal(player as nat) + ".sav"@,
{
    let mut name = concat2(rom_name, "_p");
    name.append(number_text(player as u64).as_str());
    name.append(".sav");
    name
}

} // verus!
