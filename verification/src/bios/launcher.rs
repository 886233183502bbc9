//! Starting the overlay daemon before a game, and the order of the steps
//! of a launch.

use vstd::prelude::*;
use crate::bios::cart::CartInfo;
use crate::client::ProbeOutcome;
use crate::ipc::OverlayMessage;
use crate::paths::{join, path_join};
use crate::text::{concat2, contains_text, is_substring, owned};

verus! {

/// The overlay binary as it is installed.
pub const OVERLAY_BINARY: &'static str = "/usr/bin/kazeta-overlay";

/// Where the output of the overlay daemon goes.
pub const OVERLAY_LOG: &'static str = "/tmp/kazeta-overlay.log";

/// The overlay binary below the root of a source tree.
pub const OVERLAY_DEV_BINARY: &'static str = "overlay/target/debug/kazeta-overlay";

/// Time given to the daemon to come up before its socket is looked for,
/// in milliseconds.
pub const SETTLE_MS: u64 = 1000;

/// Time between two looks for the socket, in milliseconds.
pub const RETRY_MS: u64 = 500;

/// Number of looks for the socket.
pub const CHECKS: u8 = 3;

/// File whose existence asks the session supervisor for a restart.
pub const RESTART_SENTINEL: &'static str = "/var/kazeta/state/.RESTART_SESSION_SENTINEL";

/// How the start of the overlay daemon ended.
#[derive(Clone, Copy, Debug, PartialEq, Eq, Structural)]
pub enum StartOutcome {
    /// A daemon was there and answered; none was started.
    Reused,
    /// A daemon was started and its socket appeared.
    Started,
    /// A daemon was started but its socket did not appear in time. The
    /// launch goes on: the overlay may yet come up.
    Unconfirmed,
    /// No overlay binary was found.
    BinaryNotFound,
    /// The binary could not be started.
    SpawnFailed,
}

/// Where the start of the overlay daemon stands.
#[derive(Clone, Copy, Debug, PartialEq, Eq, Structural)]
pub enum LauncherState {
    /// The socket is being probed.
    Probing,
    /// A stale socket file is being removed.
    RemovingStale,
    /// The binary is being looked for.
    Locating,
    /// The daemon is being started.
    Spawning,
    /// The daemon is given time; so many looks for its socket were made.
    Waiting(u8),
    /// The socket is being looked for, for the time of this number,
    /// counted from zero.
    Checking(u8),
    /// The start has ended.
    Done(StartOutcome),
}

/// What the process found after doing what the launcher asked.
#[derive(Clone, Copy, Debug, PartialEq, Eq, Structural)]
pub enum LauncherEvent {
    /// The socket was probed.
    Probed(ProbeOutcome),
    /// The stale socket file was removed, or could not be.
    StaleRemoved,
    /// The binary was looked for; it exists or not.
    Located(bool),
    /// The daemon was started, or could not be.
    Spawned(bool),
    /// The time asked for has passed.
    Waited,
    /// The daemon was looked for; it is available or not.
    Checked(bool),
}

/// What the launcher asks of the process.
#[derive(Clone, Copy, Debug, PartialEq, Eq, Structural)]
pub enum LauncherAction {
    Probe,
    RemoveSocket,
    LocateBinary,
    Spawn,
    /// Let so many milliseconds pass.
    Wait(u64),
    CheckAvailable,
    /// Nothing more: the start has ended so.
    Finish(StartOutcome),
}

/// What the launcher asks for in a state.
pub open spec fn pending(state: LauncherState) -> LauncherAction {
    match state {
        LauncherState::Probing => LauncherAction::Probe,
        LauncherState::RemovingStale => LauncherAction::RemoveSocket,
        LauncherState::Locating => LauncherAction::LocateBinary,
        LauncherState::Spawning => LauncherAction::Spawn,
        LauncherState::Waiting(n) => LauncherAction::Wait(
            if n == 0 {
                SETTLE_MS
            } else {
                RETRY_MS
            },
        ),
        LauncherState::Checking(_) => LauncherAction::CheckAvailable,
        LauncherState::Done(outcome) => LauncherAction::Finish(outcome),
    }
}

/// The state that an event leads to. A daemon that answers is used as it
/// is. A socket that does not answer is stale and is removed first. The
/// daemon is then started from its binary and given a second; its socket
/// is looked for three times, half a second apart. If it does not appear
/// the start ends unconfirmed, which is no failure. An event that the
/// state does not wait for changes nothing.
pub open spec fn next_state(state: LauncherState, event: LauncherEvent) -> LauncherState {
    match (state, event) {
        (LauncherState::Probing, LauncherEvent::Probed(ProbeOutcome::Alive)) => LauncherState::Done(
            StartOutcome::Reused,
        ),
        (LauncherState::Probing, LauncherEvent::Probed(ProbeOutcome::Missing)) => LauncherState::Locating,
        (LauncherState::Probing, LauncherEvent::Probed(_)) => LauncherState::RemovingStale,
        (LauncherState::RemovingStale, LauncherEvent::StaleRemoved) => LauncherState::Locating,
        (LauncherState::Locating, LauncherEvent::Located(true)) => LauncherState::Spawning,
        (LauncherState::Locating, LauncherEvent::Located(false)) => LauncherState::Done(
            StartOutcome::BinaryNotFound,
        ),
        (LauncherState::Spawning, LauncherEvent::Spawned(true)) => LauncherState::Waiting(0),
        (LauncherState::Spawning, LauncherEvent::Spawned(false)) => LauncherState::Done(StartOutcome::SpawnFailed),
        (LauncherState::Waiting(n), LauncherEvent::Waited) => LauncherState::Checking(n),
        (LauncherState::Checking(_), LauncherEvent::Checked(true)) => LauncherState::Done(StartOutcome::Started),
        (LauncherState::Checking(n), LauncherEvent::Checked(false)) => if n + 1 < CHECKS {
            LauncherState::Waiting((n + 1) as u8)
        } else {
            LauncherState::Done(StartOutcome::Unconfirmed)
        },
        _ => state,
    }
}

/// Takes what the process found and says where the start stands now and
/// what is to be done next.
pub fn launcher_step(state: LauncherState, event: LauncherEvent) -> (r: (LauncherState, LauncherAction))
    ensures
        r.0 == next_state(state, event),
        r.1 == pending(r.0),
{
    let next = match (state, event) {
        (LauncherState::Probing, LauncherEvent::Probed(ProbeOutcome::Alive)) => LauncherState::Done(
            StartOutcome::Reused,
        ),
        (LauncherState::Probing, LauncherEvent::Probed(ProbeOutcome::Missing)) => LauncherState::Locating,
        (LauncherState::Probing, LauncherEvent::Probed(_)) => LauncherState::RemovingStale,
        (LauncherState::RemovingStale, LauncherEvent::StaleRemoved) => LauncherState::Locating,
        (LauncherState::Locating, LauncherEvent::Located(true)) => LauncherState::Spawning,
        (LauncherState::Locating, LauncherEvent::Located(false)) => LauncherState::Done(
            StartOutcome::BinaryNotFound,
        ),
        (LauncherState::Spawning, LauncherEvent::Spawned(true)) => LauncherState::Waiting(0),
        (LauncherState::Spawning, LauncherEvent::Spawned(false)) => LauncherState::Done(StartOutcome::SpawnFailed),
        (LauncherState::Waiting(n), LauncherEvent::Waited) => LauncherState::Checking(n),
        (LauncherState::Checking(_), LauncherEvent::Checked(true)) => LauncherState::Done(StartOutcome::Started),
        (LauncherState::Checking(n), LauncherEvent::Checked(false)) => {
            if n < CHECKS - 1 {
                LauncherState::Waiting(n + 1)
            } else {
                LauncherState::Done(StartOutcome::Unconfirmed)
            }
        },
        _ => state,
    };
    (next, action_for(next))
}

/// What the launcher asks for in a state.
pub fn action_for(state: LauncherState) -> (r: LauncherAction)
    ensures
        r == pending(state),
{
    match state {
        LauncherState::Probing => LauncherAction::Probe,
        LauncherState::RemovingStale => LauncherAction::RemoveSocket,
        LauncherState::Locating => LauncherAction::LocateBinary,
        LauncherState::Spawning => LauncherAction::Spawn,
        LauncherState::Waiting(n) => LauncherAction::Wait(
            if n == 0 {
                SETTLE_MS
            } else {
                RETRY_MS
            },
        ),
        LauncherState::Checking(_) => LauncherAction::CheckAvailable,
        LauncherState::Done(outcome) => LauncherAction::Finish(outcome),
    }
}

/// Whether the launch of a game goes on after the start of the overlay
/// ended so. It always does: the overlay is never needed for a launch.
pub fn launch_goes_on(outcome: StartOutcome) -> (r: bool)
    ensures
        r,
{
    match outcome {
        StartOutcome::Reused => true,
        StartOutcome::Started => true,
        StartOutcome::Unconfirmed => true,
        StartOutcome::BinaryNotFound => true,
        StartOutcome::SpawnFailed => true,
    }
}

/// Whether the start counts as a success for the one who asked for it: it
/// does unless no binary was found or it could not be started.
pub fn start_succeeded(outcome: StartOutcome) -> (r: bool)
    ensures
        r == (outcome != StartOutcome::BinaryNotFound && outcome != StartOutcome::SpawnFailed),
{
    match outcome {
        StartOutcome::BinaryNotFound => false,
        StartOutcome::SpawnFailed => false,
        _ => true,
    }
}

/// A daemon whose socket never appears is waited for two seconds in all:
/// one second after its start and half a second before each of the two
/// further looks. The start then ends unconfirmed, which lets the launch
/// go on.
pub proof fn lemma_socket_wait_is_two_seconds()
    ensures
        ({
            let t1 = next_state(LauncherState::Spawning, LauncherEvent::Spawned(true));
            let t2 = next_state(t1, LauncherEvent::Waited);
            let t3 = next_state(t2, LauncherEvent::Checked(false));
            let t4 = next_state(t3, LauncherEvent::Waited);
            let t5 = next_state(t4, LauncherEvent::Checked(false));
            let t6 = next_state(t5, LauncherEvent::Waited);
            let t7 = next_state(t6, LauncherEvent::Checked(false));
            &&& pending(t1) == LauncherAction::Wait(1000)
            &&& pending(t2) == LauncherAction::CheckAvailable
            &&& pending(t3) == LauncherAction::Wait(500)
            &&& pending(t4) == LauncherAction::CheckAvailable
            &&& pending(t5) == LauncherAction::Wait(500)
            &&& pending(t6) == LauncherAction::CheckAvailable
            &&& t7 == LauncherState::Done(StartOutcome::Unconfirmed)
        }),
{
}

/// A probe that finds a live daemon ends the start at once, with nothing
/// removed and nothing started; a probe that finds a socket that does not
/// answer has the file removed before anything else.
pub proof fn lemma_probe_decides(outcome: ProbeOutcome)
    ensures
        outcome == ProbeOutcome::Alive ==> next_state(LauncherState::Probing, LauncherEvent::Probed(outcome))
            == LauncherState::Done(StartOutcome::Reused),
        outcome == ProbeOutcome::ConnectFailed || outcome == ProbeOutcome::WriteFailed ==> pending(
            next_state(LauncherState::Probing, LauncherEvent::Probed(outcome)),
        ) == LauncherAction::RemoveSocket,
        outcome == ProbeOutcome::Missing ==> pending(
            next_state(LauncherState::Probing, LauncherEvent::Probed(outcome)),
        ) == LauncherAction::LocateBinary,
{
}

/// The view of an optional string slice.
pub open spec fn slice_view(o: Option<&str>) -> Option<Seq<char>> {
    match o {
        Some(s) => Some(s@),
        None => None,
    }
}

/// The places at which a file of the source tree is looked for, in
/// order: beside and above the working directory, beside and above the
/// directory of the running program, in the usual checkout below the
/// home directory, and below the root that the environment names.
/// `relative` is the path of the file below the root of the tree.
pub open spec fn tree_candidates(
    relative: Seq<char>,
    exe_dir: Option<Seq<char>>,
    home: Option<Seq<char>>,
    project_root: Option<Seq<char>>,
) -> Seq<Seq<char>> {
    seq!["../"@ + relative, "../../"@ + relative, relative] + (match exe_dir {
        Some(dir) => seq![path_join(dir, "../"@ + relative), path_join(dir, "../../"@ + relative)],
        None => Seq::empty(),
    }) + (match home {
        Some(dir) => seq![path_join(dir, "sandbox/kazeta-plus/"@ + relative)],
        None => Seq::empty(),
    }) + (match project_root {
        Some(dir) => seq![path_join(dir, relative)],
        None => Seq::empty(),
    })
}

/// The places at which a file of the source tree is looked for, in order.
pub fn source_tree_candidates(
    relative: &str,
    exe_dir: Option<&str>,
    home: Option<&str>,
    project_root: Option<&str>,
) -> (r: Vec<String>)
    ensures
        crate::text::views(r@) == tree_candidates(
            relative@,
            slice_view(exe_dir),
            slice_view(home),
            slice_view(project_root),
        ),
{
    let above = concat2("../", relative);
    let further = concat2("../../", relative);
    let mut out: Vec<String> = Vec::new();
    match exe_dir {
        Some(dir) => {
            out.push(join(dir, above.as_str()));
            out.push(join(dir, further.as_str()));
        },
        None => {},
    }
    match home {
        Some(dir) => {
            out.push(join(dir, concat2("sandbox/kazeta-plus/", relative).as_str()));
        },
        None => {},
    }
    match project_root {
        Some(dir) => {
            out.push(join(dir, relative));
        },
        None => {},
    }
    let mut all: Vec<String> = Vec::new();
    all.push(above);
    all.push(further);
    all.push(owned(relative));
    let ghost head = all@;
    let ghost tail = out@;
    all.append(&mut out);
    assert(crate::text::views(all@) =~= tree_candidates(
        relative@,
        slice_view(exe_dir),
        slice_view(home),
        slice_view(project_root),
    )) by {
        assert(all@ == head + tail);
    }
    all
}

/// The places at which the overlay binary is looked for, in order. The
/// installed system looks nowhere but at [`OVERLAY_BINARY`], which is the
/// last resort in development too and therefore not in this list.
pub open spec fn binary_candidates(
    dev_mode: bool,
    exe_dir: Option<Seq<char>>,
    home: Option<Seq<char>>,
    project_root: Option<Seq<char>>,
) -> Seq<Seq<char>> {
    if !dev_mode {
        Seq::empty()
    } else {
        tree_candidates(OVERLAY_DEV_BINARY@, exe_dir, home, project_root)
    }
}

/// The places at which the overlay binary is looked for, in order.
pub fn overlay_binary_candidates(
    dev_mode: bool,
    exe_dir: Option<&str>,
    home: Option<&str>,
    project_root: Option<&str>,
) -> (r: Vec<String>)
    ensures
        crate::text::views(r@) == binary_candidates(
            dev_mode,
            slice_view(exe_dir),
            slice_view(home),
            slice_view(project_root),
        ),
{
    if dev_mode {
        source_tree_candidates(OVERLAY_DEV_BINARY, exe_dir, home, project_root)
    } else {
        let none: Vec<String> = Vec::new();
        assert(crate::text::views(none@) =~= Seq::<Seq<char>>::empty());
        none
    }
}

/// The place of the first of the first `n` candidates that exists; where
/// none of them does, or `exists` says nothing of it, the smaller of `n`
/// and the length of `exists`.
pub open spec fn first_existing(exists: Seq<bool>, n: int) -> int
    decreases exists.len(),
{
    if exists.len() == 0 || n <= 0 {
        0
    } else if exists[0] {
        0
    } else {
        1 + first_existing(exists.drop_first(), n - 1)
    }
}

/// The first of the candidates that exists, or the fallback where none
/// does. `exists` says of each candidate, in order, whether a file is
/// there; a candidate of which it says nothing counts as missing.
pub fn choose_existing(candidates: &Vec<String>, exists: &Vec<bool>, fallback: &str) -> (r: String)
    ensures
        ({
            let at = first_existing(exists@, candidates@.len() as int);
            r@ == if at < candidates@.len() && at < exists@.len() {
                candidates@[at]@
            } else {
                fallback@
            }
        }),
{
    let ghost n = candidates@.len() as int;
    let mut i: usize = 0;
    proof {
        assert(exists@.skip(0) == exists@);
    }
    while i < candidates.len() && i < exists.len()
        invariant
            i <= candidates.len(),
            i <= exists.len(),
            n == candidates@.len(),
            first_existing(exists@, n) == i + first_existing(exists@.skip(i as int), n - i),
        decreases candidates.len() - i,
    {
        if exists[i] {
            assert(exists@.skip(i as int)[0]);
            return candidates[i].clone();
        }
        proof {
            assert(!exists@.skip(i as int)[0]);
            assert(exists@.skip(i as int).drop_first() == exists@.skip(i as int + 1));
        }
        i = i + 1;
    }
    owned(fallback)
}

/// The steps of a game launch, in their order.
#[derive(Clone, Copy, Debug, PartialEq, Eq, Structural)]
pub enum LaunchStep {
    /// Probe the overlay daemon and start it if it is not there.
    StartOverlay,
    /// Tell the overlay which game starts.
    NotifyGameStarted,
    /// Start the achievement helper, if there is one.
    SetupAchievements,
    /// Write the file that tells the session which cartridge to run.
    WriteLaunchCommand,
    /// Write the file that asks the session supervisor for a restart.
    WriteRestartSentinel,
    /// Fade out and hand over to the session restart.
    Restart,
    /// The launch is given up: the launch command could not be written.
    Abandoned,
}

/// The step that follows a step of the launch, given whether the step
/// succeeded. Only a launch command that cannot be written stops the
/// launch; every other failure is passed over.
pub open spec fn step_after(step: LaunchStep, succeeded: bool) -> LaunchStep {
    match step {
        LaunchStep::StartOverlay => LaunchStep::NotifyGameStarted,
        LaunchStep::NotifyGameStarted => LaunchStep::SetupAchievements,
        LaunchStep::SetupAchievements => LaunchStep::WriteLaunchCommand,
        LaunchStep::WriteLaunchCommand => if succeeded {
            LaunchStep::WriteRestartSentinel
        } else {
            LaunchStep::Abandoned
        },
        LaunchStep::WriteRestartSentinel => LaunchStep::Restart,
        LaunchStep::Restart => LaunchStep::Restart,
        LaunchStep::Abandoned => LaunchStep::Abandoned,
    }
}

/// The step that follows a step of the launch.
pub fn next_launch_step(step: LaunchStep, succeeded: bool) -> (r: LaunchStep)
    ensures
        r == step_after(step, succeeded),
{
    match step {
        LaunchStep::StartOverlay => LaunchStep::NotifyGameStarted,
        LaunchStep::NotifyGameStarted => LaunchStep::SetupAchievements,
        LaunchStep::SetupAchievements => LaunchStep::WriteLaunchCommand,
        LaunchStep::WriteLaunchCommand => {
            if succeeded {
                LaunchStep::WriteRestartSentinel
            } else {
                LaunchStep::Abandoned
            }
        },
        LaunchStep::WriteRestartSentinel => LaunchStep::Restart,
        LaunchStep::Restart => LaunchStep::Restart,
        LaunchStep::Abandoned => LaunchStep::Abandoned,
    }
}

/// Whatever becomes of the overlay, of its notification and of the
/// achievement helper, the launch reaches the writing of the launch
/// command; and no restart is asked for unless that command was written.
pub proof fn lemma_launch_order(a: bool, b: bool, c: bool, written: bool, e: bool)
    ensures
        ({
            let t1 = step_after(LaunchStep::StartOverlay, a);
            let t2 = step_after(t1, b);
            let t3 = step_after(t2, c);
            let t4 = step_after(t3, written);
            let t5 = step_after(t4, e);
            &&& t1 == LaunchStep::NotifyGameStarted
            &&& t2 == LaunchStep::SetupAchievements
            &&& t3 == LaunchStep::WriteLaunchCommand
            &&& written ==> t4 == LaunchStep::WriteRestartSentinel && t5 == LaunchStep::Restart
            &&& !written ==> t4 == LaunchStep::Abandoned && t5 == LaunchStep::Abandoned
        }),
{
}

/// The message that tells the overlay that a game starts: the name is
/// that of the cartridge, or its id where it has none; the runtime is
/// `unknown` where the cartridge names none.
pub fn game_started_message(cart: &CartInfo) -> (r: OverlayMessage)
    ensures
        r matches OverlayMessage::GameStarted { cart_id, game_name, runtime } && cart_id@ == cart.id@
            && game_name@ == (match cart.name {
            Some(n) => n@,
            None => cart.id@,
        }) && runtime@ == (match cart.runtime {
            Some(rt) => rt@,
            None => "unknown"@,
        }),
{
    let game_name = match &cart.name {
        Some(n) => n.clone(),
        None => cart.id.clone(),
    };
    let runtime = match &cart.runtime {
        Some(rt) => rt.clone(),
        None => owned("unknown"),
    };
    OverlayMessage::GameStarted { cart_id: cart.id.clone(), game_name, runtime }
}

/// The message that tells the overlay that a game has stopped.
pub fn game_stopped_message(cart_id: &str) -> (r: OverlayMessage)
    ensures
        r matches OverlayMessage::GameStopped { cart_id: c } && c@ == cart_id@,
{
    OverlayMessage::GameStopped { cart_id: owned(cart_id) }
}

/// Whether the status that the achievement helper prints says that
/// achievements are enabled.
pub fn achievements_enabled(status: &str) -> (r: bool)
    ensures
        r == (is_substring(status@, "\"enabled\":true"@) || is_substring(status@, "\"enabled\": true"@)),
{
    contains_text(status, "\"enabled\":true") || contains_text(status, "\"enabled\": true")
}

} // verus!
