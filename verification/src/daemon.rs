//! The decisions of the hotkey daemon: which key events toggle the
//! overlay, the debounce that all devices share, and which device nodes
//! get a monitor.

use vstd::prelude::*;
use crate::text::{concat3, is_prefix, same_text, starts_with_text};

verus! {

/// Directory of the input device nodes.
pub const INPUT_DIR: &'static str = "/dev/input";

/// Time after a toggle during which no other toggle is sent, in
/// milliseconds.
pub const HOTKEY_DEBOUNCE_MS: u64 = 300;

/// Time given to a new device node to become ready, in milliseconds.
pub const HOTPLUG_SETTLE_MS: u64 = 100;

/// Longest wait for a write to the overlay socket, in milliseconds.
pub const WRITE_TIMEOUT_MS: u64 = 100;

/// Pause of a monitor that found no event waiting, in milliseconds.
pub const IDLE_READ_PAUSE_MS: u64 = 10;

/// The line that asks the overlay to toggle.
pub const TOGGLE_MESSAGE: &'static str = "{\"type\":\"toggle_overlay\"}";

/// Whether a toggle at `now` passes the debounce, given the time of the
/// last toggle that passed: the first always does, a later one only when
/// more than [`HOTKEY_DEBOUNCE_MS`] have gone by.
pub open spec fn can_trigger(last: Option<u64>, now: u64) -> bool {
    match last {
        None => true,
        Some(t) => now > t && now - t > HOTKEY_DEBOUNCE_MS,
    }
}

/// The time of the last toggle that passed, after a toggle was tried at
/// `now`.
pub open spec fn after_try(last: Option<u64>, now: u64) -> Option<u64> {
    if can_trigger(last, now) {
        Some(now)
    } else {
        last
    }
}

/// The time of the last toggle that passed, after toggles were tried at
/// each of `times` in turn.
pub open spec fn after_tries(last: Option<u64>, times: Seq<u64>) -> Option<u64>
    decreases times.len(),
{
    if times.len() == 0 {
        last
    } else {
        after_try(after_tries(last, times.drop_last()), times.last())
    }
}

/// Whether the toggle tried at `times[i]` passes, after those before it.
pub open spec fn fires(last: Option<u64>, times: Seq<u64>, i: int) -> bool {
    can_trigger(after_tries(last, times.take(i)), times[i])
}

/// The times do not run backwards.
pub open spec fn non_decreasing(times: Seq<u64>) -> bool {
    forall|a: int, b: int| 0 <= a <= b < times.len() ==> times[a] <= times[b]
}

/// After the toggle at `times[i]` passed, the last passed toggle is never
/// earlier than it.
proof fn lemma_last_not_before(last: Option<u64>, times: Seq<u64>, i: int, k: int)
    requires
        non_decreasing(times),
        0 <= i < k <= times.len(),
        fires(last, times, i),
    ensures
        after_tries(last, times.take(k)) is Some,
        after_tries(last, times.take(k))->0 >= times[i],
    decreases k - i,
{
    let upto = times.take(k);
    assert(upto.drop_last() == times.take(k - 1));
    assert(upto.last() == times[k - 1]);
    if k - 1 > i {
        lemma_last_not_before(last, times, i, k - 1);
        assert(times[i] <= times[k - 1]);
    }
}

/// Of the toggles that the devices try, whichever device each comes from,
/// any two that pass the debounce are more than three hundred
/// milliseconds apart. So of two toggles tried within that time at most
/// one is sent to the overlay.
pub proof fn lemma_global_debounce(last: Option<u64>, times: Seq<u64>, i: int, j: int)
    requires
        non_decreasing(times),
        0 <= i < j < times.len(),
        fires(last, times, i),
        fires(last, times, j),
    ensures
        times[j] - times[i] > HOTKEY_DEBOUNCE_MS,
{
    lemma_last_not_before(last, times, i, j);
}

/// What all monitors share: the time of the last toggle and the device
/// nodes that have a monitor.
pub struct GlobalState {
    last_hotkey_ms: Option<u64>,
    monitored_devices: Vec<String>,
}

/// The texts that a vector of strings holds.
pub open spec fn text_set(v: Seq<String>) -> Set<Seq<char>> {
    Set::new(|p: Seq<char>| exists|i: int| 0 <= i < v.len() && (#[trigger] v[i])@ == p)
}

impl GlobalState {
    /// Clock reading of the last toggle that passed the debounce.
    pub closed spec fn last_hotkey(&self) -> Option<u64> {
        self.last_hotkey_ms
    }

    /// The paths of the device nodes that have a monitor.
    pub closed spec fn monitored(&self) -> Set<Seq<char>> {
        text_set(self.monitored_devices@)
    }

    /// No toggle yet, no device monitored.
    pub fn new() -> (r: GlobalState)
        ensures
            r.last_hotkey() is None,
            r.monitored() == Set::<Seq<char>>::empty(),
    {
        let r = GlobalState { last_hotkey_ms: None, monitored_devices: Vec::new() };
        assert(r.monitored() =~= Set::<Seq<char>>::empty());
        r
    }

    /// Tries a toggle at `now_ms`. Returns whether it passes the debounce
    /// and is to be sent; if so its time is kept.
    pub fn try_trigger(&mut self, now_ms: u64) -> (r: bool)
        ensures
            r == can_trigger(old(self).last_hotkey(), now_ms),
            final(self).last_hotkey() == after_try(old(self).last_hotkey(), now_ms),
            final(self).monitored() == old(self).monitored(),
    {
        let passes = match self.last_hotkey_ms {
            None => true,
            Some(t) => now_ms > t && now_ms - t > HOTKEY_DEBOUNCE_MS,
        };
        if passes {
            self.last_hotkey_ms = Some(now_ms);
        }
        passes
    }

    /// Whether the device node at `path` has a monitor.
    pub fn is_monitored(&self, path: &str) -> (r: bool)
        ensures
            r == self.monitored().contains(path@),
    {
        let mut i: usize = 0;
        while i < self.monitored_devices.len()
            invariant
                i <= self.monitored_devices.len(),
                forall|k: int| 0 <= k < i ==> (#[trigger] self.monitored_devices@[k])@ != path@,
            decreases self.monitored_devices.len() - i,
        {
            if same_text(self.monitored_devices[i].as_str(), path) {
                return true;
            }
            i = i + 1;
        }
        false
    }

    /// Notes that the device node at `path` has a monitor. Returns whether
    /// it had none before.
    pub fn attach(&mut self, path: &str) -> (r: bool)
        ensures
            r == !old(self).monitored().contains(path@),
            final(self).monitored() == old(self).monitored().insert(path@),
            final(self).last_hotkey() == old(self).last_hotkey(),
    {
        if self.is_monitored(path) {
            assert(self.monitored() =~= old(self).monitored().insert(path@));
            false
        } else {
            let ghost before = self.monitored_devices@;
            self.monitored_devices.push(String::from_str(path));
            proof {
                let after = self.monitored_devices@;
                assert forall|p: Seq<char>| text_set(after).contains(p) == text_set(before).insert(
                    path@,
                ).contains(p) by {
                    if text_set(after).contains(p) {
                        let i = choose|i: int| 0 <= i < after.len() && (#[trigger] after[i])@ == p;
                        if i < before.len() {
                            assert(before[i]@ == p);
                        }
                    }
                    if text_set(before).contains(p) {
                        let i = choose|i: int| 0 <= i < before.len() && (#[trigger] before[i])@ == p;
                        assert(after[i]@ == p);
                    }
                    if p == path@ {
                        assert(after[after.len() - 1]@ == p);
                    }
                }
                assert(self.monitored() =~= old(self).monitored().insert(path@));
            }
            true
        }
    }

    /// Notes that the device node at `path` has no monitor any more.
    /// Returns whether it had one.
    pub fn detach(&mut self, path: &str) -> (r: bool)
        ensures
            r == old(self).monitored().contains(path@),
            final(self).monitored() == old(self).monitored().remove(path@),
            final(self).last_hotkey() == old(self).last_hotkey(),
    {
        let mut kept: Vec<String> = Vec::new();
        let mut rest: Vec<String> = Vec::new();
        std::mem::swap(&mut self.monitored_devices, &mut rest);
        let ghost before = rest@;
        let mut found = false;
        for entry in it: rest
            invariant
                it.seq() == before,
                found == exists|k: int| 0 <= k < it.index() && (#[trigger] before[k])@ == path@,
                forall|p: Seq<char>|
                    text_set(kept@).contains(p) == (p != path@ && exists|k: int|
                        0 <= k < it.index() && (#[trigger] before[k])@ == p),
        {
            let ghost kept_before = kept@;
            let ghost n = it.index() as int;
            if same_text(entry.as_str(), path) {
                found = true;
                assert(before[n]@ == path@);
            } else {
                kept.push(entry);
            }
            proof {
                assert forall|p: Seq<char>| text_set(kept@).contains(p) == (p != path@ && exists|k: int|
                    0 <= k < n + 1 && (#[trigger] before[k])@ == p) by {
                    if text_set(kept@).contains(p) {
                        let i = choose|i: int| 0 <= i < kept@.len() && (#[trigger] kept@[i])@ == p;
                        if i < kept_before.len() {
                            assert(kept_before[i]@ == p);
                            assert(text_set(kept_before).contains(p));
                            let k = choose|k: int| 0 <= k < n && (#[trigger] before[k])@ == p;
                            assert(before[k]@ == p);
                        } else {
                            assert(before[n]@ == p);
                        }
                    }
                    if p != path@ && exists|k: int| 0 <= k < n + 1 && (#[trigger] before[k])@ == p {
                        let k = choose|k: int| 0 <= k < n + 1 && (#[trigger] before[k])@ == p;
                        if k < n {
                            assert(text_set(kept_before).contains(p));
                            let i = choose|i: int| 0 <= i < kept_before.len() && (#[trigger] kept_before[i])@ == p;
                            assert(kept@[i]@ == p);
                        } else {
                            assert(kept@[kept@.len() - 1]@ == p);
                        }
                    }
                }
                if !found {
                    assert forall|k: int| 0 <= k < n + 1 implies (#[trigger] before[k])@ != path@ by {}
                }
            }
        }
        self.monitored_devices = kept;
        proof {
            assert forall|p: Seq<char>| text_set(kept@).contains(p) == text_set(before).remove(path@).contains(
                p,
            ) by {
                if text_set(before).contains(p) {
                    let k = choose|k: int| 0 <= k < before.len() && (#[trigger] before[k])@ == p;
                    assert(before[k]@ == p);
                }
            }
            assert(self.monitored() =~= old(self).monitored().remove(path@));
            if found {
                let k = choose|k: int| 0 <= k < before.len() && (#[trigger] before[k])@ == path@;
                assert(text_set(before).contains(path@));
            }
        }
        found
    }

    /// Decides on a device node that was opened after a hotplug event:
    /// a device with keys of interest that has no monitor yet gets one,
    /// and is noted at once. Returns whether a monitor is to be started.
    /// For a path that has a monitor the answer is no.
    pub fn begin_monitoring(&mut self, path: &str, is_gamepad: bool, is_keyboard: bool) -> (r: bool)
        ensures
            r == ((is_gamepad || is_keyboard) && !old(self).monitored().contains(path@)),
            old(self).monitored().contains(path@) ==> !r && final(self).monitored() == old(self).monitored(),
            final(self).monitored() == if is_gamepad || is_keyboard {
                old(self).monitored().insert(path@)
            } else {
                old(self).monitored()
            },
            final(self).last_hotkey() == old(self).last_hotkey(),
    {
        if is_gamepad || is_keyboard {
            let fresh = self.attach(path);
            proof {
                if old(self).monitored().contains(path@) {
                    assert(old(self).monitored().insert(path@) =~= old(self).monitored());
                }
            }
            fresh
        } else {
            false
        }
    }
}

/// Which of the keys that the daemon looks for a device has.
#[derive(Clone, Copy, Debug, PartialEq, Eq, Structural)]
pub struct DeviceKeys {
    /// The Guide button of a gamepad.
    pub btn_mode: bool,
    /// The south face button of a gamepad.
    pub btn_south: bool,
    pub key_f12: bool,
    pub key_a: bool,
}

/// Says whether a device is a gamepad and whether it is a keyboard, by the
/// keys it reports; a device that reports no keys is neither.
pub fn is_relevant_device(keys: Option<DeviceKeys>) -> (r: (bool, bool))
    ensures
        r == match keys {
            Some(k) => (k.btn_mode || k.btn_south, k.key_f12 || k.key_a),
            None => (false, false),
        },
{
    match keys {
        Some(k) => (k.btn_mode || k.btn_south, k.key_f12 || k.key_a),
        None => (false, false),
    }
}

/// A key as far as the daemon tells keys apart.
#[derive(Clone, Copy, Debug, PartialEq, Eq, Structural)]
pub enum MonitoredKey {
    /// The Guide button of a gamepad.
    BtnMode,
    F12,
    O,
    LeftCtrl,
    RightCtrl,
    Other,
}

/// Which control keys are down on one device.
#[derive(Clone, Copy, Debug, PartialEq, Eq, Structural)]
pub struct ModifierState {
    pub ctrl_left: bool,
    pub ctrl_right: bool,
}

/// The value of a key event that reports a press; a release is 0 and an
/// automatic repeat is 2.
pub const KEY_PRESSED: i32 = 1;

impl ModifierState {
    /// No control key down.
    pub fn new() -> (r: ModifierState)
        ensures
            r == (ModifierState { ctrl_left: false, ctrl_right: false }),
    {
        ModifierState { ctrl_left: false, ctrl_right: false }
    }

    /// Whether either control key is down.
    pub fn ctrl_held(&self) -> (r: bool)
        ensures
            r == (self.ctrl_left || self.ctrl_right),
    {
        self.ctrl_left || self.ctrl_right
    }

    /// The control keys after a key event.
    pub open spec fn after_key(self, key: MonitoredKey, value: i32) -> ModifierState {
        match key {
            MonitoredKey::LeftCtrl => ModifierState { ctrl_left: value == KEY_PRESSED, ..self },
            MonitoredKey::RightCtrl => ModifierState { ctrl_right: value == KEY_PRESSED, ..self },
            _ => self,
        }
    }

    /// Whether a key event is the toggle gesture: a press of the Guide
    /// button, of F12, or of O while a control key of the same device is
    /// down.
    pub open spec fn is_hotkey(self, key: MonitoredKey, value: i32) -> bool {
        value == KEY_PRESSED && (key == MonitoredKey::BtnMode || key == MonitoredKey::F12 || (key
            == MonitoredKey::O && (self.ctrl_left || self.ctrl_right)))
    }

    /// Takes a key event of the device: keeps track of the control keys
    /// and returns whether the event is the toggle gesture.
    pub fn on_key(&mut self, key: MonitoredKey, value: i32) -> (r: bool)
        ensures
            *final(self) == old(self).after_key(key, value),
            r == old(self).is_hotkey(key, value),
    {
        let pressed = value == KEY_PRESSED;
        match key {
            MonitoredKey::LeftCtrl => {
                self.ctrl_left = pressed;
            },
            MonitoredKey::RightCtrl => {
                self.ctrl_right = pressed;
            },
            _ => {},
        }
        if pressed {
            match key {
                MonitoredKey::BtnMode => true,
                MonitoredKey::F12 => true,
                MonitoredKey::O => self.ctrl_held(),
                _ => false,
            }
        } else {
            false
        }
    }
}

impl Default for ModifierState {
    fn default() -> (r: ModifierState)
        ensures
            r == (ModifierState { ctrl_left: false, ctrl_right: false }),
    {
        ModifierState::new()
    }
}

/// Handles the toggle gesture from any device at `now_ms`: returns the
/// line to send to the overlay, or nothing where the debounce drops the
/// gesture.
pub fn toggle_overlay(state: &mut GlobalState, now_ms: u64) -> (r: Option<&'static str>)
    ensures
        final(state).last_hotkey() == after_try(old(state).last_hotkey(), now_ms),
        final(state).monitored() == old(state).monitored(),
        match r {
            Some(line) => can_trigger(old(state).last_hotkey(), now_ms) && line@ == TOGGLE_MESSAGE@,
            None => !can_trigger(old(state).last_hotkey(), now_ms),
        },
{
    if state.try_trigger(now_ms) {
        Some(TOGGLE_MESSAGE)
    } else {
        None
    }
}

/// Whether a name in the input directory is that of an event device node.
pub fn is_event_node(name: &str) -> (r: bool)
    ensures
        r == is_prefix(name@, "event"@),
{
    starts_with_text(name, "event")
}

/// The path of a device node of the input directory.
pub fn device_path(name: &str) -> (r: String)
    ensures
        r@ == INPUT_DIR@ + "/"@ + name@,
{
    concat3(INPUT_DIR, "/", name)
}

/// The path to open for a name that a hotplug event or a scan of the input
/// directory reports: that of an event device node that has no monitor.
pub fn node_to_probe(state: &GlobalState, name: &str) -> (r: Option<String>)
    ensures
        match r {
            Some(path) => {
                &&& is_prefix(name@, "event"@)
                &&& path@ == INPUT_DIR@ + "/"@ + name@
                &&& !state.monitored().contains(path@)
            },
            None => !is_prefix(name@, "event"@) || state.monitored().contains(INPUT_DIR@ + "/"@ + name@),
        },
{
    if !is_event_node(name) {
        return None;
    }
    let path = device_path(name);
    if state.is_monitored(path.as_str()) {
        None
    } else {
        Some(path)
    }
}

/// How a read of a monitored device ended.
#[derive(Clone, Copy, Debug, PartialEq, Eq, Structural)]
pub enum ReadOutcome {
    /// Events were read.
    Events,
    /// No event was waiting.
    WouldBlock,
    /// Any other error: the device is gone.
    Failed,
}

/// What a monitor does next.
#[derive(Clone, Copy, Debug, PartialEq, Eq, Structural)]
pub enum MonitorStep {
    /// Read again at once.
    Read,
    /// Pause for so many milliseconds, then read again.
    Pause(u64),
    /// Take the device off the monitored set and end.
    Exit,
}

/// What a monitor does after a read, while the daemon runs or not.
pub fn monitor_step(running: bool, outcome: ReadOutcome) -> (r: MonitorStep)
    ensures
        r == if !running {
            MonitorStep::Exit
        } else {
            match outcome {
                ReadOutcome::Events => MonitorStep::Read,
                ReadOutcome::WouldBlock => MonitorStep::Pause(IDLE_READ_PAUSE_MS),
                ReadOutcome::Failed => MonitorStep::Exit,
            }
        },
{
    if !running {
        MonitorStep::Exit
    } else {
        match outcome {
            ReadOutcome::Events => MonitorStep::Read,
            ReadOutcome::WouldBlock => MonitorStep::Pause(IDLE_READ_PAUSE_MS),
            ReadOutcome::Failed => MonitorStep::Exit,
        }
    }
}

} // verus!
