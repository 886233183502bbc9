//! The table of connected controllers and the players they are given to.

use vstd::prelude::*;
use crate::hotkeys::GamepadButtonType;
use crate::text::{concat2, concat3, decimal, number_text, same_text};

verus! {

/// Number of player slots.
pub const MAX_PLAYERS: usize = 4;

/// How long a success message stays, in milliseconds.
pub const SUCCESS_MESSAGE_MS: u64 = 3000;

/// Number of entries of the controller menu.
pub const CONTROLLER_MENU_OPTIONS: usize = 6;

/// A controller that is plugged in or paired.
#[derive(Debug)]
pub struct ConnectedController {
    pub id: usize,
    pub name: String,
    pub uuid: String,
    pub is_wireless: bool,
    /// Charge in percent, where it is known.
    pub battery_level: Option<u8>,
    /// The player, 1 to 4, that the controller is given to.
    pub assigned_player: Option<usize>,
}

/// A Bluetooth device that a scan found.
#[derive(Debug)]
pub struct BluetoothDevice {
    pub mac_address: String,
    pub name: String,
    pub is_paired: bool,
    pub is_connected: bool,
    /// Signal strength in dBm.
    pub signal_strength: Option<i16>,
}

/// What the Bluetooth screen is doing.
#[derive(Debug)]
pub enum BluetoothScanState {
    Idle,
    Scanning,
    /// Pairing with the device of this address.
    Pairing(String),
    /// Connecting to the device of this address.
    Connecting(String),
    Error(String),
}

/// An axis of a gamepad.
#[derive(Clone, Copy, Debug, PartialEq, Eq, Structural)]
pub enum PadAxis {
    LeftStickX,
    LeftStickY,
    RightStickX,
    RightStickY,
    /// The left trigger.
    LeftZ,
    /// The right trigger.
    RightZ,
    Other,
}

/// What a gamepad reports. Axis values are in thousandths, from -1000 to
/// 1000.
#[derive(Clone, Copy, Debug, PartialEq, Eq, Structural)]
pub enum PadEvent {
    Pressed(GamepadButtonType),
    Released(GamepadButtonType),
    Axis(PadAxis, i32),
    Other,
}

/// What the gamepad tester shows of one gamepad. Triggers are in
/// thousandths from 0 to 1000, stick axes from -1000 to 1000.
#[derive(Clone, Copy, Debug, PartialEq, Eq, Structural)]
pub struct GamepadButtonState {
    pub a: bool,
    pub b: bool,
    pub x: bool,
    pub y: bool,
    pub dpad_up: bool,
    pub dpad_down: bool,
    pub dpad_left: bool,
    pub dpad_right: bool,
    pub lb: bool,
    pub rb: bool,
    pub lt: i32,
    pub rt: i32,
    pub ls_press: bool,
    pub rs_press: bool,
    pub left_stick_x: i32,
    pub left_stick_y: i32,
    pub right_stick_x: i32,
    pub right_stick_y: i32,
    pub start: bool,
    pub select: bool,
    pub guide: bool,
}

impl GamepadButtonState {
    /// Nothing is pressed and every axis is at rest.
    pub open spec fn at_rest() -> GamepadButtonState {
        GamepadButtonState {
            a: false,
            b: false,
            x: false,
            y: false,
            dpad_up: false,
            dpad_down: false,
            dpad_left: false,
            dpad_right: false,
            lb: false,
            rb: false,
            lt: 0,
            rt: 0,
            ls_press: false,
            rs_press: false,
            left_stick_x: 0,
            left_stick_y: 0,
            right_stick_x: 0,
            right_stick_y: 0,
            start: false,
            select: false,
            guide: false,
        }
    }

    /// The state with one button down or up. The analog triggers have no
    /// button of their own here.
    pub open spec fn with_button(self, button: GamepadButtonType, down: bool) -> GamepadButtonState {
        match button {
            GamepadButtonType::South => GamepadButtonState { a: down, ..self },
            GamepadButtonType::East => GamepadButtonState { b: down, ..self },
            GamepadButtonType::West => GamepadButtonState { x: down, ..self },
            GamepadButtonType::North => GamepadButtonState { y: down, ..self },
            GamepadButtonType::DPadUp => GamepadButtonState { dpad_up: down, ..self },
            GamepadButtonType::DPadDown => GamepadButtonState { dpad_down: down, ..self },
            GamepadButtonType::DPadLeft => GamepadButtonState { dpad_left: down, ..self },
            GamepadButtonType::DPadRight => GamepadButtonState { dpad_right: down, ..self },
            GamepadButtonType::LeftBumper => GamepadButtonState { lb: down, ..self },
            GamepadButtonType::RightBumper => GamepadButtonState { rb: down, ..self },
            GamepadButtonType::LeftStick => GamepadButtonState { ls_press: down, ..self },
            GamepadButtonType::RightStick => GamepadButtonState { rs_press: down, ..self },
            GamepadButtonType::Start => GamepadButtonState { start: down, ..self },
            GamepadButtonType::Select => GamepadButtonState { select: down, ..self },
            GamepadButtonType::Mode => GamepadButtonState { guide: down, ..self },
            _ => self,
        }
    }

    /// How far a trigger is pulled, from the value of its axis: half of
    /// the way from -1000, for a value that is taken into the range from
    /// -1000 to 1000 first.
    pub open spec fn trigger_pull(value: i32) -> i32 {
        let within = if value < -1000 {
            -1000
        } else if value > 1000 {
            1000
        } else {
            value as int
        };
        ((within + 1000) / 2) as i32
    }

    /// The state after an event.
    pub open spec fn after(self, event: PadEvent) -> GamepadButtonState {
        match event {
            PadEvent::Pressed(button) => self.with_button(button, true),
            PadEvent::Released(button) => self.with_button(button, false),
            PadEvent::Axis(PadAxis::LeftZ, value) => GamepadButtonState { lt: Self::trigger_pull(value), ..self },
            PadEvent::Axis(PadAxis::RightZ, value) => GamepadButtonState { rt: Self::trigger_pull(value), ..self },
            PadEvent::Axis(PadAxis::LeftStickX, value) => GamepadButtonState { left_stick_x: value, ..self },
            PadEvent::Axis(PadAxis::LeftStickY, value) => GamepadButtonState { left_stick_y: value, ..self },
            PadEvent::Axis(PadAxis::RightStickX, value) => GamepadButtonState { right_stick_x: value, ..self },
            PadEvent::Axis(PadAxis::RightStickY, value) => GamepadButtonState { right_stick_y: value, ..self },
            _ => self,
        }
    }

    /// Nothing is pressed and every axis is at rest.
    pub fn new() -> (r: GamepadButtonState)
        ensures
            r == Self::at_rest(),
    {
        GamepadButtonState {
            a: false,
            b: false,
            x: false,
            y: false,
            dpad_up: false,
            dpad_down: false,
            dpad_left: false,
            dpad_right: false,
            lb: false,
            rb: false,
            lt: 0,
            rt: 0,
            ls_press: false,
            rs_press: false,
            left_stick_x: 0,
            left_stick_y: 0,
            right_stick_x: 0,
            right_stick_y: 0,
            start: false,
            select: false,
            guide: false,
        }
    }

    /// The state with one button down or up.
    fn button_set(self, button: GamepadButtonType, down: bool) -> (r: GamepadButtonState)
        ensures
            r == self.with_button(button, down),
    {
        match button {
            GamepadButtonType::South => GamepadButtonState { a: down, ..self },
            GamepadButtonType::East => GamepadButtonState { b: down, ..self },
            GamepadButtonType::West => GamepadButtonState { x: down, ..self },
            GamepadButtonType::North => GamepadButtonState { y: down, ..self },
            GamepadButtonType::DPadUp => GamepadButtonState { dpad_up: down, ..self },
            GamepadButtonType::DPadDown => GamepadButtonState { dpad_down: down, ..self },
            GamepadButtonType::DPadLeft => GamepadButtonState { dpad_left: down, ..self },
            GamepadButtonType::DPadRight => GamepadButtonState { dpad_right: down, ..self },
            GamepadButtonType::LeftBumper => GamepadButtonState { lb: down, ..self },
            GamepadButtonType::RightBumper => GamepadButtonState { rb: down, ..self },
            GamepadButtonType::LeftStick => GamepadButtonState { ls_press: down, ..self },
            GamepadButtonType::RightStick => GamepadButtonState { rs_press: down, ..self },
            GamepadButtonType::Start => GamepadButtonState { start: down, ..self },
            GamepadButtonType::Select => GamepadButtonState { select: down, ..self },
            GamepadButtonType::Mode => GamepadButtonState { guide: down, ..self },
            _ => self,
        }
    }

    /// How far a trigger is pulled.
    fn pull(value: i32) -> (r: i32)
        ensures
            r == Self::trigger_pull(value),
    {
        let within: i32 = if value < -1000 {
            -1000
        } else if value > 1000 {
            1000
        } else {
            value
        };
        (within + 1000) / 2
    }

    /// The state after one event of the gamepad.
    pub fn applied(self, event: PadEvent) -> (r: GamepadButtonState)
        ensures
            r == self.after(event),
    {
        match event {
            PadEvent::Pressed(button) => self.button_set(button, true),
            PadEvent::Released(button) => self.button_set(button, false),
            PadEvent::Axis(PadAxis::LeftZ, value) => GamepadButtonState { lt: Self::pull(value), ..self },
            PadEvent::Axis(PadAxis::RightZ, value) => GamepadButtonState { rt: Self::pull(value), ..self },
            PadEvent::Axis(PadAxis::LeftStickX, value) => GamepadButtonState { left_stick_x: value, ..self },
            PadEvent::Axis(PadAxis::LeftStickY, value) => GamepadButtonState { left_stick_y: value, ..self },
            PadEvent::Axis(PadAxis::RightStickX, value) => GamepadButtonState { right_stick_x: value, ..self },
            PadEvent::Axis(PadAxis::RightStickY, value) => GamepadButtonState { right_stick_y: value, ..self },
            _ => self,
        }
    }

    /// Takes one event of the gamepad.
    pub fn apply(&mut self, event: PadEvent)
        ensures
            *final(self) == old(self).after(event),
    {
        *self = self.applied(event);
    }
}

impl Default for GamepadButtonState {
    fn default() -> (r: GamepadButtonState)
        ensures
            r == Self::at_rest(),
    {
        GamepadButtonState::new()
    }
}

/// An event with the id of the gamepad that it comes from.
#[derive(Clone, Copy, Debug, PartialEq, Eq, Structural)]
pub struct PadReport {
    pub id: usize,
    pub event: PadEvent,
}

/// The tester's state after a run of events, of which only those of the
/// gamepad with the given id count.
pub open spec fn tested(state: GamepadButtonState, id: Option<usize>, events: Seq<PadReport>) -> GamepadButtonState
    decreases events.len(),
{
    if events.len() == 0 {
        state
    } else {
        let before = tested(state, id, events.drop_last());
        if id == Some(events.last().id) {
            before.after(events.last().event)
        } else {
            before
        }
    }
}

/// Whether any of the events comes from the gamepad with the given id.
pub open spec fn any_from(id: Option<usize>, events: Seq<PadReport>) -> bool {
    exists|i: int| 0 <= i < events.len() && id == Some((#[trigger] events[i]).id)
}

/// A controller as the input subsystem reports it.
#[derive(Debug)]
pub struct ControllerReport {
    pub id: usize,
    pub name: String,
    pub uuid: String,
}

/// State of the controller screens.
#[derive(Debug)]
pub struct ControllerState {
    pub controllers: Vec<ConnectedController>,
    /// For each player, counted from zero, the id of the controller.
    pub player_assignments: [Option<usize>; 4],
    pub bluetooth_devices: Vec<BluetoothDevice>,
    pub bluetooth_state: BluetoothScanState,
    pub bt_selected_index: usize,
    pub bt_scroll_offset: usize,
    pub assign_selected_player: usize,
    pub assign_selected_controller: usize,
    pub tester_selected_controller: usize,
    pub tester_button_state: GamepadButtonState,
    /// Clock reading of the last input that the tester saw, in
    /// milliseconds.
    pub tester_last_input_ms: u64,
    pub selected_menu_item: usize,
    pub error_message: Option<String>,
    /// A success message and the clock reading at which it was shown.
    pub success_message: Option<(String, u64)>,
}

/// Position of the first controller with this id; the length where none
/// has it.
pub open spec fn first_controller_pos(list: Seq<ConnectedController>, id: usize) -> int
    decreases list.len(),
{
    if list.len() == 0 {
        0
    } else if list[0].id == id {
        0
    } else {
        1 + first_controller_pos(list.drop_first(), id)
    }
}

/// Position of the first controller with this uuid; the length where none
/// has it.
pub open spec fn first_uuid_pos(list: Seq<ConnectedController>, uuid: Seq<char>) -> int
    decreases list.len(),
{
    if list.len() == 0 {
        0
    } else if list[0].uuid@ == uuid {
        0
    } else {
        1 + first_uuid_pos(list.drop_first(), uuid)
    }
}

/// No two controllers of the list share an id.
pub open spec fn distinct_ids(list: Seq<ConnectedController>) -> bool {
    forall|i: int, j: int| 0 <= i < j < list.len() ==> (#[trigger] list[i]).id != (#[trigger] list[j]).id
}

/// Controllers and player slots agree: a controller is given to player
/// `p` exactly when slot `p - 1` names that controller.
pub open spec fn assignments_agree(list: Seq<ConnectedController>, slots: Seq<Option<usize>>) -> bool {
    &&& slots.len() == MAX_PLAYERS
    &&& distinct_ids(list)
    &&& forall|i: int|
        0 <= i < list.len() ==> match (#[trigger] list[i]).assigned_player {
            Some(p) => 1 <= p <= MAX_PLAYERS && slots[p - 1] == Some(list[i].id),
            None => true,
        }
    &&& forall|q: int|
        0 <= q < MAX_PLAYERS ==> match #[trigger] slots[q] {
            Some(id) => exists|i: int|
                0 <= i < list.len() && (#[trigger] list[i]).id == id && list[i].assigned_player == Some(
                    (q + 1) as usize,
                ),
            None => true,
        }
}

/// No two reports share an id.
pub open spec fn distinct_reports(reports: Seq<ControllerReport>) -> bool {
    forall|i: int, j: int| 0 <= i < j < reports.len() ==> (#[trigger] reports[i]).id != (#[trigger] reports[j]).id
}

/// Some report of the list has this id.
pub open spec fn reports_id(reports: Seq<ControllerReport>, id: usize) -> bool {
    exists|j: int| 0 <= j < reports.len() && (#[trigger] reports[j]).id == id
}

/// The reports that are the first of their id, in the order of the
/// report.
pub open spec fn first_of_each_id(reports: Seq<ControllerReport>) -> Seq<ControllerReport>
    decreases reports.len(),
{
    if reports.len() == 0 {
        Seq::empty()
    } else if reports_id(reports.drop_last(), reports.last().id) {
        first_of_each_id(reports.drop_last())
    } else {
        first_of_each_id(reports.drop_last()).push(reports.last())
    }
}

/// The first reports of each id are no more than the reports, hold the
/// ids of the reports and no id twice; where no id is reported twice they
/// are the reports.
pub proof fn lemma_first_of_each_id(reports: Seq<ControllerReport>)
    ensures
        first_of_each_id(reports).len() <= reports.len(),
        forall|id: usize|
            #![trigger reports_id(first_of_each_id(reports), id)]
            #![trigger reports_id(reports, id)]
            reports_id(first_of_each_id(reports), id) <==> reports_id(reports, id),
        forall|a: int, b: int|
            0 <= a < b < first_of_each_id(reports).len() ==> (#[trigger] first_of_each_id(reports)[a]).id != (
            #[trigger] first_of_each_id(reports)[b]).id,
        distinct_reports(reports) ==> first_of_each_id(reports) == reports,
    decreases reports.len(),
{
    if reports.len() > 0 {
        let front = reports.drop_last();
        let last = reports.last();
        let g = first_of_each_id(reports);
        let gf = first_of_each_id(front);
        lemma_first_of_each_id(front);
        assert forall|id: usize| reports_id(g, id) <==> reports_id(reports, id) by {
            if reports_id(g, id) {
                let k = choose|k: int| 0 <= k < g.len() && (#[trigger] g[k]).id == id;
                if k < gf.len() {
                    assert(gf[k].id == id);
                    assert(reports_id(gf, id));
                    let j = choose|j: int| 0 <= j < front.len() && (#[trigger] front[j]).id == id;
                    assert(reports[j].id == id);
                } else {
                    assert(reports[reports.len() - 1].id == id);
                }
            }
            if reports_id(reports, id) {
                let j = choose|j: int| 0 <= j < reports.len() && (#[trigger] reports[j]).id == id;
                if j < front.len() {
                    assert(front[j].id == id);
                    assert(reports_id(front, id));
                    let k = choose|k: int| 0 <= k < gf.len() && (#[trigger] gf[k]).id == id;
                    assert(g[k].id == id);
                } else if reports_id(front, last.id) {
                    let k = choose|k: int| 0 <= k < gf.len() && (#[trigger] gf[k]).id == id;
                    assert(g[k].id == id);
                } else {
                    assert(g[g.len() - 1].id == id);
                }
            }
        }
        assert forall|a: int, b: int| 0 <= a < b < g.len() implies (#[trigger] g[a]).id != (#[trigger] g[b]).id by {
            if b == gf.len() {
                assert(gf[a].id == g[a].id);
                assert(reports_id(gf, g[a].id));
            } else {
                assert(gf[a].id != gf[b].id);
            }
        }
        if distinct_reports(reports) {
            assert(distinct_reports(front)) by {
                assert forall|i: int, j: int| 0 <= i < j < front.len() implies (#[trigger] front[i]).id != (
                #[trigger] front[j]).id by {
                    assert(reports[i].id != reports[j].id);
                }
            }
            if reports_id(front, last.id) {
                let j = choose|j: int| 0 <= j < front.len() && (#[trigger] front[j]).id == last.id;
                assert(reports[j].id != reports[reports.len() - 1].id);
            }
            assert(g =~= reports);
        }
    }
}

/// The controller is what a refresh of the table makes of the report:
/// id, name and uuid are the report's, nothing is known of a battery, and
/// the player is the one that the controller keeps.
pub open spec fn made_from(
    c: ConnectedController,
    report: ControllerReport,
    list: Seq<ConnectedController>,
    slots: Seq<Option<usize>>,
) -> bool {
    &&& c.id == report.id
    &&& c.name == report.name
    &&& c.uuid == report.uuid
    &&& !c.is_wireless
    &&& c.battery_level is None
    &&& c.assigned_player == carried_player(list, slots, report)
}

/// The player that a controller keeps over a refresh of the table: that of
/// the first controller of the same uuid in the old table, as long as the
/// player's slot names the controller by its id.
pub open spec fn carried_player(
    list: Seq<ConnectedController>,
    slots: Seq<Option<usize>>,
    report: ControllerReport,
) -> Option<usize> {
    let at = first_uuid_pos(list, report.uuid@);
    if 0 <= at < list.len() {
        match list[at].assigned_player {
            Some(p) => if 1 <= p <= MAX_PLAYERS && slots[p - 1] == Some(report.id) {
                Some(p)
            } else {
                None
            },
            None => None,
        }
    } else {
        None
    }
}

/// The slot of a player after a refresh of the table: it keeps its
/// controller if that controller is in the new table and has kept the
/// player.
pub open spec fn kept_slot(slot: Option<usize>, q: int, fresh: Seq<ConnectedController>) -> Option<usize> {
    match slot {
        Some(id) => if exists|i: int|
            0 <= i < fresh.len() && (#[trigger] fresh[i]).id == id && fresh[i].assigned_player == Some(
                (q + 1) as usize,
            ) {
            Some(id)
        } else {
            None
        },
        None => None,
    }
}

/// The text of the error for a player number outside 1 to 4.
pub open spec fn invalid_player_text(player: usize) -> Seq<char> {
    "Invalid player number: "@ + decimal(player as nat)
}

/// The text of the error for an id that no controller has.
pub open spec fn controller_not_found_text(id: usize) -> Seq<char> {
    "Controller "@ + decimal(id as nat) + " not found"@
}

/// Giving the controller at `at` to `player` keeps controllers and slots
/// in agreement, and touches no other controller or slot than the two
/// that are set free.
proof fn lemma_assign_keeps_agreement(
    list0: Seq<ConnectedController>,
    slots0: Seq<Option<usize>>,
    list: Seq<ConnectedController>,
    slots: Seq<Option<usize>>,
    mid: Seq<Option<usize>>,
    at: int,
    player: usize,
    k: int,
)
    requires
        assignments_agree(list0, slots0),
        1 <= player <= MAX_PLAYERS,
        0 <= at < list0.len(),
        list.len() == list0.len(),
        forall|j: int| 0 <= j < list0.len() ==> (#[trigger] list[j]).id == list0[j].id,
        mid == match list0[at].assigned_player {
            Some(p) => if 1 <= p <= MAX_PLAYERS {
                slots0.update(p - 1, None)
            } else {
                slots0
            },
            None => slots0,
        },
        0 <= k <= list0.len(),
        mid[player - 1] is None ==> k == list0.len(),
        mid[player - 1] is Some && k < list0.len() ==> list0[k].id == mid[player - 1]->0,
        mid[player - 1] is Some ==> forall|j: int|
            0 <= j < k ==> (#[trigger] list0[j]).id != mid[player - 1]->0,
        forall|j: int|
            0 <= j < list0.len() && j != at ==> (#[trigger] list[j]).assigned_player == if j == k {
                None
            } else {
                list0[j].assigned_player
            },
        list[at].assigned_player == Some(player),
        slots == mid.update(player - 1, Some(list0[at].id)),
    ensures
        assignments_agree(list, slots),
        forall|j: int|
            0 <= j < list0.len() && j != at ==> (#[trigger] list[j]).assigned_player == if list0[j].assigned_player
                == Some(player) {
                None
            } else {
                list0[j].assigned_player
            },
        forall|q: int|
            0 <= q < MAX_PLAYERS && q != player - 1 ==> #[trigger] slots[q] == if list0[at].assigned_player
                == Some((q + 1) as usize) {
                None
            } else {
                slots0[q]
            },
{
    // Whoever held the player's slot before is the controller at `k`.
    assert forall|j: int| 0 <= j < list0.len() && j != at implies ((#[trigger] list0[j]).assigned_player
        == Some(player)) == (j == k) by {
        if list0[j].assigned_player == Some(player) {
            assert(slots0[player - 1] == Some(list0[j].id));
            assert(list0[j].id != list0[at].id);
            assert(mid[player - 1] == slots0[player - 1]);
            if k != j {
                if k < list0.len() {
                    assert(list0[k].id == list0[j].id);
                }
            }
        }
        if j == k {
            assert(mid[player - 1] is Some);
            let prev = mid[player - 1]->0;
            assert(slots0[player - 1] == Some(prev));
            let w = choose|w: int|
                0 <= w < list0.len() && (#[trigger] list0[w]).id == prev && list0[w].assigned_player == Some(
                    player,
                );
            if w != k {
                assert(list0[w].id == list0[k].id);
            }
        }
    }
    assert(distinct_ids(list)) by {
        assert forall|a: int, b: int| 0 <= a < b < list.len() implies (#[trigger] list[a]).id != (
        #[trigger] list[b]).id by {
            assert(list0[a].id != list0[b].id);
        }
    }
    assert forall|i: int| 0 <= i < list.len() implies match (#[trigger] list[i]).assigned_player {
        Some(p) => 1 <= p <= MAX_PLAYERS && slots[p - 1] == Some(list[i].id),
        None => true,
    } by {
        if i != at && list[i].assigned_player is Some {
            let p = list[i].assigned_player->0;
            assert(list0[i].assigned_player == Some(p));
            assert(slots0[p - 1] == Some(list0[i].id));
            assert(p != player);
            if list0[at].assigned_player == Some(p) {
                assert(slots0[p - 1] == Some(list0[at].id));
                assert(list0[i].id != list0[at].id);
            }
        }
    }
    assert forall|q: int| 0 <= q < MAX_PLAYERS implies match #[trigger] slots[q] {
        Some(id) => exists|i: int|
            0 <= i < list.len() && (#[trigger] list[i]).id == id && list[i].assigned_player == Some(
                (q + 1) as usize,
            ),
        None => true,
    } by {
        if q == player - 1 {
            assert(list[at].id == list0[at].id);
        } else if slots[q] is Some {
            assert(slots[q] == slots0[q]);
            let w = choose|w: int|
                0 <= w < list0.len() && (#[trigger] list0[w]).id == slots0[q]->0 && list0[w].assigned_player
                    == Some((q + 1) as usize);
            assert(w != at);
            assert(w != k);
            assert(list[w].id == list0[w].id);
        }
    }
}

impl ControllerState {
    /// The agreement of controllers and player slots.
    pub open spec fn wf(&self) -> bool {
        assignments_agree(self.controllers@, self.player_assignments@)
    }

    /// All that the assignment functions leave alone is the same in both.
    pub open spec fn same_screens(&self, other: &ControllerState) -> bool {
        &&& self.bluetooth_devices == other.bluetooth_devices
        &&& self.bluetooth_state == other.bluetooth_state
        &&& self.bt_selected_index == other.bt_selected_index
        &&& self.bt_scroll_offset == other.bt_scroll_offset
        &&& self.assign_selected_player == other.assign_selected_player
        &&& self.assign_selected_controller == other.assign_selected_controller
        &&& self.tester_selected_controller == other.tester_selected_controller
        &&& self.tester_button_state == other.tester_button_state
        &&& self.tester_last_input_ms == other.tester_last_input_ms
        &&& self.selected_menu_item == other.selected_menu_item
        &&& self.error_message == other.error_message
        &&& self.success_message == other.success_message
    }

    /// The controllers are the same in both but for who they are given to.
    pub open spec fn same_controllers(&self, other: &ControllerState) -> bool {
        &&& self.controllers@.len() == other.controllers@.len()
        &&& forall|i: int|
            0 <= i < self.controllers@.len() ==> {
                &&& (#[trigger] self.controllers@[i]).id == other.controllers@[i].id
                &&& self.controllers@[i].name == other.controllers@[i].name
                &&& self.controllers@[i].uuid == other.controllers@[i].uuid
                &&& self.controllers@[i].is_wireless == other.controllers@[i].is_wireless
                &&& self.controllers@[i].battery_level == other.controllers@[i].battery_level
            }
    }

    /// No controller, no assignment, every cursor at the top. The tester
    /// counts the time of the start, `now_ms`, as that of its last input.
    pub fn new(now_ms: u64) -> (r: ControllerState)
        ensures
            r.tester_button_state == GamepadButtonState::at_rest(),
            r.tester_last_input_ms == now_ms,
            r.wf(),
            r.controllers@.len() == 0,
            r.player_assignments@ == seq![None::<usize>, None, None, None],
            r.bluetooth_devices@.len() == 0,
            r.bluetooth_state is Idle,
            r.bt_selected_index == 0,
            r.bt_scroll_offset == 0,
            r.assign_selected_player == 0,
            r.assign_selected_controller == 0,
            r.tester_selected_controller == 0,
            r.selected_menu_item == 0,
            r.error_message is None,
            r.success_message is None,
    {
        let r = ControllerState {
            controllers: Vec::new(),
            player_assignments: [None, None, None, None],
            bluetooth_devices: Vec::new(),
            bluetooth_state: BluetoothScanState::Idle,
            bt_selected_index: 0,
            bt_scroll_offset: 0,
            assign_selected_player: 0,
            assign_selected_controller: 0,
            tester_selected_controller: 0,
            tester_button_state: GamepadButtonState::new(),
            tester_last_input_ms: now_ms,
            selected_menu_item: 0,
            error_message: None,
            success_message: None,
        };
        assert(r.player_assignments@ =~= seq![None::<usize>, None, None, None]);
        r
    }

    /// Position of the first controller with this id, or the number of
    /// controllers.
    fn find_controller(&self, id: usize) -> (r: usize)
        ensures
            r == first_controller_pos(self.controllers@, id),
            r <= self.controllers@.len(),
            r < self.controllers@.len() ==> self.controllers@[r as int].id == id,
            forall|k: int| 0 <= k < r ==> (#[trigger] self.controllers@[k]).id != id,
    {
        let mut i: usize = 0;
        assert(self.controllers@.skip(0) == self.controllers@);
        while i < self.controllers.len() && self.controllers[i].id != id
            invariant
                i <= self.controllers.len(),
                first_controller_pos(self.controllers@, id) == i + first_controller_pos(
                    self.controllers@.skip(i as int),
                    id,
                ),
                forall|k: int| 0 <= k < i ==> (#[trigger] self.controllers@[k]).id != id,
            decreases self.controllers.len() - i,
        {
            proof {
                assert(self.controllers@.skip(i as int).drop_first() == self.controllers@.skip(i as int + 1));
                assert(self.controllers@.skip(i as int)[0] == self.controllers@[i as int]);
            }
            i = i + 1;
        }
        proof {
            if i < self.controllers.len() {
                assert(self.controllers@.skip(i as int)[0] == self.controllers@[i as int]);
            }
        }
        i
    }

    /// Position of the first controller with this uuid, or the number of
    /// controllers.
    fn find_uuid(&self, uuid: &str) -> (r: usize)
        ensures
            r == first_uuid_pos(self.controllers@, uuid@),
            r <= self.controllers@.len(),
    {
        let mut i: usize = 0;
        assert(self.controllers@.skip(0) == self.controllers@);
        while i < self.controllers.len() && !same_text(self.controllers[i].uuid.as_str(), uuid)
            invariant
                i <= self.controllers.len(),
                first_uuid_pos(self.controllers@, uuid@) == i + first_uuid_pos(
                    self.controllers@.skip(i as int),
                    uuid@,
                ),
            decreases self.controllers.len() - i,
        {
            proof {
                assert(self.controllers@.skip(i as int).drop_first() == self.controllers@.skip(i as int + 1));
                assert(self.controllers@.skip(i as int)[0] == self.controllers@[i as int]);
            }
            i = i + 1;
        }
        proof {
            if i < self.controllers.len() {
                assert(self.controllers@.skip(i as int)[0] == self.controllers@[i as int]);
            }
        }
        i
    }

    /// The player that a reported controller keeps.
    fn carried(&self, report: &ControllerReport) -> (r: Option<usize>)
        ensures
            r == carried_player(self.controllers@, self.player_assignments@, *report),
            r matches Some(p) ==> 1 <= p <= MAX_PLAYERS && self.player_assignments@[p - 1] == Some(report.id),
    {
        let at = self.find_uuid(report.uuid.as_str());
        if at < self.controllers.len() {
            match self.controllers[at].assigned_player {
                Some(p) => {
                    if p >= 1 && p <= MAX_PLAYERS {
                        match self.player_assignments[p - 1] {
                            Some(id) => {
                                if id == report.id {
                                    Some(p)
                                } else {
                                    None
                                }
                            },
                            None => None,
                        }
                    } else {
                        None
                    }
                },
                None => None,
            }
        } else {
            None
        }
    }

    /// The controllers of a refreshed table: one for each report that is
    /// the first of its id, with the player that it keeps.
    fn refreshed(&self, reports: Vec<ControllerReport>) -> (fresh: Vec<ConnectedController>)
        ensures
            fresh@.len() == first_of_each_id(reports@).len(),
            forall|i: int|
                0 <= i < fresh@.len() ==> made_from(
                    #[trigger] fresh@[i],
                    first_of_each_id(reports@)[i],
                    self.controllers@,
                    self.player_assignments@,
                ),
    {
        let mut fresh: Vec<ConnectedController> = Vec::new();
        for report in it: reports
            invariant
                it.seq() == reports@,
                fresh@.len() == first_of_each_id(reports@.take(it.index() as int)).len(),
                forall|i: int|
                    0 <= i < fresh@.len() ==> made_from(
                        #[trigger] fresh@[i],
                        first_of_each_id(reports@.take(it.index() as int))[i],
                        self.controllers@,
                        self.player_assignments@,
                    ),
        {
            let ghost n = it.index() as int;
            let ghost before = fresh@;
            let ghost sofar = reports@.take(n + 1);
            let ghost firsts = first_of_each_id(reports@.take(n));
            let mut seen = false;
            let mut k: usize = 0;
            while k < fresh.len()
                invariant
                    k <= fresh.len(),
                    fresh@ == before,
                    seen == exists|w: int| 0 <= w < k && (#[trigger] fresh@[w]).id == report.id,
                decreases fresh.len() - k,
            {
                if fresh[k].id == report.id {
                    seen = true;
                }
                k = k + 1;
            }
            proof {
                assert(sofar.drop_last() == reports@.take(n));
                assert(sofar.last() == report);
                lemma_first_of_each_id(reports@.take(n));
                assert(seen == reports_id(firsts, report.id)) by {
                    if seen {
                        let w = choose|w: int| 0 <= w < before.len() && (#[trigger] before[w]).id == report.id;
                        assert(firsts[w].id == report.id);
                    }
                    if reports_id(firsts, report.id) {
                        let w = choose|w: int| 0 <= w < firsts.len() && (#[trigger] firsts[w]).id == report.id;
                        assert(before[w].id == report.id);
                    }
                }
            }
            if !seen {
                let player = self.carried(&report);
                let controller = ConnectedController {
                    id: report.id,
                    name: report.name,
                    uuid: report.uuid,
                    is_wireless: false,
                    battery_level: None,
                    assigned_player: player,
                };
                fresh.push(controller);
                proof {
                    assert(first_of_each_id(sofar) == firsts.push(report));
                    assert forall|i: int| 0 <= i < fresh@.len() implies made_from(
                        #[trigger] fresh@[i],
                        first_of_each_id(sofar)[i],
                        self.controllers@,
                        self.player_assignments@,
                    ) by {
                        if i < before.len() {
                            assert(fresh@[i] == before[i]);
                        }
                    }
                }
            }
        }
        proof {
            assert(reports@.take(reports@.len() as int) == reports@);
        }
        fresh
    }

    /// Takes the controllers that the input subsystem reports now. The
    /// table then holds one controller for each report that is the first
    /// of its id, in the order of the report; a report that repeats the id
    /// of an earlier one is passed over. A controller keeps its player as
    /// [`carried_player`] says, and a player's slot keeps its controller
    /// as [`kept_slot`] says, so that controllers and slots agree
    /// afterwards whatever they were before.
    pub fn update_connected(&mut self, reports: Vec<ControllerReport>)
        ensures
            final(self).wf(),
            final(self).same_screens(old(self)),
            final(self).controllers@.len() == first_of_each_id(reports@).len(),
            final(self).controllers@.len() <= reports@.len(),
            forall|i: int|
                0 <= i < final(self).controllers@.len() ==> made_from(
                    #[trigger] final(self).controllers@[i],
                    first_of_each_id(reports@)[i],
                    old(self).controllers@,
                    old(self).player_assignments@,
                ),
            forall|q: int|
                0 <= q < MAX_PLAYERS ==> #[trigger] final(self).player_assignments@[q] == kept_slot(
                    old(self).player_assignments@[q],
                    q,
                    final(self).controllers@,
                ),
            distinct_reports(reports@) ==> {
                &&& final(self).controllers@.len() == reports@.len()
                &&& forall|i: int|
                    0 <= i < reports@.len() ==> {
                        let c = #[trigger] final(self).controllers@[i];
                        &&& c.id == reports@[i].id
                        &&& c.name == reports@[i].name
                        &&& c.uuid == reports@[i].uuid
                        &&& !c.is_wireless
                        &&& c.battery_level is None
                        &&& c.assigned_player == carried_player(
                            old(self).controllers@,
                            old(self).player_assignments@,
                            reports@[i],
                        )
                    }
            },
    {
        let ghost slots0 = self.player_assignments@;
        let ghost list0 = self.controllers@;
        let ghost firsts = first_of_each_id(reports@);
        let fresh = self.refreshed(reports);
        proof {
            lemma_first_of_each_id(reports@);
            assert(distinct_ids(fresh@)) by {
                assert forall|a: int, b: int| 0 <= a < b < fresh@.len() implies (#[trigger] fresh@[a]).id != (
                #[trigger] fresh@[b]).id by {
                    assert(made_from(fresh@[a], firsts[a], list0, slots0));
                    assert(made_from(fresh@[b], firsts[b], list0, slots0));
                    assert(firsts[a].id != firsts[b].id);
                }
            }
            assert forall|k: int| 0 <= k < fresh@.len() implies match (#[trigger] fresh@[k]).assigned_player {
                Some(p) => 1 <= p <= MAX_PLAYERS && slots0[p - 1] == Some(fresh@[k].id),
                None => true,
            } by {
                assert(made_from(fresh@[k], firsts[k], list0, slots0));
            }
            if distinct_reports(reports@) {
                assert forall|i: int| 0 <= i < reports@.len() implies made_from(
                    #[trigger] fresh@[i],
                    reports@[i],
                    list0,
                    slots0,
                ) by {
                    assert(made_from(fresh@[i], firsts[i], list0, slots0));
                }
            }
        }
        let mut slots: [Option<usize>; 4] = [None, None, None, None];
        let mut q: usize = 0;
        while q < MAX_PLAYERS
            invariant
                q <= MAX_PLAYERS,
                *self == *old(self),
                slots0 == self.player_assignments@,
                slots0.len() == MAX_PLAYERS,
                slots@.len() == MAX_PLAYERS,
                forall|t: int| 0 <= t < q ==> #[trigger] slots@[t] == kept_slot(slots0[t], t, fresh@),
                forall|t: int| q <= t < MAX_PLAYERS ==> #[trigger] slots@[t] is None,
            decreases MAX_PLAYERS - q,
        {
            match self.player_assignments[q] {
                Some(id) => {
                    let mut held = false;
                    let mut k: usize = 0;
                    while k < fresh.len()
                        invariant
                            k <= fresh.len(),
                            q < MAX_PLAYERS,
                            held == exists|w: int|
                                0 <= w < k && (#[trigger] fresh@[w]).id == id && fresh@[w].assigned_player == Some(
                                    (q + 1) as usize,
                                ),
                        decreases fresh.len() - k,
                    {
                        match fresh[k].assigned_player {
                            Some(p) => {
                                if fresh[k].id == id && p == q + 1 {
                                    held = true;
                                }
                            },
                            None => {},
                        }
                        k = k + 1;
                    }
                    if held {
                        slots[q] = Some(id);
                    }
                },
                None => {},
            }
            q = q + 1;
        }
        proof {
            assert forall|t: int| 0 <= t < MAX_PLAYERS implies match #[trigger] slots@[t] {
                Some(id) => exists|i: int|
                    0 <= i < fresh@.len() && (#[trigger] fresh@[i]).id == id && fresh@[i].assigned_player == Some(
                        (t + 1) as usize,
                    ),
                None => true,
            } by {
                assert(slots@[t] == kept_slot(slots0[t], t, fresh@));
            }
            assert forall|i: int| 0 <= i < fresh@.len() implies match (#[trigger] fresh@[i]).assigned_player {
                Some(p) => 1 <= p <= MAX_PLAYERS && slots@[p - 1] == Some(fresh@[i].id),
                None => true,
            } by {
                if fresh@[i].assigned_player is Some {
                    let p = fresh@[i].assigned_player->0;
                    assert(slots0[p - 1] == Some(fresh@[i].id));
                    assert(slots@[p - 1] == kept_slot(slots0[p - 1], p - 1, fresh@));
                }
            }
        }
        self.controllers = fresh;
        self.player_assignments = slots;
    }

    /// Gives the controller with this id to a player, 1 to 4. The player's
    /// former controller and the controller's former player are set free.
    pub fn assign_controller_to_player(&mut self, controller_id: usize, player: usize) -> (r: Result<
        (),
        String,
    >)
        ensures
            final(self).same_screens(old(self)),
            final(self).same_controllers(old(self)),
            old(self).wf() ==> final(self).wf(),
            match r {
                Err(e) => {
                    &&& *final(self) == *old(self)
                    &&& if player == 0 || player > MAX_PLAYERS {
                        e@ == invalid_player_text(player)
                    } else {
                        &&& first_controller_pos(old(self).controllers@, controller_id) >= old(self).controllers@.len()
                        &&& e@ == controller_not_found_text(controller_id)
                    }
                },
                Ok(_) => {
                    let at = first_controller_pos(old(self).controllers@, controller_id);
                    &&& 1 <= player <= MAX_PLAYERS
                    &&& at < old(self).controllers@.len()
                    &&& final(self).controllers@[at].assigned_player == Some(player)
                    &&& final(self).player_assignments@[player - 1] == Some(controller_id)
                    &&& old(self).wf() ==> {
                        &&& forall|j: int|
                            0 <= j < old(self).controllers@.len() && j != at ==> (
                            #[trigger] final(self).controllers@[j]).assigned_player == if old(self).controllers@[j].assigned_player == Some(player) {
                                None
                            } else {
                                old(self).controllers@[j].assigned_player
                            }
                        &&& forall|q: int|
                            0 <= q < MAX_PLAYERS && q != player - 1 ==> #[trigger] final(self).player_assignments@[q] == if old(self).controllers@[at].assigned_player
                                == Some((q + 1) as usize) {
                                None
                            } else {
                                old(self).player_assignments@[q]
                            }
                    }
                },
            },
    {
        if player == 0 || player > MAX_PLAYERS {
            return Err(concat2("Invalid player number: ", number_text(player as u64).as_str()));
        }
        let at = self.find_controller(controller_id);
        if at >= self.controllers.len() {
            return Err(
                concat3("Controller ", number_text(controller_id as u64).as_str(), " not found"),
            );
        }
        let old_player = self.controllers[at].assigned_player;
        if let Some(p) = old_player {
            if p >= 1 && p <= MAX_PLAYERS {
                self.player_assignments[p - 1] = None;
            }
        }
        let ghost slots_mid = self.player_assignments@;
        let previous = self.player_assignments[player - 1];
        let mut k: usize = self.controllers.len();
        if let Some(prev) = previous {
            k = self.find_controller(prev);
            if k < self.controllers.len() {
                self.controllers[k].assigned_player = None;
            }
        }
        self.controllers[at].assigned_player = Some(player);
        self.player_assignments[player - 1] = Some(controller_id);
        proof {
            if old(self).wf() {
                lemma_assign_keeps_agreement(
                    old(self).controllers@,
                    old(self).player_assignments@,
                    self.controllers@,
                    self.player_assignments@,
                    slots_mid,
                    at as int,
                    player,
                    k as int,
                );
            }
        }
        Ok(())
    }

    /// Takes the controller with this id away from its player.
    pub fn unassign_controller(&mut self, controller_id: usize)
        ensures
            final(self).same_screens(old(self)),
            final(self).same_controllers(old(self)),
            old(self).wf() ==> final(self).wf(),
            ({
                let at = first_controller_pos(old(self).controllers@, controller_id);
                if at < old(self).controllers@.len() {
                    &&& final(self).controllers@[at].assigned_player is None
                    &&& forall|j: int|
                        0 <= j < old(self).controllers@.len() && j != at ==> (#[trigger] final(self).controllers@[j]).assigned_player == old(self).controllers@[j].assigned_player
                    &&& forall|q: int|
                        0 <= q < MAX_PLAYERS ==> #[trigger] final(self).player_assignments@[q] == if old(self).controllers@[at].assigned_player == Some((q + 1) as usize) {
                            None
                        } else {
                            old(self).player_assignments@[q]
                        }
                } else {
                    *final(self) == *old(self)
                }
            }),
    {
        let at = self.find_controller(controller_id);
        if at < self.controllers.len() {
            if let Some(p) = self.controllers[at].assigned_player {
                if p >= 1 && p <= MAX_PLAYERS {
                    self.player_assignments[p - 1] = None;
                }
            }
            self.controllers[at].assigned_player = None;
            proof {
                if old(self).wf() {
                    let list0 = old(self).controllers@;
                    let slots0 = old(self).player_assignments@;
                    let list = self.controllers@;
                    let slots = self.player_assignments@;
                    assert forall|q: int| 0 <= q < MAX_PLAYERS implies match #[trigger] slots[q] {
                        Some(id) => exists|i: int|
                            0 <= i < list.len() && (#[trigger] list[i]).id == id && list[i].assigned_player
                                == Some((q + 1) as usize),
                        None => true,
                    } by {
                        if slots[q] is Some {
                            assert(slots[q] == slots0[q]);
                            let w = choose|w: int|
                                0 <= w < list0.len() && (#[trigger] list0[w]).id == slots0[q]->0
                                    && list0[w].assigned_player == Some((q + 1) as usize);
                            assert(w != at);
                            assert(list[w].id == list0[w].id);
                        }
                    }
                }
            }
        }
    }

    /// The controller that a player, 1 to 4, holds.
    pub fn get_player_controller(&self, player: usize) -> (r: Option<&ConnectedController>)
        ensures
            match r {
                Some(c) => {
                    &&& 1 <= player <= MAX_PLAYERS
                    &&& self.player_assignments@[player - 1] is Some
                    &&& first_controller_pos(self.controllers@, self.player_assignments@[player - 1]->0)
                        < self.controllers@.len()
                    &&& *c == self.controllers@[first_controller_pos(
                        self.controllers@,
                        self.player_assignments@[player - 1]->0,
                    )]
                },
                None => player == 0 || player > MAX_PLAYERS || self.player_assignments@[player - 1] is None
                    || first_controller_pos(self.controllers@, self.player_assignments@[player - 1]->0)
                    >= self.controllers@.len(),
            },
    {
        if player == 0 || player > MAX_PLAYERS {
            return None;
        }
        match self.player_assignments[player - 1] {
            Some(id) => {
                let at = self.find_controller(id);
                if at < self.controllers.len() {
                    Some(&self.controllers[at])
                } else {
                    None
                }
            },
            None => None,
        }
    }

    /// Gives the first four controllers to players 1 to 4 in the order in
    /// which they were connected, and sets every other controller free.
    pub fn auto_assign_all(&mut self)
        ensures
            final(self).same_screens(old(self)),
            final(self).same_controllers(old(self)),
            distinct_ids(old(self).controllers@) ==> final(self).wf(),
            forall|j: int|
                0 <= j < old(self).controllers@.len() ==> (#[trigger] final(self).controllers@[j]).assigned_player
                    == if j < MAX_PLAYERS {
                    Some((j + 1) as usize)
                } else {
                    None
                },
            forall|q: int|
                0 <= q < MAX_PLAYERS ==> #[trigger] final(self).player_assignments@[q] == if q < old(self).controllers@.len() {
                    Some(old(self).controllers@[q].id)
                } else {
                    None
                },
    {
        self.player_assignments = [None, None, None, None];
        let mut i: usize = 0;
        while i < self.controllers.len()
            invariant
                i <= self.controllers.len(),
                self.same_screens(old(self)),
                self.same_controllers(old(self)),
                forall|j: int|
                    0 <= j < i ==> (#[trigger] self.controllers@[j]).assigned_player == if j < MAX_PLAYERS {
                        Some((j + 1) as usize)
                    } else {
                        None
                    },
                forall|q: int|
                    0 <= q < MAX_PLAYERS ==> #[trigger] self.player_assignments@[q] == if q < i {
                        Some(self.controllers@[q].id)
                    } else {
                        None
                    },
            decreases self.controllers.len() - i,
        {
            if i < MAX_PLAYERS {
                self.controllers[i].assigned_player = Some(i + 1);
                self.player_assignments[i] = Some(self.controllers[i].id);
            } else {
                self.controllers[i].assigned_player = None;
            }
            i = i + 1;
        }
        proof {
            if distinct_ids(old(self).controllers@) {
                let list = self.controllers@;
                let slots = self.player_assignments@;
                assert forall|a: int, b: int| 0 <= a < b < list.len() implies (#[trigger] list[a]).id != (
                #[trigger] list[b]).id by {
                    assert(old(self).controllers@[a].id != old(self).controllers@[b].id);
                }
                assert forall|q: int| 0 <= q < MAX_PLAYERS implies match #[trigger] slots[q] {
                    Some(id) => exists|i: int|
                        0 <= i < list.len() && (#[trigger] list[i]).id == id && list[i].assigned_player == Some(
                            (q + 1) as usize,
                        ),
                    None => true,
                } by {
                    if slots[q] is Some {
                        assert(list[q].id == slots[q]->0);
                    }
                }
            }
        }
    }

    /// The id of the controller that the tester shows.
    pub open spec fn tested_id(&self) -> Option<usize> {
        if self.tester_selected_controller < self.controllers@.len() {
            Some(self.controllers@[self.tester_selected_controller as int].id)
        } else {
            None
        }
    }

    /// Takes the events of the gamepads since the last frame, read at
    /// `now_ms`. The tester follows the events of the controller that it
    /// shows and passes over all others.
    pub fn update_tester(&mut self, events: &Vec<PadReport>, now_ms: u64)
        ensures
            *final(self) == (ControllerState {
                tester_button_state: tested(old(self).tester_button_state, old(self).tested_id(), events@),
                tester_last_input_ms: if any_from(old(self).tested_id(), events@) {
                    now_ms
                } else {
                    old(self).tester_last_input_ms
                },
                ..*old(self)
            }),
    {
        let selected: Option<usize> = if self.tester_selected_controller < self.controllers.len() {
            Some(self.controllers[self.tester_selected_controller].id)
        } else {
            None
        };
        let mut seen = false;
        let mut i: usize = 0;
        while i < events.len()
            invariant
                i <= events.len(),
                selected == old(self).tested_id(),
                seen == any_from(selected, events@.take(i as int)),
                *self == (ControllerState {
                    tester_button_state: tested(old(self).tester_button_state, selected, events@.take(i as int)),
                    ..*old(self)
                }),
            decreases events.len() - i,
        {
            proof {
                let next = events@.take(i as int + 1);
                assert(next.drop_last() == events@.take(i as int));
                assert(next.last() == events@[i as int]);
            }
            let ghost seen_before = seen;
            match selected {
                Some(id) => {
                    if events[i].id == id {
                        self.tester_button_state = self.tester_button_state.applied(events[i].event);
                        seen = true;
                    }
                },
                None => {},
            }
            proof {
                let upto = events@.take(i as int);
                let next = events@.take(i as int + 1);
                if seen {
                    if seen_before {
                        let w = choose|w: int| 0 <= w < upto.len() && selected == Some((#[trigger] upto[w]).id);
                        assert(next[w] == upto[w]);
                    } else {
                        assert(selected == Some(next[i as int].id));
                    }
                } else if any_from(selected, next) {
                    let w = choose|w: int| 0 <= w < next.len() && selected == Some((#[trigger] next[w]).id);
                    if w < i {
                        assert(upto[w] == next[w]);
                    }
                }
            }
            i = i + 1;
        }
        proof {
            assert(events@.take(events.len() as int) == events@);
        }
        if seen {
            self.tester_last_input_ms = now_ms;
        }
    }

    /// Puts the tester back to rest.
    pub fn reset_tester_state(&mut self)
        ensures
            *final(self) == (ControllerState { tester_button_state: GamepadButtonState::at_rest(), ..*old(self) }),
    {
        self.tester_button_state = GamepadButtonState::new();
    }

    /// Shows a success message from `now_ms` on, in place of any error.
    pub fn show_success(&mut self, message: String, now_ms: u64)
        ensures
            *final(self) == (ControllerState {
                success_message: Some((message, now_ms)),
                error_message: None,
                ..*old(self)
            }),
    {
        self.success_message = Some((message, now_ms));
        self.error_message = None;
    }

    /// Shows an error message, in place of any success message.
    pub fn show_error(&mut self, message: String)
        ensures
            *final(self) == (ControllerState { error_message: Some(message), success_message: None, ..*old(self) }),
    {
        self.error_message = Some(message);
        self.success_message = None;
    }

    /// Removes both messages.
    pub fn clear_messages(&mut self)
        ensures
            *final(self) == (ControllerState { error_message: None, success_message: None, ..*old(self) }),
    {
        self.error_message = None;
        self.success_message = None;
    }

    /// The success message after time has passed: it goes once it has
    /// been shown for more than three seconds.
    pub open spec fn success_at(&self, now_ms: u64) -> Option<(String, u64)> {
        match self.success_message {
            Some((m, shown)) => if now_ms >= shown && now_ms - shown > SUCCESS_MESSAGE_MS {
                None
            } else {
                self.success_message
            },
            None => None,
        }
    }

    /// Removes a success message that has been shown for more than three
    /// seconds.
    pub fn update_messages(&mut self, now_ms: u64)
        ensures
            *final(self) == (ControllerState { success_message: old(self).success_at(now_ms), ..*old(self) }),
    {
        let expired = match &self.success_message {
            Some((_, shown)) => now_ms >= *shown && now_ms - *shown > SUCCESS_MESSAGE_MS,
            None => false,
        };
        if expired {
            self.success_message = None;
        }
    }
}

impl Default for ControllerState {
    fn default() -> (r: ControllerState)
        ensures
            r.wf(),
            r.controllers@.len() == 0,
    {
        ControllerState::new(0)
    }
}

} // verus!
