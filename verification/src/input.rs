//! The inputs that drive the overlay's menus, and how keys, buttons and
//! sticks become such inputs.

use vstd::prelude::*;
use crate::hotkeys::{
    action_pos, binding_views, component_views, GamepadButtonType, HotkeyAction, HotkeyManager,
    InputComponent, InputComponentView, ModifierKey, scan,
};
use crate::search::{first_where, lemma_first_where_is};
use crate::text::owned;

verus! {

/// One step of menu input.
#[derive(Clone, Copy, Debug, PartialEq, Eq, Structural)]
pub enum ControllerInput {
    Up,
    Down,
    Left,
    Right,
    /// The A button.
    Select,
    /// The B button.
    Back,
    /// The X button.
    Secondary,
    /// The Guide or Home button.
    Guide,
    /// Left bumper.
    LB,
    /// Right bumper.
    RB,
    /// Left trigger.
    LT,
    /// Right trigger.
    RT,
}

/// The keys of the keyboard that went down since the last frame, as far
/// as the menus use them.
#[derive(Clone, Copy, Debug, PartialEq, Eq, Structural)]
pub struct MenuKeys {
    pub up: bool,
    pub down: bool,
    pub left: bool,
    pub right: bool,
    pub enter: bool,
    pub backspace: bool,
    pub f12: bool,
    pub q: bool,
    pub e: bool,
}

/// One whole deflection of a stick. The position on an axis is a
/// fixed-point number with 24 binary places, so that every axis value
/// that a single-precision reading can take beyond the dead zone is
/// told apart.
pub const STICK_UNIT: i32 = 16_777_216;

/// The dead zone around the centre: one half of a whole deflection.
pub const STICK_DEAD_ZONE: i32 = 8_388_608;

/// Where the left stick of one gamepad stands on its two axes, in parts
/// of `STICK_UNIT`.
#[derive(Clone, Copy, Debug, PartialEq, Eq, Structural)]
pub struct StickPosition {
    pub x: i32,
    pub y: i32,
}

/// What the position of a stick means to the menus.
#[derive(Clone, Copy, Debug, PartialEq, Eq, Structural)]
pub enum StickReading {
    /// Both axes are within the dead zone.
    Neutral,
    Up,
    Down,
    Left,
    Right,
    /// Outside the dead zone, but in no direction that counts.
    Undecided,
}

/// The keys and buttons that are held down, as far as hotkeys use them.
#[derive(Clone, Copy, Debug, PartialEq, Eq, Structural)]
pub struct HeldInputs {
    /// The Guide button went down on some gamepad.
    pub guide: bool,
    pub f12: bool,
    pub f3: bool,
    pub f5: bool,
    pub f9: bool,
    pub o: bool,
    pub ctrl: bool,
    pub alt: bool,
    pub shift: bool,
}

/// `x` if `present`, else nothing.
pub open spec fn one_if<T>(present: bool, x: T) -> Seq<T> {
    if present {
        seq![x]
    } else {
        Seq::empty()
    }
}

/// The menu inputs of the keyboard, in the order in which the keys are
/// looked at.
pub open spec fn keyboard_inputs(keys: MenuKeys) -> Seq<ControllerInput> {
    one_if(keys.up, ControllerInput::Up) + one_if(keys.down, ControllerInput::Down) + one_if(
        keys.left,
        ControllerInput::Left,
    ) + one_if(keys.right, ControllerInput::Right) + one_if(keys.enter, ControllerInput::Select) + one_if(
        keys.backspace,
        ControllerInput::Back,
    ) + one_if(keys.f12, ControllerInput::Guide) + one_if(keys.q, ControllerInput::LB) + one_if(
        keys.e,
        ControllerInput::RB,
    )
}

/// The menu input that the press of a gamepad button gives.
pub open spec fn spec_button_input(button: GamepadButtonType) -> Option<ControllerInput> {
    match button {
        GamepadButtonType::DPadUp => Some(ControllerInput::Up),
        GamepadButtonType::DPadDown => Some(ControllerInput::Down),
        GamepadButtonType::DPadLeft => Some(ControllerInput::Left),
        GamepadButtonType::DPadRight => Some(ControllerInput::Right),
        GamepadButtonType::South => Some(ControllerInput::Select),
        GamepadButtonType::East => Some(ControllerInput::Back),
        GamepadButtonType::West => Some(ControllerInput::Secondary),
        GamepadButtonType::Mode => Some(ControllerInput::Guide),
        GamepadButtonType::LeftBumper => Some(ControllerInput::LB),
        GamepadButtonType::RightBumper => Some(ControllerInput::RB),
        GamepadButtonType::LeftTrigger => Some(ControllerInput::LT),
        GamepadButtonType::RightTrigger => Some(ControllerInput::RT),
        _ => None,
    }
}

/// The menu inputs of a run of button presses, in their order.
pub open spec fn button_inputs(buttons: Seq<GamepadButtonType>) -> Seq<ControllerInput>
    decreases buttons.len(),
{
    if buttons.len() == 0 {
        Seq::empty()
    } else {
        button_inputs(buttons.drop_last()) + match spec_button_input(buttons.last()) {
            Some(input) => seq![input],
            None => Seq::empty(),
        }
    }
}

/// How far a stick is from the centre on one axis.
pub open spec fn deflection(v: i32) -> int {
    if v < 0 {
        -(v as int)
    } else {
        v as int
    }
}

/// The reading of a position. The stick is neutral while both axes are
/// within the dead zone. Beyond it the axis with the larger deflection
/// decides, the horizontal one where both are equal; a horizontal
/// deflection of exactly the dead zone gives no direction.
pub open spec fn stick_reading(p: StickPosition) -> StickReading {
    if deflection(p.x) < STICK_DEAD_ZONE && deflection(p.y) < STICK_DEAD_ZONE {
        StickReading::Neutral
    } else if deflection(p.y) > deflection(p.x) {
        if p.y > -STICK_DEAD_ZONE {
            StickReading::Up
        } else {
            StickReading::Down
        }
    } else if p.x < -STICK_DEAD_ZONE {
        StickReading::Left
    } else if p.x > STICK_DEAD_ZONE {
        StickReading::Right
    } else {
        StickReading::Undecided
    }
}

/// The reading of a position.
pub fn classify_stick(position: StickPosition) -> (r: StickReading)
    ensures
        r == stick_reading(position),
{
    let x: i64 = position.x as i64;
    let y: i64 = position.y as i64;
    let dead: i64 = STICK_DEAD_ZONE as i64;
    let across: i64 = if x < 0 {
        -x
    } else {
        x
    };
    let along: i64 = if y < 0 {
        -y
    } else {
        y
    };
    if across < dead && along < dead {
        StickReading::Neutral
    } else if along > across {
        if y > -dead {
            StickReading::Up
        } else {
            StickReading::Down
        }
    } else if x < -dead {
        StickReading::Left
    } else if x > dead {
        StickReading::Right
    } else {
        StickReading::Undecided
    }
}

/// A stick that is pushed along its vertical axis reads up or down, and
/// one that is pushed across reads left or right: the axis with the
/// larger deflection wins.
pub proof fn lemma_dominant_axis_wins(p: StickPosition)
    requires
        stick_reading(p) != StickReading::Neutral,
    ensures
        deflection(p.y) > deflection(p.x) ==> {
            &&& stick_reading(p) == StickReading::Up <==> p.y >= STICK_DEAD_ZONE
            &&& stick_reading(p) == StickReading::Down <==> p.y <= -STICK_DEAD_ZONE
            &&& stick_reading(p) == StickReading::Up || stick_reading(p) == StickReading::Down
        },
        deflection(p.y) <= deflection(p.x) ==> {
            &&& stick_reading(p) == StickReading::Left <==> p.x < -STICK_DEAD_ZONE
            &&& stick_reading(p) == StickReading::Right <==> p.x > STICK_DEAD_ZONE
            &&& stick_reading(p) != StickReading::Up
            &&& stick_reading(p) != StickReading::Down
        },
{
}

/// The place of the first stick that is not neutral; the number of sticks
/// where all are.
pub open spec fn first_active(sticks: Seq<StickPosition>) -> int {
    first_where(sticks, |p: StickPosition| stick_reading(p) != StickReading::Neutral)
}

/// The menu input of the sticks: the direction of the first stick that is
/// not neutral, and only in the frame in which the sticks leave neutral.
pub open spec fn stick_inputs(was_neutral: bool, sticks: Seq<StickPosition>) -> Seq<ControllerInput> {
    let at = first_active(sticks);
    if at < sticks.len() && was_neutral {
        match stick_reading(sticks[at]) {
            StickReading::Up => seq![ControllerInput::Up],
            StickReading::Down => seq![ControllerInput::Down],
            StickReading::Left => seq![ControllerInput::Left],
            StickReading::Right => seq![ControllerInput::Right],
            _ => Seq::empty(),
        }
    } else {
        Seq::empty()
    }
}

/// The components that are down, in the order in which they are looked
/// at.
pub open spec fn held_components(held: HeldInputs) -> Seq<InputComponentView> {
    one_if(held.guide, InputComponentView::GamepadButton(GamepadButtonType::Mode)) + one_if(
        held.f12,
        InputComponentView::Key("F12"@),
    ) + one_if(held.f3, InputComponentView::Key("F3"@)) + one_if(held.f5, InputComponentView::Key("F5"@))
        + one_if(held.f9, InputComponentView::Key("F9"@)) + one_if(held.o, InputComponentView::Key("O"@))
        + one_if(held.ctrl, InputComponentView::Modifier(ModifierKey::Ctrl)) + one_if(
        held.alt,
        InputComponentView::Modifier(ModifierKey::Alt),
    ) + one_if(held.shift, InputComponentView::Modifier(ModifierKey::Shift))
}

/// The menu input that the press of a gamepad button gives.
pub fn button_input(button: GamepadButtonType) -> (r: Option<ControllerInput>)
    ensures
        r == spec_button_input(button),
{
    match button {
        GamepadButtonType::DPadUp => Some(ControllerInput::Up),
        GamepadButtonType::DPadDown => Some(ControllerInput::Down),
        GamepadButtonType::DPadLeft => Some(ControllerInput::Left),
        GamepadButtonType::DPadRight => Some(ControllerInput::Right),
        GamepadButtonType::South => Some(ControllerInput::Select),
        GamepadButtonType::East => Some(ControllerInput::Back),
        GamepadButtonType::West => Some(ControllerInput::Secondary),
        GamepadButtonType::Mode => Some(ControllerInput::Guide),
        GamepadButtonType::LeftBumper => Some(ControllerInput::LB),
        GamepadButtonType::RightBumper => Some(ControllerInput::RB),
        GamepadButtonType::LeftTrigger => Some(ControllerInput::LT),
        GamepadButtonType::RightTrigger => Some(ControllerInput::RT),
        _ => None,
    }
}

/// Appends `input` to `out` if `present`.
fn push_if(out: &mut Vec<ControllerInput>, present: bool, input: ControllerInput)
    ensures
        final(out)@ == old(out)@ + one_if(present, input),
{
    if present {
        out.push(input);
        assert(out@ =~= old(out)@ + one_if(present, input));
    } else {
        assert(out@ =~= old(out)@ + one_if(present, input));
    }
}

/// Appends `c` to `out` if `present`.
fn push_component_if(out: &mut Vec<InputComponent>, present: bool, c: InputComponent)
    ensures
        component_views(final(out)@) == component_views(old(out)@) + one_if(present, c@),
{
    if present {
        out.push(c);
    }
    assert(component_views(out@) =~= component_views(old(out)@) + one_if(present, c@));
}

/// The components that are down, for the hotkey manager.
pub fn pressed_components(held: HeldInputs) -> (r: Vec<InputComponent>)
    ensures
        component_views(r@) == held_components(held),
{
    let mut out: Vec<InputComponent> = Vec::new();
    assert(component_views(out@) =~= Seq::<InputComponentView>::empty());
    push_component_if(&mut out, held.guide, InputComponent::GamepadButton(GamepadButtonType::Mode));
    push_component_if(&mut out, held.f12, InputComponent::Key(owned("F12")));
    push_component_if(&mut out, held.f3, InputComponent::Key(owned("F3")));
    push_component_if(&mut out, held.f5, InputComponent::Key(owned("F5")));
    push_component_if(&mut out, held.f9, InputComponent::Key(owned("F9")));
    push_component_if(&mut out, held.o, InputComponent::Key(owned("O")));
    push_component_if(&mut out, held.ctrl, InputComponent::Modifier(ModifierKey::Ctrl));
    push_component_if(&mut out, held.alt, InputComponent::Modifier(ModifierKey::Alt));
    push_component_if(&mut out, held.shift, InputComponent::Modifier(ModifierKey::Shift));
    assert(component_views(out@) =~= held_components(held));
    out
}

/// The menu inputs of the keyboard.
fn keyboard_part(keys: MenuKeys) -> (r: Vec<ControllerInput>)
    ensures
        r@ == keyboard_inputs(keys),
{
    let mut inputs: Vec<ControllerInput> = Vec::new();
    push_if(&mut inputs, keys.up, ControllerInput::Up);
    push_if(&mut inputs, keys.down, ControllerInput::Down);
    push_if(&mut inputs, keys.left, ControllerInput::Left);
    push_if(&mut inputs, keys.right, ControllerInput::Right);
    push_if(&mut inputs, keys.enter, ControllerInput::Select);
    push_if(&mut inputs, keys.backspace, ControllerInput::Back);
    push_if(&mut inputs, keys.f12, ControllerInput::Guide);
    push_if(&mut inputs, keys.q, ControllerInput::LB);
    push_if(&mut inputs, keys.e, ControllerInput::RB);
    assert(inputs@ =~= keyboard_inputs(keys));
    inputs
}

/// The menu inputs of the gamepad buttons that went down.
fn buttons_part(buttons: &Vec<GamepadButtonType>) -> (r: Vec<ControllerInput>)
    ensures
        r@ == button_inputs(buttons@),
{
    let mut inputs: Vec<ControllerInput> = Vec::new();
    let mut i: usize = 0;
    while i < buttons.len()
        invariant
            i <= buttons.len(),
            inputs@ == button_inputs(buttons@.take(i as int)),
        decreases buttons.len() - i,
    {
        proof {
            let next = buttons@.take(i as int + 1);
            assert(next.drop_last() == buttons@.take(i as int));
            assert(next.last() == buttons@[i as int]);
        }
        match button_input(buttons[i]) {
            Some(input) => {
                inputs.push(input);
                assert(inputs@ =~= button_inputs(buttons@.take(i as int + 1)));
            },
            None => {
                assert(inputs@ =~= button_inputs(buttons@.take(i as int + 1)));
            },
        }
        i = i + 1;
    }
    proof {
        assert(buttons@.take(buttons.len() as int) == buttons@);
    }
    inputs
}

/// The menu input of the sticks, and whether all sticks are neutral.
fn sticks_part(was_neutral: bool, sticks: &Vec<StickPosition>) -> (r: (Vec<ControllerInput>, bool))
    ensures
        r.0@ == stick_inputs(was_neutral, sticks@),
        r.1 == (first_active(sticks@) >= sticks@.len()),
{
    let ghost active = |p: StickPosition| stick_reading(p) != StickReading::Neutral;
    let mut at: usize = 0;
    while at < sticks.len() && classify_stick(sticks[at]) == StickReading::Neutral
        invariant
            at <= sticks.len(),
            forall|p: StickPosition| #[trigger] active(p) == (stick_reading(p) != StickReading::Neutral),
            forall|k: int| 0 <= k < at ==> !active(#[trigger] sticks@[k]),
        decreases sticks.len() - at,
    {
        at = at + 1;
    }
    proof {
        lemma_first_where_is(sticks@, active, at as int);
    }
    let mut inputs: Vec<ControllerInput> = Vec::new();
    if at < sticks.len() && was_neutral {
        match classify_stick(sticks[at]) {
            StickReading::Up => {
                inputs.push(ControllerInput::Up);
            },
            StickReading::Down => {
                inputs.push(ControllerInput::Down);
            },
            StickReading::Left => {
                inputs.push(ControllerInput::Left);
            },
            StickReading::Right => {
                inputs.push(ControllerInput::Right);
            },
            _ => {},
        }
    }
    assert(inputs@ =~= stick_inputs(was_neutral, sticks@));
    (inputs, at >= sticks.len())
}

/// The overlay's own input: the hotkey manager, and whether the sticks
/// were neutral in the last frame.
pub struct HotkeyMonitor {
    analog_was_neutral: bool,
    hotkey_manager: HotkeyManager,
}

impl HotkeyMonitor {
    /// Whether all sticks were neutral in the last frame.
    pub closed spec fn was_neutral(&self) -> bool {
        self.analog_was_neutral
    }

    /// The hotkey manager.
    pub closed spec fn manager(&self) -> HotkeyManager {
        self.hotkey_manager
    }

    /// A monitor over the given hotkey manager, with the sticks taken to
    /// be neutral.
    pub fn new(hotkey_manager: HotkeyManager) -> (r: HotkeyMonitor)
        ensures
            r.was_neutral(),
            r.manager() == hotkey_manager,
    {
        HotkeyMonitor { analog_was_neutral: true, hotkey_manager }
    }

    /// Whether a hotkey of the action has just gone down.
    fn check_action(&mut self, action: HotkeyAction, held: HeldInputs) -> (r: bool)
        ensures
            final(self).was_neutral() == old(self).was_neutral(),
            final(self).manager().spec_config() == old(self).manager().spec_config(),
            final(self).manager().spec_path() == old(self).manager().spec_path(),
            ({
                let lists = old(self).manager().spec_config().bindings@;
                let at = action_pos(lists, action);
                if at < lists.len() {
                    (r, final(self).manager().states()) == scan(
                        old(self).manager().states(),
                        binding_views(lists[at].bindings@),
                        held_components(held),
                    )
                } else {
                    !r && final(self).manager().states() == old(self).manager().states()
                }
            }),
    {
        let pressed = pressed_components(held);
        self.hotkey_manager.check_action_pressed(action, &pressed)
    }

    /// Whether the hotkey that toggles the overlay has just gone down.
    pub fn check_hotkey_pressed(&mut self, held: HeldInputs) -> (r: bool)
        ensures
            final(self).was_neutral() == old(self).was_neutral(),
            final(self).manager().spec_config() == old(self).manager().spec_config(),
            final(self).manager().spec_path() == old(self).manager().spec_path(),
            ({
                let lists = old(self).manager().spec_config().bindings@;
                let at = action_pos(lists, HotkeyAction::ToggleOverlay);
                if at < lists.len() {
                    (r, final(self).manager().states()) == scan(
                        old(self).manager().states(),
                        binding_views(lists[at].bindings@),
                        held_components(held),
                    )
                } else {
                    !r && final(self).manager().states() == old(self).manager().states()
                }
            }),
    {
        self.check_action(HotkeyAction::ToggleOverlay, held)
    }

    /// Whether the hotkey that toggles the performance display has just
    /// gone down.
    pub fn check_performance_hotkey_pressed(&mut self, held: HeldInputs) -> (r: bool)
        ensures
            final(self).was_neutral() == old(self).was_neutral(),
            final(self).manager().spec_config() == old(self).manager().spec_config(),
            final(self).manager().spec_path() == old(self).manager().spec_path(),
            ({
                let lists = old(self).manager().spec_config().bindings@;
                let at = action_pos(lists, HotkeyAction::TogglePerformance);
                if at < lists.len() {
                    (r, final(self).manager().states()) == scan(
                        old(self).manager().states(),
                        binding_views(lists[at].bindings@),
                        held_components(held),
                    )
                } else {
                    !r && final(self).manager().states() == old(self).manager().states()
                }
            }),
    {
        self.check_action(HotkeyAction::TogglePerformance, held)
    }

    /// The hotkey manager.
    pub fn hotkey_manager(&self) -> (r: &HotkeyManager)
        ensures
            *r == self.manager(),
    {
        &self.hotkey_manager
    }

    /// The hotkey manager, to be changed in place.
    pub fn hotkey_manager_mut(&mut self) -> (r: &mut HotkeyManager)
        ensures
            *r == old(self).manager(),
            final(self).manager() == *final(r),
            final(self).was_neutral() == old(self).was_neutral(),
    {
        &mut self.hotkey_manager
    }

    /// The menu inputs of one frame: those of the keyboard, then those of
    /// the gamepad buttons that went down, in their order, then that of
    /// the sticks. A stick gives an input only in the frame in which the
    /// sticks leave neutral; only the first stick that is not neutral
    /// counts.
    pub fn poll_inputs(&mut self, keys: MenuKeys, buttons: &Vec<GamepadButtonType>, sticks: &Vec<StickPosition>) -> (r:
        Vec<ControllerInput>)
        ensures
            r@ == keyboard_inputs(keys) + button_inputs(buttons@) + stick_inputs(old(self).was_neutral(), sticks@),
            final(self).was_neutral() == (first_active(sticks@) >= sticks@.len()),
            final(self).manager() == old(self).manager(),
    {
        let mut inputs = keyboard_part(keys);
        let mut from_buttons = buttons_part(buttons);
        inputs.append(&mut from_buttons);
        let (mut from_sticks, neutral) = sticks_part(self.analog_was_neutral, sticks);
        inputs.append(&mut from_sticks);
        self.analog_was_neutral = neutral;
        inputs
    }
}

} // verus!
