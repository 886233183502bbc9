//! Hotkey bindings: which combinations of inputs trigger which action, and
//! the detection of the moment at which a combination goes down.

use vstd::prelude::*;
use crate::search::{first_where, lemma_first_where_is};
use crate::text::{join, joined, owned, same_text, views};

verus! {

/// What a hotkey can trigger.
#[derive(Clone, Copy, Debug, PartialEq, Eq, Hash, Structural)]
pub enum HotkeyAction {
    ToggleOverlay,
    TogglePerformance,
    QuickSave,
    QuickLoad,
    Screenshot,
}

/// The buttons of a gamepad.
#[derive(Clone, Copy, Debug, PartialEq, Eq, Hash, Structural)]
pub enum GamepadButtonType {
    South,
    East,
    West,
    North,
    DPadUp,
    DPadDown,
    DPadLeft,
    DPadRight,
    LeftBumper,
    RightBumper,
    LeftTrigger,
    RightTrigger,
    Select,
    Start,
    /// The Guide or Home button.
    Mode,
    LeftStick,
    RightStick,
}

/// The modifier keys of a keyboard.
#[derive(Clone, Copy, Debug, PartialEq, Eq, Hash, Structural)]
pub enum ModifierKey {
    Ctrl,
    Alt,
    Shift,
}

/// One input that can be part of a hotkey.
#[derive(Clone, Debug)]
pub enum InputComponent {
    /// A key of the keyboard, by name.
    Key(String),
    GamepadButton(GamepadButtonType),
    Modifier(ModifierKey),
}

/// An input component with the key name as a sequence.
pub enum InputComponentView {
    Key(Seq<char>),
    GamepadButton(GamepadButtonType),
    Modifier(ModifierKey),
}

impl View for InputComponent {
    type V = InputComponentView;

    open spec fn view(&self) -> InputComponentView {
        match self {
            InputComponent::Key(k) => InputComponentView::Key(k@),
            InputComponent::GamepadButton(b) => InputComponentView::GamepadButton(*b),
            InputComponent::Modifier(m) => InputComponentView::Modifier(*m),
        }
    }
}

/// The views of a run of components.
pub open spec fn component_views(s: Seq<InputComponent>) -> Seq<InputComponentView> {
    Seq::new(s.len(), |i: int| s[i]@)
}

/// A combination of inputs that triggers an action when all are down.
#[derive(Clone, Debug)]
pub struct HotkeyBinding {
    pub components: Vec<InputComponent>,
    pub description: String,
}

/// A binding with its texts as sequences.
pub struct HotkeyBindingView {
    pub components: Seq<InputComponentView>,
    pub description: Seq<char>,
}

impl View for HotkeyBinding {
    type V = HotkeyBindingView;

    open spec fn view(&self) -> HotkeyBindingView {
        HotkeyBindingView { components: component_views(self.components@), description: self.description@ }
    }
}

/// The views of a run of bindings.
pub open spec fn binding_views(s: Seq<HotkeyBinding>) -> Seq<HotkeyBindingView> {
    Seq::new(s.len(), |i: int| s[i]@)
}

/// The bindings of one action.
#[derive(Clone, Debug)]
pub struct ActionBindings {
    pub action: HotkeyAction,
    pub bindings: Vec<HotkeyBinding>,
}

/// All bindings: for each action that has any, its list.
#[derive(Clone, Debug)]
pub struct HotkeyConfig {
    pub bindings: Vec<ActionBindings>,
    pub version: u32,
}

impl GamepadButtonType {
    /// The button of a name.
    pub open spec fn spec_from_name(text: Seq<char>) -> Option<GamepadButtonType> {
        if text == "South"@ {
            Some(GamepadButtonType::South)
        }         else if text == "East"@ {
            Some(GamepadButtonType::East)
        }         else if text == "West"@ {
            Some(GamepadButtonType::West)
        }         else if text == "North"@ {
            Some(GamepadButtonType::North)
        }         else if text == "DPadUp"@ {
            Some(GamepadButtonType::DPadUp)
        }         else if text == "DPadDown"@ {
            Some(GamepadButtonType::DPadDown)
        }         else if text == "DPadLeft"@ {
            Some(GamepadButtonType::DPadLeft)
        }         else if text == "DPadRight"@ {
            Some(GamepadButtonType::DPadRight)
        }         else if text == "LeftBumper"@ {
            Some(GamepadButtonType::LeftBumper)
        }         else if text == "RightBumper"@ {
            Some(GamepadButtonType::RightBumper)
        }         else if text == "LeftTrigger"@ {
            Some(GamepadButtonType::LeftTrigger)
        }         else if text == "RightTrigger"@ {
            Some(GamepadButtonType::RightTrigger)
        }         else if text == "Select"@ {
            Some(GamepadButtonType::Select)
        }         else if text == "Start"@ {
            Some(GamepadButtonType::Start)
        }         else if text == "Mode"@ {
            Some(GamepadButtonType::Mode)
        }         else if text == "LeftStick"@ {
            Some(GamepadButtonType::LeftStick)
        }         else if text == "RightStick"@ {
            Some(GamepadButtonType::RightStick)
        } else {
            None
        }
    }

    /// The button of a name.
    pub fn from_name(text: &str) -> (r: Option<GamepadButtonType>)
        ensures
            r == Self::spec_from_name(text@),
    {
        if same_text(text, "South") {
            Some(GamepadButtonType::South)
        }         else if same_text(text, "East") {
            Some(GamepadButtonType::East)
        }         else if same_text(text, "West") {
            Some(GamepadButtonType::West)
        }         else if same_text(text, "North") {
            Some(GamepadButtonType::North)
        }         else if same_text(text, "DPadUp") {
            Some(GamepadButtonType::DPadUp)
        }         else if same_text(text, "DPadDown") {
            Some(GamepadButtonType::DPadDown)
        }         else if same_text(text, "DPadLeft") {
            Some(GamepadButtonType::DPadLeft)
        }         else if same_text(text, "DPadRight") {
            Some(GamepadButtonType::DPadRight)
        }         else if same_text(text, "LeftBumper") {
            Some(GamepadButtonType::LeftBumper)
        }         else if same_text(text, "RightBumper") {
            Some(GamepadButtonType::RightBumper)
        }         else if same_text(text, "LeftTrigger") {
            Some(GamepadButtonType::LeftTrigger)
        }         else if same_text(text, "RightTrigger") {
            Some(GamepadButtonType::RightTrigger)
        }         else if same_text(text, "Select") {
            Some(GamepadButtonType::Select)
        }         else if same_text(text, "Start") {
            Some(GamepadButtonType::Start)
        }         else if same_text(text, "Mode") {
            Some(GamepadButtonType::Mode)
        }         else if same_text(text, "LeftStick") {
            Some(GamepadButtonType::LeftStick)
        }         else if same_text(text, "RightStick") {
            Some(GamepadButtonType::RightStick)
        } else {
            None
        }
    }

    /// Every button is found again by its name.
    pub proof fn lemma_name_round_trip(button: GamepadButtonType)
        ensures
            Self::spec_from_name(button.spec_name()) == Some(button),
    {
        reveal_strlit("South");
        reveal_strlit("East");
        reveal_strlit("West");
        reveal_strlit("North");
        reveal_strlit("DPadUp");
        reveal_strlit("DPadDown");
        reveal_strlit("DPadLeft");
        reveal_strlit("DPadRight");
        reveal_strlit("LeftBumper");
        reveal_strlit("RightBumper");
        reveal_strlit("LeftTrigger");
        reveal_strlit("RightTrigger");
        reveal_strlit("Select");
        reveal_strlit("Start");
        reveal_strlit("Mode");
        reveal_strlit("LeftStick");
        reveal_strlit("RightStick");
        assert("South"@.len() == 5);
        assert("East"@.len() == 4);
        assert("West"@.len() == 4);
        assert("North"@.len() == 5);
        assert("DPadUp"@.len() == 6);
        assert("DPadDown"@.len() == 8);
        assert("DPadLeft"@.len() == 8);
        assert("DPadRight"@.len() == 9);
        assert("LeftBumper"@.len() == 10);
        assert("RightBumper"@.len() == 11);
        assert("LeftTrigger"@.len() == 11);
        assert("RightTrigger"@.len() == 12);
        assert("Select"@.len() == 6);
        assert("Start"@.len() == 5);
        assert("Mode"@.len() == 4);
        assert("LeftStick"@.len() == 9);
        assert("RightStick"@.len() == 10);
        assert("East"@[0] == 'E');
        assert("West"@[0] == 'W');
        assert("South"@[0] == 'S');
        assert("North"@[0] == 'N');
        assert("DPadDown"@[4] == 'D');
        assert("DPadLeft"@[4] == 'L');
        assert("RightBumper"@[0] == 'R');
        assert("LeftTrigger"@[0] == 'L');
        assert("DPadUp"@[0] == 'D');
        assert("Select"@[0] == 'S');
        assert("South"@[1] == 'o');
        assert("Start"@[1] == 't');
        assert("Start"@[0] == 'S');
        assert("Mode"@[0] == 'M');
        assert("DPadRight"@[0] == 'D');
        assert("LeftStick"@[0] == 'L');
        assert("LeftBumper"@[0] == 'L');
        assert("RightStick"@[0] == 'R');
    }

    /// The name of the button.
    pub open spec fn spec_name(self) -> Seq<char> {
        match self {
            GamepadButtonType::South => "South"@,
            GamepadButtonType::East => "East"@,
            GamepadButtonType::West => "West"@,
            GamepadButtonType::North => "North"@,
            GamepadButtonType::DPadUp => "DPadUp"@,
            GamepadButtonType::DPadDown => "DPadDown"@,
            GamepadButtonType::DPadLeft => "DPadLeft"@,
            GamepadButtonType::DPadRight => "DPadRight"@,
            GamepadButtonType::LeftBumper => "LeftBumper"@,
            GamepadButtonType::RightBumper => "RightBumper"@,
            GamepadButtonType::LeftTrigger => "LeftTrigger"@,
            GamepadButtonType::RightTrigger => "RightTrigger"@,
            GamepadButtonType::Select => "Select"@,
            GamepadButtonType::Start => "Start"@,
            GamepadButtonType::Mode => "Mode"@,
            GamepadButtonType::LeftStick => "LeftStick"@,
            GamepadButtonType::RightStick => "RightStick"@,
        }
    }

    /// The name of the button.
    pub fn name(&self) -> (r: &'static str)
        ensures
            r@ == self.spec_name(),
    {
        match self {
            GamepadButtonType::South => "South",
            GamepadButtonType::East => "East",
            GamepadButtonType::West => "West",
            GamepadButtonType::North => "North",
            GamepadButtonType::DPadUp => "DPadUp",
            GamepadButtonType::DPadDown => "DPadDown",
            GamepadButtonType::DPadLeft => "DPadLeft",
            GamepadButtonType::DPadRight => "DPadRight",
            GamepadButtonType::LeftBumper => "LeftBumper",
            GamepadButtonType::RightBumper => "RightBumper",
            GamepadButtonType::LeftTrigger => "LeftTrigger",
            GamepadButtonType::RightTrigger => "RightTrigger",
            GamepadButtonType::Select => "Select",
            GamepadButtonType::Start => "Start",
            GamepadButtonType::Mode => "Mode",
            GamepadButtonType::LeftStick => "LeftStick",
            GamepadButtonType::RightStick => "RightStick",
        }
    }
}

impl ModifierKey {
    /// The modifier of a name.
    pub open spec fn spec_from_name(text: Seq<char>) -> Option<ModifierKey> {
        if text == "Ctrl"@ {
            Some(ModifierKey::Ctrl)
        }         else if text == "Alt"@ {
            Some(ModifierKey::Alt)
        }         else if text == "Shift"@ {
            Some(ModifierKey::Shift)
        } else {
            None
        }
    }

    /// The modifier of a name.
    pub fn from_name(text: &str) -> (r: Option<ModifierKey>)
        ensures
            r == Self::spec_from_name(text@),
    {
        if same_text(text, "Ctrl") {
            Some(ModifierKey::Ctrl)
        }         else if same_text(text, "Alt") {
            Some(ModifierKey::Alt)
        }         else if same_text(text, "Shift") {
            Some(ModifierKey::Shift)
        } else {
            None
        }
    }

    /// Every modifier is found again by its name.
    pub proof fn lemma_name_round_trip(modifier: ModifierKey)
        ensures
            Self::spec_from_name(modifier.spec_name()) == Some(modifier),
    {
        reveal_strlit("Ctrl");
        reveal_strlit("Alt");
        reveal_strlit("Shift");
        assert("Ctrl"@.len() == 4);
        assert("Alt"@.len() == 3);
        assert("Shift"@.len() == 5);
    }

    /// The name of the modifier.
    pub open spec fn spec_name(self) -> Seq<char> {
        match self {
            ModifierKey::Ctrl => "Ctrl"@,
            ModifierKey::Alt => "Alt"@,
            ModifierKey::Shift => "Shift"@,
        }
    }

    /// The name of the modifier.
    pub fn name(&self) -> (r: &'static str)
        ensures
            r@ == self.spec_name(),
    {
        match self {
            ModifierKey::Ctrl => "Ctrl",
            ModifierKey::Alt => "Alt",
            ModifierKey::Shift => "Shift",
        }
    }
}

impl HotkeyAction {
    /// The name under which the action is kept in the configuration file.
    pub open spec fn spec_stored_name(self) -> Seq<char> {
        match self {
            HotkeyAction::ToggleOverlay => "ToggleOverlay"@,
            HotkeyAction::TogglePerformance => "TogglePerformance"@,
            HotkeyAction::QuickSave => "QuickSave"@,
            HotkeyAction::QuickLoad => "QuickLoad"@,
            HotkeyAction::Screenshot => "Screenshot"@,
        }
    }

    /// The action that is kept under a name in the configuration file.
    pub open spec fn spec_from_stored_name(text: Seq<char>) -> Option<HotkeyAction> {
        if text == "ToggleOverlay"@ {
            Some(HotkeyAction::ToggleOverlay)
        }         else if text == "TogglePerformance"@ {
            Some(HotkeyAction::TogglePerformance)
        }         else if text == "QuickSave"@ {
            Some(HotkeyAction::QuickSave)
        }         else if text == "QuickLoad"@ {
            Some(HotkeyAction::QuickLoad)
        }         else if text == "Screenshot"@ {
            Some(HotkeyAction::Screenshot)
        } else {
            None
        }
    }

    /// The name under which the action is kept in the configuration file.
    pub fn stored_name(&self) -> (r: &'static str)
        ensures
            r@ == self.spec_stored_name(),
    {
        match self {
            HotkeyAction::ToggleOverlay => "ToggleOverlay",
            HotkeyAction::TogglePerformance => "TogglePerformance",
            HotkeyAction::QuickSave => "QuickSave",
            HotkeyAction::QuickLoad => "QuickLoad",
            HotkeyAction::Screenshot => "Screenshot",
        }
    }

    /// The action that is kept under a name in the configuration file.
    pub fn from_stored_name(text: &str) -> (r: Option<HotkeyAction>)
        ensures
            r == Self::spec_from_stored_name(text@),
    {
        if same_text(text, "ToggleOverlay") {
            Some(HotkeyAction::ToggleOverlay)
        }         else if same_text(text, "TogglePerformance") {
            Some(HotkeyAction::TogglePerformance)
        }         else if same_text(text, "QuickSave") {
            Some(HotkeyAction::QuickSave)
        }         else if same_text(text, "QuickLoad") {
            Some(HotkeyAction::QuickLoad)
        }         else if same_text(text, "Screenshot") {
            Some(HotkeyAction::Screenshot)
        } else {
            None
        }
    }

    /// Every action is read back from the name under which it is kept.
    pub proof fn lemma_stored_name_round_trip(action: HotkeyAction)
        ensures
            Self::spec_from_stored_name(action.spec_stored_name()) == Some(action),
    {
        reveal_strlit("ToggleOverlay");
        reveal_strlit("TogglePerformance");
        reveal_strlit("QuickSave");
        reveal_strlit("QuickLoad");
        reveal_strlit("Screenshot");
        assert("ToggleOverlay"@.len() == 13);
        assert("TogglePerformance"@.len() == 17);
        assert("QuickSave"@.len() == 9);
        assert("QuickLoad"@.len() == 9);
        assert("Screenshot"@.len() == 10);
        assert("QuickSave"@[5] == 'S');
        assert("QuickLoad"@[5] == 'L');
    }

    /// What the action does, in words.
    pub open spec fn spec_description(self) -> Seq<char> {
        match self {
            HotkeyAction::ToggleOverlay => "Toggle Overlay Menu"@,
            HotkeyAction::TogglePerformance => "Toggle Performance HUD"@,
            HotkeyAction::QuickSave => "Quick Save"@,
            HotkeyAction::QuickLoad => "Quick Load"@,
            HotkeyAction::Screenshot => "Take Screenshot"@,
        }
    }

    /// Every action, in the order of its declaration.
    pub open spec fn spec_all() -> Seq<HotkeyAction> {
        seq![
            HotkeyAction::ToggleOverlay,
            HotkeyAction::TogglePerformance,
            HotkeyAction::QuickSave,
            HotkeyAction::QuickLoad,
            HotkeyAction::Screenshot,
        ]
    }

    /// What the action does, in words.
    pub fn description(&self) -> (r: &'static str)
        ensures
            r@ == self.spec_description(),
    {
        match self {
            HotkeyAction::ToggleOverlay => "Toggle Overlay Menu",
            HotkeyAction::TogglePerformance => "Toggle Performance HUD",
            HotkeyAction::QuickSave => "Quick Save",
            HotkeyAction::QuickLoad => "Quick Load",
            HotkeyAction::Screenshot => "Take Screenshot",
        }
    }

    /// Every action, in the order of its declaration.
    pub fn all() -> (r: Vec<HotkeyAction>)
        ensures
            r@ == Self::spec_all(),
    {
        let mut v: Vec<HotkeyAction> = Vec::new();
        v.push(HotkeyAction::ToggleOverlay);
        v.push(HotkeyAction::TogglePerformance);
        v.push(HotkeyAction::QuickSave);
        v.push(HotkeyAction::QuickLoad);
        v.push(HotkeyAction::Screenshot);
        assert(v@ =~= Self::spec_all());
        v
    }
}

impl InputComponentView {
    /// The name under which the component is shown.
    pub open spec fn display_name(self) -> Seq<char> {
        match self {
            InputComponentView::Key(k) => k,
            InputComponentView::GamepadButton(b) => b.spec_name(),
            InputComponentView::Modifier(m) => m.spec_name(),
        }
    }
}

impl InputComponent {
    /// The name under which the component is shown.
    pub fn display_name(&self) -> (r: String)
        ensures
            r@ == self@.display_name(),
    {
        match self {
            InputComponent::Key(k) => k.clone(),
            InputComponent::GamepadButton(b) => owned(b.name()),
            InputComponent::Modifier(m) => owned(m.name()),
        }
    }

    /// Whether two components are the same input.
    pub fn same_as(&self, other: &InputComponent) -> (r: bool)
        ensures
            r == (self@ == other@),
    {
        match (self, other) {
            (InputComponent::Key(a), InputComponent::Key(b)) => same_text(a.as_str(), b.as_str()),
            (InputComponent::GamepadButton(a), InputComponent::GamepadButton(b)) => *a == *b,
            (InputComponent::Modifier(a), InputComponent::Modifier(b)) => *a == *b,
            _ => false,
        }
    }

    /// A copy of the component.
    pub fn duplicate(&self) -> (r: InputComponent)
        ensures
            r@ == self@,
    {
        match self {
            InputComponent::Key(k) => InputComponent::Key(k.clone()),
            InputComponent::GamepadButton(b) => InputComponent::GamepadButton(*b),
            InputComponent::Modifier(m) => InputComponent::Modifier(*m),
        }
    }
}

/// Whether two combinations hold the same inputs in the same order.
pub fn same_components(a: &Vec<InputComponent>, b: &Vec<InputComponent>) -> (r: bool)
    ensures
        r == (component_views(a@) == component_views(b@)),
{
    if a.len() != b.len() {
        assert(component_views(a@).len() != component_views(b@).len());
        return false;
    }
    let mut i: usize = 0;
    while i < a.len()
        invariant
            i <= a.len(),
            a.len() == b.len(),
            forall|k: int| 0 <= k < i ==> (#[trigger] a@[k])@ == b@[k]@,
        decreases a.len() - i,
    {
        if !a[i].same_as(&b[i]) {
            assert(component_views(a@)[i as int] != component_views(b@)[i as int]);
            return false;
        }
        i = i + 1;
    }
    assert(component_views(a@) =~= component_views(b@));
    true
}

/// A copy of a combination.
pub fn duplicate_components(a: &Vec<InputComponent>) -> (r: Vec<InputComponent>)
    ensures
        component_views(r@) == component_views(a@),
{
    let mut out: Vec<InputComponent> = Vec::new();
    let mut i: usize = 0;
    while i < a.len()
        invariant
            i <= a.len(),
            out@.len() == i,
            forall|k: int| 0 <= k < i ==> (#[trigger] out@[k])@ == a@[k]@,
        decreases a.len() - i,
    {
        out.push(a[i].duplicate());
        i = i + 1;
    }
    assert(component_views(out@) =~= component_views(a@));
    out
}

/// Whether a component is among those that are down.
pub open spec fn is_down(pressed: Seq<InputComponentView>, c: InputComponentView) -> bool {
    pressed.contains(c)
}

/// Whether every component of a combination is down.
pub open spec fn all_down(components: Seq<InputComponentView>, pressed: Seq<InputComponentView>) -> bool {
    forall|i: int| 0 <= i < components.len() ==> is_down(pressed, #[trigger] components[i])
}

/// The names of the components, in order.
pub open spec fn component_names(components: Seq<InputComponentView>) -> Seq<Seq<char>> {
    Seq::new(components.len(), |i: int| components[i].display_name())
}

impl HotkeyBinding {
    /// A binding of these components.
    pub fn new(components: Vec<InputComponent>, description: String) -> (r: HotkeyBinding)
        ensures
            r.components == components,
            r.description == description,
    {
        HotkeyBinding { components, description }
    }

    /// The binding as it is shown: the names of its components joined by
    /// `+`, or `None` for a binding without components.
    pub fn display_string(&self) -> (r: String)
        ensures
            r@ == if self@.components.len() == 0 {
                "None"@
            } else {
                joined(component_names(self@.components), "+"@)
            },
    {
        if self.components.len() == 0 {
            return owned("None");
        }
        let mut names: Vec<String> = Vec::new();
        let mut i: usize = 0;
        while i < self.components.len()
            invariant
                i <= self.components.len(),
                names@.len() == i,
                forall|k: int| 0 <= k < i ==> (#[trigger] names@[k])@ == self.components@[k]@.display_name(),
            decreases self.components.len() - i,
        {
            names.push(self.components[i].display_name());
            i = i + 1;
        }
        assert(views(names@) =~= component_names(self@.components));
        join(&names, "+")
    }
}

/// The place of an action's list among the lists of a configuration; the
/// number of lists where the action has none.
pub open spec fn action_pos(lists: Seq<ActionBindings>, action: HotkeyAction) -> int {
    first_where(lists, |l: ActionBindings| l.action == action)
}

/// The place of the first binding of these components in a list; the
/// length of the list where there is none.
pub open spec fn binding_pos(list: Seq<HotkeyBindingView>, components: Seq<InputComponentView>) -> int {
    first_where(list, |b: HotkeyBindingView| b.components == components)
}

/// The place of the first list that holds a binding of these components.
pub open spec fn conflict_pos(lists: Seq<ActionBindings>, components: Seq<InputComponentView>) -> int {
    first_where(
        lists,
        |l: ActionBindings|
            binding_pos(binding_views(l.bindings@), components) < binding_views(l.bindings@).len(),
    )
}

/// One binding of a single key.
pub open spec fn key_binding(key: Seq<char>, description: Seq<char>) -> HotkeyBindingView {
    HotkeyBindingView { components: seq![InputComponentView::Key(key)], description }
}

/// The bindings that a fresh configuration gives to an action.
pub open spec fn default_bindings(action: HotkeyAction) -> Seq<HotkeyBindingView> {
    match action {
        HotkeyAction::ToggleOverlay => seq![
            key_binding("F12"@, "F12 key"@),
            HotkeyBindingView {
                components: seq![
                    InputComponentView::Modifier(ModifierKey::Ctrl),
                    InputComponentView::Key("O"@),
                ],
                description: "Ctrl+O"@,
            },
            HotkeyBindingView {
                components: seq![InputComponentView::GamepadButton(GamepadButtonType::Mode)],
                description: "Guide button"@,
            },
        ],
        HotkeyAction::TogglePerformance => seq![key_binding("F3"@, "F3 key"@)],
        HotkeyAction::QuickSave => seq![key_binding("F5"@, "F5 key"@)],
        HotkeyAction::QuickLoad => seq![key_binding("F9"@, "F9 key"@)],
        HotkeyAction::Screenshot => seq![key_binding("F12"@, "F12 key"@)],
    }
}

impl HotkeyConfig {
    /// The configuration is the fresh one: a list for every action, in
    /// the order of their declaration, with the bindings of
    /// [`default_bindings`].
    pub open spec fn is_default(&self) -> bool {
        &&& self.version == 1
        &&& self.bindings@.len() == 5
        &&& forall|i: int|
            0 <= i < 5 ==> (#[trigger] self.bindings@[i]).action == HotkeyAction::spec_all()[i]
                && binding_views(self.bindings@[i].bindings@) == default_bindings(HotkeyAction::spec_all()[i])
    }

    /// A binding of one key.
    fn key(name: &str, description: &str) -> (r: HotkeyBinding)
        ensures
            r@ == key_binding(name@, description@),
    {
        let mut components: Vec<InputComponent> = Vec::new();
        components.push(InputComponent::Key(owned(name)));
        let r = HotkeyBinding { components, description: owned(description) };
        assert(r@.components =~= seq![InputComponentView::Key(name@)]);
        r
    }

    /// The list of one action with a single binding of one key.
    fn single(action: HotkeyAction, name: &str, description: &str) -> (r: ActionBindings)
        ensures
            r.action == action,
            binding_views(r.bindings@) == seq![key_binding(name@, description@)],
    {
        let mut bindings: Vec<HotkeyBinding> = Vec::new();
        bindings.push(Self::key(name, description));
        assert(binding_views(bindings@) =~= seq![key_binding(name@, description@)]);
        ActionBindings { action, bindings }
    }

    /// The fresh configuration: F12, Ctrl+O and the Guide button toggle
    /// the overlay, F3 the performance display; F5 saves, F9 loads, F12
    /// takes a screenshot.
    pub fn default_config() -> (r: HotkeyConfig)
        ensures
            r.is_default(),
    {
        let mut toggle: Vec<HotkeyBinding> = Vec::new();
        toggle.push(Self::key("F12", "F12 key"));
        let mut ctrl_o: Vec<InputComponent> = Vec::new();
        ctrl_o.push(InputComponent::Modifier(ModifierKey::Ctrl));
        ctrl_o.push(InputComponent::Key(owned("O")));
        let second = HotkeyBinding { components: ctrl_o, description: owned("Ctrl+O") };
        assert(second@.components =~= seq![
            InputComponentView::Modifier(ModifierKey::Ctrl),
            InputComponentView::Key("O"@),
        ]);
        toggle.push(second);
        let mut guide: Vec<InputComponent> = Vec::new();
        guide.push(InputComponent::GamepadButton(GamepadButtonType::Mode));
        let third = HotkeyBinding { components: guide, description: owned("Guide button") };
        assert(third@.components =~= seq![InputComponentView::GamepadButton(GamepadButtonType::Mode)]);
        toggle.push(third);
        assert(binding_views(toggle@) =~= default_bindings(HotkeyAction::ToggleOverlay));
        let mut bindings: Vec<ActionBindings> = Vec::new();
        bindings.push(ActionBindings { action: HotkeyAction::ToggleOverlay, bindings: toggle });
        bindings.push(Self::single(HotkeyAction::TogglePerformance, "F3", "F3 key"));
        bindings.push(Self::single(HotkeyAction::QuickSave, "F5", "F5 key"));
        bindings.push(Self::single(HotkeyAction::QuickLoad, "F9", "F9 key"));
        bindings.push(Self::single(HotkeyAction::Screenshot, "F12", "F12 key"));
        HotkeyConfig { bindings, version: 1 }
    }

    /// The place of an action's list, or the number of lists.
    fn find_action(&self, action: HotkeyAction) -> (r: usize)
        ensures
            r == action_pos(self.bindings@, action),
            r <= self.bindings@.len(),
            r < self.bindings@.len() ==> self.bindings@[r as int].action == action,
    {
        let ghost p = |l: ActionBindings| l.action == action;
        let mut i: usize = 0;
        while i < self.bindings.len() && self.bindings[i].action != action
            invariant
                i <= self.bindings.len(),
                forall|l: ActionBindings| #[trigger] p(l) == (l.action == action),
                forall|k: int| 0 <= k < i ==> !p(#[trigger] self.bindings@[k]),
            decreases self.bindings.len() - i,
        {
            assert(!p(self.bindings@[i as int]));
            i = i + 1;
        }
        proof {
            if i < self.bindings.len() {
                assert(p(self.bindings@[i as int]));
            }
            lemma_first_where_is(self.bindings@, p, i as int);
        }
        i
    }
}

impl Default for HotkeyConfig {
    fn default() -> (r: HotkeyConfig)
        ensures
            r.is_default(),
    {
        HotkeyConfig::default_config()
    }
}

/// Whether a combination was down when it was last looked at.
pub struct BindingState {
    pub components: Vec<InputComponent>,
    pub pressed: bool,
}

/// The last look at a combination, with its components as a sequence.
pub struct BindingStateView {
    pub components: Seq<InputComponentView>,
    pub pressed: bool,
}

impl View for BindingState {
    type V = BindingStateView;

    open spec fn view(&self) -> BindingStateView {
        BindingStateView { components: component_views(self.components@), pressed: self.pressed }
    }
}

/// The views of what is remembered of the combinations.
pub open spec fn state_views(s: Seq<BindingState>) -> Seq<BindingStateView> {
    Seq::new(s.len(), |i: int| s[i]@)
}

/// The place at which a combination is remembered; the length where it is
/// not.
pub open spec fn state_pos(states: Seq<BindingStateView>, components: Seq<InputComponentView>) -> int {
    first_where(states, |s: BindingStateView| s.components == components)
}

/// Whether a combination was down at the last look; a combination never
/// looked at was not.
pub open spec fn was_down(states: Seq<BindingStateView>, components: Seq<InputComponentView>) -> bool {
    let at = state_pos(states, components);
    at < states.len() && states[at].pressed
}

/// What is remembered after a look at a combination.
pub open spec fn remembered(
    states: Seq<BindingStateView>,
    components: Seq<InputComponentView>,
    pressed: bool,
) -> Seq<BindingStateView> {
    let at = state_pos(states, components);
    if at < states.len() {
        states.update(at, BindingStateView { components, pressed })
    } else {
        states.push(BindingStateView { components, pressed })
    }
}

/// Looks at the bindings of a list in turn until one is found to have
/// just gone down: the result says whether one was found, and what is
/// remembered of the combinations afterwards. Bindings behind the one
/// found are not looked at.
pub open spec fn scan(
    states: Seq<BindingStateView>,
    list: Seq<HotkeyBindingView>,
    pressed: Seq<InputComponentView>,
) -> (bool, Seq<BindingStateView>)
    decreases list.len(),
{
    if list.len() == 0 {
        (false, states)
    } else {
        let down = all_down(list[0].components, pressed);
        let next = remembered(states, list[0].components, down);
        if down && !was_down(states, list[0].components) {
            (true, next)
        } else {
            scan(next, list.drop_first(), pressed)
        }
    }
}

/// The bindings, where they are kept, and what is remembered of each
/// combination to tell the moment at which it goes down.
pub struct HotkeyManager {
    config: HotkeyConfig,
    config_path: String,
    binding_last_states: Vec<BindingState>,
}

impl HotkeyManager {
    /// The bindings.
    pub closed spec fn spec_config(&self) -> HotkeyConfig {
        self.config
    }

    /// Where the bindings are kept.
    pub closed spec fn spec_path(&self) -> Seq<char> {
        self.config_path@
    }

    /// What is remembered of the combinations.
    pub closed spec fn states(&self) -> Seq<BindingStateView> {
        state_views(self.binding_last_states@)
    }

    /// A manager for the file at `config_path`: it holds what was read
    /// from the file, or the fresh configuration where nothing was. The
    /// second result says whether that fresh configuration is to be
    /// written.
    pub fn from_loaded(config_path: String, loaded: Option<HotkeyConfig>) -> (r: (HotkeyManager, bool))
        ensures
            r.0.spec_path() == config_path@,
            r.0.states().len() == 0,
            r.1 == (loaded is None),
            match loaded {
                Some(c) => r.0.spec_config() == c,
                None => r.0.spec_config().is_default(),
            },
    {
        match loaded {
            Some(config) => (HotkeyManager { config, config_path, binding_last_states: Vec::new() }, false),
            None => (
                HotkeyManager {
                    config: HotkeyConfig::default_config(),
                    config_path,
                    binding_last_states: Vec::new(),
                },
                true,
            ),
        }
    }

    /// Whether a component is among those that are down.
    fn component_down(pressed: &Vec<InputComponent>, c: &InputComponent) -> (r: bool)
        ensures
            r == is_down(component_views(pressed@), c@),
    {
        let mut i: usize = 0;
        while i < pressed.len()
            invariant
                i <= pressed.len(),
                forall|k: int| 0 <= k < i ==> (#[trigger] pressed@[k])@ != c@,
            decreases pressed.len() - i,
        {
            if pressed[i].same_as(c) {
                assert(component_views(pressed@)[i as int] == c@);
                return true;
            }
            i = i + 1;
        }
        proof {
            if component_views(pressed@).contains(c@) {
                let k = choose|k: int| 0 <= k < pressed@.len() && component_views(pressed@)[k] == c@;
                assert(pressed@[k]@ == c@);
            }
        }
        false
    }

    /// Looks at one combination, given the components that are down now.
    /// Returns whether the combination has just gone down: all of it is
    /// down, and at the last look it was not. What is seen is remembered
    /// for the next look.
    pub fn check_binding_pressed(&mut self, components: &Vec<InputComponent>, pressed: &Vec<InputComponent>) -> (r:
        bool)
        ensures
            r == (all_down(component_views(components@), component_views(pressed@)) && !was_down(
                old(self).states(),
                component_views(components@),
            )),
            final(self).states() == remembered(
                old(self).states(),
                component_views(components@),
                all_down(component_views(components@), component_views(pressed@)),
            ),
            final(self).spec_config() == old(self).spec_config(),
            final(self).spec_path() == old(self).spec_path(),
    {
        let ghost key = component_views(components@);
        let ghost down_now = component_views(pressed@);
        let mut all_pressed = true;
        let mut i: usize = 0;
        while i < components.len() && all_pressed
            invariant
                i <= components.len(),
                key == component_views(components@),
                down_now == component_views(pressed@),
                all_pressed ==> forall|k: int| 0 <= k < i ==> is_down(down_now, #[trigger] key[k]),
                !all_pressed ==> !all_down(key, down_now),
            decreases components.len() - i,
        {
            if !Self::component_down(pressed, &components[i]) {
                all_pressed = false;
                assert(!is_down(down_now, key[i as int]));
            }
            i = i + 1;
        }
        let ghost p = |s: BindingStateView| s.components == key;
        let ghost before = self.states();
        let mut at: usize = 0;
        while at < self.binding_last_states.len() && !same_components(
            &self.binding_last_states[at].components,
            components,
        )
            invariant
                at <= self.binding_last_states.len(),
                *self == *old(self),
                before == self.states(),
                key == component_views(components@),
                forall|s: BindingStateView| #[trigger] p(s) == (s.components == key),
                forall|k: int| 0 <= k < at ==> !p(#[trigger] before[k]),
            decreases self.binding_last_states.len() - at,
        {
            assert(!p(before[at as int]));
            at = at + 1;
        }
        proof {
            if at < self.binding_last_states.len() {
                assert(p(before[at as int]));
            }
            lemma_first_where_is(before, p, at as int);
        }
        if at < self.binding_last_states.len() {
            let was_pressed = self.binding_last_states[at].pressed;
            self.binding_last_states[at].pressed = all_pressed;
            assert(self.states() =~= remembered(before, key, all_pressed));
            all_pressed && !was_pressed
        } else {
            self.binding_last_states.push(
                BindingState { components: duplicate_components(components), pressed: all_pressed },
            );
            assert(self.states() =~= remembered(before, key, all_pressed));
            all_pressed
        }
    }

    /// Whether a hotkey of the action has just gone down, given the
    /// components that are down now. The bindings of the action are looked
    /// at in order, up to the first that has just gone down.
    pub fn check_action_pressed(&mut self, action: HotkeyAction, pressed: &Vec<InputComponent>) -> (r: bool)
        ensures
            final(self).spec_config() == old(self).spec_config(),
            final(self).spec_path() == old(self).spec_path(),
            ({
                let lists = old(self).spec_config().bindings@;
                let at = action_pos(lists, action);
                if at < lists.len() {
                    (r, final(self).states()) == scan(
                        old(self).states(),
                        binding_views(lists[at].bindings@),
                        component_views(pressed@),
                    )
                } else {
                    !r && final(self).states() == old(self).states()
                }
            }),
    {
        let at = self.config.find_action(action);
        if at >= self.config.bindings.len() {
            return false;
        }
        let ghost list = binding_views(self.config.bindings@[at as int].bindings@);
        let ghost down_now = component_views(pressed@);
        let n: usize = self.config.bindings[at].bindings.len();
        let mut i: usize = 0;
        assert(list.skip(0) == list);
        while i < n
            invariant
                i <= n,
                at < self.config.bindings@.len(),
                at == action_pos(old(self).spec_config().bindings@, action),
                n == self.config.bindings@[at as int].bindings@.len(),
                self.spec_config() == old(self).spec_config(),
                self.spec_path() == old(self).spec_path(),
                list == binding_views(self.config.bindings@[at as int].bindings@),
                down_now == component_views(pressed@),
                scan(old(self).states(), list, down_now) == scan(self.states(), list.skip(i as int), down_now),
            decreases n - i,
        {
            let components = duplicate_components(&self.config.bindings[at].bindings[i].components);
            proof {
                assert(list.skip(i as int)[0] == list[i as int]);
                assert(list.skip(i as int).drop_first() == list.skip(i as int + 1));
                assert(component_views(components@) == list[i as int].components);
            }
            let ghost seen = self.states();
            let edge = self.check_binding_pressed(&components, pressed);
            proof {
                let here = list.skip(i as int);
                let down = all_down(here[0].components, down_now);
                assert(self.states() == remembered(seen, here[0].components, down));
                assert(edge == (down && !was_down(seen, here[0].components)));
                if edge {
                    assert(scan(seen, here, down_now) == (true, self.states()));
                } else {
                    assert(scan(seen, here, down_now) == scan(self.states(), here.drop_first(), down_now));
                }
            }
            if edge {
                return true;
            }
            i = i + 1;
        }
        proof {
            assert(list.skip(n as int).len() == 0);
        }
        false
    }

    /// The bindings of an action.
    pub fn get_bindings(&self, action: HotkeyAction) -> (r: Option<&Vec<HotkeyBinding>>)
        ensures
            ({
                let lists = self.spec_config().bindings@;
                let at = action_pos(lists, action);
                match r {
                    Some(list) => at < lists.len() && *list == lists[at].bindings,
                    None => at >= lists.len(),
                }
            }),
    {
        let at = self.config.find_action(action);
        if at < self.config.bindings.len() {
            Some(&self.config.bindings[at].bindings)
        } else {
            None
        }
    }

    /// Adds a binding at the end of the action's list; an action without a
    /// list gets one, behind the lists of the other actions.
    pub fn add_binding(&mut self, action: HotkeyAction, binding: HotkeyBinding)
        ensures
            final(self).spec_path() == old(self).spec_path(),
            final(self).states() == old(self).states(),
            final(self).spec_config().version == old(self).spec_config().version,
            ({
                let lists = old(self).spec_config().bindings@;
                let after = final(self).spec_config().bindings@;
                let at = action_pos(lists, action);
                if at < lists.len() {
                    &&& after.len() == lists.len()
                    &&& after[at].action == action
                    &&& after[at].bindings@ == lists[at].bindings@.push(binding)
                    &&& forall|k: int| 0 <= k < lists.len() && k != at ==> #[trigger] after[k] == lists[k]
                } else {
                    &&& after.len() == lists.len() + 1
                    &&& after[at].action == action
                    &&& after[at].bindings@ == seq![binding]
                    &&& forall|k: int| 0 <= k < lists.len() ==> #[trigger] after[k] == lists[k]
                }
            }),
    {
        let at = self.config.find_action(action);
        if at < self.config.bindings.len() {
            self.config.bindings[at].bindings.push(binding);
        } else {
            let mut list: Vec<HotkeyBinding> = Vec::new();
            list.push(binding);
            assert(list@ =~= seq![binding]);
            self.config.bindings.push(ActionBindings { action, bindings: list });
        }
    }

    /// Removes the binding at `index` of the action's list. Returns
    /// whether there was one.
    pub fn remove_binding(&mut self, action: HotkeyAction, index: usize) -> (r: bool)
        ensures
            final(self).spec_path() == old(self).spec_path(),
            final(self).states() == old(self).states(),
            final(self).spec_config().version == old(self).spec_config().version,
            ({
                let lists = old(self).spec_config().bindings@;
                let after = final(self).spec_config().bindings@;
                let at = action_pos(lists, action);
                &&& r == (at < lists.len() && index < lists[at].bindings@.len())
                &&& if r {
                    &&& after.len() == lists.len()
                    &&& after[at].action == action
                    &&& after[at].bindings@ == lists[at].bindings@.remove(index as int)
                    &&& forall|k: int| 0 <= k < lists.len() && k != at ==> #[trigger] after[k] == lists[k]
                } else {
                    final(self).spec_config() == old(self).spec_config()
                }
            }),
    {
        let at = self.config.find_action(action);
        if at < self.config.bindings.len() {
            if index < self.config.bindings[at].bindings.len() {
                let _ = self.config.bindings[at].bindings.remove(index);
                return true;
            }
        }
        false
    }

    /// The action that already has a binding of these components: the
    /// first, in the order of the lists, that has one.
    pub fn has_conflict(&self, components: &Vec<InputComponent>) -> (r: Option<HotkeyAction>)
        ensures
            ({
                let lists = self.spec_config().bindings@;
                let at = conflict_pos(lists, component_views(components@));
                r == if at < lists.len() {
                    Some(lists[at].action)
                } else {
                    None
                }
            }),
    {
        let ghost key = component_views(components@);
        let ghost lists = self.config.bindings@;
        let ghost holds = |l: ActionBindings|
            binding_pos(binding_views(l.bindings@), key) < binding_views(l.bindings@).len();
        let mut i: usize = 0;
        while i < self.config.bindings.len()
            invariant
                i <= self.config.bindings.len(),
                lists == self.config.bindings@,
                key == component_views(components@),
                forall|l: ActionBindings|
                    #[trigger] holds(l) == (binding_pos(binding_views(l.bindings@), key) < binding_views(
                        l.bindings@,
                    ).len()),
                conflict_pos(lists, key) == first_where(lists, holds),
                forall|k: int| 0 <= k < i ==> !holds(#[trigger] lists[k]),
            decreases self.config.bindings.len() - i,
        {
            let ghost list = binding_views(self.config.bindings@[i as int].bindings@);
            let ghost same = |b: HotkeyBindingView| b.components == key;
            let n: usize = self.config.bindings[i].bindings.len();
            let mut j: usize = 0;
            while j < n
                invariant
                    j <= n,
                    i < self.config.bindings@.len(),
                    n == self.config.bindings@[i as int].bindings@.len(),
                    list == binding_views(self.config.bindings@[i as int].bindings@),
                    lists == self.config.bindings@,
                    key == component_views(components@),
                    forall|l: ActionBindings|
                        #[trigger] holds(l) == (binding_pos(binding_views(l.bindings@), key) < binding_views(
                            l.bindings@,
                        ).len()),
                    forall|b: HotkeyBindingView| #[trigger] same(b) == (b.components == key),
                    binding_pos(list, key) == first_where(list, same),
                    conflict_pos(lists, key) == first_where(lists, holds),
                    forall|k: int| 0 <= k < i ==> !holds(#[trigger] lists[k]),
                    forall|k: int| 0 <= k < j ==> !same(#[trigger] list[k]),
                decreases n - j,
            {
                if same_components(&self.config.bindings[i].bindings[j].components, components) {
                    proof {
                        assert(same(list[j as int]));
                        lemma_first_where_is(list, same, j as int);
                        assert(holds(lists[i as int]));
                        lemma_first_where_is(lists, holds, i as int);
                    }
                    return Some(self.config.bindings[i].action);
                }
                j = j + 1;
            }
            proof {
                lemma_first_where_is(list, same, n as int);
                assert(binding_pos(list, key) == first_where(list, same));
                assert(!holds(lists[i as int]));
            }
            i = i + 1;
        }
        proof {
            lemma_first_where_is(lists, holds, lists.len() as int);
        }
        None
    }

    /// The bindings.
    pub fn config(&self) -> (r: &HotkeyConfig)
        ensures
            *r == self.spec_config(),
    {
        &self.config
    }

    /// The bindings, to be changed in place.
    pub fn config_mut(&mut self) -> (r: &mut HotkeyConfig)
        ensures
            *r == old(self).spec_config(),
            final(self).spec_config() == *final(r),
            final(self).spec_path() == old(self).spec_path(),
            final(self).states() == old(self).states(),
    {
        &mut self.config
    }

    /// Where the bindings are kept.
    pub fn config_path(&self) -> (r: &str)
        ensures
            r@ == self.spec_path(),
    {
        self.config_path.as_str()
    }
}

} // verus!
