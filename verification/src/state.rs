//! The overlay's state and the machine that messages and inputs drive.

use vstd::prelude::*;
use crate::achievements::{
    AchievementProgress, AchievementTracker, bump, count_earned, first_with_id, low_u32,
};
use crate::controllers::{CONTROLLER_MENU_OPTIONS, ControllerState};
use crate::input::ControllerInput;
use crate::ipc::{achievement_views, AchievementInfoView, OverlayMessage, OverlayScreen, ToastStyle};
use crate::menu_config::{first_pos, MenuConfigManager, MenuItemId};
use crate::performance::PerformanceStats;
use crate::playtime::{credited, PlaytimeTracker, session_seconds};
use crate::text::{concat2, decimal, number_text, uppercase};
use crate::theme::{color_named, THEME_COUNT, ThemeConfigManager, ThemePreset};
use crate::toast::{retained, ToastManager, ToastView};

verus! {

/// Rows of the main menu that fit on the screen.
pub const MAIN_MENU_MAX_VISIBLE: usize = 6;

/// Rows of the menu customization list that fit on the screen.
pub const MENU_CUSTOMIZATION_MAX_VISIBLE: usize = 6;

/// Number of rows of the menu customization list: one for each entry.
pub const MENU_CUSTOMIZATION_ROWS: usize = 8;

/// Rows of the theme list that fit on the screen.
pub const THEME_MAX_VISIBLE: usize = 5;

/// Number of entries of the settings screen.
pub const SETTINGS_OPTIONS: usize = 2;

/// Frame time at sixty frames a second, in microseconds.
pub const FRAME_TIME_US: u64 = 16_666;

/// Pause between two frames while nothing is drawn, in microseconds.
pub const IDLE_PAUSE_US: u64 = 50_000;

/// File whose appearance asks the running game to end.
pub const QUIT_SIGNAL_FILE: &'static str = "/tmp/kazeta-quit-game";

/// The one line that the quit signal file holds.
pub const QUIT_SIGNAL_LINE: &'static str = "quit";

/// What the quit signal file holds: the one line, ended by a line feed.
pub fn quit_signal_text() -> (r: String)
    ensures
        r@ == QUIT_SIGNAL_LINE@ + "\n"@,
        r@ == "quit\n"@,
{
    proof {
        reveal_strlit("quit");
        reveal_strlit("\n");
        reveal_strlit("quit\n");
        assert("quit"@ + "\n"@ =~= "quit\n"@);
    }
    concat2(QUIT_SIGNAL_LINE, "\n")
}

/// The emulators that are told to end, besides the quit signal file, when
/// the player quits a game.
pub fn emulator_process_names() -> (r: Vec<&'static str>)
    ensures
        r@.len() == 5,
        r@[0]@ == "mgba-qt"@,
        r@[1]@ == "vbam"@,
        r@[2]@ == "visualboyadvance-m"@,
        r@[3]@ == "retroarch"@,
        r@[4]@ == "dolphin-emu"@,
{
    let mut names: Vec<&'static str> = Vec::new();
    names.push("mgba-qt");
    names.push("vbam");
    names.push("visualboyadvance-m");
    names.push("retroarch");
    names.push("dolphin-emu");
    names
}

/// What the process around the state has to do after a step.
#[derive(Clone, Copy, Debug, PartialEq, Eq, Structural)]
pub enum OverlayAction {
    /// Nothing is to be done.
    Nothing,
    /// Write the quit signal file and tell the emulators to end, then
    /// report with [`OverlayState::quit_signalled`].
    SignalQuit,
    /// Write the theme configuration, then report with
    /// [`OverlayState::theme_saved`].
    SaveTheme,
    /// Write the playtime records.
    SavePlaytime,
}

/// Everything that the overlay process keeps between frames.
pub struct OverlayState {
    pub visible: bool,
    pub current_screen: OverlayScreen,
    pub selected_option: usize,
    pub main_menu_scroll_offset: usize,
    pub settings_selected_option: usize,
    pub settings_scroll_offset: usize,
    pub menu_customization_selected: usize,
    pub menu_customization_scroll_offset: usize,
    pub theme_selected: usize,
    pub theme_selection_scroll_offset: usize,
    /// 0 for Cancel, 1 for Quit.
    pub quit_confirm_selected: usize,
    pub toasts: ToastManager,
    pub achievements: AchievementTracker,
    pub controllers: ControllerState,
    pub performance: PerformanceStats,
    pub playtime: PlaytimeTracker,
    pub menu_config: MenuConfigManager,
    pub theme_config: ThemeConfigManager,
}

/// The largest scroll offset of a list: what is left of `total` rows after
/// one screenful.
pub open spec fn max_scroll(max_visible: usize, total: usize) -> usize {
    if total >= max_visible {
        (total - max_visible) as usize
    } else {
        0
    }
}

/// The selected row is on the screen and the list is not scrolled past
/// its end.
pub open spec fn scroll_ok(selected: usize, scroll_offset: usize, max_visible: usize, total: usize) -> bool {
    &&& scroll_offset <= selected
    &&& selected < scroll_offset + max_visible
    &&& scroll_offset <= max_scroll(max_visible, total)
}

/// A list screen is in order: the selection is a row of the list, or the
/// first row of an empty list, and [`scroll_ok`] holds.
pub open spec fn list_ok(selected: usize, scroll_offset: usize, max_visible: usize, total: usize) -> bool {
    &&& selected < total || selected == 0
    &&& scroll_ok(selected, scroll_offset, max_visible, total)
}

/// The scroll offset that shows the selected row with the least scrolling
/// from `scroll_offset`, and does not scroll past the end of the list.
pub open spec fn adjusted_scroll(selected: usize, scroll_offset: usize, max_visible: usize, total: usize) -> usize {
    let shown = if selected < scroll_offset {
        selected
    } else if selected - scroll_offset >= max_visible {
        (selected - max_visible + 1) as usize
    } else {
        scroll_offset
    };
    if shown > max_scroll(max_visible, total) {
        max_scroll(max_visible, total)
    } else {
        shown
    }
}

/// After the scroll offset was adjusted the selected row is on the
/// screen, whatever the offset was before.
pub proof fn lemma_adjusted_scroll_ok(selected: usize, scroll_offset: usize, max_visible: usize, total: usize)
    requires
        max_visible > 0,
        selected < total || selected == 0,
    ensures
        list_ok(selected, adjusted_scroll(selected, scroll_offset, max_visible, total), max_visible, total),
{
}

/// The text of the toast for an unlocked achievement.
pub open spec fn unlock_toast_text(title: Seq<char>, points: u32) -> Seq<char> {
    "\u{1F3C6} "@ + title + " ("@ + decimal(points as nat) + " points)"@
}

/// The toast that a step adds at `now_ms`.
pub open spec fn plain_toast(message: Seq<char>, style: ToastStyle, duration_ms: u64, now_ms: u64) -> ToastView {
    ToastView { message, icon: None, style, created_ms: now_ms, duration_ms }
}

/// `trace` holds the states that a run of messages goes through, each
/// message taking the state at its place to the next, and `actions` what
/// each message asks of the process.
pub open spec fn is_run(
    trace: Seq<OverlayState>,
    messages: Seq<OverlayMessage>,
    now_ms: u64,
    unix_now: u64,
    actions: Seq<OverlayAction>,
) -> bool {
    &&& trace.len() == messages.len() + 1
    &&& actions.len() == messages.len()
    &&& forall|i: int|
        0 <= i < messages.len() ==> (#[trigger] trace[i]).message_step(
            messages[i],
            now_ms,
            unix_now,
            &trace[i + 1],
            actions[i],
        )
}

/// A list of achievements that arrives after the game has stopped meets a
/// cleared tracker: whatever was known of the game before, the tracker
/// then holds the title, the hash and the achievements of that list, with
/// the counts that follow from it, and nothing else.
pub proof fn lemma_list_after_stop_repopulates(
    start: OverlayState,
    stopped: OverlayState,
    end: OverlayState,
    cart_id: String,
    game_title: String,
    game_hash: String,
    achievements: Vec<crate::ipc::AchievementInfo>,
    t1: u64,
    u1: u64,
    t2: u64,
    u2: u64,
    a1: OverlayAction,
    a2: OverlayAction,
)
    requires
        start.message_step(OverlayMessage::GameStopped { cart_id }, t1, u1, &stopped, a1),
        stopped.message_step(
            OverlayMessage::RaAchievementList { game_title, game_hash, achievements },
            t2,
            u2,
            &end,
            a2,
        ),
    ensures
        end.achievements.game_id is None,
        end.achievements.console@.len() == 0,
        end.achievements.game_title == game_title,
        end.achievements.game_hash == game_hash,
        end.achievements.achievements == achievements,
        end.achievements.progress.total == low_u32(achievements@.len()),
        end.achievements.progress.earned == low_u32(count_earned(achievement_views(achievements@))),
        end.achievements.filter.filter == crate::achievements::AchievementFilter::All,
        end.achievements.filter.search_query@.len() == 0,
        end.achievements.filter.selected_filter == 0,
        end.achievements.filter.scroll_offset == 0,
        end.achievements.wf(),
        end.playtime.current_session is None,
{
}

/// No input takes a list screen out of order: where the selected rows
/// were on the screen before an input, they are on the screen after it.
pub proof fn lemma_input_keeps_lists_ok(
    pre: OverlayState,
    input: ControllerInput,
    now_ms: u64,
    post: OverlayState,
    action: OverlayAction,
)
    requires
        pre.lists_ok(),
        pre.input_step(input, now_ms, &post, action),
    ensures
        post.lists_ok(),
{
    let ids = pre.menu_config.spec_config().visible_ids();
    crate::menu_config::lemma_first_pos_range(ids, MenuItemId::Quit);
    crate::menu_config::lemma_first_pos_range(ids, MenuItemId::Controllers);
}

/// No run of inputs takes a list screen out of order: where `trace` holds
/// the states that the inputs lead through, and the first of them is in
/// order, all of them are.
pub proof fn lemma_inputs_keep_lists_ok(
    trace: Seq<OverlayState>,
    inputs: Seq<ControllerInput>,
    times: Seq<u64>,
    actions: Seq<OverlayAction>,
)
    requires
        trace.len() == inputs.len() + 1,
        times.len() == inputs.len(),
        actions.len() == inputs.len(),
        trace[0].lists_ok(),
        forall|i: int|
            0 <= i < inputs.len() ==> (#[trigger] trace[i]).input_step(inputs[i], times[i], &trace[i + 1], actions[i]),
    ensures
        forall|i: int| 0 <= i < trace.len() ==> (#[trigger] trace[i]).lists_ok(),
    decreases inputs.len(),
{
    if inputs.len() > 0 {
        let n = inputs.len() as int;
        lemma_inputs_keep_lists_ok(trace.drop_last(), inputs.drop_last(), times.drop_last(), actions.drop_last());
        assert(trace.drop_last()[n - 1] == trace[n - 1]);
        assert(trace[n - 1].input_step(inputs[n - 1], times[n - 1], &trace[n], actions[n - 1]));
        lemma_input_keeps_lists_ok(trace[n - 1], inputs[n - 1], times[n - 1], trace[n], actions[n - 1]);
        assert forall|i: int| 0 <= i < trace.len() implies (#[trigger] trace[i]).lists_ok() by {
            if i < n {
                assert(trace.drop_last()[i] == trace[i]);
            }
        }
    }
}

impl OverlayState {
    /// Number of entries that the main menu shows.
    pub open spec fn main_menu_rows(&self) -> nat {
        self.menu_config.spec_config().visible_ids().len()
    }

    /// Every list screen has its selected row on the screen, and the parts
    /// of the state are in order.
    pub open spec fn wf(&self) -> bool {
        &&& self.lists_ok()
        &&& self.achievements.wf()
        &&& self.controllers.wf()
    }

    /// On every list screen the selected row is a row of the list and is
    /// on the screen, and the list is not scrolled past its end.
    pub open spec fn lists_ok(&self) -> bool {
        &&& self.main_menu_rows() <= usize::MAX
        &&& list_ok(
            self.selected_option,
            self.main_menu_scroll_offset,
            MAIN_MENU_MAX_VISIBLE,
            self.main_menu_rows() as usize,
        )
        &&& list_ok(
            self.menu_customization_selected,
            self.menu_customization_scroll_offset,
            MENU_CUSTOMIZATION_MAX_VISIBLE,
            MENU_CUSTOMIZATION_ROWS,
        )
        &&& list_ok(self.theme_selected, self.theme_selection_scroll_offset, THEME_MAX_VISIBLE, THEME_COUNT)
    }

    /// The parts other than the toasts are the same in both states.
    pub open spec fn same_parts(&self, other: &OverlayState) -> bool {
        &&& self.achievements == other.achievements
        &&& self.controllers == other.controllers
        &&& self.performance == other.performance
        &&& self.playtime == other.playtime
        &&& self.menu_config == other.menu_config
        &&& self.theme_config == other.theme_config
    }

    /// Screen, selections and scroll offsets are the same in both states.
    pub open spec fn same_navigation(&self, other: &OverlayState) -> bool {
        &&& self.visible == other.visible
        &&& self.current_screen == other.current_screen
        &&& self.selected_option == other.selected_option
        &&& self.main_menu_scroll_offset == other.main_menu_scroll_offset
        &&& self.settings_selected_option == other.settings_selected_option
        &&& self.settings_scroll_offset == other.settings_scroll_offset
        &&& self.menu_customization_selected == other.menu_customization_selected
        &&& self.menu_customization_scroll_offset == other.menu_customization_scroll_offset
        &&& self.theme_selected == other.theme_selected
        &&& self.theme_selection_scroll_offset == other.theme_selection_scroll_offset
        &&& self.quit_confirm_selected == other.quit_confirm_selected
    }

    /// `post` is `self` with one toast more.
    pub open spec fn with_toast(&self, post: &OverlayState, toast: ToastView) -> bool {
        &&& post.same_navigation(self)
        &&& post.same_parts(self)
        &&& post.toasts@ == self.toasts@.push(toast)
    }

    /// `post` is `self` back on the main menu with the entry `id` selected
    /// again; the selection stays where `id` is not shown.
    pub open spec fn back_to_main(&self, post: &OverlayState, id: MenuItemId) -> bool {
        let ids = self.menu_config.spec_config().visible_ids();
        let at = first_pos(ids, id);
        if at < ids.len() {
            *post == (OverlayState {
                current_screen: OverlayScreen::Main,
                selected_option: at as usize,
                main_menu_scroll_offset: adjusted_scroll(
                    at as usize,
                    self.main_menu_scroll_offset,
                    MAIN_MENU_MAX_VISIBLE,
                    ids.len() as usize,
                ),
                ..*self
            })
        } else {
            *post == (OverlayState { current_screen: OverlayScreen::Main, ..*self })
        }
    }

    /// `post` is `self` on the controller menu with the entry at `item`
    /// selected.
    pub open spec fn back_to_controllers(&self, post: &OverlayState, item: usize) -> bool {
        &&& post.visible == self.visible
        &&& post.current_screen == OverlayScreen::Controllers
        &&& post.selected_option == self.selected_option
        &&& post.main_menu_scroll_offset == self.main_menu_scroll_offset
        &&& post.settings_selected_option == self.settings_selected_option
        &&& post.settings_scroll_offset == self.settings_scroll_offset
        &&& post.menu_customization_selected == self.menu_customization_selected
        &&& post.menu_customization_scroll_offset == self.menu_customization_scroll_offset
        &&& post.theme_selected == self.theme_selected
        &&& post.theme_selection_scroll_offset == self.theme_selection_scroll_offset
        &&& post.quit_confirm_selected == self.quit_confirm_selected
        &&& post.toasts == self.toasts
        &&& post.achievements == self.achievements
        &&& post.performance == self.performance
        &&& post.playtime == self.playtime
        &&& post.menu_config == self.menu_config
        &&& post.theme_config == self.theme_config
        &&& post.controllers == (ControllerState { selected_menu_item: item, ..self.controllers })
    }

    /// What an input does on the main menu.
    pub open spec fn main_menu_step(&self, input: ControllerInput, post: &OverlayState, action: OverlayAction) -> bool {
        let ids = self.menu_config.spec_config().visible_ids();
        &&& action == OverlayAction::Nothing
        &&& match input {
            ControllerInput::Up => if self.selected_option > 0 {
                *post == (OverlayState {
                    selected_option: (self.selected_option - 1) as usize,
                    main_menu_scroll_offset: adjusted_scroll(
                        (self.selected_option - 1) as usize,
                        self.main_menu_scroll_offset,
                        MAIN_MENU_MAX_VISIBLE,
                        ids.len() as usize,
                    ),
                    ..*self
                })
            } else {
                *post == *self
            },
            ControllerInput::Down => if self.selected_option + 1 < ids.len() {
                *post == (OverlayState {
                    selected_option: (self.selected_option + 1) as usize,
                    main_menu_scroll_offset: adjusted_scroll(
                        (self.selected_option + 1) as usize,
                        self.main_menu_scroll_offset,
                        MAIN_MENU_MAX_VISIBLE,
                        ids.len() as usize,
                    ),
                    ..*self
                })
            } else {
                *post == *self
            },
            ControllerInput::Select => if self.selected_option < ids.len() {
                match ids[self.selected_option as int] {
                    MenuItemId::Achievements => *post == (OverlayState {
                        current_screen: OverlayScreen::Achievements,
                        ..*self
                    }),
                    MenuItemId::Performance => *post == (OverlayState {
                        current_screen: OverlayScreen::Performance,
                        ..*self
                    }),
                    MenuItemId::Settings => *post == (OverlayState {
                        current_screen: OverlayScreen::Settings,
                        settings_selected_option: 0,
                        ..*self
                    }),
                    MenuItemId::Controllers => self.back_to_controllers(post, 0),
                    MenuItemId::Playtime => *post == (OverlayState {
                        current_screen: OverlayScreen::Playtime,
                        ..*self
                    }),
                    MenuItemId::QuickSave => *post == *self,
                    MenuItemId::Resume => *post == (OverlayState { visible: false, ..*self }),
                    MenuItemId::Quit => *post == (OverlayState {
                        current_screen: OverlayScreen::QuitConfirm,
                        quit_confirm_selected: 0,
                        ..*self
                    }),
                }
            } else {
                *post == *self
            },
            ControllerInput::Back | ControllerInput::Guide => *post == (OverlayState { visible: false, ..*self }),
            _ => *post == *self,
        }
    }

    /// What an input does on a screen that only knows the way back to the
    /// main menu: achievements, performance, playtime.
    pub open spec fn leaf_step(&self, input: ControllerInput, post: &OverlayState, action: OverlayAction) -> bool {
        &&& action == OverlayAction::Nothing
        &&& if input == ControllerInput::Back {
            *post == (OverlayState { current_screen: OverlayScreen::Main, ..*self })
        } else {
            *post == *self
        }
    }

    /// What an input does on the settings screen.
    pub open spec fn settings_step(&self, input: ControllerInput, post: &OverlayState, action: OverlayAction) -> bool {
        &&& action == OverlayAction::Nothing
        &&& match input {
            ControllerInput::Up => if self.settings_selected_option > 0 {
                *post == (OverlayState {
                    settings_selected_option: (self.settings_selected_option - 1) as usize,
                    ..*self
                })
            } else {
                *post == *self
            },
            ControllerInput::Down => if self.settings_selected_option + 1 < SETTINGS_OPTIONS {
                *post == (OverlayState {
                    settings_selected_option: (self.settings_selected_option + 1) as usize,
                    ..*self
                })
            } else {
                *post == *self
            },
            ControllerInput::Select => if self.settings_selected_option == 0 {
                *post == (OverlayState {
                    current_screen: OverlayScreen::MenuCustomization,
                    menu_customization_selected: 0,
                    menu_customization_scroll_offset: 0,
                    ..*self
                })
            } else if self.settings_selected_option == 1 {
                *post == (OverlayState {
                    current_screen: OverlayScreen::ThemeSelection,
                    theme_selected: 0,
                    theme_selection_scroll_offset: 0,
                    ..*self
                })
            } else {
                *post == *self
            },
            ControllerInput::Back => *post == (OverlayState { current_screen: OverlayScreen::Main, ..*self }),
            _ => *post == *self,
        }
    }

    /// What an input does on the controller menu. Its entries are, from
    /// the top: Bluetooth controllers, assign controllers, gamepad tester,
    /// hotkey settings, auto-assign all, back.
    pub open spec fn controllers_step(&self, input: ControllerInput, post: &OverlayState, action: OverlayAction) -> bool {
        let item = self.controllers.selected_menu_item;
        &&& action == OverlayAction::Nothing
        &&& match input {
            ControllerInput::Up => if item > 0 {
                self.back_to_controllers(post, (item - 1) as usize) && self.current_screen == post.current_screen
            } else {
                *post == *self
            },
            ControllerInput::Down => if item + 1 < CONTROLLER_MENU_OPTIONS {
                self.back_to_controllers(post, (item + 1) as usize) && self.current_screen == post.current_screen
            } else {
                *post == *self
            },
            ControllerInput::Select => if item == 0 {
                *post == (OverlayState { current_screen: OverlayScreen::BluetoothPairing, ..*self })
            } else if item == 1 {
                *post == (OverlayState { current_screen: OverlayScreen::ControllerAssign, ..*self })
            } else if item == 2 {
                *post == (OverlayState { current_screen: OverlayScreen::GamepadTester, ..*self })
            } else if item == 3 {
                *post == (OverlayState { current_screen: OverlayScreen::HotkeySettings, ..*self })
            } else if item == 4 {
                &&& post.same_navigation(self)
                &&& post.toasts == self.toasts
                &&& post.achievements == self.achievements
                &&& post.performance == self.performance
                &&& post.playtime == self.playtime
                &&& post.menu_config == self.menu_config
                &&& post.theme_config == self.theme_config
                &&& post.controllers.same_screens(&self.controllers)
                &&& post.controllers.same_controllers(&self.controllers)
                &&& forall|j: int|
                    0 <= j < self.controllers.controllers@.len() ==> (
                    #[trigger] post.controllers.controllers@[j]).assigned_player == if j < 4 {
                        Some((j + 1) as usize)
                    } else {
                        None
                    }
                &&& forall|q: int|
                    0 <= q < 4 ==> #[trigger] post.controllers.player_assignments@[q] == if q
                        < self.controllers.controllers@.len() {
                        Some(self.controllers.controllers@[q].id)
                    } else {
                        None
                    }
            } else if item == 5 {
                self.back_to_main(post, MenuItemId::Controllers)
            } else {
                *post == *self
            },
            ControllerInput::Back => self.back_to_main(post, MenuItemId::Controllers),
            _ => *post == *self,
        }
    }

    /// What an input does on a screen below the controller menu, whose
    /// entry there stands at `item`.
    pub open spec fn controller_leaf_step(
        &self,
        input: ControllerInput,
        item: usize,
        post: &OverlayState,
        action: OverlayAction,
    ) -> bool {
        &&& action == OverlayAction::Nothing
        &&& if input == ControllerInput::Back {
            self.back_to_controllers(post, item)
        } else {
            *post == *self
        }
    }

    /// What an input does on the menu customization screen.
    pub open spec fn menu_customization_step(
        &self,
        input: ControllerInput,
        post: &OverlayState,
        action: OverlayAction,
    ) -> bool {
        &&& action == OverlayAction::Nothing
        &&& match input {
            ControllerInput::Up => if self.menu_customization_selected > 0 {
                *post == (OverlayState {
                    menu_customization_selected: (self.menu_customization_selected - 1) as usize,
                    menu_customization_scroll_offset: adjusted_scroll(
                        (self.menu_customization_selected - 1) as usize,
                        self.menu_customization_scroll_offset,
                        MENU_CUSTOMIZATION_MAX_VISIBLE,
                        MENU_CUSTOMIZATION_ROWS,
                    ),
                    ..*self
                })
            } else {
                *post == *self
            },
            ControllerInput::Down => if self.menu_customization_selected + 1 < MENU_CUSTOMIZATION_ROWS {
                *post == (OverlayState {
                    menu_customization_selected: (self.menu_customization_selected + 1) as usize,
                    menu_customization_scroll_offset: adjusted_scroll(
                        (self.menu_customization_selected + 1) as usize,
                        self.menu_customization_scroll_offset,
                        MENU_CUSTOMIZATION_MAX_VISIBLE,
                        MENU_CUSTOMIZATION_ROWS,
                    ),
                    ..*self
                })
            } else {
                *post == *self
            },
            ControllerInput::Back => *post == (OverlayState {
                current_screen: OverlayScreen::Settings,
                settings_selected_option: 0,
                ..*self
            }),
            _ => *post == *self,
        }
    }

    /// What an input does on the theme screen.
    pub open spec fn theme_selection_step(
        &self,
        input: ControllerInput,
        post: &OverlayState,
        action: OverlayAction,
    ) -> bool {
        match input {
            ControllerInput::Up => action == OverlayAction::Nothing && if self.theme_selected > 0 {
                *post == (OverlayState {
                    theme_selected: (self.theme_selected - 1) as usize,
                    theme_selection_scroll_offset: adjusted_scroll(
                        (self.theme_selected - 1) as usize,
                        self.theme_selection_scroll_offset,
                        THEME_MAX_VISIBLE,
                        THEME_COUNT,
                    ),
                    ..*self
                })
            } else {
                *post == *self
            },
            ControllerInput::Down => action == OverlayAction::Nothing && if self.theme_selected + 1 < THEME_COUNT {
                *post == (OverlayState {
                    theme_selected: (self.theme_selected + 1) as usize,
                    theme_selection_scroll_offset: adjusted_scroll(
                        (self.theme_selected + 1) as usize,
                        self.theme_selection_scroll_offset,
                        THEME_MAX_VISIBLE,
                        THEME_COUNT,
                    ),
                    ..*self
                })
            } else {
                *post == *self
            },
            ControllerInput::Select => if self.theme_selected < THEME_COUNT {
                let preset = ThemePreset::all()[self.theme_selected as int];
                &&& action == OverlayAction::SaveTheme
                &&& post.same_navigation(self)
                &&& post.toasts == self.toasts
                &&& post.achievements == self.achievements
                &&& post.controllers == self.controllers
                &&& post.performance == self.performance
                &&& post.playtime == self.playtime
                &&& post.menu_config == self.menu_config
                &&& post.theme_config.spec_preset() == preset
                &&& post.theme_config.spec_theme_name() == preset.spec_name()
                &&& post.theme_config.spec_path() == self.theme_config.spec_path()
                &&& post.theme_config.spec_colors() == self.theme_config.spec_colors()
            } else {
                action == OverlayAction::Nothing && *post == *self
            },
            ControllerInput::Back => action == OverlayAction::Nothing && *post == (OverlayState {
                current_screen: OverlayScreen::Settings,
                settings_selected_option: 1,
                ..*self
            }),
            _ => action == OverlayAction::Nothing && *post == *self,
        }
    }

    /// What an input does on the quit dialog: any direction changes
    /// between Cancel and Quit; Select on Quit announces the return to the
    /// BIOS and asks for the quit signal; Select on Cancel, and Back in
    /// any case, return to the main menu with its Quit entry selected.
    pub open spec fn quit_confirm_step(
        &self,
        input: ControllerInput,
        now_ms: u64,
        post: &OverlayState,
        action: OverlayAction,
    ) -> bool {
        match input {
            ControllerInput::Up | ControllerInput::Down | ControllerInput::Left | ControllerInput::Right => {
                &&& action == OverlayAction::Nothing
                &&& *post == (OverlayState {
                    quit_confirm_selected: if self.quit_confirm_selected == 0 {
                        1
                    } else {
                        0
                    },
                    ..*self
                })
            },
            ControllerInput::Select => if self.quit_confirm_selected == 1 {
                &&& action == OverlayAction::SignalQuit
                &&& self.with_toast(post, plain_toast("Returning to BIOS..."@, ToastStyle::Info, 2000, now_ms))
            } else {
                action == OverlayAction::Nothing && self.back_to_main(post, MenuItemId::Quit)
            },
            ControllerInput::Back => action == OverlayAction::Nothing && self.back_to_main(post, MenuItemId::Quit),
            _ => action == OverlayAction::Nothing && *post == *self,
        }
    }

    /// What an input does to a visible overlay, screen by screen. A hidden
    /// overlay takes no input.
    pub open spec fn input_step(
        &self,
        input: ControllerInput,
        now_ms: u64,
        post: &OverlayState,
        action: OverlayAction,
    ) -> bool {
        if !self.visible {
            action == OverlayAction::Nothing && *post == *self
        } else {
            match self.current_screen {
                OverlayScreen::Main => self.main_menu_step(input, post, action),
                OverlayScreen::Achievements => self.leaf_step(input, post, action),
                OverlayScreen::Performance => self.leaf_step(input, post, action),
                OverlayScreen::Playtime => self.leaf_step(input, post, action),
                OverlayScreen::Settings => self.settings_step(input, post, action),
                OverlayScreen::Controllers => self.controllers_step(input, post, action),
                OverlayScreen::BluetoothPairing => self.controller_leaf_step(input, 0, post, action),
                OverlayScreen::ControllerAssign => self.controller_leaf_step(input, 1, post, action),
                OverlayScreen::GamepadTester => self.controller_leaf_step(input, 2, post, action),
                OverlayScreen::HotkeySettings => self.controller_leaf_step(input, 3, post, action),
                OverlayScreen::MenuCustomization => self.menu_customization_step(input, post, action),
                OverlayScreen::ThemeSelection => self.theme_selection_step(input, post, action),
                OverlayScreen::QuitConfirm => self.quit_confirm_step(input, now_ms, post, action),
            }
        }
    }

    /// The overlay after its visibility was toggled: a shown overlay is
    /// hidden; a hidden one opens on the main menu with the first entry
    /// selected, whatever it showed before.
    pub open spec fn toggled(&self, post: &OverlayState) -> bool {
        if self.visible {
            *post == (OverlayState { visible: false, ..*self })
        } else {
            *post == (OverlayState {
                visible: true,
                current_screen: OverlayScreen::Main,
                selected_option: 0,
                main_menu_scroll_offset: 0,
                ..*self
            })
        }
    }

    /// `post` differs from `self` in the playtime records only, where the
    /// session that ran, if any, was ended at `now_ms` and recorded.
    pub open spec fn session_ended(&self, post: &OverlayState, now_ms: u64, unix_now: u64) -> bool {
        &&& post.same_navigation(self)
        &&& post.toasts == self.toasts
        &&& post.controllers == self.controllers
        &&& post.performance == self.performance
        &&& post.menu_config == self.menu_config
        &&& post.theme_config == self.theme_config
        &&& post.playtime.database@ == match self.playtime.current_session {
            Some(s) => credited(self.playtime.database@, s.cart_id@, session_seconds(s.start_ms, now_ms), unix_now),
            None => self.playtime.database@,
        }
    }

    /// What a message does to the state, and what it asks of the process.
    pub open spec fn message_step(
        &self,
        message: OverlayMessage,
        now_ms: u64,
        unix_now: u64,
        post: &OverlayState,
        action: OverlayAction,
    ) -> bool {
        match message {
            OverlayMessage::ShowOverlay { screen } => {
                &&& action == OverlayAction::Nothing
                &&& *post == (OverlayState { visible: true, current_screen: screen, ..*self })
            },
            OverlayMessage::HideOverlay => {
                &&& action == OverlayAction::Nothing
                &&& *post == (OverlayState { visible: false, ..*self })
            },
            OverlayMessage::ToggleOverlay => action == OverlayAction::Nothing && self.toggled(post),
            OverlayMessage::ShowToast { message, icon, duration_ms, style } => {
                &&& action == OverlayAction::Nothing
                &&& self.with_toast(
                    post,
                    ToastView {
                        message: message@,
                        icon: crate::text::option_view(icon),
                        style,
                        created_ms: now_ms,
                        duration_ms: duration_ms as u64,
                    },
                )
            },
            OverlayMessage::GameStarted { cart_id, game_name, runtime } => {
                &&& action == if self.playtime.current_session is Some {
                    OverlayAction::SavePlaytime
                } else {
                    OverlayAction::Nothing
                }
                &&& self.session_ended(post, now_ms, unix_now)
                &&& post.achievements == self.achievements
                &&& post.playtime.current_session matches Some(s) && s.cart_id == cart_id && s.start_ms
                    == now_ms
            },
            OverlayMessage::GameStopped { cart_id } => {
                &&& action == if self.playtime.current_session is Some {
                    OverlayAction::SavePlaytime
                } else {
                    OverlayAction::Nothing
                }
                &&& self.session_ended(post, now_ms, unix_now)
                &&& post.playtime.current_session is None
                &&& post.achievements.is_cleared()
                &&& post.achievements.wf()
            },
            OverlayMessage::RaGameStart {
                game_title,
                game_id,
                game_icon,
                total_achievements,
                earned_achievements,
            } => {
                &&& action == OverlayAction::Nothing
                &&& post.same_navigation(self)
                &&& post.toasts == self.toasts
                &&& post.controllers == self.controllers
                &&& post.performance == self.performance
                &&& post.playtime == self.playtime
                &&& post.menu_config == self.menu_config
                &&& post.theme_config == self.theme_config
                &&& post.achievements == (AchievementTracker {
                    game_id,
                    game_title,
                    progress: AchievementProgress { total: total_achievements, earned: earned_achievements },
                    ..self.achievements
                })
            },
            OverlayMessage::RaAchievementList { game_title, game_hash, achievements } => {
                &&& action == OverlayAction::Nothing
                &&& post.same_navigation(self)
                &&& post.toasts == self.toasts
                &&& post.controllers == self.controllers
                &&& post.performance == self.performance
                &&& post.playtime == self.playtime
                &&& post.menu_config == self.menu_config
                &&& post.theme_config == self.theme_config
                &&& post.achievements.game_title == game_title
                &&& post.achievements.game_hash == game_hash
                &&& post.achievements.achievements == achievements
                &&& post.achievements.progress == (AchievementProgress {
                    total: low_u32(achievements@.len()),
                    earned: low_u32(count_earned(achievement_views(achievements@))),
                })
                &&& post.achievements.game_id == self.achievements.game_id
                &&& post.achievements.console == self.achievements.console
                &&& post.achievements.filter.filter == self.achievements.filter.filter
                &&& post.achievements.filter.search_query == self.achievements.filter.search_query
                &&& post.achievements.filter.selected_filter == self.achievements.filter.selected_filter
                &&& post.achievements.filter.scroll_offset == self.achievements.filter.scroll_offset
                &&& post.achievements.wf()
            },
            OverlayMessage::RaAchievementUnlocked {
                achievement_id,
                title,
                description,
                points,
                icon_url,
                is_hardcore,
            } => {
                let before = achievement_views(self.achievements.achievements@);
                let after = achievement_views(post.achievements.achievements@);
                let at = first_with_id(before, achievement_id);
                &&& action == OverlayAction::Nothing
                &&& post.same_navigation(self)
                &&& post.controllers == self.controllers
                &&& post.performance == self.performance
                &&& post.playtime == self.playtime
                &&& post.menu_config == self.menu_config
                &&& post.theme_config == self.theme_config
                &&& post.toasts@ == self.toasts@.push(
                    plain_toast(unlock_toast_text(title@, points), ToastStyle::Success, 5000, now_ms),
                )
                &&& post.achievements.wf()
                &&& post.achievements.game_id == self.achievements.game_id
                &&& post.achievements.game_title == self.achievements.game_title
                &&& post.achievements.console == self.achievements.console
                &&& post.achievements.game_hash == self.achievements.game_hash
                &&& post.achievements.progress.total == self.achievements.progress.total
                &&& if at < before.len() && !before[at].earned {
                    &&& after == before.update(at, AchievementInfoView { earned: true, ..before[at] })
                    &&& post.achievements.progress.earned == bump(self.achievements.progress.earned)
                } else {
                    &&& after == before
                    &&& post.achievements.progress.earned == self.achievements.progress.earned
                }
            },
            OverlayMessage::RaProgressUpdate { earned, total } => {
                &&& action == OverlayAction::Nothing
                &&& post.same_navigation(self)
                &&& post.toasts == self.toasts
                &&& post.controllers == self.controllers
                &&& post.performance == self.performance
                &&& post.playtime == self.playtime
                &&& post.menu_config == self.menu_config
                &&& post.theme_config == self.theme_config
                &&& post.achievements == (AchievementTracker {
                    progress: AchievementProgress { total, earned },
                    ..self.achievements
                })
            },
            OverlayMessage::SetTheme { font_color, cursor_color } => {
                &&& action == OverlayAction::Nothing
                &&& post.same_navigation(self)
                &&& post.toasts == self.toasts
                &&& post.achievements == self.achievements
                &&& post.controllers == self.controllers
                &&& post.performance == self.performance
                &&& post.playtime == self.playtime
                &&& post.menu_config == self.menu_config
                &&& post.theme_config.spec_path() == self.theme_config.spec_path()
                &&& post.theme_config.spec_theme_name() == self.theme_config.spec_theme_name()
                &&& post.theme_config.spec_preset() == self.theme_config.spec_preset()
                &&& post.theme_config.spec_colors() == (
                    Some(color_named(uppercase(font_color@))),
                    Some(color_named(uppercase(cursor_color@))),
                )
            },
            OverlayMessage::QuitGame => action == OverlayAction::SignalQuit && *post == *self,
            OverlayMessage::QuitGameAck => {
                &&& action == OverlayAction::Nothing
                &&& self.with_toast(post, plain_toast("Returning to BIOS..."@, ToastStyle::Info, 2000, now_ms))
            },
            OverlayMessage::GetStatus => action == OverlayAction::Nothing && *post == *self,
            OverlayMessage::UnlockAchievement { .. } => action == OverlayAction::Nothing && *post == *self,
        }
    }
}

impl OverlayState {
    /// A hidden overlay on the main menu, with no toast and no game, over
    /// the records and configurations that were read.
    pub fn new(
        playtime: PlaytimeTracker,
        menu_config: MenuConfigManager,
        theme_config: ThemeConfigManager,
        now_us: u64,
    ) -> (r: OverlayState)
        ensures
            r.wf(),
            !r.visible,
            r.current_screen == OverlayScreen::Main,
            r.selected_option == 0,
            r.main_menu_scroll_offset == 0,
            r.settings_selected_option == 0,
            r.settings_scroll_offset == 0,
            r.menu_customization_selected == 0,
            r.menu_customization_scroll_offset == 0,
            r.theme_selected == 0,
            r.theme_selection_scroll_offset == 0,
            r.quit_confirm_selected == 0,
            r.toasts@.len() == 0,
            r.achievements.is_cleared(),
            r.controllers.controllers@.len() == 0,
            r.controllers.player_assignments@ == seq![None::<usize>, None, None, None],
            r.controllers.selected_menu_item == 0,
            r.controllers.error_message is None,
            r.controllers.success_message is None,
            r.performance.frames().len() == 0,
            r.performance.last_frame() == now_us,
            !r.performance.shown(),
            r.playtime == playtime,
            r.menu_config == menu_config,
            r.theme_config == theme_config,
    {
        proof {
            crate::menu_config::lemma_visible_rows_bounded(menu_config.spec_config());
        }
        let r = OverlayState {
            visible: false,
            current_screen: OverlayScreen::Main,
            selected_option: 0,
            main_menu_scroll_offset: 0,
            settings_selected_option: 0,
            settings_scroll_offset: 0,
            menu_customization_selected: 0,
            menu_customization_scroll_offset: 0,
            theme_selected: 0,
            theme_selection_scroll_offset: 0,
            quit_confirm_selected: 0,
            toasts: ToastManager::new(),
            achievements: AchievementTracker::new(),
            controllers: ControllerState::new(now_us / 1000),
            performance: PerformanceStats::new(now_us),
            playtime,
            menu_config,
            theme_config,
        };
        r
    }

    /// Hides a shown overlay; opens a hidden one on the main menu.
    pub fn toggle_visibility(&mut self)
        ensures
            old(self).toggled(final(self)),
            old(self).wf() ==> final(self).wf(),
    {
        self.visible = !self.visible;
        if self.visible {
            self.current_screen = OverlayScreen::Main;
            self.selected_option = 0;
            self.main_menu_scroll_offset = 0;
        }
    }

    /// Whether the overlay is shown.
    pub fn is_visible(&self) -> (r: bool)
        ensures
            r == self.visible,
    {
        self.visible
    }

    /// Whether a frame has anything of the overlay to draw: its menus, or
    /// toasts over an otherwise empty frame.
    pub fn should_render(&self) -> (r: bool)
        ensures
            r == (self.visible || self.toasts@.len() > 0),
    {
        self.visible || !self.toasts.is_empty()
    }

    /// How long to pause after a frame that took `elapsed_us`: the fixed
    /// idle pause while neither overlay, toasts nor performance display
    /// are drawn, else what is left of a sixtieth of a second.
    pub fn frame_pause_us(&self, elapsed_us: u64) -> (r: u64)
        ensures
            r == if !(self.visible || self.toasts@.len() > 0) && !self.performance.shown() {
                IDLE_PAUSE_US
            } else if elapsed_us < FRAME_TIME_US {
                (FRAME_TIME_US - elapsed_us) as u64
            } else {
                0
            },
    {
        if !self.should_render() && !self.performance.is_visible() {
            IDLE_PAUSE_US
        } else if elapsed_us < FRAME_TIME_US {
            FRAME_TIME_US - elapsed_us
        } else {
            0
        }
    }

    /// Lets time pass: toasts that have used up their duration at `now_ms`
    /// leave the queue, and a success message of the controller screens
    /// leaves after three seconds.
    pub fn update(&mut self, now_ms: u64)
        ensures
            final(self).toasts@ == retained(old(self).toasts@, now_ms),
            final(self).same_navigation(old(self)),
            final(self).achievements == old(self).achievements,
            final(self).performance == old(self).performance,
            final(self).playtime == old(self).playtime,
            final(self).menu_config == old(self).menu_config,
            final(self).theme_config == old(self).theme_config,
            final(self).controllers == (ControllerState {
                success_message: old(self).controllers.success_at(now_ms),
                ..old(self).controllers
            }),
            old(self).wf() ==> final(self).wf(),
    {
        self.toasts.update(now_ms);
        self.controllers.update_messages(now_ms);
    }

    /// The scroll offset that shows the selected row.
    fn scroll_for(selected: usize, scroll_offset: usize, max_visible: usize, total: usize) -> (r: usize)
        requires
            max_visible > 0,
        ensures
            r == adjusted_scroll(selected, scroll_offset, max_visible, total),
    {
        let shown: usize = if selected < scroll_offset {
            selected
        } else if selected - scroll_offset >= max_visible {
            selected - max_visible + 1
        } else {
            scroll_offset
        };
        let limit: usize = if total >= max_visible {
            total - max_visible
        } else {
            0
        };
        if shown > limit {
            limit
        } else {
            shown
        }
    }

    /// Moves a list's scroll offset so that the selected row is shown and
    /// the list is not scrolled past its end.
    pub fn adjust_scroll_offset(selected: usize, scroll_offset: &mut usize, max_visible: usize, total_items: usize)
        requires
            max_visible > 0,
        ensures
            *final(scroll_offset) == adjusted_scroll(selected, *old(scroll_offset), max_visible, total_items),
            selected < total_items || selected == 0 ==> list_ok(
                selected,
                *final(scroll_offset),
                max_visible,
                total_items,
            ),
    {
        *scroll_offset = Self::scroll_for(selected, *scroll_offset, max_visible, total_items);
    }

    /// Brings the main menu's selection back onto the list after the menu
    /// configuration was changed: a selection past the end moves to the
    /// last row, and the scroll offset follows.
    pub fn clamp_selection(&mut self)
        ensures
            final(self).selected_option == if old(self).selected_option < old(self).main_menu_rows() {
                old(self).selected_option
            } else if old(self).main_menu_rows() == 0 {
                0
            } else {
                (old(self).main_menu_rows() - 1) as usize
            },
            final(self).main_menu_scroll_offset == adjusted_scroll(
                final(self).selected_option,
                old(self).main_menu_scroll_offset,
                MAIN_MENU_MAX_VISIBLE,
                old(self).main_menu_rows() as usize,
            ),
            list_ok(
                final(self).selected_option,
                final(self).main_menu_scroll_offset,
                MAIN_MENU_MAX_VISIBLE,
                final(self).main_menu_rows() as usize,
            ),
            *final(self) == (OverlayState {
                selected_option: final(self).selected_option,
                main_menu_scroll_offset: final(self).main_menu_scroll_offset,
                ..*old(self)
            }),
    {
        let rows: usize = self.menu_config.config().get_visible_items().len();
        if self.selected_option >= rows {
            self.selected_option = if rows == 0 {
                0
            } else {
                rows - 1
            };
        }
        self.main_menu_scroll_offset = Self::scroll_for(
            self.selected_option,
            self.main_menu_scroll_offset,
            MAIN_MENU_MAX_VISIBLE,
            rows,
        );
    }

    /// Returns to the main menu with the entry `id` selected again.
    fn return_to_main(&mut self, id: MenuItemId)
        ensures
            old(self).back_to_main(final(self), id),
            old(self).wf() ==> final(self).wf(),
    {
        let rows: usize = self.menu_config.config().get_visible_items().len();
        self.current_screen = OverlayScreen::Main;
        match self.menu_config.config().get_visible_index(id) {
            Some(at) => {
                self.selected_option = at;
                self.main_menu_scroll_offset = Self::scroll_for(
                    at,
                    self.main_menu_scroll_offset,
                    MAIN_MENU_MAX_VISIBLE,
                    rows,
                );
            },
            None => {},
        }
    }

    /// Returns to the controller menu with the entry at `item` selected.
    fn return_to_controllers(&mut self, item: usize)
        ensures
            old(self).back_to_controllers(final(self), item),
            old(self).wf() ==> final(self).wf(),
    {
        self.current_screen = OverlayScreen::Controllers;
        self.controllers.selected_menu_item = item;
    }

    fn handle_main_menu_input(&mut self, input: ControllerInput) -> (action: OverlayAction)
        ensures
            old(self).main_menu_step(input, final(self), action),
            old(self).wf() ==> final(self).wf(),
    {
        let visible_items = self.menu_config.config().get_visible_items();
        let item_count: usize = visible_items.len();
        match input {
            ControllerInput::Up => {
                if self.selected_option > 0 {
                    self.selected_option = self.selected_option - 1;
                    self.main_menu_scroll_offset = Self::scroll_for(
                        self.selected_option,
                        self.main_menu_scroll_offset,
                        MAIN_MENU_MAX_VISIBLE,
                        item_count,
                    );
                }
            },
            ControllerInput::Down => {
                if item_count > 0 && self.selected_option < item_count - 1 {
                    self.selected_option = self.selected_option + 1;
                    self.main_menu_scroll_offset = Self::scroll_for(
                        self.selected_option,
                        self.main_menu_scroll_offset,
                        MAIN_MENU_MAX_VISIBLE,
                        item_count,
                    );
                }
            },
            ControllerInput::Select => {
                if self.selected_option < item_count {
                    match visible_items[self.selected_option] {
                        MenuItemId::Achievements => {
                            self.current_screen = OverlayScreen::Achievements;
                        },
                        MenuItemId::Performance => {
                            self.current_screen = OverlayScreen::Performance;
                        },
                        MenuItemId::Settings => {
                            self.current_screen = OverlayScreen::Settings;
                            self.settings_selected_option = 0;
                        },
                        MenuItemId::Controllers => {
                            self.return_to_controllers(0);
                        },
                        MenuItemId::Playtime => {
                            self.current_screen = OverlayScreen::Playtime;
                        },
                        MenuItemId::QuickSave => {},
                        MenuItemId::Resume => {
                            self.visible = false;
                        },
                        MenuItemId::Quit => {
                            self.current_screen = OverlayScreen::QuitConfirm;
                            self.quit_confirm_selected = 0;
                        },
                    }
                }
            },
            ControllerInput::Back | ControllerInput::Guide => {
                self.visible = false;
            },
            _ => {},
        }
        OverlayAction::Nothing
    }

    fn handle_leaf_input(&mut self, input: ControllerInput) -> (action: OverlayAction)
        ensures
            old(self).leaf_step(input, final(self), action),
            old(self).wf() ==> final(self).wf(),
    {
        match input {
            ControllerInput::Back => {
                self.current_screen = OverlayScreen::Main;
            },
            _ => {},
        }
        OverlayAction::Nothing
    }

    fn handle_settings_input(&mut self, input: ControllerInput) -> (action: OverlayAction)
        ensures
            old(self).settings_step(input, final(self), action),
            old(self).wf() ==> final(self).wf(),
    {
        match input {
            ControllerInput::Up => {
                if self.settings_selected_option > 0 {
                    self.settings_selected_option = self.settings_selected_option - 1;
                }
            },
            ControllerInput::Down => {
                if self.settings_selected_option < SETTINGS_OPTIONS - 1 {
                    self.settings_selected_option = self.settings_selected_option + 1;
                }
            },
            ControllerInput::Select => {
                if self.settings_selected_option == 0 {
                    self.current_screen = OverlayScreen::MenuCustomization;
                    self.menu_customization_selected = 0;
                    self.menu_customization_scroll_offset = 0;
                } else if self.settings_selected_option == 1 {
                    self.current_screen = OverlayScreen::ThemeSelection;
                    self.theme_selected = 0;
                    self.theme_selection_scroll_offset = 0;
                }
            },
            ControllerInput::Back => {
                self.current_screen = OverlayScreen::Main;
            },
            _ => {},
        }
        OverlayAction::Nothing
    }

    fn handle_controllers_input(&mut self, input: ControllerInput) -> (action: OverlayAction)
        requires
            old(self).current_screen == OverlayScreen::Controllers,
        ensures
            old(self).controllers_step(input, final(self), action),
            old(self).wf() ==> final(self).wf(),
    {
        let item: usize = self.controllers.selected_menu_item;
        match input {
            ControllerInput::Up => {
                if item > 0 {
                    self.controllers.selected_menu_item = item - 1;
                }
            },
            ControllerInput::Down => {
                if item < CONTROLLER_MENU_OPTIONS - 1 {
                    self.controllers.selected_menu_item = item + 1;
                }
            },
            ControllerInput::Select => {
                if item == 0 {
                    self.current_screen = OverlayScreen::BluetoothPairing;
                } else if item == 1 {
                    self.current_screen = OverlayScreen::ControllerAssign;
                } else if item == 2 {
                    self.current_screen = OverlayScreen::GamepadTester;
                } else if item == 3 {
                    self.current_screen = OverlayScreen::HotkeySettings;
                } else if item == 4 {
                    self.controllers.auto_assign_all();
                } else if item == 5 {
                    self.return_to_main(MenuItemId::Controllers);
                }
            },
            ControllerInput::Back => {
                self.return_to_main(MenuItemId::Controllers);
            },
            _ => {},
        }
        OverlayAction::Nothing
    }

    fn handle_controller_leaf_input(&mut self, input: ControllerInput, item: usize) -> (action: OverlayAction)
        ensures
            old(self).controller_leaf_step(input, item, final(self), action),
            old(self).wf() ==> final(self).wf(),
    {
        match input {
            ControllerInput::Back => {
                self.return_to_controllers(item);
            },
            _ => {},
        }
        OverlayAction::Nothing
    }

    fn handle_menu_customization_input(&mut self, input: ControllerInput) -> (action: OverlayAction)
        ensures
            old(self).menu_customization_step(input, final(self), action),
            old(self).wf() ==> final(self).wf(),
    {
        match input {
            ControllerInput::Up => {
                if self.menu_customization_selected > 0 {
                    self.menu_customization_selected = self.menu_customization_selected - 1;
                    self.menu_customization_scroll_offset = Self::scroll_for(
                        self.menu_customization_selected,
                        self.menu_customization_scroll_offset,
                        MENU_CUSTOMIZATION_MAX_VISIBLE,
                        MENU_CUSTOMIZATION_ROWS,
                    );
                }
            },
            ControllerInput::Down => {
                if self.menu_customization_selected < MENU_CUSTOMIZATION_ROWS - 1 {
                    self.menu_customization_selected = self.menu_customization_selected + 1;
                    self.menu_customization_scroll_offset = Self::scroll_for(
                        self.menu_customization_selected,
                        self.menu_customization_scroll_offset,
                        MENU_CUSTOMIZATION_MAX_VISIBLE,
                        MENU_CUSTOMIZATION_ROWS,
                    );
                }
            },
            ControllerInput::Back => {
                self.current_screen = OverlayScreen::Settings;
                self.settings_selected_option = 0;
            },
            _ => {},
        }
        OverlayAction::Nothing
    }

    fn handle_theme_selection_input(&mut self, input: ControllerInput) -> (action: OverlayAction)
        ensures
            old(self).theme_selection_step(input, final(self), action),
            old(self).wf() ==> final(self).wf(),
    {
        match input {
            ControllerInput::Up => {
                if self.theme_selected > 0 {
                    self.theme_selected = self.theme_selected - 1;
                    self.theme_selection_scroll_offset = Self::scroll_for(
                        self.theme_selected,
                        self.theme_selection_scroll_offset,
                        THEME_MAX_VISIBLE,
                        THEME_COUNT,
                    );
                }
                OverlayAction::Nothing
            },
            ControllerInput::Down => {
                if self.theme_selected < THEME_COUNT - 1 {
                    self.theme_selected = self.theme_selected + 1;
                    self.theme_selection_scroll_offset = Self::scroll_for(
                        self.theme_selected,
                        self.theme_selection_scroll_offset,
                        THEME_MAX_VISIBLE,
                        THEME_COUNT,
                    );
                }
                OverlayAction::Nothing
            },
            ControllerInput::Select => {
                match ThemePreset::at(self.theme_selected) {
                    Some(preset) => {
                        self.theme_config.set_preset(preset);
                        OverlayAction::SaveTheme
                    },
                    None => OverlayAction::Nothing,
                }
            },
            ControllerInput::Back => {
                self.current_screen = OverlayScreen::Settings;
                self.settings_selected_option = 1;
                OverlayAction::Nothing
            },
            _ => OverlayAction::Nothing,
        }
    }

    fn handle_quit_confirm_input(&mut self, input: ControllerInput, now_ms: u64) -> (action: OverlayAction)
        ensures
            old(self).quit_confirm_step(input, now_ms, final(self), action),
            old(self).wf() ==> final(self).wf(),
    {
        match input {
            ControllerInput::Up | ControllerInput::Down | ControllerInput::Left | ControllerInput::Right => {
                self.quit_confirm_selected = if self.quit_confirm_selected == 0 {
                    1
                } else {
                    0
                };
                OverlayAction::Nothing
            },
            ControllerInput::Select => {
                if self.quit_confirm_selected == 1 {
                    self.toasts.add_toast(
                        String::from_str("Returning to BIOS..."),
                        None,
                        ToastStyle::Info,
                        2000,
                        now_ms,
                    );
                    OverlayAction::SignalQuit
                } else {
                    self.return_to_main(MenuItemId::Quit);
                    OverlayAction::Nothing
                }
            },
            ControllerInput::Back => {
                self.return_to_main(MenuItemId::Quit);
                OverlayAction::Nothing
            },
            _ => OverlayAction::Nothing,
        }
    }

    /// Takes one input. A hidden overlay ignores it; a shown one hands it
    /// to the screen that is up. The result says what the process has to
    /// do next.
    pub fn handle_input(&mut self, input: ControllerInput, now_ms: u64) -> (action: OverlayAction)
        ensures
            old(self).input_step(input, now_ms, final(self), action),
            old(self).wf() ==> final(self).wf(),
    {
        if !self.visible {
            return OverlayAction::Nothing;
        }
        match self.current_screen {
            OverlayScreen::Main => self.handle_main_menu_input(input),
            OverlayScreen::Achievements => self.handle_leaf_input(input),
            OverlayScreen::Performance => self.handle_leaf_input(input),
            OverlayScreen::Playtime => self.handle_leaf_input(input),
            OverlayScreen::Settings => self.handle_settings_input(input),
            OverlayScreen::Controllers => self.handle_controllers_input(input),
            OverlayScreen::BluetoothPairing => self.handle_controller_leaf_input(input, 0),
            OverlayScreen::ControllerAssign => self.handle_controller_leaf_input(input, 1),
            OverlayScreen::GamepadTester => self.handle_controller_leaf_input(input, 2),
            OverlayScreen::HotkeySettings => self.handle_controller_leaf_input(input, 3),
            OverlayScreen::MenuCustomization => self.handle_menu_customization_input(input),
            OverlayScreen::ThemeSelection => self.handle_theme_selection_input(input),
            OverlayScreen::QuitConfirm => self.handle_quit_confirm_input(input, now_ms),
        }
    }

    /// The text of the toast for an unlocked achievement.
    fn unlock_toast(title: &str, points: u32) -> (r: String)
        ensures
            r@ == unlock_toast_text(title@, points),
    {
        let mut text = String::from_str("\u{1F3C6} ");
        text.append(title);
        text.append(" (");
        text.append(number_text(points as u64).as_str());
        text.append(" points)");
        text
    }

    /// Takes one message from the socket, read at `now_ms` on the
    /// monotonic clock and at `unix_now` seconds of Unix time. The result
    /// says what the process has to do next.
    pub fn handle_message(&mut self, message: OverlayMessage, now_ms: u64, unix_now: u64) -> (action:
        OverlayAction)
        ensures
            old(self).message_step(message, now_ms, unix_now, final(self), action),
            old(self).wf() ==> final(self).wf(),
    {
        match message {
            OverlayMessage::ShowOverlay { screen } => {
                self.visible = true;
                self.current_screen = screen;
                OverlayAction::Nothing
            },
            OverlayMessage::HideOverlay => {
                self.visible = false;
                OverlayAction::Nothing
            },
            OverlayMessage::ToggleOverlay => {
                self.toggle_visibility();
                OverlayAction::Nothing
            },
            OverlayMessage::ShowToast { message, icon, duration_ms, style } => {
                self.toasts.add_toast(message, icon, style, duration_ms, now_ms);
                OverlayAction::Nothing
            },
            OverlayMessage::GameStarted { cart_id, .. } => {
                if self.playtime.start_session(cart_id, now_ms, unix_now) {
                    OverlayAction::SavePlaytime
                } else {
                    OverlayAction::Nothing
                }
            },
            OverlayMessage::GameStopped { .. } => {
                let changed = self.playtime.end_session(now_ms, unix_now);
                self.achievements.clear();
                if changed {
                    OverlayAction::SavePlaytime
                } else {
                    OverlayAction::Nothing
                }
            },
            OverlayMessage::RaGameStart { game_title, game_id, total_achievements, earned_achievements, .. } => {
                self.achievements.game_id = game_id;
                self.achievements.game_title = game_title;
                self.achievements.update_progress(earned_achievements, total_achievements);
                OverlayAction::Nothing
            },
            OverlayMessage::RaAchievementList { game_title, game_hash, achievements } => {
                self.achievements.load_list(game_title, game_hash, achievements);
                OverlayAction::Nothing
            },
            OverlayMessage::RaAchievementUnlocked { achievement_id, title, points, .. } => {
                self.achievements.unlock_achievement(achievement_id);
                let text = Self::unlock_toast(title.as_str(), points);
                self.toasts.add_toast(text, None, ToastStyle::Success, 5000, now_ms);
                OverlayAction::Nothing
            },
            OverlayMessage::RaProgressUpdate { earned, total } => {
                self.achievements.update_progress(earned, total);
                OverlayAction::Nothing
            },
            OverlayMessage::SetTheme { font_color, cursor_color } => {
                self.theme_config.set_colors(font_color.as_str(), cursor_color.as_str());
                OverlayAction::Nothing
            },
            OverlayMessage::QuitGame => OverlayAction::SignalQuit,
            OverlayMessage::QuitGameAck => {
                self.toasts.add_toast(String::from_str("Returning to BIOS..."), None, ToastStyle::Info, 2000, now_ms);
                OverlayAction::Nothing
            },
            OverlayMessage::GetStatus => OverlayAction::Nothing,
            OverlayMessage::UnlockAchievement { .. } => OverlayAction::Nothing,
        }
    }

    /// Takes the messages of one connection in the order in which they
    /// were sent: each is handled in the state that the one before it
    /// left. The result holds, in the same order, what each asks of the
    /// process.
    pub fn handle_messages(&mut self, messages: Vec<OverlayMessage>, now_ms: u64, unix_now: u64) -> (actions:
        Vec<OverlayAction>)
        ensures
            exists|trace: Seq<OverlayState>|
                #![auto]
                is_run(trace, messages@, now_ms, unix_now, actions@) && trace[0] == *old(self) && trace.last()
                    == *final(self),
            old(self).wf() ==> final(self).wf(),
    {
        let mut actions: Vec<OverlayAction> = Vec::new();
        let ghost mut trace: Seq<OverlayState> = seq![*self];
        for message in it: messages
            invariant
                it.seq() == messages@,
                trace.len() == it.index() + 1,
                actions@.len() == it.index(),
                trace[0] == *old(self),
                trace.last() == *self,
                forall|i: int|
                    0 <= i < it.index() ==> (#[trigger] trace[i]).message_step(
                        messages@[i],
                        now_ms,
                        unix_now,
                        &trace[i + 1],
                        actions@[i],
                    ),
                old(self).wf() ==> self.wf(),
        {
            let ghost before = trace;
            let action = self.handle_message(message, now_ms, unix_now);
            actions.push(action);
            proof {
                trace = trace.push(*self);
                assert forall|i: int| 0 <= i < it.index() + 1 implies (#[trigger] trace[i]).message_step(
                    messages@[i],
                    now_ms,
                    unix_now,
                    &trace[i + 1],
                    actions@[i],
                ) by {
                    if i < it.index() {
                        assert(trace[i] == before[i]);
                        assert(trace[i + 1] == before[i + 1]);
                    }
                }
            }
        }
        proof {
            assert(is_run(trace, messages@, now_ms, unix_now, actions@));
        }
        actions
    }

    /// What the report of the writing of the quit signal does: after a
    /// signal that was written the overlay is hidden and nothing else
    /// changes; a failure is shown as an error toast and the overlay stays
    /// as it is.
    pub open spec fn quit_reported(&self, result: Result<(), String>, now_ms: u64, post: &OverlayState) -> bool {
        match result {
            Ok(_) => *post == (OverlayState { visible: false, ..*self }),
            Err(e) => self.with_toast(post, plain_toast("Failed to quit: "@ + e@, ToastStyle::Error, 3000, now_ms)),
        }
    }

    /// The quit dialog of an overlay that is shown. Select on Quit asks
    /// for the quit signal, and once the signal is reported written the
    /// overlay is hidden; while the writing is reported to have failed
    /// the dialog stays up. Select on Cancel, and Back whatever is
    /// selected, ask for nothing, so that no signal is written, and lead
    /// to the main menu of an overlay that stays shown. No other input on
    /// the dialog asks for the signal.
    pub proof fn lemma_quit_flow(
        s: OverlayState,
        input: ControllerInput,
        now_ms: u64,
        asked: OverlayState,
        action: OverlayAction,
        result: Result<(), String>,
        reported_ms: u64,
        end: OverlayState,
    )
        requires
            s.visible,
            s.current_screen == OverlayScreen::QuitConfirm,
            s.input_step(input, now_ms, &asked, action),
            asked.quit_reported(result, reported_ms, &end),
        ensures
            action == OverlayAction::SignalQuit <==> input == ControllerInput::Select && s.quit_confirm_selected
                == 1,
            action == OverlayAction::SignalQuit && result is Ok ==> !end.visible,
            action == OverlayAction::SignalQuit && result is Err ==> end.visible && end.current_screen
                == OverlayScreen::QuitConfirm,
            (input == ControllerInput::Select && s.quit_confirm_selected != 1) || input == ControllerInput::Back
                ==> action == OverlayAction::Nothing && asked.visible && asked.current_screen
                == OverlayScreen::Main,
    {
    }

    /// Takes the outcome of writing the quit signal: after success the
    /// overlay hides; a failure is shown as an error toast and the overlay
    /// stays up.
    pub fn quit_signalled(&mut self, result: Result<(), String>, now_ms: u64)
        ensures
            old(self).wf() ==> final(self).wf(),
            old(self).quit_reported(result, now_ms, final(self)),
    {
        match result {
            Ok(_) => {
                self.visible = false;
            },
            Err(e) => {
                self.toasts.add_toast(concat2("Failed to quit: ", e.as_str()), None, ToastStyle::Error, 3000, now_ms);
            },
        }
    }

    /// Takes the outcome of writing the theme configuration: success is
    /// shown as a toast that names the theme, failure as an error toast.
    pub fn theme_saved(&mut self, result: Result<(), String>, now_ms: u64)
        ensures
            old(self).wf() ==> final(self).wf(),
            match result {
                Ok(_) => old(self).with_toast(
                    final(self),
                    plain_toast(
                        "Theme set to: "@ + old(self).theme_config.spec_theme_name(),
                        ToastStyle::Info,
                        2000,
                        now_ms,
                    ),
                ),
                Err(e) => old(self).with_toast(
                    final(self),
                    plain_toast("Failed to set theme: "@ + e@, ToastStyle::Error, 3000, now_ms),
                ),
            },
    {
        match result {
            Ok(_) => {
                let text = concat2("Theme set to: ", self.theme_config.theme_name());
                self.toasts.add_toast(text, None, ToastStyle::Info, 2000, now_ms);
            },
            Err(e) => {
                self.toasts.add_toast(
                    concat2("Failed to set theme: ", e.as_str()),
                    None,
                    ToastStyle::Error,
                    3000,
                    now_ms,
                );
            },
        }
    }
}

} // verus!
