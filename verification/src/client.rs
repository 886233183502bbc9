//! The client side of the overlay socket: the messages that a client
//! sends, and what it concludes from probing the socket.

use vstd::prelude::*;
use crate::ipc::{OverlayMessage, OverlayScreen, SOCKET_PATH, ToastStyle};
use crate::text::owned;

verus! {

/// How long an info or success toast of a client stays, in milliseconds.
pub const INFO_TOAST_MS: u32 = 3000;

/// How long a warning toast of a client stays, in milliseconds.
pub const WARNING_TOAST_MS: u32 = 4000;

/// How long an error toast of a client stays, in milliseconds.
pub const ERROR_TOAST_MS: u32 = 5000;

/// Longest wait of a client for the socket, reading or writing, in
/// milliseconds.
pub const SOCKET_TIMEOUT_MS: u64 = 100;

/// What a client found when it probed the socket.
#[derive(Clone, Copy, Debug, PartialEq, Eq, Structural)]
pub enum ProbeOutcome {
    /// There is no file at the socket path.
    Missing,
    /// The file is there but nothing accepts a connection.
    ConnectFailed,
    /// A connection was made but a write to it failed.
    WriteFailed,
    /// A connection was made and it took what was written.
    Alive,
}

/// What a client concludes from a probe.
#[derive(Clone, Copy, Debug, PartialEq, Eq, Structural)]
pub struct Availability {
    /// The daemon is there and messages can be sent.
    pub available: bool,
    /// The file at the socket path was left by a daemon that is gone and
    /// is to be removed.
    pub remove_stale: bool,
}

/// The conclusion from a probe: the daemon is available only if the
/// socket is there and answers; a socket that is there and does not is
/// stale.
pub fn availability(outcome: ProbeOutcome) -> (r: Availability)
    ensures
        r.available == (outcome == ProbeOutcome::Alive),
        r.remove_stale == (outcome == ProbeOutcome::ConnectFailed || outcome == ProbeOutcome::WriteFailed),
{
    match outcome {
        ProbeOutcome::Missing => Availability { available: false, remove_stale: false },
        ProbeOutcome::ConnectFailed => Availability { available: false, remove_stale: true },
        ProbeOutcome::WriteFailed => Availability { available: false, remove_stale: true },
        ProbeOutcome::Alive => Availability { available: true, remove_stale: false },
    }
}

/// What the overlay does about the socket path when it starts.
#[derive(Clone, Copy, Debug, PartialEq, Eq, Structural)]
pub enum ServerStart {
    /// Another overlay answers at the path: this one does not start.
    Refuse,
    /// A file that nothing answers at is in the way: remove it, then bind.
    RemoveThenBind,
    /// Nothing is at the path: bind.
    Bind,
}

impl ServerStart {
    /// Whether the overlay goes on to bind the socket.
    pub open spec fn binds(self) -> bool {
        self != ServerStart::Refuse
    }

    /// Whether the overlay removes the file at the path.
    pub open spec fn removes(self) -> bool {
        self == ServerStart::RemoveThenBind
    }
}

/// What a starting overlay does after probing its own socket path: the
/// socket has one holder. Where an overlay answers, the newcomer takes
/// nothing from it and gives up; only a file that nothing answers at is
/// removed; in every other case the socket is bound.
pub fn server_start(outcome: ProbeOutcome) -> (r: ServerStart)
    ensures
        r == match outcome {
            ProbeOutcome::Alive => ServerStart::Refuse,
            ProbeOutcome::ConnectFailed => ServerStart::RemoveThenBind,
            ProbeOutcome::WriteFailed => ServerStart::RemoveThenBind,
            ProbeOutcome::Missing => ServerStart::Bind,
        },
        r.binds() == (outcome != ProbeOutcome::Alive),
        r.removes() == (outcome == ProbeOutcome::ConnectFailed || outcome == ProbeOutcome::WriteFailed),
{
    match outcome {
        ProbeOutcome::Alive => ServerStart::Refuse,
        ProbeOutcome::ConnectFailed => ServerStart::RemoveThenBind,
        ProbeOutcome::WriteFailed => ServerStart::RemoveThenBind,
        ProbeOutcome::Missing => ServerStart::Bind,
    }
}

/// A client of the overlay daemon.
#[derive(Debug)]
pub struct OverlayClient {
    socket_path: String,
}

impl OverlayClient {
    /// The path of the socket that the client talks to.
    pub closed spec fn spec_socket_path(&self) -> Seq<char> {
        self.socket_path@
    }

    /// A client of the socket at the usual path.
    pub fn new() -> (r: OverlayClient)
        ensures
            r.spec_socket_path() == SOCKET_PATH@,
    {
        OverlayClient { socket_path: owned(SOCKET_PATH) }
    }

    /// A client of the socket at another path.
    pub fn with_socket_path(socket_path: String) -> (r: OverlayClient)
        ensures
            r.spec_socket_path() == socket_path@,
    {
        OverlayClient { socket_path }
    }

    /// The path of the socket that the client talks to.
    pub fn socket_path(&self) -> (r: &str)
        ensures
            r@ == self.spec_socket_path(),
    {
        self.socket_path.as_str()
    }

    /// The message that shows a toast without icon.
    pub fn show_toast(&self, message: &str, style: ToastStyle, duration_ms: u32) -> (r: OverlayMessage)
        ensures
            r matches OverlayMessage::ShowToast { message: m, icon, duration_ms: d, style: s } && m@
                == message@ && icon is None && d == duration_ms && s == style,
    {
        OverlayMessage::ShowToast { message: owned(message), icon: None, duration_ms, style }
    }

    /// The message that shows a toast with an icon.
    pub fn show_toast_with_icon(&self, message: &str, icon: &str, style: ToastStyle, duration_ms: u32) -> (r:
        OverlayMessage)
        ensures
            r matches OverlayMessage::ShowToast { message: m, icon: i, duration_ms: d, style: s } && m@
                == message@ && crate::text::option_view(i) == Some(icon@) && d == duration_ms && s == style,
    {
        OverlayMessage::ShowToast { message: owned(message), icon: Some(owned(icon)), duration_ms, style }
    }

    /// The message that shows an info toast for three seconds.
    pub fn info(&self, message: &str) -> (r: OverlayMessage)
        ensures
            r matches OverlayMessage::ShowToast { message: m, icon, duration_ms: d, style: s } && m@
                == message@ && icon is None && d == INFO_TOAST_MS && s == ToastStyle::Info,
    {
        self.show_toast(message, ToastStyle::Info, INFO_TOAST_MS)
    }

    /// The message that shows a success toast for three seconds.
    pub fn success(&self, message: &str) -> (r: OverlayMessage)
        ensures
            r matches OverlayMessage::ShowToast { message: m, icon, duration_ms: d, style: s } && m@
                == message@ && icon is None && d == INFO_TOAST_MS && s == ToastStyle::Success,
    {
        self.show_toast(message, ToastStyle::Success, INFO_TOAST_MS)
    }

    /// The message that shows a warning toast for four seconds.
    pub fn warning(&self, message: &str) -> (r: OverlayMessage)
        ensures
            r matches OverlayMessage::ShowToast { message: m, icon, duration_ms: d, style: s } && m@
                == message@ && icon is None && d == WARNING_TOAST_MS && s == ToastStyle::Warning,
    {
        self.show_toast(message, ToastStyle::Warning, WARNING_TOAST_MS)
    }

    /// The message that shows an error toast for five seconds.
    pub fn error(&self, message: &str) -> (r: OverlayMessage)
        ensures
            r matches OverlayMessage::ShowToast { message: m, icon, duration_ms: d, style: s } && m@
                == message@ && icon is None && d == ERROR_TOAST_MS && s == ToastStyle::Error,
    {
        self.show_toast(message, ToastStyle::Error, ERROR_TOAST_MS)
    }

    /// The message that shows the overlay on a screen.
    pub fn show_overlay(&self, screen: OverlayScreen) -> (r: OverlayMessage)
        ensures
            r matches OverlayMessage::ShowOverlay { screen: s } && s == screen,
    {
        OverlayMessage::ShowOverlay { screen }
    }

    /// The message that hides the overlay.
    pub fn hide_overlay(&self) -> (r: OverlayMessage)
        ensures
            r is HideOverlay,
    {
        OverlayMessage::HideOverlay
    }

    /// The message that reports an achievement of a cartridge, unlocked
    /// at `timestamp` seconds of Unix time.
    pub fn unlock_achievement(&self, cart_id: &str, achievement_id: &str, timestamp: u64) -> (r: OverlayMessage)
        ensures
            r matches OverlayMessage::UnlockAchievement { cart_id: c, achievement_id: a, timestamp: t } && c@
                == cart_id@ && a@ == achievement_id@ && t == timestamp,
    {
        OverlayMessage::UnlockAchievement {
            cart_id: owned(cart_id),
            achievement_id: owned(achievement_id),
            timestamp,
        }
    }

    /// The message that asks the overlay whether it is there.
    pub fn get_status(&self) -> (r: OverlayMessage)
        ensures
            r is GetStatus,
    {
        OverlayMessage::GetStatus
    }

    /// The message that sets the colours of text and cursor.
    pub fn set_theme(&self, font_color: &str, cursor_color: &str) -> (r: OverlayMessage)
        ensures
            r matches OverlayMessage::SetTheme { font_color: f, cursor_color: c } && f@ == font_color@ && c@
                == cursor_color@,
    {
        OverlayMessage::SetTheme { font_color: owned(font_color), cursor_color: owned(cursor_color) }
    }
}

impl Default for OverlayClient {
    fn default() -> (r: OverlayClient)
        ensures
            r.spec_socket_path() == SOCKET_PATH@,
    {
        OverlayClient::new()
    }
}

} // verus!
