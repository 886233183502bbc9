//! The toast queue of the overlay.

use vstd::prelude::*;
use crate::ipc::ToastStyle;
use crate::text::option_view;

verus! {

/// Most toasts drawn at once.
pub const MAX_VISIBLE_TOASTS: usize = 3;

/// Length of the fade at the end of a toast's life, in milliseconds.
pub const FADE_MS: u64 = 500;

/// A notification that expires by itself.
#[derive(Debug)]
pub struct Toast {
    pub message: String,
    pub icon: Option<String>,
    pub style: ToastStyle,
    /// Reading of the clock when the toast was made, in milliseconds.
    pub created_ms: u64,
    /// How long the toast lives, in milliseconds.
    pub duration_ms: u64,
}

/// What a toast holds, with its texts as sequences.
pub struct ToastView {
    pub message: Seq<char>,
    pub icon: Option<Seq<char>>,
    pub style: ToastStyle,
    pub created_ms: u64,
    pub duration_ms: u64,
}

impl View for Toast {
    type V = ToastView;

    open spec fn view(&self) -> ToastView {
        ToastView {
            message: self.message@,
            icon: option_view(self.icon),
            style: self.style,
            created_ms: self.created_ms,
            duration_ms: self.duration_ms,
        }
    }
}

/// Time gone by since `since`; zero where the clock reads earlier than that.
pub open spec fn elapsed_ms(since: u64, now: u64) -> int {
    if now >= since {
        now - since
    } else {
        0
    }
}

impl ToastView {
    /// The toast has not used up its duration at `now`.
    pub open spec fn live_at(self, now: u64) -> bool {
        elapsed_ms(self.created_ms, now) < self.duration_ms
    }

    /// Opacity in thousandths: full until the last half second, then
    /// falling in proportion to the time that is left.
    pub open spec fn alpha_permille_at(self, now: u64) -> int {
        let elapsed = elapsed_ms(self.created_ms, now);
        let remaining = if elapsed >= self.duration_ms {
            0
        } else {
            self.duration_ms - elapsed
        };
        if remaining < FADE_MS {
            remaining * 1000 / (FADE_MS as int)
        } else {
            1000
        }
    }
}

/// The toasts of `q` that are live at `now`, in their order.
pub open spec fn retained(q: Seq<ToastView>, now: u64) -> Seq<ToastView>
    decreases q.len(),
{
    if q.len() == 0 {
        q
    } else if q.last().live_at(now) {
        retained(q.drop_last(), now).push(q.last())
    } else {
        retained(q.drop_last(), now)
    }
}

/// The part of the queue that is drawn: its first toasts, three at most.
pub open spec fn visible_prefix(q: Seq<ToastView>) -> Seq<ToastView> {
    if q.len() <= MAX_VISIBLE_TOASTS {
        q
    } else {
        q.take(MAX_VISIBLE_TOASTS as int)
    }
}

/// The views of a run of toasts.
pub open spec fn toast_views(s: Seq<Toast>) -> Seq<ToastView> {
    Seq::new(s.len(), |i: int| s[i]@)
}

impl Toast {
    /// Whether the toast is still to be kept at `now`.
    pub fn is_live(&self, now_ms: u64) -> (r: bool)
        ensures
            r == self@.live_at(now_ms),
    {
        let elapsed: u64 = if now_ms >= self.created_ms {
            now_ms - self.created_ms
        } else {
            0
        };
        elapsed < self.duration_ms
    }

    /// Opacity of the toast at `now`, in thousandths.
    pub fn alpha_permille(&self, now_ms: u64) -> (r: u32)
        ensures
            r == self@.alpha_permille_at(now_ms),
            r <= 1000,
    {
        let elapsed: u64 = if now_ms >= self.created_ms {
            now_ms - self.created_ms
        } else {
            0
        };
        let remaining: u64 = if elapsed >= self.duration_ms {
            0
        } else {
            self.duration_ms - elapsed
        };
        if remaining < FADE_MS {
            let scaled: u64 = remaining * 1000 / FADE_MS;
            scaled as u32
        } else {
            1000
        }
    }
}

/// First in, first out queue of toasts, newest at the tail.
pub struct ToastManager {
    queue: Vec<Toast>,
}

impl View for ToastManager {
    type V = Seq<ToastView>;

    closed spec fn view(&self) -> Seq<ToastView> {
        toast_views(self.queue@)
    }
}

impl ToastManager {
    /// An empty queue.
    pub fn new() -> (r: ToastManager)
        ensures
            r@ == Seq::<ToastView>::empty(),
    {
        ToastManager { queue: Vec::new() }
    }

    /// Appends a toast made at `now_ms` that lives for `duration_ms`.
    pub fn add_toast(
        &mut self,
        message: String,
        icon: Option<String>,
        style: ToastStyle,
        duration_ms: u32,
        now_ms: u64,
    )
        ensures
            final(self)@ == old(self)@.push(
                ToastView {
                    message: message@,
                    icon: option_view(icon),
                    style,
                    created_ms: now_ms,
                    duration_ms: duration_ms as u64,
                },
            ),
    {
        let toast = Toast { message, icon, style, created_ms: now_ms, duration_ms: duration_ms as u64 };
        self.queue.push(toast);
        assert(final(self)@ =~= old(self)@.push(toast@));
    }

    /// Drops every toast that has used up its duration at `now_ms`.
    pub fn update(&mut self, now_ms: u64)
        ensures
            final(self)@ == retained(old(self)@, now_ms),
    {
        let mut kept: Vec<Toast> = Vec::new();
        let mut rest: Vec<Toast> = Vec::new();
        std::mem::swap(&mut self.queue, &mut rest);
        let ghost all = toast_views(rest@);
        for toast in it: rest
            invariant
                it.seq().len() == all.len(),
                forall|k: int| 0 <= k < all.len() ==> (#[trigger] it.seq()[k])@ == all[k],
                toast_views(kept@) == retained(all.take(it.index() as int), now_ms),
        {
            proof {
                let next = all.take(it.index() as int + 1);
                assert(next.drop_last() == all.take(it.index() as int));
                assert(next.last() == toast@);
            }
            if toast.is_live(now_ms) {
                let ghost before = toast_views(kept@);
                kept.push(toast);
                assert(toast_views(kept@) =~= before.push(toast@));
            }
        }
        proof {
            assert(all.take(all.len() as int) == all);
        }
        self.queue = kept;
    }

    /// The toasts to draw: the first three of the queue, or fewer.
    pub fn get_visible_toasts(&self) -> (r: Vec<&Toast>)
        ensures
            r@.len() == visible_prefix(self@).len(),
            forall|i: int| 0 <= i < r@.len() ==> (#[trigger] r@[i])@ == visible_prefix(self@)[i],
    {
        let mut out: Vec<&Toast> = Vec::new();
        let mut i: usize = 0;
        while i < self.queue.len() && i < MAX_VISIBLE_TOASTS
            invariant
                i <= self.queue.len(),
                i <= MAX_VISIBLE_TOASTS,
                out@.len() == i,
                forall|k: int| 0 <= k < i ==> (#[trigger] out@[k])@ == self.queue@[k]@,
            decreases self.queue.len() - i,
        {
            out.push(&self.queue[i]);
            i = i + 1;
        }
        out
    }

    /// Whether the queue holds no toast.
    pub fn is_empty(&self) -> (r: bool)
        ensures
            r == (self@.len() == 0),
    {
        self.queue.len() == 0
    }

    /// Number of toasts in the queue, shown or not.
    pub fn len(&self) -> (r: usize)
        ensures
            r == self@.len(),
    {
        self.queue.len()
    }
}

/// After expired toasts were dropped at `now`, no toast that is drawn has
/// reached the end of its life: the clock reads less than its creation
/// time plus its duration.
pub proof fn lemma_no_expired_toast_visible(q: Seq<ToastView>, now: u64)
    ensures
        forall|i: int|
            0 <= i < visible_prefix(retained(q, now)).len() ==> {
                let t = #[trigger] visible_prefix(retained(q, now))[i];
                t.live_at(now) && now < t.created_ms + t.duration_ms
            },
{
    lemma_retained_live(q, now);
}

/// Everything that `retained` keeps is live, and it keeps the order.
pub proof fn lemma_retained_live(q: Seq<ToastView>, now: u64)
    ensures
        retained(q, now).len() <= q.len(),
        forall|i: int| 0 <= i < retained(q, now).len() ==> (#[trigger] retained(q, now)[i]).live_at(now),
    decreases q.len(),
{
    if q.len() > 0 {
        lemma_retained_live(q.drop_last(), now);
    }
}

} // verus!
