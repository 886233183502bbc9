//! How long each game has been played, and the session that runs.

use vstd::prelude::*;
use crate::text::same_text;

verus! {

/// What is recorded of one game.
#[derive(Debug)]
pub struct PlaytimeEntry {
    pub cart_id: String,
    pub total_seconds: u64,
    /// Unix time in seconds of the end of the last session.
    pub last_played: Option<u64>,
    pub play_count: u32,
}

/// What an entry holds, with its id as a sequence.
pub struct PlaytimeEntryView {
    pub cart_id: Seq<char>,
    pub total_seconds: u64,
    pub last_played: Option<u64>,
    pub play_count: u32,
}

impl View for PlaytimeEntry {
    type V = PlaytimeEntryView;

    open spec fn view(&self) -> PlaytimeEntryView {
        PlaytimeEntryView {
            cart_id: self.cart_id@,
            total_seconds: self.total_seconds,
            last_played: self.last_played,
            play_count: self.play_count,
        }
    }
}

/// The records of all games, one entry for each game played.
#[derive(Debug)]
pub struct PlaytimeDatabase {
    pub entries: Vec<PlaytimeEntry>,
}

impl View for PlaytimeDatabase {
    type V = Seq<PlaytimeEntryView>;

    open spec fn view(&self) -> Seq<PlaytimeEntryView> {
        Seq::new(self.entries@.len(), |i: int| self.entries@[i]@)
    }
}

/// The session that runs.
#[derive(Debug)]
pub struct SessionData {
    pub cart_id: String,
    /// Clock reading at the start, in milliseconds.
    pub start_ms: u64,
}

/// Records of all games and the session that runs.
#[derive(Debug)]
pub struct PlaytimeTracker {
    pub current_session: Option<SessionData>,
    pub database: PlaytimeDatabase,
}

/// Position of the first entry of this game; the length where there is
/// none.
pub open spec fn entry_pos(entries: Seq<PlaytimeEntryView>, cart_id: Seq<char>) -> int
    decreases entries.len(),
{
    if entries.len() == 0 {
        0
    } else if entries[0].cart_id == cart_id {
        0
    } else {
        1 + entry_pos(entries.drop_first(), cart_id)
    }
}

/// Seconds recorded for a game; zero where it was never played.
pub open spec fn total_of(entries: Seq<PlaytimeEntryView>, cart_id: Seq<char>) -> int {
    let at = entry_pos(entries, cart_id);
    if at < entries.len() {
        entries[at].total_seconds as int
    } else {
        0
    }
}

/// Sessions recorded for a game; zero where it was never played.
pub open spec fn count_of(entries: Seq<PlaytimeEntryView>, cart_id: Seq<char>) -> int {
    let at = entry_pos(entries, cart_id);
    if at < entries.len() {
        entries[at].play_count as int
    } else {
        0
    }
}

/// Whole seconds between two clock readings in milliseconds; zero where
/// the second is the earlier.
pub open spec fn session_seconds(start_ms: u64, now_ms: u64) -> u64 {
    if now_ms >= start_ms {
        ((now_ms - start_ms) / 1000) as u64
    } else {
        0
    }
}

/// A sum that stops at the largest `u64`.
pub open spec fn capped_sum(a: u64, b: u64) -> u64 {
    if a + b > u64::MAX {
        u64::MAX
    } else {
        (a + b) as u64
    }
}

/// One more session, stopping at the largest `u32`.
pub open spec fn capped_next(n: u32) -> u32 {
    if n == u32::MAX {
        n
    } else {
        (n + 1) as u32
    }
}

/// The records after one session of `seconds` of a game that ended at
/// `unix_now`: its entry gains the seconds and one session, or a new entry
/// is added at the end.
pub open spec fn credited(
    entries: Seq<PlaytimeEntryView>,
    cart_id: Seq<char>,
    seconds: u64,
    unix_now: u64,
) -> Seq<PlaytimeEntryView> {
    let at = entry_pos(entries, cart_id);
    if at < entries.len() {
        entries.update(
            at,
            PlaytimeEntryView {
                cart_id: entries[at].cart_id,
                total_seconds: capped_sum(entries[at].total_seconds, seconds),
                last_played: Some(unix_now),
                play_count: capped_next(entries[at].play_count),
            },
        )
    } else {
        entries.push(
            PlaytimeEntryView { cart_id, total_seconds: seconds, last_played: Some(unix_now), play_count: 1 },
        )
    }
}

/// `entry_pos` finds an entry of the game wherever there is one, and the
/// entry it finds is of that game.
pub proof fn lemma_entry_pos(entries: Seq<PlaytimeEntryView>, cart_id: Seq<char>)
    ensures
        0 <= entry_pos(entries, cart_id) <= entries.len(),
        entry_pos(entries, cart_id) < entries.len() ==> entries[entry_pos(entries, cart_id)].cart_id
            == cart_id,
        forall|k: int| 0 <= k < entry_pos(entries, cart_id) ==> (#[trigger] entries[k]).cart_id != cart_id,
    decreases entries.len(),
{
    if entries.len() > 0 && entries[0].cart_id != cart_id {
        let rest = entries.drop_first();
        lemma_entry_pos(rest, cart_id);
        assert forall|k: int| 0 <= k < entry_pos(entries, cart_id) implies (#[trigger] entries[k]).cart_id
            != cart_id by {
            if k > 0 {
                assert(rest[k - 1] == entries[k]);
            }
        }
    }
}

/// A session from `start_ms` to `stop_ms` adds to the game's total the
/// whole seconds that went by, which is more than the time between the two
/// readings less one second, and adds exactly one to its count of
/// sessions. This holds as long as neither number has reached the largest
/// value of its type.
pub proof fn lemma_playtime_conserved(
    entries: Seq<PlaytimeEntryView>,
    cart_id: Seq<char>,
    start_ms: u64,
    stop_ms: u64,
    unix_now: u64,
)
    requires
        start_ms <= stop_ms,
        total_of(entries, cart_id) + session_seconds(start_ms, stop_ms) <= u64::MAX,
        count_of(entries, cart_id) < u32::MAX,
    ensures
        ({
            let after = credited(entries, cart_id, session_seconds(start_ms, stop_ms), unix_now);
            let gained = total_of(after, cart_id) - total_of(entries, cart_id);
            &&& gained == (stop_ms - start_ms) / 1000
            &&& gained * 1000 <= stop_ms - start_ms
            &&& gained * 1000 > stop_ms - start_ms - 1000
            &&& count_of(after, cart_id) == count_of(entries, cart_id) + 1
        }),
{
    lemma_entry_pos(entries, cart_id);
    let seconds = session_seconds(start_ms, stop_ms);
    let after = credited(entries, cart_id, seconds, unix_now);
    let at = entry_pos(entries, cart_id);
    lemma_entry_pos(after, cart_id);
    if at < entries.len() {
        assert(after[at].cart_id == cart_id);
        assert forall|k: int| 0 <= k < at implies (#[trigger] after[k]).cart_id != cart_id by {
            assert(after[k] == entries[k]);
        }
        lemma_entry_pos_is(after, cart_id, at);
    } else {
        assert(after[at].cart_id == cart_id);
        assert forall|k: int| 0 <= k < at implies (#[trigger] after[k]).cart_id != cart_id by {
            assert(after[k] == entries[k]);
        }
        lemma_entry_pos_is(after, cart_id, at);
    }
}

/// The first place at which the game's id stands is what `entry_pos` finds.
pub proof fn lemma_entry_pos_is(entries: Seq<PlaytimeEntryView>, cart_id: Seq<char>, at: int)
    requires
        0 <= at <= entries.len(),
        at < entries.len() ==> entries[at].cart_id == cart_id,
        forall|k: int| 0 <= k < at ==> (#[trigger] entries[k]).cart_id != cart_id,
    ensures
        entry_pos(entries, cart_id) == at,
{
    lemma_entry_pos(entries, cart_id);
    let found = entry_pos(entries, cart_id);
    if found < at {
        assert(entries[found].cart_id != cart_id);
    }
}

impl PlaytimeDatabase {
    /// A database without entries.
    pub fn new() -> (r: PlaytimeDatabase)
        ensures
            r@.len() == 0,
    {
        PlaytimeDatabase { entries: Vec::new() }
    }

    /// Position of the first entry of this game, or the number of entries.
    fn find(&self, cart_id: &str) -> (r: usize)
        ensures
            r == entry_pos(self@, cart_id@),
            r <= self.entries@.len(),
    {
        let mut i: usize = 0;
        proof {
            lemma_entry_pos(self@, cart_id@);
        }
        while i < self.entries.len() && !same_text(self.entries[i].cart_id.as_str(), cart_id)
            invariant
                i <= self.entries.len(),
                forall|k: int| 0 <= k < i ==> (#[trigger] self@[k]).cart_id != cart_id@,
            decreases self.entries.len() - i,
        {
            i = i + 1;
        }
        proof {
            lemma_entry_pos_is(self@, cart_id@, i as int);
        }
        i
    }
}

impl PlaytimeTracker {
    /// A tracker over the records that were read, with no session running.
    pub fn new(database: PlaytimeDatabase) -> (r: PlaytimeTracker)
        ensures
            r.current_session is None,
            r.database == database,
    {
        PlaytimeTracker { current_session: None, database }
    }

    /// Adds one session of `seconds` to a game's record.
    pub fn add_playtime(&mut self, cart_id: &str, seconds: u64, unix_now: u64)
        ensures
            final(self).database@ == credited(old(self).database@, cart_id@, seconds, unix_now),
            final(self).current_session == old(self).current_session,
    {
        let at = self.database.find(cart_id);
        let ghost before = self.database@;
        if at < self.database.entries.len() {
            let total: u64 = self.database.entries[at].total_seconds;
            let count: u32 = self.database.entries[at].play_count;
            self.database.entries[at].total_seconds = if total > u64::MAX - seconds {
                u64::MAX
            } else {
                total + seconds
            };
            self.database.entries[at].last_played = Some(unix_now);
            self.database.entries[at].play_count = if count == u32::MAX {
                u32::MAX
            } else {
                count + 1
            };
            assert(self.database@ =~= credited(before, cart_id@, seconds, unix_now));
        } else {
            self.database.entries.push(
                PlaytimeEntry {
                    cart_id: String::from_str(cart_id),
                    total_seconds: seconds,
                    last_played: Some(unix_now),
                    play_count: 1,
                },
            );
            assert(self.database@ =~= credited(before, cart_id@, seconds, unix_now));
        }
    }

    /// Ends the session that runs, if any, and records it. Returns whether
    /// the records changed and are to be written.
    pub fn end_session(&mut self, now_ms: u64, unix_now: u64) -> (r: bool)
        ensures
            final(self).current_session is None,
            r == (old(self).current_session is Some),
            final(self).database@ == match old(self).current_session {
                Some(s) => credited(
                    old(self).database@,
                    s.cart_id@,
                    session_seconds(s.start_ms, now_ms),
                    unix_now,
                ),
                None => old(self).database@,
            },
    {
        let session = self.current_session.take();
        match session {
            Some(s) => {
                let elapsed: u64 = if now_ms >= s.start_ms {
                    (now_ms - s.start_ms) / 1000
                } else {
                    0
                };
                self.add_playtime(s.cart_id.as_str(), elapsed, unix_now);
                true
            },
            None => false,
        }
    }

    /// Starts a session of a game at `now_ms`, after ending and recording
    /// the one that ran. Returns whether the records changed.
    pub fn start_session(&mut self, cart_id: String, now_ms: u64, unix_now: u64) -> (r: bool)
        ensures
            final(self).current_session matches Some(s) && s.cart_id == cart_id && s.start_ms == now_ms,
            r == (old(self).current_session is Some),
            final(self).database@ == match old(self).current_session {
                Some(s) => credited(
                    old(self).database@,
                    s.cart_id@,
                    session_seconds(s.start_ms, now_ms),
                    unix_now,
                ),
                None => old(self).database@,
            },
    {
        let changed = self.end_session(now_ms, unix_now);
        self.current_session = Some(SessionData { cart_id, start_ms: now_ms });
        changed
    }

    /// The record of a game, if it was ever played.
    pub fn get_playtime(&self, cart_id: &str) -> (r: Option<&PlaytimeEntry>)
        ensures
            match r {
                Some(e) => entry_pos(self.database@, cart_id@) < self.database@.len() && e@
                    == self.database@[entry_pos(self.database@, cart_id@)],
                None => entry_pos(self.database@, cart_id@) >= self.database@.len(),
            },
    {
        let at = self.database.find(cart_id);
        if at < self.database.entries.len() {
            Some(&self.database.entries[at])
        } else {
            None
        }
    }

    /// Whole seconds that the running session has lasted at `now_ms`.
    pub fn current_session_seconds(&self, now_ms: u64) -> (r: Option<u64>)
        ensures
            r == match self.current_session {
                Some(s) => Some(session_seconds(s.start_ms, now_ms)),
                None => None,
            },
    {
        match &self.current_session {
            Some(s) => Some(
                if now_ms >= s.start_ms {
                    (now_ms - s.start_ms) / 1000
                } else {
                    0
                },
            ),
            None => None,
        }
    }
}

} // verus!
