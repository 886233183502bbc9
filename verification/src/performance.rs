//! The window of recent frame durations behind the performance display.

use vstd::prelude::*;
use std::collections::VecDeque;

verus! {

/// Number of frame durations that are kept.
pub const FRAME_HISTORY_SIZE: usize = 120;

/// Least time between two readings of processor and memory use, in
/// microseconds.
pub const SYSTEM_UPDATE_INTERVAL_US: u64 = 500_000;

/// Sum of a run of durations.
pub open spec fn sum_of(s: Seq<u64>) -> nat
    decreases s.len(),
{
    if s.len() == 0 {
        0
    } else {
        sum_of(s.drop_last()) + s.last() as nat
    }
}

/// The window after one more frame: the new duration at the end, the
/// oldest dropped once more than [`FRAME_HISTORY_SIZE`] are held.
pub open spec fn pushed_frame(window: Seq<u64>, duration: u64) -> Seq<u64> {
    if window.len() + 1 > FRAME_HISTORY_SIZE {
        window.push(duration).drop_first()
    } else {
        window.push(duration)
    }
}

/// Time from one clock reading to a later one; zero where the second is
/// the earlier.
pub open spec fn since(earlier: u64, now: u64) -> u64 {
    if now >= earlier {
        (now - earlier) as u64
    } else {
        0
    }
}

/// Frame durations of the last two seconds or so, and the last reading of
/// processor and memory use.
pub struct PerformanceStats {
    frame_times: VecDeque<u64>,
    last_frame_us: u64,
    last_system_update_us: u64,
    cpu_usage_basis_points: u32,
    memory_used_bytes: u64,
    memory_total_bytes: u64,
    visible: bool,
}

impl PerformanceStats {
    /// The kept frame durations in microseconds, oldest first.
    pub closed spec fn frames(&self) -> Seq<u64> {
        self.frame_times@
    }

    /// Clock reading of the last frame, in microseconds.
    pub closed spec fn last_frame(&self) -> u64 {
        self.last_frame_us
    }

    /// Clock reading of the last reading of processor and memory use.
    pub closed spec fn last_system_update(&self) -> u64 {
        self.last_system_update_us
    }

    /// Processor use in hundredths of a percent, memory in use and memory
    /// in all, both in bytes.
    pub closed spec fn system_stats(&self) -> (u32, u64, u64) {
        (self.cpu_usage_basis_points, self.memory_used_bytes, self.memory_total_bytes)
    }

    /// Whether the performance display is shown.
    pub closed spec fn shown(&self) -> bool {
        self.visible
    }


    /// An empty window whose clock starts at `now_us`.
    pub fn new(now_us: u64) -> (r: PerformanceStats)
        ensures
            r.frames() == Seq::<u64>::empty(),
            r.last_frame() == now_us,
            r.last_system_update() == now_us,
            r.system_stats() == (0u32, 0u64, 0u64),
            !r.shown(),
    {
        PerformanceStats {
            frame_times: VecDeque::new(),
            last_frame_us: now_us,
            last_system_update_us: now_us,
            cpu_usage_basis_points: 0,
            memory_used_bytes: 0,
            memory_total_bytes: 0,
            visible: false,
        }
    }

    /// Records the frame that ends at `now_us`. Returns whether half a
    /// second has gone by since processor and memory use were last read;
    /// if so the reading is due, and its time is set to `now_us`.
    pub fn record_frame(&mut self, now_us: u64) -> (r: bool)
        ensures
            final(self).frames() == pushed_frame(old(self).frames(), since(old(self).last_frame(), now_us)),
            old(self).frames().len() <= FRAME_HISTORY_SIZE ==> final(self).frames().len()
                <= FRAME_HISTORY_SIZE,
            final(self).last_frame() == now_us,
            r == (since(old(self).last_system_update(), now_us) >= SYSTEM_UPDATE_INTERVAL_US),
            final(self).last_system_update() == if r {
                now_us
            } else {
                old(self).last_system_update()
            },
            final(self).system_stats() == old(self).system_stats(),
            final(self).shown() == old(self).shown(),
    {
        let frame_time: u64 = if now_us >= self.last_frame_us {
            now_us - self.last_frame_us
        } else {
            0
        };
        self.last_frame_us = now_us;
        self.frame_times.push_back(frame_time);
        if self.frame_times.len() > FRAME_HISTORY_SIZE {
            let _ = self.frame_times.pop_front();
        }
        assert(self.frame_times@ =~= pushed_frame(old(self).frames(), frame_time));
        let waited: u64 = if now_us >= self.last_system_update_us {
            now_us - self.last_system_update_us
        } else {
            0
        };
        if waited >= SYSTEM_UPDATE_INTERVAL_US {
            self.last_system_update_us = now_us;
            true
        } else {
            false
        }
    }

    /// Takes a reading of processor use, in hundredths of a percent, and of
    /// memory in use and in all, in bytes.
    pub fn set_system_stats(&mut self, cpu_usage_basis_points: u32, memory_used_bytes: u64, memory_total_bytes: u64)
        ensures
            final(self).system_stats() == (cpu_usage_basis_points, memory_used_bytes, memory_total_bytes),
            final(self).frames() == old(self).frames(),
            final(self).last_frame() == old(self).last_frame(),
            final(self).last_system_update() == old(self).last_system_update(),
            final(self).shown() == old(self).shown(),
    {
        self.cpu_usage_basis_points = cpu_usage_basis_points;
        self.memory_used_bytes = memory_used_bytes;
        self.memory_total_bytes = memory_total_bytes;
    }

    /// Number of frame durations held.
    pub fn frame_count(&self) -> (r: usize)
        ensures
            r == self.frames().len(),
    {
        self.frame_times.len()
    }

    /// Sum of the frame durations held, in microseconds.
    pub fn total_frame_time_us(&self) -> (r: u128)
        ensures
            r == sum_of(self.frames()),
    {
        let mut total: u128 = 0;
        let mut i: usize = 0;
        while i < self.frame_times.len()
            invariant
                i <= self.frame_times.len(),
                total == sum_of(self.frame_times@.take(i as int)),
                total <= i * 0xffff_ffff_ffff_ffff,
            decreases self.frame_times.len() - i,
        {
            proof {
                let next = self.frame_times@.take(i as int + 1);
                assert(next.drop_last() == self.frame_times@.take(i as int));
                assert(next.last() == self.frame_times@[i as int]);
            }
            total = total + self.frame_times[i] as u128;
            i = i + 1;
        }
        proof {
            assert(self.frame_times@.take(self.frame_times@.len() as int) == self.frame_times@);
        }
        total
    }

    /// Mean frame duration in microseconds, rounded down; zero for an
    /// empty window.
    pub fn avg_frame_time_us(&self) -> (r: u64)
        ensures
            r == if self.frames().len() == 0 {
                0
            } else {
                sum_of(self.frames()) as int / self.frames().len() as int
            },
    {
        let n: usize = self.frame_times.len();
        if n == 0 {
            0
        } else {
            let total: u128 = self.total_frame_time_us();
            proof {
                lemma_sum_bound(self.frame_times@);
                lemma_mean_fits(total as int, n as int);
            }
            let mean: u128 = total / (n as u128);
            mean as u64
        }
    }

    /// Frames in a thousand seconds at the mean frame duration, rounded
    /// down; zero where the mean is zero.
    pub fn fps_milli(&self) -> (r: u64)
        ensures
            ({
                let mean = if self.frames().len() == 0 {
                    0
                } else {
                    sum_of(self.frames()) as int / self.frames().len() as int
                };
                r == if mean > 0 {
                    1_000_000_000int / mean
                } else {
                    0int
                }
            }),
    {
        let mean: u64 = self.avg_frame_time_us();
        if mean > 0 {
            1_000_000_000u64 / mean
        } else {
            0
        }
    }

    /// The shortest frame duration held; zero for an empty window.
    pub fn min_frame_time_us(&self) -> (r: u64)
        ensures
            self.frames().len() == 0 ==> r == 0,
            self.frames().len() > 0 ==> self.frames().contains(r),
            forall|k: int| 0 <= k < self.frames().len() ==> r <= #[trigger] self.frames()[k],
    {
        if self.frame_times.len() == 0 {
            return 0;
        }
        let mut best: u64 = self.frame_times[0];
        let mut i: usize = 1;
        while i < self.frame_times.len()
            invariant
                1 <= i <= self.frame_times.len(),
                self.frame_times@.contains(best),
                forall|k: int| 0 <= k < i ==> best <= #[trigger] self.frame_times@[k],
            decreases self.frame_times.len() - i,
        {
            if self.frame_times[i] < best {
                best = self.frame_times[i];
            }
            i = i + 1;
        }
        best
    }

    /// The longest frame duration held; zero for an empty window.
    pub fn max_frame_time_us(&self) -> (r: u64)
        ensures
            self.frames().len() == 0 ==> r == 0,
            self.frames().len() > 0 ==> self.frames().contains(r),
            forall|k: int| 0 <= k < self.frames().len() ==> r >= #[trigger] self.frames()[k],
    {
        if self.frame_times.len() == 0 {
            return 0;
        }
        let mut best: u64 = self.frame_times[0];
        let mut i: usize = 1;
        while i < self.frame_times.len()
            invariant
                1 <= i <= self.frame_times.len(),
                self.frame_times@.contains(best),
                forall|k: int| 0 <= k < i ==> best >= #[trigger] self.frame_times@[k],
            decreases self.frame_times.len() - i,
        {
            if self.frame_times[i] > best {
                best = self.frame_times[i];
            }
            i = i + 1;
        }
        best
    }

    /// Processor use in hundredths of a percent, as last read.
    pub fn cpu_usage_basis_points(&self) -> (r: u32)
        ensures
            r == self.system_stats().0,
    {
        self.cpu_usage_basis_points
    }

    /// Memory in use in bytes, as last read.
    pub fn memory_used_bytes(&self) -> (r: u64)
        ensures
            r == self.system_stats().1,
    {
        self.memory_used_bytes
    }

    /// Memory in all in bytes, as last read.
    pub fn memory_total_bytes(&self) -> (r: u64)
        ensures
            r == self.system_stats().2,
    {
        self.memory_total_bytes
    }

    /// Memory in use as hundredths of a percent of all memory; zero where
    /// the total is not known.
    pub fn memory_usage_basis_points(&self) -> (r: u128)
        ensures
            r == if self.system_stats().2 > 0 {
                self.system_stats().1 as int * 10000 / self.system_stats().2 as int
            } else {
                0
            },
    {
        if self.memory_total_bytes > 0 {
            let used: u128 = self.memory_used_bytes as u128;
            let total: u128 = self.memory_total_bytes as u128;
            let scaled: u128 = used * 10000;
            scaled / total
        } else {
            0
        }
    }

    /// Shows the performance display if it was hidden, hides it if shown.
    pub fn toggle_visibility(&mut self)
        ensures
            final(self).shown() == !old(self).shown(),
            final(self).frames() == old(self).frames(),
            final(self).last_frame() == old(self).last_frame(),
            final(self).last_system_update() == old(self).last_system_update(),
            final(self).system_stats() == old(self).system_stats(),
    {
        self.visible = !self.visible;
    }

    /// Whether the performance display is shown.
    pub fn is_visible(&self) -> (r: bool)
        ensures
            r == self.shown(),
    {
        self.visible
    }
}

/// A sum of durations is at most their number times the largest duration.
proof fn lemma_sum_bound(s: Seq<u64>)
    ensures
        sum_of(s) <= s.len() * 0xffff_ffff_ffff_ffff,
    decreases s.len(),
{
    if s.len() > 0 {
        lemma_sum_bound(s.drop_last());
    }
}

/// The mean of `n` numbers that fit in 64 bits fits in 64 bits.
proof fn lemma_mean_fits(total: int, n: int)
    requires
        n > 0,
        0 <= total <= n * 0xffff_ffff_ffff_ffff,
    ensures
        0 <= total / n <= 0xffff_ffff_ffff_ffff,
{
    assert(0 <= total / n <= 0xffff_ffff_ffff_ffff) by (nonlinear_arith)
        requires
            n > 0,
            0 <= total <= n * 0xffff_ffff_ffff_ffff,
    ;
}

} // verus!
