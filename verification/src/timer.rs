//! Countdown timers driving the cannon cooldown and the spawn cadence.
//!
//! A one-shot timer accumulates advance up to its duration, reports
//! finished once the duration is reached, and must be reset explicitly.
//! A repeating timer reports finished exactly on the ticks whose advance
//! crosses the duration and starts the next period from zero, so a full
//! period of fresh advance separates consecutive firings.
use vstd::prelude::*;

verus! {

/// Whether a timer stops once elapsed or restarts from zero.
#[derive(Clone, Copy, PartialEq, Eq, Structural, Debug)]
pub enum TimerMode {
    Once,
    Repeating,
}

/// A countdown timer over integer microseconds.
#[derive(Clone, Copy, PartialEq, Eq, Structural, Debug)]
pub struct Timer {
    /// Full duration in microseconds.
    pub duration: u64,
    /// Advance accumulated in the current period, in microseconds.
    pub elapsed: u64,
    /// One-shot or repeating behavior.
    pub mode: TimerMode,
    /// For a repeating timer: whether the most recent tick crossed the
    /// duration.
    pub fired: bool,
}

impl Timer {
    /// The accumulated advance never exceeds the duration.
    pub open spec fn wf(self) -> bool {
        self.elapsed <= self.duration
    }

    /// A timer reports finished when a one-shot timer has accumulated its
    /// full duration, or when a repeating timer crossed its duration on
    /// the most recent tick.
    pub open spec fn finished_spec(self) -> bool {
        match self.mode {
            TimerMode::Once => self.elapsed >= self.duration,
            TimerMode::Repeating => self.fired,
        }
    }

    /// The state `advance` microseconds of ticking turns `self` into: a
    /// one-shot timer saturates at its duration; a repeating timer that
    /// reaches its duration fires and restarts from zero.
    pub open spec fn ticked(self, advance: u64) -> Timer {
        match self.mode {
            TimerMode::Once => Timer {
                elapsed: if self.elapsed + advance >= self.duration {
                    self.duration
                } else {
                    (self.elapsed + advance) as u64
                },
                ..self
            },
            TimerMode::Repeating => {
                if self.elapsed + advance >= self.duration {
                    Timer { elapsed: 0, fired: true, ..self }
                } else {
                    Timer { elapsed: (self.elapsed + advance) as u64, fired: false, ..self }
                }
            },
        }
    }

    /// Build a fresh, unelapsed timer.
    pub fn new(duration: u64, mode: TimerMode) -> (t: Timer)
        ensures
            t == (Timer { duration, elapsed: 0, mode, fired: false }),
            t.wf(),
    {
        Timer { duration, elapsed: 0, mode, fired: false }
    }

    /// Build a one-shot timer that is already finished, as a cooldown that
    /// is ready at startup.
    pub fn new_finished(duration: u64) -> (t: Timer)
        ensures
            t == (Timer { duration, elapsed: duration, mode: TimerMode::Once, fired: false }),
            t.wf(),
            t.finished_spec(),
    {
        Timer { duration, elapsed: duration, mode: TimerMode::Once, fired: false }
    }

    /// Whether the timer currently reports finished.
    pub fn finished(&self) -> (r: bool)
        ensures
            r == self.finished_spec(),
    {
        match self.mode {
            TimerMode::Once => self.elapsed >= self.duration,
            TimerMode::Repeating => self.fired,
        }
    }

    /// Advance the timer.
    pub fn tick(&mut self, advance: u64)
        requires
            old(self).wf(),
            old(self).elapsed + advance <= u64::MAX,
        ensures
            *final(self) == old(self).ticked(advance),
            final(self).wf(),
            final(self).duration == old(self).duration,
            final(self).mode == old(self).mode,
    {
        match self.mode {
            TimerMode::Once => {
                let total = self.elapsed + advance;
                if total >= self.duration {
                    self.elapsed = self.duration;
                } else {
                    self.elapsed = total;
                }
            },
            TimerMode::Repeating => {
                let total = self.elapsed + advance;
                if total >= self.duration {
                    self.elapsed = 0;
                    self.fired = true;
                } else {
                    self.elapsed = total;
                    self.fired = false;
                }
            },
        }
    }

    /// Restart the countdown from zero.
    pub fn reset(&mut self)
        ensures
            *final(self) == (Timer {
                elapsed: 0,
                fired: false,
                ..*old(self)
            }),
            final(self).wf(),
    {
        self.elapsed = 0;
        self.fired = false;
    }
}

/// Sum of `advances[a..b]`, the advance accumulated over a span of ticks.
pub open spec fn advance_sum(advances: Seq<int>, a: int, b: int) -> int
    decreases b - a,
{
    if a >= b {
        0
    } else {
        advance_sum(advances, a, b - 1) + advances[b - 1]
    }
}

/// A sum of nonnegative advances is nonnegative.
pub proof fn lemma_advance_sum_nonneg(advances: Seq<int>, a: int, b: int)
    requires
        0 <= a,
        b <= advances.len(),
        forall|k: int| 0 <= k < advances.len() ==> advances[k] >= 0,
    ensures
        advance_sum(advances, a, b) >= 0,
    decreases b - a,
{
    if a < b {
        lemma_advance_sum_nonneg(advances, a, b - 1);
    }
}

/// Elapsed state of a repeating timer of duration `d` that started from
/// zero and was ticked by `advances` in order: it accumulates, and restarts
/// from zero on every tick whose total reaches `d`.
pub open spec fn rep_elapsed_after(d: int, advances: Seq<int>) -> int
    decreases advances.len(),
{
    if advances.len() == 0 {
        0
    } else {
        let prev = rep_elapsed_after(d, advances.drop_last());
        if prev + advances.last() >= d {
            0
        } else {
            prev + advances.last()
        }
    }
}

/// The repeating timer fires on tick `i` (advances applied in order,
/// starting from an unelapsed timer).
pub open spec fn rep_fires_at(d: int, advances: Seq<int>, i: int) -> bool {
    rep_elapsed_after(d, advances.take(i)) + advances[i] >= d
}

/// After a firing at tick `i`, the elapsed state never exceeds the advance
/// accumulated since that firing.
proof fn lemma_rep_elapsed_bounded(d: int, advances: Seq<int>, i: int, k: int)
    requires
        0 <= i < k <= advances.len(),
        forall|j: int| 0 <= j < advances.len() ==> advances[j] >= 0,
        rep_fires_at(d, advances, i),
    ensures
        rep_elapsed_after(d, advances.take(k)) <= advance_sum(advances, i + 1, k),
    decreases k - i,
{
    assert(advances.take(k).drop_last() =~= advances.take(k - 1));
    assert(advances.take(k).last() == advances[k - 1]);
    if k == i + 1 {
        assert(rep_elapsed_after(d, advances.take(k))
            == if rep_elapsed_after(d, advances.take(i)) + advances[i] >= d {
                0int
            } else {
                rep_elapsed_after(d, advances.take(i)) + advances[i]
            });
        assert(rep_elapsed_after(d, advances.take(k)) == 0);
    } else {
        lemma_rep_elapsed_bounded(d, advances, i, k - 1);
        lemma_advance_sum_nonneg(advances, i + 1, k);
    }
}

/// Between any two firings of a repeating timer, the advance accumulated
/// on the timer is at least the full duration: on the timer's own clock,
/// which jitter only ever adds to, consecutive firings are never closer
/// than one nominal period.
pub proof fn lemma_rep_interval_at_least_period(d: int, advances: Seq<int>, i: int, j: int)
    requires
        0 <= i < j < advances.len(),
        forall|k: int| 0 <= k < advances.len() ==> advances[k] >= 0,
        rep_fires_at(d, advances, i),
        rep_fires_at(d, advances, j),
    ensures
        advance_sum(advances, i + 1, j + 1) >= d,
{
    lemma_rep_elapsed_bounded(d, advances, i, j);
    assert(advance_sum(advances, i + 1, j + 1)
        == advance_sum(advances, i + 1, j) + advances[j]);
}

/// Until the first firing, the elapsed state is the whole accumulated
/// advance.
proof fn lemma_rep_elapsed_total_before_first(d: int, advances: Seq<int>, k: int)
    requires
        0 <= k <= advances.len(),
        forall|j: int| 0 <= j < advances.len() ==> advances[j] >= 0,
        forall|j: int| 0 <= j < k ==> !rep_fires_at(d, advances, j),
    ensures
        rep_elapsed_after(d, advances.take(k)) == advance_sum(advances, 0, k),
    decreases k,
{
    if k > 0 {
        lemma_rep_elapsed_total_before_first(d, advances, k - 1);
        assert(advances.take(k).drop_last() =~= advances.take(k - 1));
        assert(advances.take(k).last() == advances[k - 1]);
        assert(!rep_fires_at(d, advances, k - 1));
    } else {
        assert(advances.take(0) =~= Seq::<int>::empty());
    }
}

/// The first firing of a repeating timer happens exactly when the
/// accumulated advance first reaches the duration: never before one full
/// nominal period of advance has passed.
pub proof fn lemma_rep_first_firing(d: int, advances: Seq<int>, i: int)
    requires
        0 < d,
        0 <= i < advances.len(),
        forall|k: int| 0 <= k < advances.len() ==> advances[k] >= 0,
        forall|k: int| 0 <= k < i ==> !rep_fires_at(d, advances, k),
        rep_fires_at(d, advances, i),
    ensures
        advance_sum(advances, 0, i) < d,
        advance_sum(advances, 0, i + 1) >= d,
{
    lemma_rep_elapsed_total_before_first(d, advances, i);
    if i > 0 {
        lemma_rep_elapsed_total_before_first(d, advances, i - 1);
        assert(advances.take(i).drop_last() =~= advances.take(i - 1));
        assert(advances.take(i).last() == advances[i - 1]);
        assert(!rep_fires_at(d, advances, i - 1));
        assert(rep_elapsed_after(d, advances.take(i))
            == rep_elapsed_after(d, advances.take(i - 1)) + advances[i - 1]);
    }
    assert(advance_sum(advances, 0, i + 1) == advance_sum(advances, 0, i) + advances[i]);
}

/// One executable tick of a repeating timer follows the sequence model: if
/// the elapsed state matches the model after some prefix of advances, the
/// ticked timer matches the model after one more advance, and it reports
/// finished exactly when the model fires.
pub proof fn lemma_tick_matches_rep_model(t: Timer, advances: Seq<int>, i: int)
    requires
        t.mode == TimerMode::Repeating,
        t.wf(),
        0 <= i < advances.len(),
        forall|k: int| 0 <= k < advances.len() ==> advances[k] >= 0,
        advances[i] <= u64::MAX - t.elapsed,
        t.elapsed == rep_elapsed_after(t.duration as int, advances.take(i)),
    ensures
        t.ticked(advances[i] as u64).elapsed
            == rep_elapsed_after(t.duration as int, advances.take(i + 1)),
        t.ticked(advances[i] as u64).finished_spec()
            == rep_fires_at(t.duration as int, advances, i),
{
    assert(advances.take(i + 1).drop_last() =~= advances.take(i));
    assert(advances.take(i + 1).last() == advances[i]);
}

} // verus!
