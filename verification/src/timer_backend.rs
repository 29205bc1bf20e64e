//! The countdown timer state machine.
//!
//! A timer owns a total duration and an elapsed counter. Each second of
//! wall-clock time, the runtime that hosts it calls [`Timer::tick`]; while the
//! timer is neither paused nor finished, the counter advances by one and the
//! new completion percentage is reported, to be sent down the progress
//! channel. [`progress_values`] is the mathematical statement of the whole
//! report sequence, and the lemmas below state its laws: one value per
//! second, between 0 and 100, never decreasing, ending at 100.

use vstd::prelude::*;

verus! {

use vstd::arithmetic::div_mod::lemma_div_by_multiple;
use vstd::arithmetic::div_mod::lemma_div_is_ordered;
use vstd::arithmetic::div_mod::lemma_div_plus_one;
use vstd::arithmetic::div_mod::lemma_div_pos_is_pos;

/// How the timer is being used for a session.
#[derive(Clone, Copy, Debug, PartialEq, Eq, Structural)]
pub enum TimerUsageMode {
    Normal,
    Zen,
}

impl Default for TimerUsageMode {
    fn default() -> (d: Self)
        ensures
            d == TimerUsageMode::Normal,
    {
        TimerUsageMode::Normal
    }
}

/// Which countdown discipline a session follows.
#[derive(Clone, Copy, Debug, PartialEq, Eq, Structural)]
pub enum TimerMode {
    Pomodoro,
    Basic,
}

impl Default for TimerMode {
    fn default() -> (d: Self)
        ensures
            d == TimerMode::Pomodoro,
    {
        TimerMode::Pomodoro
    }
}

/// Whether a countdown is currently advancing.
#[derive(Clone, Copy, Debug, PartialEq, Eq, Structural)]
pub enum TimerState {
    Started,
    Stopped,
}

impl Default for TimerState {
    fn default() -> (d: Self)
        ensures
            d == TimerState::Stopped,
    {
        TimerState::Stopped
    }
}

/// Seconds a fresh countdown runs for when no duration is configured:
/// one 25-minute work session.
pub const DEFAULT_SESSION_SECS: u16 = 1500;

/// Percentage of a countdown completed after `elapsed` of `secs` seconds,
/// rounded down.
pub open spec fn percent_done(elapsed: int, secs: int) -> int
    recommends
        0 < secs,
{
    elapsed * 100 / secs
}

/// The sequence of progress reports a countdown over `secs` seconds emits
/// when it runs to completion: one value per elapsed second, each the
/// rounded-down percentage of the total that has passed.
pub open spec fn progress_values(secs: u16) -> Seq<u16> {
    Seq::new(secs as nat, |i: int| percent_done(i + 1, secs as int) as u16)
}

/// What one second of wall-clock time does to a timer.
#[derive(Clone, Copy, Debug, PartialEq, Eq, Structural)]
pub enum TimerTick {
    /// The countdown advanced by one second; the payload is the new
    /// percentage done, to be sent down the progress channel.
    Progress(u16),
    /// The timer is paused: nothing advanced and nothing is reported.
    Paused,
    /// The countdown has already run its full duration; nothing further is
    /// ever reported, and a fresh timer must be created for a new session.
    Finished,
}

/// The countdown timer: a total duration, the seconds elapsed so far, and a
/// pause flag. Pausing suspends reporting without touching the total, so
/// resuming continues from the last elapsed value.
#[derive(Clone, Copy, Debug, PartialEq, Eq, Structural)]
pub struct Timer {
    /// Total duration of the countdown, in seconds.
    pub secs: u16,
    /// Seconds elapsed so far. `tick` only ever raises it up to `secs`.
    pub elapsed: u16,
    /// While set, ticks pass without advancing or reporting.
    pub is_paused: bool,
}

impl Timer {
    /// A fresh, unpaused countdown over `secs` seconds.
    pub open spec fn initial_spec(secs: u16) -> Timer {
        Timer { secs, elapsed: 0, is_paused: false }
    }

    /// Create a fresh countdown over `secs` seconds.
    pub fn new(secs: u16) -> (t: Timer)
        ensures
            t == Timer::initial_spec(secs),
    {
        Timer { secs, elapsed: 0, is_paused: false }
    }

    /// Reconfigure the total duration; elapsed time and the pause flag keep
    /// their values.
    pub fn set_timer_end(&mut self, at_secs: u16)
        ensures
            *final(self) == (Timer { secs: at_secs, ..*old(self) }),
    {
        self.secs = at_secs;
    }

    /// Advance the countdown by one second of wall-clock time.
    ///
    /// While the timer is unpaused and unfinished, the elapsed counter rises
    /// by one and the report is exactly the next entry of
    /// [`progress_values`]; a paused or finished timer is left untouched.
    pub fn tick(&mut self) -> (r: TimerTick)
        ensures
            old(self).is_paused ==> r == TimerTick::Paused && *final(self) == *old(self),
            !old(self).is_paused && old(self).elapsed >= old(self).secs ==> r
                == TimerTick::Finished && *final(self) == *old(self),
            !old(self).is_paused && old(self).elapsed < old(self).secs ==> {
                &&& *final(self) == (Timer {
                    elapsed: (old(self).elapsed + 1) as u16,
                    ..*old(self)
                })
                &&& r == TimerTick::Progress(
                    progress_values(old(self).secs)[old(self).elapsed as int],
                )
            },
    {
        if self.is_paused {
            TimerTick::Paused
        } else if self.elapsed >= self.secs {
            TimerTick::Finished
        } else {
            self.elapsed = self.elapsed + 1;
            let percent32: u32 = (self.elapsed as u32) * 100 / (self.secs as u32);
            proof {
                let e = self.elapsed as int;
                let s = self.secs as int;
                lemma_div_pos_is_pos(e * 100, s);
                lemma_div_is_ordered(e * 100, s * 100, s);
                lemma_div_by_multiple(100, s);
            }
            TimerTick::Progress(percent32 as u16)
        }
    }

    /// Run the countdown to completion in one call, collecting every
    /// progress value it reports, in order. An already-paused timer reports
    /// nothing and is left untouched; otherwise the result is exactly the
    /// remainder of [`progress_values`] from the elapsed position on.
    pub fn start(&mut self) -> (sent: Vec<u16>)
        ensures
            final(self).secs == old(self).secs,
            final(self).is_paused == old(self).is_paused,
            old(self).is_paused || old(self).elapsed > old(self).secs ==> *final(self) == *old(
                self,
            ) && sent@ == Seq::<u16>::empty(),
            !old(self).is_paused && old(self).elapsed <= old(self).secs ==> {
                &&& final(self).elapsed == old(self).secs
                &&& sent@ == progress_values(old(self).secs).subrange(
                    old(self).elapsed as int,
                    old(self).secs as int,
                )
            },
            !old(self).is_paused && old(self).elapsed == 0 ==> sent@ == progress_values(
                old(self).secs,
            ),
    {
        let mut sent: Vec<u16> = Vec::new();
        if self.is_paused {
            return sent;
        }
        if self.elapsed > self.secs {
            return sent;
        }
        while self.elapsed < self.secs
            invariant
                self.secs == old(self).secs,
                self.is_paused == false,
                old(self).is_paused == false,
                old(self).elapsed <= self.elapsed <= self.secs,
                sent@ == progress_values(self.secs).subrange(
                    old(self).elapsed as int,
                    self.elapsed as int,
                ),
            decreases self.secs - self.elapsed,
        {
            let r = self.tick();
            match r {
                TimerTick::Progress(p) => {
                    sent.push(p);
                    proof {
                        assert(sent@ =~= progress_values(self.secs).subrange(
                            old(self).elapsed as int,
                            self.elapsed as int,
                        ));
                    }
                },
                TimerTick::Paused => {},
                TimerTick::Finished => {},
            }
        }
        proof {
            if old(self).elapsed == 0 {
                assert(progress_values(self.secs).subrange(0, self.secs as int)
                    =~= progress_values(self.secs));
            }
        }
        sent
    }
}

impl Default for Timer {
    /// A fresh countdown over the standard work-session duration.
    fn default() -> (t: Self)
        ensures
            t == Timer::initial_spec(DEFAULT_SESSION_SECS),
    {
        Timer::new(DEFAULT_SESSION_SECS)
    }
}

/// The percentage reported after `e` of `secs` seconds lies between 0
/// and 100.
proof fn lemma_percent_in_range(secs: int, e: int)
    requires
        0 < e <= secs,
    ensures
        0 <= percent_done(e, secs) <= 100,
{
    lemma_div_pos_is_pos(e * 100, secs);
    lemma_div_is_ordered(e * 100, secs * 100, secs);
    lemma_div_by_multiple(100, secs);
}

/// Law: a countdown over `secs` seconds reports exactly `secs` progress
/// values, each between 0 and 100, and the final report of a completed
/// countdown is exactly 100.
pub proof fn lemma_progress_values_complete(secs: u16)
    ensures
        progress_values(secs).len() == secs,
        forall|i: int| 0 <= i < secs ==> 0 <= #[trigger] progress_values(secs)[i] <= 100,
        secs > 0 ==> progress_values(secs).last() == 100,
{
    let s = secs as int;
    assert forall|i: int| 0 <= i < secs implies 0 <= #[trigger] progress_values(secs)[i]
        <= 100 by {
        lemma_percent_in_range(s, i + 1);
    }
    if secs > 0 {
        lemma_div_by_multiple(100, s);
        assert(percent_done(s, s) == 100);
    }
}

/// Law: the progress reports of a single timer never decrease over its
/// lifetime.
pub proof fn lemma_progress_values_monotone(secs: u16, i: int, j: int)
    requires
        0 <= i <= j < secs,
    ensures
        progress_values(secs)[i] <= progress_values(secs)[j],
{
    let s = secs as int;
    lemma_percent_in_range(s, i + 1);
    lemma_percent_in_range(s, j + 1);
    lemma_div_is_ordered((i + 1) * 100, (j + 1) * 100, s);
}

/// Law: as long as the total duration is at most 100 seconds, every progress
/// report is strictly larger than the one before it. (With a longer
/// countdown, a single percentage point spans several seconds, so
/// consecutive reports can repeat; the reports are then only
/// non-decreasing.)
pub proof fn lemma_progress_values_strict(secs: u16, i: int, j: int)
    requires
        secs <= 100,
        0 <= i < j < secs,
    ensures
        progress_values(secs)[i] < progress_values(secs)[j],
{
    let s = secs as int;
    lemma_percent_in_range(s, i + 1);
    lemma_percent_in_range(s, j + 1);
    lemma_div_plus_one((i + 1) * 100, s);
    lemma_div_is_ordered((i + 1) * 100 + s, (j + 1) * 100, s);
}

} // verus!
