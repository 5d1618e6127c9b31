//! The decisions of the task that fires beats: what to wait for, and what
//! to do on each wake.

use vstd::prelude::*;

use crate::beat::BeatCount;
use crate::beat::tapping::TapInfo;

verus! {

/// The smallest note that the scheduler fires on: a bar has this many
/// ticks.
pub const MIN_TIME_PIECE: u64 = 32;

/// A tap interval is one quarter of a bar, so this many ticks pass between
/// two taps, and the scheduler fires once every tap interval divided by
/// this.
pub const TICKS_PER_TAP: u64 = 8;

/// What ended a wait.
#[derive(Debug, Copy, Clone, PartialEq, Eq, Structural)]
pub enum Wake {
    /// A tap was signalled.
    Tap,
    /// The interval ran out with no tap.
    Timeout,
}

/// What the scheduler waits for next.
#[derive(Debug, Copy, Clone, PartialEq, Eq, Structural)]
pub enum Wait {
    /// Not repeating: wait for a tap, however long it takes.
    ForTap,
    /// Repeating: wait for a tap, or for `micros` microseconds, whichever
    /// comes first.
    ForTapOrTimeout { micros: u64 },
}

/// What one wake asks of the application.
#[derive(Debug, Copy, Clone)]
pub struct Fired {
    /// The position in the bar to hand to the patterns.
    pub beat_count: BeatCount,
    /// Microseconds since the previous fire, or since the clock's zero at
    /// the first.
    pub since_last_shot: u64,
}

/// The state of the beat scheduler.
#[derive(Debug, Copy, Clone)]
pub struct BeatScheduler {
    pub is_repeating: bool,
    /// Microseconds between two fires while repeating.
    pub interval: u64,
    /// Microseconds that handling the last wake took.
    pub last_loop_process_time: u64,
    pub beat_count: BeatCount,
    /// When the scheduler last fired.
    pub last_shot: Option<u64>,
}

impl BeatScheduler {
    /// Whether the tempo state asks for repeating, and at which interval.
    pub open spec fn wanted_interval(tap_info: Option<TapInfo>) -> Option<u64> {
        match tap_info {
            Some(info) => if info.is_stopped {
                None
            } else {
                match info.interval {
                    Some(interval) => Some(interval / TICKS_PER_TAP),
                    None => None,
                }
            },
            None => None,
        }
    }

    /// The state after a wake by `wake` at time `now`: a tap restarts the
    /// bar and a timeout moves on by one tick, wrapping at the end of the
    /// bar; the tempo state decides whether the scheduler repeats, and at
    /// which interval.
    pub open spec fn spec_fire(self, wake: Wake, tap_info: Option<TapInfo>, now: u64) -> Self {
        BeatScheduler {
            is_repeating: Self::wanted_interval(tap_info) is Some,
            interval: match Self::wanted_interval(tap_info) {
                Some(interval) => interval,
                None => self.interval,
            },
            last_loop_process_time: self.last_loop_process_time,
            beat_count: if wake == Wake::Tap {
                BeatCount::at(0)
            } else {
                BeatCount::at(self.beat_count.next_tick())
            },
            last_shot: Some(now),
        }
    }

    /// The time from the previous fire to `now`.
    pub open spec fn since_last(self, now: u64) -> u64 {
        match self.last_shot {
            Some(last) => if now >= last {
                (now - last) as u64
            } else {
                0
            },
            None => now,
        }
    }

    /// A scheduler that waits for the first tap.
    pub fn new() -> (out: Self)
        ensures
            !out.is_repeating,
            out.interval == 0,
            out.last_loop_process_time == 0,
            out.beat_count == BeatCount::at(0),
            out.last_shot is None,
    {
        BeatScheduler {
            is_repeating: false,
            interval: 0,
            last_loop_process_time: 0,
            beat_count: BeatCount::default(),
            last_shot: None,
        }
    }

    /// What to wait for: a tap alone while not repeating; while repeating,
    /// a tap or the interval less the time that handling the last wake
    /// took, and no time at all where handling took longer than the
    /// interval.
    pub open spec fn spec_next_wait(self) -> Wait {
        if !self.is_repeating {
            Wait::ForTap
        } else if self.interval >= self.last_loop_process_time {
            Wait::ForTapOrTimeout {
                micros: (self.interval - self.last_loop_process_time) as u64,
            }
        } else {
            Wait::ForTapOrTimeout { micros: 0 }
        }
    }

    /// The state once handling a wake has taken from `process_start` to
    /// `now`; no time where the clock reads earlier at the end.
    pub open spec fn spec_processed(self, process_start: u64, now: u64) -> Self {
        BeatScheduler {
            last_loop_process_time: if now >= process_start {
                (now - process_start) as u64
            } else {
                0
            },
            ..self
        }
    }

    /// The state after one wake by timeout for each element of `wakes`,
    /// which gives the tempo state and the time of the wake.
    pub open spec fn after_timeouts(self, wakes: Seq<(Option<TapInfo>, u64)>) -> Self
        decreases wakes.len(),
    {
        if wakes.len() == 0 {
            self
        } else {
            self.after_timeouts(wakes.drop_last()).spec_fire(
                Wake::Timeout,
                wakes.last().0,
                wakes.last().1,
            )
        }
    }

    /// A wake by a tap puts the count on the first tick of the bar, and
    /// each wake by timeout after it moves the count on by one tick,
    /// whatever the tempo state and the clock say: after `k` timeouts the
    /// count is that of tick `k` modulo the length of the bar.
    pub proof fn lemma_ticks_after_tap(
        self,
        tap_info: Option<TapInfo>,
        now: u64,
        wakes: Seq<(Option<TapInfo>, u64)>,
    )
        ensures
            self.spec_fire(Wake::Tap, tap_info, now).beat_count == BeatCount::at(0),
            self.spec_fire(Wake::Tap, tap_info, now).after_timeouts(wakes).beat_count
                == BeatCount::after(wakes.len()),
            self.spec_fire(Wake::Tap, tap_info, now).after_timeouts(wakes).beat_count.n32th
                == wakes.len() % 32,
        decreases wakes.len(),
    {
        BeatCount::lemma_reachable_counts(wakes.len());
        if wakes.len() > 0 {
            self.lemma_ticks_after_tap(tap_info, now, wakes.drop_last());
        }
    }

    /// While the tempo state holds an interval and no stop, a wake leaves
    /// the scheduler repeating at the tap interval divided by
    /// `TICKS_PER_TAP`, and once handling the wake has taken `taken`
    /// microseconds, no more than that period, the next timeout is the
    /// period less `taken`.
    pub proof fn lemma_refire_period(
        self,
        wake: Wake,
        info: TapInfo,
        now: u64,
        process_start: u64,
        taken: u64,
    )
        requires
            !info.is_stopped,
            info.interval is Some,
            process_start + taken <= u64::MAX,
            taken <= info.interval->0 / TICKS_PER_TAP,
        ensures
            self.spec_fire(wake, Some(info), now).is_repeating,
            self.spec_fire(wake, Some(info), now).interval == info.interval->0 / TICKS_PER_TAP,
            self.spec_fire(wake, Some(info), now).spec_processed(
                process_start,
                (process_start + taken) as u64,
            ).spec_next_wait() == (Wait::ForTapOrTimeout {
                micros: (info.interval->0 / TICKS_PER_TAP - taken) as u64,
            }),
    {
    }

    /// Says what to wait for next.
    pub fn next_wait(&self) -> (out: Wait)
        ensures
            out == self.spec_next_wait(),
    {
        if self.is_repeating {
            Wait::ForTapOrTimeout {
                micros: if self.interval >= self.last_loop_process_time {
                    self.interval - self.last_loop_process_time
                } else {
                    0
                },
            }
        } else {
            Wait::ForTap
        }
    }

    /// Records how long handling a wake took, from `process_start` to
    /// `now`, so that the next timeout is shortened by it.
    pub fn processed(&mut self, process_start: u64, now: u64)
        ensures
            *final(self) == old(self).spec_processed(process_start, now),
    {
        self.last_loop_process_time = if now >= process_start {
            now - process_start
        } else {
            0
        };
    }
}

/// Handles one wake of the scheduler at time `now`.
///
/// A wake by a tap restarts the bar; a wake by timeout moves on by one
/// tick. The tempo state then decides whether the scheduler repeats: not
/// when stopped, at an eighth of the tap interval when there is one, and
/// not otherwise.
pub fn beat_executor(
    scheduler: &mut BeatScheduler,
    wake: Wake,
    tap_info: &Option<TapInfo>,
    now: u64,
) -> (fired: Fired)
    ensures
        *final(scheduler) == old(scheduler).spec_fire(wake, *tap_info, now),
        fired.beat_count == final(scheduler).beat_count,
        fired.beat_count.wf(),
        fired.since_last_shot == old(scheduler).since_last(now),
        wake == Wake::Tap ==> fired.beat_count == BeatCount::at(0),
        wake == Wake::Timeout ==> fired.beat_count == BeatCount::at(
            old(scheduler).beat_count.next_tick(),
        ),
{
    match wake {
        Wake::Tap => {
            scheduler.beat_count = BeatCount::default();
        },
        Wake::Timeout => {
            scheduler.beat_count.increment();
        },
    }
    match tap_info {
        Some(info) => {
            if info.is_stopped {
                scheduler.is_repeating = false;
            } else {
                match info.interval {
                    Some(interval) => {
                        scheduler.interval = interval / TICKS_PER_TAP;
                        scheduler.is_repeating = true;
                    },
                    None => {
                        scheduler.is_repeating = false;
                    },
                }
            }
        },
        None => {
            scheduler.is_repeating = false;
        },
    }
    let since: u64 = match scheduler.last_shot {
        Some(last) => if now >= last {
            now - last
        } else {
            0
        },
        None => now,
    };
    scheduler.last_shot = Some(now);
    Fired { beat_count: scheduler.beat_count, since_last_shot: since }
}

/// The level of the indicator LED for a beat: it changes on quarter notes
/// only, on for the even ones and off for the odd ones.
pub fn led_level(beat_info: &BeatCount) -> (out: Option<bool>)
    ensures
        out == match beat_info.n_quarter {
            Some(c) => Some(c % 2 == 0),
            None => None,
        },
{
    match beat_info.n_quarter {
        Some(c) => Some(c % 2 == 0),
        None => None,
    }
}

} // verus!
