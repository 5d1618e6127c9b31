//! Tap tempo: from the times of taps to an averaged beat interval.

use vstd::prelude::*;

verus! {

/// Taps closer than this, in microseconds, are taken for bounces.
pub const MIN_TAP_DELTA: u64 = 200_000;

/// A gap longer than this, in microseconds, starts a new series.
pub const MAX_TAP_DELTA: u64 = 1_000_000;

/// The state of the tempo estimate. Times are microsecond ticks of one
/// monotonic clock.
#[derive(Debug, Copy, Clone)]
pub struct TapInfo {
    /// When the last accepted tap came.
    pub last_time: Option<u64>,
    /// The current estimate of the time between two beats.
    pub interval: Option<u64>,
    /// Set by an explicit stop; cleared by the next valid tap.
    pub is_stopped: bool,
    /// The accepted taps of the current series, not counting its first.
    pub tap_series_count: u64,
    /// When the current series began.
    pub tap_series_start: Option<u64>,
}

impl TapInfo {
    /// The state before any tap.
    pub open spec fn spec_new() -> TapInfo {
        TapInfo {
            last_time: None,
            interval: None,
            is_stopped: false,
            tap_series_count: 0,
            tap_series_start: None,
        }
    }

    /// No tap was seen and none is counted; or a series has a start that
    /// is not after the last tap, and at least `MIN_TAP_DELTA` has passed
    /// for each tap that is counted. Every state that taps lead to from a
    /// new one is of this kind.
    pub open spec fn wf(self) -> bool {
        match (self.last_time, self.tap_series_start) {
            (None, None) => self.tap_series_count == 0,
            (Some(last), Some(start)) => start <= last && self.tap_series_count * MIN_TAP_DELTA
                <= last - start,
            _ => false,
        }
    }

    /// The time from the last accepted tap to `now`, or 0 where the clock
    /// reads earlier than that tap.
    pub open spec fn delta(self, now: u64) -> int
        recommends
            self.last_time is Some,
    {
        if now >= self.last_time->0 {
            now - self.last_time->0
        } else {
            0
        }
    }

    /// A tap at `now` would be dropped as a bounce.
    pub open spec fn is_noise(self, now: u64) -> bool {
        self.last_time is Some && self.delta(now) < MIN_TAP_DELTA
    }

    /// A tap at `now` would start a new series.
    pub open spec fn is_restart(self, now: u64) -> bool {
        self.last_time is Some && self.delta(now) > MAX_TAP_DELTA
    }

    /// A tap at `now` would extend the current series.
    pub open spec fn is_valid(self, now: u64) -> bool {
        self.last_time is Some && MIN_TAP_DELTA <= self.delta(now) <= MAX_TAP_DELTA
    }

    /// A tap at `now` would extend the current series, and the series has
    /// a start that is not after `now` and a count that can grow. That is
    /// so for every valid tap in a state that taps lead to.
    pub open spec fn extends(self, now: u64) -> bool {
        &&& self.is_valid(now)
        &&& self.tap_series_start is Some
        &&& self.tap_series_start->0 <= now
        &&& self.tap_series_count < u64::MAX
    }

    /// The state after a tap at `now`.
    ///
    /// The first tap only records its time. A valid tap adds one to the
    /// series and sets the interval to the time since the series began,
    /// divided by the number of intervals in it. In a state that no taps
    /// lead to, where the series has no start, starts after `now` or has
    /// the largest count there is, the series begins anew at the previous
    /// tap.
    pub open spec fn spec_record_tap(self, now: u64) -> TapInfo {
        match self.last_time {
            None => TapInfo {
                last_time: Some(now),
                tap_series_start: match self.tap_series_start {
                    None => Some(now),
                    Some(s) => Some(s),
                },
                ..self
            },
            Some(last) => if self.is_noise(now) {
                self
            } else if self.is_restart(now) {
                TapInfo {
                    last_time: Some(now),
                    tap_series_start: Some(now),
                    tap_series_count: 0,
                    ..self
                }
            } else {
                let fresh = self.tap_series_count == u64::MAX || self.tap_series_start is None
                    || self.tap_series_start->0 > now;
                let start = if fresh {
                    last
                } else {
                    self.tap_series_start->0
                };
                let count = if fresh {
                    1u64
                } else {
                    (self.tap_series_count + 1) as u64
                };
                TapInfo {
                    last_time: Some(now),
                    interval: Some(((now - start) / (count as int)) as u64),
                    is_stopped: false,
                    tap_series_count: count,
                    tap_series_start: Some(start),
                }
            },
        }
    }

    /// The state after the taps at the times `taps`, in that order.
    pub open spec fn after_taps(taps: Seq<u64>) -> TapInfo
        decreases taps.len(),
    {
        if taps.len() == 0 {
            Self::spec_new()
        } else {
            Self::after_taps(taps.drop_last()).spec_record_tap(taps.last())
        }
    }

    /// The state before any tap.
    pub fn new() -> (out: TapInfo)
        ensures
            out == Self::spec_new(),
            out.wf(),
    {
        TapInfo {
            last_time: None,
            interval: None,
            is_stopped: false,
            tap_series_count: 0,
            tap_series_start: None,
        }
    }

    /// Takes a tap at time `now` into the tempo estimate.
    pub fn record_tap(&mut self, now: u64)
        ensures
            *final(self) == old(self).spec_record_tap(now),
            old(self).wf() ==> final(self).wf(),
            old(self).extends(now) ==> {
                &&& final(self).tap_series_count == old(self).tap_series_count + 1
                &&& final(self).tap_series_start == old(self).tap_series_start
                &&& final(self).last_time == Some(now)
                &&& !final(self).is_stopped
                &&& final(self).interval == Some(
                    ((now - old(self).tap_series_start->0) / (old(self).tap_series_count
                        + 1)) as u64,
                )
            },
            old(self).wf() && old(self).is_valid(now) ==> old(self).extends(now),
            old(self).is_valid(now) ==> final(self).tap_series_count >= 1,
            old(self).is_valid(now) ==> final(self).tap_series_start is Some,
            old(self).is_valid(now) ==> final(self).interval == Some(
                ((now - final(self).tap_series_start->0) / (final(self).tap_series_count
                    as int)) as u64,
            ),
            old(self).is_noise(now) ==> *final(self) == *old(self),
            old(self).is_restart(now) ==> final(self).tap_series_count == 0,
            old(self).is_restart(now) ==> final(self).tap_series_start == Some(now),
            old(self).is_restart(now) ==> final(self).interval == old(self).interval,
    {
        match self.last_time {
            None => {
                self.last_time = Some(now);
                if self.tap_series_start.is_none() {
                    self.tap_series_start = Some(now);
                }
            },
            Some(last) => {
                let delta: u64 = if now >= last {
                    now - last
                } else {
                    0
                };
                if delta < MIN_TAP_DELTA {
                    // a bounce: as if the tap never happened
                } else if delta > MAX_TAP_DELTA {
                    self.last_time = Some(now);
                    self.tap_series_start = Some(now);
                    self.tap_series_count = 0;
                } else {
                    let fresh: bool = match self.tap_series_start {
                        None => true,
                        Some(s) => self.tap_series_count == u64::MAX || s > now,
                    };
                    let start: u64 = match self.tap_series_start {
                        Some(s) if !fresh => s,
                        _ => last,
                    };
                    let count: u64 = if fresh {
                        1
                    } else {
                        self.tap_series_count + 1
                    };
                    self.last_time = Some(now);
                    self.interval = Some((now - start) / count);
                    self.is_stopped = false;
                    self.tap_series_count = count;
                    self.tap_series_start = Some(start);
                }
            },
        }
    }

    /// The sum of the gaps between neighbouring taps.
    pub open spec fn delta_sum(taps: Seq<u64>) -> int
        decreases taps.len(),
    {
        if taps.len() < 2 {
            0
        } else {
            Self::delta_sum(taps.drop_last()) + (taps.last() - taps[taps.len() - 2])
        }
    }

    /// Every gap between neighbouring taps is one that extends a series.
    pub open spec fn steady(taps: Seq<u64>) -> bool {
        forall|i: int|
            0 < i < taps.len() ==> MIN_TAP_DELTA <= #[trigger] taps[i] - taps[i - 1]
                <= MAX_TAP_DELTA
    }

    /// Every state that taps lead to from a new one is well formed,
    /// whatever the times of the taps.
    pub proof fn lemma_reachable_states(taps: Seq<u64>)
        ensures
            Self::after_taps(taps).wf(),
        decreases taps.len(),
    {
        if taps.len() > 0 {
            Self::lemma_reachable_states(taps.drop_last());
            Self::after_taps(taps.drop_last()).lemma_tap_keeps_wf(taps.last());
        }
    }

    /// A tap takes a well-formed state to a well-formed state.
    pub proof fn lemma_tap_keeps_wf(self, now: u64)
        requires
            self.wf(),
        ensures
            self.spec_record_tap(now).wf(),
    {
    }

    /// In a well-formed state every valid tap extends the series: it adds
    /// one to the count, keeps the start, clears the stop flag and sets
    /// the interval to the time since the start of the series divided by
    /// the new count.
    pub proof fn lemma_valid_tap_extends(self, now: u64)
        requires
            self.wf(),
            self.is_valid(now),
        ensures
            self.extends(now),
            self.spec_record_tap(now).last_time == Some(now),
            self.spec_record_tap(now).tap_series_start == self.tap_series_start,
            self.spec_record_tap(now).tap_series_count == self.tap_series_count + 1,
            self.spec_record_tap(now).interval == Some(
                ((now - self.tap_series_start->0) / (self.tap_series_count + 1)) as u64,
            ),
            !self.spec_record_tap(now).is_stopped,
    {
    }

    /// After a run of taps whose gaps all extend the series, however long
    /// it is, the interval is the arithmetic mean of the gaps: their sum,
    /// which is the time from the first tap to the last, divided by their
    /// number.
    pub proof fn lemma_interval_is_mean(taps: Seq<u64>)
        requires
            2 <= taps.len(),
            Self::steady(taps),
        ensures
            Self::delta_sum(taps) == taps.last() - taps[0],
            Self::after_taps(taps).interval == Some(
                (Self::delta_sum(taps) / (taps.len() - 1)) as u64,
            ),
            Self::after_taps(taps).tap_series_count == taps.len() - 1,
            Self::after_taps(taps).tap_series_start == Some(taps[0]),
            Self::after_taps(taps).last_time == Some(taps.last()),
            !Self::after_taps(taps).is_stopped,
        decreases taps.len(),
    {
        let head = taps.drop_last();
        let n = taps.len() as int;
        let now = taps.last();
        assert(head.last() == taps[n - 2]);
        assert(head[0] == taps[0]);
        assert(MIN_TAP_DELTA <= taps[n - 1] - taps[n - 2] <= MAX_TAP_DELTA);
        let prev = Self::after_taps(head);
        assert(Self::after_taps(taps) == prev.spec_record_tap(now));
        Self::lemma_reachable_states(head);
        if n == 2 {
            assert(head.drop_last().len() == 0);
            assert(Self::after_taps(head.drop_last()) == Self::spec_new());
            assert(prev == Self::spec_new().spec_record_tap(head.last()));
            assert(prev.last_time == Some(taps[0]));
            assert(prev.tap_series_start == Some(taps[0]));
            assert(prev.tap_series_count == 0);
            assert(Self::delta_sum(head) == 0);
        } else {
            assert(Self::steady(head)) by {
                assert forall|i: int| 0 < i < head.len() implies MIN_TAP_DELTA <= #[trigger] head[i]
                    - head[i - 1] <= MAX_TAP_DELTA by {
                    assert(head[i] == taps[i]);
                    assert(head[i - 1] == taps[i - 1]);
                    assert(MIN_TAP_DELTA <= taps[i] - taps[i - 1] <= MAX_TAP_DELTA);
                }
            }
            Self::lemma_interval_is_mean(head);
        }
        prev.lemma_valid_tap_extends(now);
        assert(Self::delta_sum(taps) == Self::delta_sum(head) + (taps[n - 1] - taps[n - 2]));
    }
}

/// Takes a tap at time `now`, starting the tempo state if there is none
/// yet.
pub fn beat_input(tap_info: &mut Option<TapInfo>, now: u64)
    ensures
        *final(tap_info) == Some(
            match *old(tap_info) {
                Some(info) => info.spec_record_tap(now),
                None => TapInfo::spec_new().spec_record_tap(now),
            },
        ),
{
    let mut info = match *tap_info {
        Some(info) => info,
        None => TapInfo::new(),
    };
    info.record_tap(now);
    *tap_info = Some(info);
}

} // verus!
