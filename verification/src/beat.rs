//! Where a beat falls in a 4/4 bar, and how taps become a tempo.

use vstd::prelude::*;

pub mod counting;
pub mod tapping;

verus! {

/// The number of thirty-second notes in a bar: the counter wraps here.
pub const TICKS_PER_BAR: usize = 32;

/// The position of a beat trigger in a 4/4 bar.
///
/// A field that is `None` does not trigger on this tick; `Some(n)` triggers
/// and gives the zero-based position within the bar.
///
/// * `n_full`: `Some(0)` on the first tick of the bar only.
/// * `n_half`: triggers twice per bar.
/// * `n_quarter`: triggers four times per bar.
/// * `n8th`: triggers eight times per bar.
/// * `n16th`: triggers 16 times per bar.
/// * `n32th`: triggers on every tick, 32 times per bar.
#[derive(Debug, Copy, Clone)]
pub struct BeatCount {
    pub n_full: Option<usize>,
    pub n_half: Option<usize>,
    pub n_quarter: Option<usize>,
    pub n8th: Option<usize>,
    pub n16th: Option<usize>,
    pub n32th: usize,
}

/// The position that tick `tick` has among the notes that span `span`
/// ticks each, if one of them starts on it.
pub open spec fn subdivision(tick: usize, span: usize) -> Option<usize> {
    if tick % span == 0 {
        Some(tick / span)
    } else {
        None
    }
}

impl BeatCount {
    /// The count at tick `tick` of the bar.
    pub open spec fn at(tick: usize) -> BeatCount {
        BeatCount {
            n_full: subdivision(tick, 32),
            n_half: subdivision(tick, 16),
            n_quarter: subdivision(tick, 8),
            n8th: subdivision(tick, 4),
            n16th: subdivision(tick, 2),
            n32th: tick,
        }
    }

    /// The tick is within the bar and every coarser field follows from it.
    pub open spec fn wf(self) -> bool {
        &&& self.n32th < 32
        &&& self == Self::at(self.n32th)
    }

    /// The tick that follows this one, wrapping at the end of the bar.
    pub open spec fn next_tick(self) -> usize {
        ((self.n32th % 32 + 1) % 32) as usize
    }

    /// The count after `k` increments from the start of a bar.
    pub open spec fn after(k: nat) -> BeatCount
        decreases k,
    {
        if k == 0 {
            Self::at(0)
        } else {
            Self::at(Self::after((k - 1) as nat).next_tick())
        }
    }

    /// Moves on by one thirty-second note and recomputes every field.
    pub fn increment(&mut self)
        ensures
            *final(self) == Self::at(old(self).next_tick()),
            final(self).wf(),
    {
        let tick: usize = (self.n32th % 32 + 1) % 32;
        self.n32th = tick;
        self.n16th = if tick % 2 == 0 {
            Some(tick / 2)
        } else {
            None
        };
        self.n8th = if tick % 4 == 0 {
            Some(tick / 4)
        } else {
            None
        };
        self.n_quarter = if tick % 8 == 0 {
            Some(tick / 8)
        } else {
            None
        };
        self.n_half = if tick % 16 == 0 {
            Some(tick / 16)
        } else {
            None
        };
        self.n_full = if tick % 32 == 0 {
            Some(tick / 32)
        } else {
            None
        };
    }

    /// Every count that increments reach from the start of a bar has its
    /// tick within the bar, and a coarser subdivision is present exactly
    /// when the tick is a multiple of its span, at the position that the
    /// tick gives.
    pub proof fn lemma_reachable_counts(k: nat)
        ensures
            Self::after(k).wf(),
            Self::after(k).n32th == k % 32,
            Self::after(k).n16th.is_some() == (Self::after(k).n32th % 2 == 0),
            Self::after(k).n8th.is_some() == (Self::after(k).n32th % 4 == 0),
            Self::after(k).n_quarter.is_some() == (Self::after(k).n32th % 8 == 0),
            Self::after(k).n_half.is_some() == (Self::after(k).n32th % 16 == 0),
            Self::after(k).n_full.is_some() == (Self::after(k).n32th == 0),
            Self::after(k).n16th matches Some(n) ==> n < 16,
            Self::after(k).n8th matches Some(n) ==> n < 8,
            Self::after(k).n_quarter matches Some(n) ==> n < 4,
            Self::after(k).n_half matches Some(n) ==> n < 2,
            Self::after(k).n_full matches Some(n) ==> n == 0,
        decreases k,
    {
        if k > 0 {
            Self::lemma_reachable_counts((k - 1) as nat);
        }
    }
}

impl Default for BeatCount {
    /// Tick zero: the first beat of a bar, every subdivision present.
    fn default() -> (out: BeatCount)
        ensures
            out == BeatCount::at(0),
            out.wf(),
    {
        BeatCount {
            n_full: Some(0),
            n_half: Some(0),
            n_quarter: Some(0),
            n8th: Some(0),
            n16th: Some(0),
            n32th: 0,
        }
    }
}

} // verus!
