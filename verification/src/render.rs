//! The fixed parts of the installation: the strip, its frame rate and the
//! patterns it starts with.

use vstd::prelude::*;

use crate::beat::BeatCount;
use crate::beat::counting::led_level;
use crate::color::Rgb;
use crate::patterns::{
    EntryView, LedPattern, PartitionedView, Pattern, PatternCommand, PatternView,
};
use crate::patterns::breathing::{Breathing, BreathingMode, BreathingView};
use crate::patterns::caterpillar::{CaterPillars, CaterPillarsView};
use crate::patterns::partitioned::PartitionedPatterns;
use crate::patterns::strobe::{Strobe, StrobeMode, StrobeView};
use crate::util::random::{Rng, rng_after};

verus! {

/// The number of pixels on the strip.
pub const N_LEDS: usize = 44 + 11 + 12;

/// Milliseconds between two frames.
pub const RENDER_INTERVAL: u64 = 20;

/// How long to sleep before the next frame when rendering the last one
/// took `elapsed_ms` milliseconds: the rest of the interval, or `None`
/// where the frame took the whole interval or longer.
pub fn render_delay(elapsed_ms: u64) -> (out: Option<u64>)
    ensures
        out == (if elapsed_ms >= RENDER_INTERVAL {
            None
        } else {
            Some((RENDER_INTERVAL - elapsed_ms) as u64)
        }),
{
    if elapsed_ms >= RENDER_INTERVAL {
        None
    } else {
        Some(RENDER_INTERVAL - elapsed_ms)
    }
}

/// The compositor that the strip starts with: caterpillars on the first
/// 44 pixels, a breathing pattern on the next 10 and a strobe on 12 more,
/// all rendering and listening to beats. The three generators are seeded
/// by three draws from one started at `seed`.
pub open spec fn initial_rgbs(seed: u32) -> PartitionedView {
    let master = Rng::seed_state(seed);
    PartitionedView {
        rgbs: Seq::new(N_LEDS as nat, |i: int| Rgb::black()),
        patterns: seq![
            EntryView {
                range: (0, 44),
                pattern: PatternView::Caterpillar(
                    CaterPillarsView::create(
                        44,
                        None,
                        120,
                        Rng::seed_state(rng_after(master, 1)),
                    ),
                ),
                render: true,
                beat: true,
            },
            EntryView {
                range: (44, 54),
                pattern: PatternView::Breathing(
                    BreathingView::create(
                        10,
                        BreathingMode::Mixed,
                        60,
                        Rng::seed_state(rng_after(master, 2)),
                        500,
                    ),
                ),
                render: true,
                beat: true,
            },
            EntryView {
                range: (54, 66),
                pattern: PatternView::Strobe(
                    StrobeView::create(
                        12,
                        StrobeMode::Unison,
                        Rng::seed_state(rng_after(master, 3)),
                        6,
                    ),
                ),
                render: true,
                beat: true,
            },
        ],
        rng: Rng::seed_state(0),
    }
}

/// Builds the compositor that the strip starts with.
pub fn init_rgbs(seed: u32) -> (out: PartitionedPatterns)
    ensures
        out@ == initial_rgbs(seed),
        out.wf(),
{
    proof {
        reveal_with_fuel(rng_after, 4);
    }
    let mut master = Rng::new(seed);
    let mut rgbs = PartitionedPatterns::new(N_LEDS);
    let cats = CaterPillars::new(44, None, 120, Rng::new(master.random()));
    rgbs.add(Pattern::Caterpillar(cats), None);
    let breathing = Breathing::new(10, BreathingMode::Mixed, 60, Rng::new(master.random()), 500);
    rgbs.add(Pattern::Breathing(breathing), None);
    let strobe = Strobe::new(12, StrobeMode::Unison, Rng::new(master.random()), 6);
    rgbs.add(Pattern::Strobe(strobe), None);
    assert(rgbs@.patterns =~= initial_rgbs(seed).patterns);
    rgbs
}

/// Hands a beat to the patterns and says what the indicator LED is to
/// show: on or off on a quarter note, no change otherwise.
pub fn rgbs_issue_beat(rgbs: &mut PartitionedPatterns, beat_info: &BeatCount) -> (led: Option<bool>)
    requires
        old(rgbs).wf(),
    ensures
        final(rgbs).wf(),
        PatternView::Partitioned(final(rgbs)@) == PatternView::Partitioned(old(rgbs)@).beat(
            *beat_info,
        ),
        led == match beat_info.n_quarter {
            Some(c) => Some(c % 2 == 0),
            None => None,
        },
{
    rgbs.beat(beat_info);
    led_level(beat_info)
}

} // verus!
