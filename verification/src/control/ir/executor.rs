//! What the buttons of the remote control do to the compositor.
//!
//! The remote works on the first three entries of the compositor. Entries
//! are selected with the number buttons; the other buttons act on the
//! selected entries, or on all three where none is selected.

use vstd::prelude::*;
use vstd::string::StringSliceAdditionalSpecFns;

use crate::beat::tapping::{TapInfo, beat_input};
use crate::control::ir::Actions;
use crate::patterns::{PartitionedView, PatternCommand};
use crate::patterns::ascii::{DIGIT_0, LOWER_B, LOWER_P, LOWER_S, UPPER_B, UPPER_C, UPPER_S};
use crate::patterns::partitioned::PartitionedPatterns;

verus! {

/// The number of entries that the remote works on.
pub const SLOTS: usize = 3;

/// The number of descriptions that `Next` cycles through.
pub const INIT_COMMANDS: usize = 4;

/// Why a button did nothing.
#[derive(Copy, Clone, Debug, PartialEq, Eq, Structural)]
pub enum ControlError {
    /// The button is not one the executor knows.
    UnknownAction,
    /// The button has no function yet.
    NotImplemented,
}

/// The state of the remote control's user interface.
pub struct ActionExecutor {
    selected_patterns: [bool; 3],
    is_beat_reacting: [bool; 3],
    is_rendering: [bool; 3],
    pattern_kind_index: [usize; 3],
}

/// The state as a mathematical value.
pub struct ActionExecutorView {
    pub selected: Seq<bool>,
    pub beat_reacting: Seq<bool>,
    pub rendering: Seq<bool>,
    pub kind_index: Seq<usize>,
}

/// The command `p<slot><letter>`.
pub open spec fn switch_command(slot: int, letter: u8) -> Seq<u8> {
    seq![LOWER_P, (DIGIT_0 + slot) as u8, letter]
}

/// The description that `Next` installs as number `k`.
pub open spec fn init_command(k: int) -> Seq<u8> {
    if k == 0 {
        "br(10,m,200,2)".spec_bytes()
    } else if k == 1 {
        "str(10,s,0)".spec_bytes()
    } else if k == 2 {
        "shst(44,200,400)".spec_bytes()
    } else {
        "cat()".spec_bytes()
    }
}

/// The command `p<slot>C<description k>`.
pub open spec fn replace_command(slot: int, k: int) -> Seq<u8> {
    seq![LOWER_P, (DIGIT_0 + slot) as u8, UPPER_C] + init_command(k)
}

fn make_switch_command(slot: usize, letter: u8) -> (out: Vec<u8>)
    requires
        slot < SLOTS,
    ensures
        out@ == switch_command(slot as int, letter),
{
    let mut out: Vec<u8> = Vec::new();
    out.push(LOWER_P);
    out.push(DIGIT_0 + slot as u8);
    out.push(letter);
    assert(out@ =~= switch_command(slot as int, letter));
    out
}

fn make_replace_command(slot: usize, k: usize) -> (out: Vec<u8>)
    requires
        slot < SLOTS,
    ensures
        out@ == replace_command(slot as int, k as int),
{
    let mut out: Vec<u8> = Vec::new();
    out.push(LOWER_P);
    out.push(DIGIT_0 + slot as u8);
    out.push(UPPER_C);
    assert(out@ =~= seq![LOWER_P, (DIGIT_0 + slot) as u8, UPPER_C]);
    let text: &str = if k == 0 {
        "br(10,m,200,2)"
    } else if k == 1 {
        "str(10,s,0)"
    } else if k == 2 {
        "shst(44,200,400)"
    } else {
        "cat()"
    };
    out.extend_from_slice(text.as_bytes());
    out
}

impl ActionExecutorView {
    /// Every list has one place per entry, and every description number
    /// names a description.
    pub open spec fn wf(self) -> bool {
        &&& self.selected.len() == SLOTS
        &&& self.beat_reacting.len() == SLOTS
        &&& self.rendering.len() == SLOTS
        &&& self.kind_index.len() == SLOTS
        &&& forall|i: int| 0 <= i < SLOTS ==> #[trigger] self.kind_index[i] < INIT_COMMANDS
    }

    /// No entry is selected, so that a button acts on all.
    pub open spec fn none_selected(self) -> bool {
        !self.selected[0] && !self.selected[1] && !self.selected[2]
    }

    /// A button acts on entry `slot`.
    pub open spec fn targets(self, slot: int) -> bool {
        self.selected[slot] || self.none_selected()
    }

    /// After `Power` has reached `slot`: where the button acts on it, its
    /// rendering is switched over, here and in the compositor.
    pub open spec fn power_slot(self, rgbs: PartitionedView, slot: int, hit: bool) -> (
        ActionExecutorView,
        PartitionedView,
    ) {
        if hit {
            (
                ActionExecutorView {
                    rendering: self.rendering.update(slot, !self.rendering[slot]),
                    ..self
                },
                rgbs.execute(
                    switch_command(
                        slot,
                        if !self.rendering[slot] {
                            UPPER_S
                        } else {
                            LOWER_S
                        },
                    ),
                ).0,
            )
        } else {
            (self, rgbs)
        }
    }

    /// After `Mute` has reached `slot`: where the button acts on it, its
    /// listening to beats is switched over, here and in the compositor.
    pub open spec fn mute_slot(self, rgbs: PartitionedView, slot: int, hit: bool) -> (
        ActionExecutorView,
        PartitionedView,
    ) {
        if hit {
            (
                ActionExecutorView {
                    beat_reacting: self.beat_reacting.update(slot, !self.beat_reacting[slot]),
                    ..self
                },
                rgbs.execute(
                    switch_command(
                        slot,
                        if !self.beat_reacting[slot] {
                            UPPER_B
                        } else {
                            LOWER_B
                        },
                    ),
                ).0,
            )
        } else {
            (self, rgbs)
        }
    }

    /// After `Power`: the three entries in order.
    pub open spec fn power(self, rgbs: PartitionedView) -> (ActionExecutorView, PartitionedView) {
        let a = self.power_slot(rgbs, 0, self.targets(0));
        let b = a.0.power_slot(a.1, 1, self.targets(1));
        b.0.power_slot(b.1, 2, self.targets(2))
    }

    /// After `Mute`: the three entries in order.
    pub open spec fn mute(self, rgbs: PartitionedView) -> (ActionExecutorView, PartitionedView) {
        let a = self.mute_slot(rgbs, 0, self.targets(0));
        let b = a.0.mute_slot(a.1, 1, self.targets(1));
        b.0.mute_slot(b.1, 2, self.targets(2))
    }

    /// The one entry that is selected, if exactly one is.
    pub open spec fn single_selection(self) -> Option<int> {
        if self.selected[0] && !self.selected[1] && !self.selected[2] {
            Some(0int)
        } else if !self.selected[0] && self.selected[1] && !self.selected[2] {
            Some(1int)
        } else if !self.selected[0] && !self.selected[1] && self.selected[2] {
            Some(2int)
        } else {
            None
        }
    }

    /// After `Next`: with exactly one entry selected, the next of the
    /// descriptions takes the place of its pattern.
    pub open spec fn next_kind(self, rgbs: PartitionedView) -> (
        ActionExecutorView,
        PartitionedView,
    ) {
        match self.single_selection() {
            Some(slot) => {
                let k = (self.kind_index[slot] + 1) % (INIT_COMMANDS as int);
                (
                    ActionExecutorView {
                        kind_index: self.kind_index.update(slot, k as usize),
                        ..self
                    },
                    rgbs.execute(replace_command(slot, k)).0,
                )
            },
            None => (self, rgbs),
        }
    }

    /// After `LightMixed`: all entries are selected, or none where all
    /// were.
    pub open spec fn select_all(self) -> ActionExecutorView {
        let all = self.selected[0] && self.selected[1] && self.selected[2];
        ActionExecutorView { selected: seq![!all, !all, !all], ..self }
    }

    /// After a number button: the selection of `slot` is switched over.
    pub open spec fn toggled(self, slot: int) -> ActionExecutorView {
        ActionExecutorView { selected: self.selected.update(slot, !self.selected[slot]), ..self }
    }

    /// What a button does to the user interface and to the compositor.
    /// Failures of the commands that it sends to the compositor are not
    /// reported.
    pub open spec fn execute(self, action: Actions, rgbs: PartitionedView) -> (
        ActionExecutorView,
        PartitionedView,
    ) {
        match action {
            Actions::Power => self.power(rgbs),
            Actions::Mute => self.mute(rgbs),
            Actions::Next => self.next_kind(rgbs),
            Actions::LightMixed => (self.select_all(), rgbs),
            Actions::Button1 => (self.toggled(0), rgbs),
            Actions::Button2 => (self.toggled(1), rgbs),
            Actions::Button3 => (self.toggled(2), rgbs),
            _ => (self, rgbs),
        }
    }
}

/// What a button answers: whether a tap was recorded, or why the button
/// did nothing.
pub open spec fn spec_outcome(action: Actions, repeat: bool) -> Result<bool, ControlError> {
    match action {
        Actions::Unknown => Err(ControlError::UnknownAction),
        Actions::Light1 => Err(ControlError::NotImplemented),
        Actions::Light2 => Err(ControlError::NotImplemented),
        Actions::Beat => Ok(!repeat),
        _ => Ok(false),
    }
}

impl View for ActionExecutor {
    type V = ActionExecutorView;

    closed spec fn view(&self) -> ActionExecutorView {
        ActionExecutorView {
            selected: self.selected_patterns@,
            beat_reacting: self.is_beat_reacting@,
            rendering: self.is_rendering@,
            kind_index: self.pattern_kind_index@,
        }
    }
}

impl ActionExecutor {
    /// Nothing selected, every entry rendering and listening to beats.
    pub fn new() -> (out: Self)
        ensures
            out@.wf(),
            out@.selected == seq![false, false, false],
            out@.beat_reacting == seq![true, true, true],
            out@.rendering == seq![true, true, true],
            out@.kind_index == seq![0usize, 0usize, 0usize],
    {
        let out = ActionExecutor {
            selected_patterns: [false, false, false],
            is_beat_reacting: [true, true, true],
            is_rendering: [true, true, true],
            pattern_kind_index: [0, 0, 0],
        };
        assert(out@.selected =~= seq![false, false, false]);
        assert(out@.beat_reacting =~= seq![true, true, true]);
        assert(out@.rendering =~= seq![true, true, true]);
        assert(out@.kind_index =~= seq![0usize, 0usize, 0usize]);
        out
    }

    /// Whether entry `slot` is selected, renders and listens to beats, and
    /// which description `Next` installed in it last.
    pub fn slot(&self, slot: usize) -> (out: Option<(bool, bool, bool, usize)>)
        ensures
            out == (if slot < SLOTS {
                Some(
                    (
                        self@.selected[slot as int],
                        self@.rendering[slot as int],
                        self@.beat_reacting[slot as int],
                        self@.kind_index[slot as int],
                    ),
                )
            } else {
                None
            }),
    {
        if slot < SLOTS {
            Some(
                (
                    self.selected_patterns[slot],
                    self.is_rendering[slot],
                    self.is_beat_reacting[slot],
                    self.pattern_kind_index[slot],
                ),
            )
        } else {
            None
        }
    }

    fn power_slot(&mut self, rgbs: &mut PartitionedPatterns, slot: usize, hit: bool)
        requires
            old(self)@.wf(),
            old(rgbs).wf(),
            slot < SLOTS,
        ensures
            (final(self)@, final(rgbs)@) == old(self)@.power_slot(old(rgbs)@, slot as int, hit),
            final(self)@.wf(),
            final(rgbs).wf(),
            final(self)@.selected == old(self)@.selected,
    {
        if hit {
            let on: bool = !self.is_rendering[slot];
            self.is_rendering[slot] = on;
            let cmd = make_switch_command(
                slot,
                if on {
                    UPPER_S
                } else {
                    LOWER_S
                },
            );
            let _ = rgbs.execute_bytes(cmd.as_slice());
            assert(self@.rendering =~= old(self)@.rendering.update(slot as int, on));
        }
    }

    fn mute_slot(&mut self, rgbs: &mut PartitionedPatterns, slot: usize, hit: bool)
        requires
            old(self)@.wf(),
            old(rgbs).wf(),
            slot < SLOTS,
        ensures
            (final(self)@, final(rgbs)@) == old(self)@.mute_slot(old(rgbs)@, slot as int, hit),
            final(self)@.wf(),
            final(rgbs).wf(),
            final(self)@.selected == old(self)@.selected,
    {
        if hit {
            let on: bool = !self.is_beat_reacting[slot];
            self.is_beat_reacting[slot] = on;
            let cmd = make_switch_command(
                slot,
                if on {
                    UPPER_B
                } else {
                    LOWER_B
                },
            );
            let _ = rgbs.execute_bytes(cmd.as_slice());
            assert(self@.beat_reacting =~= old(self)@.beat_reacting.update(slot as int, on));
        }
    }

    fn toggle(&mut self, slot: usize)
        requires
            old(self)@.wf(),
            slot < SLOTS,
        ensures
            final(self)@ == old(self)@.toggled(slot as int),
            final(self)@.wf(),
    {
        let on: bool = !self.selected_patterns[slot];
        self.selected_patterns[slot] = on;
        assert(self@.selected =~= old(self)@.selected.update(slot as int, on));
    }

    /// Carries out the action of a button at time `now`. `repeat` says
    /// that the button is being held, which a tap ignores.
    ///
    /// Returns whether a tap was recorded, so that the beat scheduler can
    /// be woken.
    pub fn execute(
        &mut self,
        action: Actions,
        repeat: bool,
        rgbs: &mut PartitionedPatterns,
        tap_info: &mut Option<TapInfo>,
        now: u64,
    ) -> (out: Result<bool, ControlError>)
        requires
            old(self)@.wf(),
            old(rgbs).wf(),
        ensures
            final(self)@.wf(),
            final(rgbs).wf(),
            out == spec_outcome(action, repeat),
            (final(self)@, final(rgbs)@) == old(self)@.execute(action, old(rgbs)@),
            *final(tap_info) == (if action == Actions::Beat && !repeat {
                Some(
                    match *old(tap_info) {
                        Some(info) => info.spec_record_tap(now),
                        None => TapInfo::spec_new().spec_record_tap(now),
                    },
                )
            } else {
                *old(tap_info)
            }),
    {
        let s0: bool = self.selected_patterns[0];
        let s1: bool = self.selected_patterns[1];
        let s2: bool = self.selected_patterns[2];
        let none: bool = !s0 && !s1 && !s2;
        match action {
            Actions::Power => {
                self.power_slot(rgbs, 0, s0 || none);
                self.power_slot(rgbs, 1, s1 || none);
                self.power_slot(rgbs, 2, s2 || none);
                Ok(false)
            },
            Actions::Mute => {
                self.mute_slot(rgbs, 0, s0 || none);
                self.mute_slot(rgbs, 1, s1 || none);
                self.mute_slot(rgbs, 2, s2 || none);
                Ok(false)
            },
            Actions::Next => {
                let slot: Option<usize> = if s0 && !s1 && !s2 {
                    Some(0)
                } else if !s0 && s1 && !s2 {
                    Some(1)
                } else if !s0 && !s1 && s2 {
                    Some(2)
                } else {
                    None
                };
                match slot {
                    Some(slot) => {
                        let k: usize = (self.pattern_kind_index[slot] + 1) % INIT_COMMANDS;
                        self.pattern_kind_index[slot] = k;
                        let cmd = make_replace_command(slot, k);
                        let _ = rgbs.execute_bytes(cmd.as_slice());
                        assert(self@.kind_index =~= old(self)@.kind_index.update(slot as int, k));
                    },
                    None => {},
                }
                Ok(false)
            },
            Actions::LightMixed => {
                let all: bool = s0 && s1 && s2;
                self.selected_patterns = [!all, !all, !all];
                assert(self@.selected =~= seq![!all, !all, !all]);
                Ok(false)
            },
            Actions::Button1 => {
                self.toggle(0);
                Ok(false)
            },
            Actions::Button2 => {
                self.toggle(1);
                Ok(false)
            },
            Actions::Button3 => {
                self.toggle(2);
                Ok(false)
            },
            Actions::Beat => {
                if !repeat {
                    beat_input(tap_info, now);
                    Ok(true)
                } else {
                    Ok(false)
                }
            },
            Actions::Light1 => Err(ControlError::NotImplemented),
            Actions::Light2 => Err(ControlError::NotImplemented),
            Actions::Unknown => Err(ControlError::UnknownAction),
            _ => Ok(false),
        }
    }
}

} // verus!
