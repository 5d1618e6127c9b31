//! What to do with a line of text from a remote control.

use vstd::prelude::*;
use vstd::string::StringSliceAdditionalSpecFns;

use crate::beat::tapping::{TapInfo, beat_input};
use crate::error::PatternError;
use crate::patterns::PatternCommand;
use crate::patterns::command::same_bytes;
use crate::patterns::partitioned::PartitionedPatterns;

verus! {

/// What a line of input did.
#[derive(Copy, Clone, Debug, PartialEq, Eq, Structural)]
pub enum InputOutcome {
    /// A tap was recorded; the beat scheduler is to be woken.
    Tap,
    /// The beat interval was doubled or halved.
    TempoChanged,
    /// The beat was stopped.
    Stopped,
    /// The text was carried out as a command of the compositor.
    Command,
}

/// The interval at half the tempo: twice as long, at most the largest
/// value.
pub open spec fn slowed(interval: u64) -> u64 {
    if interval > u64::MAX / 2 {
        u64::MAX
    } else {
        (interval * 2) as u64
    }
}

/// The tempo state with the beat interval made twice as long, or half as
/// long where `faster` is set; `None` where there is no interval yet.
pub open spec fn spec_change_speed(tap_info: Option<TapInfo>, faster: bool) -> Option<TapInfo> {
    match tap_info {
        Some(info) => match info.interval {
            Some(interval) => Some(
                TapInfo {
                    interval: Some(
                        if faster {
                            interval / 2
                        } else {
                            slowed(interval)
                        },
                    ),
                    ..info
                },
            ),
            None => None,
        },
        None => None,
    }
}

/// Doubles the tempo, or halves it. Without an interval there is nothing
/// to change, and that is an error.
pub fn change_speed(tap_info: &mut Option<TapInfo>, faster: bool) -> (out: Result<(), PatternError>)
    ensures
        match spec_change_speed(*old(tap_info), faster) {
            Some(info) => out is Ok && *final(tap_info) == Some(info),
            None => out == Err::<(), PatternError>(PatternError::NoTempo) && *final(tap_info)
                == *old(tap_info),
        },
{
    match *tap_info {
        Some(info) => match info.interval {
            Some(interval) => {
                let changed: u64 = if faster {
                    interval / 2
                } else if interval > u64::MAX / 2 {
                    u64::MAX
                } else {
                    interval * 2
                };
                let mut next = info;
                next.interval = Some(changed);
                *tap_info = Some(next);
                Ok(())
            },
            None => Err(PatternError::NoTempo),
        },
        None => Err(PatternError::NoTempo),
    }
}

/// Carries out a line of input at time `now`.
///
/// `beat` records a tap, `half` and `double` change the tempo, `stop`
/// stops the beat, and anything else is a command for the compositor.
/// `half`, `double` and `stop` fail where there is no tempo yet.
pub fn handle_wireless_input(
    request: &str,
    tap_info: &mut Option<TapInfo>,
    rgbs: &mut PartitionedPatterns,
    now: u64,
) -> (out: Result<InputOutcome, PatternError>)
    requires
        old(rgbs).wf(),
    ensures
        final(rgbs).wf(),
        request.spec_bytes() == "beat".spec_bytes() ==> {
            &&& out == Ok::<InputOutcome, PatternError>(InputOutcome::Tap)
            &&& *final(tap_info) == Some(
                match *old(tap_info) {
                    Some(info) => info.spec_record_tap(now),
                    None => TapInfo::spec_new().spec_record_tap(now),
                },
            )
            &&& final(rgbs)@ == old(rgbs)@
        },
        request.spec_bytes() != "beat".spec_bytes() && request.spec_bytes()
            == "half".spec_bytes() ==> {
            &&& final(rgbs)@ == old(rgbs)@
            &&& match spec_change_speed(*old(tap_info), false) {
                Some(info) => out == Ok::<InputOutcome, PatternError>(
                    InputOutcome::TempoChanged,
                ) && *final(tap_info) == Some(info),
                None => out == Err::<InputOutcome, PatternError>(PatternError::NoTempo)
                    && *final(tap_info) == *old(tap_info),
            }
        },
        request.spec_bytes() != "beat".spec_bytes() && request.spec_bytes()
            != "half".spec_bytes() && request.spec_bytes() == "double".spec_bytes() ==> {
            &&& final(rgbs)@ == old(rgbs)@
            &&& match spec_change_speed(*old(tap_info), true) {
                Some(info) => out == Ok::<InputOutcome, PatternError>(
                    InputOutcome::TempoChanged,
                ) && *final(tap_info) == Some(info),
                None => out == Err::<InputOutcome, PatternError>(PatternError::NoTempo)
                    && *final(tap_info) == *old(tap_info),
            }
        },
        request.spec_bytes() != "beat".spec_bytes() && request.spec_bytes()
            != "half".spec_bytes() && request.spec_bytes() != "double".spec_bytes()
            && request.spec_bytes() == "stop".spec_bytes() ==> {
            &&& final(rgbs)@ == old(rgbs)@
            &&& match *old(tap_info) {
                Some(info) => out == Ok::<InputOutcome, PatternError>(InputOutcome::Stopped)
                    && *final(tap_info) == Some(TapInfo { is_stopped: true, ..info }),
                None => out == Err::<InputOutcome, PatternError>(PatternError::NoTempo)
                    && *final(tap_info) == *old(tap_info),
            }
        },
        request.spec_bytes() != "beat".spec_bytes() && request.spec_bytes()
            != "half".spec_bytes() && request.spec_bytes() != "double".spec_bytes()
            && request.spec_bytes() != "stop".spec_bytes() ==> {
            &&& *final(tap_info) == *old(tap_info)
            &&& final(rgbs)@ == old(rgbs)@.execute(request.spec_bytes()).0
            &&& match old(rgbs)@.execute(request.spec_bytes()).1 {
                Ok(_) => out == Ok::<InputOutcome, PatternError>(InputOutcome::Command),
                Err(e) => out == Err::<InputOutcome, PatternError>(e),
            }
        },
{
    let bytes = request.as_bytes();
    if same_bytes(bytes, "beat".as_bytes()) {
        beat_input(tap_info, now);
        Ok(InputOutcome::Tap)
    } else if same_bytes(bytes, "half".as_bytes()) {
        change_speed(tap_info, false)?;
        Ok(InputOutcome::TempoChanged)
    } else if same_bytes(bytes, "double".as_bytes()) {
        change_speed(tap_info, true)?;
        Ok(InputOutcome::TempoChanged)
    } else if same_bytes(bytes, "stop".as_bytes()) {
        match *tap_info {
            Some(info) => {
                let mut next = info;
                next.is_stopped = true;
                *tap_info = Some(next);
                Ok(InputOutcome::Stopped)
            },
            None => Err(PatternError::NoTempo),
        }
    } else {
        rgbs.execute_bytes(bytes)?;
        Ok(InputOutcome::Command)
    }
}

} // verus!
