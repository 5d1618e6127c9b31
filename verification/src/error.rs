//! The error values that commands and pattern descriptions can produce.

use vstd::prelude::*;

verus! {

/// Why a command or a pattern description was rejected.
#[derive(Copy, Clone, Debug, PartialEq, Eq, Structural)]
pub enum PatternError {
    /// A command token had no selector letter.
    EmptyCommand,
    /// The selector letter is not one the addressed pattern knows.
    InvalidCommand { letter: u8 },
    /// The sub-command letter after `p<index>` is not known.
    InvalidSubcommand { letter: u8 },
    /// A command stopped before its index or sub-command letter.
    Truncated,
    /// A number was missing, malformed or too large for its field.
    InvalidNumber,
    /// A colour was not six hexadecimal digits.
    InvalidColor,
    /// A colour did not start with `#`.
    MissingHash,
    /// A mode letter is not one the pattern knows.
    InvalidMode,
    /// A beat-reaction argument is not exactly one known character.
    InvalidSpeed,
    /// The pattern kind is none of the known abbreviations.
    InvalidKind,
    /// The text is not of the form `kind(args)`.
    MalformedSpec,
    /// The arguments between the parentheses do not fit the kind.
    InvalidArgs,
    /// The separating comma before a colour was missing.
    MissingComma,
    /// The entry index is not below the number of entries.
    IndexOutOfRange { index: usize, len: usize },
    /// A pixel range was neither `n` nor `start` nor `start..end`.
    InvalidRange,
    /// The entry would reach past the end of the shared buffer.
    RangeOutOfBounds,
    /// The replacement pattern has fewer pixels than the entry's range.
    PatternTooSmall,
    /// A tempo change was asked for before any tempo was known.
    NoTempo,
}

} // verus!
