//! The bytes that the command grammar names.

use vstd::prelude::*;

verus! {

/// A blank.
pub const SPACE: u8 = 32;

/// `#`
pub const HASH: u8 = 35;

/// `(`
pub const OPEN_PAREN: u8 = 40;

/// `)`
pub const CLOSE_PAREN: u8 = 41;

/// `+`
pub const PLUS: u8 = 43;

/// `,`
pub const COMMA: u8 = 44;

/// `.`
pub const DOT: u8 = 46;

/// `0`
pub const DIGIT_0: u8 = 48;

/// `9`
pub const DIGIT_9: u8 = 57;

/// `;`
pub const SEMICOLON: u8 = 59;

/// `A`
pub const UPPER_A: u8 = 65;

/// `B`
pub const UPPER_B: u8 = 66;

/// `C`
pub const UPPER_C: u8 = 67;

/// `F`
pub const UPPER_F: u8 = 70;

/// `H`
pub const UPPER_H: u8 = 72;

/// `I`
pub const UPPER_I: u8 = 73;

/// `L`
pub const UPPER_L: u8 = 76;

/// `R`
pub const UPPER_R: u8 = 82;

/// `S`
pub const UPPER_S: u8 = 83;

/// `T`
pub const UPPER_T: u8 = 84;

/// `W`
pub const UPPER_W: u8 = 87;

/// `Z`
pub const UPPER_Z: u8 = 90;

/// `a`
pub const LOWER_A: u8 = 97;

/// `b`
pub const LOWER_B: u8 = 98;

/// `c`
pub const LOWER_C: u8 = 99;

/// `d`
pub const LOWER_D: u8 = 100;

/// `f`
pub const LOWER_F: u8 = 102;

/// `g`
pub const LOWER_G: u8 = 103;

/// `h`
pub const LOWER_H: u8 = 104;

/// `i`
pub const LOWER_I: u8 = 105;

/// `l`
pub const LOWER_L: u8 = 108;

/// `m`
pub const LOWER_M: u8 = 109;

/// `n`
pub const LOWER_N: u8 = 110;

/// `p`
pub const LOWER_P: u8 = 112;

/// `r`
pub const LOWER_R: u8 = 114;

/// `s`
pub const LOWER_S: u8 = 115;

/// `t`
pub const LOWER_T: u8 = 116;

/// `u`
pub const LOWER_U: u8 = 117;

/// `z`
pub const LOWER_Z: u8 = 122;

} // verus!
