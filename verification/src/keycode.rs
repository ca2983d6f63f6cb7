//! The modifier masks that a key binding combines, as the X server numbers
//! them.
use vstd::prelude::*;

verus! {

pub const MOD_SHIFT: u8 = 1;
pub const MOD_LOCK: u8 = 2;
pub const MOD_CONTROL: u8 = 4;
pub const MOD_1: u8 = 8;
pub const MOD_2: u8 = 16;
pub const MOD_3: u8 = 32;
pub const MOD_4: u8 = 64;
pub const MOD_5: u8 = 128;

} // verus!
