//! Register addresses.
use vstd::prelude::*;

verus! {

/// Address of the most significant byte of the sync word.
pub const LORA_SYNC_WORD_MSB: u16 = 0x0740;

/// Address of the over-current protection setting.
pub const OCP_CONFIGURATION: u16 = 0x08E7;

/// Address of the receiver gain setting.
pub const RX_GAIN: u16 = 0x08AC;

/// The receiver gain value that restores full sensitivity.
pub const RX_GAIN_BOOSTED: u8 = 0x96;

} // verus!
