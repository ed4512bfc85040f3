//! The frequency register value.
use vstd::prelude::*;

verus! {

/// `rf_frequency * 2^25 / f_xtal`, rounded to the nearest integer (halves up).
pub open spec fn rf_freq_value(rf_frequency: int, f_xtal: int) -> int {
    (rf_frequency * 0x200_0000 + f_xtal / 2) / f_xtal
}

/// The value of the frequency register for a carrier of `rf_frequency` Hz
/// and a crystal of `f_xtal` Hz.
pub fn calc_rf_freq(rf_frequency: u32, f_xtal: u32) -> (r: u32)
    requires
        f_xtal > 0,
        rf_freq_value(rf_frequency as int, f_xtal as int) <= u32::MAX,
    ensures
        r == rf_freq_value(rf_frequency as int, f_xtal as int),
{
    assert(rf_frequency as int * 0x200_0000 <= 0xFFFF_FFFF * 0x200_0000) by (nonlinear_arith)
        requires
            rf_frequency <= 0xFFFF_FFFFu32,
    ;
    let scaled: u64 = rf_frequency as u64 * 0x200_0000 + f_xtal as u64 / 2;
    (scaled / f_xtal as u64) as u32
}

} // verus!
