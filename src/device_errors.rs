//! Device error flags.
use vstd::prelude::*;

verus! {

/// Whether bit `index` of the error word is set.
pub open spec fn error_bit(word: u16, index: u16) -> bool {
    word & (1u16 << index) != 0
}

/// The calibration, oscillator, PLL and power amplifier faults that the chip reports.
#[derive(Copy, Clone, Debug, PartialEq, Eq, Structural)]
pub struct DeviceErrors {
    inner: u16,
}

impl DeviceErrors {
    /// The error word read from the chip.
    pub closed spec fn word(self) -> u16 {
        self.inner
    }

    /// The flags of an error word read from the chip.
    pub fn from_u16(val: u16) -> (r: Self)
        ensures
            r.word() == val,
    {
        Self { inner: val }
    }

    /// The error word.
    pub fn to_u16(self) -> (r: u16)
        ensures
            r == self.word(),
    {
        self.inner
    }

    /// RC64K calibration failed.
    pub fn rc64k_calib_err(self) -> (r: bool)
        ensures
            r == error_bit(self.word(), 0),
    {
        self.inner & (1u16 << 0u16) != 0
    }

    /// RC13M calibration failed.
    pub fn rc13m_calib_err(self) -> (r: bool)
        ensures
            r == error_bit(self.word(), 1),
    {
        self.inner & (1u16 << 1u16) != 0
    }

    /// PLL calibration failed.
    pub fn pll_calib_err(self) -> (r: bool)
        ensures
            r == error_bit(self.word(), 2),
    {
        self.inner & (1u16 << 2u16) != 0
    }

    /// ADC calibration failed.
    pub fn adc_calib_err(self) -> (r: bool)
        ensures
            r == error_bit(self.word(), 3),
    {
        self.inner & (1u16 << 3u16) != 0
    }

    /// Image calibration failed.
    pub fn img_calib_err(self) -> (r: bool)
        ensures
            r == error_bit(self.word(), 4),
    {
        self.inner & (1u16 << 4u16) != 0
    }

    /// The crystal oscillator failed to start.
    pub fn xosc_start_err(self) -> (r: bool)
        ensures
            r == error_bit(self.word(), 5),
    {
        self.inner & (1u16 << 5u16) != 0
    }

    /// The PLL failed to lock.
    pub fn pll_lock_err(self) -> (r: bool)
        ensures
            r == error_bit(self.word(), 6),
    {
        self.inner & (1u16 << 6u16) != 0
    }

    /// The power amplifier ramp failed.
    pub fn pa_ramp_err(self) -> (r: bool)
        ensures
            r == error_bit(self.word(), 8),
    {
        self.inner & (1u16 << 8u16) != 0
    }
}

} // verus!
