//! Calibration parameters.
use vstd::prelude::*;
use crate::bytes::be16;

verus! {

/// Whether bit `index` of the mask byte `m` is set.
pub open spec fn mask_selects(m: u8, index: u8) -> bool {
    m & (1u8 << index) != 0
}

/// The value `1` for a set flag and `0` otherwise.
pub open spec fn flag_u8(b: bool) -> u8 {
    if b { 1u8 } else { 0u8 }
}

/// The calibration mask: seven flags packed from bit 0 upwards, bit 7 clear.
pub open spec fn calib_mask(
    rc64k: bool,
    rc13m: bool,
    pll: bool,
    adc_pulse: bool,
    adc_bulk_n: bool,
    adc_bulk_p: bool,
    image: bool,
) -> u8 {
    flag_u8(rc64k) | flag_u8(rc13m) << 1u8 | flag_u8(pll) << 2u8 | flag_u8(adc_pulse) << 3u8
        | flag_u8(adc_bulk_n) << 4u8 | flag_u8(adc_bulk_p) << 5u8 | flag_u8(image) << 6u8
}

/// A bitmask that selects which calibrations to perform.
#[derive(Copy, Clone, Debug, PartialEq, Eq, Structural)]
pub struct CalibParam {
    inner: u8,
}

impl CalibParam {
    /// The mask byte sent to the chip.
    pub closed spec fn mask(self) -> u8 {
        self.inner
    }

    /// Whether the calibration at bit `index` is selected.
    pub open spec fn selects(self, index: u8) -> bool {
        mask_selects(self.mask(), index)
    }

    /// Builds the mask from the seven calibration flags.
    pub fn new(
        rc64k_en: bool,
        rc13_en: bool,
        pll_en: bool,
        adc_pulse_en: bool,
        adc_bulk_n_en: bool,
        adc_bulk_p_en: bool,
        image_en: bool,
    ) -> (r: Self)
        ensures
            r.mask() == calib_mask(
                rc64k_en,
                rc13_en,
                pll_en,
                adc_pulse_en,
                adc_bulk_n_en,
                adc_bulk_p_en,
                image_en,
            ),
    {
        let inner = (rc64k_en as u8) | (rc13_en as u8) << 1u8 | (pll_en as u8) << 2u8 | (
        adc_pulse_en as u8) << 3u8 | (adc_bulk_n_en as u8) << 4u8 | (adc_bulk_p_en as u8) << 5u8
            | (image_en as u8) << 6u8;
        Self { inner }
    }

    /// Every calibration selected.
    pub fn all() -> (r: Self)
        ensures
            r.mask() == 0x7Fu8,
    {
        let r = Self::new(true, true, true, true, true, true, true);
        assert(calib_mask(true, true, true, true, true, true, true) == 0x7Fu8) by (bit_vector);
        r
    }

    /// Reads a mask byte; bit 7 is reserved and dropped.
    pub fn from_u8(val: u8) -> (r: Self)
        ensures
            r.mask() == val & 0x7Fu8,
    {
        Self { inner: val & 0x7F }
    }

    /// The mask byte sent to the chip.
    pub fn to_u8(self) -> (r: u8)
        ensures
            r == self.mask(),
    {
        self.inner
    }

    /// Whether the calibration at bit `index` (0 to 6) is selected.
    pub fn is_selected(self, index: u8) -> (r: bool)
        requires
            index < 7,
        ensures
            r == self.selects(index),
    {
        self.inner & (1u8 << index) != 0
    }
}

/// Packing the seven calibration flags and reading each bit back gives the
/// flags again, and the reserved bit 7 is always clear.
pub proof fn lemma_calib_mask_round_trip(
    rc64k: bool,
    rc13m: bool,
    pll: bool,
    adc_pulse: bool,
    adc_bulk_n: bool,
    adc_bulk_p: bool,
    image: bool,
)
    ensures
        ({
            let m = calib_mask(rc64k, rc13m, pll, adc_pulse, adc_bulk_n, adc_bulk_p, image);
            &&& mask_selects(m, 0) == rc64k
            &&& mask_selects(m, 1) == rc13m
            &&& mask_selects(m, 2) == pll
            &&& mask_selects(m, 3) == adc_pulse
            &&& mask_selects(m, 4) == adc_bulk_n
            &&& mask_selects(m, 5) == adc_bulk_p
            &&& mask_selects(m, 6) == image
            &&& m & 0x80u8 == 0
        }),
{
    let m = calib_mask(rc64k, rc13m, pll, adc_pulse, adc_bulk_n, adc_bulk_p, image);
    assert({
        &&& mask_selects(m, 0) == rc64k
        &&& mask_selects(m, 1) == rc13m
        &&& mask_selects(m, 2) == pll
        &&& mask_selects(m, 3) == adc_pulse
        &&& mask_selects(m, 4) == adc_bulk_n
        &&& mask_selects(m, 5) == adc_bulk_p
        &&& mask_selects(m, 6) == image
        &&& m & 0x80u8 == 0
    }) by (bit_vector)
        requires
            m == calib_mask(rc64k, rc13m, pll, adc_pulse, adc_bulk_n, adc_bulk_p, image),
    ;
}

/// The frequency band over which the image rejection is calibrated.
#[derive(Copy, Clone, Debug, PartialEq, Eq, Structural)]
pub enum CalibImageFreq {
    /// 430 to 440 MHz.
    MHz430_440,
    /// 470 to 510 MHz.
    MHz470_510,
    /// 779 to 787 MHz.
    MHz779_787,
    /// 863 to 870 MHz.
    MHz863_870,
    /// 902 to 928 MHz.
    MHz902_928,
}

/// The band for a frequency in whole MHz; a frequency outside all five bands
/// falls back to the 902 to 928 MHz band.
pub open spec fn image_band(mhz: int) -> CalibImageFreq {
    if 902 <= mhz <= 928 {
        CalibImageFreq::MHz902_928
    } else if 863 <= mhz <= 870 {
        CalibImageFreq::MHz863_870
    } else if 779 <= mhz <= 787 {
        CalibImageFreq::MHz779_787
    } else if 470 <= mhz <= 510 {
        CalibImageFreq::MHz470_510
    } else if 430 <= mhz <= 440 {
        CalibImageFreq::MHz430_440
    } else {
        CalibImageFreq::MHz902_928
    }
}

impl CalibImageFreq {
    /// The two band-edge bytes, as one big-endian word.
    pub open spec fn spec_code(self) -> u16 {
        match self {
            CalibImageFreq::MHz430_440 => 0x6B6F,
            CalibImageFreq::MHz470_510 => 0x7581,
            CalibImageFreq::MHz779_787 => 0xC1C5,
            CalibImageFreq::MHz863_870 => 0xD7DB,
            CalibImageFreq::MHz902_928 => 0xE1E9,
        }
    }

    /// The two band-edge bytes, as one big-endian word.
    pub fn code(self) -> (r: u16)
        ensures
            r == self.spec_code(),
    {
        match self {
            CalibImageFreq::MHz430_440 => 0x6B6F,
            CalibImageFreq::MHz470_510 => 0x7581,
            CalibImageFreq::MHz779_787 => 0xC1C5,
            CalibImageFreq::MHz863_870 => 0xD7DB,
            CalibImageFreq::MHz902_928 => 0xE1E9,
        }
    }

    /// The parameter bytes of the image calibration command.
    pub fn to_bytes(self) -> (r: [u8; 2])
        ensures
            r@ == be16(self.spec_code()),
    {
        crate::bytes::u16_to_be(self.code())
    }

    /// Picks the band that holds `rf_frequency` (in Hz).
    pub fn from_rf_frequency(rf_frequency: u32) -> (r: Self)
        ensures
            r == image_band(rf_frequency as int / 1_000_000),
    {
        let mhz = rf_frequency / 1_000_000;
        if 902 <= mhz && mhz <= 928 {
            CalibImageFreq::MHz902_928
        } else if 863 <= mhz && mhz <= 870 {
            CalibImageFreq::MHz863_870
        } else if 779 <= mhz && mhz <= 787 {
            CalibImageFreq::MHz779_787
        } else if 470 <= mhz && mhz <= 510 {
            CalibImageFreq::MHz470_510
        } else if 430 <= mhz && mhz <= 440 {
            CalibImageFreq::MHz430_440
        } else {
            CalibImageFreq::MHz902_928
        }
    }
}

} // verus!
