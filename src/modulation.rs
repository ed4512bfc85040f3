//! Modulation parameters.
use vstd::prelude::*;

verus! {

/// The eight parameter bytes of the modulation command.
#[derive(Copy, Clone, Debug, PartialEq, Eq)]
pub struct ModParams {
    inner: [u8; 8],
}

impl ModParams {
    /// The eight bytes sent to the chip.
    pub closed spec fn bytes(self) -> Seq<u8> {
        self.inner@
    }

    /// The eight bytes sent to the chip.
    pub fn to_bytes(self) -> (r: [u8; 8])
        ensures
            r@ == self.bytes(),
    {
        self.inner
    }
}

/// The spreading factor.
#[derive(Copy, Clone, Debug, PartialEq, Eq, Structural)]
pub enum LoRaSpreadFactor {
    /// 5.
    SF5,
    /// 6.
    SF6,
    /// 7.
    SF7,
    /// 8.
    SF8,
    /// 9.
    SF9,
    /// 10.
    SF10,
    /// 11.
    SF11,
    /// 12.
    SF12,
}

impl LoRaSpreadFactor {
    /// The code of the spreading factor, which is the factor itself.
    pub open spec fn spec_code(self) -> u8 {
        match self {
            LoRaSpreadFactor::SF5 => 5,
            LoRaSpreadFactor::SF6 => 6,
            LoRaSpreadFactor::SF7 => 7,
            LoRaSpreadFactor::SF8 => 8,
            LoRaSpreadFactor::SF9 => 9,
            LoRaSpreadFactor::SF10 => 10,
            LoRaSpreadFactor::SF11 => 11,
            LoRaSpreadFactor::SF12 => 12,
        }
    }

    /// The code of the spreading factor.
    pub fn code(self) -> (r: u8)
        ensures
            r == self.spec_code(),
    {
        match self {
            LoRaSpreadFactor::SF5 => 5,
            LoRaSpreadFactor::SF6 => 6,
            LoRaSpreadFactor::SF7 => 7,
            LoRaSpreadFactor::SF8 => 8,
            LoRaSpreadFactor::SF9 => 9,
            LoRaSpreadFactor::SF10 => 10,
            LoRaSpreadFactor::SF11 => 11,
            LoRaSpreadFactor::SF12 => 12,
        }
    }

    /// The spreading factor with the given code, from 5 to 12.
    pub fn from_u8(value: u8) -> (r: Self)
        requires
            5 <= value <= 12,
        ensures
            r.spec_code() == value,
    {
        if value == 5 {
            LoRaSpreadFactor::SF5
        } else if value == 6 {
            LoRaSpreadFactor::SF6
        } else if value == 7 {
            LoRaSpreadFactor::SF7
        } else if value == 8 {
            LoRaSpreadFactor::SF8
        } else if value == 9 {
            LoRaSpreadFactor::SF9
        } else if value == 10 {
            LoRaSpreadFactor::SF10
        } else if value == 11 {
            LoRaSpreadFactor::SF11
        } else {
            LoRaSpreadFactor::SF12
        }
    }
}

/// The bandwidth.
#[derive(Copy, Clone, Debug, PartialEq, Eq, Structural)]
pub enum LoRaBandWidth {
    /// 7.81 kHz.
    BW7,
    /// 10.42 kHz.
    BW10,
    /// 15.63 kHz.
    BW15,
    /// 20.83 kHz.
    BW20,
    /// 31.25 kHz.
    BW31,
    /// 41.67 kHz.
    BW41,
    /// 62.50 kHz.
    BW62,
    /// 125 kHz.
    BW125,
    /// 250 kHz.
    BW250,
    /// 500 kHz.
    BW500,
}

impl LoRaBandWidth {
    /// The bandwidth code.
    pub open spec fn spec_code(self) -> u8 {
        match self {
            LoRaBandWidth::BW7 => 0x00,
            LoRaBandWidth::BW10 => 0x08,
            LoRaBandWidth::BW15 => 0x01,
            LoRaBandWidth::BW20 => 0x09,
            LoRaBandWidth::BW31 => 0x02,
            LoRaBandWidth::BW41 => 0x0A,
            LoRaBandWidth::BW62 => 0x03,
            LoRaBandWidth::BW125 => 0x04,
            LoRaBandWidth::BW250 => 0x05,
            LoRaBandWidth::BW500 => 0x06,
        }
    }

    /// The bandwidth code.
    pub fn code(self) -> (r: u8)
        ensures
            r == self.spec_code(),
    {
        match self {
            LoRaBandWidth::BW7 => 0x00,
            LoRaBandWidth::BW10 => 0x08,
            LoRaBandWidth::BW15 => 0x01,
            LoRaBandWidth::BW20 => 0x09,
            LoRaBandWidth::BW31 => 0x02,
            LoRaBandWidth::BW41 => 0x0A,
            LoRaBandWidth::BW62 => 0x03,
            LoRaBandWidth::BW125 => 0x04,
            LoRaBandWidth::BW250 => 0x05,
            LoRaBandWidth::BW500 => 0x06,
        }
    }
}

/// The coding rate.
#[derive(Copy, Clone, Debug, PartialEq, Eq, Structural)]
pub enum LoraCodingRate {
    /// 4/5.
    CR4_5,
    /// 4/6.
    CR4_6,
    /// 4/7.
    CR4_7,
    /// 4/8.
    CR4_8,
}

impl LoraCodingRate {
    /// The coding rate code.
    pub open spec fn spec_code(self) -> u8 {
        match self {
            LoraCodingRate::CR4_5 => 1,
            LoraCodingRate::CR4_6 => 2,
            LoraCodingRate::CR4_7 => 3,
            LoraCodingRate::CR4_8 => 4,
        }
    }

    /// The coding rate code.
    pub fn code(self) -> (r: u8)
        ensures
            r == self.spec_code(),
    {
        match self {
            LoraCodingRate::CR4_5 => 1,
            LoraCodingRate::CR4_6 => 2,
            LoraCodingRate::CR4_7 => 3,
            LoraCodingRate::CR4_8 => 4,
        }
    }
}

/// The modulation settings of a long-range link.
#[derive(Copy, Clone, Debug, PartialEq, Eq, Structural)]
pub struct LoraModParams {
    spread_factor: LoRaSpreadFactor,
    bandwidth: LoRaBandWidth,
    coding_rate: LoraCodingRate,
    low_dr_opt: bool,
}

impl LoraModParams {
    /// The spreading factor.
    pub closed spec fn sf(self) -> LoRaSpreadFactor {
        self.spread_factor
    }

    /// The bandwidth.
    pub closed spec fn bw(self) -> LoRaBandWidth {
        self.bandwidth
    }

    /// The coding rate.
    pub closed spec fn cr(self) -> LoraCodingRate {
        self.coding_rate
    }

    /// Whether low data rate optimization is on.
    pub closed spec fn ldro(self) -> bool {
        self.low_dr_opt
    }

    /// The parameter bytes: spreading factor, bandwidth, coding rate, low data
    /// rate optimization, then four zero bytes.
    pub open spec fn spec_bytes(self) -> Seq<u8> {
        seq![
            self.sf().spec_code(),
            self.bw().spec_code(),
            self.cr().spec_code(),
            if self.ldro() { 1u8 } else { 0u8 },
            0u8,
            0u8,
            0u8,
            0u8,
        ]
    }

    /// Sets the spreading factor.
    pub fn set_spread_factor(self, spread_factor: LoRaSpreadFactor) -> (r: Self)
        ensures
            r.sf() == spread_factor,
            r.bw() == self.bw(),
            r.cr() == self.cr(),
            r.ldro() == self.ldro(),
    {
        Self { spread_factor, ..self }
    }

    /// Sets the bandwidth.
    pub fn set_bandwidth(self, bandwidth: LoRaBandWidth) -> (r: Self)
        ensures
            r.sf() == self.sf(),
            r.bw() == bandwidth,
            r.cr() == self.cr(),
            r.ldro() == self.ldro(),
    {
        Self { bandwidth, ..self }
    }

    /// Sets the coding rate.
    pub fn set_coding_rate(self, coding_rate: LoraCodingRate) -> (r: Self)
        ensures
            r.sf() == self.sf(),
            r.bw() == self.bw(),
            r.cr() == coding_rate,
            r.ldro() == self.ldro(),
    {
        Self { coding_rate, ..self }
    }

    /// Turns low data rate optimization on or off.
    pub fn set_low_dr_opt(self, low_dr_opt: bool) -> (r: Self)
        ensures
            r.sf() == self.sf(),
            r.bw() == self.bw(),
            r.cr() == self.cr(),
            r.ldro() == low_dr_opt,
    {
        Self { low_dr_opt, ..self }
    }

    /// The parameter bytes of the modulation command.
    pub fn to_mod_params(self) -> (r: ModParams)
        ensures
            r.bytes() == self.spec_bytes(),
    {
        let r = ModParams {
            inner: [
                self.spread_factor.code(),
                self.bandwidth.code(),
                self.coding_rate.code(),
                if self.low_dr_opt { 1 } else { 0 },
                0,
                0,
                0,
                0,
            ],
        };
        assert(r.bytes() =~= self.spec_bytes());
        r
    }
}

impl Default for LoraModParams {
    fn default() -> (r: Self)
        ensures
            r.sf() == LoRaSpreadFactor::SF7,
            r.bw() == LoRaBandWidth::BW125,
            r.cr() == LoraCodingRate::CR4_5,
            !r.ldro(),
    {
        Self {
            spread_factor: LoRaSpreadFactor::SF7,
            bandwidth: LoRaBandWidth::BW125,
            coding_rate: LoraCodingRate::CR4_5,
            low_dr_opt: false,
        }
    }
}

} // verus!
