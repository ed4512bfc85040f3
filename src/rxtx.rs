//! Transmit and receive parameters.
use vstd::prelude::*;
use crate::bytes::{be24, be32, u24_to_be, u32_to_be};

verus! {

/// The value of three bytes, most significant first.
pub open spec fn be24_value(b: Seq<u8>) -> int {
    b[0] as int * 0x1_0000 + b[1] as int * 256 + b[2] as int
}

/// The number of timeout steps for `ms` milliseconds: `ms * 64 / 1000`,
/// rounded down and kept to 24 bits.
pub open spec fn ms_to_steps(ms: int) -> int {
    (ms * 64 / 1000) % 0x100_0000
}

/// How long the chip stays in receive or transmit mode, in 15.625 µs steps.
#[derive(Copy, Clone, Debug, PartialEq, Eq)]
pub struct RxTxTimeout {
    inner: [u8; 3],
}

impl RxTxTimeout {
    /// The three bytes sent to the chip.
    pub closed spec fn bytes(self) -> Seq<u8> {
        self.inner@
    }

    /// The number of steps that the bytes encode.
    pub open spec fn steps(self) -> int {
        be24_value(self.bytes())
    }

    /// The timeout of `ms * 64 / 1000` steps, rounded down and kept to 24 bits.
    pub fn from_ms(ms: u32) -> (r: Self)
        ensures
            r.bytes() == be24(ms_to_steps(ms as int)),
            r.steps() == ms_to_steps(ms as int),
    {
        let steps: u64 = (ms as u64 * 64) / 1000 % 0x100_0000;
        let r = Self { inner: u24_to_be(steps as u32) };
        proof {
            let s = ms_to_steps(ms as int);
            assert(s == (s / 0x1_0000) % 256 * 0x1_0000 + (s / 256) % 256 * 256 + s % 256) by (
            nonlinear_arith)
                requires
                    0 <= s < 0x100_0000,
            ;
        }
        r
    }

    /// The reserved value that keeps the receiver on until a packet arrives.
    pub fn continuous_rx() -> (r: Self)
        ensures
            r.bytes() == seq![0xFFu8, 0xFFu8, 0xFFu8],
    {
        let r = Self { inner: [0xFF, 0xFF, 0xFF] };
        assert(r.bytes() =~= seq![0xFFu8, 0xFFu8, 0xFFu8]);
        r
    }

    /// The timeout made of the three most significant bytes of `val`, in
    /// order; the least significant byte is dropped.
    pub fn from_u32(val: u32) -> (r: Self)
        ensures
            r.bytes() == be32(val).subrange(0, 3),
    {
        let b = u32_to_be(val);
        let r = Self { inner: [b[0], b[1], b[2]] };
        assert(r.bytes() =~= be32(val).subrange(0, 3));
        r
    }

    /// The timeout for three bytes, most significant first.
    pub fn from_bytes(b: [u8; 3]) -> (r: Self)
        ensures
            r.bytes() == b@,
    {
        Self { inner: b }
    }

    /// The three bytes sent to the chip.
    pub fn to_bytes(self) -> (r: [u8; 3])
        ensures
            r@ == self.bytes(),
    {
        self.inner
    }
}

/// The ramp time of the power amplifier.
#[derive(Copy, Clone, Debug, PartialEq, Eq, Structural)]
pub enum RampTime {
    /// 10 µs.
    Ramp10u,
    /// 20 µs.
    Ramp20u,
    /// 40 µs.
    Ramp40u,
    /// 80 µs.
    Ramp80u,
    /// 200 µs.
    Ramp200u,
    /// 800 µs.
    Ramp800u,
    /// 1700 µs.
    Ramp1700u,
    /// 3400 µs.
    Ramp3400u,
}

impl RampTime {
    /// The ramp time code.
    pub open spec fn spec_code(self) -> u8 {
        match self {
            RampTime::Ramp10u => 0,
            RampTime::Ramp20u => 1,
            RampTime::Ramp40u => 2,
            RampTime::Ramp80u => 3,
            RampTime::Ramp200u => 4,
            RampTime::Ramp800u => 5,
            RampTime::Ramp1700u => 6,
            RampTime::Ramp3400u => 7,
        }
    }

    /// The ramp time code.
    pub fn code(self) -> (r: u8)
        ensures
            r == self.spec_code(),
    {
        match self {
            RampTime::Ramp10u => 0,
            RampTime::Ramp20u => 1,
            RampTime::Ramp40u => 2,
            RampTime::Ramp80u => 3,
            RampTime::Ramp200u => 4,
            RampTime::Ramp800u => 5,
            RampTime::Ramp1700u => 6,
            RampTime::Ramp3400u => 7,
        }
    }
}

/// Output power and ramp time for transmission.
#[derive(Copy, Clone, Debug, PartialEq, Eq, Structural)]
pub struct TxParams {
    power_dbm: i8,
    ramp_time: RampTime,
}

impl TxParams {
    /// The output power in dBm.
    pub closed spec fn power(self) -> i8 {
        self.power_dbm
    }

    /// The ramp time.
    pub closed spec fn ramp(self) -> RampTime {
        self.ramp_time
    }

    /// The parameter bytes: the power as a signed byte, then the ramp code.
    pub open spec fn spec_bytes(self) -> Seq<u8> {
        seq![self.power() as u8, self.ramp().spec_code()]
    }

    /// Sets the output power, from -17 to +22 dBm.
    pub fn set_power_dbm(self, power_dbm: i8) -> (r: Self)
        requires
            -17 <= power_dbm <= 22,
        ensures
            r.power() == power_dbm,
            r.ramp() == self.ramp(),
    {
        Self { power_dbm, ..self }
    }

    /// Sets the ramp time.
    pub fn set_ramp_time(self, ramp_time: RampTime) -> (r: Self)
        ensures
            r.power() == self.power(),
            r.ramp() == ramp_time,
    {
        Self { ramp_time, ..self }
    }

    /// The parameter bytes sent to the chip.
    pub fn to_bytes(self) -> (r: [u8; 2])
        ensures
            r@ == self.spec_bytes(),
    {
        let r = [self.power_dbm as u8, self.ramp_time.code()];
        assert(r@ =~= self.spec_bytes());
        r
    }
}

impl Default for TxParams {
    fn default() -> (r: Self)
        ensures
            r.power() == 0,
            r.ramp() == RampTime::Ramp10u,
    {
        Self { power_dbm: 0, ramp_time: RampTime::Ramp10u }
    }
}

/// Which chip of the family the power amplifier settings are for.
#[derive(Copy, Clone, Debug, PartialEq, Eq, Structural)]
pub enum DeviceSel {
    /// The high-power SX1262.
    SX1262,
    /// The low-power SX1261.
    SX1261,
}

impl DeviceSel {
    /// The device code.
    pub open spec fn spec_code(self) -> u8 {
        match self {
            DeviceSel::SX1262 => 0,
            DeviceSel::SX1261 => 1,
        }
    }

    /// The device code.
    pub fn code(self) -> (r: u8)
        ensures
            r == self.spec_code(),
    {
        match self {
            DeviceSel::SX1262 => 0,
            DeviceSel::SX1261 => 1,
        }
    }
}

/// Power amplifier settings.
#[derive(Copy, Clone, Debug, PartialEq, Eq, Structural)]
pub struct PaConfig {
    pa_duty_cycle: u8,
    hp_max: u8,
    device_sel: DeviceSel,
}

impl PaConfig {
    /// The duty cycle.
    pub closed spec fn duty_cycle(self) -> u8 {
        self.pa_duty_cycle
    }

    /// The high-power amplifier size.
    pub closed spec fn hp(self) -> u8 {
        self.hp_max
    }

    /// The device selection.
    pub closed spec fn device(self) -> DeviceSel {
        self.device_sel
    }

    /// The parameter bytes: duty cycle, amplifier size, device, then `0x01`.
    pub open spec fn spec_bytes(self) -> Seq<u8> {
        seq![self.duty_cycle(), self.hp(), self.device().spec_code(), 0x01u8]
    }

    /// Sets the duty cycle.
    pub fn set_pa_duty_cycle(self, pa_duty_cycle: u8) -> (r: Self)
        ensures
            r.duty_cycle() == pa_duty_cycle,
            r.hp() == self.hp(),
            r.device() == self.device(),
    {
        Self { pa_duty_cycle, ..self }
    }

    /// Sets the size of the high-power amplifier.
    pub fn set_hp_max(self, hp_max: u8) -> (r: Self)
        ensures
            r.duty_cycle() == self.duty_cycle(),
            r.hp() == hp_max,
            r.device() == self.device(),
    {
        Self { hp_max, ..self }
    }

    /// Sets the device.
    pub fn set_device_sel(self, device_sel: DeviceSel) -> (r: Self)
        ensures
            r.duty_cycle() == self.duty_cycle(),
            r.hp() == self.hp(),
            r.device() == device_sel,
    {
        Self { device_sel, ..self }
    }

    /// The parameter bytes sent to the chip.
    pub fn to_bytes(self) -> (r: [u8; 4])
        ensures
            r@ == self.spec_bytes(),
    {
        let r = [self.pa_duty_cycle, self.hp_max, self.device_sel.code(), 0x01];
        assert(r@ =~= self.spec_bytes());
        r
    }
}

impl Default for PaConfig {
    fn default() -> (r: Self)
        ensures
            r.duty_cycle() == 0,
            r.hp() == 0,
            r.device() == DeviceSel::SX1262,
    {
        Self { pa_duty_cycle: 0, hp_max: 0, device_sel: DeviceSel::SX1262 }
    }
}

/// Where the last received packet lies in the chip's buffer.
#[derive(Copy, Clone, Debug, PartialEq, Eq, Structural)]
pub struct RxBufferStatus {
    payload_length_rx: u8,
    rx_start_buffer_pointer: u8,
}

impl RxBufferStatus {
    /// The payload length.
    pub closed spec fn len(self) -> u8 {
        self.payload_length_rx
    }

    /// The offset of the payload in the buffer.
    pub closed spec fn start(self) -> u8 {
        self.rx_start_buffer_pointer
    }

    /// Reads the two bytes of the reply: length, then offset.
    pub fn from_bytes(raw: [u8; 2]) -> (r: Self)
        ensures
            r.len() == raw@[0],
            r.start() == raw@[1],
    {
        Self { payload_length_rx: raw[0], rx_start_buffer_pointer: raw[1] }
    }

    /// The length of the received payload.
    pub fn payload_length_rx(&self) -> (r: u8)
        ensures
            r == self.len(),
    {
        self.payload_length_rx
    }

    /// The offset of the payload in the buffer.
    pub fn rx_start_buffer_pointer(&self) -> (r: u8)
        ensures
            r == self.start(),
    {
        self.rx_start_buffer_pointer
    }
}

} // verus!
