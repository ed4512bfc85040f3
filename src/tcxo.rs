//! Control of a temperature-compensated crystal oscillator.
use vstd::prelude::*;
use crate::bytes::{be24, u24_to_be};

verus! {

/// The number of delay steps for `ms`: `ms * 64 / 1000`, rounded down and
/// kept to 24 bits.
pub open spec fn tcxo_steps(ms: int) -> int {
    (ms * 64 / 1000) % 0x100_0000
}

/// The supply voltage that the chip gives the oscillator.
#[derive(Copy, Clone, Debug, PartialEq, Eq, Structural)]
pub enum TcxoVoltage {
    /// 1.6 V.
    Volt1_6,
    /// 1.7 V.
    Volt1_7,
    /// 1.8 V.
    Volt1_8,
    /// 2.2 V.
    Volt2_2,
    /// 2.4 V.
    Volt2_4,
    /// 2.7 V.
    Volt2_7,
    /// 3.0 V.
    Volt3_0,
    /// 3.3 V.
    Volt3_3,
}

impl TcxoVoltage {
    /// The voltage code.
    pub open spec fn spec_code(self) -> u8 {
        match self {
            TcxoVoltage::Volt1_6 => 0,
            TcxoVoltage::Volt1_7 => 1,
            TcxoVoltage::Volt1_8 => 2,
            TcxoVoltage::Volt2_2 => 3,
            TcxoVoltage::Volt2_4 => 4,
            TcxoVoltage::Volt2_7 => 5,
            TcxoVoltage::Volt3_0 => 6,
            TcxoVoltage::Volt3_3 => 7,
        }
    }

    /// The voltage code.
    pub fn code(self) -> (r: u8)
        ensures
            r == self.spec_code(),
    {
        match self {
            TcxoVoltage::Volt1_6 => 0,
            TcxoVoltage::Volt1_7 => 1,
            TcxoVoltage::Volt1_8 => 2,
            TcxoVoltage::Volt2_2 => 3,
            TcxoVoltage::Volt2_4 => 4,
            TcxoVoltage::Volt2_7 => 5,
            TcxoVoltage::Volt3_0 => 6,
            TcxoVoltage::Volt3_3 => 7,
        }
    }
}

/// The time the oscillator needs to start, in 15.625 µs steps.
#[derive(Copy, Clone, Debug, PartialEq, Eq)]
pub struct TcxoDelay {
    inner: [u8; 3],
}

impl TcxoDelay {
    /// The three bytes sent to the chip.
    pub closed spec fn bytes(self) -> Seq<u8> {
        self.inner@
    }

    /// The delay of `ms * 64 / 1000` steps, rounded down and kept to 24 bits.
    pub fn from_ms(ms: u32) -> (r: Self)
        ensures
            r.bytes() == be24(tcxo_steps(ms as int)),
    {
        let steps: u64 = (ms as u64 * 64) / 1000 % 0x100_0000;
        Self { inner: u24_to_be(steps as u32) }
    }

    /// The delay for three bytes, most significant first.
    pub fn from_bytes(b: [u8; 3]) -> (r: Self)
        ensures
            r.bytes() == b@,
    {
        Self { inner: b }
    }

    /// The three bytes sent to the chip.
    pub fn to_bytes(self) -> (r: [u8; 3])
        ensures
            r@ == self.bytes(),
    {
        self.inner
    }
}

} // verus!
