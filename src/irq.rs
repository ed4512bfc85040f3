//! Interrupt masks and interrupt status.
use vstd::prelude::*;

verus! {

/// One interrupt flag, or none, or all of them.
#[derive(Copy, Clone, Debug, PartialEq, Eq, Structural)]
pub enum IrqMaskBit {
    /// No interrupt.
    Empty,
    /// Transmission done.
    TxDone,
    /// Reception done.
    RxDone,
    /// Preamble detected.
    PreambleDetected,
    /// Valid sync word.
    SyncwordValid,
    /// Valid header.
    HeaderValid,
    /// Header error.
    HeaderError,
    /// CRC error.
    CrcErr,
    /// Channel activity detection done.
    CadDone,
    /// Channel activity detected.
    CadDetected,
    /// Reception or transmission timed out.
    Timeout,
    /// Every interrupt.
    All,
}

impl IrqMaskBit {
    /// The bits of the flag in the 16-bit interrupt word.
    pub open spec fn spec_bits(self) -> u16 {
        match self {
            IrqMaskBit::Empty => 0x0000,
            IrqMaskBit::TxDone => 0x0001,
            IrqMaskBit::RxDone => 0x0002,
            IrqMaskBit::PreambleDetected => 0x0004,
            IrqMaskBit::SyncwordValid => 0x0008,
            IrqMaskBit::HeaderValid => 0x0010,
            IrqMaskBit::HeaderError => 0x0020,
            IrqMaskBit::CrcErr => 0x0040,
            IrqMaskBit::CadDone => 0x0080,
            IrqMaskBit::CadDetected => 0x0100,
            IrqMaskBit::Timeout => 0x0200,
            IrqMaskBit::All => 0xFFFF,
        }
    }

    /// The bits of the flag in the 16-bit interrupt word.
    pub fn bits(self) -> (r: u16)
        ensures
            r == self.spec_bits(),
    {
        match self {
            IrqMaskBit::Empty => 0x0000,
            IrqMaskBit::TxDone => 0x0001,
            IrqMaskBit::RxDone => 0x0002,
            IrqMaskBit::PreambleDetected => 0x0004,
            IrqMaskBit::SyncwordValid => 0x0008,
            IrqMaskBit::HeaderValid => 0x0010,
            IrqMaskBit::HeaderError => 0x0020,
            IrqMaskBit::CrcErr => 0x0040,
            IrqMaskBit::CadDone => 0x0080,
            IrqMaskBit::CadDetected => 0x0100,
            IrqMaskBit::Timeout => 0x0200,
            IrqMaskBit::All => 0xFFFF,
        }
    }
}

/// A set of interrupts, built up from none by adding flags.
#[derive(Copy, Clone, Debug, PartialEq, Eq, Structural)]
pub struct IrqMask {
    inner: u16,
}

impl IrqMask {
    /// The mask word sent to the chip.
    pub closed spec fn word(self) -> u16 {
        self.inner
    }

    /// The empty mask.
    pub fn none() -> (r: Self)
        ensures
            r.word() == 0,
    {
        Self { inner: 0 }
    }

    /// The mask with every interrupt.
    pub closed spec fn full() -> Self {
        IrqMask { inner: 0xFFFF }
    }

    /// The mask with every interrupt.
    pub fn all() -> (r: Self)
        ensures
            r.word() == 0xFFFF,
            r == Self::full(),
    {
        Self { inner: 0xFFFF }
    }

    /// Adds a flag to the mask.
    pub fn combine(self, bit: IrqMaskBit) -> (r: Self)
        ensures
            r.word() == self.word() | bit.spec_bits(),
    {
        Self { inner: self.inner | bit.bits() }
    }

    /// A mask with the given word.
    pub fn from_u16(mask: u16) -> (r: Self)
        ensures
            r.word() == mask,
    {
        Self { inner: mask }
    }

    /// The mask word sent to the chip.
    pub fn to_u16(self) -> (r: u16)
        ensures
            r == self.word(),
    {
        self.inner
    }
}

impl Default for IrqMask {
    fn default() -> (r: Self)
        ensures
            r.word() == 0,
    {
        Self::none()
    }
}

/// The interrupt flags read from the chip.
#[derive(Copy, Clone, Debug, PartialEq, Eq, Structural)]
pub struct IrqStatus {
    inner: u16,
}

impl IrqStatus {
    /// The status word read from the chip.
    pub closed spec fn word(self) -> u16 {
        self.inner
    }

    /// Whether any bit of `bit` is raised.
    pub open spec fn has(self, bit: IrqMaskBit) -> bool {
        self.word() & bit.spec_bits() != 0
    }

    /// The status for a word read from the chip.
    pub fn from_u16(status: u16) -> (r: Self)
        ensures
            r.word() == status,
    {
        Self { inner: status }
    }

    /// The status word.
    pub fn to_u16(self) -> (r: u16)
        ensures
            r == self.word(),
    {
        self.inner
    }

    /// Whether transmission is done.
    pub fn tx_done(self) -> (r: bool)
        ensures
            r == self.has(IrqMaskBit::TxDone),
    {
        self.inner & IrqMaskBit::TxDone.bits() != 0
    }

    /// Whether reception is done.
    pub fn rx_done(self) -> (r: bool)
        ensures
            r == self.has(IrqMaskBit::RxDone),
    {
        self.inner & IrqMaskBit::RxDone.bits() != 0
    }

    /// Whether a preamble was detected.
    pub fn preamble_detected(self) -> (r: bool)
        ensures
            r == self.has(IrqMaskBit::PreambleDetected),
    {
        self.inner & IrqMaskBit::PreambleDetected.bits() != 0
    }

    /// Whether a valid sync word was seen.
    pub fn syncword_valid(self) -> (r: bool)
        ensures
            r == self.has(IrqMaskBit::SyncwordValid),
    {
        self.inner & IrqMaskBit::SyncwordValid.bits() != 0
    }

    /// Whether a valid header was seen.
    pub fn header_valid(self) -> (r: bool)
        ensures
            r == self.has(IrqMaskBit::HeaderValid),
    {
        self.inner & IrqMaskBit::HeaderValid.bits() != 0
    }

    /// Whether a header error occurred.
    pub fn header_error(self) -> (r: bool)
        ensures
            r == self.has(IrqMaskBit::HeaderError),
    {
        self.inner & IrqMaskBit::HeaderError.bits() != 0
    }

    /// Whether a CRC error occurred.
    pub fn crc_err(self) -> (r: bool)
        ensures
            r == self.has(IrqMaskBit::CrcErr),
    {
        self.inner & IrqMaskBit::CrcErr.bits() != 0
    }

    /// Whether channel activity detection is done.
    pub fn cad_done(self) -> (r: bool)
        ensures
            r == self.has(IrqMaskBit::CadDone),
    {
        self.inner & IrqMaskBit::CadDone.bits() != 0
    }

    /// Whether channel activity was detected.
    pub fn cad_detected(self) -> (r: bool)
        ensures
            r == self.has(IrqMaskBit::CadDetected),
    {
        self.inner & IrqMaskBit::CadDetected.bits() != 0
    }

    /// Whether the operation timed out.
    pub fn timeout(self) -> (r: bool)
        ensures
            r == self.has(IrqMaskBit::Timeout),
    {
        self.inner & IrqMaskBit::Timeout.bits() != 0
    }
}

} // verus!
