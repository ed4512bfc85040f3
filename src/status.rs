//! Chip status, statistics and packet status.
use vstd::prelude::*;
use crate::bytes::{be16_value, u16_from_be};

verus! {

/// The operating mode of the chip.
#[derive(Copy, Clone, Debug, PartialEq, Eq, Structural)]
pub enum ChipMode {
    /// Standby on the 13 MHz RC oscillator.
    StbyRC,
    /// Standby on the crystal oscillator.
    StbyXOSC,
    /// Frequency synthesis.
    FS,
    /// Receiving.
    RX,
    /// Transmitting.
    TX,
}

/// The outcome of the last command.
#[derive(Copy, Clone, Debug, PartialEq, Eq, Structural)]
pub enum CommandStatus {
    /// Data is available to the host.
    DataAvailable,
    /// The command timed out.
    CommandTimeout,
    /// The command could not be processed.
    CommandProcessingError,
    /// The command failed to execute.
    FailureToExecute,
    /// The transmission is done.
    CommandTxDone,
}

/// The chip mode for the three mode bits; unknown patterns give none.
pub open spec fn chip_mode_of(code: int) -> Option<ChipMode> {
    if code == 2 {
        Some(ChipMode::StbyRC)
    } else if code == 3 {
        Some(ChipMode::StbyXOSC)
    } else if code == 4 {
        Some(ChipMode::FS)
    } else if code == 5 {
        Some(ChipMode::RX)
    } else if code == 6 {
        Some(ChipMode::TX)
    } else {
        None
    }
}

/// The command status for the three status bits; unknown patterns give none.
pub open spec fn command_status_of(code: int) -> Option<CommandStatus> {
    if code == 2 {
        Some(CommandStatus::DataAvailable)
    } else if code == 3 {
        Some(CommandStatus::CommandTimeout)
    } else if code == 4 {
        Some(CommandStatus::CommandProcessingError)
    } else if code == 5 {
        Some(CommandStatus::FailureToExecute)
    } else if code == 6 {
        Some(CommandStatus::CommandTxDone)
    } else {
        None
    }
}

/// The status byte of the chip: the mode in bits 6 to 4, the command status
/// in bits 3 to 1.
#[derive(Copy, Clone, Debug, PartialEq, Eq, Structural)]
pub struct Status {
    inner: u8,
}

impl Status {
    /// The raw status byte.
    pub closed spec fn byte(self) -> u8 {
        self.inner
    }

    /// The all-zero status byte.
    pub closed spec fn spec_zero() -> Self {
        Status { inner: 0 }
    }

    /// The status for a byte read from the chip.
    pub fn from_u8(b: u8) -> (r: Self)
        ensures
            r.byte() == b,
            b == 0 ==> r == Self::spec_zero(),
    {
        Self { inner: b }
    }

    /// The raw status byte.
    pub fn to_u8(self) -> (r: u8)
        ensures
            r == self.byte(),
    {
        self.inner
    }

    /// The chip mode, or none for a pattern with no meaning.
    pub fn chip_mode(&self) -> (r: Option<ChipMode>)
        ensures
            r == chip_mode_of((self.byte() as int / 16) % 8),
    {
        let code = (self.inner / 16) % 8;
        if code == 2 {
            Some(ChipMode::StbyRC)
        } else if code == 3 {
            Some(ChipMode::StbyXOSC)
        } else if code == 4 {
            Some(ChipMode::FS)
        } else if code == 5 {
            Some(ChipMode::RX)
        } else if code == 6 {
            Some(ChipMode::TX)
        } else {
            None
        }
    }

    /// The status of the last command, or none for a pattern with no meaning.
    pub fn command_status(self) -> (r: Option<CommandStatus>)
        ensures
            r == command_status_of((self.byte() as int / 2) % 8),
    {
        let code = (self.inner / 2) % 8;
        if code == 2 {
            Some(CommandStatus::DataAvailable)
        } else if code == 3 {
            Some(CommandStatus::CommandTimeout)
        } else if code == 4 {
            Some(CommandStatus::CommandProcessingError)
        } else if code == 5 {
            Some(CommandStatus::FailureToExecute)
        } else if code == 6 {
            Some(CommandStatus::CommandTxDone)
        } else {
            None
        }
    }
}

/// Packet counters kept by the chip.
#[derive(Copy, Clone, Debug, PartialEq, Eq, Structural)]
pub struct Stats {
    /// The status byte.
    pub status: Status,
    /// Packets received.
    pub rx_pkt: u16,
    /// Packets received with a CRC error.
    pub crc_error: u16,
    /// Packets received with a header error.
    pub header_error: u16,
}

impl Stats {
    /// Reads the seven bytes of the statistics reply: the status, then three
    /// big-endian counters.
    pub fn from_bytes(b: [u8; 7]) -> (r: Self)
        ensures
            r.status.byte() == b@[0],
            r.rx_pkt == be16_value(b@[1], b@[2]),
            r.crc_error == be16_value(b@[3], b@[4]),
            r.header_error == be16_value(b@[5], b@[6]),
    {
        Self {
            status: Status::from_u8(b[0]),
            rx_pkt: u16_from_be(b[1], b[2]),
            crc_error: u16_from_be(b[3], b[4]),
            header_error: u16_from_be(b[5], b[6]),
        }
    }
}

/// The signal measures of the last received packet.
#[derive(Copy, Clone, Debug, PartialEq, Eq, Structural)]
pub struct PacketStatus {
    rssi_pkt: u8,
    snr_pkt: i8,
    signal_rssi_pkt: u8,
}

impl PacketStatus {
    /// The raw average signal power byte.
    pub closed spec fn raw_rssi(self) -> u8 {
        self.rssi_pkt
    }

    /// The raw signal-to-noise byte, signed.
    pub closed spec fn raw_snr(self) -> i8 {
        self.snr_pkt
    }

    /// The raw despread signal power byte.
    pub closed spec fn raw_signal_rssi(self) -> u8 {
        self.signal_rssi_pkt
    }

    /// Reads the three bytes of the packet status reply.
    pub fn from_bytes(b: [u8; 3]) -> (r: Self)
        ensures
            r.raw_rssi() == b@[0],
            r.raw_snr() == b@[1] as i8,
            r.raw_signal_rssi() == b@[2],
    {
        Self { rssi_pkt: b[0], snr_pkt: b[1] as i8, signal_rssi_pkt: b[2] }
    }

    /// The average power of the packet, in half dBm.
    pub fn rssi_pkt(&self) -> (r: i16)
        ensures
            r == -(self.raw_rssi() as int),
    {
        -(self.rssi_pkt as i16)
    }

    /// The signal-to-noise ratio of the packet, in quarter dB.
    pub fn snr_pkt(&self) -> (r: i8)
        ensures
            r == self.raw_snr(),
    {
        self.snr_pkt
    }

    /// The power of the despread signal, in half dBm.
    pub fn signal_rssi_pkt(&self) -> (r: i16)
        ensures
            r == -(self.raw_signal_rssi() as int),
    {
        -(self.signal_rssi_pkt as i16)
    }
}

} // verus!
