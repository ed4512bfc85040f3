//! Error types.
use vstd::prelude::*;
use crate::command::Frame;
use crate::irq::IrqStatus;

verus! {

/// A failed bus transaction of the modem driver.
#[derive(Copy, Clone, Debug, PartialEq, Eq)]
pub enum SpiError<E> {
    /// A transaction that only writes failed.
    Write(E),
    /// A transaction that reads back failed.
    Transfer(E),
}

/// A failed pin operation of the modem driver.
#[derive(Copy, Clone, Debug, PartialEq, Eq)]
pub enum PinError<E> {
    /// Driving an output pin failed.
    Output(E),
    /// Reading or waiting on an input pin failed.
    Input(E),
}

/// An error of the modem driver: the bus or a pin.
#[derive(Copy, Clone, Debug, PartialEq, Eq)]
pub enum SxError<S, P> {
    /// The bus failed.
    Spi(SpiError<S>),
    /// A pin failed.
    Pin(PinError<P>),
}

/// The bus error for a failed frame: a write error for a frame that only
/// writes, a transfer error for one that reads back.
pub fn spi_error<E>(frame: &Frame, e: E) -> (r: SpiError<E>)
    ensures
        r == (match frame {
            Frame::Write(_) => SpiError::Write(e),
            _ => SpiError::Transfer(e),
        }),
{
    match frame {
        Frame::Write(_) => SpiError::Write(e),
        _ => SpiError::Transfer(e),
    }
}

/// Driving a select line failed.
#[derive(Copy, Clone, Debug, PartialEq, Eq, Structural)]
pub struct CsError;

/// An error of one transaction on the shared bus.
#[derive(Copy, Clone, Debug, PartialEq, Eq)]
pub enum DeviceError<BUS, CS> {
    /// The bus failed.
    Spi(BUS),
    /// The select line failed.
    Cs(CS),
}

/// An error of the send and receive protocols.
#[derive(Copy, Clone, Debug, PartialEq, Eq)]
pub enum RadioError<E> {
    /// A driver command failed.
    Device(E),
    /// The interrupt that ended reception was neither a timeout nor a received packet.
    UnexpectedInterrupt(IrqStatus),
    /// The packet does not fit: a received one in the caller's buffer, or a
    /// payload to send in the chip's buffer.
    PayloadTooLarge {
        /// The length of the packet.
        len: usize,
        /// The room in the caller's buffer.
        capacity: usize,
    },
}

} // verus!
