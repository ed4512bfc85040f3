//! A driver for the SX126x family of long-range radio transceivers.
//!
//! The library holds the parts of the driver that decide: the bit-exact
//! encoding of every chip command, the framing of commands on the serial bus,
//! the cleanup rules of one bus transaction, the initialization sequence and
//! the send / receive protocols. Everything that waits on hardware is done by
//! a runner outside the library, which performs the actions that the library
//! hands out and feeds back what happened.
use vstd::prelude::*;

pub mod action;
pub mod bus;
pub mod bytes;
pub mod calib;
pub mod command;
pub mod conf;
pub mod device_errors;
pub mod err;
pub mod freq;
pub mod init;
pub mod irq;
pub mod lora;
pub mod modulation;
pub mod packet;
pub mod receive;
pub mod reg;
pub mod reply;
pub mod rxtx;
pub mod send;
pub mod standby;
pub mod status;
pub mod tcxo;

verus! {

} // verus!
