//! What a protocol asks its runner to do.
use vstd::prelude::*;
use crate::command::Command;

verus! {

/// One thing for the runner to do. Every bus command is preceded by a wait
/// until the chip's busy line is low.
#[derive(Debug, PartialEq, Eq)]
pub enum Action {
    /// Wait until the chip is not busy, then run the command.
    Run(Command),
    /// Wait until the chip is not busy, then write the protocol's payload to
    /// the data buffer at this offset.
    WritePayload(u8),
    /// Wait until the chip is not busy, pull the reset line low, hold it for
    /// 200 µs, then release it.
    Reset,
    /// Wait until the interrupt line DIO1 is high.
    WaitDio1,
    /// Sleep this many milliseconds.
    DelayMs(u32),
}

/// The next thing a protocol asks for: an action, or its result.
#[derive(Debug, PartialEq, Eq)]
pub enum Step<T, E> {
    /// Perform this action and report its outcome.
    Do(Action),
    /// The protocol is over, with this result.
    Finish(Result<T, E>),
}

} // verus!
