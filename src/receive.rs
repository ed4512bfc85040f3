//! The receive protocol.
//!
//! Clear every interrupt, start receiving, wait for DIO1, let the chip
//! settle for 1 ms, and read the interrupt flags. A timeout is a normal end:
//! clear the interrupts and return 0 bytes. Without a received packet the
//! interrupt was unexpected: clear and fail. Otherwise read where the packet
//! lies; if it does not fit the caller's buffer, clear and fail without
//! reading it; else read it into the buffer, clear, and return its length.
//! The first failing action ends the protocol with its error.
use vstd::prelude::*;
use crate::action::{Action, Step};
use crate::command::Command;
use crate::err::RadioError;
use crate::irq::{IrqMask, IrqMaskBit, IrqStatus};
use crate::reply::Reply;
use crate::rxtx::{RxBufferStatus, RxTxTimeout};

verus! {

/// How long the chip settles after DIO1 rises, in milliseconds.
pub const SETTLE_MS: u32 = 1;

/// Where a receive stands: the action whose outcome it waits for.
#[derive(Copy, Clone, Debug, PartialEq, Eq, Structural)]
pub enum ReceiveStage {
    /// Clearing the interrupts before reception.
    ClearingIrqBefore,
    /// Starting reception.
    StartingRx,
    /// Waiting for DIO1.
    WaitingDio1,
    /// Letting the chip settle.
    Settling,
    /// Reading the interrupt flags.
    ReadingIrq,
    /// Clearing the interrupts after a timeout.
    ClearingAfterTimeout,
    /// Clearing the interrupts after an unexpected interrupt.
    ClearingAfterUnexpected(IrqStatus),
    /// Reading where the packet lies.
    ReadingRxStatus,
    /// Clearing the interrupts after a packet too large for the buffer.
    ClearingAfterTooLarge(u8),
    /// Reading the packet of this length into the buffer.
    ReadingPayload(u8),
    /// Clearing the interrupts after reading a packet of this length.
    ClearingAfterRead(u8),
    /// The result has been handed out.
    Done,
}

/// One reception into a caller's buffer.
#[derive(Copy, Clone, Debug, PartialEq, Eq)]
pub struct ReceiveSession {
    /// Where the receive stands.
    pub stage: ReceiveStage,
    /// The room in the caller's buffer.
    pub capacity: usize,
    /// How long the chip listens.
    pub timeout: RxTxTimeout,
}

/// The step that clears every interrupt.
pub open spec fn clear_all<E>() -> Step<usize, RadioError<E>> {
    Step::Do(Action::Run(Command::ClearIrqStatus(IrqMask::full())))
}

impl ReceiveSession {
    /// The receive just started, waiting for the interrupts to clear.
    pub open spec fn initial(capacity: usize, timeout: RxTxTimeout) -> Self {
        ReceiveSession { stage: ReceiveStage::ClearingIrqBefore, capacity, timeout }
    }

    /// Whether the outcome fits the action the receive waits for: reading the
    /// interrupt flags answers flags, reading the buffer status answers a
    /// buffer status.
    pub open spec fn fits<E>(self, outcome: Result<Reply, E>) -> bool {
        &&& self.stage == ReceiveStage::ReadingIrq && outcome is Ok ==> outcome->Ok_0 is Irq
        &&& self.stage == ReceiveStage::ReadingRxStatus && outcome is Ok
            ==> outcome->Ok_0 is RxBuffer
    }

    /// The stage and step that follow the flags read after DIO1 rose.
    pub open spec fn after_irq<E>(self, irq: IrqStatus) -> (Self, Step<usize, RadioError<E>>) {
        if irq.has(IrqMaskBit::Timeout) {
            (ReceiveSession { stage: ReceiveStage::ClearingAfterTimeout, ..self }, clear_all())
        } else if !irq.has(IrqMaskBit::RxDone) {
            (
                ReceiveSession { stage: ReceiveStage::ClearingAfterUnexpected(irq), ..self },
                clear_all(),
            )
        } else {
            (
                ReceiveSession { stage: ReceiveStage::ReadingRxStatus, ..self },
                Step::Do(Action::Run(Command::GetRxBufferStatus)),
            )
        }
    }

    /// The stage and step that follow the buffer status of a received packet.
    pub open spec fn after_rx_status<E>(self, b: RxBufferStatus) -> (
        Self,
        Step<usize, RadioError<E>>,
    ) {
        if b.len() as int > self.capacity as int {
            (
                ReceiveSession { stage: ReceiveStage::ClearingAfterTooLarge(b.len()), ..self },
                clear_all(),
            )
        } else {
            (
                ReceiveSession { stage: ReceiveStage::ReadingPayload(b.len()), ..self },
                Step::Do(Action::Run(Command::ReadBuffer(b.start(), b.len() as usize))),
            )
        }
    }

    /// The stage and step that follow the outcome of the pending action.
    pub open spec fn next<E>(self, outcome: Result<Reply, E>) -> (Self, Step<usize, RadioError<E>>) {
        match outcome {
            Err(e) => (
                ReceiveSession { stage: ReceiveStage::Done, ..self },
                Step::Finish(Err(RadioError::Device(e))),
            ),
            Ok(reply) => match self.stage {
                ReceiveStage::ClearingIrqBefore => (
                    ReceiveSession { stage: ReceiveStage::StartingRx, ..self },
                    Step::Do(Action::Run(Command::SetRx(self.timeout))),
                ),
                ReceiveStage::StartingRx => (
                    ReceiveSession { stage: ReceiveStage::WaitingDio1, ..self },
                    Step::Do(Action::WaitDio1),
                ),
                ReceiveStage::WaitingDio1 => (
                    ReceiveSession { stage: ReceiveStage::Settling, ..self },
                    Step::Do(Action::DelayMs(SETTLE_MS)),
                ),
                ReceiveStage::Settling => (
                    ReceiveSession { stage: ReceiveStage::ReadingIrq, ..self },
                    Step::Do(Action::Run(Command::GetIrqStatus)),
                ),
                ReceiveStage::ReadingIrq => self.after_irq(reply->Irq_0),
                ReceiveStage::ClearingAfterTimeout => (
                    ReceiveSession { stage: ReceiveStage::Done, ..self },
                    Step::Finish(Ok(0)),
                ),
                ReceiveStage::ClearingAfterUnexpected(irq) => (
                    ReceiveSession { stage: ReceiveStage::Done, ..self },
                    Step::Finish(Err(RadioError::UnexpectedInterrupt(irq))),
                ),
                ReceiveStage::ReadingRxStatus => self.after_rx_status(reply->RxBuffer_0),
                ReceiveStage::ClearingAfterTooLarge(len) => (
                    ReceiveSession { stage: ReceiveStage::Done, ..self },
                    Step::Finish(
                        Err(RadioError::PayloadTooLarge { len: len as usize, capacity: self.capacity }),
                    ),
                ),
                ReceiveStage::ReadingPayload(len) => (
                    ReceiveSession { stage: ReceiveStage::ClearingAfterRead(len), ..self },
                    clear_all(),
                ),
                ReceiveStage::ClearingAfterRead(len) => (
                    ReceiveSession { stage: ReceiveStage::Done, ..self },
                    Step::Finish(Ok(len as usize)),
                ),
                ReceiveStage::Done => (self, Step::Finish(Ok(0))),
            },
        }
    }

    /// Starts receiving into a buffer of `capacity` bytes, listening for at
    /// most `timeout` (or without end for the continuous value); the first
    /// action clears every interrupt.
    pub fn start<E>(capacity: usize, timeout: RxTxTimeout) -> (r: (Self, Step<usize, RadioError<E>>))
        ensures
            r.0 == Self::initial(capacity, timeout),
            r.1 == clear_all::<E>(),
    {
        (
            ReceiveSession { stage: ReceiveStage::ClearingIrqBefore, capacity, timeout },
            Step::Do(Action::Run(Command::ClearIrqStatus(IrqMask::all()))),
        )
    }

    /// Whether the outcome fits the action the receive waits for.
    pub fn accepts<E>(&self, outcome: &Result<Reply, E>) -> (r: bool)
        ensures
            r == self.fits(*outcome),
    {
        match (self.stage, outcome) {
            (ReceiveStage::ReadingIrq, Ok(Reply::Irq(_))) => true,
            (ReceiveStage::ReadingIrq, Ok(_)) => false,
            (ReceiveStage::ReadingRxStatus, Ok(Reply::RxBuffer(_))) => true,
            (ReceiveStage::ReadingRxStatus, Ok(_)) => false,
            _ => true,
        }
    }

    /// Takes the outcome of the pending action and gives the next step.
    pub fn step<E>(self, outcome: Result<Reply, E>) -> (r: (Self, Step<usize, RadioError<E>>))
        requires
            self.stage != ReceiveStage::Done,
            self.fits(outcome),
        ensures
            r == self.next(outcome),
    {
        match outcome {
            Err(e) => (
                ReceiveSession { stage: ReceiveStage::Done, ..self },
                Step::Finish(Err(RadioError::Device(e))),
            ),
            Ok(reply) => match self.stage {
                ReceiveStage::ClearingIrqBefore => (
                    ReceiveSession { stage: ReceiveStage::StartingRx, ..self },
                    Step::Do(Action::Run(Command::SetRx(self.timeout))),
                ),
                ReceiveStage::StartingRx => (
                    ReceiveSession { stage: ReceiveStage::WaitingDio1, ..self },
                    Step::Do(Action::WaitDio1),
                ),
                ReceiveStage::WaitingDio1 => (
                    ReceiveSession { stage: ReceiveStage::Settling, ..self },
                    Step::Do(Action::DelayMs(SETTLE_MS)),
                ),
                ReceiveStage::Settling => (
                    ReceiveSession { stage: ReceiveStage::ReadingIrq, ..self },
                    Step::Do(Action::Run(Command::GetIrqStatus)),
                ),
                ReceiveStage::ReadingIrq => {
                    let irq = match reply {
                        Reply::Irq(i) => i,
                        _ => IrqStatus::from_u16(0),
                    };
                    if irq.timeout() {
                        (
                            ReceiveSession { stage: ReceiveStage::ClearingAfterTimeout, ..self },
                            Step::Do(Action::Run(Command::ClearIrqStatus(IrqMask::all()))),
                        )
                    } else if !irq.rx_done() {
                        (
                            ReceiveSession {
                                stage: ReceiveStage::ClearingAfterUnexpected(irq),
                                ..self
                            },
                            Step::Do(Action::Run(Command::ClearIrqStatus(IrqMask::all()))),
                        )
                    } else {
                        (
                            ReceiveSession { stage: ReceiveStage::ReadingRxStatus, ..self },
                            Step::Do(Action::Run(Command::GetRxBufferStatus)),
                        )
                    }
                },
                ReceiveStage::ClearingAfterTimeout => (
                    ReceiveSession { stage: ReceiveStage::Done, ..self },
                    Step::Finish(Ok(0)),
                ),
                ReceiveStage::ClearingAfterUnexpected(irq) => (
                    ReceiveSession { stage: ReceiveStage::Done, ..self },
                    Step::Finish(Err(RadioError::UnexpectedInterrupt(irq))),
                ),
                ReceiveStage::ReadingRxStatus => {
                    let b = match reply {
                        Reply::RxBuffer(b) => b,
                        _ => RxBufferStatus::from_bytes([0, 0]),
                    };
                    let len = b.payload_length_rx();
                    if len as usize > self.capacity {
                        (
                            ReceiveSession {
                                stage: ReceiveStage::ClearingAfterTooLarge(len),
                                ..self
                            },
                            Step::Do(Action::Run(Command::ClearIrqStatus(IrqMask::all()))),
                        )
                    } else {
                        (
                            ReceiveSession { stage: ReceiveStage::ReadingPayload(len), ..self },
                            Step::Do(
                                Action::Run(
                                    Command::ReadBuffer(b.rx_start_buffer_pointer(), len as usize),
                                ),
                            ),
                        )
                    }
                },
                ReceiveStage::ClearingAfterTooLarge(len) => (
                    ReceiveSession { stage: ReceiveStage::Done, ..self },
                    Step::Finish(
                        Err(RadioError::PayloadTooLarge { len: len as usize, capacity: self.capacity }),
                    ),
                ),
                ReceiveStage::ReadingPayload(len) => (
                    ReceiveSession { stage: ReceiveStage::ClearingAfterRead(len), ..self },
                    Step::Do(Action::Run(Command::ClearIrqStatus(IrqMask::all()))),
                ),
                ReceiveStage::ClearingAfterRead(len) => (
                    ReceiveSession { stage: ReceiveStage::Done, ..self },
                    Step::Finish(Ok(len as usize)),
                ),
                ReceiveStage::Done => (self, Step::Finish(Ok(0))),
            },
        }
    }
}

/// The steps that a receive hands out for a sequence of outcomes, up to and
/// including its result.
pub open spec fn receive_trace<E>(s: ReceiveSession, outcomes: Seq<Result<Reply, E>>) -> Seq<
    Step<usize, RadioError<E>>,
>
    decreases outcomes.len(),
{
    if outcomes.len() == 0 || s.stage == ReceiveStage::Done {
        seq![]
    } else {
        let (s2, a) = s.next(outcomes[0]);
        seq![a] + receive_trace(s2, outcomes.drop_first())
    }
}

/// The steps up to the read of the interrupt flags.
pub open spec fn receive_prefix<E>(timeout: RxTxTimeout) -> Seq<Step<usize, RadioError<E>>> {
    seq![
        Step::Do(Action::Run(Command::SetRx(timeout))),
        Step::Do(Action::WaitDio1),
        Step::Do(Action::DelayMs(SETTLE_MS)),
        Step::Do(Action::Run(Command::GetIrqStatus)),
    ]
}

/// When the flags read after DIO1 rose show a timeout, and the actions
/// succeed, the receive clears every interrupt and succeeds with 0 bytes;
/// it is never an error, whatever other flags are raised and whatever the
/// outcomes reported afterwards.
pub proof fn lemma_receive_timeout_is_empty_success<E>(
    capacity: usize,
    timeout: RxTxTimeout,
    irq: IrqStatus,
    later: Seq<Result<Reply, E>>,
)
    requires
        irq.has(IrqMaskBit::Timeout),
    ensures
        receive_trace(
            ReceiveSession::initial(capacity, timeout),
            seq![
                Ok::<Reply, E>(Reply::Done),
                Ok(Reply::Done),
                Ok(Reply::Done),
                Ok(Reply::Done),
                Ok(Reply::Irq(irq)),
                Ok(Reply::Done),
            ] + later,
        ) == receive_prefix::<E>(timeout) + seq![clear_all::<E>(), Step::Finish(Ok(0))],
{
    reveal_with_fuel(receive_trace, 8);
    let outs = seq![
        Ok::<Reply, E>(Reply::Done),
        Ok(Reply::Done),
        Ok(Reply::Done),
        Ok(Reply::Done),
        Ok(Reply::Irq(irq)),
        Ok(Reply::Done),
    ] + later;
    let s0 = ReceiveSession::initial(capacity, timeout);
    let rest = outs.drop_first().drop_first().drop_first().drop_first();
    assert(rest =~= seq![Ok::<Reply, E>(Reply::Irq(irq)), Ok(Reply::Done)] + later);
    assert(rest.drop_first().drop_first() =~= later);
    let s6 = ReceiveSession { stage: ReceiveStage::Done, ..s0 };
    assert(receive_trace(s6, later) =~= seq![]);
    assert(receive_trace(s0, outs) =~= receive_prefix::<E>(timeout) + seq![
        clear_all::<E>(),
        Step::Finish(Ok(0)),
    ]);
}

/// When a packet is received whose length exceeds the caller's buffer, the
/// receive clears every interrupt and fails with the length and the room,
/// and never asks for the buffer to be read.
pub proof fn lemma_receive_rejects_oversized_without_reading<E>(
    capacity: usize,
    timeout: RxTxTimeout,
    irq: IrqStatus,
    rx: RxBufferStatus,
    later: Seq<Result<Reply, E>>,
)
    requires
        !irq.has(IrqMaskBit::Timeout),
        irq.has(IrqMaskBit::RxDone),
        rx.len() as int > capacity as int,
    ensures
        receive_trace(
            ReceiveSession::initial(capacity, timeout),
            seq![
                Ok::<Reply, E>(Reply::Done),
                Ok(Reply::Done),
                Ok(Reply::Done),
                Ok(Reply::Done),
                Ok(Reply::Irq(irq)),
                Ok(Reply::RxBuffer(rx)),
                Ok(Reply::Done),
            ] + later,
        ) == receive_prefix::<E>(timeout) + seq![
            Step::Do(Action::Run(Command::GetRxBufferStatus)),
            clear_all::<E>(),
            Step::Finish(Err(RadioError::PayloadTooLarge { len: rx.len() as usize, capacity })),
        ],
{
    reveal_with_fuel(receive_trace, 9);
    let outs = seq![
        Ok::<Reply, E>(Reply::Done),
        Ok(Reply::Done),
        Ok(Reply::Done),
        Ok(Reply::Done),
        Ok(Reply::Irq(irq)),
        Ok(Reply::RxBuffer(rx)),
        Ok(Reply::Done),
    ] + later;
    let s0 = ReceiveSession::initial(capacity, timeout);
    let rest = outs.drop_first().drop_first().drop_first().drop_first();
    assert(rest =~= seq![Ok::<Reply, E>(Reply::Irq(irq)), Ok(Reply::RxBuffer(rx)), Ok(Reply::Done)]
        + later);
    assert(rest.drop_first().drop_first().drop_first() =~= later);
    let s7 = ReceiveSession { stage: ReceiveStage::Done, ..s0 };
    assert(receive_trace(s7, later) =~= seq![]);
    assert(receive_trace(s0, outs) =~= receive_prefix::<E>(timeout) + seq![
        Step::Do(Action::Run(Command::GetRxBufferStatus)),
        clear_all::<E>(),
        Step::Finish(Err(RadioError::PayloadTooLarge { len: rx.len() as usize, capacity })),
    ]);
}

} // verus!
