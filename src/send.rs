//! The send protocol.
//!
//! Clear the device errors and every interrupt, write the payload at offset
//! 0, set the framing (explicit header, the payload's length, the requested
//! CRC), boost the receiver gain, read the device errors, start transmitting
//! and keep the status it answers, wait for DIO1, clear every interrupt, and
//! return the status. The first failing action ends the protocol with its
//! error.
use vstd::prelude::*;
use crate::action::{Action, Step};
use crate::command::Command;
use crate::err::RadioError;
use crate::irq::IrqMask;
use crate::packet::{LoRaCrcType, LoRaHeaderType, LoRaInvertIq, LoRaPacketParams};
use crate::reply::Reply;
use crate::rxtx::RxTxTimeout;
use crate::status::Status;

verus! {

/// The longest payload: its length is one byte of the packet framing.
pub const MAX_PAYLOAD: usize = 255;

/// Whether a payload of `len` bytes can be sent; a longer one is refused
/// with its length and the room the chip has.
pub fn check_payload<E>(len: usize) -> (r: Result<(), RadioError<E>>)
    ensures
        len <= MAX_PAYLOAD ==> r == Ok::<(), RadioError<E>>(()),
        len > MAX_PAYLOAD ==> r == Err::<(), RadioError<E>>(
            RadioError::PayloadTooLarge { len, capacity: MAX_PAYLOAD },
        ),
{
    if len <= MAX_PAYLOAD {
        Ok(())
    } else {
        Err(RadioError::PayloadTooLarge { len, capacity: MAX_PAYLOAD })
    }
}

/// Where a send stands: the action whose outcome it waits for.
#[derive(Copy, Clone, Debug, PartialEq, Eq, Structural)]
pub enum SendStage {
    /// Clearing the device errors.
    ClearingErrors,
    /// Clearing the interrupts before transmission.
    ClearingIrqBefore,
    /// Writing the payload.
    WritingPayload,
    /// Setting the packet framing.
    SettingPacket,
    /// Boosting the receiver gain.
    FixingSensitivity,
    /// Reading the device errors.
    ReadingErrors,
    /// Starting transmission.
    StartingTx,
    /// Waiting for DIO1, with the status that transmission started with.
    WaitingDio1(Status),
    /// Clearing the interrupts after transmission.
    ClearingIrqAfter(Status),
    /// The result has been handed out.
    Done,
}

/// One send of a payload.
#[derive(Copy, Clone, Debug, PartialEq, Eq)]
pub struct SendSession {
    /// Where the send stands.
    pub stage: SendStage,
    /// The payload length.
    pub payload_len: u8,
    /// How long the chip may transmit.
    pub timeout: RxTxTimeout,
    /// The preamble length, in symbols.
    pub preamble_len: u16,
    /// Whether the packet carries a CRC.
    pub crc_type: LoRaCrcType,
}

/// The framing of a sent packet: explicit header, the payload's length, the
/// requested preamble and CRC, standard IQ.
pub open spec fn send_framing(payload_len: u8, preamble_len: u16, crc_type: LoRaCrcType) -> LoRaPacketParams {
    LoRaPacketParams {
        preamble_len,
        header_type: LoRaHeaderType::VarLen,
        payload_len,
        crc_type,
        invert_iq: LoRaInvertIq::Standard,
    }
}

impl SendSession {
    /// The send just started, waiting for the device errors to clear.
    pub open spec fn initial(payload_len: u8, timeout: RxTxTimeout, preamble_len: u16, crc_type: LoRaCrcType) -> Self {
        SendSession { stage: SendStage::ClearingErrors, payload_len, timeout, preamble_len, crc_type }
    }

    /// Whether the outcome fits the action the send waits for: starting
    /// transmission answers a status.
    pub open spec fn fits<E>(self, outcome: Result<Reply, E>) -> bool {
        self.stage == SendStage::StartingTx && outcome is Ok ==> outcome->Ok_0 is Status
    }

    /// The stage and step that follow the outcome of the pending action.
    pub open spec fn next<E>(self, outcome: Result<Reply, E>) -> (Self, Step<Status, E>) {
        match outcome {
            Err(e) => (SendSession { stage: SendStage::Done, ..self }, Step::Finish(Err(e))),
            Ok(reply) => match self.stage {
                SendStage::ClearingErrors => (
                    SendSession { stage: SendStage::ClearingIrqBefore, ..self },
                    Step::Do(Action::Run(Command::ClearIrqStatus(IrqMask::full()))),
                ),
                SendStage::ClearingIrqBefore => (
                    SendSession { stage: SendStage::WritingPayload, ..self },
                    Step::Do(Action::WritePayload(0)),
                ),
                SendStage::WritingPayload => (
                    SendSession { stage: SendStage::SettingPacket, ..self },
                    Step::Do(
                        Action::Run(
                            Command::SetPacketParams(
                                send_framing(
                                    self.payload_len,
                                    self.preamble_len,
                                    self.crc_type,
                                ).spec_packet_params(),
                            ),
                        ),
                    ),
                ),
                SendStage::SettingPacket => (
                    SendSession { stage: SendStage::FixingSensitivity, ..self },
                    Step::Do(Action::Run(Command::FixSensitivity)),
                ),
                SendStage::FixingSensitivity => (
                    SendSession { stage: SendStage::ReadingErrors, ..self },
                    Step::Do(Action::Run(Command::GetDeviceErrors)),
                ),
                SendStage::ReadingErrors => (
                    SendSession { stage: SendStage::StartingTx, ..self },
                    Step::Do(Action::Run(Command::SetTx(self.timeout))),
                ),
                SendStage::StartingTx => (
                    SendSession { stage: SendStage::WaitingDio1(reply->Status_0), ..self },
                    Step::Do(Action::WaitDio1),
                ),
                SendStage::WaitingDio1(s) => (
                    SendSession { stage: SendStage::ClearingIrqAfter(s), ..self },
                    Step::Do(Action::Run(Command::ClearIrqStatus(IrqMask::full()))),
                ),
                SendStage::ClearingIrqAfter(s) => (
                    SendSession { stage: SendStage::Done, ..self },
                    Step::Finish(Ok(s)),
                ),
                SendStage::Done => (self, Step::Finish(Ok(Status::spec_zero()))),
            },
        }
    }

    /// Starts sending a payload of `payload_len` bytes; the first action
    /// clears the device errors.
    pub fn start<E>(payload_len: usize, timeout: RxTxTimeout, preamble_len: u16, crc_type: LoRaCrcType) -> (r: (
        Self,
        Step<Status, E>,
    ))
        requires
            payload_len <= 255,
        ensures
            r.0 == Self::initial(payload_len as u8, timeout, preamble_len, crc_type),
            r.1 == Step::<Status, E>::Do(Action::Run(Command::ClearDeviceErrors)),
    {
        (
            SendSession {
                stage: SendStage::ClearingErrors,
                payload_len: payload_len as u8,
                timeout,
                preamble_len,
                crc_type,
            },
            Step::Do(Action::Run(Command::ClearDeviceErrors)),
        )
    }

    /// Whether the outcome fits the action the send waits for.
    pub fn accepts<E>(&self, outcome: &Result<Reply, E>) -> (r: bool)
        ensures
            r == self.fits(*outcome),
    {
        match (self.stage, outcome) {
            (SendStage::StartingTx, Ok(Reply::Status(_))) => true,
            (SendStage::StartingTx, Ok(_)) => false,
            _ => true,
        }
    }

    /// Takes the outcome of the pending action and gives the next step.
    pub fn step<E>(self, outcome: Result<Reply, E>) -> (r: (Self, Step<Status, E>))
        requires
            self.stage != SendStage::Done,
            self.fits(outcome),
        ensures
            r == self.next(outcome),
    {
        match outcome {
            Err(e) => (SendSession { stage: SendStage::Done, ..self }, Step::Finish(Err(e))),
            Ok(reply) => match self.stage {
                SendStage::ClearingErrors => (
                    SendSession { stage: SendStage::ClearingIrqBefore, ..self },
                    Step::Do(Action::Run(Command::ClearIrqStatus(IrqMask::all()))),
                ),
                SendStage::ClearingIrqBefore => (
                    SendSession { stage: SendStage::WritingPayload, ..self },
                    Step::Do(Action::WritePayload(0)),
                ),
                SendStage::WritingPayload => {
                    let framing = LoRaPacketParams {
                        preamble_len: self.preamble_len,
                        header_type: LoRaHeaderType::VarLen,
                        payload_len: self.payload_len,
                        crc_type: self.crc_type,
                        invert_iq: LoRaInvertIq::Standard,
                    };
                    (
                        SendSession { stage: SendStage::SettingPacket, ..self },
                        Step::Do(Action::Run(Command::SetPacketParams(framing.to_packet_params()))),
                    )
                },
                SendStage::SettingPacket => (
                    SendSession { stage: SendStage::FixingSensitivity, ..self },
                    Step::Do(Action::Run(Command::FixSensitivity)),
                ),
                SendStage::FixingSensitivity => (
                    SendSession { stage: SendStage::ReadingErrors, ..self },
                    Step::Do(Action::Run(Command::GetDeviceErrors)),
                ),
                SendStage::ReadingErrors => (
                    SendSession { stage: SendStage::StartingTx, ..self },
                    Step::Do(Action::Run(Command::SetTx(self.timeout))),
                ),
                SendStage::StartingTx => {
                    let status = match reply {
                        Reply::Status(s) => s,
                        _ => Status::from_u8(0),
                    };
                    (
                        SendSession { stage: SendStage::WaitingDio1(status), ..self },
                        Step::Do(Action::WaitDio1),
                    )
                },
                SendStage::WaitingDio1(s) => (
                    SendSession { stage: SendStage::ClearingIrqAfter(s), ..self },
                    Step::Do(Action::Run(Command::ClearIrqStatus(IrqMask::all()))),
                ),
                SendStage::ClearingIrqAfter(s) => (
                    SendSession { stage: SendStage::Done, ..self },
                    Step::Finish(Ok(s)),
                ),
                SendStage::Done => (self, Step::Finish(Ok(Status::from_u8(0)))),
            },
        }
    }
}

/// The steps that a send hands out for a sequence of outcomes, up to and
/// including its result.
pub open spec fn send_trace<E>(s: SendSession, outcomes: Seq<Result<Reply, E>>) -> Seq<
    Step<Status, E>,
>
    decreases outcomes.len(),
{
    if outcomes.len() == 0 || s.stage == SendStage::Done {
        seq![]
    } else {
        let (s2, a) = s.next(outcomes[0]);
        seq![a] + send_trace(s2, outcomes.drop_first())
    }
}

/// A send whose actions all succeed, with `status` as the answer to the
/// start of transmission, hands out (after clearing the device errors):
/// one clear of every interrupt, the payload write, the framing, the gain
/// boost, the error read, the start of transmission, the wait for DIO1 and
/// one more clear of every interrupt; then it returns `status`. So exactly
/// one interrupt clear comes before transmission and exactly one after.
pub proof fn lemma_send_clears_once_before_and_after<E>(
    payload_len: u8,
    timeout: RxTxTimeout,
    preamble_len: u16,
    crc_type: LoRaCrcType,
    status: Status,
)
    ensures
        send_trace(
            SendSession::initial(payload_len, timeout, preamble_len, crc_type),
            seq![
                Ok::<Reply, E>(Reply::Done),
                Ok(Reply::Done),
                Ok(Reply::Done),
                Ok(Reply::Done),
                Ok(Reply::Done),
                Ok(Reply::Done),
                Ok(Reply::Status(status)),
                Ok(Reply::Done),
                Ok(Reply::Done),
            ],
        ) == seq![
            Step::<Status, E>::Do(Action::Run(Command::ClearIrqStatus(IrqMask::full()))),
            Step::Do(Action::WritePayload(0)),
            Step::Do(
                Action::Run(
                    Command::SetPacketParams(
                        send_framing(payload_len, preamble_len, crc_type).spec_packet_params(),
                    ),
                ),
            ),
            Step::Do(Action::Run(Command::FixSensitivity)),
            Step::Do(Action::Run(Command::GetDeviceErrors)),
            Step::Do(Action::Run(Command::SetTx(timeout))),
            Step::Do(Action::WaitDio1),
            Step::Do(Action::Run(Command::ClearIrqStatus(IrqMask::full()))),
            Step::Finish(Ok(status)),
        ],
{
    reveal_with_fuel(send_trace, 10);
    let outs = seq![
        Ok::<Reply, E>(Reply::Done),
        Ok(Reply::Done),
        Ok(Reply::Done),
        Ok(Reply::Done),
        Ok(Reply::Done),
        Ok(Reply::Done),
        Ok(Reply::Status(status)),
        Ok(Reply::Done),
        Ok(Reply::Done),
    ];
    let s0 = SendSession::initial(payload_len, timeout, preamble_len, crc_type);
    assert(outs.drop_first().drop_first().drop_first().drop_first().drop_first().drop_first()
        =~= seq![Ok::<Reply, E>(Reply::Status(status)), Ok(Reply::Done), Ok(Reply::Done)]);
    assert(send_trace(s0, outs) =~= seq![
        Step::<Status, E>::Do(Action::Run(Command::ClearIrqStatus(IrqMask::full()))),
        Step::Do(Action::WritePayload(0)),
        Step::Do(
            Action::Run(
                Command::SetPacketParams(
                    send_framing(payload_len, preamble_len, crc_type).spec_packet_params(),
                ),
            ),
        ),
        Step::Do(Action::Run(Command::FixSensitivity)),
        Step::Do(Action::Run(Command::GetDeviceErrors)),
        Step::Do(Action::Run(Command::SetTx(timeout))),
        Step::Do(Action::WaitDio1),
        Step::Do(Action::Run(Command::ClearIrqStatus(IrqMask::full()))),
        Step::Finish(Ok(status)),
    ]);
}

/// When the payload write fails, the send ends with that error at once:
/// no framing, no start of transmission, and nothing else follows,
/// whatever outcomes the runner would report afterwards.
pub proof fn lemma_send_stops_after_failed_write<E>(
    payload_len: u8,
    timeout: RxTxTimeout,
    preamble_len: u16,
    crc_type: LoRaCrcType,
    e: E,
    later: Seq<Result<Reply, E>>,
)
    ensures
        send_trace(
            SendSession::initial(payload_len, timeout, preamble_len, crc_type),
            seq![Ok::<Reply, E>(Reply::Done), Ok(Reply::Done), Err(e)] + later,
        ) == seq![
            Step::<Status, E>::Do(Action::Run(Command::ClearIrqStatus(IrqMask::full()))),
            Step::Do(Action::WritePayload(0)),
            Step::Finish(Err(e)),
        ],
{
    reveal_with_fuel(send_trace, 4);
    let outs = seq![Ok::<Reply, E>(Reply::Done), Ok(Reply::Done), Err(e)] + later;
    let s0 = SendSession::initial(payload_len, timeout, preamble_len, crc_type);
    assert(outs.drop_first() =~= seq![Ok::<Reply, E>(Reply::Done), Err(e)] + later);
    assert(outs.drop_first().drop_first() =~= seq![Err::<Reply, E>(e)] + later);
    let s3 = SendSession { stage: SendStage::Done, ..s0 };
    assert(send_trace(s3, outs.drop_first().drop_first().drop_first()) =~= seq![]);
    assert(send_trace(s0, outs) =~= seq![
        Step::<Status, E>::Do(Action::Run(Command::ClearIrqStatus(IrqMask::full()))),
        Step::Do(Action::WritePayload(0)),
        Step::Finish(Err(e)),
    ]);
}

} // verus!
