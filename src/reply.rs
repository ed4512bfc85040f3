//! What the chip answers to each command.
use vstd::prelude::*;
use crate::bytes::{be16_value, u16_from_be};
use crate::command::{command_frame, Command, FrameModel};
use crate::device_errors::DeviceErrors;
use crate::irq::IrqStatus;
use crate::rxtx::RxBufferStatus;
use crate::status::{PacketStatus, Stats, Status};

verus! {

/// How many bytes a frame reads back.
pub open spec fn frame_reply_len(f: FrameModel) -> nat {
    match f {
        FrameModel::Write(_) => 0,
        FrameModel::Transfer(b) => b.len(),
        FrameModel::WriteRead(_, n) => n,
    }
}

/// How many bytes the transaction of a command reads back.
pub open spec fn reply_len(cmd: Command) -> nat {
    frame_reply_len(command_frame(cmd))
}

/// The decoded answer to a command.
#[derive(Clone, Debug, PartialEq, Eq)]
pub enum Reply {
    /// The command has no answer.
    Done,
    /// A status byte.
    Status(Status),
    /// Packet counters.
    Stats(Stats),
    /// Device error flags.
    Errors(DeviceErrors),
    /// Interrupt flags.
    Irq(IrqStatus),
    /// Signal measures of the last packet.
    Packet(PacketStatus),
    /// Where the last received packet lies.
    RxBuffer(RxBufferStatus),
    /// Bytes read from registers or from the buffer.
    Data(Vec<u8>),
}

/// Whether `r` is the answer to `cmd` that the bytes `resp` read back encode.
pub open spec fn decodes(cmd: Command, resp: Seq<u8>, r: Reply) -> bool {
    match cmd {
        Command::GetStatus => r matches Reply::Status(s) && s.byte() == resp[1],
        Command::SetTx(_) => r matches Reply::Status(s) && s.byte() == resp[0],
        Command::SetRx(_) => r matches Reply::Status(s) && s.byte() == resp[0],
        Command::GetStats => r matches Reply::Stats(s) && s.status.byte() == resp[1] && s.rx_pkt
            == be16_value(resp[2], resp[3]) && s.crc_error == be16_value(resp[4], resp[5])
            && s.header_error == be16_value(resp[6], resp[7]),
        Command::GetDeviceErrors => r matches Reply::Errors(e) && e.word() == be16_value(
            resp[2],
            resp[3],
        ),
        Command::GetIrqStatus => r matches Reply::Irq(i) && i.word() == be16_value(
            resp[1],
            resp[2],
        ),
        Command::GetPacketStatus => r matches Reply::Packet(p) && p.raw_rssi() == resp[0]
            && p.raw_snr() == resp[1] as i8 && p.raw_signal_rssi() == resp[2],
        Command::GetRxBufferStatus => r matches Reply::RxBuffer(b) && b.len() == resp[2]
            && b.start() == resp[3],
        Command::ReadRegister(_, _) => r matches Reply::Data(d) && d@ == resp,
        Command::ReadBuffer(_, _) => r matches Reply::Data(d) && d@ == resp,
        _ => r is Done,
    }
}

/// Copies a slice.
fn copy_bytes(b: &[u8]) -> (r: Vec<u8>)
    ensures
        r@ == b@,
{
    let mut v: Vec<u8> = Vec::new();
    let mut i: usize = 0;
    while i < b.len()
        invariant
            i <= b@.len(),
            v@ == b@.subrange(0, i as int),
        decreases b@.len() - i,
    {
        v.push(b[i]);
        i = i + 1;
        assert(b@.subrange(0, i as int) =~= b@.subrange(0, i - 1) + seq![b@[i - 1]]);
    }
    assert(b@.subrange(0, i as int) =~= b@);
    v
}

/// Decodes the bytes that the transaction of `cmd` read back.
pub fn decode_reply(cmd: &Command, resp: &[u8]) -> (r: Reply)
    requires
        resp@.len() == reply_len(*cmd),
    ensures
        decodes(*cmd, resp@, r),
{
    match cmd {
        Command::GetStatus => Reply::Status(Status::from_u8(resp[1])),
        Command::SetTx(_) => Reply::Status(Status::from_u8(resp[0])),
        Command::SetRx(_) => Reply::Status(Status::from_u8(resp[0])),
        Command::GetStats => Reply::Stats(
            Stats::from_bytes([resp[1], resp[2], resp[3], resp[4], resp[5], resp[6], resp[7]]),
        ),
        Command::GetDeviceErrors => Reply::Errors(
            DeviceErrors::from_u16(u16_from_be(resp[2], resp[3])),
        ),
        Command::GetIrqStatus => Reply::Irq(IrqStatus::from_u16(u16_from_be(resp[1], resp[2]))),
        Command::GetPacketStatus => Reply::Packet(
            PacketStatus::from_bytes([resp[0], resp[1], resp[2]]),
        ),
        Command::GetRxBufferStatus => Reply::RxBuffer(
            RxBufferStatus::from_bytes([resp[2], resp[3]]),
        ),
        Command::ReadRegister(_, _) => Reply::Data(copy_bytes(resp)),
        Command::ReadBuffer(_, _) => Reply::Data(copy_bytes(resp)),
        _ => Reply::Done,
    }
}

} // verus!
