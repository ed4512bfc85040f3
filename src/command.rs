//! The chip's command set and how each command is framed on the bus.
use vstd::prelude::*;
use crate::bytes::{be16, be32, u16_to_be, u32_to_be};
use crate::calib::{CalibImageFreq, CalibParam};
use crate::irq::IrqMask;
use crate::modulation::ModParams;
use crate::packet::{PacketParams, PacketType};
use crate::reg::{LORA_SYNC_WORD_MSB, OCP_CONFIGURATION, RX_GAIN, RX_GAIN_BOOSTED};
use crate::rxtx::{PaConfig, RxTxTimeout, TxParams};
use crate::standby::StandbyConfig;
use crate::tcxo::{TcxoDelay, TcxoVoltage};

verus! {

/// The filler byte clocked out while the chip answers.
pub const NOP: u8 = 0x00;

/// One chip command with its parameters.
#[derive(Clone, Debug, PartialEq, Eq)]
pub enum Command {
    /// Enter standby.
    SetStandby(StandbyConfig),
    /// Select the packet type.
    SetPacketType(PacketType),
    /// Read the status byte.
    GetStatus,
    /// Enter frequency synthesis.
    SetFs,
    /// Read the packet counters.
    GetStats,
    /// Calibrate the image rejection for a band.
    CalibrateImage(CalibImageFreq),
    /// Run the selected calibrations.
    Calibrate(CalibParam),
    /// Write bytes to registers from an address on.
    WriteRegister(u16, Vec<u8>),
    /// Read a number of bytes from registers from an address on.
    ReadRegister(u16, usize),
    /// Write bytes to the data buffer from an offset on.
    WriteBuffer(u8, Vec<u8>),
    /// Read a number of bytes from the data buffer from an offset on.
    ReadBuffer(u8, usize),
    /// Let DIO2 drive the RF switch, or not.
    SetDio2AsRfSwitchCtrl(bool),
    /// Read the signal measures of the last packet.
    GetPacketStatus,
    /// Let DIO3 supply the oscillator.
    SetDio3AsTcxoCtrl(TcxoVoltage, TcxoDelay),
    /// Clear the device error flags.
    ClearDeviceErrors,
    /// Read the device error flags.
    GetDeviceErrors,
    /// Set the global interrupt mask and the masks routed to DIO1, DIO2 and DIO3.
    SetDioIrqParams(IrqMask, IrqMask, IrqMask, IrqMask),
    /// Read the interrupt flags.
    GetIrqStatus,
    /// Clear the given interrupt flags.
    ClearIrqStatus(IrqMask),
    /// Enter transmit mode.
    SetTx(RxTxTimeout),
    /// Enter receive mode.
    SetRx(RxTxTimeout),
    /// Set the packet framing.
    SetPacketParams(PacketParams),
    /// Set the modulation.
    SetModParams(ModParams),
    /// Set the output power and ramp time.
    SetTxParams(TxParams),
    /// Set the frequency register.
    SetRfFrequency(u32),
    /// Set the power amplifier.
    SetPaConfig(PaConfig),
    /// Set where transmitted and received data start in the buffer.
    SetBufferBaseAddress(u8, u8),
    /// Read where the last received packet lies in the buffer.
    GetRxBufferStatus,
    /// Write the sync word register.
    SetSyncWord(u16),
    /// Write the over-current limit, given in mA.
    SetOcp(u8),
    /// Write the receiver gain register with the value that keeps full sensitivity.
    FixSensitivity,
}

/// What a frame does on the bus, as values.
pub enum FrameModel {
    /// Clock out these bytes.
    Write(Seq<u8>),
    /// Clock out these bytes and keep what comes back, byte for byte.
    Transfer(Seq<u8>),
    /// Clock out these bytes, then read this many.
    WriteRead(Seq<u8>, nat),
}

/// One bus transaction: what the select line frames.
#[derive(Clone, Debug, PartialEq, Eq)]
pub enum Frame {
    /// Clock out these bytes.
    Write(Vec<u8>),
    /// Clock out these bytes and keep what comes back, byte for byte.
    Transfer(Vec<u8>),
    /// Clock out these bytes, then read this many.
    WriteRead(Vec<u8>, usize),
}

impl View for Frame {
    type V = FrameModel;

    open spec fn view(&self) -> FrameModel {
        match self {
            Frame::Write(b) => FrameModel::Write(b@),
            Frame::Transfer(b) => FrameModel::Transfer(b@),
            Frame::WriteRead(b, n) => FrameModel::WriteRead(b@, *n as nat),
        }
    }
}

/// The over-current code: steps of 2.5 mA, rounded down.
pub open spec fn ocp_code(ma: u8) -> u8 {
    (ma as int * 2 / 5) as u8
}

/// The register write frame: opcode `0x0D`, the address big-endian, the data.
pub open spec fn register_write(addr: u16, data: Seq<u8>) -> FrameModel {
    FrameModel::Write(seq![0x0Du8] + be16(addr) + data)
}

/// How each command is framed on the bus.
pub open spec fn command_frame(cmd: Command) -> FrameModel {
    match cmd {
        Command::SetStandby(c) => FrameModel::Write(seq![0x80u8, c.spec_code()]),
        Command::SetPacketType(p) => FrameModel::Write(seq![0x8Au8, p.spec_code()]),
        Command::GetStatus => FrameModel::Transfer(seq![0xC0u8, NOP]),
        Command::SetFs => FrameModel::Write(seq![0xC1u8]),
        Command::GetStats => FrameModel::Transfer(seq![0x10u8, NOP, NOP, NOP, NOP, NOP, NOP, NOP]),
        Command::CalibrateImage(f) => FrameModel::Write(seq![0x98u8] + be16(f.spec_code())),
        Command::Calibrate(p) => FrameModel::Write(seq![0x89u8, p.mask()]),
        Command::WriteRegister(a, d) => register_write(a, d@),
        Command::ReadRegister(a, n) => FrameModel::WriteRead(seq![0x1Du8] + be16(a), n as nat),
        Command::WriteBuffer(o, d) => FrameModel::Write(seq![0x0Eu8, o] + d@),
        Command::ReadBuffer(o, n) => FrameModel::WriteRead(seq![0x1Eu8, o, NOP], n as nat),
        Command::SetDio2AsRfSwitchCtrl(e) => FrameModel::Write(
            seq![0x9Du8, if e { 1u8 } else { 0u8 }],
        ),
        Command::GetPacketStatus => FrameModel::WriteRead(seq![0x14u8, NOP], 3),
        Command::SetDio3AsTcxoCtrl(v, d) => FrameModel::Write(
            seq![0x97u8, v.spec_code()] + d.bytes(),
        ),
        Command::ClearDeviceErrors => FrameModel::Write(seq![0x07u8, NOP, NOP]),
        Command::GetDeviceErrors => FrameModel::Transfer(seq![0x17u8, NOP, NOP, NOP]),
        Command::SetDioIrqParams(irq, d1, d2, d3) => FrameModel::Write(
            seq![0x08u8] + be16(irq.word()) + be16(d1.word()) + be16(d2.word()) + be16(
                d3.word(),
            ),
        ),
        Command::GetIrqStatus => FrameModel::WriteRead(seq![0x12u8], 3),
        Command::ClearIrqStatus(m) => FrameModel::Write(seq![0x02u8] + be16(m.word())),
        Command::SetTx(t) => FrameModel::Transfer(seq![0x83u8] + t.bytes()),
        Command::SetRx(t) => FrameModel::Transfer(seq![0x82u8] + t.bytes()),
        Command::SetPacketParams(p) => FrameModel::Write(seq![0x8Cu8] + p.bytes()),
        Command::SetModParams(p) => FrameModel::Write(seq![0x8Bu8] + p.bytes()),
        Command::SetTxParams(p) => FrameModel::Write(seq![0x8Eu8] + p.spec_bytes()),
        Command::SetRfFrequency(f) => FrameModel::Write(seq![0x86u8] + be32(f)),
        Command::SetPaConfig(p) => FrameModel::Write(seq![0x95u8] + p.spec_bytes()),
        Command::SetBufferBaseAddress(t, r) => FrameModel::Write(seq![0x8Fu8, t, r]),
        Command::GetRxBufferStatus => FrameModel::Transfer(seq![0x13u8, NOP, NOP, NOP]),
        Command::SetSyncWord(w) => register_write(LORA_SYNC_WORD_MSB, be16(w)),
        Command::SetOcp(ma) => register_write(OCP_CONFIGURATION, seq![ocp_code(ma)]),
        Command::FixSensitivity => register_write(RX_GAIN, seq![RX_GAIN_BOOSTED]),
    }
}

/// Appends `tail` to `v`.
fn append_bytes(v: &mut Vec<u8>, tail: &[u8])
    ensures
        final(v)@ == old(v)@ + tail@,
{
    let mut i: usize = 0;
    while i < tail.len()
        invariant
            i <= tail@.len(),
            v@ == old(v)@ + tail@.subrange(0, i as int),
        decreases tail@.len() - i,
    {
        v.push(tail[i]);
        i = i + 1;
        assert(tail@.subrange(0, i as int) =~= tail@.subrange(0, i - 1) + seq![tail@[i - 1]]);
    }
    assert(tail@.subrange(0, i as int) =~= tail@);
}

/// The bytes `head` followed by `tail`.
fn concat(head: &[u8], tail: &[u8]) -> (r: Vec<u8>)
    ensures
        r@ == head@ + tail@,
{
    let mut v: Vec<u8> = Vec::new();
    append_bytes(&mut v, head);
    append_bytes(&mut v, tail);
    assert(v@ =~= head@ + tail@);
    v
}

/// The frame of a register write.
fn register_write_frame(addr: u16, data: &[u8]) -> (r: Frame)
    ensures
        r@ == register_write(addr, data@),
{
    let a = u16_to_be(addr);
    let head = [0x0Du8, a[0], a[1]];
    assert(head@ =~= seq![0x0Du8] + be16(addr));
    Frame::Write(concat(&head, data))
}

/// A frame of fixed bytes that only writes.
fn write_frame(b: &[u8]) -> (r: Frame)
    ensures
        r@ == FrameModel::Write(b@),
{
    Frame::Write(concat(b, &[]))
}

/// A frame of fixed bytes whose reply is kept.
fn transfer_frame(b: &[u8]) -> (r: Frame)
    ensures
        r@ == FrameModel::Transfer(b@),
{
    let v = concat(b, &[]);
    assert(v@ =~= b@);
    Frame::Transfer(v)
}

impl Command {
    /// The bus transaction that carries the command.
    pub fn frame(&self) -> (r: Frame)
        ensures
            r@ == command_frame(*self),
    {
        match self {
            Command::SetStandby(c) => {
                let b = [0x80u8, c.code()];
                assert(b@ =~= seq![0x80u8, c.spec_code()]);
                write_frame(&b)
            },
            Command::SetPacketType(p) => {
                let b = [0x8Au8, p.code()];
                assert(b@ =~= seq![0x8Au8, p.spec_code()]);
                write_frame(&b)
            },
            Command::GetStatus => {
                let b = [0xC0u8, NOP];
                assert(b@ =~= seq![0xC0u8, NOP]);
                transfer_frame(&b)
            },
            Command::SetFs => {
                let b = [0xC1u8];
                assert(b@ =~= seq![0xC1u8]);
                write_frame(&b)
            },
            Command::GetStats => {
                let b = [0x10u8, NOP, NOP, NOP, NOP, NOP, NOP, NOP];
                assert(b@ =~= seq![0x10u8, NOP, NOP, NOP, NOP, NOP, NOP, NOP]);
                transfer_frame(&b)
            },
            Command::CalibrateImage(f) => {
                let c = f.to_bytes();
                let b = [0x98u8, c[0], c[1]];
                assert(b@ =~= seq![0x98u8] + be16(f.spec_code()));
                write_frame(&b)
            },
            Command::Calibrate(p) => {
                let b = [0x89u8, p.to_u8()];
                assert(b@ =~= seq![0x89u8, p.mask()]);
                write_frame(&b)
            },
            Command::WriteRegister(a, d) => register_write_frame(*a, d.as_slice()),
            Command::ReadRegister(a, n) => {
                let x = u16_to_be(*a);
                let b = [0x1Du8, x[0], x[1]];
                assert(b@ =~= seq![0x1Du8] + be16(*a));
                Frame::WriteRead(concat(&b, &[]), *n)
            },
            Command::WriteBuffer(o, d) => {
                let b = [0x0Eu8, *o];
                assert(b@ =~= seq![0x0Eu8, *o]);
                Frame::Write(concat(&b, d.as_slice()))
            },
            Command::ReadBuffer(o, n) => {
                let b = [0x1Eu8, *o, NOP];
                let v = concat(&b, &[]);
                assert(v@ =~= seq![0x1Eu8, *o, NOP]);
                Frame::WriteRead(v, *n)
            },
            Command::SetDio2AsRfSwitchCtrl(e) => {
                let b = [0x9Du8, if *e { 1u8 } else { 0u8 }];
                assert(b@ =~= seq![0x9Du8, if *e { 1u8 } else { 0u8 }]);
                write_frame(&b)
            },
            Command::GetPacketStatus => {
                let b = [0x14u8, NOP];
                let v = concat(&b, &[]);
                assert(v@ =~= seq![0x14u8, NOP]);
                Frame::WriteRead(v, 3)
            },
            Command::SetDio3AsTcxoCtrl(v, d) => {
                let b = [0x97u8, v.code()];
                let t = d.to_bytes();
                let r = concat(&b, &t);
                assert(r@ =~= seq![0x97u8, v.spec_code()] + d.bytes());
                Frame::Write(r)
            },
            Command::ClearDeviceErrors => {
                let b = [0x07u8, NOP, NOP];
                assert(b@ =~= seq![0x07u8, NOP, NOP]);
                write_frame(&b)
            },
            Command::GetDeviceErrors => {
                let b = [0x17u8, NOP, NOP, NOP];
                assert(b@ =~= seq![0x17u8, NOP, NOP, NOP]);
                transfer_frame(&b)
            },
            Command::SetDioIrqParams(irq, d1, d2, d3) => {
                let a = u16_to_be(irq.to_u16());
                let b = u16_to_be(d1.to_u16());
                let c = u16_to_be(d2.to_u16());
                let d = u16_to_be(d3.to_u16());
                let f = [0x08u8, a[0], a[1], b[0], b[1], c[0], c[1], d[0], d[1]];
                assert(f@ =~= seq![0x08u8] + be16(irq.word()) + be16(d1.word()) + be16(d2.word())
                    + be16(d3.word()));
                write_frame(&f)
            },
            Command::GetIrqStatus => {
                let b = [0x12u8];
                let v = concat(&b, &[]);
                assert(v@ =~= seq![0x12u8]);
                Frame::WriteRead(v, 3)
            },
            Command::ClearIrqStatus(m) => {
                let a = u16_to_be(m.to_u16());
                let b = [0x02u8, a[0], a[1]];
                assert(b@ =~= seq![0x02u8] + be16(m.word()));
                write_frame(&b)
            },
            Command::SetTx(t) => {
                let x = t.to_bytes();
                let b = [0x83u8, x[0], x[1], x[2]];
                assert(b@ =~= seq![0x83u8] + t.bytes());
                transfer_frame(&b)
            },
            Command::SetRx(t) => {
                let x = t.to_bytes();
                let b = [0x82u8, x[0], x[1], x[2]];
                assert(b@ =~= seq![0x82u8] + t.bytes());
                transfer_frame(&b)
            },
            Command::SetPacketParams(p) => {
                let x = p.to_bytes();
                let r = concat(&[0x8Cu8], &x);
                assert(r@ =~= seq![0x8Cu8] + p.bytes());
                Frame::Write(r)
            },
            Command::SetModParams(p) => {
                let x = p.to_bytes();
                let r = concat(&[0x8Bu8], &x);
                assert(r@ =~= seq![0x8Bu8] + p.bytes());
                Frame::Write(r)
            },
            Command::SetTxParams(p) => {
                let x = p.to_bytes();
                let r = concat(&[0x8Eu8], &x);
                assert(r@ =~= seq![0x8Eu8] + p.spec_bytes());
                Frame::Write(r)
            },
            Command::SetRfFrequency(f) => {
                let x = u32_to_be(*f);
                let r = concat(&[0x86u8], &x);
                assert(r@ =~= seq![0x86u8] + be32(*f));
                Frame::Write(r)
            },
            Command::SetPaConfig(p) => {
                let x = p.to_bytes();
                let r = concat(&[0x95u8], &x);
                assert(r@ =~= seq![0x95u8] + p.spec_bytes());
                Frame::Write(r)
            },
            Command::SetBufferBaseAddress(t, r) => {
                let b = [0x8Fu8, *t, *r];
                assert(b@ =~= seq![0x8Fu8, *t, *r]);
                write_frame(&b)
            },
            Command::GetRxBufferStatus => {
                let b = [0x13u8, NOP, NOP, NOP];
                assert(b@ =~= seq![0x13u8, NOP, NOP, NOP]);
                transfer_frame(&b)
            },
            Command::SetSyncWord(w) => {
                let x = u16_to_be(*w);
                register_write_frame(LORA_SYNC_WORD_MSB, &x)
            },
            Command::SetOcp(ma) => {
                let code = (*ma as u16 * 2 / 5) as u8;
                let x = [code];
                assert(x@ =~= seq![ocp_code(*ma)]);
                register_write_frame(OCP_CONFIGURATION, &x)
            },
            Command::FixSensitivity => {
                let x = [RX_GAIN_BOOSTED];
                assert(x@ =~= seq![RX_GAIN_BOOSTED]);
                register_write_frame(RX_GAIN, &x)
            },
        }
    }
}

} // verus!
