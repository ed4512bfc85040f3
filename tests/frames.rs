use sx126x::calib::{CalibImageFreq, CalibParam};
use sx126x::command::{Command, Frame};
use sx126x::err::{spi_error, SpiError};
use sx126x::irq::{IrqMask, IrqMaskBit};
use sx126x::packet::{LoRaPacketParams, PacketType};
use sx126x::reply::{decode_reply, Reply};
use sx126x::rxtx::{PaConfig, RxTxTimeout, TxParams};
use sx126x::standby::StandbyConfig;
use sx126x::tcxo::{TcxoDelay, TcxoVoltage};

fn write(cmd: Command) -> Vec<u8> {
    match cmd.frame() {
        Frame::Write(b) => b,
        other => panic!("not a write frame: {:?}", other),
    }
}

fn transfer(cmd: Command) -> Vec<u8> {
    match cmd.frame() {
        Frame::Transfer(b) => b,
        other => panic!("not a transfer frame: {:?}", other),
    }
}

#[test]
fn mode_command_frames() {
    assert_eq!(write(Command::SetStandby(StandbyConfig::StbyRc)), vec![0x80, 0x00]);
    assert_eq!(write(Command::SetStandby(StandbyConfig::StbyXOSC)), vec![0x80, 0x01]);
    assert_eq!(write(Command::SetFs), vec![0xC1]);
    assert_eq!(write(Command::SetPacketType(PacketType::LoRa)), vec![0x8A, 0x01]);
    assert_eq!(
        transfer(Command::SetTx(RxTxTimeout::from_ms(2000))),
        vec![0x83, 0x00, 0x00, 0x80]
    );
    assert_eq!(
        transfer(Command::SetRx(RxTxTimeout::continuous_rx())),
        vec![0x82, 0xFF, 0xFF, 0xFF]
    );
}

#[test]
fn configuration_command_frames() {
    assert_eq!(write(Command::Calibrate(CalibParam::all())), vec![0x89, 0x7F]);
    assert_eq!(
        write(Command::CalibrateImage(CalibImageFreq::MHz863_870)),
        vec![0x98, 0xD7, 0xDB]
    );
    assert_eq!(write(Command::SetRfFrequency(910_163_968)), vec![0x86, 0x36, 0x40, 0x00, 0x00]);
    assert_eq!(
        write(Command::SetPaConfig(PaConfig::default().set_pa_duty_cycle(4).set_hp_max(7))),
        vec![0x95, 4, 7, 0, 1]
    );
    assert_eq!(write(Command::SetTxParams(TxParams::default().set_power_dbm(14))), vec![0x8E, 14, 0]);
    assert_eq!(write(Command::SetBufferBaseAddress(0x10, 0x80)), vec![0x8F, 0x10, 0x80]);
    assert_eq!(
        write(Command::SetPacketParams(LoRaPacketParams::default().to_packet_params())),
        vec![0x8C, 0, 8, 0, 0xFF, 0, 0, 0, 0, 0]
    );
    assert_eq!(write(Command::SetDio2AsRfSwitchCtrl(true)), vec![0x9D, 0x01]);
    assert_eq!(write(Command::SetDio2AsRfSwitchCtrl(false)), vec![0x9D, 0x00]);
    assert_eq!(
        write(Command::SetDio3AsTcxoCtrl(TcxoVoltage::Volt1_8, TcxoDelay::from_ms(1000))),
        vec![0x97, 0x02, 0x00, 0x00, 0x40]
    );
    assert_eq!(
        write(Command::SetDio3AsTcxoCtrl(TcxoVoltage::Volt2_4, TcxoDelay::from_ms(5))),
        vec![0x97, 0x04, 0x00, 0x00, 0x00]
    );
}

#[test]
fn interrupt_command_frames() {
    let dio1 = IrqMask::none().combine(IrqMaskBit::TxDone).combine(IrqMaskBit::Timeout);
    assert_eq!(
        write(Command::SetDioIrqParams(dio1, dio1, IrqMask::none(), IrqMask::all())),
        vec![0x08, 0x02, 0x01, 0x02, 0x01, 0x00, 0x00, 0xFF, 0xFF]
    );
    assert_eq!(write(Command::ClearIrqStatus(IrqMask::all())), vec![0x02, 0xFF, 0xFF]);
    assert_eq!(write(Command::ClearDeviceErrors), vec![0x07, 0x00, 0x00]);
    assert_eq!(Command::GetIrqStatus.frame(), Frame::WriteRead(vec![0x12], 3));
}

#[test]
fn register_and_buffer_frames() {
    assert_eq!(write(Command::SetSyncWord(0x1424)), vec![0x0D, 0x07, 0x40, 0x14, 0x24]);
    assert_eq!(write(Command::SetOcp(140)), vec![0x0D, 0x08, 0xE7, 56]);
    assert_eq!(write(Command::SetOcp(2)), vec![0x0D, 0x08, 0xE7, 0]);
    assert_eq!(write(Command::FixSensitivity), vec![0x0D, 0x08, 0xAC, 0x96]);
    assert_eq!(
        write(Command::WriteRegister(0x0740, vec![0x34, 0x44])),
        vec![0x0D, 0x07, 0x40, 0x34, 0x44]
    );
    assert_eq!(
        Command::ReadRegister(0x08AC, 2).frame(),
        Frame::WriteRead(vec![0x1D, 0x08, 0xAC], 2)
    );
    assert_eq!(write(Command::WriteBuffer(0, vec![1, 2, 3])), vec![0x0E, 0x00, 1, 2, 3]);
    assert_eq!(write(Command::WriteBuffer(7, vec![])), vec![0x0E, 0x07]);
    assert_eq!(Command::ReadBuffer(5, 10).frame(), Frame::WriteRead(vec![0x1E, 5, 0x00], 10));
}

#[test]
fn query_command_frames() {
    assert_eq!(transfer(Command::GetStatus), vec![0xC0, 0x00]);
    assert_eq!(transfer(Command::GetStats), vec![0x10, 0, 0, 0, 0, 0, 0, 0]);
    assert_eq!(transfer(Command::GetDeviceErrors), vec![0x17, 0, 0, 0]);
    assert_eq!(transfer(Command::GetRxBufferStatus), vec![0x13, 0, 0, 0]);
    assert_eq!(Command::GetPacketStatus.frame(), Frame::WriteRead(vec![0x14, 0x00], 3));
}

#[test]
fn replies_are_decoded() {
    match decode_reply(&Command::GetIrqStatus, &[0xAA, 0x02, 0x03]) {
        Reply::Irq(s) => assert_eq!(s.to_u16(), 0x0203),
        other => panic!("{:?}", other),
    }
    match decode_reply(&Command::GetDeviceErrors, &[0xAA, 0xBB, 0x01, 0x00]) {
        Reply::Errors(e) => {
            assert_eq!(e.to_u16(), 0x0100);
            assert!(e.pa_ramp_err());
        }
        other => panic!("{:?}", other),
    }
    match decode_reply(&Command::GetRxBufferStatus, &[0xAA, 0xBB, 12, 34]) {
        Reply::RxBuffer(b) => {
            assert_eq!(b.payload_length_rx(), 12);
            assert_eq!(b.rx_start_buffer_pointer(), 34);
        }
        other => panic!("{:?}", other),
    }
    match decode_reply(&Command::GetStatus, &[0xAA, 0x2C]) {
        Reply::Status(s) => assert_eq!(s.to_u8(), 0x2C),
        other => panic!("{:?}", other),
    }
    match decode_reply(&Command::SetTx(RxTxTimeout::from_ms(1)), &[0x6C, 1, 2, 3]) {
        Reply::Status(s) => assert_eq!(s.to_u8(), 0x6C),
        other => panic!("{:?}", other),
    }
    match decode_reply(&Command::GetStats, &[0, 0x22, 0, 5, 0, 6, 1, 0]) {
        Reply::Stats(s) => {
            assert_eq!(s.status.to_u8(), 0x22);
            assert_eq!((s.rx_pkt, s.crc_error, s.header_error), (5, 6, 256));
        }
        other => panic!("{:?}", other),
    }
    match decode_reply(&Command::GetPacketStatus, &[120, 0xFC, 110]) {
        Reply::Packet(p) => assert_eq!((p.rssi_pkt(), p.snr_pkt(), p.signal_rssi_pkt()), (-120, -4, -110)),
        other => panic!("{:?}", other),
    }
    assert_eq!(decode_reply(&Command::ReadBuffer(0, 3), &[9, 8, 7]), Reply::Data(vec![9, 8, 7]));
    assert_eq!(decode_reply(&Command::SetFs, &[]), Reply::Done);
}

#[test]
fn bus_errors_follow_the_frame_kind() {
    assert_eq!(spi_error(&Command::SetFs.frame(), 3u8), SpiError::Write(3));
    assert_eq!(spi_error(&Command::GetStatus.frame(), 3u8), SpiError::Transfer(3));
    assert_eq!(spi_error(&Command::GetIrqStatus.frame(), 3u8), SpiError::Transfer(3));
}
