use sx126x::calib::{CalibImageFreq, CalibParam};
use sx126x::device_errors::DeviceErrors;
use sx126x::freq::calc_rf_freq;
use sx126x::irq::{IrqMask, IrqMaskBit, IrqStatus};
use sx126x::modulation::{LoRaBandWidth, LoRaSpreadFactor, LoraCodingRate, LoraModParams};
use sx126x::packet::{LoRaCrcType, LoRaHeaderType, LoRaInvertIq, LoRaPacketParams, PacketType};
use sx126x::rxtx::{DeviceSel, PaConfig, RampTime, RxBufferStatus, RxTxTimeout, TxParams};
use sx126x::status::{ChipMode, CommandStatus, PacketStatus, Stats, Status};
use sx126x::tcxo::{TcxoDelay, TcxoVoltage};

fn bit(v: u8, i: u8) -> bool {
    v & (1 << i) != 0
}

#[test]
fn calib_mask_round_trips_every_flag_combination() {
    for v in 0u8..128 {
        let f: Vec<bool> = (0..7).map(|i| bit(v, i)).collect();
        let p = CalibParam::new(f[0], f[1], f[2], f[3], f[4], f[5], f[6]);
        for i in 0..7u8 {
            assert_eq!(p.is_selected(i), f[i as usize]);
        }
        assert_eq!(p.to_u8(), v);
        assert_eq!(p.to_u8() & 0x80, 0);
    }
}

#[test]
fn calib_all_selects_seven_calibrations() {
    assert_eq!(CalibParam::all().to_u8(), 0x7F);
    assert_eq!(CalibParam::new(true, false, false, false, false, false, true).to_u8(), 0x41);
}

#[test]
fn calib_from_u8_drops_reserved_bit() {
    assert_eq!(CalibParam::from_u8(0xFF).to_u8(), 0x7F);
    assert_eq!(CalibParam::from_u8(0x85).to_u8(), 0x05);
}

#[test]
fn timeout_from_ms_counts_steps_of_15_625_us() {
    assert_eq!(RxTxTimeout::from_ms(0).to_bytes(), [0, 0, 0]);
    assert_eq!(RxTxTimeout::from_ms(1000).to_bytes(), [0, 0, 64]);
    assert_eq!(RxTxTimeout::from_ms(2000).to_bytes(), [0, 0, 0x80]);
    assert_eq!(RxTxTimeout::from_ms(5000).to_bytes(), [0, 0x01, 0x40]);
    assert_eq!(RxTxTimeout::from_ms(15).to_bytes(), [0, 0, 0]);
    assert_eq!(RxTxTimeout::from_ms(16).to_bytes(), [0, 0, 1]);
}

#[test]
fn timeout_from_ms_at_the_top_of_the_range() {
    assert_eq!(RxTxTimeout::from_ms(262_143_984).to_bytes(), [0xFF, 0xFF, 0xFE]);
}

#[test]
fn timeout_from_ms_keeps_24_bits_beyond_the_range() {
    assert_eq!(RxTxTimeout::from_ms(u32::MAX).to_bytes(), [0x62, 0x4D, 0xD2]);
}

#[test]
fn timeout_from_u32_keeps_the_three_high_bytes() {
    assert_eq!(RxTxTimeout::from_u32(0x1234_5678).to_bytes(), [0x12, 0x34, 0x56]);
    assert_eq!(RxTxTimeout::from_u32(0xFF).to_bytes(), [0, 0, 0]);
}

#[test]
fn continuous_rx_is_all_ones() {
    assert_eq!(RxTxTimeout::continuous_rx().to_bytes(), [0xFF, 0xFF, 0xFF]);
}

#[test]
fn tcxo_delay_from_ms() {
    assert_eq!(TcxoDelay::from_ms(5).to_bytes(), [0, 0, 0]);
    assert_eq!(TcxoDelay::from_ms(1000).to_bytes(), [0, 0, 64]);
    assert_eq!(TcxoDelay::from_ms(0x4_0000).to_bytes(), [0, 0x41, 0x89]);
    assert_eq!(TcxoDelay::from_ms(u32::MAX).to_bytes(), [0x62, 0x4D, 0xD2]);
    assert_eq!(TcxoDelay::from_bytes([1, 2, 3]).to_bytes(), [1, 2, 3]);
    assert_eq!(TcxoVoltage::Volt2_4.code(), 4);
    assert_eq!(TcxoVoltage::Volt3_3.code(), 7);
}

#[test]
fn image_band_for_868_mhz() {
    assert_eq!(CalibImageFreq::from_rf_frequency(868_000_000), CalibImageFreq::MHz863_870);
    assert_eq!(CalibImageFreq::from_rf_frequency(868_000_000).to_bytes(), [0xD7, 0xDB]);
}

#[test]
fn image_band_for_915_mhz() {
    assert_eq!(CalibImageFreq::from_rf_frequency(915_000_000), CalibImageFreq::MHz902_928);
    assert_eq!(CalibImageFreq::MHz902_928.to_bytes(), [0xE1, 0xE9]);
}

#[test]
fn image_band_for_433_mhz() {
    assert_eq!(CalibImageFreq::from_rf_frequency(433_000_000), CalibImageFreq::MHz430_440);
    assert_eq!(CalibImageFreq::MHz430_440.to_bytes(), [0x6B, 0x6F]);
}

#[test]
fn image_band_outside_all_bands_falls_back_to_902_928() {
    assert_eq!(CalibImageFreq::from_rf_frequency(600_000_000), CalibImageFreq::MHz902_928);
    assert_eq!(CalibImageFreq::from_rf_frequency(0), CalibImageFreq::MHz902_928);
    assert_eq!(CalibImageFreq::from_rf_frequency(4_000_000_000), CalibImageFreq::MHz902_928);
}

#[test]
fn image_band_for_500_mhz_is_inside_470_510() {
    assert_eq!(CalibImageFreq::from_rf_frequency(500_000_000), CalibImageFreq::MHz470_510);
}

#[test]
fn image_band_edges() {
    assert_eq!(CalibImageFreq::from_rf_frequency(870_999_999), CalibImageFreq::MHz863_870);
    assert_eq!(CalibImageFreq::from_rf_frequency(871_000_000), CalibImageFreq::MHz902_928);
    assert_eq!(CalibImageFreq::from_rf_frequency(779_000_000), CalibImageFreq::MHz779_787);
    assert_eq!(CalibImageFreq::from_rf_frequency(510_500_000), CalibImageFreq::MHz470_510);
    assert_eq!(CalibImageFreq::MHz779_787.to_bytes(), [0xC1, 0xC5]);
    assert_eq!(CalibImageFreq::MHz470_510.to_bytes(), [0x75, 0x81]);
}

#[test]
fn rf_freq_for_868_mhz_and_32_mhz_crystal() {
    assert_eq!(calc_rf_freq(868_000_000, 32_000_000), 910_163_968);
}

#[test]
fn rf_freq_other_carriers() {
    assert_eq!(calc_rf_freq(915_000_000, 32_000_000), 959_447_040);
    assert_eq!(calc_rf_freq(433_000_000, 32_000_000), 454_033_408);
}

#[test]
fn rf_freq_rounds_to_nearest() {
    assert_eq!(calc_rf_freq(1, 3), 11_184_811);
    assert_eq!(calc_rf_freq(2, 3), 22_369_621);
}

#[test]
fn status_decodes_mode_and_command_status() {
    let s = Status::from_u8(0x2C);
    assert_eq!(s.chip_mode(), Some(ChipMode::StbyRC));
    assert_eq!(s.command_status(), Some(CommandStatus::CommandTxDone));
    let s = Status::from_u8(0x54);
    assert_eq!(s.chip_mode(), Some(ChipMode::RX));
    assert_eq!(s.command_status(), Some(CommandStatus::DataAvailable));
    let s = Status::from_u8(0x6A);
    assert_eq!(s.chip_mode(), Some(ChipMode::TX));
    assert_eq!(s.command_status(), Some(CommandStatus::FailureToExecute));
}

#[test]
fn status_unknown_patterns_decode_to_none() {
    let s = Status::from_u8(0x00);
    assert_eq!(s.chip_mode(), None);
    assert_eq!(s.command_status(), None);
    let s = Status::from_u8(0x7E);
    assert_eq!(s.chip_mode(), None);
    assert_eq!(s.command_status(), None);
}

#[test]
fn stats_are_big_endian() {
    let s = Stats::from_bytes([0x22, 0x01, 0x02, 0x00, 0x03, 0xFF, 0x00]);
    assert_eq!(s.status.to_u8(), 0x22);
    assert_eq!(s.rx_pkt, 0x0102);
    assert_eq!(s.crc_error, 3);
    assert_eq!(s.header_error, 0xFF00);
}

#[test]
fn packet_status_in_fixed_point() {
    let p = PacketStatus::from_bytes([180, 0xF8, 100]);
    assert_eq!(p.rssi_pkt(), -180);
    assert_eq!(p.snr_pkt(), -8);
    assert_eq!(p.signal_rssi_pkt(), -100);
}

#[test]
fn irq_mask_builder() {
    assert_eq!(IrqMask::none().to_u16(), 0);
    assert_eq!(IrqMask::all().to_u16(), 0xFFFF);
    let m = IrqMask::none()
        .combine(IrqMaskBit::TxDone)
        .combine(IrqMaskBit::RxDone)
        .combine(IrqMaskBit::Timeout);
    assert_eq!(m.to_u16(), 0x0203);
    assert_eq!(IrqMask::default().to_u16(), 0);
    assert_eq!(IrqMask::none().combine(IrqMaskBit::Empty).to_u16(), 0);
    assert_eq!(IrqMask::none().combine(IrqMaskBit::All).to_u16(), 0xFFFF);
    assert_eq!(IrqMask::from_u16(0x0180).combine(IrqMaskBit::CrcErr).to_u16(), 0x01C0);
}

#[test]
fn irq_status_flags() {
    let s = IrqStatus::from_u16(0x0203);
    assert!(s.tx_done());
    assert!(s.rx_done());
    assert!(s.timeout());
    assert!(!s.preamble_detected());
    assert!(!s.syncword_valid());
    assert!(!s.header_valid());
    assert!(!s.header_error());
    assert!(!s.crc_err());
    assert!(!s.cad_done());
    assert!(!s.cad_detected());
    let s = IrqStatus::from_u16(0x01FC);
    assert!(!s.tx_done());
    assert!(!s.rx_done());
    assert!(s.preamble_detected());
    assert!(s.syncword_valid());
    assert!(s.header_valid());
    assert!(s.header_error());
    assert!(s.crc_err());
    assert!(s.cad_done());
    assert!(s.cad_detected());
    assert!(!s.timeout());
}

#[test]
fn device_error_flags() {
    let e = DeviceErrors::from_u16(0x0100);
    assert!(e.pa_ramp_err());
    assert!(!e.rc64k_calib_err());
    assert!(!e.pll_lock_err());
    let e = DeviceErrors::from_u16(0x007F);
    assert!(e.rc64k_calib_err());
    assert!(e.rc13m_calib_err());
    assert!(e.pll_calib_err());
    assert!(e.adc_calib_err());
    assert!(e.img_calib_err());
    assert!(e.xosc_start_err());
    assert!(e.pll_lock_err());
    assert!(!e.pa_ramp_err());
    let e = DeviceErrors::from_u16(0x0080);
    assert!(!e.pll_lock_err());
    assert!(!e.pa_ramp_err());
}

#[test]
fn modulation_bytes() {
    let d: LoraModParams = Default::default();
    assert_eq!(d.to_mod_params().to_bytes(), [7, 4, 1, 0, 0, 0, 0, 0]);
    let p = d
        .set_spread_factor(LoRaSpreadFactor::SF10)
        .set_bandwidth(LoRaBandWidth::BW41)
        .set_coding_rate(LoraCodingRate::CR4_6)
        .set_low_dr_opt(true);
    assert_eq!(p.to_mod_params().to_bytes(), [10, 0x0A, 2, 1, 0, 0, 0, 0]);
    assert_eq!(LoRaSpreadFactor::from_u8(12), LoRaSpreadFactor::SF12);
    assert_eq!(LoRaSpreadFactor::from_u8(5).code(), 5);
    assert_eq!(LoRaBandWidth::BW7.code(), 0);
    assert_eq!(LoRaBandWidth::BW500.code(), 6);
    assert_eq!(LoraCodingRate::CR4_8.code(), 4);
}

#[test]
fn packet_framing_bytes() {
    let d: LoRaPacketParams = Default::default();
    assert_eq!(d.to_packet_params().to_bytes(), [0, 8, 0, 0xFF, 0, 0, 0, 0, 0]);
    let p = d
        .set_preamble_len(0x1234)
        .set_header_type(LoRaHeaderType::FixedLen)
        .set_payload_len(42)
        .set_crc_type(LoRaCrcType::CrcOn)
        .set_invert_iq(LoRaInvertIq::Inverted);
    assert_eq!(p.to_packet_params().to_bytes(), [0x12, 0x34, 1, 42, 1, 1, 0, 0, 0]);
    assert_eq!(PacketType::LoRa.code(), 1);
    assert_eq!(PacketType::GFSK.code(), 0);
}

#[test]
fn tx_params_bytes() {
    let d: TxParams = Default::default();
    assert_eq!(d.to_bytes(), [0, 0]);
    assert_eq!(d.set_power_dbm(22).set_ramp_time(RampTime::Ramp200u).to_bytes(), [22, 4]);
    assert_eq!(d.set_power_dbm(-17).set_ramp_time(RampTime::Ramp3400u).to_bytes(), [0xEF, 7]);
}

#[test]
fn pa_config_bytes() {
    let d: PaConfig = Default::default();
    assert_eq!(d.to_bytes(), [0, 0, 0, 1]);
    let p = d.set_pa_duty_cycle(4).set_hp_max(7).set_device_sel(DeviceSel::SX1261);
    assert_eq!(p.to_bytes(), [4, 7, 1, 1]);
}

#[test]
fn rx_buffer_status_fields() {
    let b = RxBufferStatus::from_bytes([12, 200]);
    assert_eq!(b.payload_length_rx(), 12);
    assert_eq!(b.rx_start_buffer_pointer(), 200);
}
