//! The radio settings of a long-range link and the modem configuration they give.
use vstd::prelude::*;
use crate::action::{Action, Step};
use crate::calib::CalibParam;
use crate::command::Command;
use crate::reply::Reply;
use crate::conf::Config;
use crate::freq::{calc_rf_freq, rf_freq_value};
use crate::irq::{IrqMask, IrqMaskBit};
use crate::modulation::{LoRaBandWidth, LoRaSpreadFactor, LoraCodingRate, LoraModParams};
use crate::packet::{LoRaCrcType, LoRaHeaderType, LoRaInvertIq, LoRaPacketParams, PacketType};
use crate::rxtx::{DeviceSel, PaConfig, RampTime, TxParams};
use crate::bytes::be24;
use crate::tcxo::{tcxo_steps, TcxoDelay, TcxoVoltage};

verus! {

/// The carrier frequency, in Hz.
pub const CARRIER_HZ: u32 = 868_000_000;

/// The crystal frequency, in Hz.
pub const XTAL_HZ: u32 = 32_000_000;

/// The preamble length of sent and expected packets, in symbols.
pub const PREAMBLE_LEN: u16 = 15;

/// The output power, in dBm.
pub const TX_POWER_DBM: i8 = 22;

/// How long the oscillator takes to start, in milliseconds.
pub const TCXO_STARTUP_MS: u32 = 5;

/// How long a transmission may take, in milliseconds.
pub const SEND_TIMEOUT_MS: u32 = 2000;

/// How long the receiver listens, in milliseconds.
pub const RECEIVE_TIMEOUT_MS: u32 = 5000;

/// The over-current limit set after initialization, in mA.
pub const OCP_LIMIT_MA: u8 = 140;

/// The settings of the link that a user chooses.
#[derive(Copy, Clone, Debug, PartialEq, Eq, Structural)]
pub struct LoraConfig {
    /// The spreading factor.
    pub spreading_factor: LoRaSpreadFactor,
    /// The bandwidth.
    pub bandwidth: LoRaBandWidth,
    /// The coding rate.
    pub coding_rate: LoraCodingRate,
    /// The power amplifier duty cycle.
    pub pa_duty_cycle: u8,
    /// The size of the high-power amplifier.
    pub hp_max: u8,
    /// The sync word.
    pub sync_word: u16,
}

impl Default for LoraConfig {
    fn default() -> (r: Self)
        ensures
            r == (LoraConfig {
                spreading_factor: LoRaSpreadFactor::SF10,
                bandwidth: LoRaBandWidth::BW125,
                coding_rate: LoraCodingRate::CR4_6,
                pa_duty_cycle: 0x04,
                hp_max: 0x07,
                sync_word: 0x1424,
            }),
    {
        LoraConfig {
            spreading_factor: LoRaSpreadFactor::SF10,
            bandwidth: LoRaBandWidth::BW125,
            coding_rate: LoraCodingRate::CR4_6,
            pa_duty_cycle: 0x04,
            hp_max: 0x07,
            sync_word: 0x1424,
        }
    }
}

impl LoraConfig {
    /// The modem configuration for these settings: LoRa packets, every
    /// calibration, the chosen modulation (low data rate optimization off),
    /// the chosen amplifier for an SX1262, framing with a 15-symbol preamble,
    /// explicit header, 255-byte payload, no CRC and standard IQ, +22 dBm with
    /// a 200 µs ramp, transmit-done, receive-done and timeout routed to DIO1,
    /// a carrier of 868 MHz from a 32 MHz crystal, and the oscillator on DIO3
    /// at 2.4 V with a 5 ms start-up.
    pub fn modem_config(&self) -> (r: Config)
        ensures
            r.packet_type == PacketType::LoRa,
            r.sync_word == self.sync_word,
            r.calib_param.mask() == 0x7F,
            r.mod_params.bytes() == seq![
                self.spreading_factor.spec_code(),
                self.bandwidth.spec_code(),
                self.coding_rate.spec_code(),
                0u8,
                0u8,
                0u8,
                0u8,
                0u8,
            ],
            r.pa_config.spec_bytes() == seq![self.pa_duty_cycle, self.hp_max, 0u8, 1u8],
            r.packet_params == Some(
                (LoRaPacketParams {
                    preamble_len: PREAMBLE_LEN,
                    header_type: LoRaHeaderType::VarLen,
                    payload_len: 0xFF,
                    crc_type: LoRaCrcType::CrcOff,
                    invert_iq: LoRaInvertIq::Standard,
                }).spec_packet_params(),
            ),
            r.tx_params.spec_bytes() == seq![TX_POWER_DBM as u8, RampTime::Ramp200u.spec_code()],
            r.dio1_irq_mask.word() == 0x0203,
            r.dio2_irq_mask.word() == 0,
            r.dio3_irq_mask.word() == 0,
            r.rf_freq == rf_freq_value(CARRIER_HZ as int, XTAL_HZ as int),
            r.rf_frequency == CARRIER_HZ,
            r.tcxo_opts is Some,
            r.tcxo_opts->Some_0.0 == TcxoVoltage::Volt2_4,
            r.tcxo_opts->Some_0.1.bytes() == be24(tcxo_steps(TCXO_STARTUP_MS as int)),
    {
        let mod_params = <LoraModParams as Default>::default().set_spread_factor(self.spreading_factor).set_bandwidth(
            self.bandwidth,
        ).set_coding_rate(self.coding_rate);
        let pa_config = <PaConfig as Default>::default().set_pa_duty_cycle(self.pa_duty_cycle).set_hp_max(
            self.hp_max,
        ).set_device_sel(DeviceSel::SX1262);
        let dio1_irq_mask = IrqMask::none().combine(IrqMaskBit::TxDone).combine(
            IrqMaskBit::RxDone,
        ).combine(IrqMaskBit::Timeout);
        let framing = LoRaPacketParams {
            preamble_len: PREAMBLE_LEN,
            header_type: LoRaHeaderType::VarLen,
            payload_len: 0xFF,
            crc_type: LoRaCrcType::CrcOff,
            invert_iq: LoRaInvertIq::Standard,
        };
        assert(((0u16 | 0x0001u16) | 0x0002u16) | 0x0200u16 == 0x0203u16) by (bit_vector);
        assert(rf_freq_value(CARRIER_HZ as int, XTAL_HZ as int) == 910163968);
        Config {
            packet_type: PacketType::LoRa,
            sync_word: self.sync_word,
            calib_param: CalibParam::all(),
            mod_params: mod_params.to_mod_params(),
            pa_config,
            packet_params: Some(framing.to_packet_params()),
            tx_params: <TxParams as Default>::default().set_power_dbm(TX_POWER_DBM).set_ramp_time(
                RampTime::Ramp200u,
            ),
            dio1_irq_mask,
            dio2_irq_mask: IrqMask::none(),
            dio3_irq_mask: IrqMask::none(),
            rf_freq: calc_rf_freq(CARRIER_HZ, XTAL_HZ),
            rf_frequency: CARRIER_HZ,
            tcxo_opts: Some((TcxoVoltage::Volt2_4, TcxoDelay::from_ms(TCXO_STARTUP_MS))),
        }
    }
}

/// Where the end of link initialization stands.
pub enum LinkSetupStage<E> {
    /// Reading the status, with the result of the modem initialization.
    ReadingStatus(Result<(), E>),
    /// Setting the over-current limit, with the result of the modem initialization.
    SettingOcp(Result<(), E>),
    /// The result has been handed out.
    Done,
}

/// What follows the modem initialization of a link: the status is read (for
/// diagnostics only; its outcome is dropped), then the over-current limit is
/// set, whether or not the initialization succeeded. A failure to set the
/// limit is reported; otherwise the initialization's own result is.
pub struct LinkSetup<E> {
    /// Where it stands.
    pub stage: LinkSetupStage<E>,
}

impl<E> LinkSetup<E> {
    /// The stage and step that follow the outcome of the pending action.
    pub open spec fn next(self, outcome: Result<Reply, E>) -> (Self, Step<(), E>) {
        match self.stage {
            LinkSetupStage::ReadingStatus(init) => (
                LinkSetup { stage: LinkSetupStage::SettingOcp(init) },
                Step::Do(Action::Run(Command::SetOcp(OCP_LIMIT_MA))),
            ),
            LinkSetupStage::SettingOcp(init) => (
                LinkSetup { stage: LinkSetupStage::Done },
                Step::Finish(
                    match outcome {
                        Err(e) => Err(e),
                        Ok(_) => init,
                    },
                ),
            ),
            LinkSetupStage::Done => (self, Step::Finish(Ok(()))),
        }
    }

    /// Starts after a modem initialization that gave `init`; the first
    /// action reads the status.
    pub fn start(init: Result<(), E>) -> (r: (Self, Step<(), E>))
        ensures
            r.0.stage == LinkSetupStage::ReadingStatus(init),
            r.1 == Step::<(), E>::Do(Action::Run(Command::GetStatus)),
    {
        (
            LinkSetup { stage: LinkSetupStage::ReadingStatus(init) },
            Step::Do(Action::Run(Command::GetStatus)),
        )
    }

    /// Takes the outcome of the pending action and gives the next step.
    pub fn step(self, outcome: Result<Reply, E>) -> (r: (Self, Step<(), E>))
        requires
            !(self.stage is Done),
        ensures
            r == self.next(outcome),
    {
        match self.stage {
            LinkSetupStage::ReadingStatus(init) => (
                LinkSetup { stage: LinkSetupStage::SettingOcp(init) },
                Step::Do(Action::Run(Command::SetOcp(OCP_LIMIT_MA))),
            ),
            LinkSetupStage::SettingOcp(init) => {
                let result = match outcome {
                    Err(e) => Err(e),
                    Ok(_) => init,
                };
                (LinkSetup { stage: LinkSetupStage::Done }, Step::Finish(result))
            },
            LinkSetupStage::Done => (LinkSetup { stage: LinkSetupStage::Done }, Step::Finish(Ok(()))),
        }
    }
}

} // verus!
