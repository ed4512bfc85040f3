//! The settings that one initialization applies.
use vstd::prelude::*;
use crate::calib::CalibParam;
use crate::irq::IrqMask;
use crate::modulation::ModParams;
use crate::packet::{PacketParams, PacketType};
use crate::rxtx::{PaConfig, TxParams};
use crate::tcxo::{TcxoDelay, TcxoVoltage};

verus! {

/// Every chip setting that initialization applies.
#[derive(Copy, Clone, Debug, PartialEq, Eq)]
pub struct Config {
    /// The packet type.
    pub packet_type: PacketType,
    /// The sync word (`0x3444` for public networks, `0x1424` for private ones).
    pub sync_word: u16,
    /// The calibrations to run.
    pub calib_param: CalibParam,
    /// The modulation parameters.
    pub mod_params: ModParams,
    /// The power amplifier settings.
    pub pa_config: PaConfig,
    /// The packet framing, or none to set it later.
    pub packet_params: Option<PacketParams>,
    /// The output power and ramp time.
    pub tx_params: TxParams,
    /// The interrupts routed to DIO1.
    pub dio1_irq_mask: IrqMask,
    /// The interrupts routed to DIO2.
    pub dio2_irq_mask: IrqMask,
    /// The interrupts routed to DIO3.
    pub dio3_irq_mask: IrqMask,
    /// The frequency register value (see `calc_rf_freq`).
    pub rf_freq: u32,
    /// The carrier frequency in Hz.
    pub rf_frequency: u32,
    /// The oscillator supply voltage and start-up delay, or none without such an oscillator.
    pub tcxo_opts: Option<(TcxoVoltage, TcxoDelay)>,
}

} // verus!
