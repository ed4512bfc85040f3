//! Standby modes.
use vstd::prelude::*;

verus! {

/// The oscillator that runs in standby.
#[derive(Copy, Clone, Debug, PartialEq, Eq, Structural)]
pub enum StandbyConfig {
    /// The 13 MHz RC oscillator.
    StbyRc,
    /// The crystal oscillator.
    StbyXOSC,
}

impl StandbyConfig {
    /// The standby code.
    pub open spec fn spec_code(self) -> u8 {
        match self {
            StandbyConfig::StbyRc => 0,
            StandbyConfig::StbyXOSC => 1,
        }
    }

    /// The standby code.
    pub fn code(self) -> (r: u8)
        ensures
            r == self.spec_code(),
    {
        match self {
            StandbyConfig::StbyRc => 0,
            StandbyConfig::StbyXOSC => 1,
        }
    }
}

} // verus!
