//! Packet length configuration.

use vstd::prelude::*;
use vstd::std_specs::convert::FromSpecImpl;
use crate::lowlevel::registers::ConfigField;
use crate::lowlevel::traits::lemma_low_mask_values;

verus! {

/// Packet length configuration.
#[allow(non_camel_case_types)]
#[derive(Copy, Clone, Debug, PartialEq, Eq, Structural)]
pub enum LengthConfig {
    /// Fixed packet length mode. Length configured in PKTLEN register.
    FIXED,
    /// Variable packet length mode. Packet length configured by the first byte after sync word.
    VARIABLE,
    /// Infinite packet length mode.
    INFINITE,
}

impl LengthConfig {
    /// The code that the register field holds for this setting.
    pub open spec fn spec_value(self) -> u8 {
        match self {
            LengthConfig::FIXED => 0x00,
            LengthConfig::VARIABLE => 0x01,
            LengthConfig::INFINITE => 0x02,
        }
    }

    /// See [`LengthConfig::spec_value`]. The code fits the field that takes it.
    #[verifier::when_used_as_spec(spec_value)]
    pub fn value(self) -> (v: u8)
        ensures
            v == self.spec_value(),
            v <= ConfigField::PKTCTRL0_LENGTH_CONFIG.spec_field().spec_max(),
    {
        proof {
            lemma_low_mask_values();
        }
        match self {
            LengthConfig::FIXED => 0x00,
            LengthConfig::VARIABLE => 0x01,
            LengthConfig::INFINITE => 0x02,
        }
    }
}

impl From<LengthConfig> for u8 {
    fn from(value: LengthConfig) -> (v: u8) {
        value.value()
    }
}

impl FromSpecImpl<LengthConfig> for u8 {
    open spec fn obeys_from_spec() -> bool {
        true
    }

    open spec fn from_spec(value: LengthConfig) -> u8 {
        value.spec_value()
    }
}

} // verus!
