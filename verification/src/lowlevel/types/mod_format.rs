//! Modulation format.

use vstd::prelude::*;
use vstd::std_specs::convert::FromSpecImpl;
use crate::lowlevel::registers::ConfigField;
use crate::lowlevel::traits::lemma_low_mask_values;

verus! {

/// Modulation format.
#[derive(Copy, Clone, Debug, PartialEq, Eq, Structural)]
pub enum ModulationFormat {
    /// 2-FSK.
    BinaryFrequencyShiftKeying,
    /// GFSK.
    GaussianFrequencyShiftKeying,
    /// ASK / OOK.
    AmplitudeShiftOnOffKeying,
    /// 4-FSK.
    QuaternaryFrequencyShiftKeying,
    /// MSK.
    MinimumShiftKeying,
}

impl ModulationFormat {
    /// The code that the register field holds for this setting.
    pub open spec fn spec_value(self) -> u8 {
        match self {
            ModulationFormat::BinaryFrequencyShiftKeying => 0x00,
            ModulationFormat::GaussianFrequencyShiftKeying => 0x01,
            ModulationFormat::AmplitudeShiftOnOffKeying => 0x03,
            ModulationFormat::QuaternaryFrequencyShiftKeying => 0x04,
            ModulationFormat::MinimumShiftKeying => 0x07,
        }
    }

    /// See [`ModulationFormat::spec_value`]. The code fits the field that takes it.
    #[verifier::when_used_as_spec(spec_value)]
    pub fn value(self) -> (v: u8)
        ensures
            v == self.spec_value(),
            v <= ConfigField::MDMCFG2_MOD_FORMAT.spec_field().spec_max(),
    {
        proof {
            lemma_low_mask_values();
        }
        match self {
            ModulationFormat::BinaryFrequencyShiftKeying => 0x00,
            ModulationFormat::GaussianFrequencyShiftKeying => 0x01,
            ModulationFormat::AmplitudeShiftOnOffKeying => 0x03,
            ModulationFormat::QuaternaryFrequencyShiftKeying => 0x04,
            ModulationFormat::MinimumShiftKeying => 0x07,
        }
    }
}

impl From<ModulationFormat> for u8 {
    fn from(value: ModulationFormat) -> (v: u8) {
        value.value()
    }
}

impl FromSpecImpl<ModulationFormat> for u8 {
    open spec fn obeys_from_spec() -> bool {
        true
    }

    open spec fn from_spec(value: ModulationFormat) -> u8 {
        value.spec_value()
    }
}

} // verus!
