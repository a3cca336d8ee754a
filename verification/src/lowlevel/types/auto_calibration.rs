//! Configure what state transitions result in auto-calibration.

use vstd::prelude::*;
use vstd::std_specs::convert::FromSpecImpl;
use crate::lowlevel::registers::ConfigField;
use crate::lowlevel::traits::lemma_low_mask_values;

verus! {

/// Configure what state transitions result in auto-calibration.
#[derive(Copy, Clone, Debug, PartialEq, Eq, Structural)]
pub enum AutoCalibration {
    /// Never (manually calibrate using SCAL strobe).
    Disabled,
    /// When going from IDLE to RX or TX (or FSTXON).
    FromIdle,
    /// When going from RX or TX back to IDLE automatically.
    ToIdle,
    /// Every 4th time when going from RX or TX to IDLE automatically.
    ToIdleEvery4th,
}

impl AutoCalibration {
    /// The code that the register field holds for this setting.
    pub open spec fn spec_value(self) -> u8 {
        match self {
            AutoCalibration::Disabled => 0x00,
            AutoCalibration::FromIdle => 0x01,
            AutoCalibration::ToIdle => 0x02,
            AutoCalibration::ToIdleEvery4th => 0x03,
        }
    }

    /// See [`AutoCalibration::spec_value`]. The code fits the field that takes it.
    #[verifier::when_used_as_spec(spec_value)]
    pub fn value(self) -> (v: u8)
        ensures
            v == self.spec_value(),
            v <= ConfigField::MCSM0_FS_AUTOCAL.spec_field().spec_max(),
    {
        proof {
            lemma_low_mask_values();
        }
        match self {
            AutoCalibration::Disabled => 0x00,
            AutoCalibration::FromIdle => 0x01,
            AutoCalibration::ToIdle => 0x02,
            AutoCalibration::ToIdleEvery4th => 0x03,
        }
    }
}

impl From<AutoCalibration> for u8 {
    fn from(value: AutoCalibration) -> (v: u8) {
        value.value()
    }
}

impl FromSpecImpl<AutoCalibration> for u8 {
    open spec fn obeys_from_spec() -> bool {
        true
    }

    open spec fn from_spec(value: AutoCalibration) -> u8 {
        value.spec_value()
    }
}

} // verus!
