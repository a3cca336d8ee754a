//! Clear Channel Assessment Mode.

use vstd::prelude::*;
use vstd::std_specs::convert::FromSpecImpl;
use crate::lowlevel::registers::ConfigField;
use crate::lowlevel::traits::lemma_low_mask_values;

verus! {

/// Clear Channel Assessment Mode.
#[derive(Copy, Clone, Debug, PartialEq, Eq, Structural)]
pub enum CcaMode {
    /// Clear channel indication: Always
    CciAlways,
    /// Clear channel indication: If RSSI below threshold
    CciRssiBelowThreshold,
    /// Clear channel indication: Unless currently receiving a packet
    CciUnlessCurrentlyReceivingPacket,
    /// Clear channel indication: If RSSI below threshold unless currently receiving a packet
    CciRssiBelowThresholdUnlessCurrentlyReceivingPacket,
}

impl CcaMode {
    /// The code that the register field holds for this setting.
    pub open spec fn spec_value(self) -> u8 {
        match self {
            CcaMode::CciAlways => 0x00,
            CcaMode::CciRssiBelowThreshold => 0x01,
            CcaMode::CciUnlessCurrentlyReceivingPacket => 0x02,
            CcaMode::CciRssiBelowThresholdUnlessCurrentlyReceivingPacket => 0x03,
        }
    }

    /// See [`CcaMode::spec_value`]. The code fits the field that takes it.
    #[verifier::when_used_as_spec(spec_value)]
    pub fn value(self) -> (v: u8)
        ensures
            v == self.spec_value(),
            v <= ConfigField::MCSM1_CCA_MODE.spec_field().spec_max(),
    {
        proof {
            lemma_low_mask_values();
        }
        match self {
            CcaMode::CciAlways => 0x00,
            CcaMode::CciRssiBelowThreshold => 0x01,
            CcaMode::CciUnlessCurrentlyReceivingPacket => 0x02,
            CcaMode::CciRssiBelowThresholdUnlessCurrentlyReceivingPacket => 0x03,
        }
    }
}

impl From<CcaMode> for u8 {
    fn from(value: CcaMode) -> (v: u8) {
        value.value()
    }
}

impl FromSpecImpl<CcaMode> for u8 {
    open spec fn obeys_from_spec() -> bool {
        true
    }

    open spec fn from_spec(value: CcaMode) -> u8 {
        value.spec_value()
    }
}

} // verus!
