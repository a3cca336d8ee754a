//! Sync word qualifier mode configuration.

use vstd::prelude::*;
use vstd::std_specs::convert::FromSpecImpl;
use crate::lowlevel::registers::ConfigField;
use crate::lowlevel::traits::lemma_low_mask_values;

verus! {

/// Sync word qualifier mode configuration.
#[allow(non_camel_case_types)]
#[derive(Copy, Clone, Debug, PartialEq, Eq, Structural)]
pub enum SyncCheck {
    /// No preamble/sync.
    DISABLED,
    /// 15/16 sync word bits detected.
    CHECK_15_16,
    /// 16/16 sync word bits detected.
    CHECK_16_16,
    /// 30/32 sync word bits detected.
    CHECK_30_32,
    /// No preamble/sync, carrier-sense above threshold.
    CHECK_0_0_CS,
    /// 15/16 + carrier-sense above threshold.
    CHECK_15_16_CS,
    /// 16/16 + carrier-sense above threshold.
    CHECK_16_16_CS,
    /// 30/32 + carrier-sense above threshold.
    CHECK_30_32_CS,
}

impl SyncCheck {
    /// The code that the register field holds for this setting.
    pub open spec fn spec_value(self) -> u8 {
        match self {
            SyncCheck::DISABLED => 0x00,
            SyncCheck::CHECK_15_16 => 0x01,
            SyncCheck::CHECK_16_16 => 0x02,
            SyncCheck::CHECK_30_32 => 0x03,
            SyncCheck::CHECK_0_0_CS => 0x04,
            SyncCheck::CHECK_15_16_CS => 0x05,
            SyncCheck::CHECK_16_16_CS => 0x06,
            SyncCheck::CHECK_30_32_CS => 0x07,
        }
    }

    /// See [`SyncCheck::spec_value`]. The code fits the field that takes it.
    #[verifier::when_used_as_spec(spec_value)]
    pub fn value(self) -> (v: u8)
        ensures
            v == self.spec_value(),
            v <= ConfigField::MDMCFG2_SYNC_MODE.spec_field().spec_max(),
    {
        proof {
            lemma_low_mask_values();
        }
        match self {
            SyncCheck::DISABLED => 0x00,
            SyncCheck::CHECK_15_16 => 0x01,
            SyncCheck::CHECK_16_16 => 0x02,
            SyncCheck::CHECK_30_32 => 0x03,
            SyncCheck::CHECK_0_0_CS => 0x04,
            SyncCheck::CHECK_15_16_CS => 0x05,
            SyncCheck::CHECK_16_16_CS => 0x06,
            SyncCheck::CHECK_30_32_CS => 0x07,
        }
    }
}

impl From<SyncCheck> for u8 {
    fn from(value: SyncCheck) -> (v: u8) {
        value.value()
    }
}

impl FromSpecImpl<SyncCheck> for u8 {
    open spec fn obeys_from_spec() -> bool {
        true
    }

    open spec fn from_spec(value: SyncCheck) -> u8 {
        value.spec_value()
    }
}

} // verus!
