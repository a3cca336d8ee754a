//! Target amplitude from channel filter.

use vstd::prelude::*;
use vstd::std_specs::convert::FromSpecImpl;
use crate::lowlevel::registers::ConfigField;
use crate::lowlevel::traits::lemma_low_mask_values;

verus! {

/// Target amplitude from channel filter.
#[derive(Copy, Clone, Debug, PartialEq, Eq, Structural)]
pub enum TargetAmplitude {
    /// 24 dB
    Db24,
    /// 27 dB
    Db27,
    /// 30 dB
    Db30,
    /// 33 dB
    Db33,
    /// 36 dB
    Db36,
    /// 38 dB
    Db38,
    /// 40 dB
    Db40,
    /// 42 dB
    Db42,
}

impl TargetAmplitude {
    /// The code that the register field holds for this setting.
    pub open spec fn spec_value(self) -> u8 {
        match self {
            TargetAmplitude::Db24 => 0x00,
            TargetAmplitude::Db27 => 0x01,
            TargetAmplitude::Db30 => 0x02,
            TargetAmplitude::Db33 => 0x03,
            TargetAmplitude::Db36 => 0x04,
            TargetAmplitude::Db38 => 0x05,
            TargetAmplitude::Db40 => 0x06,
            TargetAmplitude::Db42 => 0x07,
        }
    }

    /// See [`TargetAmplitude::spec_value`]. The code fits the field that takes it.
    #[verifier::when_used_as_spec(spec_value)]
    pub fn value(self) -> (v: u8)
        ensures
            v == self.spec_value(),
            v <= ConfigField::AGCCTRL2_MAGN_TARGET.spec_field().spec_max(),
    {
        proof {
            lemma_low_mask_values();
        }
        match self {
            TargetAmplitude::Db24 => 0x00,
            TargetAmplitude::Db27 => 0x01,
            TargetAmplitude::Db30 => 0x02,
            TargetAmplitude::Db33 => 0x03,
            TargetAmplitude::Db36 => 0x04,
            TargetAmplitude::Db38 => 0x05,
            TargetAmplitude::Db40 => 0x06,
            TargetAmplitude::Db42 => 0x07,
        }
    }
}

impl From<TargetAmplitude> for u8 {
    fn from(value: TargetAmplitude) -> (v: u8) {
        value.value()
    }
}

impl FromSpecImpl<TargetAmplitude> for u8 {
    open spec fn obeys_from_spec() -> bool {
        true
    }

    open spec fn from_spec(value: TargetAmplitude) -> u8 {
        value.spec_value()
    }
}

} // verus!
