//! Number of preamble bytes.

use vstd::prelude::*;
use vstd::std_specs::convert::FromSpecImpl;
use crate::lowlevel::registers::ConfigField;
use crate::lowlevel::traits::lemma_low_mask_values;

verus! {

/// Number of preamble bytes.
#[derive(Copy, Clone, Debug, PartialEq, Eq, Structural)]
pub enum NumPreamble {
    /// 2 preamble bytes
    Two,
    /// 3 preamble bytes
    Three,
    /// 4 preamble bytes
    Four,
    /// 6 preamble bytes
    Six,
    /// 8 preamble bytes
    Eight,
    /// 12 preamble bytes
    Twelve,
    /// 16 preamble bytes
    Sixteen,
    /// 24 preamble bytes
    TwentyFour,
}

impl NumPreamble {
    /// The code that the register field holds for this setting.
    pub open spec fn spec_value(self) -> u8 {
        match self {
            NumPreamble::Two => 0x00,
            NumPreamble::Three => 0x01,
            NumPreamble::Four => 0x02,
            NumPreamble::Six => 0x03,
            NumPreamble::Eight => 0x04,
            NumPreamble::Twelve => 0x05,
            NumPreamble::Sixteen => 0x06,
            NumPreamble::TwentyFour => 0x07,
        }
    }

    /// See [`NumPreamble::spec_value`]. The code fits the field that takes it.
    #[verifier::when_used_as_spec(spec_value)]
    pub fn value(self) -> (v: u8)
        ensures
            v == self.spec_value(),
            v <= ConfigField::MDMCFG1_NUM_PREAMBLE.spec_field().spec_max(),
    {
        proof {
            lemma_low_mask_values();
        }
        match self {
            NumPreamble::Two => 0x00,
            NumPreamble::Three => 0x01,
            NumPreamble::Four => 0x02,
            NumPreamble::Six => 0x03,
            NumPreamble::Eight => 0x04,
            NumPreamble::Twelve => 0x05,
            NumPreamble::Sixteen => 0x06,
            NumPreamble::TwentyFour => 0x07,
        }
    }
}

impl From<NumPreamble> for u8 {
    fn from(value: NumPreamble) -> (v: u8) {
        value.value()
    }
}

impl FromSpecImpl<NumPreamble> for u8 {
    open spec fn obeys_from_spec() -> bool {
        true
    }

    open spec fn from_spec(value: NumPreamble) -> u8 {
        value.spec_value()
    }
}

} // verus!
