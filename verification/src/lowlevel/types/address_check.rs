//! Address check configuration.

use vstd::prelude::*;
use vstd::std_specs::convert::FromSpecImpl;
use crate::lowlevel::registers::ConfigField;
use crate::lowlevel::traits::lemma_low_mask_values;

verus! {

/// Address check configuration.
#[allow(non_camel_case_types)]
#[derive(Copy, Clone, Debug, PartialEq, Eq, Structural)]
pub enum AddressCheck {
    /// No address check.
    DISABLED,
    /// Address check, no broadcast.
    SELF,
    /// Address check and 0 (0x00) broadcast
    SELF_LOW_BROADCAST,
    /// Address check and 0 (0x00) and 255 (0xFF) broadcast.
    SELF_HIGH_LOW_BROADCAST,
}

impl AddressCheck {
    /// The code that the register field holds for this setting.
    pub open spec fn spec_value(self) -> u8 {
        match self {
            AddressCheck::DISABLED => 0x00,
            AddressCheck::SELF => 0x01,
            AddressCheck::SELF_LOW_BROADCAST => 0x02,
            AddressCheck::SELF_HIGH_LOW_BROADCAST => 0x03,
        }
    }

    /// See [`AddressCheck::spec_value`]. The code fits the field that takes it.
    #[verifier::when_used_as_spec(spec_value)]
    pub fn value(self) -> (v: u8)
        ensures
            v == self.spec_value(),
            v <= ConfigField::PKTCTRL1_ADR_CHK.spec_field().spec_max(),
    {
        proof {
            lemma_low_mask_values();
        }
        match self {
            AddressCheck::DISABLED => 0x00,
            AddressCheck::SELF => 0x01,
            AddressCheck::SELF_LOW_BROADCAST => 0x02,
            AddressCheck::SELF_HIGH_LOW_BROADCAST => 0x03,
        }
    }
}

impl From<AddressCheck> for u8 {
    fn from(value: AddressCheck) -> (v: u8) {
        value.value()
    }
}

impl FromSpecImpl<AddressCheck> for u8 {
    open spec fn obeys_from_spec() -> bool {
        true
    }

    open spec fn from_spec(value: AddressCheck) -> u8 {
        value.spec_value()
    }
}

} // verus!
