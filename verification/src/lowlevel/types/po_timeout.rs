//! Programs the number of times the six-bit ripple counter must expire after
//! XOSC has stabilized before CHP_RDYn goes low.

use vstd::prelude::*;
use vstd::std_specs::convert::FromSpecImpl;
use crate::lowlevel::registers::ConfigField;
use crate::lowlevel::traits::lemma_low_mask_values;

verus! {

/// Programs the number of times the six-bit ripple counter must expire after
/// XOSC has stabilized before CHP_RDYn goes low.
#[allow(non_camel_case_types)]
#[derive(Copy, Clone, Debug, PartialEq, Eq, Structural)]
pub enum PoTimeout {
    /// Approx. 2.3 – 2.4 μs.
    EXPIRE_COUNT_1,
    /// Approx. 37 – 39 μs.
    EXPIRE_COUNT_16,
    /// Approx. 149 – 155 μs.
    EXPIRE_COUNT_64,
    /// Approx. 597 – 620 μs.
    EXPIRE_COUNT_256,
}

impl PoTimeout {
    /// The code that the register field holds for this setting.
    pub open spec fn spec_value(self) -> u8 {
        match self {
            PoTimeout::EXPIRE_COUNT_1 => 0x00,
            PoTimeout::EXPIRE_COUNT_16 => 0x01,
            PoTimeout::EXPIRE_COUNT_64 => 0x02,
            PoTimeout::EXPIRE_COUNT_256 => 0x03,
        }
    }

    /// See [`PoTimeout::spec_value`]. The code fits the field that takes it.
    #[verifier::when_used_as_spec(spec_value)]
    pub fn value(self) -> (v: u8)
        ensures
            v == self.spec_value(),
            v <= ConfigField::MCSM0_PO_TIMEOUT.spec_field().spec_max(),
    {
        proof {
            lemma_low_mask_values();
        }
        match self {
            PoTimeout::EXPIRE_COUNT_1 => 0x00,
            PoTimeout::EXPIRE_COUNT_16 => 0x01,
            PoTimeout::EXPIRE_COUNT_64 => 0x02,
            PoTimeout::EXPIRE_COUNT_256 => 0x03,
        }
    }
}

impl From<PoTimeout> for u8 {
    fn from(value: PoTimeout) -> (v: u8) {
        value.value()
    }
}

impl FromSpecImpl<PoTimeout> for u8 {
    open spec fn obeys_from_spec() -> bool {
        true
    }

    open spec fn from_spec(value: PoTimeout) -> u8 {
        value.spec_value()
    }
}

} // verus!
