//! Filter length for frequency and amplitude modulations.

use vstd::prelude::*;
use vstd::std_specs::convert::FromSpecImpl;
use crate::lowlevel::registers::ConfigField;
use crate::lowlevel::traits::lemma_low_mask_values;

verus! {

/// Channel filter samples.
/// 2-FSK, 4-FSK, MSK: Sets the averaging length for the amplitude from the channel filter.
#[derive(Copy, Clone, Debug, PartialEq, Eq, Structural)]
pub enum ChannelFilterSamples {
    /// 8 samples
    Samples8,
    /// 16 samples
    Samples16,
    /// 32 samples
    Samples32,
    /// 64 samples
    Samples64,
}

impl ChannelFilterSamples {
    /// The code that the register field holds for this setting.
    pub open spec fn spec_value(self) -> u8 {
        match self {
            ChannelFilterSamples::Samples8 => 0x00,
            ChannelFilterSamples::Samples16 => 0x01,
            ChannelFilterSamples::Samples32 => 0x02,
            ChannelFilterSamples::Samples64 => 0x03,
        }
    }

    /// See [`ChannelFilterSamples::spec_value`]. The code fits the field that takes it.
    #[verifier::when_used_as_spec(spec_value)]
    pub fn value(self) -> (v: u8)
        ensures
            v == self.spec_value(),
            v <= ConfigField::AGCCTRL0_FILTER_LENGTH.spec_field().spec_max(),
    {
        proof {
            lemma_low_mask_values();
        }
        match self {
            ChannelFilterSamples::Samples8 => 0x00,
            ChannelFilterSamples::Samples16 => 0x01,
            ChannelFilterSamples::Samples32 => 0x02,
            ChannelFilterSamples::Samples64 => 0x03,
        }
    }
}

impl From<ChannelFilterSamples> for u8 {
    fn from(value: ChannelFilterSamples) -> (v: u8) {
        value.value()
    }
}

impl FromSpecImpl<ChannelFilterSamples> for u8 {
    open spec fn obeys_from_spec() -> bool {
        true
    }

    open spec fn from_spec(value: ChannelFilterSamples) -> u8 {
        value.spec_value()
    }
}

/// OOK/ASK decision boundary.
/// ASK, OOK: Sets the OOK/ASK decision boundary for OOK/ASK reception.
#[derive(Copy, Clone, Debug, PartialEq, Eq, Structural)]
pub enum DecisionBoundary {
    /// 4 dB
    Db4,
    /// 8 dB
    Db8,
    /// 12 dB
    Db12,
    /// 16 dB
    Db16,
}

impl DecisionBoundary {
    /// The code that the register field holds for this setting.
    pub open spec fn spec_value(self) -> u8 {
        match self {
            DecisionBoundary::Db4 => 0x00,
            DecisionBoundary::Db8 => 0x01,
            DecisionBoundary::Db12 => 0x02,
            DecisionBoundary::Db16 => 0x03,
        }
    }

    /// See [`DecisionBoundary::spec_value`]. The code fits the field that takes it.
    #[verifier::when_used_as_spec(spec_value)]
    pub fn value(self) -> (v: u8)
        ensures
            v == self.spec_value(),
            v <= ConfigField::AGCCTRL0_FILTER_LENGTH.spec_field().spec_max(),
    {
        proof {
            lemma_low_mask_values();
        }
        match self {
            DecisionBoundary::Db4 => 0x00,
            DecisionBoundary::Db8 => 0x01,
            DecisionBoundary::Db12 => 0x02,
            DecisionBoundary::Db16 => 0x03,
        }
    }
}

impl From<DecisionBoundary> for u8 {
    fn from(value: DecisionBoundary) -> (v: u8) {
        value.value()
    }
}

impl FromSpecImpl<DecisionBoundary> for u8 {
    open spec fn obeys_from_spec() -> bool {
        true
    }

    open spec fn from_spec(value: DecisionBoundary) -> u8 {
        value.spec_value()
    }
}

/// Filter length for frequency and amplitude modulations.
#[derive(Copy, Clone, Debug, PartialEq, Eq, Structural)]
pub enum FilterLength {
    FrequencyModulation(ChannelFilterSamples),
    AmplitudeModulation(DecisionBoundary),
}

impl FilterLength {
    /// The code that the register field holds for this setting: that of
    /// the setting inside.
    pub open spec fn spec_value(self) -> u8 {
        match self {
            FilterLength::FrequencyModulation(inner) => inner.spec_value(),
            FilterLength::AmplitudeModulation(inner) => inner.spec_value(),
        }
    }

    /// See [`FilterLength::spec_value`]. The code fits the field that takes it.
    #[verifier::when_used_as_spec(spec_value)]
    pub fn value(self) -> (v: u8)
        ensures
            v == self.spec_value(),
            v <= ConfigField::AGCCTRL0_FILTER_LENGTH.spec_field().spec_max(),
    {
        match self {
            FilterLength::FrequencyModulation(inner) => inner.value(),
            FilterLength::AmplitudeModulation(inner) => inner.value(),
        }
    }
}

impl From<FilterLength> for u8 {
    fn from(value: FilterLength) -> (v: u8) {
        value.value()
    }
}

impl FromSpecImpl<FilterLength> for u8 {
    open spec fn obeys_from_spec() -> bool {
        true
    }

    open spec fn from_spec(value: FilterLength) -> u8 {
        value.spec_value()
    }
}

} // verus!
