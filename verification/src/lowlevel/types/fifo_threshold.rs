//! TX FIFO and RX FIFO threshold configuration.

use vstd::prelude::*;
use vstd::std_specs::convert::FromSpecImpl;
use crate::lowlevel::registers::ConfigField;
use crate::lowlevel::traits::lemma_low_mask_values;

verus! {

/// TX FIFO and RX FIFO threshold configuration.
#[allow(non_camel_case_types)]
#[derive(Copy, Clone, Debug, PartialEq, Eq, Structural)]
pub enum FifoThreshold {
    /// 61 bytes in TX, 4 bytes in RX.
    TX_61_RX_4,
    /// 57 bytes in TX, 8 bytes in RX.
    TX_57_RX_8,
    /// 53 bytes in TX, 12 bytes in RX.
    TX_53_RX_12,
    /// 49 bytes in TX, 16 bytes in RX.
    TX_49_RX_16,
    /// 45 bytes in TX, 20 bytes in RX.
    TX_45_RX_20,
    /// 41 bytes in TX, 24 bytes in RX.
    TX_41_RX_24,
    /// 37 bytes in TX, 28 bytes in RX.
    TX_37_RX_28,
    /// 33 bytes in TX, 32 bytes in RX.
    TX_33_RX_32,
    /// 29 bytes in TX, 36 bytes in RX.
    TX_29_RX_36,
    /// 25 bytes in TX, 40 bytes in RX.
    TX_25_RX_40,
    /// 21 bytes in TX, 44 bytes in RX.
    TX_21_RX_44,
    /// 17 bytes in TX, 48 bytes in RX.
    TX_17_RX_48,
    /// 13 bytes in TX, 52 bytes in RX.
    TX_13_RX_52,
    /// 9 bytes in TX, 56 bytes in RX.
    TX_9_RX_56,
    /// 5 bytes in TX, 60 bytes in RX.
    TX_5_RX_60,
    /// 1 byte in TX, 64 bytes in RX.
    TX_1_RX_64,
}

impl FifoThreshold {
    /// The code that the register field holds for this setting.
    pub open spec fn spec_value(self) -> u8 {
        match self {
            FifoThreshold::TX_61_RX_4 => 0x00,
            FifoThreshold::TX_57_RX_8 => 0x01,
            FifoThreshold::TX_53_RX_12 => 0x02,
            FifoThreshold::TX_49_RX_16 => 0x03,
            FifoThreshold::TX_45_RX_20 => 0x04,
            FifoThreshold::TX_41_RX_24 => 0x05,
            FifoThreshold::TX_37_RX_28 => 0x06,
            FifoThreshold::TX_33_RX_32 => 0x07,
            FifoThreshold::TX_29_RX_36 => 0x08,
            FifoThreshold::TX_25_RX_40 => 0x09,
            FifoThreshold::TX_21_RX_44 => 0x0A,
            FifoThreshold::TX_17_RX_48 => 0x0B,
            FifoThreshold::TX_13_RX_52 => 0x0C,
            FifoThreshold::TX_9_RX_56 => 0x0D,
            FifoThreshold::TX_5_RX_60 => 0x0E,
            FifoThreshold::TX_1_RX_64 => 0x0F,
        }
    }

    /// See [`FifoThreshold::spec_value`]. The code fits the field that takes it.
    #[verifier::when_used_as_spec(spec_value)]
    pub fn value(self) -> (v: u8)
        ensures
            v == self.spec_value(),
            v <= ConfigField::FIFOTHR_FIFO_THR.spec_field().spec_max(),
    {
        proof {
            lemma_low_mask_values();
        }
        match self {
            FifoThreshold::TX_61_RX_4 => 0x00,
            FifoThreshold::TX_57_RX_8 => 0x01,
            FifoThreshold::TX_53_RX_12 => 0x02,
            FifoThreshold::TX_49_RX_16 => 0x03,
            FifoThreshold::TX_45_RX_20 => 0x04,
            FifoThreshold::TX_41_RX_24 => 0x05,
            FifoThreshold::TX_37_RX_28 => 0x06,
            FifoThreshold::TX_33_RX_32 => 0x07,
            FifoThreshold::TX_29_RX_36 => 0x08,
            FifoThreshold::TX_25_RX_40 => 0x09,
            FifoThreshold::TX_21_RX_44 => 0x0A,
            FifoThreshold::TX_17_RX_48 => 0x0B,
            FifoThreshold::TX_13_RX_52 => 0x0C,
            FifoThreshold::TX_9_RX_56 => 0x0D,
            FifoThreshold::TX_5_RX_60 => 0x0E,
            FifoThreshold::TX_1_RX_64 => 0x0F,
        }
    }
}

impl From<FifoThreshold> for u8 {
    fn from(value: FifoThreshold) -> (v: u8) {
        value.value()
    }
}

impl FromSpecImpl<FifoThreshold> for u8 {
    open spec fn obeys_from_spec() -> bool {
        true
    }

    open spec fn from_spec(value: FifoThreshold) -> u8 {
        value.spec_value()
    }
}

} // verus!
