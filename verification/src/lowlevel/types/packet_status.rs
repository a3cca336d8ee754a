//! Readout of the packet status register.

use vstd::prelude::*;
use vstd::std_specs::convert::FromSpecImpl;
use crate::lowlevel::registers::StatusField;
use crate::lowlevel::traits::lemma_low_mask_values;

verus! {

/// The flags of the PKTSTATUS register, each decoded on its own.
#[derive(Copy, Clone, Debug, PartialEq, Eq, Structural)]
pub struct PacketStatus {
    /// The last CRC comparison matched.
    pub crc_ok: bool,
    /// Carrier sense.
    pub carrier_sense: bool,
    /// Preamble quality reached.
    pub preamble_quality_reached: bool,
    /// Channel is clear.
    pub cca_channel_clear: bool,
    /// Start of frame delimiter.
    pub sof_delimiter: bool,
    /// Current level of the GDO2 pin.
    pub gdo2: bool,
    /// Current level of the GDO0 pin.
    pub gdo0: bool,
}

/// A flag as a register field holds it: zero or one.
#[derive(Copy, Clone, Debug, PartialEq, Eq, Structural)]
pub struct BoolU8(pub u8);

impl BoolU8 {
    /// The flag as a `bool`. A value other than zero and one is no flag.
    pub fn into_bool(self) -> (b: bool)
        requires
            self.0 <= 1,
        ensures
            b == (self.0 == 1),
    {
        self.0 == 1
    }
}

impl PacketStatus {
    /// What a raw value of the register says.
    pub open spec fn spec_from(value: u8) -> PacketStatus {
        PacketStatus {
            crc_ok: StatusField::PKTSTATUS_CRC_OK.spec_read(value) == 1,
            carrier_sense: StatusField::PKTSTATUS_CS.spec_read(value) == 1,
            preamble_quality_reached: StatusField::PKTSTATUS_PQT_REACHED.spec_read(value) == 1,
            cca_channel_clear: StatusField::PKTSTATUS_CCA.spec_read(value) == 1,
            sof_delimiter: StatusField::PKTSTATUS_SFD.spec_read(value) == 1,
            gdo2: StatusField::PKTSTATUS_GDO2.spec_read(value) == 1,
            gdo0: StatusField::PKTSTATUS_GDO0.spec_read(value) == 1,
        }
    }
}

/// Decodes a raw value of the register.
impl From<u8> for PacketStatus {
    fn from(value: u8) -> (status: PacketStatus) {
        proof {
            lemma_low_mask_values();
        }
        PacketStatus {
            crc_ok: BoolU8(StatusField::PKTSTATUS_CRC_OK.read(value)).into_bool(),
            carrier_sense: BoolU8(StatusField::PKTSTATUS_CS.read(value)).into_bool(),
            preamble_quality_reached: BoolU8(
                StatusField::PKTSTATUS_PQT_REACHED.read(value),
            ).into_bool(),
            cca_channel_clear: BoolU8(StatusField::PKTSTATUS_CCA.read(value)).into_bool(),
            sof_delimiter: BoolU8(StatusField::PKTSTATUS_SFD.read(value)).into_bool(),
            gdo2: BoolU8(StatusField::PKTSTATUS_GDO2.read(value)).into_bool(),
            gdo0: BoolU8(StatusField::PKTSTATUS_GDO0.read(value)).into_bool(),
        }
    }
}

impl FromSpecImpl<u8> for PacketStatus {
    open spec fn obeys_from_spec() -> bool {
        true
    }

    open spec fn from_spec(value: u8) -> PacketStatus {
        PacketStatus::spec_from(value)
    }
}

/// Each flag is one bit of the register: bit 7 down to bit 2, and bit 0.
pub proof fn lemma_packet_status_bits(value: u8)
    ensures
        PacketStatus::spec_from(value).crc_ok == (value & 0x80 != 0),
        PacketStatus::spec_from(value).carrier_sense == (value & 0x40 != 0),
        PacketStatus::spec_from(value).preamble_quality_reached == (value & 0x20 != 0),
        PacketStatus::spec_from(value).cca_channel_clear == (value & 0x10 != 0),
        PacketStatus::spec_from(value).sof_delimiter == (value & 0x08 != 0),
        PacketStatus::spec_from(value).gdo2 == (value & 0x04 != 0),
        PacketStatus::spec_from(value).gdo0 == (value & 0x01 != 0),
{
    assert(((value >> 7u8) & crate::lowlevel::traits::low_mask(1) == 1) == (value & 0x80 != 0))
        by (bit_vector);
    assert(((value >> 6u8) & crate::lowlevel::traits::low_mask(1) == 1) == (value & 0x40 != 0))
        by (bit_vector);
    assert(((value >> 5u8) & crate::lowlevel::traits::low_mask(1) == 1) == (value & 0x20 != 0))
        by (bit_vector);
    assert(((value >> 4u8) & crate::lowlevel::traits::low_mask(1) == 1) == (value & 0x10 != 0))
        by (bit_vector);
    assert(((value >> 3u8) & crate::lowlevel::traits::low_mask(1) == 1) == (value & 0x08 != 0))
        by (bit_vector);
    assert(((value >> 2u8) & crate::lowlevel::traits::low_mask(1) == 1) == (value & 0x04 != 0))
        by (bit_vector);
    assert(((value >> 0u8) & crate::lowlevel::traits::low_mask(1) == 1) == (value & 0x01 != 0))
        by (bit_vector);
}

} // verus!
