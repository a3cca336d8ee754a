//! Status registers and their fields.

use vstd::prelude::*;
use crate::lowlevel::access::{Access, Mode};
use crate::lowlevel::traits::Field;

verus! {

/// A read-only register that reports what the chip is doing.
#[allow(non_camel_case_types)]
#[derive(Copy, Clone, Debug, PartialEq, Eq, Structural)]
pub enum Status {
    /// Chip part number
    PARTNUM,
    /// Chip version number
    VERSION,
    /// Frequency Offset Estimate from Demodulator
    FREQEST,
    /// Demodulator Estimate for Link Quality
    LQI,
    /// Received Signal Strength Indication
    RSSI,
    /// Main Radio Control State Machine State
    MARCSTATE,
    /// High Byte of WOR Time
    WORTIME1,
    /// Low Byte of WOR Time
    WORTIME0,
    /// Current GDOx Status and Packet Status
    PKTSTATUS,
    /// Current Setting from PLL Calibration Module
    VCO_VC_DAC,
    /// Underflow and Number of Bytes
    TXBYTES,
    /// Overflow and Number of Bytes
    RXBYTES,
    /// Last RC Oscillator Calibration Result
    RCCTRL1_STATUS,
    /// Last RC Oscillator Calibration Result
    RCCTRL0_STATUS,
}

impl Status {
    /// The register's address, without direction and mode bits.
    pub open spec fn spec_base(self) -> u8 {
        match self {
            Status::PARTNUM => 0x30,
            Status::VERSION => 0x31,
            Status::FREQEST => 0x32,
            Status::LQI => 0x33,
            Status::RSSI => 0x34,
            Status::MARCSTATE => 0x35,
            Status::WORTIME1 => 0x36,
            Status::WORTIME0 => 0x37,
            Status::PKTSTATUS => 0x38,
            Status::VCO_VC_DAC => 0x39,
            Status::TXBYTES => 0x3A,
            Status::RXBYTES => 0x3B,
            Status::RCCTRL1_STATUS => 0x3C,
            Status::RCCTRL0_STATUS => 0x3D,
        }
    }

    /// See [`Status::spec_base`].
    #[verifier::when_used_as_spec(spec_base)]
    pub fn base(self) -> (b: u8)
        ensures
            b == self.spec_base(),
            b < 0x40,
    {
        match self {
            Status::PARTNUM => 0x30,
            Status::VERSION => 0x31,
            Status::FREQEST => 0x32,
            Status::LQI => 0x33,
            Status::RSSI => 0x34,
            Status::MARCSTATE => 0x35,
            Status::WORTIME1 => 0x36,
            Status::WORTIME0 => 0x37,
            Status::PKTSTATUS => 0x38,
            Status::VCO_VC_DAC => 0x39,
            Status::TXBYTES => 0x3A,
            Status::RXBYTES => 0x3B,
            Status::RCCTRL1_STATUS => 0x3C,
            Status::RCCTRL0_STATUS => 0x3D,
        }
    }

    /// The header byte for the given direction and mode: the three parts
    /// combined by bitwise or.
    pub open spec fn spec_addr(self, access: Access, mode: Mode) -> u8 {
        access.spec_bits() | mode.spec_bits() | self.spec_base()
    }

    /// See [`Status::spec_addr`].
    #[verifier::when_used_as_spec(spec_addr)]
    pub fn addr(self, access: Access, mode: Mode) -> (a: u8)
        ensures
            a == self.spec_addr(access, mode),
    {
        access.bits() | mode.bits() | self.base()
    }

    /// The value that the register holds after a reset.
    pub open spec fn spec_reset_value(self) -> u8 {
        match self {
            Status::PARTNUM => 0x00,
            Status::VERSION => 0x14,
            Status::FREQEST => 0x00,
            Status::LQI => 0x00,
            Status::RSSI => 0x00,
            Status::MARCSTATE => 0x00,
            Status::WORTIME1 => 0x00,
            Status::WORTIME0 => 0x00,
            Status::PKTSTATUS => 0x00,
            Status::VCO_VC_DAC => 0x00,
            Status::TXBYTES => 0x00,
            Status::RXBYTES => 0x00,
            Status::RCCTRL1_STATUS => 0x00,
            Status::RCCTRL0_STATUS => 0x00,
        }
    }

    /// See [`Status::spec_reset_value`].
    #[verifier::when_used_as_spec(spec_reset_value)]
    pub fn reset_value(self) -> (v: u8)
        ensures
            v == self.spec_reset_value(),
    {
        match self {
            Status::PARTNUM => 0x00,
            Status::VERSION => 0x14,
            Status::FREQEST => 0x00,
            Status::LQI => 0x00,
            Status::RSSI => 0x00,
            Status::MARCSTATE => 0x00,
            Status::WORTIME1 => 0x00,
            Status::WORTIME0 => 0x00,
            Status::PKTSTATUS => 0x00,
            Status::VCO_VC_DAC => 0x00,
            Status::TXBYTES => 0x00,
            Status::RXBYTES => 0x00,
            Status::RCCTRL1_STATUS => 0x00,
            Status::RCCTRL0_STATUS => 0x00,
        }
    }
}

/// The named fields of the status registers.
#[allow(non_camel_case_types)]
#[derive(Copy, Clone, Debug, PartialEq, Eq, Structural)]
pub enum StatusField {
    /// Chip part number.
    PARTNUM_PARTNUM,
    /// Chip version number.
    VERSION_VERSION,
    /// The estimated frequency offset (2's complement) of the carrier.
    FREQEST_FREQOFF_EST,
    /// The last CRC comparison matched.
    LQI_CRC_OK,
    /// The Link Quality Indicator estimates how easily a received signal can be demodulated.
    LQI_LQI,
    /// Received signal strength indicator.
    RSSI_RSSI,
    /// Main Radio Control FSM State.
    MARCSTATE_MARC_STATE,
    /// High byte of timer value in WOR module.
    WORTIME1_TIME,
    /// Low byte of timer value in WOR module.
    WORTIME0_TIME,
    /// The last CRC comparison matched.
    PKTSTATUS_CRC_OK,
    /// Carrier sense.
    PKTSTATUS_CS,
    /// Preamble Quality reached.
    PKTSTATUS_PQT_REACHED,
    /// Channel is clear.
    PKTSTATUS_CCA,
    /// Start of Frame Delimiter.
    PKTSTATUS_SFD,
    /// Current GDO2 value.
    PKTSTATUS_GDO2,
    /// Current GDO0 value.
    PKTSTATUS_GDO0,
    /// Status register for test only.
    VCO_VC_DAC_VCO_VC_DAC,
    /// TX FIFO underflow.
    TXBYTES_TXFIFO_UNDERFLOW,
    /// Number of bytes in TX FIFO.
    TXBYTES_NUM_TXBYTES,
    /// RX FIFO overflow.
    RXBYTES_RXFIFO_OVERFLOW,
    /// Number of bytes in RX FIFO.
    RXBYTES_NUM_RXBYTES,
    /// Contains the value from the last run of the RC oscillator calibration routine.
    RCCTRL1_STATUS_RCCTRL1_STATUS,
    /// Contains the value from the last run of the RC oscillator calibration routine.
    RCCTRL0_STATUS_RCCTRL0_STATUS,
}

impl StatusField {
    /// The register that holds the field.
    pub open spec fn spec_register(self) -> Status {
        match self {
            StatusField::PARTNUM_PARTNUM => Status::PARTNUM,
            StatusField::VERSION_VERSION => Status::VERSION,
            StatusField::FREQEST_FREQOFF_EST => Status::FREQEST,
            StatusField::LQI_CRC_OK => Status::LQI,
            StatusField::LQI_LQI => Status::LQI,
            StatusField::RSSI_RSSI => Status::RSSI,
            StatusField::MARCSTATE_MARC_STATE => Status::MARCSTATE,
            StatusField::WORTIME1_TIME => Status::WORTIME1,
            StatusField::WORTIME0_TIME => Status::WORTIME0,
            StatusField::PKTSTATUS_CRC_OK => Status::PKTSTATUS,
            StatusField::PKTSTATUS_CS => Status::PKTSTATUS,
            StatusField::PKTSTATUS_PQT_REACHED => Status::PKTSTATUS,
            StatusField::PKTSTATUS_CCA => Status::PKTSTATUS,
            StatusField::PKTSTATUS_SFD => Status::PKTSTATUS,
            StatusField::PKTSTATUS_GDO2 => Status::PKTSTATUS,
            StatusField::PKTSTATUS_GDO0 => Status::PKTSTATUS,
            StatusField::VCO_VC_DAC_VCO_VC_DAC => Status::VCO_VC_DAC,
            StatusField::TXBYTES_TXFIFO_UNDERFLOW => Status::TXBYTES,
            StatusField::TXBYTES_NUM_TXBYTES => Status::TXBYTES,
            StatusField::RXBYTES_RXFIFO_OVERFLOW => Status::RXBYTES,
            StatusField::RXBYTES_NUM_RXBYTES => Status::RXBYTES,
            StatusField::RCCTRL1_STATUS_RCCTRL1_STATUS => Status::RCCTRL1_STATUS,
            StatusField::RCCTRL0_STATUS_RCCTRL0_STATUS => Status::RCCTRL0_STATUS,
        }
    }

    /// See [`StatusField::spec_register`].
    #[verifier::when_used_as_spec(spec_register)]
    pub fn register(self) -> (r: Status)
        ensures
            r == self.spec_register(),
    {
        match self {
            StatusField::PARTNUM_PARTNUM => Status::PARTNUM,
            StatusField::VERSION_VERSION => Status::VERSION,
            StatusField::FREQEST_FREQOFF_EST => Status::FREQEST,
            StatusField::LQI_CRC_OK => Status::LQI,
            StatusField::LQI_LQI => Status::LQI,
            StatusField::RSSI_RSSI => Status::RSSI,
            StatusField::MARCSTATE_MARC_STATE => Status::MARCSTATE,
            StatusField::WORTIME1_TIME => Status::WORTIME1,
            StatusField::WORTIME0_TIME => Status::WORTIME0,
            StatusField::PKTSTATUS_CRC_OK => Status::PKTSTATUS,
            StatusField::PKTSTATUS_CS => Status::PKTSTATUS,
            StatusField::PKTSTATUS_PQT_REACHED => Status::PKTSTATUS,
            StatusField::PKTSTATUS_CCA => Status::PKTSTATUS,
            StatusField::PKTSTATUS_SFD => Status::PKTSTATUS,
            StatusField::PKTSTATUS_GDO2 => Status::PKTSTATUS,
            StatusField::PKTSTATUS_GDO0 => Status::PKTSTATUS,
            StatusField::VCO_VC_DAC_VCO_VC_DAC => Status::VCO_VC_DAC,
            StatusField::TXBYTES_TXFIFO_UNDERFLOW => Status::TXBYTES,
            StatusField::TXBYTES_NUM_TXBYTES => Status::TXBYTES,
            StatusField::RXBYTES_RXFIFO_OVERFLOW => Status::RXBYTES,
            StatusField::RXBYTES_NUM_RXBYTES => Status::RXBYTES,
            StatusField::RCCTRL1_STATUS_RCCTRL1_STATUS => Status::RCCTRL1_STATUS,
            StatusField::RCCTRL0_STATUS_RCCTRL0_STATUS => Status::RCCTRL0_STATUS,
        }
    }

    /// Where the field lies in its register.
    pub open spec fn spec_field(self) -> Field {
        match self {
            StatusField::PARTNUM_PARTNUM => Field { offset: 0, width: 8 },
            StatusField::VERSION_VERSION => Field { offset: 0, width: 8 },
            StatusField::FREQEST_FREQOFF_EST => Field { offset: 0, width: 8 },
            StatusField::LQI_CRC_OK => Field { offset: 7, width: 1 },
            StatusField::LQI_LQI => Field { offset: 0, width: 7 },
            StatusField::RSSI_RSSI => Field { offset: 0, width: 8 },
            StatusField::MARCSTATE_MARC_STATE => Field { offset: 0, width: 5 },
            StatusField::WORTIME1_TIME => Field { offset: 0, width: 8 },
            StatusField::WORTIME0_TIME => Field { offset: 0, width: 8 },
            StatusField::PKTSTATUS_CRC_OK => Field { offset: 7, width: 1 },
            StatusField::PKTSTATUS_CS => Field { offset: 6, width: 1 },
            StatusField::PKTSTATUS_PQT_REACHED => Field { offset: 5, width: 1 },
            StatusField::PKTSTATUS_CCA => Field { offset: 4, width: 1 },
            StatusField::PKTSTATUS_SFD => Field { offset: 3, width: 1 },
            StatusField::PKTSTATUS_GDO2 => Field { offset: 2, width: 1 },
            StatusField::PKTSTATUS_GDO0 => Field { offset: 0, width: 1 },
            StatusField::VCO_VC_DAC_VCO_VC_DAC => Field { offset: 0, width: 8 },
            StatusField::TXBYTES_TXFIFO_UNDERFLOW => Field { offset: 7, width: 1 },
            StatusField::TXBYTES_NUM_TXBYTES => Field { offset: 0, width: 7 },
            StatusField::RXBYTES_RXFIFO_OVERFLOW => Field { offset: 7, width: 1 },
            StatusField::RXBYTES_NUM_RXBYTES => Field { offset: 0, width: 7 },
            StatusField::RCCTRL1_STATUS_RCCTRL1_STATUS => Field { offset: 0, width: 7 },
            StatusField::RCCTRL0_STATUS_RCCTRL0_STATUS => Field { offset: 0, width: 7 },
        }
    }

    /// See [`StatusField::spec_field`]. Every field of the table is a non-empty run
    /// of bits inside one byte.
    #[verifier::when_used_as_spec(spec_field)]
    pub fn field(self) -> (f: Field)
        ensures
            f == self.spec_field(),
            f.wf(),
    {
        match self {
            StatusField::PARTNUM_PARTNUM => Field { offset: 0, width: 8 },
            StatusField::VERSION_VERSION => Field { offset: 0, width: 8 },
            StatusField::FREQEST_FREQOFF_EST => Field { offset: 0, width: 8 },
            StatusField::LQI_CRC_OK => Field { offset: 7, width: 1 },
            StatusField::LQI_LQI => Field { offset: 0, width: 7 },
            StatusField::RSSI_RSSI => Field { offset: 0, width: 8 },
            StatusField::MARCSTATE_MARC_STATE => Field { offset: 0, width: 5 },
            StatusField::WORTIME1_TIME => Field { offset: 0, width: 8 },
            StatusField::WORTIME0_TIME => Field { offset: 0, width: 8 },
            StatusField::PKTSTATUS_CRC_OK => Field { offset: 7, width: 1 },
            StatusField::PKTSTATUS_CS => Field { offset: 6, width: 1 },
            StatusField::PKTSTATUS_PQT_REACHED => Field { offset: 5, width: 1 },
            StatusField::PKTSTATUS_CCA => Field { offset: 4, width: 1 },
            StatusField::PKTSTATUS_SFD => Field { offset: 3, width: 1 },
            StatusField::PKTSTATUS_GDO2 => Field { offset: 2, width: 1 },
            StatusField::PKTSTATUS_GDO0 => Field { offset: 0, width: 1 },
            StatusField::VCO_VC_DAC_VCO_VC_DAC => Field { offset: 0, width: 8 },
            StatusField::TXBYTES_TXFIFO_UNDERFLOW => Field { offset: 7, width: 1 },
            StatusField::TXBYTES_NUM_TXBYTES => Field { offset: 0, width: 7 },
            StatusField::RXBYTES_RXFIFO_OVERFLOW => Field { offset: 7, width: 1 },
            StatusField::RXBYTES_NUM_RXBYTES => Field { offset: 0, width: 7 },
            StatusField::RCCTRL1_STATUS_RCCTRL1_STATUS => Field { offset: 0, width: 7 },
            StatusField::RCCTRL0_STATUS_RCCTRL0_STATUS => Field { offset: 0, width: 7 },
        }
    }

    /// The value that the field has in `raw`, a value of its register.
    pub open spec fn spec_read(self, raw: u8) -> u8 {
        self.spec_field().spec_read(raw)
    }

    /// See [`StatusField::spec_read`].
    #[verifier::when_used_as_spec(spec_read)]
    pub fn read(self, raw: u8) -> (value: u8)
        ensures
            value == self.spec_read(raw),
            value <= self.spec_field().spec_max(),
    {
        self.field().read(raw)
    }
}

/// Every field of the table is a non-empty run of bits inside one byte.
pub proof fn lemma_status_fields_well_formed(field: StatusField)
    ensures
        field.spec_field().wf(),
{
}

/// Two different fields of one register share no bit.
pub proof fn lemma_status_fields_disjoint(f: StatusField, g: StatusField)
    requires
        f != g,
        f.spec_register() == g.spec_register(),
    ensures
        f.spec_field().disjoint(g.spec_field()),
{
}

} // verus!
