//! Command strobes.

use vstd::prelude::*;
use crate::lowlevel::access::{Access, Mode};

verus! {

/// A command strobe: a header byte without payload that makes the chip act
/// at once.
#[allow(non_camel_case_types)]
#[derive(Copy, Clone, Debug, PartialEq, Eq, Structural)]
pub enum Command {
    /// Reset chip.
    SRES,
    /// Enable and calibrate frequency synthesizer (if MCSM0.FS_AUTOCAL=1). If in RX
    /// (with CCA): Go to a wait state where only the synthesizer is running (for
    /// quick RX / TX turnaround).
    SFSTXON,
    /// Turn off crystal oscillator.
    SXOFF,
    /// Calibrate frequency synthesizer and turn it off. SCAL can be strobed from
    /// IDLE mode without setting manual calibration mode (MCSM0.FS_AUTOCAL=0)
    SCAL,
    /// Enable RX. Perform calibration first if coming from IDLE and MCSM0.FS_AUTOCAL=1.
    SRX,
    /// In IDLE state: Enable TX. Perform calibration first if MCSM0.FS_AUTOCAL=1.
    /// If in RX state and CCA is enabled: Only go to TX if channel is clear.
    STX,
    /// Exit RX / TX, turn off frequency synthesizer and exit Wake-On-Radio mode if applicable.
    SIDLE,
    /// Start automatic RX polling sequence (Wake-on-Radio) as described in Section
    /// 19.5 if WORCTRL.RC_PD=0.
    SWOR,
    /// Enter power down mode when CSn goes high.
    SPWD,
    /// Flush the RX FIFO buffer. Only issue SFRX in IDLE or RXFIFO_OVERFLOW states.
    SFRX,
    /// Flush the TX FIFO buffer. Only issue SFTX in IDLE or TXFIFO_UNDERFLOW states.
    SFTX,
    /// Reset real time clock to Event1 value.
    SWORRST,
    /// No operation. May be used to get access to the chip status byte.
    SNOP,
}

impl Command {
    /// The register's address, without direction and mode bits.
    pub open spec fn spec_base(self) -> u8 {
        match self {
            Command::SRES => 0x30,
            Command::SFSTXON => 0x31,
            Command::SXOFF => 0x32,
            Command::SCAL => 0x33,
            Command::SRX => 0x34,
            Command::STX => 0x35,
            Command::SIDLE => 0x36,
            Command::SWOR => 0x38,
            Command::SPWD => 0x39,
            Command::SFRX => 0x3A,
            Command::SFTX => 0x3B,
            Command::SWORRST => 0x3C,
            Command::SNOP => 0x3D,
        }
    }

    /// See [`Command::spec_base`].
    #[verifier::when_used_as_spec(spec_base)]
    pub fn base(self) -> (b: u8)
        ensures
            b == self.spec_base(),
            b < 0x40,
    {
        match self {
            Command::SRES => 0x30,
            Command::SFSTXON => 0x31,
            Command::SXOFF => 0x32,
            Command::SCAL => 0x33,
            Command::SRX => 0x34,
            Command::STX => 0x35,
            Command::SIDLE => 0x36,
            Command::SWOR => 0x38,
            Command::SPWD => 0x39,
            Command::SFRX => 0x3A,
            Command::SFTX => 0x3B,
            Command::SWORRST => 0x3C,
            Command::SNOP => 0x3D,
        }
    }

    /// The header byte for the given direction and mode: the three parts
    /// combined by bitwise or.
    pub open spec fn spec_addr(self, access: Access, mode: Mode) -> u8 {
        access.spec_bits() | mode.spec_bits() | self.spec_base()
    }

    /// See [`Command::spec_addr`].
    #[verifier::when_used_as_spec(spec_addr)]
    pub fn addr(self, access: Access, mode: Mode) -> (a: u8)
        ensures
            a == self.spec_addr(access, mode),
    {
        access.bits() | mode.bits() | self.base()
    }
}

} // verus!
