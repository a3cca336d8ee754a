//! Registers that are wider than one byte.

use vstd::prelude::*;
use crate::lowlevel::access::{Access, Mode};

verus! {

/// The power table and the FIFOs, which take or give a run of bytes.
#[allow(non_camel_case_types)]
#[derive(Copy, Clone, Debug, PartialEq, Eq, Structural)]
pub enum MultiByte {
    /// Power Amplifier Table
    PATABLE,
    /// FIFO Access
    FIFO,
}

impl MultiByte {
    /// The register's address, without direction and mode bits.
    pub open spec fn spec_base(self) -> u8 {
        match self {
            MultiByte::PATABLE => 0x3E,
            MultiByte::FIFO => 0x3F,
        }
    }

    /// See [`MultiByte::spec_base`].
    #[verifier::when_used_as_spec(spec_base)]
    pub fn base(self) -> (b: u8)
        ensures
            b == self.spec_base(),
            b < 0x40,
    {
        match self {
            MultiByte::PATABLE => 0x3E,
            MultiByte::FIFO => 0x3F,
        }
    }

    /// The header byte for the given direction and mode: the three parts
    /// combined by bitwise or.
    pub open spec fn spec_addr(self, access: Access, mode: Mode) -> u8 {
        access.spec_bits() | mode.spec_bits() | self.spec_base()
    }

    /// See [`MultiByte::spec_addr`].
    #[verifier::when_used_as_spec(spec_addr)]
    pub fn addr(self, access: Access, mode: Mode) -> (a: u8)
        ensures
            a == self.spec_addr(access, mode),
    {
        access.bits() | mode.bits() | self.base()
    }
}

} // verus!
