//! Direction and addressing mode of a bus access.

use vstd::prelude::*;

verus! {

/// Whether one byte or a run of bytes follows the header byte.
#[derive(Copy, Clone, Debug, PartialEq, Eq, Structural)]
pub enum Mode {
    Single,
    Burst,
}

/// Direction of a bus access.
#[derive(Copy, Clone, Debug, PartialEq, Eq, Structural)]
pub enum Access {
    Read,
    Write,
}

impl Mode {
    /// The bit that this mode contributes to a header byte.
    pub open spec fn spec_bits(self) -> u8 {
        match self {
            Mode::Single => 0x00,
            Mode::Burst => 0x40,
        }
    }

    /// See [`Mode::spec_bits`].
    #[verifier::when_used_as_spec(spec_bits)]
    pub fn bits(self) -> (b: u8)
        ensures
            b == self.spec_bits(),
    {
        match self {
            Mode::Single => 0x00,
            Mode::Burst => 0x40,
        }
    }
}

impl Access {
    /// The bit that this direction contributes to a header byte.
    pub open spec fn spec_bits(self) -> u8 {
        match self {
            Access::Read => 0x80,
            Access::Write => 0x00,
        }
    }

    /// See [`Access::spec_bits`].
    #[verifier::when_used_as_spec(spec_bits)]
    pub fn bits(self) -> (b: u8)
        ensures
            b == self.spec_bits(),
    {
        match self {
            Access::Read => 0x80,
            Access::Write => 0x00,
        }
    }
}

} // verus!
