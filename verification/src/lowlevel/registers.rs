//! The chip's registers and the header byte that addresses each of them.
//!
//! Command strobes and status registers share one range of addresses; only
//! the kind of register tells them apart, so a register is never handled as
//! a bare number.

use vstd::prelude::*;
use vstd::std_specs::convert::FromSpecImpl;
use crate::lowlevel::access::{Access, Mode};

pub mod command;
pub mod config;
pub mod multi_byte;
pub mod status;
pub mod status_byte;

pub use self::command::Command;
pub use self::config::{Config, ConfigField, Edit, Mask, R, W};
pub use self::multi_byte::MultiByte;
pub use self::status::{Status, StatusField};
pub use self::status_byte::{State, StatusByte};

verus! {

/// Any register of the chip, tagged with its kind.
#[derive(Copy, Clone, Debug, PartialEq, Eq, Structural)]
pub enum Register {
    Command(Command),
    Config(Config),
    MultiByte(MultiByte),
    Status(Status),
}

impl Register {
    /// The register's address, without direction and mode bits.
    pub open spec fn spec_base(self) -> u8 {
        match self {
            Register::Command(r) => r.spec_base(),
            Register::Config(r) => r.spec_base(),
            Register::MultiByte(r) => r.spec_base(),
            Register::Status(r) => r.spec_base(),
        }
    }

    /// The mode that an access to this register uses when `mode` is asked
    /// for: a strobe is always single, a status register is always
    /// addressed as a burst, the others go by `mode`.
    pub open spec fn spec_mode(self, mode: Mode) -> Mode {
        match self {
            Register::Command(_) => Mode::Single,
            Register::Config(_) => mode,
            Register::MultiByte(_) => mode,
            Register::Status(_) => Mode::Burst,
        }
    }

    /// The header byte of an access: direction bit, mode bit and address
    /// combined by bitwise or.
    pub open spec fn spec_address(self, access: Access, mode: Mode) -> u8 {
        access.spec_bits() | self.spec_mode(mode).spec_bits() | self.spec_base()
    }

    /// See [`Register::spec_base`].
    #[verifier::when_used_as_spec(spec_base)]
    pub fn base(self) -> (b: u8)
        ensures
            b == self.spec_base(),
            b < 0x40,
    {
        match self {
            Register::Command(r) => r.base(),
            Register::Config(r) => r.base(),
            Register::MultiByte(r) => r.base(),
            Register::Status(r) => r.base(),
        }
    }

    /// See [`Register::spec_address`].
    #[verifier::when_used_as_spec(spec_address)]
    pub fn address(self, access: Access, mode: Mode) -> (a: u8)
        ensures
            a == self.spec_address(access, mode),
    {
        match self {
            Register::Command(r) => r.addr(access, Mode::Single),
            Register::Config(r) => r.addr(access, mode),
            Register::MultiByte(r) => r.addr(access, mode),
            Register::Status(r) => r.addr(access, Mode::Burst),
        }
    }

    /// The header byte that reads the register.
    pub fn raddr(self, mode: Mode) -> (a: u8)
        ensures
            a == self.spec_address(Access::Read, mode),
    {
        self.address(Access::Read, mode)
    }

    /// The header byte that writes the register. A status register cannot
    /// be written.
    pub fn waddr(self, mode: Mode) -> (a: u8)
        requires
            !(self is Status),
        ensures
            a == self.spec_address(Access::Write, mode),
    {
        self.address(Access::Write, mode)
    }
}

impl From<Command> for Register {
    fn from(value: Command) -> (r: Register) {
        Register::Command(value)
    }
}

impl FromSpecImpl<Command> for Register {
    open spec fn obeys_from_spec() -> bool {
        true
    }

    open spec fn from_spec(value: Command) -> Register {
        Register::Command(value)
    }
}

impl From<Config> for Register {
    fn from(value: Config) -> (r: Register) {
        Register::Config(value)
    }
}

impl FromSpecImpl<Config> for Register {
    open spec fn obeys_from_spec() -> bool {
        true
    }

    open spec fn from_spec(value: Config) -> Register {
        Register::Config(value)
    }
}

impl From<MultiByte> for Register {
    fn from(value: MultiByte) -> (r: Register) {
        Register::MultiByte(value)
    }
}

impl FromSpecImpl<MultiByte> for Register {
    open spec fn obeys_from_spec() -> bool {
        true
    }

    open spec fn from_spec(value: MultiByte) -> Register {
        Register::MultiByte(value)
    }
}

impl From<Status> for Register {
    fn from(value: Status) -> (r: Register) {
        Register::Status(value)
    }
}

impl FromSpecImpl<Status> for Register {
    open spec fn obeys_from_spec() -> bool {
        true
    }

    open spec fn from_spec(value: Status) -> Register {
        Register::Status(value)
    }
}

/// The three parts of a header byte share no bit, so the byte is also
/// their sum, and each part can be read back from it.
pub proof fn lemma_address_parts(register: Register, access: Access, mode: Mode)
    ensures
        register.spec_address(access, mode) == access.spec_bits() + register.spec_mode(
            mode,
        ).spec_bits() + register.spec_base(),
        register.spec_address(access, mode) & 0x80 == access.spec_bits(),
        register.spec_address(access, mode) & 0x40 == register.spec_mode(mode).spec_bits(),
        register.spec_address(access, mode) & 0x3F == register.spec_base(),
{
    let a = access.spec_bits();
    let m = register.spec_mode(mode).spec_bits();
    let b = register.spec_base();
    assert(b < 0x40);
    assert((a | m | b) == a + m + b && (a | m | b) & 0x80 == a && (a | m | b) & 0x40 == m && (a
        | m | b) & 0x3F == b) by (bit_vector)
        requires
            a == 0x80 || a == 0,
            m == 0x40 || m == 0,
            b < 0x40,
    ;
}

/// A status register is read as a burst whatever mode is asked for, and a
/// strobe is sent as a single access whatever mode is asked for.
pub proof fn lemma_forced_modes(register: Register, access: Access)
    ensures
        register is Status ==> register.spec_address(access, Mode::Single)
            == register.spec_address(access, Mode::Burst) && register.spec_address(
            Access::Read,
            Mode::Single,
        ) == 0xC0 + register.spec_base(),
        register is Command ==> register.spec_address(access, Mode::Burst)
            == register.spec_address(access, Mode::Single) && register.spec_address(
            Access::Write,
            Mode::Burst,
        ) == register.spec_base(),
{
    lemma_address_parts(register, Access::Read, Mode::Single);
    lemma_address_parts(register, Access::Write, Mode::Burst);
}

} // verus!
