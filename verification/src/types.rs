//! The settings that the driver's operations take.

use vstd::prelude::*;
use crate::lowlevel::registers::{Command, Config};
use crate::lowlevel::types::{
    AddressCheck, LengthConfig, MachineState, ModulationFormat, SyncCheck,
};

verus! {

/// Radio operational mode.
#[derive(Copy, Clone, Debug, PartialEq, Eq, Structural)]
pub enum RadioMode {
    Idle,
    Sleep,
    Calibrate,
    Transmit,
    Receive,
}

/// Packet length configuration.
#[derive(Copy, Clone, Debug, PartialEq, Eq, Structural)]
pub enum PacketLength {
    /// Set packet length to a fixed value.
    Fixed(u8),
    /// Set upper bound of variable packet length.
    Variable(u8),
    /// Infinite packet length, streaming mode.
    Infinite,
}

/// Address check configuration.
#[derive(Copy, Clone, Debug, PartialEq, Eq, Structural)]
pub enum AddressFilter {
    /// No address check.
    Disabled,
    /// Address check, no broadcast.
    Device(u8),
    /// Address check and 0 (0x00) broadcast.
    DeviceLowBroadcast(u8),
    /// Address check and 0 (0x00) and 255 (0xFF) broadcast.
    DeviceHighLowBroadcast(u8),
}

/// Sync word configuration.
#[derive(Copy, Clone, Debug, PartialEq, Eq, Structural)]
pub enum SyncMode {
    /// No sync word.
    Disabled,
    /// Match 15 of 16 bits of given sync word.
    MatchPartial(u16),
    /// Match 30 of 32 bits of a repetition of given sync word.
    MatchPartialRepeated(u16),
    /// Match 16 of 16 bits of given sync word.
    MatchFull(u16),
}

/// Modulation format configuration.
#[derive(Copy, Clone, Debug, PartialEq, Eq, Structural)]
pub enum Modulation {
    /// 2-FSK.
    BinaryFrequencyShiftKeying,
    /// GFSK.
    GaussianFrequencyShiftKeying,
    /// ASK / OOK.
    OnOffKeying,
    /// 4-FSK.
    FourFrequencyShiftKeying,
    /// MSK.
    MinimumShiftKeying,
}

impl RadioMode {
    /// The strobe that takes the chip into the mode.
    pub open spec fn spec_command(self) -> Command {
        match self {
            RadioMode::Idle => Command::SIDLE,
            RadioMode::Sleep => Command::SPWD,
            RadioMode::Calibrate => Command::SCAL,
            RadioMode::Transmit => Command::STX,
            RadioMode::Receive => Command::SRX,
        }
    }

    /// The machine state that the chip reports once it is in the mode.
    pub open spec fn spec_state(self) -> MachineState {
        match self {
            RadioMode::Idle => MachineState::IDLE,
            RadioMode::Sleep => MachineState::SLEEP,
            RadioMode::Calibrate => MachineState::MANCAL,
            RadioMode::Transmit => MachineState::TX,
            RadioMode::Receive => MachineState::RX,
        }
    }

    /// See [`RadioMode::spec_command`].
    #[verifier::when_used_as_spec(spec_command)]
    pub fn command(self) -> (c: Command)
        ensures
            c == self.spec_command(),
    {
        match self {
            RadioMode::Idle => Command::SIDLE,
            RadioMode::Sleep => Command::SPWD,
            RadioMode::Calibrate => Command::SCAL,
            RadioMode::Transmit => Command::STX,
            RadioMode::Receive => Command::SRX,
        }
    }

    /// See [`RadioMode::spec_state`].
    #[verifier::when_used_as_spec(spec_state)]
    pub fn state(self) -> (s: MachineState)
        ensures
            s == self.spec_state(),
    {
        match self {
            RadioMode::Idle => MachineState::IDLE,
            RadioMode::Sleep => MachineState::SLEEP,
            RadioMode::Calibrate => MachineState::MANCAL,
            RadioMode::Transmit => MachineState::TX,
            RadioMode::Receive => MachineState::RX,
        }
    }
}

impl PacketLength {
    /// The length mode that the chip is put in.
    pub open spec fn spec_config(self) -> LengthConfig {
        match self {
            PacketLength::Fixed(_) => LengthConfig::FIXED,
            PacketLength::Variable(_) => LengthConfig::VARIABLE,
            PacketLength::Infinite => LengthConfig::INFINITE,
        }
    }

    /// The value of the packet length register: the limit given, or the
    /// register's reset value where none is.
    pub open spec fn spec_limit(self) -> u8 {
        match self {
            PacketLength::Fixed(limit) => limit,
            PacketLength::Variable(limit) => limit,
            PacketLength::Infinite => 0xFF,
        }
    }

    /// Whether packets carry their length as the first byte.
    pub open spec fn spec_has_length_field(self) -> bool {
        self is Variable
    }

    /// See [`PacketLength::spec_config`].
    #[verifier::when_used_as_spec(spec_config)]
    pub fn config(self) -> (c: LengthConfig)
        ensures
            c == self.spec_config(),
    {
        match self {
            PacketLength::Fixed(_) => LengthConfig::FIXED,
            PacketLength::Variable(_) => LengthConfig::VARIABLE,
            PacketLength::Infinite => LengthConfig::INFINITE,
        }
    }

    /// See [`PacketLength::spec_limit`].
    #[verifier::when_used_as_spec(spec_limit)]
    pub fn limit(self) -> (l: u8)
        ensures
            l == self.spec_limit(),
    {
        match self {
            PacketLength::Fixed(limit) => limit,
            PacketLength::Variable(limit) => limit,
            PacketLength::Infinite => 0xFF,
        }
    }

    /// See [`PacketLength::spec_has_length_field`].
    #[verifier::when_used_as_spec(spec_has_length_field)]
    pub fn has_length_field(self) -> (b: bool)
        ensures
            b == self.spec_has_length_field(),
    {
        match self {
            PacketLength::Variable(_) => true,
            _ => false,
        }
    }
}

impl AddressFilter {
    /// The address check that the chip is told to make.
    pub open spec fn spec_check(self) -> AddressCheck {
        match self {
            AddressFilter::Disabled => AddressCheck::DISABLED,
            AddressFilter::Device(_) => AddressCheck::SELF,
            AddressFilter::DeviceLowBroadcast(_) => AddressCheck::SELF_LOW_BROADCAST,
            AddressFilter::DeviceHighLowBroadcast(_) => AddressCheck::SELF_HIGH_LOW_BROADCAST,
        }
    }

    /// The value of the device address register: the address given, or
    /// the register's reset value where none is.
    pub open spec fn spec_address(self) -> u8 {
        match self {
            AddressFilter::Disabled => 0x00,
            AddressFilter::Device(addr) => addr,
            AddressFilter::DeviceLowBroadcast(addr) => addr,
            AddressFilter::DeviceHighLowBroadcast(addr) => addr,
        }
    }

    /// Whether packets carry an address byte.
    pub open spec fn spec_has_address_field(self) -> bool {
        !(self is Disabled)
    }

    /// See [`AddressFilter::spec_check`].
    #[verifier::when_used_as_spec(spec_check)]
    pub fn check(self) -> (c: AddressCheck)
        ensures
            c == self.spec_check(),
    {
        match self {
            AddressFilter::Disabled => AddressCheck::DISABLED,
            AddressFilter::Device(_) => AddressCheck::SELF,
            AddressFilter::DeviceLowBroadcast(_) => AddressCheck::SELF_LOW_BROADCAST,
            AddressFilter::DeviceHighLowBroadcast(_) => AddressCheck::SELF_HIGH_LOW_BROADCAST,
        }
    }

    /// See [`AddressFilter::spec_address`].
    #[verifier::when_used_as_spec(spec_address)]
    pub fn address(self) -> (a: u8)
        ensures
            a == self.spec_address(),
    {
        match self {
            AddressFilter::Disabled => 0x00,
            AddressFilter::Device(addr) => addr,
            AddressFilter::DeviceLowBroadcast(addr) => addr,
            AddressFilter::DeviceHighLowBroadcast(addr) => addr,
        }
    }

    /// See [`AddressFilter::spec_has_address_field`].
    #[verifier::when_used_as_spec(spec_has_address_field)]
    pub fn has_address_field(self) -> (b: bool)
        ensures
            b == self.spec_has_address_field(),
    {
        match self {
            AddressFilter::Disabled => false,
            _ => true,
        }
    }
}

impl SyncMode {
    /// The sync word check that the chip is told to make.
    pub open spec fn spec_check(self) -> SyncCheck {
        match self {
            SyncMode::Disabled => SyncCheck::DISABLED,
            SyncMode::MatchPartial(_) => SyncCheck::CHECK_15_16,
            SyncMode::MatchPartialRepeated(_) => SyncCheck::CHECK_30_32,
            SyncMode::MatchFull(_) => SyncCheck::CHECK_16_16,
        }
    }

    /// The sync word: the word given, or the reset value of the two sync
    /// word registers where none is.
    pub open spec fn spec_word(self) -> u16 {
        match self {
            SyncMode::Disabled => 0xD391,
            SyncMode::MatchPartial(word) => word,
            SyncMode::MatchPartialRepeated(word) => word,
            SyncMode::MatchFull(word) => word,
        }
    }

    /// See [`SyncMode::spec_check`].
    #[verifier::when_used_as_spec(spec_check)]
    pub fn check(self) -> (c: SyncCheck)
        ensures
            c == self.spec_check(),
    {
        match self {
            SyncMode::Disabled => SyncCheck::DISABLED,
            SyncMode::MatchPartial(_) => SyncCheck::CHECK_15_16,
            SyncMode::MatchPartialRepeated(_) => SyncCheck::CHECK_30_32,
            SyncMode::MatchFull(_) => SyncCheck::CHECK_16_16,
        }
    }

    /// See [`SyncMode::spec_word`].
    #[verifier::when_used_as_spec(spec_word)]
    pub fn word(self) -> (w: u16)
        ensures
            w == self.spec_word(),
    {
        match self {
            SyncMode::Disabled => 0xD391,
            SyncMode::MatchPartial(word) => word,
            SyncMode::MatchPartialRepeated(word) => word,
            SyncMode::MatchFull(word) => word,
        }
    }
}

impl Modulation {
    /// The modulation format that the chip is put in.
    pub open spec fn spec_format(self) -> ModulationFormat {
        match self {
            Modulation::BinaryFrequencyShiftKeying => ModulationFormat::BinaryFrequencyShiftKeying,
            Modulation::GaussianFrequencyShiftKeying => {
                ModulationFormat::GaussianFrequencyShiftKeying
            },
            Modulation::OnOffKeying => ModulationFormat::AmplitudeShiftOnOffKeying,
            Modulation::FourFrequencyShiftKeying => {
                ModulationFormat::QuaternaryFrequencyShiftKeying
            },
            Modulation::MinimumShiftKeying => ModulationFormat::MinimumShiftKeying,
        }
    }

    /// See [`Modulation::spec_format`].
    #[verifier::when_used_as_spec(spec_format)]
    pub fn format(self) -> (f: ModulationFormat)
        ensures
            f == self.spec_format(),
    {
        match self {
            Modulation::BinaryFrequencyShiftKeying => ModulationFormat::BinaryFrequencyShiftKeying,
            Modulation::GaussianFrequencyShiftKeying => {
                ModulationFormat::GaussianFrequencyShiftKeying
            },
            Modulation::OnOffKeying => ModulationFormat::AmplitudeShiftOnOffKeying,
            Modulation::FourFrequencyShiftKeying => {
                ModulationFormat::QuaternaryFrequencyShiftKeying
            },
            Modulation::MinimumShiftKeying => ModulationFormat::MinimumShiftKeying,
        }
    }
}

/// The reset values that stand in where a setting gives no value are
/// those of the registers' table.
pub proof fn lemma_reset_values()
    ensures
        PacketLength::Infinite.spec_limit() == Config::PKTLEN.spec_reset_value(),
        AddressFilter::Disabled.spec_address() == Config::ADDR.spec_reset_value(),
        SyncMode::Disabled.spec_word() == Config::SYNC1.spec_reset_value() * 256
            + Config::SYNC0.spec_reset_value(),
{
}

} // verus!
