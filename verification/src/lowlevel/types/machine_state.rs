//! The fine-grained state of the main radio control state machine.

use vstd::prelude::*;
use vstd::std_specs::convert::{FromSpecImpl, TryFromSpecImpl};

verus! {

/// Radio hardware machine states, as the MARCSTATE register reports them.
#[allow(non_camel_case_types)]
#[derive(Copy, Clone, Debug, PartialEq, Eq, Structural)]
pub enum MachineState {
    SLEEP,
    IDLE,
    XOFF,
    VCOON_MC,
    REGON_MC,
    MANCAL,
    VCOON,
    REGON,
    STARTCAL,
    BWBOOST,
    FS_LOCK,
    IFADCON,
    ENDCAL,
    RX,
    RX_END,
    RX_RST,
    TXRX_SWITCH,
    RXFIFO_OVERFLOW,
    FSTXON,
    TX,
    TX_END,
    RXTX_SWITCH,
    TXFIFO_UNDERFLOW,
}

/// A state code that stands for no state: the mark of a fault on the bus.
#[derive(Copy, Clone, Debug, PartialEq, Eq, Structural)]
pub enum MachineStateError {
    InvalidState(u8),
}

impl MachineState {
    /// The code of the state.
    pub open spec fn spec_value(self) -> u8 {
        match self {
            MachineState::SLEEP => 0x00,
            MachineState::IDLE => 0x01,
            MachineState::XOFF => 0x02,
            MachineState::VCOON_MC => 0x03,
            MachineState::REGON_MC => 0x04,
            MachineState::MANCAL => 0x05,
            MachineState::VCOON => 0x06,
            MachineState::REGON => 0x07,
            MachineState::STARTCAL => 0x08,
            MachineState::BWBOOST => 0x09,
            MachineState::FS_LOCK => 0x0A,
            MachineState::IFADCON => 0x0B,
            MachineState::ENDCAL => 0x0C,
            MachineState::RX => 0x0D,
            MachineState::RX_END => 0x0E,
            MachineState::RX_RST => 0x0F,
            MachineState::TXRX_SWITCH => 0x10,
            MachineState::RXFIFO_OVERFLOW => 0x11,
            MachineState::FSTXON => 0x12,
            MachineState::TX => 0x13,
            MachineState::TX_END => 0x14,
            MachineState::RXTX_SWITCH => 0x15,
            MachineState::TXFIFO_UNDERFLOW => 0x16,
        }
    }

    /// See [`MachineState::spec_value`].
    #[verifier::when_used_as_spec(spec_value)]
    pub fn value(self) -> (v: u8)
        ensures
            v == self.spec_value(),
            v <= 0x16,
    {
        match self {
            MachineState::SLEEP => 0x00,
            MachineState::IDLE => 0x01,
            MachineState::XOFF => 0x02,
            MachineState::VCOON_MC => 0x03,
            MachineState::REGON_MC => 0x04,
            MachineState::MANCAL => 0x05,
            MachineState::VCOON => 0x06,
            MachineState::REGON => 0x07,
            MachineState::STARTCAL => 0x08,
            MachineState::BWBOOST => 0x09,
            MachineState::FS_LOCK => 0x0A,
            MachineState::IFADCON => 0x0B,
            MachineState::ENDCAL => 0x0C,
            MachineState::RX => 0x0D,
            MachineState::RX_END => 0x0E,
            MachineState::RX_RST => 0x0F,
            MachineState::TXRX_SWITCH => 0x10,
            MachineState::RXFIFO_OVERFLOW => 0x11,
            MachineState::FSTXON => 0x12,
            MachineState::TX => 0x13,
            MachineState::TX_END => 0x14,
            MachineState::RXTX_SWITCH => 0x15,
            MachineState::TXFIFO_UNDERFLOW => 0x16,
        }
    }

    /// The state with the given code, if there is one. The codes run from
    /// `0x00` to `0x16` without a gap.
    pub open spec fn decode(value: u8) -> Result<MachineState, MachineStateError> {
        match value {
            0x00 => Ok(MachineState::SLEEP),
            0x01 => Ok(MachineState::IDLE),
            0x02 => Ok(MachineState::XOFF),
            0x03 => Ok(MachineState::VCOON_MC),
            0x04 => Ok(MachineState::REGON_MC),
            0x05 => Ok(MachineState::MANCAL),
            0x06 => Ok(MachineState::VCOON),
            0x07 => Ok(MachineState::REGON),
            0x08 => Ok(MachineState::STARTCAL),
            0x09 => Ok(MachineState::BWBOOST),
            0x0A => Ok(MachineState::FS_LOCK),
            0x0B => Ok(MachineState::IFADCON),
            0x0C => Ok(MachineState::ENDCAL),
            0x0D => Ok(MachineState::RX),
            0x0E => Ok(MachineState::RX_END),
            0x0F => Ok(MachineState::RX_RST),
            0x10 => Ok(MachineState::TXRX_SWITCH),
            0x11 => Ok(MachineState::RXFIFO_OVERFLOW),
            0x12 => Ok(MachineState::FSTXON),
            0x13 => Ok(MachineState::TX),
            0x14 => Ok(MachineState::TX_END),
            0x15 => Ok(MachineState::RXTX_SWITCH),
            0x16 => Ok(MachineState::TXFIFO_UNDERFLOW),
            _ => Err(MachineStateError::InvalidState(value)),
        }
    }
}

impl From<MachineState> for u8 {
    fn from(value: MachineState) -> (v: u8) {
        value.value()
    }
}

impl FromSpecImpl<MachineState> for u8 {
    open spec fn obeys_from_spec() -> bool {
        true
    }

    open spec fn from_spec(value: MachineState) -> u8 {
        value.spec_value()
    }
}

impl TryFrom<u8> for MachineState {
    type Error = MachineStateError;

    fn try_from(value: u8) -> (r: Result<MachineState, MachineStateError>) {
        match value {
            0x00 => Ok(MachineState::SLEEP),
            0x01 => Ok(MachineState::IDLE),
            0x02 => Ok(MachineState::XOFF),
            0x03 => Ok(MachineState::VCOON_MC),
            0x04 => Ok(MachineState::REGON_MC),
            0x05 => Ok(MachineState::MANCAL),
            0x06 => Ok(MachineState::VCOON),
            0x07 => Ok(MachineState::REGON),
            0x08 => Ok(MachineState::STARTCAL),
            0x09 => Ok(MachineState::BWBOOST),
            0x0A => Ok(MachineState::FS_LOCK),
            0x0B => Ok(MachineState::IFADCON),
            0x0C => Ok(MachineState::ENDCAL),
            0x0D => Ok(MachineState::RX),
            0x0E => Ok(MachineState::RX_END),
            0x0F => Ok(MachineState::RX_RST),
            0x10 => Ok(MachineState::TXRX_SWITCH),
            0x11 => Ok(MachineState::RXFIFO_OVERFLOW),
            0x12 => Ok(MachineState::FSTXON),
            0x13 => Ok(MachineState::TX),
            0x14 => Ok(MachineState::TX_END),
            0x15 => Ok(MachineState::RXTX_SWITCH),
            0x16 => Ok(MachineState::TXFIFO_UNDERFLOW),
            _ => Err(MachineStateError::InvalidState(value)),
        }
    }
}

impl TryFromSpecImpl<u8> for MachineState {
    open spec fn obeys_try_from_spec() -> bool {
        true
    }

    open spec fn try_from_spec(value: u8) -> Result<MachineState, MachineStateError> {
        MachineState::decode(value)
    }
}

/// A code decodes to a state exactly when it is at most `0x16`; the state
/// then has that code, and a rejected code is handed back in the error.
pub proof fn lemma_decode_range(value: u8)
    ensures
        MachineState::decode(value) is Ok <==> value <= 0x16,
        MachineState::decode(value) matches Ok(state) ==> state.spec_value() == value,
        MachineState::decode(value) matches Err(e) ==> e == MachineStateError::InvalidState(
            value,
        ),
{
}

/// Every state decodes from its own code.
pub proof fn lemma_decode_value(state: MachineState)
    ensures
        MachineState::decode(state.spec_value()) == Ok::<MachineState, MachineStateError>(state),
{
}

} // verus!
