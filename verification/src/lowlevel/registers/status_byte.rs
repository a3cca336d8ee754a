//! The chip status byte that heads every response.

use vstd::prelude::*;
use vstd::std_specs::convert::FromSpecImpl;
use crate::lowlevel::traits::{lemma_low_mask_values, Field};

verus! {

/// The coarse state of the main state machine, as the status byte reports it.
#[allow(non_camel_case_types)]
#[derive(Copy, Clone, Debug, PartialEq, Eq, Structural)]
pub enum State {
    /// IDLE state (Also reported for some transitional states instead of SETTLING or CALIBRATE)
    IDLE,
    /// Receive mode
    RX,
    /// Transmit mode
    TX,
    /// Fast TX ready
    FSTXON,
    /// Frequency synthesizer calibration is running
    CALIBRATE,
    /// PLL is settling
    SETTLING,
    /// RX FIFO has overflowed. Read out any useful data, then flush the FIFO with SFRX
    RXFIFO_OVERFLOW,
    /// TX FIFO has underflowed. Acknowledge with SFTX
    TXFIFO_UNDERFLOW,
}

impl State {
    /// The state that a three-bit code stands for.
    pub open spec fn spec_from(value: u8) -> State
        recommends
            value <= 7,
    {
        if value == 0 {
            State::IDLE
        } else if value == 1 {
            State::RX
        } else if value == 2 {
            State::TX
        } else if value == 3 {
            State::FSTXON
        } else if value == 4 {
            State::CALIBRATE
        } else if value == 5 {
            State::SETTLING
        } else if value == 6 {
            State::RXFIFO_OVERFLOW
        } else {
            State::TXFIFO_UNDERFLOW
        }
    }

    /// The three-bit code of the state.
    pub open spec fn spec_value(self) -> u8 {
        match self {
            State::IDLE => 0,
            State::RX => 1,
            State::TX => 2,
            State::FSTXON => 3,
            State::CALIBRATE => 4,
            State::SETTLING => 5,
            State::RXFIFO_OVERFLOW => 6,
            State::TXFIFO_UNDERFLOW => 7,
        }
    }

    /// Decodes a three-bit state code.
    pub fn from(value: u8) -> (state: State)
        requires
            value <= 7,
        ensures
            state == State::spec_from(value),
            state.spec_value() == value,
    {
        match value {
            0 => State::IDLE,
            1 => State::RX,
            2 => State::TX,
            3 => State::FSTXON,
            4 => State::CALIBRATE,
            5 => State::SETTLING,
            6 => State::RXFIFO_OVERFLOW,
            _ => State::TXFIFO_UNDERFLOW,
        }
    }

    /// See [`State::spec_value`].
    #[verifier::when_used_as_spec(spec_value)]
    pub fn value(self) -> (v: u8)
        ensures
            v == self.spec_value(),
            State::spec_from(v) == self,
    {
        match self {
            State::IDLE => 0,
            State::RX => 1,
            State::TX => 2,
            State::FSTXON => 3,
            State::CALIBRATE => 4,
            State::SETTLING => 5,
            State::RXFIFO_OVERFLOW => 6,
            State::TXFIFO_UNDERFLOW => 7,
        }
    }
}

impl Default for State {
    fn default() -> (state: State)
        ensures
            state == State::IDLE,
    {
        State::IDLE
    }
}

/// The decoded chip status byte.
#[derive(Copy, Clone, Debug, PartialEq, Eq, Structural)]
pub struct StatusByte {
    /// Power and crystal are stable: bit 7 of the byte is clear.
    pub chip_rdy: bool,
    /// Bits 6 to 4: the coarse state of the main state machine.
    pub state: State,
    /// Bits 3 to 0: bytes available in the RX FIFO, or free in the TX FIFO.
    pub fifo_bytes_available: u8,
}

/// The not-ready flag: bit 7.
pub open spec fn chip_rdyn_field() -> Field {
    Field { offset: 7, width: 1 }
}

/// The state code: bits 6 to 4.
pub open spec fn state_field() -> Field {
    Field { offset: 4, width: 3 }
}

/// The FIFO count: bits 3 to 0.
pub open spec fn fifo_bytes_available_field() -> Field {
    Field { offset: 0, width: 4 }
}

impl StatusByte {
    /// The value that the status byte has before the chip is ready.
    pub const RESET_VALUE: u8 = 0x80;

    /// What a raw status byte says.
    pub open spec fn spec_from(value: u8) -> StatusByte {
        StatusByte {
            chip_rdy: chip_rdyn_field().spec_read(value) == 0,
            state: State::spec_from(state_field().spec_read(value)),
            fifo_bytes_available: fifo_bytes_available_field().spec_read(value),
        }
    }
}

/// Decodes a raw status byte.
impl From<u8> for StatusByte {
    fn from(value: u8) -> (status: StatusByte) {
        let rdyn = Field { offset: 7, width: 1 }.read(value);
        let state = Field { offset: 4, width: 3 }.read(value);
        let count = Field { offset: 0, width: 4 }.read(value);
        proof {
            lemma_low_mask_values();
        }
        StatusByte { chip_rdy: rdyn == 0, state: State::from(state), fifo_bytes_available: count }
    }
}

impl FromSpecImpl<u8> for StatusByte {
    open spec fn obeys_from_spec() -> bool {
        true
    }

    open spec fn from_spec(value: u8) -> StatusByte {
        StatusByte::spec_from(value)
    }
}

impl Default for StatusByte {
    fn default() -> (status: StatusByte)
        ensures
            status == (StatusByte { chip_rdy: false, state: State::IDLE, fifo_bytes_available: 0 }),
    {
        StatusByte { chip_rdy: false, state: State::IDLE, fifo_bytes_available: 0 }
    }
}

/// The three parts of the status byte, in plain arithmetic: the ready flag
/// is set below 128, the state code is the high nibble without its top
/// bit, the count is the low nibble.
pub proof fn lemma_status_byte_parts(value: u8)
    ensures
        StatusByte::spec_from(value).chip_rdy == (value < 128),
        StatusByte::spec_from(value).state == State::spec_from(((value / 16) % 8) as u8),
        StatusByte::spec_from(value).fifo_bytes_available == value % 16,
        StatusByte::spec_from(value).fifo_bytes_available <= 15,
{
    assert(((value >> 7u8) & crate::lowlevel::traits::low_mask(1) == 0) == (value < 128))
        by (bit_vector);
    assert((value >> 4u8) & crate::lowlevel::traits::low_mask(3) == (value / 16) % 8)
        by (bit_vector);
    assert((value >> 0u8) & crate::lowlevel::traits::low_mask(4) == value % 16) by (bit_vector);
}

} // verus!
