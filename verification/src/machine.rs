//! The driver as a state machine.
//!
//! The driver never performs an exchange itself. It says which frame to
//! exchange next, and is told what came back; from that it decides what
//! follows. This module holds the mathematical model of that machine: its
//! state, and for each operation and each response the state that follows
//! and the move that the driver makes.

use vstd::prelude::*;
use crate::lowlevel::access::Access;
use crate::lowlevel::convert::{
    chanbw_exponent, chanbw_mantissa, deviation_exponent, deviation_mantissa, drate_setting,
    freq_if_value, frequency_word,
};
use crate::lowlevel::registers::{
    Command, Config, ConfigField, Edit, Register, Status, StatusByte, StatusField,
};
use crate::lowlevel::types::{AutoCalibration, MachineState, PacketStatus};
use crate::lowlevel::{
    blanks, spec_fifo_frame, spec_read_frame, spec_strobe_frame, spec_write_frame,
};
use crate::rssi::rssi_dbm;
use crate::types::{AddressFilter, Modulation, PacketLength, RadioMode, SyncMode};

verus! {

/// Why an operation failed.
#[derive(Copy, Clone, Debug, PartialEq, Eq, Structural)]
pub enum Error {
    /// The exchange failed, or what came back is not a response to the
    /// frame that was sent. The operation ends at once.
    Transport,
    /// The chip reported a machine state code that stands for no state.
    InvalidState(u8),
    /// The RX FIFO buffer overflowed.
    RxOverflow,
    /// The TX FIFO buffer underflowed.
    TxUnderflow,
    /// Corrupt packet received with invalid CRC.
    CrcMismatch,
    /// Packets carry a length byte and none was supplied.
    MissingLengthParameter,
    /// Packets carry an address byte and none was supplied.
    MissingAddressParameter,
    /// Received packets carry RSSI and LQI and no place for them was
    /// supplied.
    MissingRxStatusParameters,
    /// The payload, of the length given, does not fit the FIFO together
    /// with the optional fields.
    ArrayTooLong(usize),
    /// The chip did not reach the awaited condition within the poll limit.
    Timeout,
}

/// What a finished operation reports.
#[derive(Copy, Clone, Debug, PartialEq, Eq, Structural)]
pub enum Reply {
    /// Nothing beyond its completion.
    Done,
    /// A register value, a field of one, or a byte count.
    Byte(u8),
    /// Part number and version of the chip.
    HwInfo { partnum: u8, version: u8 },
    /// A signal level in dBm.
    Dbm(i16),
    /// The state of the main radio control state machine.
    State(MachineState),
    /// The flags of the packet status register.
    Status(PacketStatus),
    /// The length of the payload of a received packet.
    Received(u8),
}

/// What a register is read for.
#[derive(Copy, Clone, Debug, PartialEq, Eq, Structural)]
pub enum Probe {
    /// For its raw value.
    Raw,
    /// RSSI, for the signal level.
    Rssi,
    /// LQI, for the link quality.
    Lqi,
    /// PARTNUM; VERSION is read next.
    PartNum,
    /// VERSION, after the part number inside.
    Version(u8),
    /// RXBYTES, for the fill of the RX FIFO.
    RxBytes,
    /// TXBYTES, for the fill of the TX FIFO.
    TxBytes,
    /// MARCSTATE, for the machine state.
    MarcState,
    /// PKTSTATUS, for the packet status flags.
    PktStatus,
}

/// What a poll of the machine state waits for.
#[derive(Copy, Clone, Debug, PartialEq, Eq, Structural)]
pub enum Wait {
    /// Idle, on the way to the mode inside.
    Left(RadioMode),
    /// The state of the mode inside, after its strobe.
    Entered(RadioMode),
    /// Idle, after a packet of the given payload length was taken from
    /// the FIFO; `crc_ok` is what the link quality register said of it.
    Drained { length: u8, crc_ok: bool },
}

/// How a receive ends once the FIFO is flushed.
#[derive(Copy, Clone, Debug, PartialEq, Eq, Structural)]
pub enum Outcome {
    /// With a packet of the given payload length.
    Packet(u8),
    /// With a failure.
    Fault(Error),
}

/// Where the driver is in its operation: which exchange is in flight.
#[derive(Copy, Clone, Debug, PartialEq, Eq, Structural)]
pub enum Phase {
    /// No operation is in flight.
    Ready,
    /// A command strobe.
    Strobe(Command),
    /// A register write.
    Write,
    /// The read of a read-modify-write that makes the change.
    Modify(Edit),
    /// A register read.
    Read(Probe),
    /// A FIFO burst with `optional` optional fields and `payload` payload
    /// bytes.
    Fifo { access: Access, optional: usize, payload: usize },
    /// The idle strobe that opens a change to the mode.
    Leave(RadioMode),
    /// The mode's own strobe.
    Enter(RadioMode),
    /// A poll of the machine state; the number counts the polls of this
    /// wait, the one in flight included.
    Await(Wait, u32),
    /// A poll of the RX FIFO fill for a receive into `len` bytes; `last`
    /// is the count that the poll before saw, `polls` counts the polls.
    Settle { last: u8, polls: u32, len: u8 },
    /// The FIFO burst of a receive into `len` bytes.
    Drain { len: u8 },
    /// The read of the link quality register after a packet of the given
    /// payload length was taken.
    Quality { length: u8 },
    /// The flush strobe that ends a receive with the outcome inside.
    Flush(Outcome),
}

/// The move that the driver makes.
pub enum Move {
    /// It asks for an exchange of the frame: all its bytes are clocked out
    /// within one assertion of chip select, and as many are clocked in.
    Exchange(Seq<u8>),
    /// The operation has finished.
    Finished(Reply),
    /// The operation has failed.
    Failed(Error),
}

/// The state of the driver.
pub struct Machine {
    /// The chip status byte of the last exchange, where that exchange
    /// gave a valid one.
    pub status: Option<StatusByte>,
    /// Packets carry their length as their first byte.
    pub length_field: bool,
    /// Packets carry an address byte.
    pub address_field: bool,
    /// Received packets are followed by RSSI and LQI.
    pub status_fields: bool,
    /// The most polls that one wait may take.
    pub poll_limit: u32,
    /// Which exchange is in flight.
    pub phase: Phase,
    /// The register writes that follow the exchange in flight.
    pub queue: Seq<(Config, u8)>,
    /// What the last FIFO access clocked in at its optional fields.
    pub fields: Seq<u8>,
    /// What the last FIFO access clocked in at its payload.
    pub data: Seq<u8>,
    /// The raw RSSI that followed the payload of the last FIFO read.
    pub rssi: Option<u8>,
    /// The LQI byte that followed the payload of the last FIFO read.
    pub lqi: Option<u8>,
}

/// The reset value of a configuration register with one field changed.
pub open spec fn preset(field: ConfigField, value: u8) -> u8 {
    field.spec_write(field.spec_register().spec_reset_value(), value)
}

/// The register writes that set the driver's default configuration, after
/// the chip was reset.
pub open spec fn defaults() -> Seq<(Config, u8)> {
    seq![
        (Config::PKTCTRL0, preset(ConfigField::PKTCTRL0_WHITE_DATA, 0)),
        (Config::FSCTRL1, preset(ConfigField::FSCTRL1_FREQ_IF, 0x08)),
        (
            Config::MDMCFG4,
            ConfigField::MDMCFG4_CHANBW_M.spec_write(
                preset(ConfigField::MDMCFG4_CHANBW_E, 0x03),
                0,
            ),
        ),
        (Config::MDMCFG2, preset(ConfigField::MDMCFG2_DEM_DCFILT_OFF, 1)),
        (
            Config::MCSM0,
            preset(ConfigField::MCSM0_FS_AUTOCAL, AutoCalibration::FromIdle.spec_value()),
        ),
        (Config::AGCCTRL2, preset(ConfigField::AGCCTRL2_MAX_LNA_GAIN, 0x04)),
    ]
}

impl Wait {
    /// The machine state that ends the wait.
    pub open spec fn target(self) -> MachineState {
        match self {
            Wait::Left(_) => MachineState::IDLE,
            Wait::Entered(mode) => mode.spec_state(),
            Wait::Drained { .. } => MachineState::IDLE,
        }
    }
}

impl Phase {
    /// The mode that the operation in flight is changing to, if it is a
    /// change of mode.
    pub open spec fn goal(self) -> Option<RadioMode> {
        match self {
            Phase::Leave(mode) => Some(mode),
            Phase::Enter(mode) => Some(mode),
            Phase::Await(Wait::Left(mode), _) => Some(mode),
            Phase::Await(Wait::Entered(mode), _) => Some(mode),
            _ => None,
        }
    }

    /// Whether the operation in flight is a receive.
    pub open spec fn receiving(self) -> bool {
        match self {
            Phase::Settle { .. } => true,
            Phase::Drain { .. } => true,
            Phase::Quality { .. } => true,
            Phase::Await(Wait::Drained { .. }, _) => true,
            Phase::Flush(_) => true,
            _ => false,
        }
    }
}

impl Machine {
    /// The state of a new driver: nothing known of the chip, no optional
    /// fields, nothing in flight.
    pub open spec fn initial(poll_limit: u32) -> Machine {
        Machine {
            status: None,
            length_field: false,
            address_field: false,
            status_fields: false,
            poll_limit,
            phase: Phase::Ready,
            queue: Seq::empty(),
            fields: Seq::empty(),
            data: Seq::empty(),
            rssi: None,
            lqi: None,
        }
    }

    /// How many optional fields a packet carries in the FIFO: the length
    /// byte and the address byte, as far as each is configured.
    pub open spec fn optional_count(self) -> nat {
        (if self.length_field {
            1nat
        } else {
            0nat
        }) + (if self.address_field {
            1nat
        } else {
            0nat
        })
    }

    /// The optional fields of a packet to send, length first.
    pub open spec fn optional_fields(self, length: Option<u8>, address: Option<u8>) -> Seq<u8>
        recommends
            self.length_field ==> length is Some,
            self.address_field ==> address is Some,
    {
        (if self.length_field {
            seq![length.unwrap()]
        } else {
            Seq::<u8>::empty()
        }) + (if self.address_field {
            seq![address.unwrap()]
        } else {
            Seq::<u8>::empty()
        })
    }

    /// The length byte that the last FIFO access clocked in, where packets
    /// carry one.
    pub open spec fn length(self) -> Option<u8> {
        if self.length_field && self.fields.len() >= 1 {
            Some(self.fields[0])
        } else {
            None
        }
    }

    /// The address byte that the last FIFO access clocked in, where
    /// packets carry one. It follows the length byte.
    pub open spec fn address(self) -> Option<u8> {
        let at: int = if self.length_field {
            1
        } else {
            0
        };
        if self.address_field && self.fields.len() > at {
            Some(self.fields[at])
        } else {
            None
        }
    }

    /// The number of bytes that the response to the frame in flight has:
    /// as many as the frame.
    pub open spec fn awaited(self) -> nat {
        match self.phase {
            Phase::Ready => 0,
            Phase::Strobe(_) => 1,
            Phase::Leave(_) => 1,
            Phase::Enter(_) => 1,
            Phase::Flush(_) => 1,
            Phase::Write => 2,
            Phase::Modify(_) => 2,
            Phase::Read(_) => 2,
            Phase::Await(_, _) => 2,
            Phase::Settle { .. } => 2,
            Phase::Quality { .. } => 2,
            Phase::Fifo { optional, payload, .. } => 1 + optional as nat + payload as nat,
            Phase::Drain { len } => 1 + self.optional_count() + len as nat,
        }
    }

    /// The operation ends with a failure.
    pub open spec fn fail(self, error: Error) -> (Machine, Move) {
        (Machine { phase: Phase::Ready, queue: Seq::empty(), ..self }, Move::Failed(error))
    }

    /// The operation ends with a reply.
    pub open spec fn finish(self, reply: Reply) -> (Machine, Move) {
        (Machine { phase: Phase::Ready, queue: Seq::empty(), ..self }, Move::Finished(reply))
    }

    /// The operation goes on with an exchange.
    pub open spec fn send(self, phase: Phase, frame: Seq<u8>) -> (Machine, Move) {
        (Machine { phase, ..self }, Move::Exchange(frame))
    }

    /// The response to a register access or a FIFO burst was taken: its
    /// first byte is the chip status.
    pub open spec fn heard(self, response: Seq<u8>) -> Machine {
        Machine { status: Some(StatusByte::spec_from(response[0])), ..self }
    }

    /// The response to a strobe was taken. Only the no-operation strobe
    /// gives a chip status that can be relied on; after any other, the
    /// status is unknown.
    pub open spec fn strobed(self, command: Command, response: Seq<u8>) -> Machine {
        if command == Command::SNOP {
            self.heard(response)
        } else {
            Machine { status: None, ..self }
        }
    }

    /// The response to a FIFO burst with `optional` optional fields was
    /// taken. On a read with appended status, the last two bytes of the
    /// payload are RSSI and LQI; they are kept apart, and their places in
    /// the payload are zeroed.
    pub open spec fn filled(self, access: Access, optional: nat, response: Seq<u8>) -> Machine
        recommends
            response.len() >= 1 + optional,
    {
        let fields = response.subrange(1, 1 + optional as int);
        let data = response.subrange(1 + optional as int, response.len() as int);
        let n = data.len() as int;
        if access == Access::Read && self.status_fields && n >= 2 {
            Machine {
                fields,
                data: data.update(n - 2, 0u8).update(n - 1, 0u8),
                rssi: Some(data[n - 2]),
                lqi: Some(data[n - 1]),
                ..self
            }
        } else {
            Machine { fields, data, rssi: None, lqi: None, ..self }
        }
    }

    /// The queued register writes are sent one by one; the operation
    /// finishes when none is left.
    pub open spec fn proceed(self) -> (Machine, Move) {
        if self.queue.len() == 0 {
            self.finish(Reply::Done)
        } else {
            Machine { queue: self.queue.drop_first(), ..self }.send(
                Phase::Write,
                spec_write_frame(Register::Config(self.queue[0].0), self.queue[0].1),
            )
        }
    }

    /// A register was read for `probe` and held `value`.
    pub open spec fn probed(self, probe: Probe, value: u8) -> (Machine, Move) {
        match probe {
            Probe::Raw => self.finish(Reply::Byte(value)),
            Probe::Rssi => self.finish(Reply::Dbm(rssi_dbm(value) as i16)),
            Probe::Lqi => self.finish(Reply::Byte(StatusField::LQI_LQI.spec_read(value))),
            Probe::PartNum => self.send(
                Phase::Read(Probe::Version(value)),
                spec_read_frame(Register::Status(Status::VERSION)),
            ),
            Probe::Version(partnum) => self.finish(Reply::HwInfo { partnum, version: value }),
            Probe::RxBytes => if StatusField::RXBYTES_RXFIFO_OVERFLOW.spec_read(value) == 1 {
                self.fail(Error::RxOverflow)
            } else {
                self.finish(Reply::Byte(StatusField::RXBYTES_NUM_RXBYTES.spec_read(value)))
            },
            Probe::TxBytes => if StatusField::TXBYTES_TXFIFO_UNDERFLOW.spec_read(value) == 1 {
                self.fail(Error::TxUnderflow)
            } else {
                self.finish(Reply::Byte(StatusField::TXBYTES_NUM_TXBYTES.spec_read(value)))
            },
            Probe::MarcState => match MachineState::decode(
                StatusField::MARCSTATE_MARC_STATE.spec_read(value),
            ) {
                Ok(state) => self.finish(Reply::State(state)),
                Err(_) => self.fail(
                    Error::InvalidState(StatusField::MARCSTATE_MARC_STATE.spec_read(value)),
                ),
            },
            Probe::PktStatus => self.finish(Reply::Status(PacketStatus::spec_from(value))),
        }
    }

    /// The wait has used up the poll limit. A change of mode fails at
    /// once; a receive fails after the RX FIFO was flushed.
    pub open spec fn timed_out(self, wait: Wait) -> (Machine, Move) {
        match wait {
            Wait::Drained { .. } => self.flush(Outcome::Fault(Error::Timeout)),
            _ => self.fail(Error::Timeout),
        }
    }

    /// The machine state is polled once more, unless `polls` polls of this
    /// wait have used up the limit.
    pub open spec fn watch(self, wait: Wait, polls: u32) -> (Machine, Move) {
        if polls >= self.poll_limit {
            self.timed_out(wait)
        } else {
            self.send(
                Phase::Await(wait, (polls + 1) as u32),
                spec_read_frame(Register::Status(Status::MARCSTATE)),
            )
        }
    }

    /// The awaited machine state was seen.
    pub open spec fn arrived(self, wait: Wait) -> (Machine, Move) {
        match wait {
            Wait::Left(RadioMode::Idle) => self.finish(Reply::Done),
            Wait::Left(mode) => self.send(
                Phase::Enter(mode),
                spec_strobe_frame(mode.spec_command()),
            ),
            Wait::Entered(_) => self.finish(Reply::Done),
            Wait::Drained { length, crc_ok } => self.flush(
                if crc_ok {
                    Outcome::Packet(length)
                } else {
                    Outcome::Fault(Error::CrcMismatch)
                },
            ),
        }
    }

    /// A poll of the machine state came back with `value`. A code that
    /// stands for no state ends the operation; the awaited state ends the
    /// wait; any other state is polled again.
    pub open spec fn observed(self, wait: Wait, polls: u32, value: u8) -> (Machine, Move) {
        match MachineState::decode(StatusField::MARCSTATE_MARC_STATE.spec_read(value)) {
            Ok(state) => if state == wait.target() {
                self.arrived(wait)
            } else {
                self.watch(wait, polls)
            },
            Err(_) => self.fail(
                Error::InvalidState(StatusField::MARCSTATE_MARC_STATE.spec_read(value)),
            ),
        }
    }

    /// The RX FIFO is flushed, and the receive then ends with `outcome`.
    pub open spec fn flush(self, outcome: Outcome) -> (Machine, Move) {
        self.send(Phase::Flush(outcome), spec_strobe_frame(Command::SFRX))
    }

    /// The fill of the RX FIFO is polled once more, unless `polls` polls
    /// have used up the limit; then the FIFO is flushed and the receive
    /// ends as timed out.
    pub open spec fn settle(self, last: u8, polls: u32, len: u8) -> (Machine, Move) {
        if polls >= self.poll_limit {
            self.flush(Outcome::Fault(Error::Timeout))
        } else {
            self.send(
                Phase::Settle { last, polls: (polls + 1) as u32, len },
                spec_read_frame(Register::Status(Status::RXBYTES)),
            )
        }
    }

    /// A poll of the RX FIFO fill came back with `value`. An overflow ends
    /// the receive after a flush. A count above zero that the poll before
    /// saw too is stable, and the FIFO is read; any other count is polled
    /// again.
    pub open spec fn counted(self, last: u8, polls: u32, len: u8, value: u8) -> (Machine, Move) {
        let count = StatusField::RXBYTES_NUM_RXBYTES.spec_read(value);
        if StatusField::RXBYTES_RXFIFO_OVERFLOW.spec_read(value) == 1 {
            self.flush(Outcome::Fault(Error::RxOverflow))
        } else if count > 0 && count == last {
            self.send(
                Phase::Drain { len },
                spec_fifo_frame(
                    Access::Read,
                    Seq::empty(),
                    blanks(self.optional_count() + len as nat),
                ),
            )
        } else {
            self.settle(count, polls, len)
        }
    }

    /// The length of the payload that a receive into `len` bytes took,
    /// once the FIFO burst has come back: the packet's length byte where
    /// packets carry one, else the number of bytes that are not appended
    /// status.
    pub open spec fn payload_length(self, len: u8) -> u8 {
        if self.length() is Some {
            self.length().unwrap()
        } else if self.rssi is Some {
            (len - 2) as u8
        } else {
            len
        }
    }

    /// The state and the move that follow when `response` comes back for
    /// the frame in flight.
    ///
    /// A response of another length than the frame, or one that comes
    /// when nothing is in flight, is a transport fault.
    pub open spec fn advance(self, response: Seq<u8>) -> (Machine, Move) {
        if self.phase is Ready || response.len() != self.awaited() {
            self.fail(Error::Transport)
        } else {
            match self.phase {
                Phase::Ready => self.fail(Error::Transport),
                Phase::Strobe(command) => self.strobed(command, response).proceed(),
                Phase::Write => self.heard(response).proceed(),
                Phase::Modify(edit) => self.heard(response).send(
                    Phase::Write,
                    spec_write_frame(
                        Register::Config(edit.spec_register()),
                        edit.spec_apply(response[1]),
                    ),
                ),
                Phase::Read(probe) => self.heard(response).probed(probe, response[1]),
                Phase::Fifo { access, optional, .. } => self.heard(response).filled(
                    access,
                    optional as nat,
                    response,
                ).finish(Reply::Done),
                Phase::Leave(mode) => self.strobed(Command::SIDLE, response).watch(
                    Wait::Left(mode),
                    0,
                ),
                Phase::Enter(mode) => self.strobed(mode.spec_command(), response).watch(
                    Wait::Entered(mode),
                    0,
                ),
                Phase::Await(wait, polls) => self.heard(response).observed(
                    wait,
                    polls,
                    response[1],
                ),
                Phase::Settle { last, polls, len } => self.heard(response).counted(
                    last,
                    polls,
                    len,
                    response[1],
                ),
                Phase::Drain { len } => {
                    let taken = self.heard(response).filled(
                        Access::Read,
                        self.optional_count(),
                        response,
                    );
                    taken.send(
                        Phase::Quality { length: taken.payload_length(len) },
                        spec_read_frame(Register::Status(Status::LQI)),
                    )
                },
                Phase::Quality { length } => self.heard(response).watch(
                    Wait::Drained {
                        length,
                        crc_ok: StatusField::LQI_CRC_OK.spec_read(response[1]) == 1,
                    },
                    0,
                ),
                Phase::Flush(outcome) => match outcome {
                    Outcome::Packet(length) => self.strobed(Command::SFRX, response).finish(
                        Reply::Received(length),
                    ),
                    Outcome::Fault(error) => self.strobed(Command::SFRX, response).fail(error),
                },
            }
        }
    }

    /// The exchange in flight failed: the operation ends at once as a
    /// transport fault, and nothing else changes.
    pub open spec fn abandon(self) -> (Machine, Move) {
        self.fail(Error::Transport)
    }

    /// An operation starts with an exchange, with no register writes
    /// queued behind it.
    pub open spec fn start(self, phase: Phase, frame: Seq<u8>) -> (Machine, Move) {
        Machine { queue: Seq::empty(), ..self }.send(phase, frame)
    }

    /// An operation starts with the write of one register, with more
    /// register writes queued behind it.
    pub open spec fn start_writes(self, first: (Config, u8), rest: Seq<(Config, u8)>) -> (
        Machine,
        Move,
    ) {
        Machine { queue: rest, ..self }.send(
            Phase::Write,
            spec_write_frame(Register::Config(first.0), first.1),
        )
    }

    /// An operation starts with a read-modify-write: the register is
    /// read, and written back with the change made. Register writes may be
    /// queued behind it.
    pub open spec fn start_modify(self, edit: Edit, rest: Seq<(Config, u8)>) -> (Machine, Move) {
        Machine { queue: rest, ..self }.send(
            Phase::Modify(edit),
            spec_read_frame(Register::Config(edit.spec_register())),
        )
    }

    /// What the last FIFO access clocked in is forgotten.
    pub open spec fn cleared(self) -> Machine {
        Machine { fields: Seq::empty(), data: Seq::empty(), rssi: None, lqi: None, ..self }
    }

    /// Reads a register for its raw value.
    pub open spec fn read_register(self, register: Register) -> (Machine, Move) {
        self.start(Phase::Read(Probe::Raw), spec_read_frame(register))
    }

    /// Writes a register.
    pub open spec fn write_register(self, register: Register, byte: u8) -> (Machine, Move) {
        self.start(Phase::Write, spec_write_frame(register, byte))
    }

    /// Sets one field of a configuration register and leaves the rest of
    /// the register as the chip holds it: a read-modify-write.
    pub open spec fn modify_register(self, field: ConfigField, value: u8) -> (Machine, Move) {
        self.start_modify(Edit::One(field, value), Seq::empty())
    }

    /// Sends a command strobe.
    pub open spec fn write_cmd_strobe(self, command: Command) -> (Machine, Move) {
        self.start(Phase::Strobe(command), spec_strobe_frame(command))
    }

    /// Exchanges optional fields and payload with a FIFO. What an earlier
    /// access clocked in is forgotten when the operation starts.
    pub open spec fn access_fifo(self, access: Access, optional: Seq<u8>, data: Seq<u8>) -> (
        Machine,
        Move,
    ) {
        self.cleared().start(
            Phase::Fifo {
                access,
                optional: optional.len() as usize,
                payload: data.len() as usize,
            },
            spec_fifo_frame(access, optional, data),
        )
    }

    /// Reads a packet with length byte and address byte before `len`
    /// payload bytes, whatever fields the driver has noted.
    pub open spec fn read_fifo(self, len: usize) -> (Machine, Move) {
        self.access_fifo(Access::Read, blanks(2), blanks(len as nat))
    }

    /// Sets the carrier frequency: the three bytes of the frequency word,
    /// lowest first.
    pub open spec fn set_frequency(self, hz: u64) -> (Machine, Move) {
        let word = frequency_word(hz);
        self.start_writes(
            (Config::FREQ0, (word % 256) as u8),
            seq![
                (Config::FREQ1, ((word / 256) % 256) as u8),
                (Config::FREQ2, ((word / 65536) % 256) as u8),
            ],
        )
    }

    /// Sets the frequency deviation: the deviation register's reset value
    /// with mantissa and exponent replaced.
    pub open spec fn set_deviation(self, deviation: u64) -> (Machine, Move) {
        self.start_writes(
            (
                Config::DEVIATN,
                ConfigField::DEVIATN_DEVIATION_E.spec_write(
                    preset(
                        ConfigField::DEVIATN_DEVIATION_M,
                        (deviation_mantissa(deviation) % 8) as u8,
                    ),
                    (deviation_exponent(deviation) % 8) as u8,
                ),
            ),
            Seq::empty(),
        )
    }

    /// Sets the data rate: the exponent replaces its field in what the
    /// chip holds, the mantissa is written whole.
    pub open spec fn set_data_rate(self, baud: u64) -> (Machine, Move) {
        self.start_modify(
            Edit::One(ConfigField::MDMCFG4_DRATE_E, drate_setting(baud).1 as u8),
            seq![
                (
                    Config::MDMCFG3,
                    preset(ConfigField::MDMCFG3_DRATE_M, drate_setting(baud).0 as u8),
                ),
            ],
        )
    }

    /// Sets the channel bandwidth: mantissa and exponent replace their
    /// fields in what the chip holds, in one read-modify-write.
    pub open spec fn set_chanbw(self, bandwidth: u64) -> (Machine, Move) {
        self.start_modify(
            Edit::Two(
                ConfigField::MDMCFG4_CHANBW_M,
                chanbw_mantissa(bandwidth) as u8,
                ConfigField::MDMCFG4_CHANBW_E,
                (chanbw_exponent(bandwidth) % 4) as u8,
            ),
            Seq::empty(),
        )
    }

    /// Sets the intermediate frequency: the setting replaces its field in
    /// what the chip holds.
    pub open spec fn set_freq_if(self, hz: u64) -> (Machine, Move) {
        self.start_modify(
            Edit::One(ConfigField::FSCTRL1_FREQ_IF, freq_if_value(hz) as u8),
            Seq::empty(),
        )
    }

    /// Reads part number and version.
    pub open spec fn get_hw_info(self) -> (Machine, Move) {
        self.start(Phase::Read(Probe::PartNum), spec_read_frame(Register::Status(Status::PARTNUM)))
    }

    /// Reads the signal level.
    pub open spec fn get_rssi_dbm(self) -> (Machine, Move) {
        self.start(Phase::Read(Probe::Rssi), spec_read_frame(Register::Status(Status::RSSI)))
    }

    /// Reads the link quality.
    pub open spec fn get_lqi(self) -> (Machine, Move) {
        self.start(Phase::Read(Probe::Lqi), spec_read_frame(Register::Status(Status::LQI)))
    }

    /// Reads the machine state.
    pub open spec fn get_machine_state(self) -> (Machine, Move) {
        self.start(
            Phase::Read(Probe::MarcState),
            spec_read_frame(Register::Status(Status::MARCSTATE)),
        )
    }

    /// Reads the packet status flags.
    pub open spec fn get_packet_status(self) -> (Machine, Move) {
        self.start(
            Phase::Read(Probe::PktStatus),
            spec_read_frame(Register::Status(Status::PKTSTATUS)),
        )
    }

    /// Reads the fill of the RX FIFO.
    pub open spec fn get_rx_bytes(self) -> (Machine, Move) {
        self.start(Phase::Read(Probe::RxBytes), spec_read_frame(Register::Status(Status::RXBYTES)))
    }

    /// Reads the fill of the TX FIFO.
    pub open spec fn get_tx_bytes(self) -> (Machine, Move) {
        self.start(Phase::Read(Probe::TxBytes), spec_read_frame(Register::Status(Status::TXBYTES)))
    }

    /// Sets the sync word check and the sync word, high byte first.
    pub open spec fn set_sync_mode(self, sync_mode: SyncMode) -> (Machine, Move) {
        self.start_modify(
            Edit::One(ConfigField::MDMCFG2_SYNC_MODE, sync_mode.spec_check().spec_value()),
            seq![
                (Config::SYNC1, (sync_mode.spec_word() / 256) as u8),
                (Config::SYNC0, (sync_mode.spec_word() % 256) as u8),
            ],
        )
    }

    /// Sets the modulation format.
    pub open spec fn set_modulation(self, format: Modulation) -> (Machine, Move) {
        self.start_modify(
            Edit::One(ConfigField::MDMCFG2_MOD_FORMAT, format.spec_format().spec_value()),
            Seq::empty(),
        )
    }

    /// Sets the address check and the device address. From now on packets
    /// carry an address byte exactly if addresses are checked.
    pub open spec fn set_address_filter(self, filter: AddressFilter) -> (Machine, Move) {
        Machine { address_field: filter.spec_has_address_field(), ..self }.start_modify(
            Edit::One(ConfigField::PKTCTRL1_ADR_CHK, filter.spec_check().spec_value()),
            seq![(Config::ADDR, filter.spec_address())],
        )
    }

    /// Sets the length mode and the packet length. From now on packets
    /// carry a length byte exactly if their length is variable.
    pub open spec fn set_packet_length(self, length: PacketLength) -> (Machine, Move) {
        Machine { length_field: length.spec_has_length_field(), ..self }.start_modify(
            Edit::One(ConfigField::PKTCTRL0_LENGTH_CONFIG, length.spec_config().spec_value()),
            seq![(Config::PKTLEN, length.spec_limit())],
        )
    }

    /// Tells the chip whether to append RSSI and LQI to received packets.
    /// From now on received packets are taken to end accordingly.
    pub open spec fn set_append_status(self, enable: bool) -> (Machine, Move) {
        Machine { status_fields: enable, ..self }.start_modify(
            Edit::One(
                ConfigField::PKTCTRL1_APPEND_STATUS,
                if enable {
                    1u8
                } else {
                    0u8
                },
            ),
            Seq::empty(),
        )
    }

    /// Changes the radio mode. Whatever the mode, the chip is first sent
    /// to idle.
    pub open spec fn set_radio_mode(self, radio_mode: RadioMode) -> (Machine, Move) {
        self.start(Phase::Leave(radio_mode), spec_strobe_frame(Command::SIDLE))
    }

    /// Resets the chip and writes the default configuration.
    pub open spec fn set_defaults(self) -> (Machine, Move) {
        Machine { queue: defaults(), ..self }.send(
            Phase::Strobe(Command::SRES),
            spec_strobe_frame(Command::SRES),
        )
    }

    /// The fault in what the caller supplied for a FIFO transfer of `len`
    /// payload bytes, if there is one. A field that packets carry must be
    /// supplied, and fields and payload together must fit the FIFO.
    pub open spec fn framing_fault(self, length: bool, address: bool, status: bool, len: nat)
        -> Option<Error> {
        if self.length_field && !length {
            Some(Error::MissingLengthParameter)
        } else if self.address_field && !address {
            Some(Error::MissingAddressParameter)
        } else if self.status_fields && !status {
            Some(Error::MissingRxStatusParameters)
        } else if self.optional_count() + len > 64 {
            Some(Error::ArrayTooLong(len as usize))
        } else {
            None
        }
    }

    /// Writes a packet to the TX FIFO: the optional fields that packets
    /// carry, then the payload. A fault in what was supplied fails the
    /// operation before anything is exchanged or changed.
    pub open spec fn write_data(self, length: Option<u8>, address: Option<u8>, data: Seq<u8>) -> (
        Machine,
        Move,
    ) {
        match self.framing_fault(length is Some, address is Some, true, data.len()) {
            Some(error) => (self, Move::Failed(error)),
            None => self.cleared().start(
                Phase::Fifo {
                    access: Access::Write,
                    optional: self.optional_count() as usize,
                    payload: data.len() as usize,
                },
                spec_fifo_frame(Access::Write, self.optional_fields(length, address), data),
            ),
        }
    }

    /// Reads a packet of `len` payload bytes from the RX FIFO, with the
    /// optional fields that packets carry before it. The arguments say for
    /// which of length, address and appended status the caller has a
    /// place. A fault in that fails the operation before anything is
    /// exchanged or changed.
    pub open spec fn read_data(self, length: bool, address: bool, status: bool, len: usize) -> (
        Machine,
        Move,
    ) {
        match self.framing_fault(length, address, status, len as nat) {
            Some(error) => (self, Move::Failed(error)),
            None => self.cleared().start(
                Phase::Fifo {
                    access: Access::Read,
                    optional: self.optional_count() as usize,
                    payload: len,
                },
                spec_fifo_frame(
                    Access::Read,
                    Seq::empty(),
                    blanks(self.optional_count() + len as nat),
                ),
            ),
        }
    }

    /// Receives a packet into `len` bytes. A payload that cannot fit the
    /// FIFO fails the operation before anything is exchanged or changed.
    /// Else what an earlier FIFO access clocked in is forgotten, so that
    /// whatever the driver holds afterwards is of this receive.
    pub open spec fn receive(self, len: usize) -> (Machine, Move) {
        if self.optional_count() + len > 64 {
            (self, Move::Failed(Error::ArrayTooLong(len)))
        } else {
            Machine { queue: Seq::empty(), ..self.cleared() }.settle(0, 0, len as u8)
        }
    }
}

} // verus!
