//! The driver.
//!
//! A [`Cc1101`] is the executable form of the state machine of
//! [`crate::machine`]: each of its operations, and [`Cc1101::advance`],
//! is proved to make exactly the move that the model prescribes.

use vstd::prelude::*;
use vstd::slice::{slice_subrange, slice_to_vec};
use crate::lowlevel::access::Access;
use crate::lowlevel::convert::{
    chanbw_in_range, deviation_in_range, drate_fits, freq_if_value, from_chanbw, from_deviation,
    from_drate, from_freq_if, from_frequency, lemma_drate_fits,
};
use crate::lowlevel::registers::{
    Command, Config, ConfigField, Edit, Register, Status, StatusByte, StatusField, W,
};
use crate::lowlevel::traits::lemma_low_mask_values;
use crate::lowlevel::types::{AutoCalibration, MachineState, PacketStatus};
use crate::lowlevel::{
    blanks, fifo_frame, fifo_read_frame, read_frame, strobe_frame, write_frame, BLANK_BYTE,
};
use crate::machine::{defaults, Error, Machine, Move, Outcome, Phase, Probe, Reply, Wait};
use crate::rssi::rssi_to_dbm;
use crate::types::{AddressFilter, Modulation, PacketLength, RadioMode, SyncMode};

verus! {

/// The most polls that one wait takes unless another limit is set.
pub const DEFAULT_POLL_LIMIT: u32 = 10_000;

/// What the driver asks of its caller next.
#[derive(Debug, PartialEq, Eq)]
pub enum Step {
    /// Exchange this frame with the chip within one assertion of chip
    /// select, and hand what was clocked in to [`Cc1101::advance`]; if
    /// the exchange fails, call [`Cc1101::abandon`].
    Exchange(Vec<u8>),
    /// The operation has finished.
    Finished(Reply),
    /// The operation has failed.
    Failed(Error),
}

impl View for Step {
    type V = Move;

    open spec fn view(&self) -> Move {
        match self {
            Step::Exchange(frame) => Move::Exchange(frame@),
            Step::Finished(reply) => Move::Finished(*reply),
            Step::Failed(error) => Move::Failed(*error),
        }
    }
}

/// The driver core for one chip.
pub struct Cc1101 {
    status: Option<StatusByte>,
    length_field: bool,
    address_field: bool,
    status_fields: bool,
    poll_limit: u32,
    phase: Phase,
    queue: Vec<(Config, u8)>,
    fields: Vec<u8>,
    data: Vec<u8>,
    rssi: Option<u8>,
    lqi: Option<u8>,
}

impl View for Cc1101 {
    type V = Machine;

    closed spec fn view(&self) -> Machine {
        Machine {
            status: self.status,
            length_field: self.length_field,
            address_field: self.address_field,
            status_fields: self.status_fields,
            poll_limit: self.poll_limit,
            phase: self.phase,
            queue: self.queue@,
            fields: self.fields@,
            data: self.data@,
            rssi: self.rssi,
            lqi: self.lqi,
        }
    }
}

impl Cc1101 {
    /// A driver for a chip of which nothing is known yet, with the
    /// default poll limit.
    pub fn new() -> (driver: Cc1101)
        ensures
            driver@ == Machine::initial(DEFAULT_POLL_LIMIT),
    {
        Cc1101::with_poll_limit(DEFAULT_POLL_LIMIT)
    }

    /// A driver whose waits take at most `poll_limit` polls each.
    pub fn with_poll_limit(poll_limit: u32) -> (driver: Cc1101)
        ensures
            driver@ == Machine::initial(poll_limit),
    {
        Cc1101 {
            status: None,
            length_field: false,
            address_field: false,
            status_fields: false,
            poll_limit,
            phase: Phase::Ready,
            queue: Vec::new(),
            fields: Vec::new(),
            data: Vec::new(),
            rssi: None,
            lqi: None,
        }
    }

    /// Sets the most polls that one wait may take. A wait in flight goes
    /// by the new limit from its next poll on.
    pub fn set_poll_limit(&mut self, poll_limit: u32)
        ensures
            final(self)@ == (Machine { poll_limit, ..old(self)@ }),
    {
        self.poll_limit = poll_limit;
    }

    /// The most polls that one wait may take.
    pub fn poll_limit(&self) -> (limit: u32)
        ensures
            limit == self@.poll_limit,
    {
        self.poll_limit
    }

    /// The chip status byte of the last exchange, where that exchange
    /// gave a valid one.
    pub fn status(&self) -> (status: Option<StatusByte>)
        ensures
            status == self@.status,
    {
        self.status
    }

    /// Whether packets carry their length as their first byte.
    pub fn length_field(&self) -> (b: bool)
        ensures
            b == self@.length_field,
    {
        self.length_field
    }

    /// Whether packets carry an address byte.
    pub fn address_field(&self) -> (b: bool)
        ensures
            b == self@.address_field,
    {
        self.address_field
    }

    /// Whether received packets are followed by RSSI and LQI.
    pub fn status_fields(&self) -> (b: bool)
        ensures
            b == self@.status_fields,
    {
        self.status_fields
    }

    /// Which exchange is in flight.
    pub fn phase(&self) -> (phase: Phase)
        ensures
            phase == self@.phase,
    {
        self.phase
    }

    /// What the last FIFO access clocked in at its payload.
    pub fn data(&self) -> (data: &Vec<u8>)
        ensures
            data@ == self@.data,
    {
        &self.data
    }

    /// What the last FIFO access clocked in at its optional fields.
    pub fn fields(&self) -> (fields: &Vec<u8>)
        ensures
            fields@ == self@.fields,
    {
        &self.fields
    }

    /// The length byte of the packet that the last FIFO access took.
    pub fn length(&self) -> (length: Option<u8>)
        ensures
            length == self@.length(),
    {
        if self.length_field && self.fields.len() >= 1 {
            Some(self.fields[0])
        } else {
            None
        }
    }

    /// The address byte of the packet that the last FIFO access took.
    pub fn address(&self) -> (address: Option<u8>)
        ensures
            address == self@.address(),
    {
        let at: usize = if self.length_field {
            1
        } else {
            0
        };
        if self.address_field && self.fields.len() > at {
            Some(self.fields[at])
        } else {
            None
        }
    }

    /// The raw RSSI that followed the payload of the last FIFO read.
    pub fn rssi(&self) -> (rssi: Option<u8>)
        ensures
            rssi == self@.rssi,
    {
        self.rssi
    }

    /// The LQI byte that followed the payload of the last FIFO read.
    pub fn lqi(&self) -> (lqi: Option<u8>)
        ensures
            lqi == self@.lqi,
    {
        self.lqi
    }

    /// See [`Machine::optional_count`].
    fn optional_count(&self) -> (count: usize)
        ensures
            count == self@.optional_count(),
            count <= 2,
    {
        let length: usize = if self.length_field {
            1
        } else {
            0
        };
        let address: usize = if self.address_field {
            1
        } else {
            0
        };
        length + address
    }

    /// See [`Machine::fail`].
    fn fail(&mut self, error: Error) -> (step: Step)
        ensures
            final(self)@ == old(self)@.fail(error).0,
            step@ == old(self)@.fail(error).1,
    {
        self.phase = Phase::Ready;
        self.queue = Vec::new();
        Step::Failed(error)
    }

    /// See [`Machine::finish`].
    fn finish(&mut self, reply: Reply) -> (step: Step)
        ensures
            final(self)@ == old(self)@.finish(reply).0,
            step@ == old(self)@.finish(reply).1,
    {
        self.phase = Phase::Ready;
        self.queue = Vec::new();
        Step::Finished(reply)
    }

    /// See [`Machine::send`].
    fn send(&mut self, phase: Phase, frame: Vec<u8>) -> (step: Step)
        ensures
            final(self)@ == old(self)@.send(phase, frame@).0,
            step@ == old(self)@.send(phase, frame@).1,
    {
        self.phase = phase;
        Step::Exchange(frame)
    }

    /// See [`Machine::heard`].
    fn heard(&mut self, response: &[u8])
        requires
            response@.len() >= 1,
        ensures
            final(self)@ == old(self)@.heard(response@),
    {
        self.status = Some(StatusByte::from(response[0]));
    }

    /// See [`Machine::strobed`].
    fn strobed(&mut self, command: Command, response: &[u8])
        requires
            response@.len() >= 1,
        ensures
            final(self)@ == old(self)@.strobed(command, response@),
    {
        match command {
            Command::SNOP => {
                self.heard(response);
            },
            _ => {
                self.status = None;
            },
        }
    }

    /// See [`Machine::filled`].
    fn filled(&mut self, access: Access, optional: usize, response: &[u8])
        requires
            response@.len() >= 1 + optional,
        ensures
            final(self)@ == old(self)@.filled(access, optional as nat, response@),
    {
        let total = response.len();
        let fields = slice_to_vec(slice_subrange(response, 1, 1 + optional));
        let mut data = slice_to_vec(slice_subrange(response, 1 + optional, total));
        let n = data.len();
        let read = match access {
            Access::Read => true,
            Access::Write => false,
        };
        if read && self.status_fields && n >= 2 {
            self.rssi = Some(data[n - 2]);
            self.lqi = Some(data[n - 1]);
            data[n - 2] = 0;
            data[n - 1] = 0;
        } else {
            self.rssi = None;
            self.lqi = None;
        }
        self.fields = fields;
        self.data = data;
    }

    /// See [`Machine::proceed`].
    fn proceed(&mut self) -> (step: Step)
        ensures
            final(self)@ == old(self)@.proceed().0,
            step@ == old(self)@.proceed().1,
    {
        if self.queue.len() == 0 {
            self.finish(Reply::Done)
        } else {
            let (register, byte) = self.queue.remove(0);
            assert(self.queue@ =~= old(self).queue@.drop_first());
            self.send(Phase::Write, write_frame(Register::Config(register), byte))
        }
    }

    /// See [`Machine::probed`].
    fn probed(&mut self, probe: Probe, value: u8) -> (step: Step)
        ensures
            final(self)@ == old(self)@.probed(probe, value).0,
            step@ == old(self)@.probed(probe, value).1,
    {
        proof {
            lemma_low_mask_values();
        }
        match probe {
            Probe::Raw => self.finish(Reply::Byte(value)),
            Probe::Rssi => self.finish(Reply::Dbm(rssi_to_dbm(value))),
            Probe::Lqi => self.finish(Reply::Byte(StatusField::LQI_LQI.read(value))),
            Probe::PartNum => self.send(
                Phase::Read(Probe::Version(value)),
                read_frame(Register::Status(Status::VERSION)),
            ),
            Probe::Version(partnum) => self.finish(Reply::HwInfo { partnum, version: value }),
            Probe::RxBytes => {
                if StatusField::RXBYTES_RXFIFO_OVERFLOW.read(value) == 1 {
                    self.fail(Error::RxOverflow)
                } else {
                    self.finish(Reply::Byte(StatusField::RXBYTES_NUM_RXBYTES.read(value)))
                }
            },
            Probe::TxBytes => {
                if StatusField::TXBYTES_TXFIFO_UNDERFLOW.read(value) == 1 {
                    self.fail(Error::TxUnderflow)
                } else {
                    self.finish(Reply::Byte(StatusField::TXBYTES_NUM_TXBYTES.read(value)))
                }
            },
            Probe::MarcState => {
                let code = StatusField::MARCSTATE_MARC_STATE.read(value);
                match MachineState::try_from(code) {
                    Ok(state) => self.finish(Reply::State(state)),
                    Err(_) => self.fail(Error::InvalidState(code)),
                }
            },
            Probe::PktStatus => self.finish(Reply::Status(PacketStatus::from(value))),
        }
    }

    /// See [`Machine::watch`].
    fn watch(&mut self, wait: Wait, polls: u32) -> (step: Step)
        ensures
            final(self)@ == old(self)@.watch(wait, polls).0,
            step@ == old(self)@.watch(wait, polls).1,
    {
        if polls >= self.poll_limit {
            match wait {
                Wait::Drained { .. } => self.flush(Outcome::Fault(Error::Timeout)),
                _ => self.fail(Error::Timeout),
            }
        } else {
            self.send(
                Phase::Await(wait, polls + 1),
                read_frame(Register::Status(Status::MARCSTATE)),
            )
        }
    }

    /// See [`Machine::flush`].
    fn flush(&mut self, outcome: Outcome) -> (step: Step)
        ensures
            final(self)@ == old(self)@.flush(outcome).0,
            step@ == old(self)@.flush(outcome).1,
    {
        self.send(Phase::Flush(outcome), strobe_frame(Command::SFRX))
    }

    /// See [`Machine::arrived`].
    fn arrived(&mut self, wait: Wait) -> (step: Step)
        ensures
            final(self)@ == old(self)@.arrived(wait).0,
            step@ == old(self)@.arrived(wait).1,
    {
        match wait {
            Wait::Left(RadioMode::Idle) => self.finish(Reply::Done),
            Wait::Left(mode) => self.send(Phase::Enter(mode), strobe_frame(mode.command())),
            Wait::Entered(_) => self.finish(Reply::Done),
            Wait::Drained { length, crc_ok } => {
                if crc_ok {
                    self.flush(Outcome::Packet(length))
                } else {
                    self.flush(Outcome::Fault(Error::CrcMismatch))
                }
            },
        }
    }

    /// See [`Machine::observed`].
    fn observed(&mut self, wait: Wait, polls: u32, value: u8) -> (step: Step)
        ensures
            final(self)@ == old(self)@.observed(wait, polls, value).0,
            step@ == old(self)@.observed(wait, polls, value).1,
    {
        let code = StatusField::MARCSTATE_MARC_STATE.read(value);
        let target = match wait {
            Wait::Left(_) => MachineState::IDLE,
            Wait::Entered(mode) => mode.state(),
            Wait::Drained { .. } => MachineState::IDLE,
        };
        match MachineState::try_from(code) {
            Ok(state) => {
                if state == target {
                    self.arrived(wait)
                } else {
                    self.watch(wait, polls)
                }
            },
            Err(_) => self.fail(Error::InvalidState(code)),
        }
    }

    /// See [`Machine::settle`].
    fn settle(&mut self, last: u8, polls: u32, len: u8) -> (step: Step)
        ensures
            final(self)@ == old(self)@.settle(last, polls, len).0,
            step@ == old(self)@.settle(last, polls, len).1,
    {
        if polls >= self.poll_limit {
            self.flush(Outcome::Fault(Error::Timeout))
        } else {
            self.send(
                Phase::Settle { last, polls: polls + 1, len },
                read_frame(Register::Status(Status::RXBYTES)),
            )
        }
    }

    /// See [`Machine::counted`].
    fn counted(&mut self, last: u8, polls: u32, len: u8, value: u8) -> (step: Step)
        ensures
            final(self)@ == old(self)@.counted(last, polls, len, value).0,
            step@ == old(self)@.counted(last, polls, len, value).1,
    {
        let count = StatusField::RXBYTES_NUM_RXBYTES.read(value);
        if StatusField::RXBYTES_RXFIFO_OVERFLOW.read(value) == 1 {
            self.flush(Outcome::Fault(Error::RxOverflow))
        } else if count > 0 && count == last {
            let total: usize = self.optional_count() + len as usize;
            self.send(Phase::Drain { len }, fifo_read_frame(total))
        } else {
            self.settle(count, polls, len)
        }
    }

    /// See [`Machine::payload_length`].
    fn payload_length(&self, len: u8) -> (length: u8)
        requires
            self@.rssi is Some ==> len >= 2,
        ensures
            length == self@.payload_length(len),
    {
        if self.length_field && self.fields.len() >= 1 {
            self.fields[0]
        } else if self.rssi.is_some() {
            len - 2
        } else {
            len
        }
    }

    /// The response to a command strobe.
    fn after_strobe(&mut self, command: Command, response: &[u8]) -> (step: Step)
        requires
            old(self)@.phase == Phase::Strobe(command),
        ensures
            final(self)@ == old(self)@.advance(response@).0,
            step@ == old(self)@.advance(response@).1,
    {
        if response.len() != 1 {
            return self.fail(Error::Transport);
        }
        self.strobed(command, response);
        self.proceed()
    }

    /// The response to a register write.
    fn after_write(&mut self, response: &[u8]) -> (step: Step)
        requires
            old(self)@.phase == Phase::Write,
        ensures
            final(self)@ == old(self)@.advance(response@).0,
            step@ == old(self)@.advance(response@).1,
    {
        if response.len() != 2 {
            return self.fail(Error::Transport);
        }
        self.heard(response);
        self.proceed()
    }

    /// The response to the read of a read-modify-write.
    fn after_modify(&mut self, edit: Edit, response: &[u8]) -> (step: Step)
        requires
            old(self)@.phase == Phase::Modify(edit),
        ensures
            final(self)@ == old(self)@.advance(response@).0,
            step@ == old(self)@.advance(response@).1,
    {
        if response.len() != 2 {
            return self.fail(Error::Transport);
        }
        self.heard(response);
        let updated = edit.apply(response[1]);
        self.send(Phase::Write, write_frame(Register::Config(edit.register()), updated))
    }

    /// The response to a register read.
    fn after_read(&mut self, probe: Probe, response: &[u8]) -> (step: Step)
        requires
            old(self)@.phase == Phase::Read(probe),
        ensures
            final(self)@ == old(self)@.advance(response@).0,
            step@ == old(self)@.advance(response@).1,
    {
        if response.len() != 2 {
            return self.fail(Error::Transport);
        }
        self.heard(response);
        self.probed(probe, response[1])
    }

    /// The response to a FIFO burst.
    fn after_fifo(
        &mut self,
        access: Access,
        optional: usize,
        payload: usize,
        response: &[u8],
    ) -> (step: Step)
        requires
            old(self)@.phase == (Phase::Fifo { access, optional, payload }),
        ensures
            final(self)@ == old(self)@.advance(response@).0,
            step@ == old(self)@.advance(response@).1,
    {
        let n = response.len();
        if n < 1 || n - 1 < optional || n - 1 - optional != payload {
            return self.fail(Error::Transport);
        }
        self.heard(response);
        self.filled(access, optional, response);
        self.finish(Reply::Done)
    }

    /// The response to the idle strobe of a change of mode.
    fn after_leave(&mut self, mode: RadioMode, response: &[u8]) -> (step: Step)
        requires
            old(self)@.phase == Phase::Leave(mode),
        ensures
            final(self)@ == old(self)@.advance(response@).0,
            step@ == old(self)@.advance(response@).1,
    {
        if response.len() != 1 {
            return self.fail(Error::Transport);
        }
        self.strobed(Command::SIDLE, response);
        self.watch(Wait::Left(mode), 0)
    }

    /// The response to the mode's own strobe.
    fn after_enter(&mut self, mode: RadioMode, response: &[u8]) -> (step: Step)
        requires
            old(self)@.phase == Phase::Enter(mode),
        ensures
            final(self)@ == old(self)@.advance(response@).0,
            step@ == old(self)@.advance(response@).1,
    {
        if response.len() != 1 {
            return self.fail(Error::Transport);
        }
        self.strobed(mode.command(), response);
        self.watch(Wait::Entered(mode), 0)
    }

    /// The response to a poll of the machine state.
    fn after_poll(&mut self, wait: Wait, polls: u32, response: &[u8]) -> (step: Step)
        requires
            old(self)@.phase == Phase::Await(wait, polls),
        ensures
            final(self)@ == old(self)@.advance(response@).0,
            step@ == old(self)@.advance(response@).1,
    {
        if response.len() != 2 {
            return self.fail(Error::Transport);
        }
        self.heard(response);
        self.observed(wait, polls, response[1])
    }

    /// The response to a poll of the RX FIFO fill.
    fn after_count(&mut self, last: u8, polls: u32, len: u8, response: &[u8]) -> (step: Step)
        requires
            old(self)@.phase == (Phase::Settle { last, polls, len }),
        ensures
            final(self)@ == old(self)@.advance(response@).0,
            step@ == old(self)@.advance(response@).1,
    {
        if response.len() != 2 {
            return self.fail(Error::Transport);
        }
        self.heard(response);
        self.counted(last, polls, len, response[1])
    }

    /// The response to the FIFO burst of a receive.
    fn after_drain(&mut self, len: u8, response: &[u8]) -> (step: Step)
        requires
            old(self)@.phase == (Phase::Drain { len }),
        ensures
            final(self)@ == old(self)@.advance(response@).0,
            step@ == old(self)@.advance(response@).1,
    {
        let optional = self.optional_count();
        if response.len() != 1 + optional + len as usize {
            return self.fail(Error::Transport);
        }
        self.heard(response);
        self.filled(Access::Read, optional, response);
        let length = self.payload_length(len);
        self.send(Phase::Quality { length }, read_frame(Register::Status(Status::LQI)))
    }

    /// The response to the read of the link quality register.
    fn after_quality(&mut self, length: u8, response: &[u8]) -> (step: Step)
        requires
            old(self)@.phase == (Phase::Quality { length }),
        ensures
            final(self)@ == old(self)@.advance(response@).0,
            step@ == old(self)@.advance(response@).1,
    {
        if response.len() != 2 {
            return self.fail(Error::Transport);
        }
        self.heard(response);
        proof {
            lemma_low_mask_values();
        }
        let crc_ok = StatusField::LQI_CRC_OK.read(response[1]) == 1;
        self.watch(Wait::Drained { length, crc_ok }, 0)
    }

    /// The response to the flush strobe of a receive.
    fn after_flush(&mut self, outcome: Outcome, response: &[u8]) -> (step: Step)
        requires
            old(self)@.phase == Phase::Flush(outcome),
        ensures
            final(self)@ == old(self)@.advance(response@).0,
            step@ == old(self)@.advance(response@).1,
    {
        if response.len() != 1 {
            return self.fail(Error::Transport);
        }
        self.strobed(Command::SFRX, response);
        match outcome {
            Outcome::Packet(length) => self.finish(Reply::Received(length)),
            Outcome::Fault(error) => self.fail(error),
        }
    }

    /// Takes the response to the frame in flight and says what follows.
    ///
    /// Every response begins with the chip status byte, which is kept
    /// (after a strobe other than the no-operation strobe it is not
    /// valid, and the status is then unknown). A response of another
    /// length than the frame, or one that comes when nothing is in
    /// flight, ends the operation as a transport fault.
    pub fn advance(&mut self, response: &[u8]) -> (step: Step)
        ensures
            final(self)@ == old(self)@.advance(response@).0,
            step@ == old(self)@.advance(response@).1,
    {
        match self.phase {
            Phase::Ready => self.fail(Error::Transport),
            Phase::Strobe(command) => self.after_strobe(command, response),
            Phase::Write => self.after_write(response),
            Phase::Modify(edit) => self.after_modify(edit, response),
            Phase::Read(probe) => self.after_read(probe, response),
            Phase::Fifo { access, optional, payload } => self.after_fifo(
                access,
                optional,
                payload,
                response,
            ),
            Phase::Leave(mode) => self.after_leave(mode, response),
            Phase::Enter(mode) => self.after_enter(mode, response),
            Phase::Await(wait, polls) => self.after_poll(wait, polls, response),
            Phase::Settle { last, polls, len } => self.after_count(last, polls, len, response),
            Phase::Drain { len } => self.after_drain(len, response),
            Phase::Quality { length } => self.after_quality(length, response),
            Phase::Flush(outcome) => self.after_flush(outcome, response),
        }
    }

    /// Ends the operation in flight because its exchange failed.
    pub fn abandon(&mut self) -> (step: Step)
        ensures
            final(self)@ == old(self)@.abandon().0,
            step@ == old(self)@.abandon().1,
    {
        self.fail(Error::Transport)
    }

    /// See [`Machine::cleared`].
    fn clear(&mut self)
        ensures
            final(self)@ == old(self)@.cleared(),
    {
        self.fields = Vec::new();
        self.data = Vec::new();
        self.rssi = None;
        self.lqi = None;
    }

    /// See [`Machine::start`].
    fn start(&mut self, phase: Phase, frame: Vec<u8>) -> (step: Step)
        ensures
            final(self)@ == old(self)@.start(phase, frame@).0,
            step@ == old(self)@.start(phase, frame@).1,
    {
        self.queue = Vec::new();
        self.send(phase, frame)
    }

    /// See [`Machine::start_writes`].
    fn start_writes(&mut self, first: (Config, u8), rest: Vec<(Config, u8)>) -> (step: Step)
        ensures
            final(self)@ == old(self)@.start_writes(first, rest@).0,
            step@ == old(self)@.start_writes(first, rest@).1,
    {
        self.queue = rest;
        self.send(Phase::Write, write_frame(Register::Config(first.0), first.1))
    }

    /// See [`Machine::start_modify`].
    fn start_modify(&mut self, edit: Edit, rest: Vec<(Config, u8)>) -> (step: Step)
        ensures
            final(self)@ == old(self)@.start_modify(edit, rest@).0,
            step@ == old(self)@.start_modify(edit, rest@).1,
    {
        self.queue = rest;
        self.send(Phase::Modify(edit), read_frame(Register::Config(edit.register())))
    }

    /// Reads a register. The operation takes one exchange and reports
    /// the register's value.
    pub fn read_register(&mut self, register: Register) -> (step: Step)
        ensures
            final(self)@ == old(self)@.read_register(register).0,
            step@ == old(self)@.read_register(register).1,
    {
        self.start(Phase::Read(Probe::Raw), read_frame(register))
    }

    /// Writes a register. The operation takes one exchange. A status
    /// register cannot be written.
    pub fn write_register(&mut self, register: Register, byte: u8) -> (step: Step)
        requires
            !(register is Status),
        ensures
            final(self)@ == old(self)@.write_register(register, byte).0,
            step@ == old(self)@.write_register(register, byte).1,
    {
        self.start(Phase::Write, write_frame(register, byte))
    }

    /// Sets one field of a configuration register: the register is read,
    /// and written back with the field replaced.
    pub fn modify_register(&mut self, field: ConfigField, value: u8) -> (step: Step)
        requires
            value <= field.spec_field().spec_max(),
        ensures
            final(self)@ == old(self)@.modify_register(field, value).0,
            step@ == old(self)@.modify_register(field, value).1,
    {
        self.start_modify(Edit::One(field, value), Vec::new())
    }

    /// Sends a command strobe. The operation takes one exchange.
    pub fn write_cmd_strobe(&mut self, command: Command) -> (step: Step)
        ensures
            final(self)@ == old(self)@.write_cmd_strobe(command).0,
            step@ == old(self)@.write_cmd_strobe(command).1,
    {
        self.start(Phase::Strobe(command), strobe_frame(command))
    }

    /// Sends a command strobe.
    pub fn write_strobe(&mut self, command: Command) -> (step: Step)
        ensures
            final(self)@ == old(self)@.write_cmd_strobe(command).0,
            step@ == old(self)@.write_cmd_strobe(command).1,
    {
        self.write_cmd_strobe(command)
    }

    /// Exchanges optional fields and payload with a FIFO in one burst. The
    /// bytes given are clocked out; what is clocked in at their places is
    /// kept as the driver's fields and data, in place of what an earlier
    /// access left there. On a read with appended status, the last two
    /// bytes clocked in at the payload are taken as RSSI and LQI, and
    /// their places in the data are zeroed.
    pub fn access_fifo(&mut self, access: Access, optional_fields: &[u8], data: &[u8]) -> (step:
        Step)
        ensures
            final(self)@ == old(self)@.access_fifo(access, optional_fields@, data@).0,
            step@ == old(self)@.access_fifo(access, optional_fields@, data@).1,
    {
        self.clear();
        self.start(
            Phase::Fifo { access, optional: optional_fields.len(), payload: data.len() },
            fifo_frame(access, optional_fields, data),
        )
    }

    /// Reads a packet of `len` payload bytes from the RX FIFO together
    /// with a length byte and an address byte before it, whatever fields
    /// the driver has noted: [`Cc1101::access_fifo`] for a read, with two
    /// optional fields.
    pub fn read_fifo(&mut self, len: usize) -> (step: Step)
        ensures
            final(self)@ == old(self)@.read_fifo(len).0,
            step@ == old(self)@.read_fifo(len).1,
    {
        let blank: [u8; 2] = [BLANK_BYTE, BLANK_BYTE];
        let mut data: Vec<u8> = Vec::new();
        let mut i: usize = 0;
        while i < len
            invariant
                i <= len,
                data@ == blanks(i as nat),
            decreases len - i,
        {
            data.push(BLANK_BYTE);
            i = i + 1;
            assert(data@ =~= blanks(i as nat));
        }
        assert(blank@ =~= blanks(2));
        self.access_fifo(Access::Read, blank.as_slice(), data.as_slice())
    }
    /// Sets the carrier frequency to `hz`: three register writes, lowest
    /// byte of the frequency word first.
    pub fn set_frequency(&mut self, hz: u64) -> (step: Step)
        requires
            hz < 0x1_0000_0000_0000,
        ensures
            final(self)@ == old(self)@.set_frequency(hz).0,
            step@ == old(self)@.set_frequency(hz).1,
    {
        let (freq0, freq1, freq2) = from_frequency(hz);
        let mut rest: Vec<(Config, u8)> = Vec::new();
        rest.push((Config::FREQ1, freq1));
        rest.push((Config::FREQ2, freq2));
        assert(rest@ =~= seq![(Config::FREQ1, freq1), (Config::FREQ2, freq2)]);
        self.start_writes((Config::FREQ0, freq0), rest)
    }

    /// Sets the frequency deviation to `deviation` Hz: one register write.
    pub fn set_deviation(&mut self, deviation: u64) -> (step: Step)
        requires
            deviation_in_range(deviation),
        ensures
            final(self)@ == old(self)@.set_deviation(deviation).0,
            step@ == old(self)@.set_deviation(deviation).1,
    {
        let (mantissa, exponent) = from_deviation(deviation);
        proof {
            lemma_low_mask_values();
        }
        let value = W::reset(Config::DEVIATN).set(ConfigField::DEVIATN_DEVIATION_M, mantissa).set(
            ConfigField::DEVIATN_DEVIATION_E,
            exponent,
        ).bits();
        self.start_writes((Config::DEVIATN, value), Vec::new())
    }

    /// Sets the data rate to `baud`: the exponent replaces its field in
    /// what the chip holds, the mantissa is written whole. The data rate
    /// must be one whose exponent fits its field.
    pub fn set_data_rate(&mut self, baud: u64) -> (step: Step)
        requires
            drate_fits(baud),
        ensures
            final(self)@ == old(self)@.set_data_rate(baud).0,
            step@ == old(self)@.set_data_rate(baud).1,
    {
        let (mantissa, exponent) = from_drate(baud);
        proof {
            lemma_low_mask_values();
            lemma_drate_fits(baud);
        }
        let value = W::reset(Config::MDMCFG3).set(ConfigField::MDMCFG3_DRATE_M, mantissa).bits();
        let mut rest: Vec<(Config, u8)> = Vec::new();
        rest.push((Config::MDMCFG3, value));
        assert(rest@ =~= seq![(Config::MDMCFG3, value)]);
        self.start_modify(Edit::One(ConfigField::MDMCFG4_DRATE_E, exponent), rest)
    }

    /// Sets the channel bandwidth to `bandwidth` Hz: mantissa and exponent
    /// replace their fields in what the chip holds, in one
    /// read-modify-write.
    pub fn set_chanbw(&mut self, bandwidth: u64) -> (step: Step)
        requires
            chanbw_in_range(bandwidth),
        ensures
            final(self)@ == old(self)@.set_chanbw(bandwidth).0,
            step@ == old(self)@.set_chanbw(bandwidth).1,
    {
        let (mantissa, exponent) = from_chanbw(bandwidth);
        self.start_modify(
            Edit::Two(
                ConfigField::MDMCFG4_CHANBW_M,
                mantissa,
                ConfigField::MDMCFG4_CHANBW_E,
                exponent,
            ),
            Vec::new(),
        )
    }

    /// Sets the intermediate frequency to `hz`, rounded to the nearest
    /// setting. The setting must fit its field of five bits.
    pub fn set_freq_if(&mut self, hz: u64) -> (step: Step)
        requires
            freq_if_value(hz) <= 31,
        ensures
            final(self)@ == old(self)@.set_freq_if(hz).0,
            step@ == old(self)@.set_freq_if(hz).1,
    {
        self.start_modify(Edit::One(ConfigField::FSCTRL1_FREQ_IF, from_freq_if(hz)), Vec::new())
    }

    /// Reads part number and version of the chip: two register reads.
    pub fn get_hw_info(&mut self) -> (step: Step)
        ensures
            final(self)@ == old(self)@.get_hw_info().0,
            step@ == old(self)@.get_hw_info().1,
    {
        self.start(Phase::Read(Probe::PartNum), read_frame(Register::Status(Status::PARTNUM)))
    }

    /// Reads the received signal strength, an estimate of the signal
    /// power level in the chosen channel, in dBm.
    pub fn get_rssi_dbm(&mut self) -> (step: Step)
        ensures
            final(self)@ == old(self)@.get_rssi_dbm().0,
            step@ == old(self)@.get_rssi_dbm().1,
    {
        self.start(Phase::Read(Probe::Rssi), read_frame(Register::Status(Status::RSSI)))
    }

    /// Reads the link quality indicator of the last received signal,
    /// without the CRC flag that shares its register.
    pub fn get_lqi(&mut self) -> (step: Step)
        ensures
            final(self)@ == old(self)@.get_lqi().0,
            step@ == old(self)@.get_lqi().1,
    {
        self.start(Phase::Read(Probe::Lqi), read_frame(Register::Status(Status::LQI)))
    }

    /// Reads the state of the main radio control state machine.
    pub fn get_machine_state(&mut self) -> (step: Step)
        ensures
            final(self)@ == old(self)@.get_machine_state().0,
            step@ == old(self)@.get_machine_state().1,
    {
        self.start(Phase::Read(Probe::MarcState), read_frame(Register::Status(Status::MARCSTATE)))
    }

    /// Reads the packet status flags.
    pub fn get_packet_status(&mut self) -> (step: Step)
        ensures
            final(self)@ == old(self)@.get_packet_status().0,
            step@ == old(self)@.get_packet_status().1,
    {
        self.start(Phase::Read(Probe::PktStatus), read_frame(Register::Status(Status::PKTSTATUS)))
    }

    /// Reads the number of bytes in the RX FIFO. An overflowed FIFO fails
    /// the operation.
    pub fn get_rx_bytes(&mut self) -> (step: Step)
        ensures
            final(self)@ == old(self)@.get_rx_bytes().0,
            step@ == old(self)@.get_rx_bytes().1,
    {
        self.start(Phase::Read(Probe::RxBytes), read_frame(Register::Status(Status::RXBYTES)))
    }

    /// Reads the number of bytes in the TX FIFO. An underflowed FIFO
    /// fails the operation.
    pub fn get_tx_bytes(&mut self) -> (step: Step)
        ensures
            final(self)@ == old(self)@.get_tx_bytes().0,
            step@ == old(self)@.get_tx_bytes().1,
    {
        self.start(Phase::Read(Probe::TxBytes), read_frame(Register::Status(Status::TXBYTES)))
    }

    /// Configures the sync word to use, and at what level it is verified.
    pub fn set_sync_mode(&mut self, sync_mode: SyncMode) -> (step: Step)
        ensures
            final(self)@ == old(self)@.set_sync_mode(sync_mode).0,
            step@ == old(self)@.set_sync_mode(sync_mode).1,
    {
        let word = sync_mode.word();
        let mut rest: Vec<(Config, u8)> = Vec::new();
        rest.push((Config::SYNC1, (word / 256) as u8));
        rest.push((Config::SYNC0, (word % 256) as u8));
        assert(rest@ =~= seq![
            (Config::SYNC1, (word / 256) as u8),
            (Config::SYNC0, (word % 256) as u8),
        ]);
        self.start_modify(
            Edit::One(ConfigField::MDMCFG2_SYNC_MODE, sync_mode.check().value()),
            rest,
        )
    }

    /// Configures the signal modulation.
    pub fn set_modulation(&mut self, format: Modulation) -> (step: Step)
        ensures
            final(self)@ == old(self)@.set_modulation(format).0,
            step@ == old(self)@.set_modulation(format).1,
    {
        self.start_modify(
            Edit::One(ConfigField::MDMCFG2_MOD_FORMAT, format.format().value()),
            Vec::new(),
        )
    }

    /// Configures the device address and the address filter, and notes
    /// whether packets carry an address byte from now on.
    pub fn set_address_filter(&mut self, filter: AddressFilter) -> (step: Step)
        ensures
            final(self)@ == old(self)@.set_address_filter(filter).0,
            step@ == old(self)@.set_address_filter(filter).1,
    {
        let mut rest: Vec<(Config, u8)> = Vec::new();
        rest.push((Config::ADDR, filter.address()));
        assert(rest@ =~= seq![(Config::ADDR, filter.spec_address())]);
        self.address_field = filter.has_address_field();
        self.start_modify(Edit::One(ConfigField::PKTCTRL1_ADR_CHK, filter.check().value()), rest)
    }

    /// Configures the packet length mode and the length, and notes
    /// whether packets carry a length byte from now on.
    pub fn set_packet_length(&mut self, length: PacketLength) -> (step: Step)
        ensures
            final(self)@ == old(self)@.set_packet_length(length).0,
            step@ == old(self)@.set_packet_length(length).1,
    {
        let mut rest: Vec<(Config, u8)> = Vec::new();
        rest.push((Config::PKTLEN, length.limit()));
        assert(rest@ =~= seq![(Config::PKTLEN, length.spec_limit())]);
        self.length_field = length.has_length_field();
        self.start_modify(
            Edit::One(ConfigField::PKTCTRL0_LENGTH_CONFIG, length.config().value()),
            rest,
        )
    }

    /// Tells the chip whether to append RSSI and LQI to received packets,
    /// and notes it for the reads that follow.
    pub fn set_append_status(&mut self, enable: bool) -> (step: Step)
        ensures
            final(self)@ == old(self)@.set_append_status(enable).0,
            step@ == old(self)@.set_append_status(enable).1,
    {
        let value: u8 = if enable {
            1
        } else {
            0
        };
        self.status_fields = enable;
        self.start_modify(Edit::One(ConfigField::PKTCTRL1_APPEND_STATUS, value), Vec::new())
    }

    /// Puts the radio in the given mode. The chip is sent to idle first
    /// and polled until it is idle; then, unless idle was asked for, the
    /// mode's strobe is sent and the chip is polled until it reports the
    /// mode's state. Each wait takes at most the poll limit of polls.
    pub fn set_radio_mode(&mut self, radio_mode: RadioMode) -> (step: Step)
        ensures
            final(self)@ == old(self)@.set_radio_mode(radio_mode).0,
            step@ == old(self)@.set_radio_mode(radio_mode).1,
    {
        self.start(Phase::Leave(radio_mode), strobe_frame(Command::SIDLE))
    }

    /// Resets the chip and writes the driver's default configuration.
    pub fn set_defaults(&mut self) -> (step: Step)
        ensures
            final(self)@ == old(self)@.set_defaults().0,
            step@ == old(self)@.set_defaults().1,
    {
        proof {
            lemma_low_mask_values();
        }
        let mut queue: Vec<(Config, u8)> = Vec::new();
        queue.push(
            (
                Config::PKTCTRL0,
                W::reset(Config::PKTCTRL0).set(ConfigField::PKTCTRL0_WHITE_DATA, 0).bits(),
            ),
        );
        queue.push(
            (
                Config::FSCTRL1,
                W::reset(Config::FSCTRL1).set(ConfigField::FSCTRL1_FREQ_IF, 0x08).bits(),
            ),
        );
        queue.push(
            (
                Config::MDMCFG4,
                W::reset(Config::MDMCFG4).set(ConfigField::MDMCFG4_CHANBW_E, 0x03).set(
                    ConfigField::MDMCFG4_CHANBW_M,
                    0x00,
                ).bits(),
            ),
        );
        queue.push(
            (
                Config::MDMCFG2,
                W::reset(Config::MDMCFG2).set(ConfigField::MDMCFG2_DEM_DCFILT_OFF, 1).bits(),
            ),
        );
        queue.push(
            (
                Config::MCSM0,
                W::reset(Config::MCSM0).set(
                    ConfigField::MCSM0_FS_AUTOCAL,
                    AutoCalibration::FromIdle.value(),
                ).bits(),
            ),
        );
        queue.push(
            (
                Config::AGCCTRL2,
                W::reset(Config::AGCCTRL2).set(ConfigField::AGCCTRL2_MAX_LNA_GAIN, 0x04).bits(),
            ),
        );
        assert(queue@ =~= defaults());
        self.queue = queue;
        self.send(Phase::Strobe(Command::SRES), strobe_frame(Command::SRES))
    }

    /// See [`Machine::framing_fault`].
    fn framing_fault(&self, length: bool, address: bool, status: bool, len: usize) -> (fault:
        Option<Error>)
        ensures
            fault == self@.framing_fault(length, address, status, len as nat),
    {
        if self.length_field && !length {
            Some(Error::MissingLengthParameter)
        } else if self.address_field && !address {
            Some(Error::MissingAddressParameter)
        } else if self.status_fields && !status {
            Some(Error::MissingRxStatusParameters)
        } else if len > 64 || self.optional_count() + len > 64 {
            Some(Error::ArrayTooLong(len))
        } else {
            None
        }
    }

    /// Writes a packet to the TX FIFO: the length byte and the address
    /// byte, as far as packets carry them, then the payload, in one
    /// burst. A field that packets carry must be supplied; one that they
    /// do not carry is ignored. Fields and payload together must fit the
    /// FIFO. A fault in what was supplied fails the operation before
    /// anything is exchanged or changed.
    pub fn write_data(&mut self, length: Option<u8>, address: Option<u8>, data: &[u8]) -> (step:
        Step)
        ensures
            final(self)@ == old(self)@.write_data(length, address, data@).0,
            step@ == old(self)@.write_data(length, address, data@).1,
    {
        match self.framing_fault(length.is_some(), address.is_some(), true, data.len()) {
            Some(error) => Step::Failed(error),
            None => {
                let mut optional: Vec<u8> = Vec::new();
                if self.length_field {
                    optional.push(length.unwrap());
                }
                if self.address_field {
                    optional.push(address.unwrap());
                }
                assert(optional@ =~= self@.optional_fields(length, address));
                self.clear();
                self.start(
                    Phase::Fifo {
                        access: Access::Write,
                        optional: optional.len(),
                        payload: data.len(),
                    },
                    fifo_frame(Access::Write, optional.as_slice(), data),
                )
            },
        }
    }

    /// Reads a packet of `len` payload bytes from the RX FIFO in one
    /// burst, together with the length byte and the address byte, as far
    /// as packets carry them. The arguments say for which of length,
    /// address and appended status the caller has a place; one that
    /// packets carry must be there. Fields and payload together must fit
    /// the FIFO. A fault in that fails the operation before anything is
    /// exchanged or changed.
    ///
    /// Where status is appended and `len` is at least two, the last two
    /// bytes of the payload are taken as RSSI and LQI, and their places
    /// in the payload are zeroed.
    pub fn read_data(&mut self, length: bool, address: bool, status: bool, len: usize) -> (step:
        Step)
        ensures
            final(self)@ == old(self)@.read_data(length, address, status, len).0,
            step@ == old(self)@.read_data(length, address, status, len).1,
    {
        match self.framing_fault(length, address, status, len) {
            Some(error) => Step::Failed(error),
            None => {
                let optional = self.optional_count();
                self.clear();
                self.start(
                    Phase::Fifo { access: Access::Read, optional, payload: len },
                    fifo_read_frame(optional + len),
                )
            },
        }
    }

    /// Receives a packet into `len` bytes.
    ///
    /// The fill of the RX FIFO is polled until two polls in a row see the
    /// same count above zero; then the FIFO is read as by
    /// [`Cc1101::read_data`], the link quality register is read for the
    /// CRC flag, the chip is polled until it is idle, and the RX FIFO is
    /// flushed. The operation then reports the length of the payload, or
    /// fails with [`Error::CrcMismatch`] if the CRC flag is clear; the
    /// packet is in the driver's data either way.
    ///
    /// An overflowed FIFO, a fill that does not settle within the poll
    /// limit, and a chip that is not seen idle within the poll limit fail
    /// the operation after the FIFO was flushed. Only a fault of the bus
    /// ends it without a flush: a failed exchange, or a machine state
    /// code that stands for no state. A payload that cannot fit the FIFO
    /// fails the operation before anything is exchanged or changed; else
    /// the driver's data is emptied when the operation starts, so that
    /// what it holds afterwards is of this receive.
    pub fn receive(&mut self, len: usize) -> (step: Step)
        ensures
            final(self)@ == old(self)@.receive(len).0,
            step@ == old(self)@.receive(len).1,
    {
        if len > 64 || self.optional_count() + len > 64 {
            Step::Failed(Error::ArrayTooLong(len))
        } else {
            self.queue = Vec::new();
            self.clear();
            self.settle(0, 0, len as u8)
        }
    }
}

} // verus!
