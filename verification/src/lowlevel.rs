//! Register-level building blocks: addresses, bit fields, status decoding
//! and unit conversions.

use vstd::prelude::*;
use self::access::{Access, Mode};
use self::registers::{Command, MultiByte, Register};

pub mod access;
pub mod convert;
pub mod registers;
pub mod traits;
pub mod types;

verus! {

/// Frequency of the crystal oscillator, in Hz.
pub const FXOSC: u64 = 26_000_000;

/// Capacity of each of the chip's two FIFOs, in bytes.
pub const FIFO_SIZE_MAX: u8 = 64;

/// The byte clocked out while a register value is clocked in.
pub const BLANK_BYTE: u8 = 0;

/// The frame that reads one register: the header byte, then a blank byte
/// in whose place the value comes back.
pub open spec fn spec_read_frame(register: Register) -> Seq<u8> {
    seq![register.spec_address(Access::Read, Mode::Single), BLANK_BYTE]
}

/// The frame that writes one register: the header byte, then the value.
pub open spec fn spec_write_frame(register: Register, byte: u8) -> Seq<u8> {
    seq![register.spec_address(Access::Write, Mode::Single), byte]
}

/// The frame of a command strobe: the header byte alone.
pub open spec fn spec_strobe_frame(command: Command) -> Seq<u8> {
    seq![command.spec_addr(Access::Write, Mode::Single)]
}

/// The frame of a FIFO access: the burst header byte, the optional fields,
/// then the payload, all within one assertion of chip select.
pub open spec fn spec_fifo_frame(access: Access, optional: Seq<u8>, data: Seq<u8>) -> Seq<u8> {
    seq![MultiByte::FIFO.spec_addr(access, Mode::Burst)] + optional + data
}

/// A run of `n` blank bytes.
pub open spec fn blanks(n: nat) -> Seq<u8> {
    Seq::new(n, |i: int| BLANK_BYTE)
}

/// See [`spec_read_frame`].
pub fn read_frame(register: Register) -> (frame: Vec<u8>)
    ensures
        frame@ == spec_read_frame(register),
{
    let mut frame: Vec<u8> = Vec::new();
    frame.push(register.raddr(Mode::Single));
    frame.push(BLANK_BYTE);
    assert(frame@ =~= spec_read_frame(register));
    frame
}

/// See [`spec_write_frame`].
pub fn write_frame(register: Register, byte: u8) -> (frame: Vec<u8>)
    requires
        !(register is Status),
    ensures
        frame@ == spec_write_frame(register, byte),
{
    let mut frame: Vec<u8> = Vec::new();
    frame.push(register.waddr(Mode::Single));
    frame.push(byte);
    assert(frame@ =~= spec_write_frame(register, byte));
    frame
}

/// See [`spec_strobe_frame`].
pub fn strobe_frame(command: Command) -> (frame: Vec<u8>)
    ensures
        frame@ == spec_strobe_frame(command),
{
    let mut frame: Vec<u8> = Vec::new();
    frame.push(command.addr(Access::Write, Mode::Single));
    assert(frame@ =~= spec_strobe_frame(command));
    frame
}

/// See [`spec_fifo_frame`].
pub fn fifo_frame(access: Access, optional: &[u8], data: &[u8]) -> (frame: Vec<u8>)
    ensures
        frame@ == spec_fifo_frame(access, optional@, data@),
{
    let mut frame: Vec<u8> = Vec::new();
    frame.push(MultiByte::FIFO.addr(access, Mode::Burst));
    let mut i: usize = 0;
    while i < optional.len()
        invariant
            i <= optional.len(),
            frame@ == seq![MultiByte::FIFO.spec_addr(access, Mode::Burst)] + optional@.take(
                i as int,
            ),
        decreases optional.len() - i,
    {
        frame.push(optional[i]);
        i = i + 1;
        assert(frame@ =~= seq![MultiByte::FIFO.spec_addr(access, Mode::Burst)] + optional@.take(
            i as int,
        ));
    }
    assert(optional@.take(i as int) =~= optional@);
    let mut j: usize = 0;
    while j < data.len()
        invariant
            j <= data.len(),
            frame@ == seq![MultiByte::FIFO.spec_addr(access, Mode::Burst)] + optional@
                + data@.take(j as int),
        decreases data.len() - j,
    {
        frame.push(data[j]);
        j = j + 1;
        assert(frame@ =~= seq![MultiByte::FIFO.spec_addr(access, Mode::Burst)] + optional@
            + data@.take(j as int));
    }
    assert(data@.take(j as int) =~= data@);
    frame
}

/// The frame of a FIFO read that takes `n` bytes: the burst header byte
/// and `n` blank bytes.
pub fn fifo_read_frame(n: usize) -> (frame: Vec<u8>)
    ensures
        frame@ == spec_fifo_frame(Access::Read, Seq::empty(), blanks(n as nat)),
{
    let mut frame: Vec<u8> = Vec::new();
    frame.push(MultiByte::FIFO.addr(Access::Read, Mode::Burst));
    let mut i: usize = 0;
    while i < n
        invariant
            i <= n,
            frame@ == seq![MultiByte::FIFO.spec_addr(Access::Read, Mode::Burst)] + blanks(
                i as nat,
            ),
        decreases n - i,
    {
        frame.push(BLANK_BYTE);
        i = i + 1;
        assert(frame@ =~= seq![MultiByte::FIFO.spec_addr(Access::Read, Mode::Burst)] + blanks(
            i as nat,
        ));
    }
    assert(frame@ =~= spec_fifo_frame(Access::Read, Seq::empty(), blanks(n as nat)));
    frame
}

} // verus!
