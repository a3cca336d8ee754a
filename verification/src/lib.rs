//! Driver core for the CC1101 sub-GHz transceiver.
//!
//! The chip is controlled through a register-mapped serial protocol. This
//! crate holds everything that decides which bytes go over the bus and what
//! the bytes that come back mean; it never touches the bus itself. An
//! operation is started on a [`Cc1101`], which answers with the first frame
//! to exchange; each response is fed back with [`Cc1101::advance`] until the
//! operation reports that it has finished or failed. A failed exchange is
//! reported with [`Cc1101::abandon`].
//!
//! - [`lowlevel`] holds the registers and the header byte that addresses
//!   each of them, the bit fields of the registers, the decoders of the
//!   status bytes, the frames of the exchanges and the conversions from
//!   physical units.
//! - [`machine`] is the mathematical model of the driver: its state, and
//!   for every operation and every response the state that follows and
//!   the move that the driver makes.
//! - [`driver`] is the driver itself, which makes exactly those moves.
//! - [`laws`] states what holds of the model in every state: that no
//!   operation runs on without bound, what a change of mode and a receive
//!   send and when they end, and that a fault in what the caller supplied
//!   changes nothing.
//!
//! Any field of a configuration register can be set with
//! [`Cc1101::modify_register`]; the settings of [`lowlevel::types`] give
//! the codes that the fields take.

pub mod driver;
pub mod laws;
pub mod lowlevel;
pub mod machine;
pub mod rssi;
pub mod types;

pub use crate::driver::{Cc1101, Step, DEFAULT_POLL_LIMIT};
pub use crate::machine::{Error, Phase, Reply};
pub use crate::types::{AddressFilter, Modulation, PacketLength, RadioMode, SyncMode};
