//! Received signal strength conversion.

use vstd::prelude::*;
use crate::lowlevel::convert::{signed, trunc_div};

verus! {

/// Typical RSSI offset of the chip, in dB.
pub const RSSI_OFFSET: i16 = 74;

/// The signal level in dBm that a raw RSSI register value stands for.
///
/// The raw value is a signed byte that counts half-dB steps. Halving
/// rounds towards zero, so the raw values 255 and 0 both give -74.
pub open spec fn rssi_dbm(raw: u8) -> int {
    trunc_div(signed(raw), 2) - 74
}

/// Converts a raw RSSI register value to dBm.
pub fn rssi_to_dbm(raw: u8) -> (dbm: i16)
    ensures
        dbm == rssi_dbm(raw),
        -138 <= dbm <= -11,
{
    let rssi: i16 = raw as i16;
    if rssi < 128 {
        rssi / 2 - RSSI_OFFSET
    } else {
        (rssi - 256) / 2 - RSSI_OFFSET
    }
}

} // verus!
