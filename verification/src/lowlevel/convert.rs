//! Conversions between physical units and register values.
//!
//! All of them are exact integer arithmetic on the crystal frequency
//! [`FXOSC`]. A quotient is rounded down unless its function says otherwise.

use vstd::prelude::*;
use vstd::arithmetic::power2::{lemma_pow2_unfold, pow2};
use crate::lowlevel::FXOSC;

verus! {

/// Typical RSSI offset of the chip, in dB.
pub const RSSI_OFFSET: i16 = 74;

/// The quotient of `a` by a positive `b`, rounded towards zero.
pub open spec fn trunc_div(a: int, b: int) -> int
    recommends
        b > 0,
{
    if a >= 0 {
        a / b
    } else {
        -((-a) / b)
    }
}

/// The value of a byte read as a signed number in two's complement.
pub open spec fn signed(value: u8) -> int {
    if value < 128 {
        value as int
    } else {
        value as int - 256
    }
}

/// The position of the highest set bit of `q`: the `e` with
/// `2^e <= q < 2^(e+1)`, and zero for zero.
pub open spec fn log2_floor(q: nat) -> nat
    decreases q,
{
    if q <= 1 {
        0
    } else {
        1 + log2_floor(q / 2)
    }
}

/// The frequency word for a carrier of `hz`: `hz * 2^16 / FXOSC`.
pub open spec fn frequency_word(hz: u64) -> int {
    (hz as int * 65536) / 26_000_000
}

/// The exponent of the deviation setting for `v` Hz.
pub open spec fn deviation_exponent(v: u64) -> nat {
    log2_floor(((v as int * 16384) / 26_000_000) as nat)
}

/// The mantissa of the deviation setting for `v` Hz, before it is cut to
/// three bits.
pub open spec fn deviation_mantissa(v: u64) -> int {
    (v as int * 131072) / (26_000_000 * pow2(deviation_exponent(v)) as int) - 7
}

/// The exponent of the data rate setting for `v` baud, before a mantissa
/// that has run over is carried into it.
pub open spec fn drate_exponent(v: u64) -> nat {
    log2_floor(((v as int * 524288) / 26_000_000) as nat) + 1
}

/// The mantissa of the data rate setting for `v` baud, before a carry.
pub open spec fn drate_mantissa(v: u64) -> int {
    (v as int * 134217728) / (26_000_000 * pow2((drate_exponent(v) - 1) as nat) as int) - 255
}

/// Mantissa and exponent of the data rate setting for `v` baud: a
/// mantissa that has run over to 256 is carried into the exponent.
pub open spec fn drate_setting(v: u64) -> (int, int) {
    if drate_mantissa(v) == 256 {
        (0, drate_exponent(v) as int + 1)
    } else {
        (drate_mantissa(v), drate_exponent(v) as int)
    }
}

/// The exponent of the channel bandwidth setting for `v` Hz.
pub open spec fn chanbw_exponent(v: u64) -> nat {
    log2_floor((26_000_000int / (32 * v as int)) as nat)
}

/// The mantissa of the channel bandwidth setting for `v` Hz.
pub open spec fn chanbw_mantissa(v: u64) -> int {
    26_000_000int / (v as int * 8 * pow2(chanbw_exponent(v)) as int) - 4
}

/// The intermediate frequency setting for `hz`: `hz * 2^10 / FXOSC`,
/// rounded to the nearest.
pub open spec fn freq_if_value(hz: u64) -> int {
    (hz as int * 1024 + 13_000_000) / 26_000_000
}

/// Whether a deviation of `v` Hz is one for which a setting is defined.
pub open spec fn deviation_in_range(v: u64) -> bool {
    1587 <= v < 0x8000_0000_0000
}

/// Whether a data rate of `v` baud is one for which a setting is defined.
pub open spec fn drate_in_range(v: u64) -> bool {
    50 <= v < 0x20_0000_0000
}

/// Whether a data rate of `v` baud is one whose setting fits the
/// register fields: the exponent has four bits.
pub open spec fn drate_fits(v: u64) -> bool {
    50 <= v <= 1_621_826
}

/// Whether a channel bandwidth of `v` Hz is one for which a setting is
/// defined.
pub open spec fn chanbw_in_range(v: u64) -> bool {
    1 <= v <= 812_500
}

/// The highest set bit of a number bounds it from both sides.
pub proof fn lemma_log2_floor_bounds(q: nat)
    requires
        q >= 1,
    ensures
        pow2(log2_floor(q)) <= q < 2 * pow2(log2_floor(q)),
    decreases q,
{
    if q <= 1 {
        lemma_pow2_unfold(1);
        assert(pow2(0) == 1) by {
            vstd::arithmetic::power2::lemma2_to64();
        }
    } else {
        lemma_log2_floor_bounds(q / 2);
        lemma_pow2_unfold(log2_floor(q));
    }
}

/// The mantissa of a data rate setting lies between 1 and 256 before the
/// carry, so it fits a byte after it.
pub proof fn lemma_drate_mantissa_range(v: u64)
    requires
        drate_in_range(v),
    ensures
        1 <= drate_mantissa(v) <= 256,
        0 <= drate_setting(v).0 <= 255,
        1 <= drate_setting(v).1,
{
    let q = (v as int * 524288) / 26_000_000;
    let scale = pow2(log2_floor(q as nat)) as int;
    assert(q >= 1);
    lemma_log2_floor_bounds(q as nat);
    assert(q * 26_000_000 <= v * 524288 < (q + 1) * 26_000_000);
    assert(scale * 26_000_000 <= v * 524288) by (nonlinear_arith)
        requires
            scale <= q,
            q * 26_000_000 <= v * 524288,
    ;
    assert(v * 524288 < 2 * scale * 26_000_000) by (nonlinear_arith)
        requires
            q + 1 <= 2 * scale,
            v * 524288 < (q + 1) * 26_000_000,
    ;
    assert(256 * (26_000_000 * scale) <= v * 134217728 < 512 * (26_000_000 * scale));
    assert(256 <= (v * 134217728) / (26_000_000 * scale) < 512) by (nonlinear_arith)
        requires
            256 * (26_000_000 * scale) <= v * 134217728 < 512 * (26_000_000 * scale),
            scale >= 1,
    ;
}

/// The exponent of a data rate setting fits its four bits exactly for
/// the data rates up to 1 621 826 baud.
pub proof fn lemma_drate_fits(v: u64)
    requires
        drate_in_range(v),
    ensures
        drate_setting(v).1 <= 15 <==> drate_fits(v),
{
    let q = (v as int * 524288) / 26_000_000;
    let bit = log2_floor(q as nat);
    let scale = pow2(bit) as int;
    lemma_log2_floor_bounds(q as nat);
    lemma_drate_mantissa_range(v);
    vstd::arithmetic::power2::lemma2_to64();
    if v <= 1_621_826 {
        assert(q <= 32703);
        if bit >= 15 {
            if bit > 15 {
                vstd::arithmetic::power2::lemma_pow2_strictly_increases(15, bit);
            }
        }
        assert(bit <= 14);
        if bit == 14 {
            assert(26_000_000 * scale == 425_984_000_000);
            assert(v * 134217728 < 511 * 425_984_000_000);
            assert((v * 134217728) / 425_984_000_000 <= 510);
        }
    } else {
        assert(q >= 32703);
        if bit <= 13 {
            if bit < 13 {
                vstd::arithmetic::power2::lemma_pow2_strictly_increases(bit, 13);
            }
        }
        assert(bit >= 14);
        if bit == 14 {
            assert(26_000_000 * scale == 425_984_000_000);
            assert(v * 134217728 >= 511 * 425_984_000_000);
            assert((v * 134217728) / 425_984_000_000 >= 511);
        }
    }
}

/// The highest set bit of `q` and the power of two that it stands for.
fn log2(q: u64) -> (r: (u64, u64))
    requires
        q >= 1,
    ensures
        r.0 == log2_floor(q as nat),
        r.1 == pow2(r.0 as nat),
        r.1 <= q < 2 * r.1,
        r.0 < 64,
{
    let mut x: u64 = q;
    let mut e: u64 = 0;
    let mut p: u64 = 1;
    proof {
        vstd::arithmetic::power2::lemma2_to64();
    }
    while x >= 2
        invariant
            x >= 1,
            e + x <= q,
            p == pow2(e as nat),
            p * x <= q < p * (x + 1),
            log2_floor(q as nat) == e + log2_floor(x as nat),
        decreases x,
    {
        proof {
            lemma_pow2_unfold((e + 1) as nat);
            assert(2 * p * (x / 2) <= p * x && p * (x + 1) <= 2 * p * (x / 2 + 1))
                by (nonlinear_arith)
                requires
                    x >= 2,
                    p >= 0,
            ;
            assert(2 * p <= p * x) by (nonlinear_arith)
                requires
                    x >= 2,
                    p >= 0,
            ;
        }
        p = p * 2;
        x = x / 2;
        e = e + 1;
    }
    proof {
        assert(p * x == p) by (nonlinear_arith)
            requires
                x == 1,
        ;
        assert(p * (x + 1) == 2 * p) by (nonlinear_arith)
            requires
                x == 1,
        ;
        if e >= 64 {
            if e > 64 {
                vstd::arithmetic::power2::lemma_pow2_strictly_increases(64, e as nat);
            }
            vstd::arithmetic::power2::lemma2_to64_rest();
        }
    }
    (e, p)
}

/// The three bytes of the frequency word for a carrier of `hz`, lowest
/// byte first.
pub fn from_frequency(hz: u64) -> (r: (u8, u8, u8))
    requires
        hz < 0x1_0000_0000_0000,
    ensures
        r.0 == frequency_word(hz) % 256,
        r.1 == (frequency_word(hz) / 256) % 256,
        r.2 == (frequency_word(hz) / 65536) % 256,
{
    let freq: u64 = hz * 65536 / FXOSC;
    let freq0: u8 = (freq % 256) as u8;
    let freq1: u8 = ((freq / 256) % 256) as u8;
    let freq2: u8 = ((freq / 65536) % 256) as u8;
    (freq0, freq1, freq2)
}

/// The frequency offset setting for an offset of `hz`: the offset in
/// steps of `FXOSC / 2^14`, rounded towards zero, as a signed byte.
pub fn from_frequency_offset(hz: i32) -> (r: u8)
    ensures
        r == trunc_div(hz as int * 16384, 26_000_000) % 256,
{
    let steps: i64 = (hz as i64 * 16384) / 26_000_000;
    let low: i64 = steps % 256;
    if low < 0 {
        (low + 256) as u8
    } else {
        low as u8
    }
}

/// The frequency offset in Hz that a setting stands for: the setting as a
/// signed byte times `FXOSC / 2^14`, rounded towards zero.
pub fn to_frequency_offset(value: u8) -> (hz: i32)
    ensures
        hz == trunc_div(signed(value) * 26_000_000, 16384),
{
    let steps: i64 = if value < 128 {
        value as i64
    } else {
        value as i64 - 256
    };
    ((steps * 26_000_000) / 16384) as i32
}

/// Mantissa and exponent of the deviation setting for `v` Hz, each cut to
/// its three bits.
pub fn from_deviation(v: u64) -> (r: (u8, u8))
    requires
        deviation_in_range(v),
    ensures
        r.0 == deviation_mantissa(v) % 8,
        r.1 == deviation_exponent(v) % 8,
        deviation_mantissa(v) >= 1,
{
    let (exponent, scale) = log2(v * 16384 / FXOSC);
    proof {
        let q = (v as int * 16384) / 26_000_000;
        assert(q * 26_000_000 <= v * 16384);
        assert(scale * 26_000_000 <= v * 16384) by (nonlinear_arith)
            requires
                scale <= q,
                q * 26_000_000 <= v * 16384,
        ;
        assert(8 * (26_000_000 * scale) <= v * 131072);
        assert((v * 131072) / (26_000_000 * scale) >= 8) by (nonlinear_arith)
            requires
                8 * (26_000_000 * scale) <= v * 131072,
                scale >= 1,
        ;
    }
    let mantissa: u64 = (v * 131072) / (FXOSC * scale) - 7;
    ((mantissa % 8) as u8, (exponent % 8) as u8)
}

/// Mantissa and exponent of the data rate setting for `v` baud. A
/// mantissa that has run over to 256 is carried into the exponent.
pub fn from_drate(v: u64) -> (r: (u8, u8))
    requires
        drate_in_range(v),
    ensures
        r.0 == drate_setting(v).0,
        r.1 == drate_setting(v).1,
{
    let (bit, scale) = log2(v * 524288 / FXOSC);
    let exponent: u64 = bit + 1;
    proof {
        lemma_drate_mantissa_range(v);
        assert(26_000_000 * scale <= v * 524288) by (nonlinear_arith)
            requires
                scale <= (v as int * 524288) / 26_000_000,
        ;
    }
    let mantissa: u64 = (v * 134217728) / (FXOSC * scale) - 255;
    if mantissa == 256 {
        (0u8, (exponent + 1) as u8)
    } else {
        (mantissa as u8, exponent as u8)
    }
}

/// Mantissa and exponent of the channel bandwidth setting for `v` Hz,
/// each cut to its two bits.
pub fn from_chanbw(v: u64) -> (r: (u8, u8))
    requires
        chanbw_in_range(v),
    ensures
        0 <= chanbw_mantissa(v) <= 3,
        r.0 == chanbw_mantissa(v),
        r.1 == chanbw_exponent(v) % 4,
{
    proof {
        assert(26_000_000int / (32 * v as int) >= 1) by (nonlinear_arith)
            requires
                1 <= v <= 812_500,
        ;
    }
    let (exponent, scale) = log2(FXOSC / (8 * 4 * v));
    proof {
        let q = 26_000_000int / (32 * v as int);
        assert(q * (32 * v) <= 26_000_000 < (q + 1) * (32 * v)) by (nonlinear_arith)
            requires
                q == 26_000_000int / (32 * v as int),
                v >= 1,
        ;
        assert(4 * (v * 8 * scale) <= 26_000_000) by (nonlinear_arith)
            requires
                scale <= q,
                q * (32 * v) <= 26_000_000,
                v >= 1,
        ;
        assert(26_000_000 < 8 * (v * 8 * scale)) by (nonlinear_arith)
            requires
                q + 1 <= 2 * scale,
                26_000_000 < (q + 1) * (32 * v),
                v >= 1,
        ;
        assert(v * 8 * scale >= 1 && v * 8 * scale <= 26_000_000) by (nonlinear_arith)
            requires
                4 * (v * 8 * scale) <= 26_000_000,
                v >= 1,
                scale >= 1,
        ;
        assert(4 <= 26_000_000int / (v * 8 * scale) < 8) by (nonlinear_arith)
            requires
                4 * (v * 8 * scale) <= 26_000_000 < 8 * (v * 8 * scale),
                v * 8 * scale >= 1,
        ;
        assert(v * 8 <= 26_000_000);
    }
    let mantissa: u64 = FXOSC / (v * 8 * scale) - 4;
    (mantissa as u8, (exponent % 4) as u8)
}

/// The intermediate frequency setting for `hz`, rounded to the nearest
/// setting rather than down.
pub fn from_freq_if(hz: u64) -> (r: u8)
    requires
        freq_if_value(hz) <= 255,
    ensures
        r == freq_if_value(hz),
{
    ((hz * 1024 + FXOSC / 2) / FXOSC) as u8
}

/// The signal level in dBm that a raw RSSI value stands for: the value as
/// a signed byte, halved towards zero, less the offset.
pub fn from_rssi_to_rssi_dbm(rssi: u8) -> (dbm: i16)
    ensures
        dbm == trunc_div(signed(rssi), 2) - 74,
{
    let rssi: i16 = rssi as i16;
    if rssi < 128 {
        rssi / 2 - RSSI_OFFSET
    } else {
        (rssi - 256) / 2 - RSSI_OFFSET
    }
}

} // verus!
