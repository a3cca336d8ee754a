//! Bit fields inside a register byte.

use vstd::prelude::*;
use core::ops::Range;

verus! {

/// The bits `0 .. width` set, as a byte.
pub open spec fn low_mask(width: u8) -> u8 {
    (((1u16 << width) - 1) as u16) as u8
}

/// The bits `offset .. offset + width` set.
pub open spec fn field_mask(offset: u8, width: u8) -> u8 {
    low_mask(width) << offset
}

/// The value held in the bits `offset .. offset + width` of `raw`.
pub open spec fn field_value(raw: u8, offset: u8, width: u8) -> u8 {
    (raw >> offset) & low_mask(width)
}

/// `raw` with the bits `offset .. offset + width` replaced by `value`.
pub open spec fn field_update(raw: u8, offset: u8, width: u8, value: u8) -> u8 {
    (raw & !field_mask(offset, width)) | (value << offset)
}

/// Where a field lies: its lowest bit and how many bits it spans.
pub trait OffsetSize: Sized {
    /// Whether this names a non-empty run of bits inside one byte.
    spec fn in_byte(&self) -> bool;

    /// Index of the lowest bit.
    spec fn spec_offset(&self) -> u8;

    /// Number of bits.
    spec fn spec_size(&self) -> u8;

    fn offset(&self) -> (o: u8)
        ensures
            o == self.spec_offset(),
    ;

    fn size(&self) -> (s: u8)
        requires
            self.in_byte(),
        ensures
            s == self.spec_size(),
    ;
}

/// A single bit, named by its index.
impl OffsetSize for u8 {
    open spec fn in_byte(&self) -> bool {
        *self < 8
    }

    open spec fn spec_offset(&self) -> u8 {
        *self
    }

    open spec fn spec_size(&self) -> u8 {
        1
    }

    fn offset(&self) -> u8 {
        *self
    }

    fn size(&self) -> u8 {
        1
    }
}

/// The bits from `start` up to, but not including, `end`.
impl OffsetSize for Range<u8> {
    open spec fn in_byte(&self) -> bool {
        self.start < self.end <= 8
    }

    open spec fn spec_offset(&self) -> u8 {
        self.start
    }

    open spec fn spec_size(&self) -> u8 {
        (self.end - self.start) as u8
    }

    fn offset(&self) -> u8 {
        self.start
    }

    fn size(&self) -> u8 {
        self.end - self.start
    }
}

/// Widening to the next larger integer, so that a full-width mask can be
/// computed without overflow.
pub trait ToWider: Sized {
    type Wider;

    spec fn spec_to_wider(self) -> Self::Wider;

    fn to_wider(self) -> (w: Self::Wider)
        ensures
            w == self.spec_to_wider(),
    ;
}

impl ToWider for u8 {
    type Wider = u16;

    open spec fn spec_to_wider(self) -> u16 {
        self as u16
    }

    fn to_wider(self) -> u16 {
        self as u16
    }
}

/// A field of a register: `width` bits starting at bit `offset`.
#[derive(Copy, Clone, Debug, PartialEq, Eq, Structural)]
pub struct Field {
    pub offset: u8,
    pub width: u8,
}

impl Field {
    /// A field is a non-empty run of bits that lies inside one byte.
    pub open spec fn wf(self) -> bool {
        1 <= self.width && self.offset + self.width <= 8
    }

    /// The largest value that fits in the field.
    pub open spec fn spec_max(self) -> u8 {
        low_mask(self.width)
    }

    /// The bits of the byte that the field occupies.
    pub open spec fn spec_mask(self) -> u8 {
        field_mask(self.offset, self.width)
    }

    /// The value that the field has in `raw`.
    pub open spec fn spec_read(self, raw: u8) -> u8 {
        field_value(raw, self.offset, self.width)
    }

    /// `raw` with the field set to `value`.
    pub open spec fn spec_write(self, raw: u8, value: u8) -> u8 {
        field_update(raw, self.offset, self.width, value)
    }

    /// Whether two fields share no bit.
    pub open spec fn disjoint(self, other: Field) -> bool {
        self.offset + self.width <= other.offset || other.offset + other.width <= self.offset
    }

    /// The field that a bit index or a range of bit indices names.
    pub fn of<T: OffsetSize>(bits: T) -> (f: Field)
        requires
            bits.in_byte(),
        ensures
            f.offset == bits.spec_offset(),
            f.width == bits.spec_size(),
    {
        Field { offset: bits.offset(), width: bits.size() }
    }

    /// See [`Field::spec_max`].
    #[verifier::when_used_as_spec(spec_max)]
    pub fn max(self) -> (m: u8)
        requires
            self.wf(),
        ensures
            m == self.spec_max(),
    {
        let one: u16 = 1;
        let width: u16 = self.width.to_wider();
        proof {
            let w = self.width;
            assert(1 <= w <= 8 ==> 1 <= (1u16 << (w as u16)) <= 256 && (1u16 << (w as u16)) == (
            1u16 << w)) by (bit_vector);
        }
        let wide: u16 = (one << width) - 1;
        wide as u8
    }

    /// See [`Field::spec_mask`].
    #[verifier::when_used_as_spec(spec_mask)]
    pub fn mask(self) -> (m: u8)
        requires
            self.wf(),
        ensures
            m == self.spec_mask(),
    {
        self.max() << self.offset
    }

    /// `value` cut to the width of the field: its bits above the width
    /// are dropped.
    pub open spec fn spec_cut(self, value: u8) -> u8 {
        value & self.spec_max()
    }

    /// See [`Field::spec_cut`]. A value that fits the field is not changed.
    #[verifier::when_used_as_spec(spec_cut)]
    pub fn cut(self, value: u8) -> (fitted: u8)
        requires
            self.wf(),
        ensures
            fitted == self.spec_cut(value),
            fitted <= self.spec_max(),
            value <= self.spec_max() ==> fitted == value,
    {
        proof {
            let m = self.spec_max();
            let w = self.width;
            assert(value & m <= m && (1 <= w <= 8 && m == low_mask(w) && value <= m ==> value & m
                == value)) by (bit_vector);
        }
        value & self.max()
    }

    /// Extracts the field from a register byte.
    #[verifier::when_used_as_spec(spec_read)]
    pub fn read(self, raw: u8) -> (value: u8)
        requires
            self.wf(),
        ensures
            value == self.spec_read(raw),
            value <= self.spec_max(),
    {
        proof {
            let (o, m) = (self.offset, self.spec_max());
            assert((raw >> o) & m <= m) by (bit_vector);
        }
        (raw >> self.offset) & self.max()
    }

    /// Replaces the field in a register byte and leaves every other bit as
    /// it was.
    #[verifier::when_used_as_spec(spec_write)]
    pub fn write(self, raw: u8, value: u8) -> (updated: u8)
        requires
            self.wf(),
            value <= self.spec_max(),
        ensures
            updated == self.spec_write(raw, value),
    {
        (raw & !self.mask()) | (value << self.offset)
    }
}

/// The largest value of a field of each width from one bit to eight.
pub proof fn lemma_low_mask_values()
    ensures
        low_mask(1) == 0x01,
        low_mask(2) == 0x03,
        low_mask(3) == 0x07,
        low_mask(4) == 0x0F,
        low_mask(5) == 0x1F,
        low_mask(6) == 0x3F,
        low_mask(7) == 0x7F,
        low_mask(8) == 0xFF,
{
    assert(low_mask(1) == 0x01 && low_mask(2) == 0x03 && low_mask(3) == 0x07 && low_mask(4)
        == 0x0F && low_mask(5) == 0x1F && low_mask(6) == 0x3F && low_mask(7) == 0x7F
        && low_mask(8) == 0xFF) by (bit_vector);
}

/// A field in plain arithmetic: its value is the byte divided by two to
/// the offset, modulo two to the width; its largest value is one less
/// than two to the width; its mask is that value times two to the offset.
pub proof fn lemma_field_arithmetic(f: Field, raw: u8)
    requires
        f.wf(),
    ensures
        f.spec_max() == (1u16 << f.width) - 1,
        f.spec_mask() == ((1u16 << f.width) - 1) * (1u16 << f.offset),
        f.spec_read(raw) == (raw as int / (1u16 << f.offset) as int) % (1u16 << f.width) as int,
        f.spec_read(raw) <= f.spec_max(),
{
    let (o, w) = (f.offset, f.width);
    assert(low_mask(w) == (1u16 << w) - 1 && field_mask(o, w) == ((1u16 << w) - 1) * (1u16 << o)
        && field_value(raw, o, w) == ((raw as u16) / (1u16 << o)) % (1u16 << w) && field_value(
        raw,
        o,
        w,
    ) <= low_mask(w)) by (bit_vector)
        requires
            1 <= w,
            o + w <= 8,
    ;
}

/// A value that fits a field is not changed when it is cut to the field's
/// width.
pub proof fn lemma_cut_keeps(f: Field, value: u8)
    requires
        f.wf(),
        value <= f.spec_max(),
    ensures
        f.spec_cut(value) == value,
{
    let w = f.width;
    assert(value & low_mask(w) == value) by (bit_vector)
        requires
            1 <= w <= 8,
            value <= low_mask(w),
    ;
}

/// A value written to a field is the value read back from it.
pub proof fn lemma_write_then_read(f: Field, raw: u8, value: u8)
    requires
        f.wf(),
        value <= f.spec_max(),
    ensures
        f.spec_read(f.spec_write(raw, value)) == value,
{
    let (o, w) = (f.offset, f.width);
    assert(field_value(field_update(raw, o, w, value), o, w) == value) by (bit_vector)
        requires
            1 <= w,
            o + w <= 8,
            value <= low_mask(w),
    ;
}

/// Writing a field changes no bit outside the field: the old and the new
/// byte differ at most where the field's mask is set.
pub proof fn lemma_write_keeps_other_bits(f: Field, raw: u8, value: u8)
    requires
        f.wf(),
        value <= f.spec_max(),
    ensures
        (f.spec_write(raw, value) ^ raw) & !f.spec_mask() == 0,
{
    let (o, w) = (f.offset, f.width);
    assert((field_update(raw, o, w, value) ^ raw) & !field_mask(o, w) == 0) by (bit_vector)
        requires
            1 <= w,
            o + w <= 8,
            value <= low_mask(w),
    ;
}

/// Writing one field leaves the value of every field that shares no bit
/// with it.
pub proof fn lemma_write_keeps_other_fields(f: Field, g: Field, raw: u8, value: u8)
    requires
        f.wf(),
        g.wf(),
        f.disjoint(g),
        value <= f.spec_max(),
    ensures
        g.spec_read(f.spec_write(raw, value)) == g.spec_read(raw),
{
    let (o, w, p, x) = (f.offset, f.width, g.offset, g.width);
    assert(field_value(field_update(raw, o, w, value), p, x) == field_value(raw, p, x))
        by (bit_vector)
        requires
            1 <= w,
            o + w <= 8,
            1 <= x,
            p + x <= 8,
            o + w <= p || p + x <= o,
            value <= low_mask(w),
    ;
}

/// Writes to fields that share no bit can be made in either order.
pub proof fn lemma_writes_commute(f: Field, g: Field, raw: u8, a: u8, b: u8)
    requires
        f.wf(),
        g.wf(),
        f.disjoint(g),
        a <= f.spec_max(),
        b <= g.spec_max(),
    ensures
        g.spec_write(f.spec_write(raw, a), b) == f.spec_write(g.spec_write(raw, b), a),
{
    let (o, w, p, x) = (f.offset, f.width, g.offset, g.width);
    assert(field_update(field_update(raw, o, w, a), p, x, b) == field_update(
        field_update(raw, p, x, b),
        o,
        w,
        a,
    )) by (bit_vector)
        requires
            1 <= w,
            o + w <= 8,
            1 <= x,
            p + x <= 8,
            o + w <= p || p + x <= o,
            a <= low_mask(w),
            b <= low_mask(x),
    ;
}

/// Writing back the value that a field already has changes nothing.
pub proof fn lemma_read_then_write(f: Field, raw: u8)
    requires
        f.wf(),
    ensures
        f.spec_write(raw, f.spec_read(raw)) == raw,
{
    let (o, w) = (f.offset, f.width);
    assert(field_update(raw, o, w, field_value(raw, o, w)) == raw) by (bit_vector)
        requires
            1 <= w,
            o + w <= 8,
    ;
}

/// The second of two writes to one field wins.
pub proof fn lemma_write_twice(f: Field, raw: u8, a: u8, b: u8)
    requires
        f.wf(),
        a <= f.spec_max(),
        b <= f.spec_max(),
    ensures
        f.spec_write(f.spec_write(raw, a), b) == f.spec_write(raw, b),
{
    let (o, w) = (f.offset, f.width);
    assert(field_update(field_update(raw, o, w, a), o, w, b) == field_update(raw, o, w, b))
        by (bit_vector)
        requires
            1 <= w,
            o + w <= 8,
            a <= low_mask(w),
            b <= low_mask(w),
    ;
}

} // verus!
