//! Bit-field helpers on 64-bit words.
//!
//! A field is written `(msb, lsb)`: the positions of its highest and its
//! lowest bit, both inclusive.
use vstd::prelude::*;

verus! {

/// A field that fits a 64-bit word and whose all-ones mask `(1 << width) - 1`
/// can be computed without a shift overflow.
pub open spec fn field_ok(field: (usize, usize)) -> bool {
    &&& field.1 <= field.0
    &&& field.0 < 64
    &&& field.0 - field.1 < 63
}

/// Number of bits of `field`.
pub open spec fn field_width(field: (usize, usize)) -> u64 {
    (field.0 - field.1 + 1) as u64
}

/// `(1 << width) - 1`: the field's mask before it is moved into place.
pub open spec fn spec_fill(width: u64) -> u64 {
    ((1u64 << width) - 1) as u64
}

/// The bits of `val` inside the field, moved down to bit 0.
pub open spec fn spec_extract(val: u64, width: u64, lsb: u64) -> u64 {
    (val & (spec_fill(width) << lsb)) >> lsb
}

/// `src` with every bit of the field cleared.
pub open spec fn spec_clear(src: u64, width: u64, lsb: u64) -> u64 {
    src & !(spec_fill(width) << lsb)
}

/// `src` with the field replaced by the low `width` bits of `val`.
pub open spec fn spec_set(src: u64, width: u64, lsb: u64, val: u64) -> u64 {
    spec_clear(src, width, lsb) | ((spec_fill(width) & val) << lsb)
}

/// All-ones value as wide as `field`.
pub fn bit_fill(field: (usize, usize)) -> (r: u64)
    requires
        field_ok(field),
    ensures
        r == spec_fill(field_width(field)),
{
    let w: u64 = (field.0 - field.1 + 1) as u64;
    assert((1u64 << w) >= 1) by (bit_vector)
        requires
            1 <= w < 64,
    ;
    (1u64 << w) - 1
}

/// The value of `field` in `val`.
pub fn bit_extract(val: u64, field: (usize, usize)) -> (r: u64)
    requires
        field_ok(field),
    ensures
        r == spec_extract(val, field_width(field), field.1 as u64),
{
    let lsb: u64 = field.1 as u64;
    (val & (bit_fill(field) << lsb)) >> lsb
}

/// `src` with `field` cleared.
pub fn bit_clear(src: u64, field: (usize, usize)) -> (r: u64)
    requires
        field_ok(field),
    ensures
        r == spec_clear(src, field_width(field), field.1 as u64),
{
    let lsb: u64 = field.1 as u64;
    src & !(bit_fill(field) << lsb)
}

/// `src` with `field` set to the low bits of `val`.
pub fn bit_set(src: u64, field: (usize, usize), val: u64) -> (r: u64)
    requires
        field_ok(field),
    ensures
        r == spec_set(src, field_width(field), field.1 as u64, val),
{
    let lsb: u64 = field.1 as u64;
    bit_clear(src, field) | ((bit_fill(field) & val) << lsb)
}

/// Reading a field back after setting it gives the low `width` bits of the
/// value that was set.
pub proof fn lemma_extract_of_set(src: u64, field: (usize, usize), val: u64)
    requires
        field_ok(field),
    ensures
        spec_extract(spec_set(src, field_width(field), field.1 as u64, val), field_width(field), field.1 as u64)
            == val & spec_fill(field_width(field)),
{
    let w = field_width(field);
    let l = field.1 as u64;
    assert(spec_extract(spec_set(src, w, l, val), w, l) == val & spec_fill(w)) by (bit_vector)
        requires
            1 <= w < 64,
            l < 64,
            w + l <= 64,
    ;
}

/// Setting a field leaves every field that does not overlap it unchanged.
pub proof fn lemma_set_keeps_other_field(src: u64, field: (usize, usize), other: (usize, usize), val: u64)
    requires
        field_ok(field),
        field_ok(other),
        other.0 < field.1 || field.0 < other.1,
    ensures
        spec_extract(spec_set(src, field_width(field), field.1 as u64, val), field_width(other), other.1 as u64)
            == spec_extract(src, field_width(other), other.1 as u64),
{
    let w = field_width(field);
    let l = field.1 as u64;
    let w2 = field_width(other);
    let l2 = other.1 as u64;
    assert(spec_extract(spec_set(src, w, l, val), w2, l2) == spec_extract(src, w2, l2)) by (bit_vector)
        requires
            1 <= w < 64,
            l < 64,
            w + l <= 64,
            1 <= w2 < 64,
            l2 < 64,
            w2 + l2 <= 64,
            l2 + w2 <= l || l + w <= l2,
    ;
}

/// Writing back the value read from a field leaves the word unchanged.
pub proof fn lemma_set_extract_identity(src: u64, field: (usize, usize))
    requires
        field_ok(field),
    ensures
        spec_set(src, field_width(field), field.1 as u64, spec_extract(src, field_width(field), field.1 as u64))
            == src,
{
    let w = field_width(field);
    let l = field.1 as u64;
    assert(spec_set(src, w, l, spec_extract(src, w, l)) == src) by (bit_vector)
        requires
            1 <= w < 64,
            l < 64,
            w + l <= 64,
    ;
}

/// A second set of the same field overrides the first.
pub proof fn lemma_set_set(src: u64, field: (usize, usize), a: u64, b: u64)
    requires
        field_ok(field),
    ensures
        spec_set(spec_set(src, field_width(field), field.1 as u64, a), field_width(field), field.1 as u64, b)
            == spec_set(src, field_width(field), field.1 as u64, b),
{
    let w = field_width(field);
    let l = field.1 as u64;
    assert(spec_set(spec_set(src, w, l, a), w, l, b) == spec_set(src, w, l, b)) by (bit_vector)
        requires
            1 <= w < 64,
            l < 64,
            w + l <= 64,
    ;
}

/// The field `[24:20]` of `0x01f0_0000` reads `0x1f`.
pub fn test_bitfield() -> (r: Result<(), &'static str>)
    ensures
        r is Ok,
{
    let rs2: (usize, usize) = (24, 20);
    let v = bit_extract(0x01f0_0000, rs2);
    assert(v == 0x1f) by (bit_vector)
        requires
            v == (0x01f0_0000u64 & ((((1u64 << 5u64) - 1) as u64) << 20u64)) >> 20u64,
    ;
    if v == 0x1f {
        Ok(())
    } else {
        Err("calc miss")
    }
}

/// Setting the field `[24:20]` of zero to `0xffff` keeps its five low bits.
pub fn test_bitfield2() -> (r: Result<(), &'static str>)
    ensures
        r is Ok,
{
    let rs2: (usize, usize) = (24, 20);
    let v = bit_set(0, rs2, 0xffff);
    assert(v == 0x01f0_0000) by (bit_vector)
        requires
            v == (0u64 & !((((1u64 << 5u64) - 1) as u64) << 20u64)) | (((((1u64 << 5u64) - 1) as u64) & 0xffffu64) << 20u64),
    ;
    if v == 0x01f0_0000 {
        Ok(())
    } else {
        Err("calc miss")
    }
}

} // verus!
