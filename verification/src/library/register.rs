//! Register fields: a mask and the offset of its lowest bit.
use vstd::prelude::*;
use crate::library::bitfield::{spec_extract, spec_fill, spec_set};

verus! {

/// An unsigned integer type that can hold a register.
pub trait RegSize: Copy + Sized {
    /// The value with no bit set.
    fn zero() -> Self;
}

impl RegSize for u8 {
    fn zero() -> (r: Self)
        ensures
            r == 0,
    {
        0
    }
}

impl RegSize for u16 {
    fn zero() -> (r: Self)
        ensures
            r == 0,
    {
        0
    }
}

impl RegSize for u32 {
    fn zero() -> (r: Self)
        ensures
            r == 0,
    {
        0
    }
}

impl RegSize for u64 {
    fn zero() -> (r: Self)
        ensures
            r == 0,
    {
        0
    }
}

impl RegSize for u128 {
    fn zero() -> (r: Self)
        ensures
            r == 0,
    {
        0
    }
}

impl RegSize for usize {
    fn zero() -> (r: Self)
        ensures
            r == 0,
    {
        0
    }
}

/// A field of a register: `mask` selects its bits, `offset` is the position
/// of the lowest of them.
pub struct Field<T: RegSize> {
    pub offset: usize,
    pub mask: T,
}

impl<T: RegSize> Field<T> {
    pub fn new(offset: usize, mask: T) -> (r: Self)
        ensures
            r.offset == offset,
            r.mask == mask,
    {
        Field { offset, mask }
    }
}

impl Field<u8> {
    /// The field's bits of `reg`, moved down to bit 0.
    pub fn read(&self, reg: u8) -> (r: u8)
        requires
            self.offset < 8,
        ensures
            r == (reg & self.mask) >> self.offset,
    {
        (reg & self.mask) >> self.offset
    }

    /// `reg` with the field's bits replaced by `value` moved up to the field.
    pub fn modify(&self, reg: u8, value: u8) -> (r: u8)
        requires
            self.offset < 8,
        ensures
            r == (reg & !self.mask) | ((value << self.offset) & self.mask),
    {
        (reg & !self.mask) | ((value << self.offset) & self.mask)
    }
}

impl Field<u16> {
    /// The field's bits of `reg`, moved down to bit 0.
    pub fn read(&self, reg: u16) -> (r: u16)
        requires
            self.offset < 16,
        ensures
            r == (reg & self.mask) >> self.offset,
    {
        (reg & self.mask) >> self.offset
    }

    /// `reg` with the field's bits replaced by `value` moved up to the field.
    pub fn modify(&self, reg: u16, value: u16) -> (r: u16)
        requires
            self.offset < 16,
        ensures
            r == (reg & !self.mask) | ((value << self.offset) & self.mask),
    {
        (reg & !self.mask) | ((value << self.offset) & self.mask)
    }
}

impl Field<u32> {
    /// The field's bits of `reg`, moved down to bit 0.
    pub fn read(&self, reg: u32) -> (r: u32)
        requires
            self.offset < 32,
        ensures
            r == (reg & self.mask) >> self.offset,
    {
        (reg & self.mask) >> self.offset
    }

    /// `reg` with the field's bits replaced by `value` moved up to the field.
    pub fn modify(&self, reg: u32, value: u32) -> (r: u32)
        requires
            self.offset < 32,
        ensures
            r == (reg & !self.mask) | ((value << self.offset) & self.mask),
    {
        (reg & !self.mask) | ((value << self.offset) & self.mask)
    }
}

impl Field<u64> {
    /// The field's bits of `reg`, moved down to bit 0.
    pub fn read(&self, reg: u64) -> (r: u64)
        requires
            self.offset < 64,
        ensures
            r == (reg & self.mask) >> self.offset,
    {
        (reg & self.mask) >> self.offset
    }

    /// `reg` with the field's bits replaced by `value` moved up to the field.
    pub fn modify(&self, reg: u64, value: u64) -> (r: u64)
        requires
            self.offset < 64,
        ensures
            r == (reg & !self.mask) | ((value << self.offset) & self.mask),
    {
        (reg & !self.mask) | ((value << self.offset) & self.mask)
    }
}

impl Field<u128> {
    /// The field's bits of `reg`, moved down to bit 0.
    pub fn read(&self, reg: u128) -> (r: u128)
        requires
            self.offset < 128,
        ensures
            r == (reg & self.mask) >> self.offset,
    {
        (reg & self.mask) >> self.offset
    }

    /// `reg` with the field's bits replaced by `value` moved up to the field.
    pub fn modify(&self, reg: u128, value: u128) -> (r: u128)
        requires
            self.offset < 128,
        ensures
            r == (reg & !self.mask) | ((value << self.offset) & self.mask),
    {
        (reg & !self.mask) | ((value << self.offset) & self.mask)
    }
}

impl Field<usize> {
    /// The field's bits of `reg`, moved down to bit 0.
    pub fn read(&self, reg: usize) -> (r: usize)
        requires
            self.offset < usize::BITS,
        ensures
            r == (reg & self.mask) >> self.offset,
    {
        (reg & self.mask) >> self.offset
    }

    /// `reg` with the field's bits replaced by `value` moved up to the field.
    pub fn modify(&self, reg: usize, value: usize) -> (r: usize)
        requires
            self.offset < usize::BITS,
        ensures
            r == (reg & !self.mask) | ((value << self.offset) & self.mask),
    {
        (reg & !self.mask) | ((value << self.offset) & self.mask)
    }
}

/// The mask of a field of `numbits` bits starting at bit `offset`.
pub open spec fn spec_field_mask(offset: u64, numbits: u64) -> u64 {
    spec_fill(numbits) << offset
}

/// A field fits a 64-bit register.
pub open spec fn field_fits(offset: u64, numbits: u64) -> bool {
    1 <= numbits < 64 && offset < 64 && offset + numbits <= 64
}

impl Field<u64> {
    /// The field of `numbits` bits that starts at bit `offset`, with the mask
    /// `((1 << numbits) - 1) << offset`.
    pub fn from_bits(offset: usize, numbits: usize) -> (r: Self)
        requires
            field_fits(offset as u64, numbits as u64),
        ensures
            r.offset == offset,
            r.mask == spec_field_mask(offset as u64, numbits as u64),
    {
        let n: u64 = numbits as u64;
        let o: u64 = offset as u64;
        assert((1u64 << n) >= 1) by (bit_vector)
            requires
                1 <= n < 64,
        ;
        Field { offset, mask: ((1u64 << n) - 1) << o }
    }
}

/// On a field made by `from_bits`, `read` and `modify` are the bit-field
/// extract and set.
pub proof fn lemma_field_is_bitfield(offset: u64, numbits: u64, reg: u64, value: u64)
    requires
        field_fits(offset, numbits),
    ensures
        (reg & spec_field_mask(offset, numbits)) >> offset == spec_extract(reg, numbits, offset),
        (reg & !spec_field_mask(offset, numbits)) | ((value << offset) & spec_field_mask(offset, numbits))
            == spec_set(reg, numbits, offset, value),
{
    assert((reg & !spec_field_mask(offset, numbits)) | ((value << offset) & spec_field_mask(offset, numbits))
        == spec_set(reg, numbits, offset, value)) by (bit_vector)
        requires
            1 <= numbits < 64,
            offset < 64,
            offset + numbits <= 64,
    ;
}

/// Reading a field after modifying it gives back the value written, cut to the
/// field's width; the bits outside the field are kept.
pub proof fn lemma_read_after_modify(offset: u64, numbits: u64, reg: u64, value: u64)
    requires
        field_fits(offset, numbits),
    ensures
        ({
            let m = spec_field_mask(offset, numbits);
            let w = (reg & !m) | ((value << offset) & m);
            &&& (w & m) >> offset == value & spec_fill(numbits)
            &&& w & !m == reg & !m
        }),
{
    let m = spec_field_mask(offset, numbits);
    assert((((reg & !m) | ((value << offset) & m)) & m) >> offset == value & spec_fill(numbits)) by (bit_vector)
        requires
            1 <= numbits < 64,
            offset < 64,
            offset + numbits <= 64,
            m == spec_fill(numbits) << offset,
    ;
    assert(((reg & !m) | ((value << offset) & m)) & !m == reg & !m) by (bit_vector);
}

/// Writing back what a field reads leaves the register unchanged.
pub proof fn lemma_modify_read_identity(offset: u64, numbits: u64, reg: u64)
    requires
        field_fits(offset, numbits),
    ensures
        ({
            let m = spec_field_mask(offset, numbits);
            (reg & !m) | ((((reg & m) >> offset) << offset) & m) == reg
        }),
{
    let m = spec_field_mask(offset, numbits);
    assert((reg & !m) | ((((reg & m) >> offset) << offset) & m) == reg) by (bit_vector)
        requires
            1 <= numbits < 64,
            offset < 64,
            offset + numbits <= 64,
            m == spec_fill(numbits) << offset,
    ;
}

/// Modifying a field twice with the same value is modifying it once, for
/// any mask.
pub proof fn lemma_modify_idempotent(mask: u64, offset: u64, reg: u64, value: u64)
    requires
        offset < 64,
    ensures
        ({
            let w = (reg & !mask) | ((value << offset) & mask);
            (w & !mask) | ((value << offset) & mask) == w
        }),
{
    assert(((((reg & !mask) | ((value << offset) & mask)) & !mask) | ((value << offset) & mask)) == (reg
        & !mask) | ((value << offset) & mask)) by (bit_vector)
        requires
            offset < 64,
    ;
}

/// The laws of a field of a 32-bit register whose mask is `n` contiguous
/// bits from `offset`: modifying keeps the other bits, reading after
/// modifying gives the value cut to the field, writing back what is read
/// changes nothing, and modifying twice is modifying once.
pub proof fn lemma_field_laws_u32(offset: usize, n: u32, reg: u32, value: u32)
    requires
        1 <= n < 32,
        offset + n <= 32,
    ensures
        ({
            let m = (((1u32 << n) - 1) as u32) << offset;
            let w = (reg & !m) | ((value << offset) & m);
            &&& w & !m == reg & !m
            &&& (w & m) >> offset == value & (m >> offset)
            &&& (reg & !m) | ((((reg & m) >> offset) << offset) & m) == reg
            &&& (w & !m) | ((value << offset) & m) == w
        }),
{
    let m = (((1u32 << n) - 1) as u32) << offset;
    assert(((((reg & !m) | ((value << offset) & m)) & m) >> offset == value & (m >> offset)) && ((reg & !m)
        | ((((reg & m) >> offset) << offset) & m) == reg) && (((reg & !m) | ((value << offset) & m)) & !m
        == reg & !m) && (((((reg & !m) | ((value << offset) & m)) & !m) | ((value << offset) & m)) == (reg
        & !m) | ((value << offset) & m))) by (bit_vector)
        requires
            1 <= n < 32,
            offset + n <= 32,
            m == (((1u32 << n) - 1) as u32) << offset,
    ;
}

/// The laws of a field of an 8-bit register whose mask is `n` contiguous
/// bits from `offset`: modifying keeps the other bits, reading after
/// modifying gives the value cut to the field, writing back what is read
/// changes nothing, and modifying twice is modifying once.
pub proof fn lemma_field_laws_u8(offset: usize, n: u8, reg: u8, value: u8)
    requires
        1 <= n < 8,
        offset + n <= 8,
    ensures
        ({
            let m = (((1u8 << n) - 1) as u8) << offset;
            let w = (reg & !m) | ((value << offset) & m);
            &&& w & !m == reg & !m
            &&& (w & m) >> offset == value & (m >> offset)
            &&& (reg & !m) | ((((reg & m) >> offset) << offset) & m) == reg
            &&& (w & !m) | ((value << offset) & m) == w
        }),
{
    let m = (((1u8 << n) - 1) as u8) << offset;
    assert(((((reg & !m) | ((value << offset) & m)) & m) >> offset == value & (m >> offset)) && ((reg & !m)
        | ((((reg & m) >> offset) << offset) & m) == reg) && (((reg & !m) | ((value << offset) & m)) & !m
        == reg & !m) && (((((reg & !m) | ((value << offset) & m)) & !m) | ((value << offset) & m)) == (reg
        & !m) | ((value << offset) & m))) by (bit_vector)
        requires
            1 <= n < 8,
            offset + n <= 8,
            m == (((1u8 << n) - 1) as u8) << offset,
    ;
}

/// The laws of a field of a 16-bit register whose mask is `n` contiguous
/// bits from `offset`: modifying keeps the other bits, reading after
/// modifying gives the value cut to the field, writing back what is read
/// changes nothing, and modifying twice is modifying once.
pub proof fn lemma_field_laws_u16(offset: usize, n: u16, reg: u16, value: u16)
    requires
        1 <= n < 16,
        offset + n <= 16,
    ensures
        ({
            let m = (((1u16 << n) - 1) as u16) << offset;
            let w = (reg & !m) | ((value << offset) & m);
            &&& w & !m == reg & !m
            &&& (w & m) >> offset == value & (m >> offset)
            &&& (reg & !m) | ((((reg & m) >> offset) << offset) & m) == reg
            &&& (w & !m) | ((value << offset) & m) == w
        }),
{
    let m = (((1u16 << n) - 1) as u16) << offset;
    assert(((((reg & !m) | ((value << offset) & m)) & m) >> offset == value & (m >> offset)) && ((reg & !m)
        | ((((reg & m) >> offset) << offset) & m) == reg) && (((reg & !m) | ((value << offset) & m)) & !m
        == reg & !m) && (((((reg & !m) | ((value << offset) & m)) & !m) | ((value << offset) & m)) == (reg
        & !m) | ((value << offset) & m))) by (bit_vector)
        requires
            1 <= n < 16,
            offset + n <= 16,
            m == (((1u16 << n) - 1) as u16) << offset,
    ;
}

/// The laws of a field of a 128-bit register whose mask is `n` contiguous
/// bits from `offset`: modifying keeps the other bits, reading after
/// modifying gives the value cut to the field, writing back what is read
/// changes nothing, and modifying twice is modifying once.
#[verifier::rlimit(100)]
pub proof fn lemma_field_laws_u128(offset: usize, n: u128, reg: u128, value: u128)
    requires
        1 <= n < 128,
        offset + n <= 128,
    ensures
        ({
            let m = (((1u128 << n) - 1) as u128) << offset;
            let w = (reg & !m) | ((value << offset) & m);
            &&& w & !m == reg & !m
            &&& (w & m) >> offset == value & (m >> offset)
            &&& (reg & !m) | ((((reg & m) >> offset) << offset) & m) == reg
            &&& (w & !m) | ((value << offset) & m) == w
        }),
{
    let m = (((1u128 << n) - 1) as u128) << offset;
    let w = (reg & !m) | ((value << offset) & m);
    assert(w & !m == reg & !m) by (bit_vector)
        requires
            w == (reg & !m) | ((value << offset) & m),
    ;
    assert((w & m) >> offset == value & (m >> offset)) by (bit_vector)
        requires
            1 <= n < 128,
            offset + n <= 128,
            m == (((1u128 << n) - 1) as u128) << offset,
            w == (reg & !m) | ((value << offset) & m),
    ;
    assert((reg & !m) | ((((reg & m) >> offset) << offset) & m) == reg) by (bit_vector)
        requires
            1 <= n < 128,
            offset + n <= 128,
            m == (((1u128 << n) - 1) as u128) << offset,
    ;
    assert((w & !m) | ((value << offset) & m) == w) by (bit_vector)
        requires
            w == (reg & !m) | ((value << offset) & m),
    ;
}

/// The laws of a field of a machine-word register whose mask is `n` contiguous
/// bits from `offset`: modifying keeps the other bits, reading after
/// modifying gives the value cut to the field, writing back what is read
/// changes nothing, and modifying twice is modifying once.
pub proof fn lemma_field_laws_usize(offset: usize, n: usize, reg: usize, value: usize)
    requires
        1 <= n < usize::BITS,
        offset + n <= usize::BITS,
    ensures
        ({
            let m = (((1usize << n) - 1) as usize) << offset;
            let w = (reg & !m) | ((value << offset) & m);
            &&& w & !m == reg & !m
            &&& (w & m) >> offset == value & (m >> offset)
            &&& (reg & !m) | ((((reg & m) >> offset) << offset) & m) == reg
            &&& (w & !m) | ((value << offset) & m) == w
        }),
{
    let m = (((1usize << n) - 1) as usize) << offset;
    assert(((((reg & !m) | ((value << offset) & m)) & m) >> offset == value & (m >> offset)) && ((reg & !m)
        | ((((reg & m) >> offset) << offset) & m) == reg) && (((reg & !m) | ((value << offset) & m)) & !m
        == reg & !m) && (((((reg & !m) | ((value << offset) & m)) & !m) | ((value << offset) & m)) == (reg
        & !m) | ((value << offset) & m))) by (bit_vector)
        requires
            1 <= n < usize::BITS,
            offset + n <= usize::BITS,
            m == (((1usize << n) - 1) as usize) << offset,
    ;
}

/// The register fields `VSSIE [2]`, `VSTIE [6]` and `MPP [17:16]`, exercised
/// on a register word held in memory: reads and writes of single fields see
/// and change only their own bits.
pub fn test_register() -> (r: Result<(), &'static str>)
    ensures
        r is Ok,
{
    let vssie = Field::<u64>::from_bits(2, 1);
    let vstie = Field::<u64>::from_bits(6, 1);
    let mpp = Field::<u64>::from_bits(16, 2);
    let machine: u64 = 3;
    let reg0: u64 = (1u64 << 2u64) | (1u64 << 6u64);
    let a = vssie.read(reg0);
    let b = vstie.read(reg0);
    let c = mpp.read(reg0);
    let reg1 = vssie.modify(reg0, 0);
    let reg2 = mpp.modify(reg1, machine);
    let d = vssie.read(reg2);
    let e = vstie.read(reg2);
    let f = mpp.read(reg2);
    assert(a == 1 && b == 1 && c == 0 && reg2 == (1u64 << 6u64) | (3u64 << 16u64) && d == 0 && e == 1 && f == 3)
        by (bit_vector)
        requires
            reg0 == (1u64 << 2u64) | (1u64 << 6u64),
            a == (reg0 & ((((1u64 << 1u64) - 1) as u64) << 2u64)) >> 2u64,
            b == (reg0 & ((((1u64 << 1u64) - 1) as u64) << 6u64)) >> 6u64,
            c == (reg0 & ((((1u64 << 2u64) - 1) as u64) << 16u64)) >> 16u64,
            reg1 == (reg0 & !((((1u64 << 1u64) - 1) as u64) << 2u64)) | ((0u64 << 2u64) & ((((1u64 << 1u64) - 1) as u64) << 2u64)),
            reg2 == (reg1 & !((((1u64 << 2u64) - 1) as u64) << 16u64)) | ((3u64 << 16u64) & ((((1u64 << 2u64) - 1) as u64) << 16u64)),
            d == (reg2 & ((((1u64 << 1u64) - 1) as u64) << 2u64)) >> 2u64,
            e == (reg2 & ((((1u64 << 1u64) - 1) as u64) << 6u64)) >> 6u64,
            f == (reg2 & ((((1u64 << 2u64) - 1) as u64) << 16u64)) >> 16u64,
    ;
    if a != 1 || b != 1 || c != 0 {
        return Err("Invalid value");
    }
    if reg2 != (1u64 << 6u64) | (3u64 << 16u64) {
        return Err("Invalid value");
    }
    if d != 0 || e != 1 || f != 3 {
        return Err("Invalid value");
    }
    Ok(())
}

} // verus!
