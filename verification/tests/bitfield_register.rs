use violet::library::bitfield::{bit_clear, bit_extract, bit_fill, bit_set, test_bitfield, test_bitfield2};
use violet::library::register::{test_register, Field};

#[test]
fn bitfield_extract_rs2() {
    assert_eq!(bit_extract(0x01f0_0000, (24, 20)), 0x1f);
    assert!(test_bitfield().is_ok());
}

#[test]
fn bitfield_set_rs2() {
    assert_eq!(bit_set(0, (24, 20), 0xffff), 0x01f0_0000);
    assert!(test_bitfield2().is_ok());
}

#[test]
fn bitfield_fill_and_clear() {
    assert_eq!(bit_fill((3, 0)), 0xf);
    assert_eq!(bit_fill((62, 0)), 0x7fff_ffff_ffff_ffff);
    assert_eq!(bit_clear(0xffff, (7, 4)), 0xff0f);
}

#[test]
fn register_fields() {
    assert!(test_register().is_ok());
    let mpp = Field::<u64>::from_bits(16, 2);
    assert_eq!(mpp.mask, 0x3_0000);
    assert_eq!(mpp.read(0x2_0040), 2);
    assert_eq!(mpp.modify(0xffff_ffff, 1), 0xfffd_ffff);
    let f = Field::<u32>::new(4, 0xf0u32);
    assert_eq!(f.read(0xabu32), 0xa);
    assert_eq!(f.modify(0xabu32, 0x5), 0x5b);
}

#[test]
fn register_modify_twice() {
    let f = Field::<u64>::from_bits(4, 3);
    let once = f.modify(0xffff, 5);
    assert_eq!(f.modify(once, 5), once);
    assert_eq!(f.read(once), 5);
}
