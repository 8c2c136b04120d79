use hyperbuf::hypervec::{Endianness, HyperVec};
use hyperbuf::impls::{BytePusher, ByteWrapper};

#[test]
fn wrap_unsigned_be() {
    assert_eq!(
        HyperVec::wrap_u16s_be(&[0x0102, 0x0304]).bytes(),
        &[1, 2, 3, 4]
    );
    assert_eq!(
        HyperVec::wrap_u32s_be(&[0x01020304]).bytes(),
        &[1, 2, 3, 4]
    );
    assert_eq!(
        HyperVec::wrap_u64s_be(&[0x0102030405060708]).bytes(),
        &[1, 2, 3, 4, 5, 6, 7, 8]
    );
    assert_eq!(
        HyperVec::wrap_u128s_be(&[0x0102030405060708090a0b0c0d0e0f10]).bytes(),
        &[1, 2, 3, 4, 5, 6, 7, 8, 9, 10, 11, 12, 13, 14, 15, 16]
    );
}

#[test]
fn wrap_unsigned_le() {
    assert_eq!(
        HyperVec::wrap_u16s_le(&[0x0102, 0x0304]).bytes(),
        &[2, 1, 4, 3]
    );
    assert_eq!(
        HyperVec::wrap_u32s_le(&[0x01020304]).bytes(),
        &[4, 3, 2, 1]
    );
    assert_eq!(
        HyperVec::wrap_u64s_le(&[0x0102030405060708]).bytes(),
        &[8, 7, 6, 5, 4, 3, 2, 1]
    );
    assert_eq!(
        HyperVec::wrap_u128s_le(&[0x0102030405060708090a0b0c0d0e0f10]).bytes(),
        &[16, 15, 14, 13, 12, 11, 10, 9, 8, 7, 6, 5, 4, 3, 2, 1]
    );
}

#[test]
fn wrap_signed_matches_twos_complement() {
    assert_eq!(HyperVec::wrap_i16s_be(&[-2]).bytes(), &[0xff, 0xfe]);
    assert_eq!(HyperVec::wrap_i16s_le(&[-2]).bytes(), &[0xfe, 0xff]);
    assert_eq!(
        HyperVec::wrap_i32s_be(&[-2]).bytes(),
        &[0xff, 0xff, 0xff, 0xfe]
    );
    assert_eq!(
        HyperVec::wrap_i32s_le(&[0x01020304]).bytes(),
        &[4, 3, 2, 1]
    );
    assert_eq!(
        HyperVec::wrap_i64s_be(&[-2]).bytes(),
        &[0xff, 0xff, 0xff, 0xff, 0xff, 0xff, 0xff, 0xfe]
    );
    assert_eq!(
        HyperVec::wrap_i64s_le(&[2]).bytes(),
        &[2, 0, 0, 0, 0, 0, 0, 0]
    );
    let mut minus_two_be = vec![0xffu8; 15];
    minus_two_be.push(0xfe);
    assert_eq!(
        HyperVec::wrap_i128s_be(&[-2]).bytes(),
        minus_two_be.as_slice()
    );
    assert_eq!(
        HyperVec::wrap_i128s_le(&[3]).bytes(),
        &[3, 0, 0, 0, 0, 0, 0, 0, 0, 0, 0, 0, 0, 0, 0, 0]
    );
}

#[test]
fn push_all_widths_big_endian() {
    let mut buf = HyperVec::new(0);
    buf.set_endianness(Endianness::BE);
    buf.push_u8s(&[0xaa]);
    buf.push_u16s(&[0x0102]);
    buf.push_u32s(&[0x03040506]);
    buf.push_i8s(&[-1]);
    buf.push_i16s(&[-2]);
    assert_eq!(
        buf.bytes(),
        &[0xaa, 1, 2, 3, 4, 5, 6, 0xff, 0xff, 0xfe]
    );
}

#[test]
fn push_all_widths_little_endian() {
    let mut buf = HyperVec::new(0);
    buf.set_endianness(Endianness::LE);
    buf.push_u16s(&[0x0102]);
    buf.push_u64s(&[0x0102030405060708]);
    buf.push_i32s(&[-2]);
    assert_eq!(
        buf.bytes(),
        &[2, 1, 8, 7, 6, 5, 4, 3, 2, 1, 0xfe, 0xff, 0xff, 0xff]
    );
}

#[test]
fn push_widest_widths() {
    let mut buf = HyperVec::new(0);
    buf.set_endianness(Endianness::BE);
    buf.push_u128s(&[1]);
    buf.push_i64s(&[-1]);
    buf.push_i128s(&[-1]);
    let mut expected = vec![0u8; 15];
    expected.push(1);
    expected.extend_from_slice(&[0xff; 8]);
    expected.extend_from_slice(&[0xff; 16]);
    assert_eq!(buf.bytes(), expected.as_slice());
}

#[test]
fn push_matches_std_conversions() {
    let mut be = HyperVec::new(0);
    be.set_endianness(Endianness::BE);
    be.push_u32s(&[0xdeadbeef]);
    assert_eq!(be.bytes(), &0xdeadbeefu32.to_be_bytes());

    let mut le = HyperVec::new(0);
    le.set_endianness(Endianness::LE);
    le.push_i64s(&[-123456789]);
    assert_eq!(le.bytes(), &(-123456789i64).to_le_bytes());
}

#[test]
fn push_grows_by_exact_element_size() {
    let mut buf = HyperVec::new(1);
    buf.set_endianness(Endianness::LE);
    buf.push_u16s(&[7, 8, 9]);
    assert_eq!(buf.length(), 7);
}
