use hyperbuf::hypervec::HyperVec;
use hyperbuf::impls::HyperVecSerde;
use hyperbuf::results::MemError;
use hyperbuf::util::{pack4_4, ptr_deserialize_hypervecserde, unpack4_4, HYPERVEC_MIN_SIZE, U4};

#[test]
fn pack_and_unpack() {
    assert_eq!(pack4_4(0xa, 0x5), 0xa5);
    assert_eq!(pack4_4(0x0, 0xf), 0x0f);
    assert_eq!(unpack4_4(0xa5), [0xa, 0x5]);
    assert_eq!(unpack4_4(0xf0), [0xf, 0x0]);
    for first in 0u8..16 {
        for second in 0u8..16 {
            assert_eq!(unpack4_4(pack4_4(first, second)), [first, second]);
        }
    }
}

#[test]
fn u4_values() {
    assert_eq!(U4::ONE.value(), 1);
    assert_eq!(U4::TWO.value(), 2);
    assert_eq!(U4::THREE.value(), 3);
    assert_eq!(U4::FOUR.value(), 4);
    assert_eq!(U4::FIVE.value(), 5);
    assert_eq!(U4::SIX.value(), 6);
    assert_eq!(U4::SEVEN.value(), 7);
}

fn flat_record(data: &[u8], cursor: i64, read_version: u64, write_version: u64, is_be: bool) -> Vec<u8> {
    let mut image = data.to_vec();
    image.extend_from_slice(&cursor.to_le_bytes());
    image.extend_from_slice(&read_version.to_le_bytes());
    image.extend_from_slice(&write_version.to_le_bytes());
    image.push(if is_be { 1 } else { 0 });
    image
}

#[test]
fn decode_flat_record() {
    let image = flat_record(&[10, 20, 30], -4, 6, 7, true);
    assert_eq!(image.len(), 3 + HYPERVEC_MIN_SIZE);
    let HyperVecSerde(data, cursor, read_version, write_version, is_be) =
        ptr_deserialize_hypervecserde(&image).unwrap();
    assert_eq!(data, vec![10, 20, 30]);
    assert_eq!(cursor, -4);
    assert_eq!(read_version, 6);
    assert_eq!(write_version, 7);
    assert!(is_be);
}

#[test]
fn decode_empty_data_record() {
    let image = flat_record(&[], 0, 0, 0, false);
    let record = ptr_deserialize_hypervecserde(&image).unwrap();
    assert!(record.0.is_empty());
    assert!(!record.4);

    let restored = HyperVec::from_snapshot(record);
    assert_eq!(restored.length(), 0);
    assert!(restored.get_endianness().is_le());
}

#[test]
fn decode_rejects_short_image() {
    let image = vec![0u8; HYPERVEC_MIN_SIZE - 1];
    assert!(matches!(
        ptr_deserialize_hypervecserde(&image),
        Err(MemError::GENERIC(_))
    ));
}
