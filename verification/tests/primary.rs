use hyperbuf::hypervec::{Endianness, HyperVec, ReadVisitor, WriteVisitor};
use hyperbuf::impls::{BytePusher, ByteWrapper, Castable, HyperVecSerde};
use hyperbuf::results::MemError;

#[test]
fn test_dynamic_memory2() {
    let my_x: u16 = 100;
    let mut wrapper = HyperVec::wrap_u16s_le(&[my_x]);

    for x in 0..u16::max_value() {
        let mut writer = wrapper.cast_mut::<u16>().unwrap();
        if writer.is_ready(&wrapper) {
            wrapper.set_cursor_pos(0);
            wrapper.put_slice(&x.to_le_bytes());
        }
        writer.try_visit(&mut wrapper, None, None).unwrap();
    }
    let last = (u16::max_value() - 1).to_le_bytes();
    assert_eq!(wrapper.bytes(), &last[..]);
}

#[test]
fn growth_preserves_prefix() {
    let mut buf = HyperVec::wrap_bytes(&[1u8, 2, 3]);
    buf.extend(4);
    assert_eq!(buf.length(), 7);
    assert_eq!(buf.bytes(), &[1, 2, 3, 0, 0, 0, 0]);
    buf.extend(0);
    assert_eq!(buf.length(), 7);
}

#[test]
fn snapshot_round_trip() {
    let mut buf = HyperVec::wrap_bytes(&[9u8, 8, 7, 6]);
    buf.set_cursor_pos(3);
    buf.set_read_version(5);
    buf.set_write_version(11);
    buf.set_endianness(Endianness::BE);

    let record = buf.to_snapshot().unwrap();
    let restored = HyperVec::from_snapshot(record);

    assert_eq!(restored.bytes(), buf.bytes());
    assert_eq!(restored.cursor_position(), 3);
    assert_eq!(restored.get_read_version(), 5);
    assert_eq!(restored.get_write_version(), 11);
    assert!(restored.get_endianness().is_be());
    assert!(!restored.is_corrupted());
}

#[test]
fn snapshot_record_fields() {
    let buf = HyperVec::wrap_bytes(&[42u8]);
    let HyperVecSerde(bytes, cursor, read_version, write_version, is_be) =
        buf.to_snapshot().unwrap();
    assert_eq!(bytes, vec![42u8]);
    assert_eq!(cursor, 0);
    assert_eq!(read_version, 0);
    assert_eq!(write_version, 0);
    assert_eq!(is_be, buf.get_endianness().is_be());
}

#[test]
fn endian_push_correctness() {
    let mut be = HyperVec::new(0);
    be.set_endianness(Endianness::BE);
    be.push_u16s(&[0x1234]);
    assert_eq!(be.bytes(), &[0x12, 0x34]);

    let mut le = HyperVec::new(0);
    le.set_endianness(Endianness::LE);
    le.push_u16s(&[0x1234]);
    assert_eq!(le.bytes(), &[0x34, 0x12]);
}

#[test]
fn visitor_admission_ordering() {
    let mut buf = HyperVec::new(4);
    let mut first = buf.cast_mut::<u8>().unwrap();
    let mut second = WriteVisitor::new(1);

    assert!(first.is_ready(&buf));
    assert!(!second.is_ready(&buf));
    assert!(matches!(
        second.try_visit(&mut buf, None, None),
        Err(MemError::NOT_READY)
    ));
    assert_eq!(buf.get_write_version(), 0);

    first.try_visit(&mut buf, None, None).unwrap();
    assert_eq!(buf.get_write_version(), 1);
    assert!(second.is_ready(&buf));
    second.try_visit(&mut buf, None, None).unwrap();
    assert_eq!(buf.get_write_version(), 2);
}

#[test]
fn torn_read_detection() {
    let mut buf = HyperVec::new(2);
    let mut reader = buf.cast::<u8>().unwrap();
    reader.try_visit(&buf).unwrap();

    // A concurrent write visitor is admitted and completes inside the window.
    let mut writer = buf.cast_mut::<u8>().unwrap();
    writer.try_visit(&mut buf, None, None).unwrap();

    assert!(matches!(
        reader.finish_visit(&mut buf),
        Err(MemError::OUT_OF_SYNC)
    ));
    assert_eq!(buf.get_read_version(), 1);
}

#[test]
fn undisturbed_read_is_consistent() {
    let mut buf = HyperVec::wrap_bytes(&[5u8, 6]);
    let mut reader = buf.cast::<u8>().unwrap();
    reader.try_visit(&buf).unwrap();
    assert_eq!(buf.read_relative(0), 5);
    assert!(reader.finish_visit(&mut buf).is_ok());
    assert_eq!(buf.get_read_version(), 1);
}

#[test]
fn corruption_is_terminal() {
    let mut buf = HyperVec::new(2);
    let mut writer = buf.cast_mut::<u8>().unwrap();
    // The subroutine reports more bytes than the size plus the budget.
    let outcome = writer.try_visit(&mut buf, Some(1), Some(100));
    assert!(matches!(outcome, Err(MemError::CORRUPT(_))));
    assert!(buf.is_corrupted());

    // Later, otherwise-fine operations do not clear the flag.
    buf.extend(8);
    buf.reset_cursor();
    assert!(buf.is_corrupted());
    assert!(matches!(buf.to_snapshot(), Err(MemError::CORRUPT(_))));
}

#[test]
fn in_budget_write_is_clean() {
    let mut buf = HyperVec::new(2);
    let mut writer = buf.cast_mut::<u8>().unwrap();
    assert!(writer.try_visit(&mut buf, Some(3), Some(5)).is_ok());
    assert!(!buf.is_corrupted());
    assert_eq!(buf.length(), 5);
    assert_eq!(buf.get_write_version(), 1);
}

#[test]
fn wrap_round_trip() {
    let mut buf = HyperVec::wrap_bytes(&[10u8, 3, 99, 255, 251, 254]);
    assert_eq!(buf.bytes(), &[10, 3, 99, 255, 251, 254]);

    buf.reset_cursor();
    let mut seen = Vec::new();
    while (buf.cursor_position() as usize) < buf.length() {
        seen.push(buf.get_and_advance_cursor());
    }
    assert_eq!(seen, vec![10, 3, 99, 255, 251, 254]);
}

#[test]
fn cancellation_does_not_starve() {
    let mut buf = HyperVec::new(3);
    let before = buf.get_write_version();
    let mut writer = buf.cast_mut::<u8>().unwrap();
    writer.dispose(&mut buf);
    assert_eq!(buf.get_write_version(), before + 1);
    // No pending growth is applied on cancellation.
    assert_eq!(buf.length(), 3);

    let mut reader = buf.cast::<u8>().unwrap();
    reader.dispose(&mut buf);
    assert_eq!(buf.get_read_version(), 1);
}

#[test]
fn read_visitor_not_ready_before_admission() {
    let mut buf = HyperVec::new(1);
    let mut early = ReadVisitor::new(3);
    assert!(!early.is_ready(&buf));
    assert!(matches!(early.try_visit(&buf), Err(MemError::NOT_READY)));
    // Nothing advanced: a failed try leaves the queue as it was.
    assert_eq!(buf.get_read_version(), 0);

    buf.set_read_version(3);
    assert!(early.is_ready(&buf));
    assert!(early.try_visit(&buf).is_ok());
    assert!(early.finish_visit(&mut buf).is_ok());
    assert_eq!(buf.get_read_version(), 4);
}

#[test]
fn cast_validates_size() {
    let mut small = HyperVec::new(2);
    assert!(matches!(
        small.cast::<u64>(),
        Err(MemError::BAD_ALIGN(_))
    ));
    assert!(matches!(
        small.cast_mut::<u64>(),
        Err(MemError::BAD_ALIGN(_))
    ));
    assert!(small.cast::<u16>().is_ok());
    assert!(small.cast_mut::<u16>().is_ok());
}

#[test]
fn cursor_operations() {
    let mut buf = HyperVec::wrap_bytes(&[4u8, 5, 6, 7]);
    assert_eq!(buf.cursor_position(), 0);
    assert_eq!(buf.read_cursor(), 4);
    buf.advance_cursor();
    assert_eq!(buf.read_cursor(), 5);
    buf.advance_cursor_by(2);
    assert_eq!(buf.cursor_position(), 3);
    assert_eq!(buf.read_cursor_offset(-1), 6);
    assert_eq!(buf.read_relative(0), 4);
    assert_eq!(buf.remaining_mut(), 1);
    assert_eq!(buf.get_bytes_cursor(), &[7]);
    buf.set_cursor_pos(1);
    assert_eq!(buf.get_and_advance_cursor(), 5);
    buf.reset_cursor();
    assert_eq!(buf.cursor_position(), 0);
}

#[test]
fn version_counters() {
    let mut buf = HyperVec::new(1);
    assert_eq!(buf.get_and_increment_read_version(), 0);
    assert_eq!(buf.get_and_increment_read_version(), 1);
    assert_eq!(buf.get_read_version(), 2);
    assert_eq!(buf.get_and_increment_write_version(), 0);
    assert_eq!(buf.get_write_version(), 1);
    buf.set_read_version(7);
    buf.set_write_version(9);
    assert_eq!(buf.get_read_version(), 7);
    assert_eq!(buf.get_write_version(), 9);
}

#[test]
fn endianness_helpers() {
    assert!(Endianness::BE.is_be());
    assert!(!Endianness::BE.is_le());
    assert!(Endianness::LE.is_le());
    assert!(!Endianness::LE.is_be());
    assert!(Endianness::from_bool(true).is_be());
    assert!(Endianness::from_bool(false).is_le());
    let t = Endianness::target();
    assert!(t.is_be() || t.is_le());
    assert_eq!(t.is_be(), u16::from_ne_bytes([0, 1]) == 1);
}

#[test]
fn error_values() {
    assert_eq!(MemError::CORRUPT(vec![1]).value(), 0);
    assert_eq!(MemError::OUT_OF_SYNC.value(), 1);
    assert_eq!(MemError::NOT_READY.value(), 2);
    assert_eq!(MemError::GENERIC(vec![]).value(), 3);
    assert_eq!(MemError::BAD_ALIGN(vec![]).value(), 4);
}

#[test]
fn error_constructors() {
    match MemError::throw_corrupt::<()>(vec![1, 2]) {
        Err(MemError::CORRUPT(b)) => assert_eq!(b, vec![1, 2]),
        _ => panic!("expected CORRUPT"),
    }
    match MemError::throw_bad_align::<()>(vec![3]) {
        Err(MemError::BAD_ALIGN(b)) => assert_eq!(b, vec![3]),
        _ => panic!("expected BAD_ALIGN"),
    }
    match MemError::throw::<()>(vec![4]) {
        Err(MemError::GENERIC(b)) => assert_eq!(b, vec![4]),
        _ => panic!("expected GENERIC"),
    }
}

#[test]
fn new_buffers_are_zeroed() {
    let a = HyperVec::new(4);
    assert_eq!(a.bytes(), &[0, 0, 0, 0]);
    let b = HyperVec::new_zeroed(2);
    assert_eq!(b.bytes(), &[0, 0]);
    assert_eq!(HyperVec::new(0).length(), 0);
}

#[test]
fn mutable_byte_view() {
    let mut buf = HyperVec::wrap_bytes(&[1u8, 2, 3]);
    let view = buf.get_full_bytes_mut();
    view[1] = 20;
    assert_eq!(buf.bytes(), &[1, 20, 3]);
    assert_eq!(buf.cursor_position(), 0);
}

#[test]
fn put_operations() {
    let mut buf = HyperVec::new(4);
    buf.put_u8(0xaa);
    buf.put_slice(&[0xbb, 0xcc]);
    assert_eq!(buf.bytes(), &[0xaa, 0xbb, 0xcc, 0x00]);
    assert_eq!(buf.cursor_position(), 3);
}

#[test]
fn push_at_interior_cursor_overwrites() {
    let mut buf = HyperVec::wrap_bytes(&[1u8, 2, 3, 4]);
    buf.set_cursor_pos(1);
    buf.push_u8s(&[9, 9]);
    // Growth appends two zero bytes; the write lands at the cursor.
    assert_eq!(buf.bytes(), &[1, 9, 9, 4, 0, 0]);
    assert_eq!(buf.cursor_position(), 3);
}
