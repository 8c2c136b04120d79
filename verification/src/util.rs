//! Bit-packing helpers and a manual decoder for the flat snapshot record.

use vstd::prelude::*;

use crate::impls::HyperVecSerde;
use crate::results::{InformationResult, MemError};

verus! {

/// Two nibbles packed into one byte: `first` in the high four bits,
/// `second` in the low four.
pub open spec fn spec_pack4_4(first: u8, second: u8) -> u8 {
    (first << 4) | second
}

/// The high nibble of a byte.
pub open spec fn spec_high4(byte: u8) -> u8 {
    (byte & 0xf0) >> 4
}

/// The low nibble of a byte.
pub open spec fn spec_low4(byte: u8) -> u8 {
    byte & 0x0f
}

/// Packs two values below 2^4 into a single byte, `first` in the high four
/// bits. There are no checks that the inputs are below 2^4: higher bits of
/// `first` are shifted out, and higher bits of `second` are merged in.
#[inline]
pub fn pack4_4(first: u8, second: u8) -> (r: u8)
    ensures
        r == spec_pack4_4(first, second),
{
    (first << 4u8) | second
}

/// The inverse of `pack4_4`: returns the two nibbles in the order they were
/// packed.
#[inline]
pub fn unpack4_4(byte: u8) -> (r: [u8; 2])
    ensures
        r@ == seq![spec_high4(byte), spec_low4(byte)],
{
    let r = [(byte & 0xf0) >> 4u8, byte & 0x0f];
    proof {
        assert(r@ =~= seq![spec_high4(byte), spec_low4(byte)]);
    }
    r
}

/// Unpacking recovers what was packed, for nibble-sized inputs.
pub proof fn lemma_unpack_pack(first: u8, second: u8)
    requires
        first < 0x10,
        second < 0x10,
    ensures
        spec_high4(spec_pack4_4(first, second)) == first,
        spec_low4(spec_pack4_4(first, second)) == second,
{
    assert((((first << 4) | second) & 0xf0) >> 4 == first && (((first << 4) | second) & 0x0f)
        == second) by (bit_vector)
        requires
            first < 0x10,
            second < 0x10,
    ;
}

/// Small powers of two, for storing shift amounts compactly.
#[allow(missing_docs)]
pub enum U4 {
    ONE,
    TWO,
    THREE,
    FOUR,
    FIVE,
    SIX,
    SEVEN,
}

impl U4 {
    /// The numeric value of the power this variant stands for.
    pub fn value(&self) -> (r: u8)
        ensures
            r == match self {
                U4::ONE => 1int,
                U4::TWO => 2int,
                U4::THREE => 3int,
                U4::FOUR => 4int,
                U4::FIVE => 5int,
                U4::SIX => 6int,
                U4::SEVEN => 7int,
            },
    {
        match self {
            U4::ONE => 1,
            U4::TWO => 2,
            U4::THREE => 3,
            U4::FOUR => 4,
            U4::FIVE => 5,
            U4::SIX => 6,
            U4::SEVEN => 7,
        }
    }
}

/// The fewest bytes a flat snapshot record can occupy: an 8-byte cursor,
/// two 8-byte version counters and one byte-order byte, with no data.
pub const HYPERVEC_MIN_SIZE: usize = 25;

/// The unsigned value of eight little-endian bytes.
pub open spec fn spec_le64(s: Seq<u8>) -> int
    recommends
        s.len() == 8,
{
    s[0] + 0x100 * s[1] + 0x10000 * s[2] + 0x1000000 * s[3] + 0x100000000 * s[4]
        + 0x10000000000 * s[5] + 0x1000000000000 * s[6] + 0x100000000000000 * s[7]
}

/// Decodes eight little-endian bytes into an unsigned 64-bit value.
fn parse_le64(b: &[u8]) -> (r: u64)
    requires
        b@.len() == 8,
    ensures
        r == spec_le64(b@),
{
    (b[0] as u64) + 0x100 * (b[1] as u64) + 0x10000 * (b[2] as u64) + 0x1000000 * (b[3] as u64)
        + 0x100000000 * (b[4] as u64) + 0x10000000000 * (b[5] as u64) + 0x1000000000000 * (
    b[6] as u64) + 0x100000000000000 * (b[7] as u64)
}

/// The trailer of a well-formed record, read off a byte sequence: the
/// cursor, the read version and the write version as little-endian 64-bit
/// values, in the order they sit in front of the final byte-order byte.
pub open spec fn spec_record_cursor(s: Seq<u8>) -> int {
    spec_le64(s.subrange(s.len() - 25, s.len() - 17))
}

/// The read version field of a flat record.
pub open spec fn spec_record_read_version(s: Seq<u8>) -> int {
    spec_le64(s.subrange(s.len() - 17, s.len() - 9))
}

/// The write version field of a flat record.
pub open spec fn spec_record_write_version(s: Seq<u8>) -> int {
    spec_le64(s.subrange(s.len() - 9, s.len() - 1))
}

/// A flat byte sequence decodes into a snapshot record exactly when it is
/// long enough for the 25-byte trailer and each trailer field fits the
/// machine type it is restored into.
pub open spec fn spec_record_decodes(s: Seq<u8>) -> bool {
    &&& s.len() >= 25
    &&& spec_record_read_version(s) <= usize::MAX
    &&& spec_record_write_version(s) <= usize::MAX
    &&& isize::MIN <= spec_record_cursor(s) as u64 as i64 <= isize::MAX
}

/// Decodes a flat byte image into a snapshot record without a serializer's
/// help. The last byte selects the byte order, the three 8-byte
/// little-endian fields before it are the write version, the read version
/// and the cursor (last field nearest the end), and everything in front of
/// the trailer is the data. Refuses, with a `GENERIC` error, an image
/// shorter than the trailer or one whose counters or cursor do not fit the
/// machine's word.
pub fn ptr_deserialize_hypervecserde(bytes: &[u8]) -> (r: InformationResult<HyperVecSerde>)
    ensures
        r is Ok <==> spec_record_decodes(bytes@),
        r matches Ok(s) ==> {
            &&& s.0@ == bytes@.subrange(0, bytes@.len() - 25)
            &&& s.1 as int == spec_record_cursor(bytes@) as u64 as i64 as int
            &&& s.2 == spec_record_read_version(bytes@)
            &&& s.3 == spec_record_write_version(bytes@)
            &&& s.4 == (bytes@[bytes@.len() - 1] == 1)
        },
        r matches Err(e) ==> e matches MemError::GENERIC(_),
{
    let len = bytes.len();
    if len < HYPERVEC_MIN_SIZE {
        return MemError::throw(vstd::slice::slice_to_vec("record too short".as_bytes()));
    }
    let is_be = bytes[len - 1] == 1;
    let write_version_raw = parse_le64(vstd::slice::slice_subrange(bytes, len - 9, len - 1));
    let read_version_raw = parse_le64(vstd::slice::slice_subrange(bytes, len - 17, len - 9));
    let cursor_raw = parse_le64(vstd::slice::slice_subrange(bytes, len - 25, len - 17));
    if write_version_raw > usize::MAX as u64 || read_version_raw > usize::MAX as u64 {
        return MemError::throw(vstd::slice::slice_to_vec("version out of range".as_bytes()));
    }
    let cursor_signed = #[verifier::truncate] (cursor_raw as i64);
    if cursor_signed < isize::MIN as i64 || cursor_signed > isize::MAX as i64 {
        return MemError::throw(vstd::slice::slice_to_vec("cursor out of range".as_bytes()));
    }
    let data = vstd::slice::slice_to_vec(vstd::slice::slice_subrange(bytes, 0, len - 25));
    Ok(
        HyperVecSerde(
            data,
            cursor_signed as isize,
            read_version_raw as usize,
            write_version_raw as usize,
            is_be,
        ),
    )
}

} // verus!
