//! Snapshot serialization, the checked cast layer, byte-order-aware wrapping
//! and the typed append layer of the buffer core.

use vstd::prelude::*;

use crate::hypervec::{Endianness, HyperVec, ReadVisitor, WriteVisitor, splice, zeros};
use crate::results::{InformationResult, MemError};

verus! {

/// The flat, transferable snapshot of a buffer: its bytes, cursor, read
/// version, write version, and whether its byte order is big-endian.
pub struct HyperVecSerde(pub Vec<u8>, pub isize, pub usize, pub usize, pub bool);

/// The record `s` holds exactly the state of the buffer `b`: its bytes, its
/// cursor, both version counters and its byte order.
pub open spec fn records(s: &HyperVecSerde, b: &HyperVec) -> bool {
    &&& s.0@ == b@
    &&& s.1 == b.spec_cursor()
    &&& s.2 == b.spec_read_version()
    &&& s.3 == b.spec_write_version()
    &&& s.4 == (b.spec_endianness() is BE)
}

/// A buffer may be serialized only while it is not corrupted.
pub open spec fn spec_snapshot_allowed(b: &HyperVec) -> bool {
    !b.spec_corrupt()
}

impl HyperVec {
    /// Produces the buffer's snapshot record, or refuses with `CORRUPT`
    /// (carrying the raw bytes) if the buffer is corrupted, so that junk
    /// data is never persisted.
    pub fn to_snapshot(&self) -> (r: Result<HyperVecSerde, MemError>)
        ensures
            r is Ok <==> spec_snapshot_allowed(self),
            self.spec_corrupt() ==> (r matches Err(MemError::CORRUPT(b)) && b@ == self@),
            !self.spec_corrupt() ==> (r matches Ok(s) && records(&s, self)),
    {
        if self.is_corrupted() {
            MemError::throw_corrupt(vstd::slice::slice_to_vec(self.bytes()))
        } else {
            Ok(
                HyperVecSerde(
                    vstd::slice::slice_to_vec(self.bytes()),
                    self.cursor_position(),
                    self.get_read_version(),
                    self.get_write_version(),
                    self.get_endianness().is_be(),
                ),
            )
        }
    }

    /// Reconstructs a buffer from a snapshot record: the bytes are wrapped
    /// and the cursor, both counters and the byte order are restored
    /// verbatim. The reconstructed buffer is not corrupted.
    pub fn from_snapshot(record: HyperVecSerde) -> (r: HyperVec)
        ensures
            records(&record, &r),
            !r.spec_corrupt(),
    {
        let HyperVecSerde(bytes, cursor, read_version, write_version, is_be) = record;
        let mut h = HyperVec::from_vec(bytes);
        h.set_cursor_pos(cursor);
        h.set_read_version(read_version);
        h.set_write_version(write_version);
        h.set_endianness(Endianness::from_bool(is_be));
        h
    }
}

/// Round-trip: a buffer rebuilt from the snapshot of a non-corrupted buffer
/// equals it in bytes, cursor, both counters and byte order. The premises
/// are exactly what `to_snapshot` and `from_snapshot` ensure.
pub proof fn lemma_snapshot_round_trip(b: &HyperVec, s: &HyperVecSerde, b2: &HyperVec)
    requires
        !b.spec_corrupt(),
        records(s, b),
        records(s, b2),
    ensures
        b2@ == b@,
        b2.spec_cursor() == b.spec_cursor(),
        b2.spec_read_version() == b.spec_read_version(),
        b2.spec_write_version() == b.spec_write_version(),
        b2.spec_endianness() == b.spec_endianness(),
{
}

/// Corruption is terminal: once a buffer is corrupted, serialization is
/// refused, whatever operations follow, because nothing ever clears the
/// flag.
pub proof fn lemma_corruption_is_terminal(b: &HyperVec)
    requires
        b.spec_corrupt(),
    ensures
        !spec_snapshot_allowed(b),
{
}

/// Issues ticketed visitors for typed access to a buffer's bytes.
pub trait Castable {
    /// Produces a read visitor ticketed at the current read version, after
    /// checking that a value of the requested type fits in the buffer.
    fn cast<Type>(&self) -> InformationResult<ReadVisitor>;

    /// Produces a write visitor ticketed at the current write version, after
    /// checking that a value of the requested type fits in the buffer.
    fn cast_mut<Type>(&mut self) -> InformationResult<WriteVisitor>;
}

impl Castable for HyperVec {
    /// Validates that the requested type's size does not exceed the buffer's
    /// length, refusing the cast with `BAD_ALIGN` otherwise, and issues a
    /// fresh read visitor ticketed at the current read version.
    fn cast<Type>(&self) -> (r: InformationResult<ReadVisitor>)
        ensures
            vstd::layout::size_of::<Type>() <= self@.len() ==> (r matches Ok(v) && {
                &&& v.spec_ticket() == self.spec_read_version()
                &&& !v.spec_in_progress()
                &&& !v.spec_completed()
            }),
            vstd::layout::size_of::<Type>() > self@.len() ==> (r matches Err(
                MemError::BAD_ALIGN(b),
            ) && b@ == self@),
    {
        if core::mem::size_of::<Type>() <= self.length() {
            Ok(ReadVisitor::new(self.get_read_version()))
        } else {
            MemError::throw_bad_align(vstd::slice::slice_to_vec(self.bytes()))
        }
    }

    /// Validates that the requested type's size does not exceed the buffer's
    /// length, refusing the cast with `BAD_ALIGN` otherwise, and issues a
    /// fresh write visitor ticketed at the current write version.
    fn cast_mut<Type>(&mut self) -> (r: InformationResult<WriteVisitor>)
        ensures
            *final(self) == *old(self),
            vstd::layout::size_of::<Type>() <= old(self)@.len() ==> (r matches Ok(v) && {
                &&& v.spec_ticket() == old(self).spec_write_version()
                &&& !v.spec_completed()
            }),
            vstd::layout::size_of::<Type>() > old(self)@.len() ==> (r matches Err(
                MemError::BAD_ALIGN(b),
            ) && b@ == old(self)@),
    {
        if core::mem::size_of::<Type>() <= self.length() {
            Ok(WriteVisitor::new(self.get_write_version()))
        } else {
            MemError::throw_bad_align(vstd::slice::slice_to_vec(self.bytes()))
        }
    }
}

/// The big-endian bytes of a `u16`, most significant first.
pub open spec fn spec_u16_be(v: u16) -> Seq<u8> {
    seq![(v / 0x100 % 0x100) as u8, (v % 0x100) as u8]
}

/// The little-endian bytes of a `u16`, least significant first.
pub open spec fn spec_u16_le(v: u16) -> Seq<u8> {
    seq![(v % 0x100) as u8, (v / 0x100 % 0x100) as u8]
}

/// The bytes of a `u16` in the chosen order.
pub open spec fn spec_u16_bytes(v: u16, big: bool) -> Seq<u8> {
    if big {
        spec_u16_be(v)
    } else {
        spec_u16_le(v)
    }
}

/// The big-endian bytes of a `u32`, most significant first.
pub open spec fn spec_u32_be(v: u32) -> Seq<u8> {
    seq![(v / 0x1000000 % 0x100) as u8, (v / 0x10000 % 0x100) as u8, (v / 0x100 % 0x100) as u8, (v % 0x100) as u8]
}

/// The little-endian bytes of a `u32`, least significant first.
pub open spec fn spec_u32_le(v: u32) -> Seq<u8> {
    seq![(v % 0x100) as u8, (v / 0x100 % 0x100) as u8, (v / 0x10000 % 0x100) as u8, (v / 0x1000000 % 0x100) as u8]
}

/// The bytes of a `u32` in the chosen order.
pub open spec fn spec_u32_bytes(v: u32, big: bool) -> Seq<u8> {
    if big {
        spec_u32_be(v)
    } else {
        spec_u32_le(v)
    }
}

/// The big-endian bytes of a `u64`, most significant first.
pub open spec fn spec_u64_be(v: u64) -> Seq<u8> {
    seq![(v / 0x100000000000000 % 0x100) as u8, (v / 0x1000000000000 % 0x100) as u8, (v / 0x10000000000 % 0x100) as u8, (v / 0x100000000 % 0x100) as u8, (v / 0x1000000 % 0x100) as u8, (v / 0x10000 % 0x100) as u8, (v / 0x100 % 0x100) as u8, (v % 0x100) as u8]
}

/// The little-endian bytes of a `u64`, least significant first.
pub open spec fn spec_u64_le(v: u64) -> Seq<u8> {
    seq![(v % 0x100) as u8, (v / 0x100 % 0x100) as u8, (v / 0x10000 % 0x100) as u8, (v / 0x1000000 % 0x100) as u8, (v / 0x100000000 % 0x100) as u8, (v / 0x10000000000 % 0x100) as u8, (v / 0x1000000000000 % 0x100) as u8, (v / 0x100000000000000 % 0x100) as u8]
}

/// The bytes of a `u64` in the chosen order.
pub open spec fn spec_u64_bytes(v: u64, big: bool) -> Seq<u8> {
    if big {
        spec_u64_be(v)
    } else {
        spec_u64_le(v)
    }
}

/// The big-endian bytes of a `u128`, most significant first.
pub open spec fn spec_u128_be(v: u128) -> Seq<u8> {
    seq![(v / 0x1000000000000000000000000000000 % 0x100) as u8, (v / 0x10000000000000000000000000000 % 0x100) as u8, (v / 0x100000000000000000000000000 % 0x100) as u8, (v / 0x1000000000000000000000000 % 0x100) as u8, (v / 0x10000000000000000000000 % 0x100) as u8, (v / 0x100000000000000000000 % 0x100) as u8, (v / 0x1000000000000000000 % 0x100) as u8, (v / 0x10000000000000000 % 0x100) as u8, (v / 0x100000000000000 % 0x100) as u8, (v / 0x1000000000000 % 0x100) as u8, (v / 0x10000000000 % 0x100) as u8, (v / 0x100000000 % 0x100) as u8, (v / 0x1000000 % 0x100) as u8, (v / 0x10000 % 0x100) as u8, (v / 0x100 % 0x100) as u8, (v % 0x100) as u8]
}

/// The little-endian bytes of a `u128`, least significant first.
pub open spec fn spec_u128_le(v: u128) -> Seq<u8> {
    seq![(v % 0x100) as u8, (v / 0x100 % 0x100) as u8, (v / 0x10000 % 0x100) as u8, (v / 0x1000000 % 0x100) as u8, (v / 0x100000000 % 0x100) as u8, (v / 0x10000000000 % 0x100) as u8, (v / 0x1000000000000 % 0x100) as u8, (v / 0x100000000000000 % 0x100) as u8, (v / 0x10000000000000000 % 0x100) as u8, (v / 0x1000000000000000000 % 0x100) as u8, (v / 0x100000000000000000000 % 0x100) as u8, (v / 0x10000000000000000000000 % 0x100) as u8, (v / 0x1000000000000000000000000 % 0x100) as u8, (v / 0x100000000000000000000000000 % 0x100) as u8, (v / 0x10000000000000000000000000000 % 0x100) as u8, (v / 0x1000000000000000000000000000000 % 0x100) as u8]
}

/// The bytes of a `u128` in the chosen order.
pub open spec fn spec_u128_bytes(v: u128, big: bool) -> Seq<u8> {
    if big {
        spec_u128_be(v)
    } else {
        spec_u128_le(v)
    }
}

/// The concatenation of each element's bytes in the chosen order.
pub open spec fn concat_u16s(t: Seq<u16>, big: bool) -> Seq<u8>
    decreases t.len(),
{
    if t.len() == 0 {
        Seq::empty()
    } else {
        concat_u16s(t.drop_last(), big) + spec_u16_bytes(t.last(), big)
    }
}

/// The concatenation of each element's bytes in the chosen order.
pub open spec fn concat_u32s(t: Seq<u32>, big: bool) -> Seq<u8>
    decreases t.len(),
{
    if t.len() == 0 {
        Seq::empty()
    } else {
        concat_u32s(t.drop_last(), big) + spec_u32_bytes(t.last(), big)
    }
}

/// The concatenation of each element's bytes in the chosen order.
pub open spec fn concat_u64s(t: Seq<u64>, big: bool) -> Seq<u8>
    decreases t.len(),
{
    if t.len() == 0 {
        Seq::empty()
    } else {
        concat_u64s(t.drop_last(), big) + spec_u64_bytes(t.last(), big)
    }
}

/// The concatenation of each element's bytes in the chosen order.
pub open spec fn concat_u128s(t: Seq<u128>, big: bool) -> Seq<u8>
    decreases t.len(),
{
    if t.len() == 0 {
        Seq::empty()
    } else {
        concat_u128s(t.drop_last(), big) + spec_u128_bytes(t.last(), big)
    }
}

/// The bytes of each element reinterpreted as an unsigned byte.
pub open spec fn concat_i8s(t: Seq<i8>) -> Seq<u8> {
    Seq::new(t.len(), |i: int| t[i] as u8)
}

/// The concatenation of each element's bytes, reinterpreted unsigned, in
/// the chosen order.
pub open spec fn concat_i16s(t: Seq<i16>, big: bool) -> Seq<u8>
    decreases t.len(),
{
    if t.len() == 0 {
        Seq::empty()
    } else {
        concat_i16s(t.drop_last(), big) + spec_u16_bytes(t.last() as u16, big)
    }
}

/// The concatenation of each element's bytes, reinterpreted unsigned, in
/// the chosen order.
pub open spec fn concat_i32s(t: Seq<i32>, big: bool) -> Seq<u8>
    decreases t.len(),
{
    if t.len() == 0 {
        Seq::empty()
    } else {
        concat_i32s(t.drop_last(), big) + spec_u32_bytes(t.last() as u32, big)
    }
}

/// The concatenation of each element's bytes, reinterpreted unsigned, in
/// the chosen order.
pub open spec fn concat_i64s(t: Seq<i64>, big: bool) -> Seq<u8>
    decreases t.len(),
{
    if t.len() == 0 {
        Seq::empty()
    } else {
        concat_i64s(t.drop_last(), big) + spec_u64_bytes(t.last() as u64, big)
    }
}

/// The concatenation of each element's bytes, reinterpreted unsigned, in
/// the chosen order.
pub open spec fn concat_i128s(t: Seq<i128>, big: bool) -> Seq<u8>
    decreases t.len(),
{
    if t.len() == 0 {
        Seq::empty()
    } else {
        concat_i128s(t.drop_last(), big) + spec_u128_bytes(t.last() as u128, big)
    }
}

/// Appends the bytes of `v` in the chosen order.
fn push_u16_bytes(out: &mut Vec<u8>, v: u16, big: bool)
    ensures
        final(out)@ == old(out)@ + spec_u16_bytes(v, big),
{
    if big {
        out.push((v / 0x100 % 0x100) as u8);
    out.push((v % 0x100) as u8);
    } else {
        out.push((v % 0x100) as u8);
    out.push((v / 0x100 % 0x100) as u8);
    }
    proof {
        assert(out@ =~= old(out)@ + spec_u16_bytes(v, big));
    }
}

/// Appends the bytes of `v` in the chosen order.
fn push_u32_bytes(out: &mut Vec<u8>, v: u32, big: bool)
    ensures
        final(out)@ == old(out)@ + spec_u32_bytes(v, big),
{
    if big {
        out.push((v / 0x1000000 % 0x100) as u8);
    out.push((v / 0x10000 % 0x100) as u8);
    out.push((v / 0x100 % 0x100) as u8);
    out.push((v % 0x100) as u8);
    } else {
        out.push((v % 0x100) as u8);
    out.push((v / 0x100 % 0x100) as u8);
    out.push((v / 0x10000 % 0x100) as u8);
    out.push((v / 0x1000000 % 0x100) as u8);
    }
    proof {
        assert(out@ =~= old(out)@ + spec_u32_bytes(v, big));
    }
}

/// Appends the bytes of `v` in the chosen order.
fn push_u64_bytes(out: &mut Vec<u8>, v: u64, big: bool)
    ensures
        final(out)@ == old(out)@ + spec_u64_bytes(v, big),
{
    if big {
        out.push((v / 0x100000000000000 % 0x100) as u8);
    out.push((v / 0x1000000000000 % 0x100) as u8);
    out.push((v / 0x10000000000 % 0x100) as u8);
    out.push((v / 0x100000000 % 0x100) as u8);
    out.push((v / 0x1000000 % 0x100) as u8);
    out.push((v / 0x10000 % 0x100) as u8);
    out.push((v / 0x100 % 0x100) as u8);
    out.push((v % 0x100) as u8);
    } else {
        out.push((v % 0x100) as u8);
    out.push((v / 0x100 % 0x100) as u8);
    out.push((v / 0x10000 % 0x100) as u8);
    out.push((v / 0x1000000 % 0x100) as u8);
    out.push((v / 0x100000000 % 0x100) as u8);
    out.push((v / 0x10000000000 % 0x100) as u8);
    out.push((v / 0x1000000000000 % 0x100) as u8);
    out.push((v / 0x100000000000000 % 0x100) as u8);
    }
    proof {
        assert(out@ =~= old(out)@ + spec_u64_bytes(v, big));
    }
}

/// Appends the bytes of `v` in the chosen order.
fn push_u128_bytes(out: &mut Vec<u8>, v: u128, big: bool)
    ensures
        final(out)@ == old(out)@ + spec_u128_bytes(v, big),
{
    if big {
        out.push((v / 0x1000000000000000000000000000000 % 0x100) as u8);
    out.push((v / 0x10000000000000000000000000000 % 0x100) as u8);
    out.push((v / 0x100000000000000000000000000 % 0x100) as u8);
    out.push((v / 0x1000000000000000000000000 % 0x100) as u8);
    out.push((v / 0x10000000000000000000000 % 0x100) as u8);
    out.push((v / 0x100000000000000000000 % 0x100) as u8);
    out.push((v / 0x1000000000000000000 % 0x100) as u8);
    out.push((v / 0x10000000000000000 % 0x100) as u8);
    out.push((v / 0x100000000000000 % 0x100) as u8);
    out.push((v / 0x1000000000000 % 0x100) as u8);
    out.push((v / 0x10000000000 % 0x100) as u8);
    out.push((v / 0x100000000 % 0x100) as u8);
    out.push((v / 0x1000000 % 0x100) as u8);
    out.push((v / 0x10000 % 0x100) as u8);
    out.push((v / 0x100 % 0x100) as u8);
    out.push((v % 0x100) as u8);
    } else {
        out.push((v % 0x100) as u8);
    out.push((v / 0x100 % 0x100) as u8);
    out.push((v / 0x10000 % 0x100) as u8);
    out.push((v / 0x1000000 % 0x100) as u8);
    out.push((v / 0x100000000 % 0x100) as u8);
    out.push((v / 0x10000000000 % 0x100) as u8);
    out.push((v / 0x1000000000000 % 0x100) as u8);
    out.push((v / 0x100000000000000 % 0x100) as u8);
    out.push((v / 0x10000000000000000 % 0x100) as u8);
    out.push((v / 0x1000000000000000000 % 0x100) as u8);
    out.push((v / 0x100000000000000000000 % 0x100) as u8);
    out.push((v / 0x10000000000000000000000 % 0x100) as u8);
    out.push((v / 0x1000000000000000000000000 % 0x100) as u8);
    out.push((v / 0x100000000000000000000000000 % 0x100) as u8);
    out.push((v / 0x10000000000000000000000000000 % 0x100) as u8);
    out.push((v / 0x1000000000000000000000000000000 % 0x100) as u8);
    }
    proof {
        assert(out@ =~= old(out)@ + spec_u128_bytes(v, big));
    }
}

/// Converts a slice of `u16` into its concatenated bytes.
fn u16s_to_bytes(t: &[u16], big: bool) -> (r: Vec<u8>)
    ensures
        r@ == concat_u16s(t@, big),
        r@.len() == 2 * t@.len(),
{
    let mut r: Vec<u8> = Vec::new();
    let mut i: usize = 0;
    while i < t.len()
        invariant
            i <= t@.len(),
            r@ == concat_u16s(t@.take(i as int), big),
            r@.len() == 2 * i,
        decreases t@.len() - i,
    {
        push_u16_bytes(&mut r, t[i], big);
        i += 1;
        proof {
            assert(t@.take(i as int).drop_last() =~= t@.take(i - 1));
            assert(t@.take(i as int).last() == t@[i - 1]);
        }
    }
    proof {
        assert(t@.take(t@.len() as int) =~= t@);
    }
    r
}

/// Converts a slice of `u32` into its concatenated bytes.
fn u32s_to_bytes(t: &[u32], big: bool) -> (r: Vec<u8>)
    ensures
        r@ == concat_u32s(t@, big),
        r@.len() == 4 * t@.len(),
{
    let mut r: Vec<u8> = Vec::new();
    let mut i: usize = 0;
    while i < t.len()
        invariant
            i <= t@.len(),
            r@ == concat_u32s(t@.take(i as int), big),
            r@.len() == 4 * i,
        decreases t@.len() - i,
    {
        push_u32_bytes(&mut r, t[i], big);
        i += 1;
        proof {
            assert(t@.take(i as int).drop_last() =~= t@.take(i - 1));
            assert(t@.take(i as int).last() == t@[i - 1]);
        }
    }
    proof {
        assert(t@.take(t@.len() as int) =~= t@);
    }
    r
}

/// Converts a slice of `u64` into its concatenated bytes.
fn u64s_to_bytes(t: &[u64], big: bool) -> (r: Vec<u8>)
    ensures
        r@ == concat_u64s(t@, big),
        r@.len() == 8 * t@.len(),
{
    let mut r: Vec<u8> = Vec::new();
    let mut i: usize = 0;
    while i < t.len()
        invariant
            i <= t@.len(),
            r@ == concat_u64s(t@.take(i as int), big),
            r@.len() == 8 * i,
        decreases t@.len() - i,
    {
        push_u64_bytes(&mut r, t[i], big);
        i += 1;
        proof {
            assert(t@.take(i as int).drop_last() =~= t@.take(i - 1));
            assert(t@.take(i as int).last() == t@[i - 1]);
        }
    }
    proof {
        assert(t@.take(t@.len() as int) =~= t@);
    }
    r
}

/// Converts a slice of `u128` into its concatenated bytes.
fn u128s_to_bytes(t: &[u128], big: bool) -> (r: Vec<u8>)
    ensures
        r@ == concat_u128s(t@, big),
        r@.len() == 16 * t@.len(),
{
    let mut r: Vec<u8> = Vec::new();
    let mut i: usize = 0;
    while i < t.len()
        invariant
            i <= t@.len(),
            r@ == concat_u128s(t@.take(i as int), big),
            r@.len() == 16 * i,
        decreases t@.len() - i,
    {
        push_u128_bytes(&mut r, t[i], big);
        i += 1;
        proof {
            assert(t@.take(i as int).drop_last() =~= t@.take(i - 1));
            assert(t@.take(i as int).last() == t@[i - 1]);
        }
    }
    proof {
        assert(t@.take(t@.len() as int) =~= t@);
    }
    r
}

/// Converts a slice of `i8` into bytes, one each.
fn i8s_to_bytes(t: &[i8]) -> (r: Vec<u8>)
    ensures
        r@ == concat_i8s(t@),
        r@.len() == t@.len(),
{
    let mut r: Vec<u8> = Vec::new();
    let mut i: usize = 0;
    while i < t.len()
        invariant
            i <= t@.len(),
            r@ == concat_i8s(t@.take(i as int)),
            r@.len() == i,
        decreases t@.len() - i,
    {
        let v = t[i];
        r.push(#[verifier::truncate] (v as u8));
        i += 1;
        proof {
            assert(r@ =~= concat_i8s(t@.take(i as int)));
        }
    }
    proof {
        assert(t@.take(t@.len() as int) =~= t@);
    }
    r
}

/// Converts a slice of `i16` into its concatenated bytes, elements
/// reinterpreted unsigned.
fn i16s_to_bytes(t: &[i16], big: bool) -> (r: Vec<u8>)
    ensures
        r@ == concat_i16s(t@, big),
        r@.len() == 2 * t@.len(),
{
    let mut r: Vec<u8> = Vec::new();
    let mut i: usize = 0;
    while i < t.len()
        invariant
            i <= t@.len(),
            r@ == concat_i16s(t@.take(i as int), big),
            r@.len() == 2 * i,
        decreases t@.len() - i,
    {
        let v = t[i];
        push_u16_bytes(&mut r, #[verifier::truncate] (v as u16), big);
        i += 1;
        proof {
            assert(t@.take(i as int).drop_last() =~= t@.take(i - 1));
            assert(t@.take(i as int).last() == t@[i - 1]);
        }
    }
    proof {
        assert(t@.take(t@.len() as int) =~= t@);
    }
    r
}

/// Converts a slice of `i32` into its concatenated bytes, elements
/// reinterpreted unsigned.
fn i32s_to_bytes(t: &[i32], big: bool) -> (r: Vec<u8>)
    ensures
        r@ == concat_i32s(t@, big),
        r@.len() == 4 * t@.len(),
{
    let mut r: Vec<u8> = Vec::new();
    let mut i: usize = 0;
    while i < t.len()
        invariant
            i <= t@.len(),
            r@ == concat_i32s(t@.take(i as int), big),
            r@.len() == 4 * i,
        decreases t@.len() - i,
    {
        let v = t[i];
        push_u32_bytes(&mut r, #[verifier::truncate] (v as u32), big);
        i += 1;
        proof {
            assert(t@.take(i as int).drop_last() =~= t@.take(i - 1));
            assert(t@.take(i as int).last() == t@[i - 1]);
        }
    }
    proof {
        assert(t@.take(t@.len() as int) =~= t@);
    }
    r
}

/// Converts a slice of `i64` into its concatenated bytes, elements
/// reinterpreted unsigned.
fn i64s_to_bytes(t: &[i64], big: bool) -> (r: Vec<u8>)
    ensures
        r@ == concat_i64s(t@, big),
        r@.len() == 8 * t@.len(),
{
    let mut r: Vec<u8> = Vec::new();
    let mut i: usize = 0;
    while i < t.len()
        invariant
            i <= t@.len(),
            r@ == concat_i64s(t@.take(i as int), big),
            r@.len() == 8 * i,
        decreases t@.len() - i,
    {
        let v = t[i];
        push_u64_bytes(&mut r, #[verifier::truncate] (v as u64), big);
        i += 1;
        proof {
            assert(t@.take(i as int).drop_last() =~= t@.take(i - 1));
            assert(t@.take(i as int).last() == t@[i - 1]);
        }
    }
    proof {
        assert(t@.take(t@.len() as int) =~= t@);
    }
    r
}

/// Converts a slice of `i128` into its concatenated bytes, elements
/// reinterpreted unsigned.
fn i128s_to_bytes(t: &[i128], big: bool) -> (r: Vec<u8>)
    ensures
        r@ == concat_i128s(t@, big),
        r@.len() == 16 * t@.len(),
{
    let mut r: Vec<u8> = Vec::new();
    let mut i: usize = 0;
    while i < t.len()
        invariant
            i <= t@.len(),
            r@ == concat_i128s(t@.take(i as int), big),
            r@.len() == 16 * i,
        decreases t@.len() - i,
    {
        let v = t[i];
        push_u128_bytes(&mut r, #[verifier::truncate] (v as u128), big);
        i += 1;
        proof {
            assert(t@.take(i as int).drop_last() =~= t@.take(i - 1));
            assert(t@.take(i as int).last() == t@[i - 1]);
        }
    }
    proof {
        assert(t@.take(t@.len() as int) =~= t@);
    }
    r
}

/// Byte-order aware wrapping of integer arrays into fresh buffers.
pub trait ByteWrapper {
    /// Returns a buffer wrapping a copy of the given bytes.
    fn wrap_bytes(t: &[u8]) -> HyperVec;

    /// Returns a big-endian ordered buffer of `u16`s decomposed into bytes.
    fn wrap_u16s_be(t: &[u16]) -> HyperVec;

    /// Returns a little-endian ordered buffer of `u16`s decomposed into bytes.
    fn wrap_u16s_le(t: &[u16]) -> HyperVec;

    /// Returns a big-endian ordered buffer of `u32`s decomposed into bytes.
    fn wrap_u32s_be(t: &[u32]) -> HyperVec;

    /// Returns a little-endian ordered buffer of `u32`s decomposed into bytes.
    fn wrap_u32s_le(t: &[u32]) -> HyperVec;

    /// Returns a big-endian ordered buffer of `u64`s decomposed into bytes.
    fn wrap_u64s_be(t: &[u64]) -> HyperVec;

    /// Returns a little-endian ordered buffer of `u64`s decomposed into bytes.
    fn wrap_u64s_le(t: &[u64]) -> HyperVec;

    /// Returns a big-endian ordered buffer of `u128`s decomposed into bytes.
    fn wrap_u128s_be(t: &[u128]) -> HyperVec;

    /// Returns a little-endian ordered buffer of `u128`s decomposed into bytes.
    fn wrap_u128s_le(t: &[u128]) -> HyperVec;

    /// Returns a big-endian ordered buffer of `i16`s decomposed into bytes.
    fn wrap_i16s_be(t: &[i16]) -> HyperVec;

    /// Returns a little-endian ordered buffer of `i16`s decomposed into bytes.
    fn wrap_i16s_le(t: &[i16]) -> HyperVec;

    /// Returns a big-endian ordered buffer of `i32`s decomposed into bytes.
    fn wrap_i32s_be(t: &[i32]) -> HyperVec;

    /// Returns a little-endian ordered buffer of `i32`s decomposed into bytes.
    fn wrap_i32s_le(t: &[i32]) -> HyperVec;

    /// Returns a big-endian ordered buffer of `i64`s decomposed into bytes.
    fn wrap_i64s_be(t: &[i64]) -> HyperVec;

    /// Returns a little-endian ordered buffer of `i64`s decomposed into bytes.
    fn wrap_i64s_le(t: &[i64]) -> HyperVec;

    /// Returns a big-endian ordered buffer of `i128`s decomposed into bytes.
    fn wrap_i128s_be(t: &[i128]) -> HyperVec;

    /// Returns a little-endian ordered buffer of `i128`s decomposed into bytes.
    fn wrap_i128s_le(t: &[i128]) -> HyperVec;
}

impl ByteWrapper for HyperVec {
    /// Wraps a copy of the given bytes in a fresh buffer: same bytes, cursor
    /// at zero, both counters at zero, not corrupted.
    fn wrap_bytes(t: &[u8]) -> (r: HyperVec)
        ensures
            r@ == t@,
            r.spec_cursor() == 0,
            r.spec_read_version() == 0,
            r.spec_write_version() == 0,
            !r.spec_corrupt(),
    {
        HyperVec::from_vec(vstd::slice::slice_to_vec(t))
    }

    /// Wraps an array of `u16`s: each element's big-endian bytes,
    /// concatenated, become a fresh buffer.
    fn wrap_u16s_be(t: &[u16]) -> (r: HyperVec)
        ensures
            r@ == concat_u16s(t@, true),
            r.spec_cursor() == 0,
            r.spec_read_version() == 0,
            r.spec_write_version() == 0,
            !r.spec_corrupt(),
    {
        HyperVec::from_vec(u16s_to_bytes(t, true))
    }

    /// Wraps an array of `u16`s: each element's little-endian bytes,
    /// concatenated, become a fresh buffer.
    fn wrap_u16s_le(t: &[u16]) -> (r: HyperVec)
        ensures
            r@ == concat_u16s(t@, false),
            r.spec_cursor() == 0,
            r.spec_read_version() == 0,
            r.spec_write_version() == 0,
            !r.spec_corrupt(),
    {
        HyperVec::from_vec(u16s_to_bytes(t, false))
    }

    /// Wraps an array of `u32`s: each element's big-endian bytes,
    /// concatenated, become a fresh buffer.
    fn wrap_u32s_be(t: &[u32]) -> (r: HyperVec)
        ensures
            r@ == concat_u32s(t@, true),
            r.spec_cursor() == 0,
            r.spec_read_version() == 0,
            r.spec_write_version() == 0,
            !r.spec_corrupt(),
    {
        HyperVec::from_vec(u32s_to_bytes(t, true))
    }

    /// Wraps an array of `u32`s: each element's little-endian bytes,
    /// concatenated, become a fresh buffer.
    fn wrap_u32s_le(t: &[u32]) -> (r: HyperVec)
        ensures
            r@ == concat_u32s(t@, false),
            r.spec_cursor() == 0,
            r.spec_read_version() == 0,
            r.spec_write_version() == 0,
            !r.spec_corrupt(),
    {
        HyperVec::from_vec(u32s_to_bytes(t, false))
    }

    /// Wraps an array of `u64`s: each element's big-endian bytes,
    /// concatenated, become a fresh buffer.
    fn wrap_u64s_be(t: &[u64]) -> (r: HyperVec)
        ensures
            r@ == concat_u64s(t@, true),
            r.spec_cursor() == 0,
            r.spec_read_version() == 0,
            r.spec_write_version() == 0,
            !r.spec_corrupt(),
    {
        HyperVec::from_vec(u64s_to_bytes(t, true))
    }

    /// Wraps an array of `u64`s: each element's little-endian bytes,
    /// concatenated, become a fresh buffer.
    fn wrap_u64s_le(t: &[u64]) -> (r: HyperVec)
        ensures
            r@ == concat_u64s(t@, false),
            r.spec_cursor() == 0,
            r.spec_read_version() == 0,
            r.spec_write_version() == 0,
            !r.spec_corrupt(),
    {
        HyperVec::from_vec(u64s_to_bytes(t, false))
    }

    /// Wraps an array of `u128`s: each element's big-endian bytes,
    /// concatenated, become a fresh buffer.
    fn wrap_u128s_be(t: &[u128]) -> (r: HyperVec)
        ensures
            r@ == concat_u128s(t@, true),
            r.spec_cursor() == 0,
            r.spec_read_version() == 0,
            r.spec_write_version() == 0,
            !r.spec_corrupt(),
    {
        HyperVec::from_vec(u128s_to_bytes(t, true))
    }

    /// Wraps an array of `u128`s: each element's little-endian bytes,
    /// concatenated, become a fresh buffer.
    fn wrap_u128s_le(t: &[u128]) -> (r: HyperVec)
        ensures
            r@ == concat_u128s(t@, false),
            r.spec_cursor() == 0,
            r.spec_read_version() == 0,
            r.spec_write_version() == 0,
            !r.spec_corrupt(),
    {
        HyperVec::from_vec(u128s_to_bytes(t, false))
    }

    /// Wraps an array of `i16`s: each element's big-endian bytes,
    /// concatenated, become a fresh buffer.
    fn wrap_i16s_be(t: &[i16]) -> (r: HyperVec)
        ensures
            r@ == concat_i16s(t@, true),
            r.spec_cursor() == 0,
            r.spec_read_version() == 0,
            r.spec_write_version() == 0,
            !r.spec_corrupt(),
    {
        HyperVec::from_vec(i16s_to_bytes(t, true))
    }

    /// Wraps an array of `i16`s: each element's little-endian bytes,
    /// concatenated, become a fresh buffer.
    fn wrap_i16s_le(t: &[i16]) -> (r: HyperVec)
        ensures
            r@ == concat_i16s(t@, false),
            r.spec_cursor() == 0,
            r.spec_read_version() == 0,
            r.spec_write_version() == 0,
            !r.spec_corrupt(),
    {
        HyperVec::from_vec(i16s_to_bytes(t, false))
    }

    /// Wraps an array of `i32`s: each element's big-endian bytes,
    /// concatenated, become a fresh buffer.
    fn wrap_i32s_be(t: &[i32]) -> (r: HyperVec)
        ensures
            r@ == concat_i32s(t@, true),
            r.spec_cursor() == 0,
            r.spec_read_version() == 0,
            r.spec_write_version() == 0,
            !r.spec_corrupt(),
    {
        HyperVec::from_vec(i32s_to_bytes(t, true))
    }

    /// Wraps an array of `i32`s: each element's little-endian bytes,
    /// concatenated, become a fresh buffer.
    fn wrap_i32s_le(t: &[i32]) -> (r: HyperVec)
        ensures
            r@ == concat_i32s(t@, false),
            r.spec_cursor() == 0,
            r.spec_read_version() == 0,
            r.spec_write_version() == 0,
            !r.spec_corrupt(),
    {
        HyperVec::from_vec(i32s_to_bytes(t, false))
    }

    /// Wraps an array of `i64`s: each element's big-endian bytes,
    /// concatenated, become a fresh buffer.
    fn wrap_i64s_be(t: &[i64]) -> (r: HyperVec)
        ensures
            r@ == concat_i64s(t@, true),
            r.spec_cursor() == 0,
            r.spec_read_version() == 0,
            r.spec_write_version() == 0,
            !r.spec_corrupt(),
    {
        HyperVec::from_vec(i64s_to_bytes(t, true))
    }

    /// Wraps an array of `i64`s: each element's little-endian bytes,
    /// concatenated, become a fresh buffer.
    fn wrap_i64s_le(t: &[i64]) -> (r: HyperVec)
        ensures
            r@ == concat_i64s(t@, false),
            r.spec_cursor() == 0,
            r.spec_read_version() == 0,
            r.spec_write_version() == 0,
            !r.spec_corrupt(),
    {
        HyperVec::from_vec(i64s_to_bytes(t, false))
    }

    /// Wraps an array of `i128`s: each element's big-endian bytes,
    /// concatenated, become a fresh buffer.
    fn wrap_i128s_be(t: &[i128]) -> (r: HyperVec)
        ensures
            r@ == concat_i128s(t@, true),
            r.spec_cursor() == 0,
            r.spec_read_version() == 0,
            r.spec_write_version() == 0,
            !r.spec_corrupt(),
    {
        HyperVec::from_vec(i128s_to_bytes(t, true))
    }

    /// Wraps an array of `i128`s: each element's little-endian bytes,
    /// concatenated, become a fresh buffer.
    fn wrap_i128s_le(t: &[i128]) -> (r: HyperVec)
        ensures
            r@ == concat_i128s(t@, false),
            r.spec_cursor() == 0,
            r.spec_read_version() == 0,
            r.spec_write_version() == 0,
            !r.spec_corrupt(),
    {
        HyperVec::from_vec(i128s_to_bytes(t, false))
    }

}

/// The typed append layer: each method grows the buffer by exactly the
/// incoming elements' total byte size and writes their byte-order-converted
/// bytes at the cursor. Unlike the raw put operations, these resize first.
/// The three spec members let the contracts speak of the implementing
/// buffer's bytes, cursor and byte order.
pub trait BytePusher {
    /// The bytes of the underlying buffer.
    spec fn pusher_view(&self) -> Seq<u8>;

    /// The cursor of the underlying buffer.
    spec fn pusher_cursor(&self) -> isize;

    /// Whether the underlying buffer converts integers big-endian.
    spec fn pusher_big(&self) -> bool;

    /// Extends the buffer by `t.len()` bytes and writes them at the cursor.
    fn push_u8s(&mut self, t: &[u8])
        requires
            0 <= old(self).pusher_cursor() <= old(self).pusher_view().len(),
            old(self).pusher_view().len() + t@.len() <= usize::MAX,
            old(self).pusher_cursor() + t@.len() <= isize::MAX,
        ensures
            final(self).pusher_view() == splice(
                old(self).pusher_view() + zeros(t@.len()),
                old(self).pusher_cursor() as int,
                t@,
            ),
            final(self).pusher_view().len() == old(self).pusher_view().len() + t@.len(),
            final(self).pusher_cursor() == old(self).pusher_cursor() + t@.len(),
    ;

    /// Extends the buffer by `t.len()` bytes, reinterprets each `i8` as a
    /// byte, and writes them at the cursor.
    fn push_i8s(&mut self, t: &[i8])
        requires
            0 <= old(self).pusher_cursor() <= old(self).pusher_view().len(),
            old(self).pusher_view().len() + t@.len() <= usize::MAX,
            old(self).pusher_cursor() + t@.len() <= isize::MAX,
        ensures
            final(self).pusher_view() == splice(
                old(self).pusher_view() + zeros(t@.len()),
                old(self).pusher_cursor() as int,
                concat_i8s(t@),
            ),
            final(self).pusher_view().len() == old(self).pusher_view().len() + t@.len(),
            final(self).pusher_cursor() == old(self).pusher_cursor() + t@.len(),
    ;

    /// Extends the buffer by `t.len() * 2` bytes, converts each `u16` to
    /// the buffer's byte order, and writes the bytes at the cursor.
    fn push_u16s(&mut self, t: &[u16])
        requires
            0 <= old(self).pusher_cursor() <= old(self).pusher_view().len(),
            old(self).pusher_view().len() + 2 * t@.len() <= usize::MAX,
            old(self).pusher_cursor() + 2 * t@.len() <= isize::MAX,
        ensures
            final(self).pusher_view() == splice(
                old(self).pusher_view() + zeros((2 * t@.len()) as nat),
                old(self).pusher_cursor() as int,
                concat_u16s(t@, old(self).pusher_big()),
            ),
            final(self).pusher_view().len() == old(self).pusher_view().len() + 2 * t@.len(),
            final(self).pusher_cursor() == old(self).pusher_cursor() + 2 * t@.len(),
    ;

    /// Extends the buffer by `t.len() * 4` bytes, converts each `u32` to
    /// the buffer's byte order, and writes the bytes at the cursor.
    fn push_u32s(&mut self, t: &[u32])
        requires
            0 <= old(self).pusher_cursor() <= old(self).pusher_view().len(),
            old(self).pusher_view().len() + 4 * t@.len() <= usize::MAX,
            old(self).pusher_cursor() + 4 * t@.len() <= isize::MAX,
        ensures
            final(self).pusher_view() == splice(
                old(self).pusher_view() + zeros((4 * t@.len()) as nat),
                old(self).pusher_cursor() as int,
                concat_u32s(t@, old(self).pusher_big()),
            ),
            final(self).pusher_view().len() == old(self).pusher_view().len() + 4 * t@.len(),
            final(self).pusher_cursor() == old(self).pusher_cursor() + 4 * t@.len(),
    ;

    /// Extends the buffer by `t.len() * 8` bytes, converts each `u64` to
    /// the buffer's byte order, and writes the bytes at the cursor.
    fn push_u64s(&mut self, t: &[u64])
        requires
            0 <= old(self).pusher_cursor() <= old(self).pusher_view().len(),
            old(self).pusher_view().len() + 8 * t@.len() <= usize::MAX,
            old(self).pusher_cursor() + 8 * t@.len() <= isize::MAX,
        ensures
            final(self).pusher_view() == splice(
                old(self).pusher_view() + zeros((8 * t@.len()) as nat),
                old(self).pusher_cursor() as int,
                concat_u64s(t@, old(self).pusher_big()),
            ),
            final(self).pusher_view().len() == old(self).pusher_view().len() + 8 * t@.len(),
            final(self).pusher_cursor() == old(self).pusher_cursor() + 8 * t@.len(),
    ;

    /// Extends the buffer by `t.len() * 16` bytes, converts each `u128` to
    /// the buffer's byte order, and writes the bytes at the cursor.
    fn push_u128s(&mut self, t: &[u128])
        requires
            0 <= old(self).pusher_cursor() <= old(self).pusher_view().len(),
            old(self).pusher_view().len() + 16 * t@.len() <= usize::MAX,
            old(self).pusher_cursor() + 16 * t@.len() <= isize::MAX,
        ensures
            final(self).pusher_view() == splice(
                old(self).pusher_view() + zeros((16 * t@.len()) as nat),
                old(self).pusher_cursor() as int,
                concat_u128s(t@, old(self).pusher_big()),
            ),
            final(self).pusher_view().len() == old(self).pusher_view().len() + 16 * t@.len(),
            final(self).pusher_cursor() == old(self).pusher_cursor() + 16 * t@.len(),
    ;

    /// Extends the buffer by `t.len() * 2` bytes, converts each `i16` to
    /// the buffer's byte order, and writes the bytes at the cursor.
    fn push_i16s(&mut self, t: &[i16])
        requires
            0 <= old(self).pusher_cursor() <= old(self).pusher_view().len(),
            old(self).pusher_view().len() + 2 * t@.len() <= usize::MAX,
            old(self).pusher_cursor() + 2 * t@.len() <= isize::MAX,
        ensures
            final(self).pusher_view() == splice(
                old(self).pusher_view() + zeros((2 * t@.len()) as nat),
                old(self).pusher_cursor() as int,
                concat_i16s(t@, old(self).pusher_big()),
            ),
            final(self).pusher_view().len() == old(self).pusher_view().len() + 2 * t@.len(),
            final(self).pusher_cursor() == old(self).pusher_cursor() + 2 * t@.len(),
    ;

    /// Extends the buffer by `t.len() * 4` bytes, converts each `i32` to
    /// the buffer's byte order, and writes the bytes at the cursor.
    fn push_i32s(&mut self, t: &[i32])
        requires
            0 <= old(self).pusher_cursor() <= old(self).pusher_view().len(),
            old(self).pusher_view().len() + 4 * t@.len() <= usize::MAX,
            old(self).pusher_cursor() + 4 * t@.len() <= isize::MAX,
        ensures
            final(self).pusher_view() == splice(
                old(self).pusher_view() + zeros((4 * t@.len()) as nat),
                old(self).pusher_cursor() as int,
                concat_i32s(t@, old(self).pusher_big()),
            ),
            final(self).pusher_view().len() == old(self).pusher_view().len() + 4 * t@.len(),
            final(self).pusher_cursor() == old(self).pusher_cursor() + 4 * t@.len(),
    ;

    /// Extends the buffer by `t.len() * 8` bytes, converts each `i64` to
    /// the buffer's byte order, and writes the bytes at the cursor.
    fn push_i64s(&mut self, t: &[i64])
        requires
            0 <= old(self).pusher_cursor() <= old(self).pusher_view().len(),
            old(self).pusher_view().len() + 8 * t@.len() <= usize::MAX,
            old(self).pusher_cursor() + 8 * t@.len() <= isize::MAX,
        ensures
            final(self).pusher_view() == splice(
                old(self).pusher_view() + zeros((8 * t@.len()) as nat),
                old(self).pusher_cursor() as int,
                concat_i64s(t@, old(self).pusher_big()),
            ),
            final(self).pusher_view().len() == old(self).pusher_view().len() + 8 * t@.len(),
            final(self).pusher_cursor() == old(self).pusher_cursor() + 8 * t@.len(),
    ;

    /// Extends the buffer by `t.len() * 16` bytes, converts each `i128` to
    /// the buffer's byte order, and writes the bytes at the cursor.
    fn push_i128s(&mut self, t: &[i128])
        requires
            0 <= old(self).pusher_cursor() <= old(self).pusher_view().len(),
            old(self).pusher_view().len() + 16 * t@.len() <= usize::MAX,
            old(self).pusher_cursor() + 16 * t@.len() <= isize::MAX,
        ensures
            final(self).pusher_view() == splice(
                old(self).pusher_view() + zeros((16 * t@.len()) as nat),
                old(self).pusher_cursor() as int,
                concat_i128s(t@, old(self).pusher_big()),
            ),
            final(self).pusher_view().len() == old(self).pusher_view().len() + 16 * t@.len(),
            final(self).pusher_cursor() == old(self).pusher_cursor() + 16 * t@.len(),
    ;

}

impl BytePusher for HyperVec {
    open spec fn pusher_view(&self) -> Seq<u8> {
        self@
    }

    open spec fn pusher_cursor(&self) -> isize {
        self.spec_cursor()
    }

    open spec fn pusher_big(&self) -> bool {
        self.spec_endianness() is BE
    }

    fn push_u8s(&mut self, t: &[u8])
        ensures
            HyperVec::same_versions(old(self), final(self)),
            final(self).spec_corrupt() == old(self).spec_corrupt(),
            final(self).spec_endianness() == old(self).spec_endianness(),
    {
        self.extend(t.len());
        self.put_slice(t);
    }

    fn push_i8s(&mut self, t: &[i8])
        ensures
            HyperVec::same_versions(old(self), final(self)),
            final(self).spec_corrupt() == old(self).spec_corrupt(),
            final(self).spec_endianness() == old(self).spec_endianness(),
    {
        let bytes = i8s_to_bytes(t);
        self.extend(t.len());
        self.put_slice(bytes.as_slice());
    }

    fn push_u16s(&mut self, t: &[u16])
        ensures
            HyperVec::same_versions(old(self), final(self)),
            final(self).spec_corrupt() == old(self).spec_corrupt(),
            final(self).spec_endianness() == old(self).spec_endianness(),
    {
        let e = *self.get_endianness();
        let big = e.is_be();
        let bytes = u16s_to_bytes(t, big);
        self.extend(t.len() * 2);
        self.put_slice(bytes.as_slice());
    }

    fn push_u32s(&mut self, t: &[u32])
        ensures
            HyperVec::same_versions(old(self), final(self)),
            final(self).spec_corrupt() == old(self).spec_corrupt(),
            final(self).spec_endianness() == old(self).spec_endianness(),
    {
        let e = *self.get_endianness();
        let big = e.is_be();
        let bytes = u32s_to_bytes(t, big);
        self.extend(t.len() * 4);
        self.put_slice(bytes.as_slice());
    }

    fn push_u64s(&mut self, t: &[u64])
        ensures
            HyperVec::same_versions(old(self), final(self)),
            final(self).spec_corrupt() == old(self).spec_corrupt(),
            final(self).spec_endianness() == old(self).spec_endianness(),
    {
        let e = *self.get_endianness();
        let big = e.is_be();
        let bytes = u64s_to_bytes(t, big);
        self.extend(t.len() * 8);
        self.put_slice(bytes.as_slice());
    }

    fn push_u128s(&mut self, t: &[u128])
        ensures
            HyperVec::same_versions(old(self), final(self)),
            final(self).spec_corrupt() == old(self).spec_corrupt(),
            final(self).spec_endianness() == old(self).spec_endianness(),
    {
        let e = *self.get_endianness();
        let big = e.is_be();
        let bytes = u128s_to_bytes(t, big);
        self.extend(t.len() * 16);
        self.put_slice(bytes.as_slice());
    }

    fn push_i16s(&mut self, t: &[i16])
        ensures
            HyperVec::same_versions(old(self), final(self)),
            final(self).spec_corrupt() == old(self).spec_corrupt(),
            final(self).spec_endianness() == old(self).spec_endianness(),
    {
        let e = *self.get_endianness();
        let big = e.is_be();
        let bytes = i16s_to_bytes(t, big);
        self.extend(t.len() * 2);
        self.put_slice(bytes.as_slice());
    }

    fn push_i32s(&mut self, t: &[i32])
        ensures
            HyperVec::same_versions(old(self), final(self)),
            final(self).spec_corrupt() == old(self).spec_corrupt(),
            final(self).spec_endianness() == old(self).spec_endianness(),
    {
        let e = *self.get_endianness();
        let big = e.is_be();
        let bytes = i32s_to_bytes(t, big);
        self.extend(t.len() * 4);
        self.put_slice(bytes.as_slice());
    }

    fn push_i64s(&mut self, t: &[i64])
        ensures
            HyperVec::same_versions(old(self), final(self)),
            final(self).spec_corrupt() == old(self).spec_corrupt(),
            final(self).spec_endianness() == old(self).spec_endianness(),
    {
        let e = *self.get_endianness();
        let big = e.is_be();
        let bytes = i64s_to_bytes(t, big);
        self.extend(t.len() * 8);
        self.put_slice(bytes.as_slice());
    }

    fn push_i128s(&mut self, t: &[i128])
        ensures
            HyperVec::same_versions(old(self), final(self)),
            final(self).spec_corrupt() == old(self).spec_corrupt(),
            final(self).spec_endianness() == old(self).spec_endianness(),
    {
        let e = *self.get_endianness();
        let big = e.is_be();
        let bytes = i128s_to_bytes(t, big);
        self.extend(t.len() * 16);
        self.put_slice(bytes.as_slice());
    }
}

} // verus!
