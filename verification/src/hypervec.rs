//! The buffer core: an owned, growable byte allocation with a cursor, a
//! byte-order tag, a corruption flag and two monotonic version counters, plus
//! the ticketed read/write visitors that serialize conflicting access.

use vstd::prelude::*;

use crate::results::{InformationResult, MemError};

verus! {

/// The byte order a buffer converts multi-byte integers with.
#[derive(Clone, Copy, Debug, PartialEq, Eq, Structural)]
pub enum Endianness {
    /// Little endian: least significant byte first.
    LE,
    /// Big endian (network order): most significant byte first.
    BE,
}

/// Relies on `u16::to_ne_bytes`: the first byte of `1u16`'s native encoding
/// is zero exactly on big-endian targets.
#[verifier::external_body]
fn native_is_big_endian() -> bool {
    1u16.to_ne_bytes()[0] == 0
}

impl Endianness {
    /// Determines the system endianness. The result depends on the machine,
    /// so nothing more can be promised of it.
    pub fn target() -> Endianness {
        if native_is_big_endian() {
            Endianness::BE
        } else {
            Endianness::LE
        }
    }

    /// Returns true if self is big endian.
    pub fn is_be(&self) -> (r: bool)
        ensures
            r == (*self is BE),
    {
        match self {
            Endianness::BE => true,
            _ => false,
        }
    }

    /// Returns true if self is little endian.
    pub fn is_le(&self) -> (r: bool)
        ensures
            r == (*self is LE),
    {
        !self.is_be()
    }

    /// Converts a boolean (true meaning big endian) into an endianness.
    pub fn from_bool(val: bool) -> (r: Endianness)
        ensures
            r == (if val {
                Endianness::BE
            } else {
                Endianness::LE
            }),
    {
        if val {
            Endianness::BE
        } else {
            Endianness::LE
        }
    }
}

/// A sequence of `n` zero bytes, the content growth appends.
pub open spec fn zeros(n: nat) -> Seq<u8> {
    Seq::new(n, |i: int| 0u8)
}

/// `s` with `patch` written over its bytes starting at `at`; the length is
/// unchanged.
pub open spec fn splice(s: Seq<u8>, at: int, patch: Seq<u8>) -> Seq<u8>
    recommends
        0 <= at,
        at + patch.len() <= s.len(),
{
    s.subrange(0, at) + patch + s.subrange(at + patch.len(), s.len() as int)
}

/// The buffer core. It owns a contiguous byte allocation and carries a
/// cursor for sequential access, two version counters that gate visitors,
/// a write-once corruption flag and a byte-order tag.
pub struct HyperVec {
    data: Vec<u8>,
    cursor: isize,
    read_version: usize,
    write_version: usize,
    corrupt: bool,
    endianness: Endianness,
}

impl View for HyperVec {
    type V = Seq<u8>;

    /// The buffer's bytes.
    closed spec fn view(&self) -> Seq<u8> {
        self.data@
    }
}

impl HyperVec {
    /// The cursor's position.
    pub closed spec fn spec_cursor(&self) -> isize {
        self.cursor
    }

    /// The read version counter.
    pub closed spec fn spec_read_version(&self) -> usize {
        self.read_version
    }

    /// The write version counter.
    pub closed spec fn spec_write_version(&self) -> usize {
        self.write_version
    }

    /// Whether the buffer has been marked corrupted.
    pub closed spec fn spec_corrupt(&self) -> bool {
        self.corrupt
    }

    /// The buffer's byte-order tag.
    pub closed spec fn spec_endianness(&self) -> Endianness {
        self.endianness
    }

    /// Both version counters of `a` and `b` agree.
    pub open spec fn same_versions(a: &HyperVec, b: &HyperVec) -> bool {
        &&& a.spec_read_version() == b.spec_read_version()
        &&& a.spec_write_version() == b.spec_write_version()
    }

    /// Returns a buffer of `len` zero bytes with the cursor at zero, both
    /// version counters at zero and the corruption flag clear. The byte
    /// order is the machine's.
    pub fn new(len: usize) -> (r: HyperVec)
        ensures
            r@ == zeros(len as nat),
            r.spec_cursor() == 0,
            r.spec_read_version() == 0,
            r.spec_write_version() == 0,
            !r.spec_corrupt(),
    {
        let mut data: Vec<u8> = Vec::new();
        let mut i: usize = 0;
        while i < len
            invariant
                i <= len,
                data@ == zeros(i as nat),
            decreases len - i,
        {
            data.push(0u8);
            i += 1;
            proof {
                assert(data@ =~= zeros(i as nat));
            }
        }
        proof {
            assert(data@ =~= zeros(len as nat));
        }
        HyperVec {
            data,
            cursor: 0,
            read_version: 0,
            write_version: 0,
            corrupt: false,
            endianness: Endianness::target(),
        }
    }

    /// Returns a zero-filled buffer of `len` bytes; same contract as `new`.
    pub fn new_zeroed(len: usize) -> (r: HyperVec)
        ensures
            r@ == zeros(len as nat),
            r.spec_cursor() == 0,
            r.spec_read_version() == 0,
            r.spec_write_version() == 0,
            !r.spec_corrupt(),
    {
        HyperVec::new(len)
    }

    /// Builds a buffer around an owned byte vector, with fresh metadata.
    pub(crate) fn from_vec(data: Vec<u8>) -> (r: HyperVec)
        ensures
            r@ == data@,
            r.spec_cursor() == 0,
            r.spec_read_version() == 0,
            r.spec_write_version() == 0,
            !r.spec_corrupt(),
    {
        HyperVec {
            data,
            cursor: 0,
            read_version: 0,
            write_version: 0,
            corrupt: false,
            endianness: Endianness::target(),
        }
    }

    /// Returns the number of bytes.
    pub fn length(&self) -> (r: usize)
        ensures
            r == self@.len(),
    {
        self.data.len()
    }

    /// Returns an immutable slice of the underlying bytes.
    pub fn bytes(&self) -> (r: &[u8])
        ensures
            r@ == self@,
    {
        self.data.as_slice()
    }

    /// Returns a mutable slice of the underlying bytes. Writes through the
    /// slice land in the buffer; nothing else of the buffer changes.
    pub fn get_full_bytes_mut(&mut self) -> (r: &mut [u8])
        ensures
            r@ == old(self)@,
            final(self)@ == final(r)@,
            final(self).spec_cursor() == old(self).spec_cursor(),
            HyperVec::same_versions(old(self), final(self)),
            final(self).spec_corrupt() == old(self).spec_corrupt(),
            final(self).spec_endianness() == old(self).spec_endianness(),
    {
        self.data.as_mut_slice()
    }

    /// Returns the number of bytes between the cursor and the end.
    pub fn remaining_mut(&self) -> (r: usize)
        requires
            0 <= self.spec_cursor() <= self@.len(),
        ensures
            r == self@.len() - self.spec_cursor(),
    {
        self.data.len() - (self.cursor as usize)
    }

    /// Returns the bytes between the cursor position and the end.
    pub fn get_bytes_cursor(&self) -> (r: &[u8])
        requires
            0 <= self.spec_cursor() <= self@.len(),
        ensures
            r@ == self@.subrange(self.spec_cursor() as int, self@.len() as int),
    {
        vstd::slice::slice_subrange(self.data.as_slice(), self.cursor as usize, self.data.len())
    }

    /// Reads the cursor position.
    pub fn cursor_position(&self) -> (r: isize)
        ensures
            r == self.spec_cursor(),
    {
        self.cursor
    }

    /// Reads the byte at the current cursor.
    pub fn read_cursor(&self) -> (r: u8)
        requires
            0 <= self.spec_cursor() < self@.len(),
        ensures
            r == self@[self.spec_cursor() as int],
    {
        self.data[self.cursor as usize]
    }

    /// Reads the byte at the supplied offset from the start of the buffer.
    pub fn read_relative(&self, pos: isize) -> (r: u8)
        requires
            0 <= pos < self@.len(),
        ensures
            r == self@[pos as int],
    {
        self.data[pos as usize]
    }

    /// Reads the byte at the supplied offset from the cursor position.
    pub fn read_cursor_offset(&self, pos: isize) -> (r: u8)
        requires
            0 <= self.spec_cursor() + pos < self@.len(),
            self.spec_cursor() + pos <= isize::MAX,
        ensures
            r == self@[self.spec_cursor() + pos],
    {
        self.data[(self.cursor + pos) as usize]
    }

    /// Advances the cursor by `amt` bytes.
    pub fn advance_cursor_by(&mut self, amt: usize)
        requires
            amt <= isize::MAX,
            old(self).spec_cursor() + amt <= isize::MAX,
        ensures
            final(self).spec_cursor() == old(self).spec_cursor() + amt,
            final(self)@ == old(self)@,
            HyperVec::same_versions(old(self), final(self)),
            final(self).spec_corrupt() == old(self).spec_corrupt(),
            final(self).spec_endianness() == old(self).spec_endianness(),
    {
        self.cursor = self.cursor + (amt as isize);
    }

    /// Advances the cursor by one byte.
    pub fn advance_cursor(&mut self)
        requires
            old(self).spec_cursor() + 1 <= isize::MAX,
        ensures
            final(self).spec_cursor() == old(self).spec_cursor() + 1,
            final(self)@ == old(self)@,
            HyperVec::same_versions(old(self), final(self)),
            final(self).spec_corrupt() == old(self).spec_corrupt(),
            final(self).spec_endianness() == old(self).spec_endianness(),
    {
        self.advance_cursor_by(1)
    }

    /// Reads the byte under the cursor and advances the cursor past it.
    pub fn get_and_advance_cursor(&mut self) -> (r: u8)
        requires
            0 <= old(self).spec_cursor() < old(self)@.len(),
            old(self).spec_cursor() + 1 <= isize::MAX,
        ensures
            r == old(self)@[old(self).spec_cursor() as int],
            final(self).spec_cursor() == old(self).spec_cursor() + 1,
            final(self)@ == old(self)@,
            HyperVec::same_versions(old(self), final(self)),
            final(self).spec_corrupt() == old(self).spec_corrupt(),
            final(self).spec_endianness() == old(self).spec_endianness(),
    {
        self.advance_cursor();
        self.read_cursor_offset(-1)
    }

    /// Sets the cursor's position relative to the start of the buffer. No
    /// bounds are enforced; out-of-range positions simply make the reading
    /// operations inapplicable until the cursor is moved back.
    pub fn set_cursor_pos(&mut self, pos: isize)
        ensures
            final(self).spec_cursor() == pos,
            final(self)@ == old(self)@,
            HyperVec::same_versions(old(self), final(self)),
            final(self).spec_corrupt() == old(self).spec_corrupt(),
            final(self).spec_endianness() == old(self).spec_endianness(),
    {
        self.cursor = pos;
    }

    /// Resets the cursor to the start of the buffer.
    pub fn reset_cursor(&mut self)
        ensures
            final(self).spec_cursor() == 0,
            final(self)@ == old(self)@,
            HyperVec::same_versions(old(self), final(self)),
            final(self).spec_corrupt() == old(self).spec_corrupt(),
            final(self).spec_endianness() == old(self).spec_endianness(),
    {
        self.cursor = 0;
    }

    /// Returns the write version.
    pub fn get_write_version(&self) -> (r: usize)
        ensures
            r == self.spec_write_version(),
    {
        self.write_version
    }

    /// Returns the read version.
    pub fn get_read_version(&self) -> (r: usize)
        ensures
            r == self.spec_read_version(),
    {
        self.read_version
    }

    /// Advances the read version by one, returning the value it had before.
    pub fn get_and_increment_read_version(&mut self) -> (r: usize)
        requires
            old(self).spec_read_version() < usize::MAX,
        ensures
            r == old(self).spec_read_version(),
            final(self).spec_read_version() == old(self).spec_read_version() + 1,
            final(self).spec_write_version() == old(self).spec_write_version(),
            final(self)@ == old(self)@,
            final(self).spec_cursor() == old(self).spec_cursor(),
            final(self).spec_corrupt() == old(self).spec_corrupt(),
            final(self).spec_endianness() == old(self).spec_endianness(),
    {
        let r = self.read_version;
        self.read_version = self.read_version + 1;
        r
    }

    /// Advances the write version by one, returning the value it had before.
    pub fn get_and_increment_write_version(&mut self) -> (r: usize)
        requires
            old(self).spec_write_version() < usize::MAX,
        ensures
            r == old(self).spec_write_version(),
            final(self).spec_write_version() == old(self).spec_write_version() + 1,
            final(self).spec_read_version() == old(self).spec_read_version(),
            final(self)@ == old(self)@,
            final(self).spec_cursor() == old(self).spec_cursor(),
            final(self).spec_corrupt() == old(self).spec_corrupt(),
            final(self).spec_endianness() == old(self).spec_endianness(),
    {
        let r = self.write_version;
        self.write_version = self.write_version + 1;
        r
    }

    /// Overwrites the write version. Only sound to call while no visitor is
    /// outstanding, since it re-gates admission.
    pub fn set_write_version(&mut self, update: usize)
        ensures
            final(self).spec_write_version() == update,
            final(self).spec_read_version() == old(self).spec_read_version(),
            final(self)@ == old(self)@,
            final(self).spec_cursor() == old(self).spec_cursor(),
            final(self).spec_corrupt() == old(self).spec_corrupt(),
            final(self).spec_endianness() == old(self).spec_endianness(),
    {
        self.write_version = update;
    }

    /// Overwrites the read version. Only sound to call while no visitor is
    /// outstanding, since it re-gates admission.
    pub fn set_read_version(&mut self, update: usize)
        ensures
            final(self).spec_read_version() == update,
            final(self).spec_write_version() == old(self).spec_write_version(),
            final(self)@ == old(self)@,
            final(self).spec_cursor() == old(self).spec_cursor(),
            final(self).spec_corrupt() == old(self).spec_corrupt(),
            final(self).spec_endianness() == old(self).spec_endianness(),
    {
        self.read_version = update;
    }

    /// Returns the buffer's endianness.
    pub fn get_endianness(&self) -> (r: &Endianness)
        ensures
            *r == self.spec_endianness(),
    {
        &self.endianness
    }

    /// Changes the byte-order tag. Downstream consumers that depend on the
    /// byte state must be aware of the switch.
    pub fn set_endianness(&mut self, endianness: Endianness)
        ensures
            final(self).spec_endianness() == endianness,
            final(self)@ == old(self)@,
            final(self).spec_cursor() == old(self).spec_cursor(),
            HyperVec::same_versions(old(self), final(self)),
            final(self).spec_corrupt() == old(self).spec_corrupt(),
    {
        self.endianness = endianness;
    }

    /// Whether a write visitor has reported more bytes than its budget,
    /// marking the buffer corrupted.
    pub fn is_corrupted(&self) -> (r: bool)
        ensures
            r == self.spec_corrupt(),
    {
        self.corrupt
    }

    /// Marks the buffer corrupted. The flag is write-once: nothing resets it.
    pub(crate) fn mark_corrupt(&mut self)
        ensures
            final(self).spec_corrupt(),
            final(self)@ == old(self)@,
            final(self).spec_cursor() == old(self).spec_cursor(),
            HyperVec::same_versions(old(self), final(self)),
            final(self).spec_endianness() == old(self).spec_endianness(),
    {
        self.corrupt = true;
    }

    /// The single growth primitive: extends the allocation by
    /// `additional_bytes` zero bytes. The length grows by exactly that much
    /// and every byte below the old length is unchanged; calling it with 0
    /// is a no-op.
    pub fn extend(&mut self, additional_bytes: usize)
        requires
            old(self)@.len() + additional_bytes <= usize::MAX,
        ensures
            final(self)@ == old(self)@ + zeros(additional_bytes as nat),
            final(self)@.len() == old(self)@.len() + additional_bytes,
            final(self)@.subrange(0, old(self)@.len() as int) == old(self)@,
            final(self).spec_cursor() == old(self).spec_cursor(),
            HyperVec::same_versions(old(self), final(self)),
            final(self).spec_corrupt() == old(self).spec_corrupt(),
            final(self).spec_endianness() == old(self).spec_endianness(),
    {
        let mut i: usize = 0;
        while i < additional_bytes
            invariant
                i <= additional_bytes,
                old(self)@.len() + additional_bytes <= usize::MAX,
                self.data@ == old(self)@ + zeros(i as nat),
                self.cursor == old(self).spec_cursor(),
                self.read_version == old(self).spec_read_version(),
                self.write_version == old(self).spec_write_version(),
                self.corrupt == old(self).spec_corrupt(),
                self.endianness == old(self).spec_endianness(),
            decreases additional_bytes - i,
        {
            self.data.push(0u8);
            i += 1;
            proof {
                assert(self.data@ =~= old(self)@ + zeros(i as nat));
            }
        }
        proof {
            assert(final(self)@.subrange(0, old(self)@.len() as int) =~= old(self)@);
        }
    }

    /// Writes `slice` over the bytes at the cursor and advances the cursor
    /// past them. The buffer must already have room: this never grows it.
    pub fn put_slice(&mut self, slice: &[u8])
        requires
            0 <= old(self).spec_cursor(),
            old(self).spec_cursor() + slice@.len() <= old(self)@.len(),
            old(self).spec_cursor() + slice@.len() <= isize::MAX,
        ensures
            final(self)@ == splice(old(self)@, old(self).spec_cursor() as int, slice@),
            final(self)@.len() == old(self)@.len(),
            final(self).spec_cursor() == old(self).spec_cursor() + slice@.len(),
            HyperVec::same_versions(old(self), final(self)),
            final(self).spec_corrupt() == old(self).spec_corrupt(),
            final(self).spec_endianness() == old(self).spec_endianness(),
    {
        let c = self.cursor as usize;
        let mut j: usize = 0;
        while j < slice.len()
            invariant
                c == old(self).spec_cursor(),
                0 <= j <= slice@.len(),
                c + slice@.len() <= old(self)@.len(),
                c + slice@.len() <= isize::MAX,
                self.data@.len() == old(self)@.len(),
                forall|k: int|
                    0 <= k < self.data@.len() ==> self.data@[k] == (if c <= k < c + j {
                        slice@[k - c]
                    } else {
                        old(self)@[k]
                    }),
                self.cursor == old(self).spec_cursor(),
                self.read_version == old(self).spec_read_version(),
                self.write_version == old(self).spec_write_version(),
                self.corrupt == old(self).spec_corrupt(),
                self.endianness == old(self).spec_endianness(),
            decreases slice@.len() - j,
        {
            let b = slice[j];
            self.data[c + j] = b;
            j += 1;
        }
        proof {
            assert(self.data@ =~= splice(old(self)@, old(self).spec_cursor() as int, slice@));
        }
        self.cursor = self.cursor + (slice.len() as isize);
    }

    /// Writes a single byte at the cursor and advances the cursor past it.
    pub fn put_u8(&mut self, val: u8)
        requires
            0 <= old(self).spec_cursor() < old(self)@.len(),
            old(self).spec_cursor() < isize::MAX,
        ensures
            final(self)@ == old(self)@.update(old(self).spec_cursor() as int, val),
            final(self).spec_cursor() == old(self).spec_cursor() + 1,
            HyperVec::same_versions(old(self), final(self)),
            final(self).spec_corrupt() == old(self).spec_corrupt(),
            final(self).spec_endianness() == old(self).spec_endianness(),
    {
        let c = self.cursor as usize;
        self.data[c] = val;
        self.cursor = self.cursor + 1;
        proof {
            assert(self.data@ =~= old(self)@.update(old(self).spec_cursor() as int, val));
        }
    }
}

/// The number of bytes inside an `Option<usize>`, taking `None` as zero.
pub open spec fn opt_amount(a: Option<usize>) -> int {
    match a {
        Some(n) => n as int,
        None => 0,
    }
}

/// A single-use, ticketed capability that grants exclusive write access to a
/// buffer once the buffer's write version matches the visitor's ticket.
///
/// The visitor is admitted exactly when `write_version == ticket`; while
/// admitted, the holder performs its writes through the buffer, then consumes
/// the visitor with `try_visit` (which applies any pre-declared growth,
/// checks the reported byte count against its budget and advances the write
/// version) or abandons it with `dispose` (which advances the write version
/// without applying growth).
pub struct WriteVisitor {
    ticket_number: usize,
    completed: bool,
}

impl WriteVisitor {
    /// The write version this visitor was issued at.
    pub closed spec fn spec_ticket(&self) -> usize {
        self.ticket_number
    }

    /// Whether the visitor has been consumed.
    pub closed spec fn spec_completed(&self) -> bool {
        self.completed
    }

    /// The visitor is admitted: its ticket matches the live write version.
    pub open spec fn spec_is_ready(&self, hvec: &HyperVec) -> bool {
        self.spec_ticket() == hvec.spec_write_version()
    }

    /// Creates a write visitor holding the given ticket.
    pub fn new(ticket_number: usize) -> (r: WriteVisitor)
        ensures
            r.spec_ticket() == ticket_number,
            !r.spec_completed(),
    {
        WriteVisitor { ticket_number, completed: false }
    }

    /// Whether the visitor's ticket matches the buffer's live write version.
    pub fn is_ready(&self, hvec: &HyperVec) -> (r: bool)
        ensures
            r == self.spec_is_ready(hvec),
    {
        self.ticket_number == hvec.get_write_version()
    }

    /// Completes the visit. If the ticket is not yet admitted this returns
    /// `NOT_READY` and changes nothing, so the caller may retry. Once
    /// admitted: the buffer grows by the pre-declared `pre_alloc` bytes, the
    /// write version advances by one, and if `bytes_written` reports more
    /// than the buffer's size before the call plus `pre_alloc`, the buffer
    /// is marked corrupted and the call fails with `CORRUPT` carrying the
    /// buffer's raw bytes.
    pub fn try_visit(
        &mut self,
        hvec: &mut HyperVec,
        pre_alloc: Option<usize>,
        bytes_written: Option<usize>,
    ) -> (r: InformationResult<()>)
        requires
            !old(self).spec_completed(),
            old(hvec).spec_write_version() < usize::MAX,
            old(hvec)@.len() + opt_amount(pre_alloc) <= usize::MAX,
        ensures
            final(self).spec_ticket() == old(self).spec_ticket(),
            !old(self).spec_is_ready(old(hvec)) ==> {
                &&& r matches Err(MemError::NOT_READY)
                &&& *final(hvec) == *old(hvec)
                &&& !final(self).spec_completed()
            },
            old(self).spec_is_ready(old(hvec)) ==> {
                &&& final(self).spec_completed()
                &&& final(hvec)@ == old(hvec)@ + zeros(opt_amount(pre_alloc) as nat)
                &&& final(hvec).spec_write_version() == old(hvec).spec_write_version() + 1
                &&& final(hvec).spec_read_version() == old(hvec).spec_read_version()
                &&& final(hvec).spec_cursor() == old(hvec).spec_cursor()
                &&& final(hvec).spec_endianness() == old(hvec).spec_endianness()
                &&& if opt_amount(bytes_written) > old(hvec)@.len() + opt_amount(pre_alloc) {
                    &&& final(hvec).spec_corrupt()
                    &&& (r matches Err(MemError::CORRUPT(b)) && b@ == final(hvec)@)
                } else {
                    &&& final(hvec).spec_corrupt() == old(hvec).spec_corrupt()
                    &&& r matches Ok(())
                }
            },
    {
        if !self.is_ready(hvec) {
            return Err(MemError::NOT_READY);
        }
        let initial_size = hvec.length();
        let pre_alloc_amt = match pre_alloc {
            Some(a) => a,
            None => 0,
        };
        hvec.extend(pre_alloc_amt);
        self.completed = true;
        let result = match bytes_written {
            Some(bytes_added) => {
                if bytes_added > initial_size + pre_alloc_amt {
                    hvec.mark_corrupt();
                    let bytes = vstd::slice::slice_to_vec(hvec.bytes());
                    Err(MemError::CORRUPT(bytes))
                } else {
                    Ok(())
                }
            },
            None => Ok(()),
        };
        let _ = hvec.get_and_increment_write_version();
        result
    }

    /// Abandons the visitor without visiting. The write version still
    /// advances by exactly one, so a cancelled waiter does not starve the
    /// queue, but no growth is applied and the bytes are untouched.
    pub fn dispose(&mut self, hvec: &mut HyperVec)
        requires
            !old(self).spec_completed(),
            old(hvec).spec_write_version() < usize::MAX,
        ensures
            final(self).spec_completed(),
            final(self).spec_ticket() == old(self).spec_ticket(),
            final(hvec).spec_write_version() == old(hvec).spec_write_version() + 1,
            final(hvec).spec_read_version() == old(hvec).spec_read_version(),
            final(hvec)@ == old(hvec)@,
            final(hvec).spec_cursor() == old(hvec).spec_cursor(),
            final(hvec).spec_corrupt() == old(hvec).spec_corrupt(),
            final(hvec).spec_endianness() == old(hvec).spec_endianness(),
    {
        self.completed = true;
        let _ = hvec.get_and_increment_write_version();
    }
}

/// A single-use, ticketed capability that grants read access to a buffer
/// once the buffer's read version matches the visitor's ticket.
///
/// The holder opens its window with `try_visit` (admission check plus a
/// snapshot of the live write version), performs its reads, then closes the
/// window with `finish_visit`, which re-checks the write version: if a write
/// completed inside the window the read is declared `OUT_OF_SYNC` rather
/// than trusted. Either outcome advances the read version.
pub struct ReadVisitor {
    ticket_number: usize,
    start_write_version: usize,
    in_progress: bool,
    completed: bool,
}

impl ReadVisitor {
    /// The read version this visitor was issued at.
    pub closed spec fn spec_ticket(&self) -> usize {
        self.ticket_number
    }

    /// The write version observed when the read window opened.
    pub closed spec fn spec_start_write_version(&self) -> usize {
        self.start_write_version
    }

    /// Whether the read window is open.
    pub closed spec fn spec_in_progress(&self) -> bool {
        self.in_progress
    }

    /// Whether the visitor has been consumed.
    pub closed spec fn spec_completed(&self) -> bool {
        self.completed
    }

    /// The visitor is admitted: its ticket matches the live read version.
    pub open spec fn spec_is_ready(&self, hvec: &HyperVec) -> bool {
        self.spec_ticket() == hvec.spec_read_version()
    }

    /// Creates a read visitor holding the given ticket.
    pub fn new(ticket_number: usize) -> (r: ReadVisitor)
        ensures
            r.spec_ticket() == ticket_number,
            !r.spec_in_progress(),
            !r.spec_completed(),
    {
        ReadVisitor { ticket_number, start_write_version: 0, in_progress: false, completed: false }
    }

    /// Whether the visitor's ticket matches the buffer's live read version.
    pub fn is_ready(&self, hvec: &HyperVec) -> (r: bool)
        ensures
            r == self.spec_is_ready(hvec),
    {
        self.ticket_number == hvec.get_read_version()
    }

    /// Opens the read window. If the ticket is not yet admitted this returns
    /// `NOT_READY` and changes nothing, so the caller may retry. Once
    /// admitted, the live write version is recorded so that `finish_visit`
    /// can detect a write completing inside the window.
    pub fn try_visit(&mut self, hvec: &HyperVec) -> (r: InformationResult<()>)
        requires
            !old(self).spec_completed(),
            !old(self).spec_in_progress(),
        ensures
            final(self).spec_ticket() == old(self).spec_ticket(),
            !old(self).spec_is_ready(hvec) ==> {
                &&& r matches Err(MemError::NOT_READY)
                &&& *final(self) == *old(self)
            },
            old(self).spec_is_ready(hvec) ==> {
                &&& r matches Ok(())
                &&& final(self).spec_in_progress()
                &&& !final(self).spec_completed()
                &&& final(self).spec_start_write_version() == hvec.spec_write_version()
            },
    {
        if !self.is_ready(hvec) {
            return Err(MemError::NOT_READY);
        }
        self.start_write_version = hvec.get_write_version();
        self.in_progress = true;
        Ok(())
    }

    /// Closes the read window and consumes the visitor. The read version
    /// advances by exactly one whatever the outcome. If the buffer's write
    /// version no longer matches the one recorded when the window opened, a
    /// write completed during the read and the result is `OUT_OF_SYNC`;
    /// otherwise the read was consistent.
    pub fn finish_visit(&mut self, hvec: &mut HyperVec) -> (r: InformationResult<()>)
        requires
            old(self).spec_in_progress(),
            !old(self).spec_completed(),
            old(hvec).spec_read_version() < usize::MAX,
        ensures
            final(self).spec_ticket() == old(self).spec_ticket(),
            final(self).spec_completed(),
            !final(self).spec_in_progress(),
            final(hvec).spec_read_version() == old(hvec).spec_read_version() + 1,
            final(hvec).spec_write_version() == old(hvec).spec_write_version(),
            final(hvec)@ == old(hvec)@,
            final(hvec).spec_cursor() == old(hvec).spec_cursor(),
            final(hvec).spec_corrupt() == old(hvec).spec_corrupt(),
            final(hvec).spec_endianness() == old(hvec).spec_endianness(),
            old(hvec).spec_write_version() == old(self).spec_start_write_version() ==> r matches
                Ok(()),
            old(hvec).spec_write_version() != old(self).spec_start_write_version() ==> r matches
                Err(MemError::OUT_OF_SYNC),
    {
        self.in_progress = false;
        self.completed = true;
        let consistent = hvec.get_write_version() == self.start_write_version;
        let _ = hvec.get_and_increment_read_version();
        if consistent {
            Ok(())
        } else {
            Err(MemError::OUT_OF_SYNC)
        }
    }

    /// Abandons the visitor without visiting. The read version still
    /// advances by exactly one, so a cancelled waiter does not starve the
    /// queue.
    pub fn dispose(&mut self, hvec: &mut HyperVec)
        requires
            !old(self).spec_completed(),
            old(hvec).spec_read_version() < usize::MAX,
        ensures
            final(self).spec_completed(),
            final(self).spec_ticket() == old(self).spec_ticket(),
            final(hvec).spec_read_version() == old(hvec).spec_read_version() + 1,
            final(hvec).spec_write_version() == old(hvec).spec_write_version(),
            final(hvec)@ == old(hvec)@,
            final(hvec).spec_cursor() == old(hvec).spec_cursor(),
            final(hvec).spec_corrupt() == old(hvec).spec_corrupt(),
            final(hvec).spec_endianness() == old(hvec).spec_endianness(),
    {
        self.completed = true;
        let _ = hvec.get_and_increment_read_version();
    }
}

/// Admission is ordered: of two write visitors holding consecutive tickets
/// on the same buffer, the later one is not ready while the earlier ticket
/// is the live write version, and it becomes ready exactly in a state whose
/// write version is one greater — the state `try_visit` or `dispose` of the
/// earlier visitor leaves behind.
pub proof fn lemma_write_admission_ordering(
    b: HyperVec,
    b_after: HyperVec,
    first: WriteVisitor,
    second: WriteVisitor,
)
    requires
        first.spec_ticket() == b.spec_write_version(),
        second.spec_ticket() == first.spec_ticket() + 1,
        b_after.spec_write_version() == b.spec_write_version() + 1,
    ensures
        first.spec_is_ready(&b),
        !second.spec_is_ready(&b),
        second.spec_is_ready(&b_after),
{
}

/// A torn read is detected: if a read window opened while the write version
/// was `v`, and some write visitor admitted at `v` completed before the
/// window closed (leaving the write version at `v + 1`), then the version
/// the window closes against differs from the one it recorded, which is
/// exactly the condition under which `finish_visit` returns `OUT_OF_SYNC`.
pub proof fn lemma_torn_read_detected(
    reader: ReadVisitor,
    writer: WriteVisitor,
    b_open: HyperVec,
    b_close: HyperVec,
)
    requires
        reader.spec_in_progress(),
        reader.spec_start_write_version() == b_open.spec_write_version(),
        writer.spec_is_ready(&b_open),
        b_close.spec_write_version() == b_open.spec_write_version() + 1,
    ensures
        b_close.spec_write_version() != reader.spec_start_write_version(),
{
}

} // verus!
