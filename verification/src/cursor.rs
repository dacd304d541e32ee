//! Bounds-checked cursors over a byte buffer.
//!
//! A `Writer` appends to a buffer that may not grow past a fixed limit; a
//! `Reader` walks a buffer that somebody else filled. Neither ever touches a
//! byte outside its buffer: an operation that would do so fails and leaves the
//! cursor where it was.

use crate::error::JunctionError;
use crate::layout::{le16, le32, u16_at, u32_at, units_at, wide, lemma_wide_push};
use vstd::prelude::*;

verus! {

/// An append-only byte buffer with a fixed limit on its length.
pub struct Writer {
    bytes: Vec<u8>,
    limit: usize,
}

impl View for Writer {
    type V = Seq<u8>;

    /// The bytes written so far.
    closed spec fn view(&self) -> Seq<u8> {
        self.bytes@
    }
}

impl Writer {
    /// Well-formedness: the buffer holds no more than its limit.
    pub closed spec fn wf(&self) -> bool {
        self.bytes@.len() <= self.limit
    }

    /// The length that the buffer may not pass.
    pub closed spec fn limit(&self) -> int {
        self.limit as int
    }

    /// The room that is left.
    pub open spec fn room(&self) -> int {
        self.limit() - self@.len()
    }

    /// An empty buffer that will hold at most `limit` bytes.
    pub fn new(limit: usize) -> (writer: Writer)
        ensures
            writer.wf(),
            writer@ == Seq::<u8>::empty(),
            writer.limit() == limit,
    {
        Writer { bytes: Vec::with_capacity(limit), limit }
    }

    /// Number of bytes written so far: never more than the limit.
    pub fn position(&self) -> (n: usize)
        requires
            self.wf(),
        ensures
            n == self@.len(),
            n <= self.limit(),
    {
        self.bytes.len()
    }

    /// Appends a 16-bit integer, low byte first. Where two more bytes would
    /// pass the limit, nothing is written.
    pub fn put_u16(&mut self, x: u16) -> (r: Result<(), JunctionError>)
        requires
            old(self).wf(),
        ensures
            final(self).wf(),
            final(self).limit() == old(self).limit(),
            old(self).room() >= 2 ==> r == Ok::<(), JunctionError>(()) && final(self)@ == old(self)@
                + le16(x),
            old(self).room() < 2 ==> r == Err::<(), JunctionError>(JunctionError::InputTooLong)
                && final(self)@ == old(self)@,
    {
        if self.limit - self.bytes.len() < 2 {
            return Err(JunctionError::InputTooLong);
        }
        self.bytes.push((x % 256) as u8);
        self.bytes.push((x / 256) as u8);
        assert(self.bytes@ =~= old(self).bytes@ + le16(x));
        Ok(())
    }

    /// Appends a 32-bit integer, low byte first. Where four more bytes would
    /// pass the limit, nothing is written.
    pub fn put_u32(&mut self, x: u32) -> (r: Result<(), JunctionError>)
        requires
            old(self).wf(),
        ensures
            final(self).wf(),
            final(self).limit() == old(self).limit(),
            old(self).room() >= 4 ==> r == Ok::<(), JunctionError>(()) && final(self)@ == old(self)@
                + le32(x),
            old(self).room() < 4 ==> r == Err::<(), JunctionError>(JunctionError::InputTooLong)
                && final(self)@ == old(self)@,
    {
        if self.limit - self.bytes.len() < 4 {
            return Err(JunctionError::InputTooLong);
        }
        self.bytes.push((x % 256) as u8);
        self.bytes.push((x / 0x100 % 256) as u8);
        self.bytes.push((x / 0x1_0000 % 256) as u8);
        self.bytes.push((x / 0x100_0000) as u8);
        assert(self.bytes@ =~= old(self).bytes@ + le32(x));
        Ok(())
    }

    /// Appends a run of UTF-16 code units, each low byte first. Where the
    /// whole run would pass the limit, nothing is written.
    pub fn put_units(&mut self, units: &[u16]) -> (r: Result<(), JunctionError>)
        requires
            old(self).wf(),
        ensures
            final(self).wf(),
            final(self).limit() == old(self).limit(),
            old(self).room() >= 2 * units@.len() ==> r == Ok::<(), JunctionError>(())
                && final(self)@ == old(self)@ + wide(units@),
            old(self).room() < 2 * units@.len() ==> r == Err::<(), JunctionError>(
                JunctionError::InputTooLong,
            ) && final(self)@ == old(self)@,
    {
        if (self.limit - self.bytes.len()) / 2 < units.len() {
            return Err(JunctionError::InputTooLong);
        }
        let mut i: usize = 0;
        assert(self.bytes@ =~= old(self).bytes@ + wide(units@.take(0)));
        while i < units.len()
            invariant
                i <= units@.len(),
                self.limit == old(self).limit,
                old(self).bytes@.len() + 2 * units@.len() <= self.limit,
                self.bytes@ == old(self).bytes@ + wide(units@.take(i as int)),
            decreases units@.len() - i,
        {
            let unit: u16 = units[i];
            self.bytes.push((unit % 256) as u8);
            self.bytes.push((unit / 256) as u8);
            proof {
                assert(units@.take(i + 1) =~= units@.take(i as int).push(unit));
                lemma_wide_push(units@.take(i as int), unit);
                assert(self.bytes@ =~= old(self).bytes@ + wide(units@.take(i + 1)));
            }
            i += 1;
        }
        assert(units@.take(i as int) =~= units@);
        Ok(())
    }

    /// Gives up the buffer: exactly the bytes written, and none of the room
    /// that was left.
    pub fn into_bytes(self) -> (bytes: Vec<u8>)
        ensures
            bytes@ == self@,
    {
        self.bytes
    }
}

/// A cursor that reads a byte buffer front to back.
pub struct Reader<'a> {
    data: &'a [u8],
    pos: usize,
}

impl<'a> Reader<'a> {
    /// Well-formedness: the cursor stands inside its buffer, or at its end.
    pub closed spec fn wf(&self) -> bool {
        self.pos <= self.data@.len()
    }

    /// The whole buffer that is being read.
    pub closed spec fn data(&self) -> Seq<u8> {
        self.data@
    }

    /// Offset of the next byte to read.
    pub closed spec fn position(&self) -> int {
        self.pos as int
    }

    /// Number of bytes not read yet.
    pub open spec fn remaining(&self) -> int {
        self.data().len() - self.position()
    }

    /// The same buffer with the cursor `n` bytes further on.
    pub open spec fn moved(&self, other: &Reader<'a>, n: int) -> bool {
        other.data() == self.data() && other.position() == self.position() + n
    }

    /// A cursor at the first byte of `data`.
    pub fn new(data: &'a [u8]) -> (reader: Reader<'a>)
        ensures
            reader.wf(),
            reader.data() == data@,
            reader.position() == 0,
    {
        Reader { data, pos: 0 }
    }

    /// Number of bytes not read yet: the cursor never stands past the end.
    pub fn bytes_left(&self) -> (n: usize)
        requires
            self.wf(),
        ensures
            n == self.remaining(),
            0 <= self.position() <= self.data().len(),
    {
        self.data.len() - self.pos
    }

    /// Steps over `n` bytes. Where fewer are left, the cursor stays.
    pub fn advance(&mut self, n: usize) -> (r: Result<(), JunctionError>)
        requires
            old(self).wf(),
        ensures
            final(self).wf(),
            n <= old(self).remaining() ==> r == Ok::<(), JunctionError>(()) && old(self).moved(
                final(self),
                n as int,
            ),
            n > old(self).remaining() ==> r == Err::<(), JunctionError>(JunctionError::Malformed)
                && old(self).moved(final(self), 0),
    {
        if self.data.len() - self.pos < n {
            return Err(JunctionError::Malformed);
        }
        self.pos += n;
        Ok(())
    }

    /// Reads a 16-bit integer, low byte first. Where fewer than two bytes are
    /// left, the cursor stays.
    pub fn read_u16(&mut self) -> (r: Result<u16, JunctionError>)
        requires
            old(self).wf(),
        ensures
            final(self).wf(),
            old(self).remaining() >= 2 ==> r == Ok::<u16, JunctionError>(
                u16_at(old(self).data(), old(self).position()),
            ) && old(self).moved(final(self), 2),
            old(self).remaining() < 2 ==> r == Err::<u16, JunctionError>(JunctionError::Malformed)
                && old(self).moved(final(self), 0),
    {
        if self.data.len() - self.pos < 2 {
            return Err(JunctionError::Malformed);
        }
        let lo: u16 = self.data[self.pos] as u16;
        let hi: u16 = self.data[self.pos + 1] as u16;
        self.pos += 2;
        Ok(lo + 0x100 * hi)
    }

    /// Reads a 32-bit integer, low byte first. Where fewer than four bytes
    /// are left, the cursor stays.
    pub fn read_u32(&mut self) -> (r: Result<u32, JunctionError>)
        requires
            old(self).wf(),
        ensures
            final(self).wf(),
            old(self).remaining() >= 4 ==> r == Ok::<u32, JunctionError>(
                u32_at(old(self).data(), old(self).position()),
            ) && old(self).moved(final(self), 4),
            old(self).remaining() < 4 ==> r == Err::<u32, JunctionError>(JunctionError::Malformed)
                && old(self).moved(final(self), 0),
    {
        if self.data.len() - self.pos < 4 {
            return Err(JunctionError::Malformed);
        }
        let b0: u32 = self.data[self.pos] as u32;
        let b1: u32 = self.data[self.pos + 1] as u32;
        let b2: u32 = self.data[self.pos + 2] as u32;
        let b3: u32 = self.data[self.pos + 3] as u32;
        self.pos += 4;
        Ok(b0 + 0x100 * b1 + 0x1_0000 * b2 + 0x100_0000 * b3)
    }

    /// Reads `count` UTF-16 code units, each low byte first. Where fewer
    /// than `2 * count` bytes are left, the cursor stays.
    pub fn read_units(&mut self, count: usize) -> (r: Result<Vec<u16>, JunctionError>)
        requires
            old(self).wf(),
        ensures
            final(self).wf(),
            2 * count <= old(self).remaining() ==> r is Ok && r->Ok_0@ == units_at(
                old(self).data(),
                old(self).position(),
                count as int,
            ) && old(self).moved(final(self), 2 * count),
            2 * count > old(self).remaining() ==> r == Err::<Vec<u16>, JunctionError>(
                JunctionError::Malformed,
            ) && old(self).moved(final(self), 0),
    {
        if (self.data.len() - self.pos) / 2 < count {
            return Err(JunctionError::Malformed);
        }
        let start: usize = self.pos;
        let mut units: Vec<u16> = Vec::with_capacity(count);
        let mut k: usize = 0;
        while k < count
            invariant
                k <= count,
                self.data == old(self).data,
                start == old(self).pos,
                self.pos == start + 2 * k,
                start + 2 * count <= self.data@.len(),
                units@ == units_at(self.data@, start as int, k as int),
            decreases count - k,
        {
            let lo: u16 = self.data[self.pos] as u16;
            let hi: u16 = self.data[self.pos + 1] as u16;
            units.push(lo + 0x100 * hi);
            self.pos += 2;
            k += 1;
            assert(units@ =~= units_at(self.data@, start as int, k as int));
        }
        Ok(units)
    }
}

} // verus!
