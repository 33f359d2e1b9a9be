//! The machine's address space: a fixed-size byte buffer with
//! bounds-checked access and an address-range error that carries the
//! offending address together with the buffer length.

use vstd::prelude::*;

verus! {

/// Number of bytes in one video-RAM snapshot, the sub-range `0x2400..0x4000`
/// of the address space that the display consumes as a 1-bit-per-pixel bitmap.
pub const FB_SIZE: usize = 0x4000 - 0x2400;

/// A memory access failure.
#[derive(Debug, PartialEq, Eq, Structural)]
pub enum Error {
    /// An address outside the buffer was used; carries the address and the
    /// buffer length.
    OutOfRangeAccess(usize, usize),
    /// A shared lock over the buffer could not be acquired because its prior
    /// holder failed. Raised only by lock-holding hosts, never by `Memory`
    /// itself.
    LockErr,
}

/// The full address space of the emulated machine: one contiguous byte
/// buffer whose length is fixed at creation. Every access is bounds-checked.
#[derive(Debug)]
pub struct Memory(Vec<u8>);

impl View for Memory {
    type V = Seq<u8>;

    closed spec fn view(&self) -> Seq<u8> {
        self.0@
    }
}

impl Memory {
    /// Wraps an initial image as the machine's memory; the image's length
    /// becomes the fixed buffer length.
    pub fn new(vec: Vec<u8>) -> (m: Self)
        ensures
            m@ == vec@,
    {
        Memory(vec)
    }

    /// Reads the byte at `offset`; fails with an address-range error when
    /// the offset lies at or beyond the buffer length.
    pub fn read(&self, offset: u16) -> (r: Result<u8, Error>)
        ensures
            offset < self@.len() ==> r == Ok::<u8, Error>(self@[offset as int]),
            offset >= self@.len() ==> r == Err::<u8, Error>(
                Error::OutOfRangeAccess(offset as usize, self@.len() as usize),
            ),
    {
        let offset = offset as usize;
        let mem = &self.0;
        if mem.len() > offset {
            Ok(mem[offset])
        } else {
            Err(Error::OutOfRangeAccess(offset, mem.len()))
        }
    }

    /// The buffer length, truncated to the 16-bit address width.
    pub fn len(&self) -> (r: u16)
        ensures
            r == self@.len() % 0x10000,
    {
        (self.0.len() % 0x10000) as u16
    }

    /// The buffer length in bytes, untruncated.
    pub fn byte_len(&self) -> (r: usize)
        ensures
            r == self@.len(),
    {
        self.0.len()
    }

    /// The byte at `offset`, for an offset known to be in range.
    pub fn at(&self, offset: usize) -> (r: u8)
        requires
            offset < self@.len(),
        ensures
            r == self@[offset as int],
    {
        self.0[offset]
    }

    /// True when the buffer holds no bytes at all.
    pub fn is_empty(&self) -> (r: bool)
        ensures
            r == (self@.len() == 0),
    {
        self.0.is_empty()
    }

    /// Copies the video-RAM sub-range `0x2400..0x4000` out of memory as one
    /// self-consistent snapshot; fails with an address-range error when the
    /// buffer is too short to hold that range.
    pub fn vram(&self) -> (r: Result<Vec<u8>, Error>)
        ensures
            self@.len() >= 0x4000 ==> r is Ok && r->Ok_0@ == self@.subrange(0x2400, 0x4000),
            self@.len() < 0x4000 ==> r == Err::<Vec<u8>, Error>(
                Error::OutOfRangeAccess(0x4000, self@.len() as usize),
            ),
    {
        if self.0.len() >= 0x4000 {
            let mut v: Vec<u8> = Vec::new();
            let mut i: usize = 0x2400;
            while i < 0x4000
                invariant
                    0x2400 <= i <= 0x4000,
                    self@.len() >= 0x4000,
                    v@ == self@.subrange(0x2400, i as int),
                decreases 0x4000 - i,
            {
                v.push(self.0[i]);
                i += 1;
                proof {
                    assert(v@ =~= self@.subrange(0x2400, i as int));
                }
            }
            Ok(v)
        } else {
            Err(Error::OutOfRangeAccess(0x4000, self.0.len()))
        }
    }

    /// Writes `data` at `offset`; fails with an address-range error, leaving
    /// memory unchanged, when the offset lies at or beyond the buffer length.
    pub fn write(&mut self, offset: u16, data: u8) -> (r: Result<(), Error>)
        ensures
            offset < old(self)@.len() ==> r is Ok && final(self)@ == old(self)@.update(
                offset as int,
                data,
            ),
            offset >= old(self)@.len() ==> r == Err::<(), Error>(
                Error::OutOfRangeAccess(offset as usize, old(self)@.len() as usize),
            ) && final(self)@ == old(self)@,
    {
        let offset = offset as usize;
        let mem = &mut self.0;
        if mem.len() > offset {
            mem[offset] = data;
            Ok(())
        } else {
            Err(Error::OutOfRangeAccess(offset, mem.len()))
        }
    }
}

} // verus!
