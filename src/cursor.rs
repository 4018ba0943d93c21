//! A forward-only cursor over a byte slice, reading little-endian integers.

use vstd::prelude::*;

verus! {

/// The byte at `at`, as a number.
pub open spec fn byte_at(s: Seq<u8>, at: int) -> nat {
    s[at] as nat
}

/// The little-endian 16-bit integer held by `s[at]` and `s[at + 1]`.
pub open spec fn le_u16(s: Seq<u8>, at: int) -> nat {
    byte_at(s, at) + 256 * byte_at(s, at + 1)
}

/// The little-endian 32-bit integer held by `s[at]` through `s[at + 3]`.
pub open spec fn le_u32(s: Seq<u8>, at: int) -> nat {
    byte_at(s, at) + 256 * byte_at(s, at + 1) + 65536 * byte_at(s, at + 2) + 16777216 * byte_at(
        s,
        at + 3,
    )
}

/// Reads fixed-width fields one after the other from a borrowed byte slice.
pub struct ByteCursor<'a> {
    bytes: &'a [u8],
    pos: usize,
}

impl<'a> ByteCursor<'a> {
    /// The bytes being read.
    pub closed spec fn data(&self) -> Seq<u8> {
        self.bytes@
    }

    /// The offset of the next byte to read.
    pub closed spec fn pos(&self) -> int {
        self.pos as int
    }

    /// A cursor at the start of `bytes`.
    pub fn new(bytes: &'a [u8]) -> (r: Self)
        ensures
            r.data() == bytes@,
            r.pos() == 0,
    {
        ByteCursor { bytes, pos: 0 }
    }

    /// The offset of the next byte to read.
    pub fn position(&self) -> (r: usize)
        ensures
            r == self.pos(),
    {
        self.pos
    }

    /// How many bytes are left after the current position.
    pub fn remaining(&self) -> (r: usize)
        requires
            self.pos() <= self.data().len(),
        ensures
            r == self.data().len() - self.pos(),
    {
        self.bytes.len() - self.pos
    }

    /// Reads one byte.
    pub fn read_u8(&mut self) -> (r: u8)
        requires
            old(self).pos() + 1 <= old(self).data().len(),
        ensures
            final(self).data() == old(self).data(),
            final(self).pos() == old(self).pos() + 1,
            r == old(self).data()[old(self).pos()],
    {
        let b = self.bytes[self.pos];
        self.pos = self.pos + 1;
        b
    }

    /// Reads a little-endian 16-bit integer.
    pub fn read_u16(&mut self) -> (r: u16)
        requires
            old(self).pos() + 2 <= old(self).data().len(),
        ensures
            final(self).data() == old(self).data(),
            final(self).pos() == old(self).pos() + 2,
            r == le_u16(old(self).data(), old(self).pos()),
    {
        let p = self.pos;
        let b0 = self.bytes[p] as u16;
        let b1 = self.bytes[p + 1] as u16;
        self.pos = p + 2;
        b0 + 256 * b1
    }

    /// Reads a little-endian 32-bit integer.
    pub fn read_u32(&mut self) -> (r: u32)
        requires
            old(self).pos() + 4 <= old(self).data().len(),
        ensures
            final(self).data() == old(self).data(),
            final(self).pos() == old(self).pos() + 4,
            r == le_u32(old(self).data(), old(self).pos()),
    {
        let p = self.pos;
        let b0 = self.bytes[p] as u32;
        let b1 = self.bytes[p + 1] as u32;
        let b2 = self.bytes[p + 2] as u32;
        let b3 = self.bytes[p + 3] as u32;
        self.pos = p + 4;
        b0 + 256 * b1 + 65536 * b2 + 16777216 * b3
    }

    /// Steps over `n` bytes whose contents are not needed.
    pub fn skip(&mut self, n: usize)
        requires
            old(self).pos() + n <= old(self).data().len(),
        ensures
            final(self).data() == old(self).data(),
            final(self).pos() == old(self).pos() + n,
    {
        let len = self.bytes.len();
        assert(self.pos + n <= len);
        self.pos = self.pos + n;
    }
}

} // verus!
