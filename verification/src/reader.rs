//! A cursor over a byte slice.
//!
//! A `Reader` is its bytes, which never change, and a position in them. Every
//! read either succeeds, returns the value that the bytes at the position
//! hold and moves the position past it, or fails with
//! `Error::UnexpectedEof` and moves nothing.

use crate::endian::{get_i16, get_u16, get_u24, get_u32, get_u48, get_u64, get_u8};
use crate::endian::{i16_at, lemma_at_skip, u16_at, u24_at, u32_at, u48_at, u64_at};
use crate::error::Error;
use vstd::prelude::*;
use vstd::slice::{slice_subrange, slice_to_vec};

verus! {

/// A cursor over a byte slice. A copy of a reader is a bookmark: it reads
/// on from the same position, and leaves the reader it was copied from
/// where it stands.
#[derive(Clone, Copy)]
pub struct Reader<'a> {
    data: &'a [u8],
    pos: usize,
}

impl<'a> Reader<'a> {
    #[verifier::type_invariant]
    spec fn in_bounds(self) -> bool {
        self.pos <= self.data@.len()
    }

    /// All the bytes that this reader was made over.
    pub closed spec fn bytes(self) -> Seq<u8> {
        self.data@
    }

    /// How many of `bytes()` have been consumed.
    pub closed spec fn pos(self) -> int {
        if self.pos <= self.data@.len() {
            self.pos as int
        } else {
            self.data@.len() as int
        }
    }

    /// Whether `n` more bytes can be read.
    pub open spec fn has(self, n: int) -> bool {
        self.pos() + n <= self.bytes().len()
    }

    /// The bytes that have not been consumed yet.
    pub open spec fn remaining(self) -> Seq<u8> {
        self.bytes().skip(self.pos())
    }

    /// This reader is `before` moved forward by `n` bytes.
    pub open spec fn advanced_from(self, before: Reader<'a>, n: int) -> bool {
        self.bytes() == before.bytes() && self.pos() == before.pos() + n
    }

    /// The position never passes the end of the bytes.
    pub proof fn lemma_pos_in_bounds(&self)
        ensures
            0 <= self.pos() <= self.bytes().len(),
    {
    }

    /// A reader at the start of `data`.
    pub fn new(data: &'a [u8]) -> (r: Reader<'a>)
        ensures
            r.bytes() == data@,
            r.pos() == 0,
    {
        Reader { data, pos: 0 }
    }

    /// The number of bytes consumed so far.
    pub fn position(&self) -> (p: u64)
        ensures
            p == self.pos(),
    {
        proof {
            use_type_invariant(self);
        }
        self.pos as u64
    }

    /// The number of bytes that are left to read.
    pub fn remaining_len(&self) -> (n: usize)
        ensures
            n == self.bytes().len() - self.pos(),
    {
        proof {
            use_type_invariant(self);
        }
        self.data.len() - self.pos
    }

    fn rest(&self) -> (s: &'a [u8])
        ensures
            s@ == self.remaining(),
            self.bytes().len() <= usize::MAX,
    {
        proof {
            use_type_invariant(self);
        }
        slice_subrange(self.data, self.pos, self.data.len())
    }

    /// Reads one byte.
    pub fn read_u8(&mut self) -> (r: Result<u8, Error>)
        ensures
            match r {
                Ok(v) => old(self).has(1) && v == old(self).bytes()[old(self).pos()]
                    && final(self).advanced_from(*old(self), 1),
                Err(e) => !old(self).has(1) && e == Error::UnexpectedEof && *final(self) == *old(self),
            },
    {
        proof {
            use_type_invariant(&*self);
            lemma_at_skip(self.bytes(), self.pos(), 0);
        }
        match get_u8(self.rest()) {
            Some(v) => {
                self.pos = self.pos + 1;
                Ok(v)
            },
            None => Err(Error::UnexpectedEof),
        }
    }

    /// Reads a big-endian 16-bit integer.
    pub fn read_u16(&mut self) -> (r: Result<u16, Error>)
        ensures
            match r {
                Ok(v) => old(self).has(2) && v == u16_at(old(self).bytes(), old(self).pos())
                    && final(self).advanced_from(*old(self), 2),
                Err(e) => !old(self).has(2) && e == Error::UnexpectedEof && *final(self) == *old(self),
            },
    {
        proof {
            use_type_invariant(&*self);
            lemma_at_skip(self.bytes(), self.pos(), 0);
        }
        match get_u16(self.rest()) {
            Some(v) => {
                self.pos = self.pos + 2;
                Ok(v)
            },
            None => Err(Error::UnexpectedEof),
        }
    }

    /// Reads a big-endian two's complement 16-bit integer.
    pub fn read_i16(&mut self) -> (r: Result<i16, Error>)
        ensures
            match r {
                Ok(v) => old(self).has(2) && v == i16_at(old(self).bytes(), old(self).pos())
                    && final(self).advanced_from(*old(self), 2),
                Err(e) => !old(self).has(2) && e == Error::UnexpectedEof && *final(self) == *old(self),
            },
    {
        proof {
            use_type_invariant(&*self);
            lemma_at_skip(self.bytes(), self.pos(), 0);
        }
        match get_i16(self.rest()) {
            Some(v) => {
                self.pos = self.pos + 2;
                Ok(v)
            },
            None => Err(Error::UnexpectedEof),
        }
    }

    /// Reads a big-endian 24-bit integer.
    pub fn read_u24(&mut self) -> (r: Result<u32, Error>)
        ensures
            match r {
                Ok(v) => old(self).has(3) && v == u24_at(old(self).bytes(), old(self).pos()) && v
                    < 0x100_0000 && final(self).advanced_from(*old(self), 3),
                Err(e) => !old(self).has(3) && e == Error::UnexpectedEof && *final(self) == *old(self),
            },
    {
        proof {
            use_type_invariant(&*self);
            lemma_at_skip(self.bytes(), self.pos(), 0);
        }
        proof {
            reveal(u24_at);
        }
        match get_u24(self.rest()) {
            Some(v) => {
                self.pos = self.pos + 3;
                Ok(v)
            },
            None => Err(Error::UnexpectedEof),
        }
    }

    /// Reads a big-endian 32-bit integer.
    pub fn read_u32(&mut self) -> (r: Result<u32, Error>)
        ensures
            match r {
                Ok(v) => old(self).has(4) && v == u32_at(old(self).bytes(), old(self).pos())
                    && final(self).advanced_from(*old(self), 4),
                Err(e) => !old(self).has(4) && e == Error::UnexpectedEof && *final(self) == *old(self),
            },
    {
        proof {
            use_type_invariant(&*self);
            lemma_at_skip(self.bytes(), self.pos(), 0);
        }
        match get_u32(self.rest()) {
            Some(v) => {
                self.pos = self.pos + 4;
                Ok(v)
            },
            None => Err(Error::UnexpectedEof),
        }
    }

    /// Reads a big-endian 48-bit integer.
    pub fn read_u48(&mut self) -> (r: Result<u64, Error>)
        ensures
            match r {
                Ok(v) => old(self).has(6) && v == u48_at(old(self).bytes(), old(self).pos()) && v
                    < 0x1_0000_0000_0000 && final(self).advanced_from(*old(self), 6),
                Err(e) => !old(self).has(6) && e == Error::UnexpectedEof && *final(self) == *old(self),
            },
    {
        proof {
            use_type_invariant(&*self);
            lemma_at_skip(self.bytes(), self.pos(), 0);
        }
        proof {
            reveal(u48_at);
        }
        match get_u48(self.rest()) {
            Some(v) => {
                self.pos = self.pos + 6;
                Ok(v)
            },
            None => Err(Error::UnexpectedEof),
        }
    }

    /// Reads a big-endian 64-bit integer.
    pub fn read_u64(&mut self) -> (r: Result<u64, Error>)
        ensures
            match r {
                Ok(v) => old(self).has(8) && v == u64_at(old(self).bytes(), old(self).pos())
                    && final(self).advanced_from(*old(self), 8),
                Err(e) => !old(self).has(8) && e == Error::UnexpectedEof && *final(self) == *old(self),
            },
    {
        proof {
            use_type_invariant(&*self);
            lemma_at_skip(self.bytes(), self.pos(), 0);
        }
        match get_u64(self.rest()) {
            Some(v) => {
                self.pos = self.pos + 8;
                Ok(v)
            },
            None => Err(Error::UnexpectedEof),
        }
    }

    /// Reads the next `n` bytes.
    pub fn read_bytes(&mut self, n: usize) -> (r: Result<Vec<u8>, Error>)
        ensures
            match r {
                Ok(v) => old(self).has(n as int) && v@ == old(self).bytes().subrange(
                    old(self).pos(),
                    old(self).pos() + n,
                ) && final(self).advanced_from(*old(self), n as int),
                Err(e) => !old(self).has(n as int) && e == Error::UnexpectedEof && *final(self)
                    == *old(self),
            },
    {
        proof {
            use_type_invariant(&*self);
        }
        if n > self.data.len() - self.pos {
            return Err(Error::UnexpectedEof);
        }
        let v = slice_to_vec(slice_subrange(self.data, self.pos, self.pos + n));
        self.pos = self.pos + n;
        Ok(v)
    }

    /// Moves forward by `n` bytes.
    pub fn skip(&mut self, n: u64) -> (r: Result<(), Error>)
        ensures
            match r {
                Ok(_) => old(self).has(n as int) && final(self).advanced_from(*old(self), n as int),
                Err(e) => !old(self).has(n as int) && e == Error::UnexpectedEof && *final(self)
                    == *old(self),
            },
    {
        proof {
            use_type_invariant(&*self);
        }
        let left = self.data.len() - self.pos;
        if n > left as u64 {
            return Err(Error::UnexpectedEof);
        }
        self.pos = self.pos + n as usize;
        Ok(())
    }

    /// Moves forward to the position `target`, which must lie between the
    /// current position and the end of the bytes.
    pub fn skip_to(&mut self, target: u64) -> (r: Result<(), Error>)
        ensures
            match r {
                Ok(_) => old(self).pos() <= target <= old(self).bytes().len() && final(self).advanced_from(*old(self), target - old(self).pos()),
                Err(e) => *final(self) == *old(self) && if target < old(self).pos() {
                    e == Error::InvalidData("cannot skip backwards")
                } else {
                    target > old(self).bytes().len() && e == Error::UnexpectedEof
                },
            },
    {
        proof {
            use_type_invariant(&*self);
        }
        if target < self.pos as u64 {
            return Err(Error::InvalidData("cannot skip backwards"));
        }
        if target > self.data.len() as u64 {
            return Err(Error::UnexpectedEof);
        }
        self.pos = target as usize;
        Ok(())
    }

    /// Splits off the next `n` bytes as a reader of their own, and moves
    /// this reader past them.
    pub fn take(&mut self, n: u64) -> (r: Result<Reader<'a>, Error>)
        ensures
            match r {
                Ok(sub) => old(self).has(n as int) && sub.bytes() == old(self).bytes().subrange(
                    old(self).pos(),
                    old(self).pos() + n,
                ) && sub.pos() == 0 && final(self).advanced_from(*old(self), n as int),
                Err(e) => !old(self).has(n as int) && e == Error::UnexpectedEof && *final(self)
                    == *old(self),
            },
    {
        proof {
            use_type_invariant(&*self);
        }
        let left = self.data.len() - self.pos;
        if n > left as u64 {
            return Err(Error::UnexpectedEof);
        }
        let sub = Reader { data: slice_subrange(self.data, self.pos, self.pos + n as usize), pos: 0 };
        self.pos = self.pos + n as usize;
        Ok(sub)
    }
}

} // verus!
