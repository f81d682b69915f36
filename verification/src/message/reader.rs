//! Reading from a sequence of bytes.

use crate::message::error::Error;
use vstd::prelude::*;
use vstd::slice::slice_subrange;

verus! {

/// A sequence of bytes with a position up to which it has been read.
pub struct ByteReader<'a> {
    bytes: &'a [u8],
    pos: usize,
}

impl<'a> ByteReader<'a> {
    #[verifier::type_invariant]
    spec fn in_bounds(self) -> bool {
        self.pos <= self.bytes@.len()
    }

    /// The bytes that are still to be read.
    pub closed spec fn rest(&self) -> Seq<u8> {
        self.bytes@.skip(self.pos as int)
    }

    /// A reader that stands before the first byte.
    pub fn new(bytes: &'a [u8]) -> (reader: Self)
        ensures
            reader.rest() == bytes@,
    {
        assert(bytes@.skip(0) == bytes@);
        ByteReader { bytes, pos: 0 }
    }

    /// The number of bytes that are still to be read.
    pub fn remaining(&self) -> (len: usize)
        ensures
            len == self.rest().len(),
    {
        proof {
            use_type_invariant(self);
        }
        self.bytes.len() - self.pos
    }

    /// Reads the next `len` bytes, or nothing if there are fewer.
    pub fn read_exact(&mut self, len: usize) -> (bytes: Result<&'a [u8], Error>)
        ensures
            len <= old(self).rest().len() ==> {
                &&& bytes matches Ok(bytes) && bytes@ == old(self).rest().take(len as int)
                &&& final(self).rest() == old(self).rest().skip(len as int)
            },
            len > old(self).rest().len() ==> {
                &&& bytes matches Err(error) && error == Error::UnexpectedEof
                &&& final(self).rest() == old(self).rest()
            },
    {
        proof {
            use_type_invariant(&*self);
        }
        if len > self.bytes.len() - self.pos {
            return Err(Error::UnexpectedEof);
        }
        let start: usize = self.pos;
        let end: usize = start + len;
        let bytes: &'a [u8] = slice_subrange(self.bytes, start, end);
        self.pos = end;
        assert(bytes@ == old(self).rest().take(len as int));
        assert(self.rest() == old(self).rest().skip(len as int));
        Ok(bytes)
    }
}

} // verus!
