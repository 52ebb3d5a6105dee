//! The byte source that a parser reads: a finite stream with a cursor.
use vstd::prelude::*;

use crate::util::copy_range;

verus! {

/// The bytes of one file and the place up to which they have been read.
pub struct ByteSource {
    data: Vec<u8>,
    pos: usize,
}

impl ByteSource {
    /// All the bytes of the source.
    pub closed spec fn bytes(&self) -> Seq<u8> {
        self.data@
    }

    /// The place of the next byte to be read. It may stand behind the end.
    pub closed spec fn cursor(&self) -> nat {
        self.pos as nat
    }

    /// A source over `data`, with nothing read yet.
    pub fn new(data: Vec<u8>) -> (source: ByteSource)
        ensures
            source.bytes() == data@,
            source.cursor() == 0,
    {
        ByteSource { data, pos: 0 }
    }

    /// Number of bytes in the source.
    pub fn len(&self) -> (n: usize)
        ensures
            n == self.bytes().len(),
    {
        self.data.len()
    }

    /// The place of the next byte to be read.
    pub fn position(&self) -> (at: usize)
        ensures
            at == self.cursor(),
    {
        self.pos
    }

    /// Reads exactly `length` bytes and moves behind them. Where the source
    /// holds fewer, nothing is read and the cursor stays.
    pub fn read_exact(&mut self, length: usize) -> (r: Option<Vec<u8>>)
        ensures
            final(self).bytes() == old(self).bytes(),
            match r {
                Some(buffer) => {
                    &&& old(self).cursor() + length <= old(self).bytes().len()
                    &&& buffer@.len() == length
                    &&& buffer@ == old(self).bytes().subrange(
                        old(self).cursor() as int,
                        old(self).cursor() + length,
                    )
                    &&& final(self).cursor() == old(self).cursor() + length
                },
                None => {
                    &&& old(self).cursor() + length > old(self).bytes().len()
                    &&& final(self).cursor() == old(self).cursor()
                },
            },
    {
        if self.pos <= self.data.len() && length <= self.data.len() - self.pos {
            let buffer = copy_range(self.data.as_slice(), self.pos, self.pos + length);
            self.pos = self.pos + length;
            Some(buffer)
        } else {
            None
        }
    }

    /// Reads one byte.
    pub fn read_one(&mut self) -> (r: Option<u8>)
        ensures
            final(self).bytes() == old(self).bytes(),
            match r {
                Some(byte) => {
                    &&& old(self).cursor() < old(self).bytes().len()
                    &&& byte == old(self).bytes()[old(self).cursor() as int]
                    &&& final(self).cursor() == old(self).cursor() + 1
                },
                None => {
                    &&& old(self).cursor() >= old(self).bytes().len()
                    &&& final(self).cursor() == old(self).cursor()
                },
            },
    {
        if self.pos < self.data.len() {
            let byte = self.data[self.pos];
            self.pos = self.pos + 1;
            Some(byte)
        } else {
            None
        }
    }

    /// Moves over `length` bytes without reading them. Where the source
    /// holds fewer, the cursor stays and the result is `false`.
    pub fn skip(&mut self, length: usize) -> (moved: bool)
        ensures
            final(self).bytes() == old(self).bytes(),
            moved <==> old(self).cursor() + length <= old(self).bytes().len(),
            moved ==> final(self).cursor() == old(self).cursor() + length,
            !moved ==> final(self).cursor() == old(self).cursor(),
    {
        if self.pos <= self.data.len() && length <= self.data.len() - self.pos {
            self.pos = self.pos + length;
            true
        } else {
            false
        }
    }

    /// Moves to the absolute place `location`, which may stand behind the
    /// end: a later read then finds nothing.
    pub fn seek_to(&mut self, location: usize)
        ensures
            final(self).bytes() == old(self).bytes(),
            final(self).cursor() == location,
    {
        self.pos = location;
    }
}

} // verus!
