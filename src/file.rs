//! Header inspection: a cursor over the bytes of a file whose magic number
//! has been checked, reading 8-byte little-endian words.

use crate::format::{RawArrayError, MAGIC_NUMBER};
use vstd::bytes::{spec_u64_from_le_bytes, u64_from_le_bytes};
use vstd::prelude::*;
use vstd::slice::slice_subrange;

verus! {

/// The 8-byte little-endian word that starts at byte `off` of `b`.
pub open spec fn word_at(b: Seq<u8>, off: int) -> u64 {
    spec_u64_from_le_bytes(b.subrange(off, off + 8))
}

/// The bytes of a RawArray file, with a reading position.
pub struct RawArrayFile {
    bytes: Vec<u8>,
    pos: usize,
}

impl View for RawArrayFile {
    /// The file's bytes and the reading position.
    type V = (Seq<u8>, int);

    closed spec fn view(&self) -> (Seq<u8>, int) {
        (self.bytes@, self.pos as int)
    }
}

impl RawArrayFile {
    /// Takes the bytes of a file, positioned at its start, after checking
    /// that they begin with the magic number.
    pub fn valid_open(bytes: Vec<u8>) -> (r: Result<RawArrayFile, RawArrayError>)
        ensures
            match r {
                Ok(f) => f@ == (bytes@, 0int) && bytes@.len() >= 8 && word_at(bytes@, 0)
                    == MAGIC_NUMBER,
                Err(e) => e == RawArrayError::InvalidFormat && (bytes@.len() < 8 || word_at(
                    bytes@,
                    0,
                ) != MAGIC_NUMBER),
            },
    {
        if bytes.len() < 8 {
            return Err(RawArrayError::InvalidFormat);
        }
        let mut f = RawArrayFile { bytes, pos: 0 };
        let magic = f.u64_at(0);
        match magic {
            Ok(m) => {
                if m != MAGIC_NUMBER {
                    return Err(RawArrayError::InvalidFormat);
                }
            },
            Err(e) => {
                return Err(e);
            },
        }
        Ok(f)
    }

    /// The next word, moving the position past it.
    pub fn u64(&mut self) -> (r: Result<u64, RawArrayError>)
        ensures
            old(self)@.1 + 8 <= old(self)@.0.len() ==> r == Ok::<u64, RawArrayError>(
                word_at(old(self)@.0, old(self)@.1),
            ) && final(self)@ == (old(self)@.0, old(self)@.1 + 8),
            old(self)@.1 + 8 > old(self)@.0.len() ==> r == Err::<u64, RawArrayError>(
                RawArrayError::TruncatedFile,
            ) && final(self)@ == old(self)@,
    {
        let len = self.bytes.len();
        if self.pos > len || len - self.pos < 8 {
            return Err(RawArrayError::TruncatedFile);
        }
        let w = u64_from_le_bytes(slice_subrange(self.bytes.as_slice(), self.pos, self.pos + 8));
        self.pos = self.pos + 8;
        Ok(w)
    }

    /// Moves the position `loc` bytes forward, stopping at the largest
    /// position there is.
    pub fn seek(&mut self, loc: u64) -> (r: Result<(), RawArrayError>)
        ensures
            r is Ok,
            final(self)@.0 == old(self)@.0,
            final(self)@.1 == if old(self)@.1 + loc <= usize::MAX {
                old(self)@.1 + loc
            } else {
                usize::MAX as int
            },
    {
        let step: usize = if loc > usize::MAX as u64 {
            usize::MAX
        } else {
            loc as usize
        };
        self.pos = self.pos.saturating_add(step);
        Ok(())
    }

    /// The word at byte `offset`, leaving the position where it is.
    pub fn u64_at(&mut self, offset: u64) -> (r: Result<u64, RawArrayError>)
        ensures
            final(self)@ == old(self)@,
            offset + 8 <= old(self)@.0.len() ==> r == Ok::<u64, RawArrayError>(
                word_at(old(self)@.0, offset as int),
            ),
            offset + 8 > old(self)@.0.len() ==> r == Err::<u64, RawArrayError>(
                RawArrayError::TruncatedFile,
            ),
    {
        let len = self.bytes.len();
        if offset > len as u64 || (len as u64) - offset < 8 {
            return Err(RawArrayError::TruncatedFile);
        }
        let start = offset as usize;
        Ok(u64_from_le_bytes(slice_subrange(self.bytes.as_slice(), start, start + 8)))
    }
}

} // verus!
