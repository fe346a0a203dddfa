//! A cursor over a byte slice that reads big-endian fields.

use vstd::prelude::*;

use crate::error::ShadowTlsError;

verus! {

/// The big-endian 16-bit value at `i`.
pub open spec fn be16_at(s: Seq<u8>, i: int) -> int {
    s[i] as int * 256 + s[i + 1] as int
}

/// The big-endian 24-bit value at `i`.
pub open spec fn be24_at(s: Seq<u8>, i: int) -> int {
    s[i] as int * 65536 + s[i + 1] as int * 256 + s[i + 2] as int
}

/// Reads fields from the front of a byte slice. A read that would run past
/// the end fails with `Truncated` and leaves the position where it was.
pub(crate) struct ByteReader<'a> {
    pub(crate) data: &'a [u8],
    pub(crate) pos: usize,
}

impl<'a> ByteReader<'a> {
    /// The bytes read from.
    pub(crate) open spec fn data(&self) -> Seq<u8> {
        self.data@
    }

    /// How many bytes have been read.
    pub(crate) open spec fn pos(&self) -> int {
        self.pos as int
    }

    pub(crate) open spec fn wf(&self) -> bool {
        self.pos <= self.data@.len()
    }

    pub(crate) fn new(data: &'a [u8]) -> (r: Self)
        ensures
            r.wf(),
            r.data() == data@,
            r.pos() == 0,
    {
        ByteReader { data, pos: 0 }
    }

    pub(crate) fn position(&self) -> (r: usize)
        requires
            self.wf(),
        ensures
            r == self.pos(),
    {
        self.pos
    }

    pub(crate) fn is_consumed(&self) -> (r: bool)
        requires
            self.wf(),
        ensures
            r == (self.pos() == self.data().len()),
    {
        self.pos == self.data.len()
    }

    pub(crate) fn read_u8(&mut self) -> (r: Result<u8, ShadowTlsError>)
        requires
            old(self).wf(),
        ensures
            final(self).wf(),
            final(self).data() == old(self).data(),
            old(self).pos() + 1 <= old(self).data().len() ==> r == Ok::<u8, ShadowTlsError>(
                old(self).data()[old(self).pos()],
            ) && final(self).pos() == old(self).pos() + 1,
            old(self).pos() + 1 > old(self).data().len() ==> r == Err::<u8, ShadowTlsError>(
                ShadowTlsError::Truncated,
            ) && final(self).pos() == old(self).pos(),
    {
        if self.data.len() - self.pos < 1 {
            return Err(ShadowTlsError::Truncated);
        }
        let b = self.data[self.pos];
        self.pos = self.pos + 1;
        Ok(b)
    }

    pub(crate) fn read_u16_be(&mut self) -> (r: Result<u16, ShadowTlsError>)
        requires
            old(self).wf(),
        ensures
            final(self).wf(),
            final(self).data() == old(self).data(),
            old(self).pos() + 2 <= old(self).data().len() ==> (r matches Ok(v) && v as int
                == be16_at(old(self).data(), old(self).pos())),
            old(self).pos() + 2 <= old(self).data().len() ==> final(self).pos() == old(self).pos()
                + 2,
            old(self).pos() + 2 > old(self).data().len() ==> r == Err::<u16, ShadowTlsError>(
                ShadowTlsError::Truncated,
            ) && final(self).pos() == old(self).pos(),
    {
        if self.data.len() - self.pos < 2 {
            return Err(ShadowTlsError::Truncated);
        }
        let hi = self.data[self.pos];
        let lo = self.data[self.pos + 1];
        self.pos = self.pos + 2;
        Ok(hi as u16 * 256 + lo as u16)
    }

    pub(crate) fn read_u24_be(&mut self) -> (r: Result<u32, ShadowTlsError>)
        requires
            old(self).wf(),
        ensures
            final(self).wf(),
            final(self).data() == old(self).data(),
            old(self).pos() + 3 <= old(self).data().len() ==> (r matches Ok(v) && v as int
                == be24_at(old(self).data(), old(self).pos())),
            old(self).pos() + 3 <= old(self).data().len() ==> final(self).pos() == old(self).pos()
                + 3,
            old(self).pos() + 3 > old(self).data().len() ==> r == Err::<u32, ShadowTlsError>(
                ShadowTlsError::Truncated,
            ) && final(self).pos() == old(self).pos(),
    {
        if self.data.len() - self.pos < 3 {
            return Err(ShadowTlsError::Truncated);
        }
        let a = self.data[self.pos];
        let b = self.data[self.pos + 1];
        let c = self.data[self.pos + 2];
        self.pos = self.pos + 3;
        Ok(a as u32 * 65536 + b as u32 * 256 + c as u32)
    }

    /// Moves past `n` bytes.
    pub(crate) fn skip(&mut self, n: usize) -> (r: Result<(), ShadowTlsError>)
        requires
            old(self).wf(),
        ensures
            final(self).wf(),
            final(self).data() == old(self).data(),
            old(self).pos() + n <= old(self).data().len() ==> r is Ok && final(self).pos() == old(
                self,
            ).pos() + n,
            old(self).pos() + n > old(self).data().len() ==> r == Err::<(), ShadowTlsError>(
                ShadowTlsError::Truncated,
            ) && final(self).pos() == old(self).pos(),
    {
        if self.data.len() - self.pos < n {
            return Err(ShadowTlsError::Truncated);
        }
        self.pos = self.pos + n;
        Ok(())
    }

    /// The next `n` bytes.
    pub(crate) fn read_slice(&mut self, n: usize) -> (r: Result<&'a [u8], ShadowTlsError>)
        requires
            old(self).wf(),
        ensures
            final(self).wf(),
            final(self).data() == old(self).data(),
            old(self).pos() + n <= old(self).data().len() ==> (r matches Ok(s) && s@ == old(
                self,
            ).data().subrange(old(self).pos(), old(self).pos() + n)),
            old(self).pos() + n <= old(self).data().len() ==> final(self).pos() == old(self).pos()
                + n,
            old(self).pos() + n > old(self).data().len() ==> r
                == Err::<&'a [u8], ShadowTlsError>(ShadowTlsError::Truncated) && final(self).pos()
                == old(self).pos(),
    {
        if self.data.len() - self.pos < n {
            return Err(ShadowTlsError::Truncated);
        }
        let s = &self.data[self.pos..self.pos + n];
        self.pos = self.pos + n;
        Ok(s)
    }
}

} // verus!
