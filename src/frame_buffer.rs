//! A bounded buffer that cuts a byte stream into TLS records.

use vstd::prelude::*;

use crate::client_hello::TLS_HEADER_LEN;
use crate::reader::be16_at;

verus! {

/// The largest record: a header and a payload of the largest 16-bit length.
pub const TLS_FRAME_MAX_LEN: usize = TLS_HEADER_LEN + 65535;

/// The length of the record at the front of `b`, once its header is there.
pub open spec fn leading_frame_len(b: Seq<u8>) -> Option<int> {
    if b.len() >= TLS_HEADER_LEN {
        Some(TLS_HEADER_LEN + be16_at(b, 3))
    } else {
        None
    }
}

/// Bounded storage: a connection buffers each direction in one frame
/// buffer, so it never holds more than two records of the largest size.
pub proof fn lemma_connection_storage(client: &FrameBuffer, server: &FrameBuffer)
    requires
        client.wf(),
        server.wf(),
    ensures
        client.bytes().len() + server.bytes().len() <= 2 * TLS_FRAME_MAX_LEN,
{
}

/// Bytes read from a peer and not yet handed out as records. It never holds
/// more than one record of the largest size.
pub struct FrameBuffer {
    buf: Vec<u8>,
}

impl FrameBuffer {
    /// The buffered bytes.
    pub closed spec fn bytes(&self) -> Seq<u8> {
        self.buf@
    }

    pub closed spec fn wf(&self) -> bool {
        self.buf@.len() <= TLS_FRAME_MAX_LEN
    }

    pub fn new() -> (r: Self)
        ensures
            r.wf(),
            r.bytes() == Seq::<u8>::empty(),
    {
        FrameBuffer { buf: Vec::new() }
    }

    /// How many more bytes the buffer takes.
    pub fn free_space(&self) -> (r: usize)
        requires
            self.wf(),
        ensures
            r == TLS_FRAME_MAX_LEN - self.bytes().len(),
    {
        TLS_FRAME_MAX_LEN - self.buf.len()
    }

    /// Takes as many bytes from the front of `data` as there is room for,
    /// and says how many.
    pub fn fill(&mut self, data: &[u8]) -> (n: usize)
        requires
            old(self).wf(),
        ensures
            final(self).wf(),
            n == if data@.len() <= TLS_FRAME_MAX_LEN - old(self).bytes().len() {
                data@.len()
            } else {
                (TLS_FRAME_MAX_LEN - old(self).bytes().len()) as nat
            },
            final(self).bytes() == old(self).bytes() + data@.subrange(0, n as int),
    {
        let free = TLS_FRAME_MAX_LEN - self.buf.len();
        let n = if data.len() <= free {
            data.len()
        } else {
            free
        };
        crate::bytes::append_bytes(&mut self.buf, &data[0..n]);
        n
    }

    /// The record at the front of the buffer, header included, once all of
    /// it is there; it leaves the buffer.
    pub fn next_frame(&mut self) -> (r: Option<Vec<u8>>)
        requires
            old(self).wf(),
        ensures
            final(self).wf(),
            match r {
                Some(f) => {
                    &&& leading_frame_len(old(self).bytes()) matches Some(n)
                    &&& n <= old(self).bytes().len()
                    &&& f@ == old(self).bytes().subrange(0, n)
                    &&& final(self).bytes() == old(self).bytes().subrange(
                        n,
                        old(self).bytes().len() as int,
                    )
                },
                None => {
                    &&& !(leading_frame_len(old(self).bytes()) matches Some(n) && n <= old(
                        self,
                    ).bytes().len())
                    &&& final(self).bytes() == old(self).bytes()
                },
            },
    {
        if self.buf.len() < TLS_HEADER_LEN {
            return None;
        }
        let n = TLS_HEADER_LEN + self.buf[3] as usize * 256 + self.buf[4] as usize;
        if self.buf.len() < n {
            return None;
        }
        let mut rest = self.buf.split_off(n);
        std::mem::swap(&mut self.buf, &mut rest);
        Some(rest)
    }

    /// Hands out every buffered byte, emptying the buffer.
    pub fn take_unparsed(&mut self) -> (r: Vec<u8>)
        requires
            old(self).wf(),
        ensures
            final(self).wf(),
            r@ == old(self).bytes(),
            final(self).bytes() == Seq::<u8>::empty(),
    {
        let mut rest: Vec<u8> = Vec::new();
        std::mem::swap(&mut self.buf, &mut rest);
        rest
    }
}

} // verus!
