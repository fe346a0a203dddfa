//! The handshake variant that terminates TLS with an embedded server.

use vstd::prelude::*;

use crate::error::ShadowTlsError;
use crate::foreign::{
    tls_process_new_packets, tls_received, tls_read, tls_server_connection, tls_wants_write, tls_write,
};
use crate::frame_buffer::{
    leading_frame_len, lemma_connection_storage, FrameBuffer, TLS_FRAME_MAX_LEN,
};
use crate::server_hello::{parse_server_hello, server_hello_random};
use crate::session::{
    local_reframed_server_record, server_handshake_fed, HandshakeSession, LABEL_CLIENT, LABEL_SERVER,
};
use crate::stream::{advanced, opened_record, ShadowTlsStream};
use crate::target::ShadowTlsServerTarget;

verus! {

/// Hands every byte of `data` to the embedded TLS server, in order. It
/// stops with `LocalTls` when the server refuses bytes or takes none.
pub fn feed_server_connection(
    server_connection: &mut rustls::ServerConnection,
    data: &[u8],
) -> (r: Result<(), ShadowTlsError>)
    ensures
        data@.len() == 0 ==> r is Ok,
        r is Ok ==> tls_received(*final(server_connection)) == tls_received(
            *old(server_connection),
        ) + data@,
        r matches Err(e) ==> e == ShadowTlsError::LocalTls,
{
    let mut i: usize = 0;
    while i < data.len()
        invariant
            i <= data@.len(),
            tls_received(*server_connection) == tls_received(*old(server_connection))
                + data@.subrange(0, i as int),
        decreases data@.len() - i,
    {
        let ghost before = tls_received(*server_connection);
        let rest = &data[i..data.len()];
        match tls_read(server_connection, rest) {
            Ok(n) => {
                if n == 0 {
                    return Err(ShadowTlsError::LocalTls);
                }
                assert(data@.subrange(0, i as int) + rest@.subrange(0, n as int) =~= data@.subrange(
                    0,
                    (i + n) as int,
                ));
                i = i + n;
            },
            Err(_) => return Err(ShadowTlsError::LocalTls),
        }
    }
    assert(data@.subrange(0, data@.len() as int) =~= data@);
    Ok(())
}

/// Feeds `data` to the embedded TLS server and lets it process it.
fn feed_and_process(
    server_connection: &mut rustls::ServerConnection,
    data: &[u8],
) -> (r: Result<(), ShadowTlsError>)
    ensures
        r is Ok ==> tls_received(*final(server_connection)) == tls_received(
            *old(server_connection),
        ) + data@,
        r matches Err(e) ==> e == ShadowTlsError::LocalTls,
{
    match feed_server_connection(server_connection, data) {
        Ok(()) => {},
        Err(e) => return Err(e),
    }
    match tls_process_new_packets(server_connection) {
        Ok(()) => Ok(()),
        Err(_) => Err(ShadowTlsError::LocalTls),
    }
}

/// The records that the buffered server output `b` becomes for the client,
/// with the bytes left over (an incomplete record) and what the
/// handshake-phase server context has been fed afterwards; or the first
/// refusal. Complete records are cut from the front one by one.
pub open spec fn reframed_pending(
    key: Seq<u8>,
    message: Seq<u8>,
    x: Seq<u8>,
    b: Seq<u8>,
) -> Result<(Seq<Seq<u8>>, Seq<u8>, Seq<u8>), ShadowTlsError>
    decreases b.len(),
{
    match leading_frame_len(b) {
        Some(n) => if n <= b.len() {
            let f = b.subrange(0, n);
            match local_reframed_server_record(key, message, x, f) {
                Err(e) => Err(e),
                Ok(out) => match reframed_pending(
                    key,
                    server_handshake_fed(message, x, f),
                    x,
                    b.subrange(n, b.len() as int),
                ) {
                    Err(e) => Err(e),
                    Ok(rest) => Ok((seq![out] + rest.0, rest.1, rest.2)),
                },
            }
        } else {
            Ok((Seq::empty(), b, message))
        },
        None => Ok((Seq::empty(), b, message)),
    }
}

/// The views of a list of records.
pub open spec fn records_view(records: Seq<Vec<u8>>) -> Seq<Seq<u8>> {
    records.map_values(|r: Vec<u8>| r@)
}

/// What follows a client record in the local variant.
pub enum LocalStep {
    /// The record was ordinary TLS and went to the embedded server.
    Continue(LocalHandshake),
    /// The record switched the connection to the covert channel; the
    /// vector holds the first covert bytes.
    Transition(ShadowTlsStream, Vec<u8>),
}

/// The state of a connection whose TLS handshake is answered by an
/// embedded server: that server, its output not yet sent, and the
/// connection's handshake contexts.
pub struct LocalHandshake {
    server_connection: rustls::ServerConnection,
    server_data: FrameBuffer,
    session: HandshakeSession,
}

impl LocalHandshake {
    /// The handshake contexts.
    pub closed spec fn session(&self) -> HandshakeSession {
        self.session
    }

    /// The embedded server's output that has not been sent yet.
    pub closed spec fn pending(&self) -> Seq<u8> {
        self.server_data.bytes()
    }

    /// Bounded storage in the local variant: the embedded server's unsent
    /// output and the client's unread bytes never exceed two records of the
    /// largest size together.
    pub proof fn lemma_local_storage(&self, client: &FrameBuffer)
        requires
            self.wf(),
            client.wf(),
        ensures
            self.pending().len() + client.bytes().len() <= 2 * TLS_FRAME_MAX_LEN,
    {
        lemma_connection_storage(client, &self.server_data);
    }

    /// The TLS bytes that the embedded server has taken in, in order.
    pub closed spec fn received(&self) -> Seq<u8> {
        tls_received(self.server_connection)
    }

    pub closed spec fn wf(&self) -> bool {
        self.session.wf() && self.server_data.wf()
    }

    /// Moves what the embedded server has to send into the buffer, as far
    /// as there is room.
    fn pull_server_output(&mut self) -> (r: Result<(), ShadowTlsError>)
        requires
            old(self).server_data.wf(),
        ensures
            final(self).server_data.wf(),
            final(self).session == old(self).session,
            final(self).received() == old(self).received(),
            old(self).server_data.bytes().is_prefix_of(final(self).server_data.bytes()),
            old(self).server_data.bytes().len() == TLS_FRAME_MAX_LEN ==> r is Ok
                && final(self).server_data.bytes() == old(self).server_data.bytes(),
            r matches Err(e) ==> e == ShadowTlsError::LocalTls,
    {
        let free = self.server_data.free_space();
        if free == 0 || !tls_wants_write(&self.server_connection) {
            return Ok(());
        }
        match tls_write(&mut self.server_connection, free) {
            Ok(bytes) => {
                self.server_data.fill(bytes.as_slice());
                assert(self.server_data.bytes().subrange(
                    0,
                    old(self).server_data.bytes().len() as int,
                ) =~= old(self).server_data.bytes());
                Ok(())
            },
            Err(_) => Err(ShadowTlsError::LocalTls),
        }
    }

    /// Starts the embedded server on the client's ClientHello record and
    /// takes the ServerHello from its answer. The returned record is the
    /// ServerHello, to be sent to the client as it is; the contexts are
    /// derived from its server random.
    pub fn start<H, I, P>(
        target: &ShadowTlsServerTarget<H, I, P>,
        server_config: std::sync::Arc<rustls::ServerConfig>,
        client_hello_frame: &[u8],
    ) -> (r: Result<(LocalHandshake, Vec<u8>), ShadowTlsError>)
        requires
            target.wf(),
        ensures
            r matches Ok(started) ==> {
                &&& started.0.wf()
                &&& started.0.received() == client_hello_frame@
                &&& server_hello_random(started.1@) matches Ok(random)
                &&& started.0.session().key() == target.key()
                &&& started.0.session().server_random_message() == random
                &&& started.0.session().client_message() == random + seq![LABEL_CLIENT]
                &&& started.0.session().server_message() == random + seq![LABEL_SERVER]
            },
    {
        let mut server_connection = match tls_server_connection(server_config) {
            Ok(c) => c,
            Err(_) => return Err(ShadowTlsError::LocalTls),
        };
        match feed_and_process(&mut server_connection, client_hello_frame) {
            Ok(()) => {},
            Err(e) => return Err(e),
        }
        if !tls_wants_write(&server_connection) {
            return Err(ShadowTlsError::LocalTlsSilent);
        }
        let mut server_data = FrameBuffer::new();
        let free = server_data.free_space();
        match tls_write(&mut server_connection, free) {
            Ok(bytes) => {
                server_data.fill(bytes.as_slice());
            },
            Err(_) => return Err(ShadowTlsError::LocalTls),
        }
        let server_hello_frame = match server_data.next_frame() {
            Some(f) => f,
            None => return Err(ShadowTlsError::Truncated),
        };
        let parsed = match parse_server_hello(server_hello_frame.as_slice()) {
            Ok(p) => p,
            Err(e) => return Err(e),
        };
        let session = target.start_session(parsed.server_random.as_slice());
        Ok((LocalHandshake { server_connection, server_data, session }, server_hello_frame))
    }

    /// Re-frames every complete record of the buffered server output, in
    /// order; an incomplete record stays buffered.
    pub fn reframe_pending(&mut self) -> (r: Result<Vec<Vec<u8>>, ShadowTlsError>)
        requires
            old(self).wf(),
        ensures
            final(self).wf(),
            final(self).session().key() == old(self).session().key(),
            final(self).session().client_message() == old(self).session().client_message(),
            final(self).session().server_message() == old(self).session().server_message(),
            final(self).session().xor_key() == old(self).session().xor_key(),
            final(self).received() == old(self).received(),
            match r {
                Ok(records) => reframed_pending(
                    old(self).session().key(),
                    old(self).session().server_random_message(),
                    old(self).session().xor_key(),
                    old(self).pending(),
                ) == Ok::<(Seq<Seq<u8>>, Seq<u8>, Seq<u8>), ShadowTlsError>(
                    (
                        records_view(records@),
                        final(self).pending(),
                        final(self).session().server_random_message(),
                    ),
                ),
                Err(e) => reframed_pending(
                    old(self).session().key(),
                    old(self).session().server_random_message(),
                    old(self).session().xor_key(),
                    old(self).pending(),
                ) == Err::<(Seq<Seq<u8>>, Seq<u8>, Seq<u8>), ShadowTlsError>(e),
            },
    {
        let ghost key = self.session.key();
        let ghost x = self.session.xor_key();
        let ghost whole = reframed_pending(
            key,
            self.session.server_random_message(),
            x,
            self.server_data.bytes(),
        );
        let mut records: Vec<Vec<u8>> = Vec::new();
        loop
            invariant
                self.wf(),
                key == old(self).session.key(),
                x == old(self).session.xor_key(),
                whole == reframed_pending(
                    old(self).session.key(),
                    old(self).session.server_random_message(),
                    old(self).session.xor_key(),
                    old(self).server_data.bytes(),
                ),
                self.session.key() == key,
                self.session.xor_key() == x,
                self.session.client_message() == old(self).session.client_message(),
                self.session.server_message() == old(self).session.server_message(),
                self.server_connection == old(self).server_connection,
                whole == match reframed_pending(
                    key,
                    self.session.server_random_message(),
                    x,
                    self.server_data.bytes(),
                ) {
                    Err(e) => Err(e),
                    Ok(rest) => Ok((records_view(records@) + rest.0, rest.1, rest.2)),
                },
            ensures
                self.wf(),
                self.session.key() == key,
                self.session.xor_key() == x,
                self.session.client_message() == old(self).session.client_message(),
                self.session.server_message() == old(self).session.server_message(),
                self.server_connection == old(self).server_connection,
                whole == Ok::<(Seq<Seq<u8>>, Seq<u8>, Seq<u8>), ShadowTlsError>(
                    (
                        records_view(records@),
                        self.server_data.bytes(),
                        self.session.server_random_message(),
                    ),
                ),
            decreases self.server_data.bytes().len(),
        {
            let ghost before = self.server_data.bytes();
            let ghost m = self.session.server_random_message();
            let frame = match self.server_data.next_frame() {
                Some(f) => f,
                None => {
                    assert(reframed_pending(key, m, x, before) == Ok::<
                        (Seq<Seq<u8>>, Seq<u8>, Seq<u8>),
                        ShadowTlsError,
                    >((Seq::empty(), before, m)));
                    assert(records_view(records@) + Seq::<Seq<u8>>::empty() =~= records_view(
                        records@,
                    ));
                    break;
                },
            };
            match self.session.reframe_local_server_record(frame.as_slice()) {
                Ok(out) => {
                    let ghost old_records = records@;
                    records.push(out);
                    assert(records_view(records@) =~= records_view(old_records) + seq![out@]);
                    proof {
                        match reframed_pending(
                            key,
                            self.session.server_random_message(),
                            x,
                            self.server_data.bytes(),
                        ) {
                            Err(e) => {},
                            Ok(rest) => {
                                assert(records_view(records@) + rest.0 =~= records_view(
                                    old_records,
                                ) + (seq![out@] + rest.0));
                            },
                        }
                    }
                },
                Err(e) => return Err(e),
            }
        }
        Ok(records)
    }

    /// Takes what the embedded server has to send and re-frames every
    /// complete record of it for the client, in order. Call it again while
    /// `server_wants_write` holds.
    pub fn server_records(&mut self) -> (r: Result<Vec<Vec<u8>>, ShadowTlsError>)
        requires
            old(self).wf(),
        ensures
            final(self).wf(),
            final(self).session().key() == old(self).session().key(),
            final(self).session().client_message() == old(self).session().client_message(),
            final(self).session().server_message() == old(self).session().server_message(),
            final(self).received() == old(self).received(),
            old(self).pending().len() == TLS_FRAME_MAX_LEN ==> match r {
                Ok(records) => reframed_pending(
                    old(self).session().key(),
                    old(self).session().server_random_message(),
                    old(self).session().xor_key(),
                    old(self).pending(),
                ) == Ok::<(Seq<Seq<u8>>, Seq<u8>, Seq<u8>), ShadowTlsError>(
                    (
                        records_view(records@),
                        final(self).pending(),
                        final(self).session().server_random_message(),
                    ),
                ),
                Err(e) => reframed_pending(
                    old(self).session().key(),
                    old(self).session().server_random_message(),
                    old(self).session().xor_key(),
                    old(self).pending(),
                ) == Err::<(Seq<Seq<u8>>, Seq<u8>, Seq<u8>), ShadowTlsError>(e),
            },
            r matches Err(e) ==> e == ShadowTlsError::LocalTls || exists|pulled: Seq<u8>|
                reframed_pending(
                    old(self).session().key(),
                    old(self).session().server_random_message(),
                    old(self).session().xor_key(),
                    old(self).pending() + pulled,
                ) == Err::<(Seq<Seq<u8>>, Seq<u8>, Seq<u8>), ShadowTlsError>(e),
            r matches Ok(records) ==> exists|pulled: Seq<u8>|
                reframed_pending(
                    old(self).session().key(),
                    old(self).session().server_random_message(),
                    old(self).session().xor_key(),
                    old(self).pending() + pulled,
                ) == Ok::<(Seq<Seq<u8>>, Seq<u8>, Seq<u8>), ShadowTlsError>(
                    (
                        records_view(records@),
                        final(self).pending(),
                        final(self).session().server_random_message(),
                    ),
                ),
    {
        let ghost before = self.server_data.bytes();
        match self.pull_server_output() {
            Ok(()) => {},
            Err(e) => return Err(e),
        }
        let ghost pulled = self.server_data.bytes().subrange(
            before.len() as int,
            self.server_data.bytes().len() as int,
        );
        assert(before + pulled =~= self.server_data.bytes());
        let r = self.reframe_pending();
        proof {
            if before.len() == TLS_FRAME_MAX_LEN {
                assert(pulled =~= Seq::<u8>::empty());
                assert(before + pulled =~= before);
            }
            if r is Err {
                assert(reframed_pending(
                    old(self).session().key(),
                    old(self).session().server_random_message(),
                    old(self).session().xor_key(),
                    old(self).pending() + pulled,
                ) == Err::<(Seq<Seq<u8>>, Seq<u8>, Seq<u8>), ShadowTlsError>(r->Err_0));
            }
            if r is Ok {
                assert(reframed_pending(
                    old(self).session().key(),
                    old(self).session().server_random_message(),
                    old(self).session().xor_key(),
                    old(self).pending() + pulled,
                ) == Ok::<(Seq<Seq<u8>>, Seq<u8>, Seq<u8>), ShadowTlsError>(
                    (
                        records_view(r->Ok_0@),
                        self.pending(),
                        self.session().server_random_message(),
                    ),
                ));
            }
        }
        r
    }

    /// Whether the embedded server still has bytes to hand out.
    pub fn server_wants_write(&self) -> (r: bool) {
        tls_wants_write(&self.server_connection)
    }

    /// Handles one complete client record: a transition record switches to
    /// the covert channel; any other record goes to the embedded server.
    pub fn client_record(self, frame: &[u8]) -> (r: Result<LocalStep, ShadowTlsError>)
        requires
            self.wf(),
        ensures
            opened_record(self.session().key(), self.session().client_message(), frame@) is Ok
                ==> (r matches Ok(LocalStep::Transition(stream, data)) && {
                &&& stream.wf()
                &&& stream.key() == self.session().key()
                &&& opened_record(
                    self.session().key(),
                    self.session().client_message(),
                    frame@,
                ) == Ok::<Seq<u8>, ShadowTlsError>(data@)
                &&& stream.client_message() == advanced(
                    self.session().key(),
                    self.session().client_message(),
                    data@,
                )
                &&& stream.server_message() == self.session().server_message()
            }),
            !(opened_record(self.session().key(), self.session().client_message(), frame@) is Ok)
                ==> match r {
                Ok(LocalStep::Continue(next)) => next.wf() && next.session() == self.session()
                    && next.pending() == self.pending() && next.received() == self.received()
                    + frame@,
                Ok(LocalStep::Transition(_, _)) => false,
                Err(e) => e == ShadowTlsError::LocalTls,
            },
    {
        if self.session.is_transition_record(frame) {
            let (stream, data) = self.session.into_stream(frame);
            return Ok(LocalStep::Transition(stream, data));
        }
        let mut next = self;
        match feed_and_process(&mut next.server_connection, frame) {
            Ok(()) => Ok(LocalStep::Continue(next)),
            Err(e) => Err(e),
        }
    }
}

} // verus!
