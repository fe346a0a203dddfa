//! Per-connection handshake state: the rolling contexts derived from the
//! server random, the re-framing of server records and the recognition of
//! the client's switch to the covert channel.

use vstd::prelude::*;

use crate::bytes::{append_bytes, be16_bytes, xor_masked, xor_with_key};
use crate::error::ShadowTlsError;
use crate::hmac::{tag_of, ShadowTlsHmac};
use crate::reader::be16_at;
use crate::server_hello::CONTENT_TYPE_APPLICATION_DATA;
use crate::stream::{
    advanced, lemma_record_round_trip, opened_record, sealed_record, ShadowTlsStream,
    MAX_RECORD_BODY_LEN,
};

verus! {

/// Label fed after the server random into the client-direction context.
pub const LABEL_CLIENT: u8 = 0x43;

/// Label fed after the server random into the server-direction context.
pub const LABEL_SERVER: u8 = 0x53;

/// What a server record becomes on its way to the client during the
/// handshake, or why it is refused. An application-data record has its
/// payload XOR-ed with `x` and prefixed with the tag of everything masked so
/// far (`message` followed by this masked payload); its length grows by
/// four. Any other record passes unchanged.
pub open spec fn reframed_server_record(
    key: Seq<u8>,
    message: Seq<u8>,
    x: Seq<u8>,
    f: Seq<u8>,
) -> Result<Seq<u8>, ShadowTlsError> {
    if f.len() < 5 {
        Err(ShadowTlsError::Truncated)
    } else if f.len() != 5 + be16_at(f, 3) {
        Err(ShadowTlsError::RecordLengthMismatch)
    } else if f[0] != CONTENT_TYPE_APPLICATION_DATA {
        Ok(f)
    } else if be16_at(f, 3) > MAX_RECORD_BODY_LEN {
        Err(ShadowTlsError::PayloadTooLarge)
    } else {
        let masked = xor_masked(f.subrange(5, f.len() as int), x);
        Ok(f.subrange(0, 3) + be16_bytes(be16_at(f, 3) + 4) + tag_of(key, message + masked) + masked)
    }
}

/// What a record of the embedded TLS server becomes on its way to the
/// client: it must be framed as TLS 1.2 (3.3), and is then re-framed as any
/// server record.
pub open spec fn local_reframed_server_record(
    key: Seq<u8>,
    message: Seq<u8>,
    x: Seq<u8>,
    f: Seq<u8>,
) -> Result<Seq<u8>, ShadowTlsError> {
    if f.len() >= 5 && !(f[1] == 3 && f[2] == 3) {
        Err(ShadowTlsError::UnsupportedVersion)
    } else {
        reframed_server_record(key, message, x, f)
    }
}

/// What the handshake-phase server context has been fed after the record
/// `f` went to the client.
pub open spec fn server_handshake_fed(message: Seq<u8>, x: Seq<u8>, f: Seq<u8>) -> Seq<u8> {
    if f[0] == CONTENT_TYPE_APPLICATION_DATA {
        message + xor_masked(f.subrange(5, f.len() as int), x)
    } else {
        message
    }
}

/// The first covert exchange of a connection whose server sent
/// `server_random`: the client's first covert record, tagged by the rule
/// under the label "C", opens to its body; the server's first covert record
/// carrying `reply` is `17 03 03`, the length of the reply plus four, the
/// tag of the server random, "S" and the reply, then the reply.
pub proof fn lemma_first_covert_exchange(
    key: Seq<u8>,
    server_random: Seq<u8>,
    request: Seq<u8>,
    reply: Seq<u8>,
)
    requires
        request.len() <= MAX_RECORD_BODY_LEN,
    ensures
        opened_record(
            key,
            server_random + seq![LABEL_CLIENT],
            seq![CONTENT_TYPE_APPLICATION_DATA, 3u8, 3u8] + be16_bytes(request.len() + 4int)
                + tag_of(key, server_random + seq![LABEL_CLIENT] + request) + request,
        ) == Ok::<Seq<u8>, ShadowTlsError>(request),
        sealed_record(key, server_random + seq![LABEL_SERVER], reply) == seq![
            CONTENT_TYPE_APPLICATION_DATA,
            3u8,
            3u8,
        ] + be16_bytes(reply.len() + 4int) + tag_of(key, server_random + seq![LABEL_SERVER] + reply)
            + reply,
{
    lemma_record_round_trip(key, server_random + seq![LABEL_CLIENT], request);
}

/// What follows a client record while the cover server answers the
/// handshake.
pub enum RemoteStep {
    /// The record is ordinary TLS: it goes to the cover server unchanged.
    Forward(HandshakeSession),
    /// The record switched the connection to the covert channel; the
    /// vector holds the first covert bytes.
    Transition(ShadowTlsStream, Vec<u8>),
}

/// The handshake state of one connection, derived from the server random:
/// the context that tags re-framed server records, the client- and
/// server-direction contexts of the covert channel, and the XOR key.
pub struct HandshakeSession {
    hmac_server_random: ShadowTlsHmac,
    hmac_client_data: ShadowTlsHmac,
    hmac_server_data: ShadowTlsHmac,
    xor_key: Vec<u8>,
}

impl HandshakeSession {
    /// The key of every context.
    pub closed spec fn key(&self) -> Seq<u8> {
        self.hmac_server_random.key()
    }

    /// What the context that tags re-framed server records has been fed.
    pub closed spec fn server_random_message(&self) -> Seq<u8> {
        self.hmac_server_random.message()
    }

    /// What the client-direction context has been fed.
    pub closed spec fn client_message(&self) -> Seq<u8> {
        self.hmac_client_data.message()
    }

    /// What the server-direction context has been fed.
    pub closed spec fn server_message(&self) -> Seq<u8> {
        self.hmac_server_data.message()
    }

    /// The key that server application-data payloads are XOR-ed with.
    pub closed spec fn xor_key(&self) -> Seq<u8> {
        self.xor_key@
    }

    pub closed spec fn wf(&self) -> bool {
        &&& self.hmac_client_data.key() == self.hmac_server_random.key()
        &&& self.hmac_server_data.key() == self.hmac_server_random.key()
        &&& self.xor_key@.len() > 0
    }

    /// Derives the contexts of a connection from the listener's initial
    /// context (`H0`), the server random and the XOR key: `H0` fed the random,
    /// then that followed by "C" and by "S".
    pub fn new(initial_hmac: &ShadowTlsHmac, server_random: &[u8], xor_key: Vec<u8>) -> (r: Self)
        requires
            xor_key@.len() > 0,
        ensures
            r.wf(),
            r.key() == initial_hmac.key(),
            r.server_random_message() == initial_hmac.message() + server_random@,
            r.client_message() == initial_hmac.message() + server_random@ + seq![LABEL_CLIENT],
            r.server_message() == initial_hmac.message() + server_random@ + seq![LABEL_SERVER],
            r.xor_key() == xor_key@,
    {
        let mut hmac_server_random = initial_hmac.fork();
        hmac_server_random.update(server_random);
        let mut hmac_client_data = hmac_server_random.fork();
        hmac_client_data.update(&[LABEL_CLIENT]);
        let mut hmac_server_data = hmac_server_random.fork();
        hmac_server_data.update(&[LABEL_SERVER]);
        HandshakeSession { hmac_server_random, hmac_client_data, hmac_server_data, xor_key }
    }

    /// Re-frames one complete server record (header included) for the
    /// client.
    pub fn reframe_server_record(&mut self, frame: &[u8]) -> (r: Result<Vec<u8>, ShadowTlsError>)
        requires
            old(self).wf(),
        ensures
            final(self).wf(),
            final(self).key() == old(self).key(),
            final(self).client_message() == old(self).client_message(),
            final(self).server_message() == old(self).server_message(),
            final(self).xor_key() == old(self).xor_key(),
            match r {
                Ok(out) => {
                    &&& reframed_server_record(
                        old(self).key(),
                        old(self).server_random_message(),
                        old(self).xor_key(),
                        frame@,
                    ) == Ok::<Seq<u8>, ShadowTlsError>(out@)
                    &&& final(self).server_random_message() == server_handshake_fed(
                        old(self).server_random_message(),
                        old(self).xor_key(),
                        frame@,
                    )
                },
                Err(e) => {
                    &&& reframed_server_record(
                        old(self).key(),
                        old(self).server_random_message(),
                        old(self).xor_key(),
                        frame@,
                    ) == Err::<Seq<u8>, ShadowTlsError>(e)
                    &&& final(self).server_random_message() == old(self).server_random_message()
                },
            },
    {
        if frame.len() < 5 {
            return Err(ShadowTlsError::Truncated);
        }
        let payload_len = frame[3] as usize * 256 + frame[4] as usize;
        if frame.len() - 5 != payload_len {
            return Err(ShadowTlsError::RecordLengthMismatch);
        }
        if frame[0] != CONTENT_TYPE_APPLICATION_DATA {
            return Ok(vstd::slice::slice_to_vec(frame));
        }
        if payload_len > MAX_RECORD_BODY_LEN {
            return Err(ShadowTlsError::PayloadTooLarge);
        }
        let ghost m0 = self.hmac_server_random.message();
        let masked = xor_with_key(&frame[5..frame.len()], self.xor_key.as_slice());
        self.hmac_server_random.update(masked.as_slice());
        let tag = self.hmac_server_random.digest();
        let len = payload_len + 4;
        let mut out: Vec<u8> = Vec::with_capacity(len + 5);
        out.push(frame[0]);
        out.push(frame[1]);
        out.push(frame[2]);
        out.push((len / 256) as u8);
        out.push((len % 256) as u8);
        append_bytes(&mut out, &tag);
        append_bytes(&mut out, masked.as_slice());
        assert(out@ =~= frame@.subrange(0, 3) + be16_bytes(be16_at(frame@, 3) + 4) + tag_of(
            self.key(),
            m0 + masked@,
        ) + masked@);
        Ok(out)
    }

    /// Re-frames one complete record produced by the embedded TLS server,
    /// which must be framed as TLS 1.2 (3.3).
    pub fn reframe_local_server_record(&mut self, frame: &[u8]) -> (r: Result<
        Vec<u8>,
        ShadowTlsError,
    >)
        requires
            old(self).wf(),
        ensures
            final(self).wf(),
            final(self).key() == old(self).key(),
            final(self).client_message() == old(self).client_message(),
            final(self).server_message() == old(self).server_message(),
            final(self).xor_key() == old(self).xor_key(),
            match r {
                Ok(out) => {
                    &&& local_reframed_server_record(
                        old(self).key(),
                        old(self).server_random_message(),
                        old(self).xor_key(),
                        frame@,
                    ) == Ok::<Seq<u8>, ShadowTlsError>(out@)
                    &&& final(self).server_random_message() == server_handshake_fed(
                        old(self).server_random_message(),
                        old(self).xor_key(),
                        frame@,
                    )
                },
                Err(e) => {
                    &&& local_reframed_server_record(
                        old(self).key(),
                        old(self).server_random_message(),
                        old(self).xor_key(),
                        frame@,
                    ) == Err::<Seq<u8>, ShadowTlsError>(e)
                    &&& final(self).server_random_message() == old(self).server_random_message()
                },
            },
    {
        if frame.len() >= 5 && !(frame[1] == 3 && frame[2] == 3) {
            return Err(ShadowTlsError::UnsupportedVersion);
        }
        self.reframe_server_record(frame)
    }

    /// Whether a complete client record (header included) is the switch to
    /// the covert channel: an application-data record whose payload starts
    /// with the client-direction tag of the rest.
    pub fn is_transition_record(&self, frame: &[u8]) -> (r: bool)
        requires
            self.wf(),
        ensures
            r == opened_record(self.key(), self.client_message(), frame@) is Ok,
    {
        if frame.len() < 9 || frame.len() - 5 != frame[3] as usize * 256 + frame[4] as usize
            || frame[0] != CONTENT_TYPE_APPLICATION_DATA {
            return false;
        }
        let mut check = self.hmac_client_data.fork();
        check.update(&frame[9..frame.len()]);
        let tag = check.finalized_digest();
        let r = tag[0] == frame[5] && tag[1] == frame[6] && tag[2] == frame[7] && tag[3] == frame[8];
        assert(r ==> frame@.subrange(5, 9) =~= tag@);
        assert(!r ==> (tag@[0] != frame@.subrange(5, 9)[0] || tag@[1] != frame@.subrange(5, 9)[1]
            || tag@[2] != frame@.subrange(5, 9)[2] || tag@[3] != frame@.subrange(5, 9)[3]));
        r
    }

    /// Switches to the covert channel on a transition record: the client
    /// context absorbs the record's body and tag, and the body is the first
    /// covert data. Re-framing of server records ends here.
    pub fn into_stream(self, frame: &[u8]) -> (r: (ShadowTlsStream, Vec<u8>))
        requires
            self.wf(),
            opened_record(self.key(), self.client_message(), frame@) is Ok,
        ensures
            r.0.wf(),
            r.0.key() == self.key(),
            opened_record(self.key(), self.client_message(), frame@) == Ok::<
                Seq<u8>,
                ShadowTlsError,
            >(r.1@),
            r.0.client_message() == advanced(self.key(), self.client_message(), r.1@),
            r.0.server_message() == self.server_message(),
    {
        let mut stream = ShadowTlsStream::new(self.hmac_client_data, self.hmac_server_data);
        let body = match stream.decode(frame) {
            Ok(body) => body,
            Err(_) => Vec::new(),
        };
        (stream, body)
    }

    /// Handles one complete client record: a transition record switches to
    /// the covert channel; any other record is to be forwarded.
    pub fn client_record(self, frame: &[u8]) -> (r: RemoteStep)
        requires
            self.wf(),
        ensures
            opened_record(self.key(), self.client_message(), frame@) is Ok ==> (r matches RemoteStep::Transition(
                stream,
                data,
            ) && {
                &&& stream.wf()
                &&& stream.key() == self.key()
                &&& opened_record(self.key(), self.client_message(), frame@) == Ok::<
                    Seq<u8>,
                    ShadowTlsError,
                >(data@)
                &&& stream.client_message() == advanced(self.key(), self.client_message(), data@)
                &&& stream.server_message() == self.server_message()
            }),
            !(opened_record(self.key(), self.client_message(), frame@) is Ok) ==> r
                == RemoteStep::Forward(self),
    {
        if self.is_transition_record(frame) {
            let (stream, data) = self.into_stream(frame);
            RemoteStep::Transition(stream, data)
        } else {
            RemoteStep::Forward(self)
        }
    }
}

} // verus!
