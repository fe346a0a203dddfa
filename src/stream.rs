//! The record codec used once the client has switched to the covert
//! channel.

use vstd::prelude::*;

use crate::bytes::{append_bytes, be16_bytes};
use crate::error::ShadowTlsError;
use crate::hmac::{tag_of, ShadowTlsHmac};
use crate::reader::be16_at;
use crate::server_hello::CONTENT_TYPE_APPLICATION_DATA;

verus! {

/// The largest body that a record can carry beside its 4-byte tag within a
/// 16-bit length field.
pub const MAX_RECORD_BODY_LEN: usize = 65531;

/// The tag of `body` when the rolling context has been fed `message`.
pub open spec fn record_tag(key: Seq<u8>, message: Seq<u8>, body: Seq<u8>) -> Seq<u8> {
    tag_of(key, message + body)
}

/// What the rolling context has been fed after `body` went out or came in:
/// the body, then its own tag.
pub open spec fn advanced(key: Seq<u8>, message: Seq<u8>, body: Seq<u8>) -> Seq<u8> {
    message + body + record_tag(key, message, body)
}

/// The record that carries `body`:
/// `0x17 0x03 0x03 be16(|body| + 4) tag body`.
pub open spec fn sealed_record(key: Seq<u8>, message: Seq<u8>, body: Seq<u8>) -> Seq<u8> {
    seq![CONTENT_TYPE_APPLICATION_DATA, 3u8, 3u8] + be16_bytes(body.len() + 4int) + record_tag(
        key,
        message,
        body,
    ) + body
}

/// The body of the record `f`, or why it is refused: it must be a complete
/// application-data record whose payload starts with the tag of the rest.
pub open spec fn opened_record(key: Seq<u8>, message: Seq<u8>, f: Seq<u8>) -> Result<
    Seq<u8>,
    ShadowTlsError,
> {
    if f.len() < 5 {
        Err(ShadowTlsError::Truncated)
    } else if f.len() != 5 + be16_at(f, 3) {
        Err(ShadowTlsError::RecordLengthMismatch)
    } else if f[0] != CONTENT_TYPE_APPLICATION_DATA {
        Err(ShadowTlsError::UnexpectedContentType)
    } else if f.len() < 9 {
        Err(ShadowTlsError::Truncated)
    } else if f.subrange(5, 9) != record_tag(key, message, f.subrange(9, f.len() as int)) {
        Err(ShadowTlsError::HmacMismatch)
    } else {
        Ok(f.subrange(9, f.len() as int))
    }
}

/// The records that carry `bodies` in order, from a context fed `message`.
pub open spec fn sealed_records(key: Seq<u8>, message: Seq<u8>, bodies: Seq<Seq<u8>>) -> Seq<
    Seq<u8>,
>
    decreases bodies.len(),
{
    if bodies.len() == 0 {
        Seq::empty()
    } else {
        seq![sealed_record(key, message, bodies[0])] + sealed_records(
            key,
            advanced(key, message, bodies[0]),
            bodies.drop_first(),
        )
    }
}

/// What a context fed `message` has been fed after `bodies` went through it.
pub open spec fn advanced_all(key: Seq<u8>, message: Seq<u8>, bodies: Seq<Seq<u8>>) -> Seq<u8>
    decreases bodies.len(),
{
    if bodies.len() == 0 {
        message
    } else {
        advanced_all(key, advanced(key, message, bodies[0]), bodies.drop_first())
    }
}

/// The bodies of `records` read in order from a context fed `message`, with
/// what the context has been fed afterwards; or the first refusal.
pub open spec fn opened_records(key: Seq<u8>, message: Seq<u8>, records: Seq<Seq<u8>>) -> Result<
    (Seq<Seq<u8>>, Seq<u8>),
    ShadowTlsError,
>
    decreases records.len(),
{
    if records.len() == 0 {
        Ok((Seq::empty(), message))
    } else {
        match opened_record(key, message, records[0]) {
            Err(e) => Err(e),
            Ok(body) => match opened_records(
                key,
                advanced(key, message, body),
                records.drop_first(),
            ) {
                Err(e) => Err(e),
                Ok(rest) => Ok((seq![body] + rest.0, rest.1)),
            },
        }
    }
}

/// A record sealed from a context is opened by a context fed the same
/// bytes under the same key, and yields the body that was sealed.
pub proof fn lemma_record_round_trip(key: Seq<u8>, message: Seq<u8>, body: Seq<u8>)
    requires
        body.len() <= MAX_RECORD_BODY_LEN,
    ensures
        opened_record(key, message, sealed_record(key, message, body)) == Ok::<
            Seq<u8>,
            ShadowTlsError,
        >(body),
{
    let f = sealed_record(key, message, body);
    let n = body.len() + 4;
    assert(f.len() == 9 + body.len());
    assert(f[3] == (n / 256) as u8 && f[4] == (n % 256) as u8);
    assert((n / 256) as u8 as int * 256 + (n % 256) as u8 as int == n) by (nonlinear_arith)
        requires
            0 <= n < 65536,
    ;
    assert(f.subrange(5, 9) =~= record_tag(key, message, body));
    assert(f.subrange(9, f.len() as int) =~= body);
}

/// Sealing a series of bodies and opening the records in the same order
/// recovers the bodies byte for byte, and leaves the reading context fed
/// exactly what the writing context was fed.
pub proof fn lemma_records_round_trip(key: Seq<u8>, message: Seq<u8>, bodies: Seq<Seq<u8>>)
    requires
        forall|i: int| 0 <= i < bodies.len() ==> (#[trigger] bodies[i]).len() <= MAX_RECORD_BODY_LEN,
    ensures
        opened_records(key, message, sealed_records(key, message, bodies)) == Ok::<
            (Seq<Seq<u8>>, Seq<u8>),
            ShadowTlsError,
        >((bodies, advanced_all(key, message, bodies))),
    decreases bodies.len(),
{
    if bodies.len() > 0 {
        let rest = bodies.drop_first();
        let next = advanced(key, message, bodies[0]);
        assert forall|i: int| 0 <= i < rest.len() implies (#[trigger] rest[i]).len()
            <= MAX_RECORD_BODY_LEN by {
            assert(rest[i] == bodies[i + 1]);
        }
        lemma_record_round_trip(key, message, bodies[0]);
        lemma_records_round_trip(key, next, rest);
        let records = sealed_records(key, message, bodies);
        assert(records[0] == sealed_record(key, message, bodies[0]));
        assert(records.drop_first() =~= sealed_records(key, next, rest));
        assert(seq![bodies[0]] + rest =~= bodies);
    } else {
        assert(bodies =~= Seq::<Seq<u8>>::empty());
    }
}

/// Rolling tags: the tag of the second of two consecutive records is the
/// tag of everything the direction has carried, which is the context's
/// initial bytes (the server random and the direction's label), the first
/// body, the first tag and the second body.
pub proof fn lemma_consecutive_tags(
    key: Seq<u8>,
    message: Seq<u8>,
    first: Seq<u8>,
    second: Seq<u8>,
)
    ensures
        ({
            let t1 = record_tag(key, message, first);
            let r2 = sealed_record(key, advanced(key, message, first), second);
            r2.subrange(5, 9) == tag_of(key, message + first + t1 + second)
        }),
{
    let t1 = record_tag(key, message, first);
    let m1 = advanced(key, message, first);
    let r2 = sealed_record(key, m1, second);
    assert(r2.subrange(5, 9) =~= tag_of(key, m1 + second));
}

/// Both directions of the covert channel: the client's rolling context,
/// which checks inbound records, and the server's, which tags outbound ones.
pub struct ShadowTlsStream {
    hmac_client: ShadowTlsHmac,
    hmac_server: ShadowTlsHmac,
}

impl ShadowTlsStream {
    /// The key of both contexts.
    pub closed spec fn key(&self) -> Seq<u8> {
        self.hmac_server.key()
    }

    /// What the client-direction context has been fed.
    pub closed spec fn client_message(&self) -> Seq<u8> {
        self.hmac_client.message()
    }

    /// What the server-direction context has been fed.
    pub closed spec fn server_message(&self) -> Seq<u8> {
        self.hmac_server.message()
    }

    pub closed spec fn wf(&self) -> bool {
        self.hmac_client.key() == self.hmac_server.key()
    }

    /// A codec over two contexts that share a key.
    pub fn new(hmac_client: ShadowTlsHmac, hmac_server: ShadowTlsHmac) -> (r: Self)
        requires
            hmac_client.key() == hmac_server.key(),
        ensures
            r.wf(),
            r.key() == hmac_server.key(),
            r.client_message() == hmac_client.message(),
            r.server_message() == hmac_server.message(),
    {
        ShadowTlsStream { hmac_client, hmac_server }
    }

    /// The record that carries `body` to the client; the server context is
    /// then fed the body and the tag.
    pub fn encode(&mut self, body: &[u8]) -> (r: Result<Vec<u8>, ShadowTlsError>)
        requires
            old(self).wf(),
        ensures
            final(self).wf(),
            final(self).key() == old(self).key(),
            final(self).client_message() == old(self).client_message(),
            match r {
                Ok(record) => {
                    &&& body@.len() <= MAX_RECORD_BODY_LEN
                    &&& record@ == sealed_record(old(self).key(), old(self).server_message(), body@)
                    &&& final(self).server_message() == advanced(
                        old(self).key(),
                        old(self).server_message(),
                        body@,
                    )
                },
                Err(e) => {
                    &&& body@.len() > MAX_RECORD_BODY_LEN
                    &&& e == ShadowTlsError::PayloadTooLarge
                    &&& final(self).server_message() == old(self).server_message()
                },
            },
    {
        if body.len() > MAX_RECORD_BODY_LEN {
            return Err(ShadowTlsError::PayloadTooLarge);
        }
        let ghost m0 = self.hmac_server.message();
        let len = body.len() + 4;
        let mut record: Vec<u8> = Vec::with_capacity(len + 5);
        record.push(CONTENT_TYPE_APPLICATION_DATA);
        record.push(3);
        record.push(3);
        record.push((len / 256) as u8);
        record.push((len % 256) as u8);
        self.hmac_server.update(body);
        let tag = self.hmac_server.digest();
        self.hmac_server.update(&tag);
        append_bytes(&mut record, &tag);
        append_bytes(&mut record, body);
        assert(record@ =~= sealed_record(self.key(), m0, body@));
        Ok(record)
    }

    /// The body of an inbound record, checked against the client context,
    /// which is then fed the body and the tag. A refused record leaves the
    /// context as it was.
    pub fn decode(&mut self, frame: &[u8]) -> (r: Result<Vec<u8>, ShadowTlsError>)
        requires
            old(self).wf(),
        ensures
            final(self).wf(),
            final(self).key() == old(self).key(),
            final(self).server_message() == old(self).server_message(),
            match r {
                Ok(body) => {
                    &&& opened_record(old(self).key(), old(self).client_message(), frame@) == Ok::<
                        Seq<u8>,
                        ShadowTlsError,
                    >(body@)
                    &&& final(self).client_message() == advanced(
                        old(self).key(),
                        old(self).client_message(),
                        body@,
                    )
                },
                Err(e) => {
                    &&& opened_record(old(self).key(), old(self).client_message(), frame@) == Err::<
                        Seq<u8>,
                        ShadowTlsError,
                    >(e)
                    &&& final(self).client_message() == old(self).client_message()
                },
            },
    {
        if frame.len() < 5 {
            return Err(ShadowTlsError::Truncated);
        }
        if frame.len() - 5 != frame[3] as usize * 256 + frame[4] as usize {
            return Err(ShadowTlsError::RecordLengthMismatch);
        }
        if frame[0] != CONTENT_TYPE_APPLICATION_DATA {
            return Err(ShadowTlsError::UnexpectedContentType);
        }
        if frame.len() < 9 {
            return Err(ShadowTlsError::Truncated);
        }
        let body = &frame[9..frame.len()];
        let mut check = self.hmac_client.fork();
        check.update(body);
        let tag = check.finalized_digest();
        if !(tag[0] == frame[5] && tag[1] == frame[6] && tag[2] == frame[7] && tag[3] == frame[8]) {
            assert(tag@[0] != frame@.subrange(5, 9)[0] || tag@[1] != frame@.subrange(5, 9)[1]
                || tag@[2] != frame@.subrange(5, 9)[2] || tag@[3] != frame@.subrange(5, 9)[3]);
            return Err(ShadowTlsError::HmacMismatch);
        }
        assert(frame@.subrange(5, 9) =~= tag@);
        self.hmac_client.update(body);
        self.hmac_client.update(&tag);
        Ok(vstd::slice::slice_to_vec(body))
    }

    /// The covert channel carries no ping messages.
    pub fn supports_ping(&self) -> (r: bool)
        ensures
            !r,
    {
        false
    }
}

} // verus!
