//! The listener-wide ShadowTLS configuration and the checks made on a
//! ClientHello before any handshake starts.

use vstd::prelude::*;
use vstd::utf8::encode_utf8;

use crate::bytes::append_bytes;
use crate::client_hello::{client_hello_view, ClientHelloView, ParsedClientHello, TLS_HEADER_LEN};
use crate::foreign::{sha256, sha256_digest};
use crate::error::ShadowTlsError;
use crate::hmac::{tag_of, ShadowTlsHmac};
use crate::session::{HandshakeSession, LABEL_CLIENT, LABEL_SERVER};

verus! {

/// A setting that may be left to someone else (`Unspecified`), switched off
/// (`Disabled`) or given (`One`).
#[derive(Debug)]
pub enum NoneOrOne<T> {
    Unspecified,
    Disabled,
    One(T),
}

impl<T> NoneOrOne<T> {
    pub fn is_unspecified(&self) -> (r: bool)
        ensures
            r == (self is Unspecified),
    {
        match self {
            NoneOrOne::Unspecified => true,
            _ => false,
        }
    }
}

/// The bytes over which a ClientHello's tag is computed: the record after
/// its header with the tag's four bytes zeroed.
pub open spec fn client_hello_tag_input(frame: Seq<u8>, start: int, end: int) -> Seq<u8> {
    frame.subrange(TLS_HEADER_LEN as int, start) + seq![0u8, 0u8, 0u8, 0u8] + frame.subrange(
        end,
        frame.len() as int,
    )
}

/// Whether a parsed ClientHello admits the covert client keyed with `key`,
/// or why not. A hello without a 32-byte session id carries no tag and fails
/// as a wrong tag does; otherwise it needs TLS 1.3 among its versions and a
/// tag equal to the tag of the record with the tag zeroed.
pub open spec fn client_hello_verdict(key: Seq<u8>, h: ClientHelloView) -> Result<
    (),
    ShadowTlsError,
> {
    match h.digest {
        None => Err(ShadowTlsError::HmacMismatch),
        Some(d) => if !h.supports_tls13 {
            Err(ShadowTlsError::NoTls13)
        } else if d.digest != tag_of(key, client_hello_tag_input(h.frame, d.start, d.end)) {
            Err(ShadowTlsError::HmacMismatch)
        } else {
            Ok(())
        },
    }
}

/// The tag rule: a ClientHello that is otherwise acceptable passes the tag
/// check under `key` exactly when the four bytes at `[72, 76)` of the record
/// (the end of its 32-byte session id) are the tag, under `key`, of the
/// record after its header with those four bytes zeroed.
pub proof fn lemma_client_hello_tag_rule(key: Seq<u8>, frame: Seq<u8>)
    requires
        client_hello_view(frame) matches Ok(h) && h.digest is Some && h.supports_tls13,
    ensures
        client_hello_view(frame) matches Ok(h) && (client_hello_verdict(key, h) is Ok
            <==> frame.subrange(72, 76) == tag_of(
            key,
            frame.subrange(5, 72) + seq![0u8, 0u8, 0u8, 0u8] + frame.subrange(76, frame.len() as int),
        )),
{
    let p = frame.subrange(5, frame.len() as int);
    assert(p.subrange(67, 71) =~= frame.subrange(72, 76));
}

/// The server name is informational: whether a ClientHello is admitted does
/// not depend on the name it requests, nor on whether it requests one.
pub proof fn lemma_server_name_ignored(
    key: Seq<u8>,
    h: ClientHelloView,
    name: Option<Seq<char>>,
)
    ensures
        client_hello_verdict(key, ClientHelloView { server_name: name, ..h })
            == client_hello_verdict(key, h),
{
}

/// A ClientHello tagged under one password is refused under another: when
/// its tag is the tag under `used`, and the tags of its tag input under
/// `used` and under `key` differ, the check under `key` fails with
/// `HmacMismatch`.
pub proof fn lemma_wrong_password_rejected(key: Seq<u8>, used: Seq<u8>, h: ClientHelloView)
    requires
        h.supports_tls13,
        h.digest matches Some(d) && d.digest == tag_of(
            used,
            client_hello_tag_input(h.frame, d.start, d.end),
        ) && tag_of(used, client_hello_tag_input(h.frame, d.start, d.end)) != tag_of(
            key,
            client_hello_tag_input(h.frame, d.start, d.end),
        ),
    ensures
        client_hello_verdict(key, h) == Err::<(), ShadowTlsError>(ShadowTlsError::HmacMismatch),
{
}

impl ParsedClientHello {
    /// The value is what parsing its own record gives.
    pub open spec fn wf(&self) -> bool {
        client_hello_view(self.client_hello_frame@) == Ok::<ClientHelloView, ShadowTlsError>(
            self@,
        )
    }
}

/// A ShadowTLS listener: the contexts seeded with its password, how the
/// TLS handshake is carried out (`H`), the handler that takes the stream
/// afterwards (`I`), and its proxy provider override (`P`).
pub struct ShadowTlsServerTarget<H, I, P> {
    initial_hmac: ShadowTlsHmac,
    password: Vec<u8>,
    handshake: H,
    handler: I,
    override_proxy_provider: NoneOrOne<P>,
}

impl<H, I, P> ShadowTlsServerTarget<H, I, P> {
    /// The password's bytes, which key every HMAC context and seed the XOR
    /// key.
    pub closed spec fn key(&self) -> Seq<u8> {
        self.password@
    }

    pub closed spec fn wf(&self) -> bool {
        &&& self.initial_hmac.key() == self.password@
        &&& self.initial_hmac.message() == Seq::<u8>::empty()
    }

    pub closed spec fn spec_handshake(&self) -> H {
        self.handshake
    }

    pub closed spec fn spec_handler(&self) -> I {
        self.handler
    }

    pub closed spec fn spec_override_proxy_provider(&self) -> NoneOrOne<P> {
        self.override_proxy_provider
    }

    /// A listener whose HMAC key is the UTF-8 encoding of `password`.
    pub fn new(
        password: String,
        handshake: H,
        handler: I,
        override_proxy_provider: NoneOrOne<P>,
    ) -> (r: Self)
        ensures
            r.wf(),
            r.key() == encode_utf8(password@),
            r.spec_handshake() == handshake,
            r.spec_handler() == handler,
            r.spec_override_proxy_provider() == override_proxy_provider,
    {
        let password_bytes = vstd::slice::slice_to_vec(password.as_str().as_bytes());
        let initial_hmac = ShadowTlsHmac::new(password_bytes.as_slice());
        ShadowTlsServerTarget {
            initial_hmac,
            password: password_bytes,
            handshake,
            handler,
            override_proxy_provider,
        }
    }

    pub fn handshake(&self) -> (r: &H)
        ensures
            *r == self.spec_handshake(),
    {
        &self.handshake
    }

    pub fn handler(&self) -> (r: &I)
        ensures
            *r == self.spec_handler(),
    {
        &self.handler
    }

    pub fn override_proxy_provider(&self) -> (r: &NoneOrOne<P>)
        ensures
            *r == self.spec_override_proxy_provider(),
    {
        &self.override_proxy_provider
    }

    /// Checks a parsed ClientHello: the covert marker, TLS 1.3 and the tag.
    pub fn verify_client_hello(&self, hello: &ParsedClientHello) -> (r: Result<(), ShadowTlsError>)
        requires
            self.wf(),
            hello.wf(),
        ensures
            r == client_hello_verdict(self.key(), hello@),
    {
        let digest = match &hello.parsed_digest {
            Some(d) => d,
            None => return Err(ShadowTlsError::HmacMismatch),
        };
        if !hello.supports_tls13 {
            return Err(ShadowTlsError::NoTls13);
        }
        let frame = hello.client_hello_frame.as_slice();
        let start = digest.client_hello_digest_start_index;
        let end = digest.client_hello_digest_end_index;
        assert(start == 72 && end == 76 && frame@.len() >= 76);
        let mut check = self.initial_hmac.fork();
        check.update(&frame[TLS_HEADER_LEN..start]);
        check.update(&[0u8, 0u8, 0u8, 0u8]);
        check.update(&frame[end..frame.len()]);
        let tag = check.finalized_digest();
        assert(check.message() =~= client_hello_tag_input(frame@, start as int, end as int));
        let candidate = &digest.client_hello_digest;
        assert(candidate@ == frame@.subrange(72, 76));
        let same = candidate[0] == tag[0] && candidate[1] == tag[1] && candidate[2] == tag[2]
            && candidate[3] == tag[3];
        if !same {
            assert(candidate@[0] != tag@[0] || candidate@[1] != tag@[1] || candidate@[2] != tag@[2]
                || candidate@[3] != tag@[3]);
            return Err(ShadowTlsError::HmacMismatch);
        }
        assert(candidate@ =~= tag@);
        Ok(())
    }

    /// The handshake state of a connection whose server sent
    /// `server_random`: the XOR key is the SHA-256 of the password followed
    /// by the server random.
    pub fn start_session(&self, server_random: &[u8]) -> (r: HandshakeSession)
        requires
            self.wf(),
        ensures
            r.wf(),
            r.key() == self.key(),
            r.server_random_message() == server_random@,
            r.client_message() == server_random@ + seq![LABEL_CLIENT],
            r.server_message() == server_random@ + seq![LABEL_SERVER],
            r.xor_key() == sha256(self.key() + server_random@),
    {
        let mut seed = self.password.clone();
        append_bytes(&mut seed, server_random);
        let xor_key = sha256_digest(seed.as_slice());
        assert(Seq::<u8>::empty() + server_random@ =~= server_random@);
        HandshakeSession::new(&self.initial_hmac, server_random, xor_key)
    }
}

} // verus!
