//! The calls into aws-lc-rs, rustls and std that the library relies on,
//! with what each is trusted to do.

use vstd::prelude::*;
use vstd::utf8::{decode_utf8, valid_utf8};

verus! {

#[verifier::external_type_specification]
#[verifier::external_body]
pub struct ExHmacContext(aws_lc_rs::hmac::Context);

/// The key that an HMAC context was created with.
pub uninterp spec fn context_key(c: aws_lc_rs::hmac::Context) -> Seq<u8>;

/// The bytes fed into an HMAC context since it was created.
pub uninterp spec fn context_message(c: aws_lc_rs::hmac::Context) -> Seq<u8>;

/// The full HMAC-SHA1 value of `message` under `key`.
pub uninterp spec fn hmac_sha1(key: Seq<u8>, message: Seq<u8>) -> Seq<u8>;

/// The SHA-256 digest of `data`.
pub uninterp spec fn sha256(data: Seq<u8>) -> Seq<u8>;

/// Relies on aws_lc_rs::hmac::Key::new with HMAC_SHA1_FOR_LEGACY_USE_ONLY and
/// aws_lc_rs::hmac::Context::with_key: a fresh HMAC-SHA1 context keyed with
/// `key`, into which nothing has been fed yet.
#[verifier::external_body]
pub(crate) fn hmac_sha1_context(key: &[u8]) -> (r: aws_lc_rs::hmac::Context)
    ensures
        context_key(r) == key@,
        context_message(r) == Seq::<u8>::empty(),
{
    let key = aws_lc_rs::hmac::Key::new(aws_lc_rs::hmac::HMAC_SHA1_FOR_LEGACY_USE_ONLY, key);
    aws_lc_rs::hmac::Context::with_key(&key)
}

/// Relies on `Clone for aws_lc_rs::hmac::Context`: the copy holds the same key
/// and the same bytes fed so far (the underlying HMAC_CTX is copied).
#[verifier::external_body]
pub(crate) fn hmac_context_clone(c: &aws_lc_rs::hmac::Context) -> (r: aws_lc_rs::hmac::Context)
    ensures
        context_key(r) == context_key(*c),
        context_message(r) == context_message(*c),
{
    c.clone()
}

/// Relies on aws_lc_rs::hmac::Context::update: `data` is appended to the
/// bytes fed so far; the key stays.
#[verifier::external_body]
pub(crate) fn hmac_context_update(c: &mut aws_lc_rs::hmac::Context, data: &[u8])
    ensures
        context_key(*final(c)) == context_key(*old(c)),
        context_message(*final(c)) == context_message(*old(c)) + data@,
{
    c.update(data)
}

/// Relies on aws_lc_rs::hmac::Context::sign: the HMAC of the bytes fed so far
/// under the context's key; for SHA-1 the tag is 20 bytes long.
#[verifier::external_body]
pub(crate) fn hmac_context_sign(c: aws_lc_rs::hmac::Context) -> (r: Vec<u8>)
    ensures
        r@ == hmac_sha1(context_key(c), context_message(c)),
        r@.len() == 20,
{
    c.sign().as_ref().to_vec()
}

/// Relies on aws_lc_rs::digest::digest with SHA256: the 32-byte digest of
/// `data`.
#[verifier::external_body]
pub(crate) fn sha256_digest(data: &[u8]) -> (r: Vec<u8>)
    ensures
        r@ == sha256(data@),
        r@.len() == 32,
{
    aws_lc_rs::digest::digest(&aws_lc_rs::digest::SHA256, data).as_ref().to_vec()
}

/// Relies on std::str::from_utf8: it succeeds exactly on well-formed UTF-8
/// and then yields the characters that the bytes encode.
#[verifier::external_body]
pub(crate) fn utf8_to_string(bytes: &[u8]) -> (r: Option<String>)
    ensures
        r is Some == valid_utf8(bytes@),
        r matches Some(s) ==> s@ == decode_utf8(bytes@),
{
    std::str::from_utf8(bytes).ok().map(String::from)
}

#[verifier::external_type_specification]
#[verifier::external_body]
pub struct ExServerConfig(rustls::ServerConfig);

#[verifier::external_type_specification]
#[verifier::external_body]
pub struct ExServerConnection(rustls::ServerConnection);

#[verifier::external_type_specification]
#[verifier::external_body]
pub struct ExTlsError(rustls::Error);

#[verifier::external_type_specification]
#[verifier::external_body]
pub struct ExIoError(std::io::Error);

/// The TLS bytes that a server connection has taken in through `read_tls`
/// since it was made, in order.
pub uninterp spec fn tls_received(c: rustls::ServerConnection) -> Seq<u8>;

/// Relies on rustls::ServerConnection::new: a server-side TLS state machine
/// for `config`, which has read nothing yet, or the reason it cannot be
/// made.
#[verifier::external_body]
pub(crate) fn tls_server_connection(config: std::sync::Arc<rustls::ServerConfig>) -> (r: Result<
    rustls::ServerConnection,
    rustls::Error,
>)
    ensures
        r matches Ok(c) ==> tls_received(c) == Seq::<u8>::empty(),
{
    rustls::ServerConnection::new(config)
}

/// Relies on rustls::ConnectionCommon::read_tls over a fresh cursor on
/// `data`: on success it has taken in the first `n` bytes of `data`, which
/// it says; on failure it has taken in nothing.
#[verifier::external_body]
pub(crate) fn tls_read(conn: &mut rustls::ServerConnection, data: &[u8]) -> (r: Result<
    usize,
    std::io::Error,
>)
    ensures
        r matches Ok(n) ==> n <= data@.len() && tls_received(*final(conn)) == tls_received(
            *old(conn),
        ) + data@.subrange(0, n as int),
        r is Err ==> tls_received(*final(conn)) == tls_received(*old(conn)),
{
    conn.read_tls(&mut std::io::Cursor::new(data))
}

/// Relies on rustls::ConnectionCommon::process_new_packets: it processes
/// the TLS bytes read so far and reads none.
#[verifier::external_body]
pub(crate) fn tls_process_new_packets(conn: &mut rustls::ServerConnection) -> (r: Result<
    (),
    rustls::Error,
>)
    ensures
        tls_received(*final(conn)) == tls_received(*old(conn)),
{
    conn.process_new_packets().map(|_| ())
}

/// Relies on rustls::CommonState::wants_write: whether TLS bytes wait to be
/// written.
#[verifier::external_body]
pub(crate) fn tls_wants_write(conn: &rustls::ServerConnection) -> (r: bool) {
    conn.wants_write()
}

/// Relies on rustls::ConnectionCommon::write_tls over a cursor on a buffer
/// of `max` bytes: the bytes it wrote, which cannot exceed the buffer; it
/// reads nothing.
#[verifier::external_body]
pub(crate) fn tls_write(conn: &mut rustls::ServerConnection, max: usize) -> (r: Result<
    Vec<u8>,
    std::io::Error,
>)
    ensures
        r matches Ok(v) ==> v@.len() <= max,
        tls_received(*final(conn)) == tls_received(*old(conn)),
{
    let mut buf = vec![0u8; max];
    let n = conn.write_tls(&mut std::io::Cursor::new(&mut buf[..]))?;
    buf.truncate(n);
    Ok(buf)
}

} // verus!
