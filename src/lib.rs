//! Server side of the ShadowTLS v3 handshake and record framing.
//!
//! The library holds the byte-level logic of a ShadowTLS listener: parsing
//! of the TLS hello messages, verification of the client's session-id tag,
//! re-framing of server records during the handshake, recognition of the
//! client's switch to the covert channel, and the rolling-MAC record codec
//! used afterwards. Sockets and timers stay with the caller, which hands
//! complete records in and sends the records it gets back.

mod bytes;
mod client_hello;
mod error;
mod foreign;
mod frame_buffer;
mod hmac;
mod local;
mod reader;
mod server_hello;
mod session;
mod setup;
mod stream;
mod target;

pub use crate::bytes::{be16_bytes, xor_masked};
pub use crate::client_hello::{
    client_extensions_walk, client_hello_tail, client_hello_view, name_view, offers_tls13,
    parse_client_hello, ClientHelloDigestView, ClientHelloView, ParsedClientHello,
    ParsedClientHelloDigest, TLS_HEADER_LEN,
};
pub use crate::error::ShadowTlsError;
pub use crate::foreign::{context_key, context_message, hmac_sha1, sha256};
pub use crate::frame_buffer::{
    leading_frame_len, lemma_connection_storage, FrameBuffer, TLS_FRAME_MAX_LEN,
};
pub use crate::hmac::{tag_of, ShadowTlsHmac};
pub use crate::local::{
    feed_server_connection, records_view, reframed_pending, LocalHandshake, LocalStep,
};
pub use crate::reader::{be16_at, be24_at};
pub use crate::server_hello::{
    hello_retry_random, parse_server_hello, server_extensions_walk, server_hello_random,
    ParsedServerHello, CONTENT_TYPE_APPLICATION_DATA, CONTENT_TYPE_HANDSHAKE,
    HANDSHAKE_TYPE_CLIENT_HELLO, HANDSHAKE_TYPE_SERVER_HELLO, RETRY_REQUEST_RANDOM_BYTES,
};
pub use crate::session::{
    local_reframed_server_record, reframed_server_record, server_handshake_fed, HandshakeSession,
    lemma_first_covert_exchange, RemoteStep, LABEL_CLIENT, LABEL_SERVER,
};
pub use crate::setup::TcpServerSetupResult;
pub use crate::stream::{
    advanced, advanced_all, lemma_consecutive_tags, lemma_record_round_trip,
    lemma_records_round_trip, opened_record, opened_records, record_tag, sealed_record,
    sealed_records, ShadowTlsStream, MAX_RECORD_BODY_LEN,
};
pub use crate::target::{
    client_hello_tag_input, client_hello_verdict, lemma_client_hello_tag_rule,
    lemma_server_name_ignored, lemma_wrong_password_rejected, NoneOrOne,
    ShadowTlsServerTarget,
};
