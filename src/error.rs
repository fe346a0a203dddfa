//! Why a handshake or a record was refused.

use vstd::prelude::*;

verus! {

/// The reasons for which the library refuses a hello message, a record or
/// a connection. Every one of them is an invalid-data failure of the
/// connection that it occurs on.
#[derive(Clone, Copy, Debug, PartialEq, Eq, Structural)]
pub enum ShadowTlsError {
    /// The bytes end before a field that has to be there.
    Truncated,
    /// A record's length field disagrees with the bytes that carry it.
    RecordLengthMismatch,
    /// The record is not of the content type that is expected here.
    UnexpectedContentType,
    /// The handshake message is not of the type that is expected here.
    UnexpectedHandshakeType,
    /// The handshake message length is not the record payload length less four.
    MessageLengthMismatch,
    /// A protocol version field holds a value that is not accepted.
    UnsupportedVersion,
    /// The ServerHello is a HelloRetryRequest.
    HelloRetryRequest,
    /// The ServerHello's session id is not 32 bytes long.
    InvalidSessionIdLength,
    /// The ServerHello has no supported_versions extension.
    MissingSupportedVersions,
    /// The ClientHello names more than one server.
    MultipleServerNames,
    /// The ClientHello's server name is not of the host-name type.
    InvalidServerNameType,
    /// The ClientHello's server name is not UTF-8.
    InvalidServerName,
    /// The ClientHello's supported_versions list has an odd length.
    OddVersionListLength,
    /// The ClientHello does not offer TLS 1.3.
    NoTls13,
    /// The tag of a ClientHello or of a record does not verify, or a
    /// ClientHello carries no 32-byte session id and so no tag.
    HmacMismatch,
    /// A payload is too large to carry a tag in a 16-bit length field.
    PayloadTooLarge,
    /// The embedded TLS server refused its input or could not produce its
    /// output.
    LocalTls,
    /// The embedded TLS server has nothing to send after the ClientHello.
    LocalTlsSilent,
}

} // verus!
