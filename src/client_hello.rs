//! Parsing of the ClientHello that opens a connection.

use vstd::prelude::*;
use vstd::utf8::{decode_utf8, valid_utf8};

use crate::foreign::utf8_to_string;
use crate::error::ShadowTlsError;
use crate::reader::{be16_at, be24_at, ByteReader};
use crate::server_hello::{
    CONTENT_TYPE_HANDSHAKE, EXTENSION_SUPPORTED_VERSIONS, HANDSHAKE_TYPE_CLIENT_HELLO,
};

verus! {

/// Length of a TLS record header.
pub const TLS_HEADER_LEN: usize = 5;

/// Extension type of server_name.
pub const EXTENSION_SERVER_NAME: u16 = 0x0000;

/// Where the candidate tag of a ClientHello lies, and what it holds.
pub struct ClientHelloDigestView {
    pub digest: Seq<u8>,
    pub start: int,
    pub end: int,
}

/// What a ClientHello record says, as far as the handshake needs it.
pub struct ClientHelloView {
    pub frame: Seq<u8>,
    pub record_major: u8,
    pub record_minor: u8,
    pub content_major: u8,
    pub content_minor: u8,
    pub digest: Option<ClientHelloDigestView>,
    pub server_name: Option<Seq<char>>,
    pub supports_tls13: bool,
}

/// Whether a supported_versions list holds TLS 1.3 (0x0304) at an even
/// offset.
pub open spec fn offers_tls13(v: Seq<u8>) -> bool {
    exists|k: int| 0 <= k && k + 1 < v.len() && k % 2 == 0 && #[trigger] v[k] == 3 && v[k + 1] == 4
}

/// Walks the ClientHello extensions from `pos` on, with the server name and
/// the TLS 1.3 flag found so far. A server_name extension is read by its
/// inner fields (one host name, UTF-8, at most one such extension); a
/// supported_versions extension by its list; every other extension is
/// skipped by its length.
pub open spec fn client_extensions_walk(
    e: Seq<u8>,
    pos: int,
    name: Option<Seq<char>>,
    tls13: bool,
) -> Result<(Option<Seq<char>>, bool), ShadowTlsError>
    decreases e.len() - pos,
{
    if pos < 0 || pos >= e.len() {
        Ok((name, tls13))
    } else if pos + 4 > e.len() {
        Err(ShadowTlsError::Truncated)
    } else if be16_at(e, pos) == 0 {
        let q = pos + 4;
        if name is Some {
            Err(ShadowTlsError::MultipleServerNames)
        } else if q + 3 > e.len() {
            Err(ShadowTlsError::Truncated)
        } else if e[q + 2] != 0 {
            Err(ShadowTlsError::InvalidServerNameType)
        } else if q + 5 + be16_at(e, q + 3) > e.len() {
            Err(ShadowTlsError::Truncated)
        } else if !valid_utf8(e.subrange(q + 5, q + 5 + be16_at(e, q + 3))) {
            Err(ShadowTlsError::InvalidServerName)
        } else {
            client_extensions_walk(
                e,
                q + 5 + be16_at(e, q + 3),
                Some(decode_utf8(e.subrange(q + 5, q + 5 + be16_at(e, q + 3)))),
                tls13,
            )
        }
    } else if be16_at(e, pos) == 0x2b {
        let q = pos + 4;
        if q + 1 > e.len() {
            Err(ShadowTlsError::Truncated)
        } else if e[q] % 2 != 0 {
            Err(ShadowTlsError::OddVersionListLength)
        } else if q + 1 + e[q] > e.len() {
            Err(ShadowTlsError::Truncated)
        } else {
            client_extensions_walk(
                e,
                q + 1 + e[q],
                name,
                tls13 || offers_tls13(e.subrange(q + 1, q + 1 + e[q])),
            )
        }
    } else if pos + 4 + be16_at(e, pos + 2) > e.len() {
        Err(ShadowTlsError::Truncated)
    } else {
        client_extensions_walk(e, pos + 4 + be16_at(e, pos + 2), name, tls13)
    }
}

/// The part of a ClientHello payload `p` after the session id, which ends
/// at `pos`: cipher suites and compression methods, skipped by their
/// lengths, then the extensions block, walked.
pub open spec fn client_hello_tail(p: Seq<u8>, pos: int) -> Result<
    (Option<Seq<char>>, bool),
    ShadowTlsError,
> {
    let suites_end = pos + 2 + be16_at(p, pos);
    let methods_end = suites_end + 1 + p[suites_end];
    let extensions_end = methods_end + 2 + be16_at(p, methods_end);
    if p.len() < pos + 2 || p.len() < suites_end || p.len() < suites_end + 1
        || p.len() < methods_end || p.len() < methods_end + 2 || p.len() < extensions_end {
        Err(ShadowTlsError::Truncated)
    } else {
        client_extensions_walk(p.subrange(methods_end + 2, extensions_end), 0, None, false)
    }
}

/// What the ClientHello record `f` (header included) says, or why it is
/// refused. The record must be a handshake record of version 3.1 holding a
/// ClientHello of version 3.3. A 32-byte session id carries the candidate tag in its last four
/// bytes, which lie at `[72, 76)` of the record.
pub open spec fn client_hello_view(f: Seq<u8>) -> Result<ClientHelloView, ShadowTlsError> {
    let p = f.subrange(5, f.len() as int);
    if f.len() < 5 {
        Err(ShadowTlsError::Truncated)
    } else if f[0] != CONTENT_TYPE_HANDSHAKE {
        Err(ShadowTlsError::UnexpectedContentType)
    } else if f[1] != 3 || f[2] != 1 {
        Err(ShadowTlsError::UnsupportedVersion)
    } else if f.len() != 5 + be16_at(f, 3) {
        Err(ShadowTlsError::RecordLengthMismatch)
    } else if p.len() < 1 {
        Err(ShadowTlsError::Truncated)
    } else if p[0] != HANDSHAKE_TYPE_CLIENT_HELLO {
        Err(ShadowTlsError::UnexpectedHandshakeType)
    } else if p.len() < 4 {
        Err(ShadowTlsError::Truncated)
    } else if be24_at(p, 1) + 4 != p.len() {
        Err(ShadowTlsError::MessageLengthMismatch)
    } else if p.len() < 6 {
        Err(ShadowTlsError::Truncated)
    } else if !(p[4] == 3 && p[5] == 3) {
        Err(ShadowTlsError::UnsupportedVersion)
    } else if p.len() < 39 || p.len() < 39 + p[38] {
        Err(ShadowTlsError::Truncated)
    } else {
        match client_hello_tail(p, 39 + p[38]) {
            Err(e) => Err(e),
            Ok(found) => Ok(
                ClientHelloView {
                    frame: f,
                    record_major: f[1],
                    record_minor: f[2],
                    content_major: p[4],
                    content_minor: p[5],
                    digest: if p[38] == 32 {
                        Some(
                            ClientHelloDigestView {
                                digest: p.subrange(67, 71),
                                start: 72,
                                end: 76,
                            },
                        )
                    } else {
                        None
                    },
                    server_name: found.0,
                    supports_tls13: found.1,
                },
            ),
        }
    }
}

/// Where the candidate tag of a ClientHello lies, and what it holds.
pub struct ParsedClientHelloDigest {
    pub client_hello_digest: Vec<u8>,
    pub client_hello_digest_start_index: usize,
    pub client_hello_digest_end_index: usize,
}

/// A ClientHello record and what the handshake reads from it.
pub struct ParsedClientHello {
    pub client_hello_frame: Vec<u8>,
    pub client_hello_record_legacy_version_major: u8,
    pub client_hello_record_legacy_version_minor: u8,
    pub client_hello_content_version_major: u8,
    pub client_hello_content_version_minor: u8,
    pub parsed_digest: Option<ParsedClientHelloDigest>,
    pub requested_server_name: Option<String>,
    pub supports_tls13: bool,
}

impl View for ParsedClientHelloDigest {
    type V = ClientHelloDigestView;

    open spec fn view(&self) -> ClientHelloDigestView {
        ClientHelloDigestView {
            digest: self.client_hello_digest@,
            start: self.client_hello_digest_start_index as int,
            end: self.client_hello_digest_end_index as int,
        }
    }
}

impl View for ParsedClientHello {
    type V = ClientHelloView;

    open spec fn view(&self) -> ClientHelloView {
        ClientHelloView {
            frame: self.client_hello_frame@,
            record_major: self.client_hello_record_legacy_version_major,
            record_minor: self.client_hello_record_legacy_version_minor,
            content_major: self.client_hello_content_version_major,
            content_minor: self.client_hello_content_version_minor,
            digest: match self.parsed_digest {
                Some(d) => Some(d@),
                None => None,
            },
            server_name: name_view(self.requested_server_name),
            supports_tls13: self.supports_tls13,
        }
    }
}

/// The characters of an optional server name.
pub open spec fn name_view(name: Option<String>) -> Option<Seq<char>> {
    match name {
        Some(s) => Some(s@),
        None => None,
    }
}

/// Whether an even-length supported_versions list holds 0x0304.
fn lists_tls13(list: &[u8]) -> (r: bool)
    requires
        list@.len() % 2 == 0,
    ensures
        r == offers_tls13(list@),
{
    let mut i: usize = 0;
    while i < list.len()
        invariant
            i % 2 == 0,
            i <= list@.len(),
            list@.len() % 2 == 0,
            forall|k: int|
                0 <= k && k < i && k % 2 == 0 ==> !(#[trigger] list@[k] == 3 && list@[k + 1] == 4),
        decreases list@.len() - i,
    {
        if list[i] == 3 && list[i + 1] == 4 {
            assert(0 <= i && i + 1 < list@.len() && i % 2 == 0 && list@[i as int] == 3 && list@[i
                + 1] == 4);
            return true;
        }
        i = i + 2;
    }
    false
}

/// Walks the extensions block of a ClientHello and returns the requested
/// server name and whether TLS 1.3 is offered.
#[verifier::rlimit(60)]
fn walk_client_extensions(extensions: &[u8]) -> (r: Result<(Option<String>, bool), ShadowTlsError>)
    ensures
        match r {
            Ok(found) => client_extensions_walk(extensions@, 0, None, false) == Ok::<
                (Option<Seq<char>>, bool),
                ShadowTlsError,
            >((name_view(found.0), found.1)),
            Err(e) => client_extensions_walk(extensions@, 0, None, false) == Err::<
                (Option<Seq<char>>, bool),
                ShadowTlsError,
            >(e),
        },
{
    let mut rd = ByteReader::new(extensions);
    let mut name: Option<String> = None;
    let mut tls13 = false;
    while !rd.is_consumed()
        invariant
            rd.wf(),
            rd.data() == extensions@,
            client_extensions_walk(extensions@, 0, None, false) == client_extensions_walk(
                extensions@,
                rd.pos(),
                name_view(name),
                tls13,
            ),
        decreases extensions@.len() - rd.pos(),
    {
        let extension_type = match rd.read_u16_be() {
            Ok(v) => v,
            Err(e) => return Err(e),
        };
        let extension_len = match rd.read_u16_be() {
            Ok(v) => v,
            Err(e) => return Err(e),
        };
        if extension_type == EXTENSION_SERVER_NAME {
            if name.is_some() {
                return Err(ShadowTlsError::MultipleServerNames);
            }
            match rd.read_u16_be() {
                Ok(_) => {},
                Err(e) => return Err(e),
            }
            let name_type = match rd.read_u8() {
                Ok(v) => v,
                Err(e) => return Err(e),
            };
            if name_type != 0 {
                return Err(ShadowTlsError::InvalidServerNameType);
            }
            let name_len = match rd.read_u16_be() {
                Ok(v) => v,
                Err(e) => return Err(e),
            };
            let name_bytes = match rd.read_slice(name_len as usize) {
                Ok(v) => v,
                Err(e) => return Err(e),
            };
            match utf8_to_string(name_bytes) {
                Some(s) => {
                    name = Some(s);
                },
                None => return Err(ShadowTlsError::InvalidServerName),
            }
        } else if extension_type == EXTENSION_SUPPORTED_VERSIONS {
            let list_len = match rd.read_u8() {
                Ok(v) => v,
                Err(e) => return Err(e),
            };
            if list_len % 2 != 0 {
                return Err(ShadowTlsError::OddVersionListLength);
            }
            let list = match rd.read_slice(list_len as usize) {
                Ok(v) => v,
                Err(e) => return Err(e),
            };
            if lists_tls13(list) {
                tls13 = true;
            }
        } else {
            match rd.skip(extension_len as usize) {
                Ok(()) => {},
                Err(e) => return Err(e),
            }
        }
    }
    Ok((name, tls13))
}

/// Reads what follows the session id of a ClientHello payload.
fn read_client_hello_tail(rd: &mut ByteReader) -> (r: Result<(Option<String>, bool), ShadowTlsError>)
    requires
        old(rd).wf(),
    ensures
        match r {
            Ok(found) => client_hello_tail(old(rd).data(), old(rd).pos()) == Ok::<
                (Option<Seq<char>>, bool),
                ShadowTlsError,
            >((name_view(found.0), found.1)),
            Err(e) => client_hello_tail(old(rd).data(), old(rd).pos()) == Err::<
                (Option<Seq<char>>, bool),
                ShadowTlsError,
            >(e),
        },
{
    let cipher_suites_len = match rd.read_u16_be() {
        Ok(v) => v,
        Err(e) => return Err(e),
    };
    match rd.skip(cipher_suites_len as usize) {
        Ok(()) => {},
        Err(e) => return Err(e),
    }
    let compression_methods_len = match rd.read_u8() {
        Ok(v) => v,
        Err(e) => return Err(e),
    };
    match rd.skip(compression_methods_len as usize) {
        Ok(()) => {},
        Err(e) => return Err(e),
    }
    let extensions_len = match rd.read_u16_be() {
        Ok(v) => v,
        Err(e) => return Err(e),
    };
    let extensions = match rd.read_slice(extensions_len as usize) {
        Ok(v) => v,
        Err(e) => return Err(e),
    };
    walk_client_extensions(extensions)
}

/// Parses a ClientHello record, header included: the record type and
/// version (3.1), the handshake type, the message length, the version (3.3), the session id (whose last four bytes are
/// the candidate tag when it is 32 bytes long), and the server_name and
/// supported_versions extensions.
pub fn parse_client_hello(frame: &[u8]) -> (r: Result<ParsedClientHello, ShadowTlsError>)
    ensures
        match r {
            Ok(p) => client_hello_view(frame@) == Ok::<ClientHelloView, ShadowTlsError>(p@),
            Err(e) => client_hello_view(frame@) == Err::<ClientHelloView, ShadowTlsError>(e),
        },
{
    if frame.len() < TLS_HEADER_LEN {
        return Err(ShadowTlsError::Truncated);
    }
    if frame[0] != CONTENT_TYPE_HANDSHAKE {
        return Err(ShadowTlsError::UnexpectedContentType);
    }
    if frame[1] != 3 || frame[2] != 1 {
        return Err(ShadowTlsError::UnsupportedVersion);
    }
    let payload_len = frame[3] as usize * 256 + frame[4] as usize;
    if frame.len() - TLS_HEADER_LEN != payload_len {
        return Err(ShadowTlsError::RecordLengthMismatch);
    }
    let payload = &frame[TLS_HEADER_LEN..frame.len()];
    let ghost p = payload@;
    assert(p == frame@.subrange(5, frame@.len() as int));
    let mut rd = ByteReader::new(payload);
    let handshake_type = match rd.read_u8() {
        Ok(v) => v,
        Err(e) => return Err(e),
    };
    if handshake_type != HANDSHAKE_TYPE_CLIENT_HELLO {
        return Err(ShadowTlsError::UnexpectedHandshakeType);
    }
    let message_len = match rd.read_u24_be() {
        Ok(v) => v,
        Err(e) => return Err(e),
    };
    if message_len as usize + 4 != payload_len {
        return Err(ShadowTlsError::MessageLengthMismatch);
    }
    let version_major = match rd.read_u8() {
        Ok(v) => v,
        Err(e) => return Err(e),
    };
    let version_minor = match rd.read_u8() {
        Ok(v) => v,
        Err(e) => return Err(e),
    };
    if !(version_major == 3 && version_minor == 3) {
        return Err(ShadowTlsError::UnsupportedVersion);
    }
    match rd.skip(32) {
        Ok(()) => {},
        Err(e) => return Err(e),
    }
    let session_id_len = match rd.read_u8() {
        Ok(v) => v,
        Err(e) => return Err(e),
    };
    let parsed_digest = if session_id_len == 32 {
        let session_id = match rd.read_slice(32) {
            Ok(v) => v,
            Err(e) => return Err(e),
        };
        let end = TLS_HEADER_LEN + rd.position();
        assert(session_id@.subrange(28, 32) =~= p.subrange(67, 71));
        Some(
            ParsedClientHelloDigest {
                client_hello_digest: vstd::slice::slice_to_vec(&session_id[28..32]),
                client_hello_digest_start_index: end - 4,
                client_hello_digest_end_index: end,
            },
        )
    } else {
        match rd.skip(session_id_len as usize) {
            Ok(()) => {},
            Err(e) => return Err(e),
        }
        None
    };
    assert(rd.pos() == 39 + p[38]);
    let (requested_server_name, supports_tls13) = match read_client_hello_tail(&mut rd) {
        Ok(found) => found,
        Err(e) => return Err(e),
    };
    Ok(
        ParsedClientHello {
            client_hello_frame: vstd::slice::slice_to_vec(frame),
            client_hello_record_legacy_version_major: frame[1],
            client_hello_record_legacy_version_minor: frame[2],
            client_hello_content_version_major: version_major,
            client_hello_content_version_minor: version_minor,
            parsed_digest,
            requested_server_name,
            supports_tls13,
        },
    )
}

} // verus!
