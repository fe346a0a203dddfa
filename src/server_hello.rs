//! Parsing of the ServerHello that opens the server's side of the handshake.

use vstd::prelude::*;

use crate::error::ShadowTlsError;
use crate::reader::{be16_at, be24_at, ByteReader};

verus! {

pub const CONTENT_TYPE_HANDSHAKE: u8 = 0x16;

pub const CONTENT_TYPE_APPLICATION_DATA: u8 = 0x17;

pub const HANDSHAKE_TYPE_CLIENT_HELLO: u8 = 0x01;

pub const HANDSHAKE_TYPE_SERVER_HELLO: u8 = 0x02;

/// Extension type of supported_versions.
pub const EXTENSION_SUPPORTED_VERSIONS: u16 = 0x002b;

/// The server_random of a HelloRetryRequest (RFC 8446, section 4.1.3).
pub const RETRY_REQUEST_RANDOM_BYTES: [u8; 32] = [
    0xCF, 0x21, 0xAD, 0x74, 0xE5, 0x9A, 0x61, 0x11, 0xBE, 0x1D, 0x8C, 0x02, 0x1E, 0x65, 0xB8, 0x91,
    0xC2, 0xA2, 0x11, 0x16, 0x7A, 0xBB, 0x8C, 0x5E, 0x07, 0x9E, 0x09, 0xE2, 0xC8, 0xA8, 0x33, 0x9C,
];

/// Offset of server_random in a ServerHello record.
pub const SERVER_RANDOM_START: usize = 11;

/// Offset of the extensions length in a ServerHello record whose session id
/// is 32 bytes long.
pub const SERVER_EXTENSIONS_LEN_START: usize = 79;

/// The server_random that marks a HelloRetryRequest.
pub open spec fn hello_retry_random() -> Seq<u8> {
    RETRY_REQUEST_RANDOM_BYTES@
}

/// Walks the ServerHello extensions from `pos` on; `found` tells whether a
/// supported_versions extension has been seen. Such an extension must carry
/// 0x0304; every other one is skipped by its length.
pub open spec fn server_extensions_walk(e: Seq<u8>, pos: int, found: bool) -> Result<
    bool,
    ShadowTlsError,
>
    decreases e.len() - pos,
{
    if pos < 0 || pos >= e.len() {
        Ok(found)
    } else if pos + 4 > e.len() {
        Err(ShadowTlsError::Truncated)
    } else if be16_at(e, pos) == 0x2b {
        if pos + 6 > e.len() {
            Err(ShadowTlsError::Truncated)
        } else if !(e[pos + 4] == 3 && e[pos + 5] == 4) {
            Err(ShadowTlsError::UnsupportedVersion)
        } else {
            server_extensions_walk(e, pos + 6, true)
        }
    } else if pos + 4 + be16_at(e, pos + 2) > e.len() {
        Err(ShadowTlsError::Truncated)
    } else {
        server_extensions_walk(e, pos + 4 + be16_at(e, pos + 2), found)
    }
}

/// The server_random of a ServerHello record `f` (header included), or why
/// the record is refused. The record must be a TLS 1.2-framed handshake
/// record holding a ServerHello with a 32-byte session id, a random other
/// than the HelloRetryRequest marker, and a supported_versions extension
/// selecting TLS 1.3.
pub open spec fn server_hello_random(f: Seq<u8>) -> Result<Seq<u8>, ShadowTlsError> {
    if f.len() < 81 {
        Err(ShadowTlsError::Truncated)
    } else if f[0] != CONTENT_TYPE_HANDSHAKE {
        Err(ShadowTlsError::UnexpectedContentType)
    } else if f[1] != 3 || f[2] != 3 {
        Err(ShadowTlsError::UnsupportedVersion)
    } else if f[5] != HANDSHAKE_TYPE_SERVER_HELLO {
        Err(ShadowTlsError::UnexpectedHandshakeType)
    } else if be24_at(f, 6) + 4 != be16_at(f, 3) {
        Err(ShadowTlsError::MessageLengthMismatch)
    } else if f[9] != 3 || f[10] != 3 {
        Err(ShadowTlsError::UnsupportedVersion)
    } else if f.subrange(11, 43) == hello_retry_random() {
        Err(ShadowTlsError::HelloRetryRequest)
    } else if f[43] != 32 {
        Err(ShadowTlsError::InvalidSessionIdLength)
    } else if f.len() < 81 + be16_at(f, 79) {
        Err(ShadowTlsError::Truncated)
    } else {
        match server_extensions_walk(f.subrange(81, 81 + be16_at(f, 79)), 0, false) {
            Err(e) => Err(e),
            Ok(found) => if found {
                Ok(f.subrange(11, 43))
            } else {
                Err(ShadowTlsError::MissingSupportedVersions)
            },
        }
    }
}

/// What the handshake needs from a ServerHello.
pub struct ParsedServerHello {
    pub server_random: Vec<u8>,
}

fn is_hello_retry_random(random: &[u8]) -> (r: bool)
    requires
        random@.len() == 32,
    ensures
        r == (random@ == hello_retry_random()),
{
    let mut i: usize = 0;
    while i < 32
        invariant
            0 <= i <= 32,
            random@.len() == 32,
            forall|j: int| 0 <= j < i ==> random@[j] == RETRY_REQUEST_RANDOM_BYTES@[j],
        decreases 32 - i,
    {
        if random[i] != RETRY_REQUEST_RANDOM_BYTES[i] {
            return false;
        }
        i = i + 1;
    }
    assert(random@ =~= hello_retry_random());
    true
}

/// Parses a ServerHello record, header included, and returns its
/// server_random.
pub fn parse_server_hello(server_hello_frame: &[u8]) -> (r: Result<
    ParsedServerHello,
    ShadowTlsError,
>)
    ensures
        match r {
            Ok(p) => server_hello_random(server_hello_frame@) == Ok::<Seq<u8>, ShadowTlsError>(
                p.server_random@,
            ),
            Err(e) => server_hello_random(server_hello_frame@) == Err::<Seq<u8>, ShadowTlsError>(
                e,
            ),
        },
{
    let f = server_hello_frame;
    if f.len() < 81 {
        return Err(ShadowTlsError::Truncated);
    }
    if f[0] != CONTENT_TYPE_HANDSHAKE {
        return Err(ShadowTlsError::UnexpectedContentType);
    }
    if f[1] != 3 || f[2] != 3 {
        return Err(ShadowTlsError::UnsupportedVersion);
    }
    let payload_len = f[3] as usize * 256 + f[4] as usize;
    if f[5] != HANDSHAKE_TYPE_SERVER_HELLO {
        return Err(ShadowTlsError::UnexpectedHandshakeType);
    }
    let message_len = f[6] as usize * 65536 + f[7] as usize * 256 + f[8] as usize;
    if message_len + 4 != payload_len {
        return Err(ShadowTlsError::MessageLengthMismatch);
    }
    if f[9] != 3 || f[10] != 3 {
        return Err(ShadowTlsError::UnsupportedVersion);
    }
    let random = &f[SERVER_RANDOM_START..SERVER_RANDOM_START + 32];
    if is_hello_retry_random(random) {
        return Err(ShadowTlsError::HelloRetryRequest);
    }
    if f[43] != 32 {
        return Err(ShadowTlsError::InvalidSessionIdLength);
    }
    let extensions_len = f[SERVER_EXTENSIONS_LEN_START] as usize * 256
        + f[SERVER_EXTENSIONS_LEN_START + 1] as usize;
    if f.len() - 81 < extensions_len {
        return Err(ShadowTlsError::Truncated);
    }
    let extensions = &f[81..81 + extensions_len];
    let ghost e = extensions@;
    assert(e == f@.subrange(81, 81 + be16_at(f@, 79)));
    let mut rd = ByteReader::new(extensions);
    let mut found = false;
    while !rd.is_consumed()
        invariant
            rd.wf(),
            rd.data() == e,
            server_extensions_walk(e, 0, false) == server_extensions_walk(e, rd.pos(), found),
            server_hello_random(server_hello_frame@) == match server_extensions_walk(e, 0, false) {
                Err(x) => Err(x),
                Ok(b) => if b {
                    Ok(random@)
                } else {
                    Err(ShadowTlsError::MissingSupportedVersions)
                },
            },
        decreases e.len() - rd.pos(),
    {
        let extension_type = match rd.read_u16_be() {
            Ok(v) => v,
            Err(err) => return Err(err),
        };
        let extension_len = match rd.read_u16_be() {
            Ok(v) => v,
            Err(err) => return Err(err),
        };
        if extension_type == EXTENSION_SUPPORTED_VERSIONS {
            let version = match rd.read_slice(2) {
                Ok(v) => v,
                Err(err) => return Err(err),
            };
            if !(version[0] == 3 && version[1] == 4) {
                return Err(ShadowTlsError::UnsupportedVersion);
            }
            found = true;
        } else {
            match rd.skip(extension_len as usize) {
                Ok(()) => {},
                Err(err) => return Err(err),
            }
        }
    }
    if !found {
        return Err(ShadowTlsError::MissingSupportedVersions);
    }
    Ok(ParsedServerHello { server_random: vstd::slice::slice_to_vec(random) })
}

} // verus!
