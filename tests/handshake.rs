use shoes::{
    parse_client_hello, parse_server_hello, FrameBuffer,
    HandshakeSession, NoneOrOne, ParsedClientHello, RemoteStep, ShadowTlsError, ShadowTlsHmac,
    ShadowTlsServerTarget, ShadowTlsStream, TcpServerSetupResult, RETRY_REQUEST_RANDOM_BYTES,
    TLS_FRAME_MAX_LEN,
};

fn hmac_sha1(key: &[u8], data: &[u8]) -> Vec<u8> {
    let key = aws_lc_rs::hmac::Key::new(aws_lc_rs::hmac::HMAC_SHA1_FOR_LEGACY_USE_ONLY, key);
    aws_lc_rs::hmac::sign(&key, data).as_ref().to_vec()
}

fn tag4(key: &[u8], parts: &[&[u8]]) -> Vec<u8> {
    let data: Vec<u8> = parts.concat();
    hmac_sha1(key, &data)[..4].to_vec()
}

fn sha256(data: &[u8]) -> Vec<u8> {
    aws_lc_rs::digest::digest(&aws_lc_rs::digest::SHA256, data).as_ref().to_vec()
}

fn be16(n: usize) -> [u8; 2] {
    (n as u16).to_be_bytes()
}

fn be24(n: usize) -> [u8; 3] {
    [(n >> 16) as u8, (n >> 8) as u8, n as u8]
}

fn client_hello(
    session_id: Option<[u8; 32]>,
    server_name: Option<&str>,
    versions: &[u16],
    record_minor: u8,
) -> Vec<u8> {
    let mut body = vec![3u8, 3];
    body.extend([0x11u8; 32]);
    match session_id {
        Some(s) => {
            body.push(32);
            body.extend(s);
        }
        None => body.push(0),
    }
    body.extend([0, 2, 0x13, 0x01]);
    body.extend([1, 0]);
    let mut ext = vec![];
    if let Some(name) = server_name {
        let n = name.len();
        ext.extend([0, 0]);
        ext.extend(be16(n + 5));
        ext.extend(be16(n + 3));
        ext.push(0);
        ext.extend(be16(n));
        ext.extend(name.bytes());
    }
    if !versions.is_empty() {
        ext.extend([0, 0x2b]);
        ext.extend(be16(1 + 2 * versions.len()));
        ext.push((2 * versions.len()) as u8);
        for v in versions {
            ext.extend(v.to_be_bytes());
        }
    }
    ext.extend([0x00, 0x0a, 0x00, 0x04, 0x00, 0x02, 0x00, 0x1d]);
    body.extend(be16(ext.len()));
    body.extend(ext);
    let mut hs = vec![1u8];
    hs.extend(be24(body.len()));
    hs.extend(body);
    let mut frame = vec![0x16u8, 3, record_minor];
    frame.extend(be16(hs.len()));
    frame.extend(hs);
    frame
}

fn sign_client_hello(frame: &mut [u8], password: &str) {
    frame[72..76].copy_from_slice(&[0, 0, 0, 0]);
    let tag = tag4(password.as_bytes(), &[&frame[5..]]);
    frame[72..76].copy_from_slice(&tag);
}

fn server_hello(random: [u8; 32], version: Option<[u8; 2]>) -> Vec<u8> {
    let mut body = vec![3u8, 3];
    body.extend(random);
    body.push(32);
    body.extend([0x22u8; 32]);
    body.extend([0x13, 0x01, 0x00]);
    let mut ext = vec![0x00u8, 0x33, 0x00, 0x02, 0x00, 0x1d];
    if let Some(v) = version {
        ext.extend([0x00, 0x2b, 0x00, 0x02, v[0], v[1]]);
    }
    body.extend(be16(ext.len()));
    body.extend(ext);
    let mut hs = vec![2u8];
    hs.extend(be24(body.len()));
    hs.extend(body);
    let mut frame = vec![0x16u8, 3, 3];
    frame.extend(be16(hs.len()));
    frame.extend(hs);
    frame
}

fn target(password: &str) -> ShadowTlsServerTarget<(), (), ()> {
    ShadowTlsServerTarget::new(password.to_string(), (), (), NoneOrOne::Unspecified)
}

fn record(content_type: u8, payload: &[u8]) -> Vec<u8> {
    let mut f = vec![content_type, 3, 3];
    f.extend(be16(payload.len()));
    f.extend(payload);
    f
}

const SERVER_RANDOM: [u8; 32] = [0x5a; 32];

fn signed_hello(password: &str) -> ParsedClientHello {
    let mut frame = client_hello(Some([0x33; 32]), Some("example.com"), &[0x0304, 0x0303], 1);
    sign_client_hello(&mut frame, password);
    parse_client_hello(&frame).unwrap()
}

#[test]
fn hmac_sha1_known_answer() {
    let mut h = ShadowTlsHmac::new(b"Jefe");
    h.update(b"what do ya ");
    h.update(b"want for nothing?");
    assert_eq!(h.digest(), [0xef, 0xfc, 0xdf, 0x6a]);
    let forked = h.fork();
    assert_eq!(forked.finalized_digest(), [0xef, 0xfc, 0xdf, 0x6a]);
    h.update(b"!");
    assert_ne!(h.digest(), [0xef, 0xfc, 0xdf, 0x6a]);
}

#[test]
fn server_hello_gives_random() {
    let frame = server_hello([7; 32], Some([3, 4]));
    let parsed = parse_server_hello(&frame).unwrap();
    assert_eq!(parsed.server_random, vec![7u8; 32]);
}

#[test]
fn server_hello_retry_request_rejected() {
    let frame = server_hello(RETRY_REQUEST_RANDOM_BYTES, Some([3, 4]));
    assert!(matches!(parse_server_hello(&frame), Err(ShadowTlsError::HelloRetryRequest)));
}

#[test]
fn server_hello_without_supported_versions_rejected() {
    let frame = server_hello([7; 32], None);
    assert!(matches!(
        parse_server_hello(&frame),
        Err(ShadowTlsError::MissingSupportedVersions)
    ));
}

#[test]
fn server_hello_tls12_selected_rejected() {
    let frame = server_hello([7; 32], Some([3, 3]));
    assert!(matches!(parse_server_hello(&frame), Err(ShadowTlsError::UnsupportedVersion)));
}

#[test]
fn server_hello_wrong_content_type_rejected() {
    let mut frame = server_hello([7; 32], Some([3, 4]));
    frame[0] = 0x17;
    assert!(matches!(
        parse_server_hello(&frame),
        Err(ShadowTlsError::UnexpectedContentType)
    ));
}

#[test]
fn server_hello_short_rejected() {
    let frame = server_hello([7; 32], Some([3, 4]));
    assert!(matches!(parse_server_hello(&frame[..60]), Err(ShadowTlsError::Truncated)));
    let mut cut = frame.clone();
    cut.truncate(frame.len() - 3);
    assert!(matches!(parse_server_hello(&cut), Err(ShadowTlsError::Truncated)));
}

#[test]
fn server_hello_bad_session_id_rejected() {
    let mut frame = server_hello([7; 32], Some([3, 4]));
    frame[43] = 16;
    assert!(matches!(
        parse_server_hello(&frame),
        Err(ShadowTlsError::InvalidSessionIdLength)
    ));
}

#[test]
fn client_hello_fields() {
    let frame = client_hello(Some([0x33; 32]), Some("example.com"), &[0x0304, 0x0303], 1);
    let parsed = parse_client_hello(&frame).unwrap();
    assert_eq!(parsed.client_hello_frame, frame);
    assert_eq!(parsed.client_hello_record_legacy_version_major, 3);
    assert_eq!(parsed.client_hello_record_legacy_version_minor, 1);
    assert_eq!(parsed.client_hello_content_version_major, 3);
    assert_eq!(parsed.client_hello_content_version_minor, 3);
    let digest = parsed.parsed_digest.unwrap();
    assert_eq!(digest.client_hello_digest, vec![0x33; 4]);
    assert_eq!(digest.client_hello_digest_start_index, 72);
    assert_eq!(digest.client_hello_digest_end_index, 76);
    assert_eq!(parsed.requested_server_name.as_deref(), Some("example.com"));
    assert!(parsed.supports_tls13);
}

#[test]
fn client_hello_without_sni_accepted() {
    let mut frame = client_hello(Some([0; 32]), None, &[0x0304], 1);
    sign_client_hello(&mut frame, "secret");
    let parsed = parse_client_hello(&frame).unwrap();
    assert_eq!(parsed.requested_server_name, None);
    assert!(target("secret").verify_client_hello(&parsed).is_ok());
}

#[test]
fn client_hello_tls12_only_rejected() {
    let mut frame = client_hello(Some([0; 32]), Some("example.com"), &[0x0303], 1);
    sign_client_hello(&mut frame, "secret");
    let parsed = parse_client_hello(&frame).unwrap();
    assert!(!parsed.supports_tls13);
    assert!(matches!(
        target("secret").verify_client_hello(&parsed),
        Err(ShadowTlsError::NoTls13)
    ));
}

#[test]
fn client_hello_without_supported_versions_rejected() {
    let mut frame = client_hello(Some([0; 32]), Some("example.com"), &[], 1);
    sign_client_hello(&mut frame, "secret");
    let parsed = parse_client_hello(&frame).unwrap();
    assert!(matches!(
        target("secret").verify_client_hello(&parsed),
        Err(ShadowTlsError::NoTls13)
    ));
}

#[test]
fn client_hello_short_session_id_rejected() {
    let frame = client_hello(None, Some("example.com"), &[0x0304], 1);
    let parsed = parse_client_hello(&frame).unwrap();
    assert!(parsed.parsed_digest.is_none());
    assert!(matches!(
        target("secret").verify_client_hello(&parsed),
        Err(ShadowTlsError::HmacMismatch)
    ));
}

#[test]
fn client_hello_record_version_checked() {
    let frame = client_hello(Some([0; 32]), None, &[0x0304], 3);
    assert!(matches!(parse_client_hello(&frame), Err(ShadowTlsError::UnsupportedVersion)));
}

#[test]
fn client_hello_handshake_version_must_be_tls12() {
    let mut frame = client_hello(Some([0; 32]), None, &[0x0304], 1);
    frame[10] = 1;
    assert!(matches!(parse_client_hello(&frame), Err(ShadowTlsError::UnsupportedVersion)));
}

#[test]
fn client_hello_correct_tag_accepted() {
    let parsed = signed_hello("secret");
    assert!(target("secret").verify_client_hello(&parsed).is_ok());
}

#[test]
fn client_hello_wrong_password_rejected() {
    let parsed = signed_hello("nope");
    assert!(matches!(
        target("secret").verify_client_hello(&parsed),
        Err(ShadowTlsError::HmacMismatch)
    ));
}

#[test]
fn client_hello_malformed_rejected() {
    let frame = client_hello(Some([0; 32]), Some("example.com"), &[0x0304], 1);
    let mut wrong_type = frame.clone();
    wrong_type[0] = 0x17;
    assert!(matches!(
        parse_client_hello(&wrong_type),
        Err(ShadowTlsError::UnexpectedContentType)
    ));
    let mut wrong_handshake = frame.clone();
    wrong_handshake[5] = 2;
    assert!(matches!(
        parse_client_hello(&wrong_handshake),
        Err(ShadowTlsError::UnexpectedHandshakeType)
    ));
    let mut wrong_len = frame.clone();
    wrong_len[8] ^= 1;
    assert!(matches!(
        parse_client_hello(&wrong_len),
        Err(ShadowTlsError::MessageLengthMismatch)
    ));
    let mut wrong_version = frame.clone();
    wrong_version[10] = 2;
    assert!(matches!(
        parse_client_hello(&wrong_version),
        Err(ShadowTlsError::UnsupportedVersion)
    ));
    assert!(matches!(
        parse_client_hello(&frame[..frame.len() - 1]),
        Err(ShadowTlsError::RecordLengthMismatch)
    ));
    assert!(matches!(parse_client_hello(&frame[..3]), Err(ShadowTlsError::Truncated)));
}

#[test]
fn client_hello_extension_errors() {
    let mut frame = client_hello(Some([0; 32]), Some("a.example"), &[0x0304], 1);
    // The server name type sits after the extension header and list length.
    let sni_at = frame.iter().position(|&b| b == b'a').unwrap();
    frame[sni_at - 3] = 1;
    assert!(matches!(
        parse_client_hello(&frame),
        Err(ShadowTlsError::InvalidServerNameType)
    ));
    let mut bad_utf8 = client_hello(Some([0; 32]), Some("a.example"), &[0x0304], 1);
    bad_utf8[sni_at] = 0xff;
    assert!(matches!(
        parse_client_hello(&bad_utf8),
        Err(ShadowTlsError::InvalidServerName)
    ));
}

#[test]
fn client_hello_duplicate_server_name_rejected() {
    let base = client_hello(Some([0; 32]), Some("ab"), &[0x0304], 1);
    let one = [0u8, 0, 0, 7, 0, 5, 0, 0, 2, b'c', b'd'];
    // Insert a second server_name extension at the start of the block.
    let ext_len_at = 5 + 4 + 2 + 32 + 1 + 32 + 4 + 2;
    let old_len = u16::from_be_bytes([base[ext_len_at], base[ext_len_at + 1]]) as usize;
    let mut hs_body = base[9..ext_len_at].to_vec();
    hs_body.extend(be16(old_len + one.len()));
    hs_body.extend(one);
    hs_body.extend(&base[ext_len_at + 2..]);
    let mut hs = vec![1u8];
    hs.extend(be24(hs_body.len()));
    hs.extend(hs_body);
    let mut frame = vec![0x16u8, 3, 1];
    frame.extend(be16(hs.len()));
    frame.extend(hs);
    assert!(matches!(
        parse_client_hello(&frame),
        Err(ShadowTlsError::MultipleServerNames)
    ));
}

#[test]
fn client_hello_odd_version_list_rejected() {
    let mut frame = client_hello(Some([0; 32]), None, &[0x0304], 1);
    let at = frame.windows(4).position(|w| w == [0x00, 0x2b, 0x00, 0x03]).unwrap();
    frame[at + 4] = 1;
    assert!(matches!(
        parse_client_hello(&frame),
        Err(ShadowTlsError::OddVersionListLength)
    ));
}

#[test]
fn session_passes_handshake_records_through() {
    let t = target("secret");
    let mut session = t.start_session(&SERVER_RANDOM);
    let hs = record(0x16, &[1, 2, 3, 4, 5]);
    assert_eq!(session.reframe_server_record(&hs).unwrap(), hs);
    let ccs = record(0x14, &[1]);
    assert_eq!(session.reframe_server_record(&ccs).unwrap(), ccs);
    let empty = record(0x16, &[]);
    assert_eq!(session.reframe_server_record(&empty).unwrap(), empty);
}

#[test]
fn session_reframes_application_data() {
    let t = target("secret");
    let mut session = t.start_session(&SERVER_RANDOM);
    let xor = sha256(&[b"secret".as_slice(), &SERVER_RANDOM].concat());
    let payload1: Vec<u8> = (0..70u8).collect();
    let payload2 = vec![0xaau8; 3];
    let out1 = session.reframe_server_record(&record(0x17, &payload1)).unwrap();
    let out2 = session.reframe_server_record(&record(0x17, &payload2)).unwrap();
    let masked1: Vec<u8> = payload1.iter().enumerate().map(|(i, b)| b ^ xor[i % 32]).collect();
    let masked2: Vec<u8> = payload2.iter().enumerate().map(|(i, b)| b ^ xor[i % 32]).collect();
    let t1 = tag4(b"secret", &[&SERVER_RANDOM, &masked1]);
    let t2 = tag4(b"secret", &[&SERVER_RANDOM, &masked1, &masked2]);
    assert_eq!(out1, [&[0x17, 3, 3, 0, 74][..], &t1, &masked1].concat());
    assert_eq!(out2, [&[0x17, 3, 3, 0, 7][..], &t2, &masked2].concat());
}

#[test]
fn session_rejects_oversize_application_data() {
    let t = target("secret");
    let mut session = t.start_session(&SERVER_RANDOM);
    let big = record(0x17, &vec![0u8; 65533]);
    assert!(matches!(
        session.reframe_server_record(&big),
        Err(ShadowTlsError::PayloadTooLarge)
    ));
    let edge = record(0x17, &vec![0u8; 65532]);
    assert!(matches!(
        session.reframe_server_record(&edge),
        Err(ShadowTlsError::PayloadTooLarge)
    ));
    let fits = record(0x17, &vec![0u8; 65531]);
    let out = session.reframe_server_record(&fits).unwrap();
    assert_eq!(&out[3..5], &[0xff, 0xff]);
}

#[test]
fn local_records_must_be_tls12_framed() {
    let t = target("secret");
    let mut session = t.start_session(&SERVER_RANDOM);
    let mut f = record(0x16, &[1]);
    f[2] = 1;
    assert!(matches!(
        session.reframe_local_server_record(&f),
        Err(ShadowTlsError::UnsupportedVersion)
    ));
}

fn transition_record(password: &[u8], body: &[u8]) -> Vec<u8> {
    let tag = tag4(password, &[&SERVER_RANDOM, b"C", body]);
    record(0x17, &[&tag[..], body].concat())
}

#[test]
fn transition_then_covert_write() {
    let t = target("secret");
    let session = t.start_session(&SERVER_RANDOM);
    let frame = transition_record(b"secret", b"ping");
    assert!(session.is_transition_record(&frame));
    let (mut stream, data) = session.into_stream(&frame);
    assert_eq!(data, b"ping".to_vec());
    let out = stream.encode(b"pong").unwrap();
    let expected_tag = tag4(b"secret", &[&SERVER_RANDOM, b"S", b"pong"]);
    assert_eq!(out, [&[0x17, 3, 3, 0, 8][..], &expected_tag, b"pong"].concat());
    assert!(!stream.supports_ping());
}

#[test]
fn non_transition_records_are_not_recognised() {
    let t = target("secret");
    let session = t.start_session(&SERVER_RANDOM);
    assert!(!session.is_transition_record(&transition_record(b"nope", b"ping")));
    assert!(!session.is_transition_record(&record(0x17, &[1, 2, 3])));
    let good = transition_record(b"secret", b"ping");
    let mut as_handshake = good.clone();
    as_handshake[0] = 0x16;
    assert!(!session.is_transition_record(&as_handshake));
}

#[test]
fn client_records_after_transition() {
    let t = target("secret");
    let session = t.start_session(&SERVER_RANDOM);
    let first = transition_record(b"secret", b"ping");
    let (mut stream, _) = session.into_stream(&first);
    let first_tag = first[5..9].to_vec();
    let tag = tag4(b"secret", &[&SERVER_RANDOM, b"C", b"ping", &first_tag, b"more"]);
    let next = record(0x17, &[&tag[..], b"more"].concat());
    let mut tampered = next.clone();
    tampered[9] ^= 1;
    assert!(matches!(stream.decode(&tampered), Err(ShadowTlsError::HmacMismatch)));
    assert_eq!(stream.decode(&next).unwrap(), b"more".to_vec());
    assert!(matches!(stream.decode(&next), Err(ShadowTlsError::HmacMismatch)));
    assert!(matches!(stream.decode(&record(0x17, &[1, 2, 3])), Err(ShadowTlsError::Truncated)));
    assert!(matches!(
        stream.decode(&record(0x16, &[1, 2, 3, 4])),
        Err(ShadowTlsError::UnexpectedContentType)
    ));
}

#[test]
fn rolling_tags_chain() {
    let mut hs = ShadowTlsHmac::new(b"secret");
    hs.update(&SERVER_RANDOM);
    hs.update(b"S");
    let hc = ShadowTlsHmac::new(b"secret");
    let mut stream = ShadowTlsStream::new(hc, hs);
    let r1 = stream.encode(b"first").unwrap();
    let r2 = stream.encode(b"second").unwrap();
    let t1 = &r1[5..9];
    let expected = tag4(b"secret", &[&SERVER_RANDOM, b"S", b"first", t1, b"second"]);
    assert_eq!(&r2[5..9], &expected[..]);
}

#[test]
fn identical_writes_get_different_tags() {
    let t = target("secret");
    let session = t.start_session(&SERVER_RANDOM);
    let (mut stream, _) = session.into_stream(&transition_record(b"secret", b""));
    let r1 = stream.encode(b"same").unwrap();
    let r2 = stream.encode(b"same").unwrap();
    assert_eq!(r1[9..], r2[9..]);
    assert_ne!(r1[5..9], r2[5..9]);
}

#[test]
fn records_round_trip() {
    let mut writer_ctx = ShadowTlsHmac::new(b"secret");
    writer_ctx.update(b"shared");
    let mut reader_ctx = ShadowTlsHmac::new(b"secret");
    reader_ctx.update(b"shared");
    let mut writer = ShadowTlsStream::new(ShadowTlsHmac::new(b"secret"), writer_ctx);
    let mut reader = ShadowTlsStream::new(reader_ctx, ShadowTlsHmac::new(b"secret"));
    let bodies: Vec<Vec<u8>> = vec![b"one".to_vec(), vec![], vec![9u8; 1000], b"one".to_vec()];
    let records: Vec<Vec<u8>> = bodies.iter().map(|b| writer.encode(b).unwrap()).collect();
    for (r, b) in records.iter().zip(bodies.iter()) {
        assert_eq!(&reader.decode(r).unwrap(), b);
    }
    // Both contexts are in the same state: the next tags agree.
    let next = writer.encode(b"x").unwrap();
    assert_eq!(reader.decode(&next).unwrap(), b"x".to_vec());
}

#[test]
fn oversize_covert_write_rejected() {
    let mut stream = ShadowTlsStream::new(ShadowTlsHmac::new(b"k"), ShadowTlsHmac::new(b"k"));
    assert!(matches!(stream.encode(&vec![0u8; 65532]), Err(ShadowTlsError::PayloadTooLarge)));
    let out = stream.encode(&vec![0u8; 65531]).unwrap();
    assert_eq!(out.len(), 5 + 4 + 65531);
    assert_eq!(&out[3..5], &[0xff, 0xff]);
}

#[test]
fn frame_buffer_cuts_records() {
    let mut buf = FrameBuffer::new();
    assert_eq!(buf.free_space(), TLS_FRAME_MAX_LEN);
    let a = record(0x16, &[1, 2, 3]);
    let b = record(0x17, &[4, 5]);
    let mut bytes = a.clone();
    bytes.extend(&b[..4]);
    assert_eq!(buf.fill(&bytes), bytes.len());
    assert_eq!(buf.next_frame(), Some(a));
    assert_eq!(buf.next_frame(), None);
    assert_eq!(buf.fill(&b[4..]), 3);
    assert_eq!(buf.next_frame(), Some(b));
    assert_eq!(buf.next_frame(), None);
    buf.fill(&[0x17, 3]);
    assert_eq!(buf.take_unparsed(), vec![0x17, 3]);
    assert_eq!(buf.free_space(), TLS_FRAME_MAX_LEN);
}

#[test]
fn frame_buffer_is_bounded() {
    let mut buf = FrameBuffer::new();
    let data = vec![0x17u8; TLS_FRAME_MAX_LEN + 10];
    assert_eq!(buf.fill(&data), TLS_FRAME_MAX_LEN);
    assert_eq!(buf.free_space(), 0);
    assert_eq!(buf.fill(&data), 0);
    let frame = buf.next_frame().unwrap();
    assert_eq!(frame.len(), 5 + 0x1717);
}

fn forward(provider: NoneOrOne<u8>) -> TcpServerSetupResult<(), String, u8> {
    TcpServerSetupResult::TcpForward {
        remote_location: "example.com:443".to_string(),
        stream: (),
        need_initial_flush: false,
        connection_success_response: None,
        initial_remote_data: Some(vec![1, 2]),
        override_proxy_provider: provider,
    }
}

fn provider_of(r: &TcpServerSetupResult<(), String, u8>) -> Option<u8> {
    match r {
        TcpServerSetupResult::TcpForward { override_proxy_provider, .. }
        | TcpServerSetupResult::MultiDirectionalUdp { override_proxy_provider, .. } => {
            match override_proxy_provider {
                NoneOrOne::Unspecified => None,
                NoneOrOne::Disabled => Some(0),
                NoneOrOne::One(v) => Some(*v),
            }
        }
    }
}

#[test]
fn proxy_provider_override_rule() {
    let mut open = forward(NoneOrOne::Unspecified);
    assert!(open.override_proxy_provider_unspecified());
    open.inherit_proxy_provider(NoneOrOne::One(7));
    assert_eq!(provider_of(&open), Some(7));
    let mut open = forward(NoneOrOne::Unspecified);
    open.inherit_proxy_provider(NoneOrOne::Disabled);
    assert_eq!(provider_of(&open), Some(0));
    let mut open = forward(NoneOrOne::Unspecified);
    open.inherit_proxy_provider(NoneOrOne::Unspecified);
    assert_eq!(provider_of(&open), None);
    let mut chosen = forward(NoneOrOne::One(3));
    assert!(!chosen.override_proxy_provider_unspecified());
    chosen.inherit_proxy_provider(NoneOrOne::One(7));
    assert_eq!(provider_of(&chosen), Some(3));
}

#[test]
fn setup_result_flush_flag() {
    let mut r = forward(NoneOrOne::Unspecified);
    r.set_need_initial_flush(true);
    match &r {
        TcpServerSetupResult::TcpForward { need_initial_flush, initial_remote_data, .. } => {
            assert!(*need_initial_flush);
            assert_eq!(initial_remote_data.as_deref(), Some(&[1u8, 2][..]));
        }
        _ => panic!("variant changed"),
    }
    let mut udp: TcpServerSetupResult<(), String, u8> = TcpServerSetupResult::MultiDirectionalUdp {
        need_initial_flush: true,
        stream: (),
        override_proxy_provider: NoneOrOne::Unspecified,
        num_sockets: 4,
    };
    udp.set_need_initial_flush(false);
    udp.set_override_proxy_provider(NoneOrOne::One(1));
    match &udp {
        TcpServerSetupResult::MultiDirectionalUdp { need_initial_flush, num_sockets, .. } => {
            assert!(!*need_initial_flush);
            assert_eq!(*num_sockets, 4);
        }
        _ => panic!("variant changed"),
    }
    assert_eq!(provider_of(&udp), Some(1));
}

#[test]
fn session_contexts_are_derived_from_random() {
    let t = target("secret");
    let session: HandshakeSession = t.start_session(&[1, 2, 3]);
    let body = b"hello";
    let tag = tag4(b"secret", &[&[1u8, 2, 3], b"C", body]);
    let frame = record(0x17, &[&tag[..], body].concat());
    assert!(session.is_transition_record(&frame));
}

#[test]
fn remote_client_records_forwarded_until_transition() {
    let t = target("secret");
    let mut session = t.start_session(&SERVER_RANDOM);
    let ordinary = record(0x17, &[9u8; 40]);
    session = match session.client_record(&ordinary) {
        RemoteStep::Forward(next) => next,
        RemoteStep::Transition(_, _) => panic!("ordinary record taken as transition"),
    };
    let handshake = record(0x16, &[1, 2, 3]);
    session = match session.client_record(&handshake) {
        RemoteStep::Forward(next) => next,
        RemoteStep::Transition(_, _) => panic!("handshake record taken as transition"),
    };
    match session.client_record(&transition_record(b"secret", b"hello")) {
        RemoteStep::Forward(_) => panic!("transition record forwarded"),
        RemoteStep::Transition(_, data) => assert_eq!(data, b"hello".to_vec()),
    }
}
