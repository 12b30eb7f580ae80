use titanium::voice_gateway::ws::{HandshakeAction, HandshakeEvent, HandshakePhase, HandshakeStep};
use titanium::voice_gateway::connection::{VoiceConfig, VoiceConnection, VoiceState};
use titanium::voice_gateway::crypto::{build_rtp_header, VoiceCrypto, KEY_SIZE, RTP_HEADER_SIZE, TAG_SIZE};
use titanium::voice_gateway::error::{VoiceCloseCode, VoiceError};
use titanium::voice_gateway::opcode::VoiceOpCode;
use titanium::voice_gateway::payload::{EncryptionMode, SpeakingFlags};
use titanium::voice_gateway::udp::{
    discovery_request, parse_discovery_response, silence_frame, VoiceUdp, DISCOVERY_PACKET_SIZE,
};
use titanium::voice_gateway::ws::{InboundPayload, VoiceCommand, VoiceEvent, VoiceReadyInfo, VoiceSessionDescription, VoiceWebSocket};

#[test]
fn error_messages() {
    let cases = vec![
        (VoiceError::WebSocket("w".into()), "WebSocket error: w"),
        (VoiceError::Json("j".into()), "JSON error: j"),
        (VoiceError::Closed { code: 4014, reason: "bye".into() }, "Connection closed: code=4014, reason=bye"),
        (VoiceError::Timeout("Hello".into()), "Timeout waiting for Hello"),
        (VoiceError::Io("i".into()), "IO error: i"),
        (VoiceError::Udp("u".into()), "UDP error: u"),
        (VoiceError::IpDiscovery("d".into()), "IP discovery failed: d"),
        (VoiceError::Encryption("e".into()), "Encryption error: e"),
        (VoiceError::Decoder("o".into()), "Decoder error: o"),
        (VoiceError::NotConnected, "Not connected to voice server"),
        (
            VoiceError::InvalidState { expected: "Ready".into(), actual: "Connecting".into() },
            "Invalid state: expected Ready, got Connecting",
        ),
        (VoiceError::UrlParse("p".into()), "URL parse error: p"),
        (VoiceError::ChannelError("c".into()), "Channel error: c"),
    ];
    for (e, m) in cases {
        assert_eq!(e.to_string(), m);
    }
}

#[test]
fn close_codes_and_opcodes() {
    assert_eq!(VoiceCloseCode::from_code(4015), Some(VoiceCloseCode::VoiceServerCrashed));
    assert_eq!(VoiceCloseCode::from_code(4007), None);
    assert_eq!(VoiceCloseCode::SessionTimeout.code(), 4009);
    assert!(VoiceCloseCode::UnknownError.can_reconnect());
    assert!(!VoiceCloseCode::AuthenticationFailed.can_reconnect());
    assert_eq!(VoiceOpCode::from_code(12), Some(VoiceOpCode::ClientConnect));
    assert_eq!(VoiceOpCode::from_code(10), None);
    assert_eq!(VoiceOpCode::DaveMlsWelcome.code(), 30);
    assert!(VoiceOpCode::Hello.is_receive());
    assert!(VoiceOpCode::Identify.is_send());
    assert!(!VoiceOpCode::Identify.is_receive());
}

#[test]
fn encryption_modes() {
    assert_eq!(EncryptionMode::parse_mode("aead_aes256_gcm"), Some(EncryptionMode::AeadAes256Gcm));
    assert_eq!(EncryptionMode::parse_mode("rot13"), None);
    assert_eq!(EncryptionMode::XSalsa20Poly1305Suffix.to_string(), "xsalsa20_poly1305_suffix");
    assert_eq!(EncryptionMode::default(), EncryptionMode::XSalsa20Poly1305Lite);
    let offered = vec!["aead_aes256_gcm".to_string(), "xsalsa20_poly1305".to_string(), "xsalsa20_poly1305_suffix".to_string()];
    assert_eq!(EncryptionMode::select_preferred(&offered), Some(EncryptionMode::XSalsa20Poly1305Suffix));
    assert_eq!(EncryptionMode::select_preferred(&["aead_aes256_gcm".to_string()]), None);
    let flags = SpeakingFlags::MICROPHONE() | SpeakingFlags::PRIORITY();
    assert_eq!(flags.bits(), 5);
    assert!(flags.contains(SpeakingFlags::PRIORITY()));
    assert!(!flags.contains(SpeakingFlags::SOUNDSHARE()));
}

#[test]
fn every_mode_round_trips_and_hides_the_audio() {
    let key = [7u8; KEY_SIZE];
    let audio = b"some opus bytes";
    for mode in [
        EncryptionMode::XSalsa20Poly1305Lite,
        EncryptionMode::XSalsa20Poly1305Suffix,
        EncryptionMode::XSalsa20Poly1305,
        EncryptionMode::AeadAes256Gcm,
        EncryptionMode::AeadXChaCha20Poly1305Rtpsize,
    ] {
        let mut crypto = VoiceCrypto::new(&key, mode);
        let header = build_rtp_header(7, 960, 99);
        let packet = crypto.encrypt(&header, audio).unwrap();
        assert!(packet.len() >= RTP_HEADER_SIZE + TAG_SIZE + audio.len());
        assert_eq!(&packet[..RTP_HEADER_SIZE], &header);
        assert!(!packet.windows(audio.len()).any(|w| w == audio));
        let (h, a) = VoiceCrypto::new(&key, mode).decrypt(&packet).unwrap();
        assert_eq!(h, header);
        assert_eq!(a, audio.to_vec());
        let mut tampered = packet.clone();
        let last = tampered.len() - 1;
        tampered[last] ^= 1;
        let wrong = VoiceCrypto::new(&key, mode).decrypt(&tampered);
        assert!(matches!(wrong, Err(VoiceError::Encryption(_))) || wrong.map(|(_, a)| a != audio.to_vec()).unwrap_or(true));
    }
}

#[test]
fn random_nonces_differ_between_packets() {
    let key = [1u8; KEY_SIZE];
    let mut crypto = VoiceCrypto::new(&key, EncryptionMode::XSalsa20Poly1305Suffix);
    let header = build_rtp_header(1, 0, 1);
    let a = crypto.encrypt(&header, b"same").unwrap();
    let b = crypto.encrypt(&header, b"same").unwrap();
    assert_ne!(a, b);
}

#[test]
fn short_packets_are_refused() {
    let crypto = VoiceCrypto::new(&[0u8; KEY_SIZE], EncryptionMode::AeadAes256Gcm);
    assert!(matches!(crypto.decrypt(&[0u8; 5]), Err(VoiceError::Encryption(_))));
}

#[test]
fn ip_discovery_packets() {
    let req = discovery_request(0x01020304);
    assert_eq!(&req[..8], &[0, 1, 0, 70, 1, 2, 3, 4]);
    assert!(req[8..].iter().all(|b| *b == 0));
    let mut resp = [0u8; DISCOVERY_PACKET_SIZE];
    resp[1] = 2;
    resp[8..17].copy_from_slice(b"127.0.0.1");
    resp[72] = 0x1F;
    resp[73] = 0x90;
    assert_eq!(parse_discovery_response(&resp, DISCOVERY_PACKET_SIZE).unwrap(), ("127.0.0.1".to_string(), 8080));
    let mut bad = resp;
    bad[1] = 1;
    match parse_discovery_response(&bad, DISCOVERY_PACKET_SIZE) {
        Err(VoiceError::IpDiscovery(m)) => assert_eq!(m, "Invalid response type: 0x0001"),
        other => panic!("unexpected {:?}", other),
    }
    match parse_discovery_response(&resp, 10) {
        Err(VoiceError::IpDiscovery(m)) => assert_eq!(m, "Response too short: 10 bytes"),
        other => panic!("unexpected {:?}", other),
    }
    let mut lossy = resp;
    lossy[8] = 0xFF;
    let (ip, _) = parse_discovery_response(&lossy, DISCOVERY_PACKET_SIZE).unwrap();
    assert!(ip.starts_with('\u{FFFD}'));
}

#[test]
fn udp_packets_round_trip() {
    let mut udp = VoiceUdp::new(1234);
    assert!(matches!(udp.prepare_audio(b"x"), Err(VoiceError::NotConnected)));
    assert!(matches!(udp.set_encryption(&[0u8; 5], EncryptionMode::AeadAes256Gcm), Err(VoiceError::Encryption(m)) if m == "Invalid key length: expected 32, got 5"));
    udp.set_encryption(&[3u8; 32], EncryptionMode::AeadXChaCha20Poly1305Rtpsize).unwrap();
    let frame = silence_frame();
    assert_eq!(frame, [0xF8, 0xFF, 0xFE]);
    let n = udp.prepare_audio(&frame).unwrap();
    let first = udp.packet_buffer()[..n].to_vec();
    let (audio, ssrc) = udp.open_audio(&first).unwrap();
    assert_eq!(audio, frame.to_vec());
    assert_eq!(ssrc, 1234);
    let n2 = udp.prepare_audio(&frame).unwrap();
    let second = udp.packet_buffer()[..n2].to_vec();
    assert_eq!(u16::from_be_bytes([second[2], second[3]]), u16::from_be_bytes([first[2], first[3]]) + 1);
    assert!(matches!(udp.open_audio(&[0u8; 4]), Err(VoiceError::Udp(m)) if m == "Packet too short"));
}

#[test]
fn websocket_session_decisions() {
    assert_eq!(VoiceWebSocket::new("wss://example.gg").url(), "wss://example.gg/?v=4");
    let mut ws = VoiceWebSocket::new("example.gg:443");
    assert_eq!(ws.url(), "wss://example.gg:443/?v=4");
    assert!(!ws.is_connected());
    let hb = ws.heartbeat_due(1000).unwrap();
    assert_eq!(hb.nonce, 1000);
    assert!(matches!(ws.heartbeat_due(2000), Err(VoiceError::Timeout(m)) if m == "Heartbeat ACK"));
    assert!(ws.handle_message(InboundPayload::HeartbeatAck, 1042).is_none());
    assert_eq!(ws.heartbeat_latency_ms(), Some(42));
    assert!(ws.heartbeat_due(3000).is_ok());
    assert!(matches!(ws.handle_message(InboundPayload::Resumed, 0), Some(VoiceEvent::Resumed)));
    assert!(ws.handle_message(InboundPayload::Other(VoiceOpCode::Speaking), 0).is_none());
    let closed = VoiceWebSocket::closed_event(None);
    assert!(matches!(closed, VoiceEvent::Closed { code: 0, ref reason } if reason == "No reason"));
    let identify = VoiceWebSocket::identify_payload("s".into(), 123, 456, "t".into());
    assert_eq!(identify.server_id, "123");
    assert_eq!(identify.user_id, "456");
}

#[test]
fn connection_state_machine() {
    let config = VoiceConfig {
        guild_id: 1,
        channel_id: 2,
        user_id: 3,
        session_id: "s".into(),
        endpoint: "voice.example".into(),
        token: "t".into(),
    };
    let mut conn = VoiceConnection::new(config);
    assert_eq!(conn.state(), VoiceState::Disconnected);
    assert!(conn.set_speaking(true).is_none());
    let ws = conn.begin_connect();
    assert_eq!(ws.url(), "wss://voice.example/?v=4");
    assert_eq!(conn.state(), VoiceState::Connecting);
    let info = VoiceReadyInfo { ssrc: 77, ip: "1.2.3.4".into(), port: 5, modes: vec!["xsalsa20_poly1305".into()] };
    conn.handle_ready(&info);
    assert_eq!(conn.state(), VoiceState::Discovering);
    assert_eq!(conn.ssrc(), Some(77));
    let cmd = conn.handle_discovery(&info.modes, VoiceUdp::new(77), "9.9.9.9".into(), 1000).unwrap();
    assert!(matches!(cmd, VoiceCommand::SelectProtocol { ref mode, port: 1000, .. } if mode == "xsalsa20_poly1305"));
    assert_eq!(conn.state(), VoiceState::SelectingProtocol);
    assert!(matches!(conn.prepare_audio(b"a"), Err(VoiceError::NotConnected)));
    let bad = VoiceSessionDescription { mode: "nope".into(), secret_key: vec![0; 32] };
    assert!(matches!(conn.handle_session_description(&bad), Err(VoiceError::Encryption(m)) if m == "Unknown mode: nope"));
    let desc = VoiceSessionDescription { mode: "xsalsa20_poly1305".into(), secret_key: vec![0; 32] };
    conn.handle_session_description(&desc).unwrap();
    assert!(conn.is_ready());
    assert!(conn.prepare_audio(b"audio").is_ok());
    match conn.set_speaking(true) {
        Some(VoiceCommand::Speaking { speaking, delay, ssrc }) => {
            assert_eq!(speaking.bits(), 1);
            assert_eq!((delay, ssrc), (0, 77));
        }
        other => panic!("unexpected {:?}", other),
    }
    conn.disconnect();
    assert_eq!(conn.state(), VoiceState::Disconnected);
    assert!(conn.udp().is_none());
    assert_eq!(VoiceState::from(VoiceState::SelectingProtocol.as_u8()), VoiceState::SelectingProtocol);
}

#[test]
fn opcode_wire_numbers() {
    assert_eq!(VoiceOpCode::Hello.code(), 8);
    assert_eq!(VoiceOpCode::from_code(8), Some(VoiceOpCode::Hello));
    assert_eq!(VoiceOpCode::from_code(200), None);
}

#[test]
fn encrypt_into_writes_the_encrypt_packet() {
    let key = [9u8; KEY_SIZE];
    let audio = b"twenty ms of opus";
    let header = build_rtp_header(3, 1920, 77);
    for mode in [
        EncryptionMode::XSalsa20Poly1305Lite,
        EncryptionMode::XSalsa20Poly1305,
        EncryptionMode::AeadAes256Gcm,
        EncryptionMode::AeadXChaCha20Poly1305Rtpsize,
    ] {
        let mut a = VoiceCrypto::new(&key, mode);
        let mut b = VoiceCrypto::new(&key, mode);
        let mut dst = [0u8; 256];
        let n = a.encrypt_into(&header, audio, &mut dst).unwrap();
        let packet = b.encrypt(&header, audio).unwrap();
        assert_eq!(&dst[..n], &packet[..]);
        let (h, opened) = VoiceCrypto::new(&key, mode).decrypt(&dst[..n]).unwrap();
        assert_eq!(h, header);
        assert_eq!(opened, audio.to_vec());
    }
    let mut suffix = VoiceCrypto::new(&key, EncryptionMode::XSalsa20Poly1305Suffix);
    let mut dst = [0u8; 256];
    let n = suffix.encrypt_into(&header, audio, &mut dst).unwrap();
    let (_, opened) = VoiceCrypto::new(&key, EncryptionMode::XSalsa20Poly1305Suffix).decrypt(&dst[..n]).unwrap();
    assert_eq!(opened, audio.to_vec());
}

#[test]
fn udp_packets_round_trip_in_xsalsa_lite_mode() {
    let mut sender = VoiceUdp::new(55);
    sender.set_encryption(&[4u8; 32], EncryptionMode::XSalsa20Poly1305Lite).unwrap();
    let mut receiver = VoiceUdp::new(1);
    receiver.set_encryption(&[4u8; 32], EncryptionMode::XSalsa20Poly1305Lite).unwrap();
    let n = sender.prepare_audio(b"frame").unwrap();
    let (audio, ssrc) = receiver.open_audio(&sender.packet_buffer()[..n]).unwrap();
    assert_eq!(audio, b"frame".to_vec());
    assert_eq!(ssrc, 55);
}

#[test]
fn handshake_waits_for_the_wanted_opcode() {
    let step = |e| VoiceWebSocket::handshake_step(VoiceOpCode::Hello, e, "Hello");
    assert!(matches!(step(HandshakeEvent::Frame { op: VoiceOpCode::Hello, has_data: true }), HandshakeStep::Accept));
    assert!(matches!(step(HandshakeEvent::Frame { op: VoiceOpCode::Hello, has_data: false }), HandshakeStep::Skip));
    assert!(matches!(step(HandshakeEvent::Frame { op: VoiceOpCode::Ready, has_data: true }), HandshakeStep::Skip));
    assert!(matches!(step(HandshakeEvent::NonText), HandshakeStep::Skip));
    match step(HandshakeEvent::Ended) {
        HandshakeStep::Fail(VoiceError::Closed { code, reason }) => {
            assert_eq!(code, 0);
            assert_eq!(reason, "Stream ended before Hello");
        }
        other => panic!("unexpected {:?}", other),
    }
    assert!(matches!(step(HandshakeEvent::TimedOut), HandshakeStep::Fail(VoiceError::Timeout(w)) if w == "Hello"));
}

#[test]
fn handshake_phases_follow_hello_then_ready() {
    assert_eq!(VoiceWebSocket::awaited_opcode(HandshakePhase::AwaitingHello), Some(VoiceOpCode::Hello));
    assert_eq!(
        VoiceWebSocket::advance_handshake(HandshakePhase::AwaitingHello),
        (HandshakePhase::AwaitingReady, HandshakeAction::SendIdentify)
    );
    assert_eq!(VoiceWebSocket::awaited_opcode(HandshakePhase::AwaitingReady), Some(VoiceOpCode::Ready));
    assert_eq!(
        VoiceWebSocket::advance_handshake(HandshakePhase::AwaitingReady),
        (HandshakePhase::Established, HandshakeAction::ReportReady)
    );
    assert_eq!(VoiceWebSocket::awaited_opcode(HandshakePhase::Established), None);
}

#[test]
fn frames_that_fit_the_transport() {
    let mut udp = VoiceUdp::new(9);
    assert!(udp.fits_frame(usize::MAX));
    udp.set_encryption(&[1u8; 32], EncryptionMode::AeadXChaCha20Poly1305Rtpsize).unwrap();
    assert!(udp.fits_frame(100));
    // A frame longer than the scratch buffer is refused before the cipher, so it fits.
    assert!(udp.fits_frame(64 * (u32::MAX as usize - 1) + 1));
}
