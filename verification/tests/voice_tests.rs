use titanium::voice_gateway::connection::{VoiceConfig, VoiceState};
use titanium::voice_gateway::crypto::{build_rtp_header, parse_rtp_header, VoiceCrypto, KEY_SIZE};
use titanium::voice_gateway::payload::EncryptionMode;

#[test]
fn test_voice_state_conversion() {
    assert_eq!(VoiceState::from(0), VoiceState::Disconnected);
    assert_eq!(VoiceState::from(4), VoiceState::Ready);
    assert_eq!(VoiceState::from(255), VoiceState::Disconnected);
}

#[test]
fn test_voice_config() {
    let config = VoiceConfig {
        guild_id: 123,
        channel_id: 456,
        user_id: 789,
        session_id: "session".to_string(),
        endpoint: "wss://voice.discord.gg".to_string(),
        token: "token".to_string(),
    };

    assert_eq!(config.guild_id, 123);
}

#[test]
fn test_rtp_header() {
    let header = build_rtp_header(100, 48000, 12345);
    let (seq, ts, ssrc) = parse_rtp_header(&header);

    assert_eq!(seq, 100);
    assert_eq!(ts, 48000);
    assert_eq!(ssrc, 12345);
}

#[test]
fn test_encrypt_decrypt_lite() {
    let key = [0u8; KEY_SIZE];
    let mut crypto = VoiceCrypto::new(&key, EncryptionMode::XSalsa20Poly1305Lite);

    let header = build_rtp_header(1, 960, 12345);
    let audio = b"test audio data";

    let encrypted = crypto.encrypt(&header, audio).unwrap();

    let crypto_dec = VoiceCrypto::new(&key, EncryptionMode::XSalsa20Poly1305Lite);
    let (dec_header, decrypted) = crypto_dec.decrypt(&encrypted).unwrap();

    assert_eq!(&dec_header, &header);
    assert_eq!(&decrypted, audio);
}

#[test]
fn test_encrypt_decrypt_aes256_gcm() {
    let key = [0u8; KEY_SIZE];
    let mut crypto = VoiceCrypto::new(&key, EncryptionMode::AeadAes256Gcm);

    let header = build_rtp_header(1, 960, 12345);
    let audio = b"test aes gcm audio";

    let encrypted = crypto.encrypt(&header, audio).unwrap();

    let crypto_dec = VoiceCrypto::new(&key, EncryptionMode::AeadAes256Gcm);
    let (dec_header, decrypted) = crypto_dec.decrypt(&encrypted).unwrap();

    assert_eq!(&dec_header, &header);
    assert_eq!(&decrypted, audio);
}

#[test]
fn test_encrypt_decrypt_xchacha20_rtpsize() {
    let key = [0u8; KEY_SIZE];
    let mut crypto = VoiceCrypto::new(&key, EncryptionMode::AeadXChaCha20Poly1305Rtpsize);

    let header = build_rtp_header(1, 960, 12345);
    let audio = b"test xchacha20 audio";

    let encrypted = crypto.encrypt(&header, audio).unwrap();

    let crypto_dec = VoiceCrypto::new(&key, EncryptionMode::AeadXChaCha20Poly1305Rtpsize);
    let (dec_header, decrypted) = crypto_dec.decrypt(&encrypted).unwrap();

    assert_eq!(&dec_header, &header);
    assert_eq!(&decrypted, audio);
}
