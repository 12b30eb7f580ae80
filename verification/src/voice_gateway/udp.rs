//! UDP transport state for Discord Voice: RTP sequencing, packet encryption and IP discovery
//! packets. The socket itself is held by the caller.

use crate::bytes::{be16, be32, be32_bytes, from_be16, read_be16, zeros};
use crate::text::{decimal, hex4, push_decimal, push_hex4, push_str};
use crate::voice_gateway::crypto::{
    build_rtp_header, decrypted_packet, encrypted_packet, encrypted_packet_into, is_encryption_error, keystream_fits,
    packet_keystream_fits, packet_len, rtp_header,
    rtp_header_fields, VoiceCrypto, KEY_SIZE, NONCE_SIZE, RTP_HEADER_SIZE, TAG_SIZE,
};
use crate::voice_gateway::error::VoiceError;
use crate::voice_gateway::payload::EncryptionMode;
use vstd::prelude::*;

verus! {

/// Maximum size of a voice packet.
pub const MAX_PACKET_SIZE: usize = 2048;

/// Size of an IP discovery packet.
pub const DISCOVERY_PACKET_SIZE: usize = 74;

/// Samples per 20 ms Opus frame at 48 kHz, by which the RTP timestamp advances.
pub const FRAME_SAMPLES: u32 = 960;

/// How many silence frames to send when audio stops, as the voice protocol asks.
pub const SILENCE_FRAME_COUNT: usize = 5;

/// An Opus frame of silence.
pub fn silence_frame() -> (r: [u8; 3])
    ensures
        r@ == seq![0xF8u8, 0xFFu8, 0xFEu8],
{
    let r: [u8; 3] = [0xF8, 0xFF, 0xFE];
    assert(r@ =~= seq![0xF8u8, 0xFFu8, 0xFEu8]);
    r
}

/// What `String::from_utf8_lossy` makes of a byte sequence.
pub uninterp spec fn utf8_lossy(bytes: Seq<u8>) -> Seq<char>;

/// Whether every byte is ASCII.
pub open spec fn all_ascii(bytes: Seq<u8>) -> bool {
    forall|i: int| 0 <= i < bytes.len() ==> #[trigger] bytes[i] < 128
}

/// Calls `String::from_utf8_lossy` and takes the owned string. Its documentation: valid UTF-8
/// is decoded as is (so ASCII bytes become the same characters), invalid sequences become
/// U+FFFD.
#[verifier::external_body]
fn lossy_string(bytes: &[u8]) -> (s: String)
    ensures
        s@ == utf8_lossy(bytes@),
        all_ascii(bytes@) ==> s@ == bytes@.map(|i: int, b: u8| b as char),
{
    String::from_utf8_lossy(bytes).into_owned()
}

/// Index of the first zero byte, or the length when there is none.
pub open spec fn first_zero(s: Seq<u8>) -> nat
    decreases s.len(),
{
    if s.len() == 0 {
        0
    } else if s[0] == 0 {
        0
    } else {
        1 + first_zero(s.drop_first())
    }
}

/// The IP discovery request: type 1, length 70, the SSRC, and zeros.
pub open spec fn discovery_request_bytes(ssrc: u32) -> Seq<u8> {
    be16(1) + be16(70) + be32(ssrc) + zeros(66)
}

/// The address bytes of a discovery response: the NUL-terminated string at offset 8.
pub open spec fn discovery_address_bytes(response: Seq<u8>) -> Seq<u8> {
    let field = response.subrange(8, 72);
    field.subrange(0, first_zero(field) as int)
}

/// Build the IP discovery request packet for an SSRC.
pub fn discovery_request(ssrc: u32) -> (p: [u8; DISCOVERY_PACKET_SIZE])
    ensures
        p@ == discovery_request_bytes(ssrc),
{
    let mut p = [0u8; 74];
    p[1] = 1;
    p[3] = 70;
    let s = be32_bytes(ssrc);
    p[4] = s[0];
    p[5] = s[1];
    p[6] = s[2];
    p[7] = s[3];
    assert(p@ =~= discovery_request_bytes(ssrc));
    p
}

/// Reads an IP discovery response of `len` received bytes: the external address and port.
pub fn parse_discovery_response(response: &[u8; DISCOVERY_PACKET_SIZE], len: usize) -> (r: Result<(String, u16), VoiceError>)
    ensures
        len < DISCOVERY_PACKET_SIZE ==> (r matches Err(VoiceError::IpDiscovery(m)) && m@ == "Response too short: "@
            + decimal(len as nat) + " bytes"@),
        len >= DISCOVERY_PACKET_SIZE && from_be16(response@.subrange(0, 2)) != 2 ==> (r matches Err(
            VoiceError::IpDiscovery(m),
        ) && m@ == "Invalid response type: 0x"@ + hex4(from_be16(response@.subrange(0, 2)))),
        len >= DISCOVERY_PACKET_SIZE && from_be16(response@.subrange(0, 2)) == 2 ==> (r matches Ok((ip, port))
            && ip@ == utf8_lossy(discovery_address_bytes(response@)) && port == from_be16(
            response@.subrange(72, 74),
        )),
{
    if len < DISCOVERY_PACKET_SIZE {
        let mut m = String::from_str("Response too short: ");
        push_decimal(&mut m, len as u64);
        push_str(&mut m, " bytes");
        assert(m@ =~= "Response too short: "@ + decimal(len as nat) + " bytes"@);
        return Err(VoiceError::IpDiscovery(m));
    }
    let response_type = read_be16(response[0], response[1]);
    assert(seq![response[0], response[1]] =~= response@.subrange(0, 2));
    if response_type != 2 {
        let mut m = String::from_str("Invalid response type: 0x");
        push_hex4(&mut m, response_type);
        return Err(VoiceError::IpDiscovery(m));
    }
    let mut ip_end: usize = 0;
    while ip_end < 64 && response[8 + ip_end] != 0
        invariant
            ip_end <= 64,
            first_zero(response@.subrange(8, 72)) == ip_end + first_zero(response@.subrange(8 + ip_end, 72)),
        decreases 64 - ip_end,
    {
        assert(response@.subrange(8 + ip_end + 1, 72) =~= response@.subrange(8 + ip_end, 72).drop_first());
        ip_end = ip_end + 1;
    }
    proof {
        if ip_end < 64 {
            assert(response@.subrange(8 + ip_end, 72)[0] == 0);
        } else {
            assert(response@.subrange(8 + ip_end, 72).len() == 0);
        }
    }
    let ip = lossy_string(&response[8..8 + ip_end]);
    assert(response@.subrange(8, 8 + ip_end) =~= discovery_address_bytes(response@));
    let port = read_be16(response[72], response[73]);
    assert(seq![response[72], response[73]] =~= response@.subrange(72, 74));
    Ok((ip, port))
}

/// Voice UDP transport state: SSRC, RTP counters, encryption and the packet scratch buffer.
pub struct VoiceUdp {
    /// SSRC for this connection.
    ssrc: u32,
    /// Encryption handler.
    crypto: Option<VoiceCrypto>,
    /// Sequence number.
    sequence: u16,
    /// Timestamp.
    timestamp: u32,
    /// Scratch buffer for packet construction (avoid allocations).
    packet_buffer: Vec<u8>,
}

/// A 16-bit counter advanced by one with wrap-around.
pub open spec fn wrapping_inc16(n: u16) -> u16 {
    if n == u16::MAX {
        0
    } else {
        (n + 1) as u16
    }
}

/// A 32-bit value advanced by `d` with wrap-around.
pub open spec fn wrapping_add32(n: u32, d: u32) -> u32 {
    if n + d > u32::MAX {
        (n + d - 4294967296) as u32
    } else {
        (n + d) as u32
    }
}

impl VoiceUdp {
    /// The SSRC.
    pub closed spec fn spec_ssrc(&self) -> u32 {
        self.ssrc
    }

    /// The encryption handler, once configured.
    pub closed spec fn spec_crypto(&self) -> Option<VoiceCrypto> {
        self.crypto
    }

    /// The RTP sequence number of the next packet.
    pub closed spec fn spec_sequence(&self) -> u16 {
        self.sequence
    }

    /// The RTP timestamp of the next packet.
    pub closed spec fn spec_timestamp(&self) -> u32 {
        self.timestamp
    }

    /// The contents of the packet scratch buffer.
    pub closed spec fn buffer(&self) -> Seq<u8> {
        self.packet_buffer@
    }

    /// Transport state for a new connection with the SSRC that the server assigned.
    pub fn new(ssrc: u32) -> (r: Self)
        ensures
            r.spec_ssrc() == ssrc,
            r.spec_crypto() is None,
            r.spec_sequence() == 0,
            r.spec_timestamp() == 0,
            r.buffer().len() == MAX_PACKET_SIZE,
    {
        Self { ssrc, crypto: None, sequence: 0, timestamp: 0, packet_buffer: vec![0u8; MAX_PACKET_SIZE] }
    }

    /// Set the encryption key and mode.
    pub fn set_encryption(&mut self, secret_key: &[u8], mode: EncryptionMode) -> (r: Result<(), VoiceError>)
        ensures
            secret_key@.len() != KEY_SIZE ==> (r matches Err(VoiceError::Encryption(m)) && m@
                == "Invalid key length: expected 32, got "@ + decimal(secret_key@.len()) && *final(self) == *old(self)),
            secret_key@.len() == KEY_SIZE ==> r is Ok,
            secret_key@.len() == KEY_SIZE ==> (final(self).spec_crypto() matches Some(c) && c.secret_key()
                == secret_key@ && c.encryption_mode() == mode && c.nonce_counter() == 0),
            final(self).spec_ssrc() == old(self).spec_ssrc(),
            final(self).spec_sequence() == old(self).spec_sequence(),
            final(self).spec_timestamp() == old(self).spec_timestamp(),
            final(self).buffer() == old(self).buffer(),
    {
        if secret_key.len() != KEY_SIZE {
            let mut m = String::from_str("Invalid key length: expected 32, got ");
            push_decimal(&mut m, secret_key.len() as u64);
            return Err(VoiceError::Encryption(m));
        }
        let mut key = [0u8; 32];
        let mut i: usize = 0;
        while i < KEY_SIZE
            invariant
                secret_key@.len() == KEY_SIZE,
                key@.len() == KEY_SIZE,
                i <= KEY_SIZE,
                forall|j: int| 0 <= j < i ==> key@[j] == secret_key@[j],
            decreases KEY_SIZE - i,
        {
            key[i] = secret_key[i];
            i = i + 1;
        }
        assert(key@ =~= secret_key@);
        self.crypto = Some(VoiceCrypto::new(&key, mode));
        Ok(())
    }

    /// Whether building a packet for a frame of `len` bytes stays clear of the XChaCha20
    /// keystream panic: the frame either fits the cipher's keystream or is refused for the
    /// scratch buffer before the cipher runs.
    pub open spec fn send_fits(&self, len: nat) -> bool {
        match self.spec_crypto() {
            Some(c) => self.buffer().len() >= packet_len(c.encryption_mode(), len) ==> keystream_fits(
                c.encryption_mode(),
                len,
            ),
            None => true,
        }
    }

    /// Decides `send_fits`: whether `prepare_audio` may be given a frame of `len` bytes.
    pub fn fits_frame(&self, len: usize) -> (r: bool)
        ensures
            r == self.send_fits(len as nat),
    {
        match &self.crypto {
            None => true,
            Some(c) => {
                let mode = c.mode();
                let trailer: usize = match mode {
                    EncryptionMode::XSalsa20Poly1305Lite => 4,
                    EncryptionMode::XSalsa20Poly1305Suffix => 24,
                    EncryptionMode::AeadAes256Gcm => 4,
                    _ => 0,
                };
                let buf_len = self.packet_buffer.len();
                let big_enough = len <= buf_len && buf_len - len >= RTP_HEADER_SIZE + TAG_SIZE + trailer;
                match mode {
                    EncryptionMode::AeadXChaCha20Poly1305Rtpsize => {
                        let l = len as u64;
                        !big_enough || !(64 * 4294967294u64 < l && l < 64 * 4294967295u64)
                    },
                    _ => true,
                }
            },
        }
    }

    /// What building the next packet for `opus` does: without a key the transport is
    /// unchanged and the result is `NotConnected`; with one, the packet for the current
    /// sequence number, timestamp and SSRC is encrypted into the scratch buffer, and the
    /// sequence number advances by one and the timestamp by one frame.
    pub open spec fn prepared(old: Self, new: Self, opus: Seq<u8>, r: Result<usize, VoiceError>) -> bool {
        &&& old.spec_crypto() is None ==> (r matches Err(VoiceError::NotConnected) && new == old)
        &&& old.spec_crypto() matches Some(c) ==> ({
            &&& new.spec_crypto() matches Some(c2) && VoiceCrypto::encrypt_into_done(
                c,
                c2,
                rtp_header(old.spec_sequence(), old.spec_timestamp(), old.spec_ssrc()),
                opus,
                old.buffer(),
                new.buffer(),
                r,
            )
            &&& new.spec_sequence() == wrapping_inc16(old.spec_sequence())
            &&& new.spec_timestamp() == wrapping_add32(old.spec_timestamp(), FRAME_SAMPLES)
        })
        &&& new.spec_ssrc() == old.spec_ssrc()
    }

    /// Builds the next encrypted audio packet in the scratch buffer and returns its length;
    /// the RTP sequence number advances by one and the timestamp by one 20 ms frame.
    pub fn prepare_audio(&mut self, opus_data: &[u8]) -> (r: Result<usize, VoiceError>)
        requires
            old(self).send_fits(opus_data@.len()),
        ensures
            Self::prepared(*old(self), *final(self), opus_data@, r),
    {
        let header = build_rtp_header(self.sequence, self.timestamp, self.ssrc);
        match &mut self.crypto {
            None => Err(VoiceError::NotConnected),
            Some(crypto) => {
                self.sequence = if self.sequence == u16::MAX { 0 } else { self.sequence + 1 };
                self.timestamp = if self.timestamp > u32::MAX - FRAME_SAMPLES {
                    self.timestamp - (u32::MAX - FRAME_SAMPLES) - 1
                } else {
                    self.timestamp + FRAME_SAMPLES
                };
                crypto.encrypt_into(&header, opus_data, self.packet_buffer.as_mut_slice())
            },
        }
    }

    /// The packet scratch buffer; after `prepare_audio` returns `Ok(n)`, its first `n` bytes
    /// are the packet to send.
    pub fn packet_buffer(&self) -> (b: &[u8])
        ensures
            b@ == self.buffer(),
    {
        self.packet_buffer.as_slice()
    }

    /// Decrypts a received packet: the audio and the sender's SSRC.
    pub fn open_audio(&self, packet: &[u8]) -> (r: Result<(Vec<u8>, u32), VoiceError>)
        requires
            self.spec_crypto() matches Some(c) ==> packet_keystream_fits(c.encryption_mode(), packet@.len()),
        ensures
            self.spec_crypto() is None ==> r matches Err(VoiceError::NotConnected),
            self.spec_crypto() is Some && packet@.len() < RTP_HEADER_SIZE ==> (r matches Err(VoiceError::Udp(m))
                && m@ == "Packet too short"@),
            self.spec_crypto() matches Some(c) ==> (packet@.len() >= RTP_HEADER_SIZE ==> {
                &&& (r is Ok <==> decrypted_packet(c.encryption_mode(), c.secret_key(), packet@) is Some)
                &&& (r matches Ok((audio, ssrc)) ==> decrypted_packet(c.encryption_mode(), c.secret_key(), packet@)
                    matches Some((h, a)) && a == audio@ && ssrc == rtp_header_fields(h).2)
                &&& (r matches Err(e) ==> e is Encryption)
            }),
            self.spec_crypto() matches Some(c) ==> forall|sequence: u16, timestamp: u32, ssrc: u32, audio: Seq<u8>, counter: u32, random: Seq<u8>|
                #![trigger encrypted_packet(c.encryption_mode(), c.secret_key(), counter, rtp_header(sequence, timestamp, ssrc), audio, random)]
                random.len() == NONCE_SIZE && crate::voice_gateway::crypto::accepts_len(c.encryption_mode(), audio.len())
                    && packet@.len() == packet_len(c.encryption_mode(), audio.len()) && packet@ == encrypted_packet(
                    c.encryption_mode(),
                    c.secret_key(),
                    counter,
                    rtp_header(sequence, timestamp, ssrc),
                    audio,
                    random,
                ) ==> (r matches Ok((a, s)) && a@ == audio && s == ssrc),
            self.spec_crypto() matches Some(c) ==> forall|sequence: u16, timestamp: u32, ssrc: u32, audio: Seq<u8>, counter: u32, random: Seq<u8>|
                #![trigger encrypted_packet_into(c.encryption_mode(), c.secret_key(), counter, rtp_header(sequence, timestamp, ssrc), audio, random)]
                random.len() == NONCE_SIZE && crate::voice_gateway::crypto::accepts_len(c.encryption_mode(), audio.len())
                    && packet@.len() == packet_len(c.encryption_mode(), audio.len()) && packet@ == encrypted_packet_into(
                    c.encryption_mode(),
                    c.secret_key(),
                    counter,
                    rtp_header(sequence, timestamp, ssrc),
                    audio,
                    random,
                ) ==> (r matches Ok((a, s)) && a@ == audio && s == ssrc),
    {
        match &self.crypto {
            None => Err(VoiceError::NotConnected),
            Some(crypto) => {
                if packet.len() < RTP_HEADER_SIZE {
                    return Err(VoiceError::Udp(String::from_str("Packet too short")));
                }
                let res = crypto.decrypt(packet);
                let r = match res {
                    Ok((header, audio)) => {
                        let (_, _, ssrc) = crate::voice_gateway::crypto::parse_rtp_header(&header);
                        Ok((audio, ssrc))
                    },
                    Err(e) => Err(e),
                };
                proof {
                    assert forall|sequence: u16, timestamp: u32, ssrc: u32, audio: Seq<u8>, counter: u32, random: Seq<u8>|
                        #![trigger encrypted_packet(crypto.encryption_mode(), crypto.secret_key(), counter, rtp_header(sequence, timestamp, ssrc), audio, random)]
                        random.len() == NONCE_SIZE && crate::voice_gateway::crypto::accepts_len(crypto.encryption_mode(), audio.len())
                            && packet@.len() == packet_len(crypto.encryption_mode(), audio.len()) && packet@ == encrypted_packet(
                            crypto.encryption_mode(),
                            crypto.secret_key(),
                            counter,
                            rtp_header(sequence, timestamp, ssrc),
                            audio,
                            random,
                        ) implies (r matches Ok((a, s)) && a@ == audio && s == ssrc) by {
                        crate::voice_gateway::crypto::lemma_rtp_header_roundtrip(sequence, timestamp, ssrc);
                    }
                    assert forall|sequence: u16, timestamp: u32, ssrc: u32, audio: Seq<u8>, counter: u32, random: Seq<u8>|
                        #![trigger encrypted_packet_into(crypto.encryption_mode(), crypto.secret_key(), counter, rtp_header(sequence, timestamp, ssrc), audio, random)]
                        random.len() == NONCE_SIZE && crate::voice_gateway::crypto::accepts_len(crypto.encryption_mode(), audio.len())
                            && packet@.len() == packet_len(crypto.encryption_mode(), audio.len()) && packet@ == encrypted_packet_into(
                            crypto.encryption_mode(),
                            crypto.secret_key(),
                            counter,
                            rtp_header(sequence, timestamp, ssrc),
                            audio,
                            random,
                        ) implies (r matches Ok((a, s)) && a@ == audio && s == ssrc) by {
                        crate::voice_gateway::crypto::lemma_rtp_header_roundtrip(sequence, timestamp, ssrc);
                    }
                }
                r
            },
        }
    }

    /// Get the SSRC.
    pub fn ssrc(&self) -> (r: u32)
        ensures
            r == self.spec_ssrc(),
    {
        self.ssrc
    }

    /// The encryption handler, once configured.
    pub fn crypto(&self) -> (r: Option<&VoiceCrypto>)
        ensures
            r matches Some(c) ==> self.spec_crypto() == Some(*c),
            r is None <==> self.spec_crypto() is None,
    {
        self.crypto.as_ref()
    }
}

} // verus!
