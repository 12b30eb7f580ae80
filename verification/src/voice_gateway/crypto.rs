//! Voice encryption using XSalsa20-Poly1305, AES-GCM, and XChaCha20-Poly1305.
//!
//! Discord Voice supports multiple encryption modes for audio packets. This module frames RTP
//! packets around the ciphertexts; the ciphers themselves are those of the `xsalsa20poly1305`,
//! `aes-gcm` and `chacha20poly1305` crates.

use crate::bytes::{be16, be16_bytes, be32, be32_bytes, from_be16, from_be32, le32, le32_bytes, read_be16, read_be32, zeros};
use crate::voice_gateway::error::VoiceError;
use crate::voice_gateway::payload::EncryptionMode;
use aes_gcm::aead::{Aead, AeadInPlace};
use aes_gcm::{Aes256Gcm, KeyInit};
use chacha20poly1305::XChaCha20Poly1305;
use rand::Rng;
use vstd::prelude::*;
use xsalsa20poly1305::XSalsa20Poly1305;

verus! {

/// Size of the encryption key.
pub const KEY_SIZE: usize = 32;

/// Size of the XSalsa20/XChaCha20 nonce.
pub const NONCE_SIZE: usize = 24;

/// Size of the AES-GCM nonce.
pub const AES_GCM_NONCE_SIZE: usize = 12;

/// Size of the Poly1305/GCM authentication tag.
pub const TAG_SIZE: usize = 16;

/// RTP header size.
pub const RTP_HEADER_SIZE: usize = 12;

/// Largest plaintext, in bytes, that AES-GCM encrypts.
pub const AES_GCM_MAX_PLAINTEXT: u64 = 68719476736;

#[verifier::external_type_specification]
#[verifier::external_body]
pub struct ExAeadError(aes_gcm::Error);

// ---------------------------------------------------------------------------------------------
// Names for the ciphers' results
// ---------------------------------------------------------------------------------------------

/// What XSalsa20-Poly1305 `encrypt_in_place_detached` produces for a key, a nonce and a
/// plaintext: the ciphertext and the authentication tag.
pub uninterp spec fn xsalsa20_poly1305_seal(key: Seq<u8>, nonce: Seq<u8>, plaintext: Seq<u8>) -> (Seq<u8>, Seq<u8>);

/// What XSalsa20-Poly1305 `decrypt` gives for a key, a nonce and a tagged ciphertext.
pub uninterp spec fn xsalsa20_poly1305_open(key: Seq<u8>, nonce: Seq<u8>, sealed: Seq<u8>) -> Option<Seq<u8>>;

/// What AES-256-GCM `encrypt_in_place_detached` produces for a key, a nonce and a plaintext:
/// the ciphertext and the authentication tag.
pub uninterp spec fn aes256_gcm_seal(key: Seq<u8>, nonce: Seq<u8>, plaintext: Seq<u8>) -> (Seq<u8>, Seq<u8>);

/// What AES-256-GCM `decrypt` gives for a key, a nonce and a tagged ciphertext.
pub uninterp spec fn aes256_gcm_open(key: Seq<u8>, nonce: Seq<u8>, sealed: Seq<u8>) -> Option<Seq<u8>>;

/// What XChaCha20-Poly1305 `encrypt_in_place_detached` produces for a key, a nonce and a
/// plaintext: the ciphertext and the authentication tag.
pub uninterp spec fn xchacha20_poly1305_seal(key: Seq<u8>, nonce: Seq<u8>, plaintext: Seq<u8>) -> (Seq<u8>, Seq<u8>);

/// What XChaCha20-Poly1305 `decrypt` gives for a key, a nonce and a tagged ciphertext.
pub uninterp spec fn xchacha20_poly1305_open(key: Seq<u8>, nonce: Seq<u8>, sealed: Seq<u8>) -> Option<Seq<u8>>;

/// A detached encryption of `old[start..end]` in place: the range now holds the ciphertext,
/// the rest of the buffer is unchanged, and `tag` is the authentication tag.
pub open spec fn sealed_in_place(
    parts: (Seq<u8>, Seq<u8>),
    old: Seq<u8>,
    new: Seq<u8>,
    start: int,
    end: int,
    tag: Seq<u8>,
) -> bool {
    &&& parts.0.len() == end - start
    &&& parts.1.len() == TAG_SIZE
    &&& tag == parts.1
    &&& new == old.subrange(0, start) + parts.0 + old.subrange(end, old.len() as int)
}

/// Whether ChaCha20-Poly1305 encrypts a message of `len` bytes: the cipher starts its 32-bit
/// block counter at 1, so the message may take at most `u32::MAX - 1` blocks of 64 bytes.
pub open spec fn chacha_accepts(len: nat) -> bool {
    len <= 64 * (4294967295 - 1)
}

/// Whether a message of `len` bytes passes ChaCha20-Poly1305's own length check
/// (`len / 64 < u32::MAX`) but needs more keystream than is left after block 0, so that the
/// stream cipher panics.
pub open spec fn chacha_overruns(len: nat) -> bool {
    64 * (4294967295 - 1) < len && len < 64 * 4294967295
}

/// Whether an audio frame of `len` bytes stays clear of the XChaCha20 keystream panic in
/// the mode (only the XChaCha20 mode has one).
pub open spec fn keystream_fits(mode: EncryptionMode, len: nat) -> bool {
    mode == EncryptionMode::AeadXChaCha20Poly1305Rtpsize ==> !chacha_overruns(len)
}

/// Whether a received packet of `len` bytes stays clear of the XChaCha20 keystream panic in
/// the mode: its ciphertext lies between the 12-byte header and the 16-byte tag.
pub open spec fn packet_keystream_fits(mode: EncryptionMode, len: nat) -> bool {
    mode == EncryptionMode::AeadXChaCha20Poly1305Rtpsize && len >= RTP_HEADER_SIZE + TAG_SIZE
        ==> !chacha_overruns((len - RTP_HEADER_SIZE - TAG_SIZE) as nat)
}

// ---------------------------------------------------------------------------------------------
// Trusted calls into the cipher crates
// ---------------------------------------------------------------------------------------------

/// Calls `XSalsa20Poly1305::encrypt_in_place_detached` (no associated data) on
/// `buf[start..end]`, with the cipher made from `key`. The crate's source never fails here,
/// replaces the range by the ciphertext and returns the 16-byte tag.
#[verifier::external_body]
fn xsalsa20_seal_in_place(
    key: &[u8; KEY_SIZE],
    nonce: &[u8; NONCE_SIZE],
    buf: &mut [u8],
    start: usize,
    end: usize,
) -> (r: Result<[u8; TAG_SIZE], aes_gcm::Error>)
    requires
        start <= end <= old(buf)@.len(),
    ensures
        r is Ok,
        r matches Ok(tag) ==> sealed_in_place(
            xsalsa20_poly1305_seal(key@, nonce@, old(buf)@.subrange(start as int, end as int)),
            old(buf)@,
            final(buf)@,
            start as int,
            end as int,
            tag@,
        ),
{
    match XSalsa20Poly1305::new(key.into()).encrypt_in_place_detached(nonce.into(), &[], &mut buf[start..end]) {
        Ok(tag) => Ok(tag.into()),
        Err(e) => Err(e),
    }
}

/// Calls `Aes256Gcm::encrypt_in_place_detached` (no associated data) on `buf[start..end]`,
/// with the cipher made from `key`. The crate refuses plaintexts over 2^36 bytes; otherwise
/// it replaces the range by the ciphertext and returns the 16-byte tag.
#[verifier::external_body]
fn aes256_gcm_seal_in_place(
    key: &[u8; KEY_SIZE],
    nonce: &[u8; AES_GCM_NONCE_SIZE],
    buf: &mut [u8],
    start: usize,
    end: usize,
) -> (r: Result<[u8; TAG_SIZE], aes_gcm::Error>)
    requires
        start <= end <= old(buf)@.len(),
    ensures
        r is Ok <==> end - start <= AES_GCM_MAX_PLAINTEXT,
        r matches Ok(tag) ==> sealed_in_place(
            aes256_gcm_seal(key@, nonce@, old(buf)@.subrange(start as int, end as int)),
            old(buf)@,
            final(buf)@,
            start as int,
            end as int,
            tag@,
        ),
{
    match Aes256Gcm::new(key.into()).encrypt_in_place_detached(nonce.into(), &[], &mut buf[start..end]) {
        Ok(tag) => Ok(tag.into()),
        Err(e) => Err(e),
    }
}

/// Calls `XChaCha20Poly1305::encrypt_in_place_detached` (no associated data) on
/// `buf[start..end]`, with the cipher made from `key`. The crate refuses messages whose
/// 64-byte block count reaches `u32::MAX`, and its stream cipher panics on the messages just
/// below that which need more than the `u32::MAX - 1` blocks left after block 0 (left out
/// here); otherwise it replaces the range by the ciphertext and returns the 16-byte tag.
#[verifier::external_body]
fn xchacha20_seal_in_place(
    key: &[u8; KEY_SIZE],
    nonce: &[u8; NONCE_SIZE],
    buf: &mut [u8],
    start: usize,
    end: usize,
) -> (r: Result<[u8; TAG_SIZE], aes_gcm::Error>)
    requires
        start <= end <= old(buf)@.len(),
        !chacha_overruns((end - start) as nat),
    ensures
        r is Ok <==> chacha_accepts((end - start) as nat),
        r matches Ok(tag) ==> sealed_in_place(
            xchacha20_poly1305_seal(key@, nonce@, old(buf)@.subrange(start as int, end as int)),
            old(buf)@,
            final(buf)@,
            start as int,
            end as int,
            tag@,
        ),
{
    match XChaCha20Poly1305::new(key.into()).encrypt_in_place_detached(nonce.into(), &[], &mut buf[start..end]) {
        Ok(tag) => Ok(tag.into()),
        Err(e) => Err(e),
    }
}

/// Calls `Aead::encrypt` of `XSalsa20Poly1305` with the cipher made from `key`. The crate's
/// source never fails here and returns the tag followed by the detached ciphertext.
#[verifier::external_body]
fn xsalsa20_encrypt(key: &[u8; KEY_SIZE], nonce: &[u8; NONCE_SIZE], plaintext: &[u8]) -> (r: Result<Vec<u8>, aes_gcm::Error>)
    ensures
        r is Ok,
        r matches Ok(c) ==> ({
            let s = xsalsa20_poly1305_seal(key@, nonce@, plaintext@);
            &&& s.0.len() == plaintext@.len()
            &&& s.1.len() == TAG_SIZE
            &&& c@ == s.1 + s.0
        }),
{
    XSalsa20Poly1305::new(key.into()).encrypt(nonce.into(), plaintext)
}

/// Calls `Aead::encrypt` of `Aes256Gcm` with the cipher made from `key`. The crate refuses
/// plaintexts over 2^36 bytes; otherwise it returns the detached ciphertext followed by the tag.
#[verifier::external_body]
fn aes256_gcm_encrypt(key: &[u8; KEY_SIZE], nonce: &[u8; AES_GCM_NONCE_SIZE], plaintext: &[u8]) -> (r: Result<Vec<u8>, aes_gcm::Error>)
    ensures
        r is Ok <==> plaintext@.len() <= AES_GCM_MAX_PLAINTEXT,
        r matches Ok(c) ==> ({
            let s = aes256_gcm_seal(key@, nonce@, plaintext@);
            &&& s.0.len() == plaintext@.len()
            &&& s.1.len() == TAG_SIZE
            &&& c@ == s.0 + s.1
        }),
{
    Aes256Gcm::new(key.into()).encrypt(nonce.into(), plaintext)
}

/// Calls `Aead::encrypt` of `XChaCha20Poly1305` with the cipher made from `key`. The crate
/// refuses messages whose 64-byte block count reaches `u32::MAX`, and its stream cipher
/// panics on the messages just below that which need more than the `u32::MAX - 1` blocks left
/// after block 0 (left out here); otherwise it returns the detached ciphertext followed by the
/// tag.
#[verifier::external_body]
fn xchacha20_encrypt(key: &[u8; KEY_SIZE], nonce: &[u8; NONCE_SIZE], plaintext: &[u8]) -> (r: Result<Vec<u8>, aes_gcm::Error>)
    requires
        !chacha_overruns(plaintext@.len()),
    ensures
        r is Ok <==> chacha_accepts(plaintext@.len()),
        r matches Ok(c) ==> ({
            let s = xchacha20_poly1305_seal(key@, nonce@, plaintext@);
            &&& s.0.len() == plaintext@.len()
            &&& s.1.len() == TAG_SIZE
            &&& c@ == s.0 + s.1
        }),
{
    XChaCha20Poly1305::new(key.into()).encrypt(nonce.into(), plaintext)
}

/// Calls `Aead::decrypt` of `XSalsa20Poly1305` with the cipher made from `key`. Besides naming
/// the result, the contract states the cipher's defining property, which its source shows:
/// the tag-then-ciphertext that encryption produced for a plaintext opens to that plaintext.
#[verifier::external_body]
fn xsalsa20_decrypt(key: &[u8; KEY_SIZE], nonce: &[u8; NONCE_SIZE], sealed: &[u8]) -> (r: Result<Vec<u8>, aes_gcm::Error>)
    ensures
        r is Ok <==> xsalsa20_poly1305_open(key@, nonce@, sealed@) is Some,
        r matches Ok(p) ==> xsalsa20_poly1305_open(key@, nonce@, sealed@) == Some(p@),
        forall|p: Seq<u8>|
            #![trigger xsalsa20_poly1305_seal(key@, nonce@, p)]
            sealed@ == xsalsa20_poly1305_seal(key@, nonce@, p).1 + xsalsa20_poly1305_seal(key@, nonce@, p).0
                ==> (r is Ok && r.unwrap()@ == p),
{
    XSalsa20Poly1305::new(key.into()).decrypt(nonce.into(), sealed)
}

/// Calls `Aead::decrypt` of `Aes256Gcm` with the cipher made from `key`. Besides naming the
/// result, the contract states the cipher's defining property, which its source shows: the
/// ciphertext-then-tag that encryption produced for a plaintext it accepts opens to that
/// plaintext.
#[verifier::external_body]
fn aes256_gcm_decrypt(key: &[u8; KEY_SIZE], nonce: &[u8; AES_GCM_NONCE_SIZE], sealed: &[u8]) -> (r: Result<Vec<u8>, aes_gcm::Error>)
    ensures
        r is Ok <==> aes256_gcm_open(key@, nonce@, sealed@) is Some,
        r matches Ok(p) ==> aes256_gcm_open(key@, nonce@, sealed@) == Some(p@),
        forall|p: Seq<u8>|
            #![trigger aes256_gcm_seal(key@, nonce@, p)]
            p.len() <= AES_GCM_MAX_PLAINTEXT && sealed@ == aes256_gcm_seal(key@, nonce@, p).0 + aes256_gcm_seal(key@, nonce@, p).1
                ==> (r is Ok && r.unwrap()@ == p),
{
    Aes256Gcm::new(key.into()).decrypt(nonce.into(), sealed)
}

/// Calls `Aead::decrypt` of `XChaCha20Poly1305` with the cipher made from `key`. Besides
/// naming the result, the contract states the cipher's defining property, which its source
/// shows: the ciphertext-then-tag that encryption produced for a plaintext it accepts opens
/// to that plaintext. A ciphertext (the input less its 16-byte tag) that passes the crate's
/// length check but needs more keystream than is left after block 0 makes the stream cipher
/// panic once the tag verifies; such inputs are left out.
#[verifier::external_body]
fn xchacha20_decrypt(key: &[u8; KEY_SIZE], nonce: &[u8; NONCE_SIZE], sealed: &[u8]) -> (r: Result<Vec<u8>, aes_gcm::Error>)
    requires
        sealed@.len() >= TAG_SIZE ==> !chacha_overruns((sealed@.len() - TAG_SIZE) as nat),
    ensures
        r is Ok <==> xchacha20_poly1305_open(key@, nonce@, sealed@) is Some,
        r matches Ok(p) ==> xchacha20_poly1305_open(key@, nonce@, sealed@) == Some(p@),
        forall|p: Seq<u8>|
            #![trigger xchacha20_poly1305_seal(key@, nonce@, p)]
            chacha_accepts(p.len()) && sealed@ == xchacha20_poly1305_seal(key@, nonce@, p).0 + xchacha20_poly1305_seal(key@, nonce@, p).1
                ==> (r is Ok && r.unwrap()@ == p),
{
    XChaCha20Poly1305::new(key.into()).decrypt(nonce.into(), sealed)
}

/// The message of an `aead::Error` (`Display` writes "aead::Error").
#[verifier::external_body]
fn aead_error_text(e: &aes_gcm::Error) -> (s: String)
    ensures
        s@ == "aead::Error"@,
{
    e.to_string()
}

/// A nonce of random bytes from `rand`'s thread-local generator. Nothing is promised of the
/// bytes.
#[verifier::external_body]
fn random_nonce() -> [u8; NONCE_SIZE] {
    rand::rng().random()
}

// ---------------------------------------------------------------------------------------------
// Packet layouts
// ---------------------------------------------------------------------------------------------

/// Tag and ciphertext, as the mode's cipher lays them out when it returns one buffer.
pub open spec fn sealed_message(mode: EncryptionMode, key: Seq<u8>, nonce: Seq<u8>, plaintext: Seq<u8>) -> Seq<u8> {
    match mode {
        EncryptionMode::AeadAes256Gcm => aes256_gcm_seal(key, nonce, plaintext).0 + aes256_gcm_seal(key, nonce, plaintext).1,
        EncryptionMode::AeadXChaCha20Poly1305Rtpsize => xchacha20_poly1305_seal(key, nonce, plaintext).0
            + xchacha20_poly1305_seal(key, nonce, plaintext).1,
        _ => xsalsa20_poly1305_seal(key, nonce, plaintext).1 + xsalsa20_poly1305_seal(key, nonce, plaintext).0,
    }
}

/// Detached ciphertext and tag of the mode's cipher.
pub open spec fn detached_message(mode: EncryptionMode, key: Seq<u8>, nonce: Seq<u8>, plaintext: Seq<u8>) -> (Seq<u8>, Seq<u8>) {
    match mode {
        EncryptionMode::AeadAes256Gcm => aes256_gcm_seal(key, nonce, plaintext),
        EncryptionMode::AeadXChaCha20Poly1305Rtpsize => xchacha20_poly1305_seal(key, nonce, plaintext),
        _ => xsalsa20_poly1305_seal(key, nonce, plaintext),
    }
}

/// What the mode's cipher gives back when opening a tagged ciphertext.
pub open spec fn opened_message(mode: EncryptionMode, key: Seq<u8>, nonce: Seq<u8>, sealed: Seq<u8>) -> Option<Seq<u8>> {
    match mode {
        EncryptionMode::AeadAes256Gcm => aes256_gcm_open(key, nonce, sealed),
        EncryptionMode::AeadXChaCha20Poly1305Rtpsize => xchacha20_poly1305_open(key, nonce, sealed),
        _ => xsalsa20_poly1305_open(key, nonce, sealed),
    }
}

/// The nonce under which a packet is sealed: a little-endian counter padded with zeros (lite
/// and AES-GCM), a random nonce (suffix), or the RTP header padded with zeros.
pub open spec fn packet_nonce(mode: EncryptionMode, counter: u32, header: Seq<u8>, random: Seq<u8>) -> Seq<u8> {
    match mode {
        EncryptionMode::XSalsa20Poly1305Lite => le32(counter) + zeros(20),
        EncryptionMode::XSalsa20Poly1305Suffix => random,
        EncryptionMode::XSalsa20Poly1305 => header + zeros(12),
        EncryptionMode::AeadAes256Gcm => le32(counter) + zeros(8),
        EncryptionMode::AeadXChaCha20Poly1305Rtpsize => header + zeros(12),
    }
}

/// The bytes that follow the sealed audio: the counter (lite, AES-GCM), the whole nonce
/// (suffix), or nothing.
pub open spec fn packet_trailer(mode: EncryptionMode, counter: u32, random: Seq<u8>) -> Seq<u8> {
    match mode {
        EncryptionMode::XSalsa20Poly1305Lite => le32(counter),
        EncryptionMode::XSalsa20Poly1305Suffix => random,
        EncryptionMode::AeadAes256Gcm => le32(counter),
        _ => Seq::empty(),
    }
}

/// Length of the trailer of a mode.
pub open spec fn trailer_len(mode: EncryptionMode) -> nat {
    match mode {
        EncryptionMode::XSalsa20Poly1305Lite => 4,
        EncryptionMode::XSalsa20Poly1305Suffix => 24,
        EncryptionMode::AeadAes256Gcm => 4,
        _ => 0,
    }
}

/// Whether the mode takes its nonce from the counter, which then advances per packet.
pub open spec fn uses_counter(mode: EncryptionMode) -> bool {
    mode == EncryptionMode::XSalsa20Poly1305Lite || mode == EncryptionMode::AeadAes256Gcm
}

/// The counter after one packet: advanced with wrap-around in counter modes, else unchanged.
pub open spec fn next_counter(mode: EncryptionMode, counter: u32) -> u32 {
    if uses_counter(mode) {
        if counter == u32::MAX {
            0
        } else {
            (counter + 1) as u32
        }
    } else {
        counter
    }
}

/// Whether the mode's cipher accepts an audio frame of `len` bytes.
pub open spec fn accepts_len(mode: EncryptionMode, len: nat) -> bool {
    match mode {
        EncryptionMode::AeadAes256Gcm => len <= AES_GCM_MAX_PLAINTEXT,
        EncryptionMode::AeadXChaCha20Poly1305Rtpsize => chacha_accepts(len),
        _ => true,
    }
}

/// Length of a packet that carries `audio_len` bytes of audio.
pub open spec fn packet_len(mode: EncryptionMode, audio_len: nat) -> nat {
    (RTP_HEADER_SIZE + audio_len + TAG_SIZE + trailer_len(mode)) as nat
}

/// The packet that `encrypt` builds: header, sealed audio, trailer.
pub open spec fn encrypted_packet(
    mode: EncryptionMode,
    key: Seq<u8>,
    counter: u32,
    header: Seq<u8>,
    audio: Seq<u8>,
    random: Seq<u8>,
) -> Seq<u8> {
    header + sealed_message(mode, key, packet_nonce(mode, counter, header, random), audio) + packet_trailer(
        mode,
        counter,
        random,
    )
}

/// The packet that `encrypt_into` writes from the detached parts of the mode's cipher: the
/// header, then the tag before the ciphertext (XSalsa20 modes) or the ciphertext before the
/// tag (AEAD modes), then the trailer.
pub open spec fn encrypted_packet_into(
    mode: EncryptionMode,
    key: Seq<u8>,
    counter: u32,
    header: Seq<u8>,
    audio: Seq<u8>,
    random: Seq<u8>,
) -> Seq<u8> {
    let d = detached_message(mode, key, packet_nonce(mode, counter, header, random), audio);
    let body = match mode {
        EncryptionMode::AeadAes256Gcm => d.0 + d.1,
        EncryptionMode::AeadXChaCha20Poly1305Rtpsize => d.0 + d.1,
        _ => d.1 + d.0,
    };
    header + body + packet_trailer(mode, counter, random)
}

/// Shortest packet that a mode's decryption looks at.
pub open spec fn min_packet_len(mode: EncryptionMode) -> nat {
    (RTP_HEADER_SIZE + TAG_SIZE + trailer_len(mode)) as nat
}

/// The nonce that decryption rebuilds from a received packet.
pub open spec fn received_nonce(mode: EncryptionMode, packet: Seq<u8>) -> Seq<u8> {
    let n = packet.len() as int;
    match mode {
        EncryptionMode::XSalsa20Poly1305Lite => packet.subrange(n - 4, n) + zeros(20),
        EncryptionMode::XSalsa20Poly1305Suffix => packet.subrange(n - 24, n),
        EncryptionMode::AeadAes256Gcm => packet.subrange(n - 4, n) + zeros(8),
        _ => packet.subrange(0, 12) + zeros(12),
    }
}

/// The tagged ciphertext of a received packet: between the header and the trailer.
pub open spec fn received_sealed(mode: EncryptionMode, packet: Seq<u8>) -> Seq<u8> {
    packet.subrange(RTP_HEADER_SIZE as int, packet.len() - trailer_len(mode))
}

/// What decrypting a packet gives: its header and the opened audio, if the packet is long
/// enough and the cipher opens it.
pub open spec fn decrypted_packet(mode: EncryptionMode, key: Seq<u8>, packet: Seq<u8>) -> Option<(Seq<u8>, Seq<u8>)> {
    if packet.len() < min_packet_len(mode) {
        None
    } else {
        match opened_message(mode, key, received_nonce(mode, packet), received_sealed(mode, packet)) {
            Some(audio) => Some((packet.subrange(0, RTP_HEADER_SIZE as int), audio)),
            None => None,
        }
    }
}

/// The message of the error for a packet too short for a mode.
pub open spec fn too_short_message(mode: EncryptionMode) -> Seq<char> {
    match mode {
        EncryptionMode::XSalsa20Poly1305Lite => "Packet too short for lite mode"@,
        EncryptionMode::XSalsa20Poly1305Suffix => "Packet too short for suffix mode"@,
        EncryptionMode::XSalsa20Poly1305 => "Packet too short for normal mode"@,
        EncryptionMode::AeadAes256Gcm => "Packet too short for aes256_gcm"@,
        EncryptionMode::AeadXChaCha20Poly1305Rtpsize => "Packet too short for xchacha20_rtpsize"@,
    }
}

/// An encryption error with the given message.
pub open spec fn is_encryption_error(e: VoiceError, msg: Seq<char>) -> bool {
    e matches VoiceError::Encryption(m) && m@ == msg
}

/// Whether a decryption result `r` of `packet` gives back the header and audio of every
/// packet that `encrypt` could have built with this mode and key and that equals `packet`.
pub open spec fn opens_own_packets(
    mode: EncryptionMode,
    key: Seq<u8>,
    packet: Seq<u8>,
    r: Result<([u8; RTP_HEADER_SIZE], Vec<u8>), VoiceError>,
) -> bool {
    forall|counter: u32, header: Seq<u8>, audio: Seq<u8>, random: Seq<u8>|
        #![trigger encrypted_packet(mode, key, counter, header, audio, random)]
        header.len() == RTP_HEADER_SIZE && random.len() == NONCE_SIZE && accepts_len(mode, audio.len())
            && packet.len() == packet_len(mode, audio.len()) && packet == encrypted_packet(
            mode,
            key,
            counter,
            header,
            audio,
            random,
        ) ==> (r matches Ok((h, a)) && h@ == header && a@ == audio)
}

/// A packet shorter than the mode's shortest is no packet that `encrypt` builds, so any
/// result opens all of them.
proof fn lemma_short_packet_opens_own(
    mode: EncryptionMode,
    key: Seq<u8>,
    packet: Seq<u8>,
    r: Result<([u8; RTP_HEADER_SIZE], Vec<u8>), VoiceError>,
)
    requires
        packet.len() < min_packet_len(mode),
    ensures
        opens_own_packets(mode, key, packet, r),
{
}

/// A packet that `encrypt` built splits back into its header, the sealed audio under the
/// packet's nonce, and its trailer, where decryption looks for them.
proof fn lemma_own_packet_parts(
    mode: EncryptionMode,
    key: Seq<u8>,
    counter: u32,
    header: Seq<u8>,
    audio: Seq<u8>,
    random: Seq<u8>,
)
    requires
        header.len() == RTP_HEADER_SIZE,
        random.len() == NONCE_SIZE,
    ensures
        ({
            let packet = encrypted_packet(mode, key, counter, header, audio, random);
            let nonce = packet_nonce(mode, counter, header, random);
            &&& received_nonce(mode, packet) == nonce
            &&& received_sealed(mode, packet) == sealed_message(mode, key, nonce, audio)
            &&& packet.subrange(0, RTP_HEADER_SIZE as int) == header
        }),
{
    let nonce = packet_nonce(mode, counter, header, random);
    let sealed = sealed_message(mode, key, nonce, audio);
    let trailer = packet_trailer(mode, counter, random);
    lemma_split3(header, sealed, trailer);
    let packet = encrypted_packet(mode, key, counter, header, audio, random);
    assert(received_nonce(mode, packet) =~= nonce);
}

/// When the cipher opens every sealed message that the mode builds under the packet's nonce,
/// and decryption returns the packet's header with what the cipher opened, the result opens
/// every packet that `encrypt` built.
proof fn lemma_opens_own_packets(
    mode: EncryptionMode,
    key: Seq<u8>,
    packet: Seq<u8>,
    res: Result<Vec<u8>, aes_gcm::Error>,
    r: Result<([u8; RTP_HEADER_SIZE], Vec<u8>), VoiceError>,
)
    requires
        forall|p: Seq<u8>|
            #![trigger sealed_message(mode, key, received_nonce(mode, packet), p)]
            accepts_len(mode, p.len()) && received_sealed(mode, packet) == sealed_message(
                mode,
                key,
                received_nonce(mode, packet),
                p,
            ) ==> (res matches Ok(q) && q@ == p),
        res matches Ok(q) ==> (r matches Ok((h, a)) && h@ == packet.subrange(0, RTP_HEADER_SIZE as int) && a@ == q@),
    ensures
        opens_own_packets(mode, key, packet, r),
{
    assert forall|counter: u32, header: Seq<u8>, audio: Seq<u8>, random: Seq<u8>|
        #![trigger encrypted_packet(mode, key, counter, header, audio, random)]
        header.len() == RTP_HEADER_SIZE && random.len() == NONCE_SIZE && accepts_len(mode, audio.len())
            && packet.len() == packet_len(mode, audio.len()) && packet == encrypted_packet(
            mode,
            key,
            counter,
            header,
            audio,
            random,
        ) implies (r matches Ok((h, a)) && h@ == header && a@ == audio) by {
        lemma_own_packet_parts(mode, key, counter, header, audio, random);
        assert(received_sealed(mode, packet) == sealed_message(mode, key, received_nonce(mode, packet), audio));
    }
}

/// In every mode, `encrypt_into` writes exactly the packet that `encrypt` returns.
pub proof fn lemma_into_layout_matches(
    mode: EncryptionMode,
    key: Seq<u8>,
    counter: u32,
    header: Seq<u8>,
    audio: Seq<u8>,
    random: Seq<u8>,
)
    ensures
        encrypted_packet_into(mode, key, counter, header, audio, random) == encrypted_packet(
            mode,
            key,
            counter,
            header,
            audio,
            random,
        ),
{
    assert(encrypted_packet_into(mode, key, counter, header, audio, random) =~= encrypted_packet(
        mode,
        key,
        counter,
        header,
        audio,
        random,
    ));
}

/// The packet that `encrypt` builds in each mode, written out over the ciphers' results:
/// - XChaCha20 (rtpsize): the header, then the ciphertext and the tag of the audio sealed
///   under the header followed by 12 zero bytes;
/// - plain XSalsa20: the header, then the tag and the ciphertext under the same nonce;
/// - XSalsa20 lite: the header, the tag and the ciphertext under the counter's 4
///   little-endian bytes followed by 20 zero bytes, then those 4 bytes;
/// - XSalsa20 suffix: the header, the tag and the ciphertext under the 24 random bytes, then
///   those bytes;
/// - AES-256-GCM: the header, the ciphertext and the tag under the counter's 4 little-endian
///   bytes followed by 8 zero bytes, then those 4 bytes.
pub proof fn lemma_packet_layouts(key: Seq<u8>, counter: u32, header: Seq<u8>, audio: Seq<u8>, random: Seq<u8>)
    ensures
        ({
            let s = xchacha20_poly1305_seal(key, header + Seq::new(12, |i: int| 0u8), audio);
            encrypted_packet(EncryptionMode::AeadXChaCha20Poly1305Rtpsize, key, counter, header, audio, random)
                == header + s.0 + s.1
        }),
        ({
            let s = xsalsa20_poly1305_seal(key, header + Seq::new(12, |i: int| 0u8), audio);
            encrypted_packet(EncryptionMode::XSalsa20Poly1305, key, counter, header, audio, random) == header + s.1
                + s.0
        }),
        ({
            let c = seq![(counter % 256) as u8, ((counter / 256) % 256) as u8, ((counter / 65536) % 256) as u8, (counter / 16777216) as u8];
            let s = xsalsa20_poly1305_seal(key, c + Seq::new(20, |i: int| 0u8), audio);
            encrypted_packet(EncryptionMode::XSalsa20Poly1305Lite, key, counter, header, audio, random) == header
                + s.1 + s.0 + c
        }),
        ({
            let s = xsalsa20_poly1305_seal(key, random, audio);
            encrypted_packet(EncryptionMode::XSalsa20Poly1305Suffix, key, counter, header, audio, random) == header
                + s.1 + s.0 + random
        }),
        ({
            let c = seq![(counter % 256) as u8, ((counter / 256) % 256) as u8, ((counter / 65536) % 256) as u8, (counter / 16777216) as u8];
            let s = aes256_gcm_seal(key, c + Seq::new(8, |i: int| 0u8), audio);
            encrypted_packet(EncryptionMode::AeadAes256Gcm, key, counter, header, audio, random) == header + s.0 + s.1
                + c
        }),
{
    assert(le32(counter) =~= seq![(counter % 256) as u8, ((counter / 256) % 256) as u8, ((counter / 65536) % 256) as u8, (counter / 16777216) as u8]);
    assert(zeros(12) =~= Seq::new(12, |i: int| 0u8));
    assert(zeros(20) =~= Seq::new(20, |i: int| 0u8));
    assert(zeros(8) =~= Seq::new(8, |i: int| 0u8));
    let e = Seq::<u8>::empty();
    assert(header + xchacha20_poly1305_seal(key, header + zeros(12), audio).0 + xchacha20_poly1305_seal(key, header + zeros(12), audio).1 + e
        =~= header + xchacha20_poly1305_seal(key, header + zeros(12), audio).0 + xchacha20_poly1305_seal(key, header + zeros(12), audio).1);
    assert(header + xsalsa20_poly1305_seal(key, header + zeros(12), audio).1 + xsalsa20_poly1305_seal(key, header + zeros(12), audio).0 + e
        =~= header + xsalsa20_poly1305_seal(key, header + zeros(12), audio).1 + xsalsa20_poly1305_seal(key, header + zeros(12), audio).0);
    assert(encrypted_packet(EncryptionMode::XSalsa20Poly1305Lite, key, counter, header, audio, random) =~= header
        + xsalsa20_poly1305_seal(key, le32(counter) + zeros(20), audio).1 + xsalsa20_poly1305_seal(key, le32(counter) + zeros(20), audio).0 + le32(counter));
    assert(encrypted_packet(EncryptionMode::XSalsa20Poly1305Suffix, key, counter, header, audio, random) =~= header
        + xsalsa20_poly1305_seal(key, random, audio).1 + xsalsa20_poly1305_seal(key, random, audio).0 + random);
    assert(encrypted_packet(EncryptionMode::AeadAes256Gcm, key, counter, header, audio, random) =~= header
        + aes256_gcm_seal(key, le32(counter) + zeros(8), audio).0 + aes256_gcm_seal(key, le32(counter) + zeros(8), audio).1 + le32(counter));
}

/// What decrypting a packet gives in each mode, written out over the ciphers' results: a
/// packet shorter than the header, the tag and the trailer gives nothing; otherwise the
/// header and what the cipher opens from the bytes between the header and the trailer,
/// under the nonce that the mode takes from the packet:
/// - XChaCha20 (rtpsize) and plain XSalsa20: the header followed by 12 zero bytes;
/// - XSalsa20 lite: the last 4 bytes followed by 20 zero bytes;
/// - XSalsa20 suffix: the last 24 bytes;
/// - AES-256-GCM: the last 4 bytes followed by 8 zero bytes.
pub proof fn lemma_received_layouts(key: Seq<u8>, packet: Seq<u8>)
    ensures
        ({
            let n = packet.len() as int;
            let h = packet.subrange(0, 12);
            &&& decrypted_packet(EncryptionMode::AeadXChaCha20Poly1305Rtpsize, key, packet) == if n < 28 {
                None
            } else {
                match xchacha20_poly1305_open(key, h + Seq::new(12, |i: int| 0u8), packet.subrange(12, n)) {
                    Some(a) => Some((h, a)),
                    None => None,
                }
            }
            &&& decrypted_packet(EncryptionMode::XSalsa20Poly1305, key, packet) == if n < 28 {
                None
            } else {
                match xsalsa20_poly1305_open(key, h + Seq::new(12, |i: int| 0u8), packet.subrange(12, n)) {
                    Some(a) => Some((h, a)),
                    None => None,
                }
            }
            &&& decrypted_packet(EncryptionMode::XSalsa20Poly1305Lite, key, packet) == if n < 32 {
                None
            } else {
                match xsalsa20_poly1305_open(
                    key,
                    packet.subrange(n - 4, n) + Seq::new(20, |i: int| 0u8),
                    packet.subrange(12, n - 4),
                ) {
                    Some(a) => Some((h, a)),
                    None => None,
                }
            }
            &&& decrypted_packet(EncryptionMode::XSalsa20Poly1305Suffix, key, packet) == if n < 52 {
                None
            } else {
                match xsalsa20_poly1305_open(key, packet.subrange(n - 24, n), packet.subrange(12, n - 24)) {
                    Some(a) => Some((h, a)),
                    None => None,
                }
            }
            &&& decrypted_packet(EncryptionMode::AeadAes256Gcm, key, packet) == if n < 32 {
                None
            } else {
                match aes256_gcm_open(key, packet.subrange(n - 4, n) + Seq::new(8, |i: int| 0u8), packet.subrange(12, n - 4)) {
                    Some(a) => Some((h, a)),
                    None => None,
                }
            }
        }),
{
    assert(zeros(12) =~= Seq::new(12, |i: int| 0u8));
    assert(zeros(20) =~= Seq::new(20, |i: int| 0u8));
    assert(zeros(8) =~= Seq::new(8, |i: int| 0u8));
}

// ---------------------------------------------------------------------------------------------
// Byte helpers
// ---------------------------------------------------------------------------------------------

/// Appends bytes to a vector.
fn extend_bytes(v: &mut Vec<u8>, s: &[u8])
    ensures
        final(v)@ == old(v)@ + s@,
{
    v.extend_from_slice(s);
    assert(final(v)@ =~= old(v)@ + s@);
}

/// Copies `src` into `dst` at `at`.
fn copy_into(dst: &mut [u8], at: usize, src: &[u8])
    requires
        at + src@.len() <= old(dst)@.len(),
    ensures
        final(dst)@ == old(dst)@.subrange(0, at as int) + src@ + old(dst)@.subrange(at + src@.len(), old(dst)@.len() as int),
{
    let n = src.len();
    let dl = dst.len();
    let mut i: usize = 0;
    while i < n
        invariant
            n == src@.len(),
            dl == dst@.len(),
            at + n <= dst@.len(),
            dst@.len() == old(dst)@.len(),
            i <= n,
            forall|j: int| 0 <= j < at ==> dst@[j] == old(dst)@[j],
            forall|j: int| at + n <= j < dst@.len() ==> dst@[j] == old(dst)@[j],
            forall|j: int| 0 <= j < i ==> dst@[at + j] == src@[j],
        decreases n - i,
    {
        dst[at + i] = src[i];
        i = i + 1;
    }
    assert(final(dst)@ =~= old(dst)@.subrange(0, at as int) + src@ + old(dst)@.subrange(at + src@.len(), old(dst)@.len() as int));
}

/// The first twelve bytes of a packet.
fn header_of(packet: &[u8]) -> (h: [u8; RTP_HEADER_SIZE])
    requires
        packet@.len() >= RTP_HEADER_SIZE,
    ensures
        h@ == packet@.subrange(0, RTP_HEADER_SIZE as int),
{
    let mut h = [0u8; 12];
    let mut i: usize = 0;
    while i < RTP_HEADER_SIZE
        invariant
            packet@.len() >= RTP_HEADER_SIZE,
            h@.len() == RTP_HEADER_SIZE,
            i <= RTP_HEADER_SIZE,
            forall|j: int| 0 <= j < i ==> h@[j] == packet@[j],
        decreases RTP_HEADER_SIZE - i,
    {
        h[i] = packet[i];
        i = i + 1;
    }
    assert(h@ =~= packet@.subrange(0, RTP_HEADER_SIZE as int));
    h
}

/// A counter nonce: the little-endian counter followed by zeros.
fn counter_nonce24(counter: u32) -> (n: [u8; NONCE_SIZE])
    ensures
        n@ == le32(counter) + zeros(20),
{
    let c = le32_bytes(counter);
    let mut n = [0u8; 24];
    n[0] = c[0];
    n[1] = c[1];
    n[2] = c[2];
    n[3] = c[3];
    assert(n@ =~= le32(counter) + zeros(20));
    n
}

/// A counter nonce for AES-GCM: the little-endian counter followed by zeros.
fn counter_nonce12(counter: u32) -> (n: [u8; AES_GCM_NONCE_SIZE])
    ensures
        n@ == le32(counter) + zeros(8),
{
    let c = le32_bytes(counter);
    let mut n = [0u8; 12];
    n[0] = c[0];
    n[1] = c[1];
    n[2] = c[2];
    n[3] = c[3];
    assert(n@ =~= le32(counter) + zeros(8));
    n
}

/// A header nonce: the twelve bytes of an RTP header followed by zeros.
fn header_nonce(header: &[u8; RTP_HEADER_SIZE]) -> (n: [u8; NONCE_SIZE])
    ensures
        n@ == header@ + zeros(12),
{
    let mut n = [0u8; 24];
    let mut i: usize = 0;
    while i < RTP_HEADER_SIZE
        invariant
            n@.len() == NONCE_SIZE,
            i <= RTP_HEADER_SIZE,
            forall|j: int| 0 <= j < i ==> n@[j] == header@[j],
            forall|j: int| RTP_HEADER_SIZE <= j < NONCE_SIZE ==> n@[j] == 0,
        decreases RTP_HEADER_SIZE - i,
    {
        n[i] = header[i];
        i = i + 1;
    }
    assert(n@ =~= header@ + zeros(12));
    n
}

/// A nonce of 24 bytes taken from the end of a packet.
fn tail_nonce24(packet: &[u8]) -> (n: [u8; NONCE_SIZE])
    requires
        packet@.len() >= NONCE_SIZE,
    ensures
        n@ == packet@.subrange(packet@.len() - 24, packet@.len() as int),
{
    let pl = packet.len();
    let start = pl - NONCE_SIZE;
    let mut n = [0u8; 24];
    let mut i: usize = 0;
    while i < NONCE_SIZE
        invariant
            pl == packet@.len(),
            start == packet@.len() - NONCE_SIZE,
            n@.len() == NONCE_SIZE,
            i <= NONCE_SIZE,
            forall|j: int| 0 <= j < i ==> n@[j] == packet@[start + j],
        decreases NONCE_SIZE - i,
    {
        n[i] = packet[start + i];
        i = i + 1;
    }
    assert(n@ =~= packet@.subrange(packet@.len() - 24, packet@.len() as int));
    n
}

/// The last four bytes of a packet, followed by `pad` zero bytes, as a 24-byte nonce.
fn tail_counter_nonce24(packet: &[u8]) -> (n: [u8; NONCE_SIZE])
    requires
        packet@.len() >= 4,
    ensures
        n@ == packet@.subrange(packet@.len() - 4, packet@.len() as int) + zeros(20),
{
    let k = packet.len() - 4;
    let mut n = [0u8; 24];
    n[0] = packet[k];
    n[1] = packet[k + 1];
    n[2] = packet[k + 2];
    n[3] = packet[k + 3];
    assert(n@ =~= packet@.subrange(packet@.len() - 4, packet@.len() as int) + zeros(20));
    n
}

/// The last four bytes of a packet followed by zeros, as a 12-byte AES-GCM nonce.
fn tail_counter_nonce12(packet: &[u8]) -> (n: [u8; AES_GCM_NONCE_SIZE])
    requires
        packet@.len() >= 4,
    ensures
        n@ == packet@.subrange(packet@.len() - 4, packet@.len() as int) + zeros(8),
{
    let k = packet.len() - 4;
    let mut n = [0u8; 12];
    n[0] = packet[k];
    n[1] = packet[k + 1];
    n[2] = packet[k + 2];
    n[3] = packet[k + 3];
    assert(n@ =~= packet@.subrange(packet@.len() - 4, packet@.len() as int) + zeros(8));
    n
}

/// An encryption error carrying a message.
fn encryption_error(msg: &str) -> (e: VoiceError)
    ensures
        is_encryption_error(e, msg@),
{
    VoiceError::Encryption(String::from_str(msg))
}

/// The encryption error for a failed cipher call.
fn cipher_error(e: &aes_gcm::Error) -> (r: VoiceError)
    ensures
        is_encryption_error(r, "aead::Error"@),
{
    VoiceError::Encryption(aead_error_text(e))
}

// ---------------------------------------------------------------------------------------------
// The voice packet encryptor
// ---------------------------------------------------------------------------------------------

/// Voice packet encryptor/decryptor.
#[derive(Clone)]
pub struct VoiceCrypto {
    /// Secret key that the session description carried.
    key: [u8; KEY_SIZE],
    /// Encryption mode.
    mode: EncryptionMode,
    /// Nonce counter for lite mode.
    nonce_counter: u32,
}

/// Shows that a concatenation of three sequences splits back into its parts.
proof fn lemma_split3(h: Seq<u8>, m: Seq<u8>, t: Seq<u8>)
    ensures
        (h + m + t).subrange(0, h.len() as int) == h,
        (h + m + t).subrange(h.len() as int, (h + m + t).len() - t.len()) == m,
        (h + m + t).subrange((h + m + t).len() - t.len(), (h + m + t).len() as int) == t,
{
    assert((h + m + t).subrange(0, h.len() as int) =~= h);
    assert((h + m + t).subrange(h.len() as int, (h + m + t).len() - t.len()) =~= m);
    assert((h + m + t).subrange((h + m + t).len() - t.len(), (h + m + t).len() as int) =~= t);
}

impl VoiceCrypto {
    /// The secret key.
    pub closed spec fn secret_key(&self) -> Seq<u8> {
        self.key@
    }

    /// The encryption mode.
    pub closed spec fn encryption_mode(&self) -> EncryptionMode {
        self.mode
    }

    /// The nonce counter of the counter modes.
    pub closed spec fn nonce_counter(&self) -> u32 {
        self.nonce_counter
    }

    /// What an encryption of `audio` under `rtp_header` does: the counter advances in the
    /// counter modes, the cipher refuses only what it refuses, and the packet is the header,
    /// the sealed audio and the trailer, under some random nonce in suffix mode.
    pub open spec fn encrypt_done(
        old: Self,
        new: Self,
        header: Seq<u8>,
        audio: Seq<u8>,
        r: Result<Vec<u8>, VoiceError>,
    ) -> bool {
        let mode = old.encryption_mode();
        &&& new.secret_key() == old.secret_key()
        &&& new.encryption_mode() == mode
        &&& new.nonce_counter() == next_counter(mode, old.nonce_counter())
        &&& (r is Ok <==> accepts_len(mode, audio.len()))
        &&& (r matches Ok(p) ==> {
            &&& p@.len() == packet_len(mode, audio.len())
            &&& exists|random: Seq<u8>|
                random.len() == NONCE_SIZE && p@ == #[trigger] encrypted_packet(
                    mode,
                    old.secret_key(),
                    old.nonce_counter(),
                    header,
                    audio,
                    random,
                )
        })
        &&& (r matches Err(e) ==> is_encryption_error(e, "aead::Error"@))
    }

    /// What an encryption into `dst` does: a buffer shorter than the packet is refused before
    /// anything changes; otherwise the counter advances in the counter modes, and on success
    /// the packet (header, ciphertext, tag, trailer) fills the front of `dst`.
    pub open spec fn encrypt_into_done(
        old: Self,
        new: Self,
        header: Seq<u8>,
        audio: Seq<u8>,
        old_dst: Seq<u8>,
        new_dst: Seq<u8>,
        r: Result<usize, VoiceError>,
    ) -> bool {
        let mode = old.encryption_mode();
        let n = packet_len(mode, audio.len());
        &&& new.secret_key() == old.secret_key()
        &&& new.encryption_mode() == mode
        &&& (old_dst.len() < n ==> {
            &&& new == old
            &&& new_dst == old_dst
            &&& (r matches Err(e) && is_encryption_error(e, "Buffer too small"@))
        })
        &&& (old_dst.len() >= n ==> {
            &&& new.nonce_counter() == next_counter(mode, old.nonce_counter())
            &&& (r is Ok <==> accepts_len(mode, audio.len()))
            &&& (r matches Err(e) ==> is_encryption_error(e, "aead::Error"@))
        })
        &&& (r matches Ok(len) ==> {
            &&& len == n
            &&& new_dst.len() == old_dst.len()
            &&& new_dst.subrange(len as int, new_dst.len() as int) == old_dst.subrange(len as int, old_dst.len() as int)
            &&& exists|random: Seq<u8>|
                random.len() == NONCE_SIZE && new_dst.subrange(0, len as int) == #[trigger] encrypted_packet_into(
                    mode,
                    old.secret_key(),
                    old.nonce_counter(),
                    header,
                    audio,
                    random,
                )
        })
    }

    /// What a decryption of `packet` gives: the header and opened audio exactly when the
    /// packet is long enough and the cipher opens it, and each error in its case. Every packet
    /// that `encrypt` produces with this key and mode decrypts to its header and audio.
    pub open spec fn decrypt_done(
        c: Self,
        packet: Seq<u8>,
        r: Result<([u8; RTP_HEADER_SIZE], Vec<u8>), VoiceError>,
    ) -> bool {
        let mode = c.encryption_mode();
        &&& (packet.len() < RTP_HEADER_SIZE ==> (r matches Err(e) && is_encryption_error(e, "Packet too short"@)))
        &&& (RTP_HEADER_SIZE <= packet.len() < min_packet_len(mode) ==> (r matches Err(e) && is_encryption_error(
            e,
            too_short_message(mode),
        )))
        &&& (r is Ok <==> decrypted_packet(mode, c.secret_key(), packet) is Some)
        &&& (r matches Ok((h, a)) ==> decrypted_packet(mode, c.secret_key(), packet) == Some((h@, a@)))
        &&& (packet.len() >= min_packet_len(mode) && r is Err ==> (r matches Err(e) && is_encryption_error(
            e,
            "aead::Error"@,
        )))
        &&& opens_own_packets(mode, c.secret_key(), packet, r)
    }

    /// The encryption mode.
    pub fn mode(&self) -> (r: EncryptionMode)
        ensures
            r == self.encryption_mode(),
    {
        self.mode
    }

    /// Create a new voice crypto instance.
    pub fn new(secret_key: &[u8; KEY_SIZE], mode: EncryptionMode) -> (r: Self)
        ensures
            r.secret_key() == secret_key@,
            r.encryption_mode() == mode,
            r.nonce_counter() == 0,
    {
        Self { key: *secret_key, mode, nonce_counter: 0 }
    }

    /// Encrypt an audio frame: the complete encrypted packet (header + encrypted audio).
    pub fn encrypt(&mut self, rtp_header: &[u8; RTP_HEADER_SIZE], audio: &[u8]) -> (r: Result<Vec<u8>, VoiceError>)
        requires
            keystream_fits(old(self).encryption_mode(), audio@.len()),
        ensures
            Self::encrypt_done(*old(self), *final(self), rtp_header@, audio@, r),
    {
        match self.mode {
            EncryptionMode::XSalsa20Poly1305Lite => self.encrypt_lite(rtp_header, audio),
            EncryptionMode::XSalsa20Poly1305Suffix => self.encrypt_suffix(rtp_header, audio),
            EncryptionMode::XSalsa20Poly1305 => self.encrypt_normal(rtp_header, audio),
            EncryptionMode::AeadAes256Gcm => self.encrypt_aes256_gcm(rtp_header, audio),
            EncryptionMode::AeadXChaCha20Poly1305Rtpsize => self.encrypt_xchacha20_rtpsize(rtp_header, audio),
        }
    }

    /// Encrypt an audio frame into a buffer (zero allocation); returns the number of bytes
    /// written.
    pub fn encrypt_into(&mut self, rtp_header: &[u8; RTP_HEADER_SIZE], audio: &[u8], dst: &mut [u8]) -> (r: Result<usize, VoiceError>)
        requires
            old(dst)@.len() >= packet_len(old(self).encryption_mode(), audio@.len()) ==> keystream_fits(
                old(self).encryption_mode(),
                audio@.len(),
            ),
        ensures
            Self::encrypt_into_done(*old(self), *final(self), rtp_header@, audio@, old(dst)@, final(dst)@, r),
    {
        match self.mode {
            EncryptionMode::XSalsa20Poly1305Lite => self.encrypt_lite_into(rtp_header, audio, dst),
            EncryptionMode::XSalsa20Poly1305Suffix => self.encrypt_suffix_into(rtp_header, audio, dst),
            EncryptionMode::XSalsa20Poly1305 => self.encrypt_normal_into(rtp_header, audio, dst),
            EncryptionMode::AeadAes256Gcm => self.encrypt_aes256_gcm_into(rtp_header, audio, dst),
            EncryptionMode::AeadXChaCha20Poly1305Rtpsize => self.encrypt_xchacha20_rtpsize_into(rtp_header, audio, dst),
        }
    }

    /// Decrypt an audio packet into its RTP header and audio.
    pub fn decrypt(&self, packet: &[u8]) -> (r: Result<([u8; RTP_HEADER_SIZE], Vec<u8>), VoiceError>)
        requires
            packet_keystream_fits(self.encryption_mode(), packet@.len()),
        ensures
            Self::decrypt_done(*self, packet@, r),
            forall|counter: u32, header: Seq<u8>, audio: Seq<u8>, random: Seq<u8>|
                #![trigger encrypted_packet_into(self.encryption_mode(), self.secret_key(), counter, header, audio, random)]
                header.len() == RTP_HEADER_SIZE && random.len() == NONCE_SIZE && accepts_len(self.encryption_mode(), audio.len())
                    && packet@.len() == packet_len(self.encryption_mode(), audio.len()) && packet@ == encrypted_packet_into(
                    self.encryption_mode(),
                    self.secret_key(),
                    counter,
                    header,
                    audio,
                    random,
                ) ==> (r matches Ok((h, a)) && h@ == header && a@ == audio),
    {
        let r = self.decrypt_any(packet);
        assert forall|counter: u32, header: Seq<u8>, audio: Seq<u8>, random: Seq<u8>|
            #![trigger encrypted_packet_into(self.mode, self.key@, counter, header, audio, random)]
            header.len() == RTP_HEADER_SIZE && random.len() == NONCE_SIZE && accepts_len(self.mode, audio.len())
                && packet@.len() == packet_len(self.mode, audio.len()) && packet@ == encrypted_packet_into(
                self.mode,
                self.key@,
                counter,
                header,
                audio,
                random,
            ) implies (r matches Ok((h, a)) && h@ == header && a@ == audio) by {
            lemma_into_layout_matches(self.mode, self.key@, counter, header, audio, random);
            assert(packet@ == encrypted_packet(self.mode, self.key@, counter, header, audio, random));
        }
        r
    }

    /// Decrypt an audio packet, by the mode's layout.
    fn decrypt_any(&self, packet: &[u8]) -> (r: Result<([u8; RTP_HEADER_SIZE], Vec<u8>), VoiceError>)
        requires
            packet_keystream_fits(self.encryption_mode(), packet@.len()),
        ensures
            Self::decrypt_done(*self, packet@, r),
    {
        if packet.len() < RTP_HEADER_SIZE {
            let r: Result<([u8; RTP_HEADER_SIZE], Vec<u8>), VoiceError> = Err(encryption_error("Packet too short"));
            proof {
                lemma_short_packet_opens_own(self.mode, self.key@, packet@, r);
            }
            return r;
        }
        match self.mode {
            EncryptionMode::XSalsa20Poly1305Lite => self.decrypt_lite(packet),
            EncryptionMode::XSalsa20Poly1305Suffix => self.decrypt_suffix(packet),
            EncryptionMode::XSalsa20Poly1305 => self.decrypt_normal(packet),
            EncryptionMode::AeadAes256Gcm => self.decrypt_aes256_gcm(packet),
            EncryptionMode::AeadXChaCha20Poly1305Rtpsize => self.decrypt_xchacha20_rtpsize(packet),
        }
    }

    fn encrypt_lite(&mut self, rtp_header: &[u8; RTP_HEADER_SIZE], audio: &[u8]) -> (r: Result<Vec<u8>, VoiceError>)
        requires
            old(self).encryption_mode() == EncryptionMode::XSalsa20Poly1305Lite,
        ensures
            Self::encrypt_done(*old(self), *final(self), rtp_header@, audio@, r),
    {
        let ghost before = *self;
        let counter = self.nonce_counter;
        let nonce = counter_nonce24(counter);
        self.nonce_counter = if counter == u32::MAX { 0 } else { counter + 1 };
        let ciphertext = match xsalsa20_encrypt(&self.key, &nonce, audio) {
            Ok(c) => c,
            Err(e) => return Err(cipher_error(&e)),
        };
        let mut packet = Vec::new();
        extend_bytes(&mut packet, rtp_header.as_slice());
        extend_bytes(&mut packet, ciphertext.as_slice());
        let prefix = le32_bytes(counter);
        extend_bytes(&mut packet, prefix.as_slice());
        let ghost random = zeros(24);
        assert(packet@ =~= encrypted_packet(self.mode, self.key@, counter, rtp_header@, audio@, random));
        assert(packet@ == encrypted_packet(before.encryption_mode(), before.secret_key(), before.nonce_counter(), rtp_header@, audio@, random));
        assert(random.len() == NONCE_SIZE);
        Ok(packet)
    }

    fn encrypt_lite_into(&mut self, rtp_header: &[u8; RTP_HEADER_SIZE], audio: &[u8], dst: &mut [u8]) -> (r: Result<usize, VoiceError>)
        requires
            old(self).encryption_mode() == EncryptionMode::XSalsa20Poly1305Lite,
        ensures
            Self::encrypt_into_done(*old(self), *final(self), rtp_header@, audio@, old(dst)@, final(dst)@, r),
    {
        let audio_len = audio.len();
        let dst_len = dst.len();
        if audio_len > dst_len || dst_len - audio_len < RTP_HEADER_SIZE + TAG_SIZE + 4 {
            return Err(encryption_error("Buffer too small"));
        }
        let required = RTP_HEADER_SIZE + audio_len + TAG_SIZE + 4;
        let ghost before = *self;
        let counter = self.nonce_counter;
        let nonce = counter_nonce24(counter);
        self.nonce_counter = if counter == u32::MAX { 0 } else { counter + 1 };
        let ghost d0 = dst@;
        copy_into(dst, 0, rtp_header.as_slice());
        let audio_start = RTP_HEADER_SIZE + TAG_SIZE;
        let audio_end = audio_start + audio_len;
        copy_into(dst, audio_start, audio);
        let ghost d1 = dst@;
        assert(d1.subrange(audio_start as int, audio_end as int) =~= audio@);
        let tag = match xsalsa20_seal_in_place(&self.key, &nonce, dst, audio_start, audio_end) {
            Ok(t) => t,
            Err(e) => return Err(cipher_error(&e)),
        };
        copy_into(dst, RTP_HEADER_SIZE, tag.as_slice());
        let prefix = le32_bytes(counter);
        copy_into(dst, audio_end, prefix.as_slice());
        let ghost random = zeros(24);
        assert(dst@.subrange(0, required as int) =~= encrypted_packet_into(self.mode, self.key@, counter, rtp_header@, audio@, random));
        assert(dst@.subrange(0, required as int) == encrypted_packet_into(before.encryption_mode(), before.secret_key(), before.nonce_counter(), rtp_header@, audio@, random));
        assert(random.len() == NONCE_SIZE);
        assert(dst@.subrange(required as int, dst@.len() as int) =~= d0.subrange(required as int, d0.len() as int));
        Ok(required)
    }

    fn decrypt_lite(&self, packet: &[u8]) -> (r: Result<([u8; RTP_HEADER_SIZE], Vec<u8>), VoiceError>)
        requires
            self.encryption_mode() == EncryptionMode::XSalsa20Poly1305Lite,
            packet@.len() >= RTP_HEADER_SIZE,
        ensures
            Self::decrypt_done(*self, packet@, r),
    {
        if packet.len() < RTP_HEADER_SIZE + TAG_SIZE + 4 {
            let r: Result<([u8; RTP_HEADER_SIZE], Vec<u8>), VoiceError> = Err(encryption_error("Packet too short for lite mode"));
            proof {
                lemma_short_packet_opens_own(self.mode, self.key@, packet@, r);
            }
            return r;
        }
        let rtp_header = header_of(packet);
        let nonce = tail_counter_nonce24(packet);
        let nonce_start = packet.len() - 4;
        let ciphertext = &packet[RTP_HEADER_SIZE..nonce_start];
        let res = xsalsa20_decrypt(&self.key, &nonce, ciphertext);
        assert(ciphertext@ == received_sealed(self.mode, packet@));
        assert(nonce@ == received_nonce(self.mode, packet@));
        let r = match res {
            Ok(p) => Ok((rtp_header, p)),
            Err(e) => Err(cipher_error(&e)),
        };
        proof {
            lemma_opens_own_packets(self.mode, self.key@, packet@, res, r);
        }
        r
    }

    fn encrypt_suffix(&mut self, rtp_header: &[u8; RTP_HEADER_SIZE], audio: &[u8]) -> (r: Result<Vec<u8>, VoiceError>)
        requires
            old(self).encryption_mode() == EncryptionMode::XSalsa20Poly1305Suffix,
        ensures
            Self::encrypt_done(*old(self), *final(self), rtp_header@, audio@, r),
    {
        let ghost before = *self;
        let counter = self.nonce_counter;
        let nonce = random_nonce();
        let ciphertext = match xsalsa20_encrypt(&self.key, &nonce, audio) {
            Ok(c) => c,
            Err(e) => return Err(cipher_error(&e)),
        };
        let mut packet = Vec::new();
        extend_bytes(&mut packet, rtp_header.as_slice());
        extend_bytes(&mut packet, ciphertext.as_slice());
        extend_bytes(&mut packet, nonce.as_slice());
        let ghost random = nonce@;
        assert(packet@ =~= encrypted_packet(self.mode, self.key@, counter, rtp_header@, audio@, random));
        assert(packet@ == encrypted_packet(before.encryption_mode(), before.secret_key(), before.nonce_counter(), rtp_header@, audio@, random));
        assert(random.len() == NONCE_SIZE);
        Ok(packet)
    }

    fn encrypt_suffix_into(&mut self, rtp_header: &[u8; RTP_HEADER_SIZE], audio: &[u8], dst: &mut [u8]) -> (r: Result<usize, VoiceError>)
        requires
            old(self).encryption_mode() == EncryptionMode::XSalsa20Poly1305Suffix,
        ensures
            Self::encrypt_into_done(*old(self), *final(self), rtp_header@, audio@, old(dst)@, final(dst)@, r),
    {
        let audio_len = audio.len();
        let dst_len = dst.len();
        if audio_len > dst_len || dst_len - audio_len < RTP_HEADER_SIZE + TAG_SIZE + 24 {
            return Err(encryption_error("Buffer too small"));
        }
        let required = RTP_HEADER_SIZE + audio_len + TAG_SIZE + 24;
        let ghost before = *self;
        let counter = self.nonce_counter;
        let nonce = random_nonce();
        let ghost d0 = dst@;
        copy_into(dst, 0, rtp_header.as_slice());
        let audio_start = RTP_HEADER_SIZE + TAG_SIZE;
        let audio_end = audio_start + audio_len;
        copy_into(dst, audio_start, audio);
        let ghost d1 = dst@;
        assert(d1.subrange(audio_start as int, audio_end as int) =~= audio@);
        let tag = match xsalsa20_seal_in_place(&self.key, &nonce, dst, audio_start, audio_end) {
            Ok(t) => t,
            Err(e) => return Err(cipher_error(&e)),
        };
        copy_into(dst, RTP_HEADER_SIZE, tag.as_slice());
        copy_into(dst, audio_end, nonce.as_slice());
        let ghost random = nonce@;
        assert(dst@.subrange(0, required as int) =~= encrypted_packet_into(self.mode, self.key@, counter, rtp_header@, audio@, random));
        assert(dst@.subrange(0, required as int) == encrypted_packet_into(before.encryption_mode(), before.secret_key(), before.nonce_counter(), rtp_header@, audio@, random));
        assert(random.len() == NONCE_SIZE);
        assert(dst@.subrange(required as int, dst@.len() as int) =~= d0.subrange(required as int, d0.len() as int));
        Ok(required)
    }

    fn decrypt_suffix(&self, packet: &[u8]) -> (r: Result<([u8; RTP_HEADER_SIZE], Vec<u8>), VoiceError>)
        requires
            self.encryption_mode() == EncryptionMode::XSalsa20Poly1305Suffix,
            packet@.len() >= RTP_HEADER_SIZE,
        ensures
            Self::decrypt_done(*self, packet@, r),
    {
        if packet.len() < RTP_HEADER_SIZE + TAG_SIZE + 24 {
            let r: Result<([u8; RTP_HEADER_SIZE], Vec<u8>), VoiceError> = Err(encryption_error("Packet too short for suffix mode"));
            proof {
                lemma_short_packet_opens_own(self.mode, self.key@, packet@, r);
            }
            return r;
        }
        let rtp_header = header_of(packet);
        let nonce = tail_nonce24(packet);
        let nonce_start = packet.len() - 24;
        let ciphertext = &packet[RTP_HEADER_SIZE..nonce_start];
        let res = xsalsa20_decrypt(&self.key, &nonce, ciphertext);
        assert(ciphertext@ == received_sealed(self.mode, packet@));
        assert(nonce@ == received_nonce(self.mode, packet@));
        let r = match res {
            Ok(p) => Ok((rtp_header, p)),
            Err(e) => Err(cipher_error(&e)),
        };
        proof {
            lemma_opens_own_packets(self.mode, self.key@, packet@, res, r);
        }
        r
    }

    fn encrypt_normal(&mut self, rtp_header: &[u8; RTP_HEADER_SIZE], audio: &[u8]) -> (r: Result<Vec<u8>, VoiceError>)
        requires
            old(self).encryption_mode() == EncryptionMode::XSalsa20Poly1305,
        ensures
            Self::encrypt_done(*old(self), *final(self), rtp_header@, audio@, r),
    {
        let ghost before = *self;
        let counter = self.nonce_counter;
        let nonce = header_nonce(rtp_header);
        let ciphertext = match xsalsa20_encrypt(&self.key, &nonce, audio) {
            Ok(c) => c,
            Err(e) => return Err(cipher_error(&e)),
        };
        let mut packet = Vec::new();
        extend_bytes(&mut packet, rtp_header.as_slice());
        extend_bytes(&mut packet, ciphertext.as_slice());
        let ghost random = zeros(24);
        assert(packet@ =~= encrypted_packet(self.mode, self.key@, counter, rtp_header@, audio@, random));
        assert(packet@ == encrypted_packet(before.encryption_mode(), before.secret_key(), before.nonce_counter(), rtp_header@, audio@, random));
        assert(random.len() == NONCE_SIZE);
        Ok(packet)
    }

    fn encrypt_normal_into(&mut self, rtp_header: &[u8; RTP_HEADER_SIZE], audio: &[u8], dst: &mut [u8]) -> (r: Result<usize, VoiceError>)
        requires
            old(self).encryption_mode() == EncryptionMode::XSalsa20Poly1305,
        ensures
            Self::encrypt_into_done(*old(self), *final(self), rtp_header@, audio@, old(dst)@, final(dst)@, r),
    {
        let audio_len = audio.len();
        let dst_len = dst.len();
        if audio_len > dst_len || dst_len - audio_len < RTP_HEADER_SIZE + TAG_SIZE + 0 {
            return Err(encryption_error("Buffer too small"));
        }
        let required = RTP_HEADER_SIZE + audio_len + TAG_SIZE + 0;
        let ghost before = *self;
        let counter = self.nonce_counter;
        let nonce = header_nonce(rtp_header);
        let ghost d0 = dst@;
        copy_into(dst, 0, rtp_header.as_slice());
        let audio_start = RTP_HEADER_SIZE + TAG_SIZE;
        let audio_end = audio_start + audio_len;
        copy_into(dst, audio_start, audio);
        let ghost d1 = dst@;
        assert(d1.subrange(audio_start as int, audio_end as int) =~= audio@);
        let tag = match xsalsa20_seal_in_place(&self.key, &nonce, dst, audio_start, audio_end) {
            Ok(t) => t,
            Err(e) => return Err(cipher_error(&e)),
        };
        copy_into(dst, RTP_HEADER_SIZE, tag.as_slice());
        let ghost random = zeros(24);
        assert(dst@.subrange(0, required as int) =~= encrypted_packet_into(self.mode, self.key@, counter, rtp_header@, audio@, random));
        assert(dst@.subrange(0, required as int) == encrypted_packet_into(before.encryption_mode(), before.secret_key(), before.nonce_counter(), rtp_header@, audio@, random));
        assert(random.len() == NONCE_SIZE);
        assert(dst@.subrange(required as int, dst@.len() as int) =~= d0.subrange(required as int, d0.len() as int));
        Ok(required)
    }

    fn decrypt_normal(&self, packet: &[u8]) -> (r: Result<([u8; RTP_HEADER_SIZE], Vec<u8>), VoiceError>)
        requires
            self.encryption_mode() == EncryptionMode::XSalsa20Poly1305,
            packet@.len() >= RTP_HEADER_SIZE,
        ensures
            Self::decrypt_done(*self, packet@, r),
    {
        if packet.len() < RTP_HEADER_SIZE + TAG_SIZE + 0 {
            let r: Result<([u8; RTP_HEADER_SIZE], Vec<u8>), VoiceError> = Err(encryption_error("Packet too short for normal mode"));
            proof {
                lemma_short_packet_opens_own(self.mode, self.key@, packet@, r);
            }
            return r;
        }
        let rtp_header = header_of(packet);
        let nonce = header_nonce(&rtp_header);
        let ciphertext = &packet[RTP_HEADER_SIZE..packet.len()];
        let res = xsalsa20_decrypt(&self.key, &nonce, ciphertext);
        assert(ciphertext@ == received_sealed(self.mode, packet@));
        assert(nonce@ == received_nonce(self.mode, packet@));
        let r = match res {
            Ok(p) => Ok((rtp_header, p)),
            Err(e) => Err(cipher_error(&e)),
        };
        proof {
            lemma_opens_own_packets(self.mode, self.key@, packet@, res, r);
        }
        r
    }

    fn encrypt_aes256_gcm(&mut self, rtp_header: &[u8; RTP_HEADER_SIZE], audio: &[u8]) -> (r: Result<Vec<u8>, VoiceError>)
        requires
            old(self).encryption_mode() == EncryptionMode::AeadAes256Gcm,
        ensures
            Self::encrypt_done(*old(self), *final(self), rtp_header@, audio@, r),
    {
        let ghost before = *self;
        let counter = self.nonce_counter;
        let nonce = counter_nonce12(counter);
        self.nonce_counter = if counter == u32::MAX { 0 } else { counter + 1 };
        let ciphertext = match aes256_gcm_encrypt(&self.key, &nonce, audio) {
            Ok(c) => c,
            Err(e) => return Err(cipher_error(&e)),
        };
        let mut packet = Vec::new();
        extend_bytes(&mut packet, rtp_header.as_slice());
        extend_bytes(&mut packet, ciphertext.as_slice());
        let prefix = le32_bytes(counter);
        extend_bytes(&mut packet, prefix.as_slice());
        let ghost random = zeros(24);
        assert(packet@ =~= encrypted_packet(self.mode, self.key@, counter, rtp_header@, audio@, random));
        assert(packet@ == encrypted_packet(before.encryption_mode(), before.secret_key(), before.nonce_counter(), rtp_header@, audio@, random));
        assert(random.len() == NONCE_SIZE);
        Ok(packet)
    }

    fn encrypt_aes256_gcm_into(&mut self, rtp_header: &[u8; RTP_HEADER_SIZE], audio: &[u8], dst: &mut [u8]) -> (r: Result<usize, VoiceError>)
        requires
            old(self).encryption_mode() == EncryptionMode::AeadAes256Gcm,
        ensures
            Self::encrypt_into_done(*old(self), *final(self), rtp_header@, audio@, old(dst)@, final(dst)@, r),
    {
        let audio_len = audio.len();
        let dst_len = dst.len();
        if audio_len > dst_len || dst_len - audio_len < RTP_HEADER_SIZE + TAG_SIZE + 4 {
            return Err(encryption_error("Buffer too small"));
        }
        let required = RTP_HEADER_SIZE + audio_len + TAG_SIZE + 4;
        let ghost before = *self;
        let counter = self.nonce_counter;
        let nonce = counter_nonce12(counter);
        self.nonce_counter = if counter == u32::MAX { 0 } else { counter + 1 };
        let ghost d0 = dst@;
        copy_into(dst, 0, rtp_header.as_slice());
        let audio_start = RTP_HEADER_SIZE;
        let audio_end = audio_start + audio_len;
        copy_into(dst, audio_start, audio);
        let ghost d1 = dst@;
        assert(d1.subrange(audio_start as int, audio_end as int) =~= audio@);
        let tag = match aes256_gcm_seal_in_place(&self.key, &nonce, dst, audio_start, audio_end) {
            Ok(t) => t,
            Err(e) => return Err(cipher_error(&e)),
        };
        copy_into(dst, audio_end, tag.as_slice());
        let prefix = le32_bytes(counter);
        copy_into(dst, audio_end + TAG_SIZE, prefix.as_slice());
        let ghost random = zeros(24);
        assert(dst@.subrange(0, required as int) =~= encrypted_packet_into(self.mode, self.key@, counter, rtp_header@, audio@, random));
        assert(dst@.subrange(0, required as int) == encrypted_packet_into(before.encryption_mode(), before.secret_key(), before.nonce_counter(), rtp_header@, audio@, random));
        assert(random.len() == NONCE_SIZE);
        assert(dst@.subrange(required as int, dst@.len() as int) =~= d0.subrange(required as int, d0.len() as int));
        Ok(required)
    }

    fn decrypt_aes256_gcm(&self, packet: &[u8]) -> (r: Result<([u8; RTP_HEADER_SIZE], Vec<u8>), VoiceError>)
        requires
            self.encryption_mode() == EncryptionMode::AeadAes256Gcm,
            packet@.len() >= RTP_HEADER_SIZE,
        ensures
            Self::decrypt_done(*self, packet@, r),
    {
        if packet.len() < RTP_HEADER_SIZE + TAG_SIZE + 4 {
            let r: Result<([u8; RTP_HEADER_SIZE], Vec<u8>), VoiceError> = Err(encryption_error("Packet too short for aes256_gcm"));
            proof {
                lemma_short_packet_opens_own(self.mode, self.key@, packet@, r);
            }
            return r;
        }
        let rtp_header = header_of(packet);
        let nonce = tail_counter_nonce12(packet);
        let nonce_start = packet.len() - 4;
        let ciphertext = &packet[RTP_HEADER_SIZE..nonce_start];
        let res = aes256_gcm_decrypt(&self.key, &nonce, ciphertext);
        assert(ciphertext@ == received_sealed(self.mode, packet@));
        assert(nonce@ == received_nonce(self.mode, packet@));
        let r = match res {
            Ok(p) => Ok((rtp_header, p)),
            Err(e) => Err(cipher_error(&e)),
        };
        proof {
            lemma_opens_own_packets(self.mode, self.key@, packet@, res, r);
        }
        r
    }

    fn encrypt_xchacha20_rtpsize(&mut self, rtp_header: &[u8; RTP_HEADER_SIZE], audio: &[u8]) -> (r: Result<Vec<u8>, VoiceError>)
        requires
            old(self).encryption_mode() == EncryptionMode::AeadXChaCha20Poly1305Rtpsize,
            !chacha_overruns(audio@.len()),
        ensures
            Self::encrypt_done(*old(self), *final(self), rtp_header@, audio@, r),
    {
        let ghost before = *self;
        let counter = self.nonce_counter;
        let nonce = header_nonce(rtp_header);
        let ciphertext = match xchacha20_encrypt(&self.key, &nonce, audio) {
            Ok(c) => c,
            Err(e) => return Err(cipher_error(&e)),
        };
        let mut packet = Vec::new();
        extend_bytes(&mut packet, rtp_header.as_slice());
        extend_bytes(&mut packet, ciphertext.as_slice());
        let ghost random = zeros(24);
        assert(packet@ =~= encrypted_packet(self.mode, self.key@, counter, rtp_header@, audio@, random));
        assert(packet@ == encrypted_packet(before.encryption_mode(), before.secret_key(), before.nonce_counter(), rtp_header@, audio@, random));
        assert(random.len() == NONCE_SIZE);
        Ok(packet)
    }

    fn encrypt_xchacha20_rtpsize_into(&mut self, rtp_header: &[u8; RTP_HEADER_SIZE], audio: &[u8], dst: &mut [u8]) -> (r: Result<usize, VoiceError>)
        requires
            old(self).encryption_mode() == EncryptionMode::AeadXChaCha20Poly1305Rtpsize,
            old(dst)@.len() >= packet_len(old(self).encryption_mode(), audio@.len()) ==> !chacha_overruns(audio@.len()),
        ensures
            Self::encrypt_into_done(*old(self), *final(self), rtp_header@, audio@, old(dst)@, final(dst)@, r),
    {
        let audio_len = audio.len();
        let dst_len = dst.len();
        if audio_len > dst_len || dst_len - audio_len < RTP_HEADER_SIZE + TAG_SIZE + 0 {
            return Err(encryption_error("Buffer too small"));
        }
        let required = RTP_HEADER_SIZE + audio_len + TAG_SIZE + 0;
        let ghost before = *self;
        let counter = self.nonce_counter;
        let nonce = header_nonce(rtp_header);
        let ghost d0 = dst@;
        copy_into(dst, 0, rtp_header.as_slice());
        let audio_start = RTP_HEADER_SIZE;
        let audio_end = audio_start + audio_len;
        copy_into(dst, audio_start, audio);
        let ghost d1 = dst@;
        assert(d1.subrange(audio_start as int, audio_end as int) =~= audio@);
        let tag = match xchacha20_seal_in_place(&self.key, &nonce, dst, audio_start, audio_end) {
            Ok(t) => t,
            Err(e) => return Err(cipher_error(&e)),
        };
        copy_into(dst, audio_end, tag.as_slice());
        let ghost random = zeros(24);
        assert(dst@.subrange(0, required as int) =~= encrypted_packet_into(self.mode, self.key@, counter, rtp_header@, audio@, random));
        assert(dst@.subrange(0, required as int) == encrypted_packet_into(before.encryption_mode(), before.secret_key(), before.nonce_counter(), rtp_header@, audio@, random));
        assert(random.len() == NONCE_SIZE);
        assert(dst@.subrange(required as int, dst@.len() as int) =~= d0.subrange(required as int, d0.len() as int));
        Ok(required)
    }

    fn decrypt_xchacha20_rtpsize(&self, packet: &[u8]) -> (r: Result<([u8; RTP_HEADER_SIZE], Vec<u8>), VoiceError>)
        requires
            self.encryption_mode() == EncryptionMode::AeadXChaCha20Poly1305Rtpsize,
            packet@.len() >= RTP_HEADER_SIZE,
            packet_keystream_fits(self.encryption_mode(), packet@.len()),
        ensures
            Self::decrypt_done(*self, packet@, r),
    {
        if packet.len() < RTP_HEADER_SIZE + TAG_SIZE + 0 {
            let r: Result<([u8; RTP_HEADER_SIZE], Vec<u8>), VoiceError> = Err(encryption_error("Packet too short for xchacha20_rtpsize"));
            proof {
                lemma_short_packet_opens_own(self.mode, self.key@, packet@, r);
            }
            return r;
        }
        let rtp_header = header_of(packet);
        let nonce = header_nonce(&rtp_header);
        let ciphertext = &packet[RTP_HEADER_SIZE..packet.len()];
        let res = xchacha20_decrypt(&self.key, &nonce, ciphertext);
        assert(ciphertext@ == received_sealed(self.mode, packet@));
        assert(nonce@ == received_nonce(self.mode, packet@));
        let r = match res {
            Ok(p) => Ok((rtp_header, p)),
            Err(e) => Err(cipher_error(&e)),
        };
        proof {
            lemma_opens_own_packets(self.mode, self.key@, packet@, res, r);
        }
        r
    }
}

/// Build an RTP header.
pub open spec fn rtp_header(sequence: u16, timestamp: u32, ssrc: u32) -> Seq<u8> {
    seq![0x80u8, 0x78u8] + be16(sequence) + be32(timestamp) + be32(ssrc)
}

/// The sequence number, timestamp and SSRC that an RTP header carries.
pub open spec fn rtp_header_fields(h: Seq<u8>) -> (u16, u32, u32) {
    (from_be16(h.subrange(2, 4)), from_be32(h.subrange(4, 8)), from_be32(h.subrange(8, 12)))
}

/// Build an RTP header: version 2, Opus payload type, then the big-endian fields.
pub fn build_rtp_header(sequence: u16, timestamp: u32, ssrc: u32) -> (h: [u8; RTP_HEADER_SIZE])
    ensures
        h@ == rtp_header(sequence, timestamp, ssrc),
{
    let s = be16_bytes(sequence);
    let t = be32_bytes(timestamp);
    let c = be32_bytes(ssrc);
    let h = [0x80u8, 0x78u8, s[0], s[1], t[0], t[1], t[2], t[3], c[0], c[1], c[2], c[3]];
    assert(h@ =~= rtp_header(sequence, timestamp, ssrc));
    h
}

/// Parse an RTP header into its sequence number, timestamp and SSRC.
pub fn parse_rtp_header(header: &[u8; RTP_HEADER_SIZE]) -> (r: (u16, u32, u32))
    ensures
        r == rtp_header_fields(header@),
{
    let sequence = read_be16(header[2], header[3]);
    let timestamp = read_be32(header[4], header[5], header[6], header[7]);
    let ssrc = read_be32(header[8], header[9], header[10], header[11]);
    assert(seq![header[2], header[3]] =~= header@.subrange(2, 4));
    assert(seq![header[4], header[5], header[6], header[7]] =~= header@.subrange(4, 8));
    assert(seq![header[8], header[9], header[10], header[11]] =~= header@.subrange(8, 12));
    (sequence, timestamp, ssrc)
}

/// An RTP header is twelve bytes: 0x80 (version 2, no padding, extension or CSRCs), 0x78
/// (no marker, payload type 120 for Opus), then the sequence number, the timestamp and the
/// SSRC, each big-endian.
pub proof fn lemma_rtp_header_bytes(sequence: u16, timestamp: u32, ssrc: u32)
    ensures
        ({
            let h = rtp_header(sequence, timestamp, ssrc);
            &&& h.len() == 12
            &&& h[0] == 0x80u8
            &&& h[1] == 0x78u8
            &&& h[2] == (sequence / 256) as u8 && h[3] == (sequence % 256) as u8
            &&& h[4] == (timestamp / 16777216) as u8 && h[5] == ((timestamp / 65536) % 256) as u8
            &&& h[6] == ((timestamp / 256) % 256) as u8 && h[7] == (timestamp % 256) as u8
            &&& h[8] == (ssrc / 16777216) as u8 && h[9] == ((ssrc / 65536) % 256) as u8
            &&& h[10] == ((ssrc / 256) % 256) as u8 && h[11] == (ssrc % 256) as u8
        }),
{
}

/// Parsing a built RTP header gives back the sequence number, timestamp and SSRC.
pub proof fn lemma_rtp_header_roundtrip(sequence: u16, timestamp: u32, ssrc: u32)
    ensures
        rtp_header_fields(rtp_header(sequence, timestamp, ssrc)) == (sequence, timestamp, ssrc),
{
    let h = rtp_header(sequence, timestamp, ssrc);
    assert(h.subrange(2, 4) =~= be16(sequence));
    assert(h.subrange(4, 8) =~= be32(timestamp));
    assert(h.subrange(8, 12) =~= be32(ssrc));
    crate::bytes::lemma_be16_roundtrip(sequence);
    crate::bytes::lemma_be32_roundtrip(timestamp);
    crate::bytes::lemma_be32_roundtrip(ssrc);
}

} // verus!
