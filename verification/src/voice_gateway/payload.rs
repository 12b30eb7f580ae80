//! Voice Gateway payloads.

use crate::snowflake::Snowflake;
use crate::text::{push_str, str_eq};
use crate::voice_gateway::opcode::VoiceOpCode;
use vstd::prelude::*;

verus! {

/// A Voice Gateway payload.
#[derive(Debug, Clone)]
pub struct VoicePayload<D> {
    /// Opcode.
    pub op: VoiceOpCode,
    /// Payload data.
    pub d: Option<D>,
}

impl<D> VoicePayload<D> {
    /// Create a new payload.
    pub fn new(op: VoiceOpCode, data: D) -> (r: Self)
        ensures
            r.op == op,
            r.d == Some(data),
    {
        Self { op, d: Some(data) }
    }
}

/// Identify payload (op 0).
#[derive(Debug, Clone)]
pub struct IdentifyPayload {
    /// Server ID (guild ID).
    pub server_id: String,
    /// User ID.
    pub user_id: String,
    /// Session ID from VOICE_STATE_UPDATE.
    pub session_id: String,
    /// Token from VOICE_SERVER_UPDATE.
    pub token: String,
}

/// Ready payload (op 2).
#[derive(Debug, Clone)]
pub struct ReadyPayload {
    /// SSRC for this connection.
    pub ssrc: u32,
    /// IP address of the voice server.
    pub ip: String,
    /// UDP port of the voice server.
    pub port: u16,
    /// Available encryption modes.
    pub modes: Vec<String>,
}

/// Select Protocol payload (op 1).
#[derive(Debug, Clone)]
pub struct SelectProtocolPayload {
    /// Protocol to use (always "udp").
    pub protocol: String,
    /// Protocol data.
    pub data: SelectProtocolData,
}

/// Data for Select Protocol.
#[derive(Debug, Clone)]
pub struct SelectProtocolData {
    /// Our external IP address.
    pub address: String,
    /// Our external port.
    pub port: u16,
    /// Encryption mode.
    pub mode: String,
}

impl SelectProtocolPayload {
    /// Create a new Select Protocol payload.
    pub fn new(address: String, port: u16, mode: EncryptionMode) -> (r: Self)
        ensures
            r.protocol@ == "udp"@,
            r.data.address == address,
            r.data.port == port,
            r.data.mode@ == mode_name(mode),
    {
        Self {
            protocol: String::from_str("udp"),
            data: SelectProtocolData { address, port, mode: mode.to_string() },
        }
    }
}

/// Session Description payload (op 4).
#[derive(Debug, Clone)]
pub struct SessionDescriptionPayload {
    /// Encryption mode.
    pub mode: String,
    /// Secret key for encryption (32 bytes).
    pub secret_key: Vec<u8>,
}

/// Speaking payload (op 5).
#[derive(Debug, Clone)]
pub struct SpeakingPayload {
    /// Speaking flags.
    pub speaking: u8,
    /// Delay (always 0).
    pub delay: u32,
    /// SSRC.
    pub ssrc: u32,
}

/// Speaking flags.
#[derive(Debug, Clone, Copy, PartialEq, Eq, Structural)]
pub struct SpeakingFlags(u8);

impl SpeakingFlags {
    /// Not speaking.
    #[allow(non_snake_case)]
    pub fn NONE() -> (r: SpeakingFlags)
        ensures
            r.spec_bits() == 0,
    {
        SpeakingFlags(0)
    }

    /// Normal voice speaking.
    #[allow(non_snake_case)]
    pub fn MICROPHONE() -> (r: SpeakingFlags)
        ensures
            r.spec_bits() == 1,
    {
        SpeakingFlags(1)
    }

    /// Soundshare/application audio.
    #[allow(non_snake_case)]
    pub fn SOUNDSHARE() -> (r: SpeakingFlags)
        ensures
            r.spec_bits() == 2,
    {
        SpeakingFlags(2)
    }

    /// Priority speaker.
    #[allow(non_snake_case)]
    pub fn PRIORITY() -> (r: SpeakingFlags)
        ensures
            r.spec_bits() == 4,
    {
        SpeakingFlags(4)
    }

    /// The raw bits, for use in contracts.
    pub closed spec fn spec_bits(self) -> u8 {
        self.0
    }

    /// Get the raw value.
    pub fn bits(self) -> (r: u8)
        ensures
            r == self.spec_bits(),
    {
        self.0
    }

    /// Check if a flag is set.
    pub fn contains(self, other: SpeakingFlags) -> (r: bool)
        ensures
            r == (self.spec_bits() & other.spec_bits() == other.spec_bits()),
    {
        self.0 & other.0 == other.0
    }

    /// The flags with the given raw bits (each constant is one of these).
    pub fn from_bits(bits: u8) -> (r: Self)
        ensures
            r.spec_bits() == bits,
    {
        SpeakingFlags(bits)
    }
}

impl core::ops::BitOr for SpeakingFlags {
    type Output = Self;

    fn bitor(self, rhs: Self) -> (r: Self)
        ensures
            r.spec_bits() == self.spec_bits() | rhs.spec_bits(),
    {
        SpeakingFlags(self.0 | rhs.0)
    }
}

impl vstd::std_specs::ops::BitOrSpecImpl for SpeakingFlags {
    open spec fn obeys_bitor_spec() -> bool {
        true
    }

    open spec fn bitor_req(self, rhs: Self) -> bool {
        true
    }

    closed spec fn bitor_spec(self, rhs: Self) -> Self {
        SpeakingFlags(self.0 | rhs.0)
    }
}

/// Resume payload (op 7).
#[derive(Debug, Clone)]
pub struct ResumePayload {
    /// Server ID.
    pub server_id: String,
    /// Session ID.
    pub session_id: String,
    /// Token.
    pub token: String,
}

/// Heartbeat payload (op 3).
#[derive(Debug, Clone)]
pub struct HeartbeatPayload {
    /// Nonce (usually current timestamp).
    pub nonce: u64,
    /// Sequence number (optional).
    pub seq_ack: Option<u64>,
}

/// Client Connect payload (op 12).
#[derive(Debug, Clone)]
pub struct ClientConnectPayload {
    /// User ID of connected client.
    pub user_id: Snowflake,
    /// Audio SSRC.
    pub audio_ssrc: Option<u32>,
    /// Video SSRC.
    pub video_ssrc: Option<u32>,
}

/// Client Disconnect payload (op 13).
#[derive(Debug, Clone)]
pub struct ClientDisconnectPayload {
    /// User ID of disconnected client.
    pub user_id: Snowflake,
}

/// Supported encryption modes.
#[derive(Debug, Clone, Copy, PartialEq, Eq, Structural)]
pub enum EncryptionMode {
    /// XSalsa20 with Poly1305 (lite variant - smaller nonce in packet).
    XSalsa20Poly1305Lite,
    /// XSalsa20 with Poly1305 (suffix variant).
    XSalsa20Poly1305Suffix,
    /// XSalsa20 with Poly1305, nonce taken from the RTP header.
    XSalsa20Poly1305,
    /// AEAD AES256 GCM (for Dave E2EE when available).
    AeadAes256Gcm,
    /// AEAD XChaCha20 Poly1305 RTPSIZE.
    AeadXChaCha20Poly1305Rtpsize,
}

impl Default for EncryptionMode {
    fn default() -> (r: Self)
        ensures
            r == EncryptionMode::XSalsa20Poly1305Lite,
    {
        EncryptionMode::XSalsa20Poly1305Lite
    }
}

/// The protocol name of each encryption mode.
pub open spec fn mode_name(m: EncryptionMode) -> Seq<char> {
    match m {
        EncryptionMode::XSalsa20Poly1305Lite => "xsalsa20_poly1305_lite"@,
        EncryptionMode::XSalsa20Poly1305Suffix => "xsalsa20_poly1305_suffix"@,
        EncryptionMode::XSalsa20Poly1305 => "xsalsa20_poly1305"@,
        EncryptionMode::AeadAes256Gcm => "aead_aes256_gcm"@,
        EncryptionMode::AeadXChaCha20Poly1305Rtpsize => "aead_xchacha20_poly1305_rtpsize"@,
    }
}

/// The encryption mode that a protocol name denotes, if any.
pub open spec fn parse_mode_spec(s: Seq<char>) -> Option<EncryptionMode> {
    if s == mode_name(EncryptionMode::XSalsa20Poly1305Lite) {
        Some(EncryptionMode::XSalsa20Poly1305Lite)
    } else if s == mode_name(EncryptionMode::XSalsa20Poly1305Suffix) {
        Some(EncryptionMode::XSalsa20Poly1305Suffix)
    } else if s == mode_name(EncryptionMode::XSalsa20Poly1305) {
        Some(EncryptionMode::XSalsa20Poly1305)
    } else if s == mode_name(EncryptionMode::AeadAes256Gcm) {
        Some(EncryptionMode::AeadAes256Gcm)
    } else if s == mode_name(EncryptionMode::AeadXChaCha20Poly1305Rtpsize) {
        Some(EncryptionMode::AeadXChaCha20Poly1305Rtpsize)
    } else {
        None
    }
}

/// Whether some string of `modes` is the protocol name `name`.
pub open spec fn offers_mode(modes: Seq<String>, name: Seq<char>) -> bool {
    exists|i: int| 0 <= i < modes.len() && (#[trigger] modes[i])@ == name
}

/// The preferred mode among those offered: lite, then suffix, then the plain XSalsa20 mode.
pub open spec fn select_preferred_spec(modes: Seq<String>) -> Option<EncryptionMode> {
    if offers_mode(modes, mode_name(EncryptionMode::XSalsa20Poly1305Lite)) {
        Some(EncryptionMode::XSalsa20Poly1305Lite)
    } else if offers_mode(modes, mode_name(EncryptionMode::XSalsa20Poly1305Suffix)) {
        Some(EncryptionMode::XSalsa20Poly1305Suffix)
    } else if offers_mode(modes, mode_name(EncryptionMode::XSalsa20Poly1305)) {
        Some(EncryptionMode::XSalsa20Poly1305)
    } else {
        None
    }
}

/// Whether `modes` names `name`.
fn offers(modes: &[String], name: &str) -> (r: bool)
    ensures
        r == offers_mode(modes@, name@),
{
    let mut i: usize = 0;
    while i < modes.len()
        invariant
            i <= modes@.len(),
            forall|j: int| 0 <= j < i ==> (#[trigger] modes@[j])@ != name@,
        decreases modes@.len() - i,
    {
        if str_eq(modes[i].as_str(), name) {
            return true;
        }
        i = i + 1;
    }
    false
}

impl EncryptionMode {
    /// Parse from string.
    pub fn parse_mode(s: &str) -> (r: Option<Self>)
        ensures
            r == parse_mode_spec(s@),
    {
        if str_eq(s, "xsalsa20_poly1305_lite") {
            Some(EncryptionMode::XSalsa20Poly1305Lite)
        } else if str_eq(s, "xsalsa20_poly1305_suffix") {
            Some(EncryptionMode::XSalsa20Poly1305Suffix)
        } else if str_eq(s, "xsalsa20_poly1305") {
            Some(EncryptionMode::XSalsa20Poly1305)
        } else if str_eq(s, "aead_aes256_gcm") {
            Some(EncryptionMode::AeadAes256Gcm)
        } else if str_eq(s, "aead_xchacha20_poly1305_rtpsize") {
            Some(EncryptionMode::AeadXChaCha20Poly1305Rtpsize)
        } else {
            None
        }
    }

    /// Get preferred mode from available modes.
    pub fn select_preferred(modes: &[String]) -> (r: Option<Self>)
        ensures
            r == select_preferred_spec(modes@),
    {
        if offers(modes, "xsalsa20_poly1305_lite") {
            return Self::parse_mode("xsalsa20_poly1305_lite");
        }
        if offers(modes, "xsalsa20_poly1305_suffix") {
            return Self::parse_mode("xsalsa20_poly1305_suffix");
        }
        if offers(modes, "xsalsa20_poly1305") {
            proof {
                lemma_mode_names_distinct();
            }
            return Self::parse_mode("xsalsa20_poly1305");
        }
        None
    }

    /// The protocol name of this mode (what `Display` writes).
    pub fn as_str(&self) -> (r: &'static str)
        ensures
            r@ == mode_name(*self),
    {
        match self {
            Self::XSalsa20Poly1305 => "xsalsa20_poly1305",
            Self::XSalsa20Poly1305Suffix => "xsalsa20_poly1305_suffix",
            Self::XSalsa20Poly1305Lite => "xsalsa20_poly1305_lite",
            Self::AeadAes256Gcm => "aead_aes256_gcm",
            Self::AeadXChaCha20Poly1305Rtpsize => "aead_xchacha20_poly1305_rtpsize",
        }
    }

    /// The protocol name of this mode as an owned string.
    pub fn to_string(&self) -> (r: String)
        ensures
            r@ == mode_name(*self),
    {
        let mut s = String::new();
        push_str(&mut s, self.as_str());
        assert(s@ =~= mode_name(*self));
        s
    }
}

/// The five protocol names are pairwise distinct.
proof fn lemma_mode_names_distinct()
    ensures
        forall|a: EncryptionMode, b: EncryptionMode| mode_name(a) == mode_name(b) ==> a == b,
{
    reveal_strlit("xsalsa20_poly1305_lite");
    reveal_strlit("xsalsa20_poly1305_suffix");
    reveal_strlit("xsalsa20_poly1305");
    reveal_strlit("aead_aes256_gcm");
    reveal_strlit("aead_xchacha20_poly1305_rtpsize");
    assert forall|a: EncryptionMode, b: EncryptionMode| mode_name(a) == mode_name(b) implies a == b by {
        if a != b {
            assert(mode_name(a).len() != mode_name(b).len() || mode_name(a)[0] != mode_name(b)[0]
                || mode_name(a)[5] != mode_name(b)[5]);
        }
    }
}

/// The preference among offered modes: whenever "xsalsa20_poly1305_lite" is offered, lite
/// is chosen; "xsalsa20_poly1305_suffix" is chosen only when lite is not offered, and
/// "xsalsa20_poly1305" only when neither is; with none of the three offered there is no
/// choice, and whatever is chosen is among the offered names.
pub proof fn lemma_preference_order(modes: Seq<String>)
    ensures
        (exists|i: int| 0 <= i < modes.len() && (#[trigger] modes[i])@ == "xsalsa20_poly1305_lite"@)
            ==> select_preferred_spec(modes) == Some(EncryptionMode::XSalsa20Poly1305Lite),
        select_preferred_spec(modes) == Some(EncryptionMode::XSalsa20Poly1305Suffix) <==> (!(exists|i: int|
            0 <= i < modes.len() && (#[trigger] modes[i])@ == "xsalsa20_poly1305_lite"@) && exists|i: int|
            0 <= i < modes.len() && (#[trigger] modes[i])@ == "xsalsa20_poly1305_suffix"@),
        select_preferred_spec(modes) == Some(EncryptionMode::XSalsa20Poly1305) <==> (!(exists|i: int|
            0 <= i < modes.len() && (#[trigger] modes[i])@ == "xsalsa20_poly1305_lite"@) && !(exists|i: int|
            0 <= i < modes.len() && (#[trigger] modes[i])@ == "xsalsa20_poly1305_suffix"@) && exists|i: int|
            0 <= i < modes.len() && (#[trigger] modes[i])@ == "xsalsa20_poly1305"@),
        select_preferred_spec(modes) is None <==> (!(exists|i: int|
            0 <= i < modes.len() && (#[trigger] modes[i])@ == "xsalsa20_poly1305_lite"@) && !(exists|i: int|
            0 <= i < modes.len() && (#[trigger] modes[i])@ == "xsalsa20_poly1305_suffix"@) && !(exists|i: int|
            0 <= i < modes.len() && (#[trigger] modes[i])@ == "xsalsa20_poly1305"@)),
{
    lemma_mode_names_distinct();
}

/// The protocol names of the modes, as the voice server writes them, each parsing to its mode.
pub proof fn lemma_mode_names()
    ensures
        parse_mode_spec("xsalsa20_poly1305_lite"@) == Some(EncryptionMode::XSalsa20Poly1305Lite),
        parse_mode_spec("xsalsa20_poly1305_suffix"@) == Some(EncryptionMode::XSalsa20Poly1305Suffix),
        parse_mode_spec("xsalsa20_poly1305"@) == Some(EncryptionMode::XSalsa20Poly1305),
        parse_mode_spec("aead_aes256_gcm"@) == Some(EncryptionMode::AeadAes256Gcm),
        parse_mode_spec("aead_xchacha20_poly1305_rtpsize"@) == Some(EncryptionMode::AeadXChaCha20Poly1305Rtpsize),
{
    let s = Seq::<char>::empty();
    lemma_mode_name_roundtrip(EncryptionMode::XSalsa20Poly1305Lite, s);
    lemma_mode_name_roundtrip(EncryptionMode::XSalsa20Poly1305Suffix, s);
    lemma_mode_name_roundtrip(EncryptionMode::XSalsa20Poly1305, s);
    lemma_mode_name_roundtrip(EncryptionMode::AeadAes256Gcm, s);
    lemma_mode_name_roundtrip(EncryptionMode::AeadXChaCha20Poly1305Rtpsize, s);
}

/// Parsing a mode's protocol name gives back the mode, and only a mode's own name parses to it.
pub proof fn lemma_mode_name_roundtrip(m: EncryptionMode, s: Seq<char>)
    ensures
        parse_mode_spec(mode_name(m)) == Some(m),
        parse_mode_spec(s) == Some(m) ==> s == mode_name(m),
{
    lemma_mode_names_distinct();
}

} // verus!
