//! Voice gateway client: packet framing, encryption, and connection state.

pub mod connection;
pub mod crypto;
pub mod error;
pub mod opcode;
pub mod payload;
pub mod udp;
pub mod ws;

pub use connection::{VoiceConfig, VoiceConnection, VoiceState};
pub use crypto::{build_rtp_header, parse_rtp_header, VoiceCrypto, KEY_SIZE, NONCE_SIZE, RTP_HEADER_SIZE, TAG_SIZE};
pub use error::{VoiceCloseCode, VoiceError};
pub use opcode::VoiceOpCode;
pub use payload::{
    EncryptionMode, IdentifyPayload, ReadyPayload, ResumePayload, SelectProtocolPayload, SessionDescriptionPayload,
    SpeakingFlags, SpeakingPayload,
};
pub use udp::VoiceUdp;
pub use ws::{VoiceEvent, VoiceReadyInfo, VoiceSessionDescription, VoiceWebSocket};
