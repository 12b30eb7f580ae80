//! Voice gateway errors and close codes.

use vstd::prelude::*;
use crate::text::{decimal, push_decimal, push_str};

verus! {

/// Errors that can occur during voice operations.
///
/// Errors raised by the network, JSON and URL layers are carried as their message text.
#[derive(Debug)]
pub enum VoiceError {
    /// WebSocket error.
    WebSocket(String),
    /// JSON serialization/deserialization error.
    Json(String),
    /// Connection was closed.
    Closed {
        /// Close code.
        code: u16,
        /// Close reason.
        reason: String,
    },
    /// Timeout waiting for response.
    Timeout(String),
    /// IO error.
    Io(String),
    /// UDP socket error.
    Udp(String),
    /// IP discovery failed.
    IpDiscovery(String),
    /// Encryption error.
    Encryption(String),
    /// Decoder error.
    Decoder(String),
    /// Not connected.
    NotConnected,
    /// Invalid state.
    InvalidState {
        /// Expected state.
        expected: String,
        /// Actual state.
        actual: String,
    },
    /// URL parse error.
    UrlParse(String),
    /// Channel send error.
    ChannelError(String),
}

/// The message that describes an error.
pub open spec fn error_message(e: VoiceError) -> Seq<char> {
    match e {
        VoiceError::WebSocket(m) => "WebSocket error: "@ + m@,
        VoiceError::Json(m) => "JSON error: "@ + m@,
        VoiceError::Closed { code, reason } => "Connection closed: code="@ + decimal(code as nat) + ", reason="@
            + reason@,
        VoiceError::Timeout(m) => "Timeout waiting for "@ + m@,
        VoiceError::Io(m) => "IO error: "@ + m@,
        VoiceError::Udp(m) => "UDP error: "@ + m@,
        VoiceError::IpDiscovery(m) => "IP discovery failed: "@ + m@,
        VoiceError::Encryption(m) => "Encryption error: "@ + m@,
        VoiceError::Decoder(m) => "Decoder error: "@ + m@,
        VoiceError::NotConnected => "Not connected to voice server"@,
        VoiceError::InvalidState { expected, actual } => "Invalid state: expected "@ + expected@ + ", got "@
            + actual@,
        VoiceError::UrlParse(m) => "URL parse error: "@ + m@,
        VoiceError::ChannelError(m) => "Channel error: "@ + m@,
    }
}

/// `prefix` followed by `text`.
fn prefixed(prefix: &str, text: &str) -> (r: String)
    ensures
        r@ == prefix@ + text@,
{
    let mut s = String::new();
    push_str(&mut s, prefix);
    push_str(&mut s, text);
    assert(s@ =~= prefix@ + text@);
    s
}

impl VoiceError {
    /// The message that describes this error.
    pub fn to_string(&self) -> (r: String)
        ensures
            r@ == error_message(*self),
    {
        match self {
            VoiceError::WebSocket(m) => prefixed("WebSocket error: ", m.as_str()),
            VoiceError::Json(m) => prefixed("JSON error: ", m.as_str()),
            VoiceError::Closed { code, reason } => {
                let mut s = String::new();
                push_str(&mut s, "Connection closed: code=");
                push_decimal(&mut s, *code as u64);
                push_str(&mut s, ", reason=");
                push_str(&mut s, reason.as_str());
                assert(s@ =~= error_message(*self));
                s
            },
            VoiceError::Timeout(m) => prefixed("Timeout waiting for ", m.as_str()),
            VoiceError::Io(m) => prefixed("IO error: ", m.as_str()),
            VoiceError::Udp(m) => prefixed("UDP error: ", m.as_str()),
            VoiceError::IpDiscovery(m) => prefixed("IP discovery failed: ", m.as_str()),
            VoiceError::Encryption(m) => prefixed("Encryption error: ", m.as_str()),
            VoiceError::Decoder(m) => prefixed("Decoder error: ", m.as_str()),
            VoiceError::NotConnected => "Not connected to voice server".to_owned(),
            VoiceError::InvalidState { expected, actual } => {
                let mut s = String::new();
                push_str(&mut s, "Invalid state: expected ");
                push_str(&mut s, expected.as_str());
                push_str(&mut s, ", got ");
                push_str(&mut s, actual.as_str());
                assert(s@ =~= error_message(*self));
                s
            },
            VoiceError::UrlParse(m) => prefixed("URL parse error: ", m.as_str()),
            VoiceError::ChannelError(m) => prefixed("Channel error: ", m.as_str()),
        }
    }
}

/// Discord Voice close codes.
#[derive(Debug, Clone, Copy, PartialEq, Eq, Structural)]
pub enum VoiceCloseCode {
    /// Unknown error.
    UnknownError,
    /// Unknown opcode.
    UnknownOpcode,
    /// Failed to decode payload.
    FailedToDecodePayload,
    /// Not authenticated.
    NotAuthenticated,
    /// Authentication failed.
    AuthenticationFailed,
    /// Already authenticated.
    AlreadyAuthenticated,
    /// Session is no longer valid.
    SessionNoLongerValid,
    /// Session timed out.
    SessionTimeout,
    /// Server not found.
    VoiceServerNotFound,
    /// Unknown protocol.
    UnknownProtocol,
    /// Disconnected.
    Disconnected,
    /// Voice server crashed.
    VoiceServerCrashed,
    /// Unknown encryption mode.
    UnknownEncryptionMode,
}

/// The numeric close code of each variant.
pub open spec fn close_code_value(c: VoiceCloseCode) -> u16 {
    match c {
        VoiceCloseCode::UnknownError => 4000,
        VoiceCloseCode::UnknownOpcode => 4001,
        VoiceCloseCode::FailedToDecodePayload => 4002,
        VoiceCloseCode::NotAuthenticated => 4003,
        VoiceCloseCode::AuthenticationFailed => 4004,
        VoiceCloseCode::AlreadyAuthenticated => 4005,
        VoiceCloseCode::SessionNoLongerValid => 4006,
        VoiceCloseCode::SessionTimeout => 4009,
        VoiceCloseCode::VoiceServerNotFound => 4011,
        VoiceCloseCode::UnknownProtocol => 4012,
        VoiceCloseCode::Disconnected => 4014,
        VoiceCloseCode::VoiceServerCrashed => 4015,
        VoiceCloseCode::UnknownEncryptionMode => 4016,
    }
}

/// The close code with a given number, if Discord defines one.
pub open spec fn close_code_from(code: u16) -> Option<VoiceCloseCode> {
    if code == 4000 {
        Some(VoiceCloseCode::UnknownError)
    } else if code == 4001 {
        Some(VoiceCloseCode::UnknownOpcode)
    } else if code == 4002 {
        Some(VoiceCloseCode::FailedToDecodePayload)
    } else if code == 4003 {
        Some(VoiceCloseCode::NotAuthenticated)
    } else if code == 4004 {
        Some(VoiceCloseCode::AuthenticationFailed)
    } else if code == 4005 {
        Some(VoiceCloseCode::AlreadyAuthenticated)
    } else if code == 4006 {
        Some(VoiceCloseCode::SessionNoLongerValid)
    } else if code == 4009 {
        Some(VoiceCloseCode::SessionTimeout)
    } else if code == 4011 {
        Some(VoiceCloseCode::VoiceServerNotFound)
    } else if code == 4012 {
        Some(VoiceCloseCode::UnknownProtocol)
    } else if code == 4014 {
        Some(VoiceCloseCode::Disconnected)
    } else if code == 4015 {
        Some(VoiceCloseCode::VoiceServerCrashed)
    } else if code == 4016 {
        Some(VoiceCloseCode::UnknownEncryptionMode)
    } else {
        None
    }
}

impl VoiceCloseCode {
    /// Whether reconnection is possible.
    pub fn can_reconnect(self) -> (r: bool)
        ensures
            r == (self == VoiceCloseCode::UnknownError || self == VoiceCloseCode::SessionTimeout
                || self == VoiceCloseCode::VoiceServerCrashed),
    {
        match self {
            VoiceCloseCode::UnknownError | VoiceCloseCode::SessionTimeout
            | VoiceCloseCode::VoiceServerCrashed => true,
            _ => false,
        }
    }

    /// The numeric close code.
    pub fn code(self) -> (r: u16)
        ensures
            r == close_code_value(self),
    {
        match self {
            VoiceCloseCode::UnknownError => 4000,
            VoiceCloseCode::UnknownOpcode => 4001,
            VoiceCloseCode::FailedToDecodePayload => 4002,
            VoiceCloseCode::NotAuthenticated => 4003,
            VoiceCloseCode::AuthenticationFailed => 4004,
            VoiceCloseCode::AlreadyAuthenticated => 4005,
            VoiceCloseCode::SessionNoLongerValid => 4006,
            VoiceCloseCode::SessionTimeout => 4009,
            VoiceCloseCode::VoiceServerNotFound => 4011,
            VoiceCloseCode::UnknownProtocol => 4012,
            VoiceCloseCode::Disconnected => 4014,
            VoiceCloseCode::VoiceServerCrashed => 4015,
            VoiceCloseCode::UnknownEncryptionMode => 4016,
        }
    }

    /// Try to parse a close code.
    pub fn from_code(code: u16) -> (r: Option<Self>)
        ensures
            r == close_code_from(code),
    {
        match code {
            4000 => Some(VoiceCloseCode::UnknownError),
            4001 => Some(VoiceCloseCode::UnknownOpcode),
            4002 => Some(VoiceCloseCode::FailedToDecodePayload),
            4003 => Some(VoiceCloseCode::NotAuthenticated),
            4004 => Some(VoiceCloseCode::AuthenticationFailed),
            4005 => Some(VoiceCloseCode::AlreadyAuthenticated),
            4006 => Some(VoiceCloseCode::SessionNoLongerValid),
            4009 => Some(VoiceCloseCode::SessionTimeout),
            4011 => Some(VoiceCloseCode::VoiceServerNotFound),
            4012 => Some(VoiceCloseCode::UnknownProtocol),
            4014 => Some(VoiceCloseCode::Disconnected),
            4015 => Some(VoiceCloseCode::VoiceServerCrashed),
            4016 => Some(VoiceCloseCode::UnknownEncryptionMode),
            _ => None,
        }
    }
}

/// Parsing a close code's number gives back that close code, and a number parses to a close
/// code only if it is that code's number.
pub proof fn lemma_close_code_roundtrip(c: VoiceCloseCode, n: u16)
    ensures
        close_code_from(close_code_value(c)) == Some(c),
        close_code_from(n) == Some(c) ==> close_code_value(c) == n,
{
}

} // verus!
