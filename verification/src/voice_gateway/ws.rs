//! Voice WebSocket session state: URL, heartbeats, and the decisions taken on each message.
//! The socket and its event loop are the caller's.

use crate::text::{decimal, push_decimal, push_str, str_starts_with};
use crate::voice_gateway::error::VoiceError;
use crate::voice_gateway::payload::{
    ClientConnectPayload, ClientDisconnectPayload, HeartbeatPayload, IdentifyPayload, SelectProtocolData,
    SelectProtocolPayload, SessionDescriptionPayload, SpeakingFlags, SpeakingPayload,
};
use crate::voice_gateway::opcode::VoiceOpCode;
use vstd::prelude::*;

verus! {

/// Voice connection info received from Ready.
#[derive(Debug, Clone)]
pub struct VoiceReadyInfo {
    /// SSRC for this connection.
    pub ssrc: u32,
    /// Voice server IP.
    pub ip: String,
    /// Voice server UDP port.
    pub port: u16,
    /// Available encryption modes.
    pub modes: Vec<String>,
}

/// Session description received after protocol selection.
#[derive(Debug, Clone)]
pub struct VoiceSessionDescription {
    /// Selected encryption mode.
    pub mode: String,
    /// Secret key for encryption.
    pub secret_key: Vec<u8>,
}

/// Events from the voice WebSocket.
#[derive(Debug, Clone)]
pub enum VoiceEvent {
    /// Ready event with connection info.
    Ready(VoiceReadyInfo),
    /// Session description with encryption key.
    SessionDescription(VoiceSessionDescription),
    /// Client connected to voice.
    ClientConnect {
        /// User ID.
        user_id: u64,
        /// Audio SSRC.
        ssrc: Option<u32>,
    },
    /// Client disconnected from voice.
    ClientDisconnect {
        /// User ID.
        user_id: u64,
    },
    /// Resumed successfully.
    Resumed,
    /// Connection closed.
    Closed {
        /// Close code.
        code: u16,
        /// Close reason.
        reason: String,
    },
}

/// Commands to control the Voice WebSocket.
#[derive(Debug, Clone)]
pub enum VoiceCommand {
    /// Send Select Protocol payload.
    SelectProtocol {
        /// Protocol.
        protocol: String,
        /// External IP.
        ip: String,
        /// External port.
        port: u16,
        /// Encryption mode name.
        mode: String,
    },
    /// Send Speaking payload.
    Speaking {
        /// Speaking flags.
        speaking: SpeakingFlags,
        /// Delay.
        delay: u32,
        /// SSRC.
        ssrc: u32,
    },
}

/// A decoded message from the voice server, as the message handler looks at it.
#[derive(Debug, Clone)]
pub enum InboundPayload {
    /// Heartbeat acknowledged.
    HeartbeatAck,
    /// Session description (op 4) with its data.
    SessionDescription(SessionDescriptionPayload),
    /// A client connected (op 12) with its data.
    ClientConnect(ClientConnectPayload),
    /// A client disconnected (op 13) with its data.
    ClientDisconnect(ClientDisconnectPayload),
    /// Session resumed.
    Resumed,
    /// Any other opcode, or one of the above without data.
    Other(VoiceOpCode),
}

/// How long the handshake waits for Hello, and then for Ready, in milliseconds.
pub const HANDSHAKE_TIMEOUT_MS: u64 = 10000;

/// One thing that happens while the handshake waits for a given opcode.
#[derive(Debug, Clone, Copy, PartialEq, Eq, Structural)]
pub enum HandshakeEvent {
    /// A text frame carrying `op`, with or without a data field.
    Frame { op: VoiceOpCode, has_data: bool },
    /// A frame that is not text.
    NonText,
    /// The stream ended.
    Ended,
    /// The wait ran out of time.
    TimedOut,
}

/// What the handshake does next while it waits.
#[derive(Debug)]
pub enum HandshakeStep {
    /// The frame is the awaited one: take its data.
    Accept,
    /// Keep waiting.
    Skip,
    /// Give up with this error.
    Fail(VoiceError),
}

/// Where the voice handshake stands.
#[derive(Debug, Clone, Copy, PartialEq, Eq, Structural)]
pub enum HandshakePhase {
    /// Connected; waiting for Hello.
    AwaitingHello,
    /// Identified; waiting for Ready.
    AwaitingReady,
    /// Ready arrived; the session runs.
    Established,
}

/// What the handshake does once the payload that its phase awaited has arrived.
#[derive(Debug, Clone, Copy, PartialEq, Eq, Structural)]
pub enum HandshakeAction {
    /// Take the heartbeat interval from Hello and send Identify.
    SendIdentify,
    /// Take the session from Ready and report it as the Ready event.
    ReportReady,
    /// Nothing: the handshake is over.
    Nothing,
}

/// The opcode that a handshake phase waits for.
pub open spec fn awaited_spec(phase: HandshakePhase) -> Option<VoiceOpCode> {
    match phase {
        HandshakePhase::AwaitingHello => Some(VoiceOpCode::Hello),
        HandshakePhase::AwaitingReady => Some(VoiceOpCode::Ready),
        HandshakePhase::Established => None,
    }
}

/// The next phase and the action once the awaited payload of a phase has arrived: Hello
/// leads to Identify and then to waiting for Ready; Ready is reported and ends the handshake.
pub open spec fn advance_spec(phase: HandshakePhase) -> (HandshakePhase, HandshakeAction) {
    match phase {
        HandshakePhase::AwaitingHello => (HandshakePhase::AwaitingReady, HandshakeAction::SendIdentify),
        HandshakePhase::AwaitingReady => (HandshakePhase::Established, HandshakeAction::ReportReady),
        HandshakePhase::Established => (HandshakePhase::Established, HandshakeAction::Nothing),
    }
}

/// The WebSocket URL for a voice endpoint (version 4 of the protocol).
pub open spec fn voice_gateway_url(endpoint: Seq<char>) -> Seq<char> {
    if endpoint.len() >= 6 && endpoint.subrange(0, 6) == "wss://"@ {
        endpoint + "/?v=4"@
    } else {
        "wss://"@ + endpoint + "/?v=4"@
    }
}

/// Voice WebSocket session state.
pub struct VoiceWebSocket {
    /// WebSocket URL.
    url: String,
    /// Whether we're connected.
    connected: bool,
    /// Last heartbeat nonce.
    last_heartbeat_nonce: u64,
    /// Heartbeat acknowledged.
    heartbeat_acked: bool,
    /// Heartbeat latency in milliseconds.
    heartbeat_latency_ms: Option<u64>,
}

/// `a - b`, or zero when `b > a`.
pub open spec fn saturating_sub(a: u64, b: u64) -> u64 {
    if a >= b {
        (a - b) as u64
    } else {
        0
    }
}

impl VoiceWebSocket {
    /// The WebSocket URL.
    pub closed spec fn spec_url(&self) -> Seq<char> {
        self.url@
    }

    /// Whether the socket is connected.
    pub closed spec fn spec_connected(&self) -> bool {
        self.connected
    }

    /// Nonce of the last heartbeat sent.
    pub closed spec fn spec_last_nonce(&self) -> u64 {
        self.last_heartbeat_nonce
    }

    /// Whether the last heartbeat was acknowledged.
    pub closed spec fn spec_acked(&self) -> bool {
        self.heartbeat_acked
    }

    /// Measured heartbeat latency.
    pub closed spec fn spec_latency(&self) -> Option<u64> {
        self.heartbeat_latency_ms
    }

    /// Create a new voice WebSocket handler for an endpoint from VOICE_SERVER_UPDATE.
    pub fn new(endpoint: &str) -> (r: Self)
        ensures
            r.spec_url() == voice_gateway_url(endpoint@),
            !r.spec_connected(),
            r.spec_last_nonce() == 0,
            r.spec_acked(),
            r.spec_latency() is None,
    {
        let mut url = String::new();
        if str_starts_with(endpoint, "wss://") {
            push_str(&mut url, endpoint);
            push_str(&mut url, "/?v=4");
        } else {
            push_str(&mut url, "wss://");
            push_str(&mut url, endpoint);
            push_str(&mut url, "/?v=4");
        }
        proof {
            reveal_strlit("wss://");
        }
        assert(url@ =~= voice_gateway_url(endpoint@));
        Self { url, connected: false, last_heartbeat_nonce: 0, heartbeat_acked: true, heartbeat_latency_ms: None }
    }

    /// The WebSocket URL.
    pub fn url(&self) -> (r: &str)
        ensures
            r@ == self.spec_url(),
    {
        self.url.as_str()
    }

    /// Records whether the socket is connected.
    pub fn set_connected(&mut self, connected: bool)
        ensures
            final(self).spec_connected() == connected,
            final(self).spec_url() == old(self).spec_url(),
            final(self).spec_last_nonce() == old(self).spec_last_nonce(),
            final(self).spec_acked() == old(self).spec_acked(),
            final(self).spec_latency() == old(self).spec_latency(),
    {
        self.connected = connected;
    }

    /// Check if connected.
    pub fn is_connected(&self) -> (r: bool)
        ensures
            r == self.spec_connected(),
    {
        self.connected
    }

    /// Get heartbeat latency.
    pub fn heartbeat_latency_ms(&self) -> (r: Option<u64>)
        ensures
            r == self.spec_latency(),
    {
        self.heartbeat_latency_ms
    }

    /// Heartbeat timer tick: fails when the previous heartbeat went unacknowledged; otherwise
    /// records the nonce and gives the heartbeat to send.
    pub fn heartbeat_due(&mut self, nonce: u64) -> (r: Result<HeartbeatPayload, VoiceError>)
        ensures
            !old(self).spec_acked() ==> (r matches Err(VoiceError::Timeout(m)) && m@ == "Heartbeat ACK"@),
            !old(self).spec_acked() ==> *final(self) == *old(self),
            old(self).spec_acked() ==> (r matches Ok(p) && p.nonce == nonce && p.seq_ack is None),
            old(self).spec_acked() ==> final(self).spec_last_nonce() == nonce && !final(self).spec_acked(),
            final(self).spec_url() == old(self).spec_url(),
            final(self).spec_connected() == old(self).spec_connected(),
            final(self).spec_latency() == old(self).spec_latency(),
    {
        if !self.heartbeat_acked {
            return Err(VoiceError::Timeout(String::from_str("Heartbeat ACK")));
        }
        self.last_heartbeat_nonce = nonce;
        self.heartbeat_acked = false;
        Ok(HeartbeatPayload { nonce, seq_ack: None })
    }

    /// Heartbeat acknowledged at `now` (milliseconds): the latency since the last heartbeat.
    pub fn heartbeat_ack(&mut self, now: u64)
        ensures
            final(self).spec_acked(),
            final(self).spec_latency() == Some(saturating_sub(now, old(self).spec_last_nonce())),
            final(self).spec_last_nonce() == old(self).spec_last_nonce(),
            final(self).spec_url() == old(self).spec_url(),
            final(self).spec_connected() == old(self).spec_connected(),
    {
        self.heartbeat_acked = true;
        let sent = self.last_heartbeat_nonce;
        let latency = if now >= sent { now - sent } else { 0 };
        self.heartbeat_latency_ms = Some(latency);
    }

    /// Handle an incoming message received at `now` (milliseconds): heartbeat bookkeeping, and
    /// the event to pass on, if any.
    pub fn handle_message(&mut self, message: InboundPayload, now: u64) -> (r: Option<VoiceEvent>)
        ensures
            message is HeartbeatAck ==> (r is None && final(self).spec_acked() && final(self).spec_latency()
                == Some(saturating_sub(now, old(self).spec_last_nonce()))),
            !(message is HeartbeatAck) ==> *final(self) == *old(self),
            message matches InboundPayload::SessionDescription(p) ==> (r matches Some(
                VoiceEvent::SessionDescription(d),
            ) && d.mode == p.mode && d.secret_key == p.secret_key),
            message matches InboundPayload::ClientConnect(p) ==> (r matches Some(
                VoiceEvent::ClientConnect { user_id, ssrc },
            ) && user_id == p.user_id.0 && ssrc == p.audio_ssrc),
            message matches InboundPayload::ClientDisconnect(p) ==> (r matches Some(
                VoiceEvent::ClientDisconnect { user_id },
            ) && user_id == p.user_id.0),
            message is Resumed ==> r matches Some(VoiceEvent::Resumed),
            message is Other ==> r is None,
            final(self).spec_url() == old(self).spec_url(),
            final(self).spec_connected() == old(self).spec_connected(),
    {
        match message {
            InboundPayload::HeartbeatAck => {
                self.heartbeat_ack(now);
                None
            },
            InboundPayload::SessionDescription(desc) => Some(
                VoiceEvent::SessionDescription(VoiceSessionDescription { mode: desc.mode, secret_key: desc.secret_key }),
            ),
            InboundPayload::ClientConnect(client) => Some(
                VoiceEvent::ClientConnect { user_id: client.user_id.0, ssrc: client.audio_ssrc },
            ),
            InboundPayload::ClientDisconnect(client) => Some(VoiceEvent::ClientDisconnect { user_id: client.user_id.0 }),
            InboundPayload::Resumed => Some(VoiceEvent::Resumed),
            InboundPayload::Other(_) => None,
        }
    }

    /// The Identify payload for a session (IDs rendered in decimal).
    pub fn identify_payload(session_id: String, guild_id: u64, user_id: u64, token: String) -> (r: IdentifyPayload)
        ensures
            r.server_id@ == decimal(guild_id as nat),
            r.user_id@ == decimal(user_id as nat),
            r.session_id == session_id,
            r.token == token,
    {
        let mut server_id = String::new();
        push_decimal(&mut server_id, guild_id);
        let mut user = String::new();
        push_decimal(&mut user, user_id);
        assert(server_id@ =~= decimal(guild_id as nat));
        assert(user@ =~= decimal(user_id as nat));
        IdentifyPayload { server_id, user_id: user, session_id, token }
    }

    /// The Select Protocol payload to send.
    pub fn select_protocol_payload(protocol: &str, ip: &str, port: u16, mode: &str) -> (r: SelectProtocolPayload)
        ensures
            r.protocol@ == protocol@,
            r.data.address@ == ip@,
            r.data.port == port,
            r.data.mode@ == mode@,
    {
        SelectProtocolPayload {
            protocol: String::from_str(protocol),
            data: SelectProtocolData { address: String::from_str(ip), port, mode: String::from_str(mode) },
        }
    }

    /// The Speaking payload to send.
    pub fn speaking_payload(speaking: SpeakingFlags, delay: u32, ssrc: u32) -> (r: SpeakingPayload)
        ensures
            r.speaking == speaking.spec_bits(),
            r.delay == delay,
            r.ssrc == ssrc,
    {
        SpeakingPayload { speaking: speaking.bits(), delay, ssrc }
    }

    /// The opcode that the handshake waits for in `phase`; `None` once it is established.
    pub fn awaited_opcode(phase: HandshakePhase) -> (r: Option<VoiceOpCode>)
        ensures
            r == awaited_spec(phase),
    {
        match phase {
            HandshakePhase::AwaitingHello => Some(VoiceOpCode::Hello),
            HandshakePhase::AwaitingReady => Some(VoiceOpCode::Ready),
            HandshakePhase::Established => None,
        }
    }

    /// The next phase of the handshake and what to do, once the payload awaited in `phase`
    /// has arrived.
    pub fn advance_handshake(phase: HandshakePhase) -> (r: (HandshakePhase, HandshakeAction))
        ensures
            r == advance_spec(phase),
    {
        match phase {
            HandshakePhase::AwaitingHello => (HandshakePhase::AwaitingReady, HandshakeAction::SendIdentify),
            HandshakePhase::AwaitingReady => (HandshakePhase::Established, HandshakeAction::ReportReady),
            HandshakePhase::Established => (HandshakePhase::Established, HandshakeAction::Nothing),
        }
    }

    /// One step of waiting for the payload with opcode `wanted` (Hello or Ready) during the
    /// handshake: a text frame with that opcode and data is taken; other frames are skipped;
    /// the end of the stream fails with a close "Stream ended before `what`", and running out
    /// of time with a timeout naming `what`.
    pub fn handshake_step(wanted: VoiceOpCode, event: HandshakeEvent, what: &str) -> (r: HandshakeStep)
        ensures
            (match event {
                HandshakeEvent::Frame { op, has_data } => if op == wanted && has_data {
                    r is Accept
                } else {
                    r is Skip
                },
                HandshakeEvent::NonText => r is Skip,
                HandshakeEvent::Ended => r matches HandshakeStep::Fail(VoiceError::Closed { code, reason }) && code == 0
                    && reason@ == "Stream ended before "@ + what@,
                HandshakeEvent::TimedOut => r matches HandshakeStep::Fail(VoiceError::Timeout(s)) && s@ == what@,
            }),
    {
        match event {
            HandshakeEvent::Frame { op, has_data } => {
                if op == wanted && has_data {
                    HandshakeStep::Accept
                } else {
                    HandshakeStep::Skip
                }
            },
            HandshakeEvent::NonText => HandshakeStep::Skip,
            HandshakeEvent::Ended => {
                let mut reason = String::new();
                push_str(&mut reason, "Stream ended before ");
                push_str(&mut reason, what);
                HandshakeStep::Fail(VoiceError::Closed { code: 0, reason })
            },
            HandshakeEvent::TimedOut => HandshakeStep::Fail(VoiceError::Timeout(String::from_str(what))),
        }
    }

    /// The event for a close frame: its code and reason, or code 0 and "No reason".
    pub fn closed_event(frame: Option<(u16, String)>) -> (r: VoiceEvent)
        ensures
            frame matches Some((c, s)) ==> (r matches VoiceEvent::Closed { code, reason } && code == c && reason == s),
            frame is None ==> (r matches VoiceEvent::Closed { code, reason } && code == 0 && reason@ == "No reason"@),
    {
        match frame {
            Some((code, reason)) => VoiceEvent::Closed { code, reason },
            None => VoiceEvent::Closed { code: 0, reason: String::from_str("No reason") },
        }
    }
}

} // verus!
