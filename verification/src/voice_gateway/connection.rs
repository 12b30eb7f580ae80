//! Voice connection state machine: the decisions taken on each gateway event. Sockets, tasks
//! and channels are the caller's.

use crate::text::push_str;
use crate::voice_gateway::crypto::is_encryption_error;
use crate::voice_gateway::error::VoiceError;
use crate::voice_gateway::payload::{mode_name, parse_mode_spec, select_preferred_spec, EncryptionMode, SpeakingFlags};
use crate::voice_gateway::udp::VoiceUdp;
use crate::voice_gateway::ws::{VoiceCommand, VoiceReadyInfo, VoiceSessionDescription, VoiceWebSocket, voice_gateway_url};
use vstd::prelude::*;


verus! {

/// Voice connection state.
#[derive(Debug, Clone, Copy, PartialEq, Eq, Structural)]
pub enum VoiceState {
    /// Not connected.
    Disconnected,
    /// Connecting to WebSocket.
    Connecting,
    /// Performing IP discovery.
    Discovering,
    /// Selecting protocol.
    SelectingProtocol,
    /// Ready to send/receive audio.
    Ready,
    /// Disconnecting.
    Disconnecting,
}

/// The state that a stored byte denotes; unknown values read as `Disconnected`.
pub open spec fn voice_state_from(value: u8) -> VoiceState {
    if value == 1 {
        VoiceState::Connecting
    } else if value == 2 {
        VoiceState::Discovering
    } else if value == 3 {
        VoiceState::SelectingProtocol
    } else if value == 4 {
        VoiceState::Ready
    } else if value == 5 {
        VoiceState::Disconnecting
    } else {
        VoiceState::Disconnected
    }
}

/// The byte that stores a state.
pub open spec fn voice_state_value(s: VoiceState) -> u8 {
    match s {
        VoiceState::Disconnected => 0,
        VoiceState::Connecting => 1,
        VoiceState::Discovering => 2,
        VoiceState::SelectingProtocol => 3,
        VoiceState::Ready => 4,
        VoiceState::Disconnecting => 5,
    }
}

impl From<u8> for VoiceState {
    fn from(value: u8) -> (r: Self) {
        match value {
            0 => VoiceState::Disconnected,
            1 => VoiceState::Connecting,
            2 => VoiceState::Discovering,
            3 => VoiceState::SelectingProtocol,
            4 => VoiceState::Ready,
            5 => VoiceState::Disconnecting,
            _ => VoiceState::Disconnected,
        }
    }
}

impl vstd::std_specs::convert::FromSpecImpl<u8> for VoiceState {
    open spec fn obeys_from_spec() -> bool {
        true
    }

    open spec fn from_spec(value: u8) -> Self {
        voice_state_from(value)
    }
}

impl VoiceState {
    /// The byte that stores this state.
    pub fn as_u8(self) -> (r: u8)
        ensures
            r == voice_state_value(self),
    {
        match self {
            VoiceState::Disconnected => 0,
            VoiceState::Connecting => 1,
            VoiceState::Discovering => 2,
            VoiceState::SelectingProtocol => 3,
            VoiceState::Ready => 4,
            VoiceState::Disconnecting => 5,
        }
    }
}

/// Reading back a stored state gives the state.
pub proof fn lemma_voice_state_roundtrip(s: VoiceState)
    ensures
        voice_state_from(voice_state_value(s)) == s,
{
}

/// Voice connection configuration.
#[derive(Debug, Clone)]
pub struct VoiceConfig {
    /// Guild ID.
    pub guild_id: u64,
    /// Channel ID.
    pub channel_id: u64,
    /// User ID.
    pub user_id: u64,
    /// Session ID from VOICE_STATE_UPDATE.
    pub session_id: String,
    /// Voice server endpoint.
    pub endpoint: String,
    /// Voice token.
    pub token: String,
}

/// A Discord voice connection.
pub struct VoiceConnection {
    /// Configuration.
    config: VoiceConfig,
    /// Current state.
    state: VoiceState,
    /// UDP transport.
    udp: Option<VoiceUdp>,
    /// SSRC assigned by server.
    ssrc: Option<u32>,
    /// Currently speaking.
    speaking: bool,
}

impl VoiceConnection {
    /// The configuration.
    pub closed spec fn spec_config(&self) -> &VoiceConfig {
        &self.config
    }

    /// The current state.
    pub closed spec fn spec_state(&self) -> VoiceState {
        self.state
    }

    /// The UDP transport, once set up.
    pub closed spec fn spec_udp(&self) -> Option<VoiceUdp> {
        self.udp
    }

    /// The SSRC that the server assigned.
    pub closed spec fn spec_ssrc(&self) -> Option<u32> {
        self.ssrc
    }

    /// Whether we are speaking.
    pub closed spec fn spec_speaking(&self) -> bool {
        self.speaking
    }

    /// Create a new voice connection.
    pub fn new(config: VoiceConfig) -> (r: Self)
        ensures
            *r.spec_config() == config,
            r.spec_state() == VoiceState::Disconnected,
            r.spec_udp() is None,
            r.spec_ssrc() is None,
            !r.spec_speaking(),
    {
        Self { config, state: VoiceState::Disconnected, udp: None, ssrc: None, speaking: false }
    }

    /// Get the current state.
    pub fn state(&self) -> (r: VoiceState)
        ensures
            r == self.spec_state(),
    {
        self.state
    }

    /// Check if ready to send audio.
    pub fn is_ready(&self) -> (r: bool)
        ensures
            r == (self.spec_state() == VoiceState::Ready),
    {
        self.state == VoiceState::Ready
    }

    /// Starts connecting: the state becomes `Connecting`, and the WebSocket session for the
    /// configured endpoint is returned.
    pub fn begin_connect(&mut self) -> (ws: VoiceWebSocket)
        ensures
            final(self).spec_state() == VoiceState::Connecting,
            ws.spec_url() == voice_gateway_url(old(self).spec_config().endpoint@),
            !ws.spec_connected(),
            ws.spec_acked(),
            ws.spec_latency() is None,
            final(self).spec_config() == old(self).spec_config(),
            final(self).spec_udp() == old(self).spec_udp(),
            final(self).spec_ssrc() == old(self).spec_ssrc(),
            final(self).spec_speaking() == old(self).spec_speaking(),
    {
        self.state = VoiceState::Connecting;
        VoiceWebSocket::new(self.config.endpoint.as_str())
    }

    /// Process a Ready event: the SSRC is recorded and IP discovery begins.
    pub fn handle_ready(&mut self, info: &VoiceReadyInfo)
        ensures
            final(self).spec_ssrc() == Some(info.ssrc),
            final(self).spec_state() == VoiceState::Discovering,
            final(self).spec_config() == old(self).spec_config(),
            final(self).spec_udp() == old(self).spec_udp(),
            final(self).spec_speaking() == old(self).spec_speaking(),
    {
        self.ssrc = Some(info.ssrc);
        self.state = VoiceState::Discovering;
    }

    /// After IP discovery: keeps the UDP transport, selects the preferred encryption mode and
    /// gives the Select Protocol command, or fails when no mode is supported.
    pub fn handle_discovery(
        &mut self,
        modes: &[String],
        udp: VoiceUdp,
        external_ip: String,
        external_port: u16,
    ) -> (r: Result<VoiceCommand, VoiceError>)
        ensures
            final(self).spec_udp() == Some(udp),
            select_preferred_spec(modes@) is None ==> (r matches Err(e) && is_encryption_error(
                e,
                "No supported encryption mode"@,
            ) && final(self).spec_state() == old(self).spec_state()),
            select_preferred_spec(modes@) matches Some(mode) ==> (r matches Ok(
                VoiceCommand::SelectProtocol { protocol, ip, port, mode: m },
            ) && protocol@ == "udp"@ && ip == external_ip && port == external_port && m@ == mode_name(mode)
                && final(self).spec_state() == VoiceState::SelectingProtocol),
            final(self).spec_config() == old(self).spec_config(),
            final(self).spec_ssrc() == old(self).spec_ssrc(),
            final(self).spec_speaking() == old(self).spec_speaking(),
    {
        self.udp = Some(udp);
        let mode = match EncryptionMode::select_preferred(modes) {
            Some(m) => m,
            None => return Err(VoiceError::Encryption(String::from_str("No supported encryption mode"))),
        };
        self.state = VoiceState::SelectingProtocol;
        Ok(VoiceCommand::SelectProtocol {
            protocol: String::from_str("udp"),
            ip: external_ip,
            port: external_port,
            mode: mode.to_string(),
        })
    }

    /// Process a SessionDescription event: configures encryption on the UDP transport and
    /// becomes ready.
    pub fn handle_session_description(&mut self, desc: &VoiceSessionDescription) -> (r: Result<(), VoiceError>)
        ensures
            parse_mode_spec(desc.mode@) is None ==> (r matches Err(VoiceError::Encryption(m)) && m@ == "Unknown mode: "@
                + desc.mode@ && *final(self) == *old(self)),
            r is Ok ==> final(self).spec_state() == VoiceState::Ready,
            r is Ok ==> parse_mode_spec(desc.mode@) is Some,
            r is Ok ==> (old(self).spec_udp() is Some ==> (final(self).spec_udp() matches Some(u) && (
            u.spec_crypto() matches Some(c) && c.secret_key() == desc.secret_key@ && Some(c.encryption_mode())
                == parse_mode_spec(desc.mode@)))),
            r is Err && parse_mode_spec(desc.mode@) is Some ==> old(self).spec_udp() is Some && desc.secret_key@.len() != 32
                && final(self).spec_state() == old(self).spec_state(),
            parse_mode_spec(desc.mode@) is Some && (old(self).spec_udp() is None || desc.secret_key@.len() == 32) ==> r is Ok,
            old(self).spec_udp() is None ==> final(self).spec_udp() is None,
            final(self).spec_config() == old(self).spec_config(),
            final(self).spec_ssrc() == old(self).spec_ssrc(),
            final(self).spec_speaking() == old(self).spec_speaking(),
    {
        let mode = match EncryptionMode::parse_mode(desc.mode.as_str()) {
            Some(m) => m,
            None => {
                let mut m = String::from_str("Unknown mode: ");
                push_str(&mut m, desc.mode.as_str());
                return Err(VoiceError::Encryption(m));
            },
        };
        match &mut self.udp {
            Some(udp) => {
                match udp.set_encryption(desc.secret_key.as_slice(), mode) {
                    Ok(()) => {},
                    Err(e) => return Err(e),
                }
            },
            None => {},
        }
        self.state = VoiceState::Ready;
        Ok(())
    }

    /// Whether `prepare_audio` may be given a frame of `len` bytes: it may unless the
    /// connection is ready and its transport refuses the frame (`VoiceUdp::fits_frame`).
    pub fn fits_frame(&self, len: usize) -> (r: bool)
        ensures
            r == (self.spec_state() == VoiceState::Ready ==> (self.spec_udp() matches Some(u) ==> u.send_fits(
                len as nat,
            ))),
    {
        match &self.udp {
            Some(udp) => !self.is_ready() || udp.fits_frame(len),
            None => true,
        }
    }

    /// Builds the next audio packet for an Opus frame on the UDP transport; fails unless the
    /// connection is ready.
    pub fn prepare_audio(&mut self, opus_data: &[u8]) -> (r: Result<usize, VoiceError>)
        requires
            old(self).spec_state() == VoiceState::Ready ==> (old(self).spec_udp() matches Some(u) ==> u.send_fits(
                opus_data@.len(),
            )),
        ensures
            old(self).spec_state() != VoiceState::Ready ==> (r matches Err(VoiceError::NotConnected) && *final(self)
                == *old(self)),
            old(self).spec_udp() is None ==> (r matches Err(VoiceError::NotConnected) && *final(self) == *old(self)),
            old(self).spec_state() == VoiceState::Ready ==> (old(self).spec_udp() matches Some(u) ==> (final(self).spec_udp() matches Some(u2)
                && VoiceUdp::prepared(u, u2, opus_data@, r))),
            final(self).spec_state() == old(self).spec_state(),
            final(self).spec_ssrc() == old(self).spec_ssrc(),
            final(self).spec_config() == old(self).spec_config(),
            final(self).spec_speaking() == old(self).spec_speaking(),
    {
        if !self.is_ready() {
            return Err(VoiceError::NotConnected);
        }
        match &mut self.udp {
            Some(udp) => udp.prepare_audio(opus_data),
            None => Err(VoiceError::NotConnected),
        }
    }

    /// Set speaking state: the Speaking command to send, once the server assigned an SSRC.
    pub fn set_speaking(&mut self, speaking: bool) -> (r: Option<VoiceCommand>)
        ensures
            final(self).spec_speaking() == speaking,
            old(self).spec_ssrc() is None ==> r is None,
            old(self).spec_ssrc() matches Some(s) ==> (r matches Some(VoiceCommand::Speaking { speaking: f, delay, ssrc })
                && f.spec_bits() == (if speaking { 1u8 } else { 0u8 }) && delay == 0 && ssrc == s),
            final(self).spec_state() == old(self).spec_state(),
            final(self).spec_ssrc() == old(self).spec_ssrc(),
            final(self).spec_udp() == old(self).spec_udp(),
            final(self).spec_config() == old(self).spec_config(),
    {
        self.speaking = speaking;
        let flags = if speaking {
            SpeakingFlags::MICROPHONE()
        } else {
            SpeakingFlags::NONE()
        };
        match self.ssrc {
            Some(ssrc) => Some(VoiceCommand::Speaking { speaking: flags, delay: 0, ssrc }),
            None => None,
        }
    }

    /// Disconnect from voice: the UDP transport and SSRC are dropped.
    pub fn disconnect(&mut self)
        ensures
            final(self).spec_state() == VoiceState::Disconnected,
            final(self).spec_udp() is None,
            final(self).spec_ssrc() is None,
            final(self).spec_config() == old(self).spec_config(),
            final(self).spec_speaking() == old(self).spec_speaking(),
    {
        self.state = VoiceState::Disconnecting;
        self.udp = None;
        self.ssrc = None;
        self.state = VoiceState::Disconnected;
    }

    /// The connection was closed by the server.
    pub fn handle_closed(&mut self)
        ensures
            final(self).spec_state() == VoiceState::Disconnected,
            final(self).spec_udp() == old(self).spec_udp(),
            final(self).spec_ssrc() == old(self).spec_ssrc(),
            final(self).spec_config() == old(self).spec_config(),
            final(self).spec_speaking() == old(self).spec_speaking(),
    {
        self.state = VoiceState::Disconnected;
    }

    /// Get the assigned SSRC.
    pub fn ssrc(&self) -> (r: Option<u32>)
        ensures
            r == self.spec_ssrc(),
    {
        self.ssrc
    }

    /// Get the guild ID.
    pub fn guild_id(&self) -> (r: u64)
        ensures
            r == self.spec_config().guild_id,
    {
        self.config.guild_id
    }

    /// Get the channel ID.
    pub fn channel_id(&self) -> (r: u64)
        ensures
            r == self.spec_config().channel_id,
    {
        self.config.channel_id
    }

    /// The configuration.
    pub fn config(&self) -> (r: &VoiceConfig)
        ensures
            *r == *self.spec_config(),
    {
        &self.config
    }

    /// Get the UDP transport.
    pub fn udp(&self) -> (r: Option<&VoiceUdp>)
        ensures
            r matches Some(u) ==> self.spec_udp() == Some(*u),
            r is None <==> self.spec_udp() is None,
    {
        self.udp.as_ref()
    }
}

} // verus!
