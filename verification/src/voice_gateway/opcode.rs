//! Voice Gateway opcodes.

use vstd::prelude::*;

verus! {

/// Voice Gateway operation codes.
#[derive(Debug, Clone, Copy, PartialEq, Eq, Structural)]
pub enum VoiceOpCode {
    /// Begin speaking.
    Identify,
    /// Select voice protocol.
    SelectProtocol,
    /// Response to Identify, contains SSRC and other info.
    Ready,
    /// Keep connection alive.
    Heartbeat,
    /// Response to SelectProtocol, contains encryption key.
    SessionDescription,
    /// Indicate speaking state to server.
    Speaking,
    /// Acknowledgment of heartbeat.
    HeartbeatAck,
    /// Resume voice connection.
    Resume,
    /// Initial connection info.
    Hello,
    /// Resume acknowledged.
    Resumed,
    /// Someone joined/left the voice channel.
    ClientConnect,
    /// A client disconnected.
    ClientDisconnect,
    /// Dave protocol request (E2EE).
    DaveProtocolPrepareTransition,
    /// Dave protocol execute transition.
    DaveProtocolExecuteTransition,
    /// Dave protocol ready.
    DaveProtocolTransitionReady,
    /// Dave protocol prepare epoch.
    DaveProtocolPrepareEpoch,
    /// Dave MLS external sender.
    DaveMlsExternalSender,
    /// Dave MLS key package.
    DaveMlsKeyPackage,
    /// Dave MLS proposals.
    DaveMlsProposals,
    /// Dave MLS commit welcome.
    DaveMlsCommitWelcome,
    /// Dave MLS announce commit transition.
    DaveMlsAnnounceCommitTransition,
    /// Dave MLS welcome.
    DaveMlsWelcome,
    /// Dave MLS invalid commit welcome.
    DaveMlsInvalidCommitWelcome,
}

/// The wire number of each opcode.
pub open spec fn opcode_value(op: VoiceOpCode) -> u8 {
    match op {
        VoiceOpCode::Identify => 0,
        VoiceOpCode::SelectProtocol => 1,
        VoiceOpCode::Ready => 2,
        VoiceOpCode::Heartbeat => 3,
        VoiceOpCode::SessionDescription => 4,
        VoiceOpCode::Speaking => 5,
        VoiceOpCode::HeartbeatAck => 6,
        VoiceOpCode::Resume => 7,
        VoiceOpCode::Hello => 8,
        VoiceOpCode::Resumed => 9,
        VoiceOpCode::ClientConnect => 12,
        VoiceOpCode::ClientDisconnect => 13,
        VoiceOpCode::DaveProtocolPrepareTransition => 21,
        VoiceOpCode::DaveProtocolExecuteTransition => 22,
        VoiceOpCode::DaveProtocolTransitionReady => 23,
        VoiceOpCode::DaveProtocolPrepareEpoch => 24,
        VoiceOpCode::DaveMlsExternalSender => 25,
        VoiceOpCode::DaveMlsKeyPackage => 26,
        VoiceOpCode::DaveMlsProposals => 27,
        VoiceOpCode::DaveMlsCommitWelcome => 28,
        VoiceOpCode::DaveMlsAnnounceCommitTransition => 29,
        VoiceOpCode::DaveMlsWelcome => 30,
        VoiceOpCode::DaveMlsInvalidCommitWelcome => 31,
    }
}

/// The opcode with a given wire number, if any.
pub open spec fn opcode_from(n: u8) -> Option<VoiceOpCode> {
    if n == 0 {
        Some(VoiceOpCode::Identify)
    } else if n == 1 {
        Some(VoiceOpCode::SelectProtocol)
    } else if n == 2 {
        Some(VoiceOpCode::Ready)
    } else if n == 3 {
        Some(VoiceOpCode::Heartbeat)
    } else if n == 4 {
        Some(VoiceOpCode::SessionDescription)
    } else if n == 5 {
        Some(VoiceOpCode::Speaking)
    } else if n == 6 {
        Some(VoiceOpCode::HeartbeatAck)
    } else if n == 7 {
        Some(VoiceOpCode::Resume)
    } else if n == 8 {
        Some(VoiceOpCode::Hello)
    } else if n == 9 {
        Some(VoiceOpCode::Resumed)
    } else if n == 12 {
        Some(VoiceOpCode::ClientConnect)
    } else if n == 13 {
        Some(VoiceOpCode::ClientDisconnect)
    } else if n == 21 {
        Some(VoiceOpCode::DaveProtocolPrepareTransition)
    } else if n == 22 {
        Some(VoiceOpCode::DaveProtocolExecuteTransition)
    } else if n == 23 {
        Some(VoiceOpCode::DaveProtocolTransitionReady)
    } else if n == 24 {
        Some(VoiceOpCode::DaveProtocolPrepareEpoch)
    } else if n == 25 {
        Some(VoiceOpCode::DaveMlsExternalSender)
    } else if n == 26 {
        Some(VoiceOpCode::DaveMlsKeyPackage)
    } else if n == 27 {
        Some(VoiceOpCode::DaveMlsProposals)
    } else if n == 28 {
        Some(VoiceOpCode::DaveMlsCommitWelcome)
    } else if n == 29 {
        Some(VoiceOpCode::DaveMlsAnnounceCommitTransition)
    } else if n == 30 {
        Some(VoiceOpCode::DaveMlsWelcome)
    } else if n == 31 {
        Some(VoiceOpCode::DaveMlsInvalidCommitWelcome)
    } else {
        None
    }
}

impl VoiceOpCode {
    /// Whether this opcode is for receiving.
    pub fn is_receive(self) -> (r: bool)
        ensures
            r == (self == VoiceOpCode::Ready || self == VoiceOpCode::SessionDescription || self == VoiceOpCode::HeartbeatAck || self == VoiceOpCode::Hello || self == VoiceOpCode::Resumed || self == VoiceOpCode::ClientConnect || self == VoiceOpCode::ClientDisconnect),
    {
        match self {
            VoiceOpCode::Ready | VoiceOpCode::SessionDescription | VoiceOpCode::HeartbeatAck | VoiceOpCode::Hello | VoiceOpCode::Resumed | VoiceOpCode::ClientConnect | VoiceOpCode::ClientDisconnect => true,
            _ => false,
        }
    }

    /// Whether this opcode is for sending.
    pub fn is_send(self) -> (r: bool)
        ensures
            r == (self == VoiceOpCode::Identify || self == VoiceOpCode::SelectProtocol || self == VoiceOpCode::Heartbeat || self == VoiceOpCode::Speaking || self == VoiceOpCode::Resume),
    {
        match self {
            VoiceOpCode::Identify | VoiceOpCode::SelectProtocol | VoiceOpCode::Heartbeat | VoiceOpCode::Speaking | VoiceOpCode::Resume => true,
            _ => false,
        }
    }

    /// The wire number of this opcode.
    pub fn code(self) -> (r: u8)
        ensures
            r == opcode_value(self),
    {
        match self {
            VoiceOpCode::Identify => 0,
            VoiceOpCode::SelectProtocol => 1,
            VoiceOpCode::Ready => 2,
            VoiceOpCode::Heartbeat => 3,
            VoiceOpCode::SessionDescription => 4,
            VoiceOpCode::Speaking => 5,
            VoiceOpCode::HeartbeatAck => 6,
            VoiceOpCode::Resume => 7,
            VoiceOpCode::Hello => 8,
            VoiceOpCode::Resumed => 9,
            VoiceOpCode::ClientConnect => 12,
            VoiceOpCode::ClientDisconnect => 13,
            VoiceOpCode::DaveProtocolPrepareTransition => 21,
            VoiceOpCode::DaveProtocolExecuteTransition => 22,
            VoiceOpCode::DaveProtocolTransitionReady => 23,
            VoiceOpCode::DaveProtocolPrepareEpoch => 24,
            VoiceOpCode::DaveMlsExternalSender => 25,
            VoiceOpCode::DaveMlsKeyPackage => 26,
            VoiceOpCode::DaveMlsProposals => 27,
            VoiceOpCode::DaveMlsCommitWelcome => 28,
            VoiceOpCode::DaveMlsAnnounceCommitTransition => 29,
            VoiceOpCode::DaveMlsWelcome => 30,
            VoiceOpCode::DaveMlsInvalidCommitWelcome => 31,
        }
    }

    /// The opcode with a given wire number; `None` for numbers that name no opcode.
    pub fn from_code(n: u8) -> (r: Option<Self>)
        ensures
            r == opcode_from(n),
    {
        match n {
            0 => Some(VoiceOpCode::Identify),
            1 => Some(VoiceOpCode::SelectProtocol),
            2 => Some(VoiceOpCode::Ready),
            3 => Some(VoiceOpCode::Heartbeat),
            4 => Some(VoiceOpCode::SessionDescription),
            5 => Some(VoiceOpCode::Speaking),
            6 => Some(VoiceOpCode::HeartbeatAck),
            7 => Some(VoiceOpCode::Resume),
            8 => Some(VoiceOpCode::Hello),
            9 => Some(VoiceOpCode::Resumed),
            12 => Some(VoiceOpCode::ClientConnect),
            13 => Some(VoiceOpCode::ClientDisconnect),
            21 => Some(VoiceOpCode::DaveProtocolPrepareTransition),
            22 => Some(VoiceOpCode::DaveProtocolExecuteTransition),
            23 => Some(VoiceOpCode::DaveProtocolTransitionReady),
            24 => Some(VoiceOpCode::DaveProtocolPrepareEpoch),
            25 => Some(VoiceOpCode::DaveMlsExternalSender),
            26 => Some(VoiceOpCode::DaveMlsKeyPackage),
            27 => Some(VoiceOpCode::DaveMlsProposals),
            28 => Some(VoiceOpCode::DaveMlsCommitWelcome),
            29 => Some(VoiceOpCode::DaveMlsAnnounceCommitTransition),
            30 => Some(VoiceOpCode::DaveMlsWelcome),
            31 => Some(VoiceOpCode::DaveMlsInvalidCommitWelcome),
            _ => None,
        }
    }
}

/// The voice gateway's opcode numbers: Identify 0, Select Protocol 1, Ready 2, Heartbeat 3,
/// Session Description 4, Speaking 5, Heartbeat ACK 6, Resume 7, Hello 8, Resumed 9, Client
/// Connect 12, Client Disconnect 13; the DAVE opcodes run from 21 to 31. Distinct opcodes have
/// distinct numbers.
pub proof fn lemma_opcode_numbers()
    ensures
        opcode_value(VoiceOpCode::Identify) == 0,
        opcode_value(VoiceOpCode::SelectProtocol) == 1,
        opcode_value(VoiceOpCode::Ready) == 2,
        opcode_value(VoiceOpCode::Heartbeat) == 3,
        opcode_value(VoiceOpCode::SessionDescription) == 4,
        opcode_value(VoiceOpCode::Speaking) == 5,
        opcode_value(VoiceOpCode::HeartbeatAck) == 6,
        opcode_value(VoiceOpCode::Resume) == 7,
        opcode_value(VoiceOpCode::Hello) == 8,
        opcode_value(VoiceOpCode::Resumed) == 9,
        opcode_value(VoiceOpCode::ClientConnect) == 12,
        opcode_value(VoiceOpCode::ClientDisconnect) == 13,
        forall|op: VoiceOpCode| opcode_value(op) <= 13 || 21 <= opcode_value(op) <= 31,
        forall|a: VoiceOpCode, b: VoiceOpCode| opcode_value(a) == opcode_value(b) ==> a == b,
{
}

/// Decoding an opcode's wire number gives back the opcode, and a number decodes to an opcode
/// only if it is that opcode's number.
pub proof fn lemma_opcode_roundtrip(op: VoiceOpCode, n: u8)
    ensures
        opcode_from(opcode_value(op)) == Some(op),
        opcode_from(n) == Some(op) ==> opcode_value(op) == n,
{
}

} // verus!
