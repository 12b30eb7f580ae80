//! Voice-related types for Discord.
//!
//! This module contains voice state, voice server, stage instance,
//! and voice channel effect types.
use vstd::prelude::*;
use crate::member::GuildMember;
use crate::reaction::ReactionEmoji;
use crate::Snowflake;
use crate::TitanString;

verus! {

// Voice State

/// Partial voice state from `GUILD_CREATE`.
#[derive(Debug, Clone)]
pub struct PartialVoiceState<'a> {
    pub channel_id: Option<Snowflake>,
    pub user_id: Snowflake,

    pub session_id: TitanString<'a>,
    pub deaf: bool,
    pub mute: bool,
    pub self_deaf: bool,
    pub self_mute: bool,
    pub self_video: bool,
    pub suppress: bool,
    pub request_to_speak_timestamp: Option<TitanString<'a>>,
}

// Voice Events

/// Voice state update event.
#[derive(Debug, Clone)]
pub struct VoiceStateUpdateEvent<'a> {
    pub guild_id: Option<Snowflake>,
    pub channel_id: Option<Snowflake>,
    pub user_id: Snowflake,
    pub member: Option<GuildMember<'a>>,
    pub session_id: String,
    pub deaf: bool,
    pub mute: bool,
    pub self_deaf: bool,
    pub self_mute: bool,
    pub self_stream: bool,
    pub self_video: bool,
    pub suppress: bool,
    pub request_to_speak_timestamp: Option<String>,
}

/// Voice server update event.
#[derive(Debug, Clone)]
pub struct VoiceServerUpdateEvent {
    pub token: String,
    pub guild_id: Snowflake,
    pub endpoint: Option<String>,
}

/// Voice channel effect send event.
#[derive(Debug, Clone)]
pub struct VoiceChannelEffectSendEvent<'a> {
    pub channel_id: Snowflake,
    pub guild_id: Snowflake,
    pub user_id: Snowflake,
    pub emoji: Option<ReactionEmoji<'a>>,
    pub animation_type: Option<u8>,
    pub animation_id: Option<u64>,
    pub sound_id: Option<Snowflake>,
}

// Stage Instance

/// A stage instance holds information about a live stage.
#[derive(Debug, Clone)]
pub struct StageInstance {
    /// The ID of this stage instance.
    pub id: Snowflake,

    /// The guild ID of the associated stage channel.
    pub guild_id: Snowflake,

    /// The ID of the associated stage channel.
    pub channel_id: Snowflake,

    /// The topic of the stage instance (1-120 characters).
    pub topic: String,

    /// The privacy level of the stage instance.
    pub privacy_level: StagePrivacyLevel,

    /// Whether or not stage discovery is disabled (deprecated).
    pub discoverable_disabled: bool,

    /// The ID of the scheduled event for this stage instance.
    pub guild_scheduled_event_id: Option<Snowflake>,
}

/// Privacy level of a stage instance.
#[derive(Debug, Clone, Copy, PartialEq, Eq, Default, Structural)]
pub enum StagePrivacyLevel {
    /// The stage instance is visible publicly (deprecated).
    Public,
    /// The stage instance is visible to only guild members.
    #[default]
    GuildOnly,
}

/// The wire code of a `StagePrivacyLevel`.
pub open spec fn stage_privacy_level_code(v: StagePrivacyLevel) -> u8 {
    match v {
        StagePrivacyLevel::Public => 1,
        StagePrivacyLevel::GuildOnly => 2,
    }
}

impl StagePrivacyLevel {
    /// The wire code of this value.
    pub fn code(&self) -> (r: u8)
        ensures
            r == stage_privacy_level_code(*self),
    {
        match self {
            StagePrivacyLevel::Public => 1,
            StagePrivacyLevel::GuildOnly => 2,
        }
    }

    /// The value with this wire code, if any.
    pub fn from_code(code: u8) -> (r: Option<StagePrivacyLevel>)
        ensures
            r matches Some(v) ==> stage_privacy_level_code(v) == code,
            forall|v: StagePrivacyLevel| #[trigger] stage_privacy_level_code(v) == code ==> r == Some(v),
    {
        match code {
            1 => Some(StagePrivacyLevel::Public),
            2 => Some(StagePrivacyLevel::GuildOnly),
            _ => None,
        }
    }
}

} // verus!
