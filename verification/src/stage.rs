//! Stage instance types for Discord voice stages.
//!
//! Stage channels are special voice channels for hosting events.
use vstd::prelude::*;
use crate::Snowflake;

verus! {

/// A stage instance holds information about a live stage.
#[derive(Debug, Clone)]
pub struct StageInstance {
    /// The ID of this stage instance.
    pub id: Snowflake,

    /// The guild ID of the associated stage channel.
    pub guild_id: Snowflake,

    /// The ID of the associated stage channel.
    pub channel_id: Snowflake,

    /// The topic of the stage instance (1-120 characters).
    pub topic: String,

    /// The privacy level of the stage instance.
    pub privacy_level: StagePrivacyLevel,

    /// Whether or not stage discovery is disabled (deprecated).
    pub discoverable_disabled: bool,

    /// The ID of the scheduled event for this stage instance.
    pub guild_scheduled_event_id: Option<Snowflake>,
}

/// Privacy level of a stage instance.
#[derive(Debug, Clone, Copy, PartialEq, Eq, Default, Structural)]
pub enum StagePrivacyLevel {
    /// The stage instance is visible publicly (deprecated).
    Public,
    /// The stage instance is visible to only guild members.
    #[default]
    GuildOnly,
}

/// The wire code of a `StagePrivacyLevel`.
pub open spec fn stage_privacy_level_code(v: StagePrivacyLevel) -> u8 {
    match v {
        StagePrivacyLevel::Public => 1,
        StagePrivacyLevel::GuildOnly => 2,
    }
}

impl StagePrivacyLevel {
    /// The wire code of this value.
    pub fn code(&self) -> (r: u8)
        ensures
            r == stage_privacy_level_code(*self),
    {
        match self {
            StagePrivacyLevel::Public => 1,
            StagePrivacyLevel::GuildOnly => 2,
        }
    }

    /// The value with this wire code, if any.
    pub fn from_code(code: u8) -> (r: Option<StagePrivacyLevel>)
        ensures
            r matches Some(v) ==> stage_privacy_level_code(v) == code,
            forall|v: StagePrivacyLevel| #[trigger] stage_privacy_level_code(v) == code ==> r == Some(v),
    {
        match code {
            1 => Some(StagePrivacyLevel::Public),
            2 => Some(StagePrivacyLevel::GuildOnly),
            _ => None,
        }
    }
}

} // verus!
