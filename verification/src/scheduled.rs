//! Scheduled event types for Discord guild events.
//!
//! Scheduled events allow guilds to plan activities.
use vstd::prelude::*;
use crate::Snowflake;
use crate::TitanString;

verus! {

/// A scheduled event in a guild.
#[derive(Debug, Clone)]
pub struct ScheduledEvent<'a> {
    /// The ID of the scheduled event.
    pub id: Snowflake,

    /// The guild ID which the scheduled event belongs to.
    pub guild_id: Snowflake,

    /// The channel ID in which the event will be hosted (if applicable).
    pub channel_id: Option<Snowflake>,

    /// The ID of the user that created the scheduled event.
    pub creator_id: Option<Snowflake>,

    /// The name of the scheduled event (1-100 characters).
    pub name: TitanString<'a>,

    /// The description of the scheduled event (1-1000 characters).
    pub description: Option<TitanString<'a>>,

    /// The time the scheduled event will start (ISO8601 timestamp).
    pub scheduled_start_time: TitanString<'a>,

    /// The time the scheduled event will end (ISO8601 timestamp).
    pub scheduled_end_time: Option<TitanString<'a>>,

    /// The privacy level of the scheduled event.
    pub privacy_level: ScheduledEventPrivacyLevel,

    /// The status of the scheduled event.
    pub status: ScheduledEventStatus,

    /// The type of the scheduled event.
    pub entity_type: ScheduledEventEntityType,

    /// The ID of an entity associated with a guild scheduled event.
    pub entity_id: Option<Snowflake>,

    /// Additional metadata for the guild scheduled event.
    pub entity_metadata: Option<ScheduledEventEntityMetadata<'a>>,

    /// The user that created the scheduled event.
    pub creator: Option<super::User<'a>>,

    /// The number of users subscribed to the scheduled event.
    pub user_count: Option<u32>,

    /// The cover image hash of the scheduled event.
    pub image: Option<TitanString<'a>>,
}

/// Privacy level of a scheduled event.
#[derive(Debug, Clone, Copy, PartialEq, Eq, Default, Structural)]
pub enum ScheduledEventPrivacyLevel {
    /// The scheduled event is only accessible to guild members.
    #[default]
    GuildOnly,
}

/// Status of a scheduled event.
#[derive(Debug, Clone, Copy, PartialEq, Eq, Structural)]
pub enum ScheduledEventStatus {
    /// The event is scheduled.
    Scheduled,
    /// The event is active/started.
    Active,
    /// The event has completed.
    Completed,
    /// The event was cancelled.
    Cancelled,
}

/// Entity type of a scheduled event.
#[derive(Debug, Clone, Copy, PartialEq, Eq, Default, Structural)]
pub enum ScheduledEventEntityType {
    /// A stage instance.
    StageInstance,
    /// A voice channel.
    #[default]
    Voice,
    /// An external location.
    External,
}

/// Metadata for scheduled event entities.
#[derive(Debug, Clone, Default)]
pub struct ScheduledEventEntityMetadata<'a> {
    /// Location of the event (required for External events).
    pub location: Option<TitanString<'a>>,
}

/// Event data for scheduled event user add/remove.
#[derive(Debug, Clone)]
pub struct ScheduledEventUserEvent {
    /// The ID of the scheduled event.
    pub guild_scheduled_event_id: Snowflake,

    /// The ID of the user.
    pub user_id: Snowflake,

    /// The ID of the guild.
    pub guild_id: Snowflake,
}

/// The wire code of a `ScheduledEventPrivacyLevel`.
pub open spec fn scheduled_event_privacy_level_code(v: ScheduledEventPrivacyLevel) -> u8 {
    match v {
        ScheduledEventPrivacyLevel::GuildOnly => 2,
    }
}

impl ScheduledEventPrivacyLevel {
    /// The wire code of this value.
    pub fn code(&self) -> (r: u8)
        ensures
            r == scheduled_event_privacy_level_code(*self),
    {
        match self {
            ScheduledEventPrivacyLevel::GuildOnly => 2,
        }
    }

    /// The value with this wire code, if any.
    pub fn from_code(code: u8) -> (r: Option<ScheduledEventPrivacyLevel>)
        ensures
            r matches Some(v) ==> scheduled_event_privacy_level_code(v) == code,
            forall|v: ScheduledEventPrivacyLevel| #[trigger] scheduled_event_privacy_level_code(v) == code ==> r == Some(v),
    {
        match code {
            2 => Some(ScheduledEventPrivacyLevel::GuildOnly),
            _ => None,
        }
    }
}

/// The wire code of a `ScheduledEventStatus`.
pub open spec fn scheduled_event_status_code(v: ScheduledEventStatus) -> u8 {
    match v {
        ScheduledEventStatus::Scheduled => 1,
        ScheduledEventStatus::Active => 2,
        ScheduledEventStatus::Completed => 3,
        ScheduledEventStatus::Cancelled => 4,
    }
}

impl ScheduledEventStatus {
    /// The wire code of this value.
    pub fn code(&self) -> (r: u8)
        ensures
            r == scheduled_event_status_code(*self),
    {
        match self {
            ScheduledEventStatus::Scheduled => 1,
            ScheduledEventStatus::Active => 2,
            ScheduledEventStatus::Completed => 3,
            ScheduledEventStatus::Cancelled => 4,
        }
    }

    /// The value with this wire code, if any.
    pub fn from_code(code: u8) -> (r: Option<ScheduledEventStatus>)
        ensures
            r matches Some(v) ==> scheduled_event_status_code(v) == code,
            forall|v: ScheduledEventStatus| #[trigger] scheduled_event_status_code(v) == code ==> r == Some(v),
    {
        match code {
            1 => Some(ScheduledEventStatus::Scheduled),
            2 => Some(ScheduledEventStatus::Active),
            3 => Some(ScheduledEventStatus::Completed),
            4 => Some(ScheduledEventStatus::Cancelled),
            _ => None,
        }
    }
}

/// The wire code of a `ScheduledEventEntityType`.
pub open spec fn scheduled_event_entity_type_code(v: ScheduledEventEntityType) -> u8 {
    match v {
        ScheduledEventEntityType::StageInstance => 1,
        ScheduledEventEntityType::Voice => 2,
        ScheduledEventEntityType::External => 3,
    }
}

impl ScheduledEventEntityType {
    /// The wire code of this value.
    pub fn code(&self) -> (r: u8)
        ensures
            r == scheduled_event_entity_type_code(*self),
    {
        match self {
            ScheduledEventEntityType::StageInstance => 1,
            ScheduledEventEntityType::Voice => 2,
            ScheduledEventEntityType::External => 3,
        }
    }

    /// The value with this wire code, if any.
    pub fn from_code(code: u8) -> (r: Option<ScheduledEventEntityType>)
        ensures
            r matches Some(v) ==> scheduled_event_entity_type_code(v) == code,
            forall|v: ScheduledEventEntityType| #[trigger] scheduled_event_entity_type_code(v) == code ==> r == Some(v),
    {
        match code {
            1 => Some(ScheduledEventEntityType::StageInstance),
            2 => Some(ScheduledEventEntityType::Voice),
            3 => Some(ScheduledEventEntityType::External),
            _ => None,
        }
    }
}

} // verus!
