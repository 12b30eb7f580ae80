//! Thread types for Discord's thread channels.
//!
//! Threads are sub-channels within text or forum channels.
use vstd::prelude::*;
use crate::Snowflake;
use crate::TitanString;

verus! {

/// Thread metadata.
#[derive(Debug, Clone)]
pub struct ThreadMetadata<'a> {
    /// Whether the thread is archived.
    pub archived: bool,

    /// The thread will stop showing in the channel list after `auto_archive_duration` minutes of inactivity.
    pub auto_archive_duration: u32,

    /// Timestamp when the thread's archive status was last changed (ISO8601).
    pub archive_timestamp: TitanString<'a>,

    /// Whether the thread is locked.
    pub locked: bool,

    /// Whether non-moderators can add other non-moderators to the thread.
    pub invitable: Option<bool>,
}

/// A member of a thread.
#[derive(Debug, Clone)]
pub struct ThreadMember<'a> {
    /// The ID of the thread.
    pub id: Option<Snowflake>,

    /// The ID of the user.
    pub user_id: Option<Snowflake>,

    /// Time the user last joined the thread.
    pub join_timestamp: TitanString<'a>,

    /// Any user-thread flags.
    pub flags: u64,

    /// Additional member information (if requested).
    pub member: Option<super::member::GuildMember<'a>>,
}

/// A tag in a forum channel.
#[derive(Debug, Clone)]
pub struct ForumTag<'a> {
    /// The ID of the tag.
    pub id: Snowflake,

    /// The name of the tag (0-20 characters).
    pub name: TitanString<'a>,

    /// Whether this tag can only be added/removed by moderators.
    pub moderated: bool,

    /// The ID of a guild's custom emoji.
    pub emoji_id: Option<Snowflake>,

    /// The unicode character of the emoji.
    pub emoji_name: Option<TitanString<'a>>,
}

/// Default reaction for a forum channel.
#[derive(Debug, Clone)]
pub struct DefaultReaction<'a> {
    /// The ID of a guild's custom emoji.
    pub emoji_id: Option<Snowflake>,

    /// The unicode character of the emoji.
    pub emoji_name: Option<TitanString<'a>>,
}

/// Event data for THREAD_DELETE.
#[derive(Debug, Clone)]
pub struct ThreadDeleteEvent {
    /// The ID of the thread.
    pub id: Snowflake,

    /// The ID of the guild.
    pub guild_id: Snowflake,

    /// The ID of the parent channel.
    pub parent_id: Option<Snowflake>,

    /// The type of the thread.
    pub channel_type: u8,
}

/// Event data for THREAD_LIST_SYNC.
#[derive(Debug, Clone)]
pub struct ThreadListSyncEvent<'a> {
    /// The ID of the guild.
    pub guild_id: Snowflake,

    /// The parent channel IDs whose threads are being synced.
    pub channel_ids: Option<Vec<Snowflake>>,

    /// All active threads in the given channels.
    pub threads: Vec<super::Channel<'a>>,

    /// All thread members for the current user in each of the threads.
    pub members: Vec<ThreadMember<'a>>,
}

/// Event data for THREAD_MEMBER_UPDATE.
#[derive(Debug, Clone)]
pub struct ThreadMemberUpdateEvent<'a> {
    pub member: ThreadMember<'a>,
    pub guild_id: Snowflake,
}

/// Event data for THREAD_MEMBERS_UPDATE.
#[derive(Debug, Clone)]
pub struct ThreadMembersUpdateEvent<'a> {
    /// The ID of the thread.
    pub id: Snowflake,

    /// The ID of the guild.
    pub guild_id: Snowflake,

    /// The approximate number of members in the thread.
    pub member_count: u32,

    /// The users who were added to the thread.
    pub added_members: Option<Vec<ThreadMember<'a>>>,

    /// The ID of the users who were removed from the thread.
    pub removed_member_ids: Option<Vec<Snowflake>>,
}

} // verus!
