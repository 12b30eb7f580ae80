//! Channels, permission overwrites and channel events.
use vstd::prelude::*;
use vstd::std_specs::convert::IntoSpec;
use crate::mention::{mention_of, mention_text, Mention};
use crate::permissions::Permissions;
use crate::snowflake::Snowflake;
use crate::thread::{DefaultReaction, ForumTag, ThreadMember, ThreadMetadata};
use crate::user::User;
use crate::TitanString;

verus! {

/// Discord Channel representation.
#[derive(Debug, Clone)]
pub struct Channel<'a> {
    /// Channel ID.
    pub id: Snowflake,
    /// Channel type.
    pub channel_type: u8,
    /// Guild ID (if in a guild).
    pub guild_id: Option<Snowflake>,
    /// Sorting position.
    pub position: Option<i32>,
    /// Permission overwrites.
    pub permission_overwrites: Vec<PermissionOverwrite>,
    /// Channel name (1-100 characters).
    pub name: Option<TitanString<'a>>,
    /// Channel topic (0-4096 characters for forum, 0-1024 for others).
    pub topic: Option<TitanString<'a>>,
    /// Whether NSFW.
    pub nsfw: bool,
    /// ID of the last message sent.
    pub last_message_id: Option<Snowflake>,
    /// Bitrate (for voice).
    pub bitrate: Option<u32>,
    /// User limit (for voice).
    pub user_limit: Option<u32>,
    /// Rate limit per user in seconds.
    pub rate_limit_per_user: Option<u32>,
    /// Recipients of the DM.
    pub recipients: Vec<User<'a>>,
    /// Icon hash (for group DM).
    pub icon: Option<TitanString<'a>>,
    /// ID of the DM creator.
    pub owner_id: Option<Snowflake>,
    /// Application ID of the group DM creator if bot-created.
    pub application_id: Option<Snowflake>,
    /// Whether the channel is managed by an application.
    pub managed: bool,
    /// Parent category ID.
    pub parent_id: Option<Snowflake>,
    /// Last pin timestamp.
    pub last_pin_timestamp: Option<TitanString<'a>>,
    /// Voice region ID.
    pub rtc_region: Option<TitanString<'a>>,
    /// Video quality mode.
    pub video_quality_mode: Option<u8>,
    /// Approximate message count (threads).
    pub message_count: Option<u32>,
    /// Approximate member count (threads).
    pub member_count: Option<u32>,
    /// Thread metadata.
    pub thread_metadata: Option<ThreadMetadata<'a>>,
    /// Thread member object for the current user.
    pub member: Option<ThreadMember<'a>>,
    /// Default auto-archive duration.
    pub default_auto_archive_duration: Option<u32>,
    /// Computed permissions for the user.
    pub permissions: Option<crate::permissions::Permissions>,
    /// Channel flags as a bitfield.
    pub flags: Option<u64>,
    /// Total messages ever sent (threads).
    pub total_message_sent: Option<u32>,
    /// Tags available in a forum channel.
    pub available_tags: Vec<ForumTag<'a>>,
    /// IDs of tags applied to a forum thread.
    pub applied_tags: Vec<Snowflake>,
    /// Default reaction emoji.
    pub default_reaction_emoji: Option<DefaultReaction<'a>>,
    /// Default slowmode for threads.
    pub default_thread_rate_limit_per_user: Option<u32>,
    /// Default sort order for forum posts.
    pub default_sort_order: Option<u8>,
    /// Default forum layout.
    pub default_forum_layout: Option<u8>,
}

/// Permission overwrite for a channel.
#[derive(Debug, Clone, Default)]
pub struct PermissionOverwrite {
    /// Role or user ID.
    pub id: Snowflake,
    /// Type (0 = role, 1 = member).
    pub overwrite_type: u8,
    /// Permission bit set for allowed permissions.
    pub allow: crate::permissions::Permissions,
    /// Permission bit set for denied permissions.
    pub deny: crate::permissions::Permissions,
}

/// A channel mention.
#[derive(Debug, Clone)]
pub struct ChannelMention {
    /// Channel ID.
    pub id: Snowflake,
    /// Guild ID.
    pub guild_id: Snowflake,
    /// Channel type.
    pub channel_type: u8,
    /// Channel name.
    pub name: String,
}

/// Channel pins update event.
#[derive(Debug, Clone)]
pub struct ChannelPinsUpdateEvent {
    pub guild_id: Option<Snowflake>,
    pub channel_id: Snowflake,
    pub last_pin_timestamp: Option<String>,
}

impl<'a> Mention for Channel<'a> {
    fn mention(&self) -> (r: String)
        ensures
            r@ == mention_text("<#"@, self.id.0),
    {
        mention_of("<#", self.id.0)
    }
}

impl PermissionOverwrite {
    /// Create an overwrite for a role, with nothing allowed or denied.
    pub fn role<T: Into<Snowflake>>(role_id: T) -> (r: Self)
        ensures
            T::obeys_into_spec() ==> r.id == role_id.into_spec(),
            r.overwrite_type == 0,
            r.allow@ == 0,
            r.deny@ == 0,
    {
        PermissionOverwrite { id: role_id.into(), overwrite_type: 0, allow: Permissions::empty(), deny: Permissions::empty() }
    }

    /// Create an overwrite for a user/member, with nothing allowed or denied.
    pub fn member<T: Into<Snowflake>>(user_id: T) -> (r: Self)
        ensures
            T::obeys_into_spec() ==> r.id == user_id.into_spec(),
            r.overwrite_type == 1,
            r.allow@ == 0,
            r.deny@ == 0,
    {
        PermissionOverwrite { id: user_id.into(), overwrite_type: 1, allow: Permissions::empty(), deny: Permissions::empty() }
    }

    /// Set allowed permissions.
    pub fn allow(self, permissions: Permissions) -> (r: Self)
        ensures
            r == (PermissionOverwrite { allow: permissions, ..self }),
    {
        let mut o = self;
        o.allow = permissions;
        o
    }

    /// Set denied permissions.
    pub fn deny(self, permissions: Permissions) -> (r: Self)
        ensures
            r == (PermissionOverwrite { deny: permissions, ..self }),
    {
        let mut o = self;
        o.deny = permissions;
        o
    }
}

} // verus!
