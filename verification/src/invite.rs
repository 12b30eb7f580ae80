//! Invite types for Discord guild invites.
//!
//! Invites allow users to join guilds or group DMs.
use vstd::prelude::*;
use crate::Snowflake;
use crate::TitanString;

verus! {

/// Event data for INVITE_CREATE.
#[derive(Debug, Clone)]
pub struct InviteCreateEvent<'a> {
    /// The channel the invite is for.
    pub channel_id: Snowflake,

    /// The unique invite code.
    pub code: TitanString<'a>,

    /// The time at which the invite was created (ISO8601 timestamp).
    pub created_at: TitanString<'a>,

    /// The guild of the invite.
    pub guild_id: Option<Snowflake>,

    /// The user that created the invite.
    pub inviter: Option<super::User<'a>>,

    /// How long the invite is valid for (in seconds).
    pub max_age: u32,

    /// The maximum number of times the invite can be used.
    pub max_uses: u32,

    /// The target type for this voice channel invite.
    pub target_type: Option<u8>,

    /// The user whose stream to display for voice channel stream invites.
    pub target_user: Option<super::User<'a>>,

    /// The embedded application for voice channel invites.
    pub target_application: Option<super::Application>,

    /// Whether or not the invite is temporary.
    pub temporary: bool,

    /// How many times the invite has been used.
    pub uses: u32,
}

/// Event data for INVITE_DELETE.
#[derive(Debug, Clone)]
pub struct InviteDeleteEvent<'a> {
    /// The channel of the invite.
    pub channel_id: Snowflake,

    /// The guild of the invite.
    pub guild_id: Option<Snowflake>,

    /// The unique invite code.
    pub code: TitanString<'a>,
}

} // verus!
