//! Guilds, applications and guild events.
use vstd::prelude::*;
use crate::cdn::{asset_url, asset_url_of, image_ext, image_ext_of};
use crate::member::{Emoji, Role, Sticker};
use crate::snowflake::Snowflake;
use crate::PartialVoiceState;
use crate::TitanString;
use crate::User;

verus! {

/// Discord Guild (Server) representation.
#[derive(Debug, Clone)]
pub struct Guild<'a> {
    /// Guild ID.
    pub id: Snowflake,
    /// Guild name (2-100 characters).
    pub name: TitanString<'a>,
    /// Icon hash.
    pub icon: Option<TitanString<'a>>,
    /// Icon hash for animated icons.
    pub icon_hash: Option<TitanString<'a>>,
    /// Splash hash.
    pub splash: Option<TitanString<'a>>,
    /// Discovery splash hash.
    pub discovery_splash: Option<TitanString<'a>>,
    /// ID of owner.
    pub owner_id: Option<Snowflake>,
    /// Total permissions for the user in the guild.
    pub permissions: Option<crate::permissions::Permissions>,
    /// Voice region ID (deprecated).
    pub region: Option<TitanString<'a>>,
    /// ID of AFK channel.
    pub afk_channel_id: Option<Snowflake>,
    /// AFK timeout in seconds.
    pub afk_timeout: Option<u32>,
    /// Verification level required.
    pub verification_level: Option<u8>,
    /// Default message notification level.
    pub default_message_notifications: Option<u8>,
    /// Explicit content filter level.
    pub explicit_content_filter: Option<u8>,
    /// Roles in the guild.
    pub roles: Vec<Role<'a>>,
    /// Custom guild emojis.
    pub emojis: Vec<Emoji<'a>>,
    /// Enabled guild features.
    pub features: Vec<TitanString<'a>>,
    /// Required MFA level.
    pub mfa_level: Option<u8>,
    /// Application ID of guild creator (if bot-created).
    pub application_id: Option<Snowflake>,
    /// The ID of the channel for system messages.
    pub system_channel_id: Option<Snowflake>,
    /// System channel flags.
    pub system_channel_flags: Option<u64>,
    /// The ID of the channel for rules.
    pub rules_channel_id: Option<Snowflake>,
    /// Max number of presences (null for large guilds).
    pub max_presences: Option<u32>,
    /// Max number of members.
    pub max_members: Option<u32>,
    /// Vanity URL code.
    pub vanity_url_code: Option<TitanString<'a>>,
    /// Guild description.
    pub description: Option<TitanString<'a>>,
    /// Banner hash.
    pub banner: Option<TitanString<'a>>,
    /// Premium tier (boost level).
    pub premium_tier: Option<u8>,
    /// Number of boosts.
    pub premium_subscription_count: Option<u32>,
    /// Preferred locale.
    pub preferred_locale: Option<TitanString<'a>>,
    /// The ID of the channel for public updates.
    pub public_updates_channel_id: Option<Snowflake>,
    /// Max video channel users.
    pub max_video_channel_users: Option<u32>,
    /// Max stage video channel users.
    pub max_stage_video_channel_users: Option<u32>,
    /// Approximate member count.
    pub approximate_member_count: Option<u32>,
    /// Approximate presence count.
    pub approximate_presence_count: Option<u32>,
    /// Member count (only in `GUILD_CREATE`).
    pub member_count: Option<u64>,
    /// Guild NSFW level.
    pub nsfw_level: Option<u8>,
    /// Custom guild stickers.
    pub stickers: Vec<Sticker<'a>>,
    /// Whether premium progress bar is enabled.
    pub premium_progress_bar_enabled: Option<bool>,
    /// The ID of the channel for safety alerts.
    pub safety_alerts_channel_id: Option<Snowflake>,
    /// Voice states (only in `GUILD_CREATE`).
    pub voice_states: Vec<PartialVoiceState<'a>>,
}

/// Unavailable Guild (during outages).
#[derive(Debug, Clone)]
pub struct UnavailableGuild {
    /// Guild ID.
    pub id: Snowflake,
    /// Whether unavailable.
    pub unavailable: bool,
}

// Guild-related Events

/// Event data for `GUILD_MEMBER_UPDATE`.
#[derive(Debug, Clone)]
pub struct GuildMemberUpdateEvent<'a> {
    /// The ID of the guild.
    pub guild_id: Snowflake,
    /// User role IDs.
    pub roles: Vec<Snowflake>,
    /// The user.
    pub user: User<'a>,
    /// Nickname of the user.
    pub nick: Option<String>,
    /// Member's guild avatar hash.
    pub avatar: Option<String>,
    /// When the user joined the guild.
    pub joined_at: Option<String>,
    /// When the user started boosting.
    pub premium_since: Option<String>,
    /// Whether the user is deafened.
    pub deaf: Option<bool>,
    /// Whether the user is muted.
    pub mute: Option<bool>,
    /// Whether the user has not yet passed screening.
    pub pending: Option<bool>,
    /// When the user's timeout will expire.
    pub communication_disabled_until: Option<String>,
    /// Guild member flags.
    pub flags: Option<u64>,
}

/// Event data for `GUILD_MEMBER_REMOVE`.
#[derive(Debug, Clone)]
pub struct GuildMemberRemoveEvent<'a> {
    /// The ID of the guild.
    pub guild_id: Snowflake,
    /// The user who was removed.
    pub user: User<'a>,
}

/// Event data for `GUILD_MEMBERS_CHUNK`.
#[derive(Debug, Clone)]
pub struct GuildMembersChunkEvent<'a> {
    /// The ID of the guild.
    pub guild_id: Snowflake,
    /// Set of guild members.
    pub members: Vec<crate::member::GuildMember<'a>>,
    /// Chunk index (starting from 0).
    pub chunk_index: u32,
    /// Total number of expected chunks.
    pub chunk_count: u32,
    /// If passing an invalid ID, it will be returned here.
    pub not_found: Vec<Snowflake>,
    /// Presences (if requested).
    pub presences: Vec<crate::json::Value>,
    /// Nonce used in the request.
    pub nonce: Option<String>,
}

/// Event data for `GUILD_BAN_ADD` / `GUILD_BAN_REMOVE`.
#[derive(Debug, Clone)]
pub struct GuildBanEvent<'a> {
    /// Guild ID.
    pub guild_id: Snowflake,
    /// The banned user.
    pub user: User<'a>,
}

/// Event data for `GUILD_ROLE_CREATE` / `GUILD_ROLE_UPDATE`.
#[derive(Debug, Clone)]
pub struct GuildRoleEvent<'a> {
    /// Guild ID.
    pub guild_id: Snowflake,
    /// The role created or updated.
    pub role: Role<'a>,
}

/// Event data for `GUILD_ROLE_DELETE`.
#[derive(Debug, Clone)]
pub struct GuildRoleDeleteEvent {
    /// Guild ID.
    pub guild_id: Snowflake,
    /// ID of the role.
    pub role_id: Snowflake,
}

/// Event data for `GUILD_EMOJIS_UPDATE`.
#[derive(Debug, Clone)]
pub struct GuildEmojisUpdateEvent<'a> {
    /// Guild ID.
    pub guild_id: Snowflake,
    /// Array of emojis.
    pub emojis: Vec<Emoji<'a>>,
}

/// Event data for `GUILD_STICKERS_UPDATE`.
#[derive(Debug, Clone)]
pub struct GuildStickersUpdateEvent<'a> {
    /// Guild ID.
    pub guild_id: Snowflake,
    /// Array of stickers.
    pub stickers: Vec<Sticker<'a>>,
}

/// Event data for `GUILD_MEMBER_ADD`.
#[derive(Debug, Clone)]
pub struct GuildMemberAddEvent<'a> {
    /// The ID of the guild.
    pub guild_id: Snowflake,
    /// The user this member represents.
    pub user: Option<User<'a>>,
    /// This user's guild nickname.
    pub nick: Option<String>,
    /// The member's guild avatar hash.
    pub avatar: Option<String>,
    /// Array of role object IDs.
    pub roles: Vec<Snowflake>,
    /// When the user joined the guild.
    pub joined_at: String,
    /// Whether the user is deafened.
    pub deaf: bool,
    /// Whether the user is muted.
    pub mute: bool,
    /// Guild member flags.
    pub flags: u64,
    /// Whether the user has not yet passed screening.
    pub pending: Option<bool>,
}

/// Ready event data.
#[derive(Debug, Clone)]
pub struct ReadyEventData<'a> {
    /// Gateway protocol version.
    pub v: u8,
    /// Current user.
    pub user: User<'a>,
    /// Guilds (unavailable at first).
    pub guilds: Vec<UnavailableGuild>,
    /// Session ID for resuming.
    pub session_id: String,
    /// Resume URL.
    pub resume_gateway_url: String,
    /// Shard info.
    pub shard: Option<[u16; 2]>,
    /// Application information.
    pub application: Option<Application>,
}

/// Application information for Ready event.
#[derive(Debug, Clone)]
pub struct Application {
    /// Application ID.
    pub id: Snowflake,
    /// Application flags.
    pub flags: Option<u64>,
}

impl<'a> Guild<'a> {
    /// Returns the URL of the guild's icon.
    pub fn icon_url(&self) -> (r: Option<String>)
        ensures
            self.icon is None ==> r is None,
            self.icon matches Some(h) ==> (r matches Some(u) && u@ == asset_url(
                "https://cdn.discordapp.com/icons/"@,
                self.id.0,
                h@,
                image_ext(h@),
            )),
    {
        match &self.icon {
            Some(hash) => {
                let h = hash.as_str();
                Some(asset_url_of("https://cdn.discordapp.com/icons/", self.id.0, h, image_ext_of(h)))
            },
            None => None,
        }
    }

    /// Returns the URL of the guild's splash.
    pub fn splash_url(&self) -> (r: Option<String>)
        ensures
            self.splash is None ==> r is None,
            self.splash matches Some(h) ==> (r matches Some(u) && u@ == asset_url(
                "https://cdn.discordapp.com/splashes/"@,
                self.id.0,
                h@,
                "png"@,
            )),
    {
        match &self.splash {
            Some(hash) => Some(asset_url_of("https://cdn.discordapp.com/splashes/", self.id.0, hash.as_str(), "png")),
            None => None,
        }
    }

    /// Returns the URL of the guild's discovery splash.
    pub fn discovery_splash_url(&self) -> (r: Option<String>)
        ensures
            self.discovery_splash is None ==> r is None,
            self.discovery_splash matches Some(h) ==> (r matches Some(u) && u@ == asset_url(
                "https://cdn.discordapp.com/discovery-splashes/"@,
                self.id.0,
                h@,
                "png"@,
            )),
    {
        match &self.discovery_splash {
            Some(hash) => Some(
                asset_url_of("https://cdn.discordapp.com/discovery-splashes/", self.id.0, hash.as_str(), "png"),
            ),
            None => None,
        }
    }

    /// Returns the URL of the guild's banner.
    pub fn banner_url(&self) -> (r: Option<String>)
        ensures
            self.banner is None ==> r is None,
            self.banner matches Some(h) ==> (r matches Some(u) && u@ == asset_url(
                "https://cdn.discordapp.com/banners/"@,
                self.id.0,
                h@,
                image_ext(h@),
            )),
    {
        match &self.banner {
            Some(hash) => {
                let h = hash.as_str();
                Some(asset_url_of("https://cdn.discordapp.com/banners/", self.id.0, h, image_ext_of(h)))
            },
            None => None,
        }
    }
}

} // verus!
