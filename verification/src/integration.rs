//! Integration and webhook types.
//!
//! Integrations connect external services to Discord guilds.
use vstd::prelude::*;
use crate::Snowflake;
use crate::TitanString;

verus! {

/// A Discord integration.
#[derive(Debug, Clone)]
pub struct Integration<'a> {
    /// Integration ID.
    pub id: Snowflake,

    /// Integration name.
    pub name: String,

    /// Integration type (twitch, youtube, discord, guild_subscription).
    pub integration_type: String,

    /// Is this integration enabled.
    pub enabled: bool,

    /// Is this integration syncing.
    pub syncing: Option<bool>,

    /// ID that this integration uses for "subscribers".
    pub role_id: Option<Snowflake>,

    /// Whether emoticons should be synced.
    pub enable_emoticons: Option<bool>,

    /// The behavior of expiring subscribers.
    pub expire_behavior: Option<u8>,

    /// The grace period (in days) before expiring subscribers.
    pub expire_grace_period: Option<u32>,

    /// User for this integration.
    pub user: Option<super::User<'a>>,

    /// Integration account information.
    pub account: Option<IntegrationAccount>,

    /// When this integration was last synced (ISO8601 timestamp).
    pub synced_at: Option<String>,

    /// How many subscribers this integration has.
    pub subscriber_count: Option<u32>,

    /// Has this integration been revoked.
    pub revoked: Option<bool>,

    /// The bot/OAuth2 application for Discord integrations.
    pub application: Option<IntegrationApplication<'a>>,

    /// The scopes the application has been authorized for.
    pub scopes: Vec<String>,
}

/// Integration account information.
#[derive(Debug, Clone)]
pub struct IntegrationAccount {
    /// ID of the account.
    pub id: String,

    /// Name of the account.
    pub name: String,
}

/// Application for a Discord integration.
#[derive(Debug, Clone)]
pub struct IntegrationApplication<'a> {
    /// The ID of the app.
    pub id: Snowflake,

    /// The name of the app.
    pub name: String,

    /// The icon hash of the app.
    pub icon: Option<String>,

    /// The description of the app.
    pub description: String,

    /// The bot associated with this application.
    pub bot: Option<super::User<'a>>,
}

/// Event data for INTEGRATION_DELETE.
#[derive(Debug, Clone)]
pub struct IntegrationDeleteEvent {
    /// Integration ID.
    pub id: Snowflake,

    /// ID of the guild.
    pub guild_id: Snowflake,

    /// ID of the bot/OAuth2 application for this discord integration.
    pub application_id: Option<Snowflake>,
}

/// Event data for GUILD_INTEGRATIONS_UPDATE.
#[derive(Debug, Clone)]
pub struct GuildIntegrationsUpdateEvent {
    /// ID of the guild.
    pub guild_id: Snowflake,
}

/// A Discord webhook.
#[derive(Debug, Clone)]
pub struct Webhook<'a> {
    /// The ID of the webhook.
    pub id: Snowflake,

    /// The type of the webhook.
    pub webhook_type: u8,

    /// The guild ID this webhook is for.
    pub guild_id: Option<Snowflake>,

    /// The channel ID this webhook is for.
    pub channel_id: Option<Snowflake>,

    /// The user this webhook was created by.
    pub user: Option<super::User<'a>>,

    /// The default name of the webhook.
    pub name: Option<TitanString<'a>>,

    /// The default avatar of the webhook.
    pub avatar: Option<TitanString<'a>>,

    /// The secure token of the webhook.
    pub token: Option<TitanString<'a>>,

    /// The bot/OAuth2 application that created this webhook.
    pub application_id: Option<Snowflake>,

    /// The guild of the channel that this webhook is following.
    pub source_guild: Option<WebhookSourceGuild>,

    /// The channel that this webhook is following.
    pub source_channel: Option<WebhookSourceChannel>,

    /// The URL used for executing the webhook.
    pub url: Option<TitanString<'a>>,
}

/// Source guild for a webhook.
#[derive(Debug, Clone)]
pub struct WebhookSourceGuild {
    /// The ID of the guild.
    pub id: Snowflake,

    /// The name of the guild.
    pub name: String,

    /// The icon hash of the guild.
    pub icon: Option<String>,
}

/// Source channel for a webhook.
#[derive(Debug, Clone)]
pub struct WebhookSourceChannel {
    /// The ID of the channel.
    pub id: Snowflake,

    /// The name of the channel.
    pub name: String,
}

/// Event data for WEBHOOKS_UPDATE.
#[derive(Debug, Clone)]
pub struct WebhooksUpdateEvent {
    /// ID of the guild.
    pub guild_id: Snowflake,

    /// ID of the channel.
    pub channel_id: Snowflake,
}

} // verus!
