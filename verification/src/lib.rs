//! Core types and models for the Discord API, and a Discord voice gateway client.
use vstd::prelude::*;

pub mod audit;
pub mod automod;
pub mod bytes;
pub mod cdn;
pub mod channel;
pub mod command;
pub mod component;
pub mod create_message;
pub mod guild;
pub mod integration;
pub mod intents;
pub mod interaction;
pub mod invite;
pub mod json;
pub mod member;
pub mod mention;
pub mod message;
pub mod monetization;
pub mod permissions;
pub mod poll;
pub mod reaction;
pub mod scheduled;
pub mod snowflake;
pub mod soundboard;
pub mod stage;
pub mod string;
pub mod text;
pub mod thread;
pub mod ui;
pub mod user;
pub mod voice;
pub mod voice_gateway;

pub use audit::{AuditLogChange, AuditLogEntry, AuditLogEvent, AuditLogOptions};
pub use automod::{
    AutoModAction, AutoModActionExecution, AutoModActionMetadata, AutoModActionType,
    AutoModEventType, AutoModKeywordPresetType, AutoModRule, AutoModTriggerMetadata,
    AutoModTriggerType,
};
pub use command::{ApplicationCommand, CommandOption, CommandType};
pub use component::{ActionRow, Button, Component, ComponentType, SelectMenu};
pub use create_message::CreateMessage;
pub use create_message::FileUpload;
pub use integration::{
    GuildIntegrationsUpdateEvent, Integration, IntegrationAccount, IntegrationApplication,
    IntegrationDeleteEvent, Webhook, WebhooksUpdateEvent,
};
pub use intents::Intents;
pub use interaction::{
    Interaction, InteractionCallbackData, InteractionCallbackType, InteractionResponse,
    InteractionType,
};
pub use invite::{InviteCreateEvent, InviteDeleteEvent};
pub use member::{Emoji, GuildMember, Role, RoleTags, Sticker};
pub use message::{Poll, PollAnswer, PollMedia, PollResults};
pub use monetization::{
    Entitlement, EntitlementType, Sku, SkuType, Subscription, SubscriptionStatus,
};
pub use permissions::Permissions;
pub use reaction::{
    MessageReactionAddEvent, MessageReactionRemoveAllEvent, MessageReactionRemoveEmojiEvent,
    MessageReactionRemoveEvent, ReactionEmoji,
};
pub use scheduled::{
    ScheduledEvent, ScheduledEventEntityMetadata, ScheduledEventEntityType,
    ScheduledEventPrivacyLevel, ScheduledEventStatus, ScheduledEventUserEvent,
};
pub use snowflake::Snowflake;
pub use soundboard::{
    GuildSoundboardSoundsUpdateEvent, SoundboardSound, SoundboardSoundDeleteEvent,
    SoundboardSoundsUpdateEvent,
};
pub use string::TitanString;
pub use thread::{
    DefaultReaction, ForumTag, ThreadDeleteEvent, ThreadListSyncEvent, ThreadMember,
    ThreadMemberUpdateEvent, ThreadMembersUpdateEvent, ThreadMetadata,
};
pub use voice::PartialVoiceState;
pub use voice::{StageInstance, StagePrivacyLevel};
pub use channel::{Channel, ChannelMention, ChannelPinsUpdateEvent, PermissionOverwrite};
pub use guild::{
    Application, Guild, GuildBanEvent, GuildEmojisUpdateEvent, GuildMemberAddEvent,
    GuildMemberRemoveEvent, GuildMemberUpdateEvent, GuildMembersChunkEvent, GuildRoleDeleteEvent,
    GuildRoleEvent, GuildStickersUpdateEvent, ReadyEventData, UnavailableGuild,
};
pub use message::{
    Attachment, Embed, EmbedAuthor, EmbedField, EmbedFooter, EmbedMedia, EmbedProvider, Message,
    MessageDeleteBulkEvent, MessageDeleteEvent, MessageReference, MessageUpdateEvent, Reaction,
    ReactionCountDetails, StickerItem, TypingStartEvent,
};
pub use user::{ClientStatus, PartialUser, PresenceUpdateEvent, User};
pub use mention::Mention;
pub mod builder;
