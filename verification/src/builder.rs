//! Builders for creating Discord entities.
pub mod automod;
pub mod channel;
pub mod command;
pub mod component;
pub mod embed;
pub mod emoji;
pub mod guild;
pub mod interaction;
pub mod invite;
pub mod member;
pub mod message;
pub mod poll;
pub mod role;
pub mod scheduled;
pub mod stage;
pub mod sticker;
pub mod thread;
pub mod webhook;

pub use automod::AutoModRuleBuilder;
pub use channel::{CreateChannel, CreateChannelBuilder};
pub use command::CommandBuilder;
pub use component::{ActionRowBuilder, ButtonBuilder, SelectMenuBuilder, TextInputBuilder};
pub use embed::EmbedBuilder;
pub use emoji::{CreateEmoji, CreateEmojiBuilder, ModifyEmoji, ModifyEmojiBuilder};
pub use guild::{CreateGuild, CreateGuildBuilder, ModifyGuild, ModifyGuildBuilder};
pub use interaction::{InteractionResponseBuilder, ModalBuilder};
pub use invite::{CreateInvite, CreateInviteBuilder};
pub use message::MessageBuilder;
pub use member::{ModifyMember, ModifyMemberBuilder};
pub use poll::PollBuilder;
pub use role::{CreateRole, CreateRoleBuilder};
pub use scheduled::{CreateScheduledEvent, ScheduledEventBuilder};
pub use stage::{CreateStageInstance, StageInstanceBuilder};
pub use sticker::{CreateSticker, CreateStickerBuilder};
pub use thread::{StartThread, StartThreadBuilder};
pub use webhook::{ExecuteWebhook, WebhookExecuteBuilder};
