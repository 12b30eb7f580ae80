//! Messages, embeds, polls, reactions and message events.
use vstd::prelude::*;
use crate::channel::{Channel, ChannelMention};
use crate::component::Component;
use crate::member::{Emoji, GuildMember};
use crate::snowflake::Snowflake;
use crate::user::User;
use crate::TitanString;

verus! {

// Poll Types

/// A poll object.
#[derive(Debug, Clone)]
pub struct Poll<'a> {
    /// The question of the poll.
    pub question: PollMedia<'a>,

    /// Each of the answers available in the poll.
    pub answers: Vec<PollAnswer<'a>>,

    /// The expiration date of the poll.
    pub expiry: Option<TitanString<'a>>,

    /// Whether the poll allows multiple selections.
    pub allow_multiselect: bool,

    /// The layout type of the poll.
    pub layout_type: Option<u8>,

    /// The results of the poll.
    pub results: Option<PollResults>,
}

/// A poll media object (question text/emoji).
#[derive(Debug, Clone)]
pub struct PollMedia<'a> {
    /// The text of the field.
    pub text: Option<TitanString<'a>>,

    /// The emoji of the field.
    pub emoji: Option<Emoji<'a>>,
}

/// A poll answer object.
#[derive(Debug, Clone)]
pub struct PollAnswer<'a> {
    /// The ID of the answer.
    pub answer_id: Option<u32>,

    /// The data of the answer.
    pub poll_media: PollMedia<'a>,
}

/// The results of a poll.
#[derive(Debug, Clone)]
pub struct PollResults {
    /// Whether the poll is finalized.
    pub is_finalized: bool,

    /// The counts for each answer.
    pub answer_counts: Vec<PollAnswerCount>,
}

/// Count for a specific answer.
#[derive(Debug, Clone)]
pub struct PollAnswerCount {
    /// The ID of the answer.
    pub id: u32,

    /// The number of votes.
    pub count: u32,

    /// Whether the current user voted for this answer.
    pub me_voted: bool,
}

// Message

/// Discord Message representation.
#[derive(Debug)]
pub struct Message<'a> {
    /// Message ID.
    pub id: Snowflake,
    /// Channel ID.
    pub channel_id: Snowflake,
    /// Author of the message.
    pub author: User<'a>,
    /// Message content.
    pub content: TitanString<'a>,
    /// When the message was sent (ISO8601 timestamp).
    pub timestamp: TitanString<'a>,
    /// When the message was edited (ISO8601 timestamp).
    pub edited_timestamp: Option<String>,
    /// Whether this was a TTS message.
    pub tts: bool,
    /// Whether this message mentions everyone.
    pub mention_everyone: bool,
    /// Users mentioned in this message.
    pub mentions: Vec<User<'a>>,
    /// Roles mentioned in this message.
    pub mention_roles: Vec<Snowflake>,
    /// Channels mentioned in this message.
    pub mention_channels: Vec<ChannelMention>,
    /// Attachments.
    pub attachments: Vec<Attachment<'a>>,
    /// Embeds.
    pub embeds: Vec<Embed<'a>>,
    /// Reactions.
    pub reactions: Vec<Reaction<'a>>,
    /// Used for validating a message was sent.
    pub nonce: Option<crate::json::Value>,
    /// Whether message is pinned.
    pub pinned: bool,
    /// Webhook ID if sent by webhook.
    pub webhook_id: Option<Snowflake>,
    /// Message type.
    pub message_type: u8,
    /// Guild ID.
    pub guild_id: Option<Snowflake>,
    /// Member properties for this message's author.
    pub member: Option<GuildMember<'a>>,
    /// Message flags.
    pub flags: Option<u64>,
    /// Reference data for replies/forwards.
    pub message_reference: Option<MessageReference>,
    /// The message associated with the reference.
    pub referenced_message: Option<Box<Message<'a>>>,
    /// Thread started from this message.
    pub thread: Option<Channel<'a>>,
    /// Components (buttons, selects, etc.).
    pub components: Vec<Component<'a>>,
    /// Sticker items.
    pub sticker_items: Vec<StickerItem>,
    /// Poll object.
    pub poll: Option<Poll<'a>>,
}

/// An attachment on a message.
#[derive(Debug, Clone)]
pub struct Attachment<'a> {
    /// Attachment ID.
    pub id: Snowflake,
    /// Filename.
    pub filename: TitanString<'a>,
    /// Description.
    pub description: Option<TitanString<'a>>,
    /// Media type.
    pub content_type: Option<String>,
    /// Size in bytes.
    pub size: u64,
    /// Source URL.
    pub url: TitanString<'a>,
    /// Proxy URL.
    pub proxy_url: TitanString<'a>,
    /// Height (if image).
    pub height: Option<u32>,
    /// Width (if image).
    pub width: Option<u32>,
    /// Whether ephemeral.
    pub ephemeral: bool,
    /// Waveform base64 (for voice messages).
    pub waveform: Option<String>,
    /// Attachment flags.
    pub flags: Option<u64>,
}

/// An embed in a message.
#[derive(Debug, Clone)]
pub struct Embed<'a> {
    /// Title.
    pub title: Option<TitanString<'a>>,
    /// Type.
    pub embed_type: Option<TitanString<'a>>,
    /// Description.
    pub description: Option<TitanString<'a>>,
    /// URL.
    pub url: Option<TitanString<'a>>,
    /// Timestamp.
    pub timestamp: Option<TitanString<'a>>,
    /// Color.
    pub color: Option<u32>,
    /// Footer.
    pub footer: Option<EmbedFooter<'a>>,
    /// Image.
    pub image: Option<EmbedMedia<'a>>,
    /// Thumbnail.
    pub thumbnail: Option<EmbedMedia<'a>>,
    /// Video.
    pub video: Option<EmbedMedia<'a>>,
    /// Provider.
    pub provider: Option<EmbedProvider<'a>>,
    /// Author.
    pub author: Option<EmbedAuthor<'a>>,
    /// Fields.
    pub fields: Vec<EmbedField<'a>>,
}

/// Embed footer.
#[derive(Debug, Clone)]
pub struct EmbedFooter<'a> {
    /// Footer text.
    pub text: TitanString<'a>,
    /// Icon URL.
    pub icon_url: Option<TitanString<'a>>,
    /// Proxy icon URL.
    pub proxy_icon_url: Option<TitanString<'a>>,
}

/// Embed media (image, thumbnail, video).
#[derive(Debug, Clone)]
pub struct EmbedMedia<'a> {
    /// URL.
    pub url: Option<TitanString<'a>>,
    /// Proxy URL.
    pub proxy_url: Option<TitanString<'a>>,
    /// Height.
    pub height: Option<u32>,
    /// Width.
    pub width: Option<u32>,
}

/// Embed provider.
#[derive(Debug, Clone)]
pub struct EmbedProvider<'a> {
    /// Provider name.
    pub name: Option<TitanString<'a>>,
    /// Provider URL.
    pub url: Option<TitanString<'a>>,
}

/// Embed author.
#[derive(Debug, Clone)]
pub struct EmbedAuthor<'a> {
    /// Author name.
    pub name: TitanString<'a>,
    /// Author URL.
    pub url: Option<TitanString<'a>>,
    /// Icon URL.
    pub icon_url: Option<TitanString<'a>>,
    /// Proxy icon URL.
    pub proxy_icon_url: Option<TitanString<'a>>,
}

/// Embed field.
#[derive(Debug, Clone)]
pub struct EmbedField<'a> {
    /// Field name.
    pub name: TitanString<'a>,
    /// Field value.
    pub value: TitanString<'a>,
    /// Whether inline.
    pub inline: bool,
}

/// A reaction on a message.
#[derive(Debug, Clone)]
pub struct Reaction<'a> {
    /// Times this emoji has been used.
    pub count: u32,
    /// Reaction count details.
    pub count_details: Option<ReactionCountDetails>,
    /// Whether current user reacted.
    pub me: bool,
    /// Whether current user super-reacted.
    pub me_burst: bool,
    /// Emoji information.
    pub emoji: crate::reaction::ReactionEmoji<'a>,
    /// Colors for super-reaction.
    pub burst_colors: Vec<String>,
}

/// Reaction count details.
#[derive(Debug, Clone)]
pub struct ReactionCountDetails {
    /// Count of normal reactions.
    pub burst: u32,
    /// Count of super reactions.
    pub normal: u32,
}

/// Message reference for replies/forwards.
#[derive(Debug, Clone)]
pub struct MessageReference {
    /// ID of the originating message.
    pub message_id: Option<Snowflake>,
    /// ID of the originating channel.
    pub channel_id: Option<Snowflake>,
    /// ID of the originating guild.
    pub guild_id: Option<Snowflake>,
    /// Whether to fail if referenced message doesn't exist.
    pub fail_if_not_exists: Option<bool>,
}

/// A sticker item (partial sticker).
#[derive(Debug, Clone)]
pub struct StickerItem {
    /// Sticker ID.
    pub id: Snowflake,
    /// Sticker name.
    pub name: String,
    /// Sticker format type.
    pub format_type: u8,
}

/// Message update event (partial message).
#[derive(Debug, Clone)]
pub struct MessageUpdateEvent<'a> {
    pub id: Snowflake,
    pub channel_id: Snowflake,
    pub guild_id: Option<Snowflake>,
    pub content: Option<String>,
    pub author: Option<User<'a>>,
    pub edited_timestamp: Option<String>,
}

/// Message delete event.
#[derive(Debug, Clone)]
pub struct MessageDeleteEvent {
    pub id: Snowflake,
    pub channel_id: Snowflake,
    pub guild_id: Option<Snowflake>,
}

/// Bulk message delete event.
#[derive(Debug, Clone)]
pub struct MessageDeleteBulkEvent {
    pub ids: Vec<Snowflake>,
    pub channel_id: Snowflake,
    pub guild_id: Option<Snowflake>,
}

/// Typing start event.
#[derive(Debug, Clone)]
pub struct TypingStartEvent<'a> {
    pub channel_id: Snowflake,
    pub guild_id: Option<Snowflake>,
    pub user_id: Snowflake,
    pub timestamp: u64,
    pub member: Option<GuildMember<'a>>,
}

impl<'a> Embed<'a> {
    /// Whether no part of the embed is set.
    pub open spec fn is_blank(&self) -> bool {
        &&& self.title is None
        &&& self.embed_type is None
        &&& self.description is None
        &&& self.url is None
        &&& self.timestamp is None
        &&& self.color is None
        &&& self.footer is None
        &&& self.image is None
        &&& self.thumbnail is None
        &&& self.video is None
        &&& self.provider is None
        &&& self.author is None
        &&& self.fields@.len() == 0
    }
}

impl<'a> Default for Embed<'a> {
    fn default() -> (r: Self)
        ensures
            r.is_blank(),
    {
        Embed {
            title: None,
            embed_type: None,
            description: None,
            url: None,
            timestamp: None,
            color: None,
            footer: None,
            image: None,
            thumbnail: None,
            video: None,
            provider: None,
            author: None,
            fields: Vec::new(),
        }
    }
}

/// Whether `b` is a copy of `a`: the same ids, flags and type, clones of every other part, and
/// a copy, made in the same way, of the message it replies to.
pub open spec fn message_copied<'a>(a: Message<'a>, b: Message<'a>) -> bool
    decreases a,
{
    &&& b.id == a.id
    &&& b.channel_id == a.channel_id
    &&& b.tts == a.tts
    &&& b.mention_everyone == a.mention_everyone
    &&& b.pinned == a.pinned
    &&& b.webhook_id == a.webhook_id
    &&& b.message_type == a.message_type
    &&& b.guild_id == a.guild_id
    &&& b.flags == a.flags
    &&& cloned(a.author, b.author)
    &&& cloned(a.content, b.content)
    &&& cloned(a.timestamp, b.timestamp)
    &&& cloned(a.edited_timestamp, b.edited_timestamp)
    &&& cloned(a.mentions, b.mentions)
    &&& cloned(a.mention_roles, b.mention_roles)
    &&& cloned(a.mention_channels, b.mention_channels)
    &&& cloned(a.attachments, b.attachments)
    &&& cloned(a.embeds, b.embeds)
    &&& cloned(a.reactions, b.reactions)
    &&& cloned(a.nonce, b.nonce)
    &&& cloned(a.member, b.member)
    &&& cloned(a.message_reference, b.message_reference)
    &&& cloned(a.thread, b.thread)
    &&& cloned(a.components, b.components)
    &&& cloned(a.sticker_items, b.sticker_items)
    &&& cloned(a.poll, b.poll)
    &&& match a.referenced_message {
        Some(ra) => b.referenced_message matches Some(rb) && message_copied(*ra, *rb),
        None => b.referenced_message is None,
    }
}

/// A copy of a message, the message it replies to copied in turn.
fn clone_message<'a>(m: &Message<'a>) -> (r: Message<'a>)
    ensures
        message_copied(*m, r),
    decreases m,
{
    let referenced_message = match &m.referenced_message {
        Some(b) => {
            assert(decreases_to!(m => m.referenced_message));
            Some(Box::new(clone_message(&**b)))
        },
        None => None,
    };
    Message {
        id: m.id,
        channel_id: m.channel_id,
        author: m.author.clone(),
        content: m.content.clone(),
        timestamp: m.timestamp.clone(),
        edited_timestamp: m.edited_timestamp.clone(),
        tts: m.tts,
        mention_everyone: m.mention_everyone,
        mentions: m.mentions.clone(),
        mention_roles: m.mention_roles.clone(),
        mention_channels: m.mention_channels.clone(),
        attachments: m.attachments.clone(),
        embeds: m.embeds.clone(),
        reactions: m.reactions.clone(),
        nonce: m.nonce.clone(),
        pinned: m.pinned,
        webhook_id: m.webhook_id,
        message_type: m.message_type,
        guild_id: m.guild_id,
        member: m.member.clone(),
        flags: m.flags,
        message_reference: m.message_reference.clone(),
        referenced_message,
        thread: m.thread.clone(),
        components: m.components.clone(),
        sticker_items: m.sticker_items.clone(),
        poll: m.poll.clone(),
    }
}

impl<'a> Clone for Message<'a> {
    fn clone(&self) -> (r: Self)
        ensures
            message_copied(*self, r),
    {
        clone_message(self)
    }
}

} // verus!
