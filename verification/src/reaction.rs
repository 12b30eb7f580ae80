//! Reaction types for Discord message reactions.
//!
//! Reactions are emoji added to messages by users.
use vstd::prelude::*;
use vstd::std_specs::convert::IntoSpec;
use crate::text::{decimal, push_decimal, push_str};
use crate::Snowflake;
use crate::TitanString;

verus! {

/// Event data for `MESSAGE_REACTION_ADD`.
#[derive(Debug, Clone)]
pub struct MessageReactionAddEvent<'a> {
    /// ID of the user.
    pub user_id: Snowflake,

    /// ID of the channel.
    pub channel_id: Snowflake,

    /// ID of the message.
    pub message_id: Snowflake,

    /// ID of the guild.
    pub guild_id: Option<Snowflake>,

    /// Member who reacted if in a guild.
    pub member: Option<super::member::GuildMember<'a>>,

    /// The emoji used to react.
    pub emoji: ReactionEmoji<'a>,

    /// ID of the user who authored the message.
    pub message_author_id: Option<Snowflake>,

    /// Whether this is a super-reaction.
    pub burst: bool,

    /// Colors used for super-reaction animation (hex format).
    pub burst_colors: Vec<String>,

    /// The type of reaction.
    pub reaction_type: u8,
}

/// Event data for `MESSAGE_REACTION_REMOVE`.
#[derive(Debug, Clone)]
pub struct MessageReactionRemoveEvent<'a> {
    /// ID of the user.
    pub user_id: Snowflake,

    /// ID of the channel.
    pub channel_id: Snowflake,

    /// ID of the message.
    pub message_id: Snowflake,

    /// ID of the guild.
    pub guild_id: Option<Snowflake>,

    /// The emoji used to react.
    pub emoji: ReactionEmoji<'a>,

    /// Whether this was a super-reaction.
    pub burst: bool,

    /// The type of reaction.
    pub reaction_type: u8,
}

/// Event data for `MESSAGE_REACTION_REMOVE_ALL`.
#[derive(Debug, Clone)]
pub struct MessageReactionRemoveAllEvent {
    /// ID of the channel.
    pub channel_id: Snowflake,

    /// ID of the message.
    pub message_id: Snowflake,

    /// ID of the guild.
    pub guild_id: Option<Snowflake>,
}

/// Event data for `MESSAGE_REACTION_REMOVE_EMOJI`.
#[derive(Debug, Clone)]
pub struct MessageReactionRemoveEmojiEvent<'a> {
    /// ID of the channel.
    pub channel_id: Snowflake,

    /// ID of the message.
    pub message_id: Snowflake,

    /// ID of the guild.
    pub guild_id: Option<Snowflake>,

    /// The emoji that was removed.
    pub emoji: ReactionEmoji<'a>,
}

/// Emoji used in a reaction.
#[derive(Debug, Clone, Default)]
pub struct ReactionEmoji<'a> {
    /// Emoji ID (null for standard emoji).
    pub id: Option<Snowflake>,

    /// Emoji name.
    pub name: Option<TitanString<'a>>,

    /// Whether this emoji is animated.
    pub animated: bool,
}

/// How an emoji is written in message text: `<a:name:id>` for an animated custom emoji,
/// `<:name:id>` for another custom emoji, the name itself for a unicode emoji, and nothing
/// for an emoji without a name.
pub open spec fn emoji_text(id: Option<Snowflake>, name: Option<Seq<char>>, animated: bool) -> Seq<char> {
    match (id, name) {
        (Some(i), Some(n)) => if animated {
            "<a:"@ + n + ":"@ + decimal(i.0 as nat) + ">"@
        } else {
            "<:"@ + n + ":"@ + decimal(i.0 as nat) + ">"@
        },
        (None, Some(n)) => n,
        _ => Seq::empty(),
    }
}

/// The name of an emoji as text, if it has one.
pub open spec fn name_text<'a>(name: Option<TitanString<'a>>) -> Option<Seq<char>> {
    match name {
        Some(n) => Some(n@),
        None => None,
    }
}

impl<'a> ReactionEmoji<'a> {
    /// A unicode emoji.
    pub fn unicode<T: Into<TitanString<'a>>>(name: T) -> (r: Self)
        ensures
            T::obeys_into_spec() ==> r.name == Some(name.into_spec()),
            r.id is None && r.name is Some && !r.animated,
    {
        ReactionEmoji { id: None, name: Some(name.into()), animated: false }
    }

    /// A custom emoji.
    pub fn custom<T: Into<Snowflake>, U: Into<TitanString<'a>>>(id: T, name: U) -> (r: Self)
        ensures
            T::obeys_into_spec() ==> r.id == Some(id.into_spec()),
            U::obeys_into_spec() ==> r.name == Some(name.into_spec()),
            r.id is Some && r.name is Some && !r.animated,
    {
        ReactionEmoji { id: Some(id.into()), name: Some(name.into()), animated: false }
    }

    /// An animated custom emoji.
    pub fn animated<T: Into<Snowflake>, U: Into<TitanString<'a>>>(id: T, name: U) -> (r: Self)
        ensures
            T::obeys_into_spec() ==> r.id == Some(id.into_spec()),
            U::obeys_into_spec() ==> r.name == Some(name.into_spec()),
            r.id is Some && r.name is Some && r.animated,
    {
        ReactionEmoji { id: Some(id.into()), name: Some(name.into()), animated: true }
    }

    /// How the emoji is written in message text.
    pub fn format(&self) -> (r: String)
        ensures
            r@ == emoji_text(self.id, name_text(self.name), self.animated),
    {
        match (&self.id, &self.name) {
            (Some(id), Some(name)) => {
                let mut s = String::new();
                if self.animated {
                    push_str(&mut s, "<a:");
                } else {
                    push_str(&mut s, "<:");
                }
                push_str(&mut s, name.as_str());
                push_str(&mut s, ":");
                push_decimal(&mut s, id.0);
                push_str(&mut s, ">");
                assert(s@ =~= emoji_text(self.id, name_text(self.name), self.animated));
                s
            },
            (None, Some(name)) => name.to_string(),
            _ => String::new(),
        }
    }
}

} // verus!
