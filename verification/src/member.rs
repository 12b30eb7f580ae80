//! Guild member types.
//!
//! Represents Discord guild members with roles, permissions, and presence.
use vstd::prelude::*;
use crate::cdn::{numbered_url, numbered_url_of};
use crate::mention::{mention_of, mention_text, Mention};
use crate::Snowflake;
use crate::TitanString;

verus! {

/// A member of a Discord guild.
#[derive(Debug, Clone)]
pub struct GuildMember<'a> {
    /// The user this guild member represents.
    pub user: Option<super::User<'a>>,

    /// This user's guild nickname.
    pub nick: Option<TitanString<'a>>,

    /// The member's guild avatar hash.
    pub avatar: Option<TitanString<'a>>,

    /// Array of role object IDs.
    pub roles: Vec<Snowflake>,

    /// When the user joined the guild (ISO8601 timestamp).
    pub joined_at: TitanString<'a>,

    /// When the user started boosting the guild.
    pub premium_since: Option<TitanString<'a>>,

    /// Whether the user is deafened in voice channels.
    pub deaf: bool,

    /// Whether the user is muted in voice channels.
    pub mute: bool,

    /// Guild member flags as a bitfield.
    pub flags: u64,

    /// Whether the user has not yet passed the guild's Membership Screening.
    pub pending: Option<bool>,

    /// Total permissions of the member in the channel (including overwrites).
    pub permissions: Option<crate::permissions::Permissions>,

    /// When the user's timeout will expire (ISO8601 timestamp).
    pub communication_disabled_until: Option<TitanString<'a>>,
}

/// A Discord role.
#[derive(Debug, Clone)]
pub struct Role<'a> {
    /// Role ID.
    pub id: Snowflake,

    /// Role name.
    pub name: TitanString<'a>,

    /// Integer representation of hex color code.
    pub color: u32,

    /// If this role is pinned in the user listing.
    pub hoist: bool,

    /// Role icon hash.
    pub icon: Option<TitanString<'a>>,

    /// Role unicode emoji.
    pub unicode_emoji: Option<TitanString<'a>>,

    /// Position of this role.
    pub position: i32,

    /// Permission bit set.
    pub permissions: crate::permissions::Permissions,

    /// Whether this role is managed by an integration.
    pub managed: bool,

    /// Whether this role is mentionable.
    pub mentionable: bool,

    /// The tags this role has.
    pub tags: Option<RoleTags>,

    /// Role flags as a bitfield.
    pub flags: u64,
}

/// Tags for a role.
#[derive(Debug, Clone)]
pub struct RoleTags {
    /// The ID of the bot this role belongs to.
    pub bot_id: Option<Snowflake>,

    /// The ID of the integration this role belongs to.
    pub integration_id: Option<Snowflake>,

    /// Whether this is the guild's premium subscriber role.
    pub premium_subscriber: Option<()>,

    /// The ID of the subscription listing for this role.
    pub subscription_listing_id: Option<Snowflake>,

    /// Whether this role is available for purchase.
    pub available_for_purchase: Option<()>,

    /// Whether this role is a guild's linked role.
    pub guild_connections: Option<()>,
}

/// An emoji in a guild.
#[derive(Debug, Clone)]
pub struct Emoji<'a> {
    /// Emoji ID.
    pub id: Option<Snowflake>,

    /// Emoji name (can be null for reaction emoji objects).
    pub name: Option<TitanString<'a>>,

    /// Roles allowed to use this emoji.
    pub roles: Vec<Snowflake>,

    /// User that created this emoji.
    pub user: Option<super::User<'a>>,

    /// Whether this emoji must be wrapped in colons.
    pub require_colons: bool,

    /// Whether this emoji is managed.
    pub managed: bool,

    /// Whether this emoji is animated.
    pub animated: bool,

    /// Whether this emoji can be used.
    pub available: bool,
}

/// A sticker in a guild.
#[derive(Debug, Clone)]
pub struct Sticker<'a> {
    /// ID of the sticker.
    pub id: Snowflake,

    /// ID of the pack the sticker is from.
    pub pack_id: Option<Snowflake>,

    /// Name of the sticker.
    pub name: TitanString<'a>,

    /// Description of the sticker.
    pub description: Option<TitanString<'a>>,

    /// Autocomplete/suggestion tags for the sticker.
    pub tags: TitanString<'a>,

    /// Type of sticker.
    pub sticker_type: u8,

    /// Format type of the sticker (1=PNG, 2=APNG, 3=LOTTIE, 4=GIF).
    pub format_type: u8,

    /// The user that uploaded the guild sticker.
    pub user: Option<super::User<'a>>,

    /// The standard sticker's sort order within its pack.
    pub sort_value: Option<u32>,
}

/// The extension of a sticker image by its format type: "json" for Lottie (3), "gif" for
/// GIF (4), else "png".
pub open spec fn sticker_ext(format_type: u8) -> Seq<char> {
    if format_type == 3 {
        "json"@
    } else if format_type == 4 {
        "gif"@
    } else {
        "png"@
    }
}

/// A sticker's image is a GIF exactly for format type 4 (GIF), a Lottie JSON file exactly
/// for type 3 (Lottie), and a PNG for every other type (1 PNG, 2 APNG, and any unknown one).
pub proof fn lemma_sticker_extensions(format_type: u8)
    ensures
        sticker_ext(format_type) == "gif"@ <==> format_type == 4,
        sticker_ext(format_type) == "json"@ <==> format_type == 3,
        sticker_ext(format_type) == "png"@ <==> (format_type != 3 && format_type != 4),
{
    reveal_strlit("gif");
    reveal_strlit("json");
    reveal_strlit("png");
    assert("png"@[0] != "gif"@[0]);
    assert("png"@.len() != "json"@.len());
    assert("gif"@.len() != "json"@.len());
}

impl<'a> Emoji<'a> {
    /// Returns the URL of the emoji image; an emoji without an ID has none.
    pub fn url(&self) -> (r: Option<String>)
        ensures
            self.id is None ==> r is None,
            self.id matches Some(id) ==> (r matches Some(u) && u@ == numbered_url(
                "https://cdn.discordapp.com/emojis/"@,
                id.0,
                if self.animated { "gif"@ } else { "png"@ },
            )),
    {
        match self.id {
            Some(id) => {
                let ext = if self.animated { "gif" } else { "png" };
                Some(numbered_url_of("https://cdn.discordapp.com/emojis/", id.0, ext))
            },
            None => None,
        }
    }
}

impl<'a> Sticker<'a> {
    /// Returns the URL of the sticker image.
    pub fn url(&self) -> (r: String)
        ensures
            r@ == numbered_url("https://cdn.discordapp.com/stickers/"@, self.id.0, sticker_ext(self.format_type)),
    {
        let ext = if self.format_type == 3 {
            "json"
        } else if self.format_type == 4 {
            "gif"
        } else {
            "png"
        };
        numbered_url_of("https://cdn.discordapp.com/stickers/", self.id.0, ext)
    }
}

impl<'a> Mention for GuildMember<'a> {
    /// The member's user mention; empty for a member without a user.
    fn mention(&self) -> (r: String)
        ensures
            self.user matches Some(u) ==> r@ == mention_text("<@"@, u.id.0),
            self.user is None ==> r@ == Seq::<char>::empty(),
    {
        match &self.user {
            Some(user) => mention_of("<@", user.id.0),
            None => String::new(),
        }
    }
}

impl<'a> Mention for Role<'a> {
    fn mention(&self) -> (r: String)
        ensures
            r@ == mention_text("<@&"@, self.id.0),
    {
        mention_of("<@&", self.id.0)
    }
}

} // verus!
