//! Users, presences and avatar addresses.
use vstd::prelude::*;
use crate::cdn::{asset_url, asset_url_of, image_ext, image_ext_of, numbered_url, numbered_url_of};
use crate::mention::{mention_of, mention_text, Mention};
use crate::text::{parse_u64, parse_u64_spec, str_eq};
use crate::snowflake::Snowflake;
use crate::TitanString;

verus! {

/// Discord User representation.
#[derive(Debug, Clone)]
pub struct User<'a> {
    /// User ID.
    pub id: Snowflake,
    /// Username (not unique per se post-pomelo).
    pub username: TitanString<'a>,
    /// User's 4-digit Discord tag (deprecated, "0" for pomelo users).
    pub discriminator: TitanString<'a>,
    /// User's display name.
    pub global_name: Option<TitanString<'a>>,
    /// Avatar hash.
    pub avatar: Option<TitanString<'a>>,
    /// Whether the user is a bot.
    pub bot: bool,
    /// Whether the user is a system user.
    pub system: bool,
    /// Whether the user has MFA enabled.
    pub mfa_enabled: Option<bool>,
    /// Banner hash.
    pub banner: Option<TitanString<'a>>,
    /// Banner color as integer.
    pub accent_color: Option<u32>,
    /// User's locale.
    pub locale: Option<TitanString<'a>>,
    /// Whether email is verified.
    pub verified: Option<bool>,
    /// User's email (requires email scope).
    pub email: Option<TitanString<'a>>,
    /// User flags.
    pub flags: Option<u64>,
    /// Nitro subscription type.
    pub premium_type: Option<u8>,
    /// Public flags on the user.
    pub public_flags: Option<u64>,
    /// Avatar decoration data.
    pub avatar_decoration_data: Option<crate::json::Value>,
}

/// Partial user for presence updates.
#[derive(Debug, Clone)]
pub struct PartialUser {
    pub id: Snowflake,
}

/// Client status for presence.
#[derive(Debug, Clone)]
pub struct ClientStatus {
    pub desktop: Option<String>,
    pub mobile: Option<String>,
    pub web: Option<String>,
}

/// Presence update event.
#[derive(Debug, Clone)]
pub struct PresenceUpdateEvent {
    pub user: PartialUser,
    pub guild_id: Option<Snowflake>,
    pub status: String,
    pub activities: Vec<crate::json::Value>,
    pub client_status: Option<ClientStatus>,
}

/// The index of a user's default avatar: from the ID for users without a discriminator
/// ("0"), else from the discriminator (0 when it is not a number).
pub open spec fn default_avatar_index(id: u64, discriminator: Seq<char>) -> u64 {
    if discriminator == "0"@ {
        ((id as int / 0x40_0000) % 6) as u64
    } else {
        match parse_u64_spec(discriminator) {
            Some(v) => (v % 5) as u64,
            None => 0,
        }
    }
}

/// The address of a user's own avatar, for this avatar hash.
pub open spec fn avatar_address(id: u64, hash: Seq<char>) -> Seq<char> {
    asset_url("https://cdn.discordapp.com/avatars/"@, id, hash, image_ext(hash))
}

/// The address of a user's default avatar.
pub open spec fn default_avatar_address(id: u64, discriminator: Seq<char>) -> Seq<char> {
    numbered_url("https://cdn.discordapp.com/embed/avatars/"@, default_avatar_index(id, discriminator), "png"@)
}

impl<'a> User<'a> {
    /// Returns the URL of the user's avatar.
    pub fn avatar_url(&self) -> (r: Option<String>)
        ensures
            self.avatar is None ==> r is None,
            self.avatar matches Some(h) ==> (r matches Some(u) && u@ == avatar_address(self.id.0, h@)),
    {
        match &self.avatar {
            Some(hash) => {
                let h = hash.as_str();
                Some(asset_url_of("https://cdn.discordapp.com/avatars/", self.id.0, h, image_ext_of(h)))
            },
            None => None,
        }
    }

    /// Returns the URL of the user's default avatar.
    pub fn default_avatar_url(&self) -> (r: String)
        ensures
            r@ == default_avatar_address(self.id.0, self.discriminator@),
    {
        let index: u64 = if str_eq(self.discriminator.as_str(), "0") {
            let x: u64 = self.id.0;
            let hi = x >> 22u64;
            assert(hi == x / 0x40_0000) by (bit_vector)
                requires
                    hi == x >> 22u64,
            ;
            hi % 6
        } else {
            match parse_u64(self.discriminator.as_str()) {
                Some(v) => v % 5,
                None => 0,
            }
        };
        numbered_url_of("https://cdn.discordapp.com/embed/avatars/", index, "png")
    }

    /// Returns the user's displayed avatar URL (avatar or default).
    pub fn face(&self) -> (r: String)
        ensures
            self.avatar matches Some(h) ==> r@ == avatar_address(self.id.0, h@),
            self.avatar is None ==> r@ == default_avatar_address(self.id.0, self.discriminator@),
    {
        match self.avatar_url() {
            Some(u) => u,
            None => self.default_avatar_url(),
        }
    }
}

impl<'a> Mention for User<'a> {
    fn mention(&self) -> (r: String)
        ensures
            r@ == mention_text("<@"@, self.id.0),
    {
        mention_of("<@", self.id.0)
    }
}

} // verus!
