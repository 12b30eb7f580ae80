//! Guild payloads and their builders.
use vstd::prelude::*;
use vstd::std_specs::convert::IntoSpec;
use crate::{Snowflake, TitanString};

verus! {

/// Payload for modifying a guild.
#[derive(Debug, Clone, Default)]
pub struct ModifyGuild<'a> {
    pub name: Option<TitanString<'a>>,
    pub region: Option<TitanString<'a>>,
    pub verification_level: Option<u8>,
    pub default_message_notifications: Option<u8>,
    pub explicit_content_filter: Option<u8>,
    pub afk_channel_id: Option<Snowflake>,
    pub afk_timeout: Option<u32>,
    pub icon: Option<TitanString<'a>>,
    pub owner_id: Option<Snowflake>,
    pub splash: Option<TitanString<'a>>,
    pub discovery_splash: Option<TitanString<'a>>,
    pub banner: Option<TitanString<'a>>,
    pub system_channel_id: Option<Snowflake>,
    pub system_channel_flags: Option<u64>,
    pub rules_channel_id: Option<Snowflake>,
    pub public_updates_channel_id: Option<Snowflake>,
    pub preferred_locale: Option<TitanString<'a>>,
    pub features: Option<Vec<TitanString<'a>>>,
    pub description: Option<TitanString<'a>>,
    pub premium_progress_bar_enabled: Option<bool>,
    pub safety_alerts_channel_id: Option<Snowflake>,
}

/// Builder for modifying a Guild.
#[derive(Debug, Clone, Default)]
pub struct ModifyGuildBuilder<'a> {
    params: ModifyGuild<'a>,
}

impl<'a> View for ModifyGuildBuilder<'a> {
    type V = ModifyGuild<'a>;

    /// The payload built so far.
    closed spec fn view(&self) -> ModifyGuild<'a> {
        self.params
    }
}

impl<'a> ModifyGuildBuilder<'a> {
    /// Create a new ModifyGuildBuilder.
    pub fn new() -> (r: Self)
        ensures
            r@ == (ModifyGuild {
                name: None,
                region: None,
                verification_level: None,
                default_message_notifications: None,
                explicit_content_filter: None,
                afk_channel_id: None,
                afk_timeout: None,
                icon: None,
                owner_id: None,
                splash: None,
                discovery_splash: None,
                banner: None,
                system_channel_id: None,
                system_channel_flags: None,
                rules_channel_id: None,
                public_updates_channel_id: None,
                preferred_locale: None,
                features: None,
                description: None,
                premium_progress_bar_enabled: None,
                safety_alerts_channel_id: None,
            }),
    {
        ModifyGuildBuilder {
            params: ModifyGuild {
                name: None,
                region: None,
                verification_level: None,
                default_message_notifications: None,
                explicit_content_filter: None,
                afk_channel_id: None,
                afk_timeout: None,
                icon: None,
                owner_id: None,
                splash: None,
                discovery_splash: None,
                banner: None,
                system_channel_id: None,
                system_channel_flags: None,
                rules_channel_id: None,
                public_updates_channel_id: None,
                preferred_locale: None,
                features: None,
                description: None,
                premium_progress_bar_enabled: None,
                safety_alerts_channel_id: None,
            },
        }
    }

    /// Set name.
    pub fn name<T: Into<TitanString<'a>>>(self, name: T) -> (r: Self)
        ensures
            T::obeys_into_spec() ==> r@ == (ModifyGuild { name: Some(name.into_spec()), ..self@ }),
            r@ == (ModifyGuild { name: r@.name, ..self@ }),
            r@.name is Some,
    {
        let mut b = self;
        b.params.name = Some(name.into());
        b
    }

    /// Set region (deprecated).
    pub fn region<T: Into<TitanString<'a>>>(self, region: T) -> (r: Self)
        ensures
            T::obeys_into_spec() ==> r@ == (ModifyGuild { region: Some(region.into_spec()), ..self@ }),
            r@ == (ModifyGuild { region: r@.region, ..self@ }),
            r@.region is Some,
    {
        let mut b = self;
        b.params.region = Some(region.into());
        b
    }

    /// Set verification level.
    pub fn verification_level(self, level: u8) -> (r: Self)
        ensures
            r@ == (ModifyGuild { verification_level: Some(level), ..self@ }),
    {
        let mut b = self;
        b.params.verification_level = Some(level);
        b
    }

    /// Set default message notifications.
    pub fn default_message_notifications(self, level: u8) -> (r: Self)
        ensures
            r@ == (ModifyGuild { default_message_notifications: Some(level), ..self@ }),
    {
        let mut b = self;
        b.params.default_message_notifications = Some(level);
        b
    }

    /// Set explicit content filter.
    pub fn explicit_content_filter(self, level: u8) -> (r: Self)
        ensures
            r@ == (ModifyGuild { explicit_content_filter: Some(level), ..self@ }),
    {
        let mut b = self;
        b.params.explicit_content_filter = Some(level);
        b
    }

    /// Set AFK channel ID.
    pub fn afk_channel_id<T: Into<Snowflake>>(self, id: T) -> (r: Self)
        ensures
            T::obeys_into_spec() ==> r@ == (ModifyGuild { afk_channel_id: Some(id.into_spec()), ..self@ }),
            r@ == (ModifyGuild { afk_channel_id: r@.afk_channel_id, ..self@ }),
            r@.afk_channel_id is Some,
    {
        let mut b = self;
        b.params.afk_channel_id = Some(id.into());
        b
    }

    /// Set AFK timeout.
    pub fn afk_timeout(self, timeout: u32) -> (r: Self)
        ensures
            r@ == (ModifyGuild { afk_timeout: Some(timeout), ..self@ }),
    {
        let mut b = self;
        b.params.afk_timeout = Some(timeout);
        b
    }

    /// Set icon (base64).
    pub fn icon<T: Into<TitanString<'a>>>(self, icon: T) -> (r: Self)
        ensures
            T::obeys_into_spec() ==> r@ == (ModifyGuild { icon: Some(icon.into_spec()), ..self@ }),
            r@ == (ModifyGuild { icon: r@.icon, ..self@ }),
            r@.icon is Some,
    {
        let mut b = self;
        b.params.icon = Some(icon.into());
        b
    }

    /// Set system channel ID.
    pub fn system_channel_id<T: Into<Snowflake>>(self, id: T) -> (r: Self)
        ensures
            T::obeys_into_spec() ==> r@ == (ModifyGuild { system_channel_id: Some(id.into_spec()), ..self@ }),
            r@ == (ModifyGuild { system_channel_id: r@.system_channel_id, ..self@ }),
            r@.system_channel_id is Some,
    {
        let mut b = self;
        b.params.system_channel_id = Some(id.into());
        b
    }

    /// Build the ModifyGuild payload.
    pub fn build(self) -> (r: ModifyGuild<'a>)
        ensures
            r == self@,
    {
        self.params
    }
}

/// Payload for creating a Guild.
#[derive(Debug, Clone, Default)]
pub struct CreateGuild {
    pub name: String,
    pub icon: Option<String>,
    pub verification_level: Option<u8>,
    pub default_message_notifications: Option<u8>,
    pub explicit_content_filter: Option<u8>,
    pub roles: Vec<crate::json::Value>,
    pub channels: Vec<crate::json::Value>,
    pub afk_channel_id: Option<Snowflake>,
    pub afk_timeout: Option<u32>,
    pub system_channel_id: Option<Snowflake>,
    pub system_channel_flags: Option<u64>,
}

/// Builder for creating a Guild.
#[derive(Debug, Clone)]
pub struct CreateGuildBuilder {
    params: CreateGuild,
}

impl View for CreateGuildBuilder {
    type V = CreateGuild;

    /// The payload built so far.
    closed spec fn view(&self) -> CreateGuild {
        self.params
    }
}

impl CreateGuildBuilder {
    /// Create a new CreateGuildBuilder.
    pub fn new<T: Into<String>>(name: T) -> (r: Self)
        ensures
            T::obeys_into_spec() ==> r@ == (CreateGuild {
                name: name.into_spec(),
                icon: None,
                verification_level: None,
                default_message_notifications: None,
                explicit_content_filter: None,
                roles: r@.roles,
                channels: r@.channels,
                afk_channel_id: None,
                afk_timeout: None,
                system_channel_id: None,
                system_channel_flags: None,
            }),
            r@ == (CreateGuild {
                name: r@.name,
                icon: None,
                verification_level: None,
                default_message_notifications: None,
                explicit_content_filter: None,
                roles: r@.roles,
                channels: r@.channels,
                afk_channel_id: None,
                afk_timeout: None,
                system_channel_id: None,
                system_channel_flags: None,
            }),
            r@.roles@.len() == 0,
            r@.channels@.len() == 0,
    {
        CreateGuildBuilder {
            params: CreateGuild {
                name: name.into(),
                icon: None,
                verification_level: None,
                default_message_notifications: None,
                explicit_content_filter: None,
                roles: Vec::new(),
                channels: Vec::new(),
                afk_channel_id: None,
                afk_timeout: None,
                system_channel_id: None,
                system_channel_flags: None,
            },
        }
    }

    /// Set icon (base64 data).
    pub fn icon<T: Into<String>>(self, icon: T) -> (r: Self)
        ensures
            T::obeys_into_spec() ==> r@ == (CreateGuild { icon: Some(icon.into_spec()), ..self@ }),
            r@ == (CreateGuild { icon: r@.icon, ..self@ }),
            r@.icon is Some,
    {
        let mut b = self;
        b.params.icon = Some(icon.into());
        b
    }

    /// Set verification level.
    pub fn verification_level(self, level: u8) -> (r: Self)
        ensures
            r@ == (CreateGuild { verification_level: Some(level), ..self@ }),
    {
        let mut b = self;
        b.params.verification_level = Some(level);
        b
    }

    /// Build the CreateGuild payload.
    pub fn build(self) -> (r: CreateGuild)
        ensures
            r == self@,
    {
        self.params
    }
}

} // verus!
