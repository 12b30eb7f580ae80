//! Member modification payload and its builder.
use vstd::prelude::*;
use vstd::std_specs::convert::IntoSpec;
use crate::{Snowflake, TitanString};

verus! {

/// Payload for modifying a guild member.
#[derive(Debug, Clone, Default)]
pub struct ModifyMember<'a> {
    pub nick: Option<TitanString<'a>>,
    pub roles: Option<Vec<Snowflake>>,
    pub mute: Option<bool>,
    pub deaf: Option<bool>,
    /// Voice channel to move the member to.
    pub channel_id: Option<Snowflake>,
    /// Timeout end (ISO8601).
    pub communication_disabled_until: Option<TitanString<'a>>,
    pub flags: Option<u64>,
}

/// Builder for modifying a GuildMember.
#[derive(Debug, Clone, Default)]
pub struct ModifyMemberBuilder<'a> {
    params: ModifyMember<'a>,
}

impl<'a> View for ModifyMemberBuilder<'a> {
    type V = ModifyMember<'a>;

    /// The payload built so far.
    closed spec fn view(&self) -> ModifyMember<'a> {
        self.params
    }
}

impl<'a> ModifyMemberBuilder<'a> {
    /// Create a new ModifyMemberBuilder.
    pub fn new() -> (r: Self)
        ensures
            r@ == (ModifyMember {
                nick: None,
                roles: None,
                mute: None,
                deaf: None,
                channel_id: None,
                communication_disabled_until: None,
                flags: None,
            }),
    {
        ModifyMemberBuilder {
            params: ModifyMember {
                nick: None,
                roles: None,
                mute: None,
                deaf: None,
                channel_id: None,
                communication_disabled_until: None,
                flags: None,
            },
        }
    }

    /// Set nickname.
    pub fn nick<T: Into<TitanString<'a>>>(self, nick: T) -> (r: Self)
        ensures
            T::obeys_into_spec() ==> r@ == (ModifyMember { nick: Some(nick.into_spec()), ..self@ }),
            r@ == (ModifyMember { nick: r@.nick, ..self@ }),
            r@.nick is Some,
    {
        let mut b = self;
        b.params.nick = Some(nick.into());
        b
    }

    /// Set roles (replaces all roles).
    pub fn roles(self, roles: Vec<Snowflake>) -> (r: Self)
        ensures
            r@ == (ModifyMember { roles: Some(roles), ..self@ }),
    {
        let mut b = self;
        b.params.roles = Some(roles);
        b
    }

    /// Mute or unmute.
    pub fn mute(self, mute: bool) -> (r: Self)
        ensures
            r@ == (ModifyMember { mute: Some(mute), ..self@ }),
    {
        let mut b = self;
        b.params.mute = Some(mute);
        b
    }

    /// Deafen or undeafen.
    pub fn deaf(self, deaf: bool) -> (r: Self)
        ensures
            r@ == (ModifyMember { deaf: Some(deaf), ..self@ }),
    {
        let mut b = self;
        b.params.deaf = Some(deaf);
        b
    }

    /// Move to voice channel.
    pub fn move_to_channel<T: Into<Snowflake>>(self, channel_id: T) -> (r: Self)
        ensures
            T::obeys_into_spec() ==> r@ == (ModifyMember { channel_id: Some(channel_id.into_spec()), ..self@ }),
            r@ == (ModifyMember { channel_id: r@.channel_id, ..self@ }),
            r@.channel_id is Some,
    {
        let mut b = self;
        b.params.channel_id = Some(channel_id.into());
        b
    }

    /// Timeout user until timestamp (ISO8601).
    pub fn timeout_until<T: Into<TitanString<'a>>>(self, timestamp: T) -> (r: Self)
        ensures
            T::obeys_into_spec() ==> r@ == (ModifyMember { communication_disabled_until: Some(timestamp.into_spec()), ..self@ }),
            r@ == (ModifyMember { communication_disabled_until: r@.communication_disabled_until, ..self@ }),
            r@.communication_disabled_until is Some,
    {
        let mut b = self;
        b.params.communication_disabled_until = Some(timestamp.into());
        b
    }

    /// Build the ModifyMember payload.
    pub fn build(self) -> (r: ModifyMember<'a>)
        ensures
            r == self@,
    {
        self.params
    }
}

} // verus!
