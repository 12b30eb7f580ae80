//! Channel creation payload and its builder.
use vstd::prelude::*;
use vstd::std_specs::convert::IntoSpec;
use crate::{Snowflake, TitanString};

verus! {

/// Payload for creating a channel.
#[derive(Debug, Clone, Default)]
pub struct CreateChannel<'a> {
    pub name: TitanString<'a>,
    /// Channel type.
    pub kind: Option<u8>,
    pub topic: Option<TitanString<'a>>,
    pub bitrate: Option<u32>,
    pub user_limit: Option<u32>,
    pub rate_limit_per_user: Option<u32>,
    pub position: Option<u32>,
    pub permission_overwrites: Option<Vec<crate::json::Value>>,
    pub parent_id: Option<Snowflake>,
    pub nsfw: Option<bool>,
}

/// Builder for creating a Channel.
#[derive(Debug, Clone, Default)]
pub struct CreateChannelBuilder<'a> {
    params: CreateChannel<'a>,
}

impl<'a> View for CreateChannelBuilder<'a> {
    type V = CreateChannel<'a>;

    /// The payload built so far.
    closed spec fn view(&self) -> CreateChannel<'a> {
        self.params
    }
}

impl<'a> CreateChannelBuilder<'a> {
    /// Create a new CreateChannelBuilder.
    pub fn new<T: Into<TitanString<'a>>>(name: T) -> (r: Self)
        ensures
            T::obeys_into_spec() ==> r@ == (CreateChannel {
                name: name.into_spec(),
                kind: None,
                topic: None,
                bitrate: None,
                user_limit: None,
                rate_limit_per_user: None,
                position: None,
                permission_overwrites: None,
                parent_id: None,
                nsfw: None,
            }),
            r@ == (CreateChannel {
                name: r@.name,
                kind: None,
                topic: None,
                bitrate: None,
                user_limit: None,
                rate_limit_per_user: None,
                position: None,
                permission_overwrites: None,
                parent_id: None,
                nsfw: None,
            }),
    {
        CreateChannelBuilder {
            params: CreateChannel {
                name: name.into(),
                kind: None,
                topic: None,
                bitrate: None,
                user_limit: None,
                rate_limit_per_user: None,
                position: None,
                permission_overwrites: None,
                parent_id: None,
                nsfw: None,
            },
        }
    }

    /// Set the channel type.
    pub fn kind(self, kind: u8) -> (r: Self)
        ensures
            r@ == (CreateChannel { kind: Some(kind), ..self@ }),
    {
        let mut b = self;
        b.params.kind = Some(kind);
        b
    }

    /// Set the topic.
    pub fn topic<T: Into<TitanString<'a>>>(self, topic: T) -> (r: Self)
        ensures
            T::obeys_into_spec() ==> r@ == (CreateChannel { topic: Some(topic.into_spec()), ..self@ }),
            r@ == (CreateChannel { topic: r@.topic, ..self@ }),
            r@.topic is Some,
    {
        let mut b = self;
        b.params.topic = Some(topic.into());
        b
    }

    /// Build the CreateChannel payload.
    pub fn build(self) -> (r: CreateChannel<'a>)
        ensures
            r == self@,
    {
        self.params
    }
}

} // verus!
