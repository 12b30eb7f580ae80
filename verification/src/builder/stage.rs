//! Stage instance payload and its builder.
use vstd::prelude::*;
use vstd::std_specs::convert::IntoSpec;
use crate::Snowflake;

verus! {

/// Payload for creating a stage instance.
#[derive(Debug, Clone, Default)]
pub struct CreateStageInstance {
    pub channel_id: Snowflake,
    pub topic: String,
    pub privacy_level: Option<crate::stage::StagePrivacyLevel>,
    pub send_start_notification: Option<bool>,
}

/// Builder for creating a Stage Instance.
#[derive(Debug, Clone)]
pub struct StageInstanceBuilder {
    params: CreateStageInstance,
}

impl View for StageInstanceBuilder {
    type V = CreateStageInstance;

    /// The payload built so far.
    closed spec fn view(&self) -> CreateStageInstance {
        self.params
    }
}

impl StageInstanceBuilder {
    /// Create a new StageInstanceBuilder.
    pub fn new<T: Into<Snowflake>, U: Into<String>>(channel_id: T, topic: U) -> (r: Self)
        ensures
            T::obeys_into_spec() && U::obeys_into_spec() ==> r@ == (CreateStageInstance {
                channel_id: channel_id.into_spec(),
                topic: topic.into_spec(),
                privacy_level: None,
                send_start_notification: None,
            }),
            r@ == (CreateStageInstance {
                channel_id: r@.channel_id,
                topic: r@.topic,
                privacy_level: None,
                send_start_notification: None,
            }),
    {
        StageInstanceBuilder {
            params: CreateStageInstance {
                channel_id: channel_id.into(),
                topic: topic.into(),
                privacy_level: None,
                send_start_notification: None,
            },
        }
    }

    /// Set privacy level.
    pub fn privacy_level(self, level: crate::stage::StagePrivacyLevel) -> (r: Self)
        ensures
            r@ == (CreateStageInstance { privacy_level: Some(level), ..self@ }),
    {
        let mut b = self;
        b.params.privacy_level = Some(level);
        b
    }

    /// Set send start notification.
    pub fn send_start_notification(self, send: bool) -> (r: Self)
        ensures
            r@ == (CreateStageInstance { send_start_notification: Some(send), ..self@ }),
    {
        let mut b = self;
        b.params.send_start_notification = Some(send);
        b
    }

    /// Build the CreateStageInstance payload.
    pub fn build(self) -> (r: CreateStageInstance)
        ensures
            r == self@,
    {
        self.params
    }
}

} // verus!
