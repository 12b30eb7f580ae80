//! Scheduled event payload and its builder.
use vstd::prelude::*;
use vstd::std_specs::convert::IntoSpec;
use crate::{Snowflake, TitanString};
use crate::scheduled::{ScheduledEventEntityMetadata, ScheduledEventEntityType, ScheduledEventPrivacyLevel};

verus! {

/// Payload for creating a scheduled event.
#[derive(Debug, Clone, Default)]
pub struct CreateScheduledEvent<'a> {
    pub name: TitanString<'a>,
    pub privacy_level: ScheduledEventPrivacyLevel,
    pub scheduled_start_time: TitanString<'a>,
    pub scheduled_end_time: Option<TitanString<'a>>,
    pub description: Option<TitanString<'a>>,
    pub entity_type: ScheduledEventEntityType,
    pub channel_id: Option<Snowflake>,
    pub entity_metadata: Option<ScheduledEventEntityMetadata<'a>>,
    /// Cover image (base64).
    pub image: Option<TitanString<'a>>,
}

/// Builder for creating a Scheduled Event.
#[derive(Debug, Clone)]
pub struct ScheduledEventBuilder<'a> {
    params: CreateScheduledEvent<'a>,
}

impl<'a> View for ScheduledEventBuilder<'a> {
    type V = CreateScheduledEvent<'a>;

    /// The payload built so far.
    closed spec fn view(&self) -> CreateScheduledEvent<'a> {
        self.params
    }
}

impl<'a> ScheduledEventBuilder<'a> {
    /// Create a new ScheduledEventBuilder; the event is visible to the guild only.
    pub fn new<T: Into<TitanString<'a>>, U: Into<TitanString<'a>>>(name: T, start_time: U, entity_type: ScheduledEventEntityType) -> (r: Self)
        ensures
            T::obeys_into_spec() && U::obeys_into_spec() ==> r@ == (CreateScheduledEvent {
                name: name.into_spec(),
                privacy_level: ScheduledEventPrivacyLevel::GuildOnly,
                scheduled_start_time: start_time.into_spec(),
                scheduled_end_time: None,
                description: None,
                entity_type: entity_type,
                channel_id: None,
                entity_metadata: None,
                image: None,
            }),
            r@ == (CreateScheduledEvent {
                name: r@.name,
                privacy_level: ScheduledEventPrivacyLevel::GuildOnly,
                scheduled_start_time: r@.scheduled_start_time,
                scheduled_end_time: None,
                description: None,
                entity_type: entity_type,
                channel_id: None,
                entity_metadata: None,
                image: None,
            }),
    {
        ScheduledEventBuilder {
            params: CreateScheduledEvent {
                name: name.into(),
                privacy_level: ScheduledEventPrivacyLevel::GuildOnly,
                scheduled_start_time: start_time.into(),
                scheduled_end_time: None,
                description: None,
                entity_type: entity_type,
                channel_id: None,
                entity_metadata: None,
                image: None,
            },
        }
    }

    /// Set description.
    pub fn description<T: Into<TitanString<'a>>>(self, description: T) -> (r: Self)
        ensures
            T::obeys_into_spec() ==> r@ == (CreateScheduledEvent { description: Some(description.into_spec()), ..self@ }),
            r@ == (CreateScheduledEvent { description: r@.description, ..self@ }),
            r@.description is Some,
    {
        let mut b = self;
        b.params.description = Some(description.into());
        b
    }

    /// Set end time.
    pub fn end_time<T: Into<TitanString<'a>>>(self, time: T) -> (r: Self)
        ensures
            T::obeys_into_spec() ==> r@ == (CreateScheduledEvent { scheduled_end_time: Some(time.into_spec()), ..self@ }),
            r@ == (CreateScheduledEvent { scheduled_end_time: r@.scheduled_end_time, ..self@ }),
            r@.scheduled_end_time is Some,
    {
        let mut b = self;
        b.params.scheduled_end_time = Some(time.into());
        b
    }

    /// Set channel ID (required for Stage/Voice events).
    pub fn channel_id<T: Into<Snowflake>>(self, id: T) -> (r: Self)
        ensures
            T::obeys_into_spec() ==> r@ == (CreateScheduledEvent { channel_id: Some(id.into_spec()), ..self@ }),
            r@ == (CreateScheduledEvent { channel_id: r@.channel_id, ..self@ }),
            r@.channel_id is Some,
    {
        let mut b = self;
        b.params.channel_id = Some(id.into());
        b
    }

    /// Set cover image (base64).
    pub fn image<T: Into<TitanString<'a>>>(self, image: T) -> (r: Self)
        ensures
            T::obeys_into_spec() ==> r@ == (CreateScheduledEvent { image: Some(image.into_spec()), ..self@ }),
            r@ == (CreateScheduledEvent { image: r@.image, ..self@ }),
            r@.image is Some,
    {
        let mut b = self;
        b.params.image = Some(image.into());
        b
    }

    /// Set location (required for External events).
    pub fn location<T: Into<TitanString<'a>>>(self, location: T) -> (r: Self)
        ensures
            T::obeys_into_spec() ==> r@ == (CreateScheduledEvent {
                entity_metadata: Some(ScheduledEventEntityMetadata { location: Some(location.into_spec()) }),
                ..self@
            }),
            r@ == (CreateScheduledEvent { entity_metadata: r@.entity_metadata, ..self@ }),
            r@.entity_metadata matches Some(m) && m.location is Some,
    {
        let mut b = self;
        b.params.entity_metadata = Some(ScheduledEventEntityMetadata { location: Some(location.into()) });
        b
    }

    /// Build the payload.
    pub fn build(self) -> (r: CreateScheduledEvent<'a>)
        ensures
            r == self@,
    {
        self.params
    }
}

} // verus!
