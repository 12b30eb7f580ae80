//! The message builder.
use vstd::prelude::*;
use vstd::std_specs::convert::IntoSpec;
use crate::create_message::{listed, push_listed, FileUpload};
use crate::{Component, CreateMessage, Embed, MessageReference, Snowflake, TitanString};

verus! {

/// Builder for creating a Message.
#[derive(Debug, Clone, Default)]
pub struct MessageBuilder<'a> {
    message: CreateMessage<'a>,
}

impl<'a> View for MessageBuilder<'a> {
    type V = CreateMessage<'a>;

    /// The message built so far.
    closed spec fn view(&self) -> CreateMessage<'a> {
        self.message
    }
}

impl<'a> MessageBuilder<'a> {
    /// Create a new MessageBuilder.
    pub fn new() -> (r: Self)
        ensures
            r@.is_blank(),
    {
        MessageBuilder { message: CreateMessage::default() }
    }

    /// Create a message with just text content.
    pub fn text<T: Into<TitanString<'a>>>(content: T) -> (r: Self)
        ensures
            T::obeys_into_spec() ==> r@.content == Some(content.into_spec()),
            r@.content is Some,
            (CreateMessage { content: None, ..r@ }).is_blank(),
    {
        Self::new().content(content)
    }

    /// Set the content of the message.
    pub fn content<T: Into<TitanString<'a>>>(self, content: T) -> (r: Self)
        ensures
            T::obeys_into_spec() ==> r@ == (CreateMessage { content: Some(content.into_spec()), ..self@ }),
            r@ == (CreateMessage { content: r@.content, ..self@ }),
            r@.content is Some,
    {
        let mut b = self;
        b.message.content = Some(content.into());
        b
    }

    /// Enable/disable TTS.
    pub fn tts(self, tts: bool) -> (r: Self)
        ensures
            r@ == (CreateMessage { tts: Some(tts), ..self@ }),
    {
        let mut b = self;
        b.message.tts = Some(tts);
        b
    }

    /// Reply to a message (sets `message_reference`); the reply fails if the message is gone.
    pub fn reply<T: Into<Snowflake>>(self, message_id: T) -> (r: Self)
        ensures
            T::obeys_into_spec() ==> r@ == (CreateMessage {
                message_reference: Some(MessageReference {
                    message_id: Some(message_id.into_spec()),
                    channel_id: None,
                    guild_id: None,
                    fail_if_not_exists: Some(true),
                }),
                ..self@
            }),
            r@ == (CreateMessage { message_reference: r@.message_reference, ..self@ }),
            r@.message_reference matches Some(m) && m.message_id is Some && m.channel_id is None
                && m.guild_id is None && m.fail_if_not_exists == Some(true),
    {
        let mut b = self;
        b.message.message_reference = Some(MessageReference {
            message_id: Some(message_id.into()),
            channel_id: None,
            guild_id: None,
            fail_if_not_exists: Some(true),
        });
        b
    }

    /// Add an embed to the message.
    pub fn embed<T: Into<Embed<'a>>>(self, embed: T) -> (r: Self)
        ensures
            T::obeys_into_spec() ==> listed(r@.embeds) == listed(self@.embeds).push(embed.into_spec()),
            listed(r@.embeds).len() == listed(self@.embeds).len() + 1,
            listed(r@.embeds).drop_last() == listed(self@.embeds),
            r@.embeds is Some,
            r@ == (CreateMessage { embeds: r@.embeds, ..self@ }),
    {
        let mut b = self;
        let embeds = b.message.embeds;
        b.message.embeds = push_listed(embeds, embed.into());
        b
    }

    /// Add multiple embeds.
    pub fn embeds(self, embeds: Vec<Embed<'a>>) -> (r: Self)
        ensures
            r@.embeds is Some,
            listed(r@.embeds) == listed(self@.embeds) + embeds@,
            r@ == (CreateMessage { embeds: r@.embeds, ..self@ }),
    {
        let mut b = self;
        let existing = b.message.embeds;
        let mut more = embeds;
        match existing {
            Some(v) => {
                let mut v = v;
                v.append(&mut more);
                b.message.embeds = Some(v);
            },
            None => {
                assert(Seq::<Embed<'a>>::empty() + more@ =~= more@);
                b.message.embeds = Some(more);
            },
        }
        b
    }

    /// Add a component (`ActionRow`, etc.) to the message.
    pub fn component<T: Into<Component<'a>>>(self, component: T) -> (r: Self)
        ensures
            T::obeys_into_spec() ==> listed(r@.components) == listed(self@.components).push(component.into_spec()),
            listed(r@.components).len() == listed(self@.components).len() + 1,
            listed(r@.components).drop_last() == listed(self@.components),
            r@.components is Some,
            r@ == (CreateMessage { components: r@.components, ..self@ }),
    {
        let mut b = self;
        let components = b.message.components;
        b.message.components = push_listed(components, component.into());
        b
    }

    /// Add a file to upload.
    pub fn add_file<T: Into<TitanString<'a>>, U: Into<Vec<u8>>>(self, filename: T, data: U) -> (r: Self)
        ensures
            r@.files@.len() == self@.files@.len() + 1,
            r@.files@.drop_last() == self@.files@,
            T::obeys_into_spec() ==> r@.files@.last().filename@ == filename.into_spec()@,
            U::obeys_into_spec() ==> r@.files@.last().data == data.into_spec(),
            r@ == (CreateMessage { files: r@.files, ..self@ }),
    {
        let mut b = self;
        let name: TitanString<'a> = filename.into();
        b.message.files.push(FileUpload { filename: name.into_owned(), data: data.into() });
        b
    }

    /// Build the `CreateMessage` payload.
    pub fn build(self) -> (r: CreateMessage<'a>)
        ensures
            r == self@,
    {
        self.message
    }
}

impl<'a> From<MessageBuilder<'a>> for CreateMessage<'a> {
    fn from(builder: MessageBuilder<'a>) -> (r: Self) {
        builder.build()
    }
}

impl<'a> vstd::std_specs::convert::FromSpecImpl<MessageBuilder<'a>> for CreateMessage<'a> {
    open spec fn obeys_from_spec() -> bool {
        true
    }

    open spec fn from_spec(builder: MessageBuilder<'a>) -> CreateMessage<'a> {
        builder@
    }
}

impl From<String> for CreateMessage<'static> {
    /// A message with this text content and nothing else.
    fn from(content: String) -> (r: Self)
        ensures
            r.content == Some(TitanString::<'static>::Owned(content)),
            (CreateMessage { content: None, ..r }).is_blank(),
    {
        MessageBuilder::text(content).build()
    }
}

impl vstd::std_specs::convert::FromSpecImpl<String> for CreateMessage<'static> {
    /// The message holds a vector, which no closed-form value can name; the conversion's own
    /// `ensures` states what it gives.
    open spec fn obeys_from_spec() -> bool {
        false
    }

    open spec fn from_spec(content: String) -> CreateMessage<'static> {
        arbitrary()
    }
}

impl<'a> From<&'a str> for CreateMessage<'a> {
    /// A message with this text content and nothing else.
    fn from(content: &'a str) -> (r: Self)
        ensures
            r.content == Some(TitanString::Borrowed(content)),
            (CreateMessage { content: None, ..r }).is_blank(),
    {
        MessageBuilder::text(content).build()
    }
}

impl<'a> vstd::std_specs::convert::FromSpecImpl<&'a str> for CreateMessage<'a> {
    /// The message holds a vector, which no closed-form value can name; the conversion's own
    /// `ensures` states what it gives.
    open spec fn obeys_from_spec() -> bool {
        false
    }

    open spec fn from_spec(content: &'a str) -> CreateMessage<'a> {
        arbitrary()
    }
}

} // verus!
