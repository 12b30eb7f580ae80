//! Message creation payloads and file uploads.
use vstd::prelude::*;
use vstd::std_specs::convert::IntoSpec;
use crate::{Component, Embed};
use crate::TitanString;

verus! {

// File Upload

/// A file to be uploaded to Discord.
#[derive(Debug, Clone)]
pub struct FileUpload {
    /// The name of the file.
    pub filename: String,
    /// The binary data of the file.
    pub data: Vec<u8>,
}

// Create Message

/// Payload to create a message.
#[derive(Debug, Clone)]
pub struct CreateMessage<'a> {
    /// Message content.
    pub content: Option<TitanString<'a>>,

    /// Pass true if sending a TTS message.
    pub tts: Option<bool>,

    /// Embeds to include.
    pub embeds: Option<Vec<Embed<'a>>>,

    /// Components to include.
    pub components: Option<Vec<Component<'a>>>,

    /// Message flags (`SUPPRESS_EMBEDS`, `SUPPRESS_NOTIFICATIONS`).
    pub flags: Option<u64>,

    /// Message reference (reply).
    pub message_reference: Option<crate::MessageReference>,

    /// Files to upload (not serialized to JSON, used by HTTP client).
    pub files: Vec<FileUpload>,
}

/// The items of an optional list; none when the list is absent.
pub open spec fn listed<T>(o: Option<Vec<T>>) -> Seq<T> {
    match o {
        Some(v) => v@,
        None => Seq::empty(),
    }
}

/// `o` with `item` appended, starting a new list when there was none.
pub fn push_listed<T>(o: Option<Vec<T>>, item: T) -> (r: Option<Vec<T>>)
    ensures
        r is Some,
        listed(r) == listed(o).push(item),
{
    match o {
        Some(v) => {
            let mut v = v;
            v.push(item);
            Some(v)
        },
        None => {
            let mut v = Vec::new();
            v.push(item);
            Some(v)
        },
    }
}

impl FileUpload {
    /// Create a new FileUpload.
    pub fn new<T: Into<String>, U: Into<Vec<u8>>>(filename: T, data: U) -> (r: Self)
        ensures
            T::obeys_into_spec() ==> r.filename == filename.into_spec(),
            U::obeys_into_spec() ==> r.data == data.into_spec(),
    {
        FileUpload { filename: filename.into(), data: data.into() }
    }
}

impl<'a> CreateMessage<'a> {
    /// Whether nothing is set and no file is attached.
    pub open spec fn is_blank(&self) -> bool {
        &&& self.content is None
        &&& self.tts is None
        &&& self.embeds is None
        &&& self.components is None
        &&& self.flags is None
        &&& self.message_reference is None
        &&& self.files@.len() == 0
    }

    /// A message with this text content and nothing else.
    pub fn new<T: Into<String>>(content: T) -> (r: Self)
        ensures
            (CreateMessage { content: None, ..r }).is_blank(),
            r.content matches Some(TitanString::Owned(s)) && (T::obeys_into_spec() ==> s == content.into_spec()),
    {
        let s: String = content.into();
        CreateMessage {
            content: Some(TitanString::Owned(s)),
            tts: None,
            embeds: None,
            components: None,
            flags: None,
            message_reference: None,
            files: Vec::new(),
        }
    }

    /// Add an embed.
    pub fn embed(self, embed: Embed<'a>) -> (r: Self)
        ensures
            r.embeds is Some,
            listed(r.embeds) == listed(self.embeds).push(embed),
            r == (CreateMessage { embeds: r.embeds, ..self }),
    {
        let mut m = self;
        let embeds = m.embeds;
        m.embeds = push_listed(embeds, embed);
        m
    }

    /// Add a component.
    pub fn component(self, component: Component<'a>) -> (r: Self)
        ensures
            r.components is Some,
            listed(r.components) == listed(self.components).push(component),
            r == (CreateMessage { components: r.components, ..self }),
    {
        let mut m = self;
        let components = m.components;
        m.components = push_listed(components, component);
        m
    }
}

impl<'a> Default for CreateMessage<'a> {
    fn default() -> (r: Self)
        ensures
            r.is_blank(),
    {
        CreateMessage {
            content: None,
            tts: None,
            embeds: None,
            components: None,
            flags: None,
            message_reference: None,
            files: Vec::new(),
        }
    }
}

} // verus!
