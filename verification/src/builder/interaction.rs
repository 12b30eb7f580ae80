//! Builders for interaction responses and modals.
use vstd::prelude::*;
use vstd::std_specs::convert::IntoSpec;
use crate::builder::component::ActionRowBuilder;
use crate::interaction::{InteractionCallbackData, InteractionCallbackType, InteractionResponse, Modal};
use crate::{Component, Embed, TitanString};

verus! {

/// The message flag that makes a response visible to its invoker only.
pub const EPHEMERAL_FLAG: u64 = 64;

/// Whether `base` is what a response's data starts from: the data itself when there is
/// some, else blank data.
pub open spec fn data_base<'a>(o: Option<InteractionCallbackData<'a>>, base: InteractionCallbackData<'a>) -> bool {
    match o {
        Some(d) => base == d,
        None => base.is_blank(),
    }
}

/// The data of a response, or blank data when there is none.
fn data_or_default<'a>(o: Option<InteractionCallbackData<'a>>) -> (r: InteractionCallbackData<'a>)
    ensures
        data_base(o, r),
{
    match o {
        Some(d) => d,
        None => InteractionCallbackData::default(),
    }
}

/// Builder for creating a Modal.
#[derive(Debug, Clone)]
pub struct ModalBuilder<'a> {
    custom_id: TitanString<'a>,
    title: TitanString<'a>,
    components: Vec<Component<'a>>,
}

impl<'a> View for ModalBuilder<'a> {
    type V = Modal<'a>;

    /// The modal built so far.
    closed spec fn view(&self) -> Modal<'a> {
        Modal { custom_id: self.custom_id, title: self.title, components: self.components }
    }
}

impl<'a> ModalBuilder<'a> {
    /// Create a modal with an ID and a title and no rows.
    pub fn new<T: Into<TitanString<'a>>, U: Into<TitanString<'a>>>(custom_id: T, title: U) -> (r: Self)
        ensures
            T::obeys_into_spec() ==> r@.custom_id == custom_id.into_spec(),
            U::obeys_into_spec() ==> r@.title == title.into_spec(),
            r@.components@.len() == 0,
    {
        ModalBuilder { custom_id: custom_id.into(), title: title.into(), components: Vec::new() }
    }

    /// Add a row.
    pub fn row(self, row: ActionRowBuilder<'a>) -> (r: Self)
        ensures
            r@.components@ == self@.components@.push(Component::ActionRow(row@)),
            r@.custom_id == self@.custom_id,
            r@.title == self@.title,
    {
        let mut b = self;
        b.components.push(row.build());
        b
    }

    /// Build the modal.
    pub fn build(self) -> (r: Modal<'a>)
        ensures
            r == self@,
    {
        Modal { custom_id: self.custom_id, title: self.title, components: self.components }
    }
}

/// Builder for Interaction Response.
#[derive(Debug, Clone)]
pub struct InteractionResponseBuilder<'a> {
    response: InteractionResponse<'a>,
}

impl<'a> View for InteractionResponseBuilder<'a> {
    type V = InteractionResponse<'a>;

    /// The response built so far.
    closed spec fn view(&self) -> InteractionResponse<'a> {
        self.response
    }
}

impl<'a> Default for InteractionResponseBuilder<'a> {
    fn default() -> (r: Self)
        ensures
            r@.response_type == InteractionCallbackType::ChannelMessageWithSource,
            r@.data matches Some(d) && d.is_blank(),
    {
        Self::new()
    }
}

impl<'a> InteractionResponseBuilder<'a> {
    /// Create a new builder: a message response with blank data.
    pub fn new() -> (r: Self)
        ensures
            r@.response_type == InteractionCallbackType::ChannelMessageWithSource,
            r@.data matches Some(d) && d.is_blank(),
    {
        InteractionResponseBuilder {
            response: InteractionResponse {
                response_type: InteractionCallbackType::ChannelMessageWithSource,
                data: Some(InteractionCallbackData::default()),
            },
        }
    }

    /// Set the response type.
    pub fn kind(self, kind: InteractionCallbackType) -> (r: Self)
        ensures
            r@ == (InteractionResponse { response_type: kind, ..self@ }),
    {
        let mut b = self;
        b.response.response_type = kind;
        b
    }

    /// Set the content; a response without data is left unchanged.
    pub fn content<T: Into<TitanString<'a>>>(self, content: T) -> (r: Self)
        ensures
            self@.data is None ==> r@ == self@,
            r@.response_type == self@.response_type,
            self@.data matches Some(d0) ==> (r@.data matches Some(d) && d == (InteractionCallbackData {
                content: d.content,
                ..d0
            }) && d.content is Some && (T::obeys_into_spec() ==> d.content == Some(content.into_spec()))),
    {
        let mut b = self;
        let data = b.response.data;
        match data {
            Some(d) => {
                let mut d = d;
                d.content = Some(content.into());
                b.response.data = Some(d);
            },
            None => {
                b.response.data = None;
            },
        }
        b
    }

    /// Add an embed, starting blank data when there is none.
    pub fn embed<T: Into<Embed<'a>>>(self, embed: T) -> (r: Self)
        ensures
            r@.response_type == self@.response_type,
            r@.data matches Some(d) && (exists|base: InteractionCallbackData<'a>| #[trigger] data_base(self@.data, base)
                && d == (InteractionCallbackData { embeds: d.embeds, ..base })
                && d.embeds@.len() == base.embeds@.len() + 1
                && d.embeds@.drop_last() == base.embeds@
                && (T::obeys_into_spec() ==> d.embeds@.last() == embed.into_spec())),
    {
        let mut b = self;
        let data = b.response.data;
        let mut d = data_or_default(data);
        let ghost base = d;
        d.embeds.push(embed.into());
        assert(data_base(self@.data, base));
        b.response.data = Some(d);
        b
    }

    /// Add a component, starting blank data when there is none.
    pub fn component<T: Into<Component<'a>>>(self, component: T) -> (r: Self)
        ensures
            r@.response_type == self@.response_type,
            r@.data matches Some(d) && (exists|base: InteractionCallbackData<'a>| #[trigger] data_base(self@.data, base)
                && d == (InteractionCallbackData { components: d.components, ..base })
                && d.components@.len() == base.components@.len() + 1
                && d.components@.drop_last() == base.components@
                && (T::obeys_into_spec() ==> d.components@.last() == component.into_spec())),
    {
        let mut b = self;
        let data = b.response.data;
        let mut d = data_or_default(data);
        let ghost base = d;
        d.components.push(component.into());
        assert(data_base(self@.data, base));
        b.response.data = Some(d);
        b
    }

    /// Add several components, starting blank data when there is none.
    pub fn components(self, components: Vec<Component<'a>>) -> (r: Self)
        ensures
            r@.response_type == self@.response_type,
            r@.data matches Some(d) && (exists|base: InteractionCallbackData<'a>| #[trigger] data_base(self@.data, base)
                && d == (InteractionCallbackData { components: d.components, ..base })
                && d.components@ == base.components@ + components@),
    {
        let mut b = self;
        let data = b.response.data;
        let mut d = data_or_default(data);
        let ghost base = d;
        let mut more = components;
        d.components.append(&mut more);
        assert(data_base(self@.data, base));
        b.response.data = Some(d);
        b
    }

    /// Make the response ephemeral (visible to the invoker only); `false` changes nothing.
    pub fn ephemeral(self, ephemeral: bool) -> (r: Self)
        ensures
            !ephemeral ==> r@ == self@,
            ephemeral ==> r@.response_type == self@.response_type,
            ephemeral ==> (r@.data matches Some(d) && (exists|base: InteractionCallbackData<'a>|
                #[trigger] data_base(self@.data, base)
                && d == (InteractionCallbackData { flags: Some(EPHEMERAL_FLAG), ..base }))),
    {
        if ephemeral {
            let mut b = self;
            let data = b.response.data;
            let mut d = data_or_default(data);
            let ghost base = d;
            d.flags = Some(EPHEMERAL_FLAG);
            assert(data_base(self@.data, base));
            b.response.data = Some(d);
            b
        } else {
            self
        }
    }

    /// A deferred message response ("thinking..."), ephemeral when asked.
    pub fn deferred(self, ephemeral: bool) -> (r: Self)
        ensures
            r@.response_type == InteractionCallbackType::DeferredChannelMessageWithSource,
            !ephemeral ==> r@.data == self@.data,
            ephemeral ==> (r@.data matches Some(d) && (exists|base: InteractionCallbackData<'a>|
                #[trigger] data_base(self@.data, base)
                && d == (InteractionCallbackData { flags: Some(EPHEMERAL_FLAG), ..base }))),
    {
        let b = self.kind(InteractionCallbackType::DeferredChannelMessageWithSource);
        if ephemeral {
            b.ephemeral(true)
        } else {
            b
        }
    }

    /// Update the message that the component was on.
    pub fn update_message(self) -> (r: Self)
        ensures
            r@ == (InteractionResponse { response_type: InteractionCallbackType::UpdateMessage, ..self@ }),
    {
        self.kind(InteractionCallbackType::UpdateMessage)
    }

    /// Respond with a modal: the data becomes the modal's ID, title and rows.
    pub fn modal(self, modal: Modal<'a>) -> (r: Self)
        ensures
            r@.response_type == InteractionCallbackType::Modal,
            r@.data matches Some(d) && (exists|base: InteractionCallbackData<'a>| #[trigger] base.is_blank()
                && d == (InteractionCallbackData {
                custom_id: Some(modal.custom_id),
                title: Some(modal.title),
                components: modal.components,
                ..base
            })),
    {
        let mut b = self;
        let mut d = InteractionCallbackData::default();
        let ghost base = d;
        d.custom_id = Some(modal.custom_id);
        d.title = Some(modal.title);
        d.components = modal.components;
        assert(base.is_blank());
        b.response.response_type = InteractionCallbackType::Modal;
        b.response.data = Some(d);
        b
    }

    /// Build the response.
    pub fn build(self) -> (r: InteractionResponse<'a>)
        ensures
            r == self@,
    {
        self.response
    }
}

impl<'a> From<InteractionResponseBuilder<'a>> for InteractionResponse<'a> {
    fn from(builder: InteractionResponseBuilder<'a>) -> (r: Self) {
        builder.build()
    }
}

impl<'a> vstd::std_specs::convert::FromSpecImpl<InteractionResponseBuilder<'a>> for InteractionResponse<'a> {
    open spec fn obeys_from_spec() -> bool {
        true
    }

    open spec fn from_spec(builder: InteractionResponseBuilder<'a>) -> InteractionResponse<'a> {
        builder@
    }
}

} // verus!
