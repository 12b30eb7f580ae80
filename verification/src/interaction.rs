//! Interactions (Slash Commands, Components, Modals).
use vstd::prelude::*;
use vstd::std_specs::convert::IntoSpec;
use crate::builder::interaction::InteractionResponseBuilder;
use crate::command::CommandType;
use crate::component::ComponentType;
use crate::member::GuildMember;
use crate::snowflake::Snowflake;
use crate::Message;
use crate::TitanString;
use crate::User;

verus! {

/// Incoming Interaction.
#[derive(Debug, Clone)]
pub struct Interaction<'a> {
    /// Interaction ID.
    pub id: Snowflake,
    /// Application ID.
    pub application_id: Snowflake,
    /// Type of interaction.
    pub interaction_type: InteractionType,
    /// Data payload.
    pub data: Option<InteractionData<'a>>,
    /// Guild ID.
    pub guild_id: Option<Snowflake>,
    /// Channel ID.
    pub channel_id: Option<Snowflake>,
    /// Member (if in guild).
    pub member: Option<GuildMember<'a>>,
    /// User (if in DM).
    pub user: Option<User<'a>>,
    /// Token for responding.
    pub token: String,
    /// Protocol version.
    pub version: u8,
    /// Message (primary for components).
    pub message: Option<Box<Message<'a>>>,
    /// Locale.
    pub locale: Option<TitanString<'a>>,
    /// Guild locale.
    pub guild_locale: Option<TitanString<'a>>,
}

/// Interaction Type.
#[derive(Debug, Clone, Copy, PartialEq, Eq, Structural)]
pub enum InteractionType {
    /// Ping (HTTP only).
    Ping,
    /// Application Command (Slash Command).
    ApplicationCommand,
    /// Component (Button/Select).
    MessageComponent,
    /// Autocomplete.
    ApplicationCommandAutocomplete,
    /// Modal Submit.
    ModalSubmit,
}

/// Data payload for an interaction.
#[derive(Debug, Clone)]
pub struct InteractionData<'a> {
    /// ID of the invoked command/component.
    pub id: Option<Snowflake>,
    /// Name of the invoked command.
    pub name: Option<TitanString<'a>>,
    /// Command type.
    pub command_type: Option<CommandType>,
    /// Resolved data (users/roles/channels).
    pub resolved: Option<ResolvedData<'a>>,
    /// Parameters/Options.
    pub options: Vec<InteractionDataOption<'a>>,
    /// Custom ID (for components/modals).
    pub custom_id: Option<TitanString<'a>>,
    /// Component type (for components).
    pub component_type: Option<ComponentType>,
    /// Selected values (for select menus).
    pub values: Vec<String>,
    /// Target ID (for context menus).
    pub target_id: Option<Snowflake>,
    /// Components (for modals).
    pub components: Vec<crate::json::Value>,
}

/// Resolved/Hydrated data.
#[derive(Debug, Clone)]
pub struct ResolvedData<'a> {
    /// Users map.
    pub users: std::collections::HashMap<Snowflake, User<'a>>,
    /// Members map.
    pub members: std::collections::HashMap<Snowflake, GuildMember<'a>>,
    /// Roles map.
    pub roles: std::collections::HashMap<Snowflake, crate::member::Role<'a>>,
    /// Channels map.
    pub channels: std::collections::HashMap<Snowflake, crate::Channel<'a>>,
    /// Messages map.
    pub messages: std::collections::HashMap<Snowflake, Message<'a>>,
    /// Attachments map.
    pub attachments: std::collections::HashMap<Snowflake, crate::Attachment<'a>>,
}

/// Option received in Interaction Data.
#[derive(Debug)]
pub struct InteractionDataOption<'a> {
    /// Name of the parameter.
    pub name: TitanString<'a>,
    /// Value type.
    pub option_type: crate::command::OptionType,
    /// Value (can be string, int, double, bool).
    pub value: Option<crate::json::Value>,
    /// Sub-options.
    pub options: Vec<InteractionDataOption<'a>>,
    /// Whether focused (autocomplete).
    pub focused: bool,
}

/// Response to an interaction.
#[derive(Debug, Clone)]
pub struct InteractionResponse<'a> {
    /// Response type.
    pub response_type: InteractionCallbackType,
    /// Response data.
    pub data: Option<InteractionCallbackData<'a>>,
}

/// Callback Type.
#[derive(Debug, Clone, Copy, PartialEq, Eq, Structural)]
pub enum InteractionCallbackType {
    /// Pong (HTTP).
    Pong,
    /// Channel Message With Source.
    ChannelMessageWithSource,
    /// Deferred Channel Message With Source.
    DeferredChannelMessageWithSource,
    /// Deferred Update Message (Components).
    DeferredUpdateMessage,
    /// Update Message (Components).
    UpdateMessage,
    /// Autocomplete Result.
    ApplicationCommandAutocompleteResult,
    /// Modal.
    Modal,
}

/// Callback Data.
#[derive(Debug, Clone)]
pub struct InteractionCallbackData<'a> {
    /// TTS.
    pub tts: bool,
    /// Message content.
    pub content: Option<TitanString<'a>>,
    /// Embeds.
    pub embeds: Vec<crate::Embed<'a>>,
    /// Allowed mentions.
    pub allowed_mentions: Option<crate::json::Value>,
    /// Message flags (e.g. EPHEMERAL).
    pub flags: Option<u64>,
    /// Components.
    pub components: Vec<crate::Component<'a>>,
    /// Autocomplete choices.
    pub choices: Option<Vec<InteractionDataOption<'a>>>,
    /// Attachments.
    pub attachments: Vec<crate::Attachment<'a>>,
    /// Custom ID (for Modals).
    pub custom_id: Option<TitanString<'a>>,
    /// Title (for Modals).
    pub title: Option<TitanString<'a>>,
}

/// Modal Payload.
#[derive(Debug, Clone)]
pub struct Modal<'a> {
    pub custom_id: TitanString<'a>,
    pub title: TitanString<'a>,
    pub components: Vec<crate::Component<'a>>,
}

/// The wire code of a `InteractionType`.
pub open spec fn interaction_type_code(v: InteractionType) -> u8 {
    match v {
        InteractionType::Ping => 1,
        InteractionType::ApplicationCommand => 2,
        InteractionType::MessageComponent => 3,
        InteractionType::ApplicationCommandAutocomplete => 4,
        InteractionType::ModalSubmit => 5,
    }
}

/// The value that a wire code stands for; unknown codes give `InteractionType::ApplicationCommand`.
pub open spec fn interaction_type_from_code(code: u8) -> InteractionType {
    match code {
        1 => InteractionType::Ping,
        3 => InteractionType::MessageComponent,
        4 => InteractionType::ApplicationCommandAutocomplete,
        5 => InteractionType::ModalSubmit,
        _ => InteractionType::ApplicationCommand,
    }
}

impl From<u8> for InteractionType {
    fn from(value: u8) -> (r: Self) {
        match value {
            1 => InteractionType::Ping,
            3 => InteractionType::MessageComponent,
            4 => InteractionType::ApplicationCommandAutocomplete,
            5 => InteractionType::ModalSubmit,
            _ => InteractionType::ApplicationCommand,
        }
    }
}

impl vstd::std_specs::convert::FromSpecImpl<u8> for InteractionType {
    open spec fn obeys_from_spec() -> bool {
        true
    }

    open spec fn from_spec(value: u8) -> InteractionType {
        interaction_type_from_code(value)
    }
}

impl From<InteractionType> for u8 {
    fn from(value: InteractionType) -> (r: u8) {
        match value {
            InteractionType::Ping => 1,
            InteractionType::ApplicationCommand => 2,
            InteractionType::MessageComponent => 3,
            InteractionType::ApplicationCommandAutocomplete => 4,
            InteractionType::ModalSubmit => 5,
        }
    }
}

impl vstd::std_specs::convert::FromSpecImpl<InteractionType> for u8 {
    open spec fn obeys_from_spec() -> bool {
        true
    }

    open spec fn from_spec(value: InteractionType) -> u8 {
        interaction_type_code(value)
    }
}

/// Converting a `InteractionType` to its code and back gives the same value.
pub proof fn lemma_interaction_type_code_roundtrip(v: InteractionType)
    ensures
        interaction_type_from_code(interaction_type_code(v)) == v,
{
}


/// The wire code of a `InteractionCallbackType`.
pub open spec fn interaction_callback_type_code(v: InteractionCallbackType) -> u8 {
    match v {
        InteractionCallbackType::Pong => 1,
        InteractionCallbackType::ChannelMessageWithSource => 4,
        InteractionCallbackType::DeferredChannelMessageWithSource => 5,
        InteractionCallbackType::DeferredUpdateMessage => 6,
        InteractionCallbackType::UpdateMessage => 7,
        InteractionCallbackType::ApplicationCommandAutocompleteResult => 8,
        InteractionCallbackType::Modal => 9,
    }
}

/// The value that a wire code stands for; unknown codes give `InteractionCallbackType::ChannelMessageWithSource`.
pub open spec fn interaction_callback_type_from_code(code: u8) -> InteractionCallbackType {
    match code {
        1 => InteractionCallbackType::Pong,
        5 => InteractionCallbackType::DeferredChannelMessageWithSource,
        6 => InteractionCallbackType::DeferredUpdateMessage,
        7 => InteractionCallbackType::UpdateMessage,
        8 => InteractionCallbackType::ApplicationCommandAutocompleteResult,
        9 => InteractionCallbackType::Modal,
        _ => InteractionCallbackType::ChannelMessageWithSource,
    }
}

impl From<u8> for InteractionCallbackType {
    fn from(value: u8) -> (r: Self) {
        match value {
            1 => InteractionCallbackType::Pong,
            5 => InteractionCallbackType::DeferredChannelMessageWithSource,
            6 => InteractionCallbackType::DeferredUpdateMessage,
            7 => InteractionCallbackType::UpdateMessage,
            8 => InteractionCallbackType::ApplicationCommandAutocompleteResult,
            9 => InteractionCallbackType::Modal,
            _ => InteractionCallbackType::ChannelMessageWithSource,
        }
    }
}

impl vstd::std_specs::convert::FromSpecImpl<u8> for InteractionCallbackType {
    open spec fn obeys_from_spec() -> bool {
        true
    }

    open spec fn from_spec(value: u8) -> InteractionCallbackType {
        interaction_callback_type_from_code(value)
    }
}

impl From<InteractionCallbackType> for u8 {
    fn from(value: InteractionCallbackType) -> (r: u8) {
        match value {
            InteractionCallbackType::Pong => 1,
            InteractionCallbackType::ChannelMessageWithSource => 4,
            InteractionCallbackType::DeferredChannelMessageWithSource => 5,
            InteractionCallbackType::DeferredUpdateMessage => 6,
            InteractionCallbackType::UpdateMessage => 7,
            InteractionCallbackType::ApplicationCommandAutocompleteResult => 8,
            InteractionCallbackType::Modal => 9,
        }
    }
}

impl vstd::std_specs::convert::FromSpecImpl<InteractionCallbackType> for u8 {
    open spec fn obeys_from_spec() -> bool {
        true
    }

    open spec fn from_spec(value: InteractionCallbackType) -> u8 {
        interaction_callback_type_code(value)
    }
}

/// Converting a `InteractionCallbackType` to its code and back gives the same value.
pub proof fn lemma_interaction_callback_type_code_roundtrip(v: InteractionCallbackType)
    ensures
        interaction_callback_type_from_code(interaction_callback_type_code(v)) == v,
{
}


/// Whether `b` is a copy of `a`: a clone of the name and value, the same type and focus, and,
/// one for one and in order, copies of the sub-options.
pub open spec fn data_option_copied<'a>(a: InteractionDataOption<'a>, b: InteractionDataOption<'a>) -> bool
    decreases a, 1int,
{
    &&& cloned(a.name, b.name)
    &&& b.option_type == a.option_type
    &&& cloned(a.value, b.value)
    &&& data_options_copied(a.options@, b.options@)
    &&& b.focused == a.focused
}

/// Whether `b` holds, one for one and in order, copies of the options in `a`.
pub open spec fn data_options_copied<'a>(a: Seq<InteractionDataOption<'a>>, b: Seq<InteractionDataOption<'a>>) -> bool
    decreases a, 0int,
{
    if a.len() == 0 {
        b.len() == 0
    } else {
        &&& b.len() == a.len()
        &&& data_option_copied(a.last(), b.last())
        &&& data_options_copied(a.drop_last(), b.drop_last())
    }
}

/// A copy of an interaction option, its sub-options copied in turn.
fn clone_data_option<'a>(o: &InteractionDataOption<'a>) -> (r: InteractionDataOption<'a>)
    ensures
        data_option_copied(*o, r),
    decreases o,
{
    let mut options: Vec<InteractionDataOption<'a>> = Vec::new();
    let mut i: usize = 0;
    while i < o.options.len()
        invariant
            i <= o.options.len(),
            data_options_copied(o.options@.take(i as int), options@),
        decreases o.options.len() - i,
    {
        assert(decreases_to!(o => o.options@[i as int]));
        let ghost before = options@;
        let x = clone_data_option(&o.options[i]);
        options.push(x);
        proof {
            let t = o.options@.take(i as int + 1);
            assert(t.drop_last() =~= o.options@.take(i as int));
            assert(options@.drop_last() =~= before);
            assert(t.last() == o.options@[i as int]);
        }
        i = i + 1;
    }
    assert(o.options@.take(i as int) =~= o.options@);
    InteractionDataOption {
        name: o.name.clone(),
        option_type: o.option_type,
        value: o.value.clone(),
        options,
        focused: o.focused,
    }
}

impl<'a> Clone for InteractionDataOption<'a> {
    fn clone(&self) -> (r: Self)
        ensures
            data_option_copied(*self, r),
    {
        clone_data_option(self)
    }
}

impl<'a> InteractionCallbackData<'a> {
    /// Whether nothing is set: no text-to-speech, and every other part empty.
    pub open spec fn is_blank(&self) -> bool {
        &&& !self.tts
        &&& self.content is None
        &&& self.embeds@.len() == 0
        &&& self.allowed_mentions is None
        &&& self.flags is None
        &&& self.components@.len() == 0
        &&& self.choices is None
        &&& self.attachments@.len() == 0
        &&& self.custom_id is None
        &&& self.title is None
    }
}

impl<'a> Default for InteractionCallbackData<'a> {
    fn default() -> (r: Self)
        ensures
            r.is_blank(),
    {
        InteractionCallbackData {
            tts: false,
            content: None,
            embeds: Vec::new(),
            allowed_mentions: None,
            flags: None,
            components: Vec::new(),
            choices: None,
            attachments: Vec::new(),
            custom_id: None,
            title: None,
        }
    }
}

impl<'a> InteractionResponse<'a> {
    /// A builder for a response: a message response with blank data.
    pub fn builder() -> (r: InteractionResponseBuilder<'a>)
        ensures
            r@.response_type == InteractionCallbackType::ChannelMessageWithSource,
            r@.data matches Some(d) && d.is_blank(),
    {
        InteractionResponseBuilder::new()
    }

    /// A simple reply with this content.
    pub fn reply<T: Into<TitanString<'a>>>(content: T) -> (r: InteractionResponseBuilder<'a>)
        ensures
            r@.response_type == InteractionCallbackType::ChannelMessageWithSource,
            r@.data matches Some(d) && (InteractionCallbackData { content: None, ..d }).is_blank() && d.content is Some
                && (T::obeys_into_spec() ==> d.content == Some(content.into_spec())),
    {
        Self::builder().content(content)
    }

    /// A deferred response ("thinking...").
    pub fn deferred() -> (r: InteractionResponseBuilder<'a>)
        ensures
            r@.response_type == InteractionCallbackType::DeferredChannelMessageWithSource,
            r@.data matches Some(d) && d.is_blank(),
    {
        Self::builder().kind(InteractionCallbackType::DeferredChannelMessageWithSource)
    }
}

} // verus!
