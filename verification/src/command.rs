//! Application Commands (Slash Commands).
use vstd::prelude::*;
use vstd::std_specs::convert::IntoSpec;
use crate::builder::command::CommandBuilder;
use crate::snowflake::Snowflake;
use crate::TitanString;

verus! {

/// Application command structure.
#[derive(Debug, Clone)]
pub struct ApplicationCommand {
    /// Unique ID of the command.
    pub id: Option<Snowflake>,
    /// Type of command.
    pub command_type: Option<CommandType>,
    /// Application ID.
    pub application_id: Option<Snowflake>,
    /// Guild ID (if guild-specific).
    pub guild_id: Option<Snowflake>,
    /// Name of the command (1-32 chars).
    pub name: String,
    /// Description (1-100 characters).
    pub description: String,
    /// Parameters for the command.
    pub options: Vec<CommandOption>,
    /// Default Permissions.
    pub default_member_permissions: Option<String>,
    /// Whether usable in DMs.
    pub dm_permission: Option<bool>,
    /// Whether unsafe for age-gated users.
    pub nsfw: bool,
    /// Version ID.
    pub version: Option<Snowflake>,
}

/// Type of Application Command.
#[derive(Debug, Clone, Copy, PartialEq, Eq, Structural)]
pub enum CommandType {
    /// Slash Command (Chat Input).
    ChatInput,
    /// User Context Menu.
    User,
    /// Message Context Menu.
    Message,
}

/// Option for a command.
#[derive(Debug)]
pub struct CommandOption {
    /// Type of option.
    pub option_type: OptionType,
    /// Name (1-32 chars).
    pub name: String,
    /// Description (1-100 chars).
    pub description: String,
    /// Whether required.
    pub required: bool,
    /// Choices (for string/int/number).
    pub choices: Vec<CommandChoice>,
    /// Sub-options (for SubCommand/SubCommandGroup).
    pub options: Vec<CommandOption>,
    /// Channel types specific.
    pub channel_types: Vec<u8>,
    /// Min value (int/number).
    pub min_value: Option<crate::json::Value>,
    /// Max value (int/number).
    pub max_value: Option<crate::json::Value>,
    /// Min length (string).
    pub min_length: Option<u16>,
    /// Max length (string).
    pub max_length: Option<u16>,
    /// Whether to autocomplete.
    pub autocomplete: bool,
}

/// Type of command option.
#[derive(Debug, Clone, Copy, PartialEq, Eq, Structural)]
pub enum OptionType {
    SubCommand,
    SubCommandGroup,
    String,
    Integer,
    Boolean,
    User,
    Channel,
    Role,
    Mentionable,
    Number,
    Attachment,
}

/// Command Choice.
#[derive(Debug, Clone)]
pub struct CommandChoice {
    /// Choice name.
    pub name: String,
    /// Choice value (string/int/double).
    pub value: crate::json::Value,
}

/// The wire code of a `CommandType`.
pub open spec fn command_type_code(v: CommandType) -> u8 {
    match v {
        CommandType::ChatInput => 1,
        CommandType::User => 2,
        CommandType::Message => 3,
    }
}

/// The value that a wire code stands for; unknown codes give `CommandType::ChatInput`.
pub open spec fn command_type_from_code(code: u8) -> CommandType {
    match code {
        2 => CommandType::User,
        3 => CommandType::Message,
        _ => CommandType::ChatInput,
    }
}

impl From<u8> for CommandType {
    fn from(value: u8) -> (r: Self) {
        match value {
            2 => CommandType::User,
            3 => CommandType::Message,
            _ => CommandType::ChatInput,
        }
    }
}

impl vstd::std_specs::convert::FromSpecImpl<u8> for CommandType {
    open spec fn obeys_from_spec() -> bool {
        true
    }

    open spec fn from_spec(value: u8) -> CommandType {
        command_type_from_code(value)
    }
}

impl From<CommandType> for u8 {
    fn from(value: CommandType) -> (r: u8) {
        match value {
            CommandType::ChatInput => 1,
            CommandType::User => 2,
            CommandType::Message => 3,
        }
    }
}

impl vstd::std_specs::convert::FromSpecImpl<CommandType> for u8 {
    open spec fn obeys_from_spec() -> bool {
        true
    }

    open spec fn from_spec(value: CommandType) -> u8 {
        command_type_code(value)
    }
}

/// Converting a `CommandType` to its code and back gives the same value.
pub proof fn lemma_command_type_code_roundtrip(v: CommandType)
    ensures
        command_type_from_code(command_type_code(v)) == v,
{
}


/// The wire code of a `OptionType`.
pub open spec fn option_type_code(v: OptionType) -> u8 {
    match v {
        OptionType::SubCommand => 1,
        OptionType::SubCommandGroup => 2,
        OptionType::String => 3,
        OptionType::Integer => 4,
        OptionType::Boolean => 5,
        OptionType::User => 6,
        OptionType::Channel => 7,
        OptionType::Role => 8,
        OptionType::Mentionable => 9,
        OptionType::Number => 10,
        OptionType::Attachment => 11,
    }
}

/// The value that a wire code stands for; unknown codes give `OptionType::String`.
pub open spec fn option_type_from_code(code: u8) -> OptionType {
    match code {
        1 => OptionType::SubCommand,
        2 => OptionType::SubCommandGroup,
        4 => OptionType::Integer,
        5 => OptionType::Boolean,
        6 => OptionType::User,
        7 => OptionType::Channel,
        8 => OptionType::Role,
        9 => OptionType::Mentionable,
        10 => OptionType::Number,
        11 => OptionType::Attachment,
        _ => OptionType::String,
    }
}

impl From<u8> for OptionType {
    fn from(value: u8) -> (r: Self) {
        match value {
            1 => OptionType::SubCommand,
            2 => OptionType::SubCommandGroup,
            4 => OptionType::Integer,
            5 => OptionType::Boolean,
            6 => OptionType::User,
            7 => OptionType::Channel,
            8 => OptionType::Role,
            9 => OptionType::Mentionable,
            10 => OptionType::Number,
            11 => OptionType::Attachment,
            _ => OptionType::String,
        }
    }
}

impl vstd::std_specs::convert::FromSpecImpl<u8> for OptionType {
    open spec fn obeys_from_spec() -> bool {
        true
    }

    open spec fn from_spec(value: u8) -> OptionType {
        option_type_from_code(value)
    }
}

impl From<OptionType> for u8 {
    fn from(value: OptionType) -> (r: u8) {
        match value {
            OptionType::SubCommand => 1,
            OptionType::SubCommandGroup => 2,
            OptionType::String => 3,
            OptionType::Integer => 4,
            OptionType::Boolean => 5,
            OptionType::User => 6,
            OptionType::Channel => 7,
            OptionType::Role => 8,
            OptionType::Mentionable => 9,
            OptionType::Number => 10,
            OptionType::Attachment => 11,
        }
    }
}

impl vstd::std_specs::convert::FromSpecImpl<OptionType> for u8 {
    open spec fn obeys_from_spec() -> bool {
        true
    }

    open spec fn from_spec(value: OptionType) -> u8 {
        option_type_code(value)
    }
}

/// Converting a `OptionType` to its code and back gives the same value.
pub proof fn lemma_option_type_code_roundtrip(v: OptionType)
    ensures
        option_type_from_code(option_type_code(v)) == v,
{
}


/// Whether `b` is a copy of `a`: the same type, name, description, flags, limits and channel
/// types, clones of the choices and bounds, and, one for one and in order, copies of the
/// sub-options.
pub open spec fn command_option_copied(a: CommandOption, b: CommandOption) -> bool
    decreases a, 1int,
{
    &&& b.option_type == a.option_type
    &&& b.name@ == a.name@
    &&& b.description@ == a.description@
    &&& b.required == a.required
    &&& cloned(a.choices, b.choices)
    &&& command_options_copied(a.options@, b.options@)
    &&& b.channel_types@ == a.channel_types@
    &&& cloned(a.min_value, b.min_value)
    &&& cloned(a.max_value, b.max_value)
    &&& b.min_length == a.min_length
    &&& b.max_length == a.max_length
    &&& b.autocomplete == a.autocomplete
}

/// Whether `b` holds, one for one and in order, copies of the options in `a`.
pub open spec fn command_options_copied(a: Seq<CommandOption>, b: Seq<CommandOption>) -> bool
    decreases a, 0int,
{
    if a.len() == 0 {
        b.len() == 0
    } else {
        &&& b.len() == a.len()
        &&& command_option_copied(a.last(), b.last())
        &&& command_options_copied(a.drop_last(), b.drop_last())
    }
}

/// A copy of a command option, its sub-options copied in turn.
fn clone_command_option(o: &CommandOption) -> (r: CommandOption)
    ensures
        command_option_copied(*o, r),
    decreases o,
{
    let mut options: Vec<CommandOption> = Vec::new();
    let mut i: usize = 0;
    while i < o.options.len()
        invariant
            i <= o.options.len(),
            command_options_copied(o.options@.take(i as int), options@),
        decreases o.options.len() - i,
    {
        assert(decreases_to!(o => o.options@[i as int]));
        let ghost before = options@;
        let x = clone_command_option(&o.options[i]);
        options.push(x);
        proof {
            let t = o.options@.take(i as int + 1);
            assert(t.drop_last() =~= o.options@.take(i as int));
            assert(options@.drop_last() =~= before);
            assert(t.last() == o.options@[i as int]);
        }
        i = i + 1;
    }
    assert(o.options@.take(i as int) =~= o.options@);
    let channel_types = o.channel_types.clone();
    assert(channel_types@ =~= o.channel_types@);
    CommandOption {
        option_type: o.option_type,
        name: o.name.clone(),
        description: o.description.clone(),
        required: o.required,
        choices: o.choices.clone(),
        options,
        channel_types,
        min_value: o.min_value.clone(),
        max_value: o.max_value.clone(),
        min_length: o.min_length,
        max_length: o.max_length,
        autocomplete: o.autocomplete,
    }
}

impl Clone for CommandOption {
    fn clone(&self) -> (r: Self)
        ensures
            command_option_copied(*self, r),
    {
        clone_command_option(self)
    }
}

impl ApplicationCommand {
    /// A builder for a slash command with this name and description.
    pub fn builder<'a, T: Into<TitanString<'a>>, U: Into<TitanString<'a>>>(name: T, description: U) -> (r: CommandBuilder<'a>)
        ensures
            T::obeys_into_spec() ==> r.name == name.into_spec(),
            U::obeys_into_spec() ==> r.description == Some(description.into_spec()),
            r.description is Some,
            r.name_localizations is None,
            r.description_localizations is None,
            r.default_member_permissions is None,
            r.dm_permission is None,
            r.kind == Some(CommandType::ChatInput),
            r.nsfw is None,
    {
        CommandBuilder::new(name, description)
    }
}

} // verus!
