//! The application command builder.
use vstd::prelude::*;
use vstd::std_specs::convert::IntoSpec;
use crate::command::CommandType;
use crate::TitanString;
use std::collections::HashMap;

verus! {

/// Builder for creating an Application Command (Slash Command).
#[derive(Debug, Clone)]
pub struct CommandBuilder<'a> {
    pub name: TitanString<'a>,
    pub name_localizations: Option<HashMap<String, String>>,
    pub description: Option<TitanString<'a>>,
    pub description_localizations: Option<HashMap<String, String>>,
    pub default_member_permissions: Option<TitanString<'a>>,
    pub dm_permission: Option<bool>,
    pub kind: Option<CommandType>,
    pub nsfw: Option<bool>,
}

impl<'a> CommandBuilder<'a> {
    /// A slash (chat input) command with a name and a description.
    pub fn new<T: Into<TitanString<'a>>, U: Into<TitanString<'a>>>(name: T, description: U) -> (r: Self)
        ensures
            T::obeys_into_spec() ==> r.name == name.into_spec(),
            U::obeys_into_spec() ==> r.description == Some(description.into_spec()),
            r.description is Some,
            r.name_localizations is None,
            r.description_localizations is None,
            r.default_member_permissions is None,
            r.dm_permission is None,
            r.kind == Some(CommandType::ChatInput),
            r.nsfw is None,
    {
        CommandBuilder {
            name: name.into(),
            description: Some(description.into()),
            name_localizations: None,
            description_localizations: None,
            default_member_permissions: None,
            dm_permission: None,
            kind: Some(CommandType::ChatInput),
            nsfw: None,
        }
    }

    /// The command itself: the builder is its own payload.
    pub fn build(self) -> (r: Self)
        ensures
            r == self,
    {
        self
    }
}

} // verus!
