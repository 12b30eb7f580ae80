//! Emoji payloads and their builders.
use vstd::prelude::*;
use vstd::std_specs::convert::IntoSpec;
use crate::Snowflake;

verus! {

/// Payload for creating an emoji.
#[derive(Debug, Clone, Default)]
pub struct CreateEmoji {
    pub name: String,
    /// Image as a data URI.
    pub image: String,
    pub roles: Vec<Snowflake>,
}

/// Builder for creating an Emoji.
#[derive(Debug, Clone)]
pub struct CreateEmojiBuilder {
    params: CreateEmoji,
}

impl View for CreateEmojiBuilder {
    type V = CreateEmoji;

    /// The payload built so far.
    closed spec fn view(&self) -> CreateEmoji {
        self.params
    }
}

impl CreateEmojiBuilder {
    /// Create a new CreateEmojiBuilder; `image_data` is a data URI (e.g. "data:image/jpeg;base64,...").
    pub fn new<T: Into<String>, U: Into<String>>(name: T, image_data: U) -> (r: Self)
        ensures
            T::obeys_into_spec() && U::obeys_into_spec() ==> r@ == (CreateEmoji { name: name.into_spec(), image: image_data.into_spec(), roles: r@.roles }),
            r@ == (CreateEmoji { name: r@.name, image: r@.image, roles: r@.roles }),
            r@.roles@.len() == 0,
    {
        CreateEmojiBuilder {
            params: CreateEmoji {
                name: name.into(),
                image: image_data.into(),
                roles: Vec::new(),
            },
        }
    }

    /// Add a role that can use this emoji.
    pub fn role<T: Into<Snowflake>>(self, role_id: T) -> (r: Self)
        ensures
            T::obeys_into_spec() ==> r@.roles@ == self@.roles@.push(role_id.into_spec()),
            r@.roles@.len() == self@.roles@.len() + 1,
            r@.roles@.drop_last() == self@.roles@,
            r@ == (CreateEmoji { roles: r@.roles, ..self@ }),
    {
        let mut b = self;
        b.params.roles.push(role_id.into());
        b
    }

    /// Build the CreateEmoji payload.
    pub fn build(self) -> (r: CreateEmoji)
        ensures
            r == self@,
    {
        self.params
    }
}

/// Payload for modifying an emoji.
#[derive(Debug, Clone, Default)]
pub struct ModifyEmoji {
    pub name: Option<String>,
    pub roles: Option<Vec<Snowflake>>,
}

/// Builder for modifying an Emoji.
#[derive(Debug, Clone, Default)]
pub struct ModifyEmojiBuilder {
    params: ModifyEmoji,
}

impl View for ModifyEmojiBuilder {
    type V = ModifyEmoji;

    /// The payload built so far.
    closed spec fn view(&self) -> ModifyEmoji {
        self.params
    }
}

impl ModifyEmojiBuilder {
    /// Create a new ModifyEmojiBuilder.
    pub fn new() -> (r: Self)
        ensures
            r@ == (ModifyEmoji { name: None, roles: None }),
    {
        ModifyEmojiBuilder { params: ModifyEmoji { name: None, roles: None } }
    }

    /// Set name.
    pub fn name<T: Into<String>>(self, name: T) -> (r: Self)
        ensures
            T::obeys_into_spec() ==> r@ == (ModifyEmoji { name: Some(name.into_spec()), ..self@ }),
            r@ == (ModifyEmoji { name: r@.name, ..self@ }),
            r@.name is Some,
    {
        let mut b = self;
        b.params.name = Some(name.into());
        b
    }

    /// Set roles.
    pub fn roles(self, roles: Vec<Snowflake>) -> (r: Self)
        ensures
            r@ == (ModifyEmoji { roles: Some(roles), ..self@ }),
    {
        let mut b = self;
        b.params.roles = Some(roles);
        b
    }

    /// Build the ModifyEmoji payload.
    pub fn build(self) -> (r: ModifyEmoji)
        ensures
            r == self@,
    {
        self.params
    }
}

} // verus!
