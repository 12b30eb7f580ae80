//! Role creation payload and its builder.
use vstd::prelude::*;
use vstd::std_specs::convert::IntoSpec;
use crate::TitanString;

verus! {

/// Payload for creating a role.
#[derive(Debug, Clone, Default)]
pub struct CreateRole<'a> {
    pub name: Option<TitanString<'a>>,
    pub permissions: Option<String>,
    pub color: Option<u32>,
    pub hoist: Option<bool>,
    pub icon: Option<TitanString<'a>>,
    pub unicode_emoji: Option<TitanString<'a>>,
    pub mentionable: Option<bool>,
}

/// Builder for creating a Role.
#[derive(Debug, Clone, Default)]
pub struct CreateRoleBuilder<'a> {
    params: CreateRole<'a>,
}

impl<'a> View for CreateRoleBuilder<'a> {
    type V = CreateRole<'a>;

    /// The payload built so far.
    closed spec fn view(&self) -> CreateRole<'a> {
        self.params
    }
}

impl<'a> CreateRoleBuilder<'a> {
    /// Create a new CreateRoleBuilder.
    pub fn new() -> (r: Self)
        ensures
            r@ == (CreateRole {
                name: None,
                permissions: None,
                color: None,
                hoist: None,
                icon: None,
                unicode_emoji: None,
                mentionable: None,
            }),
    {
        CreateRoleBuilder {
            params: CreateRole {
                name: None,
                permissions: None,
                color: None,
                hoist: None,
                icon: None,
                unicode_emoji: None,
                mentionable: None,
            },
        }
    }

    /// Set the name.
    pub fn name<T: Into<TitanString<'a>>>(self, name: T) -> (r: Self)
        ensures
            T::obeys_into_spec() ==> r@ == (CreateRole { name: Some(name.into_spec()), ..self@ }),
            r@ == (CreateRole { name: r@.name, ..self@ }),
            r@.name is Some,
    {
        let mut b = self;
        b.params.name = Some(name.into());
        b
    }

    /// Set the color.
    pub fn color(self, color: u32) -> (r: Self)
        ensures
            r@ == (CreateRole { color: Some(color), ..self@ }),
    {
        let mut b = self;
        b.params.color = Some(color);
        b
    }

    /// Show the role separately in the member list.
    pub fn hoist(self, hoist: bool) -> (r: Self)
        ensures
            r@ == (CreateRole { hoist: Some(hoist), ..self@ }),
    {
        let mut b = self;
        b.params.hoist = Some(hoist);
        b
    }

    /// Set the icon.
    pub fn icon<T: Into<TitanString<'a>>>(self, icon: T) -> (r: Self)
        ensures
            T::obeys_into_spec() ==> r@ == (CreateRole { icon: Some(icon.into_spec()), ..self@ }),
            r@ == (CreateRole { icon: r@.icon, ..self@ }),
            r@.icon is Some,
    {
        let mut b = self;
        b.params.icon = Some(icon.into());
        b
    }

    /// Set the unicode emoji.
    pub fn unicode_emoji<T: Into<TitanString<'a>>>(self, emoji: T) -> (r: Self)
        ensures
            T::obeys_into_spec() ==> r@ == (CreateRole { unicode_emoji: Some(emoji.into_spec()), ..self@ }),
            r@ == (CreateRole { unicode_emoji: r@.unicode_emoji, ..self@ }),
            r@.unicode_emoji is Some,
    {
        let mut b = self;
        b.params.unicode_emoji = Some(emoji.into());
        b
    }

    /// Set whether the role can be mentioned.
    pub fn mentionable(self, mentionable: bool) -> (r: Self)
        ensures
            r@ == (CreateRole { mentionable: Some(mentionable), ..self@ }),
    {
        let mut b = self;
        b.params.mentionable = Some(mentionable);
        b
    }

    /// Build the CreateRole payload.
    pub fn build(self) -> (r: CreateRole<'a>)
        ensures
            r == self@,
    {
        self.params
    }
}

} // verus!
