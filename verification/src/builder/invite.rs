//! Invite creation payload and its builder.
use vstd::prelude::*;
use vstd::std_specs::convert::IntoSpec;
use crate::Snowflake;

verus! {

/// Payload for creating an invite.
#[derive(Debug, Clone, Default)]
pub struct CreateInvite {
    pub max_age: Option<u32>,
    pub max_uses: Option<u32>,
    pub temporary: Option<bool>,
    pub unique: Option<bool>,
    pub target_type: Option<u8>,
    pub target_user_id: Option<Snowflake>,
    pub target_application_id: Option<Snowflake>,
}

/// Builder for creating an Invite.
#[derive(Debug, Clone, Default)]
pub struct CreateInviteBuilder {
    params: CreateInvite,
}

impl View for CreateInviteBuilder {
    type V = CreateInvite;

    /// The payload built so far.
    closed spec fn view(&self) -> CreateInvite {
        self.params
    }
}

impl CreateInviteBuilder {
    /// Create a new CreateInviteBuilder.
    pub fn new() -> (r: Self)
        ensures
            r@ == (CreateInvite {
                max_age: None,
                max_uses: None,
                temporary: None,
                unique: None,
                target_type: None,
                target_user_id: None,
                target_application_id: None,
            }),
    {
        CreateInviteBuilder {
            params: CreateInvite {
                max_age: None,
                max_uses: None,
                temporary: None,
                unique: None,
                target_type: None,
                target_user_id: None,
                target_application_id: None,
            },
        }
    }

    /// Set max age in seconds (0 = never expire).
    pub fn max_age(self, seconds: u32) -> (r: Self)
        ensures
            r@ == (CreateInvite { max_age: Some(seconds), ..self@ }),
    {
        let mut b = self;
        b.params.max_age = Some(seconds);
        b
    }

    /// Set max uses (0 = unlimited).
    pub fn max_uses(self, uses: u32) -> (r: Self)
        ensures
            r@ == (CreateInvite { max_uses: Some(uses), ..self@ }),
    {
        let mut b = self;
        b.params.max_uses = Some(uses);
        b
    }

    /// Set temporary (kick after disconnect).
    pub fn temporary(self, temp: bool) -> (r: Self)
        ensures
            r@ == (CreateInvite { temporary: Some(temp), ..self@ }),
    {
        let mut b = self;
        b.params.temporary = Some(temp);
        b
    }

    /// Set unique (don't reuse similar invite).
    pub fn unique(self, unique: bool) -> (r: Self)
        ensures
            r@ == (CreateInvite { unique: Some(unique), ..self@ }),
    {
        let mut b = self;
        b.params.unique = Some(unique);
        b
    }

    /// Build the CreateInvite payload.
    pub fn build(self) -> (r: CreateInvite)
        ensures
            r == self@,
    {
        self.params
    }
}

} // verus!
