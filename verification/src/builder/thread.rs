//! Thread start payload and its builder.
use vstd::prelude::*;
use vstd::std_specs::convert::IntoSpec;
use crate::TitanString;

verus! {

/// Payload for starting a thread.
#[derive(Debug, Clone, Default)]
pub struct StartThread<'a> {
    pub name: TitanString<'a>,
    pub auto_archive_duration: Option<u32>,
    /// Thread type, for a thread started without a message.
    pub type_: Option<u8>,
    pub invitable: Option<bool>,
    pub rate_limit_per_user: Option<u32>,
}

/// Builder for starting a Thread.
#[derive(Debug, Clone)]
pub struct StartThreadBuilder<'a> {
    params: StartThread<'a>,
}

impl<'a> View for StartThreadBuilder<'a> {
    type V = StartThread<'a>;

    /// The payload built so far.
    closed spec fn view(&self) -> StartThread<'a> {
        self.params
    }
}

impl<'a> StartThreadBuilder<'a> {
    /// Create a new StartThreadBuilder.
    pub fn new<T: Into<TitanString<'a>>>(name: T) -> (r: Self)
        ensures
            T::obeys_into_spec() ==> r@ == (StartThread {
                name: name.into_spec(),
                auto_archive_duration: None,
                type_: None,
                invitable: None,
                rate_limit_per_user: None,
            }),
            r@ == (StartThread {
                name: r@.name,
                auto_archive_duration: None,
                type_: None,
                invitable: None,
                rate_limit_per_user: None,
            }),
    {
        StartThreadBuilder {
            params: StartThread {
                name: name.into(),
                auto_archive_duration: None,
                type_: None,
                invitable: None,
                rate_limit_per_user: None,
            },
        }
    }

    /// Set auto archive duration (60, 1440, 4320, 10080).
    pub fn auto_archive_duration(self, duration: u32) -> (r: Self)
        ensures
            r@ == (StartThread { auto_archive_duration: Some(duration), ..self@ }),
    {
        let mut b = self;
        b.params.auto_archive_duration = Some(duration);
        b
    }

    /// Set thread type (for standalone threads).
    pub fn kind(self, kind: u8) -> (r: Self)
        ensures
            r@ == (StartThread { type_: Some(kind), ..self@ }),
    {
        let mut b = self;
        b.params.type_ = Some(kind);
        b
    }

    /// Set invitable (private threads).
    pub fn invitable(self, invitable: bool) -> (r: Self)
        ensures
            r@ == (StartThread { invitable: Some(invitable), ..self@ }),
    {
        let mut b = self;
        b.params.invitable = Some(invitable);
        b
    }

    /// Set rate limit per user.
    pub fn rate_limit_per_user(self, limit: u32) -> (r: Self)
        ensures
            r@ == (StartThread { rate_limit_per_user: Some(limit), ..self@ }),
    {
        let mut b = self;
        b.params.rate_limit_per_user = Some(limit);
        b
    }

    /// Build the StartThread payload.
    pub fn build(self) -> (r: StartThread<'a>)
        ensures
            r == self@,
    {
        self.params
    }
}

} // verus!
