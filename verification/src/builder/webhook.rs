//! Webhook execution payload and its builder.
use vstd::prelude::*;
use vstd::std_specs::convert::IntoSpec;
use crate::Embed;

verus! {

/// Payload for executing a webhook.
#[derive(Debug, Clone, Default)]
pub struct ExecuteWebhook {
    pub content: Option<String>,
    pub username: Option<String>,
    pub avatar_url: Option<String>,
    pub tts: Option<bool>,
    pub embeds: Vec<Embed<'static>>,
}

/// Builder for executing a Webhook.
#[derive(Debug, Clone, Default)]
pub struct WebhookExecuteBuilder {
    params: ExecuteWebhook,
}

impl View for WebhookExecuteBuilder {
    type V = ExecuteWebhook;

    /// The payload built so far.
    closed spec fn view(&self) -> ExecuteWebhook {
        self.params
    }
}

impl WebhookExecuteBuilder {
    /// Create a new WebhookExecuteBuilder.
    pub fn new() -> (r: Self)
        ensures
            r@ == (ExecuteWebhook {
                content: None,
                username: None,
                avatar_url: None,
                tts: None,
                embeds: r@.embeds,
            }),
            r@.embeds@.len() == 0,
    {
        WebhookExecuteBuilder {
            params: ExecuteWebhook {
                content: None,
                username: None,
                avatar_url: None,
                tts: None,
                embeds: Vec::new(),
            },
        }
    }

    /// Set content.
    pub fn content<T: Into<String>>(self, content: T) -> (r: Self)
        ensures
            T::obeys_into_spec() ==> r@ == (ExecuteWebhook { content: Some(content.into_spec()), ..self@ }),
            r@ == (ExecuteWebhook { content: r@.content, ..self@ }),
            r@.content is Some,
    {
        let mut b = self;
        b.params.content = Some(content.into());
        b
    }

    /// Set username override.
    pub fn username<T: Into<String>>(self, username: T) -> (r: Self)
        ensures
            T::obeys_into_spec() ==> r@ == (ExecuteWebhook { username: Some(username.into_spec()), ..self@ }),
            r@ == (ExecuteWebhook { username: r@.username, ..self@ }),
            r@.username is Some,
    {
        let mut b = self;
        b.params.username = Some(username.into());
        b
    }

    /// Set avatar URL override.
    pub fn avatar_url<T: Into<String>>(self, url: T) -> (r: Self)
        ensures
            T::obeys_into_spec() ==> r@ == (ExecuteWebhook { avatar_url: Some(url.into_spec()), ..self@ }),
            r@ == (ExecuteWebhook { avatar_url: r@.avatar_url, ..self@ }),
            r@.avatar_url is Some,
    {
        let mut b = self;
        b.params.avatar_url = Some(url.into());
        b
    }

    /// Set TTS.
    pub fn tts(self, tts: bool) -> (r: Self)
        ensures
            r@ == (ExecuteWebhook { tts: Some(tts), ..self@ }),
    {
        let mut b = self;
        b.params.tts = Some(tts);
        b
    }

    /// Add an embed.
    pub fn embed<T: Into<Embed<'static>>>(self, embed: T) -> (r: Self)
        ensures
            T::obeys_into_spec() ==> r@.embeds@ == self@.embeds@.push(embed.into_spec()),
            r@.embeds@.len() == self@.embeds@.len() + 1,
            r@.embeds@.drop_last() == self@.embeds@,
            r@ == (ExecuteWebhook { embeds: r@.embeds, ..self@ }),
    {
        let mut b = self;
        b.params.embeds.push(embed.into());
        b
    }

    /// Add multiple embeds.
    pub fn embeds(self, embeds: Vec<Embed<'static>>) -> (r: Self)
        ensures
            r@.embeds@ == self@.embeds@ + embeds@,
            r@ == (ExecuteWebhook { embeds: r@.embeds, ..self@ }),
    {
        let mut b = self;
        let mut more = embeds;
        b.params.embeds.append(&mut more);
        b
    }

    /// Build the payload.
    pub fn build(self) -> (r: ExecuteWebhook)
        ensures
            r == self@,
    {
        self.params
    }
}

} // verus!
