use titanium::builder::embed::{COLOR_ERROR, COLOR_INFO, COLOR_SUCCESS, COLOR_WARNING};
use titanium::builder::interaction::EPHEMERAL_FLAG;
use titanium::builder::{
    ActionRowBuilder, ButtonBuilder, CommandBuilder, CreateChannelBuilder, CreateGuildBuilder, CreateRoleBuilder,
    CreateStickerBuilder, EmbedBuilder, InteractionResponseBuilder, MessageBuilder, ModalBuilder,
    ModifyEmojiBuilder, PollBuilder, ScheduledEventBuilder, SelectMenuBuilder, StageInstanceBuilder,
    TextInputBuilder, WebhookExecuteBuilder,
};
use titanium::component::{ButtonStyle, TextInputStyle};
use titanium::interaction::{InteractionCallbackType, InteractionResponse};
use titanium::scheduled::{ScheduledEventEntityType, ScheduledEventPrivacyLevel};
use titanium::stage::StagePrivacyLevel;
use titanium::{ApplicationCommand, Button, CommandType, Component, CreateMessage, Embed, Snowflake, TitanString};

#[test]
fn embed_presets_and_parts() {
    let e = EmbedBuilder::success("Done", "All good").build();
    assert_eq!(e.title, Some(TitanString::from("Done")));
    assert_eq!(e.description, Some(TitanString::from("All good")));
    assert_eq!(e.color, Some(COLOR_SUCCESS));
    assert_eq!(EmbedBuilder::error("a", "b").build().color, Some(COLOR_ERROR));
    assert_eq!(EmbedBuilder::info("a", "b").build().color, Some(COLOR_INFO));
    assert_eq!(EmbedBuilder::warning("a", "b").build().color, Some(COLOR_WARNING));
    assert_eq!(EmbedBuilder::new().color_rgb(0xFF, 0x00, 0x80).build().color, Some(0xFF0080));
    let e = EmbedBuilder::new()
        .footer("foot", None::<&str>)
        .author("me", Some("https://a"), None::<&str>)
        .image("https://i")
        .thumbnail("https://t")
        .field_inline("k", "v")
        .field_block("k2", "v2")
        .url("https://u")
        .timestamp("2021-01-01T00:00:00Z")
        .build();
    let footer = e.footer.unwrap();
    assert_eq!(footer.text, "foot".to_string());
    assert!(footer.icon_url.is_none() && footer.proxy_icon_url.is_none());
    let author = e.author.unwrap();
    assert_eq!(author.url, Some(TitanString::from("https://a")));
    assert!(author.icon_url.is_none());
    assert_eq!(e.image.unwrap().url, Some(TitanString::from("https://i")));
    assert_eq!(e.thumbnail.unwrap().url, Some(TitanString::from("https://t")));
    assert_eq!(e.fields.len(), 2);
    assert!(e.fields[0].inline);
    assert!(!e.fields[1].inline);
    assert_eq!(e.url, Some(TitanString::from("https://u")));
    let from_text: Embed = Embed::from("just text");
    assert_eq!(from_text.description, Some(TitanString::from("just text")));
    assert!(from_text.title.is_none());
    let from_builder: Embed = EmbedBuilder::simple("t", "d").into();
    assert_eq!(from_builder.title, Some(TitanString::from("t")));
}

#[test]
fn message_builder_lists() {
    let msg = MessageBuilder::text("hi")
        .tts(true)
        .reply(Snowflake(5))
        .embed(EmbedBuilder::simple("a", "b"))
        .embed("second")
        .embeds(vec![Embed::from("third")])
        .component(ActionRowBuilder::new().add_button(ButtonBuilder::primary("Go", "go")))
        .build();
    assert_eq!(msg.content, Some(TitanString::from("hi")));
    assert_eq!(msg.tts, Some(true));
    let reference = msg.message_reference.unwrap();
    assert_eq!(reference.message_id, Some(Snowflake(5)));
    assert_eq!(reference.fail_if_not_exists, Some(true));
    assert_eq!(msg.embeds.as_ref().unwrap().len(), 3);
    assert_eq!(msg.components.as_ref().unwrap().len(), 1);
    let empty = MessageBuilder::new().build();
    assert!(empty.content.is_none() && empty.embeds.is_none() && empty.files.is_empty());
    let direct = CreateMessage::new("body").embed(Embed::from("x"));
    assert_eq!(direct.content, Some(TitanString::Owned("body".to_string())));
    assert_eq!(direct.embeds.map(|v| v.len()), Some(1));
    let converted: CreateMessage = CreateMessage::from("plain");
    assert_eq!(converted.content, Some(TitanString::Borrowed("plain")));
}

#[test]
fn components_and_modals() {
    let link = ButtonBuilder::link("Docs", "https://docs").disabled(true).build();
    match link {
        Component::Button(b) => {
            assert_eq!(b.style, ButtonStyle::Link);
            assert_eq!(b.url, Some(TitanString::from("https://docs")));
            assert!(b.custom_id.is_none());
            assert!(b.disabled);
        }
        _ => panic!("a button builder builds a button"),
    }
    for (b, style) in [
        (ButtonBuilder::secondary("l", "c"), ButtonStyle::Secondary),
        (ButtonBuilder::success("l", "c"), ButtonStyle::Success),
        (ButtonBuilder::danger("l", "c"), ButtonStyle::Danger),
    ] {
        match b.build() {
            Component::Button(b) => assert_eq!(b.style, style),
            _ => panic!("a button builder builds a button"),
        }
    }
    let menu = SelectMenuBuilder::new("pick")
        .option("One", "1")
        .option("Two", "2")
        .placeholder("Choose")
        .min_values(1)
        .max_values(2)
        .build();
    match menu {
        Component::SelectMenu(m) => {
            assert_eq!(m.options.len(), 2);
            assert_eq!(m.options[1].value, TitanString::from("2"));
            assert_eq!(m.min_values, Some(1));
            assert_eq!(m.max_values, Some(2));
        }
        _ => panic!("a select menu builder builds a select menu"),
    }
    let input = TextInputBuilder::new("name", TextInputStyle::Short, "Name")
        .min_length(1)
        .max_length(32)
        .required(true)
        .value("x")
        .placeholder("your name");
    let modal = ModalBuilder::new("form", "Form").row(ActionRowBuilder::new().input(input)).build();
    assert_eq!(modal.custom_id, TitanString::from("form"));
    assert_eq!(modal.components.len(), 1);
    let response = InteractionResponseBuilder::new().modal(modal).build();
    assert_eq!(response.response_type, InteractionCallbackType::Modal);
    let data = response.data.unwrap();
    assert_eq!(data.title, Some(TitanString::from("Form")));
    assert_eq!(data.components.len(), 1);
    assert!(data.embeds.is_empty() && data.content.is_none());
    let b = Button::builder("id", ButtonStyle::Danger).build();
    assert!(matches!(b, Component::Button(ref x) if x.style == ButtonStyle::Danger));
    let menu_default = SelectMenuBuilder::default().build();
    assert!(matches!(menu_default, Component::SelectMenu(ref m) if m.custom_id == "default_select"));
}

#[test]
fn interaction_responses() {
    let r = InteractionResponse::reply("pong").ephemeral(true).build();
    assert_eq!(r.response_type, InteractionCallbackType::ChannelMessageWithSource);
    let data = r.data.unwrap();
    assert_eq!(data.content, Some(TitanString::from("pong")));
    assert_eq!(data.flags, Some(EPHEMERAL_FLAG));
    let r = InteractionResponse::deferred().build();
    assert_eq!(r.response_type, InteractionCallbackType::DeferredChannelMessageWithSource);
    let r = InteractionResponseBuilder::new().deferred(true).update_message().build();
    assert_eq!(r.response_type, InteractionCallbackType::UpdateMessage);
    assert_eq!(r.data.unwrap().flags, Some(64));
    let unchanged = InteractionResponseBuilder::new().ephemeral(false).build();
    assert_eq!(unchanged.data.unwrap().flags, None);
    let r = InteractionResponseBuilder::new()
        .embed(EmbedBuilder::simple("a", "b"))
        .component(ButtonBuilder::primary("x", "y"))
        .components(vec![ButtonBuilder::new().build()])
        .kind(InteractionCallbackType::Pong)
        .build();
    assert_eq!(r.response_type, InteractionCallbackType::Pong);
    let data = r.data.unwrap();
    assert_eq!(data.embeds.len(), 1);
    assert_eq!(data.components.len(), 2);
}

#[test]
fn payload_builders() {
    let channel = CreateChannelBuilder::new("general").kind(0).topic("chat").build();
    assert_eq!(channel.name, TitanString::from("general"));
    assert_eq!(channel.kind, Some(0));
    assert!(channel.nsfw.is_none());
    let role = CreateRoleBuilder::new().name("Mod").color(0xFF).hoist(true).mentionable(false).build();
    assert_eq!(role.color, Some(0xFF));
    assert_eq!(role.hoist, Some(true));
    let guild = CreateGuildBuilder::new("G").icon("data").verification_level(2).build();
    assert_eq!(guild.name, "G");
    assert_eq!(guild.icon.as_deref(), Some("data"));
    assert!(guild.roles.is_empty());
    let sticker = CreateStickerBuilder::new("s", "d", "t").build();
    assert_eq!((sticker.name.as_str(), sticker.description.as_str(), sticker.tags.as_str()), ("s", "d", "t"));
    let emoji = ModifyEmojiBuilder::new().name("e").roles(vec![Snowflake(1)]).build();
    assert_eq!(emoji.roles.map(|r| r.len()), Some(1));
    let stage = StageInstanceBuilder::new(Snowflake(3), "topic")
        .privacy_level(StagePrivacyLevel::GuildOnly)
        .send_start_notification(true)
        .build();
    assert_eq!(stage.channel_id, Snowflake(3));
    assert_eq!(stage.send_start_notification, Some(true));
    let event = ScheduledEventBuilder::new("Party", "2030-01-01T00:00:00Z", ScheduledEventEntityType::External)
        .location("Park")
        .end_time("2030-01-01T02:00:00Z")
        .build();
    assert_eq!(event.privacy_level, ScheduledEventPrivacyLevel::GuildOnly);
    assert_eq!(event.entity_metadata.unwrap().location, Some(TitanString::from("Park")));
    let hook = WebhookExecuteBuilder::new()
        .content("hello")
        .username("bot")
        .embed(Embed::from("e"))
        .embeds(vec![Embed::from("f")])
        .build();
    assert_eq!(hook.content.as_deref(), Some("hello"));
    assert_eq!(hook.embeds.len(), 2);
    let poll = PollBuilder::new("Best?").expiry("tomorrow").allow_multiselect(true).build();
    assert_eq!(poll.question.text, Some(TitanString::from("Best?")));
    assert!(poll.allow_multiselect);
    let cmd = ApplicationCommand::builder("ping", "Pong!").build();
    assert_eq!(cmd.kind, Some(CommandType::ChatInput));
    assert_eq!(cmd.description, Some(TitanString::from("Pong!")));
    let cmd2 = CommandBuilder::new("a", "b");
    assert_eq!(cmd2.name, "a".to_string());
}
