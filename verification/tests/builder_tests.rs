use titanium::builder::{
    ButtonBuilder, CreateEmojiBuilder, CreateInviteBuilder, EmbedBuilder, MessageBuilder,
    ModifyGuildBuilder, ModifyMemberBuilder, StartThreadBuilder,
};
use titanium::{Component, Snowflake, TitanString};

#[test]
fn test_modify_guild_builder() {
    let payload = ModifyGuildBuilder::new()
        .name("New Guild Name")
        .region("us-west")
        .verification_level(1)
        .build();

    assert_eq!(payload.name, Some(TitanString::from("New Guild Name".to_string())));
    assert_eq!(payload.region, Some(TitanString::from("us-west".to_string())));
    assert_eq!(payload.verification_level, Some(1));
}

#[test]
fn test_modify_member_builder() {
    let payload = ModifyMemberBuilder::new().nick("New Nick").mute(true).deaf(false).build();

    assert_eq!(payload.nick, Some(TitanString::from("New Nick".to_string())));
    assert_eq!(payload.mute, Some(true));
    assert_eq!(payload.deaf, Some(false));
}

#[test]
fn test_start_thread_builder() {
    let payload = StartThreadBuilder::new("Thread Name").auto_archive_duration(60).kind(11).build();

    assert_eq!(payload.name, "Thread Name".to_string());
    assert_eq!(payload.auto_archive_duration, Some(60));
    assert_eq!(payload.type_, Some(11));
}

#[test]
fn test_create_invite_builder() {
    let payload = CreateInviteBuilder::new().max_age(86400).max_uses(10).unique(true).build();

    assert_eq!(payload.max_age, Some(86400));
    assert_eq!(payload.max_uses, Some(10));
    assert_eq!(payload.unique, Some(true));
}

#[test]
fn test_create_emoji_builder() {
    let payload = CreateEmojiBuilder::new("test_emoji", "data:image/png;base64,...")
        .role(Snowflake(12345))
        .build();

    assert_eq!(payload.name, "test_emoji");
    assert_eq!(payload.roles.len(), 1);
}

#[test]
fn test_add_file_builder() {
    let msg = MessageBuilder::new()
        .content("With file")
        .add_file("test.txt", vec![1, 2, 3])
        .build();

    assert_eq!(msg.files.len(), 1);
    assert_eq!(msg.files[0].filename, "test.txt");
    assert_eq!(msg.files[0].data, vec![1, 2, 3]);
}

#[test]
fn test_embed_builder_zero_allocation() {
    let title = "Static Title";
    let embed = EmbedBuilder::new().title(title).build();
    match embed.title {
        Some(TitanString::Borrowed(t)) => assert_eq!(t, "Static Title"),
        _ => panic!("Expected Borrowed Cow for static string"),
    }
}

#[test]
fn test_embed_builder_owned() {
    let title = String::from("Owned Title");
    let embed = EmbedBuilder::new().title(title).build();
    match embed.title {
        Some(TitanString::Owned(t)) => assert_eq!(t, "Owned Title"),
        _ => panic!("Expected Owned Cow for String"),
    }
}

#[test]
fn test_component_builder_zero_allocation() {
    let id = "custom_id";
    let btn = ButtonBuilder::new().custom_id(id).build();
    if let Component::Button(b) = btn {
        match b.custom_id {
            Some(TitanString::Borrowed(s)) => assert_eq!(s, "custom_id"),
            _ => panic!("Expected Borrowed Cow for button custom_id"),
        }
    }
}
