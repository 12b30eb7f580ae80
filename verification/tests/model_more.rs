use titanium::automod::AutoModActionType;
use titanium::audit::AuditLogEvent;
use titanium::channel::PermissionOverwrite;
use titanium::command::OptionType;
use titanium::component::{ButtonStyle, TextInputStyle};
use titanium::interaction::{InteractionCallbackType, InteractionType};
use titanium::member::Role;
use titanium::reaction::ReactionEmoji;
use titanium::scheduled::ScheduledEventPrivacyLevel;
use titanium::ui::{ProgressBar, Timestamp, TimestampStyle};
use titanium::{CommandType, ComponentType, Mention, Permissions, Snowflake, TitanString, User};

#[test]
fn wire_codes_round_trip() {
    assert_eq!(ComponentType::from(3), ComponentType::StringSelect);
    assert_eq!(ComponentType::from(99), ComponentType::ActionRow);
    assert_eq!(u8::from(ComponentType::ChannelSelect), 8);
    assert_eq!(ButtonStyle::from(u8::from(ButtonStyle::Link)), ButtonStyle::Link);
    assert_eq!(ButtonStyle::from(0), ButtonStyle::Primary);
    assert_eq!(TextInputStyle::from(2), TextInputStyle::Paragraph);
    assert_eq!(TextInputStyle::from(7), TextInputStyle::Short);
    assert_eq!(CommandType::from(3), CommandType::Message);
    assert_eq!(CommandType::from(0), CommandType::ChatInput);
    assert_eq!(OptionType::from(3), OptionType::String);
    assert_eq!(OptionType::from(200), OptionType::String);
    assert_eq!(u8::from(OptionType::Attachment), 11);
    assert_eq!(InteractionType::from(2), InteractionType::ApplicationCommand);
    assert_eq!(u8::from(InteractionType::ModalSubmit), 5);
    assert_eq!(InteractionCallbackType::from(9), InteractionCallbackType::Modal);
    assert_eq!(InteractionCallbackType::from(2), InteractionCallbackType::ChannelMessageWithSource);
    assert_eq!(u8::from(InteractionCallbackType::DeferredUpdateMessage), 6);
    assert_eq!(AuditLogEvent::from_code(AuditLogEvent::MemberKick.code()), Some(AuditLogEvent::MemberKick));
    assert_eq!(AuditLogEvent::MemberKick.code(), 20);
    assert_eq!(AuditLogEvent::from_code(2), None);
    assert_eq!(ScheduledEventPrivacyLevel::from_code(2), Some(ScheduledEventPrivacyLevel::GuildOnly));
}

#[test]
fn reaction_emoji_text() {
    assert_eq!(ReactionEmoji::unicode("\u{1F44D}").format(), "\u{1F44D}");
    assert_eq!(ReactionEmoji::custom(Snowflake(42), "blob").format(), "<:blob:42>");
    assert_eq!(ReactionEmoji::animated(42u64, "party").format(), "<a:party:42>");
    let nameless = ReactionEmoji { id: Some(Snowflake(1)), name: None, animated: false };
    assert_eq!(nameless.format(), "");
}

#[test]
fn permission_overwrites() {
    let role = PermissionOverwrite::role(7u64).allow(Permissions::SEND_MESSAGES()).deny(Permissions::SPEAK());
    assert_eq!(role.id, Snowflake(7));
    assert_eq!(role.overwrite_type, 0);
    assert_eq!(role.allow, Permissions::SEND_MESSAGES());
    assert_eq!(role.deny, Permissions::SPEAK());
    let member = PermissionOverwrite::member(Snowflake(8));
    assert_eq!(member.overwrite_type, 1);
    assert!(member.allow.is_empty() && member.deny.is_empty());
}

fn user(id: u64, discriminator: &str, avatar: Option<&str>) -> User<'static> {
    User {
        id: Snowflake(id),
        username: "u".to_string().into(),
        discriminator: discriminator.to_string().into(),
        global_name: None,
        avatar: avatar.map(|a| a.to_string().into()),
        bot: false,
        system: false,
        mfa_enabled: None,
        banner: None,
        accent_color: None,
        locale: None,
        verified: None,
        email: None,
        flags: None,
        premium_type: None,
        public_flags: None,
        avatar_decoration_data: None,
    }
}

#[test]
fn avatars_and_mentions() {
    let legacy = user(5, "1337", None);
    assert_eq!(legacy.avatar_url(), None);
    assert_eq!(legacy.default_avatar_url(), "https://cdn.discordapp.com/embed/avatars/2.png");
    assert_eq!(legacy.face(), "https://cdn.discordapp.com/embed/avatars/2.png");
    let odd = user(5, "abc", None);
    assert_eq!(odd.default_avatar_url(), "https://cdn.discordapp.com/embed/avatars/0.png");
    let still = user(9, "0", Some("plainhash"));
    assert_eq!(still.avatar_url(), Some("https://cdn.discordapp.com/avatars/9/plainhash.png".to_string()));
    assert_eq!(still.mention(), "<@9>");
    let role = Role {
        id: Snowflake(77),
        name: TitanString::from("Admin"),
        color: 0,
        hoist: false,
        icon: None,
        unicode_emoji: None,
        position: 0,
        permissions: Permissions::empty(),
        managed: false,
        mentionable: true,
        tags: None,
        flags: 0,
    };
    assert_eq!(role.mention(), "<@&77>");
}

#[test]
fn progress_bar_cells() {
    let bar = ProgressBar::new(4);
    assert_eq!(bar.render(0), "\u{1F518}\u{25AC}\u{25AC}\u{25AC}");
    assert_eq!(bar.render(4), "\u{25AC}\u{25AC}\u{25AC}\u{25AC}");
    assert_eq!(bar.render(9), bar.render(4));
    let pac = ProgressBar::pacman(5);
    assert_eq!(pac.render(2), "[--Coo]");
    assert_eq!(pac.render(5), "[-----]");
    let plain = ProgressBar { head_char: None, ..ProgressBar::pacman(3) };
    assert_eq!(plain.render(1), "[-oo]");
    assert_eq!(ProgressBar::default().length, 10);
}

#[test]
fn timestamp_tags() {
    assert_eq!(Timestamp::from_unix(-5, TimestampStyle::ShortTime), "<t:-5:t>");
    assert_eq!(Timestamp::from_unix(0, TimestampStyle::LongDateTime), "<t:0:F>");
    assert_eq!(TimestampStyle::ShortDateTime.as_char(), 'f');
    assert_eq!(Timestamp::expires_at(100, 20), "<t:120:R>");
}

#[test]
fn relative_timestamp_from_now() {
    let tag = Timestamp::expires_in(60).expect("the clock is after 1970");
    assert!(tag.starts_with("<t:") && tag.ends_with(":R>"));
    let secs: u64 = tag[3..tag.len() - 3].parse().unwrap();
    assert!(secs > 1_600_000_060);
    assert_eq!(Timestamp::expires_in(u64::MAX), None);
}

#[test]
fn automod_action_codes() {
    assert_eq!(AutoModActionType::from_code(1), Some(AutoModActionType::BlockMessage));
    assert_eq!(AutoModActionType::BlockMessage.code(), 1);
    assert_eq!(AutoModActionType::from_code(0), None);
}

#[test]
fn expires_after_bounds() {
    assert_eq!(Timestamp::expires_after(100, 20), Some("<t:120:R>".to_string()));
    assert_eq!(Timestamp::expires_after(u64::MAX, 0), Some(format!("<t:{}:R>", u64::MAX)));
    assert_eq!(Timestamp::expires_after(u64::MAX, 1), None);
}
