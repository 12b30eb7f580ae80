use titanium::member::{Emoji, Sticker};
use titanium::ui::{ProgressBar, Timestamp, TimestampStyle};
use titanium::{Guild, Intents, Mention, Snowflake, User};

#[test]
fn test_intent_flags() {
    let intents = Intents::GUILDS() | Intents::GUILD_MESSAGES();
    assert!(intents.contains(Intents::GUILDS()));
    assert!(intents.contains(Intents::GUILD_MESSAGES()));
    assert!(!intents.contains(Intents::GUILD_MEMBERS()));
}

#[test]
fn test_intent_serialization() {
    let intents = Intents::GUILDS() | Intents::GUILD_MESSAGES();
    let bits = intents.bits();
    assert_eq!(bits, (1 << 0) | (1 << 9));
}

#[test]
fn test_snowflake_parsing() {
    let json_str = r#""175928847299117063""#;
    let text: String = serde_json::from_str(json_str).unwrap();
    let snowflake = Snowflake::parse(&text).unwrap();
    assert_eq!(snowflake.get(), 175928847299117063);
}

#[test]
fn test_snowflake_serialization() {
    let snowflake = Snowflake::new(175928847299117063);
    let json = serde_json::to_string(&snowflake.to_string()).unwrap();
    assert_eq!(json, r#""175928847299117063""#);
}

#[test]
fn test_snowflake_timestamp() {
    let snowflake = Snowflake::new(175928847299117063);
    assert!(snowflake.timestamp() > 1420070400000);
}

fn test_user(avatar: Option<&str>, discriminator: &str) -> User<'static> {
    User {
        id: Snowflake(123456789),
        username: "test".to_string().into(),
        discriminator: discriminator.to_string().into(),
        global_name: None,
        avatar: avatar.map(|a| a.to_string().into()),
        bot: false,
        system: false,
        mfa_enabled: None,
        banner: None,
        accent_color: None,
        locale: None,
        verified: None,
        email: None,
        flags: None,
        premium_type: None,
        public_flags: None,
        avatar_decoration_data: None,
    }
}

#[test]
fn test_mention_trait() {
    let user = User {
        id: Snowflake(123),
        username: "test".to_string().into(),
        discriminator: "0000".to_string().into(),
        global_name: None,
        avatar: None,
        bot: false,
        system: false,
        mfa_enabled: None,
        banner: None,
        accent_color: None,
        locale: None,
        verified: None,
        email: None,
        flags: None,
        premium_type: None,
        public_flags: None,
        avatar_decoration_data: None,
    };
    let mention = user.mention();
    assert_eq!(mention, "<@123>");
}

#[test]
fn test_user_cdn() {
    let user = test_user(Some("a_123hash"), "0");
    assert_eq!(
        user.avatar_url(),
        Some("https://cdn.discordapp.com/avatars/123456789/a_123hash.gif".to_string())
    );
    assert_eq!(user.default_avatar_url(), "https://cdn.discordapp.com/embed/avatars/5.png");
    assert_eq!(user.face(), "https://cdn.discordapp.com/avatars/123456789/a_123hash.gif");
}

#[test]
fn test_guild_cdn() {
    let guild = Guild {
        id: Snowflake(123),
        name: "Test Guild".to_string().into(),
        icon: Some("iconhash".to_string().into()),
        icon_hash: None,
        splash: Some("splashhash".to_string().into()),
        discovery_splash: None,
        owner_id: None,
        permissions: None,
        region: None,
        afk_channel_id: None,
        afk_timeout: None,
        verification_level: None,
        default_message_notifications: None,
        explicit_content_filter: None,
        roles: vec![],
        emojis: vec![],
        features: vec![],
        mfa_level: None,
        application_id: None,
        system_channel_id: None,
        system_channel_flags: None,
        rules_channel_id: None,
        max_presences: None,
        max_members: None,
        vanity_url_code: None,
        description: None,
        banner: None,
        premium_tier: None,
        premium_subscription_count: None,
        preferred_locale: None,
        public_updates_channel_id: None,
        max_video_channel_users: None,
        max_stage_video_channel_users: None,
        approximate_member_count: None,
        approximate_presence_count: None,
        member_count: None,
        nsfw_level: None,
        stickers: vec![],
        premium_progress_bar_enabled: None,
        safety_alerts_channel_id: None,
        voice_states: vec![],
    };

    assert_eq!(guild.icon_url(), Some("https://cdn.discordapp.com/icons/123/iconhash.png".to_string()));
    assert_eq!(
        guild.splash_url(),
        Some("https://cdn.discordapp.com/splashes/123/splashhash.png".to_string())
    );
}

#[test]
fn test_emoji_sticker_cdn() {
    let emoji = Emoji {
        id: Some(Snowflake(999)),
        name: None,
        roles: vec![].into(),
        user: None,
        require_colons: false,
        managed: false,
        animated: true,
        available: true,
    };
    assert_eq!(emoji.url(), Some("https://cdn.discordapp.com/emojis/999.gif".to_string()));

    let sticker = Sticker {
        id: Snowflake(888),
        pack_id: None,
        name: "Test".to_string().into(),
        description: None,
        tags: "".to_string().into(),
        sticker_type: 1,
        format_type: 1,
        user: None,
        sort_value: None,
    };
    assert_eq!(sticker.url(), "https://cdn.discordapp.com/stickers/888.png");
}

/// The number of filled cells for a fraction, as a bar is drawn for a percentage.
fn filled_for(length: u32, percent: f32) -> u32 {
    let filled = (length as f32 * percent.clamp(0.0, 1.0)).round() as u32;
    filled.min(length)
}

#[test]
fn test_progress_bar() {
    let bar = ProgressBar::new(10);
    let output = bar.render(filled_for(bar.length, 0.5));
    assert!(output.contains('\u{1F518}'));
    assert_eq!(output.chars().count(), 10);
}

#[test]
fn test_pacman_bar() {
    let bar = ProgressBar::pacman(10);
    let output = bar.render(filled_for(bar.length, 0.5));
    assert!(output.contains("C"));
    assert!(output.contains("-"));
    assert!(output.contains("o"));
    assert!(output.starts_with('['));
    assert!(output.ends_with(']'));
}

#[test]
fn test_timestamp() {
    let ts = Timestamp::from_unix(1234567890, TimestampStyle::Relative);
    assert_eq!(ts, "<t:1234567890:R>");
}
