//! Audit log types for Discord moderation tracking.
//!
//! Audit logs record administrative actions in a guild.
use vstd::prelude::*;
use crate::Snowflake;

verus! {

/// An audit log entry.
#[derive(Debug, Clone)]
pub struct AuditLogEntry {
    /// ID of the entry.
    pub id: Snowflake,

    /// ID of the affected entity (user, channel, role, etc.).
    pub target_id: Option<String>,

    /// Changes made to the target.
    pub changes: Vec<AuditLogChange>,

    /// User or app that made the changes.
    pub user_id: Option<Snowflake>,

    /// Type of action that occurred.
    pub action_type: AuditLogEvent,

    /// Additional info for certain event types.
    pub options: Option<AuditLogOptions>,

    /// Reason for the change (1-512 characters).
    pub reason: Option<String>,
}

/// A change in an audit log entry.
#[derive(Debug, Clone)]
pub struct AuditLogChange {
    /// Name of the changed entity.
    pub key: String,

    /// New value of the key.
    pub new_value: Option<crate::json::Value>,

    /// Old value of the key.
    pub old_value: Option<crate::json::Value>,
}

/// Additional audit log entry options.
#[derive(Debug, Clone, Default)]
pub struct AuditLogOptions {
    /// ID of the app whose permissions were targeted.
    pub application_id: Option<Snowflake>,

    /// Name of the Auto Moderation rule that was triggered.
    pub auto_moderation_rule_name: Option<String>,

    /// Trigger type of the Auto Moderation rule.
    pub auto_moderation_rule_trigger_type: Option<String>,

    /// Channel in which the entities were targeted.
    pub channel_id: Option<Snowflake>,

    /// Number of entities that were targeted.
    pub count: Option<String>,

    /// Number of days for prune.
    pub delete_member_days: Option<String>,

    /// ID of the overwritten entity.
    pub id: Option<Snowflake>,

    /// Number of members removed by the prune.
    pub members_removed: Option<String>,

    /// ID of the message that was targeted.
    pub message_id: Option<Snowflake>,

    /// Name of the role.
    pub role_name: Option<String>,

    /// Type of overwritten entity.
    pub overwrite_type: Option<String>,

    /// Type of integration.
    pub integration_type: Option<String>,
}

/// Audit log event types.
#[derive(Debug, Clone, Copy, PartialEq, Eq, Structural)]
pub enum AuditLogEvent {
    GuildUpdate,
    ChannelCreate,
    ChannelUpdate,
    ChannelDelete,
    ChannelOverwriteCreate,
    ChannelOverwriteUpdate,
    ChannelOverwriteDelete,
    MemberKick,
    MemberPrune,
    MemberBanAdd,
    MemberBanRemove,
    MemberUpdate,
    MemberRoleUpdate,
    MemberMove,
    MemberDisconnect,
    BotAdd,
    RoleCreate,
    RoleUpdate,
    RoleDelete,
    InviteCreate,
    InviteUpdate,
    InviteDelete,
    WebhookCreate,
    WebhookUpdate,
    WebhookDelete,
    EmojiCreate,
    EmojiUpdate,
    EmojiDelete,
    MessageDelete,
    MessageBulkDelete,
    MessagePin,
    MessageUnpin,
    IntegrationCreate,
    IntegrationUpdate,
    IntegrationDelete,
    StageInstanceCreate,
    StageInstanceUpdate,
    StageInstanceDelete,
    StickerCreate,
    StickerUpdate,
    StickerDelete,
    GuildScheduledEventCreate,
    GuildScheduledEventUpdate,
    GuildScheduledEventDelete,
    ThreadCreate,
    ThreadUpdate,
    ThreadDelete,
    ApplicationCommandPermissionUpdate,
    SoundboardSoundCreate,
    SoundboardSoundUpdate,
    SoundboardSoundDelete,
    AutoModerationRuleCreate,
    AutoModerationRuleUpdate,
    AutoModerationRuleDelete,
    AutoModerationBlockMessage,
    AutoModerationFlagToChannel,
    AutoModerationUserCommunicationDisabled,
    CreatorMonetizationRequestCreated,
    CreatorMonetizationTermsAccepted,
    OnboardingPromptCreate,
    OnboardingPromptUpdate,
    OnboardingPromptDelete,
    OnboardingCreate,
    OnboardingUpdate,
    HomeSettingsCreate,
    HomeSettingsUpdate,
}

/// The wire code of a `AuditLogEvent`.
pub open spec fn audit_log_event_code(v: AuditLogEvent) -> u16 {
    match v {
        AuditLogEvent::GuildUpdate => 1,
        AuditLogEvent::ChannelCreate => 10,
        AuditLogEvent::ChannelUpdate => 11,
        AuditLogEvent::ChannelDelete => 12,
        AuditLogEvent::ChannelOverwriteCreate => 13,
        AuditLogEvent::ChannelOverwriteUpdate => 14,
        AuditLogEvent::ChannelOverwriteDelete => 15,
        AuditLogEvent::MemberKick => 20,
        AuditLogEvent::MemberPrune => 21,
        AuditLogEvent::MemberBanAdd => 22,
        AuditLogEvent::MemberBanRemove => 23,
        AuditLogEvent::MemberUpdate => 24,
        AuditLogEvent::MemberRoleUpdate => 25,
        AuditLogEvent::MemberMove => 26,
        AuditLogEvent::MemberDisconnect => 27,
        AuditLogEvent::BotAdd => 28,
        AuditLogEvent::RoleCreate => 30,
        AuditLogEvent::RoleUpdate => 31,
        AuditLogEvent::RoleDelete => 32,
        AuditLogEvent::InviteCreate => 40,
        AuditLogEvent::InviteUpdate => 41,
        AuditLogEvent::InviteDelete => 42,
        AuditLogEvent::WebhookCreate => 50,
        AuditLogEvent::WebhookUpdate => 51,
        AuditLogEvent::WebhookDelete => 52,
        AuditLogEvent::EmojiCreate => 60,
        AuditLogEvent::EmojiUpdate => 61,
        AuditLogEvent::EmojiDelete => 62,
        AuditLogEvent::MessageDelete => 72,
        AuditLogEvent::MessageBulkDelete => 73,
        AuditLogEvent::MessagePin => 74,
        AuditLogEvent::MessageUnpin => 75,
        AuditLogEvent::IntegrationCreate => 80,
        AuditLogEvent::IntegrationUpdate => 81,
        AuditLogEvent::IntegrationDelete => 82,
        AuditLogEvent::StageInstanceCreate => 83,
        AuditLogEvent::StageInstanceUpdate => 84,
        AuditLogEvent::StageInstanceDelete => 85,
        AuditLogEvent::StickerCreate => 90,
        AuditLogEvent::StickerUpdate => 91,
        AuditLogEvent::StickerDelete => 92,
        AuditLogEvent::GuildScheduledEventCreate => 100,
        AuditLogEvent::GuildScheduledEventUpdate => 101,
        AuditLogEvent::GuildScheduledEventDelete => 102,
        AuditLogEvent::ThreadCreate => 110,
        AuditLogEvent::ThreadUpdate => 111,
        AuditLogEvent::ThreadDelete => 112,
        AuditLogEvent::ApplicationCommandPermissionUpdate => 121,
        AuditLogEvent::SoundboardSoundCreate => 130,
        AuditLogEvent::SoundboardSoundUpdate => 131,
        AuditLogEvent::SoundboardSoundDelete => 132,
        AuditLogEvent::AutoModerationRuleCreate => 140,
        AuditLogEvent::AutoModerationRuleUpdate => 141,
        AuditLogEvent::AutoModerationRuleDelete => 142,
        AuditLogEvent::AutoModerationBlockMessage => 143,
        AuditLogEvent::AutoModerationFlagToChannel => 144,
        AuditLogEvent::AutoModerationUserCommunicationDisabled => 145,
        AuditLogEvent::CreatorMonetizationRequestCreated => 150,
        AuditLogEvent::CreatorMonetizationTermsAccepted => 151,
        AuditLogEvent::OnboardingPromptCreate => 163,
        AuditLogEvent::OnboardingPromptUpdate => 164,
        AuditLogEvent::OnboardingPromptDelete => 165,
        AuditLogEvent::OnboardingCreate => 166,
        AuditLogEvent::OnboardingUpdate => 167,
        AuditLogEvent::HomeSettingsCreate => 190,
        AuditLogEvent::HomeSettingsUpdate => 191,
    }
}

impl AuditLogEvent {
    /// The wire code of this value.
    pub fn code(&self) -> (r: u16)
        ensures
            r == audit_log_event_code(*self),
    {
        match self {
            AuditLogEvent::GuildUpdate => 1,
            AuditLogEvent::ChannelCreate => 10,
            AuditLogEvent::ChannelUpdate => 11,
            AuditLogEvent::ChannelDelete => 12,
            AuditLogEvent::ChannelOverwriteCreate => 13,
            AuditLogEvent::ChannelOverwriteUpdate => 14,
            AuditLogEvent::ChannelOverwriteDelete => 15,
            AuditLogEvent::MemberKick => 20,
            AuditLogEvent::MemberPrune => 21,
            AuditLogEvent::MemberBanAdd => 22,
            AuditLogEvent::MemberBanRemove => 23,
            AuditLogEvent::MemberUpdate => 24,
            AuditLogEvent::MemberRoleUpdate => 25,
            AuditLogEvent::MemberMove => 26,
            AuditLogEvent::MemberDisconnect => 27,
            AuditLogEvent::BotAdd => 28,
            AuditLogEvent::RoleCreate => 30,
            AuditLogEvent::RoleUpdate => 31,
            AuditLogEvent::RoleDelete => 32,
            AuditLogEvent::InviteCreate => 40,
            AuditLogEvent::InviteUpdate => 41,
            AuditLogEvent::InviteDelete => 42,
            AuditLogEvent::WebhookCreate => 50,
            AuditLogEvent::WebhookUpdate => 51,
            AuditLogEvent::WebhookDelete => 52,
            AuditLogEvent::EmojiCreate => 60,
            AuditLogEvent::EmojiUpdate => 61,
            AuditLogEvent::EmojiDelete => 62,
            AuditLogEvent::MessageDelete => 72,
            AuditLogEvent::MessageBulkDelete => 73,
            AuditLogEvent::MessagePin => 74,
            AuditLogEvent::MessageUnpin => 75,
            AuditLogEvent::IntegrationCreate => 80,
            AuditLogEvent::IntegrationUpdate => 81,
            AuditLogEvent::IntegrationDelete => 82,
            AuditLogEvent::StageInstanceCreate => 83,
            AuditLogEvent::StageInstanceUpdate => 84,
            AuditLogEvent::StageInstanceDelete => 85,
            AuditLogEvent::StickerCreate => 90,
            AuditLogEvent::StickerUpdate => 91,
            AuditLogEvent::StickerDelete => 92,
            AuditLogEvent::GuildScheduledEventCreate => 100,
            AuditLogEvent::GuildScheduledEventUpdate => 101,
            AuditLogEvent::GuildScheduledEventDelete => 102,
            AuditLogEvent::ThreadCreate => 110,
            AuditLogEvent::ThreadUpdate => 111,
            AuditLogEvent::ThreadDelete => 112,
            AuditLogEvent::ApplicationCommandPermissionUpdate => 121,
            AuditLogEvent::SoundboardSoundCreate => 130,
            AuditLogEvent::SoundboardSoundUpdate => 131,
            AuditLogEvent::SoundboardSoundDelete => 132,
            AuditLogEvent::AutoModerationRuleCreate => 140,
            AuditLogEvent::AutoModerationRuleUpdate => 141,
            AuditLogEvent::AutoModerationRuleDelete => 142,
            AuditLogEvent::AutoModerationBlockMessage => 143,
            AuditLogEvent::AutoModerationFlagToChannel => 144,
            AuditLogEvent::AutoModerationUserCommunicationDisabled => 145,
            AuditLogEvent::CreatorMonetizationRequestCreated => 150,
            AuditLogEvent::CreatorMonetizationTermsAccepted => 151,
            AuditLogEvent::OnboardingPromptCreate => 163,
            AuditLogEvent::OnboardingPromptUpdate => 164,
            AuditLogEvent::OnboardingPromptDelete => 165,
            AuditLogEvent::OnboardingCreate => 166,
            AuditLogEvent::OnboardingUpdate => 167,
            AuditLogEvent::HomeSettingsCreate => 190,
            AuditLogEvent::HomeSettingsUpdate => 191,
        }
    }

    /// The value with this wire code, if any.
    pub fn from_code(code: u16) -> (r: Option<AuditLogEvent>)
        ensures
            r matches Some(v) ==> audit_log_event_code(v) == code,
            forall|v: AuditLogEvent| #[trigger] audit_log_event_code(v) == code ==> r == Some(v),
    {
        match code {
            1 => Some(AuditLogEvent::GuildUpdate),
            10 => Some(AuditLogEvent::ChannelCreate),
            11 => Some(AuditLogEvent::ChannelUpdate),
            12 => Some(AuditLogEvent::ChannelDelete),
            13 => Some(AuditLogEvent::ChannelOverwriteCreate),
            14 => Some(AuditLogEvent::ChannelOverwriteUpdate),
            15 => Some(AuditLogEvent::ChannelOverwriteDelete),
            20 => Some(AuditLogEvent::MemberKick),
            21 => Some(AuditLogEvent::MemberPrune),
            22 => Some(AuditLogEvent::MemberBanAdd),
            23 => Some(AuditLogEvent::MemberBanRemove),
            24 => Some(AuditLogEvent::MemberUpdate),
            25 => Some(AuditLogEvent::MemberRoleUpdate),
            26 => Some(AuditLogEvent::MemberMove),
            27 => Some(AuditLogEvent::MemberDisconnect),
            28 => Some(AuditLogEvent::BotAdd),
            30 => Some(AuditLogEvent::RoleCreate),
            31 => Some(AuditLogEvent::RoleUpdate),
            32 => Some(AuditLogEvent::RoleDelete),
            40 => Some(AuditLogEvent::InviteCreate),
            41 => Some(AuditLogEvent::InviteUpdate),
            42 => Some(AuditLogEvent::InviteDelete),
            50 => Some(AuditLogEvent::WebhookCreate),
            51 => Some(AuditLogEvent::WebhookUpdate),
            52 => Some(AuditLogEvent::WebhookDelete),
            60 => Some(AuditLogEvent::EmojiCreate),
            61 => Some(AuditLogEvent::EmojiUpdate),
            62 => Some(AuditLogEvent::EmojiDelete),
            72 => Some(AuditLogEvent::MessageDelete),
            73 => Some(AuditLogEvent::MessageBulkDelete),
            74 => Some(AuditLogEvent::MessagePin),
            75 => Some(AuditLogEvent::MessageUnpin),
            80 => Some(AuditLogEvent::IntegrationCreate),
            81 => Some(AuditLogEvent::IntegrationUpdate),
            82 => Some(AuditLogEvent::IntegrationDelete),
            83 => Some(AuditLogEvent::StageInstanceCreate),
            84 => Some(AuditLogEvent::StageInstanceUpdate),
            85 => Some(AuditLogEvent::StageInstanceDelete),
            90 => Some(AuditLogEvent::StickerCreate),
            91 => Some(AuditLogEvent::StickerUpdate),
            92 => Some(AuditLogEvent::StickerDelete),
            100 => Some(AuditLogEvent::GuildScheduledEventCreate),
            101 => Some(AuditLogEvent::GuildScheduledEventUpdate),
            102 => Some(AuditLogEvent::GuildScheduledEventDelete),
            110 => Some(AuditLogEvent::ThreadCreate),
            111 => Some(AuditLogEvent::ThreadUpdate),
            112 => Some(AuditLogEvent::ThreadDelete),
            121 => Some(AuditLogEvent::ApplicationCommandPermissionUpdate),
            130 => Some(AuditLogEvent::SoundboardSoundCreate),
            131 => Some(AuditLogEvent::SoundboardSoundUpdate),
            132 => Some(AuditLogEvent::SoundboardSoundDelete),
            140 => Some(AuditLogEvent::AutoModerationRuleCreate),
            141 => Some(AuditLogEvent::AutoModerationRuleUpdate),
            142 => Some(AuditLogEvent::AutoModerationRuleDelete),
            143 => Some(AuditLogEvent::AutoModerationBlockMessage),
            144 => Some(AuditLogEvent::AutoModerationFlagToChannel),
            145 => Some(AuditLogEvent::AutoModerationUserCommunicationDisabled),
            150 => Some(AuditLogEvent::CreatorMonetizationRequestCreated),
            151 => Some(AuditLogEvent::CreatorMonetizationTermsAccepted),
            163 => Some(AuditLogEvent::OnboardingPromptCreate),
            164 => Some(AuditLogEvent::OnboardingPromptUpdate),
            165 => Some(AuditLogEvent::OnboardingPromptDelete),
            166 => Some(AuditLogEvent::OnboardingCreate),
            167 => Some(AuditLogEvent::OnboardingUpdate),
            190 => Some(AuditLogEvent::HomeSettingsCreate),
            191 => Some(AuditLogEvent::HomeSettingsUpdate),
            _ => None,
        }
    }
}

} // verus!
