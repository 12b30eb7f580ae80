//! `AutoMod` types for Discord's automatic moderation system.
//!
//! `AutoMod` allows guilds to automatically filter and moderate content.
use vstd::prelude::*;
use crate::Snowflake;

verus! {

/// An `AutoMod` rule.
#[derive(Debug, Clone)]
pub struct AutoModRule {
    /// The ID of this rule.
    pub id: Snowflake,

    /// The ID of the guild which this rule belongs to.
    pub guild_id: Snowflake,

    /// The rule name.
    pub name: String,

    /// The user which first created this rule.
    pub creator_id: Snowflake,

    /// The rule event type.
    pub event_type: AutoModEventType,

    /// The rule trigger type.
    pub trigger_type: AutoModTriggerType,

    /// The rule trigger metadata.
    pub trigger_metadata: AutoModTriggerMetadata,

    /// The actions which will execute when the rule is triggered.
    pub actions: Vec<AutoModAction>,

    /// Whether the rule is enabled.
    pub enabled: bool,

    /// The role IDs that should not be affected by the rule.
    pub exempt_roles: Vec<Snowflake>,

    /// The channel IDs that should not be affected by the rule.
    pub exempt_channels: Vec<Snowflake>,
}

/// `AutoMod` event types.
#[derive(Debug, Clone, Copy, PartialEq, Eq, Structural)]
pub enum AutoModEventType {
    /// When a member sends or edits a message.
    MessageSend,
    /// When a member edits their profile.
    MemberUpdate,
}

/// `AutoMod` trigger types.
#[derive(Debug, Clone, Copy, PartialEq, Eq, Structural)]
pub enum AutoModTriggerType {
    /// Check if content contains words from a user defined list.
    Keyword,
    /// Check if content represents generic spam.
    Spam,
    /// Check if content contains words from internal pre-defined wordsets.
    KeywordPreset,
    /// Check if content contains more unique mentions than allowed.
    MentionSpam,
    /// Check if member profile contains words from a user defined list.
    MemberProfile,
}

/// Metadata for `AutoMod` triggers.
#[derive(Debug, Clone, Default)]
pub struct AutoModTriggerMetadata {
    /// Substrings which will be searched for in content.
    pub keyword_filter: Vec<String>,

    /// Regular expression patterns which will be matched against content.
    pub regex_patterns: Vec<String>,

    /// The internally pre-defined wordsets which will be searched for.
    pub presets: Vec<AutoModKeywordPresetType>,

    /// Substrings which should not trigger the rule.
    pub allow_list: Vec<String>,

    /// Total number of unique role and user mentions allowed per message.
    pub mention_total_limit: Option<u32>,

    /// Whether to automatically detect mention raids.
    pub mention_raid_protection_enabled: bool,
}

/// Pre-defined keyword preset types.
#[derive(Debug, Clone, Copy, PartialEq, Eq, Structural)]
pub enum AutoModKeywordPresetType {
    /// Words that may be considered forms of swearing or cursing.
    Profanity,
    /// Words that refer to sexually explicit behavior or activity.
    SexualContent,
    /// Personal insults or words that may be considered hate speech.
    Slurs,
}

/// An action which will execute whenever a rule is triggered.
#[derive(Debug, Clone)]
pub struct AutoModAction {
    /// The type of action.
    pub action_type: AutoModActionType,

    /// Additional metadata needed during execution.
    pub metadata: Option<AutoModActionMetadata>,
}

/// `AutoMod` action types.
#[derive(Debug, Clone, Copy, PartialEq, Eq, Structural)]
pub enum AutoModActionType {
    /// Blocks a member's message and prevents it from being posted.
    BlockMessage,
    /// Logs user content to a specified channel.
    SendAlertMessage,
    /// Timeout user for a specified duration.
    Timeout,
    /// Prevents a member from using text, voice, or other interactions.
    BlockMemberInteraction,
}

/// Metadata for `AutoMod` actions.
#[derive(Debug, Clone, Default)]
pub struct AutoModActionMetadata {
    /// Channel to which user content should be logged.
    pub channel_id: Option<Snowflake>,

    /// Timeout duration in seconds.
    pub duration_seconds: Option<u64>,

    /// Additional explanation that will be shown to members.
    pub custom_message: Option<String>,
}

/// Sent when a rule is triggered and an action is executed.
#[derive(Debug, Clone)]
pub struct AutoModActionExecution {
    /// ID of the guild in which action was executed.
    pub guild_id: Snowflake,

    /// Action which was executed.
    pub action: AutoModAction,

    /// ID of the rule which action belongs to.
    pub rule_id: Snowflake,

    /// Trigger type of rule which was triggered.
    pub rule_trigger_type: AutoModTriggerType,

    /// ID of the user which generated the content which triggered the rule.
    pub user_id: Snowflake,

    /// ID of the channel in which user content was posted.
    pub channel_id: Option<Snowflake>,

    /// ID of any user message which content belongs to.
    pub message_id: Option<Snowflake>,

    /// ID of any system auto moderation messages posted as a result of this action.
    pub alert_system_message_id: Option<Snowflake>,

    /// User-generated text content.
    pub content: String,

    /// Word or phrase configured in the rule that triggered the rule.
    pub matched_keyword: Option<String>,

    /// Substring in content that triggered the rule.
    pub matched_content: Option<String>,
}

/// The wire code of a `AutoModEventType`.
pub open spec fn auto_mod_event_type_code(v: AutoModEventType) -> u8 {
    match v {
        AutoModEventType::MessageSend => 1,
        AutoModEventType::MemberUpdate => 2,
    }
}

impl AutoModEventType {
    /// The wire code of this value.
    pub fn code(&self) -> (r: u8)
        ensures
            r == auto_mod_event_type_code(*self),
    {
        match self {
            AutoModEventType::MessageSend => 1,
            AutoModEventType::MemberUpdate => 2,
        }
    }

    /// The value with this wire code, if any.
    pub fn from_code(code: u8) -> (r: Option<AutoModEventType>)
        ensures
            r matches Some(v) ==> auto_mod_event_type_code(v) == code,
            forall|v: AutoModEventType| #[trigger] auto_mod_event_type_code(v) == code ==> r == Some(v),
    {
        match code {
            1 => Some(AutoModEventType::MessageSend),
            2 => Some(AutoModEventType::MemberUpdate),
            _ => None,
        }
    }
}

/// The wire code of a `AutoModTriggerType`.
pub open spec fn auto_mod_trigger_type_code(v: AutoModTriggerType) -> u8 {
    match v {
        AutoModTriggerType::Keyword => 1,
        AutoModTriggerType::Spam => 3,
        AutoModTriggerType::KeywordPreset => 4,
        AutoModTriggerType::MentionSpam => 5,
        AutoModTriggerType::MemberProfile => 6,
    }
}

impl AutoModTriggerType {
    /// The wire code of this value.
    pub fn code(&self) -> (r: u8)
        ensures
            r == auto_mod_trigger_type_code(*self),
    {
        match self {
            AutoModTriggerType::Keyword => 1,
            AutoModTriggerType::Spam => 3,
            AutoModTriggerType::KeywordPreset => 4,
            AutoModTriggerType::MentionSpam => 5,
            AutoModTriggerType::MemberProfile => 6,
        }
    }

    /// The value with this wire code, if any.
    pub fn from_code(code: u8) -> (r: Option<AutoModTriggerType>)
        ensures
            r matches Some(v) ==> auto_mod_trigger_type_code(v) == code,
            forall|v: AutoModTriggerType| #[trigger] auto_mod_trigger_type_code(v) == code ==> r == Some(v),
    {
        match code {
            1 => Some(AutoModTriggerType::Keyword),
            3 => Some(AutoModTriggerType::Spam),
            4 => Some(AutoModTriggerType::KeywordPreset),
            5 => Some(AutoModTriggerType::MentionSpam),
            6 => Some(AutoModTriggerType::MemberProfile),
            _ => None,
        }
    }
}

/// The wire code of a `AutoModKeywordPresetType`.
pub open spec fn auto_mod_keyword_preset_type_code(v: AutoModKeywordPresetType) -> u8 {
    match v {
        AutoModKeywordPresetType::Profanity => 1,
        AutoModKeywordPresetType::SexualContent => 2,
        AutoModKeywordPresetType::Slurs => 3,
    }
}

impl AutoModKeywordPresetType {
    /// The wire code of this value.
    pub fn code(&self) -> (r: u8)
        ensures
            r == auto_mod_keyword_preset_type_code(*self),
    {
        match self {
            AutoModKeywordPresetType::Profanity => 1,
            AutoModKeywordPresetType::SexualContent => 2,
            AutoModKeywordPresetType::Slurs => 3,
        }
    }

    /// The value with this wire code, if any.
    pub fn from_code(code: u8) -> (r: Option<AutoModKeywordPresetType>)
        ensures
            r matches Some(v) ==> auto_mod_keyword_preset_type_code(v) == code,
            forall|v: AutoModKeywordPresetType| #[trigger] auto_mod_keyword_preset_type_code(v) == code ==> r == Some(v),
    {
        match code {
            1 => Some(AutoModKeywordPresetType::Profanity),
            2 => Some(AutoModKeywordPresetType::SexualContent),
            3 => Some(AutoModKeywordPresetType::Slurs),
            _ => None,
        }
    }
}

/// The wire code of a `AutoModActionType`.
pub open spec fn auto_mod_action_type_code(v: AutoModActionType) -> u8 {
    match v {
        AutoModActionType::BlockMessage => 1,
        AutoModActionType::SendAlertMessage => 2,
        AutoModActionType::Timeout => 3,
        AutoModActionType::BlockMemberInteraction => 4,
    }
}

impl AutoModActionType {
    /// The wire code of this value.
    pub fn code(&self) -> (r: u8)
        ensures
            r == auto_mod_action_type_code(*self),
    {
        match self {
            AutoModActionType::BlockMessage => 1,
            AutoModActionType::SendAlertMessage => 2,
            AutoModActionType::Timeout => 3,
            AutoModActionType::BlockMemberInteraction => 4,
        }
    }

    /// The value with this wire code, if any.
    pub fn from_code(code: u8) -> (r: Option<AutoModActionType>)
        ensures
            r matches Some(v) ==> auto_mod_action_type_code(v) == code,
            forall|v: AutoModActionType| #[trigger] auto_mod_action_type_code(v) == code ==> r == Some(v),
    {
        match code {
            1 => Some(AutoModActionType::BlockMessage),
            2 => Some(AutoModActionType::SendAlertMessage),
            3 => Some(AutoModActionType::Timeout),
            4 => Some(AutoModActionType::BlockMemberInteraction),
            _ => None,
        }
    }
}

} // verus!
