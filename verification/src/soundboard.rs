//! Soundboard types for Discord's soundboard feature.
//!
//! Soundboard sounds can be played in voice channels.
use vstd::prelude::*;
use crate::Snowflake;

verus! {

/// A soundboard sound.
#[derive(Debug, Clone)]
pub struct SoundboardSound<'a> {
    /// The name of this sound.
    pub name: String,

    /// The ID of this sound.
    pub sound_id: Snowflake,

    /// The ID of this sound's custom emoji.
    pub emoji_id: Option<Snowflake>,

    /// The unicode character of this sound's standard emoji.
    pub emoji_name: Option<String>,

    /// The ID of the guild this sound is in.
    pub guild_id: Option<Snowflake>,

    /// Whether this sound can be used.
    pub available: bool,

    /// The user who created this sound.
    pub user: Option<super::User<'a>>,
}

/// Event data for `SOUNDBOARD_SOUND_DELETE`.
#[derive(Debug, Clone)]
pub struct SoundboardSoundDeleteEvent {
    /// The ID of the sound.
    pub sound_id: Snowflake,

    /// The ID of the guild.
    pub guild_id: Snowflake,
}

/// Event data for `SOUNDBOARD_SOUNDS_UPDATE`.
#[derive(Debug, Clone)]
pub struct SoundboardSoundsUpdateEvent<'a> {
    /// The soundboard sounds.
    pub soundboard_sounds: Vec<SoundboardSound<'a>>,

    /// The ID of the guild (not in payload but added by gateway).
    pub guild_id: Option<Snowflake>,
}

/// Event data for `GUILD_SOUNDBOARD_SOUNDS_UPDATE`.
#[derive(Debug, Clone)]
pub struct GuildSoundboardSoundsUpdateEvent<'a> {
    /// The soundboard sounds.
    pub soundboard_sounds: Vec<SoundboardSound<'a>>,

    /// The ID of the guild.
    pub guild_id: Snowflake,
}

} // verus!
