//! Playback coordination core for a guild-scoped media queue.
//!
//! The crate owns the playback state machine (current track, pending queue,
//! volume, voice-session lifecycle), the timed-notification scheduler with its
//! relative-time parser, and the pure decision logic around them.  Everything
//! that talks to the outside world (chat platform, audio transport, storage)
//! is driven through the small [`player::EngineAction`] command values that the
//! verified operations return; an embedding runs those actions and feeds the
//! resulting events back in.

use vstd::prelude::*;

pub mod checks;
pub mod notifier;
pub mod player;
pub mod search;
pub mod textutil;
pub mod timeparse;
pub mod track;

verus! {

/// The top-level error the command layer reports to users; playback,
/// notifier and search errors are folded into `InternalError` there.
#[derive(Debug)]
pub enum MusicBotError {
    /// A platform or engine failure, described in plain text.
    InternalError(String),
    /// The command ran outside any guild.
    NoGuildIdError,
    /// The author is not in a voice channel.
    UserNotInVoiceChannelError,
    /// The bot is not in a voice channel.
    BotNotInVoiceChannelError,
    /// Joining the author's voice channel failed.
    UnableToJoinVoiceChannelError,
}

impl MusicBotError {
    /// A short human-readable description of the error.
    pub fn message(&self) -> (r: &'static str)
        ensures
            *self matches MusicBotError::InternalError(_) ==> r@
                == "Whoops, an internal error occurred"@,
            *self is NoGuildIdError ==> r@ == "No guild ID found"@,
            *self is UserNotInVoiceChannelError ==> r@ == "User not in voice channel"@,
            *self is BotNotInVoiceChannelError ==> r@ == "Bot not in voice channel"@,
            *self is UnableToJoinVoiceChannelError ==> r@ == "Unable to join voice channel"@,
    {
        match self {
            MusicBotError::InternalError(_) => "Whoops, an internal error occurred",
            MusicBotError::NoGuildIdError => "No guild ID found",
            MusicBotError::UserNotInVoiceChannelError => "User not in voice channel",
            MusicBotError::BotNotInVoiceChannelError => "Bot not in voice channel",
            MusicBotError::UnableToJoinVoiceChannelError => "Unable to join voice channel",
        }
    }
}

} // verus!
