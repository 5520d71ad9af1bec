use vstd::prelude::*;
use crate::player::repeat::RepeatMode;
use crate::player::shuffle::ShuffleMode;

verus! {

/// Why a track's playback ended.
#[derive(Debug, Clone, Copy, PartialEq, Eq, Structural)]
pub enum EndReason {
    /// Track finished playing to its natural end.
    Eof,
    /// Stopped by an explicit Stop / Next / Prev command.
    Stopped,
    /// Playback ended due to an error.
    Error,
}

/// What the player reports to the application about its own state changes.
/// (Position, duration and volume reports come straight from the player's
/// property observations and are not decided here.)
#[derive(Debug, Clone, PartialEq, Eq)]
pub enum PlayerNotice {
    /// A new track has started loading into the player.
    TrackStarted { track_id: String },
    /// Playback of a track ended.
    TrackEnded { track_id: String, reason: EndReason },
    /// Player transitioned into the paused state.
    Paused,
    /// Player transitioned out of the paused state.
    Resumed,
    /// The upcoming queue is exhausted and the player entered idle.
    QueueEmpty,
    RepeatModeChanged(RepeatMode),
    ShuffleModeChanged(ShuffleMode),
    CrossfadeChanged { enabled: bool, seconds: u8 },
    QueueRefillRequested { mode: ShuffleMode, based_on_track_id: Option<String> },
    /// Loading a file failed; carries the player's description of the failure.
    PlaybackFailed(String),
}

} // verus!
