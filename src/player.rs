//! Values exchanged between the player's callers, its engine and the thread
//! that owns the audio device.
use vstd::prelude::*;

verus! {

/// Volume is held in thousandths: `FULL_VOLUME` is unity gain.
pub const FULL_VOLUME: u32 = 1000;

/// How the player starts each track, fixed at construction.
#[derive(Clone, Copy, Debug, PartialEq, Eq, Structural, Default)]
pub struct PlayerConfig {
    /// Start each decoded track playing (`true`) or paused.
    pub auto_play: bool,
    /// Run decoded audio through the gain control and limiter chain.
    pub default_audio_effects: bool,
}

/// What `set_playlist_dir` does with the track that is playing.
#[derive(Clone, Copy, Debug, PartialEq, Eq, Structural)]
pub enum SetPlaylistMode {
    /// Let the current track finish; the new playlist starts at the next boundary.
    Queue,
    /// Force a track boundary now, so the new playlist starts at once.
    Skip,
}

/// A transport request, consumed at most once by the engine.
#[derive(Clone, Copy, Debug, PartialEq, Eq, Structural)]
pub enum PlayerCommand {
    Play,
    Pause,
    Prev,
    Next,
    /// Seek to this many whole seconds into the track.
    Seek(u64),
    /// Set the volume, in thousandths; clamped into `0..=FULL_VOLUME`.
    SetVolume(i64),
    /// Jump to this track index, taken modulo the number of tracks. Any
    /// index other than the current one ends the current track.
    SetIndex(usize),
}

/// The command that adopting a playlist in `mode` sends after the pointer
/// is swapped.
pub open spec fn forced(mode: SetPlaylistMode) -> Option<PlayerCommand> {
    match mode {
        SetPlaylistMode::Queue => None,
        SetPlaylistMode::Skip => Some(PlayerCommand::Next),
    }
}

impl SetPlaylistMode {
    /// The command that adopting a playlist in this mode sends after the
    /// pointer is swapped.
    pub fn forced_command(&self) -> (r: Option<PlayerCommand>)
        ensures
            r == forced(*self),
    {
        match self {
            SetPlaylistMode::Queue => None,
            SetPlaylistMode::Skip => Some(PlayerCommand::Next),
        }
    }
}

/// `v` clamped into `0..=FULL_VOLUME`.
pub open spec fn clamped_volume(v: int) -> int {
    if v < 0 {
        0
    } else if v > FULL_VOLUME as int {
        FULL_VOLUME as int
    } else {
        v
    }
}

/// Clamps a requested volume (in thousandths) into `0..=FULL_VOLUME`.
pub fn clamp_volume(v: i64) -> (r: u32)
    ensures
        r as int == clamped_volume(v as int),
        r <= FULL_VOLUME,
{
    if v < 0 {
        0
    } else if v > FULL_VOLUME as i64 {
        FULL_VOLUME
    } else {
        v as u32
    }
}

/// A snapshot of what the player is doing. Every field is optional because
/// no playlist may be loaded yet.
#[derive(Clone, Debug, PartialEq, Eq)]
pub struct PlayerStatus {
    pub playlist_id: Option<String>,
    pub playlist_name: Option<String>,
    /// Index of the current track, 0-based.
    pub current_index: usize,
    pub current_track: Option<String>,
    /// Position in the current track, in milliseconds.
    pub current_pos: Option<u64>,
    /// Length of the current track, in milliseconds.
    pub total_duration: Option<u64>,
    pub is_paused: Option<bool>,
    /// In thousandths, within `0..=FULL_VOLUME`.
    pub volume: Option<u32>,
}

/// The status before any playlist is adopted.
pub open spec fn blank_status() -> PlayerStatus {
    PlayerStatus {
        playlist_id: None,
        playlist_name: None,
        current_index: 0,
        current_track: None,
        current_pos: None,
        total_duration: None,
        is_paused: None,
        volume: None,
    }
}

/// The status right after the playlist `id`, `name` is adopted.
pub open spec fn adopted_status(id: String, name: String) -> PlayerStatus {
    PlayerStatus { playlist_id: Some(id), playlist_name: Some(name), ..blank_status() }
}

pub(crate) fn copy_text(s: &Option<String>) -> (r: Option<String>)
    ensures
        r == *s,
{
    match s {
        Some(t) => Some(t.clone()),
        None => None,
    }
}

impl PlayerStatus {
    /// A copy of this status, for a caller outside the engine.
    pub fn snapshot(&self) -> (r: PlayerStatus)
        ensures
            r == *self,
    {
        PlayerStatus {
            playlist_id: copy_text(&self.playlist_id),
            playlist_name: copy_text(&self.playlist_name),
            current_index: self.current_index,
            current_track: copy_text(&self.current_track),
            current_pos: self.current_pos,
            total_duration: self.total_duration,
            is_paused: self.is_paused,
            volume: self.volume,
        }
    }
}

impl Default for PlayerStatus {
    fn default() -> (r: PlayerStatus)
        ensures
            r == blank_status(),
    {
        PlayerStatus {
            playlist_id: None,
            playlist_name: None,
            current_index: 0,
            current_track: None,
            current_pos: None,
            total_duration: None,
            is_paused: None,
            volume: None,
        }
    }
}

/// What the engine publishes to its subscribers.
#[derive(Clone, Debug, PartialEq, Eq)]
pub enum PlayerEvent {
    Played,
    Paused,
    TrackChanged { idx: usize, name: String },
    /// Length of the new track in milliseconds, where the decoder knows it.
    DurationChanged { duration: Option<u64> },
    PlaylistChanged { id: String, name: String },
    /// Position in the track, in milliseconds.
    PositionChanged { position: u64 },
    /// New volume, in thousandths.
    VolumeChanged { value: u32 },
}

} // verus!
