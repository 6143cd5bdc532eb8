//! The playback engine: the state machine that the audio thread runs.
//!
//! The engine holds no device, clock, lock or channel. The thread that owns
//! the audio sink asks it what to do next, does it, and reports back:
//!
//! - `start` with the playlist pointer; `Action::Wait` means sleep for
//!   `RETRY_MILLIS` and start again, `Action::LoadPlaylist(dir)` means read
//!   `dir/playlist.json` and hand the result to `load`;
//! - `Action::OpenTrack(file)` means open and decode `dir/file` on a new sink
//!   and hand the result to `opened`;
//! - then, every `TICK_MILLIS`, `tick` with the sink's position, and while the
//!   track goes on `command` with at most one pending request;
//! - once a tick or a command ends the track, `checkpoint` with the playlist
//!   pointer as it is now.
use vstd::prelude::*;

use crate::player::{
    adopted_status, clamp_volume, clamped_volume, copy_text, PlayerCommand, PlayerConfig,
    PlayerEvent, PlayerStatus, FULL_VOLUME,
};
use crate::playlist::PlaylistMeta;

verus! {

/// Cadence of the tick loop: status refresh and command poll.
pub const TICK_MILLIS: u64 = 100;

/// Least time between two position events.
pub const POSITION_EVENT_MILLIS: u64 = 500;

/// Back-off while there is no playlist, its metadata is unreadable or it is empty.
pub const RETRY_MILLIS: u64 = 2000;

/// Where the engine stands in its cycle; each step takes one phase.
#[derive(Clone, Copy, Debug, PartialEq, Eq, Structural)]
pub enum Phase {
    /// No playlist adopted: call `start`.
    Idle,
    /// A directory was chosen: call `load`.
    Loading,
    /// A track was chosen: call `opened`.
    Opening,
    /// A track is on the sink: call `tick`, then `command`.
    Playing,
    /// The track ended or was cut short: call `checkpoint`.
    Boundary,
}

/// The outcome of opening and decoding a track file.
#[derive(Clone, Copy, Debug, PartialEq, Eq, Structural)]
pub enum TrackOpen {
    /// Decoded; the length in milliseconds where the decoder knows it.
    Decoded(Option<u64>),
    /// The file could not be opened or decoded; nothing goes on the sink.
    Failed,
}

/// What the audio thread is to do next.
#[derive(Clone, Debug, PartialEq, Eq)]
pub enum Action {
    /// Sleep for `RETRY_MILLIS`, then call `start`.
    Wait,
    /// Read `playlist.json` in this directory, then call `load`.
    LoadPlaylist(String),
    /// Open this file of the playlist directory on a new sink, then call `opened`.
    OpenTrack(String),
    /// Append the decoded source (through the effects chain if `effects`),
    /// pause the sink if `paused`, then tick.
    StartSink { effects: bool, paused: bool },
    /// Nothing goes on the sink: tick.
    Tick,
}

/// What a command asks of the sink.
#[derive(Clone, Copy, Debug, PartialEq, Eq, Structural)]
pub enum SinkOp {
    Keep,
    Play,
    Pause,
    /// Try to seek to this many seconds; report the outcome to `seek_done`.
    Seek(u64),
    /// Stop the sink: the track is over.
    Stop,
    /// Set the sink's volume, in thousandths.
    SetVolume(u32),
}

/// Events to publish, in order, and the next action.
pub struct Step {
    pub events: Vec<PlayerEvent>,
    pub action: Action,
}

/// Events to publish after a tick, and whether the track has ended.
pub struct TickOutcome {
    pub events: Vec<PlayerEvent>,
    pub ended: bool,
}

/// Events to publish after a command, what to do to the sink, and whether
/// the track is over.
pub struct CommandOutcome {
    pub events: Vec<PlayerEvent>,
    pub sink: SinkOp,
    pub ended: bool,
}

/// The engine's state, as the contracts speak of it.
pub struct EngineState {
    pub config: PlayerConfig,
    pub phase: Phase,
    /// The directory being played.
    pub dir: Option<String>,
    pub tracks: Seq<String>,
    /// Index of the current (or next) track.
    pub idx: int,
    /// Whether the sink is paused.
    pub paused: bool,
    /// The sink's volume, in thousandths.
    pub volume: int,
    /// Clock reading (milliseconds) of the last position event.
    pub last_position_event: int,
    pub status: PlayerStatus,
}

/// The index after `i` in a looping playlist of `n` tracks.
pub open spec fn following(i: int, n: int) -> int {
    if i + 1 >= n {
        0
    } else {
        i + 1
    }
}

/// The index before `i` in a looping playlist of `n` tracks.
pub open spec fn preceding(i: int, n: int) -> int {
    if i <= 0 {
        n - 1
    } else {
        i - 1
    }
}

/// Whether the pointer names the directory being played.
pub open spec fn same_dir(pointer: Option<String>, dir: Option<String>) -> bool {
    match (pointer, dir) {
        (Some(p), Some(d)) => p@ == d@,
        _ => false,
    }
}

/// The position, in milliseconds, that a successful seek to `secs` reaches,
/// saturated at the largest `u64`.
pub open spec fn seek_millis(secs: u64) -> int {
    if secs * 1000 > u64::MAX {
        u64::MAX as int
    } else {
        secs * 1000
    }
}

impl EngineState {
    pub open spec fn initial(config: PlayerConfig) -> EngineState {
        EngineState {
            config,
            phase: Phase::Idle,
            dir: None,
            tracks: Seq::empty(),
            idx: 0,
            paused: false,
            volume: FULL_VOLUME as int,
            last_position_event: 0,
            status: crate::player::blank_status(),
        }
    }

    pub open spec fn wf(self) -> bool {
        &&& 0 <= self.volume <= FULL_VOLUME
        &&& 0 <= self.last_position_event <= u64::MAX
        &&& 0 <= self.idx
        &&& self.tracks.len() <= usize::MAX
        &&& self.phase is Playing ==> {
            &&& self.status.is_paused == Some(self.paused)
            &&& self.status.volume == Some(self.volume as u32)
        }
        &&& (self.phase is Opening || self.phase is Playing) ==> {
            &&& self.status.current_index == self.idx
            &&& self.status.current_track == Some(self.tracks[self.idx])
        }
        &&& self.status.volume matches Some(v) ==> v <= FULL_VOLUME
        &&& self.status.current_track matches Some(name) ==> {
            &&& self.status.current_index < self.tracks.len()
            &&& name == self.tracks[self.status.current_index as int]
        }
        &&& self.phase is Loading ==> self.dir is Some
        &&& (self.phase is Opening || self.phase is Playing || self.phase is Boundary) ==> {
            &&& self.dir is Some
            &&& self.idx < self.tracks.len()
        }
    }

    /// Adopting the pointer: load its directory, or wait if it is unset.
    pub open spec fn started(self, pointer: Option<String>) -> (EngineState, Action) {
        match pointer {
            None => (EngineState { phase: Phase::Idle, dir: None, ..self }, Action::Wait),
            Some(d) => (EngineState { phase: Phase::Loading, dir: Some(d), ..self }, Action::LoadPlaylist(d)),
        }
    }

    /// Entering track `i`: announce it, show it, open its file.
    pub open spec fn entered(self, i: int) -> (EngineState, Seq<PlayerEvent>, Action) {
        let name = self.tracks[i];
        (
            EngineState {
                phase: Phase::Opening,
                idx: i,
                status: PlayerStatus { current_index: i as usize, current_track: Some(name), ..self.status },
                ..self
            },
            seq![PlayerEvent::TrackChanged { idx: i as usize, name }],
            Action::OpenTrack(name),
        )
    }

    /// Adopting loaded metadata (or waiting when there is none or it lists
    /// no track).
    pub open spec fn loaded(self, meta: Option<PlaylistMeta>) -> (EngineState, Seq<PlayerEvent>, Action) {
        match meta {
            None => (EngineState { phase: Phase::Idle, ..self }, seq![], Action::Wait),
            Some(m) => {
                let fresh = EngineState {
                    tracks: m.tracks@,
                    idx: 0,
                    status: adopted_status(m.id, m.name),
                    ..self
                };
                let changed = seq![PlayerEvent::PlaylistChanged { id: m.id, name: m.name }];
                if m.tracks@.len() == 0 {
                    (EngineState { phase: Phase::Idle, ..fresh }, changed, Action::Wait)
                } else {
                    let e = fresh.entered(0);
                    (e.0, changed + e.1, e.2)
                }
            }
        }
    }

    /// A new sink for the current track, with the decoded source or without.
    pub open spec fn opened(self, result: TrackOpen, now: u64) -> (EngineState, Seq<PlayerEvent>, Action) {
        let fresh = EngineState {
            phase: Phase::Playing,
            paused: false,
            volume: FULL_VOLUME as int,
            last_position_event: now as int,
            status: PlayerStatus { is_paused: Some(false), volume: Some(FULL_VOLUME), ..self.status },
            ..self
        };
        match result {
            TrackOpen::Decoded(d) => {
                let paused = !self.config.auto_play;
                let changed = seq![PlayerEvent::DurationChanged { duration: d }];
                (
                    EngineState {
                        paused,
                        status: PlayerStatus { total_duration: d, is_paused: Some(paused), ..fresh.status },
                        ..fresh
                    },
                    if paused { changed.push(PlayerEvent::Paused) } else { changed },
                    Action::StartSink { effects: self.config.default_audio_effects, paused },
                )
            },
            TrackOpen::Failed => (fresh, seq![], Action::Tick),
        }
    }

    /// One tick: refresh the status from the sink, publish the position when
    /// it is due, and end the track once the sink has nothing left.
    pub open spec fn ticked(self, position: u64, empty: bool, now: u64) -> (EngineState, Seq<PlayerEvent>, bool) {
        let due = now >= self.last_position_event + POSITION_EVENT_MILLIS;
        let s = EngineState {
            status: PlayerStatus {
                current_pos: Some(position),
                is_paused: Some(self.paused),
                volume: Some(self.volume as u32),
                ..self.status
            },
            last_position_event: if due { now as int } else { self.last_position_event },
            ..self
        };
        let events = if due { seq![PlayerEvent::PositionChanged { position }] } else { seq![] };
        if empty {
            (EngineState { phase: Phase::Boundary, idx: following(self.idx, self.tracks.len() as int), ..s }, events, true)
        } else {
            (s, events, false)
        }
    }

    /// Cutting the track short, to continue at track `i`.
    pub open spec fn cut(self, i: int) -> EngineState {
        EngineState { phase: Phase::Boundary, idx: i, ..self }
    }

    /// Acting on at most one command.
    pub open spec fn commanded(self, cmd: Option<PlayerCommand>) -> (EngineState, Seq<PlayerEvent>, SinkOp) {
        let n = self.tracks.len() as int;
        match cmd {
            None => (self, seq![], SinkOp::Keep),
            Some(PlayerCommand::Play) => if self.paused {
                (
                    EngineState { paused: false, status: PlayerStatus { is_paused: Some(false), ..self.status }, ..self },
                    seq![PlayerEvent::Played],
                    SinkOp::Play,
                )
            } else {
                (self, seq![], SinkOp::Keep)
            },
            Some(PlayerCommand::Pause) => if !self.paused {
                (
                    EngineState { paused: true, status: PlayerStatus { is_paused: Some(true), ..self.status }, ..self },
                    seq![PlayerEvent::Paused],
                    SinkOp::Pause,
                )
            } else {
                (self, seq![], SinkOp::Keep)
            },
            Some(PlayerCommand::Seek(secs)) => (self, seq![], SinkOp::Seek(secs)),
            Some(PlayerCommand::Prev) => (self.cut(preceding(self.idx, n)), seq![], SinkOp::Stop),
            Some(PlayerCommand::Next) => (self.cut(following(self.idx, n)), seq![], SinkOp::Stop),
            Some(PlayerCommand::SetVolume(v)) => {
                let c = clamped_volume(v as int);
                (
                    EngineState { volume: c, status: PlayerStatus { volume: Some(c as u32), ..self.status }, ..self },
                    seq![PlayerEvent::VolumeChanged { value: c as u32 }],
                    SinkOp::SetVolume(c as u32),
                )
            },
            Some(PlayerCommand::SetIndex(i)) => if i as int != self.idx {
                (self.cut((i as int) % n), seq![], SinkOp::Stop)
            } else {
                (self, seq![], SinkOp::Keep)
            },
        }
    }

    /// At a track boundary: go on with the same playlist, or adopt the
    /// pointer's new value.
    pub open spec fn checked(self, pointer: Option<String>) -> (EngineState, Seq<PlayerEvent>, Action) {
        if same_dir(pointer, self.dir) {
            self.entered(self.idx)
        } else {
            let s = self.started(pointer);
            (s.0, seq![], s.1)
        }
    }
}

/// The playback engine. See the module documentation for the protocol.
pub struct Engine {
    config: PlayerConfig,
    phase: Phase,
    dir: Option<String>,
    tracks: Vec<String>,
    idx: usize,
    paused: bool,
    volume: u32,
    last_position_event: u64,
    status: PlayerStatus,
}

impl View for Engine {
    type V = EngineState;

    closed spec fn view(&self) -> EngineState {
        EngineState {
            config: self.config,
            phase: self.phase,
            dir: self.dir,
            tracks: self.tracks@,
            idx: self.idx as int,
            paused: self.paused,
            volume: self.volume as int,
            last_position_event: self.last_position_event as int,
            status: self.status,
        }
    }
}

impl Engine {
    /// An idle engine.
    pub fn new(config: PlayerConfig) -> (r: Engine)
        ensures
            r@ == EngineState::initial(config),
            r@.wf(),
    {
        let r = Engine {
            config,
            phase: Phase::Idle,
            dir: None,
            tracks: Vec::new(),
            idx: 0,
            paused: false,
            volume: FULL_VOLUME,
            last_position_event: 0,
            status: PlayerStatus::default(),
        };
        assert(r@.tracks =~= Seq::<String>::empty());
        r
    }

    pub fn phase(&self) -> (r: Phase)
        ensures
            r == self@.phase,
    {
        self.phase
    }

    pub fn config(&self) -> (r: PlayerConfig)
        ensures
            r == self@.config,
    {
        self.config
    }

    /// The status as the engine last wrote it.
    pub fn status(&self) -> (r: PlayerStatus)
        ensures
            r == self@.status,
    {
        self.status.snapshot()
    }

    /// The directory being played, if any.
    pub fn dir(&self) -> (r: Option<String>)
        ensures
            r == self@.dir,
    {
        copy_text(&self.dir)
    }

    /// Adopts the playlist pointer.
    pub fn start(&mut self, pointer: Option<String>) -> (r: Action)
        requires
            old(self)@.wf(),
            old(self)@.phase is Idle,
        ensures
            final(self)@ == old(self)@.started(pointer).0,
            r == old(self)@.started(pointer).1,
            final(self)@.wf(),
    {
        match pointer {
            None => {
                self.phase = Phase::Idle;
                self.dir = None;
                Action::Wait
            },
            Some(d) => {
                let a = Action::LoadPlaylist(d.clone());
                self.phase = Phase::Loading;
                self.dir = Some(d);
                a
            },
        }
    }

    /// Enters the current track.
    fn enter(&mut self, events: &mut Vec<PlayerEvent>) -> (r: Action)
        requires
            old(self)@.wf(),
            old(self)@.dir is Some,
            old(self)@.idx < old(self)@.tracks.len(),
        ensures
            final(self)@ == old(self)@.entered(old(self)@.idx).0,
            final(events)@ == old(events)@ + old(self)@.entered(old(self)@.idx).1,
            r == old(self)@.entered(old(self)@.idx).2,
            final(self)@.wf(),
    {
        let i = self.idx;
        let name = self.tracks[i].clone();
        events.push(PlayerEvent::TrackChanged { idx: i, name: name.clone() });
        self.phase = Phase::Opening;
        self.status.current_index = i;
        self.status.current_track = Some(name.clone());
        Action::OpenTrack(name)
    }

    /// Adopts the metadata read from the chosen directory, or `None` when it
    /// was missing or unreadable.
    pub fn load(&mut self, meta: Option<PlaylistMeta>) -> (r: Step)
        requires
            old(self)@.wf(),
            old(self)@.phase is Loading,
        ensures
            final(self)@ == old(self)@.loaded(meta).0,
            r.events@ == old(self)@.loaded(meta).1,
            r.action == old(self)@.loaded(meta).2,
            final(self)@.wf(),
    {
        let mut events: Vec<PlayerEvent> = Vec::new();
        match meta {
            None => {
                self.phase = Phase::Idle;
                assert(events@ =~= seq![]);
                Step { events, action: Action::Wait }
            },
            Some(m) => {
                let PlaylistMeta { id, name, created_at: _, sources: _, tracks } = m;
                events.push(PlayerEvent::PlaylistChanged { id: id.clone(), name: name.clone() });
                let empty = tracks.len() == 0;
                self.tracks = tracks;
                self.idx = 0;
                self.status = PlayerStatus {
                    playlist_id: Some(id),
                    playlist_name: Some(name),
                    current_index: 0,
                    current_track: None,
                    current_pos: None,
                    total_duration: None,
                    is_paused: None,
                    volume: None,
                };
                if empty {
                    self.phase = Phase::Idle;
                    Step { events, action: Action::Wait }
                } else {
                    let action = self.enter(&mut events);
                    Step { events, action }
                }
            },
        }
    }

    /// Takes the outcome of opening the current track on a new sink; `now`
    /// is a monotonic clock reading in milliseconds.
    pub fn opened(&mut self, result: TrackOpen, now: u64) -> (r: Step)
        requires
            old(self)@.wf(),
            old(self)@.phase is Opening,
        ensures
            final(self)@ == old(self)@.opened(result, now).0,
            r.events@ == old(self)@.opened(result, now).1,
            r.action == old(self)@.opened(result, now).2,
            final(self)@.wf(),
    {
        let mut events: Vec<PlayerEvent> = Vec::new();
        self.phase = Phase::Playing;
        self.paused = false;
        self.volume = FULL_VOLUME;
        self.last_position_event = now;
        self.status.is_paused = Some(false);
        self.status.volume = Some(FULL_VOLUME);
        match result {
            TrackOpen::Decoded(d) => {
                let paused = !self.config.auto_play;
                self.paused = paused;
                self.status.is_paused = Some(paused);
                self.status.total_duration = d;
                events.push(PlayerEvent::DurationChanged { duration: d });
                if paused {
                    events.push(PlayerEvent::Paused);
                }
                Step { events, action: Action::StartSink { effects: self.config.default_audio_effects, paused } }
            },
            TrackOpen::Failed => {
                assert(events@ =~= seq![]);
                Step { events, action: Action::Tick }
            },
        }
    }

    /// One tick of the current track: `position` is the sink's position in
    /// milliseconds, `empty` whether it has nothing left to play, `now` a
    /// monotonic clock reading in milliseconds.
    pub fn tick(&mut self, position: u64, empty: bool, now: u64) -> (r: TickOutcome)
        requires
            old(self)@.wf(),
            old(self)@.phase is Playing,
        ensures
            final(self)@ == old(self)@.ticked(position, empty, now).0,
            r.events@ == old(self)@.ticked(position, empty, now).1,
            r.ended == old(self)@.ticked(position, empty, now).2,
            final(self)@.wf(),
    {
        let mut events: Vec<PlayerEvent> = Vec::new();
        self.status.current_pos = Some(position);
        self.status.is_paused = Some(self.paused);
        self.status.volume = Some(self.volume);
        if now >= self.last_position_event && now - self.last_position_event >= POSITION_EVENT_MILLIS {
            events.push(PlayerEvent::PositionChanged { position });
            self.last_position_event = now;
        }
        assert(events@ =~= old(self)@.ticked(position, empty, now).1);
        if empty {
            self.phase = Phase::Boundary;
            let n = self.tracks.len();
            self.idx = if self.idx >= n - 1 { 0 } else { self.idx + 1 };
            TickOutcome { events, ended: true }
        } else {
            TickOutcome { events, ended: false }
        }
    }

    /// Acts on at most one command.
    pub fn command(&mut self, cmd: Option<PlayerCommand>) -> (r: CommandOutcome)
        requires
            old(self)@.wf(),
            old(self)@.phase is Playing,
        ensures
            final(self)@ == old(self)@.commanded(cmd).0,
            r.events@ == old(self)@.commanded(cmd).1,
            r.sink == old(self)@.commanded(cmd).2,
            r.ended == (final(self)@.phase is Boundary),
            final(self)@.wf(),
    {
        let mut events: Vec<PlayerEvent> = Vec::new();
        let n = self.tracks.len();
        let sink = match cmd {
            None => SinkOp::Keep,
            Some(PlayerCommand::Play) => {
                if self.paused {
                    self.paused = false;
                    self.status.is_paused = Some(false);
                    events.push(PlayerEvent::Played);
                    SinkOp::Play
                } else {
                    SinkOp::Keep
                }
            },
            Some(PlayerCommand::Pause) => {
                if !self.paused {
                    self.paused = true;
                    self.status.is_paused = Some(true);
                    events.push(PlayerEvent::Paused);
                    SinkOp::Pause
                } else {
                    SinkOp::Keep
                }
            },
            Some(PlayerCommand::Seek(secs)) => SinkOp::Seek(secs),
            Some(PlayerCommand::Prev) => {
                self.idx = if self.idx == 0 { n - 1 } else { self.idx - 1 };
                self.phase = Phase::Boundary;
                SinkOp::Stop
            },
            Some(PlayerCommand::Next) => {
                self.idx = if self.idx >= n - 1 { 0 } else { self.idx + 1 };
                self.phase = Phase::Boundary;
                SinkOp::Stop
            },
            Some(PlayerCommand::SetVolume(v)) => {
                let c = clamp_volume(v);
                self.volume = c;
                self.status.volume = Some(c);
                events.push(PlayerEvent::VolumeChanged { value: c });
                SinkOp::SetVolume(c)
            },
            Some(PlayerCommand::SetIndex(i)) => {
                if i != self.idx {
                    self.idx = i % n;
                    self.phase = Phase::Boundary;
                    SinkOp::Stop
                } else {
                    SinkOp::Keep
                }
            },
        };
        assert(events@ =~= old(self)@.commanded(cmd).1);
        let ended = self.phase == Phase::Boundary;
        CommandOutcome { events, sink, ended }
    }

    /// The event that a seek to `secs` seconds yields, given whether the sink
    /// managed it; a failed seek is dropped.
    pub fn seek_done(&self, secs: u64, ok: bool) -> (r: Option<PlayerEvent>)
        ensures
            r == (if ok {
                Some(PlayerEvent::PositionChanged { position: seek_millis(secs) as u64 })
            } else {
                None
            }),
    {
        if ok {
            let position = if secs > u64::MAX / 1000 { u64::MAX } else { secs * 1000 };
            Some(PlayerEvent::PositionChanged { position })
        } else {
            None
        }
    }

    /// At a track boundary, with the playlist pointer as it is now.
    pub fn checkpoint(&mut self, pointer: Option<String>) -> (r: Step)
        requires
            old(self)@.wf(),
            old(self)@.phase is Boundary,
        ensures
            final(self)@ == old(self)@.checked(pointer).0,
            r.events@ == old(self)@.checked(pointer).1,
            r.action == old(self)@.checked(pointer).2,
            final(self)@.wf(),
    {
        let same = match (&pointer, &self.dir) {
            (Some(p), Some(d)) => *p == *d,
            _ => false,
        };
        let mut events: Vec<PlayerEvent> = Vec::new();
        if same {
            let action = self.enter(&mut events);
            assert(events@ =~= old(self)@.checked(pointer).1);
            Step { events, action }
        } else {
            self.phase = Phase::Idle;
            let action = self.start(pointer);
            assert(events@ =~= seq![]);
            Step { events, action }
        }
    }
}

} // verus!
