//! What the engine's cycle guarantees over several steps.
use vstd::prelude::*;

use crate::engine::{following, same_dir, Action, EngineState, SinkOp, TrackOpen};
use crate::player::{forced, PlayerCommand, PlayerEvent, SetPlaylistMode, FULL_VOLUME};
use crate::playlist::PlaylistMeta;

verus! {

/// Once a directory is adopted and its metadata lists at least one track,
/// the status shows that playlist at index 0 with its first track, and the
/// first track is opened.
pub proof fn adopting_shows_first_track(s: EngineState, dir: String, meta: PlaylistMeta)
    requires
        s.wf(),
        s.phase is Idle,
        meta.tracks@.len() >= 1,
    ensures
        ({
            let l = s.started(Some(dir)).0.loaded(Some(meta));
            &&& s.started(Some(dir)).1 == Action::LoadPlaylist(dir)
            &&& l.0.status.playlist_id == Some(meta.id)
            &&& l.0.status.current_index == 0
            &&& l.0.status.current_track == Some(meta.tracks@[0])
            &&& l.2 == Action::OpenTrack(meta.tracks@[0])
        }),
{
}

/// A directory adopted while another plays takes over at the next track
/// boundary, and once its metadata is read the status shows its first
/// track at index 0.
pub proof fn adopting_at_a_boundary_shows_first_track(s: EngineState, dir: String, meta: PlaylistMeta)
    requires
        s.wf(),
        s.phase is Boundary,
        !same_dir(Some(dir), s.dir),
        meta.tracks@.len() >= 1,
    ensures
        ({
            let c = s.checked(Some(dir));
            let l = c.0.loaded(Some(meta));
            &&& c.2 == Action::LoadPlaylist(dir)
            &&& l.0.status.playlist_id == Some(meta.id)
            &&& l.0.status.current_index == 0
            &&& l.0.status.current_track == Some(meta.tracks@[0])
            &&& l.2 == Action::OpenTrack(meta.tracks@[0])
        }),
{
}

/// `Next` at index `i` of `n` tracks goes on at `(i + 1) mod n`.
pub proof fn next_wraps_forward(s: EngineState, pointer: Option<String>)
    requires
        s.wf(),
        s.phase is Playing,
        same_dir(pointer, s.dir),
    ensures
        ({
            let n = s.tracks.len() as int;
            let c = s.commanded(Some(PlayerCommand::Next));
            let t = c.0.checked(pointer);
            &&& c.2 == SinkOp::Stop
            &&& c.0.idx == (s.idx + 1) % n
            &&& t.0.status.current_index == (s.idx + 1) % n
            &&& t.0.status.current_track == Some(s.tracks[(s.idx + 1) % n])
        }),
{
    let n = s.tracks.len() as int;
    if s.idx + 1 == n {
        assert((s.idx + 1) % n == 0) by (nonlinear_arith)
            requires s.idx + 1 == n, n > 0;
    } else {
        assert((s.idx + 1) % n == s.idx + 1) by (nonlinear_arith)
            requires 0 <= s.idx + 1 < n;
    }
}

/// `Prev` at index 0 of `n` tracks goes on at `n - 1`.
pub proof fn prev_wraps_backward(s: EngineState, pointer: Option<String>)
    requires
        s.wf(),
        s.phase is Playing,
        s.idx == 0,
        same_dir(pointer, s.dir),
    ensures
        ({
            let n = s.tracks.len() as int;
            let t = s.commanded(Some(PlayerCommand::Prev)).0.checked(pointer);
            &&& t.0.idx == n - 1
            &&& t.0.status.current_index == n - 1
            &&& t.0.status.current_track == Some(s.tracks[n - 1])
        }),
{
}

/// `SetIndex(i)` with `i` other than the current index ends the track and
/// goes on at `i mod n` of the `n` tracks, announcing that track and no
/// playlist change; `SetIndex` of the current index leaves it playing.
pub proof fn set_index_wraps(s: EngineState, i: usize, pointer: Option<String>)
    requires
        s.wf(),
        s.phase is Playing,
        same_dir(pointer, s.dir),
    ensures
        ({
            let n = s.tracks.len() as int;
            let k = (i as int) % n;
            let c = s.commanded(Some(PlayerCommand::SetIndex(i)));
            let t = c.0.checked(pointer);
            &&& i != s.idx ==> {
                &&& c.2 == SinkOp::Stop
                &&& t.1 == seq![PlayerEvent::TrackChanged { idx: k as usize, name: s.tracks[k] }]
                &&& t.0.status.current_index == k
                &&& t.0.status.current_track == Some(s.tracks[k])
            }
            &&& i == s.idx ==> c.0 == s && c.1 == Seq::<PlayerEvent>::empty() && c.2 == SinkOp::Keep
        }),
{
}

/// Whatever volume is asked for, the sink and the status get it clamped
/// into `0..=FULL_VOLUME`, and it stays so on the next tick.
pub proof fn volume_is_clamped(s: EngineState, v: i64, position: u64, now: u64)
    requires
        s.wf(),
        s.phase is Playing,
    ensures
        ({
            let c = s.commanded(Some(PlayerCommand::SetVolume(v)));
            let w: int = if v < 0 { 0 } else if v > FULL_VOLUME { FULL_VOLUME as int } else { v as int };
            &&& 0 <= w <= FULL_VOLUME
            &&& c.0.status.volume == Some(w as u32)
            &&& c.2 == SinkOp::SetVolume(w as u32)
            &&& c.0.ticked(position, false, now).0.status.volume == Some(w as u32)
        }),
{
}

/// Adopting another directory in `Skip` mode mid-track cuts the track at
/// the next command poll, without waiting for the track to end, and the
/// boundary then loads the new directory. In `Queue` mode the track plays on.
pub proof fn skip_cuts_the_track(s: EngineState, dir: String)
    requires
        s.wf(),
        s.phase is Playing,
        !same_dir(Some(dir), s.dir),
    ensures
        ({
            let c = s.commanded(forced(SetPlaylistMode::Skip));
            &&& c.0.phase is Boundary
            &&& c.2 == SinkOp::Stop
            &&& c.0.checked(Some(dir)).0.phase is Loading
            &&& c.0.checked(Some(dir)).0.dir == Some(dir)
            &&& c.0.checked(Some(dir)).2 == Action::LoadPlaylist(dir)
        }),
        s.commanded(forced(SetPlaylistMode::Queue)).0 == s,
{
}

/// A track that cannot be decoded puts nothing on the sink, so the first
/// tick finds it empty and the next track is announced at the boundary.
pub proof fn undecodable_track_is_passed(
    s: EngineState,
    pointer: Option<String>,
    opened_at: u64,
    position: u64,
    now: u64,
)
    requires
        s.wf(),
        s.phase is Opening,
        same_dir(pointer, s.dir),
    ensures
        ({
            let k = following(s.idx, s.tracks.len() as int);
            let o = s.opened(TrackOpen::Failed, opened_at);
            let t = o.0.ticked(position, true, now);
            let c = t.0.checked(pointer);
            &&& o.2 == Action::Tick
            &&& t.2
            &&& c.1 == seq![PlayerEvent::TrackChanged { idx: k as usize, name: s.tracks[k] }]
            &&& c.2 == Action::OpenTrack(s.tracks[k])
        }),
{
}

/// A playlist of two tracks, loaded and skipped forward twice, is back at
/// its first track.
pub proof fn two_tracks_wrap_after_two_skips(
    s: EngineState,
    dir: String,
    meta: PlaylistMeta,
    first: TrackOpen,
    second: TrackOpen,
    t1: u64,
    t2: u64,
)
    requires
        s.wf(),
        s.phase is Idle,
        meta.tracks@.len() == 2,
    ensures
        ({
            let l = s.started(Some(dir)).0.loaded(Some(meta)).0;
            let a = l.opened(first, t1).0.commanded(Some(PlayerCommand::Next)).0.checked(Some(dir)).0;
            let b = a.opened(second, t2).0.commanded(Some(PlayerCommand::Next)).0.checked(Some(dir));
            &&& a.idx == 1
            &&& b.0.idx == 0
            &&& b.0.status.current_index == 0
            &&& b.0.status.current_track == Some(meta.tracks@[0])
            &&& b.2 == Action::OpenTrack(meta.tracks@[0])
        }),
{
}

/// Pausing twice leaves the player paused, also after the next tick, and
/// only a real change from playing to paused publishes `Paused`.
pub proof fn pausing_twice_is_paused_once(s: EngineState, position: u64, now: u64)
    requires
        s.wf(),
        s.phase is Playing,
    ensures
        ({
            let once = s.commanded(Some(PlayerCommand::Pause));
            let twice = once.0.commanded(Some(PlayerCommand::Pause));
            &&& once.1 == (if s.paused { seq![] } else { seq![PlayerEvent::Paused] })
            &&& twice.1 == Seq::<PlayerEvent>::empty()
            &&& twice.0.status.is_paused == Some(true)
            &&& twice.0.ticked(position, false, now).0.status.is_paused == Some(true)
        }),
{
}

} // verus!
