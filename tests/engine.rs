use musicd::engine::{Action, Engine, Phase, SinkOp, TrackOpen};
use musicd::player::{PlayerCommand, PlayerConfig, PlayerEvent, SetPlaylistMode};
use musicd::playlist::{PlaylistMeta, Timestamp};

fn meta(id: &str, tracks: &[&str]) -> PlaylistMeta {
    PlaylistMeta {
        id: id.to_string(),
        name: format!("{id} name"),
        created_at: Timestamp { secs: 0, nanos: 0 },
        sources: vec!["uploaded".to_string()],
        tracks: tracks.iter().map(|t| t.to_string()).collect(),
    }
}

fn config() -> PlayerConfig {
    PlayerConfig { auto_play: true, default_audio_effects: true }
}

/// An engine playing track 0 of `tracks` from directory `dir`.
fn playing(dir: &str, tracks: &[&str]) -> Engine {
    let mut e = Engine::new(config());
    assert_eq!(e.start(Some(dir.to_string())), Action::LoadPlaylist(dir.to_string()));
    e.load(Some(meta("mix", tracks)));
    e.opened(TrackOpen::Decoded(Some(180_000)), 0);
    assert_eq!(e.phase(), Phase::Playing);
    e
}

#[test]
fn adopting_a_playlist_shows_its_first_track() {
    let mut e = Engine::new(config());
    assert_eq!(e.start(None), Action::Wait);
    let a = e.start(Some("/music/mix".to_string()));
    assert_eq!(a, Action::LoadPlaylist("/music/mix".to_string()));
    let step = e.load(Some(meta("mix", &["a.m4a", "b.m4a", "c.m4a"])));
    assert_eq!(
        step.events,
        vec![
            PlayerEvent::PlaylistChanged { id: "mix".to_string(), name: "mix name".to_string() },
            PlayerEvent::TrackChanged { idx: 0, name: "a.m4a".to_string() },
        ]
    );
    assert_eq!(step.action, Action::OpenTrack("a.m4a".to_string()));
    let s = e.status();
    assert_eq!(s.current_index, 0);
    assert_eq!(s.current_track, Some("a.m4a".to_string()));
    assert_eq!(s.playlist_id, Some("mix".to_string()));
    assert_eq!(s.is_paused, None);
}

#[test]
fn unreadable_or_empty_metadata_waits() {
    let mut e = Engine::new(config());
    e.start(Some("/music/mix".to_string()));
    let step = e.load(None);
    assert!(step.events.is_empty());
    assert_eq!(step.action, Action::Wait);
    assert_eq!(e.phase(), Phase::Idle);
    e.start(Some("/music/mix".to_string()));
    let step = e.load(Some(meta("mix", &[])));
    assert_eq!(step.action, Action::Wait);
    assert_eq!(step.events.len(), 1);
    assert_eq!(e.status().current_track, None);
}

#[test]
fn next_wraps_and_prev_at_zero_goes_to_last() {
    let dir = "/music/mix";
    let mut e = playing(dir, &["a.m4a", "b.m4a", "c.m4a"]);
    let out = e.command(Some(PlayerCommand::Prev));
    assert!(out.ended);
    assert_eq!(out.sink, SinkOp::Stop);
    let step = e.checkpoint(Some(dir.to_string()));
    assert_eq!(step.events, vec![PlayerEvent::TrackChanged { idx: 2, name: "c.m4a".to_string() }]);
    e.opened(TrackOpen::Decoded(None), 10);
    e.command(Some(PlayerCommand::Next));
    e.checkpoint(Some(dir.to_string()));
    assert_eq!(e.status().current_index, 0);
    e.opened(TrackOpen::Decoded(None), 20);
    e.command(Some(PlayerCommand::Next));
    e.checkpoint(Some(dir.to_string()));
    assert_eq!(e.status().current_index, 1);
    assert_eq!(e.status().current_track, Some("b.m4a".to_string()));
}

#[test]
fn volume_is_clamped() {
    let mut e = playing("/d", &["a.m4a"]);
    let out = e.command(Some(PlayerCommand::SetVolume(2500)));
    assert_eq!(out.sink, SinkOp::SetVolume(1000));
    assert_eq!(out.events, vec![PlayerEvent::VolumeChanged { value: 1000 }]);
    let out = e.command(Some(PlayerCommand::SetVolume(-40)));
    assert_eq!(out.sink, SinkOp::SetVolume(0));
    assert_eq!(e.status().volume, Some(0));
    e.command(Some(PlayerCommand::SetVolume(350)));
    e.tick(1000, false, 100);
    assert_eq!(e.status().volume, Some(350));
}

#[test]
fn skip_mode_cuts_the_track_and_loads_the_new_playlist() {
    let mut e = playing("/music/old", &["a.m4a", "b.m4a"]);
    e.tick(5_000, false, 100);
    assert_eq!(SetPlaylistMode::Queue.forced_command(), None);
    let forced = SetPlaylistMode::Skip.forced_command();
    assert_eq!(forced, Some(PlayerCommand::Next));
    let out = e.command(forced);
    assert!(out.ended);
    assert_eq!(out.sink, SinkOp::Stop);
    let step = e.checkpoint(Some("/music/new".to_string()));
    assert!(step.events.is_empty());
    assert_eq!(step.action, Action::LoadPlaylist("/music/new".to_string()));
    let step = e.load(Some(meta("chill", &["x.mp3"])));
    assert_eq!(step.action, Action::OpenTrack("x.mp3".to_string()));
    assert_eq!(e.status().playlist_id, Some("chill".to_string()));
}

#[test]
fn queue_mode_waits_for_the_track_end() {
    let mut e = playing("/music/old", &["a.m4a", "b.m4a"]);
    let out = e.command(None);
    assert!(!out.ended);
    let t = e.tick(180_000, true, 200);
    assert!(t.ended);
    let step = e.checkpoint(Some("/music/new".to_string()));
    assert_eq!(step.action, Action::LoadPlaylist("/music/new".to_string()));
}

#[test]
fn undecodable_track_moves_on_to_the_next() {
    let dir = "/music/mix";
    let mut e = Engine::new(config());
    e.start(Some(dir.to_string()));
    e.load(Some(meta("mix", &["broken.m4a", "b.m4a", "c.m4a"])));
    let step = e.opened(TrackOpen::Failed, 0);
    assert_eq!(step.action, Action::Tick);
    assert!(step.events.is_empty());
    let t = e.tick(0, true, 100);
    assert!(t.ended);
    let step = e.checkpoint(Some(dir.to_string()));
    assert_eq!(step.events, vec![PlayerEvent::TrackChanged { idx: 1, name: "b.m4a".to_string() }]);
    assert_eq!(step.action, Action::OpenTrack("b.m4a".to_string()));
}

#[test]
fn two_track_playlist_from_json_wraps_after_two_nexts() {
    let text = r#"{"id":"abc","name":"Mix","created_at":"2025-08-01T00:00:00Z","sources":["uploaded"],"tracks":["a.m4a","b.m4a"]}"#;
    let v: serde_json::Value = serde_json::from_str(text).unwrap();
    let tracks: Vec<String> =
        v["tracks"].as_array().unwrap().iter().map(|t| t.as_str().unwrap().to_string()).collect();
    let m = PlaylistMeta {
        id: v["id"].as_str().unwrap().to_string(),
        name: v["name"].as_str().unwrap().to_string(),
        created_at: Timestamp { secs: 1_754_006_400, nanos: 0 },
        sources: vec!["uploaded".to_string()],
        tracks,
    };
    let dir = "/music/abc";
    let mut e = Engine::new(config());
    e.start(Some(dir.to_string()));
    e.load(Some(m));
    e.opened(TrackOpen::Decoded(Some(1000)), 0);
    e.command(Some(PlayerCommand::Next));
    e.checkpoint(Some(dir.to_string()));
    assert_eq!(e.status().current_index, 1);
    e.opened(TrackOpen::Decoded(Some(1000)), 0);
    e.command(Some(PlayerCommand::Next));
    e.checkpoint(Some(dir.to_string()));
    assert_eq!(e.status().current_index, 0);
    assert_eq!(e.status().current_track, Some("a.m4a".to_string()));
}

#[test]
fn pausing_twice_publishes_one_pause() {
    let mut e = playing("/d", &["a.m4a"]);
    let first = e.command(Some(PlayerCommand::Pause));
    assert_eq!(first.events, vec![PlayerEvent::Paused]);
    assert_eq!(first.sink, SinkOp::Pause);
    let second = e.command(Some(PlayerCommand::Pause));
    assert!(second.events.is_empty());
    assert_eq!(second.sink, SinkOp::Keep);
    assert_eq!(e.status().is_paused, Some(true));
    e.tick(100, false, 50);
    assert_eq!(e.status().is_paused, Some(true));
    let play = e.command(Some(PlayerCommand::Play));
    assert_eq!(play.events, vec![PlayerEvent::Played]);
}

#[test]
fn paused_start_without_auto_play() {
    let mut e = Engine::new(PlayerConfig { auto_play: false, default_audio_effects: false });
    e.start(Some("/d".to_string()));
    e.load(Some(meta("p", &["a.m4a"])));
    let step = e.opened(TrackOpen::Decoded(Some(42_000)), 0);
    assert_eq!(
        step.events,
        vec![PlayerEvent::DurationChanged { duration: Some(42_000) }, PlayerEvent::Paused]
    );
    assert_eq!(step.action, Action::StartSink { effects: false, paused: true });
    assert_eq!(e.status().total_duration, Some(42_000));
}

#[test]
fn position_events_are_throttled() {
    let mut e = playing("/d", &["a.m4a"]);
    assert!(e.tick(100, false, 100).events.is_empty());
    assert!(e.tick(400, false, 400).events.is_empty());
    assert_eq!(e.tick(500, false, 500).events, vec![PlayerEvent::PositionChanged { position: 500 }]);
    assert!(e.tick(900, false, 900).events.is_empty());
    assert_eq!(e.status().current_pos, Some(900));
}

#[test]
fn seek_and_set_index() {
    let mut e = playing("/d", &["a.m4a", "b.m4a", "c.m4a"]);
    let out = e.command(Some(PlayerCommand::Seek(30)));
    assert_eq!(out.sink, SinkOp::Seek(30));
    assert!(!out.ended);
    assert_eq!(e.seek_done(30, true), Some(PlayerEvent::PositionChanged { position: 30_000 }));
    assert_eq!(e.seek_done(30, false), None);
    let same = e.command(Some(PlayerCommand::SetIndex(0)));
    assert!(!same.ended);
    let out = e.command(Some(PlayerCommand::SetIndex(7)));
    assert!(out.ended);
    let step = e.checkpoint(Some("/d".to_string()));
    assert_eq!(step.events, vec![PlayerEvent::TrackChanged { idx: 1, name: "b.m4a".to_string() }]);
    assert_eq!(e.status().current_index, 1);
    e.opened(TrackOpen::Decoded(None), 0);
    e.command(Some(PlayerCommand::SetIndex(2)));
    e.checkpoint(Some("/d".to_string()));
    assert_eq!(e.status().current_track, Some("c.m4a".to_string()));
}

#[test]
fn set_index_past_the_end_wraps() {
    let dir = "/music/mix";
    let mut e = playing(dir, &["a.m4a", "b.m4a", "c.m4a"]);
    let out = e.command(Some(PlayerCommand::SetIndex(4)));
    assert!(out.ended);
    assert_eq!(out.sink, SinkOp::Stop);
    let step = e.checkpoint(Some(dir.to_string()));
    assert_eq!(step.events, vec![PlayerEvent::TrackChanged { idx: 1, name: "b.m4a".to_string() }]);
    assert_eq!(e.status().current_index, 1);
}

#[test]
fn set_index_of_current_plus_count_restarts_the_track() {
    let dir = "/music/mix";
    let mut e = playing(dir, &["a.m4a", "b.m4a", "c.m4a"]);
    let out = e.command(Some(PlayerCommand::SetIndex(3)));
    assert!(out.ended);
    assert_eq!(out.sink, SinkOp::Stop);
    let step = e.checkpoint(Some(dir.to_string()));
    assert_eq!(step.events, vec![PlayerEvent::TrackChanged { idx: 0, name: "a.m4a".to_string() }]);
    assert_eq!(e.status().current_index, 0);
}
