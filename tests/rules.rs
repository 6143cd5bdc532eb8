use musicd::api::{asset_path, position_text, static_route, StaticRoute};
use musicd::downloader::{audio_tracks, is_audio_file, output_template, unique_path_step, BackupProbe, DownloaderKind};
use musicd::hhmmss::{s2hhmmss, sms2hhmmsxxx, Hhmmss};
use musicd::job::{
    first_run, first_run_from, method_from_upper, month_periods_after, month_span, run_again_from, job_method, next_run_time, run_again, sends_body, skip_expired, sleep_secs, Job, JobMethod, Repeat,
    RepeatFrequency, RepeatTemplate,
};
use musicd::player::clamp_volume;
use musicd::playlist::{find_playlist, newest_first, safe, PlaylistMeta, Timestamp};
use musicd::publisher::provisional_name;
use musicd::settings::Environment;

fn meta(id: &str, name: &str, secs: i64) -> PlaylistMeta {
    PlaylistMeta {
        id: id.to_string(),
        name: name.to_string(),
        created_at: Timestamp { secs, nanos: 0 },
        sources: vec![],
        tracks: vec![],
    }
}

#[test]
fn clock_text() {
    assert_eq!(s2hhmmss(0), "00:00:00");
    assert_eq!(s2hhmmss(3661), "01:01:01");
    assert_eq!(s2hhmmss(-61), "-00:01:01");
    assert_eq!(s2hhmmss(360_000), "100:00:00");
    assert_eq!(sms2hhmmsxxx(5, 7), "00:00:05.007");
    assert_eq!(sms2hhmmsxxx(-5, 7), "-00:00:05.-07");
    assert_eq!(61_500u64.hhmmss(), "00:01:01");
    assert_eq!(61_500u64.hhmmssxxx(), "00:01:01.500");
}

#[test]
fn volume_clamp_values() {
    assert_eq!(clamp_volume(-1), 0);
    assert_eq!(clamp_volume(0), 0);
    assert_eq!(clamp_volume(640), 640);
    assert_eq!(clamp_volume(1000), 1000);
    assert_eq!(clamp_volume(i64::MAX), 1000);
}

#[test]
fn safe_names() {
    assert_eq!(safe("My Mix! 2025"), "My-Mix--2025");
    assert_eq!(safe("a_b-c"), "a_b-c");
    assert_eq!(safe("café"), "caf-");
    assert_eq!(safe(""), "");
}

#[test]
fn dir_names() {
    let m = meta("0123456789abcdef", "My Mix", 1_755_216_000);
    assert_eq!(m.dir_name(), Some("2025-08-My-Mix_01234567".to_string()));
    let short = meta("ab", "x", 0);
    assert_eq!(short.dir_name(), Some("1970-01-x_ab".to_string()));
}

#[test]
fn playlists_newest_first_and_lookup() {
    let items = vec![
        ("a".to_string(), meta("1", "a", 100)),
        ("c".to_string(), meta("3", "c", 300)),
        ("b".to_string(), meta("2", "b", 200)),
    ];
    let sorted = newest_first(items);
    let folders: Vec<&str> = sorted.iter().map(|(f, _)| f.as_str()).collect();
    assert_eq!(folders, vec!["c", "b", "a"]);
    assert_eq!(find_playlist(&sorted, "2"), Some(1));
    assert_eq!(find_playlist(&sorted, "9"), None);
}

#[test]
fn downloader_and_environment_names() {
    assert_eq!(DownloaderKind::YtDlp.as_str(), "yt-dlp");
    assert_eq!(DownloaderKind::try_from("YT-DLP".to_string()), Ok(DownloaderKind::YtDlp));
    assert_eq!(
        DownloaderKind::try_from("Wget".to_string()),
        Err("wget is not a supported downloader.".to_string())
    );
    assert_eq!(Environment::Local.as_str(), "local");
    assert_eq!(Environment::Test.as_str(), "test");
    assert_eq!(Environment::try_from("TEST".to_string()), Ok(Environment::Test));
    assert_eq!(Environment::try_from("local".to_string()), Ok(Environment::Local));
    assert_eq!(
        Environment::try_from("Prod".to_string()),
        Err("prod is not a supported environment.".to_string())
    );
}

#[test]
fn download_naming() {
    assert_eq!(output_template(0), "001-%(playlist_index|)03d%(playlist_index&-|)s%(title).80s.%(ext)s");
    assert!(output_template(41).starts_with("042-"));
    assert_eq!(unique_path_step(1, false), BackupProbe::Use(1));
    assert_eq!(unique_path_step(1, true), BackupProbe::Try(2));
    assert_eq!(unique_path_step(9999, true), BackupProbe::TooMany);
}

#[test]
fn audio_track_lists() {
    assert!(is_audio_file("001-song.m4a"));
    assert!(!is_audio_file(".ogg"));
    assert!(!is_audio_file("cover.jpg"));
    assert!(!is_audio_file("noext"));
    let names: Vec<String> =
        ["b.mp3", "a.m4a", "cover.jpg", ".ogg", "c.tar.flac", "d.OPUS"].iter().map(|s| s.to_string()).collect();
    assert_eq!(
        audio_tracks(names),
        Some(vec!["a.m4a".to_string(), "b.mp3".to_string(), "c.tar.flac".to_string()])
    );
    assert_eq!(audio_tracks(vec!["x.txt".to_string()]), None);
    assert_eq!(audio_tracks(vec![]), None);
}

#[test]
fn status_position_line() {
    assert_eq!(position_text(Some(61_000), None), "00:01:01 / -");
    assert_eq!(position_text(None, None), "- / -");
    assert_eq!(position_text(Some(500), Some(3_723_999)), "00:00:00 / 01:02:03");
}

#[test]
fn static_routes() {
    assert_eq!(asset_path("//app.js"), "app.js");
    assert_eq!(asset_path("/"), "");
    assert_eq!(static_route("", false), StaticRoute::Index);
    assert_eq!(static_route("index.html", true), StaticRoute::Index);
    assert_eq!(static_route("app.js", true), StaticRoute::Asset);
    assert_eq!(static_route("missing.js", false), StaticRoute::NotFound);
    assert_eq!(static_route("playlists/abc", false), StaticRoute::Index);
}

#[test]
fn job_rules() {
    assert_eq!(job_method("post"), Some(JobMethod::Post));
    assert_eq!(job_method("Get"), Some(JobMethod::Get));
    assert_eq!(job_method("PATCH"), None);
    assert!(sends_body(JobMethod::Put));
    assert!(!sends_body(JobMethod::Delete));
    assert!(skip_expired(false, -11, 10));
    assert!(!skip_expired(false, -10, 10));
    assert!(!skip_expired(true, -1000, 10));
    assert_eq!(sleep_secs(-5), 0);
    assert_eq!(sleep_secs(42), 42);
}

#[test]
fn provisional_names() {
    assert_eq!(
        provisional_name(Timestamp { secs: 0, nanos: 0 }, "my mix 2"),
        Some("19700101000000_my_mix_2".to_string())
    );
}

fn job(run_at: i64, repeat: Option<Repeat>, end_repeat: Option<i64>) -> Job {
    Job {
        id: "j".to_string(),
        run_at,
        repeat,
        end_repeat,
        method: "POST".to_string(),
        url: "http://127.0.0.1:8371/control/play".to_string(),
        body: None,
    }
}

#[test]
fn next_run_times() {
    let day = 86_400;
    let daily = job(0, Some(Repeat::Template(RepeatTemplate::Daily)), None);
    assert_eq!(next_run_time(&daily, 0, false, 3 * day + 3600), Some(4 * day));
    assert_eq!(next_run_time(&daily, 10 * day, false, 0), Some(10 * day));
    assert_eq!(next_run_time(&daily, 10 * day, true, 0), Some(11 * day));
    let weekdays = job(0, Some(Repeat::Template(RepeatTemplate::Weekdays)), None);
    assert_eq!(next_run_time(&weekdays, day, false, day), Some(4 * day));
    let weekends = job(0, Some(Repeat::Template(RepeatTemplate::Weekends)), None);
    assert_eq!(next_run_time(&weekends, 0, false, 0), Some(2 * day));
    let weekly = job(0, Some(Repeat::Template(RepeatTemplate::Weekly)), None);
    assert_eq!(next_run_time(&weekly, 0, false, 10 * day), Some(14 * day));
    let biweekly = job(0, Some(Repeat::Template(RepeatTemplate::Biweekly)), None);
    assert_eq!(next_run_time(&biweekly, 0, false, 10 * day), Some(14 * day));
    let monthly = job(0, Some(Repeat::Template(RepeatTemplate::Monthly)), None);
    assert_eq!(next_run_time(&monthly, 1_738_281_600, false, 1_739_145_600), Some(1_740_700_800));
    let every2 = job(0, Some(Repeat::Custom { frequency: RepeatFrequency::Daily, every: 2 }), None);
    assert_eq!(next_run_time(&every2, 0, false, 5 * day), Some(6 * day));
    let every0 = job(0, Some(Repeat::Custom { frequency: RepeatFrequency::Weekly, every: 0 }), None);
    assert!(!every0.repeat.unwrap().is_valid());
    assert!(Repeat::Custom { frequency: RepeatFrequency::Weekly, every: 1 }.is_valid());
    assert!(Repeat::Template(RepeatTemplate::Daily).is_valid());
    let yearly = job(0, Some(Repeat::Template(RepeatTemplate::Yearly)), None);
    assert_eq!(next_run_time(&yearly, 0, false, 10), Some(31_536_000));
    assert_eq!(next_run_time(&job(0, None, None), 0, false, 5 * day), None);
}

#[test]
fn first_and_repeated_runs() {
    let day = 86_400;
    assert_eq!(first_run(&job(7, None, None), 100), Some(7));
    let daily = job(0, Some(Repeat::Template(RepeatTemplate::Daily)), Some(3 * day));
    assert_eq!(first_run(&daily, day + 5), Some(2 * day));
    assert_eq!(first_run(&daily, 3 * day), None);
    let late = job(2 * day, Some(Repeat::Template(RepeatTemplate::Daily)), Some(3 * day));
    assert_eq!(run_again(&late, 2 * day), Some(3 * day));
    let last = job(3 * day, Some(Repeat::Template(RepeatTemplate::Daily)), Some(3 * day));
    assert_eq!(run_again(&last, 3 * day), None);
}

#[test]
fn names_after_case_folding() {
    assert_eq!(DownloaderKind::from_lowercase("yt-dlp"), Ok(DownloaderKind::YtDlp));
    assert_eq!(
        DownloaderKind::from_lowercase("YT-DLP"),
        Err("YT-DLP is not a supported downloader.".to_string())
    );
    assert_eq!(Environment::from_lowercase("test"), Ok(Environment::Test));
    assert_eq!(Environment::from_lowercase("Local"), Err("Local is not a supported environment.".to_string()));
    assert_eq!(method_from_upper("DELETE"), Some(JobMethod::Delete));
    assert_eq!(method_from_upper("post"), None);
}

#[test]
fn month_counting() {
    assert_eq!(month_span(2024, 11, 2025, 2, 1), 3);
    assert_eq!(month_span(2024, 11, 2025, 2, 2), 1);
    assert_eq!(month_span(2025, 2, 2024, 11, 2), -1);
    assert_eq!(month_periods_after(3, Some(100), 200, false), 4);
    assert_eq!(month_periods_after(3, Some(300), 200, false), 3);
    assert_eq!(month_periods_after(3, None, 200, false), 4);
    assert_eq!(month_periods_after(3, Some(300), 200, true), 4);
}

#[test]
fn first_and_again_decisions() {
    let day = 86_400;
    let daily = job(0, Some(Repeat::Template(RepeatTemplate::Daily)), Some(3 * day));
    assert_eq!(first_run_from(&daily, day, Some(2 * day)), Some(2 * day));
    assert_eq!(first_run_from(&daily, day, Some(4 * day)), None);
    assert_eq!(first_run_from(&daily, day, None), Some(0));
    assert_eq!(first_run_from(&daily, 3 * day, Some(2 * day)), None);
    assert_eq!(run_again_from(&daily, Some(3 * day)), Some(3 * day));
    assert_eq!(run_again_from(&daily, Some(4 * day)), None);
    assert_eq!(run_again_from(&daily, None), None);
    let yearly = job(0, Some(Repeat::Custom { frequency: RepeatFrequency::Yearly, every: 1 }), None);
    assert_eq!(next_run_time(&yearly, 0, false, 10), Some(31_536_000));
}
