//! The daemon's settings, as plain values.
use vstd::prelude::*;

use crate::downloader::DownloaderKind;
use crate::text::{lowercase, lower_of, same_text};

verus! {

/// The runtime environment, which picks the settings file.
#[derive(Clone, Copy, Debug, PartialEq, Eq, Structural)]
pub enum Environment {
    Local,
    Test,
}

pub open spec fn environment_name(e: Environment) -> Seq<char> {
    match e {
        Environment::Local => seq!['l', 'o', 'c', 'a', 'l'],
        Environment::Test => seq!['t', 'e', 's', 't'],
    }
}

/// The message for an environment name that is not known.
pub open spec fn unsupported_environment(name: Seq<char>) -> Seq<char> {
    name + " is not a supported environment."@
}

impl Environment {
    pub fn as_str(&self) -> (r: &'static str)
        ensures
            r@ == environment_name(*self),
    {
        proof {
            reveal_strlit("local");
            reveal_strlit("test");
        }
        match self {
            Environment::Local => "local",
            Environment::Test => "test",
        }
    }

    /// The environment whose name is `lower`, already in lower case.
    pub fn from_lowercase(lower: &str) -> (r: Result<Environment, String>)
        ensures
            lower@ == environment_name(Environment::Local) ==> r == Ok::<Environment, String>(
                Environment::Local,
            ),
            lower@ == environment_name(Environment::Test) ==> r == Ok::<Environment, String>(
                Environment::Test,
            ),
            lower@ != environment_name(Environment::Local) && lower@ != environment_name(
                Environment::Test,
            ) ==> r is Err && r->Err_0@ == unsupported_environment(lower@),
    {
        if same_text(lower, Environment::Local.as_str()) {
            Ok(Environment::Local)
        } else if same_text(lower, Environment::Test.as_str()) {
            Ok(Environment::Test)
        } else {
            Err(String::from_str(lower).concat(" is not a supported environment."))
        }
    }

    /// The environment named `s`, in any letter case.
    pub fn try_from(s: String) -> (r: Result<Environment, String>)
        ensures
            lower_of(s@) == environment_name(Environment::Local) ==> r == Ok::<Environment, String>(
                Environment::Local,
            ),
            lower_of(s@) == environment_name(Environment::Test) ==> r == Ok::<Environment, String>(
                Environment::Test,
            ),
            lower_of(s@) != environment_name(Environment::Local) && lower_of(s@) != environment_name(
                Environment::Test,
            ) ==> r is Err && r->Err_0@ == unsupported_environment(lower_of(s@)),
    {
        let lower = lowercase(s.as_str());
        Environment::from_lowercase(lower.as_str())
    }
}

/// Everything the daemon is configured with.
#[derive(Clone, Debug)]
pub struct Settings {
    pub environment: Environment,
    /// Data root directory.
    pub data_dir: String,
    pub server: ServerSettings,
    pub manifest: ManifestSettings,
    pub player: PlayerSettings,
    pub publish: PublishSettings,
    pub job: JobSettings,
    pub downloader: DownloaderSettings,
}

#[derive(Clone, Debug)]
pub struct ServerSettings {
    pub host: String,
    pub port: u16,
}

#[derive(Clone, Debug)]
pub struct ManifestSettings {
    /// Fetch a remote manifest.
    pub enable: bool,
    /// Where the manifest that can announce a newer playlist lives.
    pub url: Option<String>,
    /// Seconds between two manifest checks.
    pub check_interval_secs: u64,
}

#[derive(Clone, Copy, Debug, PartialEq, Eq, Structural)]
pub struct PlayerSettings {
    /// Start tracks playing.
    pub auto_play: bool,
    /// Use the gain control and limiter chain.
    pub default_audio_effects: bool,
}

#[derive(Clone, Copy, Debug, PartialEq, Eq, Structural)]
pub struct PublishSettings {
    /// Adopt a playlist as soon as it is published.
    pub auto_set_playlist: bool,
}

#[derive(Clone, Copy, Debug, PartialEq, Eq, Structural)]
pub struct JobSettings {
    /// Seconds after its time that a one-off job still runs.
    pub max_late_secs: u64,
}

#[derive(Clone, Debug)]
pub struct DownloaderSettings {
    /// The downloader used when a request names none.
    pub default: DownloaderKind,
    pub yt_dlp: YtDlpSettings,
}

#[derive(Clone, Debug)]
pub struct YtDlpSettings {
    /// Where the `yt-dlp` program is, if not on the search path.
    pub path: Option<String>,
}

/// The directories and files under the data root.
#[derive(Clone, Debug)]
pub struct Paths {
    pub root: String,
    pub playlists: String,
    pub tmp: String,
    pub db: String,
    pub jobs: String,
}

impl PlayerSettings {
    /// The engine's configuration.
    pub fn config(&self) -> (r: crate::player::PlayerConfig)
        ensures
            r.auto_play == self.auto_play,
            r.default_audio_effects == self.default_audio_effects,
    {
        crate::player::PlayerConfig {
            auto_play: self.auto_play,
            default_audio_effects: self.default_audio_effects,
        }
    }
}

} // verus!
