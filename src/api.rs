//! Request bodies of the control API and the pure parts of its handlers.
use vstd::prelude::*;

use crate::downloader::DownloaderKind;
use crate::hhmmss::{hhmmss_text, Hhmmss};
use crate::player::SetPlaylistMode;
use crate::text::same_text;

verus! {

/// Body of a publish request.
#[derive(Clone, Debug)]
pub struct PublishParams {
    pub name: String,
    pub source_urls: Vec<String>,
    pub downloader: Option<DownloaderKind>,
}

/// Body of a seek request.
#[derive(Clone, Copy, Debug, PartialEq, Eq, Structural)]
pub struct SeekParams {
    pub secs: u64,
}

/// Body of a request that adopts a playlist.
#[derive(Clone, Copy, Debug, PartialEq, Eq, Structural)]
pub struct SetPlaylistParams {
    pub mode: SetPlaylistMode,
}

/// A position or length in milliseconds as `HH:MM:SS`, or `-` when unknown.
pub open spec fn clock_or_dash(ms: Option<u64>) -> Seq<char> {
    match ms {
        Some(m) => hhmmss_text((m / 1000) as int),
        None => seq!['-'],
    }
}

/// The status line `position / length`.
pub open spec fn position_line(pos: Option<u64>, total: Option<u64>) -> Seq<char> {
    clock_or_dash(pos) + " / "@ + clock_or_dash(total)
}

fn clock_text(ms: Option<u64>) -> (r: String)
    ensures
        r@ == clock_or_dash(ms),
{
    match ms {
        Some(m) => m.hhmmss(),
        None => {
            proof { reveal_strlit("-"); }
            String::from_str("-")
        },
    }
}

/// The position shown in a status reply.
pub fn position_text(pos: Option<u64>, total: Option<u64>) -> (r: String)
    ensures
        r@ == position_line(pos, total),
{
    let a = clock_text(pos);
    let b = clock_text(total);
    let line = a.concat(" / ");
    line.concat(b.as_str())
}

/// `s` without its leading slashes.
pub open spec fn without_leading_slashes(s: Seq<char>) -> Seq<char>
    decreases s.len(),
{
    if s.len() > 0 && s[0] == '/' {
        without_leading_slashes(s.drop_first())
    } else {
        s
    }
}

/// The asset a request path names: the path without its leading slashes.
pub fn asset_path(uri_path: &str) -> (r: &str)
    ensures
        r@ == without_leading_slashes(uri_path@),
{
    let n = uri_path.unicode_len();
    let mut i: usize = 0;
    assert(uri_path@.subrange(0, n as int) =~= uri_path@);
    while i < n && uri_path.get_char(i) == '/'
        invariant
            n == uri_path@.len(),
            i <= n,
            without_leading_slashes(uri_path@.subrange(i as int, n as int)) == without_leading_slashes(
                uri_path@,
            ),
        decreases n - i,
    {
        assert(uri_path@.subrange(i as int, n as int).drop_first() =~= uri_path@.subrange(
            i + 1,
            n as int,
        ));
        i = i + 1;
    }
    uri_path.substring_char(i, n)
}

/// How a request for a static file is answered.
#[derive(Clone, Copy, Debug, PartialEq, Eq, Structural)]
pub enum StaticRoute {
    /// The single-page application's `index.html`.
    Index,
    /// The embedded asset of that path.
    Asset,
    /// 404.
    NotFound,
}

/// The route for `path` (without leading slashes), given whether an
/// embedded asset of that path exists: the index for the root and for paths
/// that look like application routes (no `.`), 404 for missing files.
pub open spec fn static_route_of(path: Seq<char>, found: bool) -> StaticRoute {
    if path.len() == 0 || path == "index.html"@ {
        StaticRoute::Index
    } else if found {
        StaticRoute::Asset
    } else if path.contains('.') {
        StaticRoute::NotFound
    } else {
        StaticRoute::Index
    }
}

pub fn static_route(path: &str, found: bool) -> (r: StaticRoute)
    ensures
        r == static_route_of(path@, found),
{
    let n = path.unicode_len();
    if n == 0 || same_text(path, "index.html") {
        return StaticRoute::Index;
    }
    if found {
        return StaticRoute::Asset;
    }
    let mut i: usize = 0;
    while i < n
        invariant
            n == path@.len(),
            n != 0,
            path@ != "index.html"@,
            !found,
            i <= n,
            forall|k: int| 0 <= k < i ==> path@[k] != '.',
        decreases n - i,
    {
        if path.get_char(i) == '.' {
            assert(path@.contains('.')) by {
                assert(path@[i as int] == '.');
            }
            return StaticRoute::NotFound;
        }
        i = i + 1;
    }
    StaticRoute::Index
}

} // verus!
