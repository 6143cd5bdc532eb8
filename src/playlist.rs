//! Playlist metadata as the engine reads it, and the rules that name and
//! order playlist directories.
use vstd::prelude::*;

use crate::job::within_calendar;
use crate::text::{same_text, text_of};

verus! {

/// A point in time: whole seconds since the Unix epoch (UTC) and the
/// nanoseconds past that second.
#[derive(Clone, Copy, Debug, PartialEq, Eq, Structural)]
pub struct Timestamp {
    pub secs: i64,
    pub nanos: u32,
}

/// The sidecar `playlist.json` of a playlist directory.
#[derive(Clone, Debug)]
pub struct PlaylistMeta {
    /// Stable identifier.
    pub id: String,
    /// Display name.
    pub name: String,
    pub created_at: Timestamp,
    /// Where the tracks came from (URLs, or "uploaded").
    pub sources: Vec<String>,
    /// File names, relative to the playlist directory, in play order.
    pub tracks: Vec<String>,
}

/// What chrono prints for the UTC instant `secs`, `nanos` under the
/// strftime `pattern`.
pub uninterp spec fn utc_text(secs: int, nanos: int, pattern: Seq<char>) -> Seq<char>;

/// Relies on chrono's `DateTime::<Utc>::from_timestamp` (`Some` for an
/// instant inside the calendar with nanoseconds below one second) and
/// `DateTime::format`, whose text depends on the instant and the pattern
/// alone. The patterns admitted hold only valid specifiers, so printing
/// cannot fail.
#[verifier::external_body]
pub(crate) fn format_utc(at: Timestamp, pattern: &str) -> (r: Option<String>)
    requires
        pattern@ == "%Y-%m"@ || pattern@ == "%Y%m%d%H%M%S"@,
    ensures
        r matches Some(t) ==> t@ == utc_text(at.secs as int, at.nanos as int, pattern@),
        in_calendar(at) ==> r is Some,
{
    chrono::DateTime::from_timestamp(at.secs, at.nanos).map(|d| d.format(pattern).to_string())
}

/// Whether `at` lies inside chrono's calendar, with nanoseconds below one
/// second.
pub open spec fn in_calendar(at: Timestamp) -> bool {
    within_calendar(at.secs as int) && at.nanos < 1_000_000_000
}

/// Whether `c` may stand in a directory name as it is.
pub open spec fn safe_char(c: char) -> bool {
    ('a' <= c && c <= 'z') || ('A' <= c && c <= 'Z') || ('0' <= c && c <= '9') || c == '-' || c == '_'
}

/// `s` with every character but ASCII letters, digits, `-` and `_` turned into `-`.
pub open spec fn safe_text(s: Seq<char>) -> Seq<char> {
    s.map_values(|c: char| if safe_char(c) { c } else { '-' })
}

/// At most the first `n` characters of `s`.
pub open spec fn prefix_of(s: Seq<char>, n: nat) -> Seq<char> {
    if s.len() <= n {
        s
    } else {
        s.subrange(0, n as int)
    }
}

/// The directory name of a playlist: creation year and month, the safe
/// form of its name, and the first eight characters of its id.
pub open spec fn dir_name_text(year_month: Seq<char>, name: Seq<char>, id: Seq<char>) -> Seq<char> {
    year_month + seq!['-'] + safe_text(name) + seq!['_'] + prefix_of(id, 8)
}

/// `s` made fit for a directory name.
pub fn safe(s: &str) -> (r: String)
    ensures
        r@ == safe_text(s@),
{
    let n = s.unicode_len();
    let mut out: Vec<char> = Vec::new();
    let mut i: usize = 0;
    while i < n
        invariant
            n == s@.len(),
            i <= n,
            out@ == safe_text(s@.subrange(0, i as int)),
        decreases n - i,
    {
        let c = s.get_char(i);
        let ok = ('a' <= c && c <= 'z') || ('A' <= c && c <= 'Z') || ('0' <= c && c <= '9') || c == '-'
            || c == '_';
        out.push(if ok { c } else { '-' });
        assert(safe_text(s@.subrange(0, i + 1)) =~= safe_text(s@.subrange(0, i as int)).push(
            if safe_char(c) { c } else { '-' },
        ));
        i = i + 1;
    }
    assert(s@.subrange(0, n as int) =~= s@);
    text_of(&out)
}

fn prefix(s: &str, k: usize) -> (r: Vec<char>)
    ensures
        r@ == prefix_of(s@, k as nat),
{
    let n = s.unicode_len();
    let m = if n <= k { n } else { k };
    let mut out: Vec<char> = Vec::new();
    let mut i: usize = 0;
    while i < m
        invariant
            n == s@.len(),
            m <= n,
            i <= m,
            out@ == s@.subrange(0, i as int),
        decreases m - i,
    {
        out.push(s.get_char(i));
        assert(s@.subrange(0, i + 1) =~= s@.subrange(0, i as int).push(s@[i as int]));
        i = i + 1;
    }
    assert(n <= k ==> s@.subrange(0, n as int) =~= s@);
    out
}

/// Whether `a` is no earlier than `b`.
pub open spec fn not_before(a: Timestamp, b: Timestamp) -> bool {
    a.secs > b.secs || (a.secs == b.secs && a.nanos >= b.nanos)
}

impl Timestamp {
    /// Whether this instant is no earlier than `other`.
    pub fn not_before(&self, other: &Timestamp) -> (r: bool)
        ensures
            r == not_before(*self, *other),
    {
        self.secs > other.secs || (self.secs == other.secs && self.nanos >= other.nanos)
    }
}

/// The directory name for a playlist created in `year_month` (`YYYY-MM`).
pub fn dir_name_from(year_month: &str, name: &str, id: &str) -> (r: String)
    ensures
        r@ == dir_name_text(year_month@, name@, id@),
{
    proof {
        reveal_strlit("-");
        reveal_strlit("_");
    }
    let named = String::from_str(year_month).concat("-");
    let named = named.concat(safe(name).as_str());
    let named = named.concat("_");
    let short = text_of(&prefix(id, 8));
    named.concat(short.as_str())
}

impl PlaylistMeta {
    /// The playlist's directory name, `YYYY-MM-<safe name>_<id prefix>`;
    /// given whenever the creation time lies inside the calendar.
    pub fn dir_name(&self) -> (r: Option<String>)
        ensures
            in_calendar(self.created_at) ==> r is Some,
            r matches Some(t) ==> t@ == dir_name_text(
                utc_text(self.created_at.secs as int, self.created_at.nanos as int, "%Y-%m"@),
                self.name@,
                self.id@,
            ),
    {
        match format_utc(self.created_at, "%Y-%m") {
            None => None,
            Some(ym) => Some(dir_name_from(ym.as_str(), self.name.as_str(), self.id.as_str())),
        }
    }
}

/// Listed playlists, each with its directory name.
pub open spec fn sorted_newest_first(s: Seq<(String, PlaylistMeta)>) -> bool {
    forall|i: int, j: int| 0 <= i < j < s.len() ==> not_before(s[i].1.created_at, s[j].1.created_at)
}

/// The listed playlists ordered from the newest to the oldest.
pub fn newest_first(items: Vec<(String, PlaylistMeta)>) -> (r: Vec<(String, PlaylistMeta)>)
    ensures
        r@.to_multiset() == items@.to_multiset(),
        sorted_newest_first(r@),
{
    broadcast use vstd::seq_lib::group_to_multiset_ensures;

    let ghost all = items@;
    let mut rest = items;
    let mut out: Vec<(String, PlaylistMeta)> = Vec::new();
    while rest.len() > 0
        invariant
            rest@.to_multiset().add(out@.to_multiset()) == all.to_multiset(),
            sorted_newest_first(out@),
        decreases rest.len(),
    {
        let ghost before = rest@;
        let e = rest.pop().unwrap();
        assert(before =~= rest@.push(e));
        let mut j: usize = 0;
        while j < out.len() && out[j].1.created_at.not_before(&e.1.created_at)
            invariant
                j <= out@.len(),
                sorted_newest_first(out@),
                forall|k: int| 0 <= k < j ==> not_before(#[trigger] out@[k].1.created_at, e.1.created_at),
            decreases out@.len() - j,
        {
            j = j + 1;
        }
        let ghost prev = out@;
        let ghost ekey = e.1.created_at;
        let ghost ev = e;
        out.insert(j, e);
        assert forall|k: int| j <= k < prev.len() implies not_before(ekey, #[trigger] prev[k].1.created_at) by {
            assert(!not_before(prev[j as int].1.created_at, ekey));
            if k > j {
                assert(not_before(prev[j as int].1.created_at, prev[k].1.created_at));
            }
        }
        assert(out@ == prev.insert(j as int, ev));
        proof {
            vstd::seq_lib::to_multiset_insert(prev, j as int, ev);
            vstd::seq_lib::to_multiset_build(rest@, ev);
        }
        assert(out@.to_multiset() =~= prev.to_multiset().insert(ev));
        assert(before.to_multiset() =~= rest@.to_multiset().insert(ev));
        assert(rest@.to_multiset().add(out@.to_multiset()) =~= before.to_multiset().add(prev.to_multiset()));
        assert(sorted_newest_first(out@)) by {
            assert forall|a: int, b: int| 0 <= a < b < out@.len() implies not_before(
                out@[a].1.created_at,
                out@[b].1.created_at,
            ) by {
                if b < j {
                    assert(out@[a] == prev[a] && out@[b] == prev[b]);
                    assert(not_before(prev[a].1.created_at, prev[b].1.created_at));
                } else if b == j {
                    assert(out@[a] == prev[a] && out@[b] == ev);
                    assert(not_before(prev[a].1.created_at, ekey));
                } else if a < j {
                    assert(out@[a] == prev[a] && out@[b] == prev[b - 1]);
                    assert(not_before(prev[a].1.created_at, ekey));
                    assert(not_before(ekey, prev[b - 1].1.created_at));
                } else if a == j {
                    assert(out@[a] == ev && out@[b] == prev[b - 1]);
                    assert(not_before(ekey, prev[b - 1].1.created_at));
                } else {
                    assert(out@[a] == prev[a - 1] && out@[b] == prev[b - 1]);
                    assert(not_before(prev[a - 1].1.created_at, prev[b - 1].1.created_at));
                }
            }
        }
    }
    out
}

/// The first listed playlist whose id is `id`.
pub fn find_playlist(items: &Vec<(String, PlaylistMeta)>, id: &str) -> (r: Option<usize>)
    ensures
        r matches Some(i) ==> i < items@.len() && items@[i as int].1.id@ == id@ && forall|k: int|
            0 <= k < i ==> items@[k].1.id@ != id@,
        r is None ==> forall|k: int| 0 <= k < items@.len() ==> items@[k].1.id@ != id@,
{
    let mut i: usize = 0;
    while i < items.len()
        invariant
            i <= items@.len(),
            forall|k: int| 0 <= k < i ==> items@[k].1.id@ != id@,
        decreases items@.len() - i,
    {
        if same_text(items[i].1.id.as_str(), id) {
            return Some(i);
        }
        i = i + 1;
    }
    None
}

} // verus!
