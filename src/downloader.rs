//! Downloader back-ends and the rules that shape what they produce.
use vstd::prelude::*;

use crate::hhmmss::{push_padded, zero_padded};
use crate::text::{lemma_text_le_total, lemma_text_le_trans, lower_of, lowercase, same_text, text_le, text_not_after};

verus! {

/// The downloaders that can fill a playlist directory.
#[derive(Clone, Copy, Debug, PartialEq, Eq, Structural)]
pub enum DownloaderKind {
    YtDlp,
}

/// The name of each downloader.
pub open spec fn downloader_name(k: DownloaderKind) -> Seq<char> {
    match k {
        DownloaderKind::YtDlp => seq!['y', 't', '-', 'd', 'l', 'p'],
    }
}

/// The message for a downloader name that is not known.
pub open spec fn unsupported_downloader(name: Seq<char>) -> Seq<char> {
    name + " is not a supported downloader."@
}

impl DownloaderKind {
    pub fn as_str(&self) -> (r: &'static str)
        ensures
            r@ == downloader_name(*self),
    {
        proof { reveal_strlit("yt-dlp"); }
        match self {
            DownloaderKind::YtDlp => "yt-dlp",
        }
    }

    /// The downloader whose name is `lower`, already in lower case.
    pub fn from_lowercase(lower: &str) -> (r: Result<DownloaderKind, String>)
        ensures
            lower@ == downloader_name(DownloaderKind::YtDlp) ==> r == Ok::<DownloaderKind, String>(
                DownloaderKind::YtDlp,
            ),
            lower@ != downloader_name(DownloaderKind::YtDlp) ==> r is Err && r->Err_0@
                == unsupported_downloader(lower@),
    {
        if same_text(lower, DownloaderKind::YtDlp.as_str()) {
            Ok(DownloaderKind::YtDlp)
        } else {
            Err(String::from_str(lower).concat(" is not a supported downloader."))
        }
    }

    /// The downloader named `s`, in any letter case.
    pub fn try_from(s: String) -> (r: Result<DownloaderKind, String>)
        ensures
            lower_of(s@) == downloader_name(DownloaderKind::YtDlp) ==> r == Ok::<DownloaderKind, String>(
                DownloaderKind::YtDlp,
            ),
            lower_of(s@) != downloader_name(DownloaderKind::YtDlp) ==> r is Err && r->Err_0@
                == unsupported_downloader(lower_of(s@)),
    {
        let lower = lowercase(s.as_str());
        DownloaderKind::from_lowercase(lower.as_str())
    }
}

/// The `yt-dlp` back-end.
#[derive(Clone, Copy, Debug, PartialEq, Eq, Structural)]
pub struct YtDlpDownloader;

/// The `yt-dlp` output pattern that follows the source's number.
pub const OUTPUT_PATTERN: &'static str = "%(playlist_index|)03d%(playlist_index&-|)s%(title).80s.%(ext)s";

/// The output template for the source at 0-based position `i`: its 1-based
/// number on three digits, `-`, then `OUTPUT_PATTERN`.
pub fn output_template(i: usize) -> (r: String)
    requires
        i < usize::MAX,
    ensures
        r@ == zero_padded((i + 1) as nat, 3) + seq!['-'] + OUTPUT_PATTERN@,
{
    let mut out = String::new();
    push_padded(&mut out, (i + 1) as u64, 3);
    proof { reveal_strlit("-"); }
    out.append("-");
    out.append(OUTPUT_PATTERN);
    assert(out@ =~= zero_padded((i + 1) as nat, 3) + seq!['-'] + OUTPUT_PATTERN@);
    out
}

/// Highest number tried for a backup of an existing destination directory.
pub const MAX_BACKUPS: u32 = 9999;

/// The next move when looking for a free backup name `<dest>.old<n>`.
#[derive(Clone, Copy, Debug, PartialEq, Eq, Structural)]
pub enum BackupProbe {
    /// `<dest>.old<n>` is free: use it.
    Use(u32),
    /// Try `<dest>.old<n>` next.
    Try(u32),
    /// Every number up to `MAX_BACKUPS` is taken.
    TooMany,
}

/// After finding whether `<dest>.old<n>` exists, with numbers tried from 1 up.
pub fn unique_path_step(n: u32, exists: bool) -> (r: BackupProbe)
    requires
        1 <= n <= MAX_BACKUPS,
    ensures
        !exists ==> r == BackupProbe::Use(n),
        exists && n < MAX_BACKUPS ==> r == BackupProbe::Try((n + 1) as u32),
        exists && n == MAX_BACKUPS ==> r == BackupProbe::TooMany,
{
    if !exists {
        BackupProbe::Use(n)
    } else if n < MAX_BACKUPS {
        BackupProbe::Try(n + 1)
    } else {
        BackupProbe::TooMany
    }
}

/// Index of the last `.` in `s`, or -1.
pub open spec fn last_dot(s: Seq<char>) -> int
    decreases s.len(),
{
    if s.len() == 0 {
        -1
    } else if s.last() == '.' {
        s.len() - 1
    } else {
        last_dot(s.drop_last())
    }
}

proof fn lemma_last_dot_range(s: Seq<char>)
    ensures
        -1 <= last_dot(s) < s.len(),
    decreases s.len(),
{
    if s.len() > 0 && s.last() != '.' {
        lemma_last_dot_range(s.drop_last());
    }
}

/// The extension of a file name, as `Path::extension` gives it: what follows
/// the last `.`, unless the name has no `.` or only a leading one.
pub open spec fn extension_of(name: Seq<char>) -> Option<Seq<char>> {
    let k = last_dot(name);
    if k <= 0 {
        None
    } else {
        Some(name.subrange(k + 1, name.len() as int))
    }
}

/// Whether a file name has one of the audio extensions kept in a playlist.
pub open spec fn is_audio_name(name: Seq<char>) -> bool {
    match extension_of(name) {
        Some(e) => e == "m4a"@ || e == "mp3"@ || e == "ogg"@ || e == "flac"@ || e == "wav"@ || e
            == "aac"@ || e == "opus"@,
        None => false,
    }
}

pub fn is_audio_file(name: &str) -> (r: bool)
    ensures
        r == is_audio_name(name@),
{
    let n = name.unicode_len();
    let mut i: usize = n;
    assert(name@.subrange(0, n as int) =~= name@);
    while i > 0 && name.get_char(i - 1) != '.'
        invariant
            n == name@.len(),
            i <= n,
            last_dot(name@.subrange(0, i as int)) == last_dot(name@),
        decreases i,
    {
        assert(name@.subrange(0, i as int).drop_last() =~= name@.subrange(0, i - 1));
        i = i - 1;
    }
    proof {
        lemma_last_dot_range(name@);
    }
    if i <= 1 {
        return false;
    }
    let e = name.substring_char(i, n);
    same_text(e, "m4a") || same_text(e, "mp3") || same_text(e, "ogg") || same_text(e, "flac")
        || same_text(e, "wav") || same_text(e, "aac") || same_text(e, "opus")
}

pub open spec fn sorted_by_name(s: Seq<String>) -> bool {
    forall|i: int, j: int| 0 <= i < j < s.len() ==> text_le(s[i]@, s[j]@)
}

pub open spec fn audio_pred() -> spec_fn(String) -> bool {
    |s: String| is_audio_name(s@)
}

/// The audio files among the names of a download directory, sorted by name;
/// `None` when there is none.
pub fn audio_tracks(names: Vec<String>) -> (r: Option<Vec<String>>)
    ensures
        r is None <==> names@.filter(audio_pred()).len() == 0,
        r matches Some(t) ==> t@.to_multiset() == names@.filter(audio_pred()).to_multiset()
            && sorted_by_name(t@),
{
    broadcast use vstd::seq_lib::group_to_multiset_ensures;

    let ghost all = names@;
    let mut rest = names;
    let mut out: Vec<String> = Vec::new();
    while rest.len() > 0
        invariant
            rest@.filter(audio_pred()).to_multiset().add(out@.to_multiset()) == all.filter(
                audio_pred(),
            ).to_multiset(),
            sorted_by_name(out@),
        decreases rest.len(),
    {
        let ghost before = rest@;
        let e = rest.pop().unwrap();
        assert(before =~= rest@.push(e));
        proof {
            rest@.lemma_filter_push(e, audio_pred());
        }
        if is_audio_file(e.as_str()) {
            let mut j: usize = 0;
            while j < out.len() && text_not_after(out[j].as_str(), e.as_str())
                invariant
                    j <= out@.len(),
                    sorted_by_name(out@),
                    forall|k: int| 0 <= k < j ==> text_le(#[trigger] out@[k]@, e@),
                decreases out@.len() - j,
            {
                j = j + 1;
            }
            let ghost prev = out@;
            let ghost ev = e;
            out.insert(j, e);
            assert forall|k: int| j <= k < prev.len() implies text_le(ev@, #[trigger] prev[k]@) by {
                lemma_text_le_total(prev[j as int]@, ev@);
                if k > j {
                    lemma_text_le_trans(ev@, prev[j as int]@, prev[k]@);
                }
            }
            assert(out@ == prev.insert(j as int, ev));
            assert(sorted_by_name(out@)) by {
                assert forall|a: int, b: int| 0 <= a < b < out@.len() implies text_le(
                    out@[a]@,
                    out@[b]@,
                ) by {
                    if a < j && b > j {
                        lemma_text_le_trans(prev[a]@, ev@, prev[b - 1]@);
                    }
                }
            }
            proof {
                vstd::seq_lib::to_multiset_insert(prev, j as int, ev);
                vstd::seq_lib::to_multiset_build(rest@.filter(audio_pred()), ev);
            }
            assert(rest@.filter(audio_pred()).to_multiset().add(out@.to_multiset()) =~= before.filter(
                audio_pred(),
            ).to_multiset().add(prev.to_multiset()));
        }
    }
    assert(all.filter(audio_pred()).to_multiset() =~= out@.to_multiset()) by {
        assert(rest@ =~= Seq::<String>::empty());
        reveal(Seq::filter);
        assert(rest@.filter(audio_pred()) =~= Seq::<String>::empty());
    }
    proof {
        vstd::seq_lib::to_multiset_len(out@);
        vstd::seq_lib::to_multiset_len(all.filter(audio_pred()));
    }
    if out.len() == 0 {
        None
    } else {
        Some(out)
    }
}

} // verus!
