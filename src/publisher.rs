//! Naming of a playlist while it is being published.
use vstd::prelude::*;

use crate::playlist::{format_utc, in_calendar, utc_text, Timestamp};
use crate::text::{replace_char, replaced, text_of};

verus! {

/// The working directory name of a playlist named `name` whose publication
/// started at `stamp` (printed as `YYYYMMDDhhmmss`): the stamp, `_`, and the
/// name with its spaces turned into `_`.
pub open spec fn provisional_text(stamp: Seq<char>, name: Seq<char>) -> Seq<char> {
    stamp + seq!['_'] + replaced(name, ' ', '_')
}

/// The working directory name for `name` with the stamp already printed.
pub fn provisional_from(stamp: &str, name: &str) -> (r: String)
    ensures
        r@ == provisional_text(stamp@, name@),
{
    proof { reveal_strlit("_"); }
    let t = String::from_str(stamp).concat("_");
    let spaced = text_of(&replace_char(name, ' ', '_'));
    t.concat(spaced.as_str())
}

/// The working directory name for publishing `name` at `at`; given whenever
/// `at` lies inside the calendar.
pub fn provisional_name(at: Timestamp, name: &str) -> (r: Option<String>)
    ensures
        in_calendar(at) ==> r is Some,
        r matches Some(t) ==> t@ == provisional_text(
            utc_text(at.secs as int, at.nanos as int, "%Y%m%d%H%M%S"@),
            name@,
        ),
{
    match format_utc(at, "%Y%m%d%H%M%S") {
        None => None,
        Some(stamp) => Some(provisional_from(stamp.as_str(), name)),
    }
}

} // verus!
