//! The application's settings and its download history.
use vstd::prelude::*;

use crate::text::owned;

verus! {

/// The user's settings.
#[derive(Debug, Clone)]
pub struct AppSettings {
    pub default_output_dir: String,
    pub default_quality: String,
    pub max_concurrent_downloads: u8,
    pub auto_open_folder: bool,
    pub theme: String,
}

/// `dirs::audio_dir`, as text. The answer depends on the user's
/// environment; only that a directory it gives is a non-empty path is claimed
/// (the documented values are paths such as `/home/alice/...`; on Unix the
/// source builds them from a non-empty home or an absolute path).
#[verifier::external_body]
fn audio_dir() -> (r: Option<String>)
    ensures
        r matches Some(p) ==> p@.len() > 0,
{
    dirs::audio_dir().map(|p| p.to_string_lossy().into_owned())
}

/// `dirs::download_dir`, as text. The answer depends on the user's
/// environment; only that a directory it gives is a non-empty path is claimed
/// (the documented values are paths such as `/home/alice/...`; on Unix the
/// source builds them from a non-empty home or an absolute path).
#[verifier::external_body]
fn download_dir() -> (r: Option<String>)
    ensures
        r matches Some(p) ==> p@.len() > 0,
{
    dirs::download_dir().map(|p| p.to_string_lossy().into_owned())
}

/// `dirs::home_dir`, as text. The answer depends on the user's
/// environment; only that a directory it gives is a non-empty path is claimed
/// (the documented values are paths such as `/home/alice/...`; on Unix the
/// source builds them from a non-empty home or an absolute path).
#[verifier::external_body]
fn home_dir() -> (r: Option<String>)
    ensures
        r matches Some(p) ==> p@.len() > 0,
{
    dirs::home_dir().map(|p| p.to_string_lossy().into_owned())
}

/// The first directory that is known, in the order music, downloads, home;
/// `"."` where none is.
pub fn pick_music_dir(audio: Option<String>, download: Option<String>, home: Option<String>) -> (r:
    String)
    ensures
        r@ == match (audio, download, home) {
            (Some(a), _, _) => a@,
            (None, Some(d), _) => d@,
            (None, None, Some(h)) => h@,
            (None, None, None) => "."@,
        },
{
    match audio {
        Some(a) => a,
        None => match download {
            Some(d) => d,
            None => match home {
                Some(h) => h,
                None => owned("."),
            },
        },
    }
}

/// The directory downloads go to unless the user chose another: the user's
/// music directory, else downloads, else home, else `"."`.
pub fn default_music_dir() -> (r: String)
    ensures
        r@.len() > 0,
{
    proof {
        reveal_strlit(".");
    }
    pick_music_dir(audio_dir(), download_dir(), home_dir())
}

/// The settings a new user starts with, saving into `output_dir`.
pub fn settings_with_output_dir(output_dir: String) -> (r: AppSettings)
    ensures
        r.default_output_dir@ == output_dir@,
        r.default_quality@ == "192"@,
        r.max_concurrent_downloads == 1,
        r.auto_open_folder,
        r.theme@ == "dark"@,
{
    AppSettings {
        default_output_dir: output_dir,
        default_quality: owned("192"),
        max_concurrent_downloads: 1,
        auto_open_folder: true,
        theme: owned("dark"),
    }
}

impl Default for AppSettings {
    /// The settings a new user starts with: quality 192, one download at a
    /// time, opening the folder when done, the dark theme, and the output
    /// directory `default_music_dir` finds.
    fn default() -> (r: Self)
        ensures
            r.default_output_dir@.len() > 0,
            r.default_quality@ == "192"@,
            r.max_concurrent_downloads == 1,
            r.auto_open_folder,
            r.theme@ == "dark"@,
    {
        settings_with_output_dir(default_music_dir())
    }
}

/// The settings to use: those read from disk, or the defaults where none
/// could be read.
pub fn settings_or_default(loaded: Option<AppSettings>) -> (r: AppSettings)
    ensures
        loaded matches Some(s) ==> r == s,
        loaded is None ==> {
            &&& r.default_output_dir@.len() > 0
            &&& r.default_quality@ == "192"@
            &&& r.max_concurrent_downloads == 1
            &&& r.auto_open_folder
            &&& r.theme@ == "dark"@
        },
{
    match loaded {
        Some(s) => s,
        None => AppSettings::default(),
    }
}

/// The history to use: the one read from disk, or an empty one where none
/// could be read.
pub fn history_or_empty<T>(loaded: Option<Vec<T>>) -> (r: Vec<T>)
    ensures
        loaded matches Some(h) ==> r@ == h@,
        loaded is None ==> r@ == Seq::<T>::empty(),
{
    match loaded {
        Some(h) => h,
        None => Vec::new(),
    }
}

/// The history keeps this many downloads, the most recent ones.
pub const HISTORY_LIMIT: usize = 100;

pub open spec fn min_len(a: int, b: int) -> int {
    if a < b {
        a
    } else {
        b
    }
}

/// `history` with `record` put in front, cut to the limit.
pub open spec fn spec_add_to_history<T>(history: Seq<T>, record: T) -> Seq<T> {
    let all = seq![record] + history;
    all.subrange(0, min_len(all.len() as int, HISTORY_LIMIT as int))
}

/// Records a download in the history: it goes first, and the oldest entries
/// beyond the limit are dropped.
pub fn add_to_history<T>(history: Vec<T>, record: T) -> (r: Vec<T>)
    ensures
        r@ == spec_add_to_history(history@, record),
{
    let mut h = history;
    h.insert(0, record);
    h.truncate(HISTORY_LIMIT);
    proof {
        assert(h@ =~= spec_add_to_history(history@, record));
    }
    h
}

/// After a download is recorded, the history holds at most the limit, starts
/// with that download, and goes on with the entries it held before, in order.
pub proof fn law_history_most_recent_first<T>(history: Seq<T>, record: T)
    ensures
        spec_add_to_history(history, record).len() <= HISTORY_LIMIT,
        spec_add_to_history(history, record).len() == min_len(
            history.len() + 1int,
            HISTORY_LIMIT as int,
        ),
        spec_add_to_history(history, record)[0] == record,
        forall|i: int|
            0 < i < spec_add_to_history(history, record).len() ==> #[trigger] spec_add_to_history(
                history,
                record,
            )[i] == history[i - 1],
{
}

/// Two downloads recorded one after the other stand first in the history,
/// the later one in front.
pub proof fn law_history_keeps_order<T>(history: Seq<T>, first: T, second: T)
    ensures
        spec_add_to_history(spec_add_to_history(history, first), second)[0] == second,
        spec_add_to_history(spec_add_to_history(history, first), second)[1] == first,
{
}

} // verus!
