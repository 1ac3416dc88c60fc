//! The decisions of a media download: what is asked of the Cobalt API, how
//! its answer is read, how the output file is named, and how the streamed
//! chunks are counted, reported and cancelled.
use vstd::prelude::*;

use crate::progress::{DownloadStage, ProgressPayload};
use crate::text::{
    back_run, chars_of, lemma_run_end, lemma_trim_bounds, owned, push_str, run_end, same_text, spec_trim, string_of, trim,
    CharClass,
};

verus! {

/// What the user asked to download.
#[derive(Debug, Clone)]
pub struct DownloadParams {
    pub url: String,
    pub output_dir: String,
    /// `"mp3"` or `"mp4"`.
    pub format: String,
    /// `"128"`, `"192"`, `"320"`, or a video resolution such as `"1080"`.
    pub quality: String,
}

/// The quality recorded for a history entry that names none.
pub fn default_quality() -> (r: String)
    ensures
        r@ == "192"@,
{
    owned("192")
}

/// The format recorded for a history entry that names none.
pub fn default_format() -> (r: String)
    ensures
        r@ == "mp3"@,
{
    owned("mp3")
}

/// The flag by which a running download is asked to stop.
#[derive(Debug)]
pub struct CancelFlag {
    cancelled: bool,
}

impl CancelFlag {
    /// Whether cancellation has been asked for.
    pub closed spec fn is_set(&self) -> bool {
        self.cancelled
    }

    /// Sets the flag to `value`.
    pub fn store(&mut self, value: bool)
        ensures
            final(self).is_set() == value,
    {
        self.cancelled = value;
    }

    /// Reads the flag.
    pub fn load(&self) -> (r: bool)
        ensures
            r == self.is_set(),
    {
        self.cancelled
    }
}

/// The cancellation flag as it is first made: not set.
pub fn cancel_flag() -> (r: CancelFlag)
    ensures
        !r.is_set(),
{
    CancelFlag { cancelled: false }
}

/// `"mp3"` asks for audio; any other format asks for video.
pub fn is_audio_format(format: &str) -> (r: bool)
    ensures
        r == (format@ == "mp3"@),
{
    same_text(format, "mp3")
}

/// The body of a request to the Cobalt API. `None` fields are left out.
#[derive(Debug, Clone)]
pub struct CobaltRequest {
    pub url: String,
    pub is_audio_only: Option<bool>,
    pub audio_format: Option<String>,
    pub video_quality: Option<String>,
    pub filename_pattern: String,
}

/// The request for `params`: audio-only MP3 for the `"mp3"` format,
/// 1080p video otherwise; file names in the `"classic"` pattern.
pub fn cobalt_request(params: &DownloadParams) -> (r: CobaltRequest)
    ensures
        r.url@ == params.url@,
        r.filename_pattern@ == "classic"@,
        params.format@ == "mp3"@ ==> {
            &&& r.is_audio_only == Some(true)
            &&& (r.audio_format matches Some(f) && f@ == "mp3"@)
            &&& r.video_quality is None
        },
        params.format@ != "mp3"@ ==> {
            &&& r.is_audio_only is None
            &&& r.audio_format is None
            &&& (r.video_quality matches Some(q) && q@ == "1080"@)
        },
{
    let url = owned(params.url.as_str());
    if is_audio_format(params.format.as_str()) {
        CobaltRequest {
            url,
            is_audio_only: Some(true),
            audio_format: Some(owned("mp3")),
            video_quality: None,
            filename_pattern: owned("classic"),
        }
    } else {
        CobaltRequest {
            url,
            is_audio_only: None,
            audio_format: None,
            video_quality: Some(owned("1080")),
            filename_pattern: owned("classic"),
        }
    }
}

/// The answer of the Cobalt API.
#[derive(Debug, Clone)]
pub struct CobaltResponse {
    pub status: String,
    pub url: Option<String>,
    pub text: Option<String>,
}

/// Why a download stopped.
#[derive(Debug, Clone)]
pub enum DownloadError {
    /// The output directory does not exist.
    MissingOutputDir(String),
    /// The Cobalt API answered with an error, with its explanation.
    Cobalt(String),
    /// The Cobalt API answered without a stream URL.
    NoStreamUrl,
    /// The user cancelled the download.
    Cancelled,
}

pub open spec fn error_message(e: DownloadError) -> Seq<char> {
    match e {
        DownloadError::MissingOutputDir(d) => "La carpeta de destino no existe: "@ + d@,
        DownloadError::Cobalt(t) => "Cobalt API Error: "@ + t@,
        DownloadError::NoStreamUrl => "El servidor no devolvió una URL de stream válida"@,
        DownloadError::Cancelled => "Descarga cancelada por el usuario"@,
    }
}

impl DownloadError {
    /// The message shown to the user.
    pub fn message(&self) -> (r: String)
        ensures
            r@ == error_message(*self),
    {
        match self {
            DownloadError::MissingOutputDir(d) => {
                let mut r = owned("La carpeta de destino no existe: ");
                push_str(&mut r, d.as_str());
                r
            },
            DownloadError::Cobalt(t) => {
                let mut r = owned("Cobalt API Error: ");
                push_str(&mut r, t.as_str());
                r
            },
            DownloadError::NoStreamUrl => owned("El servidor no devolvió una URL de stream válida"),
            DownloadError::Cancelled => owned("Descarga cancelada por el usuario"),
        }
    }
}

/// The Cobalt status is one of failure.
pub open spec fn is_failure_status(status: Seq<char>) -> bool {
    status == "error"@ || status == "rate-limit"@
}

/// The stream to download, read from the Cobalt answer.
///
/// A status of `"error"` or `"rate-limit"` fails with the answer's text
/// (or `"Error desconocido"` where it has none); any other status gives the
/// answer's URL, or fails where it has none.
pub fn stream_url(resp: CobaltResponse) -> (r: Result<String, DownloadError>)
    ensures
        is_failure_status(resp.status@) ==> (r matches Err(DownloadError::Cobalt(t)) && t@ == (
        match resp.text {
            Some(t) => t@,
            None => "Error desconocido"@,
        })),
        !is_failure_status(resp.status@) ==> match resp.url {
            Some(u) => (r matches Ok(s) && s@ == u@),
            None => r matches Err(DownloadError::NoStreamUrl),
        },
        resp.status@ != "error"@ && resp.status@ != "rate-limit"@ ==> match resp.url {
            Some(u) => (r matches Ok(s) && s@ == u@),
            None => r matches Err(DownloadError::NoStreamUrl),
        },
        resp.status@ == "error"@ || resp.status@ == "rate-limit"@ ==> r matches Err(
            DownloadError::Cobalt(_),
        ),
{
    let failed = same_text(resp.status.as_str(), "error") || same_text(
        resp.status.as_str(),
        "rate-limit",
    );
    if failed {
        let text = match resp.text {
            Some(t) => t,
            None => owned("Error desconocido"),
        };
        return Err(DownloadError::Cobalt(text));
    }
    match resp.url {
        Some(u) => Ok(u),
        None => Err(DownloadError::NoStreamUrl),
    }
}

/// What `char::is_alphanumeric` answers for `c` (Unicode `Alphabetic` or
/// `Numeric`); its tables are not written out here.
pub uninterp spec fn char_is_alphanumeric(c: char) -> bool;

/// An ASCII letter or digit.
pub open spec fn is_ascii_alphanumeric(c: char) -> bool {
    ('a' <= c && c <= 'z') || ('A' <= c && c <= 'Z') || ('0' <= c && c <= '9')
}

/// Whether `c` is alphanumeric: for ASCII a letter or a digit, beyond ASCII
/// what `char::is_alphanumeric` answers.
pub open spec fn alphanumeric(c: char) -> bool {
    if c <= '\u{7f}' {
        is_ascii_alphanumeric(c)
    } else {
        char_is_alphanumeric(c)
    }
}

/// Calls `char::is_alphanumeric`; its result is named `char_is_alphanumeric`.
/// Of it only the ASCII case is claimed, as std documents and implements it:
/// `is_alphabetic` or `is_numeric`, which below U+0080 are the letters
/// `a`-`z`, `A`-`Z` and the digits `0`-`9`.
#[verifier::external_body]
fn is_alphanumeric(c: char) -> (r: bool)
    ensures
        r == char_is_alphanumeric(c),
        c <= '\u{7f}' ==> r == is_ascii_alphanumeric(c),
{
    c.is_alphanumeric()
}

/// The character that stands for `c` in a file name: `c` itself where it is
/// alphanumeric or a space, `'_'` otherwise.
pub open spec fn spec_safe_char(c: char, alphanumeric: bool) -> char {
    if alphanumeric || c == ' ' {
        c
    } else {
        '_'
    }
}

/// Computes `spec_safe_char`, given whether `c` is alphanumeric.
pub fn safe_char(c: char, alphanumeric: bool) -> (r: char)
    ensures
        r == spec_safe_char(c, alphanumeric),
        alphanumeric || c == ' ' ==> r == c,
        !alphanumeric && c != ' ' ==> r == '_',
{
    if alphanumeric || c == ' ' {
        c
    } else {
        '_'
    }
}

/// `title` with every character that is neither alphanumeric nor a space
/// replaced by `'_'`.
pub open spec fn spec_safe_title(title: Seq<char>) -> Seq<char> {
    Seq::new(title.len(), |i: int| spec_safe_char(title[i], alphanumeric(title[i])))
}

/// Makes a video title safe for a file name.
pub fn safe_title(title: &str) -> (r: String)
    ensures
        r@ == spec_safe_title(title@),
        r@.len() == title@.len(),
        forall|i: int|
            0 <= i < title@.len() && (alphanumeric(title@[i]) || title@[i] == ' ') ==> #[trigger] r@[i]
                == title@[i],
        forall|i: int|
            0 <= i < title@.len() && !alphanumeric(title@[i]) && title@[i] != ' ' ==> #[trigger] r@[i]
                == '_',
{
    let v = chars_of(title);
    let mut r = String::new();
    let mut i: usize = 0;
    while i < v.len()
        invariant
            i <= v.len(),
            v@ == title@,
            r@ == spec_safe_title(title@).subrange(0, i as int),
        decreases v.len() - i,
    {
        let c = v[i];
        let alnum = is_alphanumeric(c);
        r.push(safe_char(c, alnum));
        i += 1;
        assert(r@ =~= spec_safe_title(title@).subrange(0, i as int));
    }
    assert(spec_safe_title(title@).subrange(0, v.len() as int) =~= spec_safe_title(title@));
    r
}

/// Only the statuses `"error"` and `"rate-limit"` are failures: every other
/// status (`"stream"`, `"redirect"`, `"tunnel"`, ...) is read for its URL.
pub proof fn law_only_error_statuses_fail(status: Seq<char>)
    ensures
        is_failure_status("error"@),
        is_failure_status("rate-limit"@),
        status != "error"@ && status != "rate-limit"@ ==> !is_failure_status(status),
{
}

/// Making a title safe keeps its length, keeps every alphanumeric character
/// and every space where it stands, and puts `'_'` in place of every other
/// character.
pub proof fn law_safe_title_keeps_alphanumerics(title: Seq<char>)
    ensures
        spec_safe_title(title).len() == title.len(),
        forall|i: int|
            0 <= i < title.len() && alphanumeric(title[i]) ==> #[trigger] spec_safe_title(title)[i]
                == title[i],
        forall|i: int|
            0 <= i < title.len() && title[i] == ' ' ==> #[trigger] spec_safe_title(title)[i]
                == title[i],
        forall|i: int|
            0 <= i < title.len() && !alphanumeric(title[i]) && title[i] != ' '
                ==> #[trigger] spec_safe_title(title)[i] == '_',
{
}

/// Making a title safe twice changes nothing more than making it safe once.
pub proof fn law_safe_title_idempotent(title: Seq<char>)
    ensures
        spec_safe_title(spec_safe_title(title)) == spec_safe_title(title),
{
    let once = spec_safe_title(title);
    assert forall|i: int| 0 <= i < once.len() implies spec_safe_char(
        once[i],
        alphanumeric(once[i]),
    ) == once[i] by {
        if !alphanumeric(title[i]) && title[i] != ' ' {
            assert(once[i] == '_');
        }
    }
    assert(spec_safe_title(once) =~= once);
}

/// The text form of a UUID: 36 lowercase hexadecimal digits in groups of
/// 8-4-4-4-12 parted by hyphens.
pub open spec fn is_uuid_text(t: Seq<char>) -> bool {
    &&& t.len() == 36
    &&& forall|i: int|
        0 <= i < 36 ==> if i == 8 || i == 13 || i == 18 || i == 23 {
            #[trigger] t[i] == '-'
        } else {
            ('0' <= t[i] && t[i] <= '9') || ('a' <= t[i] && t[i] <= 'f')
        }
}

/// Calls `uuid::Uuid::new_v4` and formats it with `to_string`, which writes
/// the hyphenated lowercase form. The value is random: only its form is
/// claimed.
#[verifier::external_body]
fn random_uuid_text() -> (r: String)
    ensures
        is_uuid_text(r@),
{
    uuid::Uuid::new_v4().to_string()
}

/// The first (at most) four characters of `t`.
pub open spec fn first_four(t: Seq<char>) -> Seq<char> {
    if t.len() < 4 {
        t
    } else {
        t.subrange(0, 4)
    }
}

/// `"mp3"` for audio, `"mp4"` for video.
pub open spec fn media_extension(is_audio: bool) -> Seq<char> {
    if is_audio {
        "mp3"@
    } else {
        "mp4"@
    }
}

/// `"<safe title, trimmed> (<first four characters of unique>).<ext>"`.
pub open spec fn spec_output_file_name(title: Seq<char>, unique: Seq<char>, is_audio: bool) -> Seq<
    char,
> {
    spec_trim(spec_safe_title(title)) + " ("@ + first_four(unique) + ")."@ + media_extension(
        is_audio,
    )
}

/// The output file name for `title`, made distinct by the first four
/// characters of `unique`.
pub fn output_file_name(title: &str, unique: &str, is_audio: bool) -> (r: String)
    ensures
        r@ == spec_output_file_name(title@, unique@, is_audio),
{
    let safe = safe_title(title);
    let mut r = trim(safe.as_str());
    push_str(&mut r, " (");
    let u = chars_of(unique);
    let k = if u.len() < 4 {
        u.len()
    } else {
        4
    };
    let short = string_of(&u, 0, k);
    assert(short@ =~= first_four(unique@));
    push_str(&mut r, short.as_str());
    push_str(&mut r, ").");
    if is_audio {
        push_str(&mut r, "mp3");
    } else {
        push_str(&mut r, "mp4");
    }
    r
}

/// A fresh output file name for `title`, made distinct by a random UUID.
pub fn new_output_file_name(title: &str, is_audio: bool) -> (r: String)
    ensures
        exists|u: Seq<char>| is_uuid_text(u) && r@ == spec_output_file_name(title@, u, is_audio),
{
    let u = random_uuid_text();
    output_file_name(title, u.as_str(), is_audio)
}

/// Every output file name ends in the extension of its format.
pub proof fn law_file_name_extension(title: Seq<char>, unique: Seq<char>, is_audio: bool)
    ensures
        ({
            let n = spec_output_file_name(title, unique, is_audio);
            let e = media_extension(is_audio);
            n.subrange(n.len() - e.len(), n.len() as int) == e
        }),
{
    let n = spec_output_file_name(title, unique, is_audio);
    let e = media_extension(is_audio);
    assert(n.subrange(n.len() - e.len(), n.len() as int) =~= e);
}

/// A character that may stand in a file name without leaving its folder:
/// no path separator and no dot.
pub open spec fn is_plain_name_char(c: char) -> bool {
    c != '/' && c != '\\' && c != '.'
}

/// A fresh output file name names a file directly inside the output folder:
/// it holds no path separator, and its one dot is the one before the
/// extension, so it never holds `..`.
pub proof fn law_fresh_file_name_stays_in_folder(title: Seq<char>, u: Seq<char>, is_audio: bool)
    requires
        is_uuid_text(u),
    ensures
        ({
            let n = spec_output_file_name(title, u, is_audio);
            &&& forall|i: int| 0 <= i < n.len() ==> #[trigger] n[i] != '/' && n[i] != '\\'
            &&& forall|i: int| 0 <= i < n.len() - 1 ==> !(#[trigger] n[i] == '.' && n[i + 1] == '.')
        }),
{
    reveal_strlit(" (");
    reveal_strlit(").");
    reveal_strlit("mp3");
    reveal_strlit("mp4");
    let safe = spec_safe_title(title);
    let t = spec_trim(safe);
    lemma_trim_bounds(safe);
    let a = run_end(safe, 0, CharClass::Whitespace);
    lemma_run_end(safe, 0, CharClass::Whitespace);
    assert forall|k: int| 0 <= k < safe.len() implies is_plain_name_char(#[trigger] safe[k]) by {
        let c = title[k];
        assert(safe[k] == spec_safe_char(c, alphanumeric(c)));
    }
    if a < safe.len() {
        assert(t == safe.subrange(a, back_run(safe, safe.len() as int)));
        assert forall|k: int| 0 <= k < t.len() implies is_plain_name_char(#[trigger] t[k]) by {
            assert(t[k] == safe[a + k]);
        }
    } else {
        assert(t.len() == 0);
    }
    let f = first_four(u);
    assert forall|k: int| 0 <= k < f.len() implies is_plain_name_char(#[trigger] f[k]) by {
        assert(f[k] == u[k]);
    }
    let e = media_extension(is_audio);
    assert(forall|k: int| 0 <= k < e.len() ==> is_plain_name_char(#[trigger] e[k]));
    let n = spec_output_file_name(title, u, is_audio);
    let dot = (t.len() + 2 + f.len() + 1) as int;
    assert(n.len() == dot + 1 + e.len());
    assert forall|i: int| 0 <= i < n.len() && i != dot implies is_plain_name_char(#[trigger] n[i]) by {
        if i < t.len() {
            assert(n[i] == t[i]);
        } else if i < t.len() + 2 {
        } else if i < t.len() + 2 + f.len() {
            assert(n[i] == f[i - t.len() - 2]);
        } else if i < dot {
        } else {
            assert(n[i] == e[i - dot - 1]);
        }
    }
    assert(n[dot] == '.');
    assert forall|i: int| 0 <= i < n.len() implies #[trigger] n[i] != '/' && n[i] != '\\' by {
        if i != dot {
            assert(is_plain_name_char(n[i]));
        }
    }
    assert forall|i: int| 0 <= i < n.len() - 1 implies !(#[trigger] n[i] == '.' && n[i + 1] == '.') by {
        if i != dot {
            assert(is_plain_name_char(n[i]));
        } else {
            assert(is_plain_name_char(n[i + 1]));
        }
    }
}

/// A progress report is due each time the byte count of a stream of known
/// size passes a multiple of this (512 KiB).
pub const PROGRESS_STEP: u64 = 524288;

/// The byte count of a streamed download.
#[derive(Debug, Clone, Copy)]
pub struct DownloadSession {
    /// The announced size of the stream; 0 where it was not announced.
    pub total_size: u64,
    /// The bytes written so far.
    pub downloaded: u64,
}

/// What to do with the chunk that arrived.
#[derive(Debug, Clone, Copy, PartialEq, Eq, Structural)]
pub enum ChunkAction {
    /// Cancellation was asked for: drop the file and stop.
    Abort,
    /// Write the chunk, then report progress where `report_progress` holds.
    Write { report_progress: bool },
}

impl DownloadSession {
    /// A session for a stream of `content_length` bytes, if announced.
    pub fn new(content_length: Option<u64>) -> (s: Self)
        ensures
            s.total_size == match content_length {
                Some(n) => n,
                None => 0,
            },
            s.downloaded == 0,
    {
        let total_size = match content_length {
            Some(n) => n,
            None => 0,
        };
        DownloadSession { total_size, downloaded: 0 }
    }

    /// Decides on a chunk of `chunk_len` bytes, given whether cancellation
    /// was asked for. A cancelled session stops unchanged; otherwise the
    /// chunk is counted, and progress is due when the size is known and the
    /// count reached or passed a multiple of 512 KiB with this chunk.
    pub fn on_chunk(&mut self, chunk_len: u64, cancelled: bool) -> (r: ChunkAction)
        requires
            !cancelled ==> old(self).downloaded + chunk_len <= u64::MAX,
        ensures
            cancelled ==> r == ChunkAction::Abort && *final(self) == *old(self),
            !cancelled ==> {
                &&& *final(self) == after_chunk(*old(self), chunk_len)
                &&& final(self).downloaded == old(self).downloaded + chunk_len
                &&& r == ChunkAction::Write {
                    report_progress: final(self).total_size > 0 && old(self).downloaded
                        / PROGRESS_STEP < final(self).downloaded / PROGRESS_STEP,
                }
            },
    {
        if cancelled {
            return ChunkAction::Abort;
        }
        let before = self.downloaded / PROGRESS_STEP;
        self.downloaded = self.downloaded + chunk_len;
        ChunkAction::Write {
            report_progress: self.total_size > 0 && before < self.downloaded / PROGRESS_STEP,
        }
    }
}

/// The session after a chunk of `len` bytes that was not cancelled.
pub open spec fn after_chunk(s: DownloadSession, len: u64) -> DownloadSession {
    DownloadSession { total_size: s.total_size, downloaded: (s.downloaded + len) as u64 }
}

/// The session after a series of chunks, none cancelled.
pub open spec fn after_chunks(s: DownloadSession, lens: Seq<u64>) -> DownloadSession
    decreases lens.len(),
{
    if lens.len() == 0 {
        s
    } else {
        after_chunk(after_chunks(s, lens.drop_last()), lens.last())
    }
}

/// The sum of a series of chunk lengths.
pub open spec fn sum_lengths(lens: Seq<u64>) -> int
    decreases lens.len(),
{
    if lens.len() == 0 {
        0
    } else {
        sum_lengths(lens.drop_last()) + lens.last()
    }
}

/// A session fed chunks that are not cancelled counts exactly their total
/// length, and keeps its announced size.
pub proof fn law_session_counts_every_chunk(s: DownloadSession, lens: Seq<u64>)
    requires
        s.downloaded + sum_lengths(lens) <= u64::MAX,
    ensures
        after_chunks(s, lens).downloaded == s.downloaded + sum_lengths(lens),
        after_chunks(s, lens).total_size == s.total_size,
    decreases lens.len(),
{
    if lens.len() > 0 {
        law_session_counts_every_chunk(s, lens.drop_last());
    }
}

/// The report given when the video's information is being fetched.
pub fn fetching_info_progress() -> (p: ProgressPayload)
    ensures
        p.percent@ == "5"@,
        p.speed@ == Seq::<char>::empty(),
        p.eta@ == Seq::<char>::empty(),
        p.stage == DownloadStage::FetchingInfo,
{
    ProgressPayload {
        percent: owned("5"),
        speed: String::new(),
        eta: String::new(),
        stage: DownloadStage::FetchingInfo,
    }
}

/// The report given when the stream starts.
pub fn stream_started_progress() -> (p: ProgressPayload)
    ensures
        p.percent@ == "15"@,
        p.speed@ == Seq::<char>::empty(),
        p.eta@ == Seq::<char>::empty(),
        p.stage == DownloadStage::Downloading,
{
    ProgressPayload {
        percent: owned("15"),
        speed: String::new(),
        eta: String::new(),
        stage: DownloadStage::Downloading,
    }
}

/// The report given when the download is complete.
pub fn download_complete_progress() -> (p: ProgressPayload)
    ensures
        p.percent@ == "100"@,
        p.speed@ == Seq::<char>::empty(),
        p.eta@ == "00:00"@,
        p.stage == DownloadStage::Complete,
{
    ProgressPayload {
        percent: owned("100"),
        speed: String::new(),
        eta: owned("00:00"),
        stage: DownloadStage::Complete,
    }
}

} // verus!
