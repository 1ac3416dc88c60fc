//! Reading yt-dlp's console output into progress reports.
//!
//! A progress line of yt-dlp looks like
//! `[download]  34.5% of   5.23MiB at   1.20MiB/s ETA 00:03`.
//! and is read for its percentage (`34.5`), its speed (`1.20MiB/s`) and its
//! ETA (`00:03`). The grammar that is recognised is
//! `\[download\]\s+(\d+(?:\.\d+)?)%(?:.*?at\s+([\d.]+\s*\S+))?(?:.*?ETA\s+([\d:]+))?`,
//! searched leftmost-first, where `\s` is Unicode whitespace, `\d` a Unicode
//! decimal digit and `.` any character but a line feed: the speed is taken at
//! the first `at` on the line where its group matches, the ETA at the first
//! `ETA` after that.
use vstd::prelude::*;

use crate::text::{
    chars_of, contains, in_class, lemma_run_end, occurs_at, occurs_at_exec, owned, run_end, scan_run,
    seq_contains, slice_chars, string_of, CharClass,
};

verus! {

/// The phase a download is in.
#[derive(Clone, Copy, Debug, PartialEq, Eq, Structural)]
pub enum DownloadStage {
    FetchingInfo,
    Downloading,
    Converting,
    Complete,
    Error,
}

/// A progress report. `percent` holds the percentage as decimal text
/// (`"34.5"`, `"99"`), exactly as it is shown or read.
#[derive(Debug)]
pub struct ProgressPayload {
    pub percent: String,
    pub speed: String,
    pub eta: String,
    pub stage: DownloadStage,
}

/// The mathematical content of a `ProgressPayload`.
pub struct ProgressView {
    pub percent: Seq<char>,
    pub speed: Seq<char>,
    pub eta: Seq<char>,
    pub stage: DownloadStage,
}

impl View for ProgressPayload {
    type V = ProgressView;

    open spec fn view(&self) -> ProgressView {
        ProgressView {
            percent: self.percent@,
            speed: self.speed@,
            eta: self.eta@,
            stage: self.stage,
        }
    }
}

pub open spec fn option_progress_view(p: Option<ProgressPayload>) -> Option<ProgressView> {
    match p {
        Some(p) => Some(p@),
        None => None,
    }
}

impl Default for ProgressPayload {
    /// A report of no progress yet: percent `"0"`, no speed, no ETA,
    /// stage `Downloading`.
    fn default() -> (p: Self)
        ensures
            p.percent@ == "0"@,
            p.speed@ == Seq::<char>::empty(),
            p.eta@ == Seq::<char>::empty(),
            p.stage == DownloadStage::Downloading,
    {
        ProgressPayload {
            percent: owned("0"),
            speed: String::new(),
            eta: String::new(),
            stage: DownloadStage::Downloading,
        }
    }
}

/// `t` is a decimal number `\d+(\.\d+)?` in ASCII digits.
pub open spec fn is_decimal_text(t: Seq<char>) -> bool {
    let d = run_end(t, 0, CharClass::Digit);
    &&& d > 0
    &&& (d == t.len() || (t[d] == '.' && d + 1 < t.len() && run_end(t, d + 1, CharClass::Digit)
        == t.len()))
}

/// The span of the percentage when a progress report starts at `i`:
/// `[download]`, whitespace, a decimal number, `%`.
pub open spec fn percent_span(s: Seq<char>, i: int) -> Option<(int, int)> {
    if occurs_at(s, "[download]"@, i) {
        let w = i + "[download]"@.len();
        let a = run_end(s, w, CharClass::Whitespace);
        let b = run_end(s, a, CharClass::DigitOrDot);
        if a > w && b < s.len() && s[b] == '%' && is_decimal_text(s.subrange(a, b)) {
            Some((a, b))
        } else {
            None
        }
    } else {
        None
    }
}

/// The span of the speed group `at\s+([\d.]+\s*\S+)` when it starts at `p`,
/// as the leftmost-first search picks it.
pub open spec fn speed_span(s: Seq<char>, p: int) -> Option<(int, int)> {
    if occurs_at(s, "at"@, p) {
        let q = p + "at"@.len();
        let r = run_end(s, q, CharClass::Whitespace);
        let a = run_end(s, r, CharClass::DigitOrDot);
        let t = run_end(s, a, CharClass::Whitespace);
        if r > q && a > r {
            if t < s.len() {
                Some((r, run_end(s, t, CharClass::NonWhitespace)))
            } else if a - r >= 2 {
                Some((r, a))
            } else {
                None
            }
        } else {
            None
        }
    } else {
        None
    }
}

/// The span of the ETA group `ETA\s+([\d:]+)` when it starts at `q`.
pub open spec fn eta_span(s: Seq<char>, q: int) -> Option<(int, int)> {
    if occurs_at(s, "ETA"@, q) {
        let x0 = q + "ETA"@.len();
        let x = run_end(s, x0, CharClass::Whitespace);
        let y = run_end(s, x, CharClass::DigitOrColon);
        if x > x0 && y > x {
            Some((x, y))
        } else {
            None
        }
    } else {
        None
    }
}

/// The first position in `[q, stop)` where the speed group matches.
pub open spec fn first_speed(s: Seq<char>, q: int, stop: int) -> Option<int>
    decreases stop - q,
{
    if q < 0 || q >= stop {
        None
    } else if speed_span(s, q) is Some {
        Some(q)
    } else {
        first_speed(s, q + 1, stop)
    }
}

/// The first position in `[q, stop)` where the ETA group matches.
pub open spec fn first_eta(s: Seq<char>, q: int, stop: int) -> Option<int>
    decreases stop - q,
{
    if q < 0 || q >= stop {
        None
    } else if eta_span(s, q) is Some {
        Some(q)
    } else {
        first_eta(s, q + 1, stop)
    }
}

/// The speed group found from `p` on, before the end of the line.
pub open spec fn speed_from(s: Seq<char>, p: int) -> Option<(int, int)> {
    match first_speed(s, p, run_end(s, p, CharClass::NotNewline)) {
        Some(q) => speed_span(s, q),
        None => None,
    }
}

/// The ETA group found from `u` on, before the end of the line.
pub open spec fn eta_from(s: Seq<char>, u: int) -> Option<(int, int)> {
    match first_eta(s, u, run_end(s, u, CharClass::NotNewline)) {
        Some(q) => eta_span(s, q),
        None => None,
    }
}

/// The leftmost position at or after `i` where a progress report starts.
pub open spec fn first_match(s: Seq<char>, i: int) -> Option<int>
    decreases s.len() - i,
{
    if i < 0 || i >= s.len() {
        None
    } else if percent_span(s, i) is Some {
        Some(i)
    } else {
        first_match(s, i + 1)
    }
}

pub open spec fn span_start(span: Option<(int, int)>) -> int {
    match span {
        Some((a, _)) => a,
        None => 0,
    }
}

pub open spec fn span_end(span: Option<(int, int)>) -> int {
    match span {
        Some((_, b)) => b,
        None => 0,
    }
}

pub open spec fn span_text(s: Seq<char>, span: Option<(int, int)>) -> Seq<char> {
    match span {
        Some((a, b)) => s.subrange(a, b),
        None => Seq::empty(),
    }
}

/// The report read from a progress match that starts at `i`.
pub open spec fn download_progress(s: Seq<char>, i: int) -> ProgressView {
    let a = span_start(percent_span(s, i));
    let b = span_end(percent_span(s, i));
    let sp = speed_from(s, b + 1);
    let u = match sp {
        Some((_, e)) => e,
        None => b + 1,
    };
    ProgressView {
        percent: s.subrange(a, b),
        speed: span_text(s, sp),
        eta: span_text(s, eta_from(s, u)),
        stage: DownloadStage::Downloading,
    }
}

/// What a line of yt-dlp output reports, if anything.
pub open spec fn spec_parse_ytdlp_line(s: Seq<char>) -> Option<ProgressView> {
    if seq_contains(s, "[download]"@) && seq_contains(s, "%"@) && first_match(s, 0) is Some {
        Some(download_progress(s, first_match(s, 0)->0))
    } else if seq_contains(s, "[ExtractAudio]"@) || seq_contains(s, "Destination:"@) {
        Some(
            ProgressView {
                percent: "99"@,
                speed: Seq::empty(),
                eta: Seq::empty(),
                stage: DownloadStage::Converting,
            },
        )
    } else if seq_contains(s, "[download] 100%"@) {
        Some(
            ProgressView {
                percent: "100"@,
                speed: Seq::empty(),
                eta: "00:00"@,
                stage: DownloadStage::Downloading,
            },
        )
    } else {
        None
    }
}

pub open spec fn span_of(r: Option<(usize, usize)>) -> Option<(int, int)> {
    match r {
        Some((a, b)) => Some((a as int, b as int)),
        None => None,
    }
}

/// Tests `is_decimal_text`.
fn is_decimal(t: &Vec<char>) -> (r: bool)
    ensures
        r == is_decimal_text(t@),
{
    let d = scan_run(t, 0, CharClass::Digit);
    if d == 0 {
        return false;
    }
    if d == t.len() {
        return true;
    }
    if t[d] == '.' && d + 1 < t.len() {
        scan_run(t, d + 1, CharClass::Digit) == t.len()
    } else {
        false
    }
}

/// Computes `percent_span`.
fn percent_span_exec(v: &Vec<char>, head: &Vec<char>, i: usize) -> (r: Option<(usize, usize)>)
    requires
        head@ == "[download]"@,
    ensures
        span_of(r) == percent_span(v@, i as int),
{
    let found = occurs_at_exec(v, head, i);
    if !found {
        return None;
    }
    let n = v.len();
    assert(i + head@.len() <= n);
    let w = i + head.len();
    let a = scan_run(v, w, CharClass::Whitespace);
    let b = scan_run(v, a, CharClass::DigitOrDot);
    if a > w && b < v.len() && v[b] == '%' {
        let t = slice_chars(v, a, b);
        if is_decimal(&t) {
            return Some((a, b));
        }
    }
    None
}

/// Computes `speed_span`.
fn speed_span_exec(v: &Vec<char>, at: &Vec<char>, p: usize) -> (r: Option<(usize, usize)>)
    requires
        at@ == "at"@,
    ensures
        span_of(r) == speed_span(v@, p as int),
        r matches Some((a, b)) ==> a <= b <= v.len(),
{
    let found = occurs_at_exec(v, at, p);
    if !found {
        return None;
    }
    let n = v.len();
    assert(p + at@.len() <= n);
    let q = p + at.len();
    let r = scan_run(v, q, CharClass::Whitespace);
    let a = scan_run(v, r, CharClass::DigitOrDot);
    let t = scan_run(v, a, CharClass::Whitespace);
    if r > q && a > r {
        if t < v.len() {
            let e = scan_run(v, t, CharClass::NonWhitespace);
            Some((r, e))
        } else if a - r >= 2 {
            Some((r, a))
        } else {
            None
        }
    } else {
        None
    }
}

/// Computes `eta_span`.
fn eta_span_exec(v: &Vec<char>, eta: &Vec<char>, q: usize) -> (r: Option<(usize, usize)>)
    requires
        eta@ == "ETA"@,
    ensures
        span_of(r) == eta_span(v@, q as int),
        r matches Some((a, b)) ==> a <= b <= v.len(),
{
    let found = occurs_at_exec(v, eta, q);
    if !found {
        return None;
    }
    let n = v.len();
    assert(q + eta@.len() <= n);
    let x0 = q + eta.len();
    let x = scan_run(v, x0, CharClass::Whitespace);
    let y = scan_run(v, x, CharClass::DigitOrColon);
    if x > x0 && y > x {
        Some((x, y))
    } else {
        None
    }
}

/// Computes `speed_from`.
fn speed_from_exec(v: &Vec<char>, at: &Vec<char>, p: usize) -> (r: Option<(usize, usize)>)
    requires
        at@ == "at"@,
        p <= v.len(),
    ensures
        span_of(r) == speed_from(v@, p as int),
        r matches Some((a, b)) ==> a <= b <= v.len(),
{
    let stop = scan_run(v, p, CharClass::NotNewline);
    let mut q = p;
    while q < stop
        invariant
            p <= q <= stop <= v.len(),
            at@ == "at"@,
            stop as int == run_end(v@, p as int, CharClass::NotNewline),
            first_speed(v@, q as int, stop as int) == first_speed(v@, p as int, stop as int),
        decreases stop - q,
    {
        let sp = speed_span_exec(v, at, q);
        if sp.is_some() {
            return sp;
        }
        q += 1;
    }
    None
}

/// Computes `eta_from`.
fn eta_from_exec(v: &Vec<char>, eta: &Vec<char>, u: usize) -> (r: Option<(usize, usize)>)
    requires
        eta@ == "ETA"@,
        u <= v.len(),
    ensures
        span_of(r) == eta_from(v@, u as int),
        r matches Some((a, b)) ==> a <= b <= v.len(),
{
    let stop = scan_run(v, u, CharClass::NotNewline);
    let mut q = u;
    while q < stop
        invariant
            u <= q <= stop <= v.len(),
            eta@ == "ETA"@,
            stop as int == run_end(v@, u as int, CharClass::NotNewline),
            first_eta(v@, q as int, stop as int) == first_eta(v@, u as int, stop as int),
        decreases stop - q,
    {
        let et = eta_span_exec(v, eta, q);
        if et.is_some() {
            return et;
        }
        q += 1;
    }
    None
}

/// Computes `first_match(v, 0)`.
fn first_match_exec(v: &Vec<char>, head: &Vec<char>) -> (r: Option<usize>)
    requires
        head@ == "[download]"@,
    ensures
        r matches Some(i) ==> first_match(v@, 0) == Some(i as int) && percent_span(
            v@,
            i as int,
        ) is Some,
        r is None ==> first_match(v@, 0) is None,
{
    let mut i: usize = 0;
    while i < v.len()
        invariant
            i <= v.len(),
            head@ == "[download]"@,
            first_match(v@, i as int) == first_match(v@, 0),
        decreases v.len() - i,
    {
        if percent_span_exec(v, head, i).is_some() {
            return Some(i);
        }
        i += 1;
    }
    None
}

proof fn lemma_percent_span_bounds(s: Seq<char>, i: int)
    requires
        percent_span(s, i) is Some,
    ensures
        0 <= span_start(percent_span(s, i)) <= span_end(percent_span(s, i)) < s.len(),
{
    let w = i + "[download]"@.len();
    lemma_run_end(s, w, CharClass::Whitespace);
    lemma_run_end(s, run_end(s, w, CharClass::Whitespace), CharClass::DigitOrDot);
}

/// Builds the report of a progress match at `i`.
fn download_progress_exec(v: &Vec<char>, head: &Vec<char>, i: usize) -> (p: ProgressPayload)
    requires
        head@ == "[download]"@,
        percent_span(v@, i as int) is Some,
    ensures
        p@ == download_progress(v@, i as int),
{
    let at = chars_of("at");
    let eta = chars_of("ETA");
    let (a, b) = percent_span_exec(v, head, i).unwrap();
    let n = v.len();
    proof {
        lemma_percent_span_bounds(v@, i as int);
    }
    assert(b < n);
    let sp = speed_from_exec(v, &at, b + 1);
    let u = match sp {
        Some((_, e)) => e,
        None => b + 1,
    };
    let percent = string_of(v, a, b);
    let speed = match sp {
        Some((x, y)) => string_of(v, x, y),
        None => String::new(),
    };
    let et = eta_from_exec(v, &eta, u);
    let eta_text = match et {
        Some((x, y)) => string_of(v, x, y),
        None => String::new(),
    };
    let p = ProgressPayload {
        percent,
        speed,
        eta: eta_text,
        stage: DownloadStage::Downloading,
    };
    assert(p@.speed =~= download_progress(v@, i as int).speed);
    assert(p@.eta =~= download_progress(v@, i as int).eta);
    p
}

/// Reads a line of yt-dlp output.
///
/// A download progress line (`[download]  34.5% of 5.23MiB ...`) gives its
/// percentage, and the speed and ETA groups where the grammar finds them; a
/// conversion line (`[ExtractAudio]`, `Destination:`) gives 99 percent in the
/// `Converting` stage; other lines give nothing.
pub fn parse_ytdlp_line(line: &str) -> (r: Option<ProgressPayload>)
    ensures
        option_progress_view(r) == spec_parse_ytdlp_line(line@),
{
    let v = chars_of(line);
    let head = chars_of("[download]");
    let pct = chars_of("%");
    if contains(&v, &head) && contains(&v, &pct) {
        if let Some(i) = first_match_exec(&v, &head) {
            return Some(download_progress_exec(&v, &head, i));
        }
    }
    let extract = chars_of("[ExtractAudio]");
    let destination = chars_of("Destination:");
    if contains(&v, &extract) || contains(&v, &destination) {
        return Some(
            ProgressPayload {
                percent: owned("99"),
                speed: String::new(),
                eta: String::new(),
                stage: DownloadStage::Converting,
            },
        );
    }
    let done = chars_of("[download] 100%");
    if contains(&v, &done) {
        return Some(
            ProgressPayload {
                percent: owned("100"),
                speed: String::new(),
                eta: owned("00:00"),
                stage: DownloadStage::Downloading,
            },
        );
    }
    None
}

proof fn lemma_first_match_reaches(s: Seq<char>, j: int, k: int)
    requires
        0 <= j <= k,
        percent_span(s, k) is Some,
    ensures
        first_match(s, j) is Some,
    decreases k - j,
{
    lemma_percent_span_bounds(s, k);
    if percent_span(s, j) is None {
        lemma_first_match_reaches(s, j + 1, k);
    }
}

proof fn lemma_first_match_is_match(s: Seq<char>, j: int)
    requires
        0 <= j,
    ensures
        first_match(s, j) matches Some(i) ==> percent_span(s, i) is Some,
    decreases s.len() - j,
{
    if j < s.len() && percent_span(s, j) is None {
        lemma_first_match_is_match(s, j + 1);
    }
}

/// Where `[download] 100%` stands at `k`, a progress report starts at `k`.
proof fn lemma_completion_occurrence(s: Seq<char>, k: int)
    requires
        occurs_at(s, "[download] 100%"@, k),
    ensures
        occurs_at(s, "[download]"@, k),
        occurs_at(s, "%"@, k + 14),
        percent_span(s, k) == Some((k + 11, k + 14)),
{
    reveal_strlit("[download] 100%");
    reveal_strlit("[download]");
    reveal_strlit("%");
    let lit = "[download] 100%"@;
    assert forall|j: int| 0 <= j < 15 implies s[k + j] == lit[j] by {
        assert(s.subrange(k, k + 15)[j] == s[k + j]);
    }
    assert(s.subrange(k, k + 10) =~= "[download]"@);
    assert(s[k + 10] == lit[10] && lit[10] == ' ');
    assert(s[k + 11] == lit[11] && lit[11] == '1');
    assert(s[k + 12] == lit[12] && lit[12] == '0');
    assert(s[k + 13] == lit[13] && lit[13] == '0');
    assert(s[k + 14] == lit[14] && lit[14] == '%');
    assert(s.subrange(k + 14, k + 15) =~= "%"@);
    assert(run_end(s, k + 11, CharClass::Whitespace) == k + 11);
    assert(run_end(s, k + 10, CharClass::Whitespace) == k + 11);
    assert(run_end(s, k + 14, CharClass::DigitOrDot) == k + 14);
    assert(run_end(s, k + 13, CharClass::DigitOrDot) == k + 14);
    assert(run_end(s, k + 12, CharClass::DigitOrDot) == k + 14);
    assert(run_end(s, k + 11, CharClass::DigitOrDot) == k + 14);
    let t = s.subrange(k + 11, k + 14);
    assert(t[0] == '1' && t[1] == '0' && t[2] == '0');
    assert(run_end(t, 3, CharClass::Digit) == 3);
    assert(run_end(t, 2, CharClass::Digit) == 3);
    assert(run_end(t, 1, CharClass::Digit) == 3);
    assert(run_end(t, 0, CharClass::Digit) == 3);
}

/// A line that reports completion (`[download] 100%`) is always read as a
/// download progress report by the progress grammar.
pub proof fn law_completion_line_reads_as_progress(s: Seq<char>)
    requires
        seq_contains(s, "[download] 100%"@),
    ensures
        first_match(s, 0) is Some,
        spec_parse_ytdlp_line(s) == Some(download_progress(s, first_match(s, 0)->0)),
        spec_parse_ytdlp_line(s)->0.stage == DownloadStage::Downloading,
{
    let k = choose|k: int| occurs_at(s, "[download] 100%"@, k);
    lemma_completion_occurrence(s, k);
    assert(occurs_at(s, "[download]"@, k));
    assert(occurs_at(s, "%"@, k + 14));
    lemma_first_match_reaches(s, 0, k);
}

/// A line that mentions neither `[download]`, `[ExtractAudio]` nor
/// `Destination:` reports nothing.
pub proof fn law_unrelated_line_reports_nothing(s: Seq<char>)
    requires
        !seq_contains(s, "[download]"@),
        !seq_contains(s, "[ExtractAudio]"@),
        !seq_contains(s, "Destination:"@),
    ensures
        spec_parse_ytdlp_line(s) is None,
{
    if seq_contains(s, "[download] 100%"@) {
        let k = choose|k: int| occurs_at(s, "[download] 100%"@, k);
        lemma_completion_occurrence(s, k);
        assert(occurs_at(s, "[download]"@, k));
    }
}

proof fn lemma_short_decimals()
    ensures
        is_decimal_text("99"@),
        is_decimal_text("100"@),
{
    reveal_strlit("99");
    reveal_strlit("100");
    let a = "99"@;
    assert(run_end(a, 2, CharClass::Digit) == 2);
    assert(run_end(a, 1, CharClass::Digit) == 2);
    assert(run_end(a, 0, CharClass::Digit) == 2);
    let b = "100"@;
    assert(run_end(b, 3, CharClass::Digit) == 3);
    assert(run_end(b, 2, CharClass::Digit) == 3);
    assert(run_end(b, 1, CharClass::Digit) == 3);
    assert(run_end(b, 0, CharClass::Digit) == 3);
}

/// Every report read from a line carries its percentage as a decimal number
/// `\d+(\.\d+)?`.
pub proof fn law_reported_percent_is_decimal(s: Seq<char>)
    requires
        spec_parse_ytdlp_line(s) is Some,
    ensures
        is_decimal_text(spec_parse_ytdlp_line(s)->0.percent),
{
    lemma_short_decimals();
    lemma_first_match_is_match(s, 0);
}

/// The ETA of every report holds only digits and colons.
pub proof fn law_reported_eta_is_clock_text(s: Seq<char>)
    requires
        spec_parse_ytdlp_line(s) is Some,
    ensures
        forall|k: int|
            0 <= k < spec_parse_ytdlp_line(s)->0.eta.len() ==> in_class(
                CharClass::DigitOrColon,
                #[trigger] spec_parse_ytdlp_line(s)->0.eta[k],
            ),
{
    reveal_strlit("00:00");
    let p = spec_parse_ytdlp_line(s)->0;
    if seq_contains(s, "[download]"@) && seq_contains(s, "%"@) && first_match(s, 0) is Some {
        let i = first_match(s, 0)->0;
        let b = span_end(percent_span(s, i));
        let u = match speed_from(s, b + 1) {
            Some((_, e)) => e,
            None => b + 1,
        };
        if eta_from(s, u) is Some {
            let q = first_eta(s, u, run_end(s, u, CharClass::NotNewline))->0;
            let x0 = q + "ETA"@.len();
            lemma_run_end(s, x0, CharClass::Whitespace);
            let x = run_end(s, x0, CharClass::Whitespace);
            lemma_run_end(s, x, CharClass::DigitOrColon);
            assert forall|k: int| 0 <= k < p.eta.len() implies in_class(
                CharClass::DigitOrColon,
                #[trigger] p.eta[k],
            ) by {
                assert(p.eta[k] == s[x + k]);
            }
        }
    } else if !(seq_contains(s, "[ExtractAudio]"@) || seq_contains(s, "Destination:"@)) {
        let t = "00:00"@;
        assert(t[0] == '0' && t[1] == '0' && t[2] == ':' && t[3] == '0' && t[4] == '0');
    }
}

/// A line that mentions `[ExtractAudio]` or `Destination:` and is not read as
/// download progress is reported as conversion: 99 percent, no speed, no ETA,
/// stage `Converting`.
pub proof fn law_conversion_line_reports_converting(s: Seq<char>)
    requires
        seq_contains(s, "[ExtractAudio]"@) || seq_contains(s, "Destination:"@),
        !(seq_contains(s, "[download]"@) && seq_contains(s, "%"@) && first_match(s, 0) is Some),
    ensures
        spec_parse_ytdlp_line(s) == Some(
            ProgressView {
                percent: "99"@,
                speed: Seq::<char>::empty(),
                eta: Seq::<char>::empty(),
                stage: DownloadStage::Converting,
            },
        ),
{
}

/// A line without `%` that mentions `[ExtractAudio]` (such as yt-dlp's
/// "Not converting audio ..." notice) is reported as conversion.
pub proof fn law_extract_audio_notice_reports_converting(s: Seq<char>)
    requires
        seq_contains(s, "[ExtractAudio]"@),
        !seq_contains(s, "%"@),
    ensures
        spec_parse_ytdlp_line(s) matches Some(p) && p.stage == DownloadStage::Converting
            && p.percent == "99"@,
{
}

} // verus!
