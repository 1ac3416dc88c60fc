use regex::Regex;
use yt_mp3_downloader::progress::{parse_ytdlp_line, DownloadStage, ProgressPayload};

/// The reading that is meant, done with the `regex` crate: the percentage
/// (as a float), the speed at the first `at` where its group matches, the ETA
/// at the first `ETA` after it.
fn read_with_regex(line: &str) -> Option<(f64, String, String, DownloadStage)> {
    if line.contains("[download]") && line.contains('%') {
        let re = Regex::new(
            r"\[download\]\s+(\d+(?:\.\d+)?)%(?:.*?at\s+([\d.]+\s*\S+))?(?:.*?ETA\s+([\d:]+))?",
        )
        .unwrap();
        if let Some(caps) = re.captures(line) {
            let percent: f64 = caps
                .get(1)
                .and_then(|m| m.as_str().parse().ok())
                .unwrap_or(0.0);
            let speed = caps.get(2).map(|m| m.as_str().to_string()).unwrap_or_default();
            let eta = caps.get(3).map(|m| m.as_str().to_string()).unwrap_or_default();
            return Some((percent, speed, eta, DownloadStage::Downloading));
        }
    }
    if line.contains("[ExtractAudio]") || line.contains("Destination:") {
        return Some((99.0, String::new(), String::new(), DownloadStage::Converting));
    }
    if line.contains("[download] 100%") {
        return Some((100.0, String::new(), "00:00".to_string(), DownloadStage::Downloading));
    }
    None
}

fn as_tuple(p: ProgressPayload) -> (f64, String, String, DownloadStage) {
    (p.percent.parse::<f64>().unwrap_or(0.0), p.speed, p.eta, p.stage)
}

const LINES: &[&str] = &[
    "[download]  34.5% of   5.23MiB at   1.20MiB/s ETA 00:03",
    "[download] 100% of 5.23MiB in 00:04",
    "[download] 100%",
    "[download]   0.0% of ~  3.10MiB at  Unknown B/s ETA Unknown",
    "[download] 12.5%at 1.2MiB/s ETA 00:10",
    "[download] 12.5%at 1.2 MiB/s ETA 00:10",
    "[download] 12.5%at 1.2",
    "[download] 12.5%at 1.2   ",
    "[download] 12.5%at 5",
    "[download] 12.5%at 55",
    "[download] 12.5%at 5 ",
    "[download] 12.5%at 1.2MiB/s   ETA 00:10",
    "[download] 12.5%   ETA 01:02:03 left",
    "[download] 12.5% ETA",
    "[download] 12.5% ETA ",
    "[download] 12.5%ETA\t4:5",
    "[download] 12.%",
    "[download] .5%",
    "[download] 1.2.3%",
    "[download]12%",
    "[download] abc% [download] 7%",
    "[download] Destination: song.webm",
    "[ExtractAudio] Destination: song.mp3",
    "Deleting original file song.webm",
    "",
    "%",
    "[download] 50 %",
    "[download]\u{a0}\u{3000}42% at\u{2003}3.3KiB/s",
    "[download] 1% at 2",
    "xx[download] 9.75%at 0.5 k ETA 1:2",
    "[download] 9% at 1.5MiB/s",
    "[download] 45.0% of 10.00MiB at 500.00KiB/s ETA 00:10 (frag 3/10)",
    "[download] \u{661}%",
    "[download] \u{661}% Destination: x",
    "[download] \u{966}\u{967}.\u{968}% at \u{969}MiB/s ETA \u{966}:\u{967}",
    "[download] 5% of 1MiB\nat 2MiB/s ETA 00:01",
    "[download] 5% of 1MiB at\n2MiB/s\nETA 00:01",
    "[download] 5% format 12x ETA 1:00",
    "[download] 5% ETA 1 at 2.0kB/s",
    "[download] 5% at x at 3.0kB/s ETA 00:02 ETA 00:09",
];

/// The percentage and the stage, as the original pattern reads them.
fn percent_and_stage_with_original_regex(line: &str) -> Option<(f64, DownloadStage)> {
    if line.contains("[download]") && line.contains('%') {
        let re = Regex::new(
            r"\[download\]\s+(\d+(?:\.\d+)?)%.*?(?:at\s+([\d.]+\s*\S+))?\s*(?:ETA\s+([\d:]+))?",
        )
        .unwrap();
        if let Some(caps) = re.captures(line) {
            let percent: f64 = caps[1].parse().unwrap_or(0.0);
            return Some((percent, DownloadStage::Downloading));
        }
    }
    if line.contains("[ExtractAudio]") || line.contains("Destination:") {
        return Some((99.0, DownloadStage::Converting));
    }
    if line.contains("[download] 100%") {
        return Some((100.0, DownloadStage::Downloading));
    }
    None
}

#[test]
fn percent_and_stage_agree_with_the_original_pattern() {
    for line in LINES {
        let mine = parse_ytdlp_line(line).map(|p| (p.percent.parse::<f64>().unwrap_or(0.0), p.stage));
        assert_eq!(mine, percent_and_stage_with_original_regex(line), "line {:?}", line);
    }
}

#[test]
fn every_line_reads_as_the_regex_reads_it() {
    for line in LINES {
        let mine = parse_ytdlp_line(line).map(as_tuple);
        let theirs = read_with_regex(line);
        assert_eq!(mine, theirs, "line {:?}", line);
    }
}

#[test]
fn typical_progress_line() {
    let p = parse_ytdlp_line("[download]  34.5% of   5.23MiB at   1.20MiB/s ETA 00:03").unwrap();
    assert_eq!(p.percent, "34.5");
    assert_eq!(p.speed, "1.20MiB/s");
    assert_eq!(p.eta, "00:03");
    assert_eq!(p.stage, DownloadStage::Downloading);
}

#[test]
fn speed_and_eta_right_after_percent() {
    let p = parse_ytdlp_line("[download] 12.5%at 1.2MiB/s ETA 00:10").unwrap();
    assert_eq!(p.percent, "12.5");
    assert_eq!(p.speed, "1.2MiB/s");
    assert_eq!(p.eta, "00:10");
}

#[test]
fn speed_at_end_of_line() {
    assert_eq!(parse_ytdlp_line("[download] 12.5%at 1.2   ").unwrap().speed, "1.2");
    assert_eq!(parse_ytdlp_line("[download] 12.5%at 55").unwrap().speed, "55");
    assert_eq!(parse_ytdlp_line("[download] 12.5%at 5").unwrap().speed, "");
}

#[test]
fn eta_after_whitespace() {
    let p = parse_ytdlp_line("[download] 12.5%   ETA 01:02:03 left").unwrap();
    assert_eq!(p.eta, "01:02:03");
    assert_eq!(p.speed, "");
}

#[test]
fn completion_line() {
    let p = parse_ytdlp_line("[download] 100% of 5.23MiB in 00:04").unwrap();
    assert_eq!(p.percent, "100");
    assert_eq!(p.stage, DownloadStage::Downloading);
    assert_eq!(p.eta, "");
}

#[test]
fn later_progress_match_is_found() {
    let p = parse_ytdlp_line("[download] abc% [download] 7%").unwrap();
    assert_eq!(p.percent, "7");
}

#[test]
fn conversion_lines() {
    for line in ["[ExtractAudio] Destination: song.mp3", "[download] Destination: song.webm"] {
        let p = parse_ytdlp_line(line).unwrap();
        assert_eq!(p.percent, "99");
        assert_eq!(p.speed, "");
        assert_eq!(p.eta, "");
        assert_eq!(p.stage, DownloadStage::Converting);
    }
}

#[test]
fn malformed_percentages_are_not_progress() {
    assert!(parse_ytdlp_line("[download] 12.%").is_none());
    assert!(parse_ytdlp_line("[download] 1.2.3%").is_none());
    assert!(parse_ytdlp_line("[download]12%").is_none());
    assert!(parse_ytdlp_line("[download] 50 %").is_none());
}

#[test]
fn unrelated_lines_give_nothing() {
    assert!(parse_ytdlp_line("Deleting original file song.webm").is_none());
    assert!(parse_ytdlp_line("").is_none());
    assert!(parse_ytdlp_line("100%").is_none());
}

#[test]
fn unicode_decimal_digits() {
    let p = parse_ytdlp_line("[download] \u{661}%").unwrap();
    assert_eq!(p.percent, "\u{661}");
    assert_eq!(p.stage, DownloadStage::Downloading);
    let p = parse_ytdlp_line("[download] \u{661}% Destination: x").unwrap();
    assert_eq!(p.stage, DownloadStage::Downloading);
}

#[test]
fn speed_and_eta_stop_at_line_end() {
    let p = parse_ytdlp_line("[download] 5% of 1MiB\nat 2MiB/s ETA 00:01").unwrap();
    assert_eq!(p.speed, "");
    assert_eq!(p.eta, "");
}

#[test]
fn unicode_whitespace_separates() {
    let p = parse_ytdlp_line("[download]\u{a0}\u{3000}42% at\u{2003}3.3KiB/s").unwrap();
    assert_eq!(p.percent, "42");
}

#[test]
fn default_payload() {
    let p = ProgressPayload::default();
    assert_eq!(p.percent, "0");
    assert_eq!(p.speed, "");
    assert_eq!(p.eta, "");
    assert_eq!(p.stage, DownloadStage::Downloading);
}
