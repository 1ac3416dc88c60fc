use yt_mp3_downloader::download::{
    cancel_flag, cobalt_request, default_format, default_quality, download_complete_progress,
    fetching_info_progress, is_audio_format, new_output_file_name, output_file_name,
    safe_char, safe_title, stream_started_progress, stream_url, ChunkAction, CobaltResponse,
    DownloadError, DownloadParams, DownloadSession, PROGRESS_STEP,
};
use yt_mp3_downloader::progress::DownloadStage;

fn params(format: &str) -> DownloadParams {
    DownloadParams {
        url: "https://www.youtube.com/watch?v=abc".to_string(),
        output_dir: "/tmp".to_string(),
        format: format.to_string(),
        quality: "320".to_string(),
    }
}

#[test]
fn history_defaults() {
    assert_eq!(default_quality(), "192");
    assert_eq!(default_format(), "mp3");
}

#[test]
fn cancel_flag_starts_clear_and_reads_back() {
    let mut f = cancel_flag();
    assert!(!f.load());
    f.store(true);
    assert!(f.load());
    f.store(false);
    assert!(!f.load());
}

#[test]
fn audio_format_is_mp3_only() {
    assert!(is_audio_format("mp3"));
    assert!(!is_audio_format("mp4"));
    assert!(!is_audio_format("MP3"));
    assert!(!is_audio_format(""));
}

#[test]
fn audio_request() {
    let r = cobalt_request(&params("mp3"));
    assert_eq!(r.url, "https://www.youtube.com/watch?v=abc");
    assert_eq!(r.is_audio_only, Some(true));
    assert_eq!(r.audio_format.as_deref(), Some("mp3"));
    assert_eq!(r.video_quality, None);
    assert_eq!(r.filename_pattern, "classic");
}

#[test]
fn video_request_ignores_quality() {
    let r = cobalt_request(&params("mp4"));
    assert_eq!(r.is_audio_only, None);
    assert_eq!(r.audio_format, None);
    assert_eq!(r.video_quality.as_deref(), Some("1080"));
    assert_eq!(r.filename_pattern, "classic");
}

fn resp(status: &str, url: Option<&str>, text: Option<&str>) -> CobaltResponse {
    CobaltResponse {
        status: status.to_string(),
        url: url.map(|s| s.to_string()),
        text: text.map(|s| s.to_string()),
    }
}

#[test]
fn stream_url_answers() {
    assert_eq!(stream_url(resp("stream", Some("https://x/y"), None)).unwrap(), "https://x/y");
    assert_eq!(stream_url(resp("redirect", Some("https://z"), Some("t"))).unwrap(), "https://z");
    match stream_url(resp("error", Some("https://x"), Some("bad link"))) {
        Err(DownloadError::Cobalt(t)) => assert_eq!(t, "bad link"),
        other => panic!("{:?}", other),
    }
    match stream_url(resp("rate-limit", None, None)) {
        Err(e @ DownloadError::Cobalt(_)) => {
            assert_eq!(e.message(), "Cobalt API Error: Error desconocido")
        }
        other => panic!("{:?}", other),
    }
    match stream_url(resp("stream", None, None)) {
        Err(e @ DownloadError::NoStreamUrl) => {
            assert_eq!(e.message(), "El servidor no devolvió una URL de stream válida")
        }
        other => panic!("{:?}", other),
    }
}

#[test]
fn error_messages() {
    assert_eq!(
        DownloadError::MissingOutputDir("/no/such".to_string()).message(),
        "La carpeta de destino no existe: /no/such"
    );
    assert_eq!(DownloadError::Cancelled.message(), "Descarga cancelada por el usuario");
}

#[test]
fn safe_titles() {
    assert_eq!(safe_title("AC/DC: Live!"), "AC_DC_ Live_");
    assert_eq!(safe_title("Canción Ñandú 2024"), "Canción Ñandú 2024");
    assert_eq!(safe_title("a\tb"), "a_b");
    assert_eq!(safe_title(""), "");
    assert_eq!(safe_char('x', true), 'x');
    assert_eq!(safe_char(' ', false), ' ');
    assert_eq!(safe_char('?', false), '_');
}

#[test]
fn file_names_stay_in_their_folder() {
    let n = new_output_file_name("../../etc/passwd", true);
    assert!(n.starts_with("______etc_passwd ("));
    assert!(!n.contains('/') && !n.contains('\\') && !n.contains(".."));
}

#[test]
fn file_names() {
    let unique = "0f3a9c1e-1111-4222-8333-444455556666";
    assert_eq!(output_file_name("  My Song!  ", unique, true), "My Song_ (0f3a).mp3");
    assert_eq!(output_file_name("Clip", unique, false), "Clip (0f3a).mp4");
    assert_eq!(output_file_name("???", "ab", true), "___ (ab).mp3");
    assert_eq!(output_file_name("   ", unique, true), " (0f3a).mp3");
}

#[test]
fn fresh_file_names_carry_four_hex_digits() {
    let a = new_output_file_name("Song", true);
    assert!(a.starts_with("Song ("));
    assert!(a.ends_with(").mp3"));
    let inner = &a["Song (".len()..a.len() - ").mp3".len()];
    assert_eq!(inner.len(), 4);
    assert!(inner.chars().all(|c| c.is_ascii_hexdigit() && !c.is_ascii_uppercase()));
    let b = new_output_file_name("Song", false);
    assert!(b.ends_with(").mp4"));
}

#[test]
fn session_counts_and_reports() {
    let mut s = DownloadSession::new(Some(2 * PROGRESS_STEP));
    assert_eq!(s.total_size, 2 * PROGRESS_STEP);
    assert_eq!(s.downloaded, 0);
    assert_eq!(s.on_chunk(1000, false), ChunkAction::Write { report_progress: false });
    assert_eq!(s.downloaded, 1000);
    assert_eq!(
        s.on_chunk(PROGRESS_STEP - 1000, false),
        ChunkAction::Write { report_progress: true }
    );
    assert_eq!(s.on_chunk(7, true), ChunkAction::Abort);
    assert_eq!(s.downloaded, PROGRESS_STEP);
    assert_eq!(s.on_chunk(100, false), ChunkAction::Write { report_progress: false });
}

#[test]
fn session_reports_when_a_boundary_is_crossed() {
    let mut s = DownloadSession::new(Some(10_000_000));
    assert_eq!(s.on_chunk(524_000, false), ChunkAction::Write { report_progress: false });
    assert_eq!(s.on_chunk(1000, false), ChunkAction::Write { report_progress: true });
    assert_eq!(s.on_chunk(0, false), ChunkAction::Write { report_progress: false });
    assert_eq!(s.on_chunk(3 * PROGRESS_STEP, false), ChunkAction::Write { report_progress: true });
}

#[test]
fn session_of_unknown_size_never_reports() {
    let mut s = DownloadSession::new(None);
    assert_eq!(s.total_size, 0);
    assert_eq!(s.on_chunk(PROGRESS_STEP, false), ChunkAction::Write { report_progress: false });
    assert_eq!(s.downloaded, PROGRESS_STEP);
}

#[test]
fn milestone_reports() {
    let p = fetching_info_progress();
    assert_eq!((p.percent.as_str(), p.stage), ("5", DownloadStage::FetchingInfo));
    let p = stream_started_progress();
    assert_eq!((p.percent.as_str(), p.stage), ("15", DownloadStage::Downloading));
    let p = download_complete_progress();
    assert_eq!((p.percent.as_str(), p.eta.as_str(), p.stage), ("100", "00:00", DownloadStage::Complete));
}
