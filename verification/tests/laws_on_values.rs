use yt_mp3_downloader::download::{output_file_name, safe_title, DownloadSession};
use yt_mp3_downloader::metadata::video_id;
use yt_mp3_downloader::settings::{
    history_or_empty, settings_or_default, settings_with_output_dir,
};
use yt_mp3_downloader::text::trim;

#[test]
fn trim_twice_is_trim_once() {
    for s in ["  x  ", "\u{2028}a b\u{2029}", "", "\t\n", "no-space"] {
        let once = trim(s);
        assert_eq!(trim(&once), once);
    }
}

#[test]
fn safe_title_twice_is_safe_title_once() {
    for s in ["a/b\\c", "¿Qué?", "x y", "日本語!"] {
        let once = safe_title(s);
        assert_eq!(safe_title(&once), once);
    }
}

#[test]
fn file_names_end_in_their_extension() {
    assert!(output_file_name("a.b", "1234", true).ends_with(".mp3"));
    assert!(output_file_name("a.b", "1234", false).ends_with(".mp4"));
}

#[test]
fn session_total_is_sum_of_chunks() {
    let mut s = DownloadSession::new(Some(10));
    let mut sum = 0u64;
    for len in [3u64, 0, 1000, 524288, 7] {
        s.on_chunk(len, false);
        sum += len;
    }
    assert_eq!(s.downloaded, sum);
    assert_eq!(s.total_size, 10);
}

#[test]
fn video_ids_hold_no_ampersand() {
    for u in ["?v=a&b", "?v=&&", "&&&", "?x=1&v=ab&cd&v=q"] {
        assert!(!video_id(u).contains('&'));
    }
}

#[test]
fn stored_settings_win_over_defaults() {
    let stored = settings_with_output_dir("/x".to_string());
    assert_eq!(settings_or_default(Some(stored.clone())).default_output_dir, "/x");
    let d = settings_or_default(None);
    assert_eq!(d.default_quality, "192");
    assert_eq!(d.max_concurrent_downloads, 1);
    assert!(d.auto_open_folder);
    assert_eq!(d.theme, "dark");
}

#[test]
fn missing_history_is_empty() {
    assert_eq!(history_or_empty::<u8>(None), Vec::<u8>::new());
    assert_eq!(history_or_empty(Some(vec![1, 2])), vec![1, 2]);
}
