use yt_mp3_downloader::metadata::{oembed_url, video_id, video_info_from_oembed, OEmbedResponse};
use yt_mp3_downloader::platform::{first_present, sidecar_candidates, sidecar_names, Sidecar, TargetOs};
use yt_mp3_downloader::settings::{
    add_to_history, pick_music_dir, settings_with_output_dir, AppSettings, HISTORY_LIMIT,
};
use yt_mp3_downloader::text::{is_whitespace, trim};

#[test]
fn oembed_address() {
    assert_eq!(
        oembed_url("https://youtu.be/x"),
        "https://www.youtube.com/oembed?url=https://youtu.be/x&format=json"
    );
}

#[test]
fn video_ids() {
    assert_eq!(video_id("https://www.youtube.com/watch?v=dQw4w9WgXcQ"), "dQw4w9WgXcQ");
    assert_eq!(video_id("https://www.youtube.com/watch?v=dQw4w9WgXcQ&t=42s"), "dQw4w9WgXcQ");
    assert_eq!(video_id("https://youtu.be/dQw4w9WgXcQ"), "unknown");
    assert_eq!(video_id("https://www.youtube.com/watch?v="), "");
    assert_eq!(video_id("https://x/?v=ab&c=1v=zz"), "ab");
    assert_eq!(video_id("https://x/?v=abv=zz"), "ab");
    assert_eq!(video_id("?list=1&v=QQ"), "QQ");
}

#[test]
fn video_info_with_and_without_fields() {
    let full = video_info_from_oembed(
        "https://www.youtube.com/watch?v=id1",
        OEmbedResponse {
            title: Some("T".to_string()),
            author_name: Some("A".to_string()),
            thumbnail_url: Some("https://i/t.jpg".to_string()),
        },
    );
    assert_eq!(full.id, "id1");
    assert_eq!(full.title, "T");
    assert_eq!(full.uploader, "A");
    assert_eq!(full.thumbnail, "https://i/t.jpg");
    assert_eq!(full.duration, 0);
    assert_eq!(full.view_count, 0);
    assert_eq!(full.upload_date, "N/A");
    let empty = video_info_from_oembed(
        "https://youtu.be/id1",
        OEmbedResponse { title: None, author_name: None, thumbnail_url: None },
    );
    assert_eq!(empty.id, "unknown");
    assert_eq!(empty.title, "Video Desconocido");
    assert_eq!(empty.uploader, "Autor Desconocido");
    assert_eq!(empty.thumbnail, "https://via.placeholder.com/480x360.png?text=No+Thumb");
}

#[test]
fn music_dir_fallbacks() {
    let s = |x: &str| Some(x.to_string());
    assert_eq!(pick_music_dir(s("/m"), s("/d"), s("/h")), "/m");
    assert_eq!(pick_music_dir(None, s("/d"), s("/h")), "/d");
    assert_eq!(pick_music_dir(None, None, s("/h")), "/h");
    assert_eq!(pick_music_dir(None, None, None), ".");
}

#[test]
fn default_settings() {
    let s = settings_with_output_dir("/music".to_string());
    assert_eq!(s.default_output_dir, "/music");
    assert_eq!(s.default_quality, "192");
    assert_eq!(s.max_concurrent_downloads, 1);
    assert!(s.auto_open_folder);
    assert_eq!(s.theme, "dark");
    let d = AppSettings::default();
    assert_eq!(d.default_quality, "192");
    assert_eq!(d.theme, "dark");
    assert!(!d.default_output_dir.is_empty());
}

#[test]
fn history_is_most_recent_first_and_bounded() {
    let mut h: Vec<u32> = Vec::new();
    for i in 0..150u32 {
        h = add_to_history(h, i);
        assert_eq!(h[0], i);
        assert!(h.len() <= HISTORY_LIMIT);
    }
    assert_eq!(h.len(), 100);
    assert_eq!(h[1], 148);
    assert_eq!(h[99], 50);
    assert_eq!(add_to_history(Vec::new(), 7u32), vec![7]);
}

#[test]
fn sidecar_lookup() {
    let (full, short) = sidecar_names(Sidecar::YtDlp, TargetOs::Windows);
    assert_eq!(full, "yt-dlp-x86_64-pc-windows-msvc.exe");
    assert_eq!(short, "yt-dlp.exe");
    let (full, short) = sidecar_names(Sidecar::Ffmpeg, TargetOs::Linux);
    assert_eq!(full, "ffmpeg-x86_64-unknown-linux-gnu");
    assert_eq!(short, "ffmpeg");
    let c = sidecar_candidates(Sidecar::Ffmpeg, TargetOs::MacOs);
    assert_eq!(
        c,
        vec![
            vec!["binaries".to_string(), "ffmpeg-x86_64-apple-darwin".to_string()],
            vec!["ffmpeg-x86_64-apple-darwin".to_string()],
            vec!["ffmpeg".to_string()],
            vec!["_up_".to_string(), "binaries".to_string(), "ffmpeg-x86_64-apple-darwin".to_string()],
        ]
    );
    assert_eq!(first_present(&vec![false, true, true, false]), Some(1));
    assert_eq!(first_present(&vec![false, false]), None);
}

#[test]
fn whitespace_and_trim_follow_std() {
    for c in ['\t', '\n', ' ', '\u{85}', '\u{a0}', '\u{1680}', '\u{2007}', '\u{3000}', 'a', '_', '\u{200b}', '\u{180e}'] {
        assert_eq!(is_whitespace(c), c.is_whitespace(), "{:?}", c);
    }
    for s in ["  a b  ", "\u{3000}x\u{a0}", "", "   ", "abc"] {
        assert_eq!(trim(s), s.trim());
    }
}
