//! What is known of a video before it is downloaded, read from YouTube's
//! oEmbed answer and from the video's URL.
use vstd::prelude::*;

use crate::text::{
    chars_of, find_from, find_from_exec, lemma_find_from, occurs_at, owned, push_str,
    seq_contains, slice_chars, string_of,
};

verus! {

/// The information shown about a video before it is downloaded.
#[derive(Debug, Clone)]
pub struct VideoInfo {
    pub id: String,
    pub title: String,
    pub uploader: String,
    pub duration: u64,
    pub thumbnail: String,
    pub view_count: u64,
    pub upload_date: String,
}

/// The fields of YouTube's oEmbed answer that are read.
#[derive(Debug, Clone)]
pub struct OEmbedResponse {
    pub title: Option<String>,
    pub author_name: Option<String>,
    pub thumbnail_url: Option<String>,
}


/// The oEmbed address that describes the video at `url` (given as is).
pub fn oembed_url(url: &str) -> (r: String)
    ensures
        r@ == "https://www.youtube.com/oembed?url="@ + url@ + "&format=json"@,
{
    let mut r = owned("https://www.youtube.com/oembed?url=");
    push_str(&mut r, url);
    push_str(&mut r, "&format=json");
    r
}

/// The video id in a URL: the text after the first `v=`, up to the next
/// `v=` and then up to the first `&`; `"unknown"` where the URL has no `v=`
/// (as splitting the URL at `"v="` and its second piece at `'&'` gives).
pub open spec fn spec_video_id(url: Seq<char>) -> Seq<char> {
    match find_from(url, "v="@, 0) {
        None => "unknown"@,
        Some(f) => {
            let b = f + "v="@.len();
            let e = match find_from(url, "v="@, b) {
                Some(g) => g,
                None => url.len() as int,
            };
            let part = url.subrange(b, e);
            match find_from(part, "&"@, 0) {
                Some(a) => part.subrange(0, a),
                None => part,
            }
        },
    }
}

/// Reads the video id out of a YouTube URL.
pub fn video_id(url: &str) -> (r: String)
    ensures
        r@ == spec_video_id(url@),
{
    let v = chars_of(url);
    let pat = chars_of("v=");
    let n = v.len();
    proof {
        lemma_find_from(v@, pat@, 0);
    }
    match find_from_exec(&v, &pat, 0) {
        None => owned("unknown"),
        Some(f) => {
            assert(f + pat@.len() <= n);
            let b = f + pat.len();
            proof {
                lemma_find_from(v@, pat@, b as int);
            }
            let e = match find_from_exec(&v, &pat, b) {
                Some(g) => g,
                None => n,
            };
            let part = slice_chars(&v, b, e);
            let amp = chars_of("&");
            proof {
                lemma_find_from(part@, amp@, 0);
            }
            match find_from_exec(&part, &amp, 0) {
                Some(a) => string_of(&part, 0, a),
                None => {
                    let r = string_of(&part, 0, part.len());
                    assert(r@ =~= part@);
                    r
                },
            }
        },
    }
}

/// A video id read from a URL never holds `&`.
pub proof fn law_video_id_has_no_ampersand(url: Seq<char>)
    ensures
        !seq_contains(spec_video_id(url), "&"@),
{
    reveal_strlit("&");
    reveal_strlit("unknown");
    let id = spec_video_id(url);
    if seq_contains(id, "&"@) {
        let j = choose|j: int| occurs_at(id, "&"@, j);
        assert(id.subrange(j, j + 1)[0] == id[j]);
        match find_from(url, "v="@, 0) {
            None => {
                let u = "unknown"@;
                assert(u[j] == '&');
                assert(false);
            },
            Some(f) => {
                lemma_find_from(url, "v="@, 0);
                let b = f + "v="@.len();
                lemma_find_from(url, "v="@, b);
                let e = match find_from(url, "v="@, b) {
                    Some(g) => g,
                    None => url.len() as int,
                };
                let part = url.subrange(b, e);
                lemma_find_from(part, "&"@, 0);
                assert(part.subrange(j, j + 1) =~= id.subrange(j, j + 1));
                assert(occurs_at(part, "&"@, j));
            },
        }
    }
}

/// What is shown of a video: its id read from `url`, and the oEmbed title,
/// author and thumbnail, each with a stand-in where the answer has none; no
/// duration, views or upload date are known.
pub fn video_info_from_oembed(url: &str, resp: OEmbedResponse) -> (r: VideoInfo)
    ensures
        r.id@ == spec_video_id(url@),
        r.title@ == match resp.title {
            Some(t) => t@,
            None => "Video Desconocido"@,
        },
        r.uploader@ == match resp.author_name {
            Some(a) => a@,
            None => "Autor Desconocido"@,
        },
        r.thumbnail@ == match resp.thumbnail_url {
            Some(t) => t@,
            None => "https://via.placeholder.com/480x360.png?text=No+Thumb"@,
        },
        r.duration == 0,
        r.view_count == 0,
        r.upload_date@ == "N/A"@,
{
    let id = video_id(url);
    let title = match resp.title {
        Some(t) => t,
        None => owned("Video Desconocido"),
    };
    let uploader = match resp.author_name {
        Some(a) => a,
        None => owned("Autor Desconocido"),
    };
    let thumbnail = match resp.thumbnail_url {
        Some(t) => t,
        None => owned("https://via.placeholder.com/480x360.png?text=No+Thumb"),
    };
    VideoInfo {
        id,
        title,
        uploader,
        duration: 0,
        thumbnail,
        view_count: 0,
        upload_date: owned("N/A"),
    }
}

} // verus!
