//! Where the bundled helper programs (yt-dlp, ffmpeg) are looked for on
//! each platform.
use vstd::prelude::*;

use crate::text::owned;

verus! {

/// A helper program shipped beside the application.
#[derive(Debug, Clone, Copy, PartialEq, Eq, Structural)]
pub enum Sidecar {
    YtDlp,
    Ffmpeg,
}

/// The operating system the application runs on.
#[derive(Debug, Clone, Copy, PartialEq, Eq, Structural)]
pub enum TargetOs {
    Windows,
    MacOs,
    Linux,
    Other,
}

/// The file names of a helper program: the name with the target triple,
/// and the short name.
pub open spec fn spec_sidecar_names(tool: Sidecar, os: TargetOs) -> (Seq<char>, Seq<char>) {
    match (tool, os) {
        (Sidecar::YtDlp, TargetOs::Windows) => (
            "yt-dlp-x86_64-pc-windows-msvc.exe"@,
            "yt-dlp.exe"@,
        ),
        (Sidecar::YtDlp, TargetOs::MacOs) => ("yt-dlp-x86_64-apple-darwin"@, "yt-dlp"@),
        (Sidecar::YtDlp, TargetOs::Linux) => ("yt-dlp-x86_64-unknown-linux-gnu"@, "yt-dlp"@),
        (Sidecar::YtDlp, TargetOs::Other) => ("yt-dlp"@, "yt-dlp"@),
        (Sidecar::Ffmpeg, TargetOs::Windows) => (
            "ffmpeg-x86_64-pc-windows-msvc.exe"@,
            "ffmpeg.exe"@,
        ),
        (Sidecar::Ffmpeg, TargetOs::MacOs) => ("ffmpeg-x86_64-apple-darwin"@, "ffmpeg"@),
        (Sidecar::Ffmpeg, TargetOs::Linux) => ("ffmpeg-x86_64-unknown-linux-gnu"@, "ffmpeg"@),
        (Sidecar::Ffmpeg, TargetOs::Other) => ("ffmpeg"@, "ffmpeg"@),
    }
}

/// The file names of `tool` on `os`: (with target triple, short).
pub fn sidecar_names(tool: Sidecar, os: TargetOs) -> (r: (String, String))
    ensures
        (r.0@, r.1@) == spec_sidecar_names(tool, os),
{
    match (tool, os) {
        (Sidecar::YtDlp, TargetOs::Windows) => (
            owned("yt-dlp-x86_64-pc-windows-msvc.exe"),
            owned("yt-dlp.exe"),
        ),
        (Sidecar::YtDlp, TargetOs::MacOs) => (owned("yt-dlp-x86_64-apple-darwin"), owned("yt-dlp")),
        (Sidecar::YtDlp, TargetOs::Linux) => (
            owned("yt-dlp-x86_64-unknown-linux-gnu"),
            owned("yt-dlp"),
        ),
        (Sidecar::YtDlp, TargetOs::Other) => (owned("yt-dlp"), owned("yt-dlp")),
        (Sidecar::Ffmpeg, TargetOs::Windows) => (
            owned("ffmpeg-x86_64-pc-windows-msvc.exe"),
            owned("ffmpeg.exe"),
        ),
        (Sidecar::Ffmpeg, TargetOs::MacOs) => (owned("ffmpeg-x86_64-apple-darwin"), owned("ffmpeg")),
        (Sidecar::Ffmpeg, TargetOs::Linux) => (
            owned("ffmpeg-x86_64-unknown-linux-gnu"),
            owned("ffmpeg"),
        ),
        (Sidecar::Ffmpeg, TargetOs::Other) => (owned("ffmpeg"), owned("ffmpeg")),
    }
}

/// The paths, relative to the resource directory and given as their
/// components, where `tool` is looked for, in order: `binaries/<full>`,
/// `<full>`, `<short>`, `_up_/binaries/<full>`.
pub fn sidecar_candidates(tool: Sidecar, os: TargetOs) -> (r: Vec<Vec<String>>)
    ensures
        r.len() == 4,
        r[0].len() == 2 && r[0][0]@ == "binaries"@ && r[0][1]@ == spec_sidecar_names(tool, os).0,
        r[1].len() == 1 && r[1][0]@ == spec_sidecar_names(tool, os).0,
        r[2].len() == 1 && r[2][0]@ == spec_sidecar_names(tool, os).1,
        r[3].len() == 3 && r[3][0]@ == "_up_"@ && r[3][1]@ == "binaries"@ && r[3][2]@
            == spec_sidecar_names(tool, os).0,
{
    let (full, short) = sidecar_names(tool, os);
    let mut first: Vec<String> = Vec::new();
    first.push(owned("binaries"));
    first.push(owned(full.as_str()));
    let mut second: Vec<String> = Vec::new();
    second.push(owned(full.as_str()));
    let mut third: Vec<String> = Vec::new();
    third.push(short);
    let mut fourth: Vec<String> = Vec::new();
    fourth.push(owned("_up_"));
    fourth.push(owned("binaries"));
    fourth.push(full);
    let mut r: Vec<Vec<String>> = Vec::new();
    r.push(first);
    r.push(second);
    r.push(third);
    r.push(fourth);
    r
}

/// The first candidate that exists, given which exist.
pub fn first_present(present: &Vec<bool>) -> (r: Option<usize>)
    ensures
        r matches Some(i) ==> i < present.len() && present[i as int] && forall|j: int|
            0 <= j < i ==> !present[j],
        r is None ==> forall|j: int| 0 <= j < present.len() ==> !present[j],
{
    let mut i: usize = 0;
    while i < present.len()
        invariant
            i <= present.len(),
            forall|j: int| 0 <= j < i ==> !present[j],
        decreases present.len() - i,
    {
        if present[i] {
            return Some(i);
        }
        i += 1;
    }
    None
}

/// The name of a helper program without platform parts.
pub open spec fn sidecar_base(tool: Sidecar) -> Seq<char> {
    match tool {
        Sidecar::YtDlp => "yt-dlp"@,
        Sidecar::Ffmpeg => "ffmpeg"@,
    }
}

/// The full name of a helper program is its name, `-x86_64-`, and the target
/// triple of its OS (with `.exe` on Windows); the short name is its name
/// (with `.exe` on Windows); on another OS both are its bare name. So the
/// full names for Windows, macOS and Linux all differ.
pub proof fn law_sidecar_names_carry_the_target(tool: Sidecar)
    ensures
        spec_sidecar_names(tool, TargetOs::Linux).0 == sidecar_base(tool)
            + "-x86_64-unknown-linux-gnu"@,
        spec_sidecar_names(tool, TargetOs::MacOs).0 == sidecar_base(tool) + "-x86_64-apple-darwin"@,
        spec_sidecar_names(tool, TargetOs::Windows).0 == sidecar_base(tool)
            + "-x86_64-pc-windows-msvc.exe"@,
        spec_sidecar_names(tool, TargetOs::Windows).1 == sidecar_base(tool) + ".exe"@,
        spec_sidecar_names(tool, TargetOs::Linux).1 == sidecar_base(tool),
        spec_sidecar_names(tool, TargetOs::MacOs).1 == sidecar_base(tool),
        spec_sidecar_names(tool, TargetOs::Other) == (sidecar_base(tool), sidecar_base(tool)),
        spec_sidecar_names(tool, TargetOs::Linux).0 != spec_sidecar_names(tool, TargetOs::MacOs).0,
        spec_sidecar_names(tool, TargetOs::Linux).0 != spec_sidecar_names(tool, TargetOs::Windows).0,
        spec_sidecar_names(tool, TargetOs::MacOs).0 != spec_sidecar_names(tool, TargetOs::Windows).0,
{
    reveal_strlit("yt-dlp");
    reveal_strlit("ffmpeg");
    reveal_strlit("-x86_64-unknown-linux-gnu");
    reveal_strlit("-x86_64-apple-darwin");
    reveal_strlit("-x86_64-pc-windows-msvc.exe");
    reveal_strlit(".exe");
    reveal_strlit("yt-dlp-x86_64-pc-windows-msvc.exe");
    reveal_strlit("yt-dlp.exe");
    reveal_strlit("yt-dlp-x86_64-apple-darwin");
    reveal_strlit("yt-dlp-x86_64-unknown-linux-gnu");
    reveal_strlit("ffmpeg-x86_64-pc-windows-msvc.exe");
    reveal_strlit("ffmpeg.exe");
    reveal_strlit("ffmpeg-x86_64-apple-darwin");
    reveal_strlit("ffmpeg-x86_64-unknown-linux-gnu");
    let b = sidecar_base(tool);
    assert(spec_sidecar_names(tool, TargetOs::Linux).0 =~= b + "-x86_64-unknown-linux-gnu"@);
    assert(spec_sidecar_names(tool, TargetOs::MacOs).0 =~= b + "-x86_64-apple-darwin"@);
    assert(spec_sidecar_names(tool, TargetOs::Windows).0 =~= b + "-x86_64-pc-windows-msvc.exe"@);
    assert(spec_sidecar_names(tool, TargetOs::Windows).1 =~= b + ".exe"@);
    let l = spec_sidecar_names(tool, TargetOs::Linux).0;
    let m = spec_sidecar_names(tool, TargetOs::MacOs).0;
    let w = spec_sidecar_names(tool, TargetOs::Windows).0;
    let k = (b.len() + 8) as int;
    assert(l[k] == 'u' && m[k] == 'a' && w[k] == 'p');
}

} // verus!
