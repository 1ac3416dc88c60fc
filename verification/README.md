# yt_mp3_downloader

The logic of a desktop YouTube audio/video downloader, verified with Verus.

- `src/` is the verified library:
  - `progress`: reading yt-dlp console lines into progress reports, with the
    progress-line grammar stated as spec functions;
  - `download`: the Cobalt API request and the reading of its answer, output
    file names, the cancellation flag and the byte count of a streamed
    download;
  - `metadata`: the oEmbed address and the video id read from a URL;
  - `settings`: default settings and the bounded download history;
  - `platform`: where the bundled yt-dlp and ffmpeg are looked for;
  - `text`: whitespace, search, trimming and string building over characters.
- `app/` is the Tauri application around it: the commands, HTTP requests,
  files and events.
- `tests/` runs the library on concrete values, and compares the progress
  reader with the `regex` crate on sample lines.
