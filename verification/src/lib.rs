//! The logic of a YouTube audio/video downloader: reading yt-dlp progress
//! output, deciding what to ask the Cobalt API and how to read its answer,
//! naming output files, counting and cancelling streamed downloads, reading
//! video ids, and keeping settings and a bounded download history.
pub mod download;
pub mod metadata;
pub mod platform;
pub mod progress;
pub mod settings;
pub mod text;
