//! What the extractor says of a source, as plain values.
//!
//! The extractor is another program and answers in JSON. What of its answer
//! the gateway reads is held here, each field as it came: a field that the
//! answer lacks, or that has another type than expected, is `None`.

use vstd::prelude::*;

verus! {

/// A preview picture.
#[derive(Clone, Debug, PartialEq, Eq)]
pub struct Thumbnail {
    pub url: Option<String>,
    pub width: Option<i64>,
    pub height: Option<i64>,
}

/// The bit rate that a variant of sound announces.
#[derive(Clone, Copy, Debug, PartialEq, Eq, Structural)]
pub enum Bitrate {
    /// It announces none, or zero.
    Missing,
    /// It announces this many whole kilobits a second, a positive rate cut to
    /// a whole number.
    Kbps(i64),
    /// It announces a rate that is no positive number.
    Unusable,
}

/// One variant of a media item, as the extractor describes it.
#[derive(Clone, Debug, PartialEq, Eq)]
pub struct RawFormat {
    pub format_id: Option<String>,
    pub url: Option<String>,
    pub vcodec: Option<String>,
    pub acodec: Option<String>,
    pub height: Option<i64>,
    pub width: Option<i64>,
    pub resolution: Option<String>,
    pub video_ext: Option<String>,
    pub protocol: Option<String>,
    pub filesize: Option<i64>,
    pub filesize_approx: Option<i64>,
    pub bitrate: Bitrate,
    /// The headers that the content network wants to see, those with a text as value.
    pub http_headers: Vec<(String, String)>,
    /// The headers whose value is no text, each with its value as JSON. They
    /// go into the token of a link as they are, and nowhere else.
    pub other_headers: Vec<(String, serde_json::Value)>,
    /// The cookies that the content network wants to see.
    pub cookies: Option<String>,
}

/// One item of a gallery or playlist.
#[derive(Clone, Debug, PartialEq, Eq)]
pub struct RawEntry {
    pub id: Option<String>,
    pub title: Option<String>,
    pub fulltitle: Option<String>,
    pub thumbnail: Option<String>,
    pub width: Option<i64>,
    pub height: Option<i64>,
    /// The length in whole seconds, where the extractor gives a positive one.
    pub duration_secs: Option<u64>,
    pub formats: Vec<RawFormat>,
    pub http_headers: Vec<(String, String)>,
}

/// A source, as the extractor describes it.
#[derive(Clone, Debug, PartialEq, Eq)]
pub struct MediaInfo {
    pub id: Option<String>,
    pub title: Option<String>,
    pub fulltitle: Option<String>,
    pub description: Option<String>,
    pub uploader: Option<String>,
    pub uploader_id: Option<String>,
    pub channel: Option<String>,
    pub artist: Option<String>,
    pub thumbnail: Option<String>,
    pub thumbnails: Vec<Thumbnail>,
    /// The length in milliseconds, and zero where the extractor gives none.
    pub duration_ms: i64,
    /// The length in whole seconds, where the extractor gives a positive one.
    pub duration_secs: Option<u64>,
    pub view_count: Option<i64>,
    pub like_count: Option<i64>,
    pub comment_count: Option<i64>,
    pub repost_count: Option<i64>,
    pub upload_date: Option<String>,
    pub extractor: Option<String>,
    /// What the source is: `playlist` for a gallery or playlist.
    pub kind: Option<String>,
    pub cookies: Option<String>,
    pub http_headers: Vec<(String, String)>,
    pub formats: Vec<RawFormat>,
    pub entries: Vec<RawEntry>,
}

} // verus!
