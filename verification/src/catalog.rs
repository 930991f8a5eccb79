//! The answer that goes with a session: what the source is, who made it, and
//! the variants to choose from, each behind a link that names the session and
//! the variant and gives away nothing else.

use crate::cache::SESSION_TTL_SECS;
use crate::formats::{listed, parse_formats, views, FormatView, Kind, VideoFormat};
use crate::media::{MediaInfo, RawEntry, RawFormat, Thumbnail};
use crate::text::{
    ascii_chars, contains, contains_bytes, decimal, decimal_string, join3, lowercase,
    number_or, or_number, or_text, push_char, str_eq, text_or, to_lowercase,
};
use crate::clock::unix_millis;
use chrono::{DateTime, SecondsFormat, Utc};
use vstd::prelude::*;
use vstd::string::StringExecFns;
use vstd::string::StringSliceAdditionalSpecFns;
use vstd::utf8::*;

verus! {

/// How the audience has taken to an item, as far as the source tells.
#[derive(Clone, Copy, Debug, PartialEq, Eq, Structural)]
pub struct Stats {
    pub views: Option<i64>,
    pub likes: Option<i64>,
    pub comments: Option<i64>,
    pub shares: Option<i64>,
}

/// One item of a gallery or playlist, as a client sees it.
#[derive(Clone, Debug, PartialEq, Eq)]
pub struct MediaEntry {
    pub entry_id: String,
    pub title: Option<String>,
    pub thumbnail: Option<String>,
    pub width: Option<i64>,
    pub height: Option<i64>,
    pub duration_formatted: Option<String>,
    pub media_type: String,
    pub formats: Vec<VideoFormat>,
    pub best_url: Option<String>,
}

/// What the source is and who made it.
#[derive(Clone, Debug, PartialEq, Eq)]
pub struct VideoData {
    pub platform: String,
    pub content_type: String,
    pub video_id: String,
    pub title: Option<String>,
    pub description: Option<String>,
    pub author_name: Option<String>,
    pub author_username: Option<String>,
    pub author_avatar: Option<String>,
    pub thumbnail: Option<String>,
    pub duration_formatted: Option<String>,
    pub stats: Stats,
    pub created_at: Option<String>,
    pub original_url: String,
    pub is_playlist: bool,
    pub playlist_count: Option<usize>,
    pub entries: Vec<MediaEntry>,
}

/// The answer to a request that a source be looked at.
#[derive(Clone, Debug, PartialEq, Eq)]
pub struct DownloadResponse {
    pub success: bool,
    pub message: String,
    pub session_id: Option<String>,
    /// Seconds for which the session is kept.
    pub expires_in: Option<u64>,
    pub data: Option<VideoData>,
    pub video_formats: Vec<VideoFormat>,
    pub audio_formats: Vec<VideoFormat>,
    pub image_formats: Vec<VideoFormat>,
    pub best_video_url: Option<String>,
    pub best_audio_url: Option<String>,
    pub best_image_url: Option<String>,
    pub extracted_at: String,
}

/// A number below a hundred in two digits.
pub open spec fn two_digits(n: nat) -> Seq<char> {
    seq![(48 + n / 10) as u8 as char, (48 + n % 10) as u8 as char]
}

/// A length of `total` seconds as `H:MM:SS`, or `M:SS` below an hour.
pub open spec fn duration_text(total: u64) -> Seq<char> {
    let h = (total / 3600) as nat;
    let m = ((total % 3600) / 60) as nat;
    let s = (total % 60) as nat;
    if h > 0 {
        ascii_chars(decimal(h)) + ":"@ + two_digits(m) + ":"@ + two_digits(s)
    } else {
        ascii_chars(decimal(m)) + ":"@ + two_digits(s)
    }
}

/// The platform of a source, by its address and by the extractor that knew it.
pub open spec fn platform_of(url: Seq<char>, extractor: Seq<char>) -> Seq<char> {
    platform_given(lowercase(url), lowercase(extractor))
}

/// The platform of a source by its address and by the extractor that knew
/// it, both in lower case.
pub open spec fn platform_given(url: Seq<char>, extractor: Seq<char>) -> Seq<char> {
    let address = encode_utf8(url);
    if contains_bytes(address, encode_utf8("tiktok.com"@)) || contains_bytes(
        address,
        encode_utf8("douyin.com"@),
    ) {
        "tiktok"@
    } else if contains_bytes(address, encode_utf8("twitter.com"@)) || contains_bytes(
        address,
        encode_utf8("x.com"@),
    ) || contains_bytes(encode_utf8(extractor), encode_utf8("twitter"@)) {
        "x"@
    } else {
        "unknown"@
    }
}

/// True when a date of eight bytes can be cut into year, month and day.
pub open spec fn is_compact_date(date: Seq<u8>) -> bool {
    &&& date.len() == 8
    &&& is_char_boundary(date, 4)
    &&& is_char_boundary(date.subrange(4, 8), 2)
}

/// A date `YYYYMMDD` as `YYYY-MM-DD`.
pub open spec fn dashed_date(date: Seq<u8>) -> Seq<char> {
    decode_utf8(date.subrange(0, 4)) + "-"@ + decode_utf8(date.subrange(4, 8).subrange(0, 2))
        + "-"@ + decode_utf8(date.subrange(4, 8).subrange(2, 4))
}

/// The number of picture elements of a preview picture.
pub open spec fn thumb_area(t: Thumbnail) -> int {
    number_or(t.width, 0) * number_or(t.height, 0)
}

/// True when the preview picture at `at` is the largest, and the last of
/// those that are as large.
pub open spec fn is_largest(thumbs: Seq<Thumbnail>, at: int) -> bool {
    &&& 0 <= at < thumbs.len()
    &&& forall|j: int|
        0 <= j < thumbs.len() ==> thumb_area(#[trigger] thumbs[j]) < thumb_area(thumbs[at]) || (
        thumb_area(thumbs[j]) == thumb_area(thumbs[at]) && j <= at)
}

/// The address of the best preview picture: that of the largest where it has
/// one, else the one that the source names, else nothing.
pub open spec fn best_thumbnail(info: MediaInfo) -> Seq<char> {
    let fallback = text_or(info.thumbnail, ""@);
    if info.thumbnails@.len() == 0 {
        fallback
    } else {
        let at = choose|at: int| is_largest(info.thumbnails@, at);
        text_or(info.thumbnails@[at].url, fallback)
    }
}

/// The link to a variant of a session.
pub open spec fn masked_url(base_url: Seq<char>, session_id: Seq<char>, format_id: Seq<char>) -> Seq<
    char,
> {
    base_url + "/stream?id="@ + session_id + "&format="@ + format_id
}

/// The variant with its address replaced by the link to it.
pub open spec fn masked(f: FormatView, base_url: Seq<char>, session_id: Seq<char>) -> FormatView {
    FormatView {
        quality: f.quality,
        resolution: f.resolution,
        url: masked_url(base_url, session_id, f.format_id),
        size_bytes: f.size_bytes,
        format_id: f.format_id,
    }
}

/// The variants with their addresses replaced by the links to them.
pub open spec fn all_masked(list: Seq<FormatView>, base_url: Seq<char>, session_id: Seq<char>) -> Seq<
    FormatView,
> {
    Seq::new(list.len(), |i: int| masked(list[i], base_url, session_id))
}

/// What a source with these variants is, and what to say of it.
pub open spec fn single_kind(videos: nat, sounds: nat, images: nat) -> (Seq<char>, Seq<char>) {
    if images > 0 && videos == 0 {
        ("photo"@, "Photo extracted successfully"@)
    } else if videos > 0 {
        ("video"@, "Video info extracted successfully"@)
    } else if sounds > 0 {
        ("audio"@, "Audio extracted successfully"@)
    } else {
        ("unknown"@, "Media extracted successfully"@)
    }
}

/// What an item with these variants is.
pub open spec fn entry_kind(videos: nat, images: nat) -> Seq<char> {
    if images > 0 && videos == 0 {
        "photo"@
    } else if videos > 0 {
        "video"@
    } else {
        "unknown"@
    }
}

/// The link that `kind` of best variant gets where there is a variant, and none where there is none.
pub open spec fn best_link(
    count: nat,
    base_url: Seq<char>,
    session_id: Seq<char>,
    kind: Seq<char>,
) -> Option<Seq<char>> {
    if count > 0 {
        Some(masked_url(base_url, session_id, kind))
    } else {
        None
    }
}

/// True when the optional text has the optional value.
pub open spec fn is_text(text: Option<String>, value: Option<Seq<char>>) -> bool {
    match (text, value) {
        (Some(t), Some(v)) => t@ == v,
        (None, None) => true,
        _ => false,
    }
}

/// The first of two optional texts that is there.
pub open spec fn first_of(a: Option<String>, b: Option<String>) -> Option<Seq<char>> {
    match a {
        Some(text) => Some(text@),
        None => match b {
            Some(text) => Some(text@),
            None => None,
        },
    }
}

/// The time that lies `millis` milliseconds behind the Unix epoch, written
/// as `DateTime::to_rfc3339_opts` of the `chrono` crate writes it in UTC, with
/// milliseconds and a `Z`; nothing where the calendar of that crate does not
/// reach so far.
pub uninterp spec fn utc_text(millis: i64) -> Option<Seq<char>>;

/// Calls `DateTime::from_timestamp_millis` and `DateTime::to_rfc3339_opts` of
/// the `chrono` crate.
///
/// Trusted: the text depends on the number alone.
#[verifier::external_body]
pub(crate) fn utc_stamp(millis: i64) -> (stamp: Option<String>)
    ensures
        match stamp {
            Some(text) => utc_text(millis) == Some(text@),
            None => utc_text(millis) is None,
        },
{
    match DateTime::<Utc>::from_timestamp_millis(millis) {
        Some(time) => Some(time.to_rfc3339_opts(SecondsFormat::Millis, true)),
        None => None,
    }
}

/// The stamp for the time `millis` milliseconds behind the Unix epoch: the
/// time written out, or the empty text for a time that cannot be written.
pub open spec fn stamp_text(millis: u128) -> Seq<char> {
    if millis > i64::MAX {
        ""@
    } else {
        match utc_text(millis as i64) {
            Some(text) => text,
            None => ""@,
        }
    }
}

/// The stamp for the time `millis` milliseconds behind the Unix epoch.
pub fn stamp_of(millis: u128) -> (stamp: String)
    ensures
        stamp@ == stamp_text(millis),
{
    if millis > i64::MAX as u128 {
        return "".to_owned();
    }
    match utc_stamp(millis as i64) {
        Some(text) => text,
        None => "".to_owned(),
    }
}

/// The stamp for the present time.
pub fn now_utc() -> (stamp: String)
    ensures
        exists|millis: u128| stamp@ == stamp_text(millis),
{
    stamp_of(unix_millis())
}

/// Appends a number below a hundred in two digits.
fn push_two_digits(out: &mut String, n: u64)
    requires
        n < 100,
    ensures
        final(out)@ == old(out)@ + two_digits(n as nat),
{
    let tens: u8 = (48 + n / 10) as u8;
    let ones: u8 = (48 + n % 10) as u8;
    push_char(out, tens as char);
    push_char(out, ones as char);
    assert(final(out)@ =~= old(out)@ + two_digits(n as nat));
}

/// A length of `total` seconds as `H:MM:SS`, or `M:SS` below an hour.
pub fn format_duration(seconds: Option<u64>) -> (text: Option<String>)
    ensures
        is_text(
            text,
            match seconds {
                Some(total) => Some(duration_text(total)),
                None => None,
            },
        ),
{
    let total: u64 = match seconds {
        Some(total) => total,
        None => {
            return None;
        },
    };
    let h: u64 = total / 3600;
    let m: u64 = (total % 3600) / 60;
    let s: u64 = total % 60;
    if h > 0 {
        let mut text = decimal_string(h);
        text.append(":");
        push_two_digits(&mut text, m);
        text.append(":");
        push_two_digits(&mut text, s);
        Some(text)
    } else {
        let mut text = decimal_string(m);
        text.append(":");
        push_two_digits(&mut text, s);
        Some(text)
    }
}

/// The platform of a source.
pub fn detect_platform(url: &str, extractor: &str) -> (platform: String)
    ensures
        platform@ == platform_of(url@, extractor@),
{
    let url_lower = to_lowercase(url);
    let ext_lower = to_lowercase(extractor);
    platform_by(url_lower.as_str(), ext_lower.as_str())
}

/// The platform of a source by its address and by the extractor that knew
/// it, both in lower case.
pub fn platform_by(address: &str, extractor: &str) -> (platform: String)
    ensures
        platform@ == platform_given(address@, extractor@),
{
    if contains(address, "tiktok.com") || contains(address, "douyin.com") {
        "tiktok".to_owned()
    } else if contains(address, "twitter.com") || contains(address, "x.com") || contains(
        extractor,
        "twitter",
    ) {
        "x".to_owned()
    } else {
        "unknown".to_owned()
    }
}

/// A date `YYYYMMDD` as `YYYY-MM-DD`, and nothing for a text of another length.
pub fn parse_upload_date(date: &str) -> (dashed: Option<String>)
    ensures
        is_text(
            dashed,
            if is_compact_date(encode_utf8(date@)) {
                Some(dashed_date(encode_utf8(date@)))
            } else {
                None
            },
        ),
{
    if date.as_bytes().len() != 8 || !date.is_char_boundary(4) {
        return None;
    }
    let (year, rest) = date.split_at(4);
    if !rest.is_char_boundary(2) {
        return None;
    }
    let (month, day) = rest.split_at(2);
    proof {
        encode_utf8_decode_utf8(year@);
        encode_utf8_decode_utf8(month@);
        encode_utf8_decode_utf8(day@);
        assert(rest.spec_bytes() =~= encode_utf8(date@).subrange(4, 8));
    }
    let mut dashed = join3(year, "-", month);
    dashed.append("-");
    dashed.append(day);
    Some(dashed)
}

/// The number of picture elements of a preview picture.
fn thumb_area_of(t: &Thumbnail) -> (a: i128)
    ensures
        a == thumb_area(*t),
{
    let w: i128 = or_number(t.width, 0) as i128;
    let h: i128 = or_number(t.height, 0) as i128;
    assert(-0x4000_0000_0000_0000_0000_0000_0000_0000 <= w * h
        <= 0x4000_0000_0000_0000_0000_0000_0000_0000) by (nonlinear_arith)
        requires
            -0x8000_0000_0000_0000 <= h < 0x8000_0000_0000_0000,
            -0x8000_0000_0000_0000 <= w < 0x8000_0000_0000_0000,
    ;
    w * h
}

/// The address of the best preview picture.
pub fn get_best_thumbnail(info: &MediaInfo) -> (url: String)
    ensures
        url@ == best_thumbnail(*info),
{
    let fallback = or_text(&info.thumbnail, "");
    let thumbs = &info.thumbnails;
    if thumbs.len() == 0 {
        return fallback.to_owned();
    }
    let mut at: usize = 0;
    let mut largest: i128 = thumb_area_of(&thumbs[0]);
    let mut i: usize = 1;
    while i < thumbs.len()
        invariant
            1 <= i <= thumbs@.len(),
            at < i,
            largest == thumb_area(thumbs@[at as int]),
            forall|j: int|
                0 <= j < i ==> thumb_area(#[trigger] thumbs@[j]) < largest || (thumb_area(
                    thumbs@[j],
                ) == largest && j <= at),
        decreases thumbs@.len() - i,
    {
        let a = thumb_area_of(&thumbs[i]);
        if a >= largest {
            at = i;
            largest = a;
        }
        i = i + 1;
    }
    proof {
        assert(is_largest(thumbs@, at as int));
        let chosen = choose|k: int| is_largest(thumbs@, k);
        assert(is_largest(thumbs@, chosen));
        assert(chosen == at) by {
            assert(thumb_area(thumbs@[chosen]) == thumb_area(thumbs@[at as int]));
        }
    }
    or_text(&thumbs[at].url, fallback).to_owned()
}

/// How the audience has taken to an item.
pub fn build_stats(info: &MediaInfo) -> (stats: Stats)
    ensures
        stats.views == info.view_count,
        stats.likes == info.like_count,
        stats.comments == info.comment_count,
        stats.shares == info.repost_count,
{
    Stats {
        views: info.view_count,
        likes: info.like_count,
        comments: info.comment_count,
        shares: info.repost_count,
    }
}

/// The first of two optional texts that is there.
pub fn first_text(a: &Option<String>, b: &Option<String>) -> (r: Option<String>)
    ensures
        is_text(r, first_of(*a, *b)),
{
    match a {
        Some(text) => Some(text.clone()),
        None => match b {
            Some(text) => Some(text.clone()),
            None => None,
        },
    }
}

/// A copy of an optional text.
pub fn str_opt(field: &Option<String>) -> (r: Option<String>)
    ensures
        is_text(
            r,
            match *field {
                Some(text) => Some(text@),
                None => None,
            },
        ),
{
    match field {
        Some(text) => Some(text.clone()),
        None => None,
    }
}

/// The link to a variant of a session.
pub fn stream_url(base_url: &str, session_id: &str, format_id: &str) -> (url: String)
    ensures
        url@ == masked_url(base_url@, session_id@, format_id@),
{
    let mut url = join3(base_url, "/stream?id=", session_id);
    url.append("&format=");
    url.append(format_id);
    url
}

/// The variants with their addresses replaced by the links to them.
pub fn mask_all(list: &Vec<VideoFormat>, base_url: &str, session_id: &str) -> (out: Vec<VideoFormat>)
    ensures
        views(out@) == all_masked(views(list@), base_url@, session_id@),
{
    let mut out: Vec<VideoFormat> = Vec::new();
    let mut i: usize = 0;
    while i < list.len()
        invariant
            0 <= i <= list@.len(),
            out@.len() == i,
            forall|j: int| 0 <= j < i ==> out@[j]@ == masked(list@[j]@, base_url@, session_id@),
        decreases list@.len() - i,
    {
        let f = &list[i];
        out.push(
            VideoFormat {
                quality: f.quality.clone(),
                resolution: f.resolution.clone(),
                url: stream_url(base_url, session_id, f.format_id.as_str()),
                size_bytes: f.size_bytes,
                format_id: f.format_id.clone(),
            },
        );
        i = i + 1;
    }
    assert(views(out@) =~= all_masked(views(list@), base_url@, session_id@));
    out
}

/// The link that `kind` of best variant gets where there is a variant.
pub fn best_url(count: usize, base_url: &str, session_id: &str, kind: &str) -> (url: Option<String>)
    ensures
        is_text(url, best_link(count as nat, base_url@, session_id@, kind@)),
{
    if count > 0 {
        Some(stream_url(base_url, session_id, kind))
    } else {
        None
    }
}

/// True when the source is a gallery or playlist with items in it.
pub open spec fn is_gallery(info: MediaInfo) -> bool {
    info.kind matches Some(kind) && kind@ == "playlist"@ && info.entries@.len() > 0
}

/// True when the source is a gallery or playlist with items in it.
pub fn has_entries(info: &MediaInfo) -> (b: bool)
    ensures
        b == is_gallery(*info),
{
    match &info.kind {
        Some(kind) => str_eq(kind.as_str(), "playlist") && info.entries.len() > 0,
        None => false,
    }
}

/// True when `r` is the answer for a source that is one item.
pub open spec fn is_single_answer(
    r: DownloadResponse,
    info: MediaInfo,
    original_url: Seq<char>,
    video_fmts: Seq<FormatView>,
    audio_fmts: Seq<FormatView>,
    image_fmts: Seq<FormatView>,
    session_id: Seq<char>,
    base_url: Seq<char>,
    extracted_at: String,
) -> bool {
    &&& r.success
    &&& r.message@ == single_kind(
        video_fmts.len(),
        audio_fmts.len(),
        image_fmts.len(),
    ).1
    &&& r.session_id matches Some(id) && id@ == session_id
    &&& r.expires_in == Some(SESSION_TTL_SECS)
    &&& r.extracted_at == extracted_at
    &&& views(r.video_formats@) == all_masked(video_fmts, base_url, session_id)
    &&& views(r.audio_formats@) == all_masked(audio_fmts, base_url, session_id)
    &&& views(r.image_formats@) == all_masked(image_fmts, base_url, session_id)
    &&& is_text(r.best_video_url, best_link(video_fmts.len(), base_url, session_id, "best"@))
    &&& is_text(
        r.best_audio_url,
        best_link(audio_fmts.len(), base_url, session_id, "best_audio"@),
    )
    &&& is_text(
        r.best_image_url,
        best_link(image_fmts.len(), base_url, session_id, "best_image"@),
    )
    &&& r.data matches Some(data) && {
        &&& data.platform@ == platform_of(original_url, text_or(info.extractor, ""@))
        &&& data.content_type@ == single_kind(
            video_fmts.len(),
            audio_fmts.len(),
            image_fmts.len(),
        ).0
        &&& data.video_id@ == text_or(info.id, ""@)
        &&& is_text(data.title, first_of(info.title, info.fulltitle))
        &&& is_text(data.description, first_of(info.description, None))
        &&& is_text(data.author_name, first_of(info.uploader, None))
        &&& is_text(data.author_username, first_of(info.uploader_id, None))
        &&& is_text(data.author_avatar, Some(""@))
        &&& is_text(data.thumbnail, Some(best_thumbnail(info)))
        &&& is_text(
            data.duration_formatted,
            match info.duration_secs {
                Some(total) => Some(duration_text(total)),
                None => None,
            },
        )
        &&& data.stats.views == info.view_count
        &&& data.stats.likes == info.like_count
        &&& data.stats.comments == info.comment_count
        &&& data.stats.shares == info.repost_count
        &&& is_text(
            data.created_at,
            if is_compact_date(encode_utf8(text_or(info.upload_date, ""@))) {
                Some(dashed_date(encode_utf8(text_or(info.upload_date, ""@))))
            } else {
                None
            },
        )
        &&& data.original_url@ == original_url
        &&& !data.is_playlist
        &&& data.playlist_count is None
        &&& data.entries@.len() == 0
    }
}

/// The answer for a source.
///
/// A gallery or playlist with items in it is answered as `build_playlist_response`
/// does. What any other source is goes by the variants that were found: a photo
/// where there are images and no video, else a video where there is video,
/// else sound where there is sound. Each variant is listed behind its link,
/// and the best of each kind gets a link of its own.
pub fn build_response_with_session(
    info: &MediaInfo,
    original_url: &str,
    video_fmts: &Vec<VideoFormat>,
    audio_fmts: &Vec<VideoFormat>,
    image_fmts: &Vec<VideoFormat>,
    session_id: &str,
    base_url: &str,
    extracted_at: String,
) -> (r: DownloadResponse)
    ensures
        is_gallery(*info) ==> is_gallery_answer(
            r,
            *info,
            platform_of(original_url@, text_or(info.extractor, ""@)),
            original_url@,
            views(video_fmts@),
            views(image_fmts@),
            session_id@,
            base_url@,
            extracted_at,
        ),
        !is_gallery(*info) ==> is_single_answer(
            r,
            *info,
            original_url@,
            views(video_fmts@),
            views(audio_fmts@),
            views(image_fmts@),
            session_id@,
            base_url@,
            extracted_at,
        ),
{
    if has_entries(info) {
        let platform = detect_platform(original_url, or_text(&info.extractor, ""));
        return build_playlist_response(
            info,
            platform.as_str(),
            original_url,
            video_fmts,
            image_fmts,
            session_id,
            base_url,
            extracted_at,
        );
    }
    let kind: (&str, &str) = if image_fmts.len() > 0 && video_fmts.len() == 0 {
        ("photo", "Photo extracted successfully")
    } else if video_fmts.len() > 0 {
        ("video", "Video info extracted successfully")
    } else if audio_fmts.len() > 0 {
        ("audio", "Audio extracted successfully")
    } else {
        ("unknown", "Media extracted successfully")
    };
    let data = VideoData {
        platform: detect_platform(original_url, or_text(&info.extractor, "")),
        content_type: kind.0.to_owned(),
        video_id: or_text(&info.id, "").to_owned(),
        title: first_text(&info.title, &info.fulltitle),
        description: str_opt(&info.description),
        author_name: str_opt(&info.uploader),
        author_username: str_opt(&info.uploader_id),
        author_avatar: Some("".to_owned()),
        thumbnail: Some(get_best_thumbnail(info)),
        duration_formatted: format_duration(info.duration_secs),
        stats: build_stats(info),
        created_at: parse_upload_date(or_text(&info.upload_date, "")),
        original_url: original_url.to_owned(),
        is_playlist: false,
        playlist_count: None,
        entries: Vec::new(),
    };
    DownloadResponse {
        success: true,
        message: kind.1.to_owned(),
        session_id: Some(session_id.to_owned()),
        expires_in: Some(SESSION_TTL_SECS),
        data: Some(data),
        video_formats: mask_all(video_fmts, base_url, session_id),
        audio_formats: mask_all(audio_fmts, base_url, session_id),
        image_formats: mask_all(image_fmts, base_url, session_id),
        best_video_url: best_url(video_fmts.len(), base_url, session_id, "best"),
        best_audio_url: best_url(audio_fmts.len(), base_url, session_id, "best_audio"),
        best_image_url: best_url(image_fmts.len(), base_url, session_id, "best_image"),
        extracted_at,
    }
}

/// What an item of a gallery is called: its identifier, or `entry_` and its place.
pub open spec fn entry_name(entry: RawEntry, place: nat) -> Seq<char> {
    match entry.id {
        Some(id) => id@,
        None => "entry_"@ + ascii_chars(decimal(place)),
    }
}

/// The video variants of an item.
pub open spec fn entry_videos(entry: RawEntry) -> Seq<FormatView> {
    listed(entry.formats@, Kind::Progressive) + listed(entry.formats@, Kind::Hls)
}

/// The image variants of an item.
pub open spec fn entry_images(entry: RawEntry) -> Seq<FormatView> {
    listed(entry.formats@, Kind::Image)
}

/// The variants that an item shows: its images where it is a photo, its
/// video where it is a video.
pub open spec fn entry_shown(entry: RawEntry) -> Seq<FormatView> {
    if entry_images(entry).len() > 0 && entry_videos(entry).len() == 0 {
        entry_images(entry)
    } else {
        entry_videos(entry)
    }
}

/// True when `e` is the item `entry` at `place`, as a client sees it.
pub open spec fn shows(
    e: MediaEntry,
    entry: RawEntry,
    place: nat,
    base_url: Seq<char>,
    session_id: Seq<char>,
) -> bool {
    let shown = entry_shown(entry);
    &&& e.entry_id@ == entry_name(entry, place)
    &&& is_text(e.title, first_of(entry.title, entry.fulltitle))
    &&& is_text(e.thumbnail, Some(text_or(entry.thumbnail, ""@)))
    &&& e.width == entry.width
    &&& e.height == entry.height
    &&& is_text(
        e.duration_formatted,
        match entry.duration_secs {
            Some(total) => Some(duration_text(total)),
            None => None,
        },
    )
    &&& e.media_type@ == entry_kind(entry_videos(entry).len(), entry_images(entry).len())
    &&& views(e.formats@) == Seq::new(
        shown.len(),
        |i: int| masked(shown[i], base_url, session_id),
    )
    &&& is_text(
        e.best_url,
        if shown.len() > 0 {
            Some(masked_url(base_url, session_id, shown[0].format_id))
        } else {
            None
        },
    )
}

/// The item `entry` at `place` of a gallery, as a client sees it.
pub fn build_entry(entry: &RawEntry, place: usize, base_url: &str, session_id: &str) -> (e: MediaEntry)
    ensures
        shows(e, *entry, place as nat, base_url@, session_id@),
{
    let lists = parse_formats(entry.formats.as_slice());
    let videos = lists.0;
    let images = lists.2;
    let (media_type, shown): (&str, Vec<VideoFormat>) = if images.len() > 0 && videos.len() == 0 {
        ("photo", images)
    } else if videos.len() > 0 {
        ("video", videos)
    } else {
        ("unknown", videos)
    };
    assert(views(shown@) == entry_shown(*entry));
    let best: Option<String> = if shown.len() > 0 {
        assert(views(shown@)[0] == shown@[0]@);
        Some(stream_url(base_url, session_id, shown[0].format_id.as_str()))
    } else {
        None
    };
    let entry_id: String = match &entry.id {
        Some(id) => id.clone(),
        None => {
            let digits = decimal_string(place as u64);
            let mut name = "entry_".to_owned();
            name.append(digits.as_str());
            name
        },
    };
    let formats = mask_all(&shown, base_url, session_id);
    assert(views(formats@) =~= Seq::new(
        entry_shown(*entry).len(),
        |i: int| masked(entry_shown(*entry)[i], base_url@, session_id@),
    )) by {
        assert forall|i: int| 0 <= i < shown@.len() implies views(formats@)[i] == masked(
            entry_shown(*entry)[i],
            base_url@,
            session_id@,
        ) by {
            assert(views(shown@)[i] == shown@[i]@);
        }
    }
    MediaEntry {
        entry_id,
        title: first_text(&entry.title, &entry.fulltitle),
        thumbnail: Some(or_text(&entry.thumbnail, "").to_owned()),
        width: entry.width,
        height: entry.height,
        duration_formatted: format_duration(entry.duration_secs),
        media_type: media_type.to_owned(),
        formats,
        best_url: best,
    }
}

/// True when every item of `entries` is a photo.
pub open spec fn all_photos(entries: Seq<MediaEntry>) -> bool {
    forall|i: int| 0 <= i < entries.len() ==> (#[trigger] entries[i]).media_type@ == "photo"@
}

/// True when an item of `entries` is of `kind`.
pub open spec fn some_of_kind(entries: Seq<MediaEntry>, kind: Seq<char>) -> bool {
    exists|i: int| 0 <= i < entries.len() && (#[trigger] entries[i]).media_type@ == kind
}

/// What a gallery of these items is: photos where all are, mixed where
/// photos and videos are among them, else a playlist.
pub open spec fn gallery_kind(entries: Seq<MediaEntry>) -> Seq<char> {
    if entries.len() > 0 && all_photos(entries) {
        "photo"@
    } else if some_of_kind(entries, "photo"@) && some_of_kind(entries, "video"@) {
        "mixed"@
    } else {
        "playlist"@
    }
}

/// What to say of a gallery of `count` items.
pub open spec fn gallery_message(kind: Seq<char>, count: nat) -> Seq<char> {
    if kind == "photo"@ {
        "Photo gallery extracted successfully ("@ + ascii_chars(decimal(count)) + " images)"@
    } else if kind == "mixed"@ {
        "Mixed media extracted successfully ("@ + ascii_chars(decimal(count)) + " items)"@
    } else {
        "Playlist extracted successfully ("@ + ascii_chars(decimal(count)) + " items)"@
    }
}

/// True when an item of `entries` is of `kind`.
pub fn any_of_kind(entries: &Vec<MediaEntry>, kind: &str) -> (b: bool)
    ensures
        b == some_of_kind(entries@, kind@),
{
    let mut i: usize = 0;
    while i < entries.len()
        invariant
            0 <= i <= entries@.len(),
            forall|j: int| 0 <= j < i ==> (#[trigger] entries@[j]).media_type@ != kind@,
        decreases entries@.len() - i,
    {
        if str_eq(entries[i].media_type.as_str(), kind) {
            return true;
        }
        i = i + 1;
    }
    false
}

/// True when every item of `entries` is a photo.
pub fn only_photos(entries: &Vec<MediaEntry>) -> (b: bool)
    ensures
        b == all_photos(entries@),
{
    let mut i: usize = 0;
    while i < entries.len()
        invariant
            0 <= i <= entries@.len(),
            forall|j: int| 0 <= j < i ==> (#[trigger] entries@[j]).media_type@ == "photo"@,
        decreases entries@.len() - i,
    {
        if !str_eq(entries[i].media_type.as_str(), "photo") {
            return false;
        }
        i = i + 1;
    }
    true
}

/// True when `r` is the answer for a source that is a gallery or playlist.
pub open spec fn is_gallery_answer(
    r: DownloadResponse,
    info: MediaInfo,
    platform: Seq<char>,
    original_url: Seq<char>,
    video_fmts: Seq<FormatView>,
    image_fmts: Seq<FormatView>,
    session_id: Seq<char>,
    base_url: Seq<char>,
    extracted_at: String,
) -> bool {
    &&& r.success
    &&& r.session_id matches Some(id) && id@ == session_id
    &&& r.expires_in == Some(SESSION_TTL_SECS)
    &&& r.extracted_at == extracted_at
    &&& views(r.video_formats@) == all_masked(video_fmts, base_url, session_id)
    &&& r.audio_formats@.len() == 0
    &&& views(r.image_formats@) == all_masked(image_fmts, base_url, session_id)
    &&& is_text(r.best_video_url, best_link(video_fmts.len(), base_url, session_id, "best"@))
    &&& r.best_audio_url is None
    &&& is_text(
        r.best_image_url,
        best_link(image_fmts.len(), base_url, session_id, "best_image"@),
    )
    &&& r.data matches Some(data) && {
        &&& data.entries@.len() == info.entries@.len()
        &&& forall|i: int|
            0 <= i < data.entries@.len() ==> shows(
                #[trigger] data.entries@[i],
                info.entries@[i],
                i as nat,
                base_url,
                session_id,
            )
        &&& data.content_type@ == gallery_kind(data.entries@)
        &&& r.message@ == gallery_message(
            gallery_kind(data.entries@),
            data.entries@.len(),
        )
        &&& data.platform@ == platform
        &&& data.video_id@ == text_or(info.id, ""@)
        &&& is_text(data.title, first_of(info.title, info.fulltitle))
        &&& is_text(data.description, first_of(info.description, None))
        &&& is_text(data.author_name, first_of(info.uploader, None))
        &&& is_text(data.author_username, first_of(info.uploader_id, None))
        &&& is_text(data.author_avatar, Some(""@))
        &&& is_text(
            data.thumbnail,
            if info.entries@.len() > 0 {
                Some(text_or(info.entries@[0].thumbnail, ""@))
            } else {
                None
            },
        )
        &&& data.duration_formatted is None
        &&& data.stats.views == info.view_count
        &&& data.stats.likes == info.like_count
        &&& data.stats.comments == info.comment_count
        &&& data.stats.shares == info.repost_count
        &&& is_text(
            data.created_at,
            if is_compact_date(encode_utf8(text_or(info.upload_date, ""@))) {
                Some(dashed_date(encode_utf8(text_or(info.upload_date, ""@))))
            } else {
                None
            },
        )
        &&& data.original_url@ == original_url
        &&& data.is_playlist
        &&& data.playlist_count == Some(info.entries@.len() as usize)
    }
}

/// The answer for a source that is a gallery or playlist.
///
/// Each item is listed with the variants it shows. The gallery as a whole is
/// photos, mixed or a playlist by what its items are; its preview picture is
/// that of the first item.
pub fn build_playlist_response(
    info: &MediaInfo,
    platform: &str,
    original_url: &str,
    video_fmts: &Vec<VideoFormat>,
    image_fmts: &Vec<VideoFormat>,
    session_id: &str,
    base_url: &str,
    extracted_at: String,
) -> (r: DownloadResponse)
    ensures
        is_gallery_answer(
            r,
            *info,
            platform@,
            original_url@,
            views(video_fmts@),
            views(image_fmts@),
            session_id@,
            base_url@,
            extracted_at,
        ),
{
    let mut entries: Vec<MediaEntry> = Vec::new();
    let mut i: usize = 0;
    while i < info.entries.len()
        invariant
            0 <= i <= info.entries@.len(),
            entries@.len() == i,
            forall|j: int|
                0 <= j < i ==> shows(
                    #[trigger] entries@[j],
                    info.entries@[j],
                    j as nat,
                    base_url@,
                    session_id@,
                ),
        decreases info.entries@.len() - i,
    {
        entries.push(build_entry(&info.entries[i], i, base_url, session_id));
        i = i + 1;
    }
    let count: usize = entries.len();
    let digits = decimal_string(count as u64);
    let (content_type, message): (&str, String) = if count > 0 && only_photos(&entries) {
        ("photo", join3("Photo gallery extracted successfully (", digits.as_str(), " images)"))
    } else if any_of_kind(&entries, "photo") && any_of_kind(&entries, "video") {
        ("mixed", join3("Mixed media extracted successfully (", digits.as_str(), " items)"))
    } else {
        ("playlist", join3("Playlist extracted successfully (", digits.as_str(), " items)"))
    };
    proof {
        reveal_strlit("photo");
        reveal_strlit("mixed");
        reveal_strlit("playlist");
        assert("photo"@.len() == 5 && "mixed"@.len() == 5 && "playlist"@.len() == 8);
        assert("photo"@[0] == 'p' && "mixed"@[0] == 'm');
    }
    let thumbnail: Option<String> = if count > 0 {
        str_opt(&entries[0].thumbnail)
    } else {
        None
    };
    let data = VideoData {
        platform: platform.to_owned(),
        content_type: content_type.to_owned(),
        video_id: or_text(&info.id, "").to_owned(),
        title: first_text(&info.title, &info.fulltitle),
        description: str_opt(&info.description),
        author_name: str_opt(&info.uploader),
        author_username: str_opt(&info.uploader_id),
        author_avatar: Some("".to_owned()),
        thumbnail,
        duration_formatted: None,
        stats: build_stats(info),
        created_at: parse_upload_date(or_text(&info.upload_date, "")),
        original_url: original_url.to_owned(),
        is_playlist: true,
        playlist_count: Some(count),
        entries,
    };
    DownloadResponse {
        success: true,
        message,
        session_id: Some(session_id.to_owned()),
        expires_in: Some(SESSION_TTL_SECS),
        data: Some(data),
        video_formats: mask_all(video_fmts, base_url, session_id),
        audio_formats: Vec::new(),
        image_formats: mask_all(image_fmts, base_url, session_id),
        best_video_url: best_url(video_fmts.len(), base_url, session_id, "best"),
        best_audio_url: None,
        best_image_url: best_url(image_fmts.len(), base_url, session_id, "best_image"),
        extracted_at,
    }
}

} // verus!
