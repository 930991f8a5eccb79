//! Making the session for a source: every variant that a client is shown,
//! under its identifier, with the address and the headers to fetch it by.

use crate::formats::{
    describe, described, is_http, is_image_ext, is_still_image, views, FormatView, Kind,
    VideoFormat,
};
use crate::media::{MediaInfo, RawEntry, RawFormat};
use crate::session::{put, session_view, FormatInfo, InfoView, SessionData};
use crate::stream::{copy_headers, header_views};
use crate::text::{
    contains, contains_bytes, is_empty, lowercase, or_text, str_eq, text_or, to_lowercase,
};
use vstd::prelude::*;
use vstd::utf8::*;

verus! {

/// The content type of a variant, as far as its labels tell: sound for the
/// resolution `audio only`, an image for a quality or a name that says so,
/// and video for anything else.
pub open spec fn content_type_of(resolution: Seq<char>, format_id: Seq<char>, quality: Seq<char>) -> Seq<
    char,
> {
    content_type_given(resolution, lowercase(format_id), quality)
}

/// The content type of a variant by its resolution, its name in lower case,
/// and its label.
pub open spec fn content_type_given(resolution: Seq<char>, name: Seq<char>, quality: Seq<char>) -> Seq<
    char,
> {
    if resolution == "audio only"@ {
        "audio/mp4"@
    } else if contains_bytes(encode_utf8(quality), encode_utf8("IMAGE"@)) || contains_bytes(
        encode_utf8(name),
        encode_utf8("thumb"@),
    ) {
        "image/jpeg"@
    } else {
        "video/mp4"@
    }
}

/// True when the variant at `at` is the first that is called `id`.
pub open spec fn is_first_named(raws: Seq<RawFormat>, id: Seq<char>, at: int) -> bool {
    &&& 0 <= at < raws.len()
    &&& raws[at].format_id matches Some(name) && name@ == id
    &&& forall|j: int|
        0 <= j < at ==> !((#[trigger] raws[j]).format_id matches Some(name) && name@ == id)
}

/// The headers to fetch the variant called `id` by: its own where the
/// extractor gives it any, else those of the source.
pub open spec fn headers_for(raws: Seq<RawFormat>, fallback: Seq<(String, String)>, id: Seq<char>) -> Seq<
    (Seq<char>, Seq<char>),
> {
    if exists|at: int| is_first_named(raws, id, at) {
        let at = choose|at: int| is_first_named(raws, id, at);
        if raws[at].http_headers@.len() > 0 {
            header_views(raws[at].http_headers@)
        } else {
            header_views(fallback)
        }
    } else {
        header_views(fallback)
    }
}

/// The headers to fetch a variant by: its own where it has any, else those
/// of what it belongs to.
pub open spec fn own_headers(r: RawFormat, fallback: Seq<(String, String)>) -> Seq<
    (Seq<char>, Seq<char>),
> {
    if r.http_headers@.len() > 0 {
        header_views(r.http_headers@)
    } else {
        header_views(fallback)
    }
}

/// What a session keeps of a variant.
pub open spec fn kept(f: FormatView, headers: Seq<(Seq<char>, Seq<char>)>) -> InfoView {
    InfoView {
        url: f.url,
        http_headers: headers,
        quality: f.quality,
        resolution: f.resolution,
        content_type: content_type_of(f.resolution, f.format_id, f.quality),
    }
}

/// The session with the variants of a list put in, one after the other.
pub open spec fn put_all(
    entries: Seq<(Seq<char>, InfoView)>,
    list: Seq<FormatView>,
    info: MediaInfo,
) -> Seq<(Seq<char>, InfoView)>
    decreases list.len(),
{
    if list.len() == 0 {
        entries
    } else {
        let f = list.last();
        put(
            put_all(entries, list.drop_last(), info),
            f.format_id,
            kept(f, headers_for(info.formats@, info.http_headers@, f.format_id)),
        )
    }
}

/// True for a variant of an item of a gallery that the session keeps: a
/// still image with a name.
pub open spec fn is_entry_image(r: RawFormat) -> bool {
    text_or(r.format_id, ""@).len() > 0 && is_image_ext(lowercase(text_or(r.video_ext, ""@)))
        && is_http(r)
}

/// The session with the still images of an item of a gallery put in.
pub open spec fn put_images(
    entries: Seq<(Seq<char>, InfoView)>,
    raws: Seq<RawFormat>,
    fallback: Seq<(String, String)>,
) -> Seq<(Seq<char>, InfoView)>
    decreases raws.len(),
{
    if raws.len() == 0 {
        entries
    } else {
        let rest = put_images(entries, raws.drop_last(), fallback);
        let r = raws.last();
        if is_entry_image(r) {
            put(
                rest,
                text_or(r.format_id, ""@),
                kept(described(r, Kind::Image), own_headers(r, fallback)),
            )
        } else {
            rest
        }
    }
}

/// The session with the still images of the items of a gallery put in.
pub open spec fn put_entries(entries: Seq<(Seq<char>, InfoView)>, items: Seq<RawEntry>) -> Seq<
    (Seq<char>, InfoView),
>
    decreases items.len(),
{
    if items.len() == 0 {
        entries
    } else {
        put_images(
            put_entries(entries, items.drop_last()),
            items.last().formats@,
            items.last().http_headers@,
        )
    }
}

/// What the session of a source keeps: the video, the sound and the images
/// that a client is shown, in that order, and then the images of the items of
/// a gallery. Of two variants under one identifier the later one stays.
pub open spec fn stored(
    videos: Seq<FormatView>,
    sounds: Seq<FormatView>,
    images: Seq<FormatView>,
    info: MediaInfo,
) -> Seq<(Seq<char>, InfoView)> {
    put_entries(
        put_all(put_all(put_all(Seq::empty(), videos, info), sounds, info), images, info),
        info.entries@,
    )
}

/// The content type of a variant, as far as its labels tell.
pub fn determine_content_type(resolution: &str, format_id: &str, quality: &str) -> (kind: String)
    ensures
        kind@ == content_type_of(resolution@, format_id@, quality@),
{
    let lower = to_lowercase(format_id);
    content_type_by(resolution, lower.as_str(), quality)
}

/// The content type of a variant by its resolution, its name in lower case,
/// and its label.
pub fn content_type_by(resolution: &str, name: &str, quality: &str) -> (kind: String)
    ensures
        kind@ == content_type_given(resolution@, name@, quality@),
{
    if str_eq(resolution, "audio only") {
        "audio/mp4".to_owned()
    } else if contains(quality, "IMAGE") || contains(name, "thumb") {
        "image/jpeg".to_owned()
    } else {
        "video/mp4".to_owned()
    }
}

/// The headers to fetch a variant by: its own where it has any, else `fallback`.
pub fn extract_headers(format_data: Option<&RawFormat>, fallback: &Vec<(String, String)>) -> (headers:
    Vec<(String, String)>)
    ensures
        header_views(headers@) == (match format_data {
            Some(r) => own_headers(*r, fallback@),
            None => header_views(fallback@),
        }),
{
    match format_data {
        Some(r) => {
            if r.http_headers.len() > 0 {
                copy_headers(&r.http_headers)
            } else {
                copy_headers(fallback)
            }
        },
        None => copy_headers(fallback),
    }
}

/// The first variant that is called `id`.
pub fn find_named<'a>(raws: &'a Vec<RawFormat>, id: &str) -> (r: Option<&'a RawFormat>)
    ensures
        match r {
            Some(found) => exists|at: int| is_first_named(raws@, id@, at) && *found == raws@[at],
            None => forall|at: int| !is_first_named(raws@, id@, at),
        },
{
    let mut i: usize = 0;
    while i < raws.len()
        invariant
            0 <= i <= raws@.len(),
            forall|j: int|
                0 <= j < i ==> !((#[trigger] raws@[j]).format_id matches Some(name) && name@ == id@),
        decreases raws@.len() - i,
    {
        let named: bool = match &raws[i].format_id {
            Some(name) => str_eq(name.as_str(), id),
            None => false,
        };
        if named {
            assert(is_first_named(raws@, id@, i as int));
            return Some(&raws[i]);
        }
        i = i + 1;
    }
    None
}

/// The first variant called `id` is one place only.
proof fn lemma_first_named(raws: Seq<RawFormat>, id: Seq<char>, a: int, b: int)
    requires
        is_first_named(raws, id, a),
        is_first_named(raws, id, b),
    ensures
        a == b,
{
    if a < b {
        assert(!(raws[a].format_id matches Some(name) && name@ == id));
    } else if b < a {
        assert(!(raws[b].format_id matches Some(name) && name@ == id));
    }
}

/// What a session keeps of the variant `f`, to be fetched by `headers`.
pub fn keep(f: &VideoFormat, headers: Vec<(String, String)>) -> (info: FormatInfo)
    ensures
        info@ == kept(f@, header_views(headers@)),
{
    let info = FormatInfo {
        url: f.url.clone(),
        http_headers: headers,
        quality: f.quality.clone(),
        resolution: f.resolution.clone(),
        content_type: determine_content_type(
            f.resolution.as_str(),
            f.format_id.as_str(),
            f.quality.as_str(),
        ),
    };
    assert(info@.http_headers =~= header_views(headers@));
    info
}

/// Puts the variants of a list into the session, one after the other.
pub fn put_list(session: &mut SessionData, list: &Vec<VideoFormat>, info: &MediaInfo)
    requires
        old(session).wf(),
    ensures
        final(session).wf(),
        final(session).video_id == old(session).video_id,
        final(session).cookies == old(session).cookies,
        session_view(final(session).formats@) == put_all(
            session_view(old(session).formats@),
            views(list@),
            *info,
        ),
{
    let ghost all = views(list@);
    let mut i: usize = 0;
    assert(all.take(0) =~= Seq::<FormatView>::empty());
    while i < list.len()
        invariant
            0 <= i <= list@.len(),
            all == views(list@),
            session.wf(),
            session.video_id == old(session).video_id,
            session.cookies == old(session).cookies,
            session_view(session.formats@) == put_all(
                session_view(old(session).formats@),
                all.take(i as int),
                *info,
            ),
        decreases list@.len() - i,
    {
        let f = &list[i];
        let ghost longer = all.take(i + 1);
        assert(longer.drop_last() =~= all.take(i as int));
        assert(longer.last() == f@);
        let found = find_named(&info.formats, f.format_id.as_str());
        proof {
            match found {
                Some(r) => {
                    let at = choose|at: int|
                        is_first_named(info.formats@, f.format_id@, at) && *r == info.formats@[at];
                    let chosen = choose|k: int| is_first_named(info.formats@, f.format_id@, k);
                    lemma_first_named(info.formats@, f.format_id@, at, chosen);
                },
                None => {},
            }
        }
        let headers = extract_headers(found, &info.http_headers);
        let kept_info = keep(f, headers);
        session.insert(f.format_id.clone(), kept_info);
        i = i + 1;
    }
    assert(all.take(i as int) =~= all);
}

/// True for a variant of an item of a gallery that the session keeps.
pub fn keeps_entry_image(r: &RawFormat) -> (b: bool)
    ensures
        b == is_entry_image(*r),
{
    !is_empty(or_text(&r.format_id, "")) && is_still_image(r)
}

/// Puts the still images of an item of a gallery into the session.
pub fn put_entry_images(session: &mut SessionData, raws: &Vec<RawFormat>, fallback: &Vec<
    (String, String),
>)
    requires
        old(session).wf(),
    ensures
        final(session).wf(),
        final(session).video_id == old(session).video_id,
        final(session).cookies == old(session).cookies,
        session_view(final(session).formats@) == put_images(
            session_view(old(session).formats@),
            raws@,
            fallback@,
        ),
{
    let mut i: usize = 0;
    assert(raws@.take(0) =~= Seq::<RawFormat>::empty());
    while i < raws.len()
        invariant
            0 <= i <= raws@.len(),
            session.wf(),
            session.video_id == old(session).video_id,
            session.cookies == old(session).cookies,
            session_view(session.formats@) == put_images(
                session_view(old(session).formats@),
                raws@.take(i as int),
                fallback@,
            ),
        decreases raws@.len() - i,
    {
        let r = &raws[i];
        let ghost longer = raws@.take(i + 1);
        assert(longer.drop_last() =~= raws@.take(i as int));
        assert(longer.last() == *r);
        if keeps_entry_image(r) {
            let f = describe(r, Kind::Image);
            let headers = extract_headers(Some(r), fallback);
            let kept_info = keep(&f, headers);
            session.insert(f.format_id.clone(), kept_info);
        }
        i = i + 1;
    }
    assert(raws@.take(i as int) =~= raws@);
}

/// The session for a source, from the lists that a client is shown and from
/// what the extractor says.
///
/// The session is known by the identifier of the source, `unknown` where it
/// has none, and carries the cookies of the source.
pub fn store_formats_in_session(
    video_fmts: &Vec<VideoFormat>,
    audio_fmts: &Vec<VideoFormat>,
    image_fmts: &Vec<VideoFormat>,
    info: &MediaInfo,
) -> (session: SessionData)
    ensures
        session.wf(),
        session.video_id@ == text_or(info.id, "unknown"@),
        match (session.cookies, info.cookies) {
            (Some(a), Some(b)) => a@ == b@,
            (None, None) => true,
            _ => false,
        },
        session_view(session.formats@) == stored(
            views(video_fmts@),
            views(audio_fmts@),
            views(image_fmts@),
            *info,
        ),
{
    let cookies: Option<String> = match &info.cookies {
        Some(text) => Some(text.clone()),
        None => None,
    };
    let mut session = SessionData::new(or_text(&info.id, "unknown").to_owned(), cookies);
    assert(session_view(session.formats@) =~= Seq::<(Seq<char>, InfoView)>::empty());
    put_list(&mut session, video_fmts, info);
    put_list(&mut session, audio_fmts, info);
    put_list(&mut session, image_fmts, info);
    let ghost base = session_view(session.formats@);
    let mut i: usize = 0;
    assert(info.entries@.take(0) =~= Seq::<RawEntry>::empty());
    while i < info.entries.len()
        invariant
            0 <= i <= info.entries@.len(),
            session.wf(),
            session.video_id@ == text_or(info.id, "unknown"@),
            match (session.cookies, info.cookies) {
                (Some(a), Some(b)) => a@ == b@,
                (None, None) => true,
                _ => false,
            },
            session_view(session.formats@) == put_entries(base, info.entries@.take(i as int)),
        decreases info.entries@.len() - i,
    {
        let entry = &info.entries[i];
        let ghost longer = info.entries@.take(i + 1);
        assert(longer.drop_last() =~= info.entries@.take(i as int));
        assert(longer.last() == *entry);
        put_entry_images(&mut session, &entry.formats, &entry.http_headers);
        i = i + 1;
    }
    assert(info.entries@.take(i as int) =~= info.entries@);
    session
}

} // verus!
