//! The answer to a request that a source be looked at: who made the item,
//! how it has fared, and links to its files.
//!
//! A post of still images is answered with the images to pick from; anything
//! else with links to the video in the qualities that the source offers.

use crate::config::Settings;
use crate::links::{
    gen_stream_link, headers_object, image_payload, image_payload_json, link_to, make_link,
    payload_headers, same_text, stream_link, stream_payload, stream_payload_json,
};
use crate::media::{MediaInfo, RawFormat};
use crate::stream::header_views;
use crate::text::{
    has_prefix, is_empty, number_or, or_number, or_text, starts_with, str_eq, text_or,
};
use vstd::prelude::*;
use vstd::utf8::*;

verus! {

/// Who made a media item.
#[derive(Clone, Debug, PartialEq, Eq)]
pub struct AuthorInfo {
    pub nickname: String,
    pub unique_id: String,
    pub signature: String,
    pub avatar: String,
    pub avatar_thumb: String,
    pub avatar_medium: String,
    pub avatar_larger: String,
}

/// How a media item has fared with its audience.
#[derive(Clone, Copy, Debug, PartialEq, Eq, Structural)]
pub struct Statistics {
    pub play_count: i64,
    pub digg_count: i64,
    pub comment_count: i64,
    pub share_count: i64,
}

/// What kind of answer it is.
#[derive(Clone, Copy, Debug, PartialEq, Eq, Structural)]
pub enum ResponseStatus {
    /// Still images to pick from.
    Picker,
    /// Links to a video.
    Tunnel,
}

/// The links to the files of a media item.
#[derive(Clone, Debug, PartialEq, Eq)]
pub struct DownloadLinks {
    /// The video as the source offers it for download.
    pub watermark: Option<String>,
    /// The best video below 720 lines.
    pub no_watermark: Option<String>,
    /// The best video of 720 lines or more.
    pub no_watermark_hd: Option<String>,
    /// The next best video of 720 lines or more.
    pub watermark_hd: Option<String>,
    /// The sound.
    pub mp3: Option<String>,
    /// The still images, one link each.
    pub images: Vec<String>,
}

/// The answer to a request that a source be looked at.
#[derive(Clone, Debug, PartialEq, Eq)]
pub struct MediaResponse {
    pub status: ResponseStatus,
    /// The addresses of the still images, for a post of images.
    pub photos: Vec<String>,
    pub title: String,
    pub description: String,
    pub statistics: Statistics,
    pub artist: String,
    pub cover: String,
    /// The length in milliseconds.
    pub duration: i64,
    /// The address of the sound.
    pub audio: String,
    pub download_link: DownloadLinks,
    pub music_duration: i64,
    pub author: AuthorInfo,
    /// The link to the images as one video, for a post of images.
    pub download_slideshow_link: Option<String>,
}

/// The text in `field` where there is one that is not empty, else `default`.
pub open spec fn filled_or(field: Option<String>, default: Seq<char>) -> Seq<char> {
    match field {
        Some(text) => if text@.len() > 0 {
            text@
        } else {
            default
        },
        None => default,
    }
}

/// What to call the author: the uploader, else the channel, else `unknown`.
pub open spec fn nickname_of(data: MediaInfo) -> Seq<char> {
    filled_or(data.uploader, filled_or(data.channel, "unknown"@))
}

/// The title: the title, else the full title, else nothing.
pub open spec fn title_of(data: MediaInfo) -> Seq<char> {
    filled_or(data.title, filled_or(data.fulltitle, ""@))
}

/// The address of the first preview picture, or nothing.
pub open spec fn avatar_of(data: MediaInfo) -> Seq<char> {
    if data.thumbnails@.len() > 0 {
        text_or(data.thumbnails@[0].url, ""@)
    } else {
        ""@
    }
}

/// True for a variant that is a still image of a post: its name begins with `image-`.
pub open spec fn is_post_image(r: RawFormat) -> bool {
    has_prefix(encode_utf8(text_or(r.format_id, ""@)), encode_utf8("image-"@))
}

/// True for a post of still images: one of its variants is one.
pub open spec fn is_image_post(formats: Seq<RawFormat>) -> bool {
    exists|i: int| 0 <= i < formats.len() && is_post_image(#[trigger] formats[i])
}

/// True for a variant that is called `name`.
pub open spec fn is_named(r: RawFormat, name: Seq<char>) -> bool {
    r.format_id matches Some(id) && id@ == name
}

/// True for a variant with picture and sound.
pub open spec fn is_muxed(r: RawFormat) -> bool {
    text_or(r.vcodec, "none"@) != "none"@ && text_or(r.acodec, "none"@) != "none"@
}

/// True for a variant with sound and no picture.
pub open spec fn is_sound(r: RawFormat) -> bool {
    text_or(r.acodec, "none"@) != "none"@ && (text_or(r.vcodec, "none"@) == "none"@ || text_or(
        r.vcodec,
        "none"@,
    ).len() == 0)
}

/// The number of picture elements of a variant.
pub open spec fn area(r: RawFormat) -> int {
    number_or(r.height, 0) * number_or(r.width, 0)
}

/// True for a variant of 720 lines or more.
pub open spec fn is_hd(r: RawFormat) -> bool {
    number_or(r.height, 0) >= 720
}

/// What a choice among the variants looks for.
#[derive(Clone, Copy, Debug, PartialEq, Eq, Structural)]
pub enum Wanted {
    /// The variant called `download`.
    Download,
    /// The post's sound, called `audio`.
    PostAudio,
    /// A variant with sound and no picture.
    Sound,
    /// A variant with picture and sound.
    Muxed,
}

/// True when the variant is what the choice looks for.
pub open spec fn wanted(r: RawFormat, what: Wanted) -> bool {
    match what {
        Wanted::Download => is_named(r, "download"@),
        Wanted::PostAudio => is_named(r, "audio"@),
        Wanted::Sound => is_sound(r),
        Wanted::Muxed => is_muxed(r),
    }
}

/// True when the variant at `at` is the first that the choice looks for.
pub open spec fn is_first_wanted(formats: Seq<RawFormat>, what: Wanted, at: int) -> bool {
    &&& 0 <= at < formats.len()
    &&& wanted(formats[at], what)
    &&& forall|j: int| 0 <= j < at ==> !wanted(#[trigger] formats[j], what)
}

/// The place of the first variant that the choice looks for.
pub open spec fn first_wanted(formats: Seq<RawFormat>, what: Wanted) -> Option<int> {
    if exists|at: int| is_first_wanted(formats, what, at) {
        Some(choose|at: int| is_first_wanted(formats, what, at))
    } else {
        None
    }
}

/// The place of the variant that gives the sound: the first with sound
/// alone, else the first with picture and sound.
pub open spec fn sound_choice(formats: Seq<RawFormat>) -> Option<int> {
    match first_wanted(formats, Wanted::Sound) {
        Some(at) => Some(at),
        None => first_wanted(formats, Wanted::Muxed),
    }
}

/// True when the variant at `at` is in the running for the best video of its
/// class, `hd` or not, the one at `skip` left out.
pub open spec fn in_running(formats: Seq<RawFormat>, at: int, hd: bool, skip: Option<int>) -> bool {
    &&& 0 <= at < formats.len()
    &&& is_muxed(formats[at])
    &&& is_hd(formats[at]) == hd
    &&& skip != Some(at)
}

/// True when the variant at `at` is the best video of its class: none in
/// the running has a larger picture, and none before it one as large.
pub open spec fn is_best(formats: Seq<RawFormat>, at: int, hd: bool, skip: Option<int>) -> bool {
    &&& in_running(formats, at, hd, skip)
    &&& forall|j: int| #[trigger]
        in_running(formats, j, hd, skip) ==> area(formats[j]) < area(formats[at]) || (area(
            formats[j],
        ) == area(formats[at]) && at <= j)
}

/// The place of the best video of a class.
pub open spec fn best(formats: Seq<RawFormat>, hd: bool, skip: Option<int>) -> Option<int> {
    if exists|at: int| is_best(formats, at, hd, skip) {
        Some(choose|at: int| is_best(formats, at, hd, skip))
    } else {
        None
    }
}

/// The link to the stream of the variant at `at`, if there is such a variant.
pub open spec fn link_at(
    formats: Seq<RawFormat>,
    at: Option<int>,
    author: Seq<char>,
    file_type: Seq<char>,
    settings: Settings,
    now: u64,
) -> Option<Seq<char>> {
    match at {
        Some(i) => stream_link(
            formats[i],
            author,
            file_type,
            settings.base_url@,
            settings.encryption_key@,
            now,
        ),
        None => None,
    }
}

/// The address of the variant at `at`, or nothing.
pub open spec fn url_at(formats: Seq<RawFormat>, at: Option<int>) -> Seq<char> {
    match at {
        Some(i) => text_or(formats[i].url, ""@),
        None => ""@,
    }
}

/// The addresses of the still images of a post, in order.
pub open spec fn photo_urls(formats: Seq<RawFormat>) -> Seq<Seq<char>>
    decreases formats.len(),
{
    if formats.len() == 0 {
        Seq::empty()
    } else {
        let rest = photo_urls(formats.drop_last());
        if is_post_image(formats.last()) {
            rest.push(text_or(formats.last().url, ""@))
        } else {
            rest
        }
    }
}

/// The links to the still images of a post, in order.
pub open spec fn image_links(
    formats: Seq<RawFormat>,
    author: Seq<char>,
    settings: Settings,
    now: u64,
) -> Seq<Seq<char>>
    decreases formats.len(),
{
    if formats.len() == 0 {
        Seq::empty()
    } else {
        let rest = image_links(formats.drop_last(), author, settings, now);
        if is_post_image(formats.last()) {
            match link_to(
                settings.base_url@,
                "/download?data="@,
                image_payload(text_or(formats.last().url, ""@), author),
                settings.encryption_key@,
                now,
            ) {
                Some(link) => rest.push(link),
                None => rest,
            }
        } else {
            rest
        }
    }
}

/// The link to the sound of a post of images.
pub open spec fn post_audio_link(r: RawFormat, author: Seq<char>, settings: Settings, now: u64) -> Option<
    Seq<char>,
> {
    link_to(
        settings.base_url@,
        "/stream?data="@,
        stream_payload(
            text_or(r.url, ""@),
            author,
            number_or(r.filesize, 0),
            payload_headers(r),
            "mp3"@,
        ),
        settings.encryption_key@,
        now,
    )
}

/// The texts of a list of strings.
pub open spec fn texts(list: Seq<String>) -> Seq<Seq<char>> {
    Seq::new(list.len(), |i: int| list[i]@)
}

/// The first of what a choice looks for is one place only.
pub proof fn lemma_first_wanted(formats: Seq<RawFormat>, what: Wanted, at: int)
    requires
        is_first_wanted(formats, what, at),
    ensures
        first_wanted(formats, what) == Some(at),
{
    let found = choose|k: int| is_first_wanted(formats, what, k);
    assert(is_first_wanted(formats, what, found));
    if found < at {
        assert(!wanted(formats[found], what));
    } else if at < found {
        assert(!wanted(formats[at], what));
    }
}

/// The best video of a class is one place only.
pub proof fn lemma_best(formats: Seq<RawFormat>, at: int, hd: bool, skip: Option<int>)
    requires
        is_best(formats, at, hd, skip),
    ensures
        best(formats, hd, skip) == Some(at),
{
    let found = choose|k: int| is_best(formats, k, hd, skip);
    assert(is_best(formats, found, hd, skip));
    assert(in_running(formats, found, hd, skip));
    assert(in_running(formats, at, hd, skip));
}

/// The text in `field` where there is one that is not empty, else `default`.
pub fn str_or(field: &Option<String>, default: String) -> (text: String)
    ensures
        text@ == filled_or(*field, default@),
{
    match field {
        Some(value) => {
            if is_empty(value.as_str()) {
                default
            } else {
                value.clone()
            }
        },
        None => default,
    }
}

/// True for a variant that is a still image of a post.
pub fn is_image_format(r: &RawFormat) -> (b: bool)
    ensures
        b == is_post_image(*r),
{
    starts_with(or_text(&r.format_id, ""), "image-")
}

/// True for a post of still images.
pub fn has_images(formats: &Vec<RawFormat>) -> (b: bool)
    ensures
        b == is_image_post(formats@),
{
    let mut i: usize = 0;
    while i < formats.len()
        invariant
            0 <= i <= formats@.len(),
            forall|j: int| 0 <= j < i ==> !is_post_image(#[trigger] formats@[j]),
        decreases formats@.len() - i,
    {
        if is_image_format(&formats[i]) {
            return true;
        }
        i = i + 1;
    }
    false
}

/// True when the variant is what the choice looks for.
pub fn is_wanted(r: &RawFormat, what: Wanted) -> (b: bool)
    ensures
        b == wanted(*r, what),
{
    match what {
        Wanted::Download => match &r.format_id {
            Some(id) => str_eq(id.as_str(), "download"),
            None => false,
        },
        Wanted::PostAudio => match &r.format_id {
            Some(id) => str_eq(id.as_str(), "audio"),
            None => false,
        },
        Wanted::Sound => {
            let vcodec = or_text(&r.vcodec, "none");
            !str_eq(or_text(&r.acodec, "none"), "none") && (str_eq(vcodec, "none") || is_empty(
                vcodec,
            ))
        },
        Wanted::Muxed => !str_eq(or_text(&r.vcodec, "none"), "none") && !str_eq(
            or_text(&r.acodec, "none"),
            "none",
        ),
    }
}

/// The place of the first variant that the choice looks for.
pub fn find_wanted(formats: &Vec<RawFormat>, what: Wanted) -> (r: Option<usize>)
    ensures
        match r {
            Some(at) => first_wanted(formats@, what) == Some(at as int) && at < formats@.len(),
            None => first_wanted(formats@, what) is None,
        },
{
    let mut i: usize = 0;
    while i < formats.len()
        invariant
            0 <= i <= formats@.len(),
            forall|j: int| 0 <= j < i ==> !wanted(#[trigger] formats@[j], what),
        decreases formats@.len() - i,
    {
        if is_wanted(&formats[i], what) {
            proof {
                lemma_first_wanted(formats@, what, i as int);
            }
            return Some(i);
        }
        i = i + 1;
    }
    proof {
        if exists|at: int| is_first_wanted(formats@, what, at) {
            let at = choose|at: int| is_first_wanted(formats@, what, at);
            assert(wanted(formats@[at], what));
        }
    }
    None
}

/// The place of the variant that gives the sound.
pub fn find_sound(formats: &Vec<RawFormat>) -> (r: Option<usize>)
    ensures
        match r {
            Some(at) => sound_choice(formats@) == Some(at as int) && at < formats@.len(),
            None => sound_choice(formats@) is None,
        },
{
    match find_wanted(formats, Wanted::Sound) {
        Some(at) => Some(at),
        None => find_wanted(formats, Wanted::Muxed),
    }
}

/// The number of picture elements of a variant.
pub fn area_of(r: &RawFormat) -> (a: i128)
    ensures
        a == area(*r),
{
    let h: i128 = or_number(r.height, 0) as i128;
    let w: i128 = or_number(r.width, 0) as i128;
    assert(-0x8000_0000_0000_0000 <= h < 0x8000_0000_0000_0000);
    assert(-0x8000_0000_0000_0000 <= w < 0x8000_0000_0000_0000);
    assert(-0x4000_0000_0000_0000_0000_0000_0000_0000 <= h * w
        <= 0x4000_0000_0000_0000_0000_0000_0000_0000) by (nonlinear_arith)
        requires
            -0x8000_0000_0000_0000 <= h < 0x8000_0000_0000_0000,
            -0x8000_0000_0000_0000 <= w < 0x8000_0000_0000_0000,
    ;
    h * w
}

/// The place of the best video of a class, the one at `skip` left out.
pub fn find_best(formats: &Vec<RawFormat>, hd: bool, skip: Option<usize>) -> (r: Option<usize>)
    ensures
        match r {
            Some(at) => at < formats@.len() && best(
                formats@,
                hd,
                match skip {
                    Some(s) => Some(s as int),
                    None => None,
                },
            ) == Some(at as int),
            None => best(
                formats@,
                hd,
                match skip {
                    Some(s) => Some(s as int),
                    None => None,
                },
            ) is None,
        },
{
    let ghost left_out: Option<int> = match skip {
        Some(s) => Some(s as int),
        None => None,
    };
    let mut found: Option<usize> = None;
    let mut largest: i128 = 0;
    let mut i: usize = 0;
    while i < formats.len()
        invariant
            0 <= i <= formats@.len(),
            left_out == (match skip {
                Some(s) => Some(s as int),
                None => None::<int>,
            }),
            match found {
                Some(at) => {
                    &&& at < i
                    &&& in_running(formats@, at as int, hd, left_out)
                    &&& largest == area(formats@[at as int])
                    &&& forall|j: int|
                        0 <= j < i && #[trigger] in_running(formats@, j, hd, left_out) ==> area(
                            formats@[j],
                        ) < largest || (area(formats@[j]) == largest && at <= j)
                },
                None => forall|j: int| 0 <= j < i ==> !#[trigger] in_running(formats@, j, hd, left_out),
            },
        decreases formats@.len() - i,
    {
        let r = &formats[i];
        let skipped: bool = match skip {
            Some(s) => s == i,
            None => false,
        };
        let tall: bool = or_number(r.height, 0) >= 720;
        if !skipped && tall == hd && is_wanted(r, Wanted::Muxed) {
            let a = area_of(r);
            match found {
                Some(_) => {
                    if a > largest {
                        found = Some(i);
                        largest = a;
                    }
                },
                None => {
                    found = Some(i);
                    largest = a;
                },
            }
        }
        i = i + 1;
    }
    proof {
        match found {
            Some(at) => {
                assert(is_best(formats@, at as int, hd, left_out));
                lemma_best(formats@, at as int, hd, left_out);
            },
            None => {
                if exists|at: int| is_best(formats@, at, hd, left_out) {
                    let at = choose|at: int| is_best(formats@, at, hd, left_out);
                    assert(in_running(formats@, at, hd, left_out));
                }
            },
        }
    }
    found
}

/// The link to the stream of the variant at `at`, if there is such a variant.
fn link_for(
    formats: &Vec<RawFormat>,
    at: Option<usize>,
    author: &str,
    file_type: &str,
    settings: &Settings,
    now: u64,
) -> (link: Option<String>)
    requires
        at matches Some(i) ==> i < formats@.len(),
    ensures
        same_text(
            link,
            link_at(
                formats@,
                match at {
                    Some(i) => Some(i as int),
                    None => None,
                },
                author@,
                file_type@,
                *settings,
                now,
            ),
        ),
{
    match at {
        Some(i) => gen_stream_link(&formats[i], author, file_type, settings, now),
        None => None,
    }
}

/// The links to a video and the address of its sound.
///
/// The source's own download is offered as it is. Of the variants with
/// picture and sound, the best below 720 lines and the two best from 720 lines
/// up are offered, and the sound, from the first variant with sound alone or
/// else the first with picture and sound.
pub fn build_video_response(
    formats: &Vec<RawFormat>,
    author_nickname: &str,
    settings: &Settings,
    now: u64,
) -> (r: (DownloadLinks, String))
    ensures
        r.1@ == url_at(formats@, sound_choice(formats@)),
        same_text(
            r.0.watermark,
            link_at(
                formats@,
                first_wanted(formats@, Wanted::Download),
                author_nickname@,
                "video"@,
                *settings,
                now,
            ),
        ),
        same_text(
            r.0.no_watermark,
            link_at(formats@, best(formats@, false, None), author_nickname@, "video"@, *settings, now),
        ),
        same_text(
            r.0.no_watermark_hd,
            link_at(formats@, best(formats@, true, None), author_nickname@, "video"@, *settings, now),
        ),
        same_text(
            r.0.watermark_hd,
            match best(formats@, true, None) {
                Some(first) => link_at(
                    formats@,
                    best(formats@, true, Some(first)),
                    author_nickname@,
                    "video"@,
                    *settings,
                    now,
                ),
                None => None,
            },
        ),
        same_text(
            r.0.mp3,
            link_at(formats@, sound_choice(formats@), author_nickname@, "mp3"@, *settings, now),
        ),
        r.0.images@.len() == 0,
{
    let sound = find_sound(formats);
    let audio: String = match sound {
        Some(at) => or_text(&formats[at].url, "").to_owned(),
        None => "".to_owned(),
    };
    let download = find_wanted(formats, Wanted::Download);
    let sd = find_best(formats, false, None);
    let hd = find_best(formats, true, None);
    let second_hd: Option<usize> = match hd {
        Some(first) => find_best(formats, true, Some(first)),
        None => None,
    };
    let links = DownloadLinks {
        watermark: link_for(formats, download, author_nickname, "video", settings, now),
        no_watermark: link_for(formats, sd, author_nickname, "video", settings, now),
        no_watermark_hd: link_for(formats, hd, author_nickname, "video", settings, now),
        watermark_hd: link_for(formats, second_hd, author_nickname, "video", settings, now),
        mp3: link_for(formats, sound, author_nickname, "mp3", settings, now),
        images: Vec::new(),
    };
    (links, audio)
}

/// The addresses of the still images of a post, in order.
pub fn photos_of(formats: &Vec<RawFormat>) -> (urls: Vec<String>)
    ensures
        texts(urls@) == photo_urls(formats@),
{
    let mut urls: Vec<String> = Vec::new();
    let mut i: usize = 0;
    assert(formats@.take(0) =~= Seq::<RawFormat>::empty());
    assert(texts(urls@) =~= Seq::<Seq<char>>::empty());
    while i < formats.len()
        invariant
            0 <= i <= formats@.len(),
            texts(urls@) == photo_urls(formats@.take(i as int)),
        decreases formats@.len() - i,
    {
        let ghost longer = formats@.take(i + 1);
        let ghost before = urls@;
        assert(longer.drop_last() =~= formats@.take(i as int));
        assert(longer.last() == formats@[i as int]);
        if is_image_format(&formats[i]) {
            urls.push(or_text(&formats[i].url, "").to_owned());
            assert(texts(urls@) =~= texts(before).push(text_or(formats@[i as int].url, ""@)));
        }
        i = i + 1;
    }
    assert(formats@.take(i as int) =~= formats@);
    urls
}

/// The links to the still images of a post, in order.
pub fn image_links_of(formats: &Vec<RawFormat>, author: &str, settings: &Settings, now: u64) -> (links:
    Vec<String>)
    ensures
        texts(links@) == image_links(formats@, author@, *settings, now),
{
    let mut links: Vec<String> = Vec::new();
    let mut i: usize = 0;
    assert(formats@.take(0) =~= Seq::<RawFormat>::empty());
    assert(texts(links@) =~= Seq::<Seq<char>>::empty());
    while i < formats.len()
        invariant
            0 <= i <= formats@.len(),
            texts(links@) == image_links(formats@.take(i as int), author@, *settings, now),
        decreases formats@.len() - i,
    {
        let ghost longer = formats@.take(i + 1);
        let ghost before = links@;
        assert(longer.drop_last() =~= formats@.take(i as int));
        assert(longer.last() == formats@[i as int]);
        if is_image_format(&formats[i]) {
            let payload = image_payload_json(or_text(&formats[i].url, ""), author);
            match make_link(
                settings.base_url.as_str(),
                "/download?data=",
                payload.as_str(),
                settings.encryption_key.as_str(),
                now,
            ) {
                Some(link) => {
                    let ghost text = link@;
                    links.push(link);
                    assert(texts(links@) =~= texts(before).push(text));
                },
                None => {},
            }
        }
        i = i + 1;
    }
    assert(formats@.take(i as int) =~= formats@);
    links
}

/// The still images of a post, the links to them, and what goes with them:
/// the link to the post's sound and its address, and the link to the images
/// as one video.
pub fn build_image_response(
    formats: &Vec<RawFormat>,
    url: &str,
    author_nickname: &str,
    settings: &Settings,
    now: u64,
) -> (r: (Vec<String>, DownloadLinks, String, Option<String>))
    ensures
        texts(r.0@) == photo_urls(formats@),
        texts(r.1.images@) == image_links(formats@, author_nickname@, *settings, now),
        r.1.watermark is None && r.1.no_watermark is None && r.1.no_watermark_hd is None
            && r.1.watermark_hd is None,
        same_text(
            r.1.mp3,
            match first_wanted(formats@, Wanted::PostAudio) {
                Some(at) => post_audio_link(formats@[at], author_nickname@, *settings, now),
                None => None,
            },
        ),
        r.2@ == url_at(formats@, first_wanted(formats@, Wanted::PostAudio)),
        same_text(
            r.3,
            link_to(
                settings.base_url@,
                "/download-slideshow?url="@,
                url@,
                settings.encryption_key@,
                now,
            ),
        ),
{
    let photos = photos_of(formats);
    let images = image_links_of(formats, author_nickname, settings, now);
    let sound = find_wanted(formats, Wanted::PostAudio);
    let (mp3, audio): (Option<String>, String) = match sound {
        Some(at) => {
            let af = &formats[at];
            let headers = headers_object(&af.http_headers, &af.other_headers, &af.cookies);
            let payload = stream_payload_json(
                or_text(&af.url, ""),
                author_nickname,
                or_number(af.filesize, 0),
                headers,
                "mp3",
            );
            (
                make_link(
                    settings.base_url.as_str(),
                    "/stream?data=",
                    payload.as_str(),
                    settings.encryption_key.as_str(),
                    now,
                ),
                or_text(&af.url, "").to_owned(),
            )
        },
        None => (None, "".to_owned()),
    };
    let slideshow = make_link(
        settings.base_url.as_str(),
        "/download-slideshow?url=",
        url,
        settings.encryption_key.as_str(),
        now,
    );
    let links = DownloadLinks {
        watermark: None,
        no_watermark: None,
        no_watermark_hd: None,
        watermark_hd: None,
        mp3,
        images,
    };
    (photos, links, audio, slideshow)
}

/// Who made the item.
pub fn author_of(data: &MediaInfo) -> (author: AuthorInfo)
    ensures
        author.nickname@ == nickname_of(*data),
        author.unique_id@ == filled_or(data.uploader_id, nickname_of(*data)),
        author.signature@ == filled_or(data.description, ""@),
        author.avatar@ == avatar_of(*data),
        author.avatar_thumb@ == avatar_of(*data),
        author.avatar_medium@ == avatar_of(*data),
        author.avatar_larger@ == avatar_of(*data),
{
    let avatar: String = if data.thumbnails.len() > 0 {
        or_text(&data.thumbnails[0].url, "").to_owned()
    } else {
        "".to_owned()
    };
    let nickname = str_or(&data.uploader, str_or(&data.channel, "unknown".to_owned()));
    AuthorInfo {
        unique_id: str_or(&data.uploader_id, nickname.clone()),
        nickname,
        signature: str_or(&data.description, "".to_owned()),
        avatar_thumb: avatar.clone(),
        avatar_medium: avatar.clone(),
        avatar_larger: avatar.clone(),
        avatar,
    }
}

/// How the item has fared: each count as the source gives it, zero where it gives none.
pub fn statistics_of(data: &MediaInfo) -> (stats: Statistics)
    ensures
        stats.play_count == number_or(data.view_count, 0),
        stats.digg_count == number_or(data.like_count, 0),
        stats.comment_count == number_or(data.comment_count, 0),
        stats.share_count == number_or(data.repost_count, 0),
{
    Statistics {
        play_count: or_number(data.view_count, 0),
        digg_count: or_number(data.like_count, 0),
        comment_count: or_number(data.comment_count, 0),
        share_count: or_number(data.repost_count, 0),
    }
}

/// True when `r` is the answer for the source at `url` that `data` describes,
/// with links made at the second `now`.
pub open spec fn is_answer(r: MediaResponse, data: MediaInfo, url: Seq<char>, settings: Settings, now: u64) -> bool {
    &&& r.status == (if is_image_post(data.formats@) {
        ResponseStatus::Picker
    } else {
        ResponseStatus::Tunnel
    })
    &&& r.title@ == title_of(data)
    &&& r.description@ == filled_or(data.description, title_of(data))
    &&& r.artist@ == filled_or(data.artist, nickname_of(data))
    &&& r.cover@ == filled_or(data.thumbnail, ""@)
    &&& r.duration == data.duration_ms
    &&& r.music_duration == data.duration_ms
    &&& r.statistics.play_count == number_or(data.view_count, 0)
    &&& r.statistics.digg_count == number_or(data.like_count, 0)
    &&& r.statistics.comment_count == number_or(data.comment_count, 0)
    &&& r.statistics.share_count == number_or(data.repost_count, 0)
    &&& r.author.nickname@ == nickname_of(data)
    &&& r.author.unique_id@ == filled_or(data.uploader_id, nickname_of(data))
    &&& r.author.signature@ == filled_or(data.description, ""@)
    &&& r.author.avatar@ == avatar_of(data)
    &&& r.author.avatar_thumb@ == avatar_of(data)
    &&& r.author.avatar_medium@ == avatar_of(data)
    &&& r.author.avatar_larger@ == avatar_of(data)
    &&& is_image_post(data.formats@) ==> {
        &&& r.download_link.watermark is None
        &&& r.download_link.no_watermark is None
        &&& r.download_link.no_watermark_hd is None
        &&& r.download_link.watermark_hd is None
        &&& texts(r.photos@) == photo_urls(data.formats@)
        &&& texts(r.download_link.images@) == image_links(
            data.formats@,
            nickname_of(data),
            settings,
            now,
        )
        &&& same_text(
            r.download_link.mp3,
            match first_wanted(data.formats@, Wanted::PostAudio) {
                Some(at) => post_audio_link(data.formats@[at], nickname_of(data), settings, now),
                None => None,
            },
        )
        &&& r.audio@ == url_at(data.formats@, first_wanted(data.formats@, Wanted::PostAudio))
        &&& same_text(
            r.download_slideshow_link,
            link_to(
                settings.base_url@,
                "/download-slideshow?url="@,
                url,
                settings.encryption_key@,
                now,
            ),
        )
    }
    &&& !is_image_post(data.formats@) ==> {
        &&& r.photos@.len() == 0
        &&& r.download_link.images@.len() == 0
        &&& r.download_slideshow_link is None
        &&& r.audio@ == url_at(data.formats@, sound_choice(data.formats@))
        &&& same_text(
            r.download_link.watermark,
            link_at(
                data.formats@,
                first_wanted(data.formats@, Wanted::Download),
                nickname_of(data),
                "video"@,
                settings,
                now,
            ),
        )
        &&& same_text(
            r.download_link.no_watermark,
            link_at(
                data.formats@,
                best(data.formats@, false, None),
                nickname_of(data),
                "video"@,
                settings,
                now,
            ),
        )
        &&& same_text(
            r.download_link.no_watermark_hd,
            link_at(
                data.formats@,
                best(data.formats@, true, None),
                nickname_of(data),
                "video"@,
                settings,
                now,
            ),
        )
        &&& same_text(
            r.download_link.watermark_hd,
            match best(data.formats@, true, None) {
                Some(first) => link_at(
                    data.formats@,
                    best(data.formats@, true, Some(first)),
                    nickname_of(data),
                    "video"@,
                    settings,
                    now,
                ),
                None => None,
            },
        )
        &&& same_text(
            r.download_link.mp3,
            link_at(
                data.formats@,
                sound_choice(data.formats@),
                nickname_of(data),
                "mp3"@,
                settings,
                now,
            ),
        )
    }
}

/// The answer for the source at `url` as the extractor describes it, with
/// links made at the second `now`.
///
/// A post of still images is answered with the images to pick from, the link
/// to its sound and the link to the images as one video; anything else with
/// the links to its video and its sound.
pub fn generate_json_response_at(data: &MediaInfo, url: &str, settings: &Settings, now: u64) -> (r:
    MediaResponse)
    ensures
        is_answer(r, *data, url@, *settings, now),
{
    let author = author_of(data);
    let statistics = statistics_of(data);
    let title = str_or(&data.title, str_or(&data.fulltitle, "".to_owned()));
    let description = str_or(&data.description, title.clone());
    let artist = str_or(&data.artist, author.nickname.clone());
    let cover = str_or(&data.thumbnail, "".to_owned());
    if has_images(&data.formats) {
        let parts = build_image_response(
            &data.formats,
            url,
            author.nickname.as_str(),
            settings,
            now,
        );
        MediaResponse {
            status: ResponseStatus::Picker,
            photos: parts.0,
            title,
            description,
            statistics,
            artist,
            cover,
            duration: data.duration_ms,
            audio: parts.2,
            download_link: parts.1,
            music_duration: data.duration_ms,
            author,
            download_slideshow_link: parts.3,
        }
    } else {
        let parts = build_video_response(&data.formats, author.nickname.as_str(), settings, now);
        MediaResponse {
            status: ResponseStatus::Tunnel,
            photos: Vec::new(),
            title,
            description,
            statistics,
            artist,
            cover,
            duration: data.duration_ms,
            audio: parts.1,
            download_link: parts.0,
            music_duration: data.duration_ms,
            author,
            download_slideshow_link: None,
        }
    }
}

/// The answer for the source at `url` as the extractor describes it, with
/// links made now, by the system clock.
pub fn generate_json_response(data: &MediaInfo, url: &str, settings: &Settings) -> (r: MediaResponse)
    ensures
        exists|now: u64| is_answer(r, *data, url@, *settings, now),
{
    let now: u64 = crate::clock::unix_time();
    let r = generate_json_response_at(data, url, settings, now);
    assert(is_answer(r, *data, url@, *settings, now));
    r
}

} // verus!
