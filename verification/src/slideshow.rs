//! A post of still images as one video: what to fetch for it, and the
//! arguments for the tool that puts the video together.
//!
//! The tool is another program. Each image is shown for the same time, fitted
//! into an upright frame of 1080 by 1920, and the post's sound runs under them,
//! cut to the length of the pictures.

use crate::media::{MediaInfo, RawFormat};
use crate::response::{
    find_wanted, first_wanted, has_images, is_image_format, is_image_post, is_post_image, texts,
    Wanted,
};
use crate::stream::{sanitize, sanitized};
use crate::text::{ascii_chars, decimal, decimal_string, is_empty, or_text, text_or};
use vstd::prelude::*;
use vstd::string::StringExecFns;

verus! {

/// Seconds for which each image is shown.
pub const SECONDS_PER_IMAGE: u32 = 4;

/// What to fetch for a slide show, and what to call things.
#[derive(Clone, Debug, PartialEq, Eq)]
pub struct SlideshowPlan {
    pub audio_url: String,
    pub image_urls: Vec<String>,
    /// The name of the folder to work in.
    pub folder_name: String,
    /// The name under which the video is handed out.
    pub filename: String,
}

/// Why there is no slide show.
#[derive(Clone, Copy, Debug, PartialEq, Eq, Structural)]
pub enum SlideshowError {
    /// The source is no post of still images.
    NotImagePost,
    /// The post has no sound with an address.
    NoAudio,
    /// There are no images to show.
    NoImagePaths,
    /// The images are too many for the length of the video to be written down.
    TooLong,
}

impl SlideshowError {
    /// What the client is told.
    pub fn message(&self) -> (text: &'static str)
        ensures
            text@ == (match *self {
                SlideshowError::NotImagePost => "Only image posts are supported"@,
                SlideshowError::NoAudio => "Could not find audio URL"@,
                SlideshowError::NoImagePaths => "No image paths provided"@,
                SlideshowError::TooLong => "Too many images"@,
            }),
    {
        match self {
            SlideshowError::NotImagePost => "Only image posts are supported",
            SlideshowError::NoAudio => "Could not find audio URL",
            SlideshowError::NoImagePaths => "No image paths provided",
            SlideshowError::TooLong => "Too many images",
        }
    }
}

/// The addresses of the still images of a post that have one, in order.
pub open spec fn image_urls(formats: Seq<RawFormat>) -> Seq<Seq<char>>
    decreases formats.len(),
{
    if formats.len() == 0 {
        Seq::empty()
    } else {
        let rest = image_urls(formats.drop_last());
        match formats.last().url {
            Some(url) => if is_post_image(formats.last()) {
                rest.push(url@)
            } else {
                rest
            },
            None => rest,
        }
    }
}

/// What to call the author in a file name: the uploader, else the channel, else `unknown`.
pub open spec fn author_label(data: MediaInfo) -> Seq<char> {
    match data.uploader {
        Some(name) => name@,
        None => text_or(data.channel, "unknown"@),
    }
}

/// The name of the folder to work in, for a slide show begun at the millisecond `now_ms`.
pub open spec fn folder_name_of(data: MediaInfo, now_ms: u64) -> Seq<char> {
    text_or(data.id, "unknown"@) + "_"@ + text_or(data.uploader_id, "unknown"@) + "_"@
        + ascii_chars(decimal(now_ms as nat))
}

/// The name under which the video is handed out.
pub open spec fn slideshow_filename(data: MediaInfo, now_ms: u64) -> Seq<char> {
    sanitized(author_label(data)) + "_"@ + ascii_chars(decimal(now_ms as nat)) + ".mp4"@
}

/// The arguments that name the images as inputs, each shown for `seconds`.
pub open spec fn image_inputs(paths: Seq<String>, seconds: Seq<char>) -> Seq<Seq<char>>
    decreases paths.len(),
{
    if paths.len() == 0 {
        Seq::empty()
    } else {
        image_inputs(paths.drop_last(), seconds) + seq![
            "-loop"@,
            "1"@,
            "-t"@,
            seconds,
            "-i"@,
            paths.last()@,
        ]
    }
}

/// The filter that fits picture number `i` into the frame.
pub open spec fn fit_filter(i: nat) -> Seq<char> {
    "["@ + ascii_chars(decimal(i))
        + ":v]scale=w=1080:h=1920:force_original_aspect_ratio=decrease,pad=1080:1920:(ow-iw)/2:(oh-ih)/2:color=black,setsar=1[v"@
        + ascii_chars(decimal(i)) + "];"@
}

/// The filters that fit the first `n` pictures into the frame.
pub open spec fn fit_filters(n: nat) -> Seq<char>
    decreases n,
{
    if n == 0 {
        Seq::empty()
    } else {
        fit_filters((n - 1) as nat) + fit_filter((n - 1) as nat)
    }
}

/// The names of the first `n` fitted pictures.
pub open spec fn fitted_names(n: nat) -> Seq<char>
    decreases n,
{
    if n == 0 {
        Seq::empty()
    } else {
        fitted_names((n - 1) as nat) + "[v"@ + ascii_chars(decimal((n - 1) as nat)) + "]"@
    }
}

/// The whole filter for `n` pictures and a video of `length` seconds.
pub open spec fn filter_complex(n: nat, length: nat) -> Seq<char> {
    fit_filters(n) + fitted_names(n) + "concat=n="@ + ascii_chars(decimal(n)) + ":v=1:a=0[vout];["@
        + ascii_chars(decimal(n)) + ":a]atrim=0:"@ + ascii_chars(decimal(length)) + "[aout]"@
}

/// The arguments for the tool.
pub open spec fn tool_arguments(
    paths: Seq<String>,
    audio_path: Seq<char>,
    output_path: Seq<char>,
    seconds: u32,
) -> Seq<Seq<char>> {
    seq!["-y"@] + image_inputs(paths, ascii_chars(decimal(seconds as nat))) + seq![
        "-stream_loop"@,
        "-1"@,
        "-i"@,
        audio_path,
        "-filter_complex"@,
        filter_complex(paths.len(), paths.len() * seconds as nat),
        "-map"@,
        "[vout]"@,
        "-map"@,
        "[aout]"@,
        "-pix_fmt"@,
        "yuv420p"@,
        "-fps_mode"@,
        "cfr"@,
        "-c:v"@,
        "libx264"@,
        "-preset"@,
        "medium"@,
        "-crf"@,
        "23"@,
        "-c:a"@,
        "aac"@,
        output_path,
    ]
}

/// The addresses of the still images of a post that have one.
pub fn image_urls_of(formats: &Vec<RawFormat>) -> (urls: Vec<String>)
    ensures
        texts(urls@) == image_urls(formats@),
{
    let mut urls: Vec<String> = Vec::new();
    let mut i: usize = 0;
    assert(formats@.take(0) =~= Seq::<RawFormat>::empty());
    assert(texts(urls@) =~= Seq::<Seq<char>>::empty());
    while i < formats.len()
        invariant
            0 <= i <= formats@.len(),
            texts(urls@) == image_urls(formats@.take(i as int)),
        decreases formats@.len() - i,
    {
        let ghost longer = formats@.take(i + 1);
        let ghost before = urls@;
        assert(longer.drop_last() =~= formats@.take(i as int));
        assert(longer.last() == formats@[i as int]);
        match &formats[i].url {
            Some(url) => {
                if is_image_format(&formats[i]) {
                    urls.push(url.clone());
                    assert(texts(urls@) =~= texts(before).push(url@));
                }
            },
            None => {},
        }
        i = i + 1;
    }
    assert(formats@.take(i as int) =~= formats@);
    urls
}

/// What to fetch for the slide show of a post, begun at the millisecond `now_ms`.
///
/// There is a slide show for a post of still images that has sound with an
/// address, and for nothing else.
pub fn plan_slideshow(data: &MediaInfo, now_ms: u64) -> (r: Result<SlideshowPlan, SlideshowError>)
    ensures
        !is_image_post(data.formats@) ==> r == Err::<SlideshowPlan, SlideshowError>(
            SlideshowError::NotImagePost,
        ),
        is_image_post(data.formats@) ==> (match first_wanted(data.formats@, Wanted::PostAudio) {
            Some(at) => if text_or(data.formats@[at].url, ""@).len() > 0 {
                &&& r matches Ok(plan)
                &&& plan.audio_url@ == text_or(data.formats@[at].url, ""@)
                &&& texts(plan.image_urls@) == image_urls(data.formats@)
                &&& plan.folder_name@ == folder_name_of(*data, now_ms)
                &&& plan.filename@ == slideshow_filename(*data, now_ms)
            } else {
                r == Err::<SlideshowPlan, SlideshowError>(SlideshowError::NoAudio)
            },
            None => r == Err::<SlideshowPlan, SlideshowError>(SlideshowError::NoAudio),
        }),
{
    if !has_images(&data.formats) {
        return Err(SlideshowError::NotImagePost);
    }
    let audio_url: String = match find_wanted(&data.formats, Wanted::PostAudio) {
        Some(at) => {
            let url = or_text(&data.formats[at].url, "");
            if is_empty(url) {
                return Err(SlideshowError::NoAudio);
            }
            url.to_owned()
        },
        None => {
            return Err(SlideshowError::NoAudio);
        },
    };
    let stamp = decimal_string(now_ms);
    let mut folder_name: String = or_text(&data.id, "unknown").to_owned();
    folder_name.append("_");
    folder_name.append(or_text(&data.uploader_id, "unknown"));
    folder_name.append("_");
    folder_name.append(stamp.as_str());
    let author: &str = match &data.uploader {
        Some(name) => name.as_str(),
        None => or_text(&data.channel, "unknown"),
    };
    let mut filename = sanitize(author);
    filename.append("_");
    filename.append(stamp.as_str());
    filename.append(".mp4");
    Ok(
        SlideshowPlan {
            audio_url,
            image_urls: image_urls_of(&data.formats),
            folder_name,
            filename,
        },
    )
}

/// The whole filter for `n` pictures and a video of `length` seconds.
pub fn build_filter(n: usize, length: u64) -> (filter: String)
    ensures
        filter@ == filter_complex(n as nat, length as nat),
{
    let mut fits: String = String::new();
    let mut names: String = String::new();
    let mut i: usize = 0;
    while i < n
        invariant
            0 <= i <= n,
            fits@ == fit_filters(i as nat),
            names@ == fitted_names(i as nat),
        decreases n - i,
    {
        let digits = decimal_string(i as u64);
        fits.append("[");
        fits.append(digits.as_str());
        fits.append(
            ":v]scale=w=1080:h=1920:force_original_aspect_ratio=decrease,pad=1080:1920:(ow-iw)/2:(oh-ih)/2:color=black,setsar=1[v",
        );
        fits.append(digits.as_str());
        fits.append("];");
        names.append("[v");
        names.append(digits.as_str());
        names.append("]");
        assert(fits@ =~= fit_filters(i as nat) + fit_filter(i as nat));
        i = i + 1;
    }
    let count = decimal_string(n as u64);
    let mut filter = fits;
    filter.append(names.as_str());
    filter.append("concat=n=");
    filter.append(count.as_str());
    filter.append(":v=1:a=0[vout];[");
    filter.append(count.as_str());
    filter.append(":a]atrim=0:");
    filter.append(decimal_string(length).as_str());
    filter.append("[aout]");
    filter
}

/// The arguments for the tool that makes one video of the images at
/// `image_paths` and the sound at `audio_path`, each image shown for
/// `duration_per_image` seconds.
pub fn create_slideshow(
    image_paths: &Vec<String>,
    audio_path: &str,
    output_path: &str,
    duration_per_image: u32,
) -> (r: Result<Vec<String>, SlideshowError>)
    ensures
        image_paths@.len() == 0 ==> r == Err::<Vec<String>, SlideshowError>(
            SlideshowError::NoImagePaths,
        ),
        image_paths@.len() > 0 && image_paths@.len() * duration_per_image > u64::MAX ==> r
            == Err::<Vec<String>, SlideshowError>(SlideshowError::TooLong),
        image_paths@.len() > 0 && image_paths@.len() * duration_per_image <= u64::MAX ==> {
            &&& r matches Ok(arguments)
            &&& texts(arguments@) == tool_arguments(
                image_paths@,
                audio_path@,
                output_path@,
                duration_per_image,
            )
        },
{
    let n: usize = image_paths.len();
    if n == 0 {
        return Err(SlideshowError::NoImagePaths);
    }
    let length: u64 = match (n as u64).checked_mul(duration_per_image as u64) {
        Some(length) => length,
        None => {
            return Err(SlideshowError::TooLong);
        },
    };
    let seconds = decimal_string(duration_per_image as u64);
    let mut arguments: Vec<String> = Vec::new();
    arguments.push("-y".to_owned());
    let ghost head = texts(arguments@);
    assert(head =~= seq!["-y"@]);
    let mut i: usize = 0;
    assert(image_paths@.take(0) =~= Seq::<String>::empty());
    assert(texts(arguments@) =~= head + image_inputs(image_paths@.take(0), seconds@));
    while i < n
        invariant
            n == image_paths@.len(),
            0 <= i <= n,
            head == seq!["-y"@],
            texts(arguments@) == head + image_inputs(image_paths@.take(i as int), seconds@),
        decreases n - i,
    {
        let ghost longer = image_paths@.take(i + 1);
        let ghost before = texts(arguments@);
        assert(longer.drop_last() =~= image_paths@.take(i as int));
        assert(longer.last() == image_paths@[i as int]);
        arguments.push("-loop".to_owned());
        arguments.push("1".to_owned());
        arguments.push("-t".to_owned());
        arguments.push(seconds.clone());
        arguments.push("-i".to_owned());
        arguments.push(image_paths[i].clone());
        assert(texts(arguments@) =~= before + seq![
            "-loop"@,
            "1"@,
            "-t"@,
            seconds@,
            "-i"@,
            image_paths@[i as int]@,
        ]);
        i = i + 1;
    }
    assert(image_paths@.take(i as int) =~= image_paths@);
    let ghost inputs = texts(arguments@);
    let filter = build_filter(n, length);
    arguments.push("-stream_loop".to_owned());
    arguments.push("-1".to_owned());
    arguments.push("-i".to_owned());
    arguments.push(audio_path.to_owned());
    arguments.push("-filter_complex".to_owned());
    arguments.push(filter);
    arguments.push("-map".to_owned());
    arguments.push("[vout]".to_owned());
    arguments.push("-map".to_owned());
    arguments.push("[aout]".to_owned());
    arguments.push("-pix_fmt".to_owned());
    arguments.push("yuv420p".to_owned());
    arguments.push("-fps_mode".to_owned());
    arguments.push("cfr".to_owned());
    arguments.push("-c:v".to_owned());
    arguments.push("libx264".to_owned());
    arguments.push("-preset".to_owned());
    arguments.push("medium".to_owned());
    arguments.push("-crf".to_owned());
    arguments.push("23".to_owned());
    arguments.push("-c:a".to_owned());
    arguments.push("aac".to_owned());
    arguments.push(output_path.to_owned());
    assert(texts(arguments@) =~= tool_arguments(
        image_paths@,
        audio_path@,
        output_path@,
        duration_per_image,
    ));
    Ok(arguments)
}

} // verus!
