//! Sorting the variants of a media item into what a client can choose from.
//!
//! The extractor lists whatever the source offers, often the same picture
//! several times over. From that list come three: video, sound, and still
//! images. A variant is told by its address, its codecs and its size; of
//! several that a client could not tell apart the first is kept; and each list
//! is put in the order in which a client would want it, best first.

use crate::media::{Bitrate, RawFormat};
use crate::sorting::{
    items_of, lemma_placed_relabel, paired, place, placed, ranked, relabel, rising,
};
use crate::text::{
    all_digits, ascii_chars, contains, contains_bytes, decimal, digits_value, has_prefix, is_digit,
    is_empty, join3, lowercase, number_or, occurs_at, or_number, or_text, parse_decimal,
    signed_decimal, signed_decimal_string, starts_with, str_eq, text_or, to_lowercase,
    to_uppercase, uppercase,
};
use regex_lite::Regex;
use vstd::prelude::*;
use vstd::slice::slice_subrange;
use vstd::string::StringExecFns;
use vstd::utf8::*;

verus! {

/// A variant as a client sees it.
#[derive(Clone, Debug, PartialEq, Eq)]
pub struct VideoFormat {
    pub quality: String,
    pub resolution: String,
    pub url: String,
    pub size_bytes: Option<i64>,
    pub format_id: String,
}

/// The texts and numbers of a `VideoFormat`.
pub struct FormatView {
    pub quality: Seq<char>,
    pub resolution: Seq<char>,
    pub url: Seq<char>,
    pub size_bytes: Option<i64>,
    pub format_id: Seq<char>,
}

impl View for VideoFormat {
    type V = FormatView;

    open spec fn view(&self) -> FormatView {
        FormatView {
            quality: self.quality@,
            resolution: self.resolution@,
            url: self.url@,
            size_bytes: self.size_bytes,
            format_id: self.format_id@,
        }
    }
}

/// What a variant is taken for.
#[derive(Clone, Copy, Debug, PartialEq, Eq, Structural)]
pub enum Kind {
    /// Nothing that a client could use: it has no address, or fits no kind.
    Skipped,
    /// A still image.
    Image,
    /// Sound alone.
    Audio,
    /// Picture and sound in one file, fetched in one piece.
    Progressive,
    /// Picture from a segmented stream.
    Hls,
}

/// The views of a list of variants.
pub open spec fn views(list: Seq<VideoFormat>) -> Seq<FormatView> {
    Seq::new(list.len(), |i: int| list[i]@)
}

/// True when the variant is fetched over plain HTTP: its protocol says so, or
/// its address begins with `http` and names no play list.
pub open spec fn is_http(r: RawFormat) -> bool {
    let url = encode_utf8(text_or(r.url, ""@));
    text_or(r.protocol, ""@) == "https"@ || (has_prefix(url, encode_utf8("http"@))
        && !contains_bytes(url, encode_utf8(".m3u8"@)))
}

/// True when the variant is a segmented stream: its address names a play
/// list, or its protocol says so.
pub open spec fn is_hls(r: RawFormat) -> bool {
    is_hls_given(r, lowercase(text_or(r.url, ""@)))
}

/// True when a variant whose address in lower case is `url` is a segmented stream.
pub open spec fn is_hls_given(r: RawFormat, url: Seq<char>) -> bool {
    let protocol = text_or(r.protocol, ""@);
    contains_bytes(encode_utf8(url), encode_utf8(".m3u8"@)) || protocol == "m3u8"@ || protocol
        == "m3u8_native"@
}

/// The texts of a variant that are read without regard to case, in lower case.
pub struct LowerCased {
    /// The address.
    pub url: String,
    /// The picture codec, `none` where the variant names no codec.
    pub vcodec: String,
    /// The file extension.
    pub video_ext: String,
    /// The name of the variant.
    pub format_id: String,
}

/// The texts of a variant in lower case, as sequences.
pub struct LowerCasedView {
    pub url: Seq<char>,
    pub vcodec: Seq<char>,
    pub video_ext: Seq<char>,
    pub format_id: Seq<char>,
}

impl View for LowerCased {
    type V = LowerCasedView;

    open spec fn view(&self) -> LowerCasedView {
        LowerCasedView {
            url: self.url@,
            vcodec: self.vcodec@,
            video_ext: self.video_ext@,
            format_id: self.format_id@,
        }
    }
}

/// The texts of `r` that are read without regard to case, in lower case.
pub open spec fn lower_cased(r: RawFormat) -> LowerCasedView {
    LowerCasedView {
        url: lowercase(text_or(r.url, ""@)),
        vcodec: lowercase(text_or(r.vcodec, "none"@)),
        video_ext: lowercase(text_or(r.video_ext, ""@)),
        format_id: lowercase(text_or(r.format_id, ""@)),
    }
}

/// True for the file extensions of still images.
pub open spec fn is_image_ext(ext: Seq<char>) -> bool {
    ext == "jpg"@ || ext == "jpeg"@ || ext == "png"@ || ext == "webp"@ || ext == "gif"@
}

/// True when the variant has no picture codec.
pub open spec fn no_picture(r: RawFormat) -> bool {
    lowercase(text_or(r.vcodec, "none"@)) == "none"@
}

/// True when a variant with the file extension `ext`, in lower case, is a
/// still image that is fetched over plain HTTP.
pub open spec fn is_still_given(r: RawFormat, ext: Seq<char>) -> bool {
    is_image_ext(ext) && is_http(r)
}

/// What the variant is taken for. An image is told by its file extension,
/// sound by the lack of a picture codec together with a name or resolution
/// that says so, and video by its height.
pub open spec fn kind_of(r: RawFormat) -> Kind {
    kind_given(r, lower_cased(r))
}

/// What a variant is taken for whose texts in lower case are `lower`.
pub open spec fn kind_given(r: RawFormat, lower: LowerCasedView) -> Kind {
    let bare = lower.vcodec == "none"@;
    let audio = bare && (contains_bytes(encode_utf8(lower.format_id), encode_utf8("audio"@))
        || text_or(r.resolution, ""@) == "audio only"@);
    let height = number_or(r.height, 0);
    if text_or(r.url, ""@).len() == 0 {
        Kind::Skipped
    } else if is_still_given(r, lower.video_ext) {
        Kind::Image
    } else if audio {
        Kind::Audio
    } else if is_http(r) && height > 0 {
        Kind::Progressive
    } else if is_hls_given(r, lower.url) && !bare && height > 0 {
        Kind::Hls
    } else {
        Kind::Skipped
    }
}

/// True when `audio-` and a digit stand in `text` at `at`.
pub open spec fn audio_tag_at(text: Seq<u8>, at: int) -> bool {
    occurs_at(text, encode_utf8("audio-"@), at) && at + 6 < text.len() && is_digit(text[at + 6])
}

/// True when `at` is the first place in `text` where `audio-` and a digit stand.
pub open spec fn first_audio_tag(text: Seq<u8>, at: int) -> bool {
    audio_tag_at(text, at) && forall|k: int| 0 <= k < at ==> !audio_tag_at(text, k)
}

/// True when the digits that begin at `from` end before `end`.
pub open spec fn digits_end(text: Seq<u8>, from: int, end: int) -> bool {
    &&& from <= end <= text.len()
    &&& all_digits(text.subrange(from, end))
    &&& (end == text.len() || !is_digit(text[end]))
}

/// The digits behind the first `audio-` in `text` that digits follow: all of
/// them, up to the first byte that is no digit.
pub open spec fn tagged_digits(text: Seq<u8>) -> Option<Seq<u8>> {
    if exists|at: int| audio_tag_at(text, at) {
        let at = choose|at: int| first_audio_tag(text, at);
        let from = at + 6;
        let end = choose|end: int| digits_end(text, from, end);
        Some(text.subrange(from, end))
    } else {
        None
    }
}

/// The rate in whole kilobits a second that a run of digits announces in bits
/// a second, and nothing where the digits are all zero or are no digits.
pub open spec fn rate_of_digits(digits: Seq<u8>) -> Option<int> {
    if !all_digits(digits) || digits_value(digits) == 0 {
        None
    } else if digits_value(digits) / 1000 > i64::MAX {
        Some(i64::MAX as int)
    } else {
        Some(digits_value(digits) as int / 1000)
    }
}

/// The rate of a variant of sound in kilobits a second: the one that it
/// announces, or else the one that its name carries behind `audio-`.
pub open spec fn audio_rate(r: RawFormat) -> Option<int> {
    match r.bitrate {
        Bitrate::Kbps(v) => Some(v as int),
        Bitrate::Unusable => None,
        Bitrate::Missing => match tagged_digits(
            encode_utf8(lowercase(text_or(r.format_id, ""@))),
        ) {
            Some(digits) => rate_of_digits(digits),
            None => None,
        },
    }
}

/// The size of a variant in bytes: the exact one where it is known, else the estimate.
pub open spec fn size_of(r: RawFormat) -> Option<i64> {
    match r.filesize {
        Some(n) => Some(n),
        None => r.filesize_approx,
    }
}

/// Width and height as `WxH` where both are known, else the resolution as announced.
pub open spec fn dimensions(r: RawFormat) -> Seq<char> {
    let width = number_or(r.width, 0);
    let height = number_or(r.height, 0);
    if width > 0 && height > 0 {
        ascii_chars(decimal(width as nat)) + "x"@ + ascii_chars(decimal(height as nat))
    } else {
        text_or(r.resolution, ""@)
    }
}

/// The label of a variant, by its kind.
pub open spec fn label(r: RawFormat, kind: Kind) -> Seq<char> {
    let height = number_or(r.height, 0);
    match kind {
        Kind::Image => if text_or(r.format_id, ""@).len() == 0 {
            "IMAGE"@
        } else {
            uppercase(text_or(r.format_id, ""@))
        },
        Kind::Audio => match audio_rate(r) {
            Some(rate) => ascii_chars(signed_decimal(rate)) + "kbps"@,
            None => "audio"@,
        },
        Kind::Progressive => ascii_chars(signed_decimal(height as int)) + "p (progressive)"@,
        _ => ascii_chars(signed_decimal(height as int)) + "p (hls)"@,
    }
}

/// The variant as a client sees it, by its kind.
pub open spec fn described(r: RawFormat, kind: Kind) -> FormatView {
    FormatView {
        quality: label(r, kind),
        resolution: if kind == Kind::Audio {
            "audio only"@
        } else {
            dimensions(r)
        },
        url: text_or(r.url, ""@),
        size_bytes: size_of(r),
        format_id: text_or(r.format_id, ""@),
    }
}

/// The place of an image in the order of sizes: the full-size one first, then
/// large, medium, small and thumb, then any other.
pub open spec fn image_rank(quality: Seq<char>) -> int {
    image_rank_given(lowercase(quality))
}

/// The place in the order of sizes of an image that is called `name`, in lower case.
pub open spec fn image_rank_given(name: Seq<char>) -> int {
    if name == "orig"@ {
        0
    } else if name == "large"@ {
        1
    } else if name == "medium"@ {
        2
    } else if name == "small"@ {
        3
    } else if name == "thumb"@ {
        4
    } else {
        5
    }
}

/// The rank of a variant in the list of its kind: the lower, the better.
/// Video goes by height and sound by rate, the larger first.
pub open spec fn rank_of(r: RawFormat, kind: Kind) -> int {
    match kind {
        Kind::Image => image_rank(label(r, Kind::Image)),
        Kind::Audio => match audio_rate(r) {
            Some(rate) => -rate,
            None => 0,
        },
        _ => -(number_or(r.height, 0) as int),
    }
}

/// True when a client could not tell two variants of one kind apart: images
/// of one size under one name, sound of one rate, video of one height.
pub open spec fn alike(a: RawFormat, b: RawFormat, kind: Kind) -> bool {
    match kind {
        Kind::Image => number_or(a.width, 0) == number_or(b.width, 0) && number_or(a.height, 0)
            == number_or(b.height, 0) && text_or(a.format_id, ""@) == text_or(b.format_id, ""@),
        Kind::Audio => audio_rate(a) == audio_rate(b),
        _ => number_or(a.height, 0) == number_or(b.height, 0),
    }
}

/// What each variant of a list is taken for, place by place.
pub open spec fn kinds_of(formats: Seq<RawFormat>) -> Seq<Kind> {
    Seq::new(formats.len(), |i: int| kind_of(formats[i]))
}

/// The kind at the place `at` of `kinds`, and `Skipped` where it has no such place.
pub open spec fn kind_at(kinds: Seq<Kind>, at: int) -> Kind {
    if 0 <= at < kinds.len() {
        kinds[at]
    } else {
        Kind::Skipped
    }
}

/// True when a variant like the one at `at` stands before it in the list,
/// where `kinds` says what each variant is taken for.
pub open spec fn is_repeat_given(formats: Seq<RawFormat>, kinds: Seq<Kind>, at: int) -> bool {
    exists|j: int|
        0 <= j < at && #[trigger] kind_at(kinds, j) == kind_at(kinds, at) && alike(
            formats[j],
            formats[at],
            kind_at(kinds, at),
        )
}

/// The variants of `kind` in `formats`, each the first of its like, with
/// their ranks, in the order in which they come, where `kinds` says what
/// each variant is taken for.
pub open spec fn picked_given(formats: Seq<RawFormat>, kinds: Seq<Kind>, kind: Kind) -> Seq<
    (int, FormatView),
>
    decreases formats.len(),
{
    if formats.len() == 0 {
        Seq::empty()
    } else {
        let rest = picked_given(formats.drop_last(), kinds, kind);
        let last = formats.last();
        if kind_at(kinds, formats.len() - 1) == kind && !is_repeat_given(
            formats,
            kinds,
            formats.len() - 1,
        ) {
            rest.push((rank_of(last, kind), described(last, kind)))
        } else {
            rest
        }
    }
}

/// The list of the variants of `kind` that a client is shown: each the first
/// of its like, best first, and in the order of the extractor among equals.
pub open spec fn listed(formats: Seq<RawFormat>, kind: Kind) -> Seq<FormatView> {
    listed_given(formats, kinds_of(formats), kind)
}

/// The list of the variants of `kind` that a client is shown, where `kinds`
/// says what each variant is taken for.
pub open spec fn listed_given(formats: Seq<RawFormat>, kinds: Seq<Kind>, kind: Kind) -> Seq<
    FormatView,
> {
    items_of(ranked(picked_given(formats, kinds, kind)))
}

/// Calls `Regex::new` and `Regex::captures` of the `regex-lite` crate, with
/// the pattern `audio-(\d+)`, and gives what the group has caught.
///
/// Trusted: the crate finds the leftmost match, `\d` stands for the ASCII
/// digits alone, and `+` takes as many as there are. So the result is the
/// whole run of digits behind the first `audio-` that a digit follows. The
/// pattern is one that the crate accepts, so the error of `Regex::new` never comes.
#[verifier::external_body]
pub(crate) fn audio_digits(text: &str) -> (r: Option<String>)
    ensures
        match r {
            Some(digits) => tagged_digits(encode_utf8(text@)) == Some(encode_utf8(digits@)),
            None => tagged_digits(encode_utf8(text@)) is None,
        },
{
    match Regex::new(r"audio-(\d+)") {
        Ok(pattern) => pattern.captures(text).map(|found| found[1].to_string()),
        Err(_) => None,
    }
}

proof fn lemma_value_without_last(s: Seq<u8>)
    requires
        s.len() > 0,
        all_digits(s),
    ensures
        digits_value(s) / 10 == digits_value(s.drop_last()),
        all_digits(s.drop_last()),
{
    assert(is_digit(s.last()));
    assert forall|i: int| 0 <= i < s.drop_last().len() implies is_digit(
        #[trigger] s.drop_last()[i],
    ) by {
        assert(s.drop_last()[i] == s[i]);
    }
}

/// Dropping the last three digits of a number divides it by a thousand.
proof fn lemma_value_thousands(s: Seq<u8>)
    requires
        all_digits(s),
    ensures
        s.len() >= 3 ==> digits_value(s) / 1000 == digits_value(s.take(s.len() - 3)),
        s.len() < 3 ==> digits_value(s) / 1000 == 0,
        digits_value(s) == 0 <==> forall|i: int| 0 <= i < s.len() ==> s[i] == 48,
    decreases s.len(),
{
    if s.len() > 0 {
        let a = s.drop_last();
        lemma_value_without_last(s);
        lemma_value_thousands(a);
        assert(is_digit(s.last()));
        assert(digits_value(s) == 0 <==> forall|i: int| 0 <= i < s.len() ==> s[i] == 48) by {
            if digits_value(s) == 0 {
                assert(digits_value(a) == 0 && s.last() == 48);
                assert forall|i: int| 0 <= i < s.len() implies s[i] == 48 by {
                    if i < a.len() {
                        assert(a[i] == s[i]);
                    }
                }
            }
            if forall|i: int| 0 <= i < s.len() ==> s[i] == 48 {
                assert forall|i: int| 0 <= i < a.len() implies a[i] == 48 by {
                    assert(a[i] == s[i]);
                }
                assert(s.last() == s[s.len() - 1]);
            }
        }
        if a.len() > 0 {
            let b = a.drop_last();
            lemma_value_without_last(a);
            if b.len() > 0 {
                let c = b.drop_last();
                lemma_value_without_last(b);
                assert(c =~= s.take(s.len() - 3));
                assert(digits_value(s) / 1000 == digits_value(s) / 10 / 10 / 10);
            } else {
                assert(digits_value(b) == 0);
            }
        }
    }
}

/// The rate in whole kilobits a second that a run of digits announces.
pub fn rate_from_digits(digits: &[u8]) -> (r: Option<i64>)
    ensures
        match r {
            Some(rate) => rate_of_digits(digits@) == Some(rate as int),
            None => rate_of_digits(digits@) is None,
        },
{
    let n: usize = digits.len();
    let mut all_zero: bool = true;
    let mut i: usize = 0;
    while i < n
        invariant
            n == digits@.len(),
            0 <= i <= n,
            forall|j: int| 0 <= j < i ==> is_digit(#[trigger] digits@[j]),
            all_zero <==> forall|j: int| 0 <= j < i ==> digits@[j] == 48,
        decreases n - i,
    {
        if digits[i] < 48 || digits[i] > 57 {
            assert(!is_digit(digits@[i as int]));
            return None;
        }
        if digits[i] != 48 {
            all_zero = false;
        }
        i = i + 1;
    }
    proof {
        lemma_value_thousands(digits@);
    }
    if all_zero {
        return None;
    }
    if n <= 3 {
        return Some(0);
    }
    let thousands = slice_subrange(digits, 0, n - 3);
    assert(thousands@ =~= digits@.take(n - 3));
    assert(all_digits(thousands@)) by {
        assert forall|j: int| 0 <= j < thousands@.len() implies is_digit(
            #[trigger] thousands@[j],
        ) by {
            assert(thousands@[j] == digits@[j]);
        }
    }
    assert(thousands@[0] != 43) by {
        assert(is_digit(thousands@[0]));
    }
    match parse_decimal(thousands) {
        Some(value) => {
            if value > i64::MAX as u64 {
                Some(i64::MAX)
            } else {
                Some(value as i64)
            }
        },
        None => Some(i64::MAX),
    }
}

/// The rate of a variant of sound in kilobits a second.
pub fn rate_of(r: &RawFormat) -> (rate: Option<i64>)
    ensures
        match rate {
            Some(v) => audio_rate(*r) == Some(v as int),
            None => audio_rate(*r) is None,
        },
{
    match r.bitrate {
        Bitrate::Kbps(v) => Some(v),
        Bitrate::Unusable => None,
        Bitrate::Missing => {
            let lower = to_lowercase(or_text(&r.format_id, ""));
            match audio_digits(lower.as_str()) {
                Some(digits) => {
                    let bytes = digits.as_str().as_bytes();
                    proof {
                        lemma_tagged_are_digits(encode_utf8(lower@));
                    }
                    rate_from_digits(bytes)
                },
                None => None,
            }
        },
    }
}

/// What the pattern catches are digits.
proof fn lemma_tagged_are_digits(text: Seq<u8>)
    ensures
        tagged_digits(text) matches Some(digits) ==> all_digits(digits),
{
    if exists|at: int| audio_tag_at(text, at) {
        let witness = choose|at: int| audio_tag_at(text, at);
        lemma_first_tag_exists(text, witness);
        let at = choose|at: int| first_audio_tag(text, at);
        assert(first_audio_tag(text, at));
        let from = at + 6;
        lemma_run_from(text, from, from);
        let end = choose|end: int| digits_end(text, from, end);
        assert(digits_end(text, from, end));
    }
}

proof fn lemma_first_tag_exists(text: Seq<u8>, at: int)
    requires
        audio_tag_at(text, at),
    ensures
        exists|first: int| first_audio_tag(text, first),
    decreases at,
{
    if exists|k: int| 0 <= k < at && audio_tag_at(text, k) {
        let k = choose|k: int| 0 <= k < at && audio_tag_at(text, k);
        lemma_first_tag_exists(text, k);
    } else {
        assert(first_audio_tag(text, at));
    }
}

proof fn lemma_run_from(text: Seq<u8>, from: int, upto: int)
    requires
        0 <= from <= upto <= text.len(),
        all_digits(text.subrange(from, upto)),
    ensures
        exists|end: int| digits_end(text, from, end),
    decreases text.len() - upto,
{
    if upto == text.len() || !is_digit(text[upto]) {
        assert(digits_end(text, from, upto));
    } else {
        let longer = text.subrange(from, upto + 1);
        assert forall|i: int| 0 <= i < longer.len() implies is_digit(#[trigger] longer[i]) by {
            if i < upto - from {
                assert(longer[i] == text.subrange(from, upto)[i]);
            }
        }
        lemma_run_from(text, from, upto + 1);
    }
}

/// True when the variant is fetched over plain HTTP.
pub fn fetched_over_http(r: &RawFormat) -> (b: bool)
    ensures
        b == is_http(*r),
{
    let url = or_text(&r.url, "");
    str_eq(or_text(&r.protocol, ""), "https") || (starts_with(url, "http") && !contains(
        url,
        ".m3u8",
    ))
}

/// True when the variant is a segmented stream.
pub fn fetched_as_hls(r: &RawFormat) -> (b: bool)
    ensures
        b == is_hls(*r),
{
    let lower = to_lowercase(or_text(&r.url, ""));
    fetched_as_hls_given(r, lower.as_str())
}

/// True when a variant whose address in lower case is `url` is a segmented stream.
pub fn fetched_as_hls_given(r: &RawFormat, url: &str) -> (b: bool)
    ensures
        b == is_hls_given(*r, url@),
{
    let protocol = or_text(&r.protocol, "");
    contains(url, ".m3u8") || str_eq(protocol, "m3u8") || str_eq(protocol, "m3u8_native")
}

/// True when the variant has no picture codec.
pub fn has_no_picture(r: &RawFormat) -> (b: bool)
    ensures
        b == no_picture(*r),
{
    let lower = to_lowercase(or_text(&r.vcodec, "none"));
    names_no_picture(lower.as_str())
}

/// True when a picture codec that is called `vcodec`, in lower case, is none.
pub fn names_no_picture(vcodec: &str) -> (b: bool)
    ensures
        b == (vcodec@ == "none"@),
{
    str_eq(vcodec, "none")
}

/// True when the variant is a still image that is fetched over plain HTTP.
pub fn is_still_image(r: &RawFormat) -> (b: bool)
    ensures
        b == (is_image_ext(lowercase(text_or(r.video_ext, ""@))) && is_http(*r)),
{
    let ext = to_lowercase(or_text(&r.video_ext, ""));
    is_still_image_given(r, ext.as_str())
}

/// True when a variant with the file extension `e`, in lower case, is a
/// still image that is fetched over plain HTTP.
pub fn is_still_image_given(r: &RawFormat, e: &str) -> (b: bool)
    ensures
        b == is_still_given(*r, e@),
{
    (str_eq(e, "jpg") || str_eq(e, "jpeg") || str_eq(e, "png") || str_eq(e, "webp") || str_eq(
        e,
        "gif",
    )) && fetched_over_http(r)
}

/// The texts of the variant that are read without regard to case, in lower case.
pub fn lower_case(r: &RawFormat) -> (lower: LowerCased)
    ensures
        lower@ == lower_cased(*r),
{
    LowerCased {
        url: to_lowercase(or_text(&r.url, "")),
        vcodec: to_lowercase(or_text(&r.vcodec, "none")),
        video_ext: to_lowercase(or_text(&r.video_ext, "")),
        format_id: to_lowercase(or_text(&r.format_id, "")),
    }
}

/// What the variant is taken for.
pub fn classify(r: &RawFormat) -> (kind: Kind)
    ensures
        kind == kind_of(*r),
{
    let lower = lower_case(r);
    classify_given(r, &lower)
}

/// What a variant is taken for whose texts in lower case are `lower`.
pub fn classify_given(r: &RawFormat, lower: &LowerCased) -> (kind: Kind)
    ensures
        kind == kind_given(*r, lower@),
{
    if is_empty(or_text(&r.url, "")) {
        return Kind::Skipped;
    }
    if is_still_image_given(r, lower.video_ext.as_str()) {
        return Kind::Image;
    }
    let bare: bool = names_no_picture(lower.vcodec.as_str());
    if bare && (contains(lower.format_id.as_str(), "audio") || str_eq(
        or_text(&r.resolution, ""),
        "audio only",
    )) {
        return Kind::Audio;
    }
    let height: i64 = or_number(r.height, 0);
    if fetched_over_http(r) && height > 0 {
        return Kind::Progressive;
    }
    if fetched_as_hls_given(r, lower.url.as_str()) && !bare && height > 0 {
        return Kind::Hls;
    }
    Kind::Skipped
}

/// Width and height as `WxH` where both are known, else the resolution as announced.
pub fn dimensions_of(r: &RawFormat) -> (text: String)
    ensures
        text@ == dimensions(*r),
{
    let width: i64 = or_number(r.width, 0);
    let height: i64 = or_number(r.height, 0);
    if width > 0 && height > 0 {
        let w = crate::text::decimal_string(width as u64);
        let h = crate::text::decimal_string(height as u64);
        join3(w.as_str(), "x", h.as_str())
    } else {
        or_text(&r.resolution, "").to_owned()
    }
}

/// The label of a variant of kind `kind`.
pub fn label_of(r: &RawFormat, kind: Kind) -> (text: String)
    ensures
        text@ == label(*r, kind),
{
    match kind {
        Kind::Image => {
            let id = or_text(&r.format_id, "");
            if is_empty(id) {
                "IMAGE".to_owned()
            } else {
                to_uppercase(id)
            }
        },
        Kind::Audio => match rate_of(r) {
            Some(rate) => {
                let mut text = signed_decimal_string(rate);
                text.append("kbps");
                text
            },
            None => "audio".to_owned(),
        },
        Kind::Progressive => {
            let mut text = signed_decimal_string(or_number(r.height, 0));
            text.append("p (progressive)");
            text
        },
        _ => {
            let mut text = signed_decimal_string(or_number(r.height, 0));
            text.append("p (hls)");
            text
        },
    }
}

/// The variant as a client sees it.
pub fn describe(r: &RawFormat, kind: Kind) -> (f: VideoFormat)
    ensures
        f@ == described(*r, kind),
{
    let resolution: String = match kind {
        Kind::Audio => "audio only".to_owned(),
        _ => dimensions_of(r),
    };
    let size_bytes: Option<i64> = match r.filesize {
        Some(n) => Some(n),
        None => r.filesize_approx,
    };
    VideoFormat {
        quality: label_of(r, kind),
        resolution,
        url: or_text(&r.url, "").to_owned(),
        size_bytes,
        format_id: or_text(&r.format_id, "").to_owned(),
    }
}

/// The place of an image in the order of sizes.
pub fn image_rank_of(quality: &str) -> (rank: i128)
    ensures
        rank == image_rank(quality@),
{
    let lower = to_lowercase(quality);
    image_rank_by_name(lower.as_str())
}

/// The place in the order of sizes of an image that is called `name`, in lower case.
pub fn image_rank_by_name(name: &str) -> (rank: i128)
    ensures
        rank == image_rank_given(name@),
{
    if str_eq(name, "orig") {
        0
    } else if str_eq(name, "large") {
        1
    } else if str_eq(name, "medium") {
        2
    } else if str_eq(name, "small") {
        3
    } else if str_eq(name, "thumb") {
        4
    } else {
        5
    }
}

/// The rank of a variant in the list of its kind.
pub fn rank(r: &RawFormat, kind: Kind) -> (n: i128)
    ensures
        n == rank_of(*r, kind),
{
    match kind {
        Kind::Image => {
            let quality = label_of(r, Kind::Image);
            image_rank_of(quality.as_str())
        },
        Kind::Audio => match rate_of(r) {
            Some(rate) => -(rate as i128),
            None => 0,
        },
        _ => -(or_number(r.height, 0) as i128),
    }
}

/// True when a client could not tell two variants of one kind apart.
pub fn are_alike(a: &RawFormat, b: &RawFormat, kind: Kind) -> (same: bool)
    ensures
        same == alike(*a, *b, kind),
{
    match kind {
        Kind::Image => or_number(a.width, 0) == or_number(b.width, 0) && or_number(a.height, 0)
            == or_number(b.height, 0) && str_eq(or_text(&a.format_id, ""), or_text(&b.format_id, "")),
        Kind::Audio => {
            let ra = rate_of(a);
            let rb = rate_of(b);
            match (ra, rb) {
                (Some(x), Some(y)) => x == y,
                (None, None) => true,
                _ => false,
            }
        },
        _ => or_number(a.height, 0) == or_number(b.height, 0),
    }
}

/// The kind at the place `at` of `kinds`, and `Skipped` where it has no such place.
pub fn kind_in(kinds: &[Kind], at: usize) -> (kind: Kind)
    ensures
        kind == kind_at(kinds@, at as int),
{
    if at < kinds.len() {
        kinds[at]
    } else {
        Kind::Skipped
    }
}

/// What each variant of a list is taken for, place by place.
pub fn classify_all(formats: &[RawFormat]) -> (kinds: Vec<Kind>)
    ensures
        kinds@ == kinds_of(formats@),
{
    let mut kinds: Vec<Kind> = Vec::new();
    let mut i: usize = 0;
    while i < formats.len()
        invariant
            0 <= i <= formats@.len(),
            kinds@.len() == i,
            forall|j: int| 0 <= j < i ==> #[trigger] kinds@[j] == kind_of(formats@[j]),
        decreases formats@.len() - i,
    {
        kinds.push(classify(&formats[i]));
        i = i + 1;
    }
    assert(kinds@ =~= kinds_of(formats@));
    kinds
}

/// True when a variant like the one at `at` stands before it in the list.
fn repeats(formats: &[RawFormat], kinds: &[Kind], at: usize, kind: Kind) -> (r: bool)
    requires
        at < formats@.len(),
        kind == kind_at(kinds@, at as int),
    ensures
        r == is_repeat_given(formats@, kinds@, at as int),
{
    let mut j: usize = 0;
    while j < at
        invariant
            at < formats@.len(),
            kind == kind_at(kinds@, at as int),
            0 <= j <= at,
            forall|k: int|
                0 <= k < j ==> !(#[trigger] kind_at(kinds@, k) == kind && alike(
                    formats@[k],
                    formats@[at as int],
                    kind,
                )),
        decreases at - j,
    {
        if kind_in(kinds, j) == kind && are_alike(&formats[j], &formats[at], kind) {
            return true;
        }
        j = j + 1;
    }
    false
}

/// The ranks of a list and the views of its variants, side by side.
pub open spec fn viewed(ranks: Seq<i128>, items: Seq<VideoFormat>) -> Seq<(int, FormatView)> {
    Seq::new(items.len(), |i: int| (ranks[i] as int, items[i]@))
}

/// Puts a variant into the list of its kind, behind those that are as good or better.
fn place_viewed(ranks: &mut Vec<i128>, items: &mut Vec<VideoFormat>, n: i128, item: VideoFormat)
    requires
        old(ranks)@.len() == old(items)@.len(),
        rising(paired(old(ranks)@, old(items)@)),
    ensures
        final(ranks)@.len() == final(items)@.len(),
        rising(paired(final(ranks)@, final(items)@)),
        viewed(final(ranks)@, final(items)@) == placed(
            viewed(old(ranks)@, old(items)@),
            (n as int, item@),
        ),
{
    let ghost view_of = |f: VideoFormat| f@;
    let ghost before = paired(ranks@, items@);
    proof {
        lemma_placed_relabel(before, (n as int, item), view_of);
        assert(relabel(before, view_of) =~= viewed(ranks@, items@));
    }
    place(ranks, items, n, item);
    assert(relabel(paired(ranks@, items@), view_of) =~= viewed(ranks@, items@));
}

/// What one more variant adds to the variants of a kind.
proof fn lemma_picked_step(formats: Seq<RawFormat>, kinds: Seq<Kind>, i: int, kind: Kind)
    requires
        0 <= i < formats.len(),
    ensures
        picked_given(formats.take(i + 1), kinds, kind) == (if kind_at(kinds, i) == kind
            && !is_repeat_given(formats, kinds, i) {
            picked_given(formats.take(i), kinds, kind).push(
                (rank_of(formats[i], kind), described(formats[i], kind)),
            )
        } else {
            picked_given(formats.take(i), kinds, kind)
        }),
        ranked(picked_given(formats.take(i + 1), kinds, kind)) == (if kind_at(kinds, i) == kind
            && !is_repeat_given(formats, kinds, i) {
            placed(
                ranked(picked_given(formats.take(i), kinds, kind)),
                (rank_of(formats[i], kind), described(formats[i], kind)),
            )
        } else {
            ranked(picked_given(formats.take(i), kinds, kind))
        }),
{
    let shorter = formats.take(i);
    let longer = formats.take(i + 1);
    assert(longer.drop_last() =~= shorter);
    assert(longer.last() == formats[i]);
    assert(is_repeat_given(longer, kinds, i) == is_repeat_given(formats, kinds, i)) by {
        if is_repeat_given(longer, kinds, i) {
            let j = choose|j: int|
                0 <= j < i && #[trigger] kind_at(kinds, j) == kind_at(kinds, i) && alike(
                    longer[j],
                    longer[i],
                    kind_at(kinds, i),
                );
            assert(formats[j] == longer[j]);
        }
        if is_repeat_given(formats, kinds, i) {
            let j = choose|j: int|
                0 <= j < i && #[trigger] kind_at(kinds, j) == kind_at(kinds, i) && alike(
                    formats[j],
                    formats[i],
                    kind_at(kinds, i),
                );
            assert(formats[j] == longer[j]);
        }
    }
    if kind_at(kinds, i) == kind && !is_repeat_given(formats, kinds, i) {
        let x = (rank_of(formats[i], kind), described(formats[i], kind));
        let more = picked_given(shorter, kinds, kind).push(x);
        assert(picked_given(longer, kinds, kind) == more);
        assert(more.drop_last() =~= picked_given(shorter, kinds, kind));
        assert(more.last() == x);
    }
}

/// The three lists that a client chooses from: video, sound and still images.
///
/// In each, of several variants that a client could not tell apart the first
/// is kept. Video is the files in one piece, tallest first, and behind them
/// the segmented streams, tallest first; sound goes by rate, highest first;
/// images go by size, the full-size one first.
pub fn parse_formats(formats: &[RawFormat]) -> (lists: (
    Vec<VideoFormat>,
    Vec<VideoFormat>,
    Vec<VideoFormat>,
))
    ensures
        views(lists.0@) == listed(formats@, Kind::Progressive) + listed(formats@, Kind::Hls),
        views(lists.1@) == listed(formats@, Kind::Audio),
        views(lists.2@) == listed(formats@, Kind::Image),
{
    let kinds = classify_all(formats);
    parse_formats_given(formats, kinds.as_slice())
}

/// The three lists that a client chooses from, where `kinds` says what each
/// variant is taken for, place by place. A variant with no kind at its place
/// is left out.
pub fn parse_formats_given(formats: &[RawFormat], kinds: &[Kind]) -> (lists: (
    Vec<VideoFormat>,
    Vec<VideoFormat>,
    Vec<VideoFormat>,
))
    ensures
        views(lists.0@) == listed_given(formats@, kinds@, Kind::Progressive) + listed_given(
            formats@,
            kinds@,
            Kind::Hls,
        ),
        views(lists.1@) == listed_given(formats@, kinds@, Kind::Audio),
        views(lists.2@) == listed_given(formats@, kinds@, Kind::Image),
{
    let mut progressive: Vec<VideoFormat> = Vec::new();
    let mut progressive_ranks: Vec<i128> = Vec::new();
    let mut hls: Vec<VideoFormat> = Vec::new();
    let mut hls_ranks: Vec<i128> = Vec::new();
    let mut audio: Vec<VideoFormat> = Vec::new();
    let mut audio_ranks: Vec<i128> = Vec::new();
    let mut images: Vec<VideoFormat> = Vec::new();
    let mut image_ranks: Vec<i128> = Vec::new();
    let mut i: usize = 0;
    assert(formats@.take(0) =~= Seq::<RawFormat>::empty());
    assert(viewed(progressive_ranks@, progressive@) =~= Seq::empty());
    assert(viewed(hls_ranks@, hls@) =~= Seq::empty());
    assert(viewed(audio_ranks@, audio@) =~= Seq::empty());
    assert(viewed(image_ranks@, images@) =~= Seq::empty());
    while i < formats.len()
        invariant
            0 <= i <= formats@.len(),
            progressive_ranks@.len() == progressive@.len(),
            hls_ranks@.len() == hls@.len(),
            audio_ranks@.len() == audio@.len(),
            image_ranks@.len() == images@.len(),
            rising(paired(progressive_ranks@, progressive@)),
            rising(paired(hls_ranks@, hls@)),
            rising(paired(audio_ranks@, audio@)),
            rising(paired(image_ranks@, images@)),
            viewed(progressive_ranks@, progressive@) == ranked(
                picked_given(formats@.take(i as int), kinds@, Kind::Progressive),
            ),
            viewed(hls_ranks@, hls@) == ranked(
                picked_given(formats@.take(i as int), kinds@, Kind::Hls),
            ),
            viewed(audio_ranks@, audio@) == ranked(
                picked_given(formats@.take(i as int), kinds@, Kind::Audio),
            ),
            viewed(image_ranks@, images@) == ranked(
                picked_given(formats@.take(i as int), kinds@, Kind::Image),
            ),
        decreases formats@.len() - i,
    {
        let r = &formats[i];
        let kind = kind_in(kinds, i);
        proof {
            lemma_picked_step(formats@, kinds@, i as int, Kind::Progressive);
            lemma_picked_step(formats@, kinds@, i as int, Kind::Hls);
            lemma_picked_step(formats@, kinds@, i as int, Kind::Audio);
            lemma_picked_step(formats@, kinds@, i as int, Kind::Image);
        }
        let fresh: bool = match kind {
            Kind::Skipped => false,
            _ => !repeats(formats, kinds, i, kind),
        };
        if fresh {
            let item = describe(r, kind);
            let n = rank(r, kind);
            match kind {
                Kind::Progressive => {
                    place_viewed(&mut progressive_ranks, &mut progressive, n, item);
                },
                Kind::Hls => {
                    place_viewed(&mut hls_ranks, &mut hls, n, item);
                },
                Kind::Audio => {
                    place_viewed(&mut audio_ranks, &mut audio, n, item);
                },
                _ => {
                    place_viewed(&mut image_ranks, &mut images, n, item);
                },
            }
        }
        i = i + 1;
    }
    assert(formats@.take(i as int) =~= formats@);
    proof {
        assert(views(progressive@) =~= items_of(viewed(progressive_ranks@, progressive@)));
        assert(views(hls@) =~= items_of(viewed(hls_ranks@, hls@)));
        assert(views(audio@) =~= items_of(viewed(audio_ranks@, audio@)));
        assert(views(images@) =~= items_of(viewed(image_ranks@, images@)));
    }
    let ghost first = progressive@;
    let ghost second = hls@;
    let mut video = progressive;
    video.append(&mut hls);
    assert(views(video@) =~= views(first) + views(second));
    (video, audio, images)
}

} // verus!
