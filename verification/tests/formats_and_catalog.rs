use media_gateway::catalog::{
    build_playlist_response, build_response_with_session, build_stats, detect_platform,
    format_duration, get_best_thumbnail, now_utc, parse_upload_date, platform_by, stamp_of,
    stream_url,
};
use media_gateway::clock::seconds_of;
use media_gateway::formats::{
    classify, classify_given, fetched_as_hls_given, image_rank_by_name, image_rank_of,
    classify_all, is_still_image_given, kind_in, lower_case, names_no_picture, parse_formats,
    parse_formats_given, rate_from_digits, Kind, LowerCased, VideoFormat,
};
use media_gateway::gateway::{download, download_with};
use media_gateway::media::{Bitrate, MediaInfo, RawEntry, RawFormat, Thumbnail};
use media_gateway::session_build::{
    content_type_by, determine_content_type, extract_headers, store_formats_in_session,
};

fn raw(id: &str, url: &str) -> RawFormat {
    RawFormat {
        format_id: Some(id.to_string()),
        url: Some(url.to_string()),
        vcodec: None,
        acodec: None,
        height: None,
        width: None,
        resolution: None,
        video_ext: None,
        protocol: None,
        filesize: None,
        filesize_approx: None,
        bitrate: Bitrate::Missing,
        http_headers: vec![],
        other_headers: vec![],
        cookies: None,
    }
}

fn video(id: &str, url: &str, w: i64, h: i64) -> RawFormat {
    let mut r = raw(id, url);
    r.vcodec = Some("h264".to_string());
    r.acodec = Some("aac".to_string());
    r.width = Some(w);
    r.height = Some(h);
    r.protocol = Some("https".to_string());
    r
}

fn empty_info() -> MediaInfo {
    MediaInfo {
        id: None,
        title: None,
        fulltitle: None,
        description: None,
        uploader: None,
        uploader_id: None,
        channel: None,
        artist: None,
        thumbnail: None,
        thumbnails: vec![],
        duration_ms: 0,
        duration_secs: None,
        view_count: None,
        like_count: None,
        comment_count: None,
        repost_count: None,
        upload_date: None,
        extractor: None,
        kind: None,
        cookies: None,
        http_headers: vec![],
        formats: vec![],
        entries: vec![],
    }
}

#[test]
fn kinds_of_variants() {
    assert_eq!(classify(&video("v", "https://c.example/v.mp4", 1280, 720)), Kind::Progressive);
    let mut no_url = video("v", "", 1280, 720);
    assert_eq!(classify(&no_url), Kind::Skipped);
    no_url.url = None;
    assert_eq!(classify(&no_url), Kind::Skipped);

    let mut hls = video("h", "https://c.example/master.m3u8", 1280, 720);
    hls.protocol = Some("m3u8_native".to_string());
    assert_eq!(classify(&hls), Kind::Hls);
    // A play list fetched over "https" counts as a file in one piece.
    hls.protocol = Some("https".to_string());
    assert_eq!(classify(&hls), Kind::Progressive);
    // So does one whose address names the play list in capitals.
    let mut shouting = video("h", "https://c.example/master.M3U8", 1280, 720);
    shouting.protocol = Some("m3u8_native".to_string());
    assert_eq!(classify(&shouting), Kind::Progressive);
    shouting.url = Some("ftp://c.example/master.M3U8".to_string());
    assert_eq!(classify(&shouting), Kind::Hls);
    let mut hls = video("h", "https://c.example/x.m3u8", 0, 720);
    hls.protocol = None;
    assert_eq!(classify(&hls), Kind::Hls);
    hls.vcodec = Some("NONE".to_string());
    assert_eq!(classify(&hls), Kind::Skipped);

    let mut img = raw("orig", "https://c.example/p.jpg");
    img.video_ext = Some("JPG".to_string());
    assert_eq!(classify(&img), Kind::Image);
    img.video_ext = Some("bmp".to_string());
    assert_eq!(classify(&img), Kind::Skipped);

    let mut snd = raw("Audio-128000", "https://c.example/a.m4a");
    assert_eq!(classify(&snd), Kind::Audio);
    snd.format_id = Some("x".to_string());
    snd.height = Some(10);
    assert_eq!(classify(&snd), Kind::Progressive);
    snd.resolution = Some("audio only".to_string());
    assert_eq!(classify(&snd), Kind::Audio);
    snd.vcodec = Some("h264".to_string());
    assert_eq!(classify(&snd), Kind::Progressive);
}

#[test]
fn rates_from_names() {
    assert_eq!(rate_from_digits(b"128000"), Some(128));
    assert_eq!(rate_from_digits(b"999"), Some(0));
    assert_eq!(rate_from_digits(b"1000"), Some(1));
    assert_eq!(rate_from_digits(b"0"), None);
    assert_eq!(rate_from_digits(b"000"), None);
    assert_eq!(rate_from_digits(b""), None);
    assert_eq!(rate_from_digits(b"12a000"), None);
    assert_eq!(rate_from_digits(b"+5000"), None);
    assert_eq!(rate_from_digits(b"18446744073709551616000"), Some(i64::MAX));
    assert_eq!(rate_from_digits(b"9223372036854775807999"), Some(i64::MAX));
    assert_eq!(rate_from_digits(b"9223372036854775806999"), Some(i64::MAX - 1));
}

#[test]
fn the_three_lists() {
    let mut a1 = raw("audio-64000", "https://c.example/a64");
    a1.filesize_approx = Some(10);
    let mut a2 = raw("dash-audio-128000-x", "https://c.example/a128");
    a2.filesize = Some(20);
    a2.filesize_approx = Some(21);
    let mut a3 = raw("audio", "https://c.example/a0");
    a3.bitrate = Bitrate::Unusable;
    let mut a4 = raw("my-audio", "https://c.example/a96");
    a4.bitrate = Bitrate::Kbps(96);
    let mut a5 = raw("audio-64999", "https://c.example/a64-again");
    a5.bitrate = Bitrate::Missing;
    let v360 = video("v360", "https://c.example/360.mp4", 640, 360);
    let v1080 = video("v1080", "https://c.example/1080.mp4", 1920, 1080);
    let v360b = video("v360b", "https://c.example/360b.mp4", 600, 360);
    let mut h720 = video("h720", "https://c.example/720.m3u8", 0, 720);
    h720.protocol = Some("m3u8".to_string());
    h720.resolution = Some("720 lines".to_string());
    let mut h1440 = video("h1440", "https://c.example/1440.m3u8", 2560, 1440);
    h1440.protocol = Some("m3u8".to_string());
    let mut thumb = raw("Thumb", "https://c.example/t.webp");
    thumb.video_ext = Some("webp".to_string());
    let mut orig = raw("orig", "https://c.example/o.png");
    orig.video_ext = Some("png".to_string());
    orig.width = Some(100);
    orig.height = Some(50);
    let mut nameless = raw("", "https://c.example/n.gif");
    nameless.video_ext = Some("gif".to_string());
    let mut large = raw("large", "http://c.example/l.jpeg");
    large.video_ext = Some("jpeg".to_string());

    let formats = vec![
        a1, v360, thumb, a2, h720, v1080, a3, nameless, v360b, orig, a4, h1440, large, a5,
    ];
    let (videos, sounds, images) = parse_formats(&formats);

    let ids = |list: &Vec<VideoFormat>| -> Vec<String> {
        list.iter().map(|f| f.format_id.clone()).collect()
    };
    assert_eq!(ids(&videos), vec!["v1080", "v360", "h1440", "h720"]);
    assert_eq!(ids(&sounds), vec!["dash-audio-128000-x", "my-audio", "audio-64000", "audio"]);
    assert_eq!(ids(&images), vec!["orig", "large", "Thumb", ""]);

    assert_eq!(videos[0].quality, "1080p (progressive)");
    assert_eq!(videos[0].resolution, "1920x1080");
    assert_eq!(videos[3].quality, "720p (hls)");
    assert_eq!(videos[3].resolution, "720 lines");
    assert_eq!(sounds[0].quality, "128kbps");
    assert_eq!(sounds[0].resolution, "audio only");
    assert_eq!(sounds[0].size_bytes, Some(20));
    assert_eq!(sounds[1].quality, "96kbps");
    assert_eq!(sounds[2].quality, "64kbps");
    assert_eq!(sounds[2].size_bytes, Some(10));
    assert_eq!(sounds[3].quality, "audio");
    assert_eq!(images[0].quality, "ORIG");
    assert_eq!(images[0].resolution, "100x50");
    assert_eq!(images[2].quality, "THUMB");
    assert_eq!(images[3].quality, "IMAGE");
    assert_eq!(images[3].url, "https://c.example/n.gif");
}

#[test]
fn nothing_in_nothing_out() {
    let (v, a, i) = parse_formats(&[]);
    assert!(v.is_empty() && a.is_empty() && i.is_empty());
}

#[test]
fn durations() {
    assert_eq!(format_duration(None), None);
    assert_eq!(format_duration(Some(0)).as_deref(), Some("0:00"));
    assert_eq!(format_duration(Some(59)).as_deref(), Some("0:59"));
    assert_eq!(format_duration(Some(61)).as_deref(), Some("1:01"));
    assert_eq!(format_duration(Some(3599)).as_deref(), Some("59:59"));
    assert_eq!(format_duration(Some(3600)).as_deref(), Some("1:00:00"));
    assert_eq!(format_duration(Some(3725)).as_deref(), Some("1:02:05"));
    assert_eq!(format_duration(Some(360000)).as_deref(), Some("100:00:00"));
}

#[test]
fn platforms() {
    assert_eq!(detect_platform("https://www.TikTok.com/@a/video/1", ""), "tiktok");
    assert_eq!(detect_platform("https://v.douyin.com/x", "twitter"), "tiktok");
    assert_eq!(detect_platform("https://twitter.com/a/status/1", ""), "x");
    assert_eq!(detect_platform("https://X.com/a/status/1", ""), "x");
    assert_eq!(detect_platform("https://t.co/abc", "Twitter:broadcast"), "x");
    assert_eq!(detect_platform("https://example.org/", "generic"), "unknown");
}

#[test]
fn upload_dates() {
    assert_eq!(parse_upload_date("20240131").as_deref(), Some("2024-01-31"));
    assert_eq!(parse_upload_date("abcdefgh").as_deref(), Some("abcd-ef-gh"));
    assert_eq!(parse_upload_date("2024013"), None);
    assert_eq!(parse_upload_date("202401311"), None);
    assert_eq!(parse_upload_date(""), None);
    // Eight bytes that cannot be cut between characters.
    assert_eq!(parse_upload_date("abcé123"), None);
    assert_eq!(parse_upload_date("éé1234").as_deref(), Some("éé-12-34"));
}

#[test]
fn the_best_thumbnail_is_the_largest_and_the_last_of_equals() {
    let t = |url: Option<&str>, w: i64, h: i64| Thumbnail {
        url: url.map(|s| s.to_string()),
        width: Some(w),
        height: Some(h),
    };
    let mut info = empty_info();
    info.thumbnail = Some("fallback".to_string());
    assert_eq!(get_best_thumbnail(&info), "fallback");
    info.thumbnails = vec![t(Some("a"), 10, 10), t(Some("b"), 20, 20), t(Some("c"), 40, 10)];
    assert_eq!(get_best_thumbnail(&info), "c");
    info.thumbnails.push(t(None, 100, 100));
    assert_eq!(get_best_thumbnail(&info), "fallback");
    info.thumbnail = None;
    assert_eq!(get_best_thumbnail(&info), "");
    info.thumbnails = vec![Thumbnail { url: Some("only".to_string()), width: None, height: None }];
    assert_eq!(get_best_thumbnail(&info), "only");
    info.thumbnails = vec![t(Some("big"), i64::MAX, i64::MAX), t(Some("neg"), i64::MIN, 1)];
    assert_eq!(get_best_thumbnail(&info), "big");
}

#[test]
fn stats_are_passed_on() {
    let mut info = empty_info();
    info.view_count = Some(5);
    info.repost_count = Some(0);
    let s = build_stats(&info);
    assert_eq!((s.views, s.likes, s.comments, s.shares), (Some(5), None, None, Some(0)));
}

#[test]
fn content_types_of_variants() {
    assert_eq!(determine_content_type("audio only", "x", "IMAGE"), "audio/mp4");
    assert_eq!(determine_content_type("", "a", "IMAGE"), "image/jpeg");
    assert_eq!(determine_content_type("", "THUMB-1", "q"), "image/jpeg");
    assert_eq!(determine_content_type("1x1", "orig", "ORIG"), "video/mp4");
    assert_eq!(determine_content_type("", "", ""), "video/mp4");
}

#[test]
fn headers_of_a_variant_or_of_the_source() {
    let fallback = vec![("User-Agent".to_string(), "ua".to_string())];
    let mut r = raw("a", "u");
    assert_eq!(extract_headers(Some(&r), &fallback), fallback);
    assert_eq!(extract_headers(None, &fallback), fallback);
    r.http_headers = vec![("Referer".to_string(), "r".to_string())];
    assert_eq!(extract_headers(Some(&r), &fallback), r.http_headers);
}

fn gallery() -> MediaInfo {
    let mut p1 = raw("orig", "https://c.example/1.jpg");
    p1.video_ext = Some("jpg".to_string());
    p1.http_headers = vec![("Referer".to_string(), "one".to_string())];
    let mut p1small = raw("small", "https://c.example/1s.jpg");
    p1small.video_ext = Some("jpg".to_string());
    let mut p2 = raw("orig", "https://c.example/2.jpg");
    p2.video_ext = Some("jpg".to_string());
    let mut nameless = raw("", "https://c.example/n.jpg");
    nameless.video_ext = Some("jpg".to_string());
    let clip = video("clip", "https://c.example/clip.mp4", 640, 360);
    let mut info = empty_info();
    info.id = Some("g1".to_string());
    info.kind = Some("playlist".to_string());
    info.extractor = Some("twitter".to_string());
    info.upload_date = Some("20240102".to_string());
    info.entries = vec![
        RawEntry {
            id: Some("e1".to_string()),
            title: None,
            fulltitle: Some("first".to_string()),
            thumbnail: Some("https://c.example/t1.jpg".to_string()),
            width: Some(10),
            height: None,
            duration_secs: None,
            formats: vec![p1small, p1],
            http_headers: vec![("User-Agent".to_string(), "entry".to_string())],
        },
        RawEntry {
            id: None,
            title: Some("second".to_string()),
            fulltitle: Some("ignored".to_string()),
            thumbnail: None,
            width: None,
            height: None,
            duration_secs: Some(75),
            formats: vec![p2, nameless, clip],
            http_headers: vec![],
        },
    ];
    info
}

#[test]
fn a_gallery_lists_its_items() {
    let info = gallery();
    let r = build_playlist_response(
        &info,
        "x",
        "https://x.com/a/status/1",
        &vec![],
        &vec![],
        "sess",
        "http://gw",
        "now".to_string(),
    );
    assert!(r.success);
    assert_eq!(r.message, "Mixed media extracted successfully (2 items)");
    assert_eq!(r.session_id.as_deref(), Some("sess"));
    assert_eq!(r.expires_in, Some(300));
    assert_eq!(r.extracted_at, "now");
    assert_eq!(r.best_video_url, None);
    assert_eq!(r.best_audio_url, None);
    let data = r.data.unwrap();
    assert_eq!(data.content_type, "mixed");
    assert_eq!(data.platform, "x");
    assert_eq!(data.video_id, "g1");
    assert!(data.is_playlist);
    assert_eq!(data.playlist_count, Some(2));
    assert_eq!(data.thumbnail.as_deref(), Some("https://c.example/t1.jpg"));
    assert_eq!(data.created_at.as_deref(), Some("2024-01-02"));
    assert_eq!(data.duration_formatted, None);
    let e1 = &data.entries[0];
    assert_eq!(e1.entry_id, "e1");
    assert_eq!(e1.title.as_deref(), Some("first"));
    assert_eq!(e1.media_type, "photo");
    assert_eq!(e1.width, Some(10));
    assert_eq!(e1.best_url.as_deref(), Some("http://gw/stream?id=sess&format=orig"));
    assert_eq!(e1.formats.len(), 2);
    assert_eq!(e1.formats[0].format_id, "orig");
    assert_eq!(e1.formats[0].url, "http://gw/stream?id=sess&format=orig");
    assert_eq!(e1.formats[1].url, "http://gw/stream?id=sess&format=small");
    let e2 = &data.entries[1];
    assert_eq!(e2.entry_id, "entry_1");
    assert_eq!(e2.title.as_deref(), Some("second"));
    assert_eq!(e2.thumbnail.as_deref(), Some(""));
    assert_eq!(e2.media_type, "video");
    assert_eq!(e2.duration_formatted.as_deref(), Some("1:15"));
    assert_eq!(e2.best_url.as_deref(), Some("http://gw/stream?id=sess&format=clip"));
    assert_eq!(e2.formats.len(), 1);
}

#[test]
fn a_gallery_is_answered_as_a_gallery_whoever_asks() {
    let info = gallery();
    let direct = build_playlist_response(
        &info, "x", "https://x.com/a", &vec![], &vec![], "s", "b", "t".to_string(),
    );
    let routed = build_response_with_session(
        &info, "https://x.com/a", &vec![], &vec![], &vec![], "s", "b", "t".to_string(),
    );
    assert_eq!(direct, routed);
    // Without items it is no gallery, whatever it calls itself.
    let mut bare = gallery();
    bare.entries.clear();
    let r = build_response_with_session(
        &bare, "https://x.com/a", &vec![], &vec![], &vec![], "s", "b", "t".to_string(),
    );
    assert!(!r.data.unwrap().is_playlist);
    let r = build_playlist_response(
        &bare, "x", "https://x.com/a", &vec![], &vec![], "s", "b", "t".to_string(),
    );
    assert_eq!(r.message, "Playlist extracted successfully (0 items)");
    assert_eq!(r.data.unwrap().thumbnail, None);
}

#[test]
fn a_gallery_of_photos_alone() {
    let mut info = gallery();
    info.entries.truncate(1);
    let r = build_playlist_response(
        &info, "x", "u", &vec![], &vec![], "s", "b", String::new(),
    );
    assert_eq!(r.message, "Photo gallery extracted successfully (1 images)");
    assert_eq!(r.data.unwrap().content_type, "photo");
    info.entries[0].formats.clear();
    let r = build_playlist_response(
        &info, "x", "u", &vec![], &vec![], "s", "b", String::new(),
    );
    assert_eq!(r.message, "Playlist extracted successfully (1 items)");
    let data = r.data.unwrap();
    assert_eq!(data.content_type, "playlist");
    assert_eq!(data.entries[0].media_type, "unknown");
    assert_eq!(data.entries[0].best_url, None);
}

#[test]
fn a_single_item_answer() {
    let mut info = empty_info();
    info.id = Some("v9".to_string());
    info.fulltitle = Some("full".to_string());
    info.uploader = Some("alice".to_string());
    info.duration_secs = Some(3661);
    info.thumbnail = Some("https://c.example/t.jpg".to_string());
    info.formats = vec![
        video("v360", "https://c.example/360.mp4", 640, 360),
        raw("audio-64000", "https://c.example/a"),
    ];
    let (v, a, i) = parse_formats(&info.formats);
    let r = build_response_with_session(
        &info,
        "https://www.tiktok.com/@alice/video/9",
        &v,
        &a,
        &i,
        "s-1",
        "http://gw",
        "t0".to_string(),
    );
    assert_eq!(r.message, "Video info extracted successfully");
    assert_eq!(r.video_formats.len(), 1);
    assert_eq!(r.video_formats[0].url, "http://gw/stream?id=s-1&format=v360");
    assert_eq!(r.video_formats[0].quality, "360p (progressive)");
    assert_eq!(r.audio_formats[0].url, "http://gw/stream?id=s-1&format=audio-64000");
    assert!(r.image_formats.is_empty());
    assert_eq!(r.best_video_url.as_deref(), Some("http://gw/stream?id=s-1&format=best"));
    assert_eq!(r.best_audio_url.as_deref(), Some("http://gw/stream?id=s-1&format=best_audio"));
    assert_eq!(r.best_image_url, None);
    let data = r.data.unwrap();
    assert_eq!(data.platform, "tiktok");
    assert_eq!(data.content_type, "video");
    assert_eq!(data.title.as_deref(), Some("full"));
    assert_eq!(data.author_name.as_deref(), Some("alice"));
    assert_eq!(data.author_avatar.as_deref(), Some(""));
    assert_eq!(data.duration_formatted.as_deref(), Some("1:01:01"));
    assert_eq!(data.thumbnail.as_deref(), Some("https://c.example/t.jpg"));
    assert!(!data.is_playlist);
    assert_eq!(stream_url("b", "s", "f"), "b/stream?id=s&format=f");
}

#[test]
fn kinds_of_single_items() {
    let info = empty_info();
    let f = |id: &str| VideoFormat {
        quality: "q".to_string(),
        resolution: "r".to_string(),
        url: "u".to_string(),
        size_bytes: None,
        format_id: id.to_string(),
    };
    let none: Vec<VideoFormat> = vec![];
    let one = vec![f("a")];
    let r = build_response_with_session(&info, "u", &none, &none, &one, "s", "b", String::new());
    assert_eq!(r.message, "Photo extracted successfully");
    assert_eq!(r.data.unwrap().content_type, "photo");
    let r = build_response_with_session(&info, "u", &one, &one, &one, "s", "b", String::new());
    assert_eq!(r.message, "Video info extracted successfully");
    let r = build_response_with_session(&info, "u", &none, &one, &none, "s", "b", String::new());
    assert_eq!(r.message, "Audio extracted successfully");
    assert_eq!(r.data.unwrap().content_type, "audio");
    let r = build_response_with_session(&info, "u", &none, &none, &none, "s", "b", String::new());
    assert_eq!(r.message, "Media extracted successfully");
    assert_eq!(r.data.unwrap().video_id, "");
}

#[test]
fn the_session_of_a_source() {
    let mut info = gallery();
    info.cookies = Some("c=1".to_string());
    info.http_headers = vec![("User-Agent".to_string(), "top".to_string())];
    let mut v = video("v360", "https://c.example/360.mp4", 640, 360);
    v.http_headers = vec![("Referer".to_string(), "v".to_string())];
    info.formats = vec![v, raw("audio-64000", "https://c.example/a")];
    let (videos, sounds, images) = parse_formats(&info.formats);
    let s = store_formats_in_session(&videos, &sounds, &images, &info);
    assert_eq!(s.video_id, "g1");
    assert_eq!(s.cookies.as_deref(), Some("c=1"));
    let ids: Vec<&str> = s.formats.iter().map(|e| e.0.as_str()).collect();
    assert_eq!(ids, vec!["v360", "audio-64000", "small", "orig"]);
    assert_eq!(s.formats[0].1.http_headers, vec![("Referer".to_string(), "v".to_string())]);
    assert_eq!(s.formats[0].1.content_type, "video/mp4");
    assert_eq!(s.formats[1].1.http_headers, vec![("User-Agent".to_string(), "top".to_string())]);
    assert_eq!(s.formats[1].1.content_type, "audio/mp4");
    assert_eq!(s.formats[1].1.quality, "64kbps");
    assert_eq!(s.formats[2].1.http_headers, vec![("User-Agent".to_string(), "entry".to_string())]);
    // The second "orig" has taken the place of the first.
    assert_eq!(s.formats[3].1.url, "https://c.example/2.jpg");
    assert_eq!(s.formats[3].1.quality, "ORIG");
    assert_eq!(s.formats[3].1.content_type, "video/mp4");
    assert_eq!(s.resolve("best_audio").unwrap().url, "https://c.example/a");

    let bare = store_formats_in_session(&vec![], &vec![], &vec![], &empty_info());
    assert_eq!(bare.video_id, "unknown");
    assert_eq!(bare.cookies, None);
    assert!(bare.formats.is_empty());
}

#[test]
fn a_source_becomes_session_and_answer() {
    let mut info = empty_info();
    info.formats = vec![video("v360", "https://c.example/360.mp4", 640, 360)];
    let r = download_with(&info, "https://x.com/a", "http://gw", "sid".to_string(), "t".to_string());
    assert_eq!(r.session_id, "sid");
    assert_eq!(r.session.formats.len(), 1);
    assert_eq!(r.response.session_id.as_deref(), Some("sid"));
    assert_eq!(r.response.extracted_at, "t");
    assert_eq!(
        r.session.resolve("best").unwrap().url,
        "https://c.example/360.mp4"
    );
    assert_eq!(r.response.video_formats[0].url, "http://gw/stream?id=sid&format=v360");

    let fresh = download(&gallery(), "https://x.com/a", "http://gw");
    assert_eq!(fresh.session_id.len(), 36);
    assert_eq!(fresh.response.session_id.as_deref(), Some(fresh.session_id.as_str()));
    assert!(fresh.response.data.as_ref().unwrap().is_playlist);
    // The time on the answer is written as a date, a "T", a time and a "Z".
    let stamp = &fresh.response.extracted_at;
    assert_eq!(stamp.len(), 24);
    assert_eq!(&stamp[10..11], "T");
    assert!(stamp.ends_with('Z'));
    let other = download(&gallery(), "https://x.com/a", "http://gw");
    assert_ne!(fresh.session_id, other.session_id);
}

fn lowered(url: &str, vcodec: &str, video_ext: &str, format_id: &str) -> LowerCased {
    LowerCased {
        url: url.to_string(),
        vcodec: vcodec.to_string(),
        video_ext: video_ext.to_string(),
        format_id: format_id.to_string(),
    }
}

#[test]
fn the_lower_case_texts_of_a_variant() {
    let mut r = raw("Dash-AUDIO", "HTTPS://C.example/A.M3U8");
    r.video_ext = Some("JPG".to_string());
    let l = lower_case(&r);
    assert_eq!(l.url, "https://c.example/a.m3u8");
    assert_eq!(l.vcodec, "none");
    assert_eq!(l.video_ext, "jpg");
    assert_eq!(l.format_id, "dash-audio");
    r.vcodec = Some("H264".to_string());
    r.url = None;
    r.format_id = None;
    r.video_ext = None;
    let l = lower_case(&r);
    assert_eq!((l.url.as_str(), l.vcodec.as_str()), ("", "h264"));
    assert_eq!((l.video_ext.as_str(), l.format_id.as_str()), ("", ""));
}

#[test]
fn a_variant_is_sorted_by_its_lower_case_texts() {
    let v = video("v", "https://c.example/v.mp4", 640, 360);
    assert_eq!(
        classify_given(&v, &lowered("https://c.example/v.mp4", "h264", "", "v")),
        Kind::Progressive
    );
    // Without a picture codec and with a name that says so it is sound.
    assert_eq!(
        classify_given(&v, &lowered("https://c.example/v.mp4", "none", "", "dash-audio")),
        Kind::Audio
    );
    // Capitals are no match: what is handed in is what is looked at.
    assert_eq!(
        classify_given(&v, &lowered("https://c.example/v.mp4", "none", "", "dash-AUDIO")),
        Kind::Progressive
    );
    assert_eq!(
        classify_given(&v, &lowered("https://c.example/v.mp4", "h264", "png", "v")),
        Kind::Image
    );
    assert_eq!(
        classify_given(&v, &lowered("https://c.example/v.mp4", "h264", "PNG", "v")),
        Kind::Progressive
    );
    let mut h = video("h", "HTTPS://c.example/V.M3U8", 0, 720);
    h.protocol = None;
    assert_eq!(
        classify_given(&h, &lowered("https://c.example/v.m3u8", "h264", "", "h")),
        Kind::Hls
    );
    assert_eq!(
        classify_given(&h, &lowered("HTTPS://c.example/V.M3U8", "h264", "", "h")),
        Kind::Skipped
    );
    assert_eq!(
        classify_given(&h, &lowered("https://c.example/v.m3u8", "none", "", "h")),
        Kind::Skipped
    );
    let nowhere = raw("x", "");
    assert_eq!(classify_given(&nowhere, &lowered("", "none", "png", "audio")), Kind::Skipped);
    assert_eq!(classify(&h), Kind::Hls);
}

#[test]
fn the_parts_of_the_sorting() {
    let mut r = raw("x", "ftp://c.example/x");
    assert!(fetched_as_hls_given(&r, "https://c.example/a.m3u8?x=1"));
    assert!(!fetched_as_hls_given(&r, "https://c.example/a.mp4"));
    r.protocol = Some("m3u8_native".to_string());
    assert!(fetched_as_hls_given(&r, ""));
    r.protocol = Some("M3U8".to_string());
    assert!(!fetched_as_hls_given(&r, ""));
    assert!(names_no_picture("none"));
    assert!(!names_no_picture("None"));
    assert!(!names_no_picture(""));
    let http = raw("x", "http://c.example/x");
    for ext in ["jpg", "jpeg", "png", "webp", "gif"] {
        assert!(is_still_image_given(&http, ext));
        assert!(!is_still_image_given(&r, ext));
    }
    assert!(!is_still_image_given(&http, "bmp"));
    assert!(!is_still_image_given(&http, "JPG"));
}

#[test]
fn images_are_ranked_by_name() {
    let names = ["orig", "large", "medium", "small", "thumb", "other"];
    for (rank, name) in names.iter().enumerate() {
        assert_eq!(image_rank_by_name(name), rank as i128);
        assert_eq!(image_rank_of(&name.to_uppercase()), rank as i128);
    }
    assert_eq!(image_rank_by_name("ORIG"), 5);
    assert_eq!(image_rank_by_name(""), 5);
}

#[test]
fn a_platform_goes_by_lower_case_texts() {
    assert_eq!(platform_by("https://www.tiktok.com/@a", ""), "tiktok");
    assert_eq!(platform_by("https://v.douyin.com/x", "twitter"), "tiktok");
    assert_eq!(platform_by("https://twitter.com/a", ""), "x");
    assert_eq!(platform_by("https://x.com/a", ""), "x");
    assert_eq!(platform_by("https://example.com/a", "twitter:card"), "x");
    assert_eq!(platform_by("https://example.com/a", "Twitter"), "unknown");
    assert_eq!(platform_by("https://TIKTOK.com/a", ""), "unknown");
    assert_eq!(detect_platform("https://TIKTOK.com/a", ""), "tiktok");
    assert_eq!(detect_platform("https://example.com/a", "Twitter"), "x");
}

#[test]
fn a_content_type_goes_by_the_lower_case_name() {
    assert_eq!(content_type_by("audio only", "thumb", "IMAGE"), "audio/mp4");
    assert_eq!(content_type_by("1x1", "my-thumb-1", "720p"), "image/jpeg");
    assert_eq!(content_type_by("1x1", "My-Thumb-1", "720p"), "video/mp4");
    assert_eq!(content_type_by("1x1", "v", "AN IMAGE"), "image/jpeg");
    assert_eq!(content_type_by("1x1", "v", "image"), "video/mp4");
    assert_eq!(determine_content_type("1x1", "My-Thumb-1", "720p"), "image/jpeg");
}

#[test]
fn a_stamp_is_the_time_in_utc_with_milliseconds() {
    assert_eq!(stamp_of(0), "1970-01-01T00:00:00.000Z");
    assert_eq!(stamp_of(947_638_923_004), "2000-01-12T01:02:03.004Z");
    assert_eq!(stamp_of(1_516_991_409_453), "2018-01-26T18:30:09.453Z");
    // Beyond what the calendar reaches there is no stamp.
    assert_eq!(stamp_of(i64::MAX as u128), "");
    assert_eq!(stamp_of(i64::MAX as u128 + 1), "");
    assert_eq!(stamp_of(u128::MAX), "");
    let now = now_utc();
    assert_eq!(now.len(), 24);
    assert!(now.ends_with('Z'));
    assert!(now.as_str() > "2020-01-01T00:00:00.000Z");
}

#[test]
fn seconds_in_milliseconds() {
    assert_eq!(seconds_of(0), 0);
    assert_eq!(seconds_of(999), 0);
    assert_eq!(seconds_of(1000), 1);
    assert_eq!(seconds_of(1_516_991_409_453), 1_516_991_409);
    assert_eq!(seconds_of(u64::MAX as u128 * 1000 + 999), u64::MAX);
    assert_eq!(seconds_of(u64::MAX as u128 * 1000 + 1000), u64::MAX);
    assert_eq!(seconds_of(u128::MAX), u64::MAX);
}

#[test]
fn three_progressive_variants_come_tallest_first() {
    let formats = vec![
        video("v360", "https://c.example/360.mp4", 640, 360),
        video("v1080", "https://c.example/1080.mp4", 1920, 1080),
        video("v720", "https://c.example/720.mp4", 1280, 720),
    ];
    let kinds = vec![Kind::Progressive, Kind::Progressive, Kind::Progressive];
    let (videos, sounds, images) = parse_formats_given(&formats, &kinds);
    let ids: Vec<&str> = videos.iter().map(|f| f.format_id.as_str()).collect();
    assert_eq!(ids, vec!["v1080", "v720", "v360"]);
    assert_eq!(videos[0].quality, "1080p (progressive)");
    assert_eq!(videos[0].resolution, "1920x1080");
    assert_eq!(videos[0].url, "https://c.example/1080.mp4");
    assert!(sounds.is_empty() && images.is_empty());
    assert_eq!(classify_all(&formats), kinds);
    assert_eq!(parse_formats(&formats), (videos, sounds, images));
}

#[test]
fn the_lists_follow_the_kinds_that_are_given() {
    let formats = vec![
        video("a", "https://c.example/a.mp4", 640, 360),
        video("b", "https://c.example/b.mp4", 1920, 1080),
        video("c", "https://c.example/c.mp4", 600, 360),
        video("d", "https://c.example/d.mp4", 1280, 720),
        video("e", "https://c.example/e.mp4", 1920, 1080),
    ];
    let ids = |list: &Vec<VideoFormat>| -> Vec<String> {
        list.iter().map(|f| f.format_id.clone()).collect()
    };
    // Streams stand behind files, and a variant is a repeat only of one of its own kind.
    let kinds = vec![Kind::Hls, Kind::Progressive, Kind::Progressive, Kind::Hls, Kind::Hls];
    let (videos, sounds, images) = parse_formats_given(&formats, &kinds);
    assert_eq!(ids(&videos), vec!["b", "c", "e", "d", "a"]);
    assert_eq!(videos[2].quality, "1080p (hls)");
    assert!(sounds.is_empty() && images.is_empty());
    // Of two of one height the first is kept.
    let kinds = vec![Kind::Progressive; 5];
    let (videos, _, _) = parse_formats_given(&formats, &kinds);
    assert_eq!(ids(&videos), vec!["b", "d", "a"]);
    // What is skipped, or has no kind at its place, is left out.
    let kinds = vec![Kind::Skipped, Kind::Progressive, Kind::Progressive];
    let (videos, _, _) = parse_formats_given(&formats, &kinds);
    assert_eq!(ids(&videos), vec!["b", "c"]);
    assert_eq!(kind_in(&kinds, 1), Kind::Progressive);
    assert_eq!(kind_in(&kinds, 3), Kind::Skipped);
    let (videos, sounds, images) = parse_formats_given(&formats, &[]);
    assert!(videos.is_empty() && sounds.is_empty() && images.is_empty());
}
