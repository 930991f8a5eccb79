use media_gateway::cleanup::{
    cleanup_folder, cleanup_old_folders, FolderEntry, CLEANUP_INTERVAL_SECS, MAX_FOLDER_AGE_SECS,
};
use media_gateway::config::{env_parse, env_str, find_var, ConfigError, Settings, TokenKey};
use media_gateway::encryption::TokenError;
use media_gateway::errors::ErrorKind;
use media_gateway::session::SessionError;
use media_gateway::stream::ProxyError;
use media_gateway::vpn::VpnError;
use media_gateway::cache::RedisCache;
use media_gateway::config::SessionSettings;
use media_gateway::gateway::{
    check_source_url, classify_extraction_error, classify_message, download_begin,
    download_failure, download_step, fetch_tiktok_data, read_tag, reject, source_address,
    validate_source_url, DownloadAction, DownloadEvent, DownloadFailure, Extraction,
    ExtractionError, FetchAction, FetchEvent, Platforms, Rejection, RequestError, REFUSAL_STATUS,
};
use media_gateway::health::{
    checks_vpn, health_handler, vpn_health, StoreHealth, VpnHealth, NO_VPN_PORT,
};
use media_gateway::media::{Bitrate, MediaInfo, RawFormat};
use media_gateway::slideshow::{
    build_filter, create_slideshow, plan_slideshow, SlideshowError, SECONDS_PER_IMAGE,
};
use media_gateway::text::{
    bytes_eq, contains, decimal_string, find_byte, join3, parse_decimal, signed_decimal_string,
    starts_with, str_eq,
};
use media_gateway::vpn::ControlReply;

fn vars(pairs: &[(&str, &str)]) -> Vec<(String, String)> {
    pairs.iter().map(|(k, v)| (k.to_string(), v.to_string())).collect()
}

#[test]
fn settings_default() {
    let s = Settings::from_env(&vec![]).unwrap();
    assert_eq!(s.port, 3021);
    assert_eq!(s.base_url, "http://localhost:3021");
    assert_eq!(s.encryption_key.as_str(), "overflow");
    assert_eq!(s.temp_dir, "./temp");
    assert_eq!(s.cookies_path, "./cookies/www.tiktok.com_cookies.txt");
    assert_eq!(s.max_workers, 20);
    assert_eq!(s.ytdlp_timeout, 30);
    assert_eq!(s.download_timeout, 120);
    assert_eq!(s.redis_host, "redis");
    assert_eq!(s.redis_port, 6379);
    assert_eq!(s.instance_id, "unknown");
    assert_eq!(s.instance_region, "unknown");
    assert_eq!(s.gluetun_control_port, 8000);
    assert_eq!(s.gluetun_username, "admin");
    assert_eq!(s.gluetun_password, "secretpassword");
}

#[test]
fn settings_from_variables() {
    let env = vars(&[
        ("PORT", "8080"),
        ("BASE_URL", "https://gw.example"),
        ("ENCRYPTION_KEY", "k"),
        ("MAX_WORKERS", "+7"),
        ("YTDLP_TIMEOUT", "18446744073709551615"),
        ("DOWNLOAD_TIMEOUT", "18446744073709551616"),
        ("REDIS_PORT", "65536"),
        ("GLUETUN_CONTROL_PORT", " 8001"),
        ("INSTANCE_ID", "instance-sg"),
        ("PORT", "1"),
    ]);
    let s = Settings::from_env(&env).unwrap();
    assert_eq!(s.port, 8080);
    assert_eq!(s.base_url, "https://gw.example");
    assert_eq!(s.encryption_key.as_str(), "k");
    assert_eq!(s.max_workers, 7);
    assert_eq!(s.ytdlp_timeout, u64::MAX);
    assert_eq!(s.download_timeout, 120);
    assert_eq!(s.redis_port, 6379);
    assert_eq!(s.gluetun_control_port, 8000);
    assert_eq!(s.instance_id, "instance-sg");
    assert_eq!(find_var(&env, "PORT"), Some("8080"));
    assert_eq!(find_var(&env, "port"), None);
    assert_eq!(env_str(&env, "NOPE", "d"), "d");
    assert_eq!(env_parse(&env, "PORT", 5, 100), 5);
    assert_eq!(env_parse(&env, "PORT", 5, 8080), 8080);
}

#[test]
fn numbers_in_text() {
    assert_eq!(parse_decimal(b"0"), Some(0));
    assert_eq!(parse_decimal(b"007"), Some(7));
    assert_eq!(parse_decimal(b"+42"), Some(42));
    assert_eq!(parse_decimal(b"18446744073709551615"), Some(u64::MAX));
    assert_eq!(parse_decimal(b"18446744073709551616"), None);
    assert_eq!(parse_decimal(b"99999999999999999999999"), None);
    assert_eq!(parse_decimal(b""), None);
    assert_eq!(parse_decimal(b"+"), None);
    assert_eq!(parse_decimal(b"-1"), None);
    assert_eq!(parse_decimal(b"++1"), None);
    assert_eq!(parse_decimal(b"1 "), None);
    assert_eq!(parse_decimal(b" 1"), None);
    assert_eq!(parse_decimal(b"1_000"), None);
    assert_eq!(parse_decimal(b"12a"), None);
    assert_eq!(decimal_string(0), "0");
    assert_eq!(decimal_string(10), "10");
    assert_eq!(decimal_string(u64::MAX), "18446744073709551615");
    assert_eq!(signed_decimal_string(0), "0");
    assert_eq!(signed_decimal_string(-1), "-1");
    assert_eq!(signed_decimal_string(i64::MIN), "-9223372036854775808");
    assert_eq!(signed_decimal_string(i64::MAX), "9223372036854775807");
}

#[test]
fn searching_text() {
    assert!(contains("hello world", "o w"));
    assert!(contains("hello", ""));
    assert!(contains("", ""));
    assert!(!contains("", "a"));
    assert!(!contains("hello", "hello!"));
    assert!(contains("hello", "hello"));
    assert!(contains("aab", "ab"));
    assert!(starts_with("image-1", "image-"));
    assert!(!starts_with("imag", "image-"));
    assert!(starts_with("x", ""));
    assert!(str_eq("é", "é"));
    assert!(!str_eq("e", "é"));
    assert!(bytes_eq(b"", b""));
    assert!(!bytes_eq(b"a", b"ab"));
    assert_eq!(find_byte(b"a|b|c", b'|'), Some(1));
    assert_eq!(find_byte(b"abc", b'|'), None);
    assert_eq!(join3("a", "", "c"), "ac");
}

#[test]
fn addresses_of_requests() {
    assert_eq!(
        validate_source_url("  https://www.TikTok.com/@a/video/1 \n", Platforms::TikTok),
        Ok("https://www.TikTok.com/@a/video/1".to_string())
    );
    assert_eq!(
        validate_source_url("https://v.douyin.com/abc", Platforms::TikTok),
        Ok("https://v.douyin.com/abc".to_string())
    );
    assert_eq!(validate_source_url("", Platforms::TikTok), Err(RequestError::MissingUrl));
    assert_eq!(validate_source_url(" \t ", Platforms::TikTokAndX), Err(RequestError::MissingUrl));
    assert_eq!(
        validate_source_url("https://x.com/a/status/1", Platforms::TikTok),
        Err(RequestError::UnsupportedUrl)
    );
    assert_eq!(
        validate_source_url("https://x.com/a/status/1", Platforms::TikTokAndX),
        Ok("https://x.com/a/status/1".to_string())
    );
    assert_eq!(
        validate_source_url("https://TWITTER.com/a", Platforms::TikTokAndX),
        Ok("https://TWITTER.com/a".to_string())
    );
    assert_eq!(
        validate_source_url("https://example.org/", Platforms::TikTokAndX),
        Err(RequestError::UnsupportedUrl)
    );
    assert_eq!(RequestError::MissingUrl.message(Platforms::TikTok), "URL parameter is required");
    assert_eq!(
        RequestError::UnsupportedUrl.message(Platforms::TikTok),
        "Only TikTok and Douyin URLs are supported"
    );
    assert_eq!(
        RequestError::UnsupportedUrl.message(Platforms::TikTokAndX),
        "Unsupported URL. Only TikTok and X (Twitter) URLs are supported."
    );
}

#[test]
fn kinds_of_failures() {
    assert_eq!(classify_extraction_error("ERROR: Video Not Found"), ExtractionError::NotFound);
    assert_eq!(
        classify_extraction_error("Unable to download webpage: HTTP Error 403"),
        ExtractionError::NotFound
    );
    assert_eq!(classify_extraction_error("HTTP Error 403: Forbidden"), ExtractionError::Forbidden);
    assert_eq!(classify_extraction_error("access FORBIDDEN"), ExtractionError::Forbidden);
    assert_eq!(classify_extraction_error("code 14032"), ExtractionError::Forbidden);
    assert_eq!(classify_extraction_error("Please Login first"), ExtractionError::AuthRequired);
    assert_eq!(classify_extraction_error("needs authentication"), ExtractionError::AuthRequired);
    assert_eq!(classify_extraction_error("Unsupported URL: x"), ExtractionError::Unsupported);
    assert_eq!(classify_extraction_error("something else"), ExtractionError::Failed);
    assert_eq!(classify_extraction_error(""), ExtractionError::Failed);
}

#[test]
fn tags_of_failures() {
    let all = [
        ExtractionError::NotFound,
        ExtractionError::Forbidden,
        ExtractionError::AuthRequired,
        ExtractionError::Unsupported,
        ExtractionError::Failed,
    ];
    for kind in all {
        let text = format!("{}some message", kind.tag());
        assert_eq!(read_tag(&text), kind);
    }
    assert_eq!(ExtractionError::Forbidden.tag(), "FORBIDDEN:");
    assert_eq!(ExtractionError::Failed.tag(), "EXTRACTION_FAILED:");
    assert_eq!(read_tag("forbidden: x"), ExtractionError::Failed);
    assert_eq!(read_tag(""), ExtractionError::Failed);
    assert_eq!(
        all.map(|k| k.status()),
        [404, 503, 401, 400, 500]
    );
    assert_eq!(ExtractionError::Failed.message(), "Extraction failed");
    assert_eq!(ExtractionError::Unsupported.message(), "Unsupported or invalid URL");
    assert_eq!(
        ExtractionError::AuthRequired.message(),
        "This content requires login/authentication"
    );
    assert!(ExtractionError::NotFound.message().starts_with("Video not found."));
    assert!(ExtractionError::Forbidden.message().starts_with("Service temporarily unavailable"));
}

#[test]
fn steps_of_a_request() {
    assert_eq!(fetch_tiktok_data(true, 30, FetchEvent::Begin), FetchAction::AskCache);
    assert_eq!(
        fetch_tiktok_data(false, 30, FetchEvent::Begin),
        FetchAction::Extract { timeout_secs: 30 }
    );
    assert_eq!(
        fetch_tiktok_data(true, 30, FetchEvent::CacheAnswered { usable: true }),
        FetchAction::ServeCached
    );
    assert_eq!(
        fetch_tiktok_data(true, 45, FetchEvent::CacheAnswered { usable: false }),
        FetchAction::Extract { timeout_secs: 45 }
    );
    let done = |outcome| fetch_tiktok_data(true, 30, FetchEvent::Extracted(outcome));
    assert_eq!(
        done(Extraction::Answered { readable: true }),
        FetchAction::ServeFresh { cache_for: Some(300) }
    );
    assert_eq!(
        fetch_tiktok_data(false, 30, FetchEvent::Extracted(Extraction::Answered { readable: true })),
        FetchAction::ServeFresh { cache_for: None }
    );
    assert_eq!(
        done(Extraction::Answered { readable: false }),
        FetchAction::Reject { status: 500, reason: Rejection::Unreadable, failover: false }
    );
    assert_eq!(
        done(Extraction::Failed(ExtractionError::Forbidden)),
        FetchAction::Reject {
            status: 503,
            reason: Rejection::Extraction(ExtractionError::Forbidden),
            failover: true
        }
    );
    assert_eq!(
        done(Extraction::Failed(ExtractionError::NotFound)),
        FetchAction::Reject {
            status: 404,
            reason: Rejection::Extraction(ExtractionError::NotFound),
            failover: false
        }
    );
    assert_eq!(
        done(Extraction::Crashed),
        FetchAction::Reject { status: 500, reason: Rejection::Crashed, failover: false }
    );
    assert_eq!(
        done(Extraction::TimedOut),
        FetchAction::Reject { status: 408, reason: Rejection::TimedOut, failover: false }
    );
    assert_eq!(reject(Rejection::TimedOut), done(Extraction::TimedOut));
    assert_eq!(Rejection::Unreadable.message(), "Failed to parse extraction result");
    assert_eq!(Rejection::Crashed.message(), "Internal server error");
    assert_eq!(
        Rejection::TimedOut.message(),
        "Request timeout after extraction took too long"
    );
    assert_eq!(
        Rejection::Extraction(ExtractionError::Failed).message(),
        "Extraction failed"
    );
}

#[test]
fn health_reports() {
    let mut s =
        Settings::from_env(&vars(&[("INSTANCE_ID", "i1"), ("INSTANCE_REGION", "sg")])).unwrap();
    assert_eq!(NO_VPN_PORT, 8000);
    assert!(!checks_vpn(&s));
    let r = health_handler(&s, None, Some((ControlReply::Status(200), true)));
    assert_eq!(r.instance_id, "i1");
    assert_eq!(r.instance_region, "sg");
    assert_eq!(r.port, 3021);
    assert_eq!(r.redis, StoreHealth::Disconnected);
    assert!(!r.caching_enabled);
    assert_eq!(r.vpn, None);
    s.gluetun_control_port = 8001;
    assert!(checks_vpn(&s));
    let r = health_handler(&s, Some(true), Some((ControlReply::Status(200), true)));
    assert_eq!(r.redis, StoreHealth::Connected);
    assert!(r.caching_enabled);
    assert_eq!(r.vpn, Some(VpnHealth::Connected));
    let r = health_handler(&s, Some(false), None);
    assert_eq!(r.redis, StoreHealth::Error);
    assert!(r.caching_enabled);
    assert_eq!(r.vpn, None);
    assert_eq!(vpn_health(ControlReply::Status(200), false), None);
    assert_eq!(vpn_health(ControlReply::Status(401), true), Some(VpnHealth::ErrorStatus(401)));
    assert_eq!(vpn_health(ControlReply::Unreachable, true), Some(VpnHealth::Unreachable));
    assert_eq!(StoreHealth::Connected.as_str(), "connected");
    assert_eq!(StoreHealth::Error.as_str(), "error");
    assert_eq!(StoreHealth::Disconnected.as_str(), "disconnected");
}

#[test]
fn folders_that_are_due() {
    assert_eq!(CLEANUP_INTERVAL_SECS, 15 * 60);
    assert_eq!(MAX_FOLDER_AGE_SECS, 3600);
    let dir = |modified| FolderEntry { is_dir: true, modified };
    assert!(cleanup_folder(&dir(Some(0)), 3601, 3600));
    assert!(!cleanup_folder(&dir(Some(0)), 3600, 3600));
    assert!(!cleanup_folder(&dir(Some(5000)), 10, 3600));
    assert!(!cleanup_folder(&dir(None), u64::MAX, 0));
    assert!(!cleanup_folder(&FolderEntry { is_dir: false, modified: Some(0) }, 9999, 1));
    let entries = vec![
        dir(Some(100)),
        FolderEntry { is_dir: false, modified: Some(100) },
        dir(Some(9000)),
        dir(None),
        dir(Some(6399)),
        dir(Some(6400)),
    ];
    assert_eq!(cleanup_old_folders(&entries, 10_000, 3600), vec![0, 4]);
    assert_eq!(cleanup_old_folders(&vec![], 10_000, 3600), Vec::<usize>::new());
}

fn raw(id: &str, url: Option<&str>) -> RawFormat {
    RawFormat {
        format_id: Some(id.to_string()),
        url: url.map(|s| s.to_string()),
        vcodec: None,
        acodec: None,
        height: None,
        width: None,
        resolution: None,
        video_ext: None,
        protocol: None,
        filesize: None,
        filesize_approx: None,
        bitrate: Bitrate::Missing,
        http_headers: vec![],
        other_headers: vec![],
        cookies: None,
    }
}

fn post(formats: Vec<RawFormat>) -> MediaInfo {
    MediaInfo {
        id: Some("p1".to_string()),
        title: None,
        fulltitle: None,
        description: None,
        uploader: Some("Al Ice!".to_string()),
        uploader_id: None,
        channel: Some("chan".to_string()),
        artist: None,
        thumbnail: None,
        thumbnails: vec![],
        duration_ms: 0,
        duration_secs: None,
        view_count: None,
        like_count: None,
        comment_count: None,
        repost_count: None,
        upload_date: None,
        extractor: None,
        kind: None,
        cookies: None,
        http_headers: vec![],
        formats,
        entries: vec![],
    }
}

#[test]
fn plans_for_slideshows() {
    let data = post(vec![
        raw("image-0", Some("https://c.example/0.jpg")),
        raw("image-1", None),
        raw("audio", Some("https://c.example/a.mp3")),
        raw("image-2", Some("https://c.example/2.jpg")),
    ]);
    let plan = plan_slideshow(&data, 1_700_000_000_123).unwrap();
    assert_eq!(plan.audio_url, "https://c.example/a.mp3");
    assert_eq!(
        plan.image_urls,
        vec!["https://c.example/0.jpg".to_string(), "https://c.example/2.jpg".to_string()]
    );
    assert_eq!(plan.folder_name, "p1_unknown_1700000000123");
    assert_eq!(plan.filename, "Al_Ice__1700000000123.mp4");

    assert_eq!(
        plan_slideshow(&post(vec![raw("audio", Some("u"))]), 1),
        Err(SlideshowError::NotImagePost)
    );
    assert_eq!(
        plan_slideshow(&post(vec![raw("image-0", Some("u"))]), 1),
        Err(SlideshowError::NoAudio)
    );
    assert_eq!(
        plan_slideshow(&post(vec![raw("image-0", Some("u")), raw("audio", Some(""))]), 1),
        Err(SlideshowError::NoAudio)
    );
    assert_eq!(
        plan_slideshow(&post(vec![raw("image-0", Some("u")), raw("audio", None)]), 1),
        Err(SlideshowError::NoAudio)
    );
    assert_eq!(SlideshowError::NotImagePost.message(), "Only image posts are supported");
    assert_eq!(SlideshowError::NoAudio.message(), "Could not find audio URL");
    assert_eq!(SlideshowError::NoImagePaths.message(), "No image paths provided");
    assert_eq!(SlideshowError::TooLong.message(), "Too many images");
}

#[test]
fn arguments_for_the_tool() {
    assert_eq!(SECONDS_PER_IMAGE, 4);
    let fit = "scale=w=1080:h=1920:force_original_aspect_ratio=decrease,pad=1080:1920:(ow-iw)/2:(oh-ih)/2:color=black,setsar=1";
    assert_eq!(
        build_filter(2, 8),
        format!("[0:v]{fit}[v0];[1:v]{fit}[v1];[v0][v1]concat=n=2:v=1:a=0[vout];[2:a]atrim=0:8[aout]")
    );
    let paths = vec!["a.jpg".to_string(), "b.jpg".to_string()];
    let args = create_slideshow(&paths, "audio.mp3", "out.mp4", 4).unwrap();
    let expected: Vec<String> = [
        "-y", "-loop", "1", "-t", "4", "-i", "a.jpg", "-loop", "1", "-t", "4", "-i", "b.jpg",
        "-stream_loop", "-1", "-i", "audio.mp3", "-filter_complex",
    ]
    .iter()
    .map(|s| s.to_string())
    .chain(std::iter::once(build_filter(2, 8)))
    .chain(
        [
            "-map", "[vout]", "-map", "[aout]", "-pix_fmt", "yuv420p", "-fps_mode", "cfr",
            "-c:v", "libx264", "-preset", "medium", "-crf", "23", "-c:a", "aac", "out.mp4",
        ]
        .iter()
        .map(|s| s.to_string()),
    )
    .collect();
    assert_eq!(args, expected);
    assert_eq!(
        create_slideshow(&vec![], "a", "o", 4),
        Err(SlideshowError::NoImagePaths)
    );
}

#[test]
fn kinds_of_failure_for_clients() {
    assert_eq!(ErrorKind::of_token(TokenError::Expired), ErrorKind::Expired);
    assert_eq!(ErrorKind::of_token(TokenError::BadEncoding), ErrorKind::BadRequest);
    assert_eq!(ErrorKind::of_token(TokenError::BadText), ErrorKind::BadRequest);
    assert_eq!(ErrorKind::of_session(SessionError::SessionExpired), ErrorKind::Expired);
    assert_eq!(ErrorKind::of_session(SessionError::FormatNotFound), ErrorKind::BadRequest);
    assert_eq!(ErrorKind::of_proxy(ProxyError::MissingData), ErrorKind::BadRequest);
    assert_eq!(ErrorKind::of_proxy(ProxyError::MissingAuthor), ErrorKind::BadRequest);
    assert_eq!(ErrorKind::of_proxy(ProxyError::MissingType), ErrorKind::BadRequest);
    assert_eq!(ErrorKind::of_proxy(ProxyError::MissingUrl), ErrorKind::BadRequest);
    assert_eq!(
        ErrorKind::of_proxy(ProxyError::BadToken(TokenError::Expired)),
        ErrorKind::Expired
    );
    assert_eq!(
        ErrorKind::of_proxy(ProxyError::UpstreamUnavailable { status: 403 }),
        ErrorKind::Blocked
    );
    assert_eq!(
        ErrorKind::of_proxy(ProxyError::UpstreamUnavailable { status: 500 }),
        ErrorKind::UpstreamUnavailable
    );
    assert_eq!(
        ErrorKind::of_proxy(ProxyError::UpstreamUnreachable),
        ErrorKind::UpstreamUnavailable
    );
    assert_eq!(ErrorKind::of_request(RequestError::MissingUrl), ErrorKind::BadRequest);
    assert_eq!(
        ErrorKind::of_rejection(Rejection::Extraction(ExtractionError::Forbidden)),
        ErrorKind::Blocked
    );
    assert_eq!(
        ErrorKind::of_rejection(Rejection::Extraction(ExtractionError::NotFound)),
        ErrorKind::UpstreamUnavailable
    );
    assert_eq!(
        ErrorKind::of_rejection(Rejection::Extraction(ExtractionError::Unsupported)),
        ErrorKind::BadRequest
    );
    assert_eq!(ErrorKind::of_rejection(Rejection::TimedOut), ErrorKind::Timeout);
    assert_eq!(ErrorKind::of_rejection(Rejection::Crashed), ErrorKind::Internal);
    assert_eq!(ErrorKind::of_rejection(Rejection::Unreadable), ErrorKind::Internal);
    assert_eq!(ErrorKind::of_vpn(VpnError::MaxAttemptsReached), ErrorKind::Blocked);
    assert_eq!(ErrorKind::of_vpn(VpnError::RequestFailed), ErrorKind::Internal);
    assert!(ErrorKind::Blocked.is_block_signal());
    assert!(!ErrorKind::UpstreamUnavailable.is_block_signal());
    assert_eq!(ErrorKind::Blocked.as_str(), "blocked");
    assert_eq!(ErrorKind::Expired.as_str(), "expired");
    assert_eq!(ErrorKind::Timeout.as_str(), "timeout");
    assert_eq!(ErrorKind::Internal.as_str(), "internal");
    assert_eq!(ErrorKind::BadRequest.as_str(), "bad request");
    assert_eq!(ErrorKind::UpstreamUnavailable.as_str(), "upstream unavailable");
}

#[test]
fn an_empty_key_is_refused() {
    let r = Settings::from_env(&vars(&[("PORT", "8080"), ("ENCRYPTION_KEY", "")]));
    assert_eq!(r.err(), Some(ConfigError::EmptyKey));
    assert_eq!(ConfigError::EmptyKey.message(), "ENCRYPTION_KEY must not be empty");
    // The first value of a variable counts, so an empty one is not mended by a later one.
    let r = Settings::from_env(&vars(&[("ENCRYPTION_KEY", ""), ("ENCRYPTION_KEY", "k")]));
    assert_eq!(r.err(), Some(ConfigError::EmptyKey));
    let r = Settings::from_env(&vars(&[("ENCRYPTION_KEY", "k"), ("ENCRYPTION_KEY", "")]));
    assert_eq!(r.unwrap().encryption_key.as_str(), "k");
}

#[test]
fn every_setting_read_has_a_key() {
    for key in ["", " ", "k", "overflow"] {
        match Settings::from_env(&vars(&[("ENCRYPTION_KEY", key)])) {
            Ok(s) => {
                assert!(!key.is_empty());
                assert_eq!(s.encryption_key.as_str(), key);
                assert_eq!(Some(s.encryption_key), TokenKey::new(key.to_string()));
            }
            Err(e) => {
                assert!(key.is_empty());
                assert_eq!(e, ConfigError::EmptyKey);
                assert_eq!(TokenKey::new(key.to_string()), None);
            }
        }
    }
}

#[test]
fn an_address_of_another_site_is_refused() {
    assert_eq!(
        validate_source_url("https://example.com/v", Platforms::TikTok),
        Err(RequestError::UnsupportedUrl)
    );
    assert_eq!(
        validate_source_url("https://example.com/v", Platforms::TikTokAndX),
        Err(RequestError::UnsupportedUrl)
    );
    assert_eq!(
        check_source_url("https://example.com/v", "https://example.com/v", Platforms::TikTokAndX),
        Err(RequestError::UnsupportedUrl)
    );
}

#[test]
fn a_checked_address_goes_by_its_lower_case_form() {
    assert_eq!(
        check_source_url("https://WWW.TikTok.com/@a", "https://www.tiktok.com/@a", Platforms::TikTok),
        Ok("https://WWW.TikTok.com/@a".to_string())
    );
    // What is handed in is what is looked at: capitals are no match.
    assert_eq!(
        check_source_url("https://WWW.TikTok.com/@a", "https://WWW.TikTok.com/@a", Platforms::TikTok),
        Err(RequestError::UnsupportedUrl)
    );
    assert_eq!(check_source_url("", "tiktok.com", Platforms::TikTok), Err(RequestError::MissingUrl));
    assert_eq!(
        check_source_url("https://x.com/a", "https://x.com/a", Platforms::TikTok),
        Err(RequestError::UnsupportedUrl)
    );
    assert_eq!(
        check_source_url("https://x.com/a", "https://x.com/a", Platforms::TikTokAndX),
        Ok("https://x.com/a".to_string())
    );
}

#[test]
fn white_space_of_any_script_is_trimmed() {
    assert_eq!(
        validate_source_url("\u{3000}\t https://tiktok.com/x \u{a0}\u{2028}\n", Platforms::TikTok),
        Ok("https://tiktok.com/x".to_string())
    );
    assert_eq!(
        validate_source_url(" \u{85}\u{1680}\u{2000}\u{200a}\u{2029}\u{202f}\u{205f}\r\u{b}\u{c}", Platforms::TikTok),
        Err(RequestError::MissingUrl)
    );
    // A zero-width space is no white space, so the address is not empty.
    assert_eq!(
        validate_source_url("\u{200b}", Platforms::TikTok),
        Err(RequestError::UnsupportedUrl)
    );
    // White space inside stays.
    assert_eq!(
        validate_source_url(" https://tiktok.com/a b ", Platforms::TikTok),
        Ok("https://tiktok.com/a b".to_string())
    );
}

#[test]
fn a_message_is_sorted_by_its_lower_case_form() {
    assert_eq!(classify_message("Video Not Found", "video not found"), ExtractionError::NotFound);
    assert_eq!(classify_message("Video Not Found", "Video Not Found"), ExtractionError::Failed);
    assert_eq!(classify_message("HTTP Error 403", "http error 403"), ExtractionError::Forbidden);
    // The number is looked for in the message as it came.
    assert_eq!(classify_message("HTTP Error 403", ""), ExtractionError::Forbidden);
    assert_eq!(classify_message("", "forbidden"), ExtractionError::Forbidden);
    assert_eq!(classify_message("", "please login"), ExtractionError::AuthRequired);
    assert_eq!(classify_message("", "unsupported url: x"), ExtractionError::Unsupported);
    assert_eq!(classify_message("", "unable to download 403"), ExtractionError::NotFound);
    assert_eq!(classify_message("boom", "boom"), ExtractionError::Failed);
}

#[test]
fn what_the_session_gateway_answers_to_a_failure() {
    assert_eq!(download_failure(Extraction::Answered { readable: true }), None);
    let table: [(Extraction, DownloadFailure, u16, &str, &str); 8] = [
        (
            Extraction::Answered { readable: false },
            DownloadFailure::Unreadable,
            500,
            "INTERNAL_ERROR",
            "Failed to parse extraction result",
        ),
        (
            Extraction::Failed(ExtractionError::NotFound),
            DownloadFailure::Extraction(ExtractionError::NotFound),
            404,
            "HTTP_404",
            "Video not found or may be private/deleted",
        ),
        (
            Extraction::Failed(ExtractionError::Forbidden),
            DownloadFailure::Extraction(ExtractionError::Forbidden),
            503,
            "HTTP_503",
            "Service temporarily unavailable due to IP block, retrying with different endpoint",
        ),
        (
            Extraction::Failed(ExtractionError::AuthRequired),
            DownloadFailure::Extraction(ExtractionError::AuthRequired),
            401,
            "HTTP_401",
            "This content requires login/authentication",
        ),
        (
            Extraction::Failed(ExtractionError::Unsupported),
            DownloadFailure::Extraction(ExtractionError::Unsupported),
            400,
            "HTTP_400",
            "Unsupported or invalid URL",
        ),
        (
            Extraction::Failed(ExtractionError::Failed),
            DownloadFailure::Extraction(ExtractionError::Failed),
            500,
            "HTTP_500",
            "Extraction failed",
        ),
        (
            Extraction::Crashed,
            DownloadFailure::Crashed,
            500,
            "INTERNAL_ERROR",
            "Internal server error",
        ),
        (
            Extraction::TimedOut,
            DownloadFailure::TimedOut,
            504,
            "HTTP_504",
            "Request timeout - video extraction took too long",
        ),
    ];
    for (outcome, failure, status, code, message) in table {
        assert_eq!(download_failure(outcome), Some(failure));
        assert_eq!(failure.status(), status);
        assert_eq!(failure.code(), code);
        assert_eq!(failure.message(), message);
        assert_eq!(
            failure.is_block(),
            failure == DownloadFailure::Extraction(ExtractionError::Forbidden)
        );
    }
    assert_eq!(DownloadFailure::StoreFailed.status(), 500);
    assert_eq!(DownloadFailure::StoreFailed.code(), "REDIS_ERROR");
    assert_eq!(DownloadFailure::StoreFailed.message(), "Failed to create download session");
    assert_eq!(ErrorKind::of_download(DownloadFailure::TimedOut), ErrorKind::Timeout);
    assert_eq!(
        ErrorKind::of_download(DownloadFailure::Extraction(ExtractionError::Forbidden)),
        ErrorKind::Blocked
    );
    assert_eq!(ErrorKind::of_download(DownloadFailure::StoreFailed), ErrorKind::Internal);
}

#[test]
fn a_key_is_a_text_that_is_not_empty() {
    assert_eq!(TokenKey::new(String::new()), None);
    let key = TokenKey::new("k1".to_string()).unwrap();
    assert_eq!(key.as_str(), "k1");
    assert_eq!(key.clone(), key);
    assert_eq!(key.clone().as_str(), "k1");
    assert_eq!(TokenKey::new(" ".to_string()).unwrap().as_str(), " ");
    assert_ne!(TokenKey::new("k2".to_string()), Some(key));
}

#[test]
fn an_address_of_another_site_is_answered_400_and_nothing_is_asked() {
    let action = download_step("https://example.com/v", DownloadEvent::Begin);
    assert_eq!(
        action,
        DownloadAction::Refuse { status: 400, reason: RequestError::UnsupportedUrl }
    );
    let DownloadAction::Refuse { status, reason } = action else { unreachable!() };
    assert_eq!(status, 400);
    assert_eq!(reason.status(), 400);
    assert_eq!(reason.code(), "HTTP_400");
    assert_eq!(
        reason.message(Platforms::TikTokAndX),
        "Unsupported URL. Only TikTok and X (Twitter) URLs are supported."
    );
    assert_eq!(REFUSAL_STATUS, 400);
}

#[test]
fn a_missing_address_is_told_in_the_words_of_the_gateway() {
    for url in ["", "   ", "\n\t"] {
        assert_eq!(
            download_step(url, DownloadEvent::Begin),
            DownloadAction::Refuse { status: 400, reason: RequestError::MissingUrl }
        );
    }
    assert_eq!(RequestError::MissingUrl.message(Platforms::TikTokAndX), "URL is required");
    assert_eq!(RequestError::MissingUrl.message(Platforms::TikTok), "URL parameter is required");
    assert_eq!(RequestError::MissingUrl.status(), 400);
    assert_eq!(RequestError::MissingUrl.code(), "HTTP_400");
}

#[test]
fn the_steps_of_a_request_to_the_session_gateway() {
    let url = " https://x.com/a/status/1 ";
    assert_eq!(
        download_step(url, DownloadEvent::Begin),
        DownloadAction::Extract { timeout_secs: 45 }
    );
    assert_eq!(source_address(url), "https://x.com/a/status/1");
    assert_eq!(
        download_step(url, DownloadEvent::Extracted(Extraction::Answered { readable: true })),
        DownloadAction::Keep { ttl_secs: 300 }
    );
    assert_eq!(download_step(url, DownloadEvent::Stored { kept: true }), DownloadAction::Answer);
    assert_eq!(
        download_step(url, DownloadEvent::Stored { kept: false }),
        DownloadAction::Fail { status: 500, failure: DownloadFailure::StoreFailed }
    );
    let failures = [
        (Extraction::Answered { readable: false }, 500, DownloadFailure::Unreadable),
        (Extraction::Crashed, 500, DownloadFailure::Crashed),
        (Extraction::TimedOut, 504, DownloadFailure::TimedOut),
        (
            Extraction::Failed(ExtractionError::NotFound),
            404,
            DownloadFailure::Extraction(ExtractionError::NotFound),
        ),
        (
            Extraction::Failed(ExtractionError::Forbidden),
            503,
            DownloadFailure::Extraction(ExtractionError::Forbidden),
        ),
    ];
    for (outcome, status, failure) in failures {
        assert_eq!(
            download_step(url, DownloadEvent::Extracted(outcome)),
            DownloadAction::Fail { status, failure }
        );
    }
    // What follows the check of the address goes by what the check gave.
    assert_eq!(
        download_begin(&Ok("anything".to_string())),
        DownloadAction::Extract { timeout_secs: 45 }
    );
    assert_eq!(
        download_begin(&Err(RequestError::UnsupportedUrl)),
        DownloadAction::Refuse { status: 400, reason: RequestError::UnsupportedUrl }
    );
}

#[test]
fn the_settings_of_a_session_gateway() {
    let s = SessionSettings::from_env(&vec![]);
    assert_eq!(s.port, 8025);
    assert_eq!(s.base_url, "http://localhost:8025");
    assert_eq!(s.redis_url, "redis://127.0.0.1:6379");
    let s = SessionSettings::from_env(&vars(&[
        ("PORT", "9000"),
        ("BASE_URL", "https://s.example"),
        ("REDIS_URL", "redis://store:6380"),
        ("ENCRYPTION_KEY", ""),
    ]));
    assert_eq!(s.port, 9000);
    assert_eq!(s.base_url, "https://s.example");
    assert_eq!(s.redis_url, "redis://store:6380");
    assert_eq!(SessionSettings::from_env(&vars(&[("PORT", "65536")])).port, 8025);
    assert_eq!(RedisCache::at(&s.redis_url).url, "redis://store:6380");
    assert_eq!(RedisCache::connect("redis", 6379).url, "redis://redis:6379");
}
