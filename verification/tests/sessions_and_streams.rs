use media_gateway::cache::{
    cached_value, metadata_key, session_key, to_hex_lower, url_hash, RedisCache, StoreCommand,
    StoreReply, METADATA_TTL_SECS, SESSION_TTL_SECS,
};
use media_gateway::encryption::TokenError;
use media_gateway::gateway::{relay_upstream_reply, BLOCK_STATUS};
use media_gateway::session::{
    requested_format, session_or_gone, FormatInfo, SessionData, SessionError,
};
use media_gateway::stream::{
    payload_or_refusal, 
    content_disposition, content_length, content_type_info, download_handler, extension_for,
    plain, read_link, read_link_at, safe_filename, sanitize, session_upstream_headers, session_upstream_headers_given, lowered_names, stream, stream_content_type_info,
    stream_filename, stream_from_cdn, stream_handler, stream_response, token_of,
    upstream_headers, DownloadQuery, ProxyError, ProxyRequest, TokenPayload, UpstreamReply,
};
use media_gateway::vpn::{Trigger, VpnError, VpnReconnectState};

fn info(url: &str, resolution: &str, content_type: &str) -> FormatInfo {
    FormatInfo {
        url: url.to_string(),
        http_headers: vec![
            ("Referer".to_string(), "https://site.example/".to_string()),
            ("COOKIE".to_string(), "stale=1".to_string()),
        ],
        quality: "720p (progressive)".to_string(),
        resolution: resolution.to_string(),
        content_type: content_type.to_string(),
    }
}

fn two_format_session() -> SessionData {
    let mut s = SessionData::new("vid1".to_string(), Some("sid=abc".to_string()));
    s.insert("a1".to_string(), info("https://cdn.example/a.m4a", "audio only", "audio/mp4"));
    s.insert("v720".to_string(), info("https://cdn.example/v.mp4", "1280x720", "video/mp4"));
    s
}

#[test]
fn best_is_the_one_with_a_picture() {
    let s = two_format_session();
    assert_eq!(s.resolve("best").unwrap().url, "https://cdn.example/v.mp4");
    assert_eq!(s.resolve_index("best"), Some(1));
}

#[test]
fn best_audio_is_the_one_with_sound_alone() {
    let s = two_format_session();
    assert_eq!(s.resolve("best_audio").unwrap().url, "https://cdn.example/a.m4a");
}

#[test]
fn an_unknown_id_is_format_not_found() {
    let s = two_format_session();
    assert_eq!(s.resolve("nope"), Err(SessionError::FormatNotFound));
    assert_eq!(s.resolve("best_image"), Err(SessionError::FormatNotFound));
    assert_eq!(s.resolve(""), Err(SessionError::FormatNotFound));
}

#[test]
fn an_id_resolves_to_its_own_variant() {
    let s = two_format_session();
    assert_eq!(s.resolve("a1").unwrap().resolution, "audio only");
    assert_eq!(s.resolve("v720").unwrap().resolution, "1280x720");
}

#[test]
fn best_image_goes_by_content_type() {
    let mut s = two_format_session();
    s.insert("thumb".to_string(), info("https://cdn.example/t.jpg", "", "image/jpeg"));
    assert_eq!(s.resolve("best_image").unwrap().url, "https://cdn.example/t.jpg");
    // An image without a resolution is no video.
    assert_eq!(s.resolve("best").unwrap().url, "https://cdn.example/v.mp4");
}

#[test]
fn the_first_of_a_kind_wins() {
    let mut s = SessionData::new("v".to_string(), None);
    s.insert("low".to_string(), info("https://cdn.example/low.mp4", "640x360", "video/mp4"));
    s.insert("high".to_string(), info("https://cdn.example/high.mp4", "1920x1080", "video/mp4"));
    assert_eq!(s.resolve("best").unwrap().url, "https://cdn.example/low.mp4");
}

#[test]
fn inserting_under_an_id_twice_replaces_in_place() {
    let mut s = two_format_session();
    s.insert("a1".to_string(), info("https://cdn.example/new.m4a", "audio only", "audio/mp4"));
    assert_eq!(s.formats.len(), 2);
    assert_eq!(s.formats[0].0, "a1");
    assert_eq!(s.formats[0].1.url, "https://cdn.example/new.m4a");
    assert_eq!(s.find("v720"), Some(1));
    assert_eq!(s.find("zzz"), None);
}

#[test]
fn a_missing_session_is_gone() {
    assert_eq!(session_or_gone(None), Err(SessionError::SessionExpired));
    let s = two_format_session();
    assert_eq!(session_or_gone(Some(s.clone())), Ok(s));
}

#[test]
fn the_default_format_is_best() {
    assert_eq!(requested_format(None), "best");
    assert_eq!(requested_format(Some("http-2176")), "http-2176");
}

#[test]
fn session_ids_are_hyphenated_and_differ() {
    let a = SessionData::new_id();
    let b = SessionData::new_id();
    assert_eq!(a.len(), 36);
    for (i, c) in a.chars().enumerate() {
        if i == 8 || i == 13 || i == 18 || i == 23 {
            assert_eq!(c, '-');
        } else {
            assert!(c.is_ascii_digit() || ('a'..='f').contains(&c));
        }
    }
    assert_ne!(a, b);
    // The version and the variant stand in their places.
    for id in [a, b] {
        assert_eq!(id.as_bytes()[14], b'4');
        assert!(matches!(id.as_bytes()[19], b'8' | b'9' | b'a' | b'b'));
    }
}

#[test]
fn headers_are_dropped_by_their_lower_case_names() {
    let f = info("u", "x", "video/mp4");
    assert_eq!(lowered_names(&f.http_headers), vec!["referer".to_string(), "cookie".to_string()]);
    let kept = |names: &[&str], cookies: Option<&str>| {
        let names: Vec<String> = names.iter().map(|n| n.to_string()).collect();
        session_upstream_headers_given(&f, &names, &cookies.map(|c| c.to_string()))
    };
    let referer = ("Referer".to_string(), "https://site.example/".to_string());
    let stale = ("COOKIE".to_string(), "stale=1".to_string());
    let identity = ("Accept-Encoding".to_string(), "identity".to_string());
    assert_eq!(kept(&["referer", "cookie"], None), vec![referer.clone(), identity.clone()]);
    assert_eq!(
        kept(&["referer", "cookie"], Some("sid=1")),
        vec![referer.clone(), identity.clone(), ("Cookie".to_string(), "sid=1".to_string())]
    );
    // What is handed in is what is looked at.
    assert_eq!(kept(&["cookie", "referer"], None), vec![stale.clone(), identity.clone()]);
    assert_eq!(
        kept(&["referer", "COOKIE"], None),
        vec![referer.clone(), stale.clone(), identity.clone()]
    );
    // A header with no name at its place is kept.
    assert_eq!(kept(&["cookie"], None), vec![stale.clone(), identity.clone()]);
    assert_eq!(kept(&[], None), vec![referer, stale, identity]);
}

#[test]
fn cache_keys() {
    assert_eq!(url_hash("hello world"), "5eb63bbbe01eeed093cb22bb8f5acdc3");
    assert_eq!(url_hash(""), "d41d8cd98f00b204e9800998ecf8427e");
    assert_eq!(
        metadata_key("hello world"),
        "tiktok:metadata:5eb63bbbe01eeed093cb22bb8f5acdc3"
    );
    assert_eq!(session_key("abc-123"), "download:abc-123");
    assert_eq!(to_hex_lower(&[0x00, 0x0f, 0xa5, 0xff]), "000fa5ff");
    assert_eq!(METADATA_TTL_SECS, 300);
    assert_eq!(SESSION_TTL_SECS, 300);
}

#[test]
fn cache_commands() {
    let cache = RedisCache::connect("redis", 6379);
    assert_eq!(cache.url, "redis://redis:6379");
    assert_eq!(
        cache.get_metadata("hello world"),
        StoreCommand::Get { key: "tiktok:metadata:5eb63bbbe01eeed093cb22bb8f5acdc3".to_string() }
    );
    assert_eq!(
        cache.set_metadata("hello world", "{}", 300),
        StoreCommand::SetEx {
            key: "tiktok:metadata:5eb63bbbe01eeed093cb22bb8f5acdc3".to_string(),
            value: "{}".to_string(),
            ttl_secs: 300
        }
    );
    assert_eq!(
        cache.invalidate("hello world"),
        StoreCommand::Del { key: "tiktok:metadata:5eb63bbbe01eeed093cb22bb8f5acdc3".to_string() }
    );
    assert_eq!(cache.ping(), StoreCommand::Ping);
    assert_eq!(
        cache.store_session("s1", "{\"a\":1}"),
        StoreCommand::SetEx {
            key: "download:s1".to_string(),
            value: "{\"a\":1}".to_string(),
            ttl_secs: 300
        }
    );
    assert_eq!(cache.get_session("s1"), StoreCommand::Get { key: "download:s1".to_string() });
}

#[test]
fn anything_but_a_value_is_absent() {
    assert_eq!(cached_value(StoreReply::Value("x".to_string())), Some("x".to_string()));
    assert_eq!(cached_value(StoreReply::Nil), None);
    assert_eq!(cached_value(StoreReply::Done), None);
    assert_eq!(cached_value(StoreReply::Failed), None);
    assert!(RedisCache::is_alive(&StoreReply::Value("PONG".to_string())));
    assert!(!RedisCache::is_alive(&StoreReply::Failed));
    assert!(!RedisCache::is_alive(&StoreReply::Nil));
}

#[test]
fn content_types_by_kind() {
    assert_eq!(content_type_info("video"), ("video/mp4", "mp4"));
    assert_eq!(content_type_info("mp3"), ("audio/mpeg", "mp3"));
    assert_eq!(content_type_info("audio"), ("audio/mpeg", "mp3"));
    assert_eq!(content_type_info("image"), ("image/jpeg", "jpg"));
    assert_eq!(content_type_info("pdf"), ("application/octet-stream", "bin"));
    assert_eq!(content_type_info(""), ("application/octet-stream", "bin"));
    assert_eq!(content_type_info("Video"), ("application/octet-stream", "bin"));
    assert_eq!(stream_content_type_info("audio"), ("audio/mpeg", "mp3"));
    assert_eq!(stream_content_type_info("mp3"), ("audio/mpeg", "mp3"));
    assert_eq!(stream_content_type_info("image"), ("video/mp4", "mp4"));
}

#[test]
fn file_names_are_made_safe() {
    assert_eq!(safe_filename("alice", "mp4"), "alice.mp4");
    assert_eq!(safe_filename("al ice/../x", "mp4"), "al_ice____x.mp4");
    assert_eq!(safe_filename("a_b-c.d", "mp3"), "a_b_c_d.mp3");
    assert_eq!(safe_filename("\"\r\nSet-Cookie: x", "jpg"), "___Set_Cookie__x.jpg");
    // One character, one underscore, however many bytes it has.
    assert_eq!(safe_filename("日本語", "mp4"), "___.mp4");
    assert_eq!(safe_filename("é", "mp4"), "_.mp4");
    assert_eq!(safe_filename("", "bin"), ".bin");
    assert_eq!(sanitize("Az09"), "Az09");
    assert_eq!(
        content_disposition("alice.mp4"),
        "attachment; filename=\"alice.mp4\""
    );
}

#[test]
fn labels_keep_letters_and_digits_of_any_script() {
    assert_eq!(plain("720p (progressive)"), "720p__progressive_");
    assert_eq!(plain("日本 1"), "日本_1");
    assert_eq!(extension_for("audio/mp4"), "m4a");
    assert_eq!(extension_for("image/png"), "jpg");
    assert_eq!(extension_for("video/webm"), "mp4");
    assert_eq!(extension_for(""), "mp4");
    assert_eq!(
        stream_filename("vid1", "best", "720p (hls)", "video/mp4"),
        "vid1_best_720p__hls_.mp4"
    );
}

fn payload() -> TokenPayload {
    TokenPayload {
        url: Some("https://cdn.example/a.mp4".to_string()),
        author: Some("alice".to_string()),
        file_type: Some("video".to_string()),
        filesize: Some(1234),
        http_headers: Some(vec![("Referer".to_string(), "https://t.example/".to_string())]),
    }
}

#[test]
fn a_download_needs_author_type_and_url() {
    let r = download_handler(&payload()).unwrap();
    assert_eq!(r.url, "https://cdn.example/a.mp4");
    assert_eq!(r.content_type, "video/mp4");
    assert_eq!(r.filename, "alice.mp4");
    assert_eq!(r.filesize, Some(1234));
    // None of the token's headers go upstream on this path.
    assert_eq!(r.headers, vec![("Accept-Encoding".to_string(), "identity".to_string())]);

    let mut p = payload();
    p.author = None;
    p.file_type = None;
    p.url = None;
    assert_eq!(download_handler(&p), Err(ProxyError::MissingAuthor));
    p.author = Some("".to_string());
    assert_eq!(download_handler(&p), Err(ProxyError::MissingAuthor));
    p.author = Some("a".to_string());
    assert_eq!(download_handler(&p), Err(ProxyError::MissingType));
    p.file_type = Some("".to_string());
    assert_eq!(download_handler(&p), Err(ProxyError::MissingType));
    p.file_type = Some("image".to_string());
    assert_eq!(download_handler(&p), Err(ProxyError::MissingUrl));
    p.url = Some("".to_string());
    assert_eq!(download_handler(&p), Err(ProxyError::MissingUrl));
}

#[test]
fn a_stream_needs_url_and_author() {
    let r = stream_handler(&payload()).unwrap();
    assert_eq!(r.content_type, "video/mp4");
    assert_eq!(
        r.headers,
        vec![
            ("Referer".to_string(), "https://t.example/".to_string()),
            ("Accept-Encoding".to_string(), "identity".to_string()),
        ]
    );
    let mut p = payload();
    p.file_type = None;
    p.http_headers = None;
    let r = stream_handler(&p).unwrap();
    assert_eq!((r.content_type.as_str(), r.filename.as_str()), ("video/mp4", "alice.mp4"));
    assert_eq!(r.headers, vec![("Accept-Encoding".to_string(), "identity".to_string())]);
    p.file_type = Some("mp3".to_string());
    let r = stream_handler(&p).unwrap();
    assert_eq!((r.content_type.as_str(), r.filename.as_str()), ("audio/mpeg", "alice.mp3"));
    p.url = None;
    p.author = None;
    assert_eq!(stream_handler(&p), Err(ProxyError::MissingUrl));
    p.url = Some("u".to_string());
    assert_eq!(stream_handler(&p), Err(ProxyError::MissingAuthor));
}

#[test]
fn an_empty_query_has_no_token() {
    assert_eq!(token_of(&DownloadQuery { data: String::new() }), Err(ProxyError::MissingData));
    assert_eq!(token_of(&DownloadQuery { data: "abc".to_string() }), Ok("abc"));
    assert_eq!(
        ProxyError::BadToken(TokenError::Expired),
        ProxyError::BadToken(TokenError::Expired)
    );
}

fn request(filesize: Option<i64>) -> ProxyRequest {
    ProxyRequest {
        url: "https://cdn.example/a.mp4".to_string(),
        headers: upstream_headers(&vec![]),
        content_type: "video/mp4".to_string(),
        filename: "alice.mp4".to_string(),
        filesize,
    }
}

fn answer(status: u16, length: Option<&str>) -> UpstreamReply {
    UpstreamReply::Answer {
        status,
        content_length: length.map(|s| s.to_string()),
        content_type: None,
    }
}

#[test]
fn the_known_size_is_preferred_over_upstreams() {
    let head = stream_from_cdn(&request(Some(5000)), &answer(200, Some("4999"))).unwrap();
    assert_eq!(head.content_length.as_deref(), Some("5000"));
    assert_eq!(head.content_type, "video/mp4");
    assert_eq!(head.content_disposition, "attachment; filename=\"alice.mp4\"");
    assert_eq!(head.filename, "alice.mp4");
    assert_eq!(head.x_filename.as_deref(), Some("alice.mp4"));
    assert_eq!(head.cache_control.as_deref(), Some("no-cache"));
    let head = stream_from_cdn(&request(Some(0)), &answer(200, Some("4999"))).unwrap();
    assert_eq!(head.content_length.as_deref(), Some("4999"));
    let head = stream_from_cdn(&request(Some(-1)), &answer(206, None)).unwrap();
    assert_eq!(head.content_length, None);
    let head = stream_from_cdn(&request(None), &answer(200, Some("7"))).unwrap();
    assert_eq!(head.content_length.as_deref(), Some("7"));
    assert_eq!(content_length(Some(i64::MAX), &None).as_deref(), Some("9223372036854775807"));
}

#[test]
fn an_upstream_failure_is_upstream_unavailable() {
    assert_eq!(
        stream_from_cdn(&request(None), &answer(403, None)),
        Err(ProxyError::UpstreamUnavailable { status: 403 })
    );
    assert_eq!(
        stream_from_cdn(&request(None), &answer(500, Some("10"))),
        Err(ProxyError::UpstreamUnavailable { status: 500 })
    );
    assert_eq!(
        stream_from_cdn(&request(None), &answer(301, None)),
        Err(ProxyError::UpstreamUnavailable { status: 301 })
    );
    assert_eq!(
        stream_from_cdn(&request(None), &UpstreamReply::Unreachable),
        Err(ProxyError::UpstreamUnreachable)
    );
}

#[test]
fn a_blocked_stream_triggers_one_failover_attempt() {
    assert_eq!(BLOCK_STATUS, 403);
    let mut state = VpnReconnectState::new();
    let (head, signal) = relay_upstream_reply(&mut state, &request(None), &answer(403, None), 1000000);
    assert_eq!(head, Err(ProxyError::UpstreamUnavailable { status: 403 }));
    assert_eq!(signal, Some(Ok(Trigger::Dispatch { attempt: 1, wait_secs: 0 })));
    assert_eq!(state.attempts, 1);
    // A second block right after is swallowed.
    let (head, signal) = relay_upstream_reply(&mut state, &request(None), &answer(403, None), 1001000);
    assert_eq!(head, Err(ProxyError::UpstreamUnavailable { status: 403 }));
    assert_eq!(signal, Some(Ok(Trigger::Swallowed)));
    assert_eq!(state.attempts, 1);
}

#[test]
fn other_answers_are_no_block_signal() {
    let mut state = VpnReconnectState::new();
    let (head, signal) = relay_upstream_reply(&mut state, &request(None), &answer(500, None), 1000000);
    assert_eq!(head, Err(ProxyError::UpstreamUnavailable { status: 500 }));
    assert_eq!(signal, None);
    let (head, signal) = relay_upstream_reply(&mut state, &request(None), &answer(200, None), 1000000);
    assert!(head.is_ok());
    assert_eq!(signal, None);
    let (_, signal) =
        relay_upstream_reply(&mut state, &request(None), &UpstreamReply::Unreachable, 1000000);
    assert_eq!(signal, None);
    assert_eq!(state, VpnReconnectState::new());
    let mut spent = VpnReconnectState { last_reconnect: 0, attempts: 3 };
    let (_, signal) = relay_upstream_reply(&mut spent, &request(None), &answer(403, None), 9999000);
    assert_eq!(signal, Some(Err(VpnError::MaxAttemptsReached)));
}

#[test]
fn a_session_stream_sends_the_sessions_cookies_and_not_the_variants() {
    let s = two_format_session();
    let r = stream(&s, "best").unwrap();
    assert_eq!(r.url, "https://cdn.example/v.mp4");
    assert_eq!(
        r.headers,
        vec![
            ("Referer".to_string(), "https://site.example/".to_string()),
            ("Accept-Encoding".to_string(), "identity".to_string()),
            ("Cookie".to_string(), "sid=abc".to_string()),
        ]
    );
    assert_eq!(r.filename, "vid1_best_720p__progressive_.mp4");
    assert_eq!(r.content_type, "video/mp4");
    assert_eq!(stream(&s, "nope"), Err(SessionError::FormatNotFound));
    let f = info("u", "x", "video/mp4");
    assert_eq!(
        session_upstream_headers(&f, &None),
        vec![
            ("Referer".to_string(), "https://site.example/".to_string()),
            ("Accept-Encoding".to_string(), "identity".to_string()),
        ]
    );
}

#[test]
fn the_answer_for_a_session_stream_follows_upstreams_content_type() {
    let s = two_format_session();
    let f = s.resolve("a1").unwrap();
    let reply = UpstreamReply::Answer {
        status: 200,
        content_length: Some("99".to_string()),
        content_type: Some("audio/webm".to_string()),
    };
    let head = stream_response(&s, "a1", f, &reply).unwrap();
    assert_eq!(head.content_type, "audio/webm");
    assert_eq!(head.filename, "vid1_a1_720p__progressive_.m4a");
    assert_eq!(
        head.content_disposition,
        "attachment; filename=\"vid1_a1_720p__progressive_.m4a\""
    );
    assert_eq!(head.content_length.as_deref(), Some("99"));
    assert_eq!(head.x_filename, None);
    assert_eq!(head.cache_control, None);
    let head = stream_response(&s, "a1", f, &answer(200, None)).unwrap();
    assert_eq!(head.content_type, "audio/mp4");
    assert_eq!(
        stream_response(&s, "a1", f, &answer(403, None)),
        Err(ProxyError::UpstreamUnavailable { status: 403 })
    );
    assert_eq!(
        stream_response(&s, "a1", f, &UpstreamReply::Unreachable),
        Err(ProxyError::UpstreamUnreachable)
    );
}

#[test]
fn what_clients_are_told_of_proxy_failures() {
    let all = [
        (ProxyError::MissingData, 400, "Encrypted data parameter is required"),
        (
            ProxyError::BadToken(TokenError::BadEncoding),
            400,
            "Decryption failed: Base64 decode failed",
        ),
        (ProxyError::BadToken(TokenError::BadText), 400, "Decryption failed: UTF-8 decode failed"),
        (
            ProxyError::BadToken(TokenError::Expired),
            400,
            "Decryption failed: Encrypted data has expired",
        ),
        (ProxyError::BadPayload, 400, "Invalid decrypted data"),
        (ProxyError::MissingAuthor, 400, "Invalid decrypted data: missing author"),
        (ProxyError::MissingType, 400, "Invalid decrypted data: missing type"),
        (ProxyError::MissingUrl, 400, "No download URL provided"),
        (ProxyError::UpstreamUnavailable { status: 403 }, 502, "CDN returned status 403"),
        (ProxyError::UpstreamUnreachable, 502, "CDN request failed"),
    ];
    for (e, status, message) in all {
        assert_eq!(e.status(), status);
        assert_eq!(e.message(), message);
    }
}

#[test]
fn what_clients_are_told_of_session_failures() {
    assert_eq!(SessionError::SessionExpired.status(), 410);
    assert_eq!(SessionError::FormatNotFound.status(), 400);
    assert_eq!(SessionError::SessionExpired.code(), "SESSION_EXPIRED");
    assert_eq!(SessionError::FormatNotFound.code(), "FORMAT_NOT_FOUND");
    assert_eq!(
        SessionError::SessionExpired.message("x"),
        "Session expired or not found. Please extract again."
    );
    assert_eq!(
        SessionError::FormatNotFound.message("http-9"),
        "Format 'http-9' not found in session"
    );
}

#[test]
fn reading_a_link() {
    let q = |data: &str| DownloadQuery { data: data.to_string() };
    assert_eq!(read_link_at(&q(""), "k1", 0), Err(ProxyError::MissingData));
    assert_eq!(read_link_at(&q("I1g="), "k1", 0), Ok("Hi".to_string()));
    assert_eq!(
        read_link_at(&q("I1g"), "k1", 0),
        Err(ProxyError::BadToken(TokenError::BadEncoding))
    );
    assert_eq!(
        read_link_at(&q("_w=="), "a", 0),
        Err(ProxyError::BadToken(TokenError::BadText))
    );
    assert_eq!(
        read_link_at(&q("Wl4XEw=="), "k", 16),
        Err(ProxyError::BadToken(TokenError::Expired))
    );
    assert_eq!(read_link_at(&q("Wl4XEw=="), "k", 15), Ok("x".to_string()));
    assert_eq!(read_link(&q("I1g="), "k1"), Ok("Hi".to_string()));
    assert_eq!(
        read_link(&q("Wl4XEw=="), "k"),
        Err(ProxyError::BadToken(TokenError::Expired))
    );
}

#[test]
fn a_token_that_holds_no_description_is_a_fault_of_the_client() {
    assert_eq!(payload_or_refusal(None), Err(ProxyError::BadPayload));
    assert_eq!(payload_or_refusal(Some(payload())), Ok(payload()));
    assert_eq!(ProxyError::BadPayload.status(), 400);
    // Whatever is wrong with a link, upstream is not asked: there is no request.
    let mut nameless = payload();
    nameless.author = None;
    for refused in [
        payload_or_refusal(None).and_then(|p| download_handler(&p)),
        payload_or_refusal(Some(nameless.clone())).and_then(|p| download_handler(&p)),
        payload_or_refusal(Some(nameless)).and_then(|p| stream_handler(&p)),
    ] {
        assert_eq!(refused.unwrap_err().status(), 400);
    }
}
