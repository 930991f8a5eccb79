//! The decisions of a request for a source: whether the address is one that
//! the gateway serves, whether to ask the extractor or the cache, what a
//! failure of the extractor means for the client, and when a failure calls for
//! the VPN to reconnect.
//!
//! What the client is told never repeats what upstream said. A failure is
//! sorted into one of a few kinds, and each kind has its status and its
//! sentence. A block by upstream is answered as a passing outage and sets the
//! failover going.

use crate::cache::{METADATA_TTL_SECS, SESSION_TTL_SECS};
use crate::catalog::{
    build_response_with_session, is_gallery, is_gallery_answer, is_single_answer, now_utc,
    platform_of, stamp_text, DownloadResponse,
};
use crate::formats::{listed, parse_formats, views, Kind};
use crate::media::MediaInfo;
use crate::session::{is_random_id, session_view, SessionData};
use crate::session_build::{store_formats_in_session, stored};
use crate::stream::{
    answers_client, stream_from_cdn, ProxyError, ProxyRequest, ResponseHead, UpstreamReply,
};
use crate::text::{
    contains, contains_bytes, has_prefix, is_empty, lowercase, starts_with, text_or, to_lowercase,
    trim, trimmed,
};
use crate::vpn::{
    signal_outcome, state_after_signal, trigger_local_vpn_reconnect, Trigger, VpnError,
    VpnReconnectState,
};
use vstd::prelude::*;
use vstd::utf8::*;

verus! {

/// The HTTP status by which upstream says that the address is blocked.
pub const BLOCK_STATUS: u16 = 403;

/// Seconds that the extractor is given by the session gateway.
pub const SESSION_EXTRACTION_TIMEOUT_SECS: u64 = 45;

/// Seconds that the content network is given for a file of a session. Files
/// are large, so the time is long.
pub const SESSION_STREAM_TIMEOUT_SECS: u64 = 300;

/// Which sources a gateway serves.
#[derive(Clone, Copy, Debug, PartialEq, Eq, Structural)]
pub enum Platforms {
    /// TikTok and Douyin.
    TikTok,
    /// TikTok, Douyin and X.
    TikTokAndX,
}

/// Why a request for a source was turned away unseen.
#[derive(Clone, Copy, Debug, PartialEq, Eq, Structural)]
pub enum RequestError {
    /// The request names no address.
    MissingUrl,
    /// The address is of no platform that the gateway serves.
    UnsupportedUrl,
}

/// What went wrong at the extractor.
#[derive(Clone, Copy, Debug, PartialEq, Eq, Structural)]
pub enum ExtractionError {
    /// The source does not exist, or cannot be fetched.
    NotFound,
    /// Upstream has blocked the address that the gateway comes from.
    Forbidden,
    /// The source is for logged-in users only.
    AuthRequired,
    /// The address is of a kind that the extractor does not know.
    Unsupported,
    /// Anything else.
    Failed,
}

/// How an extraction ended.
#[derive(Clone, Copy, Debug, PartialEq, Eq, Structural)]
pub enum Extraction {
    /// The extractor answered; `readable` says whether the answer was JSON.
    Answered { readable: bool },
    /// The extractor failed.
    Failed(ExtractionError),
    /// The task that ran the extractor died.
    Crashed,
    /// The extractor did not answer in time.
    TimedOut,
}

/// What has just happened in a request for a source.
#[derive(Clone, Copy, Debug, PartialEq, Eq, Structural)]
pub enum FetchEvent {
    /// The request has come in.
    Begin,
    /// The cache has answered; `usable` says whether it had a description that was JSON.
    CacheAnswered { usable: bool },
    /// The extraction has ended.
    Extracted(Extraction),
}

/// What to do next in a request for a source.
#[derive(Clone, Copy, Debug, PartialEq, Eq, Structural)]
pub enum FetchAction {
    /// Ask the cache for the description.
    AskCache,
    /// Ask the extractor, and give it this long.
    Extract { timeout_secs: u64 },
    /// Answer from the description that the cache had.
    ServeCached,
    /// Answer from the description that the extractor gave, and where
    /// `cache_for` is set keep it in the cache for that many seconds.
    ServeFresh { cache_for: Option<u64> },
    /// Turn the request away with this status, and where `failover` is set
    /// tell the VPN to reconnect.
    Reject { status: u16, reason: Rejection, failover: bool },
}

/// Why a request for a source failed.
#[derive(Clone, Copy, Debug, PartialEq, Eq, Structural)]
pub enum Rejection {
    /// The extractor failed in this way.
    Extraction(ExtractionError),
    /// The extractor's answer could not be read.
    Unreadable,
    /// The task that ran the extractor died.
    Crashed,
    /// The extractor did not answer in time.
    TimedOut,
}

/// True when the address, in lower case, is of a platform that the gateway serves.
pub open spec fn is_supported(address: Seq<u8>, platforms: Platforms) -> bool {
    contains_bytes(address, encode_utf8("tiktok.com"@)) || contains_bytes(
        address,
        encode_utf8("douyin.com"@),
    ) || (platforms == Platforms::TikTokAndX && (contains_bytes(
        address,
        encode_utf8("twitter.com"@),
    ) || contains_bytes(address, encode_utf8("x.com"@))))
}

/// What the address of a request comes to: the address without the white
/// space around it, or why the request is turned away.
pub open spec fn checked_url(url: Seq<char>, platforms: Platforms) -> Result<
    Seq<char>,
    RequestError,
> {
    checked_given(trimmed(url), lowercase(trimmed(url)), platforms)
}

/// What an address comes to that is `clean` without the white space around
/// it, and `lower` in lower case.
pub open spec fn checked_given(clean: Seq<char>, lower: Seq<char>, platforms: Platforms) -> Result<
    Seq<char>,
    RequestError,
> {
    if clean.len() == 0 {
        Err(RequestError::MissingUrl)
    } else if is_supported(encode_utf8(lower), platforms) {
        Ok(clean)
    } else {
        Err(RequestError::UnsupportedUrl)
    }
}

/// The kind of a failure, told by what the extractor's message says.
pub open spec fn error_kind(message: Seq<char>) -> ExtractionError {
    error_kind_given(message, lowercase(message))
}

/// The kind of a failure whose message is `message`, and `lowered` in lower case.
pub open spec fn error_kind_given(message: Seq<char>, lowered: Seq<char>) -> ExtractionError {
    let plain = encode_utf8(message);
    let lower = encode_utf8(lowered);
    if contains_bytes(lower, encode_utf8("not found"@)) || contains_bytes(
        lower,
        encode_utf8("unable to download"@),
    ) {
        ExtractionError::NotFound
    } else if contains_bytes(plain, encode_utf8("403"@)) || contains_bytes(
        lower,
        encode_utf8("forbidden"@),
    ) {
        ExtractionError::Forbidden
    } else if contains_bytes(lower, encode_utf8("login"@)) || contains_bytes(
        lower,
        encode_utf8("authentication"@),
    ) {
        ExtractionError::AuthRequired
    } else if contains_bytes(lower, encode_utf8("unsupported url"@)) {
        ExtractionError::Unsupported
    } else {
        ExtractionError::Failed
    }
}

/// The kind of a failure, told by the tag in front of its message.
pub open spec fn tagged_kind(text: Seq<char>) -> ExtractionError {
    let bytes = encode_utf8(text);
    if has_prefix(bytes, encode_utf8("NOT_FOUND:"@)) {
        ExtractionError::NotFound
    } else if has_prefix(bytes, encode_utf8("FORBIDDEN:"@)) {
        ExtractionError::Forbidden
    } else if has_prefix(bytes, encode_utf8("AUTH_REQUIRED:"@)) {
        ExtractionError::AuthRequired
    } else if has_prefix(bytes, encode_utf8("UNSUPPORTED:"@)) {
        ExtractionError::Unsupported
    } else {
        ExtractionError::Failed
    }
}

/// The status with which a failure of the extractor is answered. A block is
/// answered as an outage that will pass.
pub open spec fn status_of(kind: ExtractionError) -> u16 {
    match kind {
        ExtractionError::NotFound => 404,
        ExtractionError::Forbidden => 503,
        ExtractionError::AuthRequired => 401,
        ExtractionError::Unsupported => 400,
        ExtractionError::Failed => 500,
    }
}

/// The status with which a request that failed is answered.
pub open spec fn rejection_status(reason: Rejection) -> u16 {
    match reason {
        Rejection::Extraction(kind) => status_of(kind),
        Rejection::Unreadable => 500,
        Rejection::Crashed => 500,
        Rejection::TimedOut => 408,
    }
}

/// True when the failure says that upstream has blocked the gateway.
pub open spec fn is_block(reason: Rejection) -> bool {
    reason == Rejection::Extraction(ExtractionError::Forbidden)
}

/// What to do about a request for a source after `event`, with a cache or without.
pub open spec fn fetch_step(has_cache: bool, timeout_secs: u64, event: FetchEvent) -> FetchAction {
    match event {
        FetchEvent::Begin => if has_cache {
            FetchAction::AskCache
        } else {
            FetchAction::Extract { timeout_secs }
        },
        FetchEvent::CacheAnswered { usable } => if usable {
            FetchAction::ServeCached
        } else {
            FetchAction::Extract { timeout_secs }
        },
        FetchEvent::Extracted(outcome) => match outcome {
            Extraction::Answered { readable } => if readable {
                FetchAction::ServeFresh {
                    cache_for: if has_cache {
                        Some(METADATA_TTL_SECS)
                    } else {
                        None
                    },
                }
            } else {
                rejected(Rejection::Unreadable)
            },
            Extraction::Failed(kind) => rejected(Rejection::Extraction(kind)),
            Extraction::Crashed => rejected(Rejection::Crashed),
            Extraction::TimedOut => rejected(Rejection::TimedOut),
        },
    }
}

/// The action that turns a request away for `reason`.
pub open spec fn rejected(reason: Rejection) -> FetchAction {
    FetchAction::Reject { status: rejection_status(reason), reason, failover: is_block(reason) }
}

/// The address of a request, checked.
pub fn validate_source_url(url: &str, platforms: Platforms) -> (r: Result<String, RequestError>)
    ensures
        match r {
            Ok(clean) => checked_url(url@, platforms) == Ok::<Seq<char>, RequestError>(clean@),
            Err(e) => checked_url(url@, platforms) == Err::<Seq<char>, RequestError>(e),
        },
{
    let clean = trim(url);
    let lower = to_lowercase(clean);
    check_source_url(clean, lower.as_str(), platforms)
}

/// The address of a request, checked: `clean` is the address without the
/// white space around it, and `address` the same in lower case.
pub fn check_source_url(clean: &str, address: &str, platforms: Platforms) -> (r: Result<
    String,
    RequestError,
>)
    ensures
        match r {
            Ok(kept) => checked_given(clean@, address@, platforms) == Ok::<Seq<char>, RequestError>(
                kept@,
            ),
            Err(e) => checked_given(clean@, address@, platforms) == Err::<Seq<char>, RequestError>(e),
        },
{
    if is_empty(clean) {
        return Err(RequestError::MissingUrl);
    }
    let x: bool = match platforms {
        Platforms::TikTok => false,
        Platforms::TikTokAndX => contains(address, "twitter.com") || contains(address, "x.com"),
    };
    if contains(address, "tiktok.com") || contains(address, "douyin.com") || x {
        Ok(clean.to_owned())
    } else {
        Err(RequestError::UnsupportedUrl)
    }
}

/// The kind of a failure, told by what the extractor's message says.
///
/// The words that are looked for are those that the extractor has used so
/// far; a failure in words that it has not used so far is of the kind `Failed`.
pub fn classify_extraction_error(message: &str) -> (kind: ExtractionError)
    ensures
        kind == error_kind(message@),
{
    let lowered = to_lowercase(message);
    classify_message(message, lowered.as_str())
}

/// The kind of a failure whose message is `message`, and `lower` in lower case.
pub fn classify_message(message: &str, lower: &str) -> (kind: ExtractionError)
    ensures
        kind == error_kind_given(message@, lower@),
{
    if contains(lower, "not found") || contains(lower, "unable to download") {
        ExtractionError::NotFound
    } else if contains(message, "403") || contains(lower, "forbidden") {
        ExtractionError::Forbidden
    } else if contains(lower, "login") || contains(lower, "authentication") {
        ExtractionError::AuthRequired
    } else if contains(lower, "unsupported url") {
        ExtractionError::Unsupported
    } else {
        ExtractionError::Failed
    }
}

/// The kind of a failure, told by the tag in front of its message.
pub fn read_tag(text: &str) -> (kind: ExtractionError)
    ensures
        kind == tagged_kind(text@),
{
    if starts_with(text, "NOT_FOUND:") {
        ExtractionError::NotFound
    } else if starts_with(text, "FORBIDDEN:") {
        ExtractionError::Forbidden
    } else if starts_with(text, "AUTH_REQUIRED:") {
        ExtractionError::AuthRequired
    } else if starts_with(text, "UNSUPPORTED:") {
        ExtractionError::Unsupported
    } else {
        ExtractionError::Failed
    }
}

impl ExtractionError {
    /// The tag that goes in front of the message of such a failure.
    pub fn tag(&self) -> (tag: &'static str)
        ensures
            tag@ == (match *self {
                ExtractionError::NotFound => "NOT_FOUND:"@,
                ExtractionError::Forbidden => "FORBIDDEN:"@,
                ExtractionError::AuthRequired => "AUTH_REQUIRED:"@,
                ExtractionError::Unsupported => "UNSUPPORTED:"@,
                ExtractionError::Failed => "EXTRACTION_FAILED:"@,
            }),
    {
        match self {
            ExtractionError::NotFound => "NOT_FOUND:",
            ExtractionError::Forbidden => "FORBIDDEN:",
            ExtractionError::AuthRequired => "AUTH_REQUIRED:",
            ExtractionError::Unsupported => "UNSUPPORTED:",
            ExtractionError::Failed => "EXTRACTION_FAILED:",
        }
    }

    /// The status with which such a failure is answered.
    pub fn status(&self) -> (status: u16)
        ensures
            status == status_of(*self),
    {
        match self {
            ExtractionError::NotFound => 404,
            ExtractionError::Forbidden => 503,
            ExtractionError::AuthRequired => 401,
            ExtractionError::Unsupported => 400,
            ExtractionError::Failed => 500,
        }
    }

    /// What the client is told of such a failure.
    pub fn message(&self) -> (text: &'static str)
        ensures
            text@ == (match *self {
                ExtractionError::NotFound =>
                    "Video not found. Please check the URL and make sure the video exists."@,
                ExtractionError::Forbidden =>
                    "Service temporarily unavailable due to IP block, retrying with different endpoint"@,
                ExtractionError::AuthRequired => "This content requires login/authentication"@,
                ExtractionError::Unsupported => "Unsupported or invalid URL"@,
                ExtractionError::Failed => "Extraction failed"@,
            }),
    {
        match self {
            ExtractionError::NotFound =>
                "Video not found. Please check the URL and make sure the video exists.",
            ExtractionError::Forbidden =>
                "Service temporarily unavailable due to IP block, retrying with different endpoint",
            ExtractionError::AuthRequired => "This content requires login/authentication",
            ExtractionError::Unsupported => "Unsupported or invalid URL",
            ExtractionError::Failed => "Extraction failed",
        }
    }
}

/// The status with which a request that is turned away unseen is answered.
pub const REFUSAL_STATUS: u16 = 400;

/// What the client is told of a request that is turned away unseen. An
/// address that is missing is told in the words of the gateway that was asked.
pub open spec fn refusal_message(e: RequestError, platforms: Platforms) -> Seq<char> {
    match (e, platforms) {
        (RequestError::MissingUrl, Platforms::TikTok) => "URL parameter is required"@,
        (RequestError::MissingUrl, Platforms::TikTokAndX) => "URL is required"@,
        (RequestError::UnsupportedUrl, Platforms::TikTok) =>
            "Only TikTok and Douyin URLs are supported"@,
        (RequestError::UnsupportedUrl, Platforms::TikTokAndX) =>
            "Unsupported URL. Only TikTok and X (Twitter) URLs are supported."@,
    }
}

impl RequestError {
    /// The status with which the request is answered: the fault is the client's.
    pub fn status(&self) -> (status: u16)
        ensures
            status == REFUSAL_STATUS,
            status == 400,
    {
        REFUSAL_STATUS
    }

    /// The code that goes with the answer.
    pub fn code(&self) -> (code: &'static str)
        ensures
            code@ == "HTTP_400"@,
    {
        "HTTP_400"
    }

    /// What the client is told.
    pub fn message(&self, platforms: Platforms) -> (text: &'static str)
        ensures
            text@ == refusal_message(*self, platforms),
    {
        match self {
            RequestError::MissingUrl => match platforms {
                Platforms::TikTok => "URL parameter is required",
                Platforms::TikTokAndX => "URL is required",
            },
            RequestError::UnsupportedUrl => match platforms {
                Platforms::TikTok => "Only TikTok and Douyin URLs are supported",
                Platforms::TikTokAndX =>
                    "Unsupported URL. Only TikTok and X (Twitter) URLs are supported.",
            },
        }
    }
}

impl Rejection {
    /// What the client is told.
    pub fn message(&self) -> (text: &'static str)
        ensures
            text@ == (match *self {
                Rejection::Extraction(ExtractionError::NotFound) =>
                    "Video not found. Please check the URL and make sure the video exists."@,
                Rejection::Extraction(ExtractionError::Forbidden) =>
                    "Service temporarily unavailable due to IP block, retrying with different endpoint"@,
                Rejection::Extraction(ExtractionError::AuthRequired) =>
                    "This content requires login/authentication"@,
                Rejection::Extraction(ExtractionError::Unsupported) => "Unsupported or invalid URL"@,
                Rejection::Extraction(ExtractionError::Failed) => "Extraction failed"@,
                Rejection::Unreadable => "Failed to parse extraction result"@,
                Rejection::Crashed => "Internal server error"@,
                Rejection::TimedOut => "Request timeout after extraction took too long"@,
            }),
    {
        match self {
            Rejection::Extraction(kind) => kind.message(),
            Rejection::Unreadable => "Failed to parse extraction result",
            Rejection::Crashed => "Internal server error",
            Rejection::TimedOut => "Request timeout after extraction took too long",
        }
    }
}

/// Why the session gateway gives no answer for a source.
#[derive(Clone, Copy, Debug, PartialEq, Eq, Structural)]
pub enum DownloadFailure {
    /// The extractor failed in this way.
    Extraction(ExtractionError),
    /// The extractor's answer could not be read.
    Unreadable,
    /// The task that ran the extractor died.
    Crashed,
    /// The extractor did not answer in time.
    TimedOut,
    /// The session could not be kept in the store.
    StoreFailed,
}

/// What an extraction that ended in `outcome` fails with at the session
/// gateway, and nothing where it gave an answer that can be read.
pub open spec fn failure_of(outcome: Extraction) -> Option<DownloadFailure> {
    match outcome {
        Extraction::Answered { readable } => if readable {
            None
        } else {
            Some(DownloadFailure::Unreadable)
        },
        Extraction::Failed(kind) => Some(DownloadFailure::Extraction(kind)),
        Extraction::Crashed => Some(DownloadFailure::Crashed),
        Extraction::TimedOut => Some(DownloadFailure::TimedOut),
    }
}

/// The status with which the session gateway answers a failure. A block is
/// answered as an outage that will pass, and a deadline that passed as a
/// gateway that waited in vain.
pub open spec fn failure_status(failure: DownloadFailure) -> u16 {
    match failure {
        DownloadFailure::Extraction(kind) => status_of(kind),
        DownloadFailure::TimedOut => 504,
        _ => 500,
    }
}

/// The code that the session gateway gives a failure: the status for what
/// the extractor said and for a deadline that passed, a word for a fault of
/// the gateway's own.
pub open spec fn failure_code(failure: DownloadFailure) -> Seq<char> {
    match failure {
        DownloadFailure::Extraction(ExtractionError::NotFound) => "HTTP_404"@,
        DownloadFailure::Extraction(ExtractionError::Forbidden) => "HTTP_503"@,
        DownloadFailure::Extraction(ExtractionError::AuthRequired) => "HTTP_401"@,
        DownloadFailure::Extraction(ExtractionError::Unsupported) => "HTTP_400"@,
        DownloadFailure::Extraction(ExtractionError::Failed) => "HTTP_500"@,
        DownloadFailure::TimedOut => "HTTP_504"@,
        DownloadFailure::StoreFailed => "REDIS_ERROR"@,
        _ => "INTERNAL_ERROR"@,
    }
}

/// The sentence that the session gateway answers a failure with.
pub open spec fn failure_message(failure: DownloadFailure) -> Seq<char> {
    match failure {
        DownloadFailure::Extraction(ExtractionError::NotFound) =>
            "Video not found or may be private/deleted"@,
        DownloadFailure::Extraction(ExtractionError::Forbidden) =>
            "Service temporarily unavailable due to IP block, retrying with different endpoint"@,
        DownloadFailure::Extraction(ExtractionError::AuthRequired) =>
            "This content requires login/authentication"@,
        DownloadFailure::Extraction(ExtractionError::Unsupported) => "Unsupported or invalid URL"@,
        DownloadFailure::Extraction(ExtractionError::Failed) => "Extraction failed"@,
        DownloadFailure::Unreadable => "Failed to parse extraction result"@,
        DownloadFailure::Crashed => "Internal server error"@,
        DownloadFailure::TimedOut => "Request timeout - video extraction took too long"@,
        DownloadFailure::StoreFailed => "Failed to create download session"@,
    }
}

/// What an extraction that ended in `outcome` fails with at the session gateway.
pub fn download_failure(outcome: Extraction) -> (failure: Option<DownloadFailure>)
    ensures
        failure == failure_of(outcome),
{
    match outcome {
        Extraction::Answered { readable } => if readable {
            None
        } else {
            Some(DownloadFailure::Unreadable)
        },
        Extraction::Failed(kind) => Some(DownloadFailure::Extraction(kind)),
        Extraction::Crashed => Some(DownloadFailure::Crashed),
        Extraction::TimedOut => Some(DownloadFailure::TimedOut),
    }
}

impl DownloadFailure {
    /// The status with which the failure is answered.
    pub fn status(&self) -> (status: u16)
        ensures
            status == failure_status(*self),
    {
        match self {
            DownloadFailure::Extraction(kind) => kind.status(),
            DownloadFailure::TimedOut => 504,
            _ => 500,
        }
    }

    /// The code that goes with the answer.
    pub fn code(&self) -> (code: &'static str)
        ensures
            code@ == failure_code(*self),
    {
        match self {
            DownloadFailure::Extraction(ExtractionError::NotFound) => "HTTP_404",
            DownloadFailure::Extraction(ExtractionError::Forbidden) => "HTTP_503",
            DownloadFailure::Extraction(ExtractionError::AuthRequired) => "HTTP_401",
            DownloadFailure::Extraction(ExtractionError::Unsupported) => "HTTP_400",
            DownloadFailure::Extraction(ExtractionError::Failed) => "HTTP_500",
            DownloadFailure::TimedOut => "HTTP_504",
            DownloadFailure::StoreFailed => "REDIS_ERROR",
            _ => "INTERNAL_ERROR",
        }
    }

    /// What the client is told.
    pub fn message(&self) -> (text: &'static str)
        ensures
            text@ == failure_message(*self),
    {
        match self {
            DownloadFailure::Extraction(ExtractionError::NotFound) =>
                "Video not found or may be private/deleted",
            DownloadFailure::Extraction(kind) => kind.message(),
            DownloadFailure::Unreadable => "Failed to parse extraction result",
            DownloadFailure::Crashed => "Internal server error",
            DownloadFailure::TimedOut => "Request timeout - video extraction took too long",
            DownloadFailure::StoreFailed => "Failed to create download session",
        }
    }

    /// True when the failure says that upstream has blocked the gateway.
    pub fn is_block(&self) -> (blocked: bool)
        ensures
            blocked == (*self == DownloadFailure::Extraction(ExtractionError::Forbidden)),
    {
        match self {
            DownloadFailure::Extraction(ExtractionError::Forbidden) => true,
            _ => false,
        }
    }
}

/// The action that turns a request away for `reason`.
pub fn reject(reason: Rejection) -> (action: FetchAction)
    ensures
        action == rejected(reason),
{
    let status: u16 = match reason {
        Rejection::Extraction(kind) => kind.status(),
        Rejection::Unreadable => 500,
        Rejection::Crashed => 500,
        Rejection::TimedOut => 408,
    };
    let failover: bool = match reason {
        Rejection::Extraction(ExtractionError::Forbidden) => true,
        _ => false,
    };
    FetchAction::Reject { status, reason, failover }
}

/// What to do about a request for a source after `event`.
///
/// The cache is asked first where there is one. What it has is served as it
/// is; the extractor is asked where the cache has nothing that can be used,
/// and what it gives is served and kept in the cache for a few minutes. A
/// failure of the extractor turns the request away, and a block by upstream
/// also tells the VPN to reconnect.
pub fn fetch_tiktok_data(has_cache: bool, timeout_secs: u64, event: FetchEvent) -> (action: FetchAction)
    ensures
        action == fetch_step(has_cache, timeout_secs, event),
{
    match event {
        FetchEvent::Begin => {
            if has_cache {
                FetchAction::AskCache
            } else {
                FetchAction::Extract { timeout_secs }
            }
        },
        FetchEvent::CacheAnswered { usable } => {
            if usable {
                FetchAction::ServeCached
            } else {
                FetchAction::Extract { timeout_secs }
            }
        },
        FetchEvent::Extracted(outcome) => match outcome {
            Extraction::Answered { readable } => {
                if readable {
                    let cache_for: Option<u64> = if has_cache {
                        Some(METADATA_TTL_SECS)
                    } else {
                        None
                    };
                    FetchAction::ServeFresh { cache_for }
                } else {
                    reject(Rejection::Unreadable)
                }
            },
            Extraction::Failed(kind) => reject(Rejection::Extraction(kind)),
            Extraction::Crashed => reject(Rejection::Crashed),
            Extraction::TimedOut => reject(Rejection::TimedOut),
        },
    }
}

/// True when the answer of upstream says that the gateway is blocked.
pub open spec fn is_block_reply(reply: UpstreamReply) -> bool {
    reply matches UpstreamReply::Answer { status, .. } && status == BLOCK_STATUS
}

/// Takes the answer of upstream to a fetch for a client, at the time `now`,
/// in milliseconds.
///
/// The client gets what `stream_from_cdn` makes of the answer. An answer that
/// says that the gateway is blocked is also a block signal for the failover:
/// it leads to one attempt to reconnect, or to none where an attempt was made
/// a moment ago or too many have failed.
pub fn relay_upstream_reply(
    state: &mut VpnReconnectState,
    request: &ProxyRequest,
    reply: &UpstreamReply,
    now: u64,
) -> (r: (Result<ResponseHead, ProxyError>, Option<Result<Trigger, VpnError>>))
    ensures
        answers_client(r.0, *request, *reply),
        is_block_reply(*reply) ==> {
            &&& r.0 == Err::<ResponseHead, ProxyError>(
                ProxyError::UpstreamUnavailable { status: BLOCK_STATUS },
            )
            &&& r.1 == Some(signal_outcome(*old(state), now))
            &&& *final(state) == state_after_signal(*old(state), now)
        },
        !is_block_reply(*reply) ==> r.1 is None && *final(state) == *old(state),
{
    let head = stream_from_cdn(request, reply);
    let blocked: bool = match reply {
        UpstreamReply::Answer { status, content_length: _, content_type: _ } => *status
            == BLOCK_STATUS,
        UpstreamReply::Unreachable => false,
    };
    if blocked {
        let signal = trigger_local_vpn_reconnect(state, now);
        (head, Some(signal))
    } else {
        (head, None)
    }
}

/// What a source comes to: the session to keep and the answer to give.
pub struct Extracted {
    pub session_id: String,
    pub session: SessionData,
    pub response: DownloadResponse,
}

/// The session and the answer for a source, under the identifier
/// `session_id` and with the time `extracted_at` on the answer.
pub fn download_with(
    info: &MediaInfo,
    url: &str,
    base_url: &str,
    session_id: String,
    extracted_at: String,
) -> (r: Extracted)
    ensures
        r.session_id == session_id,
        r.session.wf(),
        session_view(r.session.formats@) == stored(
            listed(info.formats@, Kind::Progressive) + listed(info.formats@, Kind::Hls),
            listed(info.formats@, Kind::Audio),
            listed(info.formats@, Kind::Image),
            *info,
        ),
        is_gallery(*info) ==> is_gallery_answer(
            r.response,
            *info,
            platform_of(url@, text_or(info.extractor, ""@)),
            url@,
            listed(info.formats@, Kind::Progressive) + listed(info.formats@, Kind::Hls),
            listed(info.formats@, Kind::Image),
            session_id@,
            base_url@,
            extracted_at,
        ),
        !is_gallery(*info) ==> is_single_answer(
            r.response,
            *info,
            url@,
            listed(info.formats@, Kind::Progressive) + listed(info.formats@, Kind::Hls),
            listed(info.formats@, Kind::Audio),
            listed(info.formats@, Kind::Image),
            session_id@,
            base_url@,
            extracted_at,
        ),
{
    let lists = parse_formats(info.formats.as_slice());
    let session = store_formats_in_session(&lists.0, &lists.1, &lists.2, info);
    let response = build_response_with_session(
        info,
        url,
        &lists.0,
        &lists.1,
        &lists.2,
        session_id.as_str(),
        base_url,
        extracted_at,
    );
    Extracted { session_id, session, response }
}

/// What has just happened in a request to the session gateway.
#[derive(Clone, Copy, Debug, PartialEq, Eq, Structural)]
pub enum DownloadEvent {
    /// The request has come in.
    Begin,
    /// The extraction has ended.
    Extracted(Extraction),
    /// The store has answered; `kept` says whether it has the session now.
    Stored { kept: bool },
}

/// What the session gateway does next.
#[derive(Clone, Copy, Debug, PartialEq, Eq, Structural)]
pub enum DownloadAction {
    /// Turn the request away with this status. Nothing is asked of the
    /// extractor or of the store.
    Refuse { status: u16, reason: RequestError },
    /// Ask the extractor about the address without the white space around
    /// it, and give it this long.
    Extract { timeout_secs: u64 },
    /// Make the session and the answer, and keep the session in the store
    /// for this many seconds.
    Keep { ttl_secs: u64 },
    /// Give the answer that was made.
    Answer,
    /// Fail the request with this status.
    Fail { status: u16, failure: DownloadFailure },
}

/// What the session gateway does with a request whose address came to `checked`.
pub open spec fn download_first(checked: Result<Seq<char>, RequestError>) -> DownloadAction {
    match checked {
        Ok(_) => DownloadAction::Extract { timeout_secs: SESSION_EXTRACTION_TIMEOUT_SECS },
        Err(reason) => DownloadAction::Refuse { status: REFUSAL_STATUS, reason },
    }
}

/// What the session gateway does after `event` in a request for the address `url`.
pub open spec fn download_next(url: Seq<char>, event: DownloadEvent) -> DownloadAction {
    match event {
        DownloadEvent::Begin => download_first(checked_url(url, Platforms::TikTokAndX)),
        DownloadEvent::Extracted(outcome) => match failure_of(outcome) {
            None => DownloadAction::Keep { ttl_secs: SESSION_TTL_SECS },
            Some(failure) => DownloadAction::Fail { status: failure_status(failure), failure },
        },
        DownloadEvent::Stored { kept } => if kept {
            DownloadAction::Answer
        } else {
            DownloadAction::Fail {
                status: failure_status(DownloadFailure::StoreFailed),
                failure: DownloadFailure::StoreFailed,
            }
        },
    }
}

/// The address of a request as the extractor is to see it: without the
/// white space around it.
pub fn source_address(url: &str) -> (clean: String)
    ensures
        clean@ == trimmed(url@),
{
    trim(url).to_owned()
}

/// What the session gateway does with a request whose address came to `checked`.
pub fn download_begin(checked: &Result<String, RequestError>) -> (action: DownloadAction)
    ensures
        action == download_first(
            match *checked {
                Ok(clean) => Ok(clean@),
                Err(e) => Err(e),
            },
        ),
{
    match checked {
        Ok(_) => DownloadAction::Extract { timeout_secs: SESSION_EXTRACTION_TIMEOUT_SECS },
        Err(reason) => DownloadAction::Refuse { status: reason.status(), reason: *reason },
    }
}

/// What the session gateway does after `event` in a request for the address `url`.
///
/// An address that is missing, or of no platform that the gateway serves, is
/// refused at once. Else the extractor is asked; what it gives becomes a
/// session and an answer, the session is kept in the store, and the answer is
/// given once the store has it. A failure of the extractor or of the store
/// fails the request.
pub fn download_step(url: &str, event: DownloadEvent) -> (action: DownloadAction)
    ensures
        action == download_next(url@, event),
{
    match event {
        DownloadEvent::Begin => {
            let checked = validate_source_url(url, Platforms::TikTokAndX);
            download_begin(&checked)
        },
        DownloadEvent::Extracted(outcome) => match download_failure(outcome) {
            None => DownloadAction::Keep { ttl_secs: SESSION_TTL_SECS },
            Some(failure) => DownloadAction::Fail { status: failure.status(), failure },
        },
        DownloadEvent::Stored { kept } => {
            if kept {
                DownloadAction::Answer
            } else {
                DownloadAction::Fail {
                    status: DownloadFailure::StoreFailed.status(),
                    failure: DownloadFailure::StoreFailed,
                }
            }
        },
    }
}

/// A request that is refused asks nothing of the extractor or of the store:
/// the first step for an address that does not pass is the refusal, with the
/// status of a fault of the client, and no step follows a refusal.
pub proof fn law_refusal(url: Seq<char>)
    ensures
        checked_url(url, Platforms::TikTokAndX) matches Err(reason) ==> download_next(
            url,
            DownloadEvent::Begin,
        ) == (DownloadAction::Refuse { status: 400, reason }),
        checked_url(url, Platforms::TikTokAndX) is Ok ==> download_next(url, DownloadEvent::Begin)
            == (DownloadAction::Extract { timeout_secs: 45 }),
{
}

/// The session and the answer for a source, under a new identifier that
/// cannot be guessed and with the present time on the answer.
pub fn download(info: &MediaInfo, url: &str, base_url: &str) -> (r: Extracted)
    ensures
        is_random_id(r.session_id@),
        exists|millis: u128| r.response.extracted_at@ == stamp_text(millis),
        r.session.wf(),
        session_view(r.session.formats@) == stored(
            listed(info.formats@, Kind::Progressive) + listed(info.formats@, Kind::Hls),
            listed(info.formats@, Kind::Audio),
            listed(info.formats@, Kind::Image),
            *info,
        ),
        is_gallery(*info) ==> is_gallery_answer(
            r.response,
            *info,
            platform_of(url@, text_or(info.extractor, ""@)),
            url@,
            listed(info.formats@, Kind::Progressive) + listed(info.formats@, Kind::Hls),
            listed(info.formats@, Kind::Image),
            r.session_id@,
            base_url@,
            r.response.extracted_at,
        ),
        !is_gallery(*info) ==> is_single_answer(
            r.response,
            *info,
            url@,
            listed(info.formats@, Kind::Progressive) + listed(info.formats@, Kind::Hls),
            listed(info.formats@, Kind::Audio),
            listed(info.formats@, Kind::Image),
            r.session_id@,
            base_url@,
            r.response.extracted_at,
        ),
{
    let session_id = SessionData::new_id();
    let extracted_at = now_utc();
    download_with(info, url, base_url, session_id, extracted_at)
}

/// Blocked stream. An answer of upstream with the status of a block fails the
/// request for the client and is one block signal for the failover; no other
/// answer is one.
pub proof fn law_block_signal(reply: UpstreamReply)
    ensures
        is_block_reply(reply) <==> reply matches UpstreamReply::Answer { status: 403, .. },
        is_block_reply(reply) ==> !(reply matches UpstreamReply::Answer { status, .. }
            && crate::vpn::is_success(status)),
{
}

} // verus!
