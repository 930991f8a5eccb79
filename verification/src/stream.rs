//! The streaming proxy: what to ask of the content network for a link that a
//! client follows, and what to tell the client once the network has answered.
//!
//! The body itself is relayed elsewhere, piece by piece as it comes. Decided
//! here is everything around it. Upstream sees only the headers that came with
//! the variant, none of the client's own, and is asked for the body as it is,
//! so that a length announced to the client stays true. The client is given a
//! file name made of harmless characters.

use crate::encryption::TokenError;
use crate::session::{FormatInfo, SessionData};
use crate::text::{
    alphanumeric, ascii_chars, char_is_ascii_alphanumeric, decimal, decimal_string, has_prefix,
    is_alphanumeric, is_ascii_alphanumeric, join3, lowercase, push_char, starts_with, str_eq,
    to_lowercase,
};
use crate::vpn::{is_success, status_is_success};
use vstd::prelude::*;
use vstd::string::StringExecFns;
use vstd::utf8::*;

verus! {

/// The query of a link: the token.
#[derive(Clone, Debug, PartialEq, Eq)]
pub struct DownloadQuery {
    pub data: String,
}

/// What a token says of the file behind a link.
#[derive(Clone, Debug, PartialEq, Eq)]
pub struct TokenPayload {
    pub url: Option<String>,
    pub author: Option<String>,
    pub file_type: Option<String>,
    pub filesize: Option<i64>,
    pub http_headers: Option<Vec<(String, String)>>,
}

/// What to fetch upstream, and under which name and type to hand it on.
#[derive(Clone, Debug, PartialEq, Eq)]
pub struct ProxyRequest {
    pub url: String,
    /// The headers to send upstream, in order.
    pub headers: Vec<(String, String)>,
    pub content_type: String,
    pub filename: String,
    /// The size of the file in bytes, where the token knows it.
    pub filesize: Option<i64>,
}

/// How upstream answered.
#[derive(Clone, Debug, PartialEq, Eq)]
pub enum UpstreamReply {
    /// It answered with this status and, where it sent them, these headers.
    Answer { status: u16, content_length: Option<String>, content_type: Option<String> },
    /// It could not be reached.
    Unreachable,
}

/// The headers of the answer to the client, whose body is the file.
#[derive(Clone, Debug, PartialEq, Eq)]
pub struct ResponseHead {
    pub content_type: String,
    pub content_disposition: String,
    /// The name of the file, which `content_disposition` carries.
    pub filename: String,
    /// The name of the file once more, as a header of its own, where the
    /// answer has one.
    pub x_filename: Option<String>,
    /// What caches are told, where they are told anything.
    pub cache_control: Option<String>,
    pub content_length: Option<String>,
}

/// Why a link could not be served.
#[derive(Clone, Copy, Debug, PartialEq, Eq, Structural)]
pub enum ProxyError {
    /// The link carries no token.
    MissingData,
    /// The token could not be read.
    BadToken(TokenError),
    /// What the token holds is no description of a file.
    BadPayload,
    /// The token names no author.
    MissingAuthor,
    /// The token names no kind of file.
    MissingType,
    /// The token names no address.
    MissingUrl,
    /// Upstream answered with a status that is no success.
    UpstreamUnavailable { status: u16 },
    /// Upstream did not answer.
    UpstreamUnreachable,
}

/// The content type and the file extension for a kind of file.
pub open spec fn type_info(file_type: Seq<char>) -> (Seq<char>, Seq<char>) {
    if file_type == "mp3"@ || file_type == "audio"@ {
        ("audio/mpeg"@, "mp3"@)
    } else if file_type == "video"@ {
        ("video/mp4"@, "mp4"@)
    } else if file_type == "image"@ {
        ("image/jpeg"@, "jpg"@)
    } else {
        ("application/octet-stream"@, "bin"@)
    }
}

/// The content type and the file extension of a stream: sound or, by default, video.
pub open spec fn stream_type_info(file_type: Seq<char>) -> (Seq<char>, Seq<char>) {
    if file_type == "mp3"@ || file_type == "audio"@ {
        ("audio/mpeg"@, "mp3"@)
    } else {
        ("video/mp4"@, "mp4"@)
    }
}

/// A character of a file name: itself where it is an ASCII letter, an ASCII
/// digit or `_`, and `_` for any other.
pub open spec fn safe_char(c: char) -> char {
    if is_ascii_alphanumeric(c) || c == '_' {
        c
    } else {
        '_'
    }
}

/// A name with every character made safe.
pub open spec fn sanitized(name: Seq<char>) -> Seq<char> {
    Seq::new(name.len(), |i: int| safe_char(name[i]))
}

/// The file name for an author's work: the author's name made safe, a dot, the extension.
pub open spec fn safe_filename_of(author: Seq<char>, ext: Seq<char>) -> Seq<char> {
    sanitized(author) + "."@ + ext
}

/// The header value that offers a file under `filename`.
pub open spec fn disposition_of(filename: Seq<char>) -> Seq<char> {
    "attachment; filename=\""@ + filename + "\""@
}

/// True where a text is there and not empty.
pub open spec fn present(field: Option<String>) -> bool {
    field matches Some(text) && text@.len() > 0
}

/// The length to announce to the client: the size that came with the link
/// where that is known and positive, else what upstream announces.
pub open spec fn announced_length(filesize: Option<i64>, upstream: Option<String>) -> Option<
    Seq<char>,
> {
    match filesize {
        Some(size) => if size > 0 {
            Some(ascii_chars(decimal(size as nat)))
        } else {
            match upstream {
                Some(text) => Some(text@),
                None => None,
            }
        },
        None => match upstream {
            Some(text) => Some(text@),
            None => None,
        },
    }
}

/// The headers to send upstream for a variant: those that came with it, and
/// the demand for an unencoded body.
pub open spec fn with_identity(headers: Seq<(String, String)>) -> Seq<(Seq<char>, Seq<char>)> {
    Seq::new(headers.len(), |i: int| (headers[i].0@, headers[i].1@)).push(
        ("Accept-Encoding"@, "identity"@),
    )
}

/// The views of a list of headers.
pub open spec fn header_views(headers: Seq<(String, String)>) -> Seq<(Seq<char>, Seq<char>)> {
    Seq::new(headers.len(), |i: int| (headers[i].0@, headers[i].1@))
}

/// The names of the headers in lower case, place by place.
pub open spec fn lower_names(headers: Seq<(String, String)>) -> Seq<Seq<char>> {
    Seq::new(headers.len(), |i: int| lowercase(headers[i].0@))
}

/// The texts as sequences, place by place.
pub open spec fn name_views(names: Seq<String>) -> Seq<Seq<char>> {
    Seq::new(names.len(), |i: int| names[i]@)
}

/// The headers without those whose name in lower case is `cookie`. `names`
/// holds the names in lower case, place by place; a header with no name at
/// its place is kept.
pub open spec fn kept_headers(headers: Seq<(String, String)>, names: Seq<Seq<char>>) -> Seq<
    (Seq<char>, Seq<char>),
>
    decreases headers.len(),
{
    if headers.len() == 0 {
        Seq::empty()
    } else {
        let rest = kept_headers(headers.drop_last(), names);
        if headers.len() <= names.len() && names[headers.len() - 1] == "cookie"@ {
            rest
        } else {
            rest.push((headers.last().0@, headers.last().1@))
        }
    }
}

/// The headers of a variant without those called `cookie`, in whatever case.
pub open spec fn without_cookie(headers: Seq<(String, String)>) -> Seq<(Seq<char>, Seq<char>)> {
    kept_headers(headers, lower_names(headers))
}

/// The headers to send upstream for a variant of a session, where `names`
/// holds the names of the variant's headers in lower case.
pub open spec fn session_headers_given(
    headers: Seq<(String, String)>,
    names: Seq<Seq<char>>,
    cookies: Option<String>,
) -> Seq<(Seq<char>, Seq<char>)> {
    let base = kept_headers(headers, names).push(("Accept-Encoding"@, "identity"@));
    match cookies {
        Some(text) => base.push(("Cookie"@, text@)),
        None => base,
    }
}

/// The headers to send upstream for a variant of a session: those of the
/// variant but for its cookies, the demand for an unencoded body, and the
/// cookies of the session.
pub open spec fn session_headers(headers: Seq<(String, String)>, cookies: Option<String>) -> Seq<
    (Seq<char>, Seq<char>),
> {
    let base = without_cookie(headers).push(("Accept-Encoding"@, "identity"@));
    match cookies {
        Some(text) => base.push(("Cookie"@, text@)),
        None => base,
    }
}

/// The file extension for a content type: `m4a` for sound, `jpg` for an
/// image, `mp4` for anything else.
pub open spec fn extension_of(content_type: Seq<char>) -> Seq<char> {
    if has_prefix(encode_utf8(content_type), encode_utf8("audio/"@)) {
        "m4a"@
    } else if has_prefix(encode_utf8(content_type), encode_utf8("image/"@)) {
        "jpg"@
    } else {
        "mp4"@
    }
}

/// A label with every character that is neither letter nor digit replaced by `_`.
pub open spec fn plain_label(label: Seq<char>) -> Seq<char> {
    Seq::new(
        label.len(),
        |i: int|
            if alphanumeric(label[i]) {
                label[i]
            } else {
                '_'
            },
    )
}

/// The file name for a variant of a session.
pub open spec fn session_filename(
    video_id: Seq<char>,
    format_id: Seq<char>,
    quality: Seq<char>,
    content_type: Seq<char>,
) -> Seq<char> {
    video_id + "_"@ + format_id + "_"@ + plain_label(quality) + "."@ + extension_of(content_type)
}

/// True when `r` is what the client is answered for `request`, once upstream
/// has given `reply`: the head of the file on success, and else the failure.
pub open spec fn answers_client(
    r: Result<ResponseHead, ProxyError>,
    request: ProxyRequest,
    reply: UpstreamReply,
) -> bool {
    match reply {
        UpstreamReply::Unreachable => r == Err::<ResponseHead, ProxyError>(
            ProxyError::UpstreamUnreachable,
        ),
        UpstreamReply::Answer { status, content_length, content_type } => if is_success(status) {
            &&& r matches Ok(head)
            &&& head.content_type@ == request.content_type@
            &&& head.content_disposition@ == disposition_of(request.filename@)
            &&& head.filename@ == request.filename@
            &&& (head.x_filename matches Some(name) && name@ == request.filename@)
            &&& (head.cache_control matches Some(text) && text@ == "no-cache"@)
            &&& match head.content_length {
                Some(text) => announced_length(request.filesize, content_length) == Some(text@),
                None => announced_length(request.filesize, content_length) is None,
            }
        } else {
            r == Err::<ResponseHead, ProxyError>(ProxyError::UpstreamUnavailable { status })
        },
    }
}

/// The content type and the file extension for a kind of file.
pub fn content_type_info(file_type: &str) -> (info: (&'static str, &'static str))
    ensures
        info.0@ == type_info(file_type@).0,
        info.1@ == type_info(file_type@).1,
{
    if str_eq(file_type, "mp3") || str_eq(file_type, "audio") {
        ("audio/mpeg", "mp3")
    } else if str_eq(file_type, "video") {
        ("video/mp4", "mp4")
    } else if str_eq(file_type, "image") {
        ("image/jpeg", "jpg")
    } else {
        ("application/octet-stream", "bin")
    }
}

/// The content type and the file extension of a stream.
pub fn stream_content_type_info(file_type: &str) -> (info: (&'static str, &'static str))
    ensures
        info.0@ == stream_type_info(file_type@).0,
        info.1@ == stream_type_info(file_type@).1,
{
    if str_eq(file_type, "mp3") || str_eq(file_type, "audio") {
        ("audio/mpeg", "mp3")
    } else {
        ("video/mp4", "mp4")
    }
}

/// A name with every character made safe for a header and a file system.
pub fn sanitize(name: &str) -> (out: String)
    ensures
        out@ == sanitized(name@),
{
    let mut out: String = String::new();
    for c in it: name.chars()
        invariant
            it.seq() == name@,
            out@ == sanitized(name@.take(it.index())),
    {
        let kept: char = if char_is_ascii_alphanumeric(c) || c == '_' {
            c
        } else {
            '_'
        };
        push_char(&mut out, kept);
        assert(out@ =~= sanitized(name@.take(it.index() + 1)));
    }
    assert(name@.take(name@.len() as int) =~= name@);
    out
}

/// The file name for an author's work.
pub fn safe_filename(author: &str, ext: &str) -> (name: String)
    ensures
        name@ == safe_filename_of(author@, ext@),
{
    let safe = sanitize(author);
    join3(safe.as_str(), ".", ext)
}

/// The header value that offers a file under `filename`.
pub fn content_disposition(filename: &str) -> (value: String)
    ensures
        value@ == disposition_of(filename@),
{
    join3("attachment; filename=\"", filename, "\"")
}

/// True where a text is there and not empty.
pub fn is_present(field: &Option<String>) -> (r: bool)
    ensures
        r == present(*field),
{
    match field {
        Some(text) => text.as_str().unicode_len() > 0,
        None => false,
    }
}

/// A copy of a list of headers.
pub fn copy_headers(headers: &Vec<(String, String)>) -> (copy: Vec<(String, String)>)
    ensures
        header_views(copy@) == header_views(headers@),
{
    let mut copy: Vec<(String, String)> = Vec::new();
    let mut i: usize = 0;
    while i < headers.len()
        invariant
            0 <= i <= headers@.len(),
            copy@.len() == i,
            forall|j: int|
                0 <= j < i ==> copy@[j].0@ == headers@[j].0@ && copy@[j].1@ == headers@[j].1@,
        decreases headers@.len() - i,
    {
        copy.push((headers[i].0.clone(), headers[i].1.clone()));
        i = i + 1;
    }
    assert(header_views(copy@) =~= header_views(headers@));
    copy
}

/// The headers to send upstream for a link: those that came with it, and
/// the demand for an unencoded body.
pub fn upstream_headers(headers: &Vec<(String, String)>) -> (out: Vec<(String, String)>)
    ensures
        header_views(out@) == with_identity(headers@),
{
    let mut out = copy_headers(headers);
    let ghost before = out@;
    out.push(("Accept-Encoding".to_owned(), "identity".to_owned()));
    assert(header_views(out@) =~= with_identity(headers@)) by {
        assert forall|j: int| 0 <= j < headers@.len() implies header_views(out@)[j]
            == with_identity(headers@)[j] by {
            assert(header_views(before)[j] == header_views(headers@)[j]);
        }
    }
    out
}

/// The names of the headers in lower case, place by place.
pub fn lowered_names(headers: &Vec<(String, String)>) -> (names: Vec<String>)
    ensures
        name_views(names@) == lower_names(headers@),
{
    let mut names: Vec<String> = Vec::new();
    let mut i: usize = 0;
    while i < headers.len()
        invariant
            0 <= i <= headers@.len(),
            names@.len() == i,
            forall|j: int| 0 <= j < i ==> (#[trigger] names@[j])@ == lowercase(headers@[j].0@),
        decreases headers@.len() - i,
    {
        names.push(to_lowercase(headers[i].0.as_str()));
        i = i + 1;
    }
    assert(name_views(names@) =~= lower_names(headers@));
    names
}

/// The headers to send upstream for a variant of a session.
pub fn session_upstream_headers(format: &FormatInfo, cookies: &Option<String>) -> (out: Vec<
    (String, String),
>)
    ensures
        header_views(out@) == session_headers(format.http_headers@, *cookies),
{
    let names = lowered_names(&format.http_headers);
    session_upstream_headers_given(format, &names, cookies)
}

/// The headers to send upstream for a variant of a session, where `names`
/// holds the names of the variant's headers in lower case, place by place.
pub fn session_upstream_headers_given(
    format: &FormatInfo,
    names: &Vec<String>,
    cookies: &Option<String>,
) -> (out: Vec<(String, String)>)
    ensures
        header_views(out@) == session_headers_given(
            format.http_headers@,
            name_views(names@),
            *cookies,
        ),
{
    let headers = &format.http_headers;
    let ghost lower = name_views(names@);
    let mut out: Vec<(String, String)> = Vec::new();
    let mut i: usize = 0;
    assert(headers@.take(0) =~= Seq::<(String, String)>::empty());
    while i < headers.len()
        invariant
            0 <= i <= headers@.len(),
            lower == name_views(names@),
            header_views(out@) == kept_headers(headers@.take(i as int), lower),
        decreases headers@.len() - i,
    {
        let ghost before = out@;
        let ghost longer = headers@.take(i + 1);
        assert(longer.drop_last() =~= headers@.take(i as int));
        assert(longer.last() == headers@[i as int]);
        let dropped: bool = i < names.len() && str_eq(names[i].as_str(), "cookie");
        assert(dropped == (longer.len() <= lower.len() && lower[longer.len() - 1] == "cookie"@));
        if !dropped {
            out.push((headers[i].0.clone(), headers[i].1.clone()));
            assert(header_views(out@) =~= header_views(before).push(
                (headers@[i as int].0@, headers@[i as int].1@),
            ));
        }
        i = i + 1;
    }
    assert(headers@.take(i as int) =~= headers@);
    let ghost kept = out@;
    out.push(("Accept-Encoding".to_owned(), "identity".to_owned()));
    assert(header_views(out@) =~= header_views(kept).push(("Accept-Encoding"@, "identity"@)));
    match cookies {
        Some(text) => {
            let ghost base = out@;
            out.push(("Cookie".to_owned(), text.clone()));
            assert(header_views(out@) =~= header_views(base).push(("Cookie"@, text@)));
        },
        None => {},
    }
    out
}

/// What the token of a link says, where the text behind it could be read as
/// a description of a file; a text that could not is a fault of the client.
pub fn payload_or_refusal(parsed: Option<TokenPayload>) -> (r: Result<TokenPayload, ProxyError>)
    ensures
        r == (match parsed {
            Some(payload) => Ok::<TokenPayload, ProxyError>(payload),
            None => Err::<TokenPayload, ProxyError>(ProxyError::BadPayload),
        }),
        r matches Err(e) ==> proxy_status(e) == 400,
{
    match parsed {
        Some(payload) => Ok(payload),
        None => Err(ProxyError::BadPayload),
    }
}

/// What to fetch for a download link, from what its token says.
///
/// The token has to name an author, a kind of file and an address, none of
/// them empty; what is missing is reported in that order. No header goes
/// upstream but the demand for an unencoded body.
pub fn download_handler(payload: &TokenPayload) -> (r: Result<ProxyRequest, ProxyError>)
    ensures
        r matches Err(e) ==> proxy_status(e) == 400,
        !present(payload.author) ==> r == Err::<ProxyRequest, ProxyError>(ProxyError::MissingAuthor),
        present(payload.author) && !present(payload.file_type) ==> r == Err::<
            ProxyRequest,
            ProxyError,
        >(ProxyError::MissingType),
        present(payload.author) && present(payload.file_type) && !present(payload.url) ==> r
            == Err::<ProxyRequest, ProxyError>(ProxyError::MissingUrl),
        present(payload.author) && present(payload.file_type) && present(payload.url) ==> {
            &&& r matches Ok(request)
            &&& request.url@ == payload.url.unwrap()@
            &&& request.content_type@ == type_info(payload.file_type.unwrap()@).0
            &&& request.filename@ == safe_filename_of(
                payload.author.unwrap()@,
                type_info(payload.file_type.unwrap()@).1,
            )
            &&& request.filesize == payload.filesize
            &&& header_views(request.headers@) == seq![("Accept-Encoding"@, "identity"@)]
        },
{
    if !is_present(&payload.author) {
        return Err(ProxyError::MissingAuthor);
    }
    if !is_present(&payload.file_type) {
        return Err(ProxyError::MissingType);
    }
    if !is_present(&payload.url) {
        return Err(ProxyError::MissingUrl);
    }
    let author = payload.author.as_ref().unwrap();
    let file_type = payload.file_type.as_ref().unwrap();
    let url = payload.url.as_ref().unwrap();
    let info = content_type_info(file_type.as_str());
    let none: Vec<(String, String)> = Vec::new();
    let headers = upstream_headers(&none);
    assert(header_views(headers@) =~= seq![("Accept-Encoding"@, "identity"@)]);
    Ok(
        ProxyRequest {
            url: url.clone(),
            headers,
            content_type: info.0.to_owned(),
            filename: safe_filename(author.as_str(), info.1),
            filesize: payload.filesize,
        },
    )
}

/// What to fetch for a stream link, from what its token says.
///
/// The token has to name an address and an author, neither of them empty;
/// what is missing is reported in that order. A stream is sound where the token
/// says so and video otherwise. The headers that came with the token go upstream.
pub fn stream_handler(payload: &TokenPayload) -> (r: Result<ProxyRequest, ProxyError>)
    ensures
        r matches Err(e) ==> proxy_status(e) == 400,
        !present(payload.url) ==> r == Err::<ProxyRequest, ProxyError>(ProxyError::MissingUrl),
        present(payload.url) && !present(payload.author) ==> r == Err::<ProxyRequest, ProxyError>(
            ProxyError::MissingAuthor,
        ),
        present(payload.url) && present(payload.author) ==> {
            let file_type = match payload.file_type {
                Some(t) => t@,
                None => "video"@,
            };
            &&& r matches Ok(request)
            &&& request.url@ == payload.url.unwrap()@
            &&& request.content_type@ == stream_type_info(file_type).0
            &&& request.filename@ == safe_filename_of(
                payload.author.unwrap()@,
                stream_type_info(file_type).1,
            )
            &&& request.filesize == payload.filesize
            &&& header_views(request.headers@) == with_identity(
                match payload.http_headers {
                    Some(headers) => headers@,
                    None => Seq::empty(),
                },
            )
        },
{
    if !is_present(&payload.url) {
        return Err(ProxyError::MissingUrl);
    }
    if !is_present(&payload.author) {
        return Err(ProxyError::MissingAuthor);
    }
    let author = payload.author.as_ref().unwrap();
    let url = payload.url.as_ref().unwrap();
    let info = match &payload.file_type {
        Some(file_type) => stream_content_type_info(file_type.as_str()),
        None => stream_content_type_info("video"),
    };
    let headers = match &payload.http_headers {
        Some(headers) => upstream_headers(headers),
        None => {
            let none: Vec<(String, String)> = Vec::new();
            upstream_headers(&none)
        },
    };
    Ok(
        ProxyRequest {
            url: url.clone(),
            headers,
            content_type: info.0.to_owned(),
            filename: safe_filename(author.as_str(), info.1),
            filesize: payload.filesize,
        },
    )
}

/// The length to announce to the client.
pub fn content_length(filesize: Option<i64>, upstream: &Option<String>) -> (length: Option<String>)
    ensures
        match length {
            Some(text) => announced_length(filesize, *upstream) == Some(text@),
            None => announced_length(filesize, *upstream) is None,
        },
{
    match filesize {
        Some(size) => {
            if size > 0 {
                return Some(decimal_string(size as u64));
            }
        },
        None => {},
    }
    match upstream {
        Some(text) => Some(text.clone()),
        None => None,
    }
}

/// The head of the answer to the client, once upstream has answered.
///
/// A status from upstream that is no success, and an upstream that cannot be
/// reached, fail the request; the status is kept for whoever looks into it.
/// On success the client is offered the file under its safe name, told not to
/// cache it, and told its length where that is known.
pub fn stream_from_cdn(request: &ProxyRequest, reply: &UpstreamReply) -> (r: Result<
    ResponseHead,
    ProxyError,
>)
    ensures
        answers_client(r, *request, *reply),
{
    match reply {
        UpstreamReply::Unreachable => Err(ProxyError::UpstreamUnreachable),
        UpstreamReply::Answer { status, content_length: upstream_length, content_type: _ } => {
            if !status_is_success(*status) {
                return Err(ProxyError::UpstreamUnavailable { status: *status });
            }
            Ok(
                ResponseHead {
                    content_type: request.content_type.clone(),
                    content_disposition: content_disposition(request.filename.as_str()),
                    filename: request.filename.clone(),
                    x_filename: Some(request.filename.clone()),
                    cache_control: Some("no-cache".to_owned()),
                    content_length: content_length(request.filesize, upstream_length),
                },
            )
        },
    }
}

/// The file extension for a content type.
pub fn extension_for(content_type: &str) -> (ext: &'static str)
    ensures
        ext@ == extension_of(content_type@),
{
    if starts_with(content_type, "audio/") {
        "m4a"
    } else if starts_with(content_type, "image/") {
        "jpg"
    } else {
        "mp4"
    }
}

/// A label with every character that is neither letter nor digit replaced by `_`.
pub fn plain(label: &str) -> (out: String)
    ensures
        out@ == plain_label(label@),
{
    let mut out: String = String::new();
    for c in it: label.chars()
        invariant
            it.seq() == label@,
            out@ == plain_label(label@.take(it.index())),
    {
        let kept: char = if is_alphanumeric(c) {
            c
        } else {
            '_'
        };
        push_char(&mut out, kept);
        assert(out@ =~= plain_label(label@.take(it.index() + 1)));
    }
    assert(label@.take(label@.len() as int) =~= label@);
    out
}

/// What to fetch for a variant of a session that a request names.
///
/// The content type is what the session says of the variant, and may be
/// replaced once upstream has named its own; the file name is settled then too.
pub fn stream(session: &SessionData, format_id: &str) -> (r: Result<
    ProxyRequest,
    crate::session::SessionError,
>)
    ensures
        match r {
            Ok(request) => exists|at: int|
                {
                    &&& crate::session::is_first_choice(session.formats@, format_id@, at)
                    &&& request.url@ == session.formats@[at].1.url@
                    &&& request.content_type@ == session.formats@[at].1.content_type@
                    &&& request.filename@ == session_filename(
                        session.video_id@,
                        format_id@,
                        session.formats@[at].1.quality@,
                        session.formats@[at].1.content_type@,
                    )
                    &&& request.filesize is None
                    &&& header_views(request.headers@) == session_headers(
                        session.formats@[at].1.http_headers@,
                        session.cookies,
                    )
                },
            Err(e) => e == crate::session::SessionError::FormatNotFound
                && crate::session::no_choice(session.formats@, format_id@),
        },
{
    let format = match session.resolve(format_id) {
        Ok(format) => format,
        Err(e) => {
            return Err(e);
        },
    };
    Ok(
        ProxyRequest {
            url: format.url.clone(),
            headers: session_upstream_headers(format, &session.cookies),
            content_type: format.content_type.clone(),
            filename: stream_filename(
                session.video_id.as_str(),
                format_id,
                format.quality.as_str(),
                format.content_type.as_str(),
            ),
            filesize: None,
        },
    )
}

/// The file name for a variant of a session, by the content type that is
/// known for it.
pub fn stream_filename(video_id: &str, format_id: &str, quality: &str, content_type: &str) -> (name:
    String)
    ensures
        name@ == session_filename(video_id@, format_id@, quality@, content_type@),
{
    let label = plain(quality);
    let mut name: String = join3(video_id, "_", format_id);
    name.append("_");
    name.append(label.as_str());
    name.append(".");
    name.append(extension_for(content_type));
    name
}

/// The head of the answer to the client for a variant of a session, once
/// upstream has answered. The content type is the one that upstream names,
/// and the one of the variant where it names none; the file name follows it.
/// The answer says what the file is, what to call it and, where upstream has
/// said so, how long it is, and nothing else.
pub fn stream_response(
    session: &SessionData,
    format_id: &str,
    format: &FormatInfo,
    reply: &UpstreamReply,
) -> (r: Result<ResponseHead, ProxyError>)
    ensures
        match *reply {
            UpstreamReply::Unreachable => r == Err::<ResponseHead, ProxyError>(
                ProxyError::UpstreamUnreachable,
            ),
            UpstreamReply::Answer { status, content_length, content_type } => if is_success(status) {
                let named = match content_type {
                    Some(text) => text@,
                    None => format.content_type@,
                };
                &&& r matches Ok(head)
                &&& head.content_type@ == named
                &&& head.filename@ == session_filename(
                    session.video_id@,
                    format_id@,
                    format.quality@,
                    named,
                )
                &&& head.content_disposition@ == disposition_of(head.filename@)
                &&& head.x_filename is None
                &&& head.cache_control is None
                &&& match head.content_length {
                    Some(text) => announced_length(None, content_length) == Some(text@),
                    None => announced_length(None, content_length) is None,
                }
            } else {
                r == Err::<ResponseHead, ProxyError>(ProxyError::UpstreamUnavailable { status })
            },
        },
{
    match reply {
        UpstreamReply::Unreachable => Err(ProxyError::UpstreamUnreachable),
        UpstreamReply::Answer { status, content_length: upstream_length, content_type: upstream_type } => {
            if !status_is_success(*status) {
                return Err(ProxyError::UpstreamUnavailable { status: *status });
            }
            let named: String = match upstream_type {
                Some(text) => text.clone(),
                None => format.content_type.clone(),
            };
            let filename = stream_filename(
                session.video_id.as_str(),
                format_id,
                format.quality.as_str(),
                named.as_str(),
            );
            Ok(
                ResponseHead {
                    content_disposition: content_disposition(filename.as_str()),
                    content_type: named,
                    filename,
                    x_filename: None,
                    cache_control: None,
                    content_length: content_length(None, upstream_length),
                },
            )
        },
    }
}

/// The token of a link, or why there is none to read.
pub fn token_of(query: &DownloadQuery) -> (r: Result<&str, ProxyError>)
    ensures
        match r {
            Ok(token) => token@ == query.data@ && token@.len() > 0,
            Err(e) => e == ProxyError::MissingData && query.data@.len() == 0,
        },
{
    if query.data.as_str().unicode_len() == 0 {
        Err(ProxyError::MissingData)
    } else {
        Ok(query.data.as_str())
    }
}

/// A safe file name holds letters, digits, `_` and the dot before the
/// extension, whatever the author is called: nothing in it can end a header
/// or name a directory.
pub proof fn law_safe_names(author: Seq<char>, i: int)
    requires
        0 <= i < author.len(),
    ensures
        sanitized(author).len() == author.len(),
        is_ascii_alphanumeric(sanitized(author)[i]) || sanitized(author)[i] == '_',
{
}

/// The status with which a failure of the proxy is answered: a fault of the
/// request for what is wrong with the link, a bad gateway for what went wrong upstream.
pub open spec fn proxy_status(e: ProxyError) -> u16 {
    match e {
        ProxyError::UpstreamUnavailable { .. } => 502,
        ProxyError::UpstreamUnreachable => 502,
        _ => 400,
    }
}

/// What the client is told of a failure of the proxy.
pub open spec fn proxy_message(e: ProxyError) -> Seq<char> {
    match e {
        ProxyError::MissingData => "Encrypted data parameter is required"@,
        ProxyError::BadToken(TokenError::BadEncoding) => "Decryption failed: Base64 decode failed"@,
        ProxyError::BadToken(TokenError::BadText) => "Decryption failed: UTF-8 decode failed"@,
        ProxyError::BadToken(TokenError::Expired) =>
            "Decryption failed: Encrypted data has expired"@,
        ProxyError::BadPayload => "Invalid decrypted data"@,
        ProxyError::MissingAuthor => "Invalid decrypted data: missing author"@,
        ProxyError::MissingType => "Invalid decrypted data: missing type"@,
        ProxyError::MissingUrl => "No download URL provided"@,
        ProxyError::UpstreamUnavailable { status } => "CDN returned status "@ + ascii_chars(
            decimal(status as nat),
        ),
        ProxyError::UpstreamUnreachable => "CDN request failed"@,
    }
}

impl ProxyError {
    /// The status with which the failure is answered.
    pub fn status(&self) -> (status: u16)
        ensures
            status == proxy_status(*self),
    {
        match self {
            ProxyError::UpstreamUnavailable { status: _ } => 502,
            ProxyError::UpstreamUnreachable => 502,
            _ => 400,
        }
    }

    /// What the client is told.
    pub fn message(&self) -> (text: String)
        ensures
            text@ == proxy_message(*self),
    {
        match self {
            ProxyError::MissingData => "Encrypted data parameter is required".to_owned(),
            ProxyError::BadToken(TokenError::BadEncoding) =>
                "Decryption failed: Base64 decode failed".to_owned(),
            ProxyError::BadToken(TokenError::BadText) =>
                "Decryption failed: UTF-8 decode failed".to_owned(),
            ProxyError::BadToken(TokenError::Expired) =>
                "Decryption failed: Encrypted data has expired".to_owned(),
            ProxyError::BadPayload => "Invalid decrypted data".to_owned(),
            ProxyError::MissingAuthor => "Invalid decrypted data: missing author".to_owned(),
            ProxyError::MissingType => "Invalid decrypted data: missing type".to_owned(),
            ProxyError::MissingUrl => "No download URL provided".to_owned(),
            ProxyError::UpstreamUnavailable { status } => {
                let digits = decimal_string(*status as u64);
                let mut text = "CDN returned status ".to_owned();
                text.append(digits.as_str());
                text
            },
            ProxyError::UpstreamUnreachable => "CDN request failed".to_owned(),
        }
    }
}

/// What the token of a link says, read at the second `now`; or why the link
/// cannot be served.
pub open spec fn link_text(data: Seq<char>, key: Seq<char>, now: u64) -> Result<Seq<u8>, ProxyError> {
    if data.len() == 0 {
        Err(ProxyError::MissingData)
    } else {
        match crate::encryption::decoded(encode_utf8(data), encode_utf8(key), now) {
            Ok(bytes) => Ok(bytes),
            Err(reason) => Err(ProxyError::BadToken(reason)),
        }
    }
}

/// True when `r` is the string form of `expected`.
pub open spec fn is_link_text(r: Result<String, ProxyError>, expected: Result<Seq<u8>, ProxyError>) -> bool {
    match (r, expected) {
        (Ok(s), Ok(bytes)) => encode_utf8(s@) == bytes,
        (Err(e), Err(f)) => e == f,
        _ => false,
    }
}

/// Reads the token of a link as of the second `now`.
pub fn read_link_at(query: &DownloadQuery, key: &str, now: u64) -> (r: Result<String, ProxyError>)
    requires
        key@.len() > 0,
    ensures
        is_link_text(r, link_text(query.data@, key@, now)),
        r matches Err(e) ==> proxy_status(e) == 400,
{
    let token = match token_of(query) {
        Ok(token) => token,
        Err(e) => {
            return Err(e);
        },
    };
    match crate::encryption::decrypt_at(token, key, now) {
        Ok(text) => Ok(text),
        Err(reason) => Err(ProxyError::BadToken(reason)),
    }
}

/// Reads the token of a link as of now, by the system clock.
pub fn read_link(query: &DownloadQuery, key: &str) -> (r: Result<String, ProxyError>)
    requires
        key@.len() > 0,
    ensures
        exists|now: u64| is_link_text(r, #[trigger] link_text(query.data@, key@, now)),
        r matches Err(e) ==> proxy_status(e) == 400,
{
    let now: u64 = crate::clock::unix_time();
    read_link_at(query, key, now)
}

/// A link that cannot be served for what it holds is a fault of the client,
/// and only a failure of upstream is one of the gateway: the status is 400
/// for the one and 502 for the other. Such a link leads to no request, so
/// upstream is not asked.
pub proof fn law_link_faults(e: ProxyError)
    ensures
        proxy_status(e) == 400 || proxy_status(e) == 502,
        proxy_status(e) == 502 <==> (e is UpstreamUnavailable || e is UpstreamUnreachable),
        e == ProxyError::BadPayload ==> proxy_status(e) == 400 && proxy_message(e)
            == "Invalid decrypted data"@,
{
}

} // verus!
