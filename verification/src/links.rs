//! Links that stand for a file at the content network without naming it.
//!
//! A link carries a token, and the token carries, as JSON, what the proxy
//! needs to fetch the file: its address, the headers that the network wants
//! to see, its size, and what to call it. A link is valid for six hours.

use crate::config::Settings;
use crate::encryption::{encrypt_at, fits_token, max_payload_len, token_text};
use crate::json::{
    entries, json_string, lemma_in_front, lemma_joined, lemma_member_behind, lemma_one_member,
    lemma_plain_text, lemma_put_at, lemma_sorts_by_first, map_insert, members_text, new_map,
    number_value, object_text, object_value, put, text_value, value_copy, write_value, written,
};
use crate::media::RawFormat;
use crate::stream::header_views;
use crate::text::{ascii_chars, number_or, or_number, signed_decimal};
use vstd::prelude::*;
use vstd::utf8::*;

verus! {

/// Minutes for which a link is valid.
pub const LINK_EXPIRY_MINUTES: u64 = 360;

/// The headers with a text as value, as members of a JSON object: each
/// name with its value as a JSON string.
pub open spec fn text_members(headers: Seq<(Seq<char>, Seq<char>)>) -> Seq<(Seq<char>, Seq<char>)> {
    Seq::new(headers.len(), |i: int| (headers[i].0, json_string(headers[i].1)))
}

/// The headers with another value, as members of a JSON object: each name
/// with its value as the JSON that it is.
pub open spec fn value_members(headers: Seq<(String, serde_json::Value)>) -> Seq<
    (Seq<char>, Seq<char>),
> {
    Seq::new(headers.len(), |i: int| (headers[i].0@, written(headers[i].1)))
}

/// The members with each of `more` set, one after the other.
pub open spec fn put_all(members: Seq<(Seq<char>, Seq<char>)>, more: Seq<(Seq<char>, Seq<char>)>) -> Seq<
    (Seq<char>, Seq<char>),
>
    decreases more.len(),
{
    if more.len() == 0 {
        members
    } else {
        put(put_all(members, more.drop_last()), more.last().0, more.last().1)
    }
}

/// The headers to put into a token, as the members of a JSON object: the
/// headers of the variant, in the order of their names and each name once,
/// with its cookies as the one `Cookie` header where it has cookies.
pub open spec fn header_members(
    texts: Seq<(Seq<char>, Seq<char>)>,
    others: Seq<(Seq<char>, Seq<char>)>,
    cookies: Option<String>,
) -> Seq<(Seq<char>, Seq<char>)> {
    let own = put_all(put_all(Seq::empty(), text_members(texts)), others);
    match cookies {
        Some(text) => put(own, "Cookie"@, json_string(text@)),
        None => own,
    }
}

/// The headers to put into the token of a link to a variant.
pub open spec fn payload_headers(r: RawFormat) -> Seq<(Seq<char>, Seq<char>)> {
    header_members(header_views(r.http_headers@), value_members(r.other_headers@), r.cookies)
}

/// The members of the JSON object in the token of a link to a stream, in
/// the order in which they are written.
pub open spec fn stream_members(
    url: Seq<char>,
    author: Seq<char>,
    filesize: i64,
    headers: Seq<(Seq<char>, Seq<char>)>,
    file_type: Seq<char>,
) -> Seq<(Seq<char>, Seq<char>)> {
    seq![
        ("author"@, json_string(author)),
        ("filesize"@, ascii_chars(signed_decimal(filesize as int))),
        ("http_headers"@, object_text(headers)),
        ("type"@, json_string(file_type)),
        ("url"@, json_string(url)),
    ]
}

/// The JSON in the token of a link to a stream.
pub open spec fn stream_payload(
    url: Seq<char>,
    author: Seq<char>,
    filesize: i64,
    headers: Seq<(Seq<char>, Seq<char>)>,
    file_type: Seq<char>,
) -> Seq<char> {
    object_text(stream_members(url, author, filesize, headers, file_type))
}

/// The members of the JSON object in the token of a link to an image.
pub open spec fn image_members(url: Seq<char>, author: Seq<char>) -> Seq<(Seq<char>, Seq<char>)> {
    seq![
        ("author"@, json_string(author)),
        ("type"@, json_string("image"@)),
        ("url"@, json_string(url)),
    ]
}

/// The JSON in the token of a link to an image.
pub open spec fn image_payload(url: Seq<char>, author: Seq<char>) -> Seq<char> {
    object_text(image_members(url, author))
}

/// The token for `text`, made at `now` and valid for six hours; none where
/// the text is too long for a token.
pub open spec fn sealed(text: Seq<char>, key: Seq<char>, now: u64) -> Option<Seq<char>> {
    if encode_utf8(text).len() <= max_payload_len() {
        Some(token_text(text, key, Some(LINK_EXPIRY_MINUTES), now))
    } else {
        None
    }
}

/// The link under `base_url` that hands `payload` to the endpoint at `path`.
pub open spec fn link_to(
    base_url: Seq<char>,
    path: Seq<char>,
    payload: Seq<char>,
    key: Seq<char>,
    now: u64,
) -> Option<Seq<char>> {
    match sealed(payload, key, now) {
        Some(token) => Some(base_url + path + token),
        None => None,
    }
}

/// The size to put into the token of a stream: the exact one where it is
/// known, else the estimate, else zero.
pub open spec fn payload_size(r: RawFormat) -> i64 {
    match r.filesize {
        Some(n) => n,
        None => number_or(r.filesize_approx, 0),
    }
}

/// The link to the stream of a variant, and none for a variant without an address.
pub open spec fn stream_link(
    r: RawFormat,
    author: Seq<char>,
    file_type: Seq<char>,
    base_url: Seq<char>,
    key: Seq<char>,
    now: u64,
) -> Option<Seq<char>> {
    match r.url {
        Some(url) => link_to(
            base_url,
            "/stream?data="@,
            stream_payload(
                url@,
                author,
                payload_size(r),
                payload_headers(r),
                file_type,
            ),
            key,
            now,
        ),
        None => None,
    }
}

/// True when the optional text has the optional value.
pub open spec fn same_text(text: Option<String>, value: Option<Seq<char>>) -> bool {
    match (text, value) {
        (Some(t), Some(v)) => t@ == v,
        (None, None) => true,
        _ => false,
    }
}

/// The members of a payload stand in the order of their names, whatever the
/// order in which they are set.
proof fn lemma_stream_members(u: Seq<char>, a: Seq<char>, f: Seq<char>, h: Seq<char>, t: Seq<char>)
    ensures
        put(
            put(
                put(put(put(Seq::empty(), "url"@, u), "author"@, a), "filesize"@, f),
                "http_headers"@,
                h,
            ),
            "type"@,
            t,
        ) == seq![("author"@, a), ("filesize"@, f), ("http_headers"@, h), ("type"@, t), ("url"@, u)],
        put(put(put(Seq::empty(), "url"@, u), "author"@, a), "type"@, t) == seq![
            ("author"@, a),
            ("type"@, t),
            ("url"@, u),
        ],
{
    reveal_strlit("url");
    reveal_strlit("author");
    reveal_strlit("filesize");
    reveal_strlit("http_headers");
    reveal_strlit("type");
    lemma_sorts_by_first("author"@, "url"@);
    lemma_sorts_by_first("author"@, "filesize"@);
    lemma_sorts_by_first("filesize"@, "url"@);
    lemma_sorts_by_first("author"@, "http_headers"@);
    lemma_sorts_by_first("filesize"@, "http_headers"@);
    lemma_sorts_by_first("http_headers"@, "url"@);
    lemma_sorts_by_first("author"@, "type"@);
    lemma_sorts_by_first("filesize"@, "type"@);
    lemma_sorts_by_first("http_headers"@, "type"@);
    lemma_sorts_by_first("type"@, "url"@);
    let none = Seq::<(Seq<char>, Seq<char>)>::empty();
    let m1 = seq![("url"@, u)];
    lemma_put_at(none, "url"@, u, 0);
    assert(none.insert(0, ("url"@, u)) =~= m1);
    let m2 = seq![("author"@, a), ("url"@, u)];
    lemma_put_at(m1, "author"@, a, 0);
    assert(m1.insert(0, ("author"@, a)) =~= m2);
    let m3 = seq![("author"@, a), ("filesize"@, f), ("url"@, u)];
    lemma_put_at(m2, "filesize"@, f, 1);
    assert(m2.insert(1, ("filesize"@, f)) =~= m3);
    let m4 = seq![("author"@, a), ("filesize"@, f), ("http_headers"@, h), ("url"@, u)];
    lemma_put_at(m3, "http_headers"@, h, 2);
    assert(m3.insert(2, ("http_headers"@, h)) =~= m4);
    let m5 = seq![("author"@, a), ("filesize"@, f), ("http_headers"@, h), ("type"@, t), ("url"@, u)];
    lemma_put_at(m4, "type"@, t, 3);
    assert(m4.insert(3, ("type"@, t)) =~= m5);
    let i3 = seq![("author"@, a), ("type"@, t), ("url"@, u)];
    lemma_put_at(m2, "type"@, t, 1);
    assert(m2.insert(1, ("type"@, t)) =~= i3);
}

/// The names of the members as they are written, with what stands around them.
proof fn lemma_written_names()
    ensures
        ("{"@ + json_string("author"@)) + ":"@ == "{\"author\":"@,
        ","@ + json_string("filesize"@) + ":"@ == ",\"filesize\":"@,
        (","@ + json_string("http_headers"@) + ":"@) + "{"@ == ",\"http_headers\":{"@,
        "}"@ + (","@ + json_string("type"@) + ":"@) == "},\"type\":"@,
        ","@ + json_string("url"@) + ":"@ == ",\"url\":"@,
        ((","@ + json_string("type"@) + ":"@) + json_string("image"@)) + (","@ + json_string(
            "url"@,
        ) + ":"@) == ",\"type\":\"image\",\"url\":"@,
{
    reveal_strlit("{");
    reveal_strlit("}");
    reveal_strlit(":");
    reveal_strlit(",");
    assert(("{"@ + json_string("author"@)) + ":"@ == "{\"author\":"@) by {
        reveal_strlit("author");
        reveal_strlit("{\"author\":");
        lemma_plain_text("author"@);
        assert(("{"@ + json_string("author"@)) + ":"@ =~= "{\"author\":"@);
    }
    assert(","@ + json_string("filesize"@) + ":"@ == ",\"filesize\":"@) by {
        reveal_strlit("filesize");
        reveal_strlit(",\"filesize\":");
        lemma_plain_text("filesize"@);
        assert(","@ + json_string("filesize"@) + ":"@ =~= ",\"filesize\":"@);
    }
    assert((","@ + json_string("http_headers"@) + ":"@) + "{"@ == ",\"http_headers\":{"@) by {
        reveal_strlit("http_headers");
        reveal_strlit(",\"http_headers\":{");
        lemma_plain_text("http_headers"@);
        assert((","@ + json_string("http_headers"@) + ":"@) + "{"@ =~= ",\"http_headers\":{"@);
    }
    assert("}"@ + (","@ + json_string("type"@) + ":"@) == "},\"type\":"@) by {
        reveal_strlit("type");
        reveal_strlit("},\"type\":");
        lemma_plain_text("type"@);
        assert("}"@ + (","@ + json_string("type"@) + ":"@) =~= "},\"type\":"@);
    }
    assert(","@ + json_string("url"@) + ":"@ == ",\"url\":"@) by {
        reveal_strlit("url");
        reveal_strlit(",\"url\":");
        lemma_plain_text("url"@);
        assert(","@ + json_string("url"@) + ":"@ =~= ",\"url\":"@);
    }
    assert(((","@ + json_string("type"@) + ":"@) + json_string("image"@)) + (","@ + json_string(
        "url"@,
    ) + ":"@) == ",\"type\":\"image\",\"url\":"@) by {
        reveal_strlit("type");
        reveal_strlit("image");
        reveal_strlit("url");
        reveal_strlit(",\"type\":\"image\",\"url\":");
        lemma_plain_text("type"@);
        lemma_plain_text("image"@);
        lemma_plain_text("url"@);
        assert(((","@ + json_string("type"@) + ":"@) + json_string("image"@)) + (","@ + json_string(
            "url"@,
        ) + ":"@) =~= ",\"type\":\"image\",\"url\":"@);
    }
}

/// The JSON of a stream's payload, piece by piece.
proof fn lemma_stream_pieces(
    a: Seq<char>,
    f: Seq<char>,
    headers: Seq<(Seq<char>, Seq<char>)>,
    t: Seq<char>,
    u: Seq<char>,
)
    ensures
        object_text(
            seq![
                ("author"@, a),
                ("filesize"@, f),
                ("http_headers"@, object_text(headers)),
                ("type"@, t),
                ("url"@, u),
            ],
        ) == "{\"author\":"@ + a + ",\"filesize\":"@ + f + ",\"http_headers\":{"@ + members_text(
            headers,
        ) + "},\"type\":"@ + t + ",\"url\":"@ + u + "}"@,
{
    lemma_written_names();
    let n1 = json_string("author"@);
    let k2 = ","@ + json_string("filesize"@) + ":"@;
    let k3 = ","@ + json_string("http_headers"@) + ":"@;
    let k4 = ","@ + json_string("type"@) + ":"@;
    let k5 = ","@ + json_string("url"@) + ":"@;
    let inner = members_text(headers);
    let h = object_text(headers);
    let m1 = seq![("author"@, a)];
    let m2 = m1.push(("filesize"@, f));
    let m3 = m2.push(("http_headers"@, h));
    let m4 = m3.push(("type"@, t));
    let m5 = m4.push(("url"@, u));
    assert(m5 =~= seq![
        ("author"@, a),
        ("filesize"@, f),
        ("http_headers"@, h),
        ("type"@, t),
        ("url"@, u),
    ]);
    lemma_one_member("author"@, a);
    lemma_member_behind(m1, "filesize"@, f);
    lemma_member_behind(m2, "http_headers"@, h);
    lemma_member_behind(m3, "type"@, t);
    lemma_member_behind(m4, "url"@, u);
    let open = "{"@;
    let t1 = members_text(m1);
    let t2 = members_text(m2);
    let t3 = members_text(m3);
    let t4 = members_text(m4);
    let t5 = members_text(m5);
    assert(t1 == (n1 + ":"@) + a);
    assert(t2 == (t1 + k2) + f);
    assert(t3 == (t2 + k3) + h);
    assert(t4 == (t3 + k4) + t);
    assert(t5 == (t4 + k5) + u);
    // The opening brace moves to the front of the first name.
    let y1 = "{\"author\":"@ + a;
    assert(open + t1 == y1) by {
        lemma_joined(open, n1 + ":"@, a);
        lemma_joined(open, n1, ":"@);
    }
    let y2 = (y1 + ",\"filesize\":"@) + f;
    assert(open + t2 == y2) by {
        lemma_in_front(open, t1, k2, f);
    }
    // The braces of the headers go to the names around them.
    let y3 = ((y2 + ",\"http_headers\":{"@) + inner) + "}"@;
    assert(open + t3 == y3) by {
        lemma_in_front(open, t2, k3, h);
        let x = y2 + k3;
        assert(h == ("{"@ + inner) + "}"@);
        lemma_joined(x, "{"@ + inner, "}"@);
        lemma_joined(x, "{"@, inner);
        lemma_joined(y2, k3, "{"@);
    }
    let y4 = (((y2 + ",\"http_headers\":{"@) + inner) + "},\"type\":"@) + t;
    assert(open + t4 == y4) by {
        lemma_in_front(open, t3, k4, t);
        let x = (y2 + ",\"http_headers\":{"@) + inner;
        lemma_joined(x, "}"@, k4);
    }
    let y5 = (y4 + ",\"url\":"@) + u;
    assert(open + t5 == y5) by {
        lemma_in_front(open, t4, k5, u);
    }
    assert(object_text(m5) == y5 + "}"@);
}

/// The JSON of an image's payload, piece by piece.
proof fn lemma_image_pieces(a: Seq<char>, u: Seq<char>)
    ensures
        object_text(seq![("author"@, a), ("type"@, json_string("image"@)), ("url"@, u)])
            == "{\"author\":"@ + a + ",\"type\":\"image\",\"url\":"@ + u + "}"@,
{
    lemma_written_names();
    let n1 = json_string("author"@);
    let k4 = ","@ + json_string("type"@) + ":"@;
    let k5 = ","@ + json_string("url"@) + ":"@;
    let t = json_string("image"@);
    let m1 = seq![("author"@, a)];
    let m2 = m1.push(("type"@, t));
    let m3 = m2.push(("url"@, u));
    assert(m3 =~= seq![("author"@, a), ("type"@, t), ("url"@, u)]);
    lemma_one_member("author"@, a);
    lemma_member_behind(m1, "type"@, t);
    lemma_member_behind(m2, "url"@, u);
    let open = "{"@;
    let t1 = members_text(m1);
    let t2 = members_text(m2);
    let t3 = members_text(m3);
    assert(t1 == (n1 + ":"@) + a);
    assert(t2 == (t1 + k4) + t);
    assert(t3 == (t2 + k5) + u);
    let y1 = "{\"author\":"@ + a;
    assert(open + t1 == y1) by {
        lemma_joined(open, n1 + ":"@, a);
        lemma_joined(open, n1, ":"@);
    }
    let y3 = (y1 + ",\"type\":\"image\",\"url\":"@) + u;
    assert(open + t3 == y3) by {
        lemma_in_front(open, t2, k5, u);
        lemma_in_front(open, t1, k4, t);
        lemma_joined(y1 + k4, t, k5);
        lemma_joined(y1, k4 + t, k5);
        lemma_joined(y1, k4, t);
    }
    assert(object_text(m3) == y3 + "}"@);
}

/// The payloads written out. The members stand in the order of their
/// names, with nothing between the parts.
pub proof fn law_payload_text(
    url: Seq<char>,
    author: Seq<char>,
    filesize: i64,
    headers: Seq<(Seq<char>, Seq<char>)>,
    file_type: Seq<char>,
)
    ensures
        stream_payload(url, author, filesize, headers, file_type) == "{\"author\":"@ + json_string(
            author,
        ) + ",\"filesize\":"@ + ascii_chars(signed_decimal(filesize as int))
            + ",\"http_headers\":{"@ + members_text(headers) + "},\"type\":"@ + json_string(
            file_type,
        ) + ",\"url\":"@ + json_string(url) + "}"@,
        image_payload(url, author) == "{\"author\":"@ + json_string(author)
            + ",\"type\":\"image\",\"url\":"@ + json_string(url) + "}"@,
{
    lemma_stream_pieces(
        json_string(author),
        ascii_chars(signed_decimal(filesize as int)),
        headers,
        json_string(file_type),
        json_string(url),
    );
    lemma_image_pieces(json_string(author), json_string(url));
}

/// The headers to put into a token, as a JSON object.
pub fn headers_object(
    headers: &Vec<(String, String)>,
    others: &Vec<(String, serde_json::Value)>,
    cookies: &Option<String>,
) -> (map: serde_json::Map<String, serde_json::Value>)
    ensures
        entries(map) == header_members(header_views(headers@), value_members(others@), *cookies),
{
    let ghost texts = text_members(header_views(headers@));
    let ghost values = value_members(others@);
    let mut map = new_map();
    let mut i: usize = 0;
    assert(texts.take(0) =~= Seq::<(Seq<char>, Seq<char>)>::empty());
    while i < headers.len()
        invariant
            0 <= i <= headers@.len(),
            texts == text_members(header_views(headers@)),
            entries(map) == put_all(Seq::empty(), texts.take(i as int)),
        decreases headers@.len() - i,
    {
        let ghost longer = texts.take(i + 1);
        assert(longer.drop_last() =~= texts.take(i as int));
        assert(longer.last() == (headers@[i as int].0@, json_string(headers@[i as int].1@)));
        map_insert(&mut map, headers[i].0.as_str(), text_value(headers[i].1.as_str()));
        i = i + 1;
    }
    assert(texts.take(i as int) =~= texts);
    let ghost own = entries(map);
    let mut j: usize = 0;
    assert(values.take(0) =~= Seq::<(Seq<char>, Seq<char>)>::empty());
    while j < others.len()
        invariant
            0 <= j <= others@.len(),
            values == value_members(others@),
            entries(map) == put_all(own, values.take(j as int)),
        decreases others@.len() - j,
    {
        let ghost longer = values.take(j + 1);
        assert(longer.drop_last() =~= values.take(j as int));
        assert(longer.last() == (others@[j as int].0@, written(others@[j as int].1)));
        map_insert(&mut map, others[j].0.as_str(), value_copy(&others[j].1));
        j = j + 1;
    }
    assert(values.take(j as int) =~= values);
    match cookies {
        Some(text) => {
            map_insert(&mut map, "Cookie", text_value(text.as_str()));
        },
        None => {},
    }
    map
}

/// The JSON in the token of a link to a stream, with `headers` as the
/// headers to send upstream.
pub fn stream_payload_json(
    url: &str,
    author: &str,
    filesize: i64,
    headers: serde_json::Map<String, serde_json::Value>,
    file_type: &str,
) -> (json: String)
    ensures
        json@ == stream_payload(url@, author@, filesize, entries(headers), file_type@),
        json@ == "{\"author\":"@ + json_string(author@) + ",\"filesize\":"@ + ascii_chars(
            signed_decimal(filesize as int),
        ) + ",\"http_headers\":{"@ + members_text(entries(headers)) + "},\"type\":"@ + json_string(
            file_type@,
        ) + ",\"url\":"@ + json_string(url@) + "}"@,
{
    proof {
        law_payload_text(url@, author@, filesize, entries(headers), file_type@);
    }
    let mut map = new_map();
    map_insert(&mut map, "url", text_value(url));
    map_insert(&mut map, "author", text_value(author));
    map_insert(&mut map, "filesize", number_value(filesize));
    map_insert(&mut map, "http_headers", object_value(headers));
    map_insert(&mut map, "type", text_value(file_type));
    proof {
        lemma_stream_members(
            json_string(url@),
            json_string(author@),
            ascii_chars(signed_decimal(filesize as int)),
            object_text(entries(headers)),
            json_string(file_type@),
        );
    }
    let payload = object_value(map);
    write_value(&payload)
}

/// The JSON in the token of a link to an image.
pub fn image_payload_json(url: &str, author: &str) -> (json: String)
    ensures
        json@ == image_payload(url@, author@),
        json@ == "{\"author\":"@ + json_string(author@) + ",\"type\":\"image\",\"url\":"@
            + json_string(url@) + "}"@,
{
    proof {
        law_payload_text(url@, author@, 0, Seq::empty(), Seq::empty());
    }
    let mut map = new_map();
    map_insert(&mut map, "url", text_value(url));
    map_insert(&mut map, "author", text_value(author));
    map_insert(&mut map, "type", text_value("image"));
    proof {
        lemma_stream_members(
            json_string(url@),
            json_string(author@),
            Seq::empty(),
            Seq::empty(),
            json_string("image"@),
        );
    }
    let payload = object_value(map);
    write_value(&payload)
}

/// The token for `text`, made at `now` and valid for six hours.
pub fn seal(text: &str, key: &str, now: u64) -> (token: Option<String>)
    requires
        key@.len() > 0,
    ensures
        same_text(token, sealed(text@, key@, now)),
{
    if fits_token(text) {
        Some(encrypt_at(text, key, Some(LINK_EXPIRY_MINUTES), now))
    } else {
        None
    }
}

/// The link under `base_url` that hands `payload` to the endpoint at `path`.
pub fn make_link(base_url: &str, path: &str, payload: &str, key: &str, now: u64) -> (link: Option<
    String,
>)
    requires
        key@.len() > 0,
    ensures
        same_text(link, link_to(base_url@, path@, payload@, key@, now)),
{
    match seal(payload, key, now) {
        Some(token) => Some(crate::text::join3(base_url, path, token.as_str())),
        None => None,
    }
}

/// The link to the stream of a variant, made at the second `now`.
///
/// The token of the link names the address of the variant, the author, the
/// size, the headers to send upstream and the kind of file. A variant without
/// an address gets no link.
pub fn gen_stream_link(
    format_obj: &RawFormat,
    author_nickname: &str,
    file_type: &str,
    settings: &Settings,
    now: u64,
) -> (link: Option<String>)
    ensures
        same_text(
            link,
            stream_link(
                *format_obj,
                author_nickname@,
                file_type@,
                settings.base_url@,
                settings.encryption_key@,
                now,
            ),
        ),
{
    let url = match &format_obj.url {
        Some(url) => url,
        None => {
            return None;
        },
    };
    let filesize: i64 = match format_obj.filesize {
        Some(n) => n,
        None => or_number(format_obj.filesize_approx, 0),
    };
    let headers = headers_object(
        &format_obj.http_headers,
        &format_obj.other_headers,
        &format_obj.cookies,
    );
    let payload = stream_payload_json(url.as_str(), author_nickname, filesize, headers, file_type);
    make_link(
        settings.base_url.as_str(),
        "/stream?data=",
        payload.as_str(),
        settings.encryption_key.as_str(),
        now,
    )
}

} // verus!
