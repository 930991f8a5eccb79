//! What is kept in the key-value store, under which key and for how long.
//!
//! The store itself is another process. This module names the keys, says which
//! command a cache operation sends, and reads the store's reply. A value that
//! the store does not have, has let expire, or cannot be asked for is absent:
//! whoever asks cannot tell these apart, and does not need to, since the remedy
//! is the same.

use crate::text::{ascii_chars, decimal, decimal_string, join3};
use md5::{Digest, Md5};
use vstd::prelude::*;
use vstd::string::StringExecFns;
use vstd::utf8::*;

verus! {

/// Seconds for which the description of a source is kept.
pub const METADATA_TTL_SECS: u64 = 300;

/// Seconds for which a session is kept.
pub const SESSION_TTL_SECS: u64 = 300;

/// The MD5 digest of a byte string, as the `md-5` crate computes it.
pub uninterp spec fn md5_digest(data: Seq<u8>) -> Seq<u8>;

/// The lower-case hexadecimal digit for `v`.
pub open spec fn hex_digit(v: u8) -> char
    recommends
        v < 16,
{
    if v < 10 {
        (48 + v) as char
    } else {
        (87 + v) as char
    }
}

/// The bytes of `data` in lower-case hexadecimal, two digits to a byte.
pub open spec fn hex_lower(data: Seq<u8>) -> Seq<char> {
    Seq::new(
        2 * data.len(),
        |i: int|
            if i % 2 == 0 {
                hex_digit(data[i / 2] >> 4)
            } else {
                hex_digit(data[i / 2] & 0x0f)
            },
    )
}

/// The key under which the description of the source at `url` is kept.
pub open spec fn metadata_key_of(url: Seq<char>) -> Seq<char> {
    "tiktok:metadata:"@ + hex_lower(md5_digest(encode_utf8(url)))
}

/// The key under which the session `session_id` is kept.
pub open spec fn session_key_of(session_id: Seq<char>) -> Seq<char> {
    "download:"@ + session_id
}

/// The address of the store on `host` and `port`.
pub open spec fn store_url(host: Seq<char>, port: u16) -> Seq<char> {
    "redis://"@ + host + ":"@ + ascii_chars(decimal(port as nat))
}

/// A command for the store.
#[derive(Clone, Debug, PartialEq, Eq)]
pub enum StoreCommand {
    /// Read the value at `key`.
    Get { key: String },
    /// Write `value` at `key`, over whatever is there, to expire after `ttl_secs` seconds.
    SetEx { key: String, value: String, ttl_secs: u64 },
    /// Remove the value at `key`.
    Del { key: String },
    /// Ask whether the store is there.
    Ping,
}

/// What came of a command.
#[derive(Clone, Debug, PartialEq, Eq)]
pub enum StoreReply {
    /// The store holds this text.
    Value(String),
    /// The store holds nothing at the key.
    Nil,
    /// The store has done what it was asked.
    Done,
    /// The store could not be reached, or answered with an error.
    Failed,
}

/// Where the store is.
#[derive(Clone, Debug)]
pub struct RedisCache {
    pub url: String,
}

/// Calls `Md5::new`, `update` and `finalize` of the `md-5` crate.
///
/// Trusted: the digest depends on the bytes alone and has sixteen bytes.
#[verifier::external_body]
pub(crate) fn md5(data: &[u8]) -> (digest: Vec<u8>)
    ensures
        digest@ == md5_digest(data@),
        digest@.len() == 16,
{
    let mut hasher = Md5::new();
    hasher.update(data);
    hasher.finalize().to_vec()
}

/// The bytes of `data` in lower-case hexadecimal.
pub fn to_hex_lower(data: &[u8]) -> (text: String)
    ensures
        text@ == hex_lower(data@),
{
    let mut text: String = String::new();
    let mut i: usize = 0;
    while i < data.len()
        invariant
            0 <= i <= data@.len(),
            text@ == hex_lower(data@.take(i as int)),
        decreases data@.len() - i,
    {
        let byte: u8 = data[i];
        let high: u8 = byte >> 4;
        let low: u8 = byte & 0x0f;
        assert(high < 16 && low < 16) by (bit_vector)
            requires
                high == byte >> 4,
                low == byte & 0x0f,
        ;
        let ghost before = text@;
        crate::text::push_char(&mut text, nibble(high));
        crate::text::push_char(&mut text, nibble(low));
        proof {
            let shorter = data@.take(i as int);
            let longer = data@.take(i + 1);
            assert(text@ =~= hex_lower(longer)) by {
                assert forall|k: int| 0 <= k < 2 * longer.len() implies text@[k] == hex_lower(
                    longer,
                )[k] by {
                    if k < 2 * i {
                        assert(text@[k] == before[k]);
                        assert(longer[k / 2] == shorter[k / 2]);
                    } else {
                        assert(k / 2 == i);
                        assert(longer[i as int] == byte);
                    }
                }
            }
        }
        i = i + 1;
    }
    assert(data@.take(i as int) =~= data@);
    text
}

/// The lower-case hexadecimal digit for `v`.
fn nibble(v: u8) -> (c: char)
    requires
        v < 16,
    ensures
        c == hex_digit(v),
{
    if v < 10 {
        (48 + v) as char
    } else {
        (87 + v) as char
    }
}

/// The digest of a source address, in hexadecimal.
pub fn url_hash(url: &str) -> (hash: String)
    ensures
        hash@ == hex_lower(md5_digest(encode_utf8(url@))),
        hash@.len() == 32,
{
    let digest = md5(url.as_bytes());
    to_hex_lower(digest.as_slice())
}

/// The key under which the description of the source at `url` is kept.
pub fn metadata_key(url: &str) -> (key: String)
    ensures
        key@ == metadata_key_of(url@),
{
    let hash = url_hash(url);
    let mut key: String = "tiktok:metadata:".to_owned();
    key.append(hash.as_str());
    key
}

/// The key under which the session `session_id` is kept.
pub fn session_key(session_id: &str) -> (key: String)
    ensures
        key@ == session_key_of(session_id@),
{
    let mut key: String = "download:".to_owned();
    key.append(session_id);
    key
}

/// The text that a reply carries. Anything but a value is absence.
pub fn cached_value(reply: StoreReply) -> (value: Option<String>)
    ensures
        value == (match reply {
            StoreReply::Value(text) => Some(text),
            _ => None::<String>,
        }),
{
    match reply {
        StoreReply::Value(text) => Some(text),
        _ => None,
    }
}

impl RedisCache {
    /// The cache in the store at the address `url`.
    pub fn at(url: &str) -> (cache: Self)
        ensures
            cache.url@ == url@,
    {
        RedisCache { url: url.to_owned() }
    }

    /// The cache in the store on `host` and `port`.
    pub fn connect(host: &str, port: u16) -> (cache: Self)
        ensures
            cache.url@ == store_url(host@, port),
    {
        let digits = decimal_string(port as u64);
        let mut url: String = join3("redis://", host, ":");
        url.append(digits.as_str());
        RedisCache { url }
    }

    /// The command that asks for the description of the source at `url`.
    pub fn get_metadata(&self, url: &str) -> (command: StoreCommand)
        ensures
            command matches StoreCommand::Get { key } && key@ == metadata_key_of(url@),
    {
        StoreCommand::Get { key: metadata_key(url) }
    }

    /// The command that keeps `data` as the description of the source at
    /// `url` for `ttl_secs` seconds.
    pub fn set_metadata(&self, url: &str, data: &str, ttl_secs: u64) -> (command: StoreCommand)
        ensures
            command matches StoreCommand::SetEx { key, value, ttl_secs: ttl } && key@
                == metadata_key_of(url@) && value@ == data@ && ttl == ttl_secs,
    {
        StoreCommand::SetEx { key: metadata_key(url), value: data.to_owned(), ttl_secs }
    }

    /// The command that drops the description of the source at `url`.
    pub fn invalidate(&self, url: &str) -> (command: StoreCommand)
        ensures
            command matches StoreCommand::Del { key } && key@ == metadata_key_of(url@),
    {
        StoreCommand::Del { key: metadata_key(url) }
    }

    /// The command that asks whether the store is there.
    pub fn ping(&self) -> (command: StoreCommand)
        ensures
            command == StoreCommand::Ping,
    {
        StoreCommand::Ping
    }

    /// The command that keeps the text of a session for the session's lifetime.
    pub fn store_session(&self, session_id: &str, data: &str) -> (command: StoreCommand)
        ensures
            command matches StoreCommand::SetEx { key, value, ttl_secs } && key@ == session_key_of(
                session_id@,
            ) && value@ == data@ && ttl_secs == SESSION_TTL_SECS,
    {
        StoreCommand::SetEx {
            key: session_key(session_id),
            value: data.to_owned(),
            ttl_secs: SESSION_TTL_SECS,
        }
    }

    /// The command that asks for the text of a session.
    pub fn get_session(&self, session_id: &str) -> (command: StoreCommand)
        ensures
            command matches StoreCommand::Get { key } && key@ == session_key_of(session_id@),
    {
        StoreCommand::Get { key: session_key(session_id) }
    }

    /// True when the reply to a ping shows that the store is there.
    pub fn is_alive(reply: &StoreReply) -> (alive: bool)
        ensures
            alive == (*reply matches StoreReply::Value(_)),
    {
        match reply {
            StoreReply::Value(_) => true,
            _ => false,
        }
    }
}

/// Sessions do not collide: two identifiers that differ are kept under keys
/// that differ, and a session is asked for under the key it was kept under.
pub proof fn law_session_keys(a: Seq<char>, b: Seq<char>)
    ensures
        session_key_of(a) == session_key_of(b) <==> a == b,
{
    if session_key_of(a) == session_key_of(b) {
        let prefix = "download:"@;
        assert(a =~= session_key_of(a).skip(prefix.len() as int));
        assert(b =~= session_key_of(b).skip(prefix.len() as int));
    }
}

/// A text in the store and the second at which the store lets it go.
pub struct Kept {
    pub value: Seq<char>,
    pub expires: int,
}

/// What the store holds once it has carried out `command` at the second
/// `now`, as the gateway understands the store: writing replaces what is at
/// the key and sets the time to live anew.
pub open spec fn store_after(
    held: Map<Seq<char>, Kept>,
    command: StoreCommand,
    now: u64,
) -> Map<Seq<char>, Kept> {
    match command {
        StoreCommand::SetEx { key, value, ttl_secs } => held.insert(
            key@,
            Kept { value: value@, expires: now + ttl_secs },
        ),
        StoreCommand::Del { key } => held.remove(key@),
        _ => held,
    }
}

/// What a reachable store that holds `held` has to say to `command` at the
/// second `now`: the text at the key while its time to live lasts.
pub open spec fn store_answer(held: Map<Seq<char>, Kept>, command: StoreCommand, now: u64) -> Option<
    Seq<char>,
> {
    match command {
        StoreCommand::Get { key } => if held.dom().contains(key@) && now < held[key@].expires {
            Some(held[key@].value)
        } else {
            None
        },
        _ => None,
    }
}

/// True when `command` keeps `data` as the session `id`, as `store_session` does.
pub open spec fn keeps_session(command: StoreCommand, id: Seq<char>, data: Seq<char>) -> bool {
    command matches StoreCommand::SetEx { key, value, ttl_secs } && key@ == session_key_of(id)
        && value@ == data && ttl_secs == SESSION_TTL_SECS
}

/// True when `command` asks for the session `id`, as `get_session` does.
pub open spec fn asks_session(command: StoreCommand, id: Seq<char>) -> bool {
    command matches StoreCommand::Get { key } && key@ == session_key_of(id)
}

/// Life of a session. A session that was kept at the second `written` is
/// there for whoever asks within its time to live, and is gone, as if it had
/// never been, from then on. Keeping another session in between changes
/// nothing of that.
pub proof fn law_session_expiry(
    held: Map<Seq<char>, Kept>,
    id: Seq<char>,
    data: Seq<char>,
    put: StoreCommand,
    get: StoreCommand,
    written: u64,
    read: u64,
    other_id: Seq<char>,
    other_data: Seq<char>,
    other_put: StoreCommand,
    other_written: u64,
)
    requires
        keeps_session(put, id, data),
        asks_session(get, id),
        keeps_session(other_put, other_id, other_data),
        other_id != id,
        written <= read,
    ensures
        store_answer(store_after(held, put, written), get, read) == (if read < written
            + SESSION_TTL_SECS {
            Some(data)
        } else {
            None
        }),
        store_answer(store_after(held, put, written), get, written) == Some(data),
        store_answer(
            store_after(store_after(held, put, written), other_put, other_written),
            get,
            read,
        ) == store_answer(store_after(held, put, written), get, read),
{
    law_session_keys(id, other_id);
}

} // verus!
