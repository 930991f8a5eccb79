//! The token codec: a short text, optionally stamped with the second at which
//! it stops being valid, is combined byte by byte with a repeating key and
//! written in URL-safe base64.
//!
//! The scheme is deterministic and keeps no secret from anyone who sees
//! several tokens made with one key: it guards against casual tampering and
//! enforces expiry, nothing more. Other services share the format, so it is
//! kept bit for bit.

use crate::base64url::{
    base64_url, base64_url_decoded, encoded_len, lemma_decoded_iff, lemma_encoded_len,
    lemma_encoding_is_ascii,
};
use crate::clock::unix_time;
use crate::text::{
    ascii_chars, decimal, find_byte, lemma_ascii_is_utf8, first_index_of, lemma_decimal_digits, parse_decimal, parse_u64,
    push_bytes, push_decimal, string_from_utf8,
};
use vstd::prelude::*;
use vstd::slice::slice_subrange;
use vstd::utf8::*;

verus! {

/// The byte `|`, which parts the expiry stamp from the payload.
pub const PIPE: u8 = 124;

/// Why a token was not accepted.
#[derive(Debug, Clone, Copy, PartialEq, Eq, Structural)]
pub enum TokenError {
    /// The token is not URL-safe base64 in canonical form.
    BadEncoding,
    /// The bytes behind the token are not UTF-8 text.
    BadText,
    /// The stamp in the token lies in the past.
    Expired,
}

impl TokenError {
    /// A sentence for logs.
    pub fn message(&self) -> (text: String)
        ensures
            text@ == (match *self {
                TokenError::BadEncoding => "Base64 decode failed"@,
                TokenError::BadText => "UTF-8 decode failed"@,
                TokenError::Expired => "Encrypted data has expired"@,
            }),
    {
        match self {
            TokenError::BadEncoding => "Base64 decode failed".to_owned(),
            TokenError::BadText => "UTF-8 decode failed".to_owned(),
            TokenError::Expired => "Encrypted data has expired".to_owned(),
        }
    }
}

/// Each byte of `data` combined by exclusive-or with the key byte at the same
/// place, the key repeated as often as needed.
pub open spec fn xor_cycle(data: Seq<u8>, key: Seq<u8>) -> Seq<u8>
    recommends
        key.len() > 0,
{
    Seq::new(data.len(), |i: int| data[i] ^ key[i % (key.len() as int)])
}

/// The second at which a token made at `now` for `minutes` minutes expires.
/// It stays at the largest second that can be written where the sum is beyond it.
pub open spec fn expiry_stamp(now: u64, minutes: u64) -> u64 {
    if now + minutes * 60 > u64::MAX {
        u64::MAX
    } else {
        (now + minutes * 60) as u64
    }
}

/// The text that is encrypted: the payload, behind its stamp where one is asked for.
pub open spec fn stamped(text: Seq<u8>, expiry_minutes: Option<u64>, now: u64) -> Seq<u8> {
    match expiry_minutes {
        Some(minutes) => decimal(expiry_stamp(now, minutes) as nat) + seq![PIPE] + text,
        None => text,
    }
}

/// The bytes of the token for `text` under `key`.
pub open spec fn token_bytes(
    text: Seq<u8>,
    key: Seq<u8>,
    expiry_minutes: Option<u64>,
    now: u64,
) -> Seq<u8> {
    base64_url(xor_cycle(stamped(text, expiry_minutes, now), key))
}

/// The token for `text` under `key`, as text.
pub open spec fn token_text(
    text: Seq<char>,
    key: Seq<char>,
    expiry_minutes: Option<u64>,
    now: u64,
) -> Seq<char> {
    ascii_chars(token_bytes(encode_utf8(text), encode_utf8(key), expiry_minutes, now))
}

/// True when `text` begins with a number and a `|`, which decoding reads as a stamp.
pub open spec fn carries_stamp(text: Seq<u8>) -> bool {
    match first_index_of(text, PIPE) {
        Some(at) => parse_u64(text.take(at)) is Some,
        None => false,
    }
}

/// What a decrypted text stands for at the second `now`: the payload behind a
/// stamp that has not passed, or the whole text where it carries no stamp.
pub open spec fn unsealed(text: Seq<u8>, now: u64) -> Result<Seq<u8>, TokenError> {
    match first_index_of(text, PIPE) {
        Some(at) => match parse_u64(text.take(at)) {
            Some(deadline) => if now > deadline {
                Err(TokenError::Expired)
            } else {
                Ok(text.skip(at + 1))
            },
            None => Ok(text),
        },
        None => Ok(text),
    }
}

/// What `token` stands for under `key` at the second `now`.
pub open spec fn decoded(token: Seq<u8>, key: Seq<u8>, now: u64) -> Result<Seq<u8>, TokenError> {
    match base64_url_decoded(token) {
        None => Err(TokenError::BadEncoding),
        Some(cipher) => {
            let text = xor_cycle(cipher, key);
            if valid_utf8(text) {
                unsealed(text, now)
            } else {
                Err(TokenError::BadText)
            }
        },
    }
}

/// True when what `token` stands for under `key` does not depend on the time
/// of reading: it cannot be read at all, or the text behind it carries no stamp.
pub open spec fn is_timeless(token: Seq<u8>, key: Seq<u8>) -> bool {
    match base64_url_decoded(token) {
        None => true,
        Some(cipher) => !valid_utf8(xor_cycle(cipher, key)) || !carries_stamp(
            xor_cycle(cipher, key),
        ),
    }
}

/// True when `r` is the string form of `expected`.
pub open spec fn agrees(r: Result<String, TokenError>, expected: Result<Seq<u8>, TokenError>) -> bool {
    match (r, expected) {
        (Ok(s), Ok(bytes)) => encode_utf8(s@) == bytes,
        (Err(e), Err(f)) => e == f,
        _ => false,
    }
}

/// The longest payload, in bytes, whose token still has a length that fits in `usize`.
pub open spec fn max_payload_len() -> int {
    3 * (usize::MAX / 4) - 21
}

/// A string with a character in it has a byte in it.
pub proof fn lemma_key_bytes(key: Seq<char>)
    requires
        key.len() > 0,
    ensures
        encode_utf8(key).len() > 0,
{
    assert(encode_scalar(key[0] as u32).len() > 0);
}

/// Combining twice with the same key gives the bytes back.
pub proof fn lemma_xor_twice(data: Seq<u8>, key: Seq<u8>)
    requires
        key.len() > 0,
    ensures
        xor_cycle(xor_cycle(data, key), key) == data,
{
    let once = xor_cycle(data, key);
    let twice = xor_cycle(once, key);
    assert forall|i: int| 0 <= i < data.len() implies twice[i] == data[i] by {
        let d = data[i];
        let k = key[i % (key.len() as int)];
        assert((d ^ k) ^ k == d) by (bit_vector);
    }
    assert(twice =~= data);
}

/// In valid UTF-8, the place behind an ASCII byte that starts a character
/// starts the next one.
proof fn lemma_boundary_after_ascii(bytes: Seq<u8>, at: int)
    requires
        valid_utf8(bytes),
        0 <= at < bytes.len(),
        is_char_boundary(bytes, at),
        bytes[at] < 128,
    ensures
        is_char_boundary(bytes, at + 1),
    decreases bytes.len(),
{
    reveal_with_fuel(is_char_boundary, 2);
    if at == 0 {
        assert(length_of_first_scalar(bytes) == 1);
    } else {
        let rest = pop_first_scalar(bytes);
        let width = length_of_first_scalar(bytes);
        assert(at >= width);
        assert(rest[at - width] == bytes[at]);
        lemma_boundary_after_ascii(rest, at - width);
    }
}

/// A `|` in valid UTF-8 is a character of its own.
proof fn lemma_pipe_is_boundary(bytes: Seq<u8>, at: int)
    requires
        valid_utf8(bytes),
        0 <= at < bytes.len(),
        bytes[at] == PIPE,
    ensures
        is_char_boundary(bytes, at + 1),
{
    is_char_boundary_iff_not_is_continuation_byte(bytes, at);
    lemma_boundary_after_ascii(bytes, at);
}

/// Combines `data` with the repeating `key`.
pub fn xor_with_key(data: &[u8], key: &[u8]) -> (out: Vec<u8>)
    requires
        key@.len() > 0,
    ensures
        out@ == xor_cycle(data@, key@),
{
    let mut out: Vec<u8> = Vec::new();
    let mut i: usize = 0;
    while i < data.len()
        invariant
            key@.len() > 0,
            0 <= i <= data@.len(),
            out@.len() == i,
            forall|j: int| 0 <= j < i ==> out@[j] == data@[j] ^ key@[j % (key@.len() as int)],
        decreases data@.len() - i,
    {
        out.push(data[i] ^ key[i % key.len()]);
        i = i + 1;
    }
    assert(out@ =~= xor_cycle(data@, key@));
    out
}

/// The second at which a token made at `now` for `minutes` minutes expires.
pub fn expiry_time(now: u64, minutes: u64) -> (stamp: u64)
    ensures
        stamp == expiry_stamp(now, minutes),
{
    match minutes.checked_mul(60) {
        Some(seconds) => match now.checked_add(seconds) {
            Some(stamp) => stamp,
            None => u64::MAX,
        },
        None => u64::MAX,
    }
}

/// Makes the token for `text` as of the second `now`.
///
/// With `expiry_minutes`, the text is stamped with the second at which the
/// token expires; without, the token is valid for ever.
pub fn encrypt_at(text: &str, key: &str, expiry_minutes: Option<u64>, now: u64) -> (token: String)
    requires
        key@.len() > 0,
        encode_utf8(text@).len() <= max_payload_len(),
    ensures
        encode_utf8(token@) == token_bytes(
            encode_utf8(text@),
            encode_utf8(key@),
            expiry_minutes,
            now,
        ),
        token@ == token_text(text@, key@, expiry_minutes, now),
{
    let text_bytes = text.as_bytes();
    let key_bytes = key.as_bytes();
    proof {
        lemma_key_bytes(key@);
    }
    let mut plain: Vec<u8> = Vec::new();
    match expiry_minutes {
        Some(minutes) => {
            let stamp: u64 = expiry_time(now, minutes);
            proof {
                lemma_decimal_digits(stamp as nat);
            }
            push_decimal(&mut plain, stamp);
            plain.push(PIPE);
        },
        None => {},
    }
    push_bytes(&mut plain, text_bytes);
    assert(plain@ =~= stamped(encode_utf8(text@), expiry_minutes, now));
    let cipher = xor_with_key(plain.as_slice(), key_bytes);
    assert(encoded_len(cipher@.len()) <= usize::MAX) by {
        assert(cipher@.len() <= 3 * (usize::MAX / 4));
    }
    let token = crate::base64url::encode(cipher.as_slice());
    proof {
        lemma_encoding_is_ascii(cipher@);
        lemma_ascii_is_utf8(base64_url(cipher@));
        encode_utf8_decode_utf8(token@);
    }
    token
}

/// True when a token can be made for `text`: its length allows it.
pub fn fits_token(text: &str) -> (fits: bool)
    ensures
        fits == (encode_utf8(text@).len() <= max_payload_len()),
{
    let longest: usize = 3 * (usize::MAX / 4) - 21;
    text.as_bytes().len() <= longest
}

/// Makes the token for `text` as of now, by the system clock.
pub fn encrypt(text: &str, key: &str, expiry_minutes: Option<u64>) -> (token: String)
    requires
        key@.len() > 0,
        encode_utf8(text@).len() <= max_payload_len(),
    ensures
        exists|now: u64|
            encode_utf8(token@) == #[trigger] token_bytes(
                encode_utf8(text@),
                encode_utf8(key@),
                expiry_minutes,
                now,
            ),
        expiry_minutes is None ==> encode_utf8(token@) == token_bytes(
            encode_utf8(text@),
            encode_utf8(key@),
            None,
            0,
        ),
{
    let now: u64 = unix_time();
    encrypt_at(text, key, expiry_minutes, now)
}

/// Reads a token as of the second `now`.
///
/// Fails with `BadEncoding` where the token is no canonical base64, with
/// `BadText` where the decrypted bytes are no UTF-8, and with `Expired` where
/// the text begins with a stamp that `now` has passed. A text whose part
/// before the first `|` is no number carries no stamp and is returned whole.
pub fn decrypt_at(token: &str, key: &str, now: u64) -> (r: Result<String, TokenError>)
    requires
        key@.len() > 0,
    ensures
        agrees(r, decoded(encode_utf8(token@), encode_utf8(key@), now)),
{
    let key_bytes = key.as_bytes();
    proof {
        lemma_key_bytes(key@);
    }
    let cipher = match crate::base64url::decode(token.as_bytes()) {
        Ok(cipher) => cipher,
        Err(_) => {
            return Err(TokenError::BadEncoding);
        },
    };
    proof {
        lemma_decoded_iff(encode_utf8(token@), cipher@);
    }
    let plain = xor_with_key(cipher.as_slice(), key_bytes);
    let ghost plain_bytes = plain@;
    let text = match string_from_utf8(plain) {
        Some(text) => text,
        None => {
            return Err(TokenError::BadText);
        },
    };
    proof {
        decode_utf8_encode_utf8(plain_bytes);
    }
    let bytes = text.as_str().as_bytes();
    assert(bytes@ == plain_bytes);
    match find_byte(bytes, PIPE) {
        Some(at) => {
            let head = slice_subrange(bytes, 0, at);
            assert(head@ =~= plain_bytes.take(at as int));
            match parse_decimal(head) {
                Some(deadline) => {
                    if now > deadline {
                        return Err(TokenError::Expired);
                    }
                    proof {
                        lemma_pipe_is_boundary(plain_bytes, at as int);
                    }
                    let (_, payload) = text.as_str().split_at(at + 1);
                    assert(encode_utf8(payload@) =~= plain_bytes.skip(at + 1));
                    Ok(payload.to_owned())
                },
                None => Ok(text),
            }
        },
        None => Ok(text),
    }
}

/// Reads a token as of now, by the system clock.
pub fn decrypt(token: &str, key: &str) -> (r: Result<String, TokenError>)
    requires
        key@.len() > 0,
    ensures
        exists|now: u64|
            agrees(r, #[trigger] decoded(encode_utf8(token@), encode_utf8(key@), now)),
        is_timeless(encode_utf8(token@), encode_utf8(key@)) ==> agrees(
            r,
            decoded(encode_utf8(token@), encode_utf8(key@), 0),
        ),
{
    let now: u64 = unix_time();
    decrypt_at(token, key, now)
}

} // verus!
