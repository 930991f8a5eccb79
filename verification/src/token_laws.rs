//! What holds of every token: the laws that relate making a token to reading it.

use crate::base64url::{
    base64_url, base64_url_decoded, encoded_len, lemma_decode_encode, lemma_encoded_len,
    lemma_encoding_tail, PAD,
};
use crate::encryption::{
    carries_stamp, decoded, expiry_stamp, lemma_key_bytes, lemma_xor_twice, stamped, token_bytes,
    unsealed, xor_cycle, TokenError, PIPE,
};
use crate::text::{
    decimal, first_index_of, is_digit, lemma_ascii_is_utf8, lemma_decimal_digits,
    lemma_first_index_of, lemma_parse_decimal, parse_u64, without_sign,
};
use vstd::prelude::*;
use vstd::utf8::*;

verus! {

/// A stamped text is valid UTF-8, its first `|` closes the stamp, and the
/// stamp reads back as the second it was made from.
proof fn lemma_stamped_shape(text: Seq<char>, minutes: u64, made: u64)
    ensures
        valid_utf8(stamped(encode_utf8(text), Some(minutes), made)),
        unsealed(stamped(encode_utf8(text), Some(minutes), made), made) == unsealed(
            stamped(encode_utf8(text), Some(minutes), made),
            0,
        ),
        forall|read: u64|
            #[trigger] unsealed(stamped(encode_utf8(text), Some(minutes), made), read) == (if read
                > expiry_stamp(made, minutes) {
                Err::<Seq<u8>, TokenError>(TokenError::Expired)
            } else {
                Ok::<Seq<u8>, TokenError>(encode_utf8(text))
            }),
{
    let payload = encode_utf8(text);
    let stamp = expiry_stamp(made, minutes);
    let digits = decimal(stamp as nat);
    let whole = stamped(payload, Some(minutes), made);
    lemma_decimal_digits(stamp as nat);
    lemma_parse_decimal(stamp);
    let head = digits + seq![PIPE];
    assert(whole == head + payload);
    assert(valid_utf8(head)) by {
        assert forall|i: int| 0 <= i < head.len() implies #[trigger] head[i] < 128 by {
            if i < digits.len() {
                assert(is_digit(digits[i]));
            }
        }
        lemma_ascii_is_utf8(head);
    }
    encode_utf8_valid_utf8(text);
    valid_utf8_concat(head, payload);
    let at = digits.len() as int;
    assert(whole[at] == PIPE);
    assert forall|j: int| 0 <= j < at implies whole[j] != PIPE by {
        assert(whole[j] == digits[j]);
        assert(is_digit(digits[j]));
    }
    lemma_first_index_of(whole, PIPE, at);
    assert(whole.take(at) =~= digits);
    assert(whole.skip(at + 1) =~= payload);
}

/// Round trip. A token made without expiry reads back, under the same key and
/// at any time, as the text it was made from. The one exception is a text that
/// itself begins with a number and a `|`: reading takes that for a stamp.
pub proof fn law_round_trip(text: Seq<char>, key: Seq<char>, made: u64, read: u64)
    requires
        key.len() > 0,
        !carries_stamp(encode_utf8(text)),
    ensures
        decoded(
            token_bytes(encode_utf8(text), encode_utf8(key), None, made),
            encode_utf8(key),
            read,
        ) == Ok::<Seq<u8>, TokenError>(encode_utf8(text)),
{
    let payload = encode_utf8(text);
    let k = encode_utf8(key);
    lemma_key_bytes(key);
    let cipher = xor_cycle(payload, k);
    lemma_decode_encode(cipher);
    lemma_xor_twice(payload, k);
    encode_utf8_valid_utf8(text);
}

/// Expiry. A token made at the second `made` for `minutes` minutes reads back
/// as its text up to and including the second of its stamp, and is expired
/// from the next second on. In particular a token made for zero minutes is
/// expired one second later, and any token reads back at the second it was made.
pub proof fn law_expiry(text: Seq<char>, key: Seq<char>, minutes: u64, made: u64, read: u64)
    requires
        key.len() > 0,
    ensures
        decoded(
            token_bytes(encode_utf8(text), encode_utf8(key), Some(minutes), made),
            encode_utf8(key),
            read,
        ) == (if read > expiry_stamp(made, minutes) {
            Err::<Seq<u8>, TokenError>(TokenError::Expired)
        } else {
            Ok::<Seq<u8>, TokenError>(encode_utf8(text))
        }),
        made <= expiry_stamp(made, minutes),
{
    let payload = encode_utf8(text);
    let k = encode_utf8(key);
    lemma_key_bytes(key);
    let whole = stamped(payload, Some(minutes), made);
    let cipher = xor_cycle(whole, k);
    lemma_decode_encode(cipher);
    lemma_xor_twice(whole, k);
    lemma_stamped_shape(text, minutes, made);
}

/// A token made for zero minutes is expired from the second after it was made.
pub proof fn law_zero_minutes(text: Seq<char>, key: Seq<char>, made: u64, read: u64)
    requires
        key.len() > 0,
        read > made,
    ensures
        decoded(
            token_bytes(encode_utf8(text), encode_utf8(key), Some(0), made),
            encode_utf8(key),
            read,
        ) == Err::<Seq<u8>, TokenError>(TokenError::Expired),
{
    law_expiry(text, key, 0, made, read);
}

/// A token made for an hour reads back whole during that hour, whatever the
/// text holds: only the stamp and the first `|` are taken off, so a `|` in
/// the text stays.
pub proof fn law_within_the_hour(text: Seq<char>, key: Seq<char>, made: u64, read: u64)
    requires
        key.len() > 0,
        made <= read <= made + 3600,
    ensures
        decoded(
            token_bytes(encode_utf8(text), encode_utf8(key), Some(60), made),
            encode_utf8(key),
            read,
        ) == Ok::<Seq<u8>, TokenError>(encode_utf8(text)),
{
    law_expiry(text, key, 60, made, read);
}

/// The bytes behind a token follow the text byte by byte. Two texts of one
/// length that differ at one byte give tokens whose bytes, once the base64 is
/// taken off, have that length too, differ at that byte alone, and differ
/// there by the bits by which the texts differ.
pub proof fn law_cipher_follows_text(p: Seq<char>, q: Seq<char>, key: Seq<char>, at: int)
    requires
        key.len() > 0,
        encode_utf8(p).len() == encode_utf8(q).len(),
        0 <= at < encode_utf8(p).len(),
        forall|j: int| 0 <= j < encode_utf8(p).len() && j != at ==> encode_utf8(p)[j] == encode_utf8(q)[j],
    ensures
        base64_url_decoded(token_bytes(encode_utf8(p), encode_utf8(key), None, 0)) matches Some(a)
            && base64_url_decoded(
            token_bytes(encode_utf8(q), encode_utf8(key), None, 0),
        ) matches Some(b) && {
            &&& a.len() == b.len() == encode_utf8(p).len()
            &&& forall|j: int| 0 <= j < a.len() && j != at ==> a[j] == b[j]
            &&& a[at] ^ b[at] == encode_utf8(p)[at] ^ encode_utf8(q)[at]
        },
{
    let k = encode_utf8(key);
    lemma_key_bytes(key);
    let a = xor_cycle(encode_utf8(p), k);
    let b = xor_cycle(encode_utf8(q), k);
    lemma_decode_encode(a);
    lemma_decode_encode(b);
    let x = encode_utf8(p)[at];
    let y = encode_utf8(q)[at];
    let z = k[at % (k.len() as int)];
    assert((x ^ z) ^ (y ^ z) == x ^ y) by (bit_vector);
}

/// Tamper sensitivity. Change one byte of a token that was made without expiry
/// and it no longer reads as the text it was made from: reading fails, or gives
/// another text. (Of a token with a stamp less holds, since a changed digit of
/// the stamp leaves the payload as it was: see `law_tamper_stamped`.)
pub proof fn law_tamper(text: Seq<char>, key: Seq<char>, forged: Seq<u8>, at: int, read: u64)
    requires
        key.len() > 0,
        forged.len() == token_bytes(encode_utf8(text), encode_utf8(key), None, 0).len(),
        0 <= at < forged.len(),
        forged[at] != token_bytes(encode_utf8(text), encode_utf8(key), None, 0)[at],
        forall|j: int|
            0 <= j < forged.len() && j != at ==> forged[j] == token_bytes(
                encode_utf8(text),
                encode_utf8(key),
                None,
                0,
            )[j],
    ensures
        decoded(forged, encode_utf8(key), read) != Ok::<Seq<u8>, TokenError>(encode_utf8(text)),
{
    let payload = encode_utf8(text);
    let k = encode_utf8(key);
    lemma_key_bytes(key);
    let cipher = xor_cycle(payload, k);
    let genuine = base64_url(cipher);
    assert(genuine == token_bytes(payload, k, None, 0));
    if decoded(forged, k, read) == Ok::<Seq<u8>, TokenError>(payload) {
        let other = base64_url_decoded(forged).unwrap();
        assert(base64_url(other) == forged);
        let seen = xor_cycle(other, k);
        assert(unsealed(seen, read) == Ok::<Seq<u8>, TokenError>(payload));
        lemma_xor_twice(other, k);
        if seen == payload {
            // Then the forged token is the genuine one.
            assert(other == cipher);
            assert(forged[at] == genuine[at]);
        } else {
            // Then `seen` is the payload behind a stamp of at least one digit.
            assert(first_index_of(seen, PIPE) is Some);
            let cut = first_index_of(seen, PIPE).unwrap();
            assert(parse_u64(seen.take(cut)) is Some);
            assert(without_sign(seen.take(cut)).len() > 0);
            assert(cut >= 1);
            assert(seen.skip(cut + 1) == payload);
            assert(seen.len() >= payload.len() + 2);
            lemma_encoded_len(other);
            lemma_encoded_len(cipher);
            assert(other.len() == seen.len());
            assert(cipher.len() == payload.len());
            assert(encoded_len(other.len()) == encoded_len(cipher.len()));
            assert(cipher.len() % 3 == 1 && other.len() % 3 == 0);
            lemma_encoding_tail(other);
            lemma_encoding_tail(cipher);
            let n = forged.len() as int;
            assert(genuine[n - 1] == PAD && genuine[n - 2] == PAD);
            assert(forged[n - 1] != PAD && forged[n - 2] != PAD);
            assert(at == n - 1 || at == n - 2);
        }
    }
}

/// True when `seen` is the payload behind a stamp that has not passed at the
/// second `read` and that is written otherwise than `genuine`.
pub open spec fn restamped(seen: Seq<u8>, payload: Seq<u8>, genuine: Seq<u8>, read: u64) -> bool {
    exists|stamp: Seq<u8>|
        {
            &&& seen == #[trigger] (stamp + seq![PIPE]) + payload
            &&& stamp != genuine
            &&& (parse_u64(stamp) matches Some(deadline) && read <= deadline)
        }
}

/// Tamper sensitivity of a token with a stamp. Change one byte of a token that
/// was made with an expiry, and it reads as the text it was made from only
/// where the change went into the stamp: what the forged token decrypts to is
/// then again a number, a `|` and that text, with the number written otherwise
/// than the genuine stamp and not yet passed. Every other change makes
/// reading fail, or give another text.
pub proof fn law_tamper_stamped(
    text: Seq<char>,
    key: Seq<char>,
    minutes: u64,
    made: u64,
    forged: Seq<u8>,
    at: int,
    read: u64,
)
    requires
        key.len() > 0,
        forged.len() == token_bytes(encode_utf8(text), encode_utf8(key), Some(minutes), made).len(),
        0 <= at < forged.len(),
        forged[at] != token_bytes(encode_utf8(text), encode_utf8(key), Some(minutes), made)[at],
        forall|j: int|
            0 <= j < forged.len() && j != at ==> forged[j] == token_bytes(
                encode_utf8(text),
                encode_utf8(key),
                Some(minutes),
                made,
            )[j],
    ensures
        decoded(forged, encode_utf8(key), read) == Ok::<Seq<u8>, TokenError>(encode_utf8(text))
            ==> (base64_url_decoded(forged) matches Some(cipher) && restamped(
            xor_cycle(cipher, encode_utf8(key)),
            encode_utf8(text),
            decimal(expiry_stamp(made, minutes) as nat),
            read,
        )),
{
    let payload = encode_utf8(text);
    let k = encode_utf8(key);
    lemma_key_bytes(key);
    let digits = decimal(expiry_stamp(made, minutes) as nat);
    let whole = stamped(payload, Some(minutes), made);
    let cipher = xor_cycle(whole, k);
    let genuine = base64_url(cipher);
    assert(genuine == token_bytes(payload, k, Some(minutes), made));
    lemma_decimal_digits(expiry_stamp(made, minutes) as nat);
    assert(whole == digits + seq![PIPE] + payload);
    assert(whole.len() >= payload.len() + 2);
    if decoded(forged, k, read) == Ok::<Seq<u8>, TokenError>(payload) {
        let other = base64_url_decoded(forged).unwrap();
        assert(base64_url(other) == forged);
        let seen = xor_cycle(other, k);
        assert(unsealed(seen, read) == Ok::<Seq<u8>, TokenError>(payload));
        lemma_xor_twice(other, k);
        lemma_xor_twice(whole, k);
        lemma_encoded_len(other);
        lemma_encoded_len(cipher);
        assert(other.len() == seen.len());
        assert(cipher.len() == whole.len());
        if seen == payload {
            // Then the forged token ends in two pads and the genuine one in none.
            assert(encoded_len(other.len()) == encoded_len(cipher.len()));
            assert(other.len() % 3 == 1 && cipher.len() % 3 == 0);
            lemma_encoding_tail(other);
            lemma_encoding_tail(cipher);
            let n = forged.len() as int;
            assert(forged[n - 1] == PAD && forged[n - 2] == PAD);
            assert(genuine[n - 1] != PAD && genuine[n - 2] != PAD);
            assert(at == n - 1 && at == n - 2);
        } else {
            assert(first_index_of(seen, PIPE) is Some);
            let cut = first_index_of(seen, PIPE).unwrap();
            assert(parse_u64(seen.take(cut)) is Some);
            assert(seen.skip(cut + 1) == payload);
            let stamp = seen.take(cut);
            assert(seen =~= (stamp + seq![PIPE]) + payload);
            if stamp == digits {
                assert(seen =~= whole);
                assert(other == cipher);
                assert(forged[at] == genuine[at]);
            }
            assert(restamped(seen, payload, digits, read));
        }
    }
}

/// Wrong key. A token made without expiry does not read as the text it was made
/// from under a key that differs, at some place of the text, from the key it
/// was made with: reading fails, or gives another text.
pub proof fn law_wrong_key(
    text: Seq<char>,
    key: Seq<char>,
    other: Seq<char>,
    place: int,
    made: u64,
    read: u64,
)
    requires
        key.len() > 0,
        other.len() > 0,
        0 <= place < encode_utf8(text).len(),
        encode_utf8(key)[place % (encode_utf8(key).len() as int)] != encode_utf8(other)[place % (
        encode_utf8(other).len() as int)],
    ensures
        decoded(
            token_bytes(encode_utf8(text), encode_utf8(key), None, made),
            encode_utf8(other),
            read,
        ) != Ok::<Seq<u8>, TokenError>(encode_utf8(text)),
{
    let payload = encode_utf8(text);
    let k = encode_utf8(key);
    let o = encode_utf8(other);
    lemma_key_bytes(key);
    lemma_key_bytes(other);
    let cipher = xor_cycle(payload, k);
    lemma_decode_encode(cipher);
    let seen = xor_cycle(cipher, o);
    let a = k[place % (k.len() as int)];
    let b = o[place % (o.len() as int)];
    let p = payload[place];
    assert(seen[place] == (p ^ a) ^ b);
    assert((p ^ a) ^ b != p) by (bit_vector)
        requires
            a != b,
    ;
    assert(seen.len() == payload.len());
    if decoded(token_bytes(payload, k, None, made), o, read) == Ok::<Seq<u8>, TokenError>(payload) {
        assert(unsealed(seen, read) == Ok::<Seq<u8>, TokenError>(payload));
        if first_index_of(seen, PIPE) is Some {
            let cut = first_index_of(seen, PIPE).unwrap();
            if parse_u64(seen.take(cut)) is Some {
                assert(seen.skip(cut + 1).len() < seen.len());
            }
        }
    }
}

/// No two texts share a token: texts with the same token under one key are
/// the same text.
pub proof fn law_tokens_differ(a: Seq<char>, b: Seq<char>, key: Seq<char>)
    requires
        key.len() > 0,
        token_bytes(encode_utf8(a), encode_utf8(key), None, 0) == token_bytes(
            encode_utf8(b),
            encode_utf8(key),
            None,
            0,
        ),
    ensures
        a == b,
{
    let k = encode_utf8(key);
    lemma_key_bytes(key);
    crate::base64url::lemma_encoding_injective(
        xor_cycle(encode_utf8(a), k),
        xor_cycle(encode_utf8(b), k),
    );
    lemma_xor_twice(encode_utf8(a), k);
    lemma_xor_twice(encode_utf8(b), k);
    encode_utf8_decode_utf8(a);
    encode_utf8_decode_utf8(b);
}

} // verus!
