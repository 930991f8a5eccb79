//! The URL-safe base64 text form of a byte string, with `=` padding.
//!
//! The encoding itself is done by the `base64` crate; this module states what
//! that crate's `URL_SAFE` engine produces and accepts, and proves the facts
//! about the encoding that the token codec relies on.

use base64::engine::general_purpose::URL_SAFE;
use base64::Engine;
use vstd::prelude::*;
use vstd::utf8::*;

verus! {

/// The padding symbol `=`.
pub const PAD: u8 = 61;

/// The symbol that stands for the six-bit value `v`.
pub open spec fn symbol(v: u8) -> u8
    recommends
        v < 64,
{
    if v < 26 {
        (v + 65) as u8
    } else if v < 52 {
        (v + 71) as u8
    } else if v < 62 {
        (v - 4) as u8
    } else if v == 62 {
        45u8
    } else {
        95u8
    }
}

/// The four symbols for a full group of three bytes.
pub open spec fn full_group(b0: u8, b1: u8, b2: u8) -> Seq<u8> {
    seq![
        symbol(b0 >> 2),
        symbol(((b0 & 0x03) << 4) | (b1 >> 4)),
        symbol(((b1 & 0x0f) << 2) | (b2 >> 6)),
        symbol(b2 & 0x3f),
    ]
}

/// The closing group for two leftover bytes: three symbols and one pad.
pub open spec fn pair_group(b0: u8, b1: u8) -> Seq<u8> {
    seq![
        symbol(b0 >> 2),
        symbol(((b0 & 0x03) << 4) | (b1 >> 4)),
        symbol((b1 & 0x0f) << 2),
        PAD,
    ]
}

/// The closing group for one leftover byte: two symbols and two pads.
pub open spec fn single_group(b0: u8) -> Seq<u8> {
    seq![symbol(b0 >> 2), symbol((b0 & 0x03) << 4), PAD, PAD]
}

/// The padded URL-safe base64 encoding of `data`.
pub open spec fn base64_url(data: Seq<u8>) -> Seq<u8>
    decreases data.len(),
{
    if data.len() == 0 {
        Seq::<u8>::empty()
    } else if data.len() == 1 {
        single_group(data[0])
    } else if data.len() == 2 {
        pair_group(data[0], data[1])
    } else {
        full_group(data[0], data[1], data[2]) + base64_url(data.skip(3))
    }
}

/// Length of the encoding of `n` bytes.
pub open spec fn encoded_len(n: nat) -> nat {
    4 * ((n + 2) / 3)
}

/// The bytes that `text` encodes, if it is the encoding of any.
pub open spec fn base64_url_decoded(text: Seq<u8>) -> Option<Seq<u8>> {
    if exists|data: Seq<u8>| #[trigger] base64_url(data) == text {
        Some(choose|data: Seq<u8>| #[trigger] base64_url(data) == text)
    } else {
        None
    }
}

/// Declares `DecodeError` of the `base64` crate, which is carried through unopened.
#[verifier::external_type_specification]
#[verifier::external_body]
pub struct ExDecodeError(base64::DecodeError);

/// Calls `Engine::encode` of the `base64` crate on its `URL_SAFE` engine.
///
/// Trusted: the text returned holds exactly the symbols of `base64_url`, the
/// alphabet `A-Z a-z 0-9 - _` applied to each six-bit group and `=` padding up
/// to a multiple of four. The crate panics when the encoded length does not
/// fit in `usize`, so that case is excluded.
#[verifier::external_body]
pub(crate) fn encode(data: &[u8]) -> (text: String)
    requires
        encoded_len(data@.len()) <= usize::MAX,
    ensures
        encode_utf8(text@) == base64_url(data@),
{
    URL_SAFE.encode(data)
}

/// Calls `Engine::decode` of the `base64` crate on its `URL_SAFE` engine.
///
/// Trusted: that engine requires canonical padding and rejects stray trailing
/// bits, so it accepts exactly the texts that `base64_url` produces and returns
/// the bytes that were encoded; any other text is an error.
#[verifier::external_body]
pub(crate) fn decode(text: &[u8]) -> (r: Result<Vec<u8>, base64::DecodeError>)
    ensures
        match r {
            Ok(data) => base64_url(data@) == text@,
            Err(_) => forall|data: Seq<u8>| #[trigger] base64_url(data) != text@,
        },
{
    URL_SAFE.decode(text)
}

/// Distinct six-bit values have distinct symbols, and no symbol is the pad.
pub proof fn lemma_symbol_injective(v: u8, w: u8)
    requires
        v < 64,
        w < 64,
    ensures
        symbol(v) != PAD,
        symbol(v) < 128,
        symbol(v) == symbol(w) ==> v == w,
{
}

proof fn lemma_six_bits(b0: u8, b1: u8, b2: u8)
    ensures
        b0 >> 2 < 64,
        (b0 & 0x03) << 4 | b1 >> 4 < 64,
        (b1 & 0x0f) << 2 | b2 >> 6 < 64,
        b2 & 0x3f < 64,
        (b1 & 0x0f) << 2 < 64,
        (b0 & 0x03) << 4 < 64,
{
    assert(b0 >> 2 < 64) by (bit_vector);
    assert((b0 & 0x03) << 4 | b1 >> 4 < 64) by (bit_vector);
    assert((b1 & 0x0f) << 2 | b2 >> 6 < 64) by (bit_vector);
    assert(b2 & 0x3f < 64) by (bit_vector);
    assert((b1 & 0x0f) << 2 < 64) by (bit_vector);
    assert((b0 & 0x03) << 4 < 64) by (bit_vector);
}

proof fn lemma_full_group_injective(a0: u8, a1: u8, a2: u8, b0: u8, b1: u8, b2: u8)
    requires
        full_group(a0, a1, a2) == full_group(b0, b1, b2),
    ensures
        a0 == b0,
        a1 == b1,
        a2 == b2,
{
    let x = full_group(a0, a1, a2);
    let y = full_group(b0, b1, b2);
    assert(x[0] == y[0] && x[1] == y[1] && x[2] == y[2] && x[3] == y[3]);
    lemma_six_bits(a0, a1, a2);
    lemma_six_bits(b0, b1, b2);
    lemma_symbol_injective(a0 >> 2, b0 >> 2);
    lemma_symbol_injective((a0 & 0x03) << 4 | a1 >> 4, (b0 & 0x03) << 4 | b1 >> 4);
    lemma_symbol_injective((a1 & 0x0f) << 2 | a2 >> 6, (b1 & 0x0f) << 2 | b2 >> 6);
    lemma_symbol_injective(a2 & 0x3f, b2 & 0x3f);
    assert(a0 == b0 && a1 == b1 && a2 == b2) by (bit_vector)
        requires
            a0 >> 2 == b0 >> 2,
            (a0 & 0x03) << 4 | a1 >> 4 == (b0 & 0x03) << 4 | b1 >> 4,
            (a1 & 0x0f) << 2 | a2 >> 6 == (b1 & 0x0f) << 2 | b2 >> 6,
            a2 & 0x3f == b2 & 0x3f,
    ;
}

proof fn lemma_pair_group_injective(a0: u8, a1: u8, b0: u8, b1: u8)
    requires
        pair_group(a0, a1) == pair_group(b0, b1),
    ensures
        a0 == b0,
        a1 == b1,
{
    let x = pair_group(a0, a1);
    let y = pair_group(b0, b1);
    assert(x[0] == y[0] && x[1] == y[1] && x[2] == y[2]);
    lemma_six_bits(a0, a1, 0);
    lemma_six_bits(b0, b1, 0);
    lemma_symbol_injective(a0 >> 2, b0 >> 2);
    lemma_symbol_injective((a0 & 0x03) << 4 | a1 >> 4, (b0 & 0x03) << 4 | b1 >> 4);
    lemma_symbol_injective((a1 & 0x0f) << 2, (b1 & 0x0f) << 2);
    assert(a0 == b0 && a1 == b1) by (bit_vector)
        requires
            a0 >> 2 == b0 >> 2,
            (a0 & 0x03) << 4 | a1 >> 4 == (b0 & 0x03) << 4 | b1 >> 4,
            (a1 & 0x0f) << 2 == (b1 & 0x0f) << 2,
    ;
}

proof fn lemma_single_group_injective(a0: u8, b0: u8)
    requires
        single_group(a0) == single_group(b0),
    ensures
        a0 == b0,
{
    let x = single_group(a0);
    let y = single_group(b0);
    assert(x[0] == y[0] && x[1] == y[1]);
    lemma_six_bits(a0, 0, 0);
    lemma_six_bits(b0, 0, 0);
    lemma_symbol_injective(a0 >> 2, b0 >> 2);
    lemma_symbol_injective((a0 & 0x03) << 4, (b0 & 0x03) << 4);
    assert(a0 == b0) by (bit_vector)
        requires
            a0 >> 2 == b0 >> 2,
            (a0 & 0x03) << 4 == (b0 & 0x03) << 4,
    ;
}

/// The encoding of `n` bytes has `encoded_len(n)` symbols.
pub proof fn lemma_encoded_len(data: Seq<u8>)
    ensures
        base64_url(data).len() == encoded_len(data.len()),
    decreases data.len(),
{
    if data.len() >= 3 {
        lemma_encoded_len(data.skip(3));
    }
}

/// Every byte of an encoding is a symbol of the alphabet or the pad, hence ASCII.
pub proof fn lemma_encoding_is_ascii(data: Seq<u8>)
    ensures
        forall|i: int| 0 <= i < base64_url(data).len() ==> #[trigger] base64_url(data)[i] < 128,
    decreases data.len(),
{
    let text = base64_url(data);
    if data.len() == 0 {
    } else if data.len() == 1 {
        lemma_six_bits(data[0], 0, 0);
        lemma_symbol_injective(data[0] >> 2, 0);
        lemma_symbol_injective((data[0] & 0x03) << 4, 0);
        assert(text[0] < 128 && text[1] < 128 && text[2] < 128 && text[3] < 128);
    } else if data.len() == 2 {
        lemma_six_bits(data[0], data[1], 0);
        lemma_symbol_injective(data[0] >> 2, 0);
        lemma_symbol_injective((data[0] & 0x03) << 4 | data[1] >> 4, 0);
        lemma_symbol_injective((data[1] & 0x0f) << 2, 0);
        assert(text[0] < 128 && text[1] < 128 && text[2] < 128 && text[3] < 128);
    } else {
        lemma_six_bits(data[0], data[1], data[2]);
        lemma_symbol_injective(data[0] >> 2, 0);
        lemma_symbol_injective((data[0] & 0x03) << 4 | data[1] >> 4, 0);
        lemma_symbol_injective((data[1] & 0x0f) << 2 | data[2] >> 6, 0);
        lemma_symbol_injective(data[2] & 0x3f, 0);
        lemma_encoding_is_ascii(data.skip(3));
        let rest = base64_url(data.skip(3));
        assert forall|i: int| 0 <= i < text.len() implies #[trigger] text[i] < 128 by {
            if i >= 4 {
                assert(text[i] == rest[i - 4]);
            }
        }
    }
}

/// Two byte strings with the same encoding are the same.
pub proof fn lemma_encoding_injective(a: Seq<u8>, b: Seq<u8>)
    requires
        base64_url(a) == base64_url(b),
    ensures
        a == b,
    decreases a.len(),
{
    lemma_encoded_len(a);
    lemma_encoded_len(b);
    let ea = base64_url(a);
    let eb = base64_url(b);
    if a.len() == 0 {
        assert(b.len() == 0);
        assert(a =~= b);
    } else {
        assert(b.len() > 0);
        lemma_six_bits(a[0], 0, 0);
        lemma_six_bits(b[0], 0, 0);
        if a.len() >= 2 {
            lemma_six_bits(a[0], a[1], 0);
        }
        if a.len() >= 3 {
            lemma_six_bits(a[0], a[1], a[2]);
        }
        if b.len() >= 2 {
            lemma_six_bits(b[0], b[1], 0);
        }
        if b.len() >= 3 {
            lemma_six_bits(b[0], b[1], b[2]);
        }
        // The pads in the last group tell how many bytes it holds.
        if a.len() >= 3 {
            lemma_symbol_injective((a[1] & 0x0f) << 2 | a[2] >> 6, 0);
            lemma_symbol_injective(a[2] & 0x3f, 0);
            assert(ea[2] != PAD && ea[3] != PAD);
        } else if a.len() == 2 {
            lemma_symbol_injective((a[1] & 0x0f) << 2, 0);
            assert(ea[2] != PAD && ea[3] == PAD);
        } else {
            assert(ea[2] == PAD && ea[3] == PAD);
        }
        if b.len() >= 3 {
            lemma_symbol_injective((b[1] & 0x0f) << 2 | b[2] >> 6, 0);
            lemma_symbol_injective(b[2] & 0x3f, 0);
            assert(eb[2] != PAD && eb[3] != PAD);
        } else if b.len() == 2 {
            lemma_symbol_injective((b[1] & 0x0f) << 2, 0);
            assert(eb[2] != PAD && eb[3] == PAD);
        } else {
            assert(eb[2] == PAD && eb[3] == PAD);
        }
        if a.len() == 1 {
            assert(b.len() == 1);
            lemma_single_group_injective(a[0], b[0]);
            assert(a =~= b);
        } else if a.len() == 2 {
            assert(b.len() == 2);
            lemma_pair_group_injective(a[0], a[1], b[0], b[1]);
            assert(a =~= b);
        } else {
            assert(b.len() >= 3);
            let ga = full_group(a[0], a[1], a[2]);
            let gb = full_group(b[0], b[1], b[2]);
            assert(ga =~= ea.subrange(0, 4));
            assert(gb =~= eb.subrange(0, 4));
            assert(base64_url(a.skip(3)) =~= ea.skip(4));
            assert(base64_url(b.skip(3)) =~= eb.skip(4));
            lemma_full_group_injective(a[0], a[1], a[2], b[0], b[1], b[2]);
            lemma_encoding_injective(a.skip(3), b.skip(3));
            assert(a =~= b) by {
                assert forall|i: int| 0 <= i < a.len() implies a[i] == b[i] by {
                    if i >= 3 {
                        assert(a[i] == a.skip(3)[i - 3]);
                        assert(b[i] == b.skip(3)[i - 3]);
                    }
                }
                assert(a.len() == a.skip(3).len() + 3);
                assert(b.len() == b.skip(3).len() + 3);
            }
        }
    }
}

/// The last two bytes of an encoding are pads where one byte is left over,
/// and symbols where the bytes come in full groups of three.
pub proof fn lemma_encoding_tail(data: Seq<u8>)
    requires
        data.len() > 0,
    ensures
        base64_url(data).len() >= 4,
        data.len() % 3 == 1 ==> base64_url(data)[base64_url(data).len() - 2] == PAD
            && base64_url(data).last() == PAD,
        data.len() % 3 == 0 ==> base64_url(data)[base64_url(data).len() - 2] != PAD
            && base64_url(data).last() != PAD,
    decreases data.len(),
{
    let text = base64_url(data);
    lemma_encoded_len(data);
    if data.len() == 1 {
    } else if data.len() == 2 {
    } else {
        let rest = base64_url(data.skip(3));
        lemma_encoded_len(data.skip(3));
        if data.len() == 3 {
            lemma_six_bits(data[0], data[1], data[2]);
            lemma_symbol_injective((data[1] & 0x0f) << 2 | data[2] >> 6, 0);
            lemma_symbol_injective(data[2] & 0x3f, 0);
            assert(rest.len() == 0);
            assert(text[2] != PAD && text[3] != PAD);
        } else {
            lemma_encoding_tail(data.skip(3));
            assert(text[text.len() - 1] == rest[rest.len() - 1]);
            assert(text[text.len() - 2] == rest[rest.len() - 2]);
        }
    }
}

/// Encodings that are known: `f`, `fo` and `foo` as the standard gives them,
/// and two bytes whose encoding needs both symbols in which the URL-safe
/// alphabet differs from the plain one.
pub proof fn law_known_encodings()
    ensures
        base64_url(seq![102u8]) == seq![90u8, 103u8, 61u8, 61u8],
        base64_url(seq![102u8, 111u8]) == seq![90u8, 109u8, 56u8, 61u8],
        base64_url(seq![102u8, 111u8, 111u8]) == seq![90u8, 109u8, 57u8, 118u8],
        base64_url(seq![0xfbu8, 0xffu8]) == seq![45u8, 95u8, 56u8, 61u8],
{
    assert(102u8 >> 2 == 25 && (102u8 & 0x03) << 4 == 32) by (bit_vector);
    assert(((102u8 & 0x03) << 4) | (111u8 >> 4) == 38 && (111u8 & 0x0f) << 2 == 60) by (bit_vector);
    assert(((111u8 & 0x0f) << 2) | (111u8 >> 6) == 61 && 111u8 & 0x3f == 47) by (bit_vector);
    assert(0xfbu8 >> 2 == 62 && ((0xfbu8 & 0x03) << 4) | (0xffu8 >> 4) == 63 && (0xffu8 & 0x0f)
        << 2 == 60) by (bit_vector);
    assert(base64_url(seq![102u8]) =~= seq![90u8, 103u8, 61u8, 61u8]);
    assert(base64_url(seq![102u8, 111u8]) =~= seq![90u8, 109u8, 56u8, 61u8]);
    let foo = seq![102u8, 111u8, 111u8];
    assert(foo.skip(3) =~= Seq::<u8>::empty());
    assert(base64_url(foo.skip(3)) =~= Seq::<u8>::empty());
    assert(full_group(102u8, 111u8, 111u8) =~= seq![90u8, 109u8, 57u8, 118u8]);
    assert(base64_url(foo) =~= seq![90u8, 109u8, 57u8, 118u8]);
    assert(base64_url(seq![0xfbu8, 0xffu8]) =~= seq![45u8, 95u8, 56u8, 61u8]);
}

/// Decoding undoes encoding.
pub proof fn lemma_decode_encode(data: Seq<u8>)
    ensures
        base64_url_decoded(base64_url(data)) == Some(data),
{
    let text = base64_url(data);
    let found = choose|d: Seq<u8>| #[trigger] base64_url(d) == text;
    lemma_encoding_injective(found, data);
}

/// A text decodes to `data` exactly when it is the encoding of `data`.
pub proof fn lemma_decoded_iff(text: Seq<u8>, data: Seq<u8>)
    ensures
        base64_url_decoded(text) == Some(data) <==> base64_url(data) == text,
{
    if base64_url(data) == text {
        lemma_decode_encode(data);
    }
}

} // verus!
