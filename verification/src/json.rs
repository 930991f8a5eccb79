//! JSON as the `serde_json` crate writes it.
//!
//! The gateway writes a few small JSON objects: what a token holds, and what
//! the VPN's control endpoint is told. They are built as values of the crate
//! and written by the crate, so the layout is the crate's own: the members of
//! an object in the order of their names, each name once, nothing between the
//! parts. What is stated here of the crate is taken on trust; what the
//! gateway builds from it is proved.

use crate::cache::hex_digit;
use crate::text::{ascii_chars, signed_decimal};
use vstd::prelude::*;
use vstd::utf8::*;

verus! {

/// The values of the `serde_json` crate.
#[verifier::external_type_specification]
#[verifier::external_body]
pub struct ExValue(serde_json::Value);

/// The objects of the `serde_json` crate.
#[verifier::external_type_specification]
#[verifier::external_body]
#[verifier::reject_recursive_types(K)]
#[verifier::reject_recursive_types(V)]
pub struct ExMap<K, V>(serde_json::Map<K, V>);

/// The JSON text that the crate writes for a value, with nothing between the parts.
pub uninterp spec fn written(value: serde_json::Value) -> Seq<char>;

/// The members of an object in the order in which the crate writes them:
/// each name with the JSON text of its value.
pub uninterp spec fn entries(map: serde_json::Map<String, serde_json::Value>) -> Seq<
    (Seq<char>, Seq<char>),
>;

/// A character as it stands inside a JSON string: the quote and the
/// backslash behind a backslash, the control characters by their letter where
/// they have one and by their number where they have none, and any other
/// character as it is.
pub open spec fn escaped(c: char) -> Seq<char> {
    if c == '"' {
        seq!['\\', '"']
    } else if c == '\\' {
        seq!['\\', '\\']
    } else if c == '\u{8}' {
        seq!['\\', 'b']
    } else if c == '\t' {
        seq!['\\', 't']
    } else if c == '\n' {
        seq!['\\', 'n']
    } else if c == '\u{c}' {
        seq!['\\', 'f']
    } else if c == '\r' {
        seq!['\\', 'r']
    } else if (c as u32) < 0x20 {
        seq!['\\', 'u', '0', '0', hex_digit((c as u8) >> 4), hex_digit((c as u8) & 0x0f)]
    } else {
        seq![c]
    }
}

/// The characters of a text as they stand inside a JSON string.
pub open spec fn escaped_text(text: Seq<char>) -> Seq<char>
    decreases text.len(),
{
    if text.len() == 0 {
        Seq::empty()
    } else {
        escaped_text(text.drop_last()) + escaped(text.last())
    }
}

/// A text as a JSON string: escaped, between quotes.
pub open spec fn json_string(text: Seq<char>) -> Seq<char> {
    seq!['"'] + escaped_text(text) + seq!['"']
}

/// True when `a` comes before `b` in the order of a dictionary, byte by byte.
pub open spec fn sorts_before(a: Seq<u8>, b: Seq<u8>) -> bool
    decreases a.len(),
{
    if b.len() == 0 {
        false
    } else if a.len() == 0 {
        true
    } else if a[0] != b[0] {
        a[0] < b[0]
    } else {
        sorts_before(a.skip(1), b.skip(1))
    }
}

/// The members with the one called `name` set to `value`: in place of the
/// member of that name where there is one, and else before the first member
/// whose name comes after `name`.
pub open spec fn put(members: Seq<(Seq<char>, Seq<char>)>, name: Seq<char>, value: Seq<char>) -> Seq<
    (Seq<char>, Seq<char>),
>
    decreases members.len(),
{
    if members.len() == 0 {
        seq![(name, value)]
    } else if members[0].0 == name {
        seq![(name, value)] + members.skip(1)
    } else if sorts_before(encode_utf8(name), encode_utf8(members[0].0)) {
        seq![(name, value)] + members
    } else {
        seq![members[0]] + put(members.skip(1), name, value)
    }
}

/// The members of an object as JSON, without the braces.
pub open spec fn members_text(members: Seq<(Seq<char>, Seq<char>)>) -> Seq<char>
    decreases members.len(),
{
    if members.len() == 0 {
        Seq::empty()
    } else {
        let member = json_string(members.last().0) + ":"@ + members.last().1;
        if members.len() == 1 {
            member
        } else {
            members_text(members.drop_last()) + ","@ + member
        }
    }
}

/// An object as JSON.
pub open spec fn object_text(members: Seq<(Seq<char>, Seq<char>)>) -> Seq<char> {
    "{"@ + members_text(members) + "}"@
}

/// The items of an array as JSON, without the brackets.
pub open spec fn items_text(items: Seq<Seq<char>>) -> Seq<char>
    decreases items.len(),
{
    if items.len() == 0 {
        Seq::empty()
    } else if items.len() == 1 {
        items.last()
    } else {
        items_text(items.drop_last()) + ","@ + items.last()
    }
}

/// The JSON texts of a list of values.
pub open spec fn all_written(items: Seq<serde_json::Value>) -> Seq<Seq<char>> {
    Seq::new(items.len(), |i: int| written(items[i]))
}

/// Calls `Map::new` of the `serde_json` crate.
///
/// Trusted: the object has no members.
#[verifier::external_body]
pub(crate) fn new_map() -> (map: serde_json::Map<String, serde_json::Value>)
    ensures
        entries(map) == Seq::<(Seq<char>, Seq<char>)>::empty(),
{
    serde_json::Map::new()
}

/// Calls `Map::insert` of the `serde_json` crate.
///
/// Trusted: as the crate is built here the object keeps its members in the
/// order of their names, byte by byte, and each name once. So the value takes
/// the place of the member of that name where there is one, and is else put
/// in where the name has its place in that order.
#[verifier::external_body]
pub(crate) fn map_insert(
    map: &mut serde_json::Map<String, serde_json::Value>,
    name: &str,
    value: serde_json::Value,
)
    ensures
        entries(*final(map)) == put(entries(*old(map)), name@, written(value)),
{
    map.insert(name.to_owned(), value);
}

/// Calls `Value::from` of the `serde_json` crate on an object.
///
/// Trusted: the value is written as the members between braces, parted by
/// commas, each as its name, a colon and its value.
#[verifier::external_body]
pub(crate) fn object_value(map: serde_json::Map<String, serde_json::Value>) -> (value:
    serde_json::Value)
    ensures
        written(value) == object_text(entries(map)),
{
    serde_json::Value::from(map)
}

/// Calls `Value::from` of the `serde_json` crate on a text.
///
/// Trusted: the value is written as a quote, the text with the quote, the
/// backslash and the control characters below the space escaped, each in the
/// shortest form that JSON has for it and in lower-case digits where it is
/// written by number, and a quote; nothing else is escaped.
#[verifier::external_body]
pub(crate) fn text_value(text: &str) -> (value: serde_json::Value)
    ensures
        written(value) == json_string(text@),
{
    serde_json::Value::from(text)
}

/// Calls `Value::from` of the `serde_json` crate on a whole number.
///
/// Trusted: the value is written in decimal digits, behind a `-` where it is
/// below zero.
#[verifier::external_body]
pub(crate) fn number_value(n: i64) -> (value: serde_json::Value)
    ensures
        written(value) == ascii_chars(signed_decimal(n as int)),
{
    serde_json::Value::from(n)
}

/// Calls `Value::from` of the `serde_json` crate on a list of values.
///
/// Trusted: the value is written as the items between brackets, parted by commas.
#[verifier::external_body]
pub(crate) fn array_value(items: Vec<serde_json::Value>) -> (value: serde_json::Value)
    ensures
        written(value) == "["@ + items_text(all_written(items@)) + "]"@,
{
    serde_json::Value::from(items)
}

/// Calls `Value::clone` of the `serde_json` crate.
///
/// Trusted: the copy is written as the value is.
#[verifier::external_body]
pub(crate) fn value_copy(value: &serde_json::Value) -> (copy: serde_json::Value)
    ensures
        written(copy) == written(*value),
{
    value.clone()
}

/// Calls `to_string` on a value of the `serde_json` crate.
///
/// Trusted: the text is the JSON of the value, with nothing between the
/// parts. Every value can be written, so the call does not fail.
#[verifier::external_body]
pub(crate) fn write_value(value: &serde_json::Value) -> (text: String)
    ensures
        text@ == written(*value),
{
    value.to_string()
}

/// A text that begins with an ASCII character is encoded with that
/// character as its first byte.
pub proof fn lemma_first_byte(text: Seq<char>)
    requires
        text.len() > 0,
        (text[0] as u32) < 128,
    ensures
        encode_utf8(text).len() > 0,
        encode_utf8(text)[0] as int == text[0] as u32 as int,
{
    let c = text[0] as u32;
    assert(has_width_1_encoding(c));
    assert(((c & 0x7F) as u8) as u32 == c) by (bit_vector)
        requires
            c < 128,
    ;
    assert(encode_scalar(c) == seq![leading_byte_width_1(c)]);
    assert(encode_utf8(text) == encode_scalar(c) + encode_utf8(text.drop_first()));
    assert(encode_utf8(text)[0] == leading_byte_width_1(c));
}

/// A name whose first byte is below that of another comes before it, and the
/// other does not come before the name.
pub proof fn lemma_sorts_by_first(a: Seq<char>, b: Seq<char>)
    requires
        a.len() > 0,
        b.len() > 0,
        (a[0] as u32) < (b[0] as u32),
        (b[0] as u32) < 128,
    ensures
        sorts_before(encode_utf8(a), encode_utf8(b)),
        !sorts_before(encode_utf8(b), encode_utf8(a)),
        a != b,
{
    lemma_first_byte(a);
    lemma_first_byte(b);
}

/// A single member as JSON.
pub proof fn lemma_one_member(name: Seq<char>, value: Seq<char>)
    ensures
        put(Seq::empty(), name, value) == seq![(name, value)],
        members_text(seq![(name, value)]) == json_string(name) + ":"@ + value,
        object_text(seq![(name, value)]) == "{"@ + json_string(name) + ":"@ + value + "}"@,
{
    let one = seq![(name, value)];
    assert(one.last() == (name, value));
    assert(object_text(one) =~= "{"@ + json_string(name) + ":"@ + value + "}"@);
}

/// What one more member, behind the others, adds to the JSON of the members.
pub proof fn lemma_member_behind(members: Seq<(Seq<char>, Seq<char>)>, name: Seq<char>, value: Seq<char>)
    requires
        members.len() > 0,
    ensures
        members_text(members.push((name, value))) == members_text(members) + (","@ + json_string(
            name,
        ) + ":"@) + value,
{
    let more = members.push((name, value));
    assert(more.drop_last() =~= members);
    assert(more.last() == (name, value));
    assert(members_text(more) =~= members_text(members) + (","@ + json_string(name) + ":"@) + value);
}

/// Texts joined one after the other are the same text however they are grouped.
pub proof fn lemma_joined(a: Seq<char>, b: Seq<char>, c: Seq<char>)
    ensures
        (a + b) + c == a + (b + c),
{
    assert((a + b) + c =~= a + (b + c));
}

/// A text in front of a text that ends in a name and a value.
pub proof fn lemma_in_front(p: Seq<char>, x: Seq<char>, k: Seq<char>, v: Seq<char>)
    ensures
        p + ((x + k) + v) == ((p + x) + k) + v,
{
    assert(p + ((x + k) + v) =~= ((p + x) + k) + v);
}

/// Setting a member whose name is none of the others' is inserting it before
/// the first whose name comes after its name.
pub proof fn lemma_put_at(
    members: Seq<(Seq<char>, Seq<char>)>,
    name: Seq<char>,
    value: Seq<char>,
    place: int,
)
    requires
        0 <= place <= members.len(),
        forall|i: int|
            0 <= i < place ==> (#[trigger] members[i]).0 != name && !sorts_before(
                encode_utf8(name),
                encode_utf8(members[i].0),
            ),
        place < members.len() ==> members[place].0 != name && sorts_before(
            encode_utf8(name),
            encode_utf8(members[place].0),
        ),
    ensures
        put(members, name, value) == members.insert(place, (name, value)),
    decreases members.len(),
{
    if members.len() == 0 {
        assert(seq![(name, value)] =~= members.insert(0, (name, value)));
    } else if place == 0 {
        assert(seq![(name, value)] + members =~= members.insert(0, (name, value)));
    } else {
        let rest = members.skip(1);
        assert(members[0].0 != name && !sorts_before(encode_utf8(name), encode_utf8(members[0].0)));
        assert forall|i: int| 0 <= i < place - 1 implies (#[trigger] rest[i]).0 != name
            && !sorts_before(encode_utf8(name), encode_utf8(rest[i].0)) by {
            assert(rest[i] == members[i + 1]);
        }
        if place - 1 < rest.len() {
            assert(rest[place - 1] == members[place]);
        }
        lemma_put_at(rest, name, value, place - 1);
        assert(seq![members[0]] + rest.insert(place - 1, (name, value)) =~= members.insert(
            place,
            (name, value),
        ));
    }
}

/// True for the characters that stand in a JSON string as they are.
pub open spec fn is_plain(c: char) -> bool {
    c != '"' && c != '\\' && (c as u32) >= 0x20
}

/// A text of characters that need no escaping stands in a JSON string as it is.
pub proof fn lemma_plain_text(text: Seq<char>)
    requires
        forall|i: int| 0 <= i < text.len() ==> is_plain(#[trigger] text[i]),
    ensures
        escaped_text(text) == text,
        json_string(text) == seq!['"'] + text + seq!['"'],
    decreases text.len(),
{
    if text.len() > 0 {
        lemma_plain_text(text.drop_last());
        assert(escaped(text.last()) == seq![text.last()]);
        assert(text.drop_last() + seq![text.last()] =~= text);
    }
}

} // verus!
