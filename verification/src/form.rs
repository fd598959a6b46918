//! The body of a backend request: two form fields, `session` and `message`,
//! in `application/x-www-form-urlencoded` form.
//!
//! The text of a body is stated here as a function of the two values, and a
//! reader of bodies is stated beside it, so that what a backend reads out of
//! a body can be compared with what was put in.

use vstd::prelude::*;
use vstd::utf8::*;

verus! {

/// Whether the form byte serializer writes `b` as it is: the ASCII letters and
/// digits, and `*`, `-`, `.`, `_`.
pub open spec fn is_plain_byte(b: u8) -> bool {
    ||| b == 0x2a
    ||| b == 0x2d
    ||| b == 0x2e
    ||| b == 0x5f
    ||| 0x30 <= b <= 0x39
    ||| 0x41 <= b <= 0x5a
    ||| 0x61 <= b <= 0x7a
}

/// Whether every character of `text` is one that the form byte serializer
/// writes as it is.
pub open spec fn is_plain_text(text: Seq<char>) -> bool {
    forall|i: int| 0 <= i < text.len() ==> is_plain_char(#[trigger] text[i])
}

/// Whether `c` is an ASCII letter or digit, or one of `*`, `-`, `.`, `_`.
pub open spec fn is_plain_char(c: char) -> bool {
    ||| c == '*'
    ||| c == '-'
    ||| c == '.'
    ||| c == '_'
    ||| '0' <= c <= '9'
    ||| 'A' <= c <= 'Z'
    ||| 'a' <= c <= 'z'
}

/// Whether `c` is a character that the form byte serializer may write.
pub open spec fn is_form_char(c: char) -> bool {
    is_plain_char(c) || c == '+' || c == '%'
}

/// The upper-case hexadecimal digit for `n`, where `0 <= n < 16`.
pub open spec fn upper_hex_digit(n: int) -> char {
    seq!['0', '1', '2', '3', '4', '5', '6', '7', '8', '9', 'A', 'B', 'C', 'D', 'E', 'F'][n]
}

/// What the form byte serializer writes for one byte: the byte itself, `+`
/// for a space, or `%` and two upper-case hexadecimal digits.
pub open spec fn form_byte(b: u8) -> Seq<char> {
    if is_plain_byte(b) {
        seq![b as char]
    } else if b == 0x20 {
        seq!['+']
    } else {
        seq!['%', upper_hex_digit(b as int / 16), upper_hex_digit(b as int % 16)]
    }
}

/// What the form byte serializer writes for a sequence of bytes.
pub open spec fn form_bytes(bytes: Seq<u8>) -> Seq<char>
    decreases bytes.len(),
{
    if bytes.len() == 0 {
        Seq::empty()
    } else {
        form_byte(bytes[0]) + form_bytes(bytes.drop_first())
    }
}

/// The form encoding of a text: the byte serializer applied to its UTF-8
/// bytes.
pub open spec fn form_text(text: Seq<char>) -> Seq<char> {
    form_bytes(encode_utf8(text))
}

/// One `name=value` pair in form encoding.
pub open spec fn form_pair(name: Seq<char>, value: Seq<char>) -> Seq<char> {
    form_text(name) + seq!['='] + form_text(value)
}

/// Two pairs in form encoding, joined by `&`.
pub open spec fn form_two_pairs(
    name1: Seq<char>,
    value1: Seq<char>,
    name2: Seq<char>,
    value2: Seq<char>,
) -> Seq<char> {
    form_pair(name1, value1) + seq!['&'] + form_pair(name2, value2)
}

/// Name of the field that carries the correlation key.
pub open spec fn session_field() -> Seq<char> {
    seq!['s', 'e', 's', 's', 'i', 'o', 'n']
}

/// Name of the field that carries the message in its JSON form.
pub open spec fn message_field() -> Seq<char> {
    seq!['m', 'e', 's', 's', 'a', 'g', 'e']
}

/// The body of the POST that carries `message` for the session `key`:
/// `session=<key>&message=<message>`, both values form-encoded.
pub open spec fn post_body(key: Seq<char>, message: Seq<char>) -> Seq<char> {
    session_field() + seq!['='] + form_text(key) + seq!['&'] + message_field() + seq!['=']
        + form_text(message)
}

#[verifier::external_type_specification]
#[verifier::external_body]
pub struct ExFormError(serde_urlencoded::ser::Error);

/// Calls `serde_urlencoded::to_string` on an array of two pairs of strings.
///
/// Trusted: the call succeeds, since the serializer refuses nothing in an
/// array of pairs of strings. The text is the first pair, `&`, and the second
/// pair, each pair being its name, `=`, and its value, and each name and
/// value written by the form byte serializer from its UTF-8 bytes.
#[verifier::external_body]
pub(crate) fn form_urlencode(name1: &str, value1: &str, name2: &str, value2: &str) -> (encoded:
    Result<String, serde_urlencoded::ser::Error>)
    ensures
        encoded is Ok,
        encoded matches Ok(text) ==> text@ == form_two_pairs(name1@, value1@, name2@, value2@),
{
    serde_urlencoded::to_string([(name1, value1), (name2, value2)])
}

/// Whether `c` is a hexadecimal digit, of either case.
pub open spec fn is_hex_digit(c: char) -> bool {
    ('0' <= c <= '9') || ('a' <= c <= 'f') || ('A' <= c <= 'F')
}

/// The number that the hexadecimal digit `c` stands for.
pub open spec fn hex_value(c: char) -> int {
    if '0' <= c <= '9' {
        c as int - '0' as int
    } else if 'a' <= c <= 'f' {
        c as int - 'a' as int + 10
    } else {
        c as int - 'A' as int + 10
    }
}

/// The bytes that a form parser reads back from an encoded ASCII text: `+`
/// is a space, `%` with two hexadecimal digits is the byte they spell, and
/// any other character is its own byte.
pub open spec fn unform(text: Seq<char>) -> Seq<u8>
    decreases text.len(),
{
    if text.len() == 0 {
        Seq::empty()
    } else if text[0] == '%' && text.len() >= 3 && is_hex_digit(text[1]) && is_hex_digit(text[2]) {
        seq![(hex_value(text[1]) * 16 + hex_value(text[2])) as u8] + unform(text.skip(3))
    } else if text[0] == '+' {
        seq![0x20u8] + unform(text.drop_first())
    } else {
        seq![text[0] as u8] + unform(text.drop_first())
    }
}

/// Where `mark` first stands in `text`; the length of `text` if nowhere.
pub open spec fn first_index(text: Seq<char>, mark: char) -> int
    decreases text.len(),
{
    if text.len() == 0 || text[0] == mark {
        0
    } else {
        1 + first_index(text.drop_first(), mark)
    }
}

/// The part of `text` before the first `mark`; all of it if there is none.
pub open spec fn before_first(text: Seq<char>, mark: char) -> Seq<char> {
    text.take(first_index(text, mark))
}

/// The part of `text` after the first `mark`; empty if there is none.
pub open spec fn after_first(text: Seq<char>, mark: char) -> Seq<char> {
    if first_index(text, mark) < text.len() {
        text.skip(first_index(text, mark) + 1)
    } else {
        Seq::empty()
    }
}

/// The name and the value that a form parser reads out of one pair.
pub open spec fn read_pair(pair: Seq<char>) -> (Seq<u8>, Seq<u8>) {
    (unform(before_first(pair, '=')), unform(after_first(pair, '=')))
}

/// What a backend reads out of a body: the correlation key and the message,
/// if the body holds a `session` field and then a `message` field and
/// nothing after it, both with UTF-8 values.
pub open spec fn read_body(body: Seq<char>) -> Option<(Seq<char>, Seq<char>)> {
    let rest = after_first(body, '&');
    let first = read_pair(before_first(body, '&'));
    let second = read_pair(rest);
    if first_index(rest, '&') == rest.len() && first.0 == encode_utf8(session_field())
        && second.0 == encode_utf8(message_field()) && valid_utf8(first.1) && valid_utf8(
        second.1,
    ) {
        Some((decode_utf8(first.1), decode_utf8(second.1)))
    } else {
        None
    }
}

/// A plain character is one byte in UTF-8, and that byte is plain.
proof fn lemma_plain_char(c: char)
    requires
        is_plain_char(c),
    ensures
        encode_scalar(c as u32) == seq![c as u8],
        is_plain_byte(c as u8),
        (c as u8) as char == c,
{
    let scalar = c as u32;
    assert(scalar < 0x80);
    assert(scalar as u8 == leading_byte_width_1(scalar)) by (bit_vector)
        requires
            scalar < 0x80,
    ;
    assert(encode_scalar(scalar) =~= seq![c as u8]);
}

/// A text of plain characters is its own form encoding.
pub proof fn lemma_plain_text(text: Seq<char>)
    requires
        is_plain_text(text),
    ensures
        form_text(text) == text,
    decreases text.len(),
{
    if text.len() == 0 {
        assert(form_text(text) =~= text);
    } else {
        let rest = text.drop_first();
        lemma_plain_text(rest);
        let c = text[0];
        assert(is_plain_char(c));
        lemma_plain_char(c);
        assert(encode_utf8(text) =~= seq![c as u8] + encode_utf8(rest));
        assert((seq![c as u8] + encode_utf8(rest)).drop_first() =~= encode_utf8(rest));
        assert(form_text(text) =~= seq![c] + form_text(rest));
        assert(seq![c] + rest =~= text);
    }
}

/// The body of a POST is the two pairs `session` and `message`.
pub proof fn lemma_post_body_is_two_pairs(key: Seq<char>, message: Seq<char>)
    ensures
        post_body(key, message) == form_two_pairs(session_field(), key, message_field(), message),
{
    lemma_plain_text(session_field());
    lemma_plain_text(message_field());
    assert(post_body(key, message) =~= form_two_pairs(
        session_field(),
        key,
        message_field(),
        message,
    ));
}

/// The hexadecimal digits that the serializer writes are read back as the
/// numbers they were written for.
proof fn lemma_upper_hex_digit(n: int)
    requires
        0 <= n < 16,
    ensures
        is_hex_digit(upper_hex_digit(n)),
        is_plain_char(upper_hex_digit(n)),
        hex_value(upper_hex_digit(n)) == n,
{
    let digits =
        seq!['0', '1', '2', '3', '4', '5', '6', '7', '8', '9', 'A', 'B', 'C', 'D', 'E', 'F'];
    assert(digits[0] == '0' && digits[1] == '1' && digits[2] == '2' && digits[3] == '3');
    assert(digits[4] == '4' && digits[5] == '5' && digits[6] == '6' && digits[7] == '7');
    assert(digits[8] == '8' && digits[9] == '9' && digits[10] == 'A' && digits[11] == 'B');
    assert(digits[12] == 'C' && digits[13] == 'D' && digits[14] == 'E' && digits[15] == 'F');
}

/// What the serializer writes for one byte is one to three characters, none
/// of them `&` or `=`, and a parser reads them back as that byte.
proof fn lemma_form_byte(b: u8, rest: Seq<char>)
    ensures
        1 <= form_byte(b).len() <= 3,
        forall|i: int| 0 <= i < form_byte(b).len() ==> is_form_char(#[trigger] form_byte(b)[i]),
        unform(form_byte(b) + rest) == seq![b] + unform(rest),
{
    let text = form_byte(b) + rest;
    if is_plain_byte(b) {
        assert(text.drop_first() =~= rest);
    } else if b == 0x20 {
        assert(text.drop_first() =~= rest);
    } else {
        lemma_upper_hex_digit(b as int / 16);
        lemma_upper_hex_digit(b as int % 16);
        assert(text[1] == upper_hex_digit(b as int / 16));
        assert(text[2] == upper_hex_digit(b as int % 16));
        assert(text.skip(3) =~= rest);
    }
}

/// Encoded text is made of plain characters, `+` and `%`, so it holds
/// neither `&` nor `=`; and a parser reads the encoded bytes back from it.
pub proof fn lemma_form_bytes(bytes: Seq<u8>)
    ensures
        forall|i: int|
            0 <= i < form_bytes(bytes).len() ==> is_form_char(#[trigger] form_bytes(bytes)[i]),
        unform(form_bytes(bytes)) == bytes,
    decreases bytes.len(),
{
    if bytes.len() == 0 {
        assert(unform(form_bytes(bytes)) =~= bytes);
    } else {
        let rest = form_bytes(bytes.drop_first());
        lemma_form_bytes(bytes.drop_first());
        lemma_form_byte(bytes[0], rest);
        assert(seq![bytes[0]] + bytes.drop_first() =~= bytes);
        assert forall|i: int| 0 <= i < form_bytes(bytes).len() implies is_form_char(
            #[trigger] form_bytes(bytes)[i],
        ) by {
            let head = form_byte(bytes[0]);
            if i < head.len() {
                assert(form_bytes(bytes)[i] == head[i]);
            } else {
                assert(form_bytes(bytes)[i] == rest[i - head.len()]);
            }
        }
    }
}

/// A text without `mark`, then `mark`, then anything: the first `mark` is
/// the one in the middle.
proof fn lemma_split_at_mark(head: Seq<char>, mark: char, tail: Seq<char>)
    requires
        forall|i: int| 0 <= i < head.len() ==> #[trigger] head[i] != mark,
    ensures
        before_first(head + seq![mark] + tail, mark) == head,
        after_first(head + seq![mark] + tail, mark) == tail,
{
    lemma_first_index(head, mark, tail);
    let text = head + seq![mark] + tail;
    assert(text.take(head.len() as int) =~= head);
    assert(text.skip(head.len() as int + 1) =~= tail);
}

/// A text without `mark`, then `mark`: the first `mark` stands right after
/// the text.
proof fn lemma_first_index(head: Seq<char>, mark: char, tail: Seq<char>)
    requires
        forall|i: int| 0 <= i < head.len() ==> #[trigger] head[i] != mark,
    ensures
        first_index(head + seq![mark] + tail, mark) == head.len(),
    decreases head.len(),
{
    let text = head + seq![mark] + tail;
    if head.len() == 0 {
        assert(text[0] == mark);
    } else {
        assert(text[0] == head[0]);
        assert forall|i: int| 0 <= i < head.drop_first().len() implies #[trigger] head.drop_first()[i]
            != mark by {
            assert(head.drop_first()[i] == head[i + 1]);
        }
        lemma_first_index(head.drop_first(), mark, tail);
        assert(text.drop_first() =~= head.drop_first() + seq![mark] + tail);
    }
}

/// A text without `mark` has its first `mark` nowhere.
proof fn lemma_no_mark(text: Seq<char>, mark: char)
    requires
        forall|i: int| 0 <= i < text.len() ==> #[trigger] text[i] != mark,
    ensures
        first_index(text, mark) == text.len(),
    decreases text.len(),
{
    if text.len() > 0 {
        assert(text[0] != mark);
        assert forall|i: int| 0 <= i < text.drop_first().len() implies #[trigger] text.drop_first()[i]
            != mark by {
            assert(text.drop_first()[i] == text[i + 1]);
        }
        lemma_no_mark(text.drop_first(), mark);
    }
}

/// A pair of a plain name and any value holds no `&`.
proof fn lemma_pair_has_no_separator(name: Seq<char>, value: Seq<char>)
    requires
        is_plain_text(name),
    ensures
        forall|i: int|
            0 <= i < (name + seq!['='] + form_text(value)).len() ==> (#[trigger] (name + seq!['=']
                + form_text(value))[i]) != '&',
{
    let pair = name + seq!['='] + form_text(value);
    lemma_form_bytes(encode_utf8(value));
    assert forall|i: int| 0 <= i < pair.len() implies #[trigger] pair[i] != '&' by {
        if i < name.len() {
            assert(pair[i] == name[i]);
            assert(is_plain_char(name[i]));
        } else if i == name.len() {
            assert(pair[i] == '=');
        } else {
            assert(pair[i] == form_text(value)[i - name.len() - 1]);
            assert(is_form_char(form_text(value)[i - name.len() - 1]));
        }
    }
}

/// A pair of a plain name and any value is read back as the name's bytes
/// and the value's bytes.
proof fn lemma_read_pair(name: Seq<char>, value: Seq<char>)
    requires
        is_plain_text(name),
    ensures
        read_pair(name + seq!['='] + form_text(value)) == (encode_utf8(name), encode_utf8(value)),
{
    lemma_split_at_mark(name, '=', form_text(value));
    lemma_plain_text(name);
    lemma_form_bytes(encode_utf8(name));
    lemma_form_bytes(encode_utf8(value));
}

/// Round trip: what a backend reads out of the body that carries `message`
/// for the session `key` is that key and that message.
pub proof fn lemma_body_round_trip(key: Seq<char>, message: Seq<char>)
    ensures
        read_body(post_body(key, message)) == Some((key, message)),
{
    let first = session_field() + seq!['='] + form_text(key);
    let second = message_field() + seq!['='] + form_text(message);
    lemma_pair_has_no_separator(session_field(), key);
    lemma_pair_has_no_separator(message_field(), message);
    assert(post_body(key, message) =~= first + seq!['&'] + second);
    lemma_split_at_mark(first, '&', second);
    lemma_no_mark(second, '&');
    lemma_read_pair(session_field(), key);
    lemma_read_pair(message_field(), message);
    encode_utf8_valid_utf8(key);
    encode_utf8_valid_utf8(message);
    encode_utf8_decode_utf8(key);
    encode_utf8_decode_utf8(message);
}

/// Bodies made for different keys, or for different messages, differ.
pub proof fn lemma_bodies_differ(
    key1: Seq<char>,
    message1: Seq<char>,
    key2: Seq<char>,
    message2: Seq<char>,
)
    requires
        key1 != key2 || message1 != message2,
    ensures
        post_body(key1, message1) != post_body(key2, message2),
{
    lemma_body_round_trip(key1, message1);
    lemma_body_round_trip(key2, message2);
}

} // verus!
