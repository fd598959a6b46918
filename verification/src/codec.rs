//! The SIP2 codec's message and its JSON form.
//!
//! A message is carried through the gateway as the codec made it. The gateway
//! never looks inside: all it needs is the JSON text that a message is
//! written as, and the message that a JSON text is read as.
//!
//! Reading a text is left to the JSON parser and the codec, but for the texts
//! on which one of them breaks down instead of answering. The parser counts
//! the digits of a fraction in sixteen bits, so a text in which a number
//! like `0.000...` runs this count out is turned away before it is parsed.
//! The codec
//! joins the message code and the fixed fields and cuts the text up by byte
//! lengths, so a value on which one of these cuts would fall inside a
//! character is turned away before the codec sees it. Every other text is
//! read as the codec reads it.

use vstd::prelude::*;
use vstd::utf8::*;

verus! {

#[verifier::external_type_specification]
#[verifier::external_body]
pub struct ExMessage(sip2::Message);

#[verifier::external_type_specification]
#[verifier::external_body]
pub struct ExJsonValue(json::JsonValue);

/// How often the parser can lower the exponent of a number: it is kept in
/// sixteen bits and starts at zero.
pub const EXPONENT_ROOM: usize = 32_768;

/// The mantissa from which on the parser multiplies with a check for
/// overflow, and drops the digits that do not fit.
pub const MANTISSA_CARE: u64 = 576_460_752_303_423_500;

/// Where a reader of JSON stands in a text, as far as numbers that start
/// with `0.` are concerned.
#[derive(Clone, Copy, Debug, PartialEq, Eq)]
pub enum Mode {
    /// Outside strings, where a number may start: at the start of the text,
    /// and after a blank, `[`, `,`, `:` or `-`.
    Value,
    /// Outside strings, anywhere else.
    Other,
    /// Inside a string.
    Text,
    /// Inside a string, after a backslash.
    Escape,
    /// After the `0` with which a number starts.
    Zero,
    /// In the fraction of a number that starts with `0.`: the mantissa read
    /// so far, and how often the exponent was lowered.
    Fraction { mantissa: u64, lowered: usize },
    /// The exponent ran out: it was to be lowered once more than there is
    /// room for.
    Broken,
}

/// What a message holds, as the JSON text that the codec writes for it: its
/// code, the values of its fixed fields, and its fields in their order.
pub uninterp spec fn json_form(message: sip2::Message) -> Seq<char>;

/// What a JSON value holds, written as text.
pub uninterp spec fn json_text(value: json::JsonValue) -> Seq<char>;

/// The JSON value that the parser reads out of a text, written as text;
/// `None` where the text is no JSON.
pub uninterp spec fn parsed_json(text: Seq<char>) -> Option<Seq<char>>;

/// The head of a JSON value, given as text: what stands under `code`, and
/// after it the members of the array under `fixed_fields`, in order. The
/// code is its text if it is a string. A member is its text if it is a
/// string, and its numeral if it is a number. Anything else, or nothing, is
/// `None`.
pub uninterp spec fn head_texts(json: Seq<char>) -> Seq<Option<Seq<char>>>;

/// The byte lengths of the fixed fields of the messages with the code
/// `code`, in order; `None` where the codec knows no such code.
pub uninterp spec fn fixed_lengths(code: Seq<char>) -> Option<Seq<usize>>;

/// The message that the codec builds from a JSON value, given as text: its
/// JSON form, or `None` where the value stands for no message.
pub uninterp spec fn read_form(json: Seq<char>) -> Option<Seq<char>>;

/// The view of a text that may be missing.
pub open spec fn part_view(part: Option<String>) -> Option<Seq<char>> {
    match part {
        Some(text) => Some(text@),
        None => None,
    }
}

/// The view of a list of texts that may be missing.
pub open spec fn parts_view(parts: Seq<Option<String>>) -> Seq<Option<Seq<char>>> {
    Seq::new(parts.len(), |i: int| part_view(parts[i]))
}

/// Whether the parser skips `c` between values.
pub open spec fn is_blank(c: char) -> bool {
    c == ' ' || ('\t' <= c <= '\r')
}

/// Where a reader stands after `c`, read outside strings and numbers.
pub open spec fn outside(c: char) -> Mode {
    if c == '"' {
        Mode::Text
    } else if is_blank(c) || c == '[' || c == ',' || c == ':' || c == '-' {
        Mode::Value
    } else {
        Mode::Other
    }
}

/// Where a reader that stands at `mode` stands after `c`.
///
/// In a fraction every digit goes into the mantissa and lowers the exponent,
/// as long as the mantissa is below [`MANTISSA_CARE`] or the digit still
/// fits into its sixty-four bits; a digit that does not fit is dropped.
pub open spec fn after(mode: Mode, c: char) -> Mode {
    match mode {
        Mode::Broken => Mode::Broken,
        Mode::Text => if c == '"' {
            Mode::Other
        } else if c == '\\' {
            Mode::Escape
        } else {
            Mode::Text
        },
        Mode::Escape => Mode::Text,
        Mode::Value => if c == '0' {
            Mode::Zero
        } else {
            outside(c)
        },
        Mode::Zero => if c == '.' {
            Mode::Fraction { mantissa: 0, lowered: 0 }
        } else {
            outside(c)
        },
        Mode::Fraction { mantissa, lowered } => if '0' <= c <= '9' {
            let more = mantissa * 10 + (c as int - '0' as int);
            if mantissa < MANTISSA_CARE || more <= u64::MAX {
                if lowered >= EXPONENT_ROOM {
                    Mode::Broken
                } else {
                    Mode::Fraction { mantissa: more as u64, lowered: (lowered + 1) as usize }
                }
            } else {
                mode
            }
        } else {
            outside(c)
        },
        Mode::Other => outside(c),
    }
}

/// Where a reader stands at the end of `text`.
pub open spec fn scan(text: Seq<char>) -> Mode
    decreases text.len(),
{
    if text.len() == 0 {
        Mode::Value
    } else {
        after(scan(text.drop_last()), text.last())
    }
}

/// Whether `text` holds, outside its strings and where a number may start,
/// a number that starts with `0.` and has so many digits in its fraction
/// that the parser's exponent runs out.
pub open spec fn runs_out(text: Seq<char>) -> bool {
    scan(text) == Mode::Broken
}

/// A text without its `|` characters.
pub open spec fn bare(text: Seq<char>) -> Seq<char> {
    text.filter(|c: char| c != '|')
}

/// The texts of a head, joined; `None` where one of them is missing.
pub open spec fn joined(head: Seq<Option<Seq<char>>>) -> Option<Seq<char>>
    decreases head.len(),
{
    if head.len() == 0 {
        Some(Seq::empty())
    } else {
        match (joined(head.drop_last()), head.last()) {
            (Some(before), Some(part)) => Some(before + part),
            _ => None,
        }
    }
}

/// Whether the cuts of the fixed fields, and the cut of what is left, fall
/// between characters: the codec cuts one field of each length in turn from
/// `at` on, as long as enough bytes are left; if all fields are cut and more
/// than two bytes are left, it cuts two bytes more.
pub open spec fn fields_cut_whole(bytes: Seq<u8>, at: int, lengths: Seq<usize>) -> bool
    decreases lengths.len(),
{
    if lengths.len() == 0 {
        bytes.len() - at > 2 ==> is_char_boundary(bytes, at + 2)
    } else if bytes.len() - at < lengths[0] {
        true
    } else {
        is_char_boundary(bytes, at + lengths[0]) && fields_cut_whole(
            bytes,
            at + lengths[0],
            lengths.drop_first(),
        )
    }
}

/// Whether every cut that the codec makes in these bytes falls between
/// characters: the cut after the two bytes of the code, and, where the codec
/// knows the code, the cuts of its fixed fields and of what is left.
pub open spec fn cuts_whole(bytes: Seq<u8>) -> bool {
    bytes.len() >= 2 ==> is_char_boundary(bytes, 2) && (match fixed_lengths(
        decode_utf8(bytes.subrange(0, 2)),
    ) {
        Some(lengths) => fields_cut_whole(bytes, 2, lengths),
        None => true,
    })
}

/// Whether the codec can cut up a head: it joins the texts, drops every `|`
/// and cuts the bytes of what remains. Where a text is missing the codec
/// cuts nothing.
pub open spec fn is_cut_whole(head: Seq<Option<Seq<char>>>) -> bool {
    match joined(head) {
        Some(text) => cuts_whole(encode_utf8(bare(text))),
        None => true,
    }
}

/// What is read out of the text of a response: the JSON form of the message
/// it stands for. A text stands for a message if it does not run the
/// parser's exponent out, it is JSON, no cut of the codec falls inside a
/// character, and the codec builds a message from the value.
pub open spec fn response_form(text: Seq<char>) -> Option<Seq<char>> {
    if runs_out(text) {
        None
    } else {
        match parsed_json(text) {
            Some(json) => if is_cut_whole(head_texts(json)) {
                read_form(json)
            } else {
                None
            },
            None => None,
        }
    }
}

/// Whether `decoded` is what is read out of `text`.
pub open spec fn is_reading(text: Seq<char>, decoded: Option<sip2::Message>) -> bool {
    match decoded {
        Some(message) => response_form(text) == Some(json_form(message)),
        None => response_form(text) is None,
    }
}

/// Calls `sip2::Message::to_json`.
///
/// Trusted: the text depends on nothing but what the message holds; it is
/// named [`json_form`].
#[verifier::external_body]
pub(crate) fn message_to_json(message: &sip2::Message) -> (text: String)
    ensures
        text@ == json_form(*message),
{
    message.to_json()
}

/// Calls `json::parse`, and drops the error's detail.
///
/// Trusted: whether a value comes back, and what it holds, depends on
/// nothing but the text; the outcome is named [`parsed_json`]. The parser
/// lowers a sixteen-bit exponent for the digits of a fraction and panics
/// where it runs out, which only a number that starts with `0.` can bring
/// about: texts with such a number are left out.
#[verifier::external_body]
fn parse_json(text: &str) -> (parsed: Option<json::JsonValue>)
    requires
        !runs_out(text@),
    ensures
        match parsed {
            Some(value) => parsed_json(text@) == Some(json_text(value)),
            None => parsed_json(text@) is None,
        },
{
    json::parse(text).ok()
}

/// Reads the head of a JSON value: indexes it by `code` and takes the text
/// with `json::JsonValue::as_str`; walks the `members` of what stands under
/// `fixed_fields`, and takes of each the text with `as_str`, or the numeral
/// that its `Display` writes if `is_number` says it is a number.
///
/// Trusted: the texts depend on nothing but what the value holds; they are
/// named [`head_texts`].
#[verifier::external_body]
fn head_of(value: &json::JsonValue) -> (head: Vec<Option<String>>)
    ensures
        parts_view(head@) == head_texts(json_text(*value)),
{
    let mut head = vec![value["code"].as_str().map(str::to_string)];
    head.extend(value["fixed_fields"].members().map(|member| match member.as_str() {
        Some(text) => Some(text.to_string()),
        None => member.as_number().map(|_| member.to_string()),
    }));
    head
}

/// Calls `sip2::util::sip_string`.
///
/// Trusted: the result is the text without its `|` characters.
#[verifier::external_body]
fn sip_string(text: &str) -> (cleaned: String)
    ensures
        cleaned@ == bare(text@),
{
    sip2::util::sip_string(text)
}

/// Calls `sip2::spec::Message::from_code`, and hands out the `length` of
/// each of the `fixed_fields` of the message.
///
/// Trusted: the lengths depend on nothing but the code; they are named
/// [`fixed_lengths`].
#[verifier::external_body]
fn fixed_lengths_of(code: &str) -> (lengths: Option<Vec<usize>>)
    ensures
        match lengths {
            Some(list) => fixed_lengths(code@) == Some(list@),
            None => fixed_lengths(code@) is None,
        },
{
    sip2::spec::Message::from_code(code).map(
        |message| message.fixed_fields.iter().map(|field| field.length).collect(),
    )
}

/// Calls `sip2::Message::from_json_value`, and drops the error's detail.
///
/// Trusted: whether a message comes back, and what it holds, depends on
/// nothing but what the value holds; the JSON form of the outcome is named
/// [`read_form`]. The codec joins the code and the fixed fields, drops every
/// `|`, and cuts the text at byte positions: after two bytes, after each
/// fixed field of the message, and after two bytes of what is left if that
/// is more than two. It panics where a cut falls inside a character: values
/// with such a cut are left out.
#[verifier::external_body]
fn message_of_value(value: json::JsonValue) -> (decoded: Option<sip2::Message>)
    requires
        is_cut_whole(head_texts(json_text(value))),
    ensures
        match decoded {
            Some(message) => read_form(json_text(value)) == Some(json_form(message)),
            None => read_form(json_text(value)) is None,
        },
{
    sip2::Message::from_json_value(value).ok()
}

/// Where a reader that stands at `mode` stands after `c`.
fn step(mode: Mode, c: char) -> (next: Mode)
    ensures
        next == after(mode, c),
{
    match mode {
        Mode::Broken => Mode::Broken,
        Mode::Text => if c == '"' {
            Mode::Other
        } else if c == '\\' {
            Mode::Escape
        } else {
            Mode::Text
        },
        Mode::Escape => Mode::Text,
        Mode::Value => if c == '0' {
            Mode::Zero
        } else {
            pass(c)
        },
        Mode::Zero => if c == '.' {
            Mode::Fraction { mantissa: 0, lowered: 0 }
        } else {
            pass(c)
        },
        Mode::Fraction { mantissa, lowered } => if '0' <= c && c <= '9' {
            let digit: u64 = c as u64 - '0' as u64;
            let more: Option<u64> = match mantissa.checked_mul(10) {
                Some(tens) => tens.checked_add(digit),
                None => None,
            };
            match more {
                Some(grown) => if lowered >= EXPONENT_ROOM {
                    Mode::Broken
                } else {
                    Mode::Fraction { mantissa: grown, lowered: lowered + 1 }
                },
                None => mode,
            }
        } else {
            pass(c)
        },
        Mode::Other => pass(c),
    }
}

/// Where a reader stands after `c`, read outside strings and numbers.
fn pass(c: char) -> (next: Mode)
    ensures
        next == outside(c),
{
    if c == '"' {
        Mode::Text
    } else if c == ' ' || ('\t' <= c && c <= '\r') || c == '[' || c == ',' || c == ':' || c == '-' {
        Mode::Value
    } else {
        Mode::Other
    }
}

/// Whether `text` runs the parser's exponent out.
pub fn exponent_runs_out(text: &str) -> (out: bool)
    ensures
        out == runs_out(text@),
{
    let mut mode: Mode = Mode::Value;
    for c in it: text.chars()
        invariant
            it.seq() == text@,
            mode == scan(text@.take(it.index())),
    {
        proof {
            let more = text@.take(it.index() + 1);
            assert(more.drop_last() =~= text@.take(it.index()));
            assert(more.last() == c);
        }
        mode = step(mode, c);
    }
    assert(text@.take(text@.len() as int) =~= text@);
    match mode {
        Mode::Broken => true,
        _ => false,
    }
}

/// Where the texts of the first part of a head do not join, those of the
/// whole head do not.
proof fn lemma_missing_part(head: Seq<Option<Seq<char>>>, end: int)
    requires
        0 <= end <= head.len(),
        joined(head.take(end)) is None,
    ensures
        joined(head) is None,
    decreases head.len() - end,
{
    if end < head.len() {
        assert(head.take(end + 1).drop_last() =~= head.take(end));
        lemma_missing_part(head, end + 1);
    } else {
        assert(head.take(end) =~= head);
    }
}

/// Joins the texts of a head; `None` where one of them is missing.
fn join(head: &Vec<Option<String>>) -> (text: Option<String>)
    ensures
        part_view(text) == joined(parts_view(head@)),
{
    let ghost parts = parts_view(head@);
    let mut text: String = String::new();
    let mut i: usize = 0;
    assert(parts.take(0) =~= Seq::empty());
    while i < head.len()
        invariant
            i <= head@.len(),
            parts == parts_view(head@),
            joined(parts.take(i as int)) == Some(text@),
        decreases head@.len() - i,
    {
        proof {
            assert(parts.take(i + 1).drop_last() =~= parts.take(i as int));
            assert(parts.take(i + 1).last() == part_view(head@[i as int]));
        }
        match &head[i] {
            Some(part) => {
                text.append(part.as_str());
            },
            None => {
                proof {
                    lemma_missing_part(parts, i + 1);
                }
                return None;
            },
        }
        i = i + 1;
    }
    assert(parts.take(i as int) =~= parts);
    Some(text)
}

/// Whether every cut that the codec makes in `text` falls between
/// characters.
pub fn cuts_are_whole(text: &str) -> (whole: bool)
    ensures
        whole == cuts_whole(encode_utf8(text@)),
{
    let ghost bytes = encode_utf8(text@);
    let length: usize = text.as_bytes().len();
    if length < 2 {
        return true;
    }
    if !text.is_char_boundary(2) {
        return false;
    }
    let (code, _) = text.split_at(2);
    proof {
        encode_utf8_decode_utf8(code@);
        assert(decode_utf8(bytes.subrange(0, 2)) == code@);
    }
    match fixed_lengths_of(code) {
        None => true,
        Some(lengths) => {
            let mut at: usize = 2;
            let mut i: usize = 0;
            assert(lengths@.skip(0) =~= lengths@);
            assert(cuts_whole(bytes) == fields_cut_whole(bytes, 2, lengths@));
            while i < lengths.len()
                invariant
                    bytes == encode_utf8(text@),
                    length == bytes.len(),
                    cuts_whole(bytes) == fields_cut_whole(bytes, 2, lengths@),
                    2 <= at <= length,
                    i <= lengths@.len(),
                    fields_cut_whole(bytes, 2, lengths@) == fields_cut_whole(
                        bytes,
                        at as int,
                        lengths@.skip(i as int),
                    ),
                decreases lengths@.len() - i,
            {
                let width: usize = lengths[i];
                proof {
                    assert(lengths@.skip(i as int)[0] == width);
                    assert(lengths@.skip(i as int).drop_first() =~= lengths@.skip(i + 1));
                }
                if length - at < width {
                    return true;
                }
                at = at + width;
                if !text.is_char_boundary(at) {
                    return false;
                }
                i = i + 1;
            }
            if length - at > 2 {
                text.is_char_boundary(at + 2)
            } else {
                true
            }
        },
    }
}

/// Whether the codec can cut up a head.
fn head_cuts_whole(head: &Vec<Option<String>>) -> (whole: bool)
    ensures
        whole == is_cut_whole(parts_view(head@)),
{
    match join(head) {
        Some(text) => {
            let cleaned: String = sip_string(text.as_str());
            cuts_are_whole(cleaned.as_str())
        },
        None => true,
    }
}

/// Reads the message that the text of a response stands for.
///
/// The text is turned away, without a call of the parser or the codec,
/// where one of them would break down on it; every other text is read as
/// the codec reads it.
pub fn message_from_json(text: &str) -> (decoded: Option<sip2::Message>)
    ensures
        is_reading(text@, decoded),
{
    if exponent_runs_out(text) {
        return None;
    }
    match parse_json(text) {
        Some(value) => {
            let head: Vec<Option<String>> = head_of(&value);
            if head_cuts_whole(&head) {
                message_of_value(value)
            } else {
                None
            }
        },
        None => None,
    }
}

} // verus!
