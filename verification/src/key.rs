//! Correlation keys.
//!
//! Every session has a key of its own: the first sixteen digits of a random
//! UUID written as thirty-two lower-case hexadecimal digits. The key goes
//! into every request of the session, so that the backend can tell which
//! requests belong together.

use crate::form::{
    form_text, is_plain_char, is_plain_text, lemma_plain_text, message_field, post_body,
    session_field,
};
use vstd::prelude::*;

verus! {

/// Number of characters in a correlation key.
pub const KEY_LENGTH: usize = 16;

/// Whether `c` is a decimal digit or one of the letters `a` to `f`.
pub open spec fn is_lower_hex(c: char) -> bool {
    ('0' <= c <= '9') || ('a' <= c <= 'f')
}

/// Whether every character of `text` is a lower-case hexadecimal digit.
pub open spec fn all_lower_hex(text: Seq<char>) -> bool {
    forall|i: int| 0 <= i < text.len() ==> is_lower_hex(#[trigger] text[i])
}

/// Whether `text` is a UUID in its simple form: thirty-two lower-case
/// hexadecimal digits.
pub open spec fn is_token(text: Seq<char>) -> bool {
    text.len() == 32 && all_lower_hex(text)
}

/// Whether `text` has the form of a correlation key.
pub open spec fn is_key(text: Seq<char>) -> bool {
    text.len() == KEY_LENGTH && all_lower_hex(text)
}

/// The key that is cut from a token: its first sixteen characters.
pub open spec fn key_of_token(token: Seq<char>) -> Seq<char> {
    token.subrange(0, KEY_LENGTH as int)
}

/// Calls `uuid::Uuid::new_v4`, and writes the UUID in its simple form.
///
/// Trusted: whatever the random bits, the text has thirty-two characters,
/// each a decimal digit or a letter from `a` to `f`. The call panics if the
/// system cannot supply random bytes.
#[verifier::external_body]
fn fresh_token() -> (token: String)
    ensures
        is_token(token@),
{
    uuid::Uuid::new_v4().as_simple().to_string()
}

/// Cuts the correlation key from a token.
pub fn session_key(token: &str) -> (key: String)
    requires
        token@.len() >= KEY_LENGTH,
    ensures
        key@ == key_of_token(token@),
{
    String::from_str(token.substring_char(0, KEY_LENGTH))
}

/// Makes a new correlation key from a fresh random UUID.
pub fn new_key() -> (key: String)
    ensures
        is_key(key@),
{
    let token: String = fresh_token();
    session_key(token.as_str())
}

/// A key goes into a body as it is, since none of its characters needs
/// escaping: the body starts with `session=`, the key, and `&message=`.
pub proof fn lemma_key_is_written_plainly(key: Seq<char>, message: Seq<char>)
    requires
        is_key(key),
    ensures
        form_text(key) == key,
        post_body(key, message) == session_field() + seq!['='] + key + seq!['&'] + message_field()
            + seq!['='] + form_text(message),
{
    assert(is_plain_text(key)) by {
        assert forall|i: int| 0 <= i < key.len() implies is_plain_char(#[trigger] key[i]) by {
            assert(is_lower_hex(key[i]));
        }
    }
    lemma_plain_text(key);
}

} // verus!
