//! The calls into outside crates. Each item here carries a contract that is
//! taken on trust from the crate's documentation or source; nothing in this
//! file is proved.
use vstd::prelude::*;

verus! {

/// `serde_json::Value` is carried through the state as an opaque value.
#[verifier::external_type_specification]
#[verifier::external_body]
pub struct ExJsonValue(serde_json::Value);

/// `serde_json::Value::clone` returns a value equal to the one it was given.
pub assume_specification[ <serde_json::Value as Clone>::clone ](v: &serde_json::Value) -> (r:
    serde_json::Value)
    ensures
        r == *v,
;

/// `String::push` appends exactly one character to the end of the string.
pub assume_specification[ String::push ](s: &mut String, c: char)
    ensures
        final(s)@ == old(s)@.push(c),
;

/// Calls `uuid::Uuid::new_v4` and renders the identifier with its `Display`
/// impl, which writes the hyphenated lower-case form: 36 characters. Which
/// identifier comes back is random and not stated.
#[verifier::external_body]
pub(crate) fn fresh_id() -> (r: String)
    ensures
        r@.len() == 36,
{
    uuid::Uuid::new_v4().to_string()
}

/// A decimal digit.
pub open spec fn is_digit(c: char) -> bool {
    '0' <= c && c <= '9'
}

/// The shape of a time of day in hours and minutes: two digits, a colon and
/// two digits.
pub open spec fn is_clock_label(s: Seq<char>) -> bool {
    &&& s.len() == 5
    &&& is_digit(s[0])
    &&& is_digit(s[1])
    &&& s[2] == ':'
    &&& is_digit(s[3])
    &&& is_digit(s[4])
}

/// Calls `chrono::Local::now` and formats the local time with `%H:%M`, which
/// `chrono` documents as the hour and the minute, each zero-padded to two
/// digits. Which time comes back depends on the clock and the time zone
/// and is not stated; only its shape is.
#[verifier::external_body]
pub(crate) fn clock_label() -> (r: String)
    ensures
        is_clock_label(r@),
{
    chrono::Local::now().format("%H:%M").to_string()
}

/// What `regex::Regex::replace_all` returns for the pattern `pattern`, the
/// haystack `text` and the empty replacement; `None` where `regex::Regex::new`
/// rejects the pattern.
pub uninterp spec fn regex_removed(pattern: Seq<char>, text: Seq<char>) -> Option<Seq<char>>;

/// Compiles `pattern` with `regex::Regex::new` and deletes every match from
/// `text` with `regex::Regex::replace_all`. The contract only names the
/// result: it is a function of the two arguments.
#[verifier::external_body]
pub(crate) fn remove_matches(pattern: &str, text: &str) -> (r: Option<String>)
    ensures
        match r {
            Some(s) => regex_removed(pattern@, text@) == Some(s@),
            None => regex_removed(pattern@, text@) is None,
        },
{
    match regex::Regex::new(pattern) {
        Ok(re) => Some(re.replace_all(text, "").into_owned()),
        Err(_) => None,
    }
}

/// The bytes that `urlencoding` leaves as they are: ASCII letters, digits and
/// `-`, `.`, `_`, `~`.
pub open spec fn is_unreserved(b: u8) -> bool {
    ||| (0x30 <= b && b <= 0x39)
    ||| (0x41 <= b && b <= 0x5a)
    ||| (0x61 <= b && b <= 0x7a)
    ||| b == 0x2d
    ||| b == 0x2e
    ||| b == 0x5f
    ||| b == 0x7e
}

/// The upper-case hexadecimal digit for `d`.
pub open spec fn hex_upper(d: int) -> char {
    if d < 10 {
        ((0x30 + d) as u8) as char
    } else {
        ((0x41 + d - 10) as u8) as char
    }
}

/// The percent-encoding of a byte string: unreserved bytes stand for
/// themselves, every other byte becomes `%` and two upper-case hexadecimal
/// digits.
pub open spec fn percent_encoded(bytes: Seq<u8>) -> Seq<char>
    decreases bytes.len(),
{
    if bytes.len() == 0 {
        Seq::empty()
    } else {
        let b = bytes[0];
        let head = if is_unreserved(b) {
            seq![b as char]
        } else {
            seq!['%', hex_upper(b as int / 16), hex_upper(b as int % 16)]
        };
        head + percent_encoded(bytes.drop_first())
    }
}

/// The percent-encoding of the UTF-8 form of a text.
pub open spec fn url_encoded(s: Seq<char>) -> Seq<char> {
    percent_encoded(vstd::utf8::encode_utf8(s))
}

/// Calls `urlencoding::encode` on the UTF-8 bytes of `s`. The crate encodes
/// every byte except ASCII alphanumerics and `-`, `.`, `_`, `~` as `%XX` with
/// upper-case digits.
#[verifier::external_body]
pub(crate) fn percent_encode(s: &str) -> (r: String)
    ensures
        r@ == url_encoded(s@),
{
    urlencoding::encode(s).into_owned()
}

/// What `str::to_lowercase` returns for a string with the given characters.
pub uninterp spec fn lowercased(s: Seq<char>) -> Seq<char>;

/// Calls `str::to_lowercase`, whose result follows the Unicode lower-case
/// mapping; the contract names it.
#[verifier::external_body]
pub(crate) fn lowercase(s: &str) -> (r: String)
    ensures
        r@ == lowercased(s@),
{
    s.to_lowercase()
}

} // verus!
