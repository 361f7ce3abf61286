//! The calls into other crates, each behind one function whose contract says
//! what is believed of the call.
use sha2::Digest;
use vstd::prelude::*;

verus! {

/// The lower-case hexadecimal digit of a value below sixteen.
pub open spec fn hex_digit(value: int) -> char {
    if value < 10 {
        (48 + value) as char
    } else {
        (87 + value) as char
    }
}

/// The characters that one character of a string becomes inside JSON quotes.
pub open spec fn json_char(c: char) -> Seq<char> {
    if c == '"' {
        seq!['\\', '"']
    } else if c == '\\' {
        seq!['\\', '\\']
    } else if c == '\u{8}' {
        seq!['\\', 'b']
    } else if c == '\u{9}' {
        seq!['\\', 't']
    } else if c == '\u{a}' {
        seq!['\\', 'n']
    } else if c == '\u{c}' {
        seq!['\\', 'f']
    } else if c == '\u{d}' {
        seq!['\\', 'r']
    } else if (c as int) < 32 {
        seq!['\\', 'u', '0', '0', hex_digit((c as int) / 16), hex_digit((c as int) % 16)]
    } else {
        seq![c]
    }
}

/// A string as it stands between its JSON quotes.
pub open spec fn json_escaped(s: Seq<char>) -> Seq<char>
    decreases s.len(),
{
    if s.len() == 0 {
        Seq::empty()
    } else {
        json_char(s[0]) + json_escaped(s.subrange(1, s.len() as int))
    }
}

/// A string as JSON text.
pub open spec fn json_string(s: Seq<char>) -> Seq<char> {
    seq!['"'] + json_escaped(s) + seq!['"']
}

/// Two strings as a JSON array.
pub open spec fn json_pair_text(first: Seq<char>, second: Seq<char>) -> Seq<char> {
    seq!['['] + json_string(first) + seq![','] + json_string(second) + seq![']']
}

/// `serde_json::to_string` on a string. Believed: it never fails on a string,
/// and quotes it, escaping quotes, backslashes and control characters below
/// U+0020 only (the last by a letter where JSON has one, else by four
/// lower-case hexadecimal digits).
#[verifier::external_body]
pub(crate) fn json_quote(text: &str) -> (res: String)
    ensures
        res@ == json_string(text@),
{
    serde_json::to_string(text).unwrap()
}

/// `serde_json::to_string` on a pair of strings. Believed: it never fails on
/// one, and writes an array of the two quoted strings, without spaces.
#[verifier::external_body]
pub(crate) fn json_pair(first: &str, second: &str) -> (res: String)
    ensures
        res@ == json_pair_text(first@, second@),
{
    serde_json::to_string(&(first, second)).unwrap()
}

/// The form of a random UUID: its version is four, its variant binary ten.
pub open spec fn random_form(value: u128) -> bool {
    value & 0xF000_C000_0000_0000_0000u128 == 0x4000_8000_0000_0000_0000u128
}

/// `uuid::Uuid::new_v4`, as its 128-bit value. Believed: the version bits are
/// four and the variant bits are binary ten. Which of those values it is, is
/// chance: nothing is said of it, nor that two draws differ.
#[verifier::external_body]
pub(crate) fn random_uuid() -> (res: u128)
    ensures
        random_form(res),
{
    uuid::Uuid::new_v4().as_u128()
}

/// The position among the 32 hexadecimal digits of a UUID that the character at
/// `index` of its hyphenated form shows.
pub open spec fn uuid_digit_index(index: int) -> int {
    if index < 8 {
        index
    } else if index < 13 {
        index - 1
    } else if index < 18 {
        index - 2
    } else if index < 23 {
        index - 3
    } else {
        index - 4
    }
}

/// The hyphenated lower-case form of a 128-bit value: 32 hexadecimal digits, the
/// highest first, in groups of 8, 4, 4, 4 and 12.
pub open spec fn uuid_form(value: u128) -> Seq<char> {
    Seq::new(
        36,
        |index: int|
            if index == 8 || index == 13 || index == 18 || index == 23 {
                '-'
            } else {
                hex_digit(
                    (value as int / vstd::arithmetic::power::pow(16, (31 - uuid_digit_index(index)) as nat))
                        % 16,
                )
            },
    )
}

/// `uuid::Uuid::from_u128` and the `Display` of the result. Believed: the text
/// is the hyphenated lower-case form of the value.
#[verifier::external_body]
pub(crate) fn uuid_text(value: u128) -> (res: String)
    ensures
        res@ == uuid_form(value),
{
    uuid::Uuid::from_u128(value).to_string()
}

/// What the SHA-256 digest of some bytes is.
pub uninterp spec fn sha256_of(bytes: Seq<u8>) -> Seq<u8>;

/// `sha2::Sha256::digest`. Believed: 32 bytes that depend on the input bytes
/// alone.
#[verifier::external_body]
pub(crate) fn sha256(bytes: &[u8]) -> (res: Vec<u8>)
    ensures
        res@ == sha256_of(bytes@),
        res@.len() == 32,
{
    sha2::Sha256::digest(bytes).to_vec()
}

/// The characters with the Unicode property `White_Space`.
pub open spec fn white_space(c: char) -> bool {
    let v = c as int;
    ||| 9 <= v <= 13
    ||| v == 0x20
    ||| v == 0x85
    ||| v == 0xA0
    ||| v == 0x1680
    ||| 0x2000 <= v <= 0x200A
    ||| v == 0x2028
    ||| v == 0x2029
    ||| v == 0x202F
    ||| v == 0x205F
    ||| v == 0x3000
}

/// `char::is_whitespace`. Believed: it holds of the characters with the
/// property `White_Space`, and of no others.
pub assume_specification[ char::is_whitespace ](c: char) -> (res: bool)
    ensures
        res == white_space(c),
;

/// The control characters: Unicode's general category `Cc`.
pub open spec fn control_char(c: char) -> bool {
    let v = c as int;
    v < 0x20 || 0x7F <= v <= 0x9F
}

/// `char::is_control`. Believed: it holds of the characters of category `Cc`,
/// and of no others.
pub assume_specification[ char::is_control ](c: char) -> (res: bool)
    ensures
        res == control_char(c),
;

/// The JSON text of what stands at a JSON pointer of a document: `null` where
/// the bytes are no JSON document, or nothing stands there.
pub uninterp spec fn json_at(bytes: Seq<u8>, pointer: Seq<char>) -> Seq<char>;

/// `serde_json::from_slice` into a `Value`, its `pointer`, and the `Display` of
/// what stands there. Believed: the text depends on the bytes and the pointer
/// alone.
#[verifier::external_body]
pub(crate) fn json_pointer(bytes: &[u8], pointer: &str) -> (res: String)
    ensures
        res@ == json_at(bytes@, pointer@),
{
    let document: serde_json::Value = serde_json::from_slice(bytes).unwrap_or_default();
    document.pointer(pointer).cloned().unwrap_or_default().to_string()
}

/// `std::str::from_utf8`, as far as whether it succeeds. Believed: it does on
/// valid UTF-8, and on nothing else.
#[verifier::external_body]
pub(crate) fn is_utf8(bytes: &[u8]) -> (res: bool)
    ensures
        res == vstd::utf8::valid_utf8(bytes@),
{
    std::str::from_utf8(bytes).is_ok()
}

} // verus!
