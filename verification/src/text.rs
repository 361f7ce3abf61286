//! Small functions on text.
use vstd::prelude::*;
use vstd::string::*;
use crate::outside;

verus! {

/// Nothing but white space.
pub open spec fn blank(s: Seq<char>) -> bool {
    forall|i: int| 0 <= i < s.len() ==> outside::white_space(#[trigger] s[i])
}

/// The length of a text in bytes of UTF-8.
pub open spec fn byte_len(s: Seq<char>) -> nat {
    vstd::utf8::encode_utf8(s).len()
}

/// An identifier that names something: not blank, at most 256 bytes.
pub open spec fn valid_id(s: Seq<char>) -> bool {
    !blank(s) && byte_len(s) <= 256
}

/// The length of a text in bytes.
pub fn text_len(text: &str) -> (res: usize)
    ensures
        res == byte_len(text@),
{
    text.as_bytes().len()
}

/// Whether a text is nothing but white space.
pub fn is_blank(text: &str) -> (res: bool)
    ensures
        res == blank(text@),
{
    for c in iter: text.chars()
        invariant
            iter.seq() == text@,
            forall|j: int| 0 <= j < iter.index() ==> outside::white_space(#[trigger] text@[j]),
    {
        if !c.is_whitespace() {
            assert(!outside::white_space(text@[iter.index() as int]));
            return false;
        }
    }
    true
}

/// Whether a text can identify something.
pub fn is_valid_id(text: &str) -> (res: bool)
    ensures
        res == valid_id(text@),
{
    !is_blank(text) && text_len(text) <= 256
}

/// The character of a decimal digit.
pub open spec fn digit(value: nat) -> char {
    (48 + value) as char
}

/// A number in decimal, without leading zeros.
pub open spec fn decimal(value: nat) -> Seq<char>
    decreases value,
{
    if value < 10 {
        seq![digit(value)]
    } else {
        decimal(value / 10).push(digit(value % 10))
    }
}

fn digit_text(value: u64) -> (res: &'static str)
    requires
        value < 10,
    ensures
        res@ == seq![digit(value as nat)],
{
    proof {
        reveal_strlit("0");
        reveal_strlit("1");
        reveal_strlit("2");
        reveal_strlit("3");
        reveal_strlit("4");
        reveal_strlit("5");
        reveal_strlit("6");
        reveal_strlit("7");
        reveal_strlit("8");
        reveal_strlit("9");
    }
    match value {
        0 => "0",
        1 => "1",
        2 => "2",
        3 => "3",
        4 => "4",
        5 => "5",
        6 => "6",
        7 => "7",
        8 => "8",
        _ => "9",
    }
}

/// A number in decimal, without leading zeros.
pub fn decimal_text(value: u64) -> (res: String)
    ensures
        res@ == decimal(value as nat),
    decreases value,
{
    if value < 10 {
        digit_text(value).to_owned()
    } else {
        let mut text = decimal_text(value / 10);
        text.append(digit_text(value % 10));
        text
    }
}

/// Texts in order, with a separator between neighbours.
pub open spec fn joined(parts: Seq<String>, separator: Seq<char>) -> Seq<char>
    decreases parts.len(),
{
    if parts.len() == 0 {
        Seq::empty()
    } else if parts.len() == 1 {
        parts[0]@
    } else {
        joined(parts.drop_last(), separator) + separator + parts.last()@
    }
}

/// Texts in order, with a separator between neighbours.
pub fn join(parts: &Vec<String>, separator: &str) -> (res: String)
    ensures
        res@ == joined(parts@, separator@),
{
    let mut text = String::new();
    let mut i: usize = 0;
    while i < parts.len()
        invariant
            i <= parts.len(),
            text@ == joined(parts@.take(i as int), separator@),
        decreases parts.len() - i,
    {
        assert(parts@.take(i + 1).drop_last() == parts@.take(i as int));
        if i > 0 {
            text.append(separator);
        }
        text.append(&parts[i]);
        i = i + 1;
    }
    assert(parts@.take(i as int) == parts@);
    text
}

fn hex_digit_text(value: u8) -> (res: &'static str)
    requires
        value < 16,
    ensures
        res@ == seq![outside::hex_digit(value as int)],
{
    proof {
        reveal_strlit("0");
        reveal_strlit("1");
        reveal_strlit("2");
        reveal_strlit("3");
        reveal_strlit("4");
        reveal_strlit("5");
        reveal_strlit("6");
        reveal_strlit("7");
        reveal_strlit("8");
        reveal_strlit("9");
        reveal_strlit("a");
        reveal_strlit("b");
        reveal_strlit("c");
        reveal_strlit("d");
        reveal_strlit("e");
        reveal_strlit("f");
    }
    match value {
        0 => "0",
        1 => "1",
        2 => "2",
        3 => "3",
        4 => "4",
        5 => "5",
        6 => "6",
        7 => "7",
        8 => "8",
        9 => "9",
        10 => "a",
        11 => "b",
        12 => "c",
        13 => "d",
        14 => "e",
        _ => "f",
    }
}

/// Bytes as lower-case hexadecimal digits, two for each.
pub open spec fn hex(bytes: Seq<u8>) -> Seq<char>
    decreases bytes.len(),
{
    if bytes.len() == 0 {
        Seq::empty()
    } else {
        hex(bytes.drop_last()) + seq![
            outside::hex_digit(bytes.last() as int / 16),
            outside::hex_digit(bytes.last() as int % 16),
        ]
    }
}

/// Bytes as lower-case hexadecimal digits, two for each.
pub fn hex_text(bytes: &Vec<u8>) -> (res: String)
    ensures
        res@ == hex(bytes@),
{
    let mut text = String::new();
    let mut i: usize = 0;
    while i < bytes.len()
        invariant
            i <= bytes.len(),
            text@ == hex(bytes@.take(i as int)),
        decreases bytes.len() - i,
    {
        assert(bytes@.take(i + 1).drop_last() == bytes@.take(i as int));
        text.append(hex_digit_text(bytes[i] / 16));
        text.append(hex_digit_text(bytes[i] % 16));
        assert(text@ == hex(bytes@.take(i + 1)));
        i = i + 1;
    }
    assert(bytes@.take(i as int) == bytes@);
    text
}

/// The code of a character, with the letters A to Z taken as a to z.
pub open spec fn folded(c: char) -> int {
    if 65 <= c as int <= 90 {
        c as int + 32
    } else {
        c as int
    }
}

/// Whether two texts are the same but for the case of the letters A to Z.
pub open spec fn same_but_case(one: Seq<char>, two: Seq<char>) -> bool {
    one.len() == two.len() && forall|i: int|
        0 <= i < one.len() ==> folded(#[trigger] one[i]) == folded(two[i])
}

fn fold(c: char) -> (res: u32)
    ensures
        res == folded(c),
{
    let code: u32 = c as u32;
    if 65 <= code && code <= 90 {
        code + 32
    } else {
        code
    }
}

/// Whether two texts are the same but for the case of the letters A to Z.
pub fn is_same_but_case(one: &str, two: &str) -> (res: bool)
    ensures
        res == same_but_case(one@, two@),
{
    let len: usize = two.unicode_len();
    let mut i: usize = 0;
    for c in iter: one.chars()
        invariant
            iter.seq() == one@,
            len == two@.len(),
            i == iter.index() <= len,
            forall|j: int| 0 <= j < i ==> folded(#[trigger] one@[j]) == folded(two@[j]),
    {
        if i >= len {
            return false;
        }
        if fold(c) != fold(two.get_char(i)) {
            assert(folded(one@[i as int]) != folded(two@[i as int]));
            return false;
        }
        i = i + 1;
    }
    i == len
}

/// One word: no control characters and no white space.
pub open spec fn plain_word(s: Seq<char>) -> bool {
    forall|i: int|
        0 <= i < s.len() ==> !outside::control_char(#[trigger] s[i]) && !outside::white_space(s[i])
}

/// Whether a text has no control characters and no white space.
pub fn is_plain_word(text: &str) -> (res: bool)
    ensures
        res == plain_word(text@),
{
    for c in iter: text.chars()
        invariant
            iter.seq() == text@,
            forall|j: int|
                0 <= j < iter.index() ==> !outside::control_char(#[trigger] text@[j])
                    && !outside::white_space(text@[j]),
    {
        if c.is_control() || c.is_whitespace() {
            assert(outside::control_char(text@[iter.index() as int]) || outside::white_space(
                text@[iter.index() as int],
            ));
            return false;
        }
    }
    true
}

} // verus!
