//! Comparing, converting and building text.
use vstd::prelude::*;
use vstd::string::*;

verus! {

/// What [`String::from_utf8_lossy`] makes of `bytes`.
pub uninterp spec fn lossy_text(bytes: Seq<u8>) -> Seq<char>;

/// Calls [`String::from_utf8_lossy`]. The result depends on the bytes alone, and bytes that are
/// valid UTF-8 give the text that they encode. Which replacement characters stand for invalid
/// bytes is not stated.
#[verifier::external_body]
pub(crate) fn text_from_bytes(bytes: &[u8]) -> (text: String)
    ensures
        text@ == lossy_text(bytes@),
        vstd::utf8::valid_utf8(bytes@) ==> text@ == vstd::utf8::decode_utf8(bytes@),
{
    String::from_utf8_lossy(bytes).into_owned()
}

/// What [`str::to_uppercase`] makes of `text`.
pub uninterp spec fn uppercase_text(text: Seq<char>) -> Seq<char>;

/// Calls [`str::to_uppercase`]. The result depends on the text alone, and in plain ASCII text
/// exactly the letters a to z change, each to its capital. The mapping of other characters is
/// that of Unicode and is not stated.
#[verifier::external_body]
pub(crate) fn uppercase(text: &str) -> (upper: String)
    ensures
        upper@ == uppercase_text(text@),
        vstd::utf8::is_ascii_chars(text@) ==> upper@ == ascii_uppercase(text@),
{
    text.to_uppercase()
}

/// What [`core::fmt::Debug`] prints of `text`.
pub uninterp spec fn quoted_text(text: Seq<char>) -> Seq<char>;

/// Prints a text by its [`core::fmt::Debug`]. The result depends on the text alone. It is the
/// text in quotation marks, with some characters escaped; which ones, and how, is not stated.
#[verifier::external_body]
pub(crate) fn quoted(text: &str) -> (quoted: String)
    ensures
        quoted@ == quoted_text(text@),
{
    format!("{text:?}")
}

/// The capital of an ASCII letter; any other character itself.
pub open spec fn ascii_upper(c: char) -> char {
    if 'a' <= c <= 'z' {
        (c as u32 - 32) as char
    } else {
        c
    }
}

/// The small form of an ASCII letter; any other character itself.
pub open spec fn ascii_lower(c: char) -> char {
    if 'A' <= c <= 'Z' {
        (c as u32 + 32) as char
    } else {
        c
    }
}

pub open spec fn ascii_uppercase(text: Seq<char>) -> Seq<char> {
    text.map_values(|c: char| ascii_upper(c))
}

pub open spec fn ascii_lowercase(text: Seq<char>) -> Seq<char> {
    text.map_values(|c: char| ascii_lower(c))
}

/// Whether two texts are the same.
pub fn same_text(left: &str, right: &str) -> (same: bool)
    ensures
        same == (left@ == right@),
{
    let a = left.as_bytes();
    let b = right.as_bytes();
    proof {
        vstd::utf8::encode_utf8_decode_utf8(left@);
        vstd::utf8::encode_utf8_decode_utf8(right@);
    }
    same_bytes(a, b)
}

/// Whether two byte strings are the same.
pub fn same_bytes(left: &[u8], right: &[u8]) -> (same: bool)
    ensures
        same == (left@ == right@),
{
    if left.len() != right.len() {
        return false;
    }
    let mut i: usize = 0;
    while i < left.len()
        invariant
            i <= left@.len(),
            left@.len() == right@.len(),
            forall|j: int| 0 <= j < i ==> left@[j] == right@[j],
        decreases left@.len() - i,
    {
        if left[i] != right[i] {
            return false;
        }
        i += 1;
    }
    assert(left@ =~= right@);
    true
}

/// Whether `text` reads as `lower` once its ASCII capitals are written small.
pub fn matches_ignoring_ascii_case(text: &str, lower: &str) -> (same: bool)
    ensures
        same == (ascii_lowercase(text@) == lower@),
{
    let len: usize = text.unicode_len();
    if len != lower.unicode_len() {
        return false;
    }
    let mut i: usize = 0;
    while i < len
        invariant
            i <= len,
            len == text@.len(),
            len == lower@.len(),
            forall|j: int| 0 <= j < i ==> ascii_lower(text@[j]) == lower@[j],
        decreases len - i,
    {
        let c = text.get_char(i);
        let small = if 'A' <= c && c <= 'Z' {
            (c as u8 + 32) as char
        } else {
            c
        };
        if small != lower.get_char(i) {
            assert(ascii_lowercase(text@)[i as int] != lower@[i as int]);
            return false;
        }
        i += 1;
    }
    assert(ascii_lowercase(text@) =~= lower@);
    true
}

/// The decimal digits of a number, without leading zeros.
pub open spec fn decimal(value: nat) -> Seq<char>
    decreases value,
{
    let digit = (48 + value % 10) as char;
    if value < 10 {
        seq![digit]
    } else {
        decimal(value / 10).push(digit)
    }
}

fn digit_text(digit: u8) -> (text: &'static str)
    requires
        digit < 10,
    ensures
        text@ == seq![(48 + digit) as char],
{
    proof {
        reveal_strlit("0");
        reveal_strlit("1");
        reveal_strlit("2");
        reveal_strlit("3");
        reveal_strlit("4");
        reveal_strlit("5");
        reveal_strlit("6");
        reveal_strlit("7");
        reveal_strlit("8");
        reveal_strlit("9");
    }
    let text = match digit {
        0 => "0",
        1 => "1",
        2 => "2",
        3 => "3",
        4 => "4",
        5 => "5",
        6 => "6",
        7 => "7",
        8 => "8",
        _ => "9",
    };
    assert(text@ =~= seq![(48 + digit) as char]);
    text
}

/// Writes a number in decimal digits.
pub fn decimal_text(value: usize) -> (text: String)
    ensures
        text@ == decimal(value as nat),
    decreases value,
{
    let digit = digit_text((value % 10) as u8);
    if value < 10 {
        digit.to_owned()
    } else {
        let mut text = decimal_text(value / 10);
        text.append(digit);
        assert(text@ =~= decimal((value / 10) as nat).push((48 + value % 10) as char));
        text
    }
}

/// `text` with every ampersand doubled.
pub open spec fn doubled_ampersands(text: Seq<char>) -> Seq<char>
    decreases text.len(),
{
    if text.len() == 0 {
        Seq::empty()
    } else {
        let before = doubled_ampersands(text.drop_last());
        if text.last() == '&' {
            before.push('&').push('&')
        } else {
            before.push(text.last())
        }
    }
}

/// Doubles every ampersand, so that a menu shows the text as it is.
pub fn double_ampersands(text: &str) -> (escaped: String)
    ensures
        escaped@ == doubled_ampersands(text@),
{
    let mut escaped = String::new();
    let len: usize = text.unicode_len();
    let mut i: usize = 0;
    proof {
        reveal_strlit("&&");
    }
    assert(text@.subrange(0, 0) =~= Seq::empty());
    while i < len
        invariant
            i <= len,
            len == text@.len(),
            "&&"@ =~= seq!['&', '&'],
            escaped@ == doubled_ampersands(text@.subrange(0, i as int)),
        decreases len - i,
    {
        let ghost before = escaped@;
        let c = text.get_char(i);
        if c == '&' {
            escaped.append("&&");
            assert(escaped@ =~= before.push('&').push('&'));
        } else {
            escaped.append(text.substring_char(i, i + 1));
            assert(escaped@ =~= before.push(c));
        }
        assert(text@.subrange(0, i + 1).drop_last() =~= text@.subrange(0, i as int));
        i += 1;
    }
    assert(text@.subrange(0, len as int) =~= text@);
    escaped
}

/// A value that switches diagnostic captures on.
pub open spec fn switches_captures_on(value: Seq<char>) -> bool {
    ascii_lowercase(value) == "1"@ || ascii_lowercase(value) == "true"@ || ascii_lowercase(value)
        == "yes"@
}

/// The values that switch diagnostic captures on, in any mix of ASCII capitals.
pub fn debug_capture_enabled(value: Option<&str>) -> (enabled: bool)
    ensures
        enabled == (value matches Some(text) && switches_captures_on(text@)),
{
    match value {
        None => false,
        Some(text) => matches_ignoring_ascii_case(text, "1") || matches_ignoring_ascii_case(
            text,
            "true",
        ) || matches_ignoring_ascii_case(text, "yes"),
    }
}

/// The number that some decimal digits stand for.
pub open spec fn decimal_value(digits: Seq<char>) -> int
    decreases digits.len(),
{
    if digits.len() == 0 {
        0
    } else {
        decimal_value(digits.drop_last()) * 10 + (digits.last() as int - '0' as int)
    }
}

/// The digits of a number stand for that number, are digits, and start with a zero only for zero.
pub proof fn decimal_digits_are_read_back(value: nat)
    ensures
        decimal_value(decimal(value)) == value,
        decimal(value).len() > 0,
        forall|i: int| 0 <= i < decimal(value).len() ==> '0' <= #[trigger] decimal(value)[i] <= '9',
        value > 0 ==> decimal(value)[0] != '0',
    decreases value,
{
    let digit = (48 + value % 10) as char;
    assert(digit as int == 48 + value % 10);
    if value < 10 {
        assert(decimal(value).drop_last() =~= Seq::empty());
        assert(decimal_value(Seq::<char>::empty()) == 0);
    } else {
        decimal_digits_are_read_back(value / 10);
        assert(decimal(value).drop_last() =~= decimal(value / 10));
        assert(decimal(value)[0] == decimal(value / 10)[0]);
    }
}

/// Doubling ampersands works character by character: an ampersand becomes two, and any other
/// character stays as it is.
pub proof fn ampersands_double_one_by_one(left: Seq<char>, right: Seq<char>, c: char)
    ensures
        doubled_ampersands(seq!['&']) == seq!['&', '&'],
        c != '&' ==> doubled_ampersands(seq![c]) == seq![c],
        doubled_ampersands(left + right) == doubled_ampersands(left) + doubled_ampersands(right),
    decreases right.len(),
{
    assert(doubled_ampersands(Seq::<char>::empty()) =~= Seq::empty());
    assert(seq!['&'].drop_last() =~= Seq::empty());
    assert(seq![c].drop_last() =~= Seq::empty());
    assert(doubled_ampersands(seq!['&']) =~= seq!['&', '&']);
    if c != '&' {
        assert(doubled_ampersands(seq![c]) =~= seq![c]);
    }
    if right.len() == 0 {
        assert(left + right =~= left);
        assert(doubled_ampersands(left) + doubled_ampersands(right) =~= doubled_ampersands(left));
    } else {
        ampersands_double_one_by_one(left, right.drop_last(), c);
        assert((left + right).drop_last() =~= left + right.drop_last());
        assert(doubled_ampersands(left + right) =~= doubled_ampersands(left)
            + doubled_ampersands(right));
    }
}

/// Exactly the ASCII letters have two forms, 32 apart, and each form leads to the other.
pub proof fn letters_have_two_forms(c: char)
    ensures
        'a' <= c <= 'z' ==> ascii_upper(c) as int == c as int - 32 && ascii_lower(ascii_upper(c))
            == c,
        'A' <= c <= 'Z' ==> ascii_lower(c) as int == c as int + 32 && ascii_upper(ascii_lower(c))
            == c,
        !('a' <= c <= 'z') ==> ascii_upper(c) == c,
        !('A' <= c <= 'Z') ==> ascii_lower(c) == c,
{
}

/// Captures are switched on by three values, written in any mix of capitals, and by no other.
pub proof fn three_values_switch_captures_on(value: Seq<char>, other: Seq<char>)
    ensures
        switches_captures_on("1"@),
        switches_captures_on("true"@),
        switches_captures_on("yes"@),
        ascii_lowercase(value) == ascii_lowercase(other) ==> switches_captures_on(value)
            == switches_captures_on(other),
        switches_captures_on(value) ==> ascii_lowercase(value) == "1"@ || ascii_lowercase(value)
            == "true"@ || ascii_lowercase(value) == "yes"@,
{
    reveal_strlit("1");
    reveal_strlit("true");
    reveal_strlit("yes");
    assert(ascii_lowercase("1"@) =~= "1"@);
    assert(ascii_lowercase("true"@) =~= "true"@);
    assert(ascii_lowercase("yes"@) =~= "yes"@);
}

} // verus!
