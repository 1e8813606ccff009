//! Small operations on text.

use vstd::prelude::*;

verus! {

/// The text of an optional string.
pub open spec fn optional_text(text: Option<String>) -> Option<Seq<char>> {
    match text {
        Some(text) => Some(text@),
        None => None,
    }
}

/// The texts of several byte strings.
pub open spec fn byte_strings(strings: Seq<Vec<u8>>) -> Seq<Seq<u8>> {
    strings.map_values(|bytes: Vec<u8>| bytes@)
}

/// The decimal digit for `value`.
pub open spec fn digit(value: nat) -> char
    recommends
        value < 10,
{
    ('0' as u32 + value) as char
}

/// `value` written in decimal, without leading zeros.
pub open spec fn decimal(value: nat) -> Seq<char>
    decreases value,
{
    if value < 10 {
        seq![digit(value)]
    } else {
        decimal(value / 10).push(digit(value % 10))
    }
}

/// Numbers in decimal, with a comma and a space between them.
pub open spec fn comma_separated(bytes: Seq<u8>) -> Seq<char>
    decreases bytes.len(),
{
    if bytes.len() == 0 {
        Seq::empty()
    } else if bytes.len() == 1 {
        decimal(bytes[0] as nat)
    } else {
        comma_separated(bytes.drop_last()) + ", "@ + decimal(bytes.last() as nat)
    }
}

/// A list of bytes, as numbers in square brackets.
pub open spec fn byte_list_text(bytes: Seq<u8>) -> Seq<char> {
    "["@ + comma_separated(bytes) + "]"@
}

/// `host` without the square brackets of an IP literal, where it has both.
pub open spec fn unbracketed(host: Seq<char>) -> Seq<char> {
    if host.len() >= 2 && host.first() == '[' && host.last() == ']' {
        host.subrange(1, host.len() - 1)
    } else {
        host
    }
}

/// Copies an optional string.
pub(crate) fn copy_optional(text: &Option<String>) -> (copy: Option<String>)
    ensures
        optional_text(copy) == optional_text(*text),
{
    match text {
        Some(text) => Some(text.clone()),
        None => None,
    }
}

/// Whether two byte strings are equal.
pub(crate) fn same_bytes(a: &[u8], b: &[u8]) -> (same: bool)
    ensures
        same == (a@ == b@),
{
    if a.len() != b.len() {
        return false;
    }
    let mut i: usize = 0;
    while i < a.len()
        invariant
            a@.len() == b@.len(),
            i <= a@.len(),
            forall|k: int| 0 <= k < i ==> a@[k] == b@[k],
        decreases a@.len() - i,
    {
        if a[i] != b[i] {
            return false;
        }
        i = i + 1;
    }
    assert(a@ =~= b@);
    true
}

/// Whether two texts are equal.
pub(crate) fn same_text(a: &str, b: &str) -> (same: bool)
    ensures
        same == (a@ == b@),
{
    proof {
        vstd::utf8::encode_utf8_decode_utf8(a@);
        vstd::utf8::encode_utf8_decode_utf8(b@);
    }
    same_bytes(a.as_bytes(), b.as_bytes())
}

/// The text of one decimal digit.
fn digit_text(value: u8) -> (text: &'static str)
    requires
        value < 10,
    ensures
        text@ == seq![digit(value as nat)],
{
    proof {
        reveal_strlit("0");
        reveal_strlit("1");
        reveal_strlit("2");
        reveal_strlit("3");
        reveal_strlit("4");
        reveal_strlit("5");
        reveal_strlit("6");
        reveal_strlit("7");
        reveal_strlit("8");
        reveal_strlit("9");
    }
    let text: &'static str = if value == 0 {
        "0"
    } else if value == 1 {
        "1"
    } else if value == 2 {
        "2"
    } else if value == 3 {
        "3"
    } else if value == 4 {
        "4"
    } else if value == 5 {
        "5"
    } else if value == 6 {
        "6"
    } else if value == 7 {
        "7"
    } else if value == 8 {
        "8"
    } else {
        "9"
    };
    assert(text@ =~= seq![digit(value as nat)]);
    text
}

/// Writes `value` in decimal.
pub(crate) fn decimal_text(value: u128) -> (text: String)
    ensures
        text@ == decimal(value as nat),
    decreases value,
{
    if value < 10 {
        digit_text(value as u8).to_owned()
    } else {
        let mut text = decimal_text(value / 10);
        let last = digit_text((value % 10) as u8);
        text.append(last);
        assert(text@ =~= decimal(value as nat));
        text
    }
}

/// Writes a list of bytes as numbers in square brackets.
pub(crate) fn list_bytes(bytes: &[u8]) -> (text: String)
    ensures
        text@ == byte_list_text(bytes@),
{
    let mut text = "[".to_owned();
    let mut n: usize = 0;
    assert(bytes@.take(0) =~= Seq::<u8>::empty());
    assert(text@ =~= "["@ + comma_separated(bytes@.take(0)));
    while n < bytes.len()
        invariant
            n <= bytes@.len(),
            text@ == "["@ + comma_separated(bytes@.take(n as int)),
        decreases bytes@.len() - n,
    {
        let ghost next = bytes@.take(n + 1);
        assert(next.drop_last() =~= bytes@.take(n as int));
        assert(next.last() == bytes@[n as int]);
        if n > 0 {
            text.append(", ");
        }
        text.append(decimal_text(bytes[n] as u128).as_str());
        assert(text@ =~= "["@ + comma_separated(next));
        n = n + 1;
    }
    assert(bytes@.take(n as int) =~= bytes@);
    text.append("]");
    text
}

/// Drops the square brackets of an IP literal.
pub(crate) fn strip_brackets(host: &str) -> (bare: String)
    ensures
        bare@ == unbracketed(host@),
{
    let len = host.unicode_len();
    if len >= 2 && host.get_char(0) == '[' && host.get_char(len - 1) == ']' {
        host.substring_char(1, len - 1).to_owned()
    } else {
        host.to_owned()
    }
}

/// A number is written by its digits, the most significant one first and without
/// leading zeros: what is left of the last digit is the number without it.
pub proof fn numbers_are_written_by_their_digits(number: nat, last: nat)
    requires
        last < 10,
    ensures
        decimal(last).len() == 1,
        decimal(last)[0] as u32 == '0' as u32 + last,
        number > 0 ==> decimal(10 * number + last) == decimal(number) + decimal(last),
{
    if number > 0 {
        assert((10 * number + last) / 10 == number);
        assert((10 * number + last) % 10 == last);
        assert(decimal(10 * number + last) =~= decimal(number) + decimal(last));
    }
}

/// A list is written in square brackets, its numbers in order with a comma and a
/// space between two of them.
pub proof fn lists_are_written_in_brackets(bytes: Seq<u8>, next: u8)
    ensures
        byte_list_text(Seq::<u8>::empty()) == "["@ + "]"@,
        byte_list_text(seq![next]) == "["@ + decimal(next as nat) + "]"@,
        bytes.len() > 0 ==> byte_list_text(bytes.push(next)) == byte_list_text(bytes).drop_last()
            + ", "@ + decimal(next as nat) + "]"@,
{
    reveal_strlit("]");
    assert(comma_separated(Seq::<u8>::empty()) =~= Seq::<char>::empty());
    assert(byte_list_text(Seq::<u8>::empty()) =~= "["@ + "]"@);
    assert(bytes.push(next).drop_last() =~= bytes);
    assert(byte_list_text(bytes).drop_last() =~= "["@ + comma_separated(bytes));
    if bytes.len() > 0 {
        assert(byte_list_text(bytes.push(next)) =~= byte_list_text(bytes).drop_last() + ", "@
            + decimal(next as nat) + "]"@);
    }
}

} // verus!
