//! Prefix tests and hexadecimal numbers, as the messages and the chip names
//! need them.

use vstd::prelude::*;

verus! {

/// Whether `text` begins with `prefix`.
pub fn starts_with(text: &str, prefix: &str) -> (result: bool)
    ensures
        result == prefix@.is_prefix_of(text@),
{
    let length: usize = prefix.unicode_len();
    if text.unicode_len() < length {
        return false;
    }
    let mut i: usize = 0;
    while i < length
        invariant
            i <= length,
            length == prefix@.len(),
            length <= text@.len(),
            prefix@.take(i as int) =~= text@.take(i as int),
        decreases length - i,
    {
        if prefix.get_char(i) != text.get_char(i) {
            assert(prefix@[i as int] != text@.subrange(0, length as int)[i as int]);
            return false;
        }
        assert(prefix@.take(i + 1) =~= prefix@.take(i as int).push(prefix@[i as int]));
        assert(text@.take(i + 1) =~= text@.take(i as int).push(text@[i as int]));
        i = i + 1;
    }
    assert(prefix@.take(length as int) =~= prefix@);
    true
}

/// The lower-case hexadecimal digit of `value`.
pub open spec fn hex_digit(value: nat) -> char
    recommends
        value < 16,
{
    if value < 10 {
        (('0' as nat) + value) as char
    } else {
        (('a' as nat) + (value - 10)) as char
    }
}

/// The hexadecimal digits of `value`, with leading zeros up to `width` digits.
pub open spec fn hex_digits(value: nat, width: nat) -> Seq<char>
    decreases value + width,
{
    if value < 16 && width <= 1 {
        seq![hex_digit(value)]
    } else {
        hex_digits(value / 16, if width == 0 { 0 } else { (width - 1) as nat }).push(
            hex_digit(value % 16),
        )
    }
}

/// The digit of `value` as a string.
fn hex_digit_str(value: u32) -> (digit: &'static str)
    requires
        value < 16,
    ensures
        digit@ == seq![hex_digit(value as nat)],
{
    proof {
        reveal_strlit("0");
        reveal_strlit("1");
        reveal_strlit("2");
        reveal_strlit("3");
        reveal_strlit("4");
        reveal_strlit("5");
        reveal_strlit("6");
        reveal_strlit("7");
        reveal_strlit("8");
        reveal_strlit("9");
        reveal_strlit("a");
        reveal_strlit("b");
        reveal_strlit("c");
        reveal_strlit("d");
        reveal_strlit("e");
        reveal_strlit("f");
    }
    match value {
        0 => "0",
        1 => "1",
        2 => "2",
        3 => "3",
        4 => "4",
        5 => "5",
        6 => "6",
        7 => "7",
        8 => "8",
        9 => "9",
        10 => "a",
        11 => "b",
        12 => "c",
        13 => "d",
        14 => "e",
        _ => "f",
    }
}

/// Appends the hexadecimal digits of `value` to `text`, at least `width` of
/// them.
pub fn append_hex(text: &mut String, value: u32, width: u32)
    ensures
        final(text)@ == old(text)@ + hex_digits(value as nat, width as nat),
    decreases value + width,
{
    if value >= 16 || width > 1 {
        append_hex(text, value / 16, if width == 0 { 0 } else { width - 1 });
    }
    text.append(hex_digit_str(value % 16));
}

/// What a hexadecimal digit stands for.
pub open spec fn digit_value(digit: char) -> int {
    if '0' <= digit <= '9' {
        digit as int - '0' as int
    } else {
        digit as int - 'a' as int + 10
    }
}

/// The number that hexadecimal digits stand for, the last one worth least.
pub open spec fn number(digits: Seq<char>) -> int
    decreases digits.len(),
{
    if digits.len() == 0 {
        0
    } else {
        16 * number(digits.drop_last()) + digit_value(digits.last())
    }
}

/// The digits of a number are lower-case, and read back they give the number.
/// There are as many as asked for, or as it takes, in which case the first one
/// is no zero; and there is at least one.
pub proof fn law_digits_read_back(value: nat, width: nat)
    ensures
        number(hex_digits(value, width)) == value,
        forall|i: int|
            0 <= i < hex_digits(value, width).len() ==> '0' <= (#[trigger] hex_digits(
                value,
                width,
            )[i]) <= '9' || 'a' <= hex_digits(value, width)[i] <= 'f',
        hex_digits(value, width).len() >= 1,
        hex_digits(value, width).len() >= width,
        hex_digits(value, width).len() > 1 && hex_digits(value, width).len() > width
            ==> hex_digits(value, width)[0] != '0',
    decreases value + width,
{
    let digits = hex_digits(value, width);
    if value < 16 && width <= 1 {
        assert(digits.drop_last() =~= Seq::<char>::empty());
        assert(number(digits.drop_last()) == 0);
    } else {
        let narrower: nat = if width == 0 {
            0
        } else {
            (width - 1) as nat
        };
        law_digits_read_back(value / 16, narrower);
        let rest = hex_digits(value / 16, narrower);
        assert(digits =~= rest.push(hex_digit(value % 16)));
        assert(digits.drop_last() =~= rest);
        assert forall|i: int| 0 <= i < digits.len() implies '0' <= (#[trigger] digits[i]) <= '9'
            || 'a' <= digits[i] <= 'f' by {
            if i < rest.len() {
                assert(digits[i] == rest[i]);
            }
        }
        assert(digits[0] == rest[0]);
        if digits.len() > width && rest.len() == 1 {
            assert(rest.drop_last() =~= Seq::<char>::empty());
            assert(number(rest.drop_last()) == 0);
            assert(number(rest) == digit_value(rest[0]));
        }
    }
}

} // verus!
