//! Numbers written out in decimal digits, padded with zeros to a width.

use vstd::prelude::*;
use vstd::string::StringExecFns;

verus! {

/// The character of a decimal digit, from `'0'` for 0 to `'9'` for 9.
pub open spec fn digit_char(digit: int) -> char {
    (digit + 48) as char
}

/// The decimal digits of `value`, the most significant first, with no
/// leading zero but for 0 itself.
pub open spec fn decimal(value: nat) -> Seq<char>
    decreases value,
{
    if value < 10 {
        seq![digit_char(value as int)]
    } else {
        decimal(value / 10).push(digit_char((value % 10) as int))
    }
}

/// `count` zeros.
pub open spec fn zeros(count: nat) -> Seq<char> {
    Seq::new(count, |i: int| '0')
}

/// The decimal digits of `value`, with as many zeros before them as it takes
/// to reach `width` characters; a longer number is not cut.
pub open spec fn zero_padded(value: nat, width: nat) -> Seq<char> {
    if decimal(value).len() < width {
        zeros((width - decimal(value).len()) as nat) + decimal(value)
    } else {
        decimal(value)
    }
}

/// The text of one decimal digit.
fn digit_text(digit: u32) -> (text: &'static str)
    requires
        digit < 10,
    ensures
        text@ == seq![digit_char(digit as int)],
{
    proof {
        reveal_strlit("0");
        reveal_strlit("1");
        reveal_strlit("2");
        reveal_strlit("3");
        reveal_strlit("4");
        reveal_strlit("5");
        reveal_strlit("6");
        reveal_strlit("7");
        reveal_strlit("8");
        reveal_strlit("9");
    }
    let text = match digit {
        0 => "0",
        1 => "1",
        2 => "2",
        3 => "3",
        4 => "4",
        5 => "5",
        6 => "6",
        7 => "7",
        8 => "8",
        _ => "9",
    };
    assert(text@ =~= seq![digit_char(digit as int)]);
    text
}

/// How many decimal digits `value` has.
fn decimal_length(value: u32) -> (length: u64)
    ensures
        length == decimal(value as nat).len(),
        1 <= length <= value + 1,
    decreases value,
{
    if value < 10 {
        1
    } else {
        decimal_length(value / 10) + 1
    }
}

/// Appends the decimal digits of `value` to `text`.
pub fn push_decimal(text: &mut String, value: u32)
    ensures
        final(text)@ == old(text)@ + decimal(value as nat),
    decreases value,
{
    if value >= 10 {
        push_decimal(text, value / 10);
    }
    text.append(digit_text(value % 10));
    assert(text@ =~= old(text)@ + decimal(value as nat));
}

/// Appends `value` to `text` in decimal, padded with zeros to `width`
/// characters.
pub fn push_zero_padded(text: &mut String, value: u32, width: u32)
    ensures
        final(text)@ == old(text)@ + zero_padded(value as nat, width as nat),
{
    let length: u64 = decimal_length(value);
    let mut written: u64 = length;
    while written < width as u64
        invariant
            length == decimal(value as nat).len(),
            length <= written,
            written <= width || written == length,
            text@ == old(text)@ + zeros((written - length) as nat),
        decreases width - written,
    {
        proof {
            reveal_strlit("0");
        }
        text.append("0");
        written = written + 1;
        assert(text@ =~= old(text)@ + zeros((written - length) as nat));
    }
    push_decimal(text, value);
    assert(text@ =~= old(text)@ + zero_padded(value as nat, width as nat));
}

} // verus!
