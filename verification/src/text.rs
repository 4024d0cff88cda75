//! Hexadecimal text of numbers.

use vstd::prelude::*;
use vstd::string::StringExecFns;

verus! {

/// The lowercase hexadecimal digit of a value below 16.
pub open spec fn hex_digit(n: int) -> char {
    if n == 0 { '0' } else if n == 1 { '1' } else if n == 2 { '2' } else if n == 3 { '3' }
    else if n == 4 { '4' } else if n == 5 { '5' } else if n == 6 { '6' } else if n == 7 { '7' }
    else if n == 8 { '8' } else if n == 9 { '9' } else if n == 10 { 'a' } else if n == 11 { 'b' }
    else if n == 12 { 'c' } else if n == 13 { 'd' } else if n == 14 { 'e' } else { 'f' }
}

/// The last `width` lowercase hexadecimal digits of `value`, most significant first.
pub open spec fn hex_digits(value: nat, width: nat) -> Seq<char>
    decreases width,
{
    if width == 0 {
        Seq::empty()
    } else {
        hex_digits(value / 16, (width - 1) as nat).push(hex_digit((value % 16) as int))
    }
}

/// The one-character text of a hexadecimal digit.
fn hex_digit_text(n: u32) -> (text: &'static str)
    requires
        n < 16,
    ensures
        text@ == seq![hex_digit(n as int)],
{
    proof {
        reveal_strlit("0");
        reveal_strlit("1");
        reveal_strlit("2");
        reveal_strlit("3");
        reveal_strlit("4");
        reveal_strlit("5");
        reveal_strlit("6");
        reveal_strlit("7");
        reveal_strlit("8");
        reveal_strlit("9");
        reveal_strlit("a");
        reveal_strlit("b");
        reveal_strlit("c");
        reveal_strlit("d");
        reveal_strlit("e");
        reveal_strlit("f");
    }
    match n {
        0 => "0",
        1 => "1",
        2 => "2",
        3 => "3",
        4 => "4",
        5 => "5",
        6 => "6",
        7 => "7",
        8 => "8",
        9 => "9",
        10 => "a",
        11 => "b",
        12 => "c",
        13 => "d",
        14 => "e",
        _ => "f",
    }
}

/// Appends the last `width` lowercase hexadecimal digits of `value` to `text`.
pub fn push_hex(text: &mut String, value: u32, width: usize)
    ensures
        final(text)@ == old(text)@ + hex_digits(value as nat, width as nat),
    decreases width,
{
    if width > 0 {
        push_hex(text, value / 16, width - 1);
        text.append(hex_digit_text(value % 16));
        assert(final(text)@ =~= old(text)@ + hex_digits(value as nat, width as nat));
    }
}

/// A new string holding the given literal.
pub fn text_of(literal: &str) -> (text: String)
    ensures
        text@ == literal@,
{
    String::from_str(literal)
}

} // verus!
