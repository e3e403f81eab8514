//! Building the texts that tell the user what went wrong.

use vstd::prelude::*;
use vstd::string::*;

verus! {

/// The upper-case hexadecimal digit for a value below sixteen.
pub open spec fn hex_digit(value: int) -> char {
    if value == 0 {
        '0'
    } else if value == 1 {
        '1'
    } else if value == 2 {
        '2'
    } else if value == 3 {
        '3'
    } else if value == 4 {
        '4'
    } else if value == 5 {
        '5'
    } else if value == 6 {
        '6'
    } else if value == 7 {
        '7'
    } else if value == 8 {
        '8'
    } else if value == 9 {
        '9'
    } else if value == 10 {
        'A'
    } else if value == 11 {
        'B'
    } else if value == 12 {
        'C'
    } else if value == 13 {
        'D'
    } else if value == 14 {
        'E'
    } else {
        'F'
    }
}

/// `code` as eight upper-case hexadecimal digits, the most significant first.
pub open spec fn spec_hex8(code: u32) -> Seq<char> {
    seq![
        hex_digit(code as int / 0x1000_0000 % 16),
        hex_digit(code as int / 0x100_0000 % 16),
        hex_digit(code as int / 0x10_0000 % 16),
        hex_digit(code as int / 0x1_0000 % 16),
        hex_digit(code as int / 0x1000 % 16),
        hex_digit(code as int / 0x100 % 16),
        hex_digit(code as int / 0x10 % 16),
        hex_digit(code as int % 16),
    ]
}

/// Whether `needle` occurs in `text` as one unbroken run.
pub open spec fn includes(text: Seq<char>, needle: Seq<char>) -> bool {
    exists|start: int|
        0 <= start && start + needle.len() <= text.len() && #[trigger] text.subrange(
            start,
            start + needle.len(),
        ) == needle
}

/// A text includes each of three parts it is joined from.
pub proof fn joined_includes_middle(before: Seq<char>, middle: Seq<char>, after: Seq<char>)
    ensures
        includes(before + middle + after, middle),
{
    let text = before + middle + after;
    let start = before.len() as int;
    assert(text.subrange(start, start + middle.len()) =~= middle);
}

fn digit_text(value: u32) -> (r: &'static str)
    requires
        value < 16,
    ensures
        r@ == seq![hex_digit(value as int)],
{
    proof {
        reveal_strlit("0");
        reveal_strlit("1");
        reveal_strlit("2");
        reveal_strlit("3");
        reveal_strlit("4");
        reveal_strlit("5");
        reveal_strlit("6");
        reveal_strlit("7");
        reveal_strlit("8");
        reveal_strlit("9");
        reveal_strlit("A");
        reveal_strlit("B");
        reveal_strlit("C");
        reveal_strlit("D");
        reveal_strlit("E");
        reveal_strlit("F");
    }
    let r = if value == 0 {
        "0"
    } else if value == 1 {
        "1"
    } else if value == 2 {
        "2"
    } else if value == 3 {
        "3"
    } else if value == 4 {
        "4"
    } else if value == 5 {
        "5"
    } else if value == 6 {
        "6"
    } else if value == 7 {
        "7"
    } else if value == 8 {
        "8"
    } else if value == 9 {
        "9"
    } else if value == 10 {
        "A"
    } else if value == 11 {
        "B"
    } else if value == 12 {
        "C"
    } else if value == 13 {
        "D"
    } else if value == 14 {
        "E"
    } else {
        "F"
    };
    assert(r@ =~= seq![hex_digit(value as int)]);
    r
}

/// Writes `code` as eight upper-case hexadecimal digits.
pub fn hex8(code: u32) -> (r: String)
    ensures
        r@ == spec_hex8(code),
{
    let mut text = String::new();
    text.append(digit_text(code / 0x1000_0000 % 16));
    text.append(digit_text(code / 0x100_0000 % 16));
    text.append(digit_text(code / 0x10_0000 % 16));
    text.append(digit_text(code / 0x1_0000 % 16));
    text.append(digit_text(code / 0x1000 % 16));
    text.append(digit_text(code / 0x100 % 16));
    text.append(digit_text(code / 0x10 % 16));
    text.append(digit_text(code % 16));
    assert(text@ =~= spec_hex8(code));
    text
}

} // verus!
