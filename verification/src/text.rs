//! Rendering of numbers as text: decimal numerals, fixed-width hexadecimal,
//! and the hyphenated form of a 128-bit identifier.

use vstd::prelude::*;

verus! {

/// `String::push` of the standard library: the string afterwards is the
/// string before with the one character `c` added at its end.
pub assume_specification[ String::push ](s: &mut String, c: char)
    ensures
        final(s)@ == old(s)@.push(c),
;

/// The character that stands for a digit below sixteen, in lower case.
pub open spec fn hex_char(d: nat) -> char {
    if d == 0 {
        '0'
    } else if d == 1 {
        '1'
    } else if d == 2 {
        '2'
    } else if d == 3 {
        '3'
    } else if d == 4 {
        '4'
    } else if d == 5 {
        '5'
    } else if d == 6 {
        '6'
    } else if d == 7 {
        '7'
    } else if d == 8 {
        '8'
    } else if d == 9 {
        '9'
    } else if d == 10 {
        'a'
    } else if d == 11 {
        'b'
    } else if d == 12 {
        'c'
    } else if d == 13 {
        'd'
    } else if d == 14 {
        'e'
    } else {
        'f'
    }
}

/// The decimal numeral of `n`, without leading zeros.
pub open spec fn decimal_text(n: nat) -> Seq<char>
    decreases n,
{
    if n < 10 {
        seq![hex_char(n)]
    } else {
        decimal_text(n / 10).push(hex_char(n % 10))
    }
}

/// The lowest `width` hexadecimal digits of `v`, most significant first.
pub open spec fn hex_text(v: nat, width: nat) -> Seq<char>
    decreases width,
{
    if width == 0 {
        Seq::empty()
    } else {
        hex_text(v / 16, (width - 1) as nat).push(hex_char(v % 16))
    }
}

/// The hyphenated form of a 128-bit identifier: groups of 8, 4, 4, 4 and 12
/// hexadecimal digits, most significant first.
pub open spec fn uuid_text(v: nat) -> Seq<char> {
    hex_text(v / 0x1_0000_0000_0000_0000_0000_0000, 8).push('-')
        + hex_text(v / 0x1_0000_0000_0000_0000_0000, 4).push('-')
        + hex_text(v / 0x1_0000_0000_0000_0000, 4).push('-')
        + hex_text(v / 0x1_0000_0000_0000, 4).push('-')
        + hex_text(v, 12)
}

fn hex_digit(d: u8) -> (c: char)
    requires
        d < 16,
    ensures
        c == hex_char(d as nat),
{
    if d == 0 {
        '0'
    } else if d == 1 {
        '1'
    } else if d == 2 {
        '2'
    } else if d == 3 {
        '3'
    } else if d == 4 {
        '4'
    } else if d == 5 {
        '5'
    } else if d == 6 {
        '6'
    } else if d == 7 {
        '7'
    } else if d == 8 {
        '8'
    } else if d == 9 {
        '9'
    } else if d == 10 {
        'a'
    } else if d == 11 {
        'b'
    } else if d == 12 {
        'c'
    } else if d == 13 {
        'd'
    } else if d == 14 {
        'e'
    } else {
        'f'
    }
}

/// Renders `n` as a decimal numeral.
pub fn decimal(n: u64) -> (r: String)
    ensures
        r@ == decimal_text(n as nat),
    decreases n,
{
    if n < 10 {
        let mut s = String::new();
        s.push(hex_digit(n as u8));
        assert(s@ =~= seq![hex_char(n as nat)]);
        s
    } else {
        let mut s = decimal(n / 10);
        s.push(hex_digit((n % 10) as u8));
        s
    }
}

/// Renders the lowest `width` hexadecimal digits of `v`.
pub fn hex(v: u128, width: u8) -> (r: String)
    ensures
        r@ == hex_text(v as nat, width as nat),
    decreases width,
{
    if width == 0 {
        String::new()
    } else {
        let mut s = hex(v / 16, width - 1);
        s.push(hex_digit((v % 16) as u8));
        s
    }
}

/// Renders a 128-bit identifier in its hyphenated form.
pub fn uuid(v: u128) -> (r: String)
    ensures
        r@ == uuid_text(v as nat),
{
    let mut out = hex(v / 0x1_0000_0000_0000_0000_0000_0000, 8);
    out.push('-');
    let mut part = hex(v / 0x1_0000_0000_0000_0000_0000, 4);
    part.push('-');
    out.append(part.as_str());
    part = hex(v / 0x1_0000_0000_0000_0000, 4);
    part.push('-');
    out.append(part.as_str());
    part = hex(v / 0x1_0000_0000_0000, 4);
    part.push('-');
    out.append(part.as_str());
    part = hex(v, 12);
    out.append(part.as_str());
    out
}

} // verus!
