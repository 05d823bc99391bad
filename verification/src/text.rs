//! Numbers as text: hexadecimal and decimal digits, and padding.

use vstd::prelude::*;

verus! {

/// `String::push` appends the character to the end of the string.
pub assume_specification[ String::push ](text: &mut String, ch: char)
    ensures
        final(text)@ == old(text)@.push(ch),
;

/// `String::push_str` appends the string slice to the end of the string.
pub assume_specification[ String::push_str ](text: &mut String, string: &str)
    ensures
        final(text)@ == old(text)@ + string@,
;

/// The hexadecimal digit of a value below 16, in lower case.
pub open spec fn hex_digit(value: int) -> char {
    if value == 0 {
        '0'
    } else if value == 1 {
        '1'
    } else if value == 2 {
        '2'
    } else if value == 3 {
        '3'
    } else if value == 4 {
        '4'
    } else if value == 5 {
        '5'
    } else if value == 6 {
        '6'
    } else if value == 7 {
        '7'
    } else if value == 8 {
        '8'
    } else if value == 9 {
        '9'
    } else if value == 10 {
        'a'
    } else if value == 11 {
        'b'
    } else if value == 12 {
        'c'
    } else if value == 13 {
        'd'
    } else if value == 14 {
        'e'
    } else {
        'f'
    }
}

/// The two hexadecimal digits of a byte.
pub open spec fn hex_byte(byte: u8) -> Seq<char> {
    seq![hex_digit(byte as int / 16), hex_digit(byte as int % 16)]
}

/// The hexadecimal digits of a number, without leading zeros.
pub open spec fn hex_digits(value: nat) -> Seq<char>
    decreases value,
{
    if value < 16 {
        seq![hex_digit(value as int)]
    } else {
        hex_digits(value / 16).push(hex_digit(value as int % 16))
    }
}

/// The zeros that pad the hexadecimal digits of a number to four digits.
pub open spec fn hex_padding(value: nat) -> Seq<char> {
    if value < 0x10 {
        seq!['0', '0', '0']
    } else if value < 0x100 {
        seq!['0', '0']
    } else if value < 0x1000 {
        seq!['0']
    } else {
        Seq::empty()
    }
}

/// The hexadecimal digits of a number, padded with zeros to four digits at
/// least.
pub open spec fn hex_padded(value: nat) -> Seq<char> {
    hex_padding(value) + hex_digits(value)
}

/// The hexadecimal digit of a value below 16.
pub fn hex_digit_of(value: u8) -> (digit: char)
    requires
        value < 16,
    ensures
        digit == hex_digit(value as int),
{
    match value {
        0 => '0',
        1 => '1',
        2 => '2',
        3 => '3',
        4 => '4',
        5 => '5',
        6 => '6',
        7 => '7',
        8 => '8',
        9 => '9',
        10 => 'a',
        11 => 'b',
        12 => 'c',
        13 => 'd',
        14 => 'e',
        _ => 'f',
    }
}

/// Append the two hexadecimal digits of a byte.
pub fn push_hex_byte(text: &mut String, byte: u8)
    ensures
        final(text)@ == old(text)@ + hex_byte(byte),
{
    text.push(hex_digit_of(byte / 16));
    text.push(hex_digit_of(byte % 16));
    assert(text@ =~= old(text)@ + hex_byte(byte));
}

/// Append the hexadecimal digits of a number.
pub fn push_hex_digits(text: &mut String, value: usize)
    ensures
        final(text)@ == old(text)@ + hex_digits(value as nat),
    decreases value,
{
    if value >= 16 {
        push_hex_digits(text, value / 16);
    }
    text.push(hex_digit_of((value % 16) as u8));
    assert(text@ =~= old(text)@ + hex_digits(value as nat));
}

/// Append the hexadecimal digits of a number, padded with zeros to four
/// digits at least.
pub fn push_hex_padded(text: &mut String, value: usize)
    ensures
        final(text)@ == old(text)@ + hex_padded(value as nat),
{
    if value < 0x1000 {
        text.push('0');
    }
    if value < 0x100 {
        text.push('0');
    }
    if value < 0x10 {
        text.push('0');
    }
    let ghost padded = text@;
    assert(padded =~= old(text)@ + hex_padding(value as nat));
    push_hex_digits(text, value);
    assert(text@ =~= old(text)@ + hex_padded(value as nat));
}

/// The hexadecimal digit of a value below 16, in upper case.
pub open spec fn upper_hex_digit(value: int) -> char {
    if value == 10 {
        'A'
    } else if value == 11 {
        'B'
    } else if value == 12 {
        'C'
    } else if value == 13 {
        'D'
    } else if value == 14 {
        'E'
    } else if value == 15 {
        'F'
    } else {
        hex_digit(value)
    }
}

/// The two hexadecimal digits of a byte, in upper case.
pub open spec fn upper_hex_byte(byte: u8) -> Seq<char> {
    seq![upper_hex_digit(byte as int / 16), upper_hex_digit(byte as int % 16)]
}

/// The decimal digits of a number.
pub open spec fn decimal(value: nat) -> Seq<char>
    decreases value,
{
    if value < 10 {
        seq![hex_digit(value as int)]
    } else {
        decimal(value / 10).push(hex_digit(value as int % 10))
    }
}

/// As many spaces as `count`.
pub open spec fn spaces(count: int) -> Seq<char> {
    Seq::new(if count > 0 { count as nat } else { 0 }, |i: int| ' ')
}

/// A text padded with spaces on the right to `width` characters at least.
pub open spec fn padded(text: Seq<char>, width: int) -> Seq<char> {
    text + spaces(width - text.len())
}

/// The hexadecimal digit of a value below 16, in upper case.
pub fn upper_hex_digit_of(value: u8) -> (digit: char)
    requires
        value < 16,
    ensures
        digit == upper_hex_digit(value as int),
{
    match value {
        10 => 'A',
        11 => 'B',
        12 => 'C',
        13 => 'D',
        14 => 'E',
        15 => 'F',
        _ => hex_digit_of(value),
    }
}

/// Append the two hexadecimal digits of a byte, in upper case.
pub fn push_upper_hex_byte(text: &mut String, byte: u8)
    ensures
        final(text)@ == old(text)@ + upper_hex_byte(byte),
{
    text.push(upper_hex_digit_of(byte / 16));
    text.push(upper_hex_digit_of(byte % 16));
    assert(text@ =~= old(text)@ + upper_hex_byte(byte));
}

/// Append the decimal digits of a number.
pub fn push_decimal(text: &mut String, value: u8)
    ensures
        final(text)@ == old(text)@ + decimal(value as nat),
    decreases value,
{
    if value >= 10 {
        push_decimal(text, value / 10);
    }
    text.push(hex_digit_of(value % 10));
    assert(text@ =~= old(text)@ + decimal(value as nat));
}

/// Append a text, padded with spaces on the right to `width` characters at
/// least.
pub fn push_padded(text: &mut String, piece: &str, width: usize)
    ensures
        final(text)@ == old(text)@ + padded(piece@, width as int),
{
    let mut room: usize = width;
    for ch in iter: piece.chars()
        invariant
            iter.seq() == piece@,
            room == (if width >= iter.index() { width - iter.index() } else { 0 }),
            text@ == old(text)@ + piece@.take(iter.index() as int),
    {
        text.push(ch);
        if room > 0 {
            room = room - 1;
        }
        assert(text@ =~= old(text)@ + piece@.take(iter.index() + 1));
    }
    assert(piece@.take(piece@.len() as int) =~= piece@);
    let ghost whole = text@;
    let ghost padding = room as int;
    while room > 0
        invariant
            room <= padding,
            text@ == whole + spaces(padding - room),
        decreases room,
    {
        text.push(' ');
        room = room - 1;
        assert(text@ =~= whole + spaces(padding - room));
    }
    assert(text@ =~= old(text)@ + padded(piece@, width as int));
}

} // verus!
