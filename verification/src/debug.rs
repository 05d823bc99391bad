//! Memory as text, for a look at it after a fault.

use vstd::prelude::*;
use crate::text::{hex_byte, hex_padded, push_hex_byte, push_hex_padded};

verus! {

/// The number of bytes in a line of a hex dump.
pub const DUMP_WIDTH: usize = 16;

/// The number of bytes in a line of a tile map.
pub const TILEMAP_WIDTH: usize = 32;

/// What stands before the byte of index `index` in a row of bytes: nothing
/// before the first, two spaces before every fourth, one space before any
/// other.
pub open spec fn delimiter(index: int) -> Seq<char> {
    if index == 0 {
        Seq::empty()
    } else if index % 4 == 0 {
        seq![' ', ' ']
    } else {
        seq![' ']
    }
}

/// The first `upto` bytes of a row of bytes in hexadecimal digits, in groups
/// of four: `de ad be ef  ca fe 20 18`.
pub open spec fn hex_row(bytes: Seq<u8>, upto: int) -> Seq<char>
    decreases upto,
{
    if upto <= 0 {
        Seq::empty()
    } else {
        hex_row(bytes, upto - 1) + delimiter(upto - 1) + hex_byte(bytes[upto - 1])
    }
}

/// The bytes of line `line` of a hex dump: sixteen, or fewer in the last.
pub open spec fn dump_chunk(data: Seq<u8>, line: int) -> Seq<u8> {
    data.subrange(
        line * 16,
        if line * 16 + 16 <= data.len() {
            line * 16 + 16
        } else {
            data.len() as int
        },
    )
}

/// Line `line` of a hex dump: the offset of its first byte in four digits, a
/// colon and a space, its bytes as a row, and a line break.
pub open spec fn dump_line(data: Seq<u8>, start_index: int, line: int) -> Seq<char> {
    hex_padded((line * 16 + start_index) as nat) + seq![':', ' '] + hex_row(
        dump_chunk(data, line),
        dump_chunk(data, line).len() as int,
    ) + seq!['\n']
}

/// The first `lines` lines of a hex dump.
pub open spec fn dump(data: Seq<u8>, start_index: int, lines: int) -> Seq<char>
    decreases lines,
{
    if lines <= 0 {
        Seq::empty()
    } else {
        dump(data, start_index, lines - 1) + dump_line(data, start_index, lines - 1)
    }
}

/// The number of lines of a hex dump of `length` bytes.
pub open spec fn dump_lines(length: int) -> int {
    (length + 15) / 16
}

/// The first `upto` bytes of a tile map as text: each byte in two digits and
/// a space, with a line break after every 32nd byte and after the last.
pub open spec fn tilemap_text(data: Seq<u8>, upto: int) -> Seq<char>
    decreases upto,
{
    if upto <= 0 {
        Seq::empty()
    } else {
        tilemap_text(data, upto - 1) + hex_byte(data[upto - 1]) + seq![' '] + (if upto % 32 == 0
            || upto == data.len() {
            seq!['\n']
        } else {
            Seq::empty()
        })
    }
}

/// `pretty_hex::simple_hex` writes the bytes on one line, each in two
/// hexadecimal digits of lower case, with a space between two bytes and two
/// spaces between two groups of four; for no bytes it writes nothing.
#[verifier::external_body]
fn simple_hex(bytes: &Vec<u8>) -> (text: String)
    ensures
        text@ == hex_row(bytes@, bytes@.len() as int),
{
    pretty_hex::simple_hex(bytes)
}

/// The bytes of `data` from `from` up to `to`.
fn chunk_of(data: &Vec<u8>, from: usize, to: usize) -> (chunk: Vec<u8>)
    requires
        from <= to <= data@.len(),
    ensures
        chunk@ == data@.subrange(from as int, to as int),
{
    let mut chunk: Vec<u8> = Vec::new();
    let mut index = from;
    while index < to
        invariant
            from <= index <= to <= data@.len(),
            chunk@ == data@.subrange(from as int, index as int),
        decreases to - index,
    {
        chunk.push(data[index]);
        assert(chunk@ =~= data@.subrange(from as int, index + 1));
        index = index + 1;
    }
    chunk
}

/// Dump bytes in lines of sixteen, each with the offset of its first byte,
/// counted from `start_index`.
pub fn format_hex(data: &Vec<u8>, start_index: u16) -> (text: String)
    requires
        data@.len() + 0x10000 <= usize::MAX,
    ensures
        text@ == dump(data@, start_index as int, dump_lines(data@.len() as int)),
{
    let mut text = String::new();
    let mut line: usize = 0;
    while line * DUMP_WIDTH < data.len()
        invariant
            data@.len() + 0x10000 <= usize::MAX,
            line * 16 < data@.len() + 16,
            line <= dump_lines(data@.len() as int),
            text@ == dump(data@, start_index as int, line as int),
        decreases data@.len() + 16 - line * 16,
    {
        let from = line * DUMP_WIDTH;
        let to = if from + DUMP_WIDTH <= data.len() { from + DUMP_WIDTH } else { data.len() };
        let chunk = chunk_of(data, from, to);
        let row = simple_hex(&chunk);
        let ghost before = text@;
        push_hex_padded(&mut text, from + start_index as usize);
        text.push(':');
        text.push(' ');
        text.push_str(row.as_str());
        text.push('\n');
        assert(text@ =~= before + dump_line(data@, start_index as int, line as int));
        line = line + 1;
    }
    text
}

/// Write a tile map as text: each byte in two hexadecimal digits and a
/// space, 32 bytes to a line.
pub fn format_tilemap(data: &[u8]) -> (text: String)
    ensures
        text@ == tilemap_text(data@, data@.len() as int),
{
    let mut text = String::new();
    let mut index: usize = 0;
    while index < data.len()
        invariant
            index <= data@.len(),
            text@ == tilemap_text(data@, index as int),
        decreases data@.len() - index,
    {
        let ghost before = text@;
        push_hex_byte(&mut text, data[index]);
        text.push(' ');
        index = index + 1;
        if index % TILEMAP_WIDTH == 0 || index == data.len() {
            text.push('\n');
        }
        assert(text@ =~= tilemap_text(data@, index as int));
    }
    text
}

} // verus!
