//! Text at the boundary: bytes that should be UTF-8 on the way in, UTF-16 on
//! the way out.

use std::borrow::Cow;
use vstd::prelude::*;
use vstd::utf8::decode_utf8;
use vstd::utf8::valid_utf8;

verus! {

/// The text that `bytes` are read as: their decoding where they are valid
/// UTF-8, and otherwise a repaired text in which U+FFFD stands for what
/// could not be decoded.
pub uninterp spec fn lossy_text(bytes: Seq<u8>) -> Seq<char>;

/// `String::from_utf8_lossy` of the standard library. Claimed, as documented:
/// valid UTF-8 is handed back borrowed and decoded as it is; anything else
/// comes back as an owned, repaired text, named by [`lossy_text`].
pub assume_specification<'a>[ String::from_utf8_lossy ](v: &'a [u8]) -> (text: Cow<'a, str>)
    ensures
        text@ == lossy_text(v@),
        text is Borrowed <==> valid_utf8(v@),
        valid_utf8(v@) ==> text@ == decode_utf8(v@),
;

/// `String::push` of the standard library. Claimed, as documented: the
/// character is appended to the end of the text.
pub assume_specification[ String::push ](text: &mut String, c: char)
    ensures
        final(text)@ == old(text)@.push(c),
;

/// The number of bytes that a character takes in UTF-8.
pub open spec fn utf8_width(c: char) -> nat {
    let code = c as u32;
    if code < 0x80 {
        1
    } else if code < 0x800 {
        2
    } else if code < 0x10000 {
        3
    } else {
        4
    }
}

/// The number of bytes that a character takes in UTF-8.
pub fn char_width(c: char) -> (width: usize)
    ensures
        width == utf8_width(c),
{
    let code: u32 = c as u32;
    if code < 0x80 {
        1
    } else if code < 0x800 {
        2
    } else if code < 0x10000 {
        3
    } else {
        4
    }
}

/// The UTF-16 code units of one character: itself below U+10000, a surrogate
/// pair from there on.
pub open spec fn utf16_units(c: char) -> Seq<u16> {
    let code = c as u32;
    if code < 0x10000 {
        seq![code as u16]
    } else {
        seq![
            (0xD800 + (code - 0x10000) / 0x400) as u16,
            (0xDC00 + (code - 0x10000) % 0x400) as u16,
        ]
    }
}

/// The UTF-16 encoding of a text.
pub open spec fn utf16_encoding(text: Seq<char>) -> Seq<u16>
    decreases text.len(),
{
    if text.len() == 0 {
        Seq::empty()
    } else {
        utf16_encoding(text.drop_last()) + utf16_units(text.last())
    }
}

/// A text as the native core reads it: UTF-16, closed by two zero units.
pub open spec fn wide_text(text: Seq<char>) -> Seq<u16> {
    utf16_encoding(text) + seq![0u16, 0u16]
}

/// Appends the UTF-16 code units of `c` to `units`.
fn push_utf16(units: &mut Vec<u16>, c: char)
    ensures
        final(units)@ == old(units)@ + utf16_units(c),
{
    let code: u32 = c as u32;
    if code < 0x10000 {
        units.push(code as u16);
    } else {
        let offset: u32 = code - 0x10000;
        units.push((0xD800 + offset / 0x400) as u16);
        units.push((0xDC00 + offset % 0x400) as u16);
    }
}

/// Encodes `text` as UTF-16.
pub fn encode_utf16(text: &str) -> (units: Vec<u16>)
    ensures
        units@ == utf16_encoding(text@),
{
    let mut units: Vec<u16> = Vec::new();
    for c in it: text.chars()
        invariant
            it.seq() == text@,
            units@ == utf16_encoding(text@.take(it.index() as int)),
    {
        proof {
            let read = text@.take(it.index() + 1);
            assert(read.drop_last() == text@.take(it.index() as int));
            assert(read.last() == c);
        }
        push_utf16(&mut units, c);
    }
    proof {
        assert(text@.take(text@.len() as int) == text@);
    }
    units
}

/// Encodes `text` as UTF-16 and closes it with two zero units.
pub fn encode_wide(text: &str) -> (units: Vec<u16>)
    ensures
        units@ == wide_text(text@),
{
    let mut units: Vec<u16> = encode_utf16(text);
    units.push(0);
    units.push(0);
    units
}

} // verus!
