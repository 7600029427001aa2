//! Hardware addresses as text: upper-case hexadecimal bytes joined by colons.

use vstd::prelude::*;
use crate::text::push_char;

verus! {

/// The upper-case hexadecimal digit for `n`, where `n` is below sixteen.
pub open spec fn hex_digit(n: int) -> char {
    if n < 10 {
        (48 + n) as u8 as char
    } else {
        (55 + n) as u8 as char
    }
}

/// One byte in upper-case hexadecimal without a leading zero: one digit
/// below sixteen, two from there on.
pub open spec fn hex_byte(byte: u8) -> Seq<char> {
    if byte < 16 {
        seq![hex_digit(byte as int)]
    } else {
        seq![hex_digit(byte as int / 16), hex_digit(byte as int % 16)]
    }
}

/// The bytes in hexadecimal, each two neighbours parted by a colon.
pub open spec fn hex_text(bytes: Seq<u8>) -> Seq<char>
    decreases bytes.len(),
{
    if bytes.len() == 0 {
        Seq::empty()
    } else if bytes.len() == 1 {
        hex_byte(bytes[0])
    } else {
        hex_text(bytes.drop_last()) + seq![':'] + hex_byte(bytes.last())
    }
}

/// The upper-case hexadecimal digit for `n`.
fn digit(n: u8) -> (c: char)
    requires
        n < 16,
    ensures
        c == hex_digit(n as int),
{
    if n < 10 {
        (48 + n) as char
    } else {
        (55 + n) as char
    }
}

/// Appends one byte in hexadecimal.
fn push_hex_byte(text: &mut String, byte: u8)
    ensures
        final(text)@ == old(text)@ + hex_byte(byte),
{
    if byte >= 16 {
        push_char(text, digit(byte / 16));
    }
    push_char(text, digit(byte % 16));
}

/// A borrowed byte string that renders as colon-separated hexadecimal.
pub struct HexSlice<'a>(pub &'a [u8]);

impl<'a> HexSlice<'a> {
    /// Wraps `data` without copying it.
    pub fn new(data: &'a [u8]) -> (hex: HexSlice<'a>)
        ensures
            hex.0@ == data@,
    {
        HexSlice(data)
    }

    /// The bytes as text, such as `DE:AD:0:1` for the bytes 222, 173, 0, 1.
    pub fn to_string(&self) -> (text: String)
        ensures
            text@ == hex_text(self.0@),
    {
        let mut text = String::new();
        let len: usize = self.0.len();
        let mut pos: usize = 0;
        while pos < len
            invariant
                len == self.0@.len(),
                0 <= pos <= len,
                text@ == hex_text(self.0@.take(pos as int)),
            decreases len - pos,
        {
            proof {
                let next = self.0@.take(pos + 1);
                assert(next.drop_last() == self.0@.take(pos as int));
                assert(next.last() == self.0@[pos as int]);
                assert(next[0] == self.0@[0]);
            }
            if pos != 0 {
                push_char(&mut text, ':');
            }
            push_hex_byte(&mut text, self.0[pos]);
            pos = pos + 1;
        }
        assert(self.0@.take(len as int) == self.0@);
        text
    }
}

} // verus!
