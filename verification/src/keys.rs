//! Key events, and how the bytes a terminal sends are decoded into them.

use vstd::prelude::*;

verus! {

/// The byte that starts an escape sequence.
pub const ESCAPE: u8 = 0x1b;

/// The byte the backspace key sends.
pub const BACKSPACE: u8 = 127;

/// The byte the enter key sends in raw mode.
pub const ENTER: u8 = 13;

/// The most bytes that are read after an escape byte.
pub const ESCAPE_TAIL: usize = 3;

/// A key that is no character.
#[derive(PartialEq, Eq, Structural, Clone, Copy, Debug)]
pub enum EscapeSeq {
    RightArrow,
    LeftArrow,
    UpArrow,
    DownArrow,
    PageUp,
    PageDown,
    Home,
    End,
    Delete,
    Escape,
}

/// One key event: a character as the terminal sent it, or a named key.
#[derive(PartialEq, Eq, Structural, Clone, Copy, Debug)]
pub enum Key {
    Char(u8),
    Special(EscapeSeq),
}

/// The byte at `i` of `tail`, or 0 where `tail` is too short: bytes that did
/// not arrive count as zero.
pub open spec fn byte_at(tail: Seq<u8>, i: int) -> u8 {
    if 0 <= i < tail.len() {
        tail[i]
    } else {
        0
    }
}

/// The key that a letter ends a `[` sequence with.
pub open spec fn csi_letter(b: u8) -> Option<EscapeSeq> {
    if b == 'A' as u8 {
        Some(EscapeSeq::UpArrow)
    } else if b == 'B' as u8 {
        Some(EscapeSeq::DownArrow)
    } else if b == 'C' as u8 {
        Some(EscapeSeq::RightArrow)
    } else if b == 'D' as u8 {
        Some(EscapeSeq::LeftArrow)
    } else if b == 'H' as u8 {
        Some(EscapeSeq::Home)
    } else if b == 'F' as u8 {
        Some(EscapeSeq::End)
    } else {
        None
    }
}

/// The key that a digit stands for in a `[`, digit, `~` sequence.
pub open spec fn csi_digit(b: u8) -> Option<EscapeSeq> {
    if b == '1' as u8 || b == '7' as u8 {
        Some(EscapeSeq::Home)
    } else if b == '3' as u8 {
        Some(EscapeSeq::Delete)
    } else if b == '4' as u8 || b == '8' as u8 {
        Some(EscapeSeq::End)
    } else if b == '5' as u8 {
        Some(EscapeSeq::PageUp)
    } else if b == '6' as u8 {
        Some(EscapeSeq::PageDown)
    } else {
        None
    }
}

/// The key that a letter ends an `O` sequence with.
pub open spec fn ss3_letter(b: u8) -> Option<EscapeSeq> {
    if b == 'H' as u8 {
        Some(EscapeSeq::Home)
    } else if b == 'F' as u8 {
        Some(EscapeSeq::End)
    } else {
        None
    }
}

/// The key that the bytes after an escape byte stand for. Whatever is not in
/// the three tables is a bare escape.
pub open spec fn decode_escape(tail: Seq<u8>) -> EscapeSeq {
    let intro = byte_at(tail, 0);
    let code = byte_at(tail, 1);
    if intro == '[' as u8 {
        if csi_letter(code) is Some {
            csi_letter(code)->0
        } else if byte_at(tail, 2) == '~' as u8 && csi_digit(code) is Some {
            csi_digit(code)->0
        } else {
            EscapeSeq::Escape
        }
    } else if intro == 'O' as u8 && ss3_letter(code) is Some {
        ss3_letter(code)->0
    } else {
        EscapeSeq::Escape
    }
}

/// The key for a first byte and the bytes read after it.
pub open spec fn decode_key(first: u8, tail: Seq<u8>) -> Key {
    if first == ESCAPE {
        Key::Special(decode_escape(tail))
    } else {
        Key::Char(first)
    }
}

/// The number of bytes of `input` that the key starting at `pos` takes: one,
/// or for an escape byte also the bytes after it, three at most.
pub open spec fn key_len(input: Seq<u8>, pos: int) -> int {
    if input[pos] == ESCAPE && input.len() - pos - 1 > ESCAPE_TAIL {
        1 + ESCAPE_TAIL
    } else if input[pos] == ESCAPE {
        input.len() - pos
    } else {
        1
    }
}

fn byte_or_zero(tail: &[u8], i: usize) -> (b: u8)
    ensures
        b == byte_at(tail@, i as int),
{
    if i < tail.len() {
        tail[i]
    } else {
        0
    }
}

impl Key {
    /// The key with its character masked to the lower five bits, as the
    /// control key does; a named key stays as it is.
    pub open spec fn masked(self) -> Key {
        match self {
            Key::Char(c) => Key::Char(c & 0x1f),
            Key::Special(_) => self,
        }
    }

    /// The key that the control key makes of this one.
    pub fn control(self) -> (key: Key)
        ensures
            key == self.masked(),
    {
        match self {
            Key::Char(c) => Key::Char(c & 0x1f),
            Key::Special(_) => self,
        }
    }

    /// Whether the bytes after `first` belong to the same key and have to be
    /// read before it can be decoded.
    pub fn starts_sequence(first: u8) -> (more: bool)
        ensures
            more == (first == ESCAPE),
    {
        first == ESCAPE
    }

    /// Decodes one key from its first byte and the bytes that were read after
    /// it. `tail` is looked at only after an escape byte, and only its first
    /// three bytes are.
    pub fn decode(first: u8, tail: &[u8]) -> (key: Key)
        ensures
            key == decode_key(first, tail@),
    {
        if first != ESCAPE {
            return Key::Char(first);
        }
        let intro = byte_or_zero(tail, 0);
        let code = byte_or_zero(tail, 1);
        let last = byte_or_zero(tail, 2);
        let seq = if intro == '[' as u8 {
            if code == 'A' as u8 {
                EscapeSeq::UpArrow
            } else if code == 'B' as u8 {
                EscapeSeq::DownArrow
            } else if code == 'C' as u8 {
                EscapeSeq::RightArrow
            } else if code == 'D' as u8 {
                EscapeSeq::LeftArrow
            } else if code == 'H' as u8 {
                EscapeSeq::Home
            } else if code == 'F' as u8 {
                EscapeSeq::End
            } else if last == '~' as u8 {
                if code == '1' as u8 || code == '7' as u8 {
                    EscapeSeq::Home
                } else if code == '3' as u8 {
                    EscapeSeq::Delete
                } else if code == '4' as u8 || code == '8' as u8 {
                    EscapeSeq::End
                } else if code == '5' as u8 {
                    EscapeSeq::PageUp
                } else if code == '6' as u8 {
                    EscapeSeq::PageDown
                } else {
                    EscapeSeq::Escape
                }
            } else {
                EscapeSeq::Escape
            }
        } else if intro == 'O' as u8 {
            if code == 'H' as u8 {
                EscapeSeq::Home
            } else if code == 'F' as u8 {
                EscapeSeq::End
            } else {
                EscapeSeq::Escape
            }
        } else {
            EscapeSeq::Escape
        };
        Key::Special(seq)
    }

    /// Decodes the key that starts at `pos` of `input`, and says where the
    /// next one starts. There is none at the end of the input.
    pub fn next(input: &[u8], pos: usize) -> (out: Option<(Key, usize)>)
        ensures
            pos >= input.len() ==> out is None,
            pos < input.len() ==> out == Some(
                (
                    decode_key(
                        input@[pos as int],
                        input@.subrange(pos + 1, pos + key_len(input@, pos as int)),
                    ),
                    (pos + key_len(input@, pos as int)) as usize,
                ),
            ),
    {
        if pos >= input.len() {
            return None;
        }
        let first = input[pos];
        if !Key::starts_sequence(first) {
            return Some((Key::Char(first), pos + 1));
        }
        let left: usize = input.len() - pos - 1;
        let take: usize = if left > ESCAPE_TAIL {
            ESCAPE_TAIL
        } else {
            left
        };
        let tail = vstd::slice::slice_subrange(input, pos + 1, pos + 1 + take);
        Some((Key::decode(first, tail), pos + 1 + take))
    }
}

} // verus!
