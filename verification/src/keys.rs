//! Key events and the decoding of raw input bytes into them.
//!
//! The terminal delivers a key press as one byte, or as a multi-byte escape
//! sequence beginning with ESC (`0x1b`). The decoder looks at a fixed
//! four-byte lookahead buffer; slots that no byte reached before the read
//! timeout hold zero.

use vstd::prelude::*;

verus! {

/// A decoded key event. `Char` carries an ordinary byte, `Ctrl` a byte whose
/// control-masked form was read.
#[derive(Clone, Copy, Debug, PartialEq, Eq, Structural)]
pub enum Key {
    Up,
    Down,
    Right,
    Left,
    PageUp,
    PageDown,
    Home,
    End,
    Delete,
    Char(u8),
    Ctrl(u8),
}

/// An escape sequence with no recognized mapping. The input processor treats
/// it as a no-op rather than aborting: a terminal may legitimately send
/// sequences outside the handled set.
#[derive(Clone, Copy, Debug, PartialEq, Eq, Structural)]
pub enum DecodeError {
    UnrecognizedSequence,
}

/// The control-key form of a byte: all but the five low bits cleared.
pub open spec fn spec_ctrl_key(c: u8) -> u8 {
    c & 0x1f
}

/// Maps a byte to the byte the terminal sends when the same key is pressed
/// together with the control key.
pub fn ctrl_key(c: u8) -> (r: u8)
    ensures
        r == spec_ctrl_key(c),
{
    c & 0x1f
}

/// Whether a character is an ASCII control character: its code is below the
/// ASCII range's printable region (`0x20`) or is DEL (`0x7f`). A character
/// outside the ASCII range is not a control character.
pub open spec fn spec_is_ctrl(c: char) -> bool {
    ((c as u32) <= 0x7f) && (((c as u32) < 0x20) || ((c as u32) == 0x7f))
}

/// Relies on `ascii::AsciiChar::from_ascii` on a `u8`, which returns `Ok`
/// exactly for bytes below `0x80`, and on `ascii::AsciiChar::is_ascii_control`,
/// which is true exactly for bytes below `0x20` and for `0x7f`.
#[verifier::external_body]
fn ascii_byte_is_control(b: u8) -> (r: bool)
    requires
        b <= 0x7f,
    ensures
        r == (b < 0x20 || b == 0x7f),
{
    match ascii::AsciiChar::from_ascii(b) {
        Ok(ch) => ch.is_ascii_control(),
        Err(_) => false,
    }
}

/// Whether a character is an ASCII control character.
pub fn is_ctrl(c: char) -> (r: bool)
    ensures
        r == spec_is_ctrl(c),
{
    let code: u32 = c as u32;
    if code <= 0x7f {
        ascii_byte_is_control(code as u8)
    } else {
        false
    }
}

/// What a four-byte lookahead buffer decodes to, or `None` for an escape
/// sequence with no recognized mapping.
///
/// An ESC leader introduces a sequence: `ESC [` followed by a final `~`
/// selects by the digit before the `~`; `ESC [` followed by a letter selects
/// by that letter; `ESC O` selects Home or End. Without an ESC leader, the
/// control-masked `q` and the vi motion letters `h j k l` map to their keys,
/// and every other byte is an ordinary character.
pub open spec fn spec_decode(b0: u8, b1: u8, b2: u8, b3: u8) -> Option<Key> {
    if b0 == 0x1b {
        if b1 == 0x5b {
            if b3 == 0x7e {
                match b2 {
                    0x31 => Some(Key::Home),
                    0x33 => Some(Key::Delete),
                    0x34 => Some(Key::End),
                    0x35 => Some(Key::PageUp),
                    0x36 => Some(Key::PageDown),
                    0x37 => Some(Key::Home),
                    0x38 => Some(Key::End),
                    _ => None,
                }
            } else {
                match b2 {
                    0x41 => Some(Key::Up),
                    0x42 => Some(Key::Down),
                    0x43 => Some(Key::Right),
                    0x44 => Some(Key::Left),
                    0x48 => Some(Key::Home),
                    0x46 => Some(Key::End),
                    _ => None,
                }
            }
        } else if b1 == 0x4f {
            match b2 {
                0x48 => Some(Key::Home),
                0x46 => Some(Key::End),
                _ => None,
            }
        } else {
            None
        }
    } else if b0 == spec_ctrl_key(0x71) {
        Some(Key::Ctrl(0x71))
    } else if b0 == 0x6b {
        Some(Key::Up)
    } else if b0 == 0x6a {
        Some(Key::Down)
    } else if b0 == 0x6c {
        Some(Key::Right)
    } else if b0 == 0x68 {
        Some(Key::Left)
    } else {
        Some(Key::Char(b0))
    }
}

/// Decodes a four-byte lookahead buffer into a key event, or reports an
/// unrecognized escape sequence.
pub fn decode_key(seq: &[u8; 4]) -> (r: Result<Key, DecodeError>)
    ensures
        match spec_decode(seq@[0], seq@[1], seq@[2], seq@[3]) {
            Some(k) => r == Ok::<Key, DecodeError>(k),
            None => r == Err::<Key, DecodeError>(DecodeError::UnrecognizedSequence),
        },
{
    let b0: u8 = seq[0];
    let b1: u8 = seq[1];
    let b2: u8 = seq[2];
    let b3: u8 = seq[3];
    if b0 == 0x1b {
        if b1 == 0x5b {
            if b3 == 0x7e {
                match b2 {
                    0x31 => Ok(Key::Home),
                    0x33 => Ok(Key::Delete),
                    0x34 => Ok(Key::End),
                    0x35 => Ok(Key::PageUp),
                    0x36 => Ok(Key::PageDown),
                    0x37 => Ok(Key::Home),
                    0x38 => Ok(Key::End),
                    _ => Err(DecodeError::UnrecognizedSequence),
                }
            } else {
                match b2 {
                    0x41 => Ok(Key::Up),
                    0x42 => Ok(Key::Down),
                    0x43 => Ok(Key::Right),
                    0x44 => Ok(Key::Left),
                    0x48 => Ok(Key::Home),
                    0x46 => Ok(Key::End),
                    _ => Err(DecodeError::UnrecognizedSequence),
                }
            }
        } else if b1 == 0x4f {
            match b2 {
                0x48 => Ok(Key::Home),
                0x46 => Ok(Key::End),
                _ => Err(DecodeError::UnrecognizedSequence),
            }
        } else {
            Err(DecodeError::UnrecognizedSequence)
        }
    } else if b0 == ctrl_key(0x71) {
        Ok(Key::Ctrl(0x71))
    } else if b0 == 0x6b {
        Ok(Key::Up)
    } else if b0 == 0x6a {
        Ok(Key::Down)
    } else if b0 == 0x6c {
        Ok(Key::Right)
    } else if b0 == 0x68 {
        Ok(Key::Left)
    } else {
        Ok(Key::Char(b0))
    }
}

} // verus!
