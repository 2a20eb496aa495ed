//! Core of a minimal terminal text editor: decoding raw input bytes into key
//! events, a cursor/viewport state machine, frame rendering as byte
//! sequences, parsing of the terminal's cursor-position report, and the
//! computation of the raw-mode terminal settings.
//!
//! All terminal I/O (reading bytes, writing frames, the termios calls) lives
//! outside this library; the library works on plain byte sequences and
//! integers and states exactly what each function computes.

pub mod keys;
pub mod state;
pub mod render;
pub mod probe;
pub mod rawmode;
