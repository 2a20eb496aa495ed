//! The raw-mode terminal configuration. The terminal's line-discipline
//! settings are modelled as plain flag words and control bytes; the caller
//! that owns the real settings object converts to and from this model and
//! applies the result with the terminal API.

use vstd::prelude::*;

verus! {

/// A terminal's line-discipline settings: the four flag words and the two
/// control bytes the editor cares about (minimum bytes per read and the
/// read timeout in tenths of a second).
#[derive(Clone, Copy, Debug, PartialEq, Eq, Structural)]
pub struct TermSettings {
    pub input_flags: u64,
    pub output_flags: u64,
    pub control_flags: u64,
    pub local_flags: u64,
    pub min_bytes: u8,
    pub timeout_deciseconds: u8,
}

/// The platform's bit masks for the individual settings, as the terminal
/// API defines them.
#[derive(Clone, Copy, Debug, PartialEq, Eq, Structural)]
pub struct TermFlagBits {
    /// Input: break condition raises a signal.
    pub brkint: u64,
    /// Input: carriage return becomes newline.
    pub icrnl: u64,
    /// Input: parity checking.
    pub inpck: u64,
    /// Input: the eighth bit is stripped.
    pub istrip: u64,
    /// Input: software flow control.
    pub ixon: u64,
    /// Output: post-processing.
    pub opost: u64,
    /// Control: eight-bit character size.
    pub cs8: u64,
    /// Local: input is echoed.
    pub echo: u64,
    /// Local: canonical (line-buffered) mode.
    pub icanon: u64,
    /// Local: extended input processing.
    pub iexten: u64,
    /// Local: signal-generating control characters.
    pub isig: u64,
}

/// Computes the raw-mode settings from the original ones: break signals,
/// carriage-return translation, parity checking, eighth-bit stripping and
/// software flow control go off the input flags; all post-processing goes
/// off the output flags; the character size is forced to eight bits; echo,
/// canonical mode, extended processing and signal generation go off the
/// local flags. Reads return after at most one tenth of a second with
/// however many bytes arrived, possibly none, which lets the key decoder
/// tell a pause from a pending escape sequence.
pub fn raw_mode_settings(orig: &TermSettings, bits: &TermFlagBits) -> (r: TermSettings)
    ensures
        r.input_flags == orig.input_flags
            & !(bits.brkint | bits.icrnl | bits.inpck | bits.istrip | bits.ixon),
        r.output_flags == orig.output_flags & !bits.opost,
        r.control_flags == orig.control_flags | bits.cs8,
        r.local_flags == orig.local_flags
            & !(bits.echo | bits.icanon | bits.iexten | bits.isig),
        r.min_bytes == 0,
        r.timeout_deciseconds == 1,
{
    TermSettings {
        input_flags: orig.input_flags
            & !(bits.brkint | bits.icrnl | bits.inpck | bits.istrip | bits.ixon),
        output_flags: orig.output_flags & !bits.opost,
        control_flags: orig.control_flags | bits.cs8,
        local_flags: orig.local_flags
            & !(bits.echo | bits.icanon | bits.iexten | bits.isig),
        min_bytes: 0,
        timeout_deciseconds: 1,
    }
}

} // verus!
