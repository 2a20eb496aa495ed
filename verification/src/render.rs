//! Rendering: serializes an `EditorState` into the exact byte sequence of
//! VT100 escape codes and row contents that repaints the terminal.
//!
//! The frame is a pure function of the state, stated byte for byte by
//! `frame_bytes`; the renderer builds one `Vec<u8>` per frame so that the
//! caller can write and flush it in a single pass.

use vstd::prelude::*;
use crate::state::EditorState;

verus! {

/// `ESC [ ? 2 5 l` — hide the cursor.
pub open spec fn hide_cursor_seq() -> Seq<u8> {
    seq![0x1b, 0x5b, 0x3f, 0x32, 0x35, 0x6c]
}

/// `ESC [ ? 2 5 h` — show the cursor.
pub open spec fn show_cursor_seq() -> Seq<u8> {
    seq![0x1b, 0x5b, 0x3f, 0x32, 0x35, 0x68]
}

/// `ESC [ H` — move the cursor to the top left corner.
pub open spec fn cursor_home_seq() -> Seq<u8> {
    seq![0x1b, 0x5b, 0x48]
}

/// `ESC [ K` — clear from the cursor to the end of the line.
pub open spec fn clear_line_seq() -> Seq<u8> {
    seq![0x1b, 0x5b, 0x4b]
}

/// `ESC [ 2 J` — clear the whole screen.
pub open spec fn clear_whole_screen_seq() -> Seq<u8> {
    seq![0x1b, 0x5b, 0x32, 0x4a]
}

/// Carriage return and line feed.
pub open spec fn crlf_seq() -> Seq<u8> {
    seq![0x0d, 0x0a]
}

/// The decimal digits of `n`, most significant first, as ASCII bytes.
pub open spec fn dec_digits(n: nat) -> Seq<u8>
    decreases n,
{
    if n < 10 {
        seq![(0x30 + n) as u8]
    } else {
        dec_digits(n / 10) + seq![(0x30 + n % 10) as u8]
    }
}

/// `ESC [ row ; col H` — move the cursor to a one-based position.
pub open spec fn cursor_position_seq(row: nat, col: nat) -> Seq<u8> {
    seq![0x1bu8, 0x5bu8] + dec_digits(row) + seq![0x3bu8] + dec_digits(col) + seq![0x48u8]
}

/// `n` space bytes.
pub open spec fn spaces(n: nat) -> Seq<u8> {
    Seq::new(n, |i: int| 0x20u8)
}

/// The banner shown on an empty buffer: the editor's name and version.
pub open spec fn banner_text() -> Seq<u8> {
    seq![
        0x6b, 0x69, 0x6c, 0x6f, 0x20, 0x65, 0x64, 0x69, 0x74, 0x6f, 0x72, 0x20,
        0x2d, 0x2d, 0x20, 0x76, 0x65, 0x72, 0x73, 0x69, 0x6f, 0x6e, 0x20, 0x30,
        0x2e, 0x31, 0x2e, 0x30,
    ]
}

/// The banner row: the banner text, truncated to the viewport width and
/// centered by left padding; the padding opens with a `~` when there is any.
pub open spec fn banner_line(width: nat) -> Seq<u8> {
    let text = banner_text();
    let w = if text.len() <= width { text.len() } else { width };
    let pad = ((width - w) / 2) as nat;
    if pad > 0 {
        seq![0x7eu8] + spaces((pad - 1) as nat) + text.take(w as int)
    } else {
        text.take(w as int)
    }
}

/// The visible content of viewport row `y`: the buffer row truncated to the
/// viewport width where the buffer reaches `y`, else the banner on the row a
/// third of the way down, else a bare `~`.
pub open spec fn row_content(s: EditorState, y: int) -> Seq<u8> {
    if y >= s.row_count {
        if y == s.viewport_height / 3 {
            banner_line(s.viewport_width as nat)
        } else {
            seq![0x7eu8]
        }
    } else {
        let len = if s.row.size <= s.viewport_width { s.row.size as int } else { s.viewport_width as int };
        s.row.chars@.take(len)
    }
}

/// Viewport row `y` as emitted: its content, clear-to-end-of-line, and a
/// CRLF between rows (none after the last row).
pub open spec fn row_line(s: EditorState, y: int) -> Seq<u8> {
    row_content(s, y) + clear_line_seq()
        + if y != s.viewport_height - 1 { crlf_seq() } else { Seq::<u8>::empty() }
}

/// The first `n` viewport rows as emitted, in order.
pub open spec fn rows_upto(s: EditorState, n: nat) -> Seq<u8>
    decreases n,
{
    if n == 0 {
        Seq::<u8>::empty()
    } else {
        rows_upto(s, (n - 1) as nat) + row_line(s, n - 1)
    }
}

/// A whole frame: hide the cursor, home, every viewport row, the one-based
/// cursor position, show the cursor.
pub open spec fn frame_bytes(s: EditorState) -> Seq<u8> {
    hide_cursor_seq() + cursor_home_seq() + rows_upto(s, s.viewport_height as nat)
        + cursor_position_seq((s.cursor_y + 1) as nat, (s.cursor_x + 1) as nat)
        + show_cursor_seq()
}

/// The final screen wipe on quit: clear the whole screen, then home.
pub open spec fn clear_screen_seq() -> Seq<u8> {
    clear_whole_screen_seq() + cursor_home_seq()
}

/// Rendering reads the state alone: equal states render to byte-identical
/// frames, so repainting an unchanged state repeats the exact same bytes.
pub proof fn lemma_render_deterministic(a: EditorState, b: EditorState)
    requires
        a == b,
    ensures
        frame_bytes(a) == frame_bytes(b),
{
}

fn push_hide_cursor(out: &mut Vec<u8>)
    ensures
        final(out)@ == old(out)@ + hide_cursor_seq(),
{
    out.push(0x1b);
    out.push(0x5b);
    out.push(0x3f);
    out.push(0x32);
    out.push(0x35);
    out.push(0x6c);
    proof {
        assert(final(out)@ =~= old(out)@ + hide_cursor_seq());
    }
}

fn push_show_cursor(out: &mut Vec<u8>)
    ensures
        final(out)@ == old(out)@ + show_cursor_seq(),
{
    out.push(0x1b);
    out.push(0x5b);
    out.push(0x3f);
    out.push(0x32);
    out.push(0x35);
    out.push(0x68);
    proof {
        assert(final(out)@ =~= old(out)@ + show_cursor_seq());
    }
}

fn push_cursor_home(out: &mut Vec<u8>)
    ensures
        final(out)@ == old(out)@ + cursor_home_seq(),
{
    out.push(0x1b);
    out.push(0x5b);
    out.push(0x48);
    proof {
        assert(final(out)@ =~= old(out)@ + cursor_home_seq());
    }
}

fn push_clear_line(out: &mut Vec<u8>)
    ensures
        final(out)@ == old(out)@ + clear_line_seq(),
{
    out.push(0x1b);
    out.push(0x5b);
    out.push(0x4b);
    proof {
        assert(final(out)@ =~= old(out)@ + clear_line_seq());
    }
}

fn push_crlf(out: &mut Vec<u8>)
    ensures
        final(out)@ == old(out)@ + crlf_seq(),
{
    out.push(0x0d);
    out.push(0x0a);
    proof {
        assert(final(out)@ =~= old(out)@ + crlf_seq());
    }
}

/// Appends the decimal digits of `n`.
pub(crate) fn push_decimal(out: &mut Vec<u8>, n: usize)
    ensures
        final(out)@ == old(out)@ + dec_digits(n as nat),
    decreases n,
{
    if n < 10 {
        out.push(0x30 + n as u8);
        proof {
            assert(final(out)@ =~= old(out)@ + dec_digits(n as nat));
        }
    } else {
        push_decimal(out, n / 10);
        out.push(0x30 + (n % 10) as u8);
        proof {
            assert(final(out)@ =~= old(out)@ + dec_digits(n as nat));
        }
    }
}

/// Appends `n` spaces.
fn push_spaces(out: &mut Vec<u8>, n: usize)
    ensures
        final(out)@ == old(out)@ + spaces(n as nat),
{
    let mut i: usize = 0;
    while i < n
        invariant
            i <= n,
            out@ == old(out)@ + spaces(i as nat),
        decreases n - i,
    {
        out.push(0x20);
        proof {
            assert(out@ =~= old(out)@ + spaces((i + 1) as nat));
        }
        i = i + 1;
    }
    proof {
        assert(out@ =~= old(out)@ + spaces(n as nat));
    }
}

/// Appends the first `len` bytes of `src`.
fn push_prefix(out: &mut Vec<u8>, src: &Vec<u8>, len: usize)
    requires
        len <= src@.len(),
    ensures
        final(out)@ == old(out)@ + src@.take(len as int),
{
    let mut i: usize = 0;
    while i < len
        invariant
            i <= len,
            len <= src@.len(),
            out@ == old(out)@ + src@.take(i as int),
        decreases len - i,
    {
        let b: u8 = src[i];
        out.push(b);
        proof {
            assert(out@ =~= old(out)@ + src@.take((i + 1) as int));
        }
        i = i + 1;
    }
}

/// Appends `ESC [ row ; col H`.
fn push_cursor_position(out: &mut Vec<u8>, row: usize, col: usize)
    ensures
        final(out)@ == old(out)@ + cursor_position_seq(row as nat, col as nat),
{
    out.push(0x1b);
    out.push(0x5b);
    push_decimal(out, row);
    out.push(0x3b);
    push_decimal(out, col);
    out.push(0x48);
    proof {
        assert(final(out)@ =~= old(out)@ + cursor_position_seq(row as nat, col as nat));
    }
}

/// The banner text as bytes.
fn banner() -> (r: Vec<u8>)
    ensures
        r@ == banner_text(),
{
    let r: Vec<u8> = vec![
        0x6b, 0x69, 0x6c, 0x6f, 0x20, 0x65, 0x64, 0x69, 0x74, 0x6f, 0x72, 0x20,
        0x2d, 0x2d, 0x20, 0x76, 0x65, 0x72, 0x73, 0x69, 0x6f, 0x6e, 0x20, 0x30,
        0x2e, 0x31, 0x2e, 0x30,
    ];
    proof {
        assert(r@ =~= banner_text());
    }
    r
}

/// Serializes one whole frame for the given state, byte for byte as
/// `frame_bytes` states it.
pub fn render_frame(s: &EditorState) -> (r: Vec<u8>)
    requires
        s.wf(),
    ensures
        r@ == frame_bytes(*s),
{
    let mut out: Vec<u8> = Vec::new();
    push_hide_cursor(&mut out);
    push_cursor_home(&mut out);
    proof {
        assert(out@ =~= hide_cursor_seq() + cursor_home_seq() + rows_upto(*s, 0));
    }
    let mut y: usize = 0;
    while y < s.viewport_height
        invariant
            s.wf(),
            y <= s.viewport_height,
            out@ == hide_cursor_seq() + cursor_home_seq() + rows_upto(*s, y as nat),
        decreases s.viewport_height - y,
    {
        let ghost row_start: Seq<u8> = out@;
        if y >= s.row_count {
            if y == s.viewport_height / 3 {
                let text: Vec<u8> = banner();
                let w: usize = if text.len() <= s.viewport_width {
                    text.len()
                } else {
                    s.viewport_width
                };
                let pad: usize = (s.viewport_width - w) / 2;
                if pad > 0 {
                    out.push(0x7e);
                    push_spaces(&mut out, pad - 1);
                }
                push_prefix(&mut out, &text, w);
                proof {
                    assert(out@ =~= row_start + row_content(*s, y as int));
                }
            } else {
                out.push(0x7e);
                proof {
                    assert(out@ =~= row_start + row_content(*s, y as int));
                }
            }
        } else {
            let len: usize = if s.row.size <= s.viewport_width {
                s.row.size
            } else {
                s.viewport_width
            };
            push_prefix(&mut out, &s.row.chars, len);
            proof {
                assert(out@ =~= row_start + row_content(*s, y as int));
            }
        }
        push_clear_line(&mut out);
        if y != s.viewport_height - 1 {
            push_crlf(&mut out);
        }
        proof {
            assert(out@ =~= row_start + row_line(*s, y as int));
            assert(out@ =~= hide_cursor_seq() + cursor_home_seq() + rows_upto(*s, (y + 1) as nat));
        }
        y = y + 1;
    }
    push_cursor_position(&mut out, s.cursor_y + 1, s.cursor_x + 1);
    push_show_cursor(&mut out);
    proof {
        assert(out@ =~= frame_bytes(*s));
    }
    out
}

/// The bytes of the final screen wipe on quit.
pub fn clear_screen_bytes() -> (r: Vec<u8>)
    ensures
        r@ == clear_screen_seq(),
{
    let mut out: Vec<u8> = Vec::new();
    out.push(0x1b);
    out.push(0x5b);
    out.push(0x32);
    out.push(0x4a);
    push_cursor_home(&mut out);
    proof {
        assert(out@ =~= clear_screen_seq());
    }
    out
}

} // verus!
