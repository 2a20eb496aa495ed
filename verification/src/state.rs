//! The editor's state: cursor position, viewport bounds and the single-line
//! content buffer, together with the transition relation that decoded key
//! events induce on it.

use vstd::prelude::*;
use crate::keys::{Key, DecodeError, spec_decode, decode_key};

verus! {

/// The one content row: a byte sequence and its recorded length.
#[derive(Debug, Clone)]
pub struct Row {
    pub size: usize,
    pub chars: Vec<u8>,
}

/// Cursor position, viewport bounds and the content buffer. The cursor is
/// zero-based; `cursor_x` may rest one column past the right viewport edge,
/// `cursor_y` stays strictly inside the height.
#[derive(Debug, Clone)]
pub struct EditorState {
    pub cursor_x: usize,
    pub cursor_y: usize,
    pub viewport_height: usize,
    pub viewport_width: usize,
    pub row_count: usize,
    pub row: Row,
}

impl EditorState {
    /// The state's invariant: positive viewport bounds, the cursor inside
    /// them, at most one content row, and the row's recorded size true to
    /// its bytes. The width stays below `usize::MAX` so that the renderer's
    /// one-based column number fits in a `usize`.
    pub open spec fn wf(self) -> bool {
        &&& 0 < self.viewport_height
        &&& 0 < self.viewport_width < usize::MAX
        &&& self.cursor_x <= self.viewport_width
        &&& self.cursor_y < self.viewport_height
        &&& self.row_count <= 1
        &&& self.row.size == self.row.chars@.len()
    }

    /// A fresh state for a just-probed viewport: cursor at the origin and an
    /// empty buffer.
    pub fn new(viewport_height: usize, viewport_width: usize) -> (s: Self)
        requires
            0 < viewport_height,
            0 < viewport_width < usize::MAX,
        ensures
            s.wf(),
            s.cursor_x == 0,
            s.cursor_y == 0,
            s.viewport_height == viewport_height,
            s.viewport_width == viewport_width,
            s.row_count == 0,
            s.row.chars@ == Seq::<u8>::empty(),
    {
        let s = EditorState {
            cursor_x: 0,
            cursor_y: 0,
            viewport_height,
            viewport_width,
            row_count: 0,
            row: Row { size: 0, chars: Vec::new() },
        };
        proof {
            assert(s.row.chars@ =~= Seq::<u8>::empty());
        }
        s
    }

    /// Loads the single line of text that the external file loader supplies.
    pub fn load_row(&mut self, line: Vec<u8>)
        requires
            old(self).wf(),
        ensures
            final(self).wf(),
            final(self).row.chars@ == line@,
            final(self).row.size == line@.len(),
            final(self).row_count == 1,
            final(self).cursor_x == old(self).cursor_x,
            final(self).cursor_y == old(self).cursor_y,
            final(self).viewport_height == old(self).viewport_height,
            final(self).viewport_width == old(self).viewport_width,
    {
        let size: usize = line.len();
        self.row = Row { size, chars: line };
        self.row_count = 1;
    }
}

/// The single-step cursor transition: a strict boundary guard, then a move by
/// one. Keys other than the four directions leave the state unchanged.
pub open spec fn step(s: EditorState, k: Key) -> EditorState {
    match k {
        Key::Left => if s.cursor_x != 0 {
            EditorState { cursor_x: (s.cursor_x - 1) as usize, ..s }
        } else {
            s
        },
        Key::Right => if s.cursor_x != s.viewport_width {
            EditorState { cursor_x: (s.cursor_x + 1) as usize, ..s }
        } else {
            s
        },
        Key::Up => if s.cursor_y != 0 {
            EditorState { cursor_y: (s.cursor_y - 1) as usize, ..s }
        } else {
            s
        },
        Key::Down => if s.cursor_y != s.viewport_height - 1 {
            EditorState { cursor_y: (s.cursor_y + 1) as usize, ..s }
        } else {
            s
        },
        _ => s,
    }
}

/// `n` repetitions of the single-step transition with the same key.
pub open spec fn repeat_step(s: EditorState, k: Key, n: nat) -> EditorState
    decreases n,
{
    if n == 0 {
        s
    } else {
        step(repeat_step(s, k, (n - 1) as nat), k)
    }
}

/// The state after a whole sequence of keys, each applied by the single-step
/// transition.
pub open spec fn run_steps(s: EditorState, ks: Seq<Key>) -> EditorState
    decreases ks.len(),
{
    if ks.len() == 0 {
        s
    } else {
        step(run_steps(s, ks.drop_last()), ks.last())
    }
}

/// One single-step transition keeps the invariant and never touches the
/// viewport bounds or the buffer.
pub proof fn lemma_step_preserves_wf(s: EditorState, k: Key)
    requires
        s.wf(),
    ensures
        step(s, k).wf(),
        step(s, k).viewport_height == s.viewport_height,
        step(s, k).viewport_width == s.viewport_width,
        step(s, k).row_count == s.row_count,
        step(s, k).row == s.row,
{
}

/// However many cursor keys arrive, and in whatever order, the cursor stays
/// within the viewport: `cursor_x` within `[0, viewport_width]` and
/// `cursor_y` within `[0, viewport_height - 1]` of the unchanged bounds.
pub proof fn lemma_cursor_stays_in_viewport(s: EditorState, ks: Seq<Key>)
    requires
        s.wf(),
    ensures
        run_steps(s, ks).wf(),
        run_steps(s, ks).viewport_height == s.viewport_height,
        run_steps(s, ks).viewport_width == s.viewport_width,
        run_steps(s, ks).cursor_x <= s.viewport_width,
        run_steps(s, ks).cursor_y < s.viewport_height,
    decreases ks.len(),
{
    if ks.len() != 0 {
        lemma_cursor_stays_in_viewport(s, ks.drop_last());
        lemma_step_preserves_wf(run_steps(s, ks.drop_last()), ks.last());
    }
}

/// After `n` repeated Up steps the cursor row is `n` lower, saturating at the
/// top edge; after `n` repeated Down steps it is `n` higher, saturating at
/// the bottom edge.
pub proof fn lemma_repeat_saturates(s: EditorState, n: nat)
    requires
        s.wf(),
    ensures
        repeat_step(s, Key::Up, n).wf(),
        repeat_step(s, Key::Down, n).wf(),
        repeat_step(s, Key::Up, n).cursor_y
            == if n <= s.cursor_y { s.cursor_y - n } else { 0 },
        repeat_step(s, Key::Down, n).cursor_y
            == if s.cursor_y + n < s.viewport_height {
                s.cursor_y + n
            } else {
                s.viewport_height - 1
            },
        repeat_step(s, Key::Up, n).viewport_height == s.viewport_height,
        repeat_step(s, Key::Up, n).viewport_width == s.viewport_width,
        repeat_step(s, Key::Up, n).row_count == s.row_count,
        repeat_step(s, Key::Up, n).row == s.row,
        repeat_step(s, Key::Up, n).cursor_x == s.cursor_x,
        repeat_step(s, Key::Down, n).viewport_height == s.viewport_height,
        repeat_step(s, Key::Down, n).viewport_width == s.viewport_width,
        repeat_step(s, Key::Down, n).row_count == s.row_count,
        repeat_step(s, Key::Down, n).row == s.row,
        repeat_step(s, Key::Down, n).cursor_x == s.cursor_x,
    decreases n,
{
    if n != 0 {
        lemma_repeat_saturates(s, (n - 1) as nat);
    }
}

/// A page move repeated across the whole viewport height always lands
/// exactly on the top edge (PageUp) or the bottom edge (PageDown), from any
/// valid starting position.
pub proof fn lemma_page_keys_saturate(s: EditorState)
    requires
        s.wf(),
    ensures
        repeat_step(s, Key::Up, s.viewport_height as nat).cursor_y == 0,
        repeat_step(s, Key::Down, s.viewport_height as nat).cursor_y
            == s.viewport_height - 1,
{
    lemma_repeat_saturates(s, s.viewport_height as nat);
}

/// What a key event does to the whole state: the four cursor keys take one
/// step, the page keys repeat that step across the viewport height, Home and
/// End jump to the top and bottom edge, and every other key leaves the state
/// unchanged.
pub open spec fn apply_key(s: EditorState, k: Key) -> EditorState {
    match k {
        Key::Left | Key::Right | Key::Up | Key::Down => step(s, k),
        Key::PageUp => repeat_step(s, Key::Up, s.viewport_height as nat),
        Key::PageDown => repeat_step(s, Key::Down, s.viewport_height as nat),
        Key::Home => EditorState { cursor_y: 0, ..s },
        Key::End => EditorState { cursor_y: (s.viewport_height - 1) as usize, ..s },
        _ => s,
    }
}

/// Whether the editor keeps running after this key: every key but the
/// control-masked `q` does.
pub open spec fn continues(k: Key) -> bool {
    k != Key::Ctrl(0x71)
}

impl EditorState {
    /// Applies one cursor key; other keys leave the state unchanged.
    pub fn move_cursor(&mut self, key: Key)
        requires
            old(self).wf(),
        ensures
            *final(self) == step(*old(self), key),
            final(self).wf(),
    {
        proof {
            lemma_step_preserves_wf(*old(self), key);
        }
        match key {
            Key::Left => if self.cursor_x != 0 {
                self.cursor_x = self.cursor_x - 1;
            },
            Key::Right => if self.cursor_x != self.viewport_width {
                self.cursor_x = self.cursor_x + 1;
            },
            Key::Up => if self.cursor_y != 0 {
                self.cursor_y = self.cursor_y - 1;
            },
            Key::Down => if self.cursor_y != self.viewport_height - 1 {
                self.cursor_y = self.cursor_y + 1;
            },
            _ => {},
        }
    }

    /// Applies one decoded key event and says whether the editor keeps
    /// running. A page key lands exactly on the viewport's top or bottom
    /// edge; only the control-masked `q` stops the editor.
    pub fn process_key(&mut self, key: Key) -> (cont: bool)
        requires
            old(self).wf(),
        ensures
            *final(self) == apply_key(*old(self), key),
            final(self).wf(),
            cont == continues(key),
            key is PageUp ==> final(self).cursor_y == 0,
            key is PageDown ==> final(self).cursor_y == old(self).viewport_height - 1,
    {
        proof {
            lemma_page_keys_saturate(*old(self));
            lemma_repeat_saturates(*old(self), old(self).viewport_height as nat);
        }
        match key {
            Key::Ctrl(c) => {
                if c == 0x71 {
                    return false;
                }
            },
            Key::Left | Key::Right | Key::Up | Key::Down => {
                self.move_cursor(key);
            },
            Key::PageUp => {
                let h: usize = self.viewport_height;
                let ghost s0: EditorState = *self;
                let mut i: usize = 0;
                while i < h
                    invariant
                        i <= h,
                        s0.wf(),
                        h == s0.viewport_height,
                        *self == repeat_step(s0, Key::Up, i as nat),
                        self.wf(),
                    decreases h - i,
                {
                    self.move_cursor(Key::Up);
                    i = i + 1;
                }
            },
            Key::PageDown => {
                let h: usize = self.viewport_height;
                let ghost s0: EditorState = *self;
                let mut i: usize = 0;
                while i < h
                    invariant
                        i <= h,
                        s0.wf(),
                        h == s0.viewport_height,
                        *self == repeat_step(s0, Key::Down, i as nat),
                        self.wf(),
                    decreases h - i,
                {
                    self.move_cursor(Key::Down);
                    i = i + 1;
                }
            },
            Key::Home => {
                self.cursor_y = 0;
            },
            Key::End => {
                self.cursor_y = self.viewport_height - 1;
            },
            _ => {},
        }
        true
    }

    /// One whole input-processing step: decodes the four-byte lookahead
    /// buffer, applies the event, and says whether the editor keeps running.
    /// An unrecognized escape sequence is a no-op that keeps it running.
    pub fn process_input(&mut self, seq: &[u8; 4]) -> (cont: bool)
        requires
            old(self).wf(),
        ensures
            final(self).wf(),
            match spec_decode(seq@[0], seq@[1], seq@[2], seq@[3]) {
                Some(k) => *final(self) == apply_key(*old(self), k)
                    && cont == continues(k),
                None => *final(self) == *old(self) && cont,
            },
    {
        match decode_key(seq) {
            Ok(key) => self.process_key(key),
            Err(DecodeError::UnrecognizedSequence) => true,
        }
    }
}

} // verus!
