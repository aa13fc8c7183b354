use vstd::prelude::*;
use crate::CAP;
use crate::grid::{
    blank_grid, chunk_g, chunk_i, cursor_after_backspace, cursor_after_write, grid_after_backspace,
    grid_after_write, new_grid, pad_g, pad_i, backspace, pad_to_row_end, write_char_to_buffer,
    write_chunk,
};
use crate::keymap::{effective_char, map_key, Key};

verus! {

/// The escape character: a received chunk beginning with it is shell
/// line-editing noise, skipped once when the user actually typed something.
pub const ESCAPE_CHAR: char = '\u{1b}';

/// Grid contents after writing the two-character prompt at cursor `i`.
pub open spec fn prompt_g(g: Seq<char>, i: int) -> Seq<char> {
    grid_after_write(grid_after_write(g, i, '>'), cursor_after_write(i), ' ')
}

/// Cursor index after writing the two-character prompt at cursor `i`.
pub open spec fn prompt_i(i: int) -> int {
    cursor_after_write(cursor_after_write(i))
}

fn copy_chars(v: &Vec<char>) -> (r: Vec<char>)
    ensures
        r@ == v@,
{
    let mut r: Vec<char> = Vec::new();
    let mut k: usize = 0;
    while k < v.len()
        invariant
            k <= v@.len(),
            r@.len() == k,
            forall|t: int| 0 <= t < k ==> r@[t] == v@[t],
        decreases v@.len() - k,
    {
        let c = v[k];
        r.push(c);
        k += 1;
    }
    proof {
        assert(r@ =~= v@);
    }
    r
}

/// The foreground terminal state: the visible character grid with its cursor,
/// and the user's not-yet-submitted typed line.
pub struct Term {
    /// The fixed-size visible character grid, row-major, COLS x ROWS cells.
    pub grid: Vec<char>,
    /// The cursor index, always in [0, CAP].
    pub cursor: usize,
    /// The characters of the not-yet-submitted input line.
    pub typed: Vec<char>,
}

impl Term {
    /// The grid has its fixed size and the cursor lies within capacity.
    pub open spec fn wf(self) -> bool {
        &&& self.grid@.len() == CAP
        &&& self.cursor <= CAP
    }

    /// A fresh terminal: blank grid, cursor at the first cell, empty line.
    pub fn new() -> (t: Term)
        ensures
            t.wf(),
            t.grid@ == blank_grid(),
            t.cursor == 0,
            t.typed@ == Seq::<char>::empty(),
    {
        Term { grid: new_grid(), cursor: 0, typed: Vec::new() }
    }

    /// Writes the two-character prompt at the cursor.
    pub fn write_prompt(&mut self)
        requires
            old(self).wf(),
        ensures
            final(self).wf(),
            final(self).grid@ == prompt_g(old(self).grid@, old(self).cursor as int),
            final(self).cursor == prompt_i(old(self).cursor as int),
            final(self).typed == old(self).typed,
    {
        write_char_to_buffer(Some('>'), &mut self.grid, &mut self.cursor);
        write_char_to_buffer(Some(' '), &mut self.grid, &mut self.cursor);
    }

    /// Handles a printable keystroke: resolves the character under the given
    /// shift state (shifted table first, plain fallback); when one is mapped,
    /// appends it to the typed line and writes it into the grid; keys with no
    /// mapping change nothing.
    pub fn type_key(&mut self, key: &Key, shift: bool)
        requires
            old(self).wf(),
        ensures
            final(self).wf(),
            match effective_char(*key, shift) {
                Some(c) => {
                    &&& final(self).typed@ == old(self).typed@.push(c)
                    &&& final(self).grid@ == grid_after_write(
                        old(self).grid@,
                        old(self).cursor as int,
                        c,
                    )
                    &&& final(self).cursor == cursor_after_write(old(self).cursor as int)
                },
                None => {
                    &&& final(self).typed == old(self).typed
                    &&& final(self).grid@ == old(self).grid@
                    &&& final(self).cursor == old(self).cursor
                },
            },
    {
        let key_char = map_key(key, shift);
        if let Some(c) = key_char {
            self.typed.push(c);
        }
        write_char_to_buffer(key_char, &mut self.grid, &mut self.cursor);
    }

    /// Handles the backspace key: moves the cursor glyph one cell left and
    /// blanks the vacated cell, dropping the last typed character; a no-op
    /// (grid, cursor and typed line unchanged) when the cursor is at index 0.
    pub fn backspace_key(&mut self)
        requires
            old(self).wf(),
            old(self).cursor < CAP,
        ensures
            final(self).wf(),
            final(self).grid@ == grid_after_backspace(old(self).grid@, old(self).cursor as int),
            final(self).cursor == cursor_after_backspace(old(self).cursor as int),
            old(self).cursor == 0 ==> final(self).typed == old(self).typed,
            old(self).cursor >= 1 ==> final(self).typed@ == (if old(self).typed@.len() > 0 {
                old(self).typed@.drop_last()
            } else {
                old(self).typed@
            }),
    {
        if self.cursor >= 1 {
            backspace(&mut self.grid, &mut self.cursor);
            self.typed.pop();
            proof {
                if old(self).typed@.len() > 0 {
                    assert(self.typed@ =~= old(self).typed@.drop_last());
                } else {
                    assert(self.typed@ =~= old(self).typed@);
                }
            }
        }
    }

    /// Enter, first half: pads the current row to its end with spaces (the
    /// newline policy) and hands back the typed line for the caller to send
    /// to the child; the typed line itself is kept until the child's output
    /// has been examined.
    pub fn enter_submit(&mut self) -> (line: Vec<char>)
        requires
            old(self).wf(),
        ensures
            final(self).wf(),
            line@ == old(self).typed@,
            final(self).grid@ == pad_g(old(self).grid@, old(self).cursor as int),
            final(self).cursor == pad_i(old(self).cursor as int),
            final(self).typed == old(self).typed,
    {
        let line = copy_chars(&self.typed);
        pad_to_row_end(&mut self.grid, &mut self.cursor);
        line
    }

    /// Whether the first received chunk is to be discarded in favor of a
    /// second one: exactly when it begins with the escape character and the
    /// submitted line was non-empty.
    pub fn wants_second_chunk(&self, chunk: &Vec<char>) -> (b: bool)
        ensures
            b == (chunk@.len() > 0 && chunk@[0] == ESCAPE_CHAR && self.typed@.len() > 0),
    {
        chunk.len() > 0 && chunk[0] == ESCAPE_CHAR && self.typed.len() > 0
    }

    /// Enter, second half: writes the received chunk into the grid (newlines
    /// pad the row instead of printing), clears the typed line, and writes a
    /// fresh prompt.
    pub fn enter_output(&mut self, chunk: &Vec<char>)
        requires
            old(self).wf(),
        ensures
            final(self).wf(),
            final(self).typed@ == Seq::<char>::empty(),
            ({
                let g1 = chunk_g(old(self).grid@, old(self).cursor as int, chunk@);
                let i1 = chunk_i(old(self).cursor as int, chunk@);
                &&& final(self).grid@ == prompt_g(g1, i1)
                &&& final(self).cursor == prompt_i(i1)
            }),
    {
        write_chunk(&mut self.grid, &mut self.cursor, chunk);
        self.typed.clear();
        self.write_prompt();
    }
}

} // verus!
