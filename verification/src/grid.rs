use vstd::prelude::*;
use crate::{CAP, COLS, CURSOR_GLYPH, ROWS};

verus! {

/// The grid shifted up by one row: row 0 is discarded, every other row moves
/// up, and the new last row is blank.
pub open spec fn scrolled(g: Seq<char>) -> Seq<char> {
    Seq::new(CAP as nat, |j: int| if j + COLS < CAP { g[j + COLS as int] } else { ' ' })
}

/// First index of the last row, where the cursor lands after a scroll.
pub open spec fn last_row_start() -> int {
    COLS as int * (ROWS as int - 1)
}

/// Cursor index after one write performed at cursor `i`.
pub open spec fn cursor_after_write(i: int) -> int {
    if i >= CAP {
        last_row_start() + 1
    } else {
        i + 1
    }
}

/// Grid contents after one write of `c` performed at cursor `i`: a scroll
/// first if the cursor had reached capacity, then the character placed at the
/// write position and the cursor glyph just past it (wrapping the glyph to
/// index 0 from the last cell).
pub open spec fn grid_after_write(g: Seq<char>, i: int, c: char) -> Seq<char> {
    if i >= CAP {
        scrolled(g).update(last_row_start(), c).update(last_row_start() + 1, CURSOR_GLYPH)
    } else if i < CAP as int - 1 {
        g.update(i, c).update(i + 1, CURSOR_GLYPH)
    } else {
        g.update(i, c).update(0, CURSOR_GLYPH)
    }
}

/// Writes `chr` into the grid at the cursor and advances the cursor; scrolls
/// first when the cursor has reached capacity; a `None` character is a no-op.
pub fn write_char_to_buffer(chr: Option<char>, buffer: &mut Vec<char>, i: &mut usize)
    requires
        old(buffer)@.len() == CAP,
        *old(i) <= CAP,
    ensures
        final(buffer)@.len() == CAP,
        *final(i) <= CAP,
        chr is None ==> final(buffer)@ == old(buffer)@ && *final(i) == *old(i),
        chr is Some ==> final(buffer)@ == grid_after_write(
            old(buffer)@,
            *old(i) as int,
            chr.unwrap(),
        ) && *final(i) == cursor_after_write(*old(i) as int),
{
    if chr.is_none() {
        return;
    }
    let c = chr.unwrap();
    let ghost g0 = buffer@;
    if *i >= CAP {
        let mut j: usize = 0;
        while j < CAP - COLS
            invariant
                buffer@.len() == CAP,
                j <= CAP - COLS,
                forall|t: int| 0 <= t < j ==> buffer@[t] == g0[t + COLS as int],
                forall|t: int| j <= t < CAP ==> buffer@[t] == g0[t],
            decreases CAP - COLS - j,
        {
            let moved = buffer[j + COLS];
            buffer[j] = moved;
            j += 1;
        }
        let mut k: usize = CAP - COLS;
        while k < CAP
            invariant
                buffer@.len() == CAP,
                CAP - COLS <= k <= CAP,
                forall|t: int| 0 <= t < CAP - COLS ==> buffer@[t] == g0[t + COLS as int],
                forall|t: int| CAP - COLS <= t < k ==> buffer@[t] == ' ',
            decreases CAP - k,
        {
            buffer[k] = ' ';
            k += 1;
        }
        assert(buffer@ =~= scrolled(g0));
        *i = CAP - COLS;
        buffer[*i] = c;
        buffer[*i + 1] = CURSOR_GLYPH;
        *i = *i + 1;
        assert(buffer@ =~= grid_after_write(g0, CAP as int, c));
    } else {
        buffer[*i] = c;
        if *i < CAP - 1 {
            buffer[*i + 1] = CURSOR_GLYPH;
        } else {
            buffer[0] = CURSOR_GLYPH;
        }
        *i = *i + 1;
    }
}

/// Cursor index after a backspace at cursor `i`: one step left, or unchanged
/// at the left edge.
pub open spec fn cursor_after_backspace(i: int) -> int {
    if i >= 1 {
        i - 1
    } else {
        i
    }
}

/// Grid contents after a backspace at cursor `i`: the cursor glyph moves one
/// cell left and the cell it vacated is blanked; a no-op at the left edge.
pub open spec fn grid_after_backspace(g: Seq<char>, i: int) -> Seq<char> {
    if i >= 1 {
        g.update(i - 1, CURSOR_GLYPH).update(i, ' ')
    } else {
        g
    }
}

/// Moves the cursor one cell left, placing the cursor glyph there and
/// blanking the vacated cell; does nothing when the cursor is at index 0.
pub fn backspace(buffer: &mut Vec<char>, i: &mut usize)
    requires
        old(buffer)@.len() == CAP,
        *old(i) < CAP,
    ensures
        final(buffer)@.len() == CAP,
        *final(i) < CAP,
        final(buffer)@ == grid_after_backspace(old(buffer)@, *old(i) as int),
        *final(i) == cursor_after_backspace(*old(i) as int),
{
    if *i >= 1 {
        *i = *i - 1;
        buffer[*i] = CURSOR_GLYPH;
        buffer[*i + 1] = ' ';
    }
}

/// A fresh grid: every cell blank.
pub open spec fn blank_grid() -> Seq<char> {
    Seq::new(CAP as nat, |j: int| ' ')
}

/// Fills a fresh grid, blank in every cell, with the cursor at index 0.
pub fn new_grid() -> (g: Vec<char>)
    ensures
        g@ == blank_grid(),
        g@.len() == CAP,
{
    let mut g: Vec<char> = Vec::new();
    let mut j: usize = 0;
    while j < CAP
        invariant
            j <= CAP,
            g@.len() == j,
            forall|t: int| 0 <= t < j ==> g@[t] == ' ',
        decreases CAP - j,
    {
        g.push(' ');
        j += 1;
    }
    proof {
        assert(g@ =~= blank_grid());
    }
    g
}

/// Cursor index after a sequence of writes starting at cursor `i`.
pub open spec fn cursor_after_writes(i: int, cs: Seq<char>) -> int
    decreases cs.len(),
{
    if cs.len() == 0 {
        i
    } else {
        cursor_after_writes(cursor_after_write(i), cs.skip(1))
    }
}

/// Grid contents after a sequence of writes starting at cursor `i`.
pub open spec fn grid_after_writes(g: Seq<char>, i: int, cs: Seq<char>) -> Seq<char>
    decreases cs.len(),
{
    if cs.len() == 0 {
        g
    } else {
        grid_after_writes(grid_after_write(g, i, cs[0]), cursor_after_write(i), cs.skip(1))
    }
}

/// The cursor glyph stands at index `i` and nowhere else in the grid.
pub open spec fn marker_only_at(g: Seq<char>, i: int) -> bool {
    &&& g.len() == CAP
    &&& 0 <= i < CAP
    &&& g[i] == CURSOR_GLYPH
    &&& forall|j: int| 0 <= j < CAP && j != i ==> g[j] != CURSOR_GLYPH
}

/// One write of a printable (non cursor glyph) character, at a cursor with
/// room to its right, moves the unique cursor glyph to the next index.
proof fn lemma_write_moves_marker(g: Seq<char>, i: int, c: char)
    requires
        g.len() == CAP,
        0 <= i < CAP as int - 1,
        c != CURSOR_GLYPH,
        forall|j: int| 0 <= j < CAP && j != i ==> g[j] != CURSOR_GLYPH,
    ensures
        marker_only_at(grid_after_write(g, i, c), i + 1),
{
    let g2 = grid_after_write(g, i, c);
    assert forall|j: int| 0 <= j < CAP && j != i + 1 implies g2[j] != CURSOR_GLYPH by {
        if j != i {
            assert(g2[j] == g[j]);
        }
    }
}

proof fn lemma_writes_track_count(g: Seq<char>, i: int, cs: Seq<char>)
    requires
        g.len() == CAP,
        0 <= i,
        1 <= cs.len(),
        i + cs.len() <= CAP as int - 1,
        forall|j: int| 0 <= j < CAP && j != i ==> g[j] != CURSOR_GLYPH,
        forall|k: int| 0 <= k < cs.len() ==> cs[k] != CURSOR_GLYPH,
    ensures
        cursor_after_writes(i, cs) == i + cs.len(),
        marker_only_at(grid_after_writes(g, i, cs), i + cs.len()),
    decreases cs.len(),
{
    lemma_write_moves_marker(g, i, cs[0]);
    let g1 = grid_after_write(g, i, cs[0]);
    let rest = cs.skip(1);
    assert(cursor_after_write(i) == i + 1);
    assert(cursor_after_writes(i, cs) == cursor_after_writes(i + 1, rest));
    assert(grid_after_writes(g, i, cs) == grid_after_writes(g1, i + 1, rest));
    if cs.len() == 1 {
        assert(rest.len() == 0);
        assert(cursor_after_writes(i + 1, rest) == i + 1);
        assert(grid_after_writes(g1, i + 1, rest) == g1);
    } else {
        assert(forall|k: int| 0 <= k < rest.len() ==> rest[k] == cs[k + 1]);
        lemma_writes_track_count(g1, i + 1, rest);
    }
}

/// After any sequence of at most CAP - 1 printable writes into a fresh grid,
/// the cursor glyph is found at exactly one index: the count of writes made.
pub proof fn lemma_marker_tracks_write_count(cs: Seq<char>)
    requires
        1 <= cs.len() <= CAP as int - 1,
        forall|k: int| 0 <= k < cs.len() ==> cs[k] != CURSOR_GLYPH,
    ensures
        cursor_after_writes(0, cs) == cs.len(),
        marker_only_at(grid_after_writes(blank_grid(), 0, cs), cs.len() as int),
{
    assert(forall|j: int| 0 <= j < CAP ==> blank_grid()[j] == ' ');
    lemma_writes_track_count(blank_grid(), 0, cs);
}

/// Backspace is a left inverse of write for the cursor position: undoing a
/// write made anywhere short of the last cell restores the cursor exactly.
pub proof fn lemma_backspace_inverts_write_cursor(i: int)
    requires
        0 <= i < CAP as int - 1,
    ensures
        cursor_after_backspace(cursor_after_write(i)) == i,
{
}

/// Backspace at cursor 0 is a no-op: grid and cursor are both unchanged.
pub proof fn lemma_backspace_at_zero_noop(g: Seq<char>)
    ensures
        grid_after_backspace(g, 0) == g,
        cursor_after_backspace(0) == 0,
{
}

/// Writes never scroll before the cursor reaches capacity: each write while
/// the grid still has room advances the cursor by exactly one, so filling
/// the whole grid leaves the cursor at capacity without any scroll.
pub proof fn lemma_no_scroll_until_capacity(i: int, cs: Seq<char>)
    requires
        0 <= i,
        i + cs.len() <= CAP,
    ensures
        cursor_after_writes(i, cs) == i + cs.len(),
    decreases cs.len(),
{
    if cs.len() > 0 {
        lemma_no_scroll_until_capacity(i + 1, cs.skip(1));
    }
}

/// The write made once the cursor has reached capacity performs exactly one
/// scroll: every row shifts up by one (row 0 discarded), the last row is
/// blanked, the character lands at the first cell of the last row and the
/// cursor glyph sits just past it.
pub proof fn lemma_write_at_capacity_scrolls(g: Seq<char>, c: char)
    requires
        g.len() == CAP,
    ensures
        ({
            let g2 = grid_after_write(g, CAP as int, c);
            &&& cursor_after_write(CAP as int) == last_row_start() + 1
            &&& g2.len() == CAP
            &&& forall|j: int| 0 <= j < last_row_start() ==> g2[j] == g[j + COLS as int]
            &&& g2[last_row_start()] == c
            &&& g2[last_row_start() + 1] == CURSOR_GLYPH
            &&& forall|j: int| last_row_start() + 2 <= j < CAP ==> g2[j] == ' '
        }),
{
}

/// Cursor index after padding the current row with spaces up to its end: the
/// next multiple of the column count, or unchanged at a row boundary.
pub open spec fn pad_i(i: int) -> int {
    if i % (COLS as int) == 0 {
        i
    } else {
        i + (COLS as int - i % (COLS as int))
    }
}

/// Grid contents while a pad from `i0` has reached cursor `cur`: spaces over
/// the padded span, the cursor glyph just past it (wrapped to index 0 from
/// the last cell), the rest untouched.
pub open spec fn pad_partial(g: Seq<char>, i0: int, cur: int) -> Seq<char> {
    Seq::new(
        CAP as nat,
        |j: int|
            if i0 <= j < cur {
                ' '
            } else if cur < CAP && j == cur {
                CURSOR_GLYPH
            } else if cur == CAP && j == 0 {
                CURSOR_GLYPH
            } else {
                g[j]
            },
    )
}

/// Grid contents after padding the current row with spaces up to its end.
pub open spec fn pad_g(g: Seq<char>, i: int) -> Seq<char> {
    if i % (COLS as int) == 0 {
        g
    } else {
        pad_partial(g, i, pad_i(i))
    }
}

/// The newline policy: pads the current row with spaces until the cursor
/// stands at a row boundary, moving the cursor glyph along the way.
pub fn pad_to_row_end(buffer: &mut Vec<char>, i: &mut usize)
    requires
        old(buffer)@.len() == CAP,
        *old(i) <= CAP,
    ensures
        final(buffer)@.len() == CAP,
        *final(i) <= CAP,
        final(buffer)@ == pad_g(old(buffer)@, *old(i) as int),
        *final(i) == pad_i(*old(i) as int),
{
    let ghost g0 = buffer@;
    let ghost i0 = *i as int;
    let ghost e = pad_i(i0);
    while *i % COLS != 0
        invariant
            buffer@.len() == CAP,
            *i <= CAP,
            i0 <= *i as int <= e,
            e == pad_i(i0),
            pad_i(*i as int) == e,
            *i as int == i0 ==> buffer@ == g0,
            i0 < *i as int ==> buffer@ == pad_partial(g0, i0, *i as int),
        decreases e - *i as int,
    {
        let ghost cur = *i as int;
        write_char_to_buffer(Some(' '), buffer, i);
        proof {
            assert(cur < CAP);
            assert(buffer@ =~= pad_partial(g0, i0, cur + 1));
        }
    }
}

/// Effect of one received character on the grid: a newline pads the current
/// row to its end, any other character is written at the cursor.
pub open spec fn step_g(g: Seq<char>, i: int, c: char) -> Seq<char> {
    if c == '\n' {
        pad_g(g, i)
    } else {
        grid_after_write(g, i, c)
    }
}

/// Effect of one received character on the cursor.
pub open spec fn step_i(i: int, c: char) -> int {
    if c == '\n' {
        pad_i(i)
    } else {
        cursor_after_write(i)
    }
}

/// Grid contents after writing a whole received chunk, character by
/// character, with newlines translated to row padding.
pub open spec fn chunk_g(g: Seq<char>, i: int, cs: Seq<char>) -> Seq<char>
    decreases cs.len(),
{
    if cs.len() == 0 {
        g
    } else {
        chunk_g(step_g(g, i, cs[0]), step_i(i, cs[0]), cs.skip(1))
    }
}

/// Cursor index after writing a whole received chunk.
pub open spec fn chunk_i(i: int, cs: Seq<char>) -> int
    decreases cs.len(),
{
    if cs.len() == 0 {
        i
    } else {
        chunk_i(step_i(i, cs[0]), cs.skip(1))
    }
}

/// Writes a received chunk into the grid character by character, translating
/// each newline into the pad-to-row-end behavior instead of a glyph.
pub fn write_chunk(buffer: &mut Vec<char>, i: &mut usize, chunk: &Vec<char>)
    requires
        old(buffer)@.len() == CAP,
        *old(i) <= CAP,
    ensures
        final(buffer)@.len() == CAP,
        *final(i) <= CAP,
        final(buffer)@ == chunk_g(old(buffer)@, *old(i) as int, chunk@),
        *final(i) == chunk_i(*old(i) as int, chunk@),
{
    let ghost g0 = buffer@;
    let ghost i0 = *i as int;
    proof {
        assert(chunk@.skip(0) =~= chunk@);
    }
    let mut k: usize = 0;
    while k < chunk.len()
        invariant
            buffer@.len() == CAP,
            *i <= CAP,
            k <= chunk@.len(),
            chunk_g(g0, i0, chunk@) == chunk_g(buffer@, *i as int, chunk@.skip(k as int)),
            chunk_i(i0, chunk@) == chunk_i(*i as int, chunk@.skip(k as int)),
        decreases chunk@.len() - k,
    {
        let ghost rest = chunk@.skip(k as int);
        proof {
            assert(rest[0] == chunk@[k as int]);
            assert(rest.skip(1) =~= chunk@.skip(k as int + 1));
        }
        let c = chunk[k];
        if c == '\n' {
            pad_to_row_end(buffer, i);
        } else {
            write_char_to_buffer(Some(c), buffer, i);
        }
        k += 1;
    }
    proof {
        assert(chunk@.skip(chunk@.len() as int).len() == 0);
    }
}

} // verus!
