//! Projecting an editor state onto a fixed-size terminal viewport.

use vstd::prelude::*;
use crate::editor::Editor;

verus! {

/// What viewport row `i` shows: the document line at `i` when one
/// exists and is nonempty, otherwise the placeholder glyph `~`.
pub open spec fn spec_row(lines: Seq<Seq<char>>, i: int) -> Seq<char> {
    if 0 <= i < lines.len() && lines[i].len() > 0 {
        lines[i]
    } else {
        seq!['~']
    }
}

/// A coordinate clamped to a viewport dimension: unchanged when it
/// fits, else the last cell of the dimension (0 for an empty one).
pub open spec fn spec_clamp(v: nat, limit: nat) -> nat {
    if limit == 0 {
        0
    } else if v < limit {
        v
    } else {
        (limit - 1) as nat
    }
}

/// The rows to draw for a viewport `rows` cells tall, top to bottom.
pub fn visible_rows(e: &Editor, rows: usize) -> (out: Vec<Vec<char>>)
    ensures
        out@.len() == rows,
        forall|i: int| 0 <= i < rows ==> #[trigger] out@[i]@ == spec_row(e@.lines, i),
{
    let mut out: Vec<Vec<char>> = Vec::new();
    let mut i: usize = 0;
    while i < rows
        invariant
            i <= rows,
            out@.len() == i,
            forall|j: int| 0 <= j < i ==> #[trigger] out@[j]@ == spec_row(e@.lines, j),
        decreases rows - i,
    {
        if i < e.buffer.len() && e.buffer[i].len() > 0 {
            let line = e.buffer[i].clone();
            proof {
                assert(line@ =~= e@.lines[i as int]);
            }
            out.push(line);
        } else {
            let mut tilde: Vec<char> = Vec::new();
            tilde.push('~');
            proof {
                assert(tilde@ =~= seq!['~']);
            }
            out.push(tilde);
        }
        i = i + 1;
    }
    out
}

/// Where the visible terminal cursor goes for a `cols` by `rows`
/// viewport: the logical cursor, clamped into the viewport. The clamp
/// is display-only; the logical cursor is untouched.
pub fn cursor_position(e: &Editor, cols: usize, rows: usize) -> (p: (usize, usize))
    ensures
        p.0 as nat == spec_clamp(e@.col, cols as nat),
        p.1 as nat == spec_clamp(e@.row, rows as nat),
{
    let cx: usize = if cols == 0 {
        0
    } else if e.cursor_x < cols {
        e.cursor_x
    } else {
        cols - 1
    };
    let cy: usize = if rows == 0 {
        0
    } else if e.cursor_y < rows {
        e.cursor_y
    } else {
        rows - 1
    };
    (cx, cy)
}

} // verus!
