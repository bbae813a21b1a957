//! Motions across lines.

use vstd::prelude::*;

use crate::buffer::{Buffer, Cursor};
use crate::text::{lemma_nl_upto_nonneg, line_count, line_len, min2, nl_upto, sat_sub};

verus! {

/// A motion across lines. `Up` and `Down` carry a positive distance.
#[derive(Debug, Copy, Clone, PartialEq, Eq, Structural)]
pub enum UpDownMotion {
    FirstLine,
    LastLine,
    Up(usize),
    Down(usize),
}

/// The cursor after a vertical motion. The row clamps to the existing lines.
/// The column then clamps to the new line's end (one short of it when `block`
/// forbids resting past the last character) and is raised back toward the
/// remembered target column as far as that line allows. The target column
/// itself is kept: vertical motion is not an explicit horizontal choice.
pub open spec fn apply_up_down(s: Seq<char>, c: Cursor, m: UpDownMotion, block: bool) -> Cursor {
    let lc = line_count(s);
    let row: int = match m {
        UpDownMotion::FirstLine => 0,
        UpDownMotion::LastLine => lc - 1,
        UpDownMotion::Up(dy) => if c.row > 0 {
            sat_sub(c.row as int, dy as int)
        } else {
            c.row as int
        },
        UpDownMotion::Down(dy) => if (c.row as int) < lc - 1 {
            min2(c.row as int + dy, lc - 1)
        } else {
            c.row as int
        },
    };
    let bound = sat_sub(line_len(s, row), if block {
        1int
    } else {
        0int
    });
    let c1: int = if c.column as int > bound {
        bound
    } else {
        c.column as int
    };
    let tc = min2(c.target_column as int, bound);
    let c2: int = if c1 < tc {
        tc
    } else {
        c1
    };
    Cursor { column: c2 as usize, row: row as usize, target_column: c.target_column }
}

/// Law: the sticky column survives a short line. From a cursor whose column
/// is its own target, moving down onto a line too short for that column and
/// then down onto a line long enough for it restores exactly that column.
pub proof fn lemma_sticky_column(s: Seq<char>, c: Cursor, block: bool)
    requires
        s.len() <= usize::MAX,
        c.target_column == c.column,
        c.row as int + 2 < line_count(s),
        sat_sub(line_len(s, c.row as int + 1), if block {
            1int
        } else {
            0int
        }) < c.column as int,
        c.column as int <= sat_sub(line_len(s, c.row as int + 2), if block {
            1int
        } else {
            0int
        }),
    ensures
        apply_up_down(
            s,
            apply_up_down(s, c, UpDownMotion::Down(1), block),
            UpDownMotion::Down(1),
            block,
        ).column == c.column,
        apply_up_down(s, c, UpDownMotion::Down(1), block).column as int == sat_sub(
            line_len(s, c.row as int + 1),
            if block {
                1int
            } else {
                0int
            },
        ),
{
    lemma_nl_upto_nonneg(s, s.len() as int);
    let c1 = apply_up_down(s, c, UpDownMotion::Down(1), block);
    assert(c1.row as int == c.row as int + 1);
    assert(c1.target_column == c.column);
}

/// Number of newline characters in the text.
pub(crate) fn count_newlines(text: &Vec<char>) -> (r: usize)
    ensures
        r == nl_upto(text@, text@.len() as int),
        r <= text@.len(),
{
    let mut i: usize = 0;
    let mut cnt: usize = 0;
    while i < text.len()
        invariant
            i <= text@.len(),
            cnt == nl_upto(text@, i as int),
            cnt <= i,
        decreases text@.len() - i,
    {
        if text[i] == '\n' {
            cnt = cnt + 1;
        }
        i = i + 1;
    }
    cnt
}

impl UpDownMotion {
    /// An upward motion over `count` lines; `None` when `count` is zero.
    pub fn up(count: usize) -> (r: Option<UpDownMotion>)
        ensures
            r == if count > 0 {
                Some(UpDownMotion::Up(count))
            } else {
                None::<UpDownMotion>
            },
    {
        if count > 0 {
            Some(UpDownMotion::Up(count))
        } else {
            None
        }
    }

    /// A downward motion over `count` lines; `None` when `count` is zero.
    pub fn down(count: usize) -> (r: Option<UpDownMotion>)
        ensures
            r == if count > 0 {
                Some(UpDownMotion::Down(count))
            } else {
                None::<UpDownMotion>
            },
    {
        if count > 0 {
            Some(UpDownMotion::Down(count))
        } else {
            None
        }
    }

    /// Move the cursor across lines. The text is unchanged.
    pub fn apply(&self, buffer: &mut Buffer, block_newline: bool)
        requires
            old(buffer).wf(),
        ensures
            final(buffer).wf(),
            final(buffer)@.text == old(buffer)@.text,
            final(buffer)@.cursor == apply_up_down(
                old(buffer)@.text,
                old(buffer)@.cursor,
                *self,
                block_newline,
            ),
    {
        proof {
            lemma_nl_upto_nonneg(buffer@.text, buffer@.text.len() as int);
        }
        let last_row = count_newlines(&buffer.text);
        match self {
            UpDownMotion::FirstLine => {
                buffer.cursor.row = 0;
            },
            UpDownMotion::LastLine => {
                buffer.cursor.row = last_row;
            },
            UpDownMotion::Up(dy) => {
                if buffer.cursor.row > 0 {
                    buffer.cursor.row = buffer.cursor.row.saturating_sub(*dy);
                }
            },
            UpDownMotion::Down(dy) => {
                if buffer.cursor.row < last_row {
                    let t = buffer.cursor.row.saturating_add(*dy);
                    buffer.cursor.row = if t < last_row {
                        t
                    } else {
                        last_row
                    };
                }
            },
        }
        let ll = buffer.cursor_line_len();
        let bound = ll.saturating_sub(
            if block_newline {
                1
            } else {
                0
            },
        );
        if buffer.cursor.column > bound {
            buffer.cursor.column = bound;
        }
        let tc = if buffer.cursor.target_column < bound {
            buffer.cursor.target_column
        } else {
            bound
        };
        if buffer.cursor.column < tc {
            buffer.cursor.column = tc;
        }
    }
}

} // verus!
