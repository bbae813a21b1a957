//! Motions addressed by absolute character offset.

use vstd::prelude::*;

use crate::buffer::{
    cursor_at, cursor_offset_spec, lemma_cursor_at_wf, lemma_cursor_offset_bounds, Buffer, Cursor,
};
use crate::text::{line_len, min2, sat_sub};

verus! {

/// A motion over absolute character offsets. `Forward` and `Backward` carry a
/// positive distance.
#[derive(Debug, Copy, Clone, PartialEq, Eq, Structural)]
pub enum CharacterMotion {
    Forward(usize),
    Backward(usize),
    StartOfBuffer,
    EndOfBuffer,
}

/// Target character offset of a character motion. `Forward` and `Backward`
/// clamp to the last character; when `block` forbids resting past the line
/// end, a forward step from the line's last character skips the newline and a
/// backward step from column zero skips one further. `StartOfBuffer` and
/// `EndOfBuffer` jump to offset zero and to the text length.
pub open spec fn char_motion_offset(s: Seq<char>, c: Cursor, m: CharacterMotion, block: bool) -> int {
    let co = cursor_offset_spec(s, c);
    let cap = sat_sub(s.len() as int, 1);
    match m {
        CharacterMotion::Forward(dc) => {
            let bump: int = if block && c.column as int == sat_sub(line_len(s, c.row as int), 1) {
                1
            } else {
                0
            };
            min2(co + dc + bump, cap)
        },
        CharacterMotion::Backward(dc) => {
            let o1 = sat_sub(co, dc as int);
            let o2 = if block && c.column == 0 {
                sat_sub(o1, 1)
            } else {
                o1
            };
            min2(o2, cap)
        },
        CharacterMotion::StartOfBuffer => 0,
        CharacterMotion::EndOfBuffer => s.len() as int,
    }
}

/// The cursor after a character motion: the one addressing the target offset,
/// with the new column as target column.
pub open spec fn apply_character(s: Seq<char>, c: Cursor, m: CharacterMotion, block: bool) -> Cursor {
    cursor_at(s, char_motion_offset(s, c, m, block))
}

impl CharacterMotion {
    /// A forward motion over `count` characters; `None` when `count` is zero.
    pub fn forward(count: usize) -> (r: Option<CharacterMotion>)
        ensures
            r == if count > 0 {
                Some(CharacterMotion::Forward(count))
            } else {
                None::<CharacterMotion>
            },
    {
        if count > 0 {
            Some(CharacterMotion::Forward(count))
        } else {
            None
        }
    }

    /// A backward motion over `count` characters; `None` when `count` is zero.
    pub fn backward(count: usize) -> (r: Option<CharacterMotion>)
        ensures
            r == if count > 0 {
                Some(CharacterMotion::Backward(count))
            } else {
                None::<CharacterMotion>
            },
    {
        if count > 0 {
            Some(CharacterMotion::Backward(count))
        } else {
            None
        }
    }

    /// Move the cursor to the motion's target offset. The text is unchanged.
    pub fn apply(&self, buffer: &mut Buffer, block_newline: bool)
        requires
            old(buffer).wf(),
        ensures
            final(buffer).wf(),
            final(buffer)@.text == old(buffer)@.text,
            final(buffer)@.cursor == apply_character(
                old(buffer)@.text,
                old(buffer)@.cursor,
                *self,
                block_newline,
            ),
    {
        proof {
            lemma_cursor_offset_bounds(buffer@.text, buffer@.cursor);
        }
        let co = buffer.cursor_offset();
        let cap = buffer.text.len().saturating_sub(1);
        let next = match self {
            CharacterMotion::Forward(dc) => {
                let ll = buffer.cursor_line_len();
                let mut ofs = co.saturating_add(*dc);
                if block_newline && buffer.cursor.column == ll.saturating_sub(1) {
                    ofs = ofs.saturating_add(1);
                }
                if ofs < cap {
                    ofs
                } else {
                    cap
                }
            },
            CharacterMotion::Backward(dc) => {
                let mut ofs = co.saturating_sub(*dc);
                if block_newline && buffer.cursor.column == 0 {
                    ofs = ofs.saturating_sub(1);
                }
                if ofs < cap {
                    ofs
                } else {
                    cap
                }
            },
            CharacterMotion::StartOfBuffer => 0,
            CharacterMotion::EndOfBuffer => buffer.text.len(),
        };
        proof {
            lemma_cursor_at_wf(buffer@.text, next as int);
        }
        let (x, y) = buffer.offset_position(next);
        buffer.cursor.column = x;
        buffer.cursor.row = y;
        buffer.cursor.target_column = x;
    }
}

} // verus!
