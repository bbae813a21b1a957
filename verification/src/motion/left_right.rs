//! Motions within the cursor's line.

use vstd::prelude::*;

use crate::buffer::{Buffer, Cursor};
use crate::motion::word::{apply_word, WordMotion};
use crate::motion::{Motion, MotionVariant};
use crate::text::{line_len, min2, sat_sub};

verus! {

/// A motion within the cursor's line. `Left` and `Right` carry a positive
/// distance.
#[derive(Debug, Copy, Clone, PartialEq, Eq, Structural)]
pub enum LeftRightMotion {
    FirstCharacter,
    FirstNonBlankCharacter,
    LastCharacter,
    Left(usize),
    Right(usize),
}

/// The cursor after an in-line motion. Columns clamp to the line end, one
/// short of it when `block` forbids resting past the last character.
/// `FirstNonBlankCharacter` goes to column zero and then one word forward.
pub open spec fn apply_left_right(s: Seq<char>, c: Cursor, m: LeftRightMotion, block: bool) -> Cursor {
    if m is FirstNonBlankCharacter {
        let c1 = apply_word(
            s,
            Cursor { column: 0, row: c.row, target_column: 0 },
            WordMotion::Forward(1),
            block,
        );
        Cursor { column: c1.column, row: c1.row, target_column: c1.column }
    } else {
        let bound = sat_sub(line_len(s, c.row as int), if block {
            1int
        } else {
            0int
        });
        let col: int = match m {
            LeftRightMotion::FirstCharacter => 0,
            LeftRightMotion::LastCharacter => bound,
            LeftRightMotion::Left(dx) => if c.column > 0 {
                sat_sub(c.column as int, dx as int)
            } else {
                c.column as int
            },
            LeftRightMotion::Right(dx) => if (c.column as int) < bound {
                min2(c.column as int + dx, bound)
            } else {
                c.column as int
            },
            LeftRightMotion::FirstNonBlankCharacter => 0,
        };
        Cursor { column: col as usize, row: c.row, target_column: col as usize }
    }
}

/// Law: the motion to the first character is idempotent — applying it twice
/// yields the same cursor as applying it once.
pub proof fn lemma_first_character_idempotent(s: Seq<char>, c: Cursor, block: bool)
    ensures
        apply_left_right(
            s,
            apply_left_right(s, c, LeftRightMotion::FirstCharacter, block),
            LeftRightMotion::FirstCharacter,
            block,
        ) == apply_left_right(s, c, LeftRightMotion::FirstCharacter, block),
        crate::motion::apply_motion(
            s,
            crate::motion::apply_motion(
                s,
                c,
                Motion { repeat: 1, variant: MotionVariant::LeftRight(LeftRightMotion::FirstCharacter) },
                block,
            ),
            Motion { repeat: 1, variant: MotionVariant::LeftRight(LeftRightMotion::FirstCharacter) },
            block,
        ) == crate::motion::apply_motion(
            s,
            c,
            Motion { repeat: 1, variant: MotionVariant::LeftRight(LeftRightMotion::FirstCharacter) },
            block,
        ),
{
    let v = MotionVariant::LeftRight(LeftRightMotion::FirstCharacter);
    assert(crate::motion::apply_variant_n(s, c, v, 1, block) == crate::motion::apply_variant(
        s,
        crate::motion::apply_variant_n(s, c, v, 0, block),
        v,
        block,
    ));
    let c1 = apply_left_right(s, c, LeftRightMotion::FirstCharacter, block);
    assert(crate::motion::apply_variant_n(s, c1, v, 1, block) == crate::motion::apply_variant(
        s,
        crate::motion::apply_variant_n(s, c1, v, 0, block),
        v,
        block,
    ));
}

impl LeftRightMotion {
    /// A leftward motion over `count` columns; `None` when `count` is zero.
    pub fn left(count: usize) -> (r: Option<LeftRightMotion>)
        ensures
            r == if count > 0 {
                Some(LeftRightMotion::Left(count))
            } else {
                None::<LeftRightMotion>
            },
    {
        if count > 0 {
            Some(LeftRightMotion::Left(count))
        } else {
            None
        }
    }

    /// A rightward motion over `count` columns; `None` when `count` is zero.
    pub fn right(count: usize) -> (r: Option<LeftRightMotion>)
        ensures
            r == if count > 0 {
                Some(LeftRightMotion::Right(count))
            } else {
                None::<LeftRightMotion>
            },
    {
        if count > 0 {
            Some(LeftRightMotion::Right(count))
        } else {
            None
        }
    }

    /// Move the cursor within its line. The text is unchanged.
    pub fn apply(&self, buffer: &mut Buffer, block_newline: bool)
        requires
            old(buffer).wf(),
        ensures
            final(buffer).wf(),
            final(buffer)@.text == old(buffer)@.text,
            final(buffer)@.cursor == apply_left_right(
                old(buffer)@.text,
                old(buffer)@.cursor,
                *self,
                block_newline,
            ),
    {
        match self {
            LeftRightMotion::FirstNonBlankCharacter => {
                buffer.cursor.column = 0;
                buffer.cursor.target_column = 0;
                let step = WordMotion::Forward(1);
                step.apply(buffer, block_newline);
                buffer.cursor.target_column = buffer.cursor.column;
            },
            _ => {
                let ll = buffer.cursor_line_len();
                let bound = ll.saturating_sub(
                    if block_newline {
                        1
                    } else {
                        0
                    },
                );
                match self {
                    LeftRightMotion::FirstCharacter => {
                        buffer.cursor.column = 0;
                    },
                    LeftRightMotion::LastCharacter => {
                        buffer.cursor.column = bound;
                    },
                    LeftRightMotion::Left(dx) => {
                        if buffer.cursor.column > 0 {
                            buffer.cursor.column = buffer.cursor.column.saturating_sub(*dx);
                        }
                    },
                    LeftRightMotion::Right(dx) => {
                        if buffer.cursor.column < bound {
                            let t = buffer.cursor.column.saturating_add(*dx);
                            buffer.cursor.column = if t < bound {
                                t
                            } else {
                                bound
                            };
                        }
                    },
                    LeftRightMotion::FirstNonBlankCharacter => {},
                }
                buffer.cursor.target_column = buffer.cursor.column;
            },
        }
    }
}

} // verus!
