//! Motions: pure cursor-position computations over a buffer. A motion never
//! mutates the text.

pub mod character;
pub mod left_right;
pub mod up_down;
pub mod word;

use vstd::prelude::*;

use crate::buffer::{Buffer, Cursor};
use character::{apply_character, CharacterMotion};
use left_right::{apply_left_right, LeftRightMotion};
use up_down::{apply_up_down, UpDownMotion};
use word::{apply_word, WordMotion};

verus! {

/// The closed set of built-in motions.
#[derive(Debug, Copy, Clone, PartialEq, Eq, Structural)]
pub enum MotionVariant {
    LeftRight(LeftRightMotion),
    UpDown(UpDownMotion),
    Word(WordMotion),
    Character(CharacterMotion),
}

/// A repeatable motion: the single-step variant applied `repeat` times in
/// sequence, each step clamped on its own.
#[derive(Debug, Copy, Clone, PartialEq, Eq, Structural)]
pub struct Motion {
    pub repeat: usize,
    pub variant: MotionVariant,
}

/// The cursor after one step of the given motion variant.
pub open spec fn apply_variant(s: Seq<char>, c: Cursor, v: MotionVariant, block: bool) -> Cursor {
    match v {
        MotionVariant::LeftRight(m) => apply_left_right(s, c, m, block),
        MotionVariant::UpDown(m) => apply_up_down(s, c, m, block),
        MotionVariant::Word(m) => apply_word(s, c, m, block),
        MotionVariant::Character(m) => apply_character(s, c, m, block),
    }
}

/// The cursor after `n` sequential steps of the given motion variant.
pub open spec fn apply_variant_n(
    s: Seq<char>,
    c: Cursor,
    v: MotionVariant,
    n: int,
    block: bool,
) -> Cursor
    decreases n,
{
    if n <= 0 {
        c
    } else {
        apply_variant(s, apply_variant_n(s, c, v, n - 1, block), v, block)
    }
}

/// The cursor after a whole motion: its variant applied `repeat` times.
pub open spec fn apply_motion(s: Seq<char>, c: Cursor, m: Motion, block: bool) -> Cursor {
    apply_variant_n(s, c, m.variant, m.repeat as int, block)
}

impl Motion {
    /// A motion that applies `variant` `repeat` times.
    pub fn new(repeat: usize, variant: MotionVariant) -> (r: Motion)
        ensures
            r == (Motion { repeat, variant }),
    {
        Motion { repeat, variant }
    }

    /// A motion that applies `variant` once.
    pub fn new_one(variant: MotionVariant) -> (r: Motion)
        ensures
            r == (Motion { repeat: 1, variant }),
    {
        Motion { repeat: 1, variant }
    }

    /// Move the cursor by this motion: the variant applied `repeat` times in
    /// sequence. The text is unchanged.
    pub fn apply(&self, buffer: &mut Buffer, block_newline: bool)
        requires
            old(buffer).wf(),
        ensures
            final(buffer).wf(),
            final(buffer)@.text == old(buffer)@.text,
            final(buffer)@.cursor == apply_motion(
                old(buffer)@.text,
                old(buffer)@.cursor,
                *self,
                block_newline,
            ),
    {
        let mut i: usize = 0;
        while i < self.repeat
            invariant
                i <= self.repeat,
                buffer.wf(),
                buffer@.text == old(buffer)@.text,
                buffer@.cursor == apply_variant_n(
                    old(buffer)@.text,
                    old(buffer)@.cursor,
                    self.variant,
                    i as int,
                    block_newline,
                ),
            decreases self.repeat - i,
        {
            self.variant.apply(buffer, block_newline);
            i = i + 1;
        }
    }
}

impl MotionVariant {
    /// Move the cursor by one step of this variant. The text is unchanged.
    pub fn apply(&self, buffer: &mut Buffer, block_newline: bool)
        requires
            old(buffer).wf(),
        ensures
            final(buffer).wf(),
            final(buffer)@.text == old(buffer)@.text,
            final(buffer)@.cursor == apply_variant(
                old(buffer)@.text,
                old(buffer)@.cursor,
                *self,
                block_newline,
            ),
    {
        match self {
            MotionVariant::LeftRight(m) => m.apply(buffer, block_newline),
            MotionVariant::UpDown(m) => m.apply(buffer, block_newline),
            MotionVariant::Word(m) => m.apply(buffer, block_newline),
            MotionVariant::Character(m) => m.apply(buffer, block_newline),
        }
    }
}

} // verus!
