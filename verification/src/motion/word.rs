//! Motions over the word-start offsets of the text.

use vstd::prelude::*;

use crate::buffer::{
    cursor_at, cursor_offset_spec, cursor_word_idx, lemma_cursor_at_wf, lemma_word_idx_at_bounds,
    lemma_word_starts_props, word_idx_at, word_starts, Buffer, Cursor,
};
use crate::text::{min2, sat_sub};

verus! {

/// A motion over the word-start list, by a positive number of words.
#[derive(Debug, Copy, Clone, PartialEq, Eq, Structural)]
pub enum WordMotion {
    Forward(usize),
    Backward(usize),
}

/// The cursor after a word motion: move by index through the word-start list,
/// clamped to the last entry going forward and to the second-to-last entry
/// going backward; with no word in the text, the cursor stays put.
pub open spec fn apply_word(s: Seq<char>, c: Cursor, m: WordMotion, block: bool) -> Cursor {
    let wo = word_starts(s);
    if wo.len() == 0 {
        c
    } else {
        let cwo = word_idx_at(wo, cursor_offset_spec(s, c));
        let idx = match m {
            WordMotion::Forward(dw) => min2(cwo + dw, wo.len() - 1),
            WordMotion::Backward(dw) => min2(sat_sub(cwo, dw as int), sat_sub(wo.len() as int, 2)),
        };
        cursor_at(s, wo[idx])
    }
}

impl WordMotion {
    /// A forward motion over `count` words; `None` when `count` is zero.
    pub fn forward(count: usize) -> (r: Option<WordMotion>)
        ensures
            r == if count > 0 {
                Some(WordMotion::Forward(count))
            } else {
                None::<WordMotion>
            },
    {
        if count > 0 {
            Some(WordMotion::Forward(count))
        } else {
            None
        }
    }

    /// A backward motion over `count` words; `None` when `count` is zero.
    pub fn backward(count: usize) -> (r: Option<WordMotion>)
        ensures
            r == if count > 0 {
                Some(WordMotion::Backward(count))
            } else {
                None::<WordMotion>
            },
    {
        if count > 0 {
            Some(WordMotion::Backward(count))
        } else {
            None
        }
    }

    /// Move the cursor along the word-start list. The text is unchanged.
    pub fn apply(&self, buffer: &mut Buffer, block_newline: bool)
        requires
            old(buffer).wf(),
        ensures
            final(buffer).wf(),
            final(buffer)@.text == old(buffer)@.text,
            final(buffer)@.cursor == apply_word(
                old(buffer)@.text,
                old(buffer)@.cursor,
                *self,
                block_newline,
            ),
    {
        let ghost s = buffer@.text;
        let ghost ws = word_starts(s);
        let tlen = buffer.text.len();
        proof {
            assert(tlen == s.len());
        }
        let wo = buffer.word_offsets();
        if wo.len() == 0 {
            return ;
        }
        let cwo = buffer.cursor_word_offset();
        proof {
            lemma_word_idx_at_bounds(ws, cursor_offset_spec(s, buffer@.cursor));
        }
        let last = wo.len() - 1;
        let idx = match self {
            WordMotion::Forward(dw) => {
                let t = cwo.saturating_add(*dw);
                if t < last {
                    t
                } else {
                    last
                }
            },
            WordMotion::Backward(dw) => {
                let t = cwo.saturating_sub(*dw);
                let capb = wo.len().saturating_sub(2);
                if t < capb {
                    t
                } else {
                    capb
                }
            },
        };
        proof {
            lemma_word_starts_props(s, s.len() as int);
        }
        let target = wo[idx];
        proof {
            lemma_cursor_at_wf(s, target as int);
        }
        let (x, y) = buffer.offset_position(target);
        buffer.cursor.column = x;
        buffer.cursor.row = y;
        buffer.cursor.target_column = x;
    }
}

} // verus!
