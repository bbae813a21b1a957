//! Operators: motion-bounded text mutation. Of the declared variants only
//! `Delete` has an effect today; the others are well-formed no-ops, an
//! intentionally unfinished surface that callers must not rely on.

pub mod delete;

use vstd::prelude::*;

use crate::buffer::{Buffer, Cursor};
use crate::motion::Motion;
use delete::{delete_cursor_spec, delete_text_spec, operator_delete};

verus! {

/// The closed set of declared operators. Only `Delete` mutates text.
#[derive(Debug, Copy, Clone, PartialEq, Eq, Structural)]
pub enum OperatorVariant {
    Change,
    Delete,
    Yank,
    SwapCase,
    MakeLowercase,
    MakeUppercase,
    ShiftRight,
    ShiftLeft,
}

/// An operator with its carried motion. `repeat` is present in the data
/// model but consumed by no current rule; its meaning is an open question
/// and nothing here invents one.
#[derive(Debug, Copy, Clone, PartialEq, Eq, Structural)]
pub struct Operator {
    pub repeat: usize,
    pub variant: OperatorVariant,
    pub motion: Motion,
}

/// The text after an operator: delete removes the swept span, every other
/// variant leaves the text as it is.
pub open spec fn operator_text_spec(s: Seq<char>, c: Cursor, o: Operator) -> Seq<char> {
    if o.variant is Delete {
        delete_text_spec(s, c, o.motion)
    } else {
        s
    }
}

/// The cursor after an operator: delete moves it to the removed span's start,
/// every other variant leaves it as it is.
pub open spec fn operator_cursor_spec(s: Seq<char>, c: Cursor, o: Operator) -> Cursor {
    if o.variant is Delete {
        delete_cursor_spec(s, c, o.motion)
    } else {
        c
    }
}

impl Operator {
    /// An operator with the given repeat count, variant and motion.
    pub fn new(repeat: usize, variant: OperatorVariant, motion: Motion) -> (r: Operator)
        ensures
            r == (Operator { repeat, variant, motion }),
    {
        Operator { repeat, variant, motion }
    }

    /// An operator with repeat count one.
    pub fn new_one(variant: OperatorVariant, motion: Motion) -> (r: Operator)
        ensures
            r == (Operator { repeat: 1, variant, motion }),
    {
        Operator { repeat: 1, variant, motion }
    }

    /// Apply the operator to the buffer: delete removes the span its motion
    /// sweeps; every other declared variant does nothing.
    pub fn apply(&self, buffer: &mut Buffer)
        requires
            old(buffer).wf(),
        ensures
            final(buffer).wf(),
            final(buffer)@.text == operator_text_spec(old(buffer)@.text, old(buffer)@.cursor, *self),
            final(buffer)@.cursor == operator_cursor_spec(
                old(buffer)@.text,
                old(buffer)@.cursor,
                *self,
            ),
    {
        match self.variant {
            OperatorVariant::Delete => operator_delete(buffer, self.motion),
            _ => {},
        }
    }
}

} // verus!
