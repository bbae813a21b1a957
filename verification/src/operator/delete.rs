//! The delete operator: remove the text a motion sweeps over.

use vstd::prelude::*;

use crate::buffer::{
    append_range, cursor_offset_spec, lemma_cursor_at_wf, offset_col, offset_row, Buffer, Cursor,
};
use crate::motion::{apply_motion, Motion};
use crate::text::min2;

verus! {

/// Lower bound of the span a delete removes: the smaller of the cursor's
/// offset before and after the carried motion.
pub open spec fn delete_lo(s: Seq<char>, c: Cursor, m: Motion) -> int {
    min2(cursor_offset_spec(s, c), cursor_offset_spec(s, apply_motion(s, c, m, false)))
}

/// Upper bound of the span a delete removes: the larger of the two offsets.
pub open spec fn delete_hi(s: Seq<char>, c: Cursor, m: Motion) -> int {
    let a = cursor_offset_spec(s, c);
    let b = cursor_offset_spec(s, apply_motion(s, c, m, false));
    if a <= b {
        b
    } else {
        a
    }
}

/// The text with the swept span removed.
pub open spec fn delete_text_spec(s: Seq<char>, c: Cursor, m: Motion) -> Seq<char> {
    s.take(delete_lo(s, c, m)) + s.skip(delete_hi(s, c, m))
}

/// The cursor after a delete: at the span's lower bound in the new text. The
/// target column stays whatever the carried motion left it as.
pub open spec fn delete_cursor_spec(s: Seq<char>, c: Cursor, m: Motion) -> Cursor {
    let t2 = delete_text_spec(s, c, m);
    let lo = delete_lo(s, c, m);
    Cursor {
        column: offset_col(t2, lo) as usize,
        row: offset_row(t2, lo) as usize,
        target_column: apply_motion(s, c, m, false).target_column,
    }
}

/// Remove the text between the cursor and the motion's target (the motion is
/// run without the past-line-end block, as the span's end is exclusive) and
/// put the cursor at the span's start.
pub fn operator_delete(buffer: &mut Buffer, motion: Motion)
    requires
        old(buffer).wf(),
    ensures
        final(buffer).wf(),
        final(buffer)@.text == delete_text_spec(old(buffer)@.text, old(buffer)@.cursor, motion),
        final(buffer)@.cursor == delete_cursor_spec(old(buffer)@.text, old(buffer)@.cursor, motion),
{
    let ghost s = buffer@.text;
    let ghost c0 = buffer@.cursor;
    let from = buffer.cursor_offset();
    motion.apply(buffer, false);
    let to = buffer.cursor_offset();
    let a = if from < to {
        from
    } else {
        to
    };
    let b = if from < to {
        to
    } else {
        from
    };
    let mut nt: Vec<char> = Vec::new();
    append_range(&mut nt, &buffer.text, 0, a);
    let tlen = buffer.text.len();
    append_range(&mut nt, &buffer.text, b, tlen);
    proof {
        assert(nt@ =~= delete_text_spec(s, c0, motion));
    }
    buffer.text = nt;
    proof {
        lemma_cursor_at_wf(buffer@.text, a as int);
    }
    let (x, y) = buffer.offset_position(a);
    buffer.cursor.column = x;
    buffer.cursor.row = y;
}

} // verus!
