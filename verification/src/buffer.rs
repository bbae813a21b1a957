//! A buffer: an owned text with a cursor, addressed by character offsets.

use vstd::prelude::*;

use crate::motion::left_right::{apply_left_right, LeftRightMotion};
use crate::motion::up_down::{apply_up_down, UpDownMotion};
use crate::motion::{apply_motion, Motion};
use crate::operator::{operator_cursor_spec, operator_text_spec, Operator};
use crate::text::{
    lemma_line_start_props, lemma_next_nl, lemma_nl_upto_mono, lemma_nl_upto_nonneg,
    lemma_offset_row, lemma_prefix_line_start, lemma_prefix_nl_upto, line_count, line_end,
    line_len, line_start, min2, next_nl, nl_upto, sat_sub,
};

verus! {

/// A cursor position: `column` and `row` are zero-based and counted in
/// characters; `target_column` remembers the last explicitly chosen column so
/// that vertical motion through short lines can restore it.
#[derive(Debug, Default, Copy, Clone, PartialEq, Eq, Structural)]
pub struct Cursor {
    pub column: usize,
    pub row: usize,
    pub target_column: usize,
}

/// The cursor stands on an existing line, no further right than one past that
/// line's last character.
pub open spec fn cursor_wf(s: Seq<char>, c: Cursor) -> bool {
    &&& (c.row as int) < line_count(s)
    &&& c.column as int <= line_len(s, c.row as int)
}

/// Absolute character offset addressed by a cursor: the characters of all the
/// lines above (each with its newline) plus the column, clamped to the line.
pub open spec fn cursor_offset_spec(s: Seq<char>, c: Cursor) -> int {
    line_start(s, c.row as int) + min2(c.column as int, line_len(s, c.row as int))
}

/// Row of the character offset `ofs`: the number of newlines before it.
pub open spec fn offset_row(s: Seq<char>, ofs: int) -> int {
    nl_upto(s, ofs)
}

/// Column of the character offset `ofs` within its row.
pub open spec fn offset_col(s: Seq<char>, ofs: int) -> int {
    ofs - line_start(s, offset_row(s, ofs))
}

/// The cursor that addresses offset `ofs`, with the column as its target.
pub open spec fn cursor_at(s: Seq<char>, ofs: int) -> Cursor {
    Cursor {
        column: offset_col(s, ofs) as usize,
        row: offset_row(s, ofs) as usize,
        target_column: offset_col(s, ofs) as usize,
    }
}

/// A cursor derived from an in-range offset is well formed and addresses that
/// same offset.
pub proof fn lemma_cursor_at_wf(s: Seq<char>, ofs: int)
    requires
        0 <= ofs <= s.len(),
        s.len() <= usize::MAX,
    ensures
        cursor_wf(s, cursor_at(s, ofs)),
        cursor_offset_spec(s, cursor_at(s, ofs)) == ofs,
        cursor_at(s, ofs).column as int == offset_col(s, ofs),
        cursor_at(s, ofs).row as int == offset_row(s, ofs),
        0 <= offset_col(s, ofs),
{
    lemma_offset_row(s, ofs);
    lemma_nl_upto_nonneg(s, ofs);
    lemma_nl_upto_mono(s, ofs, s.len() as int);
    let r = offset_row(s, ofs);
    crate::text::lemma_line_start_bounds(s, r);
    lemma_next_nl(s, line_start(s, r));
}

/// Law: for any offset within the text, deriving the position addressing it
/// and reading that position's offset back returns the same offset.
pub proof fn lemma_offset_position_roundtrip(s: Seq<char>, o: int)
    requires
        0 <= o <= s.len(),
        s.len() <= usize::MAX,
    ensures
        cursor_offset_spec(s, cursor_at(s, o)) == o,
{
    lemma_cursor_at_wf(s, o);
}

/// A well-formed cursor addresses an offset inside its own line.
pub proof fn lemma_cursor_offset_bounds(s: Seq<char>, c: Cursor)
    requires
        cursor_wf(s, c),
    ensures
        line_start(s, c.row as int) <= cursor_offset_spec(s, c) <= line_end(s, c.row as int),
        0 <= cursor_offset_spec(s, c) <= s.len(),
        cursor_offset_spec(s, c) == line_start(s, c.row as int) + min2(
            c.column as int,
            line_len(s, c.row as int),
        ),
{
    lemma_line_start_props(s, c.row as int);
    lemma_next_nl(s, line_start(s, c.row as int));
}

/// A word starts at every offset that holds a non-space character and is
/// either the start of the text or preceded by a space or a newline. A lone
/// newline therefore counts as its own one-character word.
pub open spec fn is_word_start(s: Seq<char>, i: int) -> bool {
    &&& 0 <= i < s.len()
    &&& s[i] != ' '
    &&& (i == 0 || s[i - 1] == ' ' || s[i - 1] == '\n')
}

/// The word-start offsets below `n`, in increasing order.
pub open spec fn word_starts_upto(s: Seq<char>, n: int) -> Seq<int>
    decreases n,
{
    if n <= 0 {
        Seq::empty()
    } else {
        word_starts_upto(s, n - 1) + if is_word_start(s, n - 1) {
            seq![n - 1]
        } else {
            Seq::empty()
        }
    }
}

/// All word-start offsets of the text, in increasing order.
pub open spec fn word_starts(s: Seq<char>) -> Seq<int> {
    word_starts_upto(s, s.len() as int)
}

pub proof fn lemma_word_starts_props(s: Seq<char>, n: int)
    ensures
        forall|j: int|
            0 <= j < word_starts_upto(s, n).len() ==> is_word_start(
                s,
                #[trigger] word_starts_upto(s, n)[j],
            ) && word_starts_upto(s, n)[j] < n,
        forall|j: int, k: int|
            0 <= j < k < word_starts_upto(s, n).len() ==> word_starts_upto(s, n)[j]
                < word_starts_upto(s, n)[k],
    decreases n,
{
    if n > 0 {
        lemma_word_starts_props(s, n - 1);
        let prev = word_starts_upto(s, n - 1);
        let cur = word_starts_upto(s, n);
        if is_word_start(s, n - 1) {
            assert(cur =~= prev.push(n - 1));
            assert(forall|j: int| 0 <= j < prev.len() ==> cur[j] == prev[j]);
            assert(cur[cur.len() - 1] == n - 1);
        } else {
            assert(cur =~= prev);
        }
    }
}

/// Index into a word-start list of the last entry at or before offset `c`,
/// or 0 when every entry lies beyond `c` or the list is empty.
pub open spec fn word_idx_at(wo: Seq<int>, c: int) -> int
    decreases wo.len(),
{
    if wo.len() == 0 {
        0
    } else if wo.last() <= c {
        wo.len() - 1
    } else {
        word_idx_at(wo.drop_last(), c)
    }
}

pub proof fn lemma_word_idx_at_bounds(wo: Seq<int>, c: int)
    ensures
        0 <= word_idx_at(wo, c) <= sat_sub(wo.len() as int, 1),
    decreases wo.len(),
{
    if wo.len() > 0 && wo.last() > c {
        lemma_word_idx_at_bounds(wo.drop_last(), c);
    }
}

/// Index of the word at or containing the cursor: the last word start at or
/// before the cursor's offset.
pub open spec fn cursor_word_idx(s: Seq<char>, c: Cursor) -> int {
    word_idx_at(word_starts(s), cursor_offset_spec(s, c))
}

/// The text with `t` put in at offset `at`.
pub open spec fn splice(s: Seq<char>, at: int, t: Seq<char>) -> Seq<char> {
    s.take(at) + t + s.skip(at)
}

/// Putting text in at a well-formed cursor's offset keeps that cursor well
/// formed: its line can only have grown or been split at or past the cursor.
pub proof fn lemma_splice_wf(s: Seq<char>, c: Cursor, t: Seq<char>)
    requires
        cursor_wf(s, c),
    ensures
        cursor_wf(splice(s, cursor_offset_spec(s, c), t), c),
{
    let row = c.row as int;
    let ofs = cursor_offset_spec(s, c);
    let ls = line_start(s, row);
    let s2 = splice(s, ofs, t);
    lemma_line_start_props(s, row);
    lemma_next_nl(s, ls);
    lemma_cursor_offset_bounds(s, c);
    assert(forall|i: int| 0 <= i < ofs ==> s2[i] == s[i]);
    lemma_nl_upto_mono(s, ls, ofs);
    lemma_prefix_line_start(s, s2, ofs, row);
    lemma_prefix_nl_upto(s, s2, ofs, ofs);
    lemma_nl_upto_mono(s2, ofs, s2.len() as int);
    // the row still reaches at least to the splice point
    lemma_next_nl(s2, ls);
    if next_nl(s2, ls) < ofs {
        assert(s[next_nl(s2, ls)] == '\n');
        assert(false);
    }
}

/// The text with the cursor's text put in at its offset. The cursor after an
/// insertion: inserting exactly one newline pushes the cursor down one row
/// and to column zero (a split leaves the cursor on the new line); any other
/// non-empty text advances it right by the inserted character count.
pub open spec fn insert_text_spec(s: Seq<char>, c: Cursor, t: Seq<char>) -> Seq<char> {
    splice(s, cursor_offset_spec(s, c), t)
}

/// The cursor after inserting `t` at the cursor `c` of text `s`.
pub open spec fn insert_cursor_spec(s: Seq<char>, c: Cursor, t: Seq<char>, block: bool) -> Cursor {
    let s2 = insert_text_spec(s, c, t);
    if t == seq!['\n'] {
        apply_left_right(
            s2,
            apply_up_down(s2, c, UpDownMotion::Down(1), block),
            LeftRightMotion::FirstCharacter,
            block,
        )
    } else if t.len() >= 1 {
        apply_left_right(s2, c, LeftRightMotion::Right(t.len() as usize), block)
    } else {
        c
    }
}

/// Push the characters of `src` from `a` up to `b` onto `dst`.
pub(crate) fn append_range(dst: &mut Vec<char>, src: &Vec<char>, a: usize, b: usize)
    requires
        a <= b <= src@.len(),
    ensures
        final(dst)@ == old(dst)@ + src@.subrange(a as int, b as int),
{
    proof {
        assert(old(dst)@ + src@.subrange(a as int, a as int) =~= old(dst)@);
    }
    let mut i = a;
    while i < b
        invariant
            a <= i <= b <= src@.len(),
            dst@ == old(dst)@ + src@.subrange(a as int, i as int),
        decreases b - i,
    {
        dst.push(src[i]);
        proof {
            assert(old(dst)@ + src@.subrange(a as int, i + 1) =~= (old(dst)@ + src@.subrange(
                a as int,
                i as int,
            )).push(src@[i as int]));
        }
        i = i + 1;
    }
}

/// A text with its cursor. Three coexist in a session: the edited document,
/// the command line and the search line.
#[derive(Debug, PartialEq, Eq, Clone)]
pub struct Buffer {
    pub text: Vec<char>,
    pub cursor: Cursor,
}

/// Model of a buffer: the text as a character sequence plus the cursor.
#[verifier::ext_equal]
pub struct BufferModel {
    pub text: Seq<char>,
    pub cursor: Cursor,
}

impl View for Buffer {
    type V = BufferModel;

    open spec fn view(&self) -> BufferModel {
        BufferModel { text: self.text@, cursor: self.cursor }
    }
}

/// Index of the first newline at or after `from`, or the text length.
pub(crate) fn find_nl(text: &Vec<char>, from: usize) -> (r: usize)
    requires
        from <= text@.len(),
    ensures
        r == next_nl(text@, from as int),
        from <= r <= text@.len(),
{
    let mut i = from;
    while i < text.len() && text[i] != '\n'
        invariant
            from <= i <= text@.len(),
            next_nl(text@, from as int) == next_nl(text@, i as int),
        decreases text@.len() - i,
    {
        i = i + 1;
    }
    proof {
        lemma_next_nl(text@, from as int);
    }
    i
}

/// Offset of the first character of line `row`.
pub(crate) fn line_start_at(text: &Vec<char>, row: usize) -> (r: usize)
    requires
        row as int <= nl_upto(text@, text@.len() as int),
    ensures
        r == line_start(text@, row as int),
        r <= text@.len(),
{
    let mut k: usize = 0;
    let mut p: usize = 0;
    let tlen = text.len();
    proof {
        lemma_line_start_props(text@, 0int);
    }
    while k < row
        invariant
            k <= row,
            row as int <= nl_upto(text@, text@.len() as int),
            p == line_start(text@, k as int),
            p <= tlen,
            tlen == text@.len(),
        decreases row - k,
    {
        proof {
            lemma_line_start_props(text@, k as int + 1);
            assert(line_start(text@, k as int + 1) == next_nl(text@, line_start(text@, k as int))
                + 1);
        }
        let q = find_nl(text, p);
        p = q + 1;
        k = k + 1;
    }
    p
}

impl Buffer {
    /// The cursor stands on an existing line, no further right than one past
    /// the line's end.
    pub open spec fn wf(&self) -> bool {
        cursor_wf(self.text@, self.cursor)
    }

    /// A buffer that owns the given text, with the cursor at the origin.
    pub fn new(text: Vec<char>) -> (r: Buffer)
        ensures
            r.wf(),
            r@.text == text@,
            r@.cursor == (Cursor { column: 0, row: 0, target_column: 0 }),
    {
        proof {
            lemma_nl_upto_nonneg(text@, text@.len() as int);
            lemma_next_nl(text@, 0int);
        }
        Buffer { text, cursor: Cursor { column: 0, row: 0, target_column: 0 } }
    }

    /// Length in characters of the line the cursor is on.
    pub fn cursor_line_len(&self) -> (r: usize)
        requires
            (self@.cursor.row as int) < line_count(self@.text),
        ensures
            r == line_len(self@.text, self@.cursor.row as int),
    {
        let ls = line_start_at(&self.text, self.cursor.row);
        let le = find_nl(&self.text, ls);
        le - ls
    }

    /// The characters of the line the cursor is on, without its newline.
    pub fn cursor_line(&self) -> (r: Vec<char>)
        requires
            (self@.cursor.row as int) < line_count(self@.text),
        ensures
            r@ == self@.text.subrange(
                line_start(self@.text, self@.cursor.row as int),
                line_end(self@.text, self@.cursor.row as int),
            ),
    {
        let ls = line_start_at(&self.text, self.cursor.row);
        let le = find_nl(&self.text, ls);
        let mut r: Vec<char> = Vec::new();
        let mut i = ls;
        while i < le
            invariant
                ls <= i <= le <= self.text@.len(),
                r@ == self.text@.subrange(ls as int, i as int),
            decreases le - i,
        {
            r.push(self.text[i]);
            proof {
                assert(self.text@.subrange(ls as int, i + 1 as int) =~= self.text@.subrange(
                    ls as int,
                    i as int,
                ).push(self.text@[i as int]));
            }
            i = i + 1;
        }
        r
    }

    /// Absolute character offset of the cursor.
    pub fn cursor_offset(&self) -> (r: usize)
        requires
            (self@.cursor.row as int) < line_count(self@.text),
        ensures
            r == cursor_offset_spec(self@.text, self@.cursor),
            r <= self@.text.len(),
    {
        let ls = line_start_at(&self.text, self.cursor.row);
        let le = find_nl(&self.text, ls);
        let ll = le - ls;
        ls + if self.cursor.column < ll {
            self.cursor.column
        } else {
            ll
        }
    }

    /// The `(column, row)` position addressing the character offset `offset`.
    pub fn offset_position(&self, offset: usize) -> (r: (usize, usize))
        requires
            offset <= self@.text.len(),
        ensures
            r.0 == offset_col(self@.text, offset as int),
            r.1 == offset_row(self@.text, offset as int),
    {
        proof {
            lemma_offset_row(self.text@, offset as int);
        }
        let mut i: usize = 0;
        let mut cnt: usize = 0;
        while i < offset
            invariant
                i <= offset <= self.text@.len(),
                cnt == nl_upto(self.text@, i as int),
                cnt <= i,
            decreases offset - i,
        {
            proof {
                lemma_nl_upto_nonneg(self.text@, i as int);
            }
            if self.text[i] == '\n' {
                cnt = cnt + 1;
            }
            i = i + 1;
        }
        proof {
            lemma_nl_upto_mono(self.text@, offset as int, self.text@.len() as int);
        }
        let ls = line_start_at(&self.text, cnt);
        (offset - ls, cnt)
    }

    /// The ordered list of word-start offsets of the whole text.
    pub fn word_offsets(&self) -> (r: Vec<usize>)
        ensures
            r@.len() == word_starts(self@.text).len(),
            forall|j: int| 0 <= j < r@.len() ==> r@[j] == word_starts(self@.text)[j],
    {
        let mut r: Vec<usize> = Vec::new();
        let mut i: usize = 0;
        while i < self.text.len()
            invariant
                i <= self.text@.len(),
                r@.len() == word_starts_upto(self.text@, i as int).len(),
                forall|j: int|
                    0 <= j < r@.len() ==> r@[j] == word_starts_upto(self.text@, i as int)[j],
            decreases self.text@.len() - i,
        {
            let starts = self.text[i] != ' ' && (i == 0 || self.text[i - 1] == ' '
                || self.text[i - 1] == '\n');
            if starts {
                r.push(i);
            }
            i = i + 1;
        }
        r
    }

    /// Index into `word_offsets()` of the word at or containing the cursor:
    /// the last word start at or before the cursor's offset, or 0 when every
    /// word starts beyond it or no word exists.
    pub fn cursor_word_offset(&self) -> (r: usize)
        requires
            self.wf(),
        ensures
            r == cursor_word_idx(self@.text, self@.cursor),
    {
        let wo = self.word_offsets();
        let c = self.cursor_offset();
        let ghost ws = word_starts(self@.text);
        let mut r: usize = 0;
        let mut i: usize = 0;
        proof {
            assert(ws.take(0) =~= Seq::<int>::empty());
        }
        while i < wo.len()
            invariant
                i <= wo@.len(),
                wo@.len() == ws.len(),
                forall|j: int| 0 <= j < wo@.len() ==> wo@[j] == ws[j],
                c == cursor_offset_spec(self@.text, self@.cursor),
                r == word_idx_at(ws.take(i as int), c as int),
            decreases wo@.len() - i,
        {
            proof {
                assert(ws.take(i + 1 as int).drop_last() =~= ws.take(i as int));
                assert(ws.take(i + 1 as int).last() == ws[i as int]);
            }
            if wo[i] <= c {
                r = i;
            }
            i = i + 1;
        }
        proof {
            assert(ws.take(ws.len() as int) =~= ws);
        }
        r
    }

    /// Put `text` in at the cursor's offset and move the cursor: down one row
    /// and to column zero for a lone newline, right by the character count
    /// for any other non-empty text.
    pub fn insert(&mut self, text: &Vec<char>, block_newline: bool)
        requires
            old(self).wf(),
        ensures
            final(self).wf(),
            final(self)@.text == insert_text_spec(old(self)@.text, old(self)@.cursor, text@),
            final(self)@.cursor == insert_cursor_spec(
                old(self)@.text,
                old(self)@.cursor,
                text@,
                block_newline,
            ),
    {
        let ghost s = self@.text;
        let ghost c0 = self@.cursor;
        let ofs = self.cursor_offset();
        let mut nt: Vec<char> = Vec::new();
        append_range(&mut nt, &self.text, 0, ofs);
        let ilen = text.len();
        append_range(&mut nt, text, 0, ilen);
        let tlen = self.text.len();
        append_range(&mut nt, &self.text, ofs, tlen);
        proof {
            assert(nt@ =~= insert_text_spec(s, c0, text@));
            lemma_splice_wf(s, c0, text@);
        }
        self.text = nt;
        if text.len() == 1 && text[0] == '\n' {
            proof {
                assert(text@ =~= seq!['\n']);
            }
            let down = UpDownMotion::Down(1);
            down.apply(self, block_newline);
            let first = LeftRightMotion::FirstCharacter;
            first.apply(self, block_newline);
        } else if text.len() >= 1 {
            proof {
                if text@ == seq!['\n'] {
                    assert(text@[0] == '\n');
                    assert(false);
                }
            }
            let right = LeftRightMotion::Right(text.len());
            right.apply(self, block_newline);
        }
    }

    /// Move the cursor by the given motion. The text is unchanged.
    pub fn motion(&mut self, motion: Motion, block_newline: bool)
        requires
            old(self).wf(),
        ensures
            final(self).wf(),
            final(self)@.text == old(self)@.text,
            final(self)@.cursor == apply_motion(
                old(self)@.text,
                old(self)@.cursor,
                motion,
                block_newline,
            ),
    {
        motion.apply(self, block_newline)
    }

    /// Apply the given operator to this buffer.
    pub fn operator(&mut self, operator: Operator)
        requires
            old(self).wf(),
        ensures
            final(self).wf(),
            final(self)@.text == operator_text_spec(old(self)@.text, old(self)@.cursor, operator),
            final(self)@.cursor == operator_cursor_spec(
                old(self)@.text,
                old(self)@.cursor,
                operator,
            ),
    {
        operator.apply(self)
    }
}

} // verus!
