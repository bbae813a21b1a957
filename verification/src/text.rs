//! The mathematical model of a text: a sequence of characters, cut into lines
//! by newline characters, and segmented into words at spaces and newlines.

use vstd::prelude::*;

verus! {

/// Index of the first newline at or after `from`, or `s.len()` when no
/// newline remains.
pub open spec fn next_nl(s: Seq<char>, from: int) -> int
    decreases s.len() - from,
{
    if 0 <= from < s.len() {
        if s[from] == '\n' {
            from
        } else {
            next_nl(s, from + 1)
        }
    } else {
        s.len() as int
    }
}

/// Number of newline characters among the first `n` characters of `s`.
pub open spec fn nl_upto(s: Seq<char>, n: int) -> int
    decreases n,
{
    if n <= 0 {
        0
    } else {
        nl_upto(s, n - 1) + if 0 <= n - 1 < s.len() && s[n - 1] == '\n' {
            1int
        } else {
            0int
        }
    }
}

/// Number of lines: one more than the number of newlines.
pub open spec fn line_count(s: Seq<char>) -> int {
    nl_upto(s, s.len() as int) + 1
}

/// Offset of the first character of line `row` (line 0 starts at offset 0,
/// every later line starts just after a newline).
pub open spec fn line_start(s: Seq<char>, row: int) -> int
    decreases row,
{
    if row <= 0 {
        0
    } else {
        next_nl(s, line_start(s, row - 1)) + 1
    }
}

/// Offset one past the last character of line `row` (its newline, or the end
/// of the text for the last line).
pub open spec fn line_end(s: Seq<char>, row: int) -> int {
    next_nl(s, line_start(s, row))
}

/// Length of line `row` in characters, the newline not counted.
pub open spec fn line_len(s: Seq<char>, row: int) -> int {
    line_end(s, row) - line_start(s, row)
}

/// `a - b`, saturating at zero.
pub open spec fn sat_sub(a: int, b: int) -> int {
    if a - b >= 0 {
        a - b
    } else {
        0
    }
}

/// The smaller of two integers.
pub open spec fn min2(a: int, b: int) -> int {
    if a <= b {
        a
    } else {
        b
    }
}

pub proof fn lemma_next_nl(s: Seq<char>, from: int)
    requires
        0 <= from <= s.len(),
    ensures
        from <= next_nl(s, from) <= s.len(),
        next_nl(s, from) < s.len() ==> s[next_nl(s, from)] == '\n',
        forall|i: int| from <= i < next_nl(s, from) ==> s[i] != '\n',
    decreases s.len() - from,
{
    if from < s.len() && s[from] != '\n' {
        lemma_next_nl(s, from + 1);
    }
}

pub proof fn lemma_next_nl_le(s: Seq<char>, from: int, q: int)
    requires
        0 <= from <= q < s.len(),
        s[q] == '\n',
    ensures
        next_nl(s, from) <= q,
    decreases q - from,
{
    if s[from] != '\n' && from < q {
        lemma_next_nl_le(s, from + 1, q);
    }
}

pub proof fn lemma_nl_upto_mono(s: Seq<char>, a: int, b: int)
    requires
        a <= b,
    ensures
        nl_upto(s, a) <= nl_upto(s, b),
    decreases b - a,
{
    if a < b {
        lemma_nl_upto_mono(s, a, b - 1);
    }
}

pub proof fn lemma_nl_upto_nonneg(s: Seq<char>, n: int)
    ensures
        nl_upto(s, n) >= 0,
        nl_upto(s, n) <= n || n < 0,
    decreases n,
{
    if n > 0 {
        lemma_nl_upto_nonneg(s, n - 1);
    }
}

/// A stretch without newlines adds no newline to the count.
pub proof fn lemma_nl_upto_flat(s: Seq<char>, a: int, b: int)
    requires
        0 <= a <= b,
        forall|i: int| a <= i < b ==> 0 <= i < s.len() ==> s[i] != '\n',
    ensures
        nl_upto(s, b) == nl_upto(s, a),
    decreases b - a,
{
    if a < b {
        lemma_nl_upto_flat(s, a, b - 1);
    }
}

/// The start of a valid line lies in the text, exactly `row` newlines come
/// before it, and (except for line 0) a newline stands right before it.
pub proof fn lemma_line_start_props(s: Seq<char>, row: int)
    requires
        0 <= row <= nl_upto(s, s.len() as int),
    ensures
        0 <= line_start(s, row) <= s.len(),
        nl_upto(s, line_start(s, row)) == row,
        row > 0 ==> line_start(s, row) >= 1 && s[line_start(s, row) - 1] == '\n',
    decreases row,
{
    if row > 0 {
        lemma_line_start_props(s, row - 1);
        let p = line_start(s, row - 1);
        let q = next_nl(s, p);
        lemma_next_nl(s, p);
        if q == s.len() {
            lemma_nl_upto_flat(s, p, q);
            assert(false);
        }
        lemma_nl_upto_flat(s, p, q);
    }
}

/// A line start never lies left of the text or more than one past its end.
pub proof fn lemma_line_start_bounds(s: Seq<char>, row: int)
    requires
        0 <= row,
    ensures
        0 <= line_start(s, row) <= s.len() + 1,
    decreases row,
{
    if row > 0 {
        lemma_line_start_bounds(s, row - 1);
        let p = line_start(s, row - 1);
        if p <= s.len() {
            lemma_next_nl(s, p);
        }
    }
}

/// Every offset in the text lies on the line whose index is the number of
/// newlines before the offset.
pub proof fn lemma_offset_row(s: Seq<char>, ofs: int)
    requires
        0 <= ofs <= s.len(),
    ensures
        0 <= nl_upto(s, ofs) <= nl_upto(s, s.len() as int),
        line_start(s, nl_upto(s, ofs)) <= ofs <= line_end(s, nl_upto(s, ofs)),
    decreases ofs,
{
    lemma_nl_upto_nonneg(s, ofs);
    lemma_nl_upto_mono(s, ofs, s.len() as int);
    if ofs == 0 {
        lemma_next_nl(s, 0);
    } else {
        lemma_offset_row(s, ofs - 1);
        let r0 = nl_upto(s, ofs - 1);
        let r = nl_upto(s, ofs);
        lemma_line_start_bounds(s, r0);
        lemma_next_nl(s, line_start(s, r0));
        if s[ofs - 1] == '\n' {
            assert(r == r0 + 1);
            // the newline at ofs - 1 closes line r0 exactly there
            lemma_next_nl_le(s, line_start(s, r0), ofs - 1);
            assert(next_nl(s, line_start(s, r0)) == ofs - 1);
            assert(line_start(s, r) == ofs);
            lemma_next_nl(s, ofs);
        } else {
            assert(r == r0);
            // line r0 does not end at ofs - 1, so it reaches past it
            assert(next_nl(s, line_start(s, r0)) != ofs - 1);
        }
    }
}

/// Two texts that agree on a prefix have the same next newline inside it.
pub proof fn lemma_prefix_next_nl(s1: Seq<char>, s2: Seq<char>, m: int, p: int)
    requires
        0 <= p <= m,
        m <= s1.len(),
        m <= s2.len(),
        forall|i: int| 0 <= i < m ==> s1[i] == s2[i],
    ensures
        next_nl(s1, p) >= m ==> next_nl(s2, p) >= m,
        next_nl(s1, p) < m ==> next_nl(s2, p) == next_nl(s1, p),
    decreases m - p,
{
    lemma_next_nl(s1, p);
    lemma_next_nl(s2, p);
    if p < m && s1[p] != '\n' {
        lemma_prefix_next_nl(s1, s2, m, p + 1);
    }
}

/// Two texts that agree on a prefix count newlines alike inside it.
pub proof fn lemma_prefix_nl_upto(s1: Seq<char>, s2: Seq<char>, m: int, n: int)
    requires
        n <= m,
        m <= s1.len(),
        m <= s2.len(),
        forall|i: int| 0 <= i < m ==> s1[i] == s2[i],
    ensures
        nl_upto(s1, n) == nl_upto(s2, n),
    decreases n,
{
    if n > 0 {
        lemma_prefix_nl_upto(s1, s2, m, n - 1);
    }
}

/// Two texts that agree on a prefix have the same starts for the lines that
/// begin inside it.
pub proof fn lemma_prefix_line_start(s1: Seq<char>, s2: Seq<char>, m: int, row: int)
    requires
        0 <= m <= s1.len(),
        m <= s2.len(),
        forall|i: int| 0 <= i < m ==> s1[i] == s2[i],
        0 <= row <= nl_upto(s1, m),
    ensures
        line_start(s2, row) == line_start(s1, row),
        line_start(s1, row) <= m,
    decreases row,
{
    lemma_nl_upto_mono(s1, m, s1.len() as int);
    lemma_line_start_props(s1, row);
    if row > 0 {
        lemma_nl_upto_nonneg(s1, m);
        lemma_prefix_line_start(s1, s2, m, row - 1);
        let p = line_start(s1, row - 1);
        lemma_line_start_props(s1, row - 1);
        lemma_next_nl(s1, p);
        // a newline lies in [p, m): otherwise the counts at p and m agree,
        // yet nl_upto(s1, p) == row - 1 < row <= nl_upto(s1, m)
        assert(next_nl(s1, p) < m) by {
            if next_nl(s1, p) >= m {
                lemma_nl_upto_flat(s1, p, m);
            }
        }
        lemma_prefix_next_nl(s1, s2, m, p);
    }
}

} // verus!
