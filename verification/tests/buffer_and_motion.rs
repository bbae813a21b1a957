//! Buffer model, motions and operators, exercised on concrete texts.

use vimbed::buffer::{Buffer, Cursor};
use vimbed::char_len::CharLen;
use vimbed::motion::character::CharacterMotion;
use vimbed::motion::left_right::LeftRightMotion;
use vimbed::motion::up_down::UpDownMotion;
use vimbed::motion::word::WordMotion;
use vimbed::motion::{Motion, MotionVariant};
use vimbed::operator::delete::operator_delete;
use vimbed::operator::{Operator, OperatorVariant};

fn buf(text: &str) -> Buffer {
    Buffer::new(text.chars().collect())
}

fn buf_at(text: &str, column: usize, row: usize) -> Buffer {
    let mut b = buf(text);
    b.cursor = Cursor {
        column,
        row,
        target_column: column,
    };
    b
}

fn text_of(b: &Buffer) -> String {
    b.text.iter().collect()
}

#[test]
fn char_len_counts_characters() {
    let v: Vec<char> = "héllo".chars().collect();
    assert_eq!(v.char_len(), 5);
}

#[test]
fn cursor_offset_sums_lines_and_clamps_column() {
    let b = buf_at("ab\ncde\nf", 1, 1);
    assert_eq!(b.cursor_offset(), 4);
    // a column past the line end clamps to the line end
    let mut b2 = buf_at("ab\ncde\nf", 0, 0);
    b2.cursor.column = 9;
    assert_eq!(b2.cursor_offset(), 2);
}

#[test]
fn offset_position_inverts_cursor_offset() {
    let b = buf("ab\ncd");
    for o in 0..=5usize {
        let (x, y) = b.offset_position(o);
        let mut b2 = buf("ab\ncd");
        b2.cursor = Cursor {
            column: x,
            row: y,
            target_column: x,
        };
        assert_eq!(b2.cursor_offset(), o, "round trip at offset {}", o);
    }
}

#[test]
fn offset_position_exact_values() {
    let b = buf("ab\ncd");
    assert_eq!(b.offset_position(0), (0, 0));
    assert_eq!(b.offset_position(2), (2, 0));
    assert_eq!(b.offset_position(3), (0, 1));
    assert_eq!(b.offset_position(5), (2, 1));
}

#[test]
fn word_offsets_splits_on_spaces() {
    let b = buf("ab cd");
    assert_eq!(b.word_offsets(), vec![0, 3]);
}

#[test]
fn word_offsets_lone_newline_is_a_word() {
    let b = buf("a\n\nb");
    assert_eq!(b.word_offsets(), vec![0, 2, 3]);
}

#[test]
fn word_offsets_empty_text() {
    let b = buf("");
    assert_eq!(b.word_offsets(), Vec::<usize>::new());
}

#[test]
fn forward_word_clamps_to_last_word() {
    // forward-word from column 4 of "ab cd" clamps to offset 3
    let mut b = buf_at("ab cd", 4, 0);
    b.motion(
        Motion::new_one(MotionVariant::Word(WordMotion::Forward(1))),
        false,
    );
    assert_eq!((b.cursor.column, b.cursor.row), (3, 0));
}

#[test]
fn backward_word_returns_to_start() {
    let mut b = buf_at("ab cd", 3, 0);
    b.motion(
        Motion::new_one(MotionVariant::Word(WordMotion::Backward(1))),
        false,
    );
    assert_eq!((b.cursor.column, b.cursor.row), (0, 0));
}

#[test]
fn word_motion_without_words_stays_put() {
    let mut b = buf_at("   ", 1, 0);
    b.motion(
        Motion::new_one(MotionVariant::Word(WordMotion::Forward(1))),
        false,
    );
    assert_eq!((b.cursor.column, b.cursor.row), (1, 0));
}

#[test]
fn first_character_is_idempotent() {
    let mut once = buf_at("hello\nworld", 3, 1);
    once.motion(
        Motion::new_one(MotionVariant::LeftRight(LeftRightMotion::FirstCharacter)),
        true,
    );
    let mut twice = buf_at("hello\nworld", 3, 1);
    twice.motion(
        Motion::new_one(MotionVariant::LeftRight(LeftRightMotion::FirstCharacter)),
        true,
    );
    twice.motion(
        Motion::new_one(MotionVariant::LeftRight(LeftRightMotion::FirstCharacter)),
        true,
    );
    assert_eq!(once.cursor, twice.cursor);
    assert_eq!(once.cursor.column, 0);
}

#[test]
fn sticky_column_restored_after_short_line() {
    // down onto a short line, then down onto a long one: the column returns
    let mut b = buf_at("abcde\nab\nabcdef", 4, 0);
    b.motion(
        Motion::new_one(MotionVariant::UpDown(UpDownMotion::Down(1))),
        true,
    );
    assert_eq!((b.cursor.column, b.cursor.row), (1, 1));
    b.motion(
        Motion::new_one(MotionVariant::UpDown(UpDownMotion::Down(1))),
        true,
    );
    assert_eq!((b.cursor.column, b.cursor.row), (4, 2));
}

#[test]
fn up_down_clamp_at_edges() {
    let mut b = buf_at("a\nb\nc", 0, 0);
    b.motion(Motion::new_one(MotionVariant::UpDown(UpDownMotion::Up(3))), true);
    assert_eq!(b.cursor.row, 0);
    b.motion(
        Motion::new_one(MotionVariant::UpDown(UpDownMotion::Down(9))),
        true,
    );
    assert_eq!(b.cursor.row, 2);
    b.motion(
        Motion::new_one(MotionVariant::UpDown(UpDownMotion::FirstLine)),
        true,
    );
    assert_eq!(b.cursor.row, 0);
    b.motion(
        Motion::new_one(MotionVariant::UpDown(UpDownMotion::LastLine)),
        true,
    );
    assert_eq!(b.cursor.row, 2);
}

#[test]
fn left_right_clamp_depends_on_block_newline() {
    let mut b = buf_at("abc", 0, 0);
    b.motion(
        Motion::new_one(MotionVariant::LeftRight(LeftRightMotion::Right(9))),
        true,
    );
    // blocked: one short of the line end
    assert_eq!(b.cursor.column, 2);
    let mut b = buf_at("abc", 0, 0);
    b.motion(
        Motion::new_one(MotionVariant::LeftRight(LeftRightMotion::Right(9))),
        false,
    );
    // unblocked: one past the last character is allowed
    assert_eq!(b.cursor.column, 3);
}

#[test]
fn first_non_blank_skips_leading_spaces() {
    let mut b = buf_at("   abc", 5, 0);
    b.motion(
        Motion::new_one(MotionVariant::LeftRight(
            LeftRightMotion::FirstNonBlankCharacter,
        )),
        true,
    );
    assert_eq!(b.cursor.column, 3);
}

#[test]
fn character_motion_forward_clamps_to_last_character() {
    let mut b = buf_at("ab\ncd", 0, 0);
    b.motion(
        Motion::new_one(MotionVariant::Character(CharacterMotion::Forward(9))),
        false,
    );
    // clamped to the last character, offset 4 = (1, 1)
    assert_eq!((b.cursor.column, b.cursor.row), (1, 1));
}

#[test]
fn character_motion_end_of_buffer() {
    let mut b = buf_at("ab\ncd", 0, 0);
    b.motion(
        Motion::new_one(MotionVariant::Character(CharacterMotion::EndOfBuffer)),
        false,
    );
    assert_eq!((b.cursor.column, b.cursor.row), (2, 1));
}

#[test]
fn motion_repeat_applies_stepwise() {
    let mut b = buf_at("a\nb\nc\nd", 0, 0);
    b.motion(
        Motion::new(2, MotionVariant::UpDown(UpDownMotion::Down(1))),
        true,
    );
    assert_eq!(b.cursor.row, 2);
    // repeat zero applies nothing
    let mut b = buf_at("a\nb", 0, 0);
    b.motion(
        Motion::new(0, MotionVariant::UpDown(UpDownMotion::Down(1))),
        true,
    );
    assert_eq!(b.cursor.row, 0);
}

#[test]
fn motion_constructors_reject_zero() {
    assert_eq!(CharacterMotion::forward(0), None);
    assert_eq!(CharacterMotion::backward(0), None);
    assert_eq!(LeftRightMotion::left(0), None);
    assert_eq!(LeftRightMotion::right(0), None);
    assert_eq!(UpDownMotion::up(0), None);
    assert_eq!(UpDownMotion::down(0), None);
    assert_eq!(WordMotion::forward(0), None);
    assert_eq!(WordMotion::backward(0), None);
    assert_eq!(
        CharacterMotion::forward(2),
        Some(CharacterMotion::Forward(2))
    );
}

#[test]
fn insert_text_advances_cursor() {
    let mut b = buf_at("cd", 0, 0);
    b.insert(&"ab".chars().collect(), false);
    assert_eq!(text_of(&b), "abcd");
    assert_eq!((b.cursor.column, b.cursor.row), (2, 0));
}

#[test]
fn insert_newline_moves_to_next_line_start() {
    let mut b = buf_at("abcd", 2, 0);
    b.insert(&"\n".chars().collect(), false);
    assert_eq!(text_of(&b), "ab\ncd");
    assert_eq!((b.cursor.column, b.cursor.row), (0, 1));
}

#[test]
fn insert_empty_text_changes_nothing() {
    let mut b = buf_at("ab", 1, 0);
    b.insert(&Vec::new(), false);
    assert_eq!(text_of(&b), "ab");
    assert_eq!((b.cursor.column, b.cursor.row), (1, 0));
}

#[test]
fn delete_removes_swept_span() {
    let mut b = buf_at("abc", 0, 0);
    operator_delete(
        &mut b,
        Motion::new_one(MotionVariant::Character(CharacterMotion::Forward(1))),
    );
    assert_eq!(text_of(&b), "bc");
    assert_eq!((b.cursor.column, b.cursor.row), (0, 0));
}

#[test]
fn delete_on_last_character_removes_nothing() {
    // a forward step clamps to the last character, so the span is empty
    let mut b = buf_at("abc", 2, 0);
    operator_delete(
        &mut b,
        Motion::new_one(MotionVariant::Character(CharacterMotion::Forward(1))),
    );
    assert_eq!(text_of(&b), "abc");
    assert_eq!(b.cursor.column, 2);
}

#[test]
fn delete_backward_span_uses_lower_bound() {
    let mut b = buf_at("abcd", 3, 0);
    operator_delete(
        &mut b,
        Motion::new_one(MotionVariant::Character(CharacterMotion::Backward(2))),
    );
    assert_eq!(text_of(&b), "ad");
    assert_eq!(b.cursor.column, 1);
}

#[test]
fn non_delete_operators_are_noops() {
    let variants = [
        OperatorVariant::Change,
        OperatorVariant::Yank,
        OperatorVariant::SwapCase,
        OperatorVariant::MakeLowercase,
        OperatorVariant::MakeUppercase,
        OperatorVariant::ShiftRight,
        OperatorVariant::ShiftLeft,
    ];
    for v in variants {
        let mut b = buf_at("abc", 1, 0);
        b.operator(Operator::new_one(
            v,
            Motion::new_one(MotionVariant::Character(CharacterMotion::Forward(1))),
        ));
        assert_eq!(text_of(&b), "abc");
        assert_eq!((b.cursor.column, b.cursor.row), (1, 0));
    }
}

#[test]
fn cursor_stays_within_bounds_through_mixed_operations() {
    let mut b = buf_at("one\ntwo three\n\nfour", 0, 0);
    let steps: Vec<(Motion, bool)> = vec![
        (Motion::new(3, MotionVariant::UpDown(UpDownMotion::Down(1))), true),
        (
            Motion::new_one(MotionVariant::LeftRight(LeftRightMotion::LastCharacter)),
            true,
        ),
        (Motion::new(2, MotionVariant::Word(WordMotion::Backward(1))), true),
        (
            Motion::new_one(MotionVariant::Character(CharacterMotion::Forward(7))),
            true,
        ),
        (Motion::new(5, MotionVariant::UpDown(UpDownMotion::Up(1))), true),
    ];
    for (m, block) in steps {
        b.motion(m, block);
        // the invariant: the row exists and the column is at most the line length
        let t = text_of(&b);
        let line_lens: Vec<usize> = t.split('\n').map(|l| l.chars().count()).collect();
        assert!(b.cursor.row < line_lens.len());
        assert!(b.cursor.column <= line_lens[b.cursor.row]);
    }
}

#[test]
fn cursor_line_returns_current_line() {
    let b = buf_at("ab\ncde\nf", 1, 1);
    let line: String = b.cursor_line().iter().collect();
    assert_eq!(line, "cde");
    assert_eq!(b.cursor_line_len(), 3);
}

#[test]
fn cursor_word_offset_is_last_start_at_or_before() {
    let b = buf_at("ab cd ef", 4, 0);
    assert_eq!(b.word_offsets(), vec![0, 3, 6]);
    assert_eq!(b.cursor_word_offset(), 1);
    let b = buf_at("  ab", 0, 0);
    // every word starts beyond the cursor: index clamps to 0
    assert_eq!(b.cursor_word_offset(), 0);
}
