//! The incremental grammars and the session context, fed concrete key
//! streams.

use vimbed::buffer::Cursor;
use vimbed::command::{
    command, command_insert, BufferCommand, Command, ContextCommand, ParseResult,
};
use vimbed::context::{BufferId, Context, InputOutcome};
use vimbed::mode::command::command_command;
use vimbed::mode::insert::insert_command;
use vimbed::mode::normal::normal_command;
use vimbed::mode::{CommandMode, Mode};
use vimbed::motion::up_down::UpDownMotion;
use vimbed::motion::{Motion, MotionVariant};

fn chars(s: &str) -> Vec<char> {
    s.chars().collect()
}

fn ctx(edit: &str) -> Context {
    Context::new(chars(edit), Vec::new(), Vec::new())
}

fn edit_text(c: &Context) -> String {
    c.buffer(BufferId::Edit).text.iter().collect()
}

fn feed(c: &mut Context, input: &str) -> (InputOutcome, Vec<String>) {
    let (outcome, runs) = c.input_str(input);
    (
        outcome,
        runs.into_iter().map(|v| v.iter().collect()).collect(),
    )
}

#[test]
fn grammar_streaming_g_is_incomplete() {
    let r = normal_command(&chars("g"));
    assert_eq!(r, ParseResult::Incomplete);
}

#[test]
fn grammar_streaming_gg_yields_first_line_motion() {
    let r = normal_command(&chars("gg"));
    let expected = Command::Buffer(BufferCommand::Motion(Motion {
        repeat: 1,
        variant: MotionVariant::UpDown(UpDownMotion::FirstLine),
    }));
    assert_eq!(r, ParseResult::Match(expected, 2));
}

#[test]
fn grammar_streaming_gx_is_no_match() {
    let r = normal_command(&chars("gx"));
    assert_eq!(r, ParseResult::NoMatch);
}

#[test]
fn digit_prefix_sets_repeat() {
    let r = normal_command(&chars("2j"));
    let expected = Command::Buffer(BufferCommand::Motion(Motion {
        repeat: 2,
        variant: MotionVariant::UpDown(UpDownMotion::Down(1)),
    }));
    assert_eq!(r, ParseResult::Match(expected, 2));
}

#[test]
fn overflowing_digit_prefix_falls_back_to_one() {
    let r = normal_command(&chars("99999999999999999999999999j"));
    match r {
        ParseResult::Match(Command::Buffer(BufferCommand::Motion(m)), _) => {
            assert_eq!(m.repeat, 1);
        }
        other => panic!("unexpected outcome: {:?}", other),
    }
}

#[test]
fn lone_digits_stay_incomplete() {
    // a digit run alone is a pending repeat prefix, not yet a motion
    assert_eq!(normal_command(&chars("0")), ParseResult::Incomplete);
    assert_eq!(normal_command(&chars("12")), ParseResult::Incomplete);
}

#[test]
fn operator_with_motion_parses() {
    let r = normal_command(&chars("dw"));
    match r {
        ParseResult::Match(Command::Buffer(BufferCommand::Operator(o)), used) => {
            assert_eq!(used, 2);
            assert_eq!(o.repeat, 1);
        }
        other => panic!("unexpected outcome: {:?}", other),
    }
}

#[test]
fn lone_d_is_incomplete() {
    assert_eq!(normal_command(&chars("d")), ParseResult::Incomplete);
}

#[test]
fn insert_mode_escape_and_literal() {
    assert!(matches!(
        insert_command(&chars("<ESC>")),
        ParseResult::Match(Command::Multi(_), _)
    ));
    assert!(matches!(
        insert_command(&chars("<ES")),
        ParseResult::Incomplete
    ));
    let r = insert_command(&chars("hi"));
    match r {
        ParseResult::Match(Command::Buffer(BufferCommand::Insert(v)), 2) => {
            let s: String = v.iter().collect();
            assert_eq!(s, "hi");
        }
        other => panic!("unexpected outcome: {:?}", other),
    }
}

#[test]
fn command_mode_carriage_return_parses() {
    assert!(matches!(
        command_command(&chars("<CR>")),
        ParseResult::Match(Command::Multi(_), _)
    ));
}

#[test]
fn command_insert_rejects_empty_and_bracket() {
    assert_eq!(command_insert(&chars("")), ParseResult::NoMatch);
    assert_eq!(command_insert(&chars("<x")), ParseResult::NoMatch);
}

#[test]
fn top_level_tokenizer() {
    // a bracketed token is consumed opaquely
    match command(&chars("<F5>")) {
        ParseResult::Match(Command::Raw(v), 4) => {
            let s: String = v.iter().collect();
            assert_eq!(s, "<F5>");
        }
        other => panic!("unexpected outcome: {:?}", other),
    }
    // a lone "<" may still grow into a token
    assert_eq!(command(&chars("<")), ParseResult::Incomplete);
    assert_eq!(command(&chars("<Le")), ParseResult::Incomplete);
    // "<" before something that can never be a token is no match
    assert_eq!(command(&chars("<@")), ParseResult::NoMatch);
    // empty input is no match
    assert_eq!(command(&chars("")), ParseResult::NoMatch);
}

#[test]
fn delete_shorthand_x() {
    let mut c = ctx("abc");
    let (outcome, runs) = feed(&mut c, "x");
    assert_eq!(outcome, InputOutcome::Consumed);
    assert!(runs.is_empty());
    assert_eq!(edit_text(&c), "bc");
    assert_eq!(c.buffer(BufferId::Edit).cursor.column, 0);
}

#[test]
fn delete_key_deletes_forward() {
    let mut c = ctx("abc");
    let (outcome, _) = feed(&mut c, "<Delete>");
    assert_eq!(outcome, InputOutcome::Consumed);
    assert_eq!(edit_text(&c), "bc");
}

#[test]
fn mode_transitions_i_then_escape() {
    let mut c = ctx("abc");
    assert_eq!(c.mode, Mode::Normal);
    assert!(c.block_newline());
    let (outcome, _) = feed(&mut c, "i");
    assert_eq!(outcome, InputOutcome::Consumed);
    assert_eq!(c.mode, Mode::Insert);
    assert!(!c.block_newline());
    let (outcome, _) = feed(&mut c, "<ESC>");
    assert_eq!(outcome, InputOutcome::Consumed);
    assert_eq!(c.mode, Mode::Normal);
    assert!(c.block_newline());
    // the cursor stood at column 0: the leftward step clamps there
    assert_eq!(c.buffer(BufferId::Edit).cursor.column, 0);
}

#[test]
fn escape_moves_left_from_inside_line() {
    let mut c = ctx("abc");
    feed(&mut c, "i");
    feed(&mut c, "zz");
    assert_eq!(edit_text(&c), "zzabc");
    assert_eq!(c.buffer(BufferId::Edit).cursor.column, 2);
    feed(&mut c, "<ESC>");
    assert_eq!(c.mode, Mode::Normal);
    assert_eq!(c.buffer(BufferId::Edit).cursor.column, 1);
}

#[test]
fn command_execution_hook_receives_committed_text() {
    let mut c = ctx("abc");
    let (outcome, _) = feed(&mut c, ":");
    assert_eq!(outcome, InputOutcome::Consumed);
    assert_eq!(c.mode, Mode::Command(CommandMode::Command));
    assert_eq!(c.active_buffer_id(), BufferId::Command);
    let (outcome, _) = feed(&mut c, "q");
    assert_eq!(outcome, InputOutcome::Consumed);
    let (outcome, runs) = feed(&mut c, "<CR>");
    assert_eq!(outcome, InputOutcome::Consumed);
    assert_eq!(runs, vec!["q".to_string()]);
    assert_eq!(c.mode, Mode::Normal);
}

#[test]
fn second_command_commits_its_own_text() {
    let mut c = ctx("abc");
    feed(&mut c, ":");
    feed(&mut c, "q");
    let (_, runs) = feed(&mut c, "<CR>");
    assert_eq!(runs, vec!["q".to_string()]);
    feed(&mut c, ":");
    feed(&mut c, "w");
    let (_, runs) = feed(&mut c, "<CR>");
    assert_eq!(runs, vec!["w".to_string()]);
}

#[test]
fn search_mode_uses_search_buffer() {
    let mut c = ctx("abc");
    feed(&mut c, "/");
    assert_eq!(c.mode, Mode::Command(CommandMode::Search));
    assert_eq!(c.active_buffer_id(), BufferId::Search);
    feed(&mut c, "pat");
    let s: String = c.buffer(BufferId::Search).text.iter().collect();
    assert_eq!(s, "pat");
    let e: String = c.buffer(BufferId::Command).text.iter().collect();
    assert_eq!(e, "");
}

#[test]
fn command_escape_clears_the_line() {
    let mut c = ctx("abc");
    feed(&mut c, ":");
    feed(&mut c, "quit");
    let (outcome, runs) = feed(&mut c, "<ESC>");
    assert_eq!(outcome, InputOutcome::Consumed);
    assert!(runs.is_empty());
    assert_eq!(c.mode, Mode::Normal);
    let s: String = c.buffer(BufferId::Command).text.iter().collect();
    assert_eq!(s, "");
}

#[test]
fn dd_deletes_whole_line() {
    let mut c = ctx("ab\ncd\nef");
    feed(&mut c, "j");
    let (outcome, _) = feed(&mut c, "dd");
    assert_eq!(outcome, InputOutcome::Consumed);
    assert_eq!(edit_text(&c), "ab\nef");
}

#[test]
fn unknown_input_is_discarded_locally() {
    let mut c = ctx("abc");
    let (outcome, _) = feed(&mut c, "gx");
    assert_eq!(outcome, InputOutcome::NoMatch);
    assert_eq!(edit_text(&c), "abc");
    // an unknown bracketed token is consumed opaquely, then rejected
    let (outcome, _) = feed(&mut c, "<F5>");
    assert_eq!(outcome, InputOutcome::NoMatch);
    assert_eq!(edit_text(&c), "abc");
}

#[test]
fn pending_input_reports_incomplete() {
    let mut c = ctx("abc");
    let (outcome, _) = feed(&mut c, "g");
    assert_eq!(outcome, InputOutcome::Incomplete);
    let (outcome, _) = feed(&mut c, "gg");
    assert_eq!(outcome, InputOutcome::Consumed);
    let (outcome, _) = feed(&mut c, "<");
    assert_eq!(outcome, InputOutcome::Incomplete);
}

#[test]
fn arrow_aliases_move_the_cursor() {
    let mut c = ctx("abc\ndef");
    feed(&mut c, "<Right>");
    assert_eq!(c.buffer(BufferId::Edit).cursor.column, 1);
    feed(&mut c, "<Down>");
    assert_eq!(c.buffer(BufferId::Edit).cursor.row, 1);
    feed(&mut c, "<End>");
    assert_eq!(c.buffer(BufferId::Edit).cursor.column, 2);
    feed(&mut c, "<Home>");
    assert_eq!(c.buffer(BufferId::Edit).cursor.column, 0);
    feed(&mut c, "<Up>");
    assert_eq!(c.buffer(BufferId::Edit).cursor.row, 0);
    // digit-prefixed aliases are recognized at the grammar level
    let r = normal_command(&chars("2<Right>"));
    match r {
        ParseResult::Match(Command::Buffer(BufferCommand::Motion(m)), 8) => {
            assert_eq!(m.repeat, 2);
        }
        other => panic!("unexpected outcome: {:?}", other),
    }
}

#[test]
fn open_line_below() {
    let mut c = ctx("ab\ncd");
    let (outcome, _) = feed(&mut c, "o");
    assert_eq!(outcome, InputOutcome::Consumed);
    assert_eq!(c.mode, Mode::Insert);
    assert_eq!(edit_text(&c), "ab\n\ncd");
    let cur = c.buffer(BufferId::Edit).cursor;
    assert_eq!((cur.column, cur.row), (0, 1));
}

#[test]
fn substitute_deletes_then_inserts() {
    let mut c = ctx("abc");
    let (outcome, _) = feed(&mut c, "s");
    assert_eq!(outcome, InputOutcome::Consumed);
    assert_eq!(c.mode, Mode::Insert);
    assert_eq!(edit_text(&c), "bc");
    feed(&mut c, "x");
    assert_eq!(edit_text(&c), "xbc");
}

#[test]
fn backspace_in_insert_mode_deletes_before_cursor() {
    let mut c = ctx("ab");
    feed(&mut c, "i");
    feed(&mut c, "z");
    assert_eq!(edit_text(&c), "zab");
    assert_eq!(c.buffer(BufferId::Edit).cursor.column, 1);
    let (outcome, _) = feed(&mut c, "<BS>");
    assert_eq!(outcome, InputOutcome::Consumed);
    assert_eq!(edit_text(&c), "ab");
    assert_eq!(c.buffer(BufferId::Edit).cursor.column, 0);
}

#[test]
fn backspace_at_buffer_end_only_moves_left() {
    // the forward sweep of the delete clamps to the last character, so at the
    // very end of the buffer backspace moves the cursor without deleting
    let mut c = ctx("");
    feed(&mut c, "i");
    feed(&mut c, "ab");
    feed(&mut c, "<BS>");
    assert_eq!(edit_text(&c), "ab");
    assert_eq!(c.buffer(BufferId::Edit).cursor.column, 1);
}

#[test]
fn space_steps_forward_in_normal_mode() {
    let mut c = ctx("ab\ncd");
    feed(&mut c, " ");
    let cur = c.buffer(BufferId::Edit).cursor;
    assert_eq!((cur.column, cur.row), (1, 0));
}

#[test]
fn command_constructors_build_buffer_commands() {
    let m = Command::motion(2, MotionVariant::UpDown(UpDownMotion::Down(1)));
    assert_eq!(
        m,
        Command::Buffer(BufferCommand::Motion(Motion {
            repeat: 2,
            variant: MotionVariant::UpDown(UpDownMotion::Down(1)),
        }))
    );
    let o = Command::operator(
        1,
        vimbed::operator::OperatorVariant::Delete,
        Motion::new_one(MotionVariant::UpDown(UpDownMotion::Down(1))),
    );
    assert!(matches!(
        o,
        Command::Buffer(BufferCommand::Operator(_))
    ));
}

#[test]
fn context_accessors_follow_the_mode() {
    let mut c = Context::new(chars("edit"), chars("cmd"), chars("srch"));
    assert_eq!(c.mode, Mode::Normal);
    assert_eq!(c.active_buffer_id(), BufferId::Edit);
    let b: String = c.active_buffer().text.iter().collect();
    assert_eq!(b, "edit");
    c.set_mode(Mode::Command(CommandMode::Search));
    assert_eq!(c.active_buffer_id(), BufferId::Search);
    let b: String = c.active_buffer().text.iter().collect();
    assert_eq!(b, "srch");
    c.active_buffer_mut().cursor = Cursor {
        column: 1,
        row: 0,
        target_column: 1,
    };
    assert_eq!(c.buffer(BufferId::Search).cursor.column, 1);
    assert_eq!(vimbed::mode::Mode::default(), Mode::Normal);
    assert_eq!(c.mode.name(), "Command");
}

#[test]
fn committed_line_of_unterminated_buffer_is_last_line() {
    let c = Context::new(Vec::new(), chars("hello"), Vec::new());
    let s: String = c.command().iter().collect();
    assert_eq!(s, "hello");
}

#[test]
fn substitute_line_clears_to_line_end() {
    let mut c = ctx("  abcd");
    let (outcome, _) = feed(&mut c, "S");
    assert_eq!(outcome, InputOutcome::Consumed);
    assert_eq!(c.mode, Mode::Insert);
    // first non-blank, then delete through the line end
    assert_eq!(edit_text(&c), "  ");
    assert_eq!(c.buffer(BufferId::Edit).cursor.column, 2);
}

#[test]
fn open_line_above() {
    let mut c = ctx("ab\ncd");
    feed(&mut c, "j");
    let (outcome, _) = feed(&mut c, "O");
    assert_eq!(outcome, InputOutcome::Consumed);
    assert_eq!(c.mode, Mode::Insert);
    assert_eq!(edit_text(&c), "ab\n\ncd");
    let cur = c.buffer(BufferId::Edit).cursor;
    assert_eq!((cur.column, cur.row), (0, 1));
}

#[test]
fn append_enters_insert_one_step_right() {
    let mut c = ctx("abc");
    let (outcome, _) = feed(&mut c, "a");
    assert_eq!(outcome, InputOutcome::Consumed);
    assert_eq!(c.mode, Mode::Insert);
    assert_eq!(c.buffer(BufferId::Edit).cursor.column, 1);
}

#[test]
fn search_commit_reads_the_command_line_buffer() {
    // the run-command seam always hands over the command-line buffer's text,
    // even when the search line was the one committed
    let mut c = ctx("abc");
    feed(&mut c, "/");
    feed(&mut c, "pat");
    let (outcome, runs) = feed(&mut c, "<CR>");
    assert_eq!(outcome, InputOutcome::Consumed);
    assert_eq!(runs, vec!["".to_string()]);
    assert_eq!(c.mode, Mode::Normal);
    let s: String = c.buffer(BufferId::Search).text.iter().collect();
    assert_eq!(s, "pat\n");
}

#[test]
fn caret_moves_to_first_non_blank_via_grammar() {
    let mut c = ctx("   abc");
    feed(&mut c, "$");
    assert_eq!(c.buffer(BufferId::Edit).cursor.column, 5);
    let (outcome, _) = feed(&mut c, "^");
    assert_eq!(outcome, InputOutcome::Consumed);
    assert_eq!(c.buffer(BufferId::Edit).cursor.column, 3);
}
