//! The command-mode grammar, serving both the command line and the search
//! line: escape clears the line and returns to normal mode, carriage return
//! commits the line, backspace deletes, and anything else is inserted.

use vstd::prelude::*;

use crate::command::{
    command_insert, multi3, multi4, palt, parse_matches, parse_tag_cmd, rule_insert, rule_tag,
    BufferCommand, CmdM, Command, ContextCommand, ParseM, ParseResult,
};
use crate::mode::insert::{backspace_cmd, cmd_backspace_m};
use crate::mode::normal::{newline_text, one};
use crate::mode::Mode;
use crate::motion::character::CharacterMotion;
use crate::motion::left_right::LeftRightMotion;
use crate::motion::{Motion, MotionVariant};
use crate::operator::{Operator, OperatorVariant};

verus! {

/// The composite emitted by escape: go to the line start, delete through the
/// line end, then return to normal mode.
pub open spec fn cmd_escape_command_m() -> CmdM {
    CmdM::Multi(
        seq![
            CmdM::Motion(one(MotionVariant::LeftRight(LeftRightMotion::FirstCharacter))),
            CmdM::Op(
                Operator {
                    repeat: 1,
                    variant: OperatorVariant::Delete,
                    motion: one(MotionVariant::LeftRight(LeftRightMotion::LastCharacter)),
                },
            ),
            CmdM::Mode(Mode::Normal),
        ],
    )
}

/// The composite emitted by carriage return: go to the buffer's end, append a
/// newline, invoke the run-command hook, then return to normal mode.
pub open spec fn cmd_commit_m() -> CmdM {
    CmdM::Multi(
        seq![
            CmdM::Motion(one(MotionVariant::Character(CharacterMotion::EndOfBuffer))),
            CmdM::Insert(seq!['\n']),
            CmdM::Run,
            CmdM::Mode(Mode::Normal),
        ],
    )
}

/// The command-mode rule set, tried in this order.
pub open spec fn command_parse(s: Seq<char>) -> ParseM {
    palt(
        rule_tag(s, "<ESC>"@, cmd_escape_command_m()),
        palt(
            rule_tag(s, "<BS>"@, cmd_backspace_m()),
            palt(rule_tag(s, "<CR>"@, cmd_commit_m()), rule_insert(s)),
        ),
    )
}

/// Recognize one command-mode input against the whole rule set.
pub fn command_command(input: &Vec<char>) -> (r: ParseResult)
    ensures
        parse_matches(r, command_parse(input@)),
{
    let cmd = multi3(
        Command::Buffer(
            BufferCommand::Motion(
                Motion {
                    repeat: 1,
                    variant: MotionVariant::LeftRight(LeftRightMotion::FirstCharacter),
                },
            ),
        ),
        Command::Buffer(
            BufferCommand::Operator(
                Operator {
                    repeat: 1,
                    variant: OperatorVariant::Delete,
                    motion: Motion {
                        repeat: 1,
                        variant: MotionVariant::LeftRight(LeftRightMotion::LastCharacter),
                    },
                },
            ),
        ),
        Command::Context(ContextCommand::ChangeMode(Mode::Normal)),
        Ghost(CmdM::Motion(one(MotionVariant::LeftRight(LeftRightMotion::FirstCharacter)))),
        Ghost(
            CmdM::Op(
                Operator {
                    repeat: 1,
                    variant: OperatorVariant::Delete,
                    motion: one(MotionVariant::LeftRight(LeftRightMotion::LastCharacter)),
                },
            ),
        ),
        Ghost(CmdM::Mode(Mode::Normal)),
    );
    let r = parse_tag_cmd(input, "<ESC>", cmd, Ghost(cmd_escape_command_m()));
    if !matches!(r, ParseResult::NoMatch) {
        return r;
    }
    let r = parse_tag_cmd(input, "<BS>", backspace_cmd(), Ghost(cmd_backspace_m()));
    if !matches!(r, ParseResult::NoMatch) {
        return r;
    }
    let cmd = multi4(
        Command::Buffer(
            BufferCommand::Motion(
                Motion {
                    repeat: 1,
                    variant: MotionVariant::Character(CharacterMotion::EndOfBuffer),
                },
            ),
        ),
        Command::Buffer(BufferCommand::Insert(newline_text())),
        Command::Context(ContextCommand::RunCommand),
        Command::Context(ContextCommand::ChangeMode(Mode::Normal)),
        Ghost(CmdM::Motion(one(MotionVariant::Character(CharacterMotion::EndOfBuffer)))),
        Ghost(CmdM::Insert(seq!['\n'])),
        Ghost(CmdM::Run),
        Ghost(CmdM::Mode(Mode::Normal)),
    );
    let r = parse_tag_cmd(input, "<CR>", cmd, Ghost(cmd_commit_m()));
    if !matches!(r, ParseResult::NoMatch) {
        return r;
    }
    command_insert(input)
}

} // verus!
