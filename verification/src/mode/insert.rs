//! The insert-mode grammar: escape back to normal mode, backspace, and
//! literal insertion of anything else.

use vstd::prelude::*;

use crate::command::{
    command_insert, multi2, palt, parse_matches, parse_tag_cmd, rule_insert, rule_tag,
    BufferCommand, CmdM, Command, ContextCommand, ParseM, ParseResult,
};
use crate::mode::normal::{delete_forward_one, one};
use crate::mode::Mode;
use crate::motion::character::CharacterMotion;
use crate::motion::left_right::LeftRightMotion;
use crate::motion::{Motion, MotionVariant};
use crate::operator::{Operator, OperatorVariant};

verus! {

/// The composite emitted by escape: step left once, then return to normal
/// mode.
pub open spec fn cmd_escape_insert_m() -> CmdM {
    CmdM::Multi(
        seq![
            CmdM::Motion(one(MotionVariant::LeftRight(LeftRightMotion::Left(1)))),
            CmdM::Mode(Mode::Normal),
        ],
    )
}

/// The composite emitted by backspace: step back one character, then delete
/// forward one.
pub open spec fn cmd_backspace_m() -> CmdM {
    CmdM::Multi(
        seq![
            CmdM::Motion(one(MotionVariant::Character(CharacterMotion::Backward(1)))),
            delete_forward_one(),
        ],
    )
}

/// The insert-mode rule set, tried in this order.
pub open spec fn insert_parse(s: Seq<char>) -> ParseM {
    palt(
        rule_tag(s, "<ESC>"@, cmd_escape_insert_m()),
        palt(rule_tag(s, "<BS>"@, cmd_backspace_m()), rule_insert(s)),
    )
}

/// The backspace composite as an executable command.
pub(crate) fn backspace_cmd() -> (r: Command)
    ensures
        crate::command::cmd_corresponds(r, cmd_backspace_m()),
{
    multi2(
        Command::Buffer(
            BufferCommand::Motion(
                Motion {
                    repeat: 1,
                    variant: MotionVariant::Character(CharacterMotion::Backward(1)),
                },
            ),
        ),
        Command::Buffer(
            BufferCommand::Operator(
                Operator {
                    repeat: 1,
                    variant: OperatorVariant::Delete,
                    motion: Motion {
                        repeat: 1,
                        variant: MotionVariant::Character(CharacterMotion::Forward(1)),
                    },
                },
            ),
        ),
        Ghost(CmdM::Motion(one(MotionVariant::Character(CharacterMotion::Backward(1))))),
        Ghost(delete_forward_one()),
    )
}

/// Recognize one insert-mode input against the whole rule set.
pub fn insert_command(input: &Vec<char>) -> (r: ParseResult)
    ensures
        parse_matches(r, insert_parse(input@)),
{
    let cmd = multi2(
        Command::Buffer(
            BufferCommand::Motion(
                Motion { repeat: 1, variant: MotionVariant::LeftRight(LeftRightMotion::Left(1)) },
            ),
        ),
        Command::Context(ContextCommand::ChangeMode(Mode::Normal)),
        Ghost(CmdM::Motion(one(MotionVariant::LeftRight(LeftRightMotion::Left(1))))),
        Ghost(CmdM::Mode(Mode::Normal)),
    );
    let r = parse_tag_cmd(input, "<ESC>", cmd, Ghost(cmd_escape_insert_m()));
    if !matches!(r, ParseResult::NoMatch) {
        return r;
    }
    let r = parse_tag_cmd(input, "<BS>", backspace_cmd(), Ghost(cmd_backspace_m()));
    if !matches!(r, ParseResult::NoMatch) {
        return r;
    }
    command_insert(input)
}

} // verus!
