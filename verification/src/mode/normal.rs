//! The normal-mode grammar: digit-prefixed motions, operator-motion combos,
//! mode-entry composites, and delete shorthands.

use vstd::prelude::*;

use crate::buffer::append_range;
use crate::command::{
    cmd_corresponds, digit_run_end, multi2, multi3, multi4, palt, parse_matches, parse_motion_rule,
    match_tag, parse_tag_cmd, repeat_of, rule_motion, rule_tag, scan_digits, tag_at, BufferCommand,
    CmdM, Command, ContextCommand, ParseM, ParseResult, TagM, TagR,
};
use crate::mode::{CommandMode, Mode};
use crate::motion::character::CharacterMotion;
use crate::motion::left_right::LeftRightMotion;
use crate::motion::up_down::UpDownMotion;
use crate::motion::word::WordMotion;
use crate::motion::{Motion, MotionVariant};
use crate::operator::{Operator, OperatorVariant};

verus! {

/// One motion step: repeat count one.
pub open spec fn one(v: MotionVariant) -> Motion {
    Motion { repeat: 1, variant: v }
}

/// Delete through one forward character: the effect of the delete shorthands.
pub open spec fn delete_forward_one() -> CmdM {
    CmdM::Op(
        Operator {
            repeat: 1,
            variant: OperatorVariant::Delete,
            motion: one(MotionVariant::Character(CharacterMotion::Forward(1))),
        },
    )
}

/// The motions normal mode recognizes, digit-prefixed, tried in this order.
pub open spec fn normal_motion_spec(s: Seq<char>) -> ParseM {
    palt(
        rule_motion(s, "<BS>"@, MotionVariant::Character(CharacterMotion::Backward(1))),
        palt(
            rule_motion(s, "<CR>"@, MotionVariant::UpDown(UpDownMotion::Down(1))),
            palt(
                rule_motion(s, "h"@, MotionVariant::LeftRight(LeftRightMotion::Left(1))),
                palt(
                    rule_motion(s, "j"@, MotionVariant::UpDown(UpDownMotion::Down(1))),
                    palt(
                        rule_motion(s, "k"@, MotionVariant::UpDown(UpDownMotion::Up(1))),
                        palt(
                            rule_motion(s, "l"@, MotionVariant::LeftRight(LeftRightMotion::Right(1))),
                            palt(
                                rule_motion(
                                    s,
                                    "0"@,
                                    MotionVariant::LeftRight(LeftRightMotion::FirstCharacter),
                                ),
                                palt(
                                    rule_motion(
                                        s,
                                        "^"@,
                                        MotionVariant::LeftRight(
                                            LeftRightMotion::FirstNonBlankCharacter,
                                        ),
                                    ),
                                    palt(
                                        rule_motion(
                                            s,
                                            "$"@,
                                            MotionVariant::LeftRight(LeftRightMotion::LastCharacter),
                                        ),
                                        palt(
                                            rule_motion(
                                                s,
                                                "gg"@,
                                                MotionVariant::UpDown(UpDownMotion::FirstLine),
                                            ),
                                            palt(
                                                rule_motion(
                                                    s,
                                                    "G"@,
                                                    MotionVariant::UpDown(UpDownMotion::LastLine),
                                                ),
                                                palt(
                                                    rule_motion(
                                                        s,
                                                        "w"@,
                                                        MotionVariant::Word(WordMotion::Forward(1)),
                                                    ),
                                                    palt(
                                                        rule_motion(
                                                            s,
                                                            "b"@,
                                                            MotionVariant::Word(
                                                                WordMotion::Backward(1),
                                                            ),
                                                        ),
                                                        command_motion_spec(s),
                                                    ),
                                                ),
                                            ),
                                        ),
                                    ),
                                ),
                            ),
                        ),
                    ),
                ),
            ),
        ),
    )
}

/// The bracketed motion aliases: arrows, home and end, digit-prefixed.
pub open spec fn command_motion_spec(s: Seq<char>) -> ParseM {
    palt(
        rule_motion(s, "<Left>"@, MotionVariant::LeftRight(LeftRightMotion::Left(1))),
        palt(
            rule_motion(s, "<Down>"@, MotionVariant::UpDown(UpDownMotion::Down(1))),
            palt(
                rule_motion(s, "<Up>"@, MotionVariant::UpDown(UpDownMotion::Up(1))),
                palt(
                    rule_motion(s, "<Right>"@, MotionVariant::LeftRight(LeftRightMotion::Right(1))),
                    palt(
                        rule_motion(
                            s,
                            "<Home>"@,
                            MotionVariant::LeftRight(LeftRightMotion::FirstCharacter),
                        ),
                        rule_motion(
                            s,
                            "<End>"@,
                            MotionVariant::LeftRight(LeftRightMotion::LastCharacter),
                        ),
                    ),
                ),
            ),
        ),
    )
}

/// Recognize one bracketed motion alias.
pub fn command_motion(input: &Vec<char>) -> (r: ParseResult)
    ensures
        parse_matches(r, command_motion_spec(input@)),
{
    let r = parse_motion_rule(input, "<Left>", MotionVariant::LeftRight(LeftRightMotion::Left(1)));
    if !matches!(r, ParseResult::NoMatch) {
        return r;
    }
    let r = parse_motion_rule(input, "<Down>", MotionVariant::UpDown(UpDownMotion::Down(1)));
    if !matches!(r, ParseResult::NoMatch) {
        return r;
    }
    let r = parse_motion_rule(input, "<Up>", MotionVariant::UpDown(UpDownMotion::Up(1)));
    if !matches!(r, ParseResult::NoMatch) {
        return r;
    }
    let r = parse_motion_rule(input, "<Right>", MotionVariant::LeftRight(LeftRightMotion::Right(1)));
    if !matches!(r, ParseResult::NoMatch) {
        return r;
    }
    let r = parse_motion_rule(input, "<Home>", MotionVariant::LeftRight(LeftRightMotion::FirstCharacter));
    if !matches!(r, ParseResult::NoMatch) {
        return r;
    }
    parse_motion_rule(input, "<End>", MotionVariant::LeftRight(LeftRightMotion::LastCharacter))
}

/// Recognize one digit-prefixed normal-mode motion.
pub fn normal_motion(input: &Vec<char>) -> (r: ParseResult)
    ensures
        parse_matches(r, normal_motion_spec(input@)),
{
    let r = parse_motion_rule(input, "<BS>", MotionVariant::Character(CharacterMotion::Backward(1)));
    if !matches!(r, ParseResult::NoMatch) {
        return r;
    }
    let r = parse_motion_rule(input, "<CR>", MotionVariant::UpDown(UpDownMotion::Down(1)));
    if !matches!(r, ParseResult::NoMatch) {
        return r;
    }
    let r = parse_motion_rule(input, "h", MotionVariant::LeftRight(LeftRightMotion::Left(1)));
    if !matches!(r, ParseResult::NoMatch) {
        return r;
    }
    let r = parse_motion_rule(input, "j", MotionVariant::UpDown(UpDownMotion::Down(1)));
    if !matches!(r, ParseResult::NoMatch) {
        return r;
    }
    let r = parse_motion_rule(input, "k", MotionVariant::UpDown(UpDownMotion::Up(1)));
    if !matches!(r, ParseResult::NoMatch) {
        return r;
    }
    let r = parse_motion_rule(input, "l", MotionVariant::LeftRight(LeftRightMotion::Right(1)));
    if !matches!(r, ParseResult::NoMatch) {
        return r;
    }
    let r = parse_motion_rule(input, "0", MotionVariant::LeftRight(LeftRightMotion::FirstCharacter));
    if !matches!(r, ParseResult::NoMatch) {
        return r;
    }
    let r = parse_motion_rule(
        input,
        "^",
        MotionVariant::LeftRight(LeftRightMotion::FirstNonBlankCharacter),
    );
    if !matches!(r, ParseResult::NoMatch) {
        return r;
    }
    let r = parse_motion_rule(input, "$", MotionVariant::LeftRight(LeftRightMotion::LastCharacter));
    if !matches!(r, ParseResult::NoMatch) {
        return r;
    }
    let r = parse_motion_rule(input, "gg", MotionVariant::UpDown(UpDownMotion::FirstLine));
    if !matches!(r, ParseResult::NoMatch) {
        return r;
    }
    let r = parse_motion_rule(input, "G", MotionVariant::UpDown(UpDownMotion::LastLine));
    if !matches!(r, ParseResult::NoMatch) {
        return r;
    }
    let r = parse_motion_rule(input, "w", MotionVariant::Word(WordMotion::Forward(1)));
    if !matches!(r, ParseResult::NoMatch) {
        return r;
    }
    let r = parse_motion_rule(input, "b", MotionVariant::Word(WordMotion::Backward(1)));
    if !matches!(r, ParseResult::NoMatch) {
        return r;
    }
    command_motion(input)
}

/// A matched normal-mode motion is always a motion command.
pub proof fn lemma_normal_motion_shape(s: Seq<char>)
    ensures
        normal_motion_spec(s) matches ParseM::Match { cmd, used } ==> cmd is Motion,
{
}

/// An operator rule: an optional digit run, the operator's tag, then any
/// normal-mode motion; emits the operator bounded by that motion.
pub open spec fn operator_rule(s: Seq<char>, tag: Seq<char>, v: OperatorVariant) -> ParseM {
    let e = digit_run_end(s, 0);
    match tag_at(s, e, tag) {
        TagM::Hit(u) => match normal_motion_spec(s.skip(u)) {
            ParseM::Match { cmd, used } => match cmd {
                CmdM::Motion(mo) => ParseM::Match {
                    cmd: CmdM::Op(
                        Operator { repeat: repeat_of(s, 0) as usize, variant: v, motion: mo },
                    ),
                    used: u + used,
                },
                _ => ParseM::NoMatch,
            },
            ParseM::Incomplete => ParseM::Incomplete,
            ParseM::NoMatch => ParseM::NoMatch,
        },
        TagM::Part => ParseM::Incomplete,
        TagM::Miss => ParseM::NoMatch,
    }
}

/// Recognize a digit-prefixed operator tag followed by a normal-mode motion.
fn normal_operator_rule(input: &Vec<char>, tag: &str, variant: OperatorVariant) -> (r: ParseResult)
    ensures
        parse_matches(r, operator_rule(input@, tag@, variant)),
{
    let (e, rep) = scan_digits(input, 0);
    match match_tag(input, e, tag) {
        TagR::Hit(u) => {
            let mut rest: Vec<char> = Vec::new();
            let ilen = input.len();
            append_range(&mut rest, input, u, ilen);
            proof {
                assert(rest@ =~= input@.skip(u as int));
            }
            let mr = normal_motion(&rest);
            match mr {
                ParseResult::Match(c, used) => {
                    proof {
                        lemma_normal_motion_shape(rest@);
                    }
                    match c {
                        Command::Buffer(BufferCommand::Motion(mo)) => ParseResult::Match(
                            Command::Buffer(
                                BufferCommand::Operator(
                                    Operator { repeat: rep, variant, motion: mo },
                                ),
                            ),
                            u + used,
                        ),
                        _ => {
                            proof {
                                assert(false);
                            }
                            ParseResult::Fatal
                        },
                    }
                },
                ParseResult::Incomplete => ParseResult::Incomplete,
                ParseResult::NoMatch => ParseResult::NoMatch,
                ParseResult::Fatal => {
                    proof {
                        assert(false);
                    }
                    ParseResult::Fatal
                },
            }
        },
        TagR::Part => ParseResult::Incomplete,
        TagR::Miss => ParseResult::NoMatch,
    }
}

/// The composite emitted by `a`: enter insert mode, then step right once.
pub open spec fn cmd_append_m() -> CmdM {
    CmdM::Multi(
        seq![
            CmdM::Mode(Mode::Insert),
            CmdM::Motion(one(MotionVariant::LeftRight(LeftRightMotion::Right(1)))),
        ],
    )
}

/// The composite emitted by `o`: enter insert mode, go to the line end, and
/// open a new line below.
pub open spec fn cmd_open_below_m() -> CmdM {
    CmdM::Multi(
        seq![
            CmdM::Mode(Mode::Insert),
            CmdM::Motion(one(MotionVariant::LeftRight(LeftRightMotion::LastCharacter))),
            CmdM::Insert(seq!['\n']),
        ],
    )
}

/// The composite emitted by `O`: enter insert mode, go to the line start,
/// open a line, and move back up onto it.
pub open spec fn cmd_open_above_m() -> CmdM {
    CmdM::Multi(
        seq![
            CmdM::Mode(Mode::Insert),
            CmdM::Motion(one(MotionVariant::LeftRight(LeftRightMotion::FirstCharacter))),
            CmdM::Insert(seq!['\n']),
            CmdM::Motion(one(MotionVariant::UpDown(UpDownMotion::Up(1)))),
        ],
    )
}

/// The composite emitted by `s`: delete one character, then enter insert
/// mode.
pub open spec fn cmd_substitute_m() -> CmdM {
    CmdM::Multi(seq![delete_forward_one(), CmdM::Mode(Mode::Insert)])
}

/// The composite emitted by `S`: go to the first non-blank, delete to the
/// line end, then enter insert mode.
pub open spec fn cmd_substitute_line_m() -> CmdM {
    CmdM::Multi(
        seq![
            CmdM::Motion(one(MotionVariant::LeftRight(LeftRightMotion::FirstNonBlankCharacter))),
            CmdM::Op(
                Operator {
                    repeat: 1,
                    variant: OperatorVariant::Delete,
                    motion: one(MotionVariant::LeftRight(LeftRightMotion::LastCharacter)),
                },
            ),
            CmdM::Mode(Mode::Insert),
        ],
    )
}

/// The composite emitted by `dd`: go to the line start, then delete through
/// the line below's start — the whole line.
pub open spec fn cmd_delete_line_m() -> CmdM {
    CmdM::Multi(
        seq![
            CmdM::Motion(one(MotionVariant::LeftRight(LeftRightMotion::FirstCharacter))),
            CmdM::Op(
                Operator {
                    repeat: 1,
                    variant: OperatorVariant::Delete,
                    motion: one(MotionVariant::UpDown(UpDownMotion::Down(1))),
                },
            ),
        ],
    )
}

/// The normal-mode rule set, tried in this order.
pub open spec fn normal_parse(s: Seq<char>) -> ParseM {
    palt(
        rule_tag(s, "i"@, CmdM::Mode(Mode::Insert)),
        palt(
            rule_tag(s, "a"@, cmd_append_m()),
            palt(
                rule_tag(s, "o"@, cmd_open_below_m()),
                palt(
                    rule_tag(s, "O"@, cmd_open_above_m()),
                    palt(
                        rule_tag(s, "s"@, cmd_substitute_m()),
                        palt(
                            rule_tag(s, "S"@, cmd_substitute_line_m()),
                            palt(
                                rule_tag(s, ":"@, CmdM::Mode(Mode::Command(CommandMode::Command))),
                                palt(
                                    rule_tag(s, "/"@, CmdM::Mode(Mode::Command(CommandMode::Search))),
                                    palt(
                                        rule_tag(s, "x"@, delete_forward_one()),
                                        palt(
                                            rule_tag(s, "dd"@, cmd_delete_line_m()),
                                            palt(
                                                rule_tag(
                                                    s,
                                                    " "@,
                                                    CmdM::Motion(
                                                        one(
                                                            MotionVariant::Character(
                                                                CharacterMotion::Forward(1),
                                                            ),
                                                        ),
                                                    ),
                                                ),
                                                palt(
                                                    normal_motion_spec(s),
                                                    palt(
                                                        operator_rule(
                                                            s,
                                                            "d"@,
                                                            OperatorVariant::Delete,
                                                        ),
                                                        rule_tag(
                                                            s,
                                                            "<Delete>"@,
                                                            delete_forward_one(),
                                                        ),
                                                    ),
                                                ),
                                            ),
                                        ),
                                    ),
                                ),
                            ),
                        ),
                    ),
                ),
            ),
        ),
    )
}

/// The delete-forward shorthand as an executable command.
fn delete_forward_one_cmd() -> (r: Command)
    ensures
        cmd_corresponds(r, delete_forward_one()),
{
    Command::Buffer(
        BufferCommand::Operator(
            Operator {
                repeat: 1,
                variant: OperatorVariant::Delete,
                motion: Motion {
                    repeat: 1,
                    variant: MotionVariant::Character(CharacterMotion::Forward(1)),
                },
            },
        ),
    )
}

/// Recognize one normal-mode input against the whole rule set.
pub fn normal_command(input: &Vec<char>) -> (r: ParseResult)
    ensures
        parse_matches(r, normal_parse(input@)),
{
    let r = parse_tag_cmd(
        input,
        "i",
        Command::Context(ContextCommand::ChangeMode(Mode::Insert)),
        Ghost(CmdM::Mode(Mode::Insert)),
    );
    if !matches!(r, ParseResult::NoMatch) {
        return r;
    }
    let cmd = multi2(
        Command::Context(ContextCommand::ChangeMode(Mode::Insert)),
        Command::Buffer(
            BufferCommand::Motion(
                Motion { repeat: 1, variant: MotionVariant::LeftRight(LeftRightMotion::Right(1)) },
            ),
        ),
        Ghost(CmdM::Mode(Mode::Insert)),
        Ghost(CmdM::Motion(one(MotionVariant::LeftRight(LeftRightMotion::Right(1))))),
    );
    let r = parse_tag_cmd(input, "a", cmd, Ghost(cmd_append_m()));
    if !matches!(r, ParseResult::NoMatch) {
        return r;
    }
    let cmd = multi3(
        Command::Context(ContextCommand::ChangeMode(Mode::Insert)),
        Command::Buffer(
            BufferCommand::Motion(
                Motion {
                    repeat: 1,
                    variant: MotionVariant::LeftRight(LeftRightMotion::LastCharacter),
                },
            ),
        ),
        Command::Buffer(BufferCommand::Insert(newline_text())),
        Ghost(CmdM::Mode(Mode::Insert)),
        Ghost(CmdM::Motion(one(MotionVariant::LeftRight(LeftRightMotion::LastCharacter)))),
        Ghost(CmdM::Insert(seq!['\n'])),
    );
    let r = parse_tag_cmd(input, "o", cmd, Ghost(cmd_open_below_m()));
    if !matches!(r, ParseResult::NoMatch) {
        return r;
    }
    let cmd = multi4(
        Command::Context(ContextCommand::ChangeMode(Mode::Insert)),
        Command::Buffer(
            BufferCommand::Motion(
                Motion {
                    repeat: 1,
                    variant: MotionVariant::LeftRight(LeftRightMotion::FirstCharacter),
                },
            ),
        ),
        Command::Buffer(BufferCommand::Insert(newline_text())),
        Command::Buffer(
            BufferCommand::Motion(
                Motion { repeat: 1, variant: MotionVariant::UpDown(UpDownMotion::Up(1)) },
            ),
        ),
        Ghost(CmdM::Mode(Mode::Insert)),
        Ghost(CmdM::Motion(one(MotionVariant::LeftRight(LeftRightMotion::FirstCharacter)))),
        Ghost(CmdM::Insert(seq!['\n'])),
        Ghost(CmdM::Motion(one(MotionVariant::UpDown(UpDownMotion::Up(1))))),
    );
    let r = parse_tag_cmd(input, "O", cmd, Ghost(cmd_open_above_m()));
    if !matches!(r, ParseResult::NoMatch) {
        return r;
    }
    let cmd = multi2(
        delete_forward_one_cmd(),
        Command::Context(ContextCommand::ChangeMode(Mode::Insert)),
        Ghost(delete_forward_one()),
        Ghost(CmdM::Mode(Mode::Insert)),
    );
    let r = parse_tag_cmd(input, "s", cmd, Ghost(cmd_substitute_m()));
    if !matches!(r, ParseResult::NoMatch) {
        return r;
    }
    let cmd = multi3(
        Command::Buffer(
            BufferCommand::Motion(
                Motion {
                    repeat: 1,
                    variant: MotionVariant::LeftRight(LeftRightMotion::FirstNonBlankCharacter),
                },
            ),
        ),
        Command::Buffer(
            BufferCommand::Operator(
                Operator {
                    repeat: 1,
                    variant: OperatorVariant::Delete,
                    motion: Motion {
                        repeat: 1,
                        variant: MotionVariant::LeftRight(LeftRightMotion::LastCharacter),
                    },
                },
            ),
        ),
        Command::Context(ContextCommand::ChangeMode(Mode::Insert)),
        Ghost(CmdM::Motion(one(MotionVariant::LeftRight(LeftRightMotion::FirstNonBlankCharacter)))),
        Ghost(
            CmdM::Op(
                Operator {
                    repeat: 1,
                    variant: OperatorVariant::Delete,
                    motion: one(MotionVariant::LeftRight(LeftRightMotion::LastCharacter)),
                },
            ),
        ),
        Ghost(CmdM::Mode(Mode::Insert)),
    );
    let r = parse_tag_cmd(input, "S", cmd, Ghost(cmd_substitute_line_m()));
    if !matches!(r, ParseResult::NoMatch) {
        return r;
    }
    let r = parse_tag_cmd(
        input,
        ":",
        Command::Context(ContextCommand::ChangeMode(Mode::Command(CommandMode::Command))),
        Ghost(CmdM::Mode(Mode::Command(CommandMode::Command))),
    );
    if !matches!(r, ParseResult::NoMatch) {
        return r;
    }
    let r = parse_tag_cmd(
        input,
        "/",
        Command::Context(ContextCommand::ChangeMode(Mode::Command(CommandMode::Search))),
        Ghost(CmdM::Mode(Mode::Command(CommandMode::Search))),
    );
    if !matches!(r, ParseResult::NoMatch) {
        return r;
    }
    let r = parse_tag_cmd(input, "x", delete_forward_one_cmd(), Ghost(delete_forward_one()));
    if !matches!(r, ParseResult::NoMatch) {
        return r;
    }
    let cmd = multi2(
        Command::Buffer(
            BufferCommand::Motion(
                Motion {
                    repeat: 1,
                    variant: MotionVariant::LeftRight(LeftRightMotion::FirstCharacter),
                },
            ),
        ),
        Command::Buffer(
            BufferCommand::Operator(
                Operator {
                    repeat: 1,
                    variant: OperatorVariant::Delete,
                    motion: Motion {
                        repeat: 1,
                        variant: MotionVariant::UpDown(UpDownMotion::Down(1)),
                    },
                },
            ),
        ),
        Ghost(CmdM::Motion(one(MotionVariant::LeftRight(LeftRightMotion::FirstCharacter)))),
        Ghost(
            CmdM::Op(
                Operator {
                    repeat: 1,
                    variant: OperatorVariant::Delete,
                    motion: one(MotionVariant::UpDown(UpDownMotion::Down(1))),
                },
            ),
        ),
    );
    let r = parse_tag_cmd(input, "dd", cmd, Ghost(cmd_delete_line_m()));
    if !matches!(r, ParseResult::NoMatch) {
        return r;
    }
    let r = parse_tag_cmd(
        input,
        " ",
        Command::Buffer(
            BufferCommand::Motion(
                Motion {
                    repeat: 1,
                    variant: MotionVariant::Character(CharacterMotion::Forward(1)),
                },
            ),
        ),
        Ghost(CmdM::Motion(one(MotionVariant::Character(CharacterMotion::Forward(1))))),
    );
    if !matches!(r, ParseResult::NoMatch) {
        return r;
    }
    let r = normal_motion(input);
    if !matches!(r, ParseResult::NoMatch) {
        return r;
    }
    let r = normal_operator_rule(input, "d", OperatorVariant::Delete);
    if !matches!(r, ParseResult::NoMatch) {
        return r;
    }
    command_delete(input)
}

/// Recognize the delete key: the delete-forward-one-character shorthand.
pub fn command_delete(input: &Vec<char>) -> (r: ParseResult)
    ensures
        parse_matches(r, rule_tag(input@, "<Delete>"@, delete_forward_one())),
{
    parse_tag_cmd(input, "<Delete>", delete_forward_one_cmd(), Ghost(delete_forward_one()))
}

/// The one-character text a newline insertion carries.
pub(crate) fn newline_text() -> (r: Vec<char>)
    ensures
        r@ == seq!['\n'],
{
    let mut v: Vec<char> = Vec::new();
    v.push('\n');
    proof {
        assert(v@ =~= seq!['\n']);
    }
    v
}

} // verus!
