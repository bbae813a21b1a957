//! Commands: the small algebra of effects a grammar can emit, and the
//! primitive matchers the per-mode grammars are built from.
//!
//! A recognition attempt matches the entire buffered input and yields exactly
//! one of four outcomes: a match that consumes input and emits a command;
//! `Incomplete`, when the input is a proper prefix of a longer sequence;
//! `NoMatch`, when no rule or prefix of one matches; or `Fatal`, the reserved
//! signal of a grammar-authoring defect, which the built-in grammars never
//! produce.

use vstd::prelude::*;

use crate::mode::Mode;
use crate::motion::{Motion, MotionVariant};
use crate::operator::{Operator, OperatorVariant};

verus! {

/// A command aimed at the session context rather than at a buffer.
#[derive(Debug, Copy, Clone, PartialEq, Eq, Structural)]
pub enum ContextCommand {
    ChangeMode(Mode),
    RunCommand,
}

/// A command aimed at the active buffer.
#[derive(Debug, Clone, PartialEq, Eq)]
pub enum BufferCommand {
    Insert(Vec<char>),
    Motion(Motion),
    Operator(Operator),
}

/// The command algebra: context commands, buffer commands, raw text still to
/// be parsed by a mode grammar, and ordered composites.
#[derive(Debug, PartialEq, Eq)]
pub enum Command {
    Context(ContextCommand),
    Buffer(BufferCommand),
    Raw(Vec<char>),
    Multi(Vec<Command>),
}

/// Spec-level description of a command, with sequences for the owned parts.
pub enum CmdM {
    Mode(Mode),
    Run,
    Insert(Seq<char>),
    Motion(Motion),
    Op(Operator),
    Raw(Seq<char>),
    Multi(Seq<CmdM>),
}

/// A non-composite command matches its description.
pub open spec fn leaf_corresponds(c: Command, m: CmdM) -> bool {
    match m {
        CmdM::Mode(md) => c matches Command::Context(cc) && cc == ContextCommand::ChangeMode(md),
        CmdM::Run => c matches Command::Context(cc) && cc == ContextCommand::RunCommand,
        CmdM::Insert(t) => c matches Command::Buffer(BufferCommand::Insert(v)) && v@ == t,
        CmdM::Motion(mo) => c matches Command::Buffer(BufferCommand::Motion(m2)) && m2 == mo,
        CmdM::Op(o) => c matches Command::Buffer(BufferCommand::Operator(o2)) && o2 == o,
        CmdM::Raw(t) => c matches Command::Raw(v) && v@ == t,
        CmdM::Multi(_) => false,
    }
}

/// A command matches its description; a composite's children are all
/// non-composite, as every grammar here emits them.
pub open spec fn cmd_corresponds(c: Command, m: CmdM) -> bool {
    match m {
        CmdM::Multi(ms) => c matches Command::Multi(v) && v@.len() == ms.len() && (forall|i: int|
            0 <= i < ms.len() ==> leaf_corresponds(#[trigger] v@[i], ms[i])),
        _ => leaf_corresponds(c, m),
    }
}

/// Outcome of one recognition attempt on the buffered input. `Match` carries
/// the emitted command and how many characters were consumed. `Fatal` is the
/// reserved signal of a grammar-authoring defect; the built-in grammars never
/// produce it.
#[derive(Debug, PartialEq, Eq)]
pub enum ParseResult {
    Match(Command, usize),
    Incomplete,
    NoMatch,
    Fatal,
}

/// Spec-level outcome of one recognition attempt.
pub enum ParseM {
    Match { cmd: CmdM, used: int },
    Incomplete,
    NoMatch,
}

/// The emitted command of a spec-level match.
pub open spec fn parse_cmd(p: ParseM) -> CmdM {
    match p {
        ParseM::Match { cmd, used } => cmd,
        _ => CmdM::Run,
    }
}

/// An exec outcome realizes a spec outcome.
pub open spec fn parse_matches(r: ParseResult, m: ParseM) -> bool {
    match m {
        ParseM::Match { cmd, used } => r matches ParseResult::Match(c, u) && cmd_corresponds(
            c,
            cmd,
        ) && u == used,
        ParseM::Incomplete => r is Incomplete,
        ParseM::NoMatch => r is NoMatch,
    }
}

/// Try `a` first; only on `NoMatch` fall through to `b`. An `Incomplete`
/// outcome stops the chain: the input may still grow into the earlier rule.
pub open spec fn palt(a: ParseM, b: ParseM) -> ParseM {
    if a is NoMatch {
        b
    } else {
        a
    }
}

/// Outcome of matching one literal tag somewhere in the input.
pub enum TagM {
    Hit(int),
    Part,
    Miss,
}

/// Match `tag` against the input at `pos`: `Hit` with the end position when
/// the whole tag is there; `Part` when the input ends inside the tag but
/// agrees with it so far; `Miss` otherwise.
pub open spec fn tag_at(s: Seq<char>, pos: int, tag: Seq<char>) -> TagM {
    if pos + tag.len() <= s.len() {
        if s.subrange(pos, pos + tag.len()) == tag {
            TagM::Hit(pos + tag.len())
        } else {
            TagM::Miss
        }
    } else {
        if s.skip(pos) == tag.take(s.len() - pos) {
            TagM::Part
        } else {
            TagM::Miss
        }
    }
}

/// Exec outcome of matching one literal tag.
pub enum TagR {
    Hit(usize),
    Part,
    Miss,
}

pub open spec fn tagr_matches(r: TagR, m: TagM) -> bool {
    match m {
        TagM::Hit(e) => r matches TagR::Hit(u) && u == e,
        TagM::Part => r is Part,
        TagM::Miss => r is Miss,
    }
}

/// Match `tag` against the input at `pos`.
pub(crate) fn match_tag(input: &Vec<char>, pos: usize, tag: &str) -> (r: TagR)
    requires
        pos <= input@.len(),
    ensures
        tagr_matches(r, tag_at(input@, pos as int, tag@)),
{
    let tl = tag.unicode_len();
    let ilen = input.len();
    let mut i: usize = 0;
    while pos + i < input.len() && i < tl
        invariant
            pos + i <= ilen,
            ilen == input@.len(),
            i <= tl,
            tl == tag@.len(),
            pos <= input@.len(),
            forall|j: int| 0 <= j < i ==> input@[pos + j] == tag@[j],
        decreases tl - i,
    {
        if input[pos + i] != tag.get_char(i) {
            proof {
                if pos + tl <= input@.len() {
                    assert(input@.subrange(pos as int, pos + tl) != tag@) by {
                        assert(input@.subrange(pos as int, pos + tl)[i as int] != tag@[i as int]);
                    }
                } else {
                    assert(input@.skip(pos as int) != tag@.take(input@.len() - pos)) by {
                        assert(input@.skip(pos as int)[i as int] != tag@.take(
                            input@.len() - pos,
                        )[i as int]);
                    }
                }
            }
            return TagR::Miss;
        }
        i = i + 1;
    }
    if i == tl {
        proof {
            assert(input@.subrange(pos as int, pos + tl) =~= tag@);
        }
        TagR::Hit(pos + i)
    } else {
        proof {
            assert(input@.skip(pos as int) =~= tag@.take(input@.len() - pos));
        }
        TagR::Part
    }
}

/// An ASCII decimal digit.
pub open spec fn is_digit(c: char) -> bool {
    48 <= c as u32 <= 57
}

/// Numeric value of an ASCII digit; zero for any other character.
pub open spec fn digit_val(c: char) -> int {
    if is_digit(c) {
        c as u32 - 48
    } else {
        0
    }
}

/// First index at or after `pos` that does not hold an ASCII digit.
pub open spec fn digit_run_end(s: Seq<char>, pos: int) -> int
    decreases s.len() - pos,
{
    if 0 <= pos < s.len() && is_digit(s[pos]) {
        digit_run_end(s, pos + 1)
    } else {
        pos
    }
}

/// Decimal value of the digits in `s[pos..end)`.
pub open spec fn digits_val(s: Seq<char>, pos: int, end: int) -> int
    decreases end - pos,
{
    if pos >= end {
        0
    } else {
        digits_val(s, pos, end - 1) * 10 + digit_val(s[end - 1])
    }
}

pub proof fn lemma_digits_val_nonneg(s: Seq<char>, pos: int, end: int)
    ensures
        digits_val(s, pos, end) >= 0,
    decreases end - pos,
{
    if pos < end {
        lemma_digits_val_nonneg(s, pos, end - 1);
    }
}

/// The repeat count named by the digits before `pos`'s tag: the value of the
/// digit run at `pos`, or 1 when the run is empty or its value does not fit
/// in `usize`. An explicit `0` therefore names repeat count zero.
pub open spec fn repeat_of(s: Seq<char>, pos: int) -> int {
    let e = digit_run_end(s, pos);
    if e == pos || digits_val(s, pos, e) > usize::MAX {
        1
    } else {
        digits_val(s, pos, e)
    }
}

fn is_ascii_digit_char(c: char) -> (r: bool)
    ensures
        r == is_digit(c),
{
    let d = c as u32;
    48 <= d && d <= 57
}

/// Scan the digit run at `pos`: its end, and the repeat count it names.
pub(crate) fn scan_digits(input: &Vec<char>, pos: usize) -> (r: (usize, usize))
    requires
        pos <= input@.len(),
    ensures
        r.0 == digit_run_end(input@, pos as int),
        pos <= r.0 <= input@.len(),
        r.1 == repeat_of(input@, pos as int),
{
    let mut i = pos;
    let mut acc: usize = 0;
    let mut over: bool = false;
    while i < input.len() && is_ascii_digit_char(input[i])
        invariant
            pos <= i <= input@.len(),
            digit_run_end(input@, pos as int) == digit_run_end(input@, i as int),
            forall|j: int| pos <= j < i ==> 0 <= j < input@.len() && is_digit(#[trigger] input@[j]),
            !over ==> acc == digits_val(input@, pos as int, i as int),
            over ==> digits_val(input@, pos as int, i as int) > usize::MAX,
        decreases input@.len() - i,
    {
        proof {
            lemma_digits_val_nonneg(input@, pos as int, i as int);
        }
        let dv = (input[i] as u32 - 48) as usize;
        if over {
        } else {
            match acc.checked_mul(10) {
                Some(m10) => {
                    match m10.checked_add(dv) {
                        Some(v) => {
                            acc = v;
                        },
                        None => {
                            over = true;
                        },
                    }
                },
                None => {
                    over = true;
                },
            }
        }
        i = i + 1;
    }
    let rep = if i == pos || over {
        1
    } else {
        acc
    };
    (i, rep)
}

/// First index at or after `from` that holds `'<'`, or the input length.
pub open spec fn first_lt(s: Seq<char>, from: int) -> int
    decreases s.len() - from,
{
    if 0 <= from < s.len() {
        if s[from] == '<' {
            from
        } else {
            first_lt(s, from + 1)
        }
    } else {
        s.len() as int
    }
}

/// First index at or after `from` not holding an ASCII alphanumeric, or the
/// input length.
pub open spec fn alnum_end(s: Seq<char>, from: int) -> int
    decreases s.len() - from,
{
    if 0 <= from < s.len() && is_alnum(s[from]) {
        alnum_end(s, from + 1)
    } else {
        if 0 <= from <= s.len() {
            from
        } else {
            s.len() as int
        }
    }
}

/// An ASCII letter or digit.
pub open spec fn is_alnum(c: char) -> bool {
    ||| 48 <= c as u32 <= 57
    ||| 65 <= c as u32 <= 90
    ||| 97 <= c as u32 <= 122
}

fn is_alnum_char(c: char) -> (r: bool)
    ensures
        r == is_alnum(c),
{
    let d = c as u32;
    (48 <= d && d <= 57) || (65 <= d && d <= 90) || (97 <= d && d <= 122)
}

/// A rule recognizing one literal tag at the start of the input and emitting
/// a fixed command.
pub open spec fn rule_tag(s: Seq<char>, tag: Seq<char>, m: CmdM) -> ParseM {
    match tag_at(s, 0, tag) {
        TagM::Hit(u) => ParseM::Match { cmd: m, used: u },
        TagM::Part => ParseM::Incomplete,
        TagM::Miss => ParseM::NoMatch,
    }
}

/// Recognize one literal tag at the start of the input; emit `cmd`.
pub(crate) fn parse_tag_cmd(input: &Vec<char>, tag: &str, cmd: Command, Ghost(m): Ghost<CmdM>) -> (r:
    ParseResult)
    requires
        cmd_corresponds(cmd, m),
    ensures
        parse_matches(r, rule_tag(input@, tag@, m)),
{
    match match_tag(input, 0, tag) {
        TagR::Hit(u) => ParseResult::Match(cmd, u),
        TagR::Part => ParseResult::Incomplete,
        TagR::Miss => ParseResult::NoMatch,
    }
}

/// A rule recognizing an optional digit run, then one literal motion tag:
/// emits that motion with the digits as its repeat count.
pub open spec fn rule_motion(s: Seq<char>, tag: Seq<char>, v: MotionVariant) -> ParseM {
    let e = digit_run_end(s, 0);
    match tag_at(s, e, tag) {
        TagM::Hit(u) => ParseM::Match {
            cmd: CmdM::Motion(Motion { repeat: repeat_of(s, 0) as usize, variant: v }),
            used: u,
        },
        TagM::Part => ParseM::Incomplete,
        TagM::Miss => ParseM::NoMatch,
    }
}

/// Recognize a digit-prefixed motion tag; emit the motion command.
pub(crate) fn parse_motion_rule(input: &Vec<char>, tag: &str, variant: MotionVariant) -> (r:
    ParseResult)
    ensures
        parse_matches(r, rule_motion(input@, tag@, variant)),
{
    let (e, rep) = scan_digits(input, 0);
    match match_tag(input, e, tag) {
        TagR::Hit(u) => ParseResult::Match(
            Command::Buffer(BufferCommand::Motion(Motion { repeat: rep, variant })),
            u,
        ),
        TagR::Part => ParseResult::Incomplete,
        TagR::Miss => ParseResult::NoMatch,
    }
}

/// A rule recognizing any run of characters up to (not including) the first
/// `'<'`: emits it as literal text to insert. At least one character must be
/// consumed, so input that is empty or starts with `'<'` does not match.
pub open spec fn rule_insert(s: Seq<char>) -> ParseM {
    let e = first_lt(s, 0);
    if e == 0 {
        ParseM::NoMatch
    } else {
        ParseM::Match { cmd: CmdM::Insert(s.take(e)), used: e }
    }
}

/// Scan up to the first `'<'`.
pub(crate) fn find_lt(input: &Vec<char>) -> (r: usize)
    ensures
        r == first_lt(input@, 0),
        r <= input@.len(),
{
    let mut i: usize = 0;
    while i < input.len() && input[i] != '<'
        invariant
            i <= input@.len(),
            first_lt(input@, 0) == first_lt(input@, i as int),
        decreases input@.len() - i,
    {
        i = i + 1;
    }
    i
}

/// Recognize literal text up to the first `'<'`; emit it as an insertion.
pub fn command_insert(input: &Vec<char>) -> (r: ParseResult)
    ensures
        parse_matches(r, rule_insert(input@)),
{
    let e = find_lt(input);
    if e == 0 {
        ParseResult::NoMatch
    } else {
        let mut v: Vec<char> = Vec::new();
        crate::buffer::append_range(&mut v, input, 0, e);
        proof {
            assert(v@ =~= input@.take(e as int));
        }
        ParseResult::Match(Command::Buffer(BufferCommand::Insert(v)), e)
    }
}

/// Recognize literal text up to the first `'<'`; emit it as raw text.
pub open spec fn rule_raw(s: Seq<char>) -> ParseM {
    let e = first_lt(s, 0);
    if e == 0 {
        ParseM::NoMatch
    } else {
        ParseM::Match { cmd: CmdM::Raw(s.take(e)), used: e }
    }
}

pub fn command_raw(input: &Vec<char>) -> (r: ParseResult)
    ensures
        parse_matches(r, rule_raw(input@)),
{
    let e = find_lt(input);
    if e == 0 {
        ParseResult::NoMatch
    } else {
        let mut v: Vec<char> = Vec::new();
        crate::buffer::append_range(&mut v, input, 0, e);
        proof {
            assert(v@ =~= input@.take(e as int));
        }
        ParseResult::Match(Command::Raw(v), e)
    }
}

/// The whole-input rule of the entry point. A leading `'<'` opens a
/// bracketed token: alphanumerics then `'>'` are consumed opaquely as raw
/// text, input that ends inside the token is incomplete, and anything else is
/// no match. Other input is raw text up to the first `'<'`. Empty input is no
/// match.
pub open spec fn top_parse(s: Seq<char>) -> ParseM {
    if s.len() == 0 {
        ParseM::NoMatch
    } else if s[0] == '<' {
        let e = alnum_end(s, 1);
        if e == s.len() {
            ParseM::Incomplete
        } else if s[e] == '>' {
            ParseM::Match { cmd: CmdM::Raw(s.take(e + 1)), used: e + 1 }
        } else {
            ParseM::NoMatch
        }
    } else {
        rule_raw(s)
    }
}

/// The entry-point recognizer: the whole buffered input becomes raw text for
/// the active mode's grammar, either one bracketed token or a run of literal
/// characters.
pub fn command(input: &Vec<char>) -> (r: ParseResult)
    ensures
        parse_matches(r, top_parse(input@)),
{
    if input.len() == 0 {
        return ParseResult::NoMatch;
    }
    if input[0] == '<' {
        let mut i: usize = 1;
        while i < input.len() && is_alnum_char(input[i])
            invariant
                1 <= i <= input@.len(),
                alnum_end(input@, 1) == alnum_end(input@, i as int),
            decreases input@.len() - i,
        {
            i = i + 1;
        }
        if i == input.len() {
            ParseResult::Incomplete
        } else if input[i] == '>' {
            let mut v: Vec<char> = Vec::new();
            crate::buffer::append_range(&mut v, input, 0, i + 1);
            proof {
                assert(v@ =~= input@.take(i as int + 1));
            }
            ParseResult::Match(Command::Raw(v), i + 1)
        } else {
            ParseResult::NoMatch
        }
    } else {
        command_raw(input)
    }
}

/// An ordered composite of two non-composite commands.
pub(crate) fn multi2(a: Command, b: Command, Ghost(ma): Ghost<CmdM>, Ghost(mb): Ghost<CmdM>) -> (r:
    Command)
    requires
        leaf_corresponds(a, ma),
        leaf_corresponds(b, mb),
    ensures
        cmd_corresponds(r, CmdM::Multi(seq![ma, mb])),
{
    let mut v: Vec<Command> = Vec::new();
    v.push(a);
    v.push(b);
    Command::Multi(v)
}

/// An ordered composite of three non-composite commands.
pub(crate) fn multi3(
    a: Command,
    b: Command,
    c: Command,
    Ghost(ma): Ghost<CmdM>,
    Ghost(mb): Ghost<CmdM>,
    Ghost(mc): Ghost<CmdM>,
) -> (r: Command)
    requires
        leaf_corresponds(a, ma),
        leaf_corresponds(b, mb),
        leaf_corresponds(c, mc),
    ensures
        cmd_corresponds(r, CmdM::Multi(seq![ma, mb, mc])),
{
    let mut v: Vec<Command> = Vec::new();
    v.push(a);
    v.push(b);
    v.push(c);
    Command::Multi(v)
}

/// An ordered composite of four non-composite commands.
pub(crate) fn multi4(
    a: Command,
    b: Command,
    c: Command,
    d: Command,
    Ghost(ma): Ghost<CmdM>,
    Ghost(mb): Ghost<CmdM>,
    Ghost(mc): Ghost<CmdM>,
    Ghost(md): Ghost<CmdM>,
) -> (r: Command)
    requires
        leaf_corresponds(a, ma),
        leaf_corresponds(b, mb),
        leaf_corresponds(c, mc),
        leaf_corresponds(d, md),
    ensures
        cmd_corresponds(r, CmdM::Multi(seq![ma, mb, mc, md])),
{
    let mut v: Vec<Command> = Vec::new();
    v.push(a);
    v.push(b);
    v.push(c);
    v.push(d);
    Command::Multi(v)
}

impl Command {
    /// A buffer command moving by `variant`, `repeat` times.
    pub fn motion(repeat: usize, variant: MotionVariant) -> (r: Command)
        ensures
            r matches Command::Buffer(bc) && bc == BufferCommand::Motion(
                Motion { repeat, variant },
            ),
    {
        Command::Buffer(BufferCommand::Motion(Motion { repeat, variant }))
    }

    /// A buffer command applying an operator bounded by `motion`.
    pub fn operator(repeat: usize, variant: OperatorVariant, motion: Motion) -> (r: Command)
        ensures
            r matches Command::Buffer(bc) && bc == BufferCommand::Operator(
                Operator { repeat, variant, motion },
            ),
    {
        Command::Buffer(BufferCommand::Operator(Operator { repeat, variant, motion }))
    }
}

} // verus!
