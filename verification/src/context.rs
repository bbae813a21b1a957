//! The session context: the three buffers, the current mode, and the single
//! entry point that turns raw input into effects. The whole session is a pure
//! transition function from a state and an input to a state, an outcome, and
//! the texts the run-command hook is to be invoked with.

use vstd::prelude::*;

use crate::buffer::{
    cursor_wf, insert_cursor_spec, insert_text_spec, line_start_at, Buffer, BufferModel, Cursor,
};
use crate::buffer::find_nl;
use crate::command::{
    cmd_corresponds, command, leaf_corresponds, parse_cmd, top_parse, BufferCommand, CmdM, Command,
    ContextCommand, ParseM, ParseResult,
};
use crate::mode::command::{command_command, command_parse};
use crate::mode::insert::{insert_command, insert_parse};
use crate::mode::normal::{normal_command, normal_parse};
use crate::mode::{CommandMode, Mode};
use crate::motion::apply_motion;
use crate::motion::up_down::count_newlines;
use crate::operator::{operator_cursor_spec, operator_text_spec};
use crate::text::{line_count, line_end, line_len, line_start, nl_upto};

verus! {

/// Which of the three buffers a command acts on.
#[derive(Debug, Copy, Clone, PartialEq, Eq, Structural)]
pub enum BufferId {
    Edit,
    Command,
    Search,
}

/// Outcome of feeding input to the context. The caller clears its
/// accumulated input on `Consumed` and `NoMatch`, keeps it on `Incomplete`,
/// and treats `Fatal` as a grammar-authoring defect; the built-in grammars
/// never produce `Fatal`.
#[derive(Debug, Copy, Clone, PartialEq, Eq, Structural)]
pub enum InputOutcome {
    Consumed,
    Incomplete,
    NoMatch,
    Fatal,
}

/// Model of a context: the mode and the three buffer models.
#[verifier::ext_equal]
pub struct ContextModel {
    pub mode: Mode,
    pub edit: BufferModel,
    pub cmdline: BufferModel,
    pub search: BufferModel,
}

/// The buffer a mode acts on: normal and insert mode edit the document, the
/// command sub-modes edit their own lines.
pub open spec fn mode_buffer_id(m: Mode) -> BufferId {
    match m {
        Mode::Normal => BufferId::Edit,
        Mode::Insert => BufferId::Edit,
        Mode::Command(CommandMode::Command) => BufferId::Command,
        Mode::Command(CommandMode::Search) => BufferId::Search,
    }
}

/// Only normal mode forbids the cursor to rest one past the line end.
pub open spec fn mode_block(m: Mode) -> bool {
    m is Normal
}

/// The model of one of the context's buffers.
pub open spec fn buffer_of(c: ContextModel, id: BufferId) -> BufferModel {
    match id {
        BufferId::Edit => c.edit,
        BufferId::Command => c.cmdline,
        BufferId::Search => c.search,
    }
}

/// The context with one buffer's model replaced.
pub open spec fn set_buffer(c: ContextModel, id: BufferId, b: BufferModel) -> ContextModel {
    match id {
        BufferId::Edit => ContextModel { edit: b, ..c },
        BufferId::Command => ContextModel { cmdline: b, ..c },
        BufferId::Search => ContextModel { search: b, ..c },
    }
}

/// The committed command-line text: the last line of the buffer, or the line
/// before it when a committing newline has just been appended.
pub open spec fn committed_line(t: Seq<char>) -> Seq<char> {
    let n = line_count(t);
    if n >= 2 && line_len(t, n - 1) == 0 {
        t.subrange(line_start(t, n - 2), line_end(t, n - 2))
    } else {
        t.subrange(line_start(t, n - 1), line_end(t, n - 1))
    }
}

/// One buffer command applied to one buffer.
pub open spec fn buffer_step(b: BufferModel, bc: BufferCommand, block: bool) -> BufferModel {
    match bc {
        BufferCommand::Insert(t) => BufferModel {
            text: insert_text_spec(b.text, b.cursor, t@),
            cursor: insert_cursor_spec(b.text, b.cursor, t@, block),
        },
        BufferCommand::Motion(m) => BufferModel {
            text: b.text,
            cursor: apply_motion(b.text, b.cursor, m, block),
        },
        BufferCommand::Operator(o) => BufferModel {
            text: operator_text_spec(b.text, b.cursor, o),
            cursor: operator_cursor_spec(b.text, b.cursor, o),
        },
    }
}

/// One non-composite command applied to the context: a mode change, the
/// run-command hook firing with the committed command-line text, or a buffer
/// command aimed at the mode's active buffer. Raw and composite commands are
/// not leaves; here they do nothing.
pub open spec fn leaf_step(c: ContextModel, m: CmdM) -> (ContextModel, Seq<Seq<char>>) {
    match m {
        CmdM::Mode(md) => (ContextModel { mode: md, ..c }, Seq::empty()),
        CmdM::Run => (c, seq![committed_line(c.cmdline.text)]),
        CmdM::Insert(t) => {
            let id = mode_buffer_id(c.mode);
            let b = buffer_of(c, id);
            (
                set_buffer(
                    c,
                    id,
                    BufferModel {
                        text: insert_text_spec(b.text, b.cursor, t),
                        cursor: insert_cursor_spec(b.text, b.cursor, t, mode_block(c.mode)),
                    },
                ),
                Seq::empty(),
            )
        },
        CmdM::Motion(mo) => {
            let id = mode_buffer_id(c.mode);
            let b = buffer_of(c, id);
            (
                set_buffer(
                    c,
                    id,
                    BufferModel {
                        text: b.text,
                        cursor: apply_motion(b.text, b.cursor, mo, mode_block(c.mode)),
                    },
                ),
                Seq::empty(),
            )
        },
        CmdM::Op(o) => {
            let id = mode_buffer_id(c.mode);
            let b = buffer_of(c, id);
            (
                set_buffer(
                    c,
                    id,
                    BufferModel {
                        text: operator_text_spec(b.text, b.cursor, o),
                        cursor: operator_cursor_spec(b.text, b.cursor, o),
                    },
                ),
                Seq::empty(),
            )
        },
        CmdM::Raw(_) => (c, Seq::empty()),
        CmdM::Multi(_) => (c, Seq::empty()),
    }
}

/// The children of a composite from position `i` on, applied in order; each
/// runs in the state the one before left, and the hook texts accumulate in
/// order.
pub open spec fn multi_step(c: ContextModel, ms: Seq<CmdM>, i: int) -> (ContextModel, Seq<
    Seq<char>,
>)
    decreases ms.len() - i,
{
    if 0 <= i < ms.len() {
        let first = leaf_step(c, ms[i]);
        let rest = multi_step(first.0, ms, i + 1);
        (rest.0, first.1 + rest.1)
    } else {
        (c, Seq::empty())
    }
}

/// One parsed command applied to the context.
pub open spec fn cmd_step(c: ContextModel, m: CmdM) -> (ContextModel, Seq<Seq<char>>) {
    match m {
        CmdM::Multi(ms) => multi_step(c, ms, 0),
        _ => leaf_step(c, m),
    }
}

/// The grammar the mode selects.
pub open spec fn mode_parse(m: Mode, s: Seq<char>) -> ParseM {
    match m {
        Mode::Normal => normal_parse(s),
        Mode::Insert => insert_parse(s),
        Mode::Command(_) => command_parse(s),
    }
}

/// Result of one whole input step: the new context, the texts the
/// run-command hook fires with, in order, and the outcome for the caller.
pub struct StepModel {
    pub ctx: ContextModel,
    pub runs: Seq<Seq<char>>,
    pub outcome: InputOutcome,
}

/// The whole transition function: the entry point tokenizes the buffered
/// input into raw text, the mode's grammar recognizes it, and the emitted
/// command is dispatched. State changes only on a full match.
pub open spec fn step_spec(c: ContextModel, s: Seq<char>) -> StepModel {
    match top_parse(s) {
        ParseM::Match { cmd, used } => match cmd {
            CmdM::Raw(payload) => match mode_parse(c.mode, payload) {
                ParseM::Match { cmd: inner, used: _ } => {
                    let stepped = cmd_step(c, inner);
                    StepModel { ctx: stepped.0, runs: stepped.1, outcome: InputOutcome::Consumed }
                },
                ParseM::Incomplete => StepModel {
                    ctx: c,
                    runs: Seq::empty(),
                    outcome: InputOutcome::Incomplete,
                },
                ParseM::NoMatch => StepModel {
                    ctx: c,
                    runs: Seq::empty(),
                    outcome: InputOutcome::NoMatch,
                },
            },
            _ => StepModel { ctx: c, runs: Seq::empty(), outcome: InputOutcome::NoMatch },
        },
        ParseM::Incomplete => StepModel {
            ctx: c,
            runs: Seq::empty(),
            outcome: InputOutcome::Incomplete,
        },
        ParseM::NoMatch => StepModel { ctx: c, runs: Seq::empty(), outcome: InputOutcome::NoMatch },
    }
}

/// The hook texts an optional single hook invocation contributes.
pub open spec fn opt_runs(r: Option<Vec<char>>) -> Seq<Seq<char>> {
    match r {
        Some(v) => seq![v@],
        None => Seq::empty(),
    }
}

/// The views of a list of hook texts.
pub open spec fn runs_view(v: Seq<Vec<char>>) -> Seq<Seq<char>> {
    v.map_values(|x: Vec<char>| x@)
}

/// The session context: the current mode and the three buffers it switches
/// between.
#[derive(Debug)]
pub struct Context {
    pub mode: Mode,
    pub buffer_edit: Buffer,
    pub buffer_command: Buffer,
    pub buffer_search: Buffer,
}

impl View for Context {
    type V = ContextModel;

    open spec fn view(&self) -> ContextModel {
        ContextModel {
            mode: self.mode,
            edit: self.buffer_edit@,
            cmdline: self.buffer_command@,
            search: self.buffer_search@,
        }
    }
}

/// Extract the characters of one whole line.
fn line_text(text: &Vec<char>, row: usize) -> (r: Vec<char>)
    requires
        row as int <= nl_upto(text@, text@.len() as int),
    ensures
        r@ == text@.subrange(line_start(text@, row as int), line_end(text@, row as int)),
{
    let ls = line_start_at(text, row);
    let le = find_nl(text, ls);
    let mut r: Vec<char> = Vec::new();
    crate::buffer::append_range(&mut r, text, ls, le);
    proof {
        assert(r@ =~= text@.subrange(ls as int, le as int));
    }
    r
}

impl Context {
    /// Every buffer's cursor is well formed.
    pub open spec fn wf(&self) -> bool {
        &&& cursor_wf(self@.edit.text, self@.edit.cursor)
        &&& cursor_wf(self@.cmdline.text, self@.cmdline.cursor)
        &&& cursor_wf(self@.search.text, self@.search.cursor)
    }

    /// A fresh session over the given texts: normal mode, every cursor at the
    /// origin.
    pub fn new(buffer_edit: Vec<char>, buffer_command: Vec<char>, buffer_search: Vec<char>) -> (r:
        Context)
        ensures
            r.wf(),
            r@.mode == Mode::Normal,
            r@.edit.text == buffer_edit@,
            r@.cmdline.text == buffer_command@,
            r@.search.text == buffer_search@,
            r@.edit.cursor == (Cursor { column: 0, row: 0, target_column: 0 }),
            r@.cmdline.cursor == (Cursor { column: 0, row: 0, target_column: 0 }),
            r@.search.cursor == (Cursor { column: 0, row: 0, target_column: 0 }),
    {
        Context {
            mode: Mode::Normal,
            buffer_edit: Buffer::new(buffer_edit),
            buffer_command: Buffer::new(buffer_command),
            buffer_search: Buffer::new(buffer_search),
        }
    }

    /// The committed command-line text: what the run-command hook receives.
    pub fn command(&self) -> (r: Vec<char>)
        ensures
            r@ == committed_line(self@.cmdline.text),
    {
        let last = count_newlines(&self.buffer_command.text);
        let ls = line_start_at(&self.buffer_command.text, last);
        let le = find_nl(&self.buffer_command.text, ls);
        let row = if last >= 1 && le == ls {
            last - 1
        } else {
            last
        };
        line_text(&self.buffer_command.text, row)
    }

    /// Switch to the given mode.
    pub fn set_mode(&mut self, mode: Mode)
        ensures
            final(self)@ == (ContextModel { mode, ..old(self)@ }),
    {
        self.mode = mode;
        proof {
            assert(self@ =~= (ContextModel { mode, ..old(self)@ }));
        }
    }

    /// The named buffer.
    pub fn buffer(&self, buffer: BufferId) -> (r: &Buffer)
        ensures
            r@ == buffer_of(self@, buffer),
    {
        match buffer {
            BufferId::Edit => &self.buffer_edit,
            BufferId::Command => &self.buffer_command,
            BufferId::Search => &self.buffer_search,
        }
    }

    /// The named buffer, for mutation.
    pub fn buffer_mut(&mut self, buffer: BufferId) -> (r: &mut Buffer)
        ensures
            r@ == buffer_of(old(self)@, buffer),
            final(self)@ == set_buffer(old(self)@, buffer, final(r)@),
    {
        proof {
            assert(set_buffer(old(self)@, buffer, buffer_of(old(self)@, buffer)) =~= old(self)@);
        }
        match buffer {
            BufferId::Edit => &mut self.buffer_edit,
            BufferId::Command => &mut self.buffer_command,
            BufferId::Search => &mut self.buffer_search,
        }
    }

    /// The buffer the current mode acts on.
    pub fn active_buffer_id(&self) -> (r: BufferId)
        ensures
            r == mode_buffer_id(self@.mode),
    {
        match self.mode {
            Mode::Normal | Mode::Insert => BufferId::Edit,
            Mode::Command(CommandMode::Command) => BufferId::Command,
            Mode::Command(CommandMode::Search) => BufferId::Search,
        }
    }

    /// The active buffer.
    pub fn active_buffer(&self) -> (r: &Buffer)
        ensures
            r@ == buffer_of(self@, mode_buffer_id(self@.mode)),
    {
        let id = self.active_buffer_id();
        self.buffer(id)
    }

    /// The active buffer, for mutation.
    pub fn active_buffer_mut(&mut self) -> (r: &mut Buffer)
        ensures
            r@ == buffer_of(old(self)@, mode_buffer_id(old(self)@.mode)),
            final(self)@ == set_buffer(old(self)@, mode_buffer_id(old(self)@.mode), final(r)@),
    {
        let id = self.active_buffer_id();
        self.buffer_mut(id)
    }

    /// Whether the current mode forbids resting one past the line end.
    pub fn block_newline(&self) -> (r: bool)
        ensures
            r == mode_block(self@.mode),
    {
        match self.mode {
            Mode::Normal => true,
            Mode::Insert => false,
            Mode::Command(_) => false,
        }
    }

    /// Apply one non-composite command; the returned text, if any, is what
    /// the run-command hook fires with.
    fn dispatch_leaf(&mut self, cmd: &Command, Ghost(m): Ghost<CmdM>) -> (r: Option<Vec<char>>)
        requires
            old(self).wf(),
            leaf_corresponds(*cmd, m),
        ensures
            final(self).wf(),
            final(self)@ == leaf_step(old(self)@, m).0,
            opt_runs(r) == leaf_step(old(self)@, m).1,
    {
        match cmd {
            Command::Context(cc) => match cc {
                ContextCommand::RunCommand => {
                    let t = self.command();
                    proof {
                        assert(opt_runs(Some(t)) =~= leaf_step(old(self)@, m).1);
                        assert(self@ =~= leaf_step(old(self)@, m).0);
                    }
                    Some(t)
                },
                ContextCommand::ChangeMode(md) => {
                    self.mode = *md;
                    proof {
                        assert(self@ =~= leaf_step(old(self)@, m).0);
                        assert(opt_runs(None::<Vec<char>>) =~= leaf_step(old(self)@, m).1);
                    }
                    None
                },
            },
            Command::Buffer(bc) => {
                let block = self.block_newline();
                let id = self.active_buffer_id();
                match id {
                    BufferId::Edit => apply_buffer_command(&mut self.buffer_edit, bc, block),
                    BufferId::Command => apply_buffer_command(&mut self.buffer_command, bc, block),
                    BufferId::Search => apply_buffer_command(&mut self.buffer_search, bc, block),
                }
                proof {
                    assert(self@ =~= leaf_step(old(self)@, m).0);
                    assert(opt_runs(None::<Vec<char>>) =~= leaf_step(old(self)@, m).1);
                }
                None
            },
            Command::Raw(_) => {
                proof {
                    assert(opt_runs(None::<Vec<char>>) =~= leaf_step(old(self)@, m).1);
                }
                None
            },
            Command::Multi(_) => {
                proof {
                    assert(false);
                }
                None
            },
        }
    }

    /// Apply one parsed command: a composite runs its children strictly in
    /// order, with no rollback; hook texts append to `runs` in firing order.
    fn input_command(&mut self, cmd: &Command, Ghost(m): Ghost<CmdM>, runs: &mut Vec<Vec<char>>)
        requires
            old(self).wf(),
            cmd_corresponds(*cmd, m),
        ensures
            final(self).wf(),
            final(self)@ == cmd_step(old(self)@, m).0,
            runs_view(final(runs)@) == runs_view(old(runs)@) + cmd_step(old(self)@, m).1,
    {
        match cmd {
            Command::Multi(v) => {
                let ghost ms = multi_parts(m);
                let mut i: usize = 0;
                while i < v.len()
                    invariant
                        0 <= i <= v@.len(),
                        v@.len() == ms.len(),
                        self.wf(),
                        forall|k: int| 0 <= k < ms.len() ==> leaf_corresponds(#[trigger] v@[k], ms[k]),
                        multi_step(old(self)@, ms, 0).0 == multi_step(self@, ms, i as int).0,
                        runs_view(old(runs)@) + multi_step(old(self)@, ms, 0).1 == runs_view(runs@)
                            + multi_step(self@, ms, i as int).1,
                    decreases v@.len() - i,
                {
                    let ghost pre = self@;
                    let ghost pre_runs = runs@;
                    let r = self.dispatch_leaf(&v[i], Ghost(ms[i as int]));
                    match r {
                        Some(t) => {
                            runs.push(t);
                            proof {
                                assert(runs_view(runs@) =~= runs_view(pre_runs).push(t@));
                            }
                        },
                        None => {},
                    }
                    proof {
                        assert(multi_step(pre, ms, i as int).0 == multi_step(
                            self@,
                            ms,
                            i as int + 1,
                        ).0);
                        assert(runs_view(pre_runs) + multi_step(pre, ms, i as int).1 =~= runs_view(
                            runs@,
                        ) + multi_step(self@, ms, i as int + 1).1);
                    }
                    i = i + 1;
                }
                proof {
                    assert(runs_view(old(runs)@) + multi_step(old(self)@, ms, 0).1 =~= runs_view(
                        runs@,
                    ));
                    assert(runs_view(runs@) =~= runs_view(old(runs)@) + cmd_step(old(self)@, m).1);
                }
            },
            _ => {
                let r = self.dispatch_leaf(cmd, Ghost(m));
                match r {
                    Some(t) => {
                        runs.push(t);
                        proof {
                            assert(runs_view(runs@) =~= runs_view(old(runs)@).push(t@));
                            assert(runs_view(runs@) =~= runs_view(old(runs)@) + cmd_step(
                                old(self)@,
                                m,
                            ).1);
                        }
                    },
                    None => {
                        proof {
                            assert(runs_view(runs@) =~= runs_view(old(runs)@) + cmd_step(
                                old(self)@,
                                m,
                            ).1);
                        }
                    },
                }
            },
        }
    }

    /// Feed the whole not-yet-consumed input to the context: tokenize it,
    /// recognize it with the current mode's grammar, and dispatch whatever
    /// command results. Returns the outcome for the caller's accumulation
    /// discipline and the committed texts the run-command hook fires with, in
    /// order.
    pub fn input_str(&mut self, input: &str) -> (r: (InputOutcome, Vec<Vec<char>>))
        requires
            old(self).wf(),
        ensures
            final(self).wf(),
            final(self)@ == step_spec(old(self)@, input@).ctx,
            r.0 == step_spec(old(self)@, input@).outcome,
            runs_view(r.1@) == step_spec(old(self)@, input@).runs,
    {
        let chars = str_to_chars(input);
        let top = command(&chars);
        match top {
            ParseResult::Match(cmd, _used) => match cmd {
                Command::Raw(payload) => {
                    let ghost pm = mode_parse(self@.mode, payload@);
                    let pr = match self.mode {
                        Mode::Normal => normal_command(&payload),
                        Mode::Insert => insert_command(&payload),
                        Mode::Command(_) => command_command(&payload),
                    };
                    match pr {
                        ParseResult::Match(inner, _u) => {
                            let mut runs: Vec<Vec<char>> = Vec::new();
                            proof {
                                assert(runs_view(runs@) =~= Seq::<Seq<char>>::empty());
                            }
                            self.input_command(&inner, Ghost(parse_cmd(pm)), &mut runs);
                            proof {
                                assert(runs_view(runs@) =~= step_spec(old(self)@, input@).runs);
                            }
                            (InputOutcome::Consumed, runs)
                        },
                        ParseResult::Incomplete => (InputOutcome::Incomplete, Vec::new()),
                        ParseResult::NoMatch => (InputOutcome::NoMatch, Vec::new()),
                        ParseResult::Fatal => {
                            proof {
                                assert(false);
                            }
                            (InputOutcome::Fatal, Vec::new())
                        },
                    }
                },
                _ => {
                    proof {
                        assert(false);
                    }
                    (InputOutcome::NoMatch, Vec::new())
                },
            },
            ParseResult::Incomplete => (InputOutcome::Incomplete, Vec::new()),
            ParseResult::NoMatch => (InputOutcome::NoMatch, Vec::new()),
            ParseResult::Fatal => {
                proof {
                    assert(false);
                }
                (InputOutcome::Fatal, Vec::new())
            },
        }
    }
}

/// The children of a composite description.
pub open spec fn multi_parts(m: CmdM) -> Seq<CmdM> {
    match m {
        CmdM::Multi(ms) => ms,
        _ => Seq::empty(),
    }
}

/// Apply one buffer command to one buffer.
fn apply_buffer_command(buf: &mut Buffer, bc: &BufferCommand, block: bool)
    requires
        old(buf).wf(),
    ensures
        final(buf).wf(),
        final(buf)@ == buffer_step(old(buf)@, *bc, block),
{
    match bc {
        BufferCommand::Insert(t) => {
            buf.insert(t, block);
            proof {
                assert(buf@ =~= buffer_step(old(buf)@, *bc, block));
            }
        },
        BufferCommand::Motion(m) => {
            buf.motion(*m, block);
            proof {
                assert(buf@ =~= buffer_step(old(buf)@, *bc, block));
            }
        },
        BufferCommand::Operator(o) => {
            buf.operator(*o);
            proof {
                assert(buf@ =~= buffer_step(old(buf)@, *bc, block));
            }
        },
    }
}

/// The characters of a string, in order.
fn str_to_chars(s: &str) -> (v: Vec<char>)
    ensures
        v@ == s@,
{
    let n = s.unicode_len();
    let mut v: Vec<char> = Vec::new();
    let mut i: usize = 0;
    while i < n
        invariant
            i <= n,
            n == s@.len(),
            v@ == s@.take(i as int),
        decreases n - i,
    {
        v.push(s.get_char(i));
        proof {
            assert(s@.take(i as int + 1) =~= s@.take(i as int).push(s@[i as int]));
        }
        i = i + 1;
    }
    proof {
        assert(s@.take(n as int) =~= s@);
    }
    v
}

} // verus!
