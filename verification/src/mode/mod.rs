//! Modes: the interpretation context that selects the active buffer and
//! grammar. Transitions happen only through mode-change commands emitted by a
//! grammar.

pub mod command;
pub mod insert;
pub mod normal;

use vstd::prelude::*;

verus! {

/// The sub-mode of command mode: an ex-style command line or a search line.
#[derive(Debug, Copy, Clone, PartialEq, Eq, Structural)]
pub enum CommandMode {
    Command,
    Search,
}

/// The top-level mode. The initial mode is `Normal`; there is no terminal
/// mode.
#[derive(Debug, Copy, Clone, PartialEq, Eq, Structural)]
pub enum Mode {
    Normal,
    Insert,
    Command(CommandMode),
}

impl Default for Mode {
    /// The initial mode.
    fn default() -> (r: Self)
        ensures
            r == Mode::Normal,
    {
        Mode::Normal
    }
}

impl Mode {
    /// A short name for display.
    pub fn name(&self) -> (r: &'static str)
        ensures
            self is Normal ==> r@ == "Normal"@,
            self is Insert ==> r@ == "Insert"@,
            self is Command ==> r@ == "Command"@,
    {
        match self {
            Mode::Normal => "Normal",
            Mode::Insert => "Insert",
            Mode::Command(_) => "Command",
        }
    }
}

} // verus!
