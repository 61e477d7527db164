//! The closed set of outcomes one resolution attempt can produce.

use vstd::prelude::*;

use crate::Command;
use crate::message::Message;
use crate::wrapper::CmdWrapper;

verus! {

/// Result of one resolution of an argument vector against a registry.
/// Every outcome is a value: a rejection is reported, never thrown.
pub enum CmdResult<C: Command> {
    /// Help has been requested with `-h` or `--help`.
    Help(Message),
    /// Help for a command has been requested with `help <cmd>`.
    HelpForCmd(CmdWrapper<C>),
    /// The invocation itself violates the grammar: an unknown option such
    /// as `--unknow-option`, help combined with other tokens, or no
    /// command token at all.
    BadUsage(Message),
    /// A well-formed invocation names a command that is not registered.
    UnknowCmd(Message),
    /// A known command has been requested and is ready to run.
    Cmd(CmdWrapper<C>),
}

} // verus!
