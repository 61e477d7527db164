//! Pairs a subcommand taken out of the registry with the full argument
//! vector it should receive, deferring the actual invocation.

use vstd::prelude::*;

use crate::Command;
use crate::message::write_stdout_line;

verus! {

/// This wrapper holds a command object and an argument vector. The command
/// was moved out of the registry, so the wrapper owns it exclusively; the
/// arguments are the entire original argv, program name included.
pub struct CmdWrapper<C: Command> {
    cmd: Box<C>,
    args: Vec<String>,
}

impl<C: Command> CmdWrapper<C> {
    /// The held command, as the contracts see it.
    pub closed spec fn spec_cmd(&self) -> C {
        *self.cmd
    }

    /// The held argument vector, as the contracts see it.
    pub closed spec fn spec_args(&self) -> Seq<Seq<char>> {
        self.args.deep_view()
    }

    /// Create a new wrapper.
    pub fn new(cmd: Box<C>, args: Vec<String>) -> (r: CmdWrapper<C>)
        ensures
            r.spec_cmd() == *cmd,
            r.spec_args() == args.deep_view(),
    {
        CmdWrapper { cmd, args }
    }

    /// Get the name of the wrapped command.
    pub fn name(&self) -> (r: &str)
        ensures
            r@ == self.spec_cmd().spec_name(),
    {
        self.cmd.name()
    }

    /// Get a string with help info.
    pub fn help(&self) -> (r: &str)
        ensures
            r@ == self.spec_cmd().spec_help(),
    {
        self.cmd.help()
    }

    /// Print the help of the wrapped command.
    pub fn print_help(&self) {
        let text = self.help();
        write_stdout_line(text);
    }

    /// Run the command, handing it the stored argument vector. The wrapper
    /// adds no effects of its own.
    pub fn run(&self) {
        self.cmd.run(&self.args);
    }

    /// Return the embedded command.
    pub fn unwrap(self) -> (r: Box<C>)
        ensures
            *r == self.spec_cmd(),
    {
        self.cmd
    }
}

} // verus!
