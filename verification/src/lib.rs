//! Cargo-style subcommand front end.
//!
//! A `CmdHandler` owns a registry of subcommands, parses a raw argument
//! vector, and resolves it to a `CmdResult`: show help, show help for one
//! command, report a bad invocation, report an unknown command, or dispatch
//! to a command.

use vstd::prelude::*;

mod handler;
mod message;
mod result;
mod wrapper;

pub use handler::CmdHandler;
pub use handler::arg_prog;
pub use handler::arg_tail;
pub use handler::bad_usage_text;
pub use handler::before_eq;
pub use handler::brief_text;
pub use handler::command_row;
pub use handler::command_rows;
pub use handler::edit_distance;
pub use handler::first_name_match;
pub use handler::has_close_name;
pub use handler::has_eq;
pub use handler::help_text;
pub use handler::is_bad_usage_result;
pub use handler::is_flag_token;
pub use handler::is_help_result;
pub use handler::is_suggestion_result;
pub use handler::is_unknown_result;
pub use handler::lemma_help_alone_shows_help;
pub use handler::lemma_unknown_flag_is_malformed;
pub use handler::long_names_help;
pub use handler::names_of;
pub use handler::parse_flags;
pub use handler::resolution;
pub use handler::short_all_help;
pub use handler::short_usage_text;
pub use handler::suggestion_winner;
pub use handler::tab_aligned;
pub use handler::top_level_parse;
pub use handler::usage_of;
pub use message::Message;
pub use message::MsgOp;
pub use message::lemma_message_round_trip;
pub use message::op_text;
pub use message::ops_text;
pub use message::red_wrapped;
pub use message::text_after;
pub use result::CmdResult;
pub use wrapper::CmdWrapper;

verus! {

/// Whether `needle` occurs contiguously somewhere in `hay`.
pub open spec fn has_substring(hay: Seq<char>, needle: Seq<char>) -> bool {
    exists|i: int|
        0 <= i && i + needle.len() <= hay.len() && #[trigger] hay.subrange(i, i + needle.len())
            == needle
}

/// `needle` occurs in `hay` at position `i`.
pub proof fn lemma_substring_at(hay: Seq<char>, needle: Seq<char>, i: int)
    requires
        0 <= i,
        i + needle.len() <= hay.len(),
        hay.subrange(i, i + needle.len()) == needle,
    ensures
        has_substring(hay, needle),
{
}

/// A substring of the left part survives extending the text to the right.
pub proof fn lemma_substring_extends_right(a: Seq<char>, b: Seq<char>, needle: Seq<char>)
    requires
        has_substring(a, needle),
    ensures
        has_substring(a + b, needle),
{
    let i = choose|i: int|
        0 <= i && i + needle.len() <= a.len() && #[trigger] a.subrange(i, i + needle.len())
            == needle;
    assert((a + b).subrange(i, i + needle.len()) =~= needle);
}

/// A substring of the right part survives extending the text to the left.
pub proof fn lemma_substring_extends_left(a: Seq<char>, b: Seq<char>, needle: Seq<char>)
    requires
        has_substring(b, needle),
    ensures
        has_substring(a + b, needle),
{
    let i = choose|i: int|
        0 <= i && i + needle.len() <= b.len() && #[trigger] b.subrange(i, i + needle.len())
            == needle;
    assert((a + b).subrange(a.len() + i, a.len() + i + needle.len()) =~= needle);
}

/// A substring of a prefix of the text is a substring of the text.
pub proof fn lemma_substring_of_prefix(hay: Seq<char>, p: Seq<char>, needle: Seq<char>)
    requires
        p.len() <= hay.len(),
        hay.subrange(0, p.len() as int) == p,
        has_substring(p, needle),
    ensures
        has_substring(hay, needle),
{
    let i = choose|i: int|
        0 <= i && i + needle.len() <= p.len() && #[trigger] p.subrange(i, i + needle.len())
            == needle;
    assert(hay.subrange(i, i + needle.len()) =~= needle) by {
        assert(forall|k: int|
            0 <= k < p.len() ==> p[k] == #[trigger] hay.subrange(0, p.len() as int)[k]);
    }
    lemma_substring_at(hay, needle, i);
}

/// The capability every subcommand must provide: a stable name, a help
/// text, a one-line description, and the run behaviour itself.
pub trait Command: Sized {
    /// The subcommand name, as the contracts see it. The default leaves it
    /// unspecified, so an implementation outside the verifier need not
    /// mention it; one inside overrides it with the name it returns.
    open spec fn spec_name(&self) -> Seq<char> {
        vstd::pervasive::arbitrary()
    }

    /// The help text, as the contracts see it; unspecified by default, as
    /// the name is.
    open spec fn spec_help(&self) -> Seq<char> {
        vstd::pervasive::arbitrary()
    }

    /// The one-line description, as the contracts see it; unspecified by
    /// default, as the name is.
    open spec fn spec_description(&self) -> Seq<char> {
        vstd::pervasive::arbitrary()
    }

    /// The command-line name of the subcommand, without whitespace,
    /// like `build` or `clean`.
    fn name(&self) -> (r: &str)
        ensures
            r@ == self.spec_name(),
    ;

    /// The help message of the subcommand, shown for `bin help <name>`.
    fn help(&self) -> (r: &str)
        ensures
            r@ == self.spec_help(),
    ;

    /// A one-line description, shown in the program help `bin -h`.
    fn description(&self) -> (r: &str)
        ensures
            r@ == self.spec_description(),
    ;

    /// The entry point. `argv` holds every argument passed to the binary,
    /// with the program name in `argv[0]`.
    fn run(&self, argv: &Vec<String>);
}

} // verus!
