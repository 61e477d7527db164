//! The subcommand resolver: owns the registry, the program description and
//! the raw argument vector, and resolves one invocation to a `CmdResult`.

use std::io::Write;
use vstd::prelude::*;
use vstd::slice::slice_subrange;
use vstd::string::StringExecFns;

use crate::Command;
use crate::has_substring;
use crate::message::Message;
use crate::result::CmdResult;
use crate::wrapper::CmdWrapper;

verus! {

// ---------------------------------------------------------------------------
// The top-level flag grammar.
//
// The resolver recognizes exactly one flag, `-h`/`--help`, and stops
// treating tokens as flags at the first free token, so that a subcommand's
// own flags are never interpreted here. The spec functions below state,
// token shape by token shape, what the option parser does with that
// grammar; the one trusted wrapper `parse_help_args` ties them to the
// parser itself.
// ---------------------------------------------------------------------------

/// A token the option parser treats as a flag: it starts with `-` and is
/// more than the single character `-`.
pub open spec fn is_flag_token(t: Seq<char>) -> bool {
    t.len() > 1 && t[0] == '-'
}

/// The characters of `s` before its first `=`, or all of `s` when it has
/// none: the name part of a long option such as `--help=x`.
pub open spec fn before_eq(s: Seq<char>) -> Seq<char>
    decreases s.len(),
{
    if s.len() == 0 {
        s
    } else if s[0] == '=' {
        Seq::empty()
    } else {
        seq![s[0]] + before_eq(s.drop_first())
    }
}

/// Whether `s` holds an `=`, so a long option carries an inline argument.
pub open spec fn has_eq(s: Seq<char>) -> bool {
    exists|i: int| 0 <= i < s.len() && s[i] == '='
}

/// The name part of a long flag token names the help flag: `help`, or the
/// single character `h`, which the parser reads as the short alias.
pub open spec fn long_names_help(t: Seq<char>) -> bool {
    before_eq(t.subrange(2, t.len() as int)) == "help"@
        || before_eq(t.subrange(2, t.len() as int)) == "h"@
}

/// Every character of a short flag group such as `-hh` is the help flag.
pub open spec fn short_all_help(t: Seq<char>) -> bool {
    forall|j: int| 1 <= j < t.len() ==> t[j] == 'h'
}

/// What parsing the remaining tokens yields, `hits` help flags having been
/// seen so far: `None` on an unrecognized flag, an inline argument to the
/// help flag, or a repeated help flag; otherwise whether help was
/// requested, and the free tokens.
pub open spec fn parse_flags(toks: Seq<Seq<char>>, hits: nat) -> Option<(bool, Seq<Seq<char>>)>
    decreases toks.len(),
{
    if toks.len() == 0 {
        if hits > 1 {
            None
        } else {
            Some((hits == 1, Seq::empty()))
        }
    } else {
        let t = toks[0];
        if !is_flag_token(t) {
            // The first free token: it and everything after it are free.
            if hits > 1 {
                None
            } else {
                Some((hits == 1, toks))
            }
        } else if t == seq!['-', '-'] {
            // The separator: everything after it is free.
            if hits > 1 {
                None
            } else {
                Some((hits == 1, toks.drop_first()))
            }
        } else if t[1] == '-' {
            if long_names_help(t) {
                if has_eq(t.subrange(2, t.len() as int)) {
                    None
                } else {
                    parse_flags(toks.drop_first(), hits + 1)
                }
            } else {
                None
            }
        } else {
            if short_all_help(t) {
                parse_flags(toks.drop_first(), hits + (t.len() - 1) as nat)
            } else {
                None
            }
        }
    }
}

/// What the option parser yields for the tokens after the program name.
pub open spec fn top_level_parse(toks: Seq<Seq<char>>) -> Option<(bool, Seq<Seq<char>>)> {
    parse_flags(toks, 0)
}

/// Relies on `getopts::Options::parse` configured with the single flag
/// `optflag("h", "help", ..)` and `ParsingStyle::StopAtFirstFree`, and on
/// `Matches::opt_present` and the `free` field: the parse fails exactly
/// when a token names an unknown flag, hands an inline argument to the
/// help flag, or repeats the help flag; otherwise it reports whether help
/// was requested and the free tokens, as `top_level_parse` states.
#[verifier::external_body]
fn parse_help_args(args: &[String]) -> (r: Option<(bool, Vec<String>)>)
    ensures
        r is Some <==> top_level_parse(args.deep_view()) is Some,
        r matches Some((h, free)) ==> top_level_parse(args.deep_view()) == Some(
            (h, free.deep_view()),
        ),
{
    let mut opts = getopts::Options::new();
    opts.parsing_style(getopts::ParsingStyle::StopAtFirstFree);
    opts.optflag("h", "help", "print this help menu");
    match opts.parse(args) {
        Ok(m) => Some((m.opt_present("h"), m.free)),
        Err(_) => None,
    }
}

// ---------------------------------------------------------------------------
// The text of the generated messages.
// ---------------------------------------------------------------------------

/// The two-line usage block naming the program.
pub open spec fn short_usage_text(prog: Seq<char>) -> Seq<char> {
    "Usage:\n\t"@ + prog + " <command> [<args>...]\n\t"@ + prog + " [options]"@
}

/// The text of the message every malformed invocation is answered with.
pub open spec fn bad_usage_text(prog: Seq<char>) -> Seq<char> {
    "Invalid arguments."@ + "\n"@ + short_usage_text(prog) + "\n"@
}

/// The brief handed to the usage formatter: the optional program
/// description, then the short usage block.
pub open spec fn brief_text(desc: Option<Seq<char>>, prog: Seq<char>) -> Seq<char> {
    match desc {
        Some(d) => d + "\n\n"@ + short_usage_text(prog),
        None => short_usage_text(prog),
    }
}

/// What `getopts::Options::usage` makes of a brief, with the one flag this
/// resolver registers: the brief followed by the flag-usage block.
pub uninterp spec fn usage_of(brief: Seq<char>) -> Seq<char>;

/// Relies on `getopts::Options::usage` with the single flag
/// `optflag("h", "help", "print this help menu")`: the result is the brief,
/// then `\n\nOptions:\n`, then one usage row per flag — so the brief is a
/// prefix of the result.
#[verifier::external_body]
fn usage_text(brief: &str) -> (r: String)
    ensures
        r@ == usage_of(brief@),
        r@.len() >= brief@.len(),
        r@.subrange(0, brief@.len() as int) == brief@,
{
    let mut opts = getopts::Options::new();
    opts.optflag("h", "help", "print this help menu");
    opts.usage(brief)
}

/// What the tab writer makes of the tab-separated command listing: the
/// columns aligned by elastic tabstops.
pub uninterp spec fn tab_aligned(rows: Seq<char>) -> Seq<char>;

/// Relies on `tabwriter::TabWriter` over a byte vector — `new`, the
/// `io::Write` impl, `flush` and `into_inner` — and on the writer producing
/// valid UTF-8 from valid UTF-8 input: the result is the input with its
/// tab-separated cells column-aligned.
#[verifier::external_body]
fn tab_format(rows: &str) -> (r: String)
    ensures
        r@ == tab_aligned(rows@),
{
    let mut tw = tabwriter::TabWriter::new(Vec::new());
    let _ = tw.write_all(rows.as_bytes());
    let _ = tw.flush();
    match tw.into_inner() {
        Ok(bytes) => String::from_utf8(bytes).unwrap_or_default(),
        Err(_) => String::new(),
    }
}

/// The edit distance the suggestion algorithm goes by: insertions,
/// deletions, substitutions and adjacent transpositions.
pub uninterp spec fn edit_distance(a: Seq<char>, b: Seq<char>) -> nat;

/// Relies on `strsim::damerau_levenshtein`: the Damerau-Levenshtein edit
/// distance between the two strings, a function of their characters alone.
#[verifier::external_body]
fn dl_distance(a: &str, b: &str) -> (r: usize)
    ensures
        r as nat == edit_distance(a@, b@),
{
    strsim::damerau_levenshtein(a, b)
}

// ---------------------------------------------------------------------------
// The registry and the argument vector, as the contracts see them.
// ---------------------------------------------------------------------------

/// The registered commands' names, in registration order.
pub open spec fn names_of<C: Command>(cmds: Seq<C>) -> Seq<Seq<char>> {
    cmds.map_values(|c: C| c.spec_name())
}

/// The program name: the first element of the argument vector, or empty
/// when no arguments were supplied at all.
pub open spec fn arg_prog(args: Seq<Seq<char>>) -> Seq<char> {
    if args.len() == 0 {
        Seq::empty()
    } else {
        args[0]
    }
}

/// The tokens after the program name, which the flag grammar applies to.
pub open spec fn arg_tail(args: Seq<Seq<char>>) -> Seq<Seq<char>> {
    if args.len() == 0 {
        Seq::empty()
    } else {
        args.drop_first()
    }
}

/// `i` is the first index at which a registered name equals the token.
pub open spec fn first_name_match(names: Seq<Seq<char>>, tok: Seq<char>, i: int) -> bool {
    &&& 0 <= i < names.len()
    &&& names[i] == tok
    &&& forall|j: int| 0 <= j < i ==> names[j] != tok
}

/// Some registered name is within suggestion range of the token.
pub open spec fn has_close_name(names: Seq<Seq<char>>, tok: Seq<char>) -> bool {
    exists|i: int| 0 <= i < names.len() && edit_distance(names[i], tok) < 3
}

/// `i` wins the suggestion: its distance is under 3, no name does better,
/// and among the names that do as well it is the first registered.
pub open spec fn suggestion_winner(names: Seq<Seq<char>>, tok: Seq<char>, i: int) -> bool {
    &&& 0 <= i < names.len()
    &&& edit_distance(names[i], tok) < 3
    &&& forall|j: int|
        0 <= j < names.len() ==> edit_distance(names[j], tok) >= edit_distance(names[i], tok)
    &&& forall|j: int| 0 <= j < i ==> edit_distance(names[j], tok) > edit_distance(names[i], tok)
}

/// One row of the command listing: an indented name, a tab, then the
/// one-line description.
pub open spec fn command_row<C: Command>(c: C) -> Seq<char> {
    "    "@ + c.spec_name() + "\t"@ + c.spec_description() + "\n"@
}

/// The tab-separated command listing, one row per command in registration
/// order.
pub open spec fn command_rows<C: Command>(cmds: Seq<C>) -> Seq<char>
    decreases cmds.len(),
{
    if cmds.len() == 0 {
        Seq::empty()
    } else {
        command_rows(cmds.drop_last()) + command_row(cmds.last())
    }
}

/// The full text of the top-level help message.
pub open spec fn help_text<C: Command>(
    desc: Option<Seq<char>>,
    cmds: Seq<C>,
    prog: Seq<char>,
) -> Seq<char> {
    usage_of(brief_text(desc, prog)) + "\n"@ + "Commands are:"@ + "\n"@ + tab_aligned(
        command_rows(cmds),
    ) + "\n"@ + "\nSee '"@ + prog + " help <command>' for more information "@ + "\n"@
        + "on a specific command."@ + "\n"@
}

// ---------------------------------------------------------------------------
// What each outcome must look like.
// ---------------------------------------------------------------------------

/// The outcome answers a malformed invocation: the bad-usage message,
/// flagged as an error.
pub open spec fn is_bad_usage_result<C: Command>(r: CmdResult<C>, prog: Seq<char>) -> bool {
    &&& r matches CmdResult::BadUsage(m)
    &&& m.spec_text() == bad_usage_text(prog)
    &&& has_substring(m.spec_text(), "Invalid arguments"@)
    &&& m.spec_is_error()
    &&& !m.spec_is_formated()
}

/// The outcome shows the top-level help: description, usage, flag usage,
/// and the aligned command listing, not flagged as an error.
pub open spec fn is_help_result<C: Command>(
    r: CmdResult<C>,
    desc: Option<Seq<char>>,
    cmds: Seq<C>,
    prog: Seq<char>,
) -> bool {
    &&& r matches CmdResult::Help(m)
    &&& m.spec_text() == help_text(desc, cmds, prog)
    &&& has_substring(m.spec_text(), "Usage"@)
    &&& has_substring(m.spec_text(), "Commands are:"@)
    &&& !m.spec_is_error()
    &&& !m.spec_is_formated()
}

/// The outcome rejects an unknown command, suggesting the name at the
/// winning index.
pub open spec fn is_suggestion_result<C: Command>(
    r: CmdResult<C>,
    names: Seq<Seq<char>>,
    tok: Seq<char>,
) -> bool {
    &&& r matches CmdResult::UnknowCmd(m)
    &&& exists|i: int|
        suggestion_winner(names, tok, i) && m.spec_text() == "No such subcommand\n"@ + "\n"@
            + "    Did you mean `"@ + names[i] + "`?"@ + "\n"@
    &&& m.spec_is_error()
    &&& !m.spec_is_formated()
}

/// The outcome rejects an unknown command with no name close enough to
/// suggest.
pub open spec fn is_unknown_result<C: Command>(r: CmdResult<C>) -> bool {
    &&& r matches CmdResult::UnknowCmd(m)
    &&& m.spec_text() == "No such subcommand"@ + "\n"@
    &&& m.spec_is_error()
    &&& !m.spec_is_formated()
}

/// What `parse` must return, case by case: the whole decision of one
/// resolution, as a relation between the resolver state, the argument
/// vector and the outcome.
pub open spec fn resolution<C: Command>(
    desc: Option<Seq<char>>,
    cmds: Seq<C>,
    args: Seq<Seq<char>>,
    r: CmdResult<C>,
) -> bool {
    let toks = arg_tail(args);
    let prog = arg_prog(args);
    let names = names_of(cmds);
    match top_level_parse(toks) {
        // The flag grammar rejected a token.
        None => is_bad_usage_result(r, prog),
        Some((help_flag, free)) => {
            if help_flag {
                // Help must be requested alone.
                if free.len() != 0 {
                    is_bad_usage_result(r, prog)
                } else {
                    is_help_result(r, desc, cmds, prog)
                }
            } else if free.len() == 0 {
                // No command token at all.
                is_bad_usage_result(r, prog)
            } else {
                let tok = free[0];
                if exists|i: int| first_name_match(names, tok, i) {
                    // An exact match: dispatch it, moved out of the
                    // registry, with the full original argv.
                    &&& r matches CmdResult::Cmd(w)
                    &&& exists|i: int|
                        first_name_match(names, tok, i) && w.spec_cmd() == cmds[i]
                    &&& w.spec_args() == args
                } else if tok == "help"@ && free.len() == 2 {
                    if exists|i: int| first_name_match(names, free[1], i) {
                        &&& r matches CmdResult::HelpForCmd(w)
                        &&& exists|i: int|
                            first_name_match(names, free[1], i) && w.spec_cmd() == cmds[i]
                        &&& w.spec_args() == args
                    } else {
                        // Asking for help on an unregistered name is a
                        // bad usage, not an unknown command.
                        is_bad_usage_result(r, prog)
                    }
                } else if has_close_name(names, tok) {
                    is_suggestion_result(r, names, tok)
                } else {
                    is_unknown_result(r)
                }
            }
        },
    }
}

// ---------------------------------------------------------------------------
// The resolver itself.
// ---------------------------------------------------------------------------

/// Command line parser and subcommand runner: register commands, hand it
/// an argument vector, and let it resolve or run one invocation.
pub struct CmdHandler<C: Command> {
    description: Option<String>,
    commands: Vec<Box<C>>,
    args: Vec<String>,
}

impl<C: Command> CmdHandler<C> {
    /// The program description, as the contracts see it.
    pub closed spec fn spec_description(&self) -> Option<Seq<char>> {
        match self.description {
            Some(d) => Some(d@),
            None => None,
        }
    }

    /// The registered commands in registration order, as the contracts
    /// see them.
    pub closed spec fn spec_commands(&self) -> Seq<C> {
        self.commands@.map_values(|b: Box<C>| *b)
    }

    /// The raw argument vector, as the contracts see it.
    pub closed spec fn spec_args(&self) -> Seq<Seq<char>> {
        self.args.deep_view()
    }

    /// Create a new `CmdHandler` with an empty registry and an empty
    /// argument vector. The process argument vector is a process-wide
    /// fact, so the embedding program injects it with `override_args`.
    pub fn new() -> (r: CmdHandler<C>)
        ensures
            r.spec_description() is None,
            r.spec_commands() == Seq::<C>::empty(),
            r.spec_args() == Seq::<Seq<char>>::empty(),
    {
        let r = CmdHandler { description: None, commands: Vec::new(), args: Vec::new() };
        proof {
            assert(r.spec_commands() =~= Seq::<C>::empty());
            assert(r.spec_args() =~= Seq::<Seq<char>>::empty());
        }
        r
    }

    /// Set a one line description, used in `bin --help`.
    pub fn set_description(self, descr: &str) -> (r: CmdHandler<C>)
        ensures
            r.spec_description() == Some(descr@),
            r.spec_commands() == self.spec_commands(),
            r.spec_args() == self.spec_args(),
    {
        CmdHandler { description: Some(descr.to_owned()), commands: self.commands, args: self.args }
    }

    /// Override the argument vector the resolver works on, program name
    /// first.
    pub fn override_args(self, args: Vec<String>) -> (r: CmdHandler<C>)
        ensures
            r.spec_description() == self.spec_description(),
            r.spec_commands() == self.spec_commands(),
            r.spec_args() == args.deep_view(),
    {
        CmdHandler { description: self.description, commands: self.commands, args }
    }

    /// Register a new subcommand at the end of the registry. Names are not
    /// checked for uniqueness: when two commands share a name, the first
    /// registered wins every lookup, and both appear in the help listing.
    pub fn add(self, command: Box<C>) -> (r: CmdHandler<C>)
        ensures
            r.spec_description() == self.spec_description(),
            r.spec_commands() == self.spec_commands().push(*command),
            r.spec_args() == self.spec_args(),
    {
        let mut commands = self.commands;
        commands.push(command);
        let r = CmdHandler { description: self.description, commands, args: self.args };
        proof {
            assert(r.spec_commands() =~= self.spec_commands().push(*command));
        }
        r
    }

    /// The program name the messages speak of: the first argument.
    fn program_name(&self) -> (r: String)
        ensures
            r@ == arg_prog(self.spec_args()),
    {
        if self.args.len() > 0 {
            self.args[0].clone()
        } else {
            String::new()
        }
    }

    /// The two-line usage block naming the program.
    fn short_usage(&self) -> (r: String)
        ensures
            r@ == short_usage_text(arg_prog(self.spec_args())),
    {
        let prog = self.program_name();
        let mut usage = String::from_str("Usage:\n\t");
        usage.append(prog.as_str());
        usage.append(" <command> [<args>...]\n\t");
        usage.append(prog.as_str());
        usage.append(" [options]");
        usage
    }

    /// The answer to every malformed invocation: an error message with
    /// the short usage block.
    fn bad_usage(&self) -> (r: CmdResult<C>)
        ensures
            is_bad_usage_result(r, arg_prog(self.spec_args())),
    {
        let mut msg = Message::new();
        msg.set_error(true);
        msg.add_line("Invalid arguments.");
        let usage = self.short_usage();
        msg.add_line(usage.as_str());
        proof {
            lemma_bad_usage_contains(arg_prog(self.spec_args()));
        }
        CmdResult::BadUsage(msg)
    }

    /// The top-level help: the optional description, the usage and flag
    /// blocks, the aligned command listing, and the closing hint.
    #[verifier::rlimit(50)]
    fn help(&self) -> (r: CmdResult<C>)
        ensures
            is_help_result(
                r,
                self.spec_description(),
                self.spec_commands(),
                arg_prog(self.spec_args()),
            ),
    {
        let ghost cmds = self.spec_commands();
        let ghost desc = self.spec_description();
        let prog = self.program_name();
        let ghost progv = prog@;

        let mut brief = String::new();
        match &self.description {
            Some(d) => {
                brief.append(d.as_str());
                brief.append("\n\n");
            },
            None => {},
        }
        let su = self.short_usage();
        brief.append(su.as_str());
        proof {
            assert(brief@ =~= brief_text(desc, progv));
        }

        let mut msg = Message::new();
        let us = usage_text(brief.as_str());
        msg.add_line(us.as_str());
        msg.add_line("Commands are:");

        let mut rows = String::new();
        let n = self.commands.len();
        for i in 0..n
            invariant
                n == self.commands.len(),
                cmds == self.spec_commands(),
                rows@ == command_rows(cmds.take(i as int)),
        {
            rows.append("    ");
            rows.append(self.commands[i].name());
            rows.append("\t");
            rows.append(self.commands[i].description());
            rows.append("\n");
            proof {
                assert(cmds.take(i + 1).drop_last() =~= cmds.take(i as int));
                assert(cmds.take(i + 1).last() == cmds[i as int]);
                assert(rows@ =~= command_rows(cmds.take(i + 1)));
            }
        }
        proof {
            assert(cmds.take(n as int) =~= cmds);
        }
        let aligned = tab_format(rows.as_str());
        msg.add_line(aligned.as_str());

        let mut see = String::from_str("\nSee '");
        see.append(prog.as_str());
        see.append(" help <command>' for more information ");
        msg.add_line(see.as_str());
        msg.add_line("on a specific command.");

        proof {
            assert(msg.spec_text() =~= help_text(desc, cmds, progv));
            lemma_help_text_contains::<C>(desc, cmds, progv, us@);
        }
        CmdResult::Help(msg)
    }

    /// The index of the first registered command whose name equals the
    /// token, scanning in registration order.
    fn find_index(&self, tok: &String) -> (r: Option<usize>)
        ensures
            match r {
                Some(i) => first_name_match(names_of(self.spec_commands()), tok@, i as int),
                None => !exists|i: int|
                    first_name_match(names_of(self.spec_commands()), tok@, i),
            },
    {
        let ghost names = names_of(self.spec_commands());
        let n = self.commands.len();
        let mut index: usize = 0;
        while index < n
            invariant
                n == self.commands.len(),
                names == names_of(self.spec_commands()),
                index <= n,
                forall|j: int| 0 <= j < index ==> names[j] != tok@,
            decreases n - index,
        {
            let nm = self.commands[index].name().to_owned();
            if nm == *tok {
                proof {
                    assert(names[index as int] == (*self.commands@[index as int]).spec_name());
                    assert(first_name_match(names, tok@, index as int));
                }
                return Some(index);
            }
            proof {
                assert(names[index as int] == (*self.commands@[index as int]).spec_name());
            }
            index += 1;
        }
        proof {
            if exists|i: int| first_name_match(names, tok@, i) {
                let i = choose|i: int| first_name_match(names, tok@, i);
                assert(names[i] == tok@);
                assert(false);
            }
        }
        None
    }

    /// Resolve `help <name>`: hand out the named command's wrapper, or
    /// answer a bad usage when no such command is registered.
    fn help_for_command(self, name: &String) -> (r: CmdResult<C>)
        ensures
            ({
                let names = names_of(self.spec_commands());
                if exists|i: int| first_name_match(names, name@, i) {
                    &&& r matches CmdResult::HelpForCmd(w)
                    &&& exists|i: int|
                        first_name_match(names, name@, i) && w.spec_cmd()
                            == self.spec_commands()[i]
                    &&& w.spec_args() == self.spec_args()
                } else {
                    is_bad_usage_result(r, arg_prog(self.spec_args()))
                }
            }),
    {
        let ghost cmds0 = self.spec_commands();
        match self.find_index(name) {
            Some(index) => {
                let CmdHandler { description: _, commands: mut commands, args } = self;
                let c = commands.remove(index);
                proof {
                    assert(*c == cmds0[index as int]);
                }
                CmdResult::HelpForCmd(CmdWrapper::new(c, args))
            },
            None => self.bad_usage(),
        }
    }

    /// Run the main logic: resolve the argument vector to an outcome.
    /// Parsing consumes the resolver, since a dispatched command is moved
    /// out of the registry into the outcome.
    pub fn parse(self) -> (r: CmdResult<C>)
        ensures
            resolution(self.spec_description(), self.spec_commands(), self.spec_args(), r),
    {
        let ghost cmds0 = self.spec_commands();
        let ghost args0 = self.spec_args();
        let ghost names = names_of(cmds0);

        // The tokens after the program name; args[0] is the program name.
        let sl = self.args.as_slice();
        let tail = if sl.len() >= 1 {
            slice_subrange(sl, 1, sl.len())
        } else {
            slice_subrange(sl, 0, 0)
        };
        proof {
            assert(tail.deep_view() =~= arg_tail(args0));
        }
        let parsed = parse_help_args(tail);

        let (help_flag, free) = match parsed {
            Some(p) => p,
            None => {
                // An unknown flag such as `--unknow` was rejected.
                return self.bad_usage();
            },
        };
        proof {
            assert(top_level_parse(arg_tail(args0)) == Some((help_flag, free.deep_view())));
        }

        // Catch a -h/--help request, which must come alone.
        if help_flag {
            if free.len() != 0 {
                return self.bad_usage();
            }
            return self.help();
        }

        // Catch the command token.
        if free.len() == 0 {
            return self.bad_usage();
        }
        let command = free[0].clone();
        proof {
            assert(command@ == free.deep_view()[0]);
        }

        // Try to find the command by its exact name.
        if let Some(index) = self.find_index(&command) {
            let CmdHandler { description: _, commands: mut commands, args } = self;
            let c = commands.remove(index);
            proof {
                assert(*c == cmds0[index as int]);
            }
            return CmdResult::Cmd(CmdWrapper::new(c, args));
        }

        // Check the built-in `help <command>`.
        if free.len() == 2 {
            let help_tok = String::from_str("help");
            if command == help_tok {
                let target = free[1].clone();
                proof {
                    assert(target@ == free.deep_view()[1]);
                }
                return self.help_for_command(&target);
            }
        }

        // No command found: look for the nearest name, wanting an edit
        // distance strictly under 3, first registered winning ties.
        let n = self.commands.len();
        let mut lowest: usize = 3;
        let mut sim: Option<usize> = None;
        let mut i: usize = 0;
        while i < n
            invariant
                n == self.commands.len(),
                names == names_of(self.spec_commands()),
                command@ == free.deep_view()[0],
                i <= n,
                lowest <= 3,
                match sim {
                    Some(b) => {
                        &&& 0 <= b < i
                        &&& lowest as nat == edit_distance(names[b as int], command@)
                        &&& lowest < 3
                        &&& forall|j: int|
                            0 <= j < i ==> edit_distance(names[j], command@) >= lowest as nat
                        &&& forall|j: int|
                            0 <= j < b ==> edit_distance(names[j], command@) > lowest as nat
                    },
                    None => {
                        &&& lowest == 3
                        &&& forall|j: int| 0 <= j < i ==> edit_distance(names[j], command@) >= 3
                    },
                },
            decreases n - i,
        {
            let d = dl_distance(self.commands[i].name(), command.as_str());
            proof {
                assert(names[i as int] == (*self.commands@[i as int]).spec_name());
            }
            if d < lowest {
                lowest = d;
                sim = Some(i);
            }
            i += 1;
        }

        match sim {
            Some(b) => {
                proof {
                    assert(suggestion_winner(names, command@, b as int));
                }
                let mut msg = Message::new();
                msg.set_error(true);
                msg.add_line("No such subcommand\n");
                let mut line = String::from_str("    Did you mean `");
                line.append(self.commands[b].name());
                line.append("`?");
                msg.add_line(line.as_str());
                proof {
                    assert(msg.spec_text() =~= "No such subcommand\n"@ + "\n"@
                        + "    Did you mean `"@ + names[b as int] + "`?"@ + "\n"@);
                }
                CmdResult::UnknowCmd(msg)
            },
            None => {
                proof {
                    if has_close_name(names, command@) {
                        let i = choose|i: int|
                            0 <= i < names.len() && edit_distance(names[i], command@) < 3;
                        assert(false);
                    }
                }
                let mut msg = Message::new();
                msg.set_error(true);
                msg.add_line("No such subcommand");
                CmdResult::UnknowCmd(msg)
            },
        }
    }

    /// Parse and act on the outcome: print a message, print a command's
    /// help, or run the dispatched command. This layer decides nothing;
    /// the decision is `parse`'s.
    pub fn run(self) {
        match self.parse() {
            CmdResult::Help(msg) => msg.print(),
            CmdResult::HelpForCmd(cmd) => cmd.print_help(),
            CmdResult::BadUsage(msg) => msg.print(),
            CmdResult::UnknowCmd(msg) => msg.print(),
            CmdResult::Cmd(cmd) => cmd.run(),
        }
    }
}

/// A string without `=` is its own name part.
proof fn lemma_before_eq_no_eq(s: Seq<char>)
    requires
        forall|i: int| 0 <= i < s.len() ==> s[i] != '=',
    ensures
        before_eq(s) == s,
    decreases s.len(),
{
    if s.len() > 0 {
        lemma_before_eq_no_eq(s.drop_first());
        assert(seq![s[0]] + s.drop_first() =~= s);
    }
}

/// Law: whatever commands are registered, an argument vector holding the
/// program name and `-h` alone resolves to the top-level help, whose
/// message holds the word `Usage` and the `Commands are:` header.
pub proof fn lemma_help_alone_shows_help<C: Command>(
    desc: Option<Seq<char>>,
    cmds: Seq<C>,
    args: Seq<Seq<char>>,
    r: CmdResult<C>,
)
    requires
        args.len() == 2,
        args[1] == "-h"@,
        resolution(desc, cmds, args, r),
    ensures
        r matches CmdResult::Help(m) && has_substring(m.spec_text(), "Usage"@) && has_substring(
            m.spec_text(),
            "Commands are:"@,
        ),
{
    reveal_strlit("-h");
    let toks = arg_tail(args);
    let t = args[1];
    assert(toks =~= seq![t]);
    assert(t.len() == 2 && t[0] == '-' && t[1] == 'h');
    assert(is_flag_token(t));
    assert(t != seq!['-', '-']);
    assert(short_all_help(t));
    assert(toks.drop_first() =~= Seq::<Seq<char>>::empty());
    assert(parse_flags(Seq::<Seq<char>>::empty(), 1) == Some(
        (true, Seq::<Seq<char>>::empty()),
    ));
    assert(top_level_parse(toks) == Some((true, Seq::<Seq<char>>::empty())));
}

/// Law: whatever the program name, an argument vector holding it and the
/// single token `--unknown-flag` resolves to a bad usage, whose message
/// holds the words `Invalid arguments`.
pub proof fn lemma_unknown_flag_is_malformed<C: Command>(
    desc: Option<Seq<char>>,
    cmds: Seq<C>,
    args: Seq<Seq<char>>,
    r: CmdResult<C>,
)
    requires
        args.len() == 2,
        args[1] == "--unknown-flag"@,
        resolution(desc, cmds, args, r),
    ensures
        r matches CmdResult::BadUsage(m) && has_substring(m.spec_text(), "Invalid arguments"@),
{
    reveal_strlit("--unknown-flag");
    reveal_strlit("help");
    reveal_strlit("h");
    let toks = arg_tail(args);
    let t = args[1];
    assert(toks =~= seq![t]);
    assert(t.len() == 14 && t[0] == '-' && t[1] == '-');
    assert(is_flag_token(t));
    assert(t != seq!['-', '-']);
    let name_part = t.subrange(2, t.len() as int);
    assert(forall|i: int| 0 <= i < name_part.len() ==> name_part[i] != '=');
    lemma_before_eq_no_eq(name_part);
    assert(before_eq(name_part).len() == 12);
    assert(!long_names_help(t));
    assert(top_level_parse(toks) is None);
}

/// The help text holds the words the law about `-h` promises: `Usage`
/// from the usage block, and the `Commands are:` header.
proof fn lemma_help_text_contains<C: Command>(
    desc: Option<Seq<char>>,
    cmds: Seq<C>,
    prog: Seq<char>,
    us: Seq<char>,
)
    requires
        us == usage_of(brief_text(desc, prog)),
        us.len() >= brief_text(desc, prog).len(),
        us.subrange(0, brief_text(desc, prog).len() as int) == brief_text(desc, prog),
    ensures
        has_substring(help_text(desc, cmds, prog), "Usage"@),
        has_substring(help_text(desc, cmds, prog), "Commands are:"@),
{
    let header = "Commands are:"@;
    let pre = usage_of(brief_text(desc, prog)) + "\n"@;
    let rest = header + ("\n"@ + (tab_aligned(command_rows(cmds)) + ("\n"@ + ("\nSee '"@ + (prog
        + (" help <command>' for more information "@ + ("\n"@ + ("on a specific command."@
        + "\n"@))))))));
    assert(rest.subrange(0, header.len() as int) =~= header);
    crate::lemma_substring_at(rest, header, 0);
    crate::lemma_substring_extends_left(pre, rest, header);
    assert(help_text(desc, cmds, prog) =~= pre + rest);

    lemma_brief_has_usage(desc, prog);
    crate::lemma_substring_of_prefix(us, brief_text(desc, prog), "Usage"@);
    crate::lemma_substring_extends_right(us, "\n"@ + rest, "Usage"@);
    assert(help_text(desc, cmds, prog) =~= us + ("\n"@ + rest));
}

/// The short usage block starts with the word `Usage`.
proof fn lemma_short_usage_has_usage(prog: Seq<char>)
    ensures
        has_substring(short_usage_text(prog), "Usage"@),
{
    reveal_strlit("Usage:\n\t");
    reveal_strlit("Usage");
    let head = "Usage:\n\t"@;
    let rest = prog + " <command> [<args>...]\n\t"@ + prog + " [options]"@;
    assert(head.subrange(0, "Usage"@.len() as int) =~= "Usage"@);
    crate::lemma_substring_at(head, "Usage"@, 0);
    crate::lemma_substring_extends_right(head, rest, "Usage"@);
    assert(short_usage_text(prog) =~= head + rest);
}

/// The brief handed to the usage formatter holds the word `Usage`,
/// whether or not a description precedes the usage block.
proof fn lemma_brief_has_usage(desc: Option<Seq<char>>, prog: Seq<char>)
    ensures
        has_substring(brief_text(desc, prog), "Usage"@),
{
    lemma_short_usage_has_usage(prog);
    match desc {
        Some(d) => {
            crate::lemma_substring_extends_left(
                d + "\n\n"@,
                short_usage_text(prog),
                "Usage"@,
            );
            assert(brief_text(desc, prog) =~= (d + "\n\n"@) + short_usage_text(prog));
        },
        None => {},
    }
}

/// The bad-usage text holds the words a user is answered with.
proof fn lemma_bad_usage_contains(prog: Seq<char>)
    ensures
        has_substring(bad_usage_text(prog), "Invalid arguments"@),
{
    reveal_strlit("Invalid arguments.");
    reveal_strlit("Invalid arguments");
    let hay = bad_usage_text(prog);
    let needle = "Invalid arguments"@;
    assert(hay.subrange(0, needle.len() as int) =~= needle);
    crate::lemma_substring_at(hay, needle, 0);
}

} // verus!
