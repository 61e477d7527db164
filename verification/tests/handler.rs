use subcmd::CmdHandler;
use subcmd::CmdResult;
use subcmd::Command;

struct TestCmd {
    name: &'static str,
    help: &'static str,
    descr: &'static str,
}

impl Command for TestCmd {
    fn name(&self) -> &str {
        self.name
    }

    fn help(&self) -> &str {
        self.help
    }

    fn description(&self) -> &str {
        self.descr
    }

    fn run(&self, _argv: &Vec<String>) {
        // DO NOTHING
    }
}

fn cmd_a() -> TestCmd {
    TestCmd { name: "cmd-a", help: "HELP", descr: "DESCR" }
}

fn another_cmd() -> TestCmd {
    TestCmd { name: "another-cmd", help: "HELP another", descr: "DESCR another" }
}

#[test]
fn test_usage() {
    let args: Vec<String> = vec!["bin".to_string(), "-h".to_string()];

    match CmdHandler::<TestCmd>::new().override_args(args).parse() {
        CmdResult::Help(msg) => {
            assert!(msg.get().contains("Usage"));
            assert!(msg.get().contains("Commands are:"));
        }
        _ => unreachable!(),
    }
}

#[test]
fn test_bad_usage() {
    let args: Vec<String> = vec!["bin".to_string(), "--unknow".to_string()];

    match CmdHandler::<TestCmd>::new().override_args(args).parse() {
        CmdResult::BadUsage(msg) => {
            assert!(msg.get().contains("Invalid argument"));
        }
        _ => unreachable!(),
    }
}

#[test]
fn test_bad_command() {
    let args: Vec<String> = vec!["bin".to_string(), "cmd-b".to_string()];

    let handler = CmdHandler::new()
        .override_args(args)
        .add(Box::new(cmd_a()))
        .add(Box::new(another_cmd()));

    match handler.parse() {
        CmdResult::UnknowCmd(msg) => {
            assert!(msg.get().contains("cmd-a"));
        }
        _ => unreachable!(),
    }
}

#[test]
fn test_unknow_cmd() {
    let args: Vec<String> = vec!["bin".to_string(), "bbbbbbbbbbb".to_string()];

    let handler = CmdHandler::new()
        .override_args(args)
        .add(Box::new(cmd_a()))
        .add(Box::new(another_cmd()));

    match handler.parse() {
        CmdResult::UnknowCmd(msg) => assert!(msg.get().contains("No such subcommand")),
        _ => unreachable!(),
    }
}

#[test]
fn test_cmd() {
    let args: Vec<String> = vec!["bin".to_string(), "cmd-a".to_string()];

    let handler = CmdHandler::new()
        .override_args(args)
        .add(Box::new(cmd_a()))
        .add(Box::new(another_cmd()));

    match handler.parse() {
        CmdResult::Cmd(cmd) => assert_eq!(cmd.name(), "cmd-a"),
        _ => unreachable!(),
    }
}

#[test]
fn test_help_for_cmd() {
    let args: Vec<String> =
        vec!["bin".to_string(), "help".to_string(), "cmd-a".to_string()];

    let handler = CmdHandler::new()
        .override_args(args)
        .add(Box::new(cmd_a()))
        .add(Box::new(another_cmd()));

    match handler.parse() {
        CmdResult::HelpForCmd(cmd) => assert_eq!(cmd.name(), "cmd-a"),
        _ => unreachable!(),
    }
}

#[test]
fn test_suggestion_line() {
    // edit distance cmd-a -> cmd-b is 1, under the threshold of 3.
    let args: Vec<String> = vec!["bin".to_string(), "cmd-b".to_string()];

    let handler = CmdHandler::new()
        .override_args(args)
        .add(Box::new(cmd_a()))
        .add(Box::new(another_cmd()));

    match handler.parse() {
        CmdResult::UnknowCmd(msg) => {
            assert!(msg.get().contains("No such subcommand"));
            assert!(msg.get().contains("Did you mean `cmd-a`?"));
        }
        _ => unreachable!(),
    }
}

#[test]
fn test_duplicate_names_no_suggestion() {
    // Both names are at edit distance 11 from the token: no suggestion.
    let args: Vec<String> = vec!["bin".to_string(), "bbbbbbbbbbb".to_string()];

    let handler = CmdHandler::new()
        .override_args(args)
        .add(Box::new(cmd_a()))
        .add(Box::new(cmd_a()));

    match handler.parse() {
        CmdResult::UnknowCmd(msg) => {
            assert!(msg.get().contains("No such subcommand"));
            assert!(!msg.get().contains("Did you mean"));
        }
        _ => unreachable!(),
    }
}

#[test]
fn test_suggestion_tie_break_first_registered() {
    // Both registered names are at edit distance 1 from cmd-c: the first
    // registered wins the tie.
    let cmd_b = TestCmd { name: "cmd-b", help: "HELP b", descr: "DESCR b" };
    let args: Vec<String> = vec!["bin".to_string(), "cmd-c".to_string()];

    let handler = CmdHandler::new()
        .override_args(args)
        .add(Box::new(cmd_a()))
        .add(Box::new(cmd_b));

    match handler.parse() {
        CmdResult::UnknowCmd(msg) => {
            assert!(msg.get().contains("Did you mean `cmd-a`?"));
        }
        _ => unreachable!(),
    }
}

#[test]
fn test_no_command_token() {
    let args: Vec<String> = vec!["bin".to_string()];

    match CmdHandler::<TestCmd>::new().override_args(args).parse() {
        CmdResult::BadUsage(msg) => assert!(msg.get().contains("Invalid argument")),
        _ => unreachable!(),
    }
}

#[test]
fn test_empty_argv() {
    let args: Vec<String> = Vec::new();

    match CmdHandler::<TestCmd>::new().override_args(args).parse() {
        CmdResult::BadUsage(msg) => assert!(msg.get().contains("Invalid argument")),
        _ => unreachable!(),
    }
}

#[test]
fn test_help_with_extra_token() {
    let args: Vec<String> =
        vec!["bin".to_string(), "-h".to_string(), "extra".to_string()];

    let handler = CmdHandler::new().override_args(args).add(Box::new(cmd_a()));

    match handler.parse() {
        CmdResult::BadUsage(msg) => assert!(msg.get().contains("Invalid argument")),
        _ => unreachable!(),
    }
}

#[test]
fn test_long_help_flag() {
    let args: Vec<String> = vec!["bin".to_string(), "--help".to_string()];

    let handler = CmdHandler::new().override_args(args).add(Box::new(cmd_a()));

    match handler.parse() {
        CmdResult::Help(msg) => assert!(msg.get().contains("Commands are:")),
        _ => unreachable!(),
    }
}

#[test]
fn test_repeated_help_flag() {
    let args: Vec<String> = vec!["bin".to_string(), "-h".to_string(), "-h".to_string()];

    match CmdHandler::<TestCmd>::new().override_args(args).parse() {
        CmdResult::BadUsage(msg) => assert!(msg.get().contains("Invalid argument")),
        _ => unreachable!(),
    }
}

#[test]
fn test_grouped_help_flag_is_repeated() {
    // `-hh` names the help flag twice, which the grammar rejects.
    let args: Vec<String> = vec!["bin".to_string(), "-hh".to_string()];

    match CmdHandler::<TestCmd>::new().override_args(args).parse() {
        CmdResult::BadUsage(msg) => assert!(msg.get().contains("Invalid argument")),
        _ => unreachable!(),
    }
}

#[test]
fn test_help_flag_takes_no_argument() {
    let args: Vec<String> = vec!["bin".to_string(), "--help=x".to_string()];

    match CmdHandler::<TestCmd>::new().override_args(args).parse() {
        CmdResult::BadUsage(msg) => assert!(msg.get().contains("Invalid argument")),
        _ => unreachable!(),
    }
}

#[test]
fn test_long_short_alias() {
    // `--h` reads as the short alias of the help flag.
    let args: Vec<String> = vec!["bin".to_string(), "--h".to_string()];

    let handler = CmdHandler::new().override_args(args).add(Box::new(cmd_a()));

    match handler.parse() {
        CmdResult::Help(msg) => assert!(msg.get().contains("Commands are:")),
        _ => unreachable!(),
    }
}

#[test]
fn test_lone_dash_is_a_command_token() {
    // A single `-` is not a flag: it is read as the command name.
    let args: Vec<String> = vec!["bin".to_string(), "-".to_string()];

    let handler = CmdHandler::new().override_args(args).add(Box::new(cmd_a()));

    match handler.parse() {
        CmdResult::UnknowCmd(msg) => assert!(msg.get().contains("No such subcommand")),
        _ => unreachable!(),
    }
}

#[test]
fn test_double_dash_then_command() {
    // After `--` every token is free, so cmd-a is the command.
    let args: Vec<String> =
        vec!["bin".to_string(), "--".to_string(), "cmd-a".to_string()];

    let handler = CmdHandler::new().override_args(args).add(Box::new(cmd_a()));

    match handler.parse() {
        CmdResult::Cmd(cmd) => assert_eq!(cmd.name(), "cmd-a"),
        _ => unreachable!(),
    }
}

#[test]
fn test_help_for_unknown_command() {
    let args: Vec<String> =
        vec!["bin".to_string(), "help".to_string(), "nope".to_string()];

    let handler = CmdHandler::new().override_args(args).add(Box::new(cmd_a()));

    match handler.parse() {
        CmdResult::BadUsage(msg) => assert!(msg.get().contains("Invalid argument")),
        _ => unreachable!(),
    }
}

#[test]
fn test_registered_command_shadows_builtin_help() {
    // An exact name match wins before the built-in `help <cmd>` form.
    let help_cmd = TestCmd { name: "help", help: "HELP help", descr: "DESCR help" };
    let args: Vec<String> =
        vec!["bin".to_string(), "help".to_string(), "cmd-a".to_string()];

    let handler = CmdHandler::new()
        .override_args(args)
        .add(Box::new(cmd_a()))
        .add(Box::new(help_cmd));

    match handler.parse() {
        CmdResult::Cmd(cmd) => assert_eq!(cmd.name(), "help"),
        _ => unreachable!(),
    }
}

#[test]
fn test_help_lists_flag_usage() {
    // The flag-usage block comes from the option parser's usage text.
    let args: Vec<String> = vec!["bin".to_string(), "-h".to_string()];

    let handler = CmdHandler::new().override_args(args).add(Box::new(cmd_a()));

    match handler.parse() {
        CmdResult::Help(msg) => {
            assert!(msg.get().contains("-h, --help"));
            assert!(msg.get().contains("print this help menu"));
        }
        _ => unreachable!(),
    }
}

#[test]
fn test_help_aligns_command_columns() {
    // The tab between a command name and its description is replaced by
    // column alignment; both commands are listed with their descriptions.
    let args: Vec<String> = vec!["bin".to_string(), "-h".to_string()];

    let handler = CmdHandler::new()
        .override_args(args)
        .add(Box::new(cmd_a()))
        .add(Box::new(another_cmd()));

    match handler.parse() {
        CmdResult::Help(msg) => {
            let text = msg.get();
            assert!(!text.contains("cmd-a\t"));
            assert!(!text.contains("another-cmd\t"));
            assert!(text.contains("cmd-a"));
            assert!(text.contains("another-cmd"));
            assert!(text.contains("DESCR another"));
        }
        _ => unreachable!(),
    }
}

#[test]
fn test_description_in_help() {
    let args: Vec<String> = vec!["bin".to_string(), "-h".to_string()];

    let handler = CmdHandler::new()
        .set_description("My fine tool")
        .override_args(args)
        .add(Box::new(cmd_a()));

    match handler.parse() {
        CmdResult::Help(msg) => assert!(msg.get().contains("My fine tool")),
        _ => unreachable!(),
    }
}

#[test]
fn test_dispatch_hands_over_full_argv() {
    let args: Vec<String> =
        vec!["bin".to_string(), "cmd-a".to_string(), "--flag".to_string()];

    let handler = CmdHandler::new().override_args(args).add(Box::new(cmd_a()));

    match handler.parse() {
        CmdResult::Cmd(cmd) => {
            // The subcommand's own flag was not intercepted, and the
            // wrapper keeps the entire original argv.
            assert_eq!(cmd.name(), "cmd-a");
            cmd.run();
        }
        _ => unreachable!(),
    }
}

#[test]
fn test_error_flags_of_outcomes() {
    let bad_args: Vec<String> = vec!["bin".to_string()];
    match CmdHandler::<TestCmd>::new().override_args(bad_args).parse() {
        CmdResult::BadUsage(msg) => assert!(msg.is_error()),
        _ => unreachable!(),
    }

    let help_args: Vec<String> = vec!["bin".to_string(), "-h".to_string()];
    match CmdHandler::<TestCmd>::new().override_args(help_args).parse() {
        CmdResult::Help(msg) => assert!(!msg.is_error()),
        _ => unreachable!(),
    }
}
