use subcmd::CmdHandler;
use subcmd::Command;

struct CmdA;

impl Command for CmdA {
    fn name(&self) -> &str {
        "cmd-a"
    }

    fn help(&self) -> &str {
        "HELP"
    }

    fn description(&self) -> &str {
        "DESCR"
    }

    fn run(&self, _argv: &Vec<String>) {
        // DO NOTHING
    }
}

#[test]
fn it_works() {
    let mut args: Vec<String> = Vec::new();
    args.push("my-bin".to_string());
    args.push("cmd-a".to_string());

    CmdHandler::new().add(Box::new(CmdA)).override_args(args).run();
}
