use vapor_cli::shell::{
    complete_line, parse_shell_command, shell_prompt, shell_step, Completion, ShellAction,
    ShellCommand, ShellStep,
};

fn strings(items: &[&str]) -> Vec<String> {
    items.iter().map(|s| s.to_string()).collect()
}

#[test]
fn shell_lines() {
    assert_eq!(shell_step("   "), ShellStep::Skip);
    assert_eq!(shell_step(" exit "), ShellStep::Leave(ShellAction::Exit));
    assert_eq!(shell_step(".vrepl"), ShellStep::Leave(ShellAction::SwitchToRepl));
    assert_eq!(shell_step(".dbinfo"), ShellStep::ShowDatabase);
    assert_eq!(shell_step("help"), ShellStep::ShowHelp);
    assert_eq!(shell_step(" ls -la "), ShellStep::Execute("ls -la".to_string()));
    assert_eq!(shell_step("exit now"), ShellStep::Execute("exit now".to_string()));
    assert!(!ShellStep::Skip.remembered());
    assert!(ShellStep::ShowHelp.remembered());
}

#[test]
fn shell_commands() {
    assert_eq!(parse_shell_command("", Some("/home/u")), ShellCommand::Nothing);
    assert_eq!(parse_shell_command("pwd", None), ShellCommand::PrintDirectory);
    assert_eq!(parse_shell_command("history 5", None), ShellCommand::History);
    assert_eq!(
        parse_shell_command("cd", Some("/home/u")),
        ShellCommand::ChangeDirectory("/home/u".to_string())
    );
    assert_eq!(parse_shell_command("cd", None), ShellCommand::ChangeDirectory(".".to_string()));
    assert_eq!(
        parse_shell_command("cd ~", Some("/home/u")),
        ShellCommand::ChangeDirectory("/home/u".to_string())
    );
    assert_eq!(parse_shell_command("cd ~", None), ShellCommand::ChangeDirectory(".".to_string()));
    assert_eq!(
        parse_shell_command("cd ~/src/x", Some("/home/u")),
        ShellCommand::ChangeDirectory("/home/u/src/x".to_string())
    );
    assert_eq!(
        parse_shell_command("cd ~/src", None),
        ShellCommand::ChangeDirectory("~/src".to_string())
    );
    assert_eq!(
        parse_shell_command("cd /tmp extra", Some("/home/u")),
        ShellCommand::ChangeDirectory("/tmp".to_string())
    );
    assert_eq!(
        parse_shell_command("cd ~x", Some("/home/u")),
        ShellCommand::ChangeDirectory("~x".to_string())
    );
    assert_eq!(
        parse_shell_command("  grep  -r  foo . ", None),
        ShellCommand::Run { program: "grep".to_string(), args: strings(&["-r", "foo", "."]) }
    );
    assert_eq!(
        parse_shell_command("ls", None),
        ShellCommand::Run { program: "ls".to_string(), args: Vec::new() }
    );
}

#[test]
fn completion() {
    let all = strings(&["cd", "pwd", "history", "help", "exit", ".vrepl", ".dbinfo"]);
    assert_eq!(complete_line(""), Completion::Commands(all.clone()));
    assert_eq!(complete_line("   "), Completion::Commands(all));
    assert_eq!(complete_line("h"), Completion::Commands(strings(&["history", "help"])));
    assert_eq!(complete_line("."), Completion::Commands(strings(&[".vrepl", ".dbinfo"])));
    assert_eq!(complete_line("cd"), Completion::Commands(strings(&["cd"])));
    assert_eq!(complete_line("cd "), Completion::Commands(strings(&["cd"])));
    assert_eq!(complete_line("ls "), Completion::Files);
    assert_eq!(complete_line("  cd sr"), Completion::Files);
    assert_eq!(complete_line("ls src/ma"), Completion::Files);
    assert_eq!(complete_line("ls"), Completion::Nothing);
    assert_eq!(complete_line("cat fi"), Completion::Nothing);
    assert_eq!(complete_line("x"), Completion::Nothing);
    assert_eq!(complete_line("cdx "), Completion::Nothing);
}

#[test]
fn prompt_of_the_shell() {
    assert_eq!(shell_prompt("/home/u", "/home/u", Some("")), "[vapor-shell ~]$ ");
    assert_eq!(shell_prompt("/home/u/src", "/home/u", Some("src")), "[vapor-shell ~/src]$ ");
    assert_eq!(shell_prompt("/tmp", "/home/u", None), "[vapor-shell /tmp]$ ");
}
