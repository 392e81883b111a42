//! The decisions of the shell mode: what a line asks for, where `cd` goes
//! and what the tab key offers.

use crate::text::{
    chars_are, chars_start_with, copy_range, line_texts, push_line, skip_whitespace, split_words,
    texts, to_chars, to_text, to_text_range, trim, trim_bounds, trim_chars, words,
};
use vstd::prelude::*;
use vstd::string::StringExecFns;

verus! {

/// How a shell session ended.
#[derive(Debug, Clone, Copy, PartialEq, Eq, Structural)]
pub enum ShellAction {
    Exit,
    SwitchToRepl,
}

/// What the shell does with one line.
#[derive(Debug, Clone, PartialEq, Eq)]
pub enum ShellStep {
    /// The line is blank: read the next one.
    Skip,
    /// Leave the shell.
    Leave(ShellAction),
    /// Say which database the session is connected to.
    ShowDatabase,
    ShowHelp,
    /// Carry out the command, which is the trimmed line.
    Execute(String),
}

/// The mathematical value of a [`ShellStep`].
pub enum ShellStepView {
    Skip,
    Leave(ShellAction),
    ShowDatabase,
    ShowHelp,
    Execute(Seq<char>),
}

impl View for ShellStep {
    type V = ShellStepView;

    open spec fn view(&self) -> ShellStepView {
        match self {
            ShellStep::Skip => ShellStepView::Skip,
            ShellStep::Leave(a) => ShellStepView::Leave(*a),
            ShellStep::ShowDatabase => ShellStepView::ShowDatabase,
            ShellStep::ShowHelp => ShellStepView::ShowHelp,
            ShellStep::Execute(c) => ShellStepView::Execute(c@),
        }
    }
}

impl ShellStep {
    /// Whether the line goes into the history: every line but a blank one.
    pub fn remembered(&self) -> (r: bool)
        ensures
            r == !(self@ is Skip),
    {
        match self {
            ShellStep::Skip => false,
            _ => true,
        }
    }
}

/// What the shell does with the line `line`, which is trimmed first.
pub open spec fn shell_step_for(line: Seq<char>) -> ShellStepView {
    let t = trim(line);
    if t.len() == 0 {
        ShellStepView::Skip
    } else if t == "exit"@ {
        ShellStepView::Leave(ShellAction::Exit)
    } else if t == ".vrepl"@ {
        ShellStepView::Leave(ShellAction::SwitchToRepl)
    } else if t == ".dbinfo"@ {
        ShellStepView::ShowDatabase
    } else if t == "help"@ {
        ShellStepView::ShowHelp
    } else {
        ShellStepView::Execute(t)
    }
}

/// Decides what the shell does with one line.
pub fn shell_step(line: &str) -> (r: ShellStep)
    ensures
        r@ == shell_step_for(line@),
{
    let t = trim_chars(&to_chars(line));
    if t.len() == 0 {
        ShellStep::Skip
    } else if chars_are(&t, "exit") {
        ShellStep::Leave(ShellAction::Exit)
    } else if chars_are(&t, ".vrepl") {
        ShellStep::Leave(ShellAction::SwitchToRepl)
    } else if chars_are(&t, ".dbinfo") {
        ShellStep::ShowDatabase
    } else if chars_are(&t, "help") {
        ShellStep::ShowHelp
    } else {
        ShellStep::Execute(to_text(&t))
    }
}

/// A command of the shell.
#[derive(Debug, Clone, PartialEq, Eq)]
pub enum ShellCommand {
    /// The line holds no word.
    Nothing,
    /// Change to this directory.
    ChangeDirectory(String),
    PrintDirectory,
    History,
    /// Start the program with these arguments.
    Run { program: String, args: Vec<String> },
}

/// The mathematical value of a [`ShellCommand`].
pub enum ShellCommandView {
    Nothing,
    ChangeDirectory(Seq<char>),
    PrintDirectory,
    History,
    Run { program: Seq<char>, args: Seq<Seq<char>> },
}

impl View for ShellCommand {
    type V = ShellCommandView;

    open spec fn view(&self) -> ShellCommandView {
        match self {
            ShellCommand::Nothing => ShellCommandView::Nothing,
            ShellCommand::ChangeDirectory(d) => ShellCommandView::ChangeDirectory(d@),
            ShellCommand::PrintDirectory => ShellCommandView::PrintDirectory,
            ShellCommand::History => ShellCommandView::History,
            ShellCommand::Run { program, args } => ShellCommandView::Run {
                program: program@,
                args: line_texts(args@),
            },
        }
    }
}

/// The home directory, or the current directory where there is none.
pub open spec fn home_or_here(home: Option<Seq<char>>) -> Seq<char> {
    match home {
        Some(h) => h,
        None => "."@,
    }
}

/// Where `cd` with the words `parts` goes: home without an argument or with
/// `~`, under home with `~/...`, else to its argument. Where no home is
/// known, `~` and no argument mean the current directory and `~/...` is
/// taken as it is.
pub open spec fn cd_target(parts: Seq<Seq<char>>, home: Option<Seq<char>>) -> Seq<char> {
    if parts.len() > 1 {
        let p = parts[1];
        if p == "~"@ {
            home_or_here(home)
        } else if "~/"@.is_prefix_of(p) {
            match home {
                Some(h) => h + "/"@ + p.subrange(2, p.len() as int),
                None => p,
            }
        } else {
            p
        }
    } else {
        home_or_here(home)
    }
}

/// The command that the line `command` gives, with the home directory `home`
/// if one is known.
pub open spec fn shell_command_for(command: Seq<char>, home: Option<Seq<char>>) -> ShellCommandView {
    let parts = words(command);
    if parts.len() == 0 {
        ShellCommandView::Nothing
    } else if parts[0] == "cd"@ {
        ShellCommandView::ChangeDirectory(cd_target(parts, home))
    } else if parts[0] == "pwd"@ {
        ShellCommandView::PrintDirectory
    } else if parts[0] == "history"@ {
        ShellCommandView::History
    } else {
        ShellCommandView::Run { program: parts[0], args: parts.subrange(1, parts.len() as int) }
    }
}

/// The view of an optional string slice.
pub open spec fn optional_str(o: Option<&str>) -> Option<Seq<char>> {
    match o {
        Some(s) => Some(s@),
        None => None,
    }
}

fn home_or_here_text(home: Option<&str>) -> (r: String)
    ensures
        r@ == home_or_here(optional_str(home)),
{
    match home {
        Some(h) => String::from_str(h),
        None => String::from_str("."),
    }
}

/// Reads a command of the shell.
pub fn parse_shell_command(command: &str, home: Option<&str>) -> (r: ShellCommand)
    ensures
        r@ == shell_command_for(command@, optional_str(home)),
{
    let parts = split_words(&to_chars(command));
    if parts.len() == 0 {
        return ShellCommand::Nothing;
    }
    assert(texts(parts@)[0] == parts@[0]@);
    if chars_are(&parts[0], "cd") {
        let target = if parts.len() > 1 {
            assert(texts(parts@)[1] == parts@[1]@);
            let p = &parts[1];
            if chars_are(p, "~") {
                home_or_here_text(home)
            } else if chars_start_with(p, "~/") {
                proof {
                    reveal_strlit("~/");
                }
                match home {
                    Some(h) => {
                        let rest = to_text_range(p, 2, p.len());
                        String::from_str(h).concat("/").concat(rest.as_str())
                    },
                    None => to_text(p),
                }
            } else {
                to_text(p)
            }
        } else {
            home_or_here_text(home)
        };
        ShellCommand::ChangeDirectory(target)
    } else if chars_are(&parts[0], "pwd") {
        ShellCommand::PrintDirectory
    } else if chars_are(&parts[0], "history") {
        ShellCommand::History
    } else {
        let mut args: Vec<String> = Vec::new();
        let mut i: usize = 1;
        while i < parts.len()
            invariant
                1 <= i <= parts.len(),
                args.len() == i - 1,
                forall|k: int| 0 <= k < args.len() ==> (#[trigger] args[k])@ == parts[k + 1]@,
            decreases parts.len() - i,
        {
            args.push(to_text(&parts[i]));
            i += 1;
        }
        assert(line_texts(args@) =~= texts(parts@).subrange(1, parts.len() as int));
        ShellCommand::Run { program: to_text(&parts[0]), args }
    }
}

/// What the tab key offers.
#[derive(Debug, Clone, PartialEq, Eq)]
pub enum Completion {
    /// These commands, to replace the line from its start.
    Commands(Vec<String>),
    /// The names of files, as the line editor completes them.
    Files,
    /// Nothing.
    Nothing,
}

/// The mathematical value of a [`Completion`].
pub enum CompletionView {
    Commands(Seq<Seq<char>>),
    Files,
    Nothing,
}

impl View for Completion {
    type V = CompletionView;

    open spec fn view(&self) -> CompletionView {
        match self {
            Completion::Commands(c) => CompletionView::Commands(line_texts(c@)),
            Completion::Files => CompletionView::Files,
            Completion::Nothing => CompletionView::Nothing,
        }
    }
}

/// `command` if it begins with `word`, else nothing.
pub open spec fn offered(word: Seq<char>, command: Seq<char>) -> Seq<Seq<char>> {
    if word.is_prefix_of(command) {
        seq![command]
    } else {
        Seq::empty()
    }
}

/// The built-in commands that begin with `word`, in their fixed order.
pub open spec fn builtins_with(word: Seq<char>) -> Seq<Seq<char>> {
    offered(word, "cd"@) + offered(word, "pwd"@) + offered(word, "history"@) + offered(
        word,
        "help"@,
    ) + offered(word, "exit"@) + offered(word, ".vrepl"@) + offered(word, ".dbinfo"@)
}

/// Whether the line `line`, without the whitespace before it, begins with
/// `cd ` or `ls `: the two commands whose argument is a file.
pub open spec fn takes_file(line: Seq<char>) -> bool {
    let rest = line.subrange(skip_whitespace(line, 0), line.len() as int);
    "cd "@.is_prefix_of(rest) || "ls "@.is_prefix_of(rest)
}

/// What the tab key offers for the text `line` before the cursor. With no
/// word typed, all built-in commands; with one word, the built-in commands
/// that begin with it, if there are any; else the names of files after `cd`
/// and `ls`, and nothing after anything else.
pub open spec fn completion_for(line: Seq<char>) -> CompletionView {
    let typed = words(line);
    if typed.len() == 0 {
        CompletionView::Commands(builtins_with(Seq::empty()))
    } else if typed.len() == 1 && builtins_with(typed[0]).len() > 0 {
        CompletionView::Commands(builtins_with(typed[0]))
    } else if takes_file(line) {
        CompletionView::Files
    } else {
        CompletionView::Nothing
    }
}

fn offer(found: &mut Vec<String>, word: &Vec<char>, command: &str)
    ensures
        line_texts(final(found)@) == line_texts(old(found)@) + offered(word@, command@),
{
    let c = to_chars(command);
    let mut matches = word.len() <= c.len();
    let mut i: usize = 0;
    while matches && i < word.len()
        invariant
            i <= word.len(),
            matches ==> word.len() <= c.len(),
            matches ==> forall|k: int| 0 <= k < i ==> word@[k] == c@[k],
            !matches ==> !word@.is_prefix_of(c@),
        decreases word.len() - i, matches as int,
    {
        if word[i] != c[i] {
            assert(c@.subrange(0, word@.len() as int)[i as int] == c@[i as int]);
            matches = false;
        } else {
            i += 1;
        }
    }
    if matches {
        assert(c@.subrange(0, word@.len() as int) =~= word@);
        push_line(found, String::from_str(command));
        assert(line_texts(old(found)@).push(command@) =~= line_texts(old(found)@) + seq![
            command@,
        ]);
    } else {
        assert(line_texts(found@) + Seq::<Seq<char>>::empty() =~= line_texts(found@));
    }
}

fn builtin_commands(word: &Vec<char>) -> (r: Vec<String>)
    ensures
        line_texts(r@) == builtins_with(word@),
{
    let mut found: Vec<String> = Vec::new();
    assert(line_texts(found@) =~= Seq::<Seq<char>>::empty());
    offer(&mut found, word, "cd");
    offer(&mut found, word, "pwd");
    offer(&mut found, word, "history");
    offer(&mut found, word, "help");
    offer(&mut found, word, "exit");
    offer(&mut found, word, ".vrepl");
    offer(&mut found, word, ".dbinfo");
    assert(line_texts(found@) =~= builtins_with(word@));
    found
}

/// Decides what the tab key offers for the text `line` before the cursor.
pub fn complete_line(line: &str) -> (r: Completion)
    ensures
        r@ == completion_for(line@),
{
    let chars = to_chars(line);
    let typed = split_words(&chars);
    if typed.len() == 0 {
        let nothing: Vec<char> = Vec::new();
        assert(nothing@ =~= Seq::<char>::empty());
        return Completion::Commands(builtin_commands(&nothing));
    }
    assert(texts(typed@)[0] == typed@[0]@);
    if typed.len() == 1 {
        let candidates = builtin_commands(&typed[0]);
        if candidates.len() > 0 {
            return Completion::Commands(candidates);
        }
    }
    let (from, _) = trim_bounds(&chars);
    let rest = copy_range(&chars, from, chars.len());
    if chars_start_with(&rest, "cd ") || chars_start_with(&rest, "ls ") {
        Completion::Files
    } else {
        Completion::Nothing
    }
}

/// The directory as the prompt shows it: `~` for the home directory, `~/...`
/// for `below_home`, the path below it, and the full path elsewhere.
pub open spec fn shown_directory(
    cwd: Seq<char>,
    home: Seq<char>,
    below_home: Option<Seq<char>>,
) -> Seq<char> {
    if cwd == home {
        "~"@
    } else {
        match below_home {
            Some(rest) => "~/"@ + rest,
            None => cwd,
        }
    }
}

/// The prompt of the shell in the directory `cwd`, where `below_home` is the
/// path of `cwd` below the home directory `home`, if it lies there.
pub fn shell_prompt(cwd: &str, home: &str, below_home: Option<&str>) -> (r: String)
    ensures
        r@ == "[vapor-shell "@ + shown_directory(cwd@, home@, optional_str(below_home)) + "]$ "@,
{
    let shown = if chars_are(&to_chars(cwd), home) {
        String::from_str("~")
    } else {
        match below_home {
            Some(rest) => String::from_str("~/").concat(rest),
            None => String::from_str(cwd),
        }
    };
    String::from_str("[vapor-shell ").concat(shown.as_str()).concat("]$ ")
}

} // verus!
