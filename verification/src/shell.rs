//! The shell's loop: prompt, read a line, dispatch it, and again, until `exit`.
//!
//! The loop is a state machine. In each state the caller does the one thing
//! that the state asks for and reports back; the machine decides what comes
//! next.

use crate::command::{
    execute_begin, execute_launched, execute_probed, executed, execution_outcome,
    lemma_execute_runs_command, lemma_parse_resolves_names, parse_begin, parse_candidate,
    parse_outcome, parse_paths_left, parse_probed, parsed, says, Command, CommandResult,
    Execution, ExecutionView, Output, OutputView, Parse, ParseView,
};
use crate::resolver::{status_at, FileStatus, SearchPath};
use crate::text::{text_of, trim, trimmed, words};
use vstd::prelude::*;
use vstd::string::StringExecFns;

verus! {

/// Where the shell stands.
#[derive(Debug, PartialEq, Eq)]
pub enum Shell {
    /// The caller is asked to show the prompt.
    Prompting,
    /// The caller is asked for the next line of input.
    AwaitingInput,
    /// The line is being dispatched, and the name of its command is searched
    /// for: the caller is asked what is at the parse's candidate.
    Parsing { parse: Parse, line: String },
    /// The line is being dispatched, and its command runs. The caller is asked
    /// what the execution asks for; once that is done, to write its output.
    Running(Execution),
    /// The shell has ended.
    Stopped,
}

/// What a [`Shell`] stands for.
pub enum ShellView {
    Prompting,
    AwaitingInput,
    Parsing { parse: ParseView, line: Seq<char> },
    Running(ExecutionView),
    Stopped,
}

impl View for Shell {
    type V = ShellView;

    open spec fn view(&self) -> ShellView {
        match self {
            Shell::Prompting => ShellView::Prompting,
            Shell::AwaitingInput => ShellView::AwaitingInput,
            Shell::Parsing { parse, line } => ShellView::Parsing { parse: parse@, line: line@ },
            Shell::Running(execution) => ShellView::Running(execution@),
            Shell::Stopped => ShellView::Stopped,
        }
    }
}

/// What the shell says of a line that is no command. It names the whole line,
/// not its first word alone.
pub open spec fn unrecognized(line: Seq<char>) -> ExecutionView {
    says(line + ": command not found"@)
}

/// The shell in the middle of a line, given where the parse of the line
/// stands: a command runs, and a line that is no command is said to be none.
pub open spec fn dispatch(parse: ParseView, line: Seq<char>, dirs: Seq<Seq<char>>) -> ShellView {
    match parse {
        ParseView::Done(Ok(command)) => ShellView::Running(execute_begin(command, dirs)),
        ParseView::Done(Err(_)) => ShellView::Running(unrecognized(line)),
        ParseView::Resolving { search, args } => ShellView::Parsing { parse, line },
    }
}

/// The shell after the prompt was shown.
pub open spec fn shell_prompted(shell: ShellView) -> ShellView {
    match shell {
        ShellView::Prompting => ShellView::AwaitingInput,
        _ => shell,
    }
}

/// The shell after `input` was read. The line that it dispatches is the
/// input without the whitespace around it.
pub open spec fn shell_entered(shell: ShellView, input: Seq<char>, dirs: Seq<Seq<char>>) -> ShellView {
    match shell {
        ShellView::AwaitingInput => dispatch(
            parse_begin(trimmed(input), dirs),
            trimmed(input),
            dirs,
        ),
        _ => shell,
    }
}

/// The shell after the caller reported `probe` for the candidate.
pub open spec fn shell_probed(
    shell: ShellView,
    probe: Option<FileStatus>,
    dirs: Seq<Seq<char>>,
) -> ShellView {
    match shell {
        ShellView::Parsing { parse, line } => dispatch(parse_probed(parse, probe), line, dirs),
        ShellView::Running(execution) => ShellView::Running(execute_probed(execution, probe)),
        _ => shell,
    }
}

/// The shell after the caller tried to start the program.
pub open spec fn shell_launched(shell: ShellView, failure: Option<Seq<char>>) -> ShellView {
    match shell {
        ShellView::Running(execution) => ShellView::Running(execute_launched(execution, failure)),
        _ => shell,
    }
}

/// The shell after the output of a command was written: it prompts again, or
/// has ended where the command was `exit`.
pub open spec fn shell_reported(shell: ShellView) -> ShellView {
    match shell {
        ShellView::Running(ExecutionView::Done { output, result }) => match result {
            CommandResult::Continue => ShellView::Prompting,
            CommandResult::Exit => ShellView::Stopped,
        },
        _ => shell,
    }
}

fn dispatched(parse: Parse, line: String, path: &SearchPath) -> (shell: Shell)
    ensures
        shell@ == dispatch(parse@, line@, path@),
{
    match parse {
        Parse::Done(Ok(command)) => Shell::Running(command.execute(path)),
        Parse::Done(Err(_)) => {
            let mut said = line;
            said.append(": command not found");
            Shell::Running(
                Execution::Done { output: Output::Stdout(said), result: CommandResult::Continue },
            )
        },
        Parse::Resolving { search, args } => Shell::Parsing {
            parse: Parse::Resolving { search, args },
            line,
        },
    }
}

impl Shell {
    /// A shell about to prompt for its first line.
    pub fn new() -> (shell: Shell)
        ensures
            shell@ == ShellView::Prompting,
    {
        Shell::Prompting
    }

    /// Takes the caller's report that the prompt was shown.
    pub fn prompted(self) -> (shell: Shell)
        ensures
            shell@ == shell_prompted(self@),
    {
        match self {
            Shell::Prompting => Shell::AwaitingInput,
            other => other,
        }
    }

    /// Takes the input that the caller read. `path` is where its names are
    /// searched for.
    pub fn entered(self, input: &str, path: &SearchPath) -> (shell: Shell)
        ensures
            shell@ == shell_entered(self@, input@, path@),
    {
        match self {
            Shell::AwaitingInput => {
                let line = trim(input);
                dispatched(Command::parse(line, path), String::from_str(line), path)
            },
            other => other,
        }
    }

    /// The path that the caller is asked to look at, if the shell waits for
    /// one.
    pub fn candidate(&self) -> (path: Option<&str>)
        ensures
            match self@ {
                ShellView::Parsing { parse: ParseView::Resolving { search, args }, line } => {
                    &&& search.pending.len() > 0
                    &&& path matches Some(p)
                    &&& p@ == search.pending[0]
                },
                ShellView::Running(ExecutionView::Resolving(search)) => {
                    &&& search.pending.len() > 0
                    &&& path matches Some(p)
                    &&& p@ == search.pending[0]
                },
                _ => path is None,
            },
    {
        match self {
            Shell::Parsing { parse, line } => parse.candidate(),
            Shell::Running(execution) => execution.candidate(),
            _ => None,
        }
    }

    /// Takes the caller's report on the candidate.
    pub fn probed(self, probe: Option<FileStatus>, path: &SearchPath) -> (shell: Shell)
        ensures
            shell@ == shell_probed(self@, probe, path@),
    {
        match self {
            Shell::Parsing { parse, line } => dispatched(parse.probed(probe), line, path),
            Shell::Running(execution) => Shell::Running(execution.probed(probe)),
            other => other,
        }
    }

    /// Takes the caller's report on the program: why it could not be started,
    /// or `None` where it ran and has ended.
    pub fn launched(self, failure: Option<&str>) -> (shell: Shell)
        ensures
            shell@ == shell_launched(self@, text_of(failure)),
    {
        match self {
            Shell::Running(execution) => Shell::Running(execution.launched(failure)),
            other => other,
        }
    }

    /// Takes the caller's report that the output of the command was written.
    pub fn reported(self) -> (shell: Shell)
        ensures
            shell@ == shell_reported(self@),
    {
        match self {
            Shell::Running(Execution::Done { output, result }) => match result {
                CommandResult::Continue => Shell::Prompting,
                CommandResult::Exit => Shell::Stopped,
            },
            other => other,
        }
    }
}

/// Whether the shell is still parsing its line (1) or not (0).
pub open spec fn parsing_phase(shell: ShellView) -> nat {
    match shell {
        ShellView::Parsing { parse, line } => 1,
        _ => 0,
    }
}

/// How many paths the shell has yet to look at while it parses its line.
pub open spec fn parsing_left(shell: ShellView) -> nat {
    match shell {
        ShellView::Parsing { parse, line } => parse_paths_left(parse),
        _ => 0,
    }
}

/// Where the line that the shell is dispatching ends when each candidate is
/// answered from `files` and the attempt to start a program is answered by
/// `failure`: what is said, and what the shell does next. A shell that is not
/// in the middle of a line says nothing and goes on.
pub open spec fn dispatch_outcome(
    shell: ShellView,
    dirs: Seq<Seq<char>>,
    files: Map<Seq<char>, FileStatus>,
    failure: Option<Seq<char>>,
) -> (OutputView, CommandResult)
    decreases parsing_phase(shell), parsing_left(shell),
{
    match shell {
        ShellView::Parsing { parse, line } => dispatch_outcome(
            shell_probed(shell, status_at(files, parse_candidate(parse)), dirs),
            dirs,
            files,
            failure,
        ),
        ShellView::Running(execution) => execution_outcome(execution, files, failure),
        _ => (OutputView::Silent, CommandResult::Continue),
    }
}

/// What the line `line` comes to when the files are as `files` says and the
/// attempt to start a program is answered by `failure`: what its command comes
/// to, or, where the line is no command, the remark that it is not found.
pub open spec fn line_outcome(
    line: Seq<char>,
    dirs: Seq<Seq<char>>,
    files: Map<Seq<char>, FileStatus>,
    failure: Option<Seq<char>>,
) -> (OutputView, CommandResult) {
    match parsed(line, dirs, files) {
        Ok(command) => executed(command, dirs, files, failure),
        Err(_) => (OutputView::Stdout(line + ": command not found"@), CommandResult::Continue),
    }
}

proof fn lemma_dispatch_follows_parse(
    parse: ParseView,
    line: Seq<char>,
    dirs: Seq<Seq<char>>,
    files: Map<Seq<char>, FileStatus>,
    failure: Option<Seq<char>>,
)
    ensures
        dispatch_outcome(dispatch(parse, line, dirs), dirs, files, failure) == match parse_outcome(
            parse,
            files,
        ) {
            Ok(command) => execution_outcome(execute_begin(command, dirs), files, failure),
            Err(_) => (OutputView::Stdout(line + ": command not found"@), CommandResult::Continue),
        },
    decreases parse_paths_left(parse),
{
    reveal_with_fuel(dispatch_outcome, 2);
    if let ParseView::Resolving { search, args } = parse {
        let next = parse_probed(parse, status_at(files, search.pending[0]));
        if search.pending.len() > 0 {
            lemma_dispatch_follows_parse(next, line, dirs, files, failure);
        }
    }
}

/// An input that the shell dispatches, answered from the files and by
/// `failure`, ends with what its line comes to.
pub proof fn lemma_shell_dispatches_line(
    input: Seq<char>,
    dirs: Seq<Seq<char>>,
    files: Map<Seq<char>, FileStatus>,
    failure: Option<Seq<char>>,
)
    ensures
        dispatch_outcome(
            shell_entered(ShellView::AwaitingInput, input, dirs),
            dirs,
            files,
            failure,
        ) == line_outcome(trimmed(input), dirs, files, failure),
{
    let line = trimmed(input);
    lemma_dispatch_follows_parse(parse_begin(line, dirs), line, dirs, files, failure);
    lemma_parse_resolves_names(line, dirs, files);
    if let Ok(command) = parsed(line, dirs, files) {
        lemma_execute_runs_command(command, dirs, files, failure);
    }
}

/// The shell ends in one way only: the output of a command whose result is
/// to exit was written. No other report moves a shell that has not ended to
/// one that has.
pub proof fn lemma_shell_stops_on_exit_only(
    shell: ShellView,
    line: Seq<char>,
    dirs: Seq<Seq<char>>,
    probe: Option<FileStatus>,
    failure: Option<Seq<char>>,
)
    requires
        !(shell is Stopped),
    ensures
        !(shell_prompted(shell) is Stopped),
        !(shell_entered(shell, line, dirs) is Stopped),
        !(shell_probed(shell, probe, dirs) is Stopped),
        !(shell_launched(shell, failure) is Stopped),
        shell_reported(shell) is Stopped <==> (shell matches ShellView::Running(
            ExecutionView::Done { output, result },
        ) && result == CommandResult::Exit),
{
}

/// A line ends the shell exactly when its first word is `exit`, whatever
/// follows it, whatever the files hold and whether or not a program could be
/// started.
pub proof fn lemma_line_stops_shell_iff_exit(
    line: Seq<char>,
    dirs: Seq<Seq<char>>,
    files: Map<Seq<char>, FileStatus>,
    failure: Option<Seq<char>>,
)
    ensures
        line_outcome(line, dirs, files, failure).1 == CommandResult::Exit <==> (words(line).len()
            > 0 && words(line)[0] == "exit"@),
{
    reveal_strlit("echo");
    reveal_strlit("exit");
    assert("echo"@[1] != "exit"@[1]);
}

} // verus!
