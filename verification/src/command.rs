//! Commands: how a line of input becomes one, and what running one does.
//!
//! Both go by steps. Where a step needs the outside world, it stops with a
//! question (what is at this path? did this program start?), and goes on when
//! the caller hands it the answer.

use crate::resolver::{
    builtin_kind, lemma_search_finds_first_match, names_builtin, paths_left, resolved,
    search_begin, search_outcome, search_probed, searched_name, status_at, BuiltinKind, Executable,
    ExecutableView, FileStatus, Resolution, ResolutionView, Search, SearchPath, SearchView,
};
use crate::text::{join, joined, split_words, text_of, texts, words};
use vstd::prelude::*;
use vstd::string::StringExecFns;

verus! {

/// What the shell does after a command: read the next one, or stop.
#[derive(Clone, Copy, Debug, PartialEq, Eq, Structural)]
pub enum CommandResult {
    Continue,
    Exit,
}

/// What a command is, once its name has been resolved.
#[derive(Debug, PartialEq, Eq)]
pub enum CommandType {
    Echo,
    Exec(Executable),
    Exit,
    Type,
}

/// What a [`CommandType`] stands for.
pub enum CommandTypeView {
    Echo,
    Exec(ExecutableView),
    Exit,
    Type,
}

impl View for CommandType {
    type V = CommandTypeView;

    open spec fn view(&self) -> CommandTypeView {
        match self {
            CommandType::Echo => CommandTypeView::Echo,
            CommandType::Exec(executable) => CommandTypeView::Exec(executable@),
            CommandType::Exit => CommandTypeView::Exit,
            CommandType::Type => CommandTypeView::Type,
        }
    }
}

/// A command ready to run: what it is, and the words that followed its name.
#[derive(Debug, PartialEq, Eq)]
pub struct Command {
    pub kind: CommandType,
    pub args: Vec<String>,
}

/// What a [`Command`] stands for.
pub struct CommandView {
    pub kind: CommandTypeView,
    pub args: Seq<Seq<char>>,
}

impl View for Command {
    type V = CommandView;

    open spec fn view(&self) -> CommandView {
        CommandView { kind: self.kind@, args: texts(self.args@) }
    }
}

/// Why a line is no command.
#[derive(Debug, PartialEq, Eq)]
pub enum ParseError {
    /// The line holds no word.
    NoCommand,
    /// The first word is no builtin, and no file of that name can be run.
    NotFound(String),
}

/// What a [`ParseError`] stands for.
pub enum ParseErrorView {
    NoCommand,
    NotFound(Seq<char>),
}

impl View for ParseError {
    type V = ParseErrorView;

    open spec fn view(&self) -> ParseErrorView {
        match self {
            ParseError::NoCommand => ParseErrorView::NoCommand,
            ParseError::NotFound(name) => ParseErrorView::NotFound(name@),
        }
    }
}

/// Where the parsing of a line stands.
#[derive(Debug, PartialEq, Eq)]
pub enum Parse {
    Done(Result<Command, ParseError>),
    /// The name is no builtin: the caller is asked what is at the search's
    /// candidate.
    Resolving { search: Search, args: Vec<String> },
}

/// What a [`Parse`] stands for.
pub enum ParseView {
    Done(Result<CommandView, ParseErrorView>),
    Resolving { search: SearchView, args: Seq<Seq<char>> },
}

/// What the result of a parse stands for.
pub open spec fn parsed_view(result: Result<Command, ParseError>) -> Result<
    CommandView,
    ParseErrorView,
> {
    match result {
        Ok(command) => Ok(command@),
        Err(error) => Err(error@),
    }
}

impl View for Parse {
    type V = ParseView;

    open spec fn view(&self) -> ParseView {
        match self {
            Parse::Done(result) => ParseView::Done(parsed_view(*result)),
            Parse::Resolving { search, args } => ParseView::Resolving {
                search: search@,
                args: texts(args@),
            },
        }
    }
}

/// The command type of a builtin.
pub open spec fn builtin_type(kind: BuiltinKind) -> CommandTypeView {
    match kind {
        BuiltinKind::Echo => CommandTypeView::Echo,
        BuiltinKind::Exit => CommandTypeView::Exit,
        BuiltinKind::Type => CommandTypeView::Type,
    }
}

/// The parse of a line whose name is being searched for, given where the search
/// stands: a file found makes the command, a search that failed the error.
pub open spec fn parse_resolution(resolution: ResolutionView, args: Seq<Seq<char>>) -> ParseView {
    match resolution {
        ResolutionView::Pending(search) => ParseView::Resolving { search, args },
        ResolutionView::Found(executable) => ParseView::Done(
            Ok(CommandView { kind: CommandTypeView::Exec(executable), args }),
        ),
        ResolutionView::NotFound(name) => ParseView::Done(Err(ParseErrorView::NotFound(name))),
    }
}

/// The start of the parse of `input`. The first word is the name, the others
/// are the arguments. A builtin name is a command at once; any other name is
/// searched for in `dirs`.
pub open spec fn parse_begin(input: Seq<char>, dirs: Seq<Seq<char>>) -> ParseView {
    let found = words(input);
    if found.len() == 0 {
        ParseView::Done(Err(ParseErrorView::NoCommand))
    } else {
        match builtin_kind(found[0]) {
            Some(kind) => ParseView::Done(
                Ok(CommandView { kind: builtin_type(kind), args: found.skip(1) }),
            ),
            None => parse_resolution(search_begin(found[0], dirs), found.skip(1)),
        }
    }
}

/// The parse after the caller reported `probe` for its candidate. A parse that
/// is done stays as it is.
pub open spec fn parse_probed(parse: ParseView, probe: Option<FileStatus>) -> ParseView {
    match parse {
        ParseView::Done(_) => parse,
        ParseView::Resolving { search, args } => parse_resolution(search_probed(search, probe), args),
    }
}

fn parse_after(resolution: Resolution, args: Vec<String>) -> (parse: Parse)
    ensures
        parse@ == parse_resolution(resolution@, texts(args@)),
{
    match resolution {
        Resolution::Pending(search) => Parse::Resolving { search, args },
        Resolution::Found(executable) => Parse::Done(
            Ok(Command { kind: CommandType::Exec(executable), args }),
        ),
        Resolution::NotFound(name) => Parse::Done(Err(ParseError::NotFound(name))),
    }
}

impl Command {
    /// Starts to parse a line of input. `path` is where a name that is no
    /// builtin is searched for.
    pub fn parse(input: &str, path: &SearchPath) -> (parse: Parse)
        ensures
            parse@ == parse_begin(input@, path@),
    {
        let mut found = split_words(input);
        if found.len() == 0 {
            return Parse::Done(Err(ParseError::NoCommand));
        }
        let ghost all = found@;
        let name = found.remove(0);
        assert(texts(found@) == texts(all).skip(1));
        match Command::classify_builtin(name.as_str()) {
            Some(kind) => {
                let kind = match kind {
                    BuiltinKind::Echo => CommandType::Echo,
                    BuiltinKind::Exit => CommandType::Exit,
                    BuiltinKind::Type => CommandType::Type,
                };
                Parse::Done(Ok(Command { kind, args: found }))
            },
            None => parse_after(Command::find_executable(name.as_str(), path), found),
        }
    }
}

impl Parse {
    /// The path that the caller is asked to look at, if the parse waits for one.
    pub fn candidate(&self) -> (path: Option<&str>)
        ensures
            match self@ {
                ParseView::Done(_) => path is None,
                ParseView::Resolving { search, args } => {
                    &&& search.pending.len() > 0
                    &&& path matches Some(p)
                    &&& p@ == search.pending[0]
                },
            },
    {
        match self {
            Parse::Done(_) => None,
            Parse::Resolving { search, args } => Some(search.candidate()),
        }
    }

    /// Takes the caller's report on the candidate and moves the parse on.
    pub fn probed(self, probe: Option<FileStatus>) -> (parse: Parse)
        ensures
            parse@ == parse_probed(self@, probe),
    {
        match self {
            Parse::Done(result) => Parse::Done(result),
            Parse::Resolving { search, args } => parse_after(search.probed(probe), args),
        }
    }
}

/// The path that a parse asks about, where it asks about one.
pub open spec fn parse_candidate(parse: ParseView) -> Seq<char> {
    match parse {
        ParseView::Done(_) => Seq::empty(),
        ParseView::Resolving { search, args } => search.pending[0],
    }
}

/// How many paths a parse has yet to look at.
pub open spec fn parse_paths_left(parse: ParseView) -> nat {
    match parse {
        ParseView::Done(_) => 0,
        ParseView::Resolving { search, args } => search.pending.len(),
    }
}

/// Where the parse ends when each candidate is answered from `files`.
pub open spec fn parse_outcome(parse: ParseView, files: Map<Seq<char>, FileStatus>) -> Result<
    CommandView,
    ParseErrorView,
>
    decreases parse_paths_left(parse),
{
    match parse {
        ParseView::Done(result) => result,
        ParseView::Resolving { search, args } => if search.pending.len() == 0 {
            Err(ParseErrorView::NotFound(search.name))
        } else {
            parse_outcome(parse_probed(parse, status_at(files, search.pending[0])), files)
        },
    }
}

/// What `input` means when the files are as `files` says. A line without a
/// word is no command. Else the first word names the command: a builtin, or
/// else the executable that the name resolves to in `dirs`; the other words
/// are its arguments. A name that is neither is not found.
pub open spec fn parsed(
    input: Seq<char>,
    dirs: Seq<Seq<char>>,
    files: Map<Seq<char>, FileStatus>,
) -> Result<CommandView, ParseErrorView> {
    let found = words(input);
    if found.len() == 0 {
        Err(ParseErrorView::NoCommand)
    } else {
        match builtin_kind(found[0]) {
            Some(kind) => Ok(CommandView { kind: builtin_type(kind), args: found.skip(1) }),
            None => match resolved(found[0], dirs, files) {
                Some(executable) => Ok(
                    CommandView { kind: CommandTypeView::Exec(executable), args: found.skip(1) },
                ),
                None => Err(ParseErrorView::NotFound(found[0])),
            },
        }
    }
}

proof fn lemma_parse_follows_search(
    resolution: ResolutionView,
    args: Seq<Seq<char>>,
    files: Map<Seq<char>, FileStatus>,
)
    ensures
        parse_outcome(parse_resolution(resolution, args), files) == match search_outcome(
            resolution,
            files,
        ) {
            Some(executable) => Ok(CommandView { kind: CommandTypeView::Exec(executable), args }),
            None => Err(ParseErrorView::NotFound(searched_name(resolution))),
        },
    decreases paths_left(resolution),
{
    if let ResolutionView::Pending(search) = resolution {
        if search.pending.len() > 0 {
            let next = search_probed(search, status_at(files, search.pending[0]));
            lemma_parse_follows_search(next, args, files);
        }
    }
}

/// A parse that is answered from the files ends with what the line means:
/// a builtin wins over any file of its name, and any other name is the first
/// match on the search path, or is not found.
pub proof fn lemma_parse_resolves_names(
    input: Seq<char>,
    dirs: Seq<Seq<char>>,
    files: Map<Seq<char>, FileStatus>,
)
    ensures
        parse_outcome(parse_begin(input, dirs), files) == parsed(input, dirs, files),
{
    let found = words(input);
    if found.len() > 0 && builtin_kind(found[0]) is None {
        lemma_parse_follows_search(search_begin(found[0], dirs), found.skip(1), files);
        lemma_search_finds_first_match(found[0], dirs, files);
    }
}

/// What a command has to say when it is done: nothing, a line for the
/// standard output, or a line for the standard error.
#[derive(Debug, PartialEq, Eq)]
pub enum Output {
    Silent,
    Stdout(String),
    Stderr(String),
}

/// What an [`Output`] stands for.
pub enum OutputView {
    Silent,
    Stdout(Seq<char>),
    Stderr(Seq<char>),
}

impl View for Output {
    type V = OutputView;

    open spec fn view(&self) -> OutputView {
        match self {
            Output::Silent => OutputView::Silent,
            Output::Stdout(line) => OutputView::Stdout(line@),
            Output::Stderr(line) => OutputView::Stderr(line@),
        }
    }
}

/// A program to start: the file to run, the name it is told it was called by,
/// and the arguments after that name.
#[derive(Debug, PartialEq, Eq)]
pub struct Launch {
    pub program: String,
    pub argv0: String,
    pub args: Vec<String>,
}

/// What a [`Launch`] stands for.
pub struct LaunchView {
    pub program: Seq<char>,
    pub argv0: Seq<char>,
    pub args: Seq<Seq<char>>,
}

impl View for Launch {
    type V = LaunchView;

    open spec fn view(&self) -> LaunchView {
        LaunchView { program: self.program@, argv0: self.argv0@, args: texts(self.args@) }
    }
}

/// Where the running of a command stands.
#[derive(Debug, PartialEq, Eq)]
pub enum Execution {
    Done { output: Output, result: CommandResult },
    /// `type` looks for a file: the caller is asked what is at the search's
    /// candidate.
    Resolving(Search),
    /// The caller is asked to start the program with its own standard streams,
    /// to wait until it has ended, and to say whether it could be started.
    Launching(Launch),
}

/// What an [`Execution`] stands for.
pub enum ExecutionView {
    Done { output: OutputView, result: CommandResult },
    Resolving(SearchView),
    Launching(LaunchView),
}

impl View for Execution {
    type V = ExecutionView;

    open spec fn view(&self) -> ExecutionView {
        match self {
            Execution::Done { output, result } => ExecutionView::Done {
                output: output@,
                result: *result,
            },
            Execution::Resolving(search) => ExecutionView::Resolving(search@),
            Execution::Launching(launch) => ExecutionView::Launching(launch@),
        }
    }
}

/// An execution that is done, goes on, and says `line` on the standard output.
pub open spec fn says(line: Seq<char>) -> ExecutionView {
    ExecutionView::Done { output: OutputView::Stdout(line), result: CommandResult::Continue }
}

/// An execution that is done, goes on, and says `line` on the standard error.
pub open spec fn complains(line: Seq<char>) -> ExecutionView {
    ExecutionView::Done { output: OutputView::Stderr(line), result: CommandResult::Continue }
}

/// What `type` has to say of a name, given where the search for its file
/// stands.
pub open spec fn type_resolution(resolution: ResolutionView) -> ExecutionView {
    match resolution {
        ResolutionView::Pending(search) => ExecutionView::Resolving(search),
        ResolutionView::Found(executable) => says(executable.name + " is "@ + executable.path),
        ResolutionView::NotFound(name) => says(name + ": not found"@),
    }
}

/// The start of the running of `command`.
///
/// `echo` says its arguments, one space between each two. `exit` says nothing
/// and stops the shell. `type` says what its first argument names, a builtin
/// or else a file searched for in `dirs`, and complains where it has no
/// argument. Any other command is a program to start.
pub open spec fn execute_begin(command: CommandView, dirs: Seq<Seq<char>>) -> ExecutionView {
    match command.kind {
        CommandTypeView::Echo => says(joined(command.args, " "@)),
        CommandTypeView::Exit => ExecutionView::Done {
            output: OutputView::Silent,
            result: CommandResult::Exit,
        },
        CommandTypeView::Type => if command.args.len() == 0 {
            complains("type: missing argument"@)
        } else if names_builtin(command.args[0]) {
            says(command.args[0] + " is a shell builtin"@)
        } else {
            type_resolution(search_begin(command.args[0], dirs))
        },
        CommandTypeView::Exec(executable) => ExecutionView::Launching(
            LaunchView { program: executable.path, argv0: executable.name, args: command.args },
        ),
    }
}

/// The execution after the caller reported `probe` for its candidate. An
/// execution that waits for no such report stays as it is.
pub open spec fn execute_probed(execution: ExecutionView, probe: Option<FileStatus>) -> ExecutionView {
    match execution {
        ExecutionView::Resolving(search) => type_resolution(search_probed(search, probe)),
        _ => execution,
    }
}

/// The execution after the caller tried to start its program: `failure` is the
/// reason why it could not be started, or nothing if it ran and has ended. A
/// program that could not be started is a complaint, and the shell goes on
/// either way. An execution that waits for no program stays as it is.
pub open spec fn execute_launched(execution: ExecutionView, failure: Option<Seq<char>>) -> ExecutionView {
    match execution {
        ExecutionView::Launching(launch) => match failure {
            Some(cause) => complains(launch.argv0 + ": "@ + cause),
            None => ExecutionView::Done {
                output: OutputView::Silent,
                result: CommandResult::Continue,
            },
        },
        _ => execution,
    }
}

fn say(line: String) -> (execution: Execution)
    ensures
        execution@ == says(line@),
{
    Execution::Done { output: Output::Stdout(line), result: CommandResult::Continue }
}

fn complain(line: String) -> (execution: Execution)
    ensures
        execution@ == complains(line@),
{
    Execution::Done { output: Output::Stderr(line), result: CommandResult::Continue }
}

fn type_after(resolution: Resolution) -> (execution: Execution)
    ensures
        execution@ == type_resolution(resolution@),
{
    match resolution {
        Resolution::Pending(search) => Execution::Resolving(search),
        Resolution::Found(executable) => {
            let mut line = executable.name;
            line.append(" is ");
            line.append(executable.path.as_str());
            say(line)
        },
        Resolution::NotFound(name) => {
            let mut line = name;
            line.append(": not found");
            say(line)
        },
    }
}

impl Command {
    /// Starts to run the command. `path` is where `type` searches for a name
    /// that is no builtin.
    pub fn execute(self, path: &SearchPath) -> (execution: Execution)
        ensures
            execution@ == execute_begin(self@, path@),
    {
        match self.kind {
            CommandType::Echo => say(join(&self.args, " ")),
            CommandType::Exit => Execution::Done {
                output: Output::Silent,
                result: CommandResult::Exit,
            },
            CommandType::Type => {
                if self.args.len() == 0 {
                    complain(String::from_str("type: missing argument"))
                } else if Command::is_builtin(self.args[0].as_str()) {
                    let mut line = String::from_str(self.args[0].as_str());
                    line.append(" is a shell builtin");
                    say(line)
                } else {
                    type_after(Command::find_executable(self.args[0].as_str(), path))
                }
            },
            CommandType::Exec(executable) => Execution::Launching(
                Launch { program: executable.path, argv0: executable.name, args: self.args },
            ),
        }
    }
}

impl Execution {
    /// The path that the caller is asked to look at, if the execution waits
    /// for one.
    pub fn candidate(&self) -> (path: Option<&str>)
        ensures
            match self@ {
                ExecutionView::Resolving(search) => {
                    &&& search.pending.len() > 0
                    &&& path matches Some(p)
                    &&& p@ == search.pending[0]
                },
                _ => path is None,
            },
    {
        match self {
            Execution::Resolving(search) => Some(search.candidate()),
            _ => None,
        }
    }

    /// Takes the caller's report on the candidate and moves the execution on.
    pub fn probed(self, probe: Option<FileStatus>) -> (execution: Execution)
        ensures
            execution@ == execute_probed(self@, probe),
    {
        match self {
            Execution::Resolving(search) => type_after(search.probed(probe)),
            other => other,
        }
    }

    /// Takes the caller's report on the program and ends the execution.
    /// `failure` says why the program could not be started; it is `None` where
    /// the program ran and has ended.
    pub fn launched(self, failure: Option<&str>) -> (execution: Execution)
        ensures
            execution@ == execute_launched(self@, text_of(failure)),
    {
        match self {
            Execution::Launching(launch) => match failure {
                Some(cause) => {
                    let mut line = launch.argv0;
                    line.append(": ");
                    line.append(cause);
                    complain(line)
                },
                None => Execution::Done { output: Output::Silent, result: CommandResult::Continue },
            },
            other => other,
        }
    }
}

/// How many answers an execution may still wait for.
pub open spec fn answers_left(execution: ExecutionView) -> nat {
    match execution {
        ExecutionView::Done { output, result } => 0,
        ExecutionView::Resolving(search) => search.pending.len(),
        ExecutionView::Launching(_) => 1,
    }
}

/// Where the execution ends when each candidate is answered from `files` and
/// the attempt to start a program is answered by `failure`: what the command
/// says, and what the shell does next.
pub open spec fn execution_outcome(
    execution: ExecutionView,
    files: Map<Seq<char>, FileStatus>,
    failure: Option<Seq<char>>,
) -> (OutputView, CommandResult)
    decreases answers_left(execution),
{
    match execution {
        ExecutionView::Done { output, result } => (output, result),
        ExecutionView::Resolving(search) => if search.pending.len() == 0 {
            (OutputView::Stdout(search.name + ": not found"@), CommandResult::Continue)
        } else {
            execution_outcome(
                execute_probed(execution, status_at(files, search.pending[0])),
                files,
                failure,
            )
        },
        ExecutionView::Launching(_) => execution_outcome(
            execute_launched(execution, failure),
            files,
            failure,
        ),
    }
}

/// What running `command` comes to when the files are as `files` says and the
/// attempt to start a program is answered by `failure`.
///
/// `echo` says its arguments with one space between each two, however they
/// were spaced on the line. `exit` says nothing and stops the shell. `type`
/// says of its first argument that it is a builtin, or where the file is that
/// it resolves to in `dirs`, or that it is not found. A program says nothing
/// here when it ran; one that could not be started is a complaint that names
/// it and the reason. Only `exit` stops the shell.
pub open spec fn executed(
    command: CommandView,
    dirs: Seq<Seq<char>>,
    files: Map<Seq<char>, FileStatus>,
    failure: Option<Seq<char>>,
) -> (OutputView, CommandResult) {
    match command.kind {
        CommandTypeView::Echo => (
            OutputView::Stdout(joined(command.args, " "@)),
            CommandResult::Continue,
        ),
        CommandTypeView::Exit => (OutputView::Silent, CommandResult::Exit),
        CommandTypeView::Type => if command.args.len() == 0 {
            (OutputView::Stderr("type: missing argument"@), CommandResult::Continue)
        } else if names_builtin(command.args[0]) {
            (OutputView::Stdout(command.args[0] + " is a shell builtin"@), CommandResult::Continue)
        } else {
            match resolved(command.args[0], dirs, files) {
                Some(executable) => (
                    OutputView::Stdout(executable.name + " is "@ + executable.path),
                    CommandResult::Continue,
                ),
                None => (
                    OutputView::Stdout(command.args[0] + ": not found"@),
                    CommandResult::Continue,
                ),
            }
        },
        CommandTypeView::Exec(executable) => match failure {
            Some(cause) => (
                OutputView::Stderr(executable.name + ": "@ + cause),
                CommandResult::Continue,
            ),
            None => (OutputView::Silent, CommandResult::Continue),
        },
    }
}

proof fn lemma_type_follows_search(
    resolution: ResolutionView,
    files: Map<Seq<char>, FileStatus>,
    failure: Option<Seq<char>>,
)
    ensures
        execution_outcome(type_resolution(resolution), files, failure) == match search_outcome(
            resolution,
            files,
        ) {
            Some(executable) => (
                OutputView::Stdout(executable.name + " is "@ + executable.path),
                CommandResult::Continue,
            ),
            None => (
                OutputView::Stdout(searched_name(resolution) + ": not found"@),
                CommandResult::Continue,
            ),
        },
    decreases paths_left(resolution),
{
    if let ResolutionView::Pending(search) = resolution {
        if search.pending.len() > 0 {
            let next = search_probed(search, status_at(files, search.pending[0]));
            lemma_type_follows_search(next, files, failure);
        }
    }
}

/// An execution that is answered from the files, and by `failure` where it
/// starts a program, ends with what running the command comes to.
pub proof fn lemma_execute_runs_command(
    command: CommandView,
    dirs: Seq<Seq<char>>,
    files: Map<Seq<char>, FileStatus>,
    failure: Option<Seq<char>>,
)
    ensures
        execution_outcome(execute_begin(command, dirs), files, failure) == executed(
            command,
            dirs,
            files,
            failure,
        ),
{
    reveal_with_fuel(execution_outcome, 2);
    if command.kind is Type && command.args.len() > 0 && !names_builtin(command.args[0]) {
        lemma_type_follows_search(search_begin(command.args[0], dirs), files, failure);
        lemma_search_finds_first_match(command.args[0], dirs, files);
    }
}

/// Nothing stops the shell but `exit`: whatever the files hold, and whether or
/// not a program could be started, every other command lets the shell go on.
pub proof fn lemma_only_exit_stops(
    command: CommandView,
    dirs: Seq<Seq<char>>,
    files: Map<Seq<char>, FileStatus>,
    failure: Option<Seq<char>>,
)
    ensures
        executed(command, dirs, files, failure).1 == CommandResult::Exit <==> command.kind
            is Exit,
{
}

} // verus!
