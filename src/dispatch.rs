//! The builtin table and the dispatcher: from a token list to what the host
//! must do, and from the host's outcome to a report and a continuation signal.
use crate::tokens::views;
use vstd::prelude::*;
use vstd::string::StringExecFns;

verus! {

/// Whether the interpreter reads another line after a command.
#[derive(PartialEq, Eq, Structural, Clone, Copy, Debug)]
pub enum Signal {
    Continue,
    Stop,
}

/// The text a finished command writes, and whether the loop goes on.
#[derive(Debug)]
pub struct Report {
    /// Written to standard output, if any.
    pub stdout: Option<String>,
    /// One diagnostic line for standard error, if any.
    pub stderr: Option<String>,
    pub signal: Signal,
}

/// What the host does for one command.
#[derive(Debug)]
pub enum Action {
    /// Nothing left to do but write the report.
    Finish(Report),
    /// Change the working directory to the path, then call `cd_done`.
    ChangeDir(String),
    /// Spawn the program with the arguments, wait for it, then call `launch_done`.
    Launch(String, Vec<String>),
}

/// How an external program's run ended, as far as the interpreter cares.
#[derive(Debug)]
pub enum LaunchOutcome {
    /// The program ran and terminated, whatever its exit status.
    Exited,
    /// The process could not be created; the system's error text.
    SpawnFailed(String),
    /// The process ran but its termination could not be awaited; the error text.
    WaitFailed(String),
}

/// The usage message of `help`.
pub const HELP_TEXT: &'static str = "
Welcome to LSH (Little Shell)!
This is a simple shell implementation in Rust.

Usage:
  Type program names and arguments, then press Enter to execute.

Builtin Commands:
  cd [DIR]       Change the current directory to DIR.
  help           Show this help message.
  exit           Exit the shell.

External Commands:
  Any command available in your system's PATH, such as:
    ls, cat, echo, grep, etc.

For detailed information on external commands, use the 'man' command.

";

/// The diagnostic of `cd` called without exactly one argument.
pub const CD_USAGE: &'static str = "lsh: expected argument to \"cd\"";

/// The prefix of every builtin's diagnostic.
pub const BUILTIN_PREFIX: &'static str = "lsh: ";

/// The prefix of the diagnostic for a program that could not be started.
pub const SPAWN_PREFIX: &'static str = "Error spawning process: ";

/// The prefix of the diagnostic for a child whose end could not be awaited.
pub const WAIT_PREFIX: &'static str = "Error waiting for the child process: ";

/// A report as plain values.
pub struct ReportModel {
    pub stdout: Option<Seq<char>>,
    pub stderr: Option<Seq<char>>,
    pub signal: Signal,
}

/// An action as plain values.
pub enum ActionModel {
    Finish(ReportModel),
    ChangeDir(Seq<char>),
    Launch(Seq<char>, Seq<Seq<char>>),
}

pub open spec fn text(o: Option<String>) -> Option<Seq<char>> {
    match o {
        Some(s) => Some(s@),
        None => None,
    }
}

impl View for Report {
    type V = ReportModel;

    open spec fn view(&self) -> ReportModel {
        ReportModel { stdout: text(self.stdout), stderr: text(self.stderr), signal: self.signal }
    }
}

impl View for Action {
    type V = ActionModel;

    open spec fn view(&self) -> ActionModel {
        match self {
            Action::Finish(r) => ActionModel::Finish(r@),
            Action::ChangeDir(d) => ActionModel::ChangeDir(d@),
            Action::Launch(p, a) => ActionModel::Launch(p@, views(a@)),
        }
    }
}

/// A report that writes `out` and `err` and then signals `signal`.
pub open spec fn report(
    out: Option<Seq<char>>,
    err: Option<Seq<char>>,
    signal: Signal,
) -> ReportModel {
    ReportModel { stdout: out, stderr: err, signal }
}

/// `cd`: with exactly one argument, change to it; with none or several,
/// complain and change nothing. The shell goes on either way.
pub open spec fn cd_model(args: Seq<Seq<char>>) -> ActionModel {
    if args.len() == 1 {
        ActionModel::ChangeDir(args[0])
    } else {
        ActionModel::Finish(report(None, Some(CD_USAGE@), Signal::Continue))
    }
}

/// `help`: write the usage message and go on, whatever the arguments.
pub open spec fn help_model() -> ActionModel {
    ActionModel::Finish(report(Some(HELP_TEXT@), None, Signal::Continue))
}

/// `exit`: write nothing and stop, whatever the arguments.
pub open spec fn exit_model() -> ActionModel {
    ActionModel::Finish(report(None, None, Signal::Stop))
}

/// The decision for a non-empty token list: a builtin chosen by an exact
/// match on the first token, or else the external program it names.
pub open spec fn dispatch(ts: Seq<Seq<char>>) -> ActionModel {
    let name = ts[0];
    let args = ts.drop_first();
    if name == "cd"@ {
        cd_model(args)
    } else if name == "help"@ {
        help_model()
    } else if name == "exit"@ {
        exit_model()
    } else {
        ActionModel::Launch(name, args)
    }
}

/// The report once the host tried to change directory: silence on success,
/// the system's error text behind the builtin prefix on failure; the shell
/// goes on either way.
pub open spec fn cd_done_model(result: Result<(), Seq<char>>) -> ReportModel {
    match result {
        Ok(()) => report(None, None, Signal::Continue),
        Err(e) => report(None, Some(BUILTIN_PREFIX@ + e), Signal::Continue),
    }
}

/// The report once the host ran an external program: the loop goes on only
/// if the program was started and awaited.
pub open spec fn launch_done_model(outcome: LaunchOutcome) -> ReportModel {
    match outcome {
        LaunchOutcome::Exited => report(None, None, Signal::Continue),
        LaunchOutcome::SpawnFailed(e) => report(None, Some(SPAWN_PREFIX@ + e@), Signal::Stop),
        LaunchOutcome::WaitFailed(e) => report(None, Some(WAIT_PREFIX@ + e@), Signal::Stop),
    }
}

fn finish(stdout: Option<String>, stderr: Option<String>, signal: Signal) -> (r: Action)
    ensures
        r@ == ActionModel::Finish(report(text(stdout), text(stderr), signal)),
{
    Action::Finish(Report { stdout, stderr, signal })
}

/// The `cd` builtin, given the arguments after the command name.
pub fn sh_cd(args: &Vec<String>) -> (r: Action)
    ensures
        r@ == cd_model(views(args@)),
{
    if args.len() == 1 {
        Action::ChangeDir(args[0].clone())
    } else {
        finish(None, Some(String::from_str(CD_USAGE)), Signal::Continue)
    }
}

/// The `help` builtin; its arguments are ignored.
pub fn sh_help(_args: &Vec<String>) -> (r: Action)
    ensures
        r@ == help_model(),
{
    finish(Some(String::from_str(HELP_TEXT)), None, Signal::Continue)
}

/// The `exit` builtin; its arguments are ignored.
pub fn sh_exit(_args: &Vec<String>) -> (r: Action)
    ensures
        r@ == exit_model(),
{
    finish(None, None, Signal::Stop)
}

/// The tokens of `ts` from index `from` on, copied.
fn tail(ts: &Vec<String>, from: usize) -> (r: Vec<String>)
    requires
        from <= ts.len(),
    ensures
        views(r@) == views(ts@).subrange(from as int, ts.len() as int),
{
    let mut r: Vec<String> = Vec::new();
    let mut i: usize = from;
    while i < ts.len()
        invariant
            from <= i <= ts.len(),
            views(r@) == views(ts@).subrange(from as int, i as int),
        decreases ts.len() - i,
    {
        let ghost prev = r@;
        let t = ts[i].clone();
        r.push(t);
        assert(r@ == prev.push(t));
        assert(views(r@) =~= views(prev).push(ts@[i as int]@));
        i = i + 1;
        assert(views(r@) =~= views(ts@).subrange(from as int, i as int));
    }
    r
}

/// Dispatches a non-empty token list: the first token names the command and
/// the rest are its arguments. A builtin is chosen by an exact,
/// case-sensitive match; any other name is run as an external program.
pub fn execute(args: &Vec<String>) -> (r: Action)
    requires
        args.len() > 0,
    ensures
        r@ == dispatch(views(args@)),
{
    let ghost ts = views(args@);
    let rest = tail(args, 1);
    assert(views(rest@) =~= ts.drop_first());
    let name = &args[0];
    if *name == String::from_str("cd") {
        sh_cd(&rest)
    } else if *name == String::from_str("help") {
        sh_help(&rest)
    } else if *name == String::from_str("exit") {
        sh_exit(&rest)
    } else {
        Action::Launch(name.clone(), rest)
    }
}

/// The report once the host has tried to change the working directory;
/// `result` holds the system's error text on failure.
pub fn cd_done(result: Result<(), String>) -> (r: Report)
    ensures
        r@ == cd_done_model(
            match result {
                Ok(()) => Ok(()),
                Err(e) => Err(e@),
            },
        ),
{
    match result {
        Ok(()) => Report { stdout: None, stderr: None, signal: Signal::Continue },
        Err(e) => {
            let msg = String::from_str(BUILTIN_PREFIX).concat(e.as_str());
            Report { stdout: None, stderr: Some(msg), signal: Signal::Continue }
        },
    }
}

/// The report once the host has run (or failed to run) an external program.
pub fn launch_done(outcome: LaunchOutcome) -> (r: Report)
    ensures
        r@ == launch_done_model(outcome),
{
    match outcome {
        LaunchOutcome::Exited => Report { stdout: None, stderr: None, signal: Signal::Continue },
        LaunchOutcome::SpawnFailed(e) => {
            let msg = String::from_str(SPAWN_PREFIX).concat(e.as_str());
            Report { stdout: None, stderr: Some(msg), signal: Signal::Stop }
        },
        LaunchOutcome::WaitFailed(e) => {
            let msg = String::from_str(WAIT_PREFIX).concat(e.as_str());
            Report { stdout: None, stderr: Some(msg), signal: Signal::Stop }
        },
    }
}

} // verus!
