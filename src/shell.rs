//! One turn of the interpreter loop, and what holds of every turn.
use crate::dispatch::{
    cd_done_model, dispatch, execute, launch_done_model, report, Action, ActionModel, LaunchOutcome, Signal, BUILTIN_PREFIX, CD_USAGE, HELP_TEXT,
    SPAWN_PREFIX, WAIT_PREFIX,
};
use crate::tokens::{blank, lemma_words, tokenize, words};
use vstd::prelude::*;

verus! {

/// The decision for one input line: `None` for a blank line, on which the
/// loop prompts again without dispatching; otherwise the dispatcher's action
/// for the line's tokens.
pub fn interpret(line: &str) -> (r: Option<Action>)
    ensures
        r is None <==> blank(line@),
        r matches Some(a) ==> a@ == dispatch(words(line@)),
{
    let ts = tokenize(line);
    if ts.len() == 0 {
        None
    } else {
        Some(execute(&ts))
    }
}

proof fn lemma_builtin_names_differ()
    ensures
        "cd"@ != "help"@,
        "cd"@ != "exit"@,
        "help"@ != "exit"@,
{
    reveal_strlit("cd");
    reveal_strlit("help");
    reveal_strlit("exit");
    assert("cd"@.len() != "help"@.len());
    assert("cd"@.len() != "exit"@.len());
    assert("help"@[0] != "exit"@[0]);
}

/// A line that holds only whitespace yields no token, so nothing is dispatched.
pub proof fn lemma_blank_line_dispatches_nothing(line: Seq<char>)
    requires
        blank(line),
    ensures
        words(line).len() == 0,
{
    lemma_words(line);
}

/// `exit` stops the loop and writes nothing, whatever arguments follow it.
pub proof fn lemma_exit_stops(ts: Seq<Seq<char>>)
    requires
        ts.len() > 0,
        ts[0] == "exit"@,
    ensures
        dispatch(ts) == ActionModel::Finish(report(None, None, Signal::Stop)),
{
    lemma_builtin_names_differ();
}

/// `help` writes the fixed usage message and the loop goes on, whatever
/// arguments follow it.
pub proof fn lemma_help_continues(ts: Seq<Seq<char>>)
    requires
        ts.len() > 0,
        ts[0] == "help"@,
    ensures
        dispatch(ts) == ActionModel::Finish(report(Some(HELP_TEXT@), None, Signal::Continue)),
{
    lemma_builtin_names_differ();
}

/// `cd` with one argument asks for a change to exactly that directory; after
/// the attempt the loop goes on, silently on success and with the system's
/// error text on failure.
pub proof fn lemma_cd_one_argument(dir: Seq<char>, error: Seq<char>)
    ensures
        dispatch(seq!["cd"@, dir]) == ActionModel::ChangeDir(dir),
        cd_done_model(Ok(())) == report(None, None, Signal::Continue),
        cd_done_model(Err(error)) == report(
            None,
            Some(BUILTIN_PREFIX@ + error),
            Signal::Continue,
        ),
{
    let ts = seq!["cd"@, dir];
    assert(ts.drop_first() =~= seq![dir]);
}

/// `cd` with no argument or with several asks for no directory change: it
/// writes the usage diagnostic and the loop goes on.
pub proof fn lemma_cd_usage(ts: Seq<Seq<char>>)
    requires
        ts.len() > 0,
        ts[0] == "cd"@,
        ts.len() != 2,
    ensures
        dispatch(ts) == ActionModel::Finish(report(None, Some(CD_USAGE@), Signal::Continue)),
{
}

/// A first token that names no builtin runs that program with the remaining
/// tokens; once it has run, the loop goes on whatever its exit status.
pub proof fn lemma_external_continues(ts: Seq<Seq<char>>)
    requires
        ts.len() > 0,
        ts[0] != "cd"@,
        ts[0] != "help"@,
        ts[0] != "exit"@,
    ensures
        dispatch(ts) == ActionModel::Launch(ts[0], ts.drop_first()),
        launch_done_model(LaunchOutcome::Exited) == report(None, None, Signal::Continue),
{
}

/// A program that cannot be started, or whose end cannot be awaited, is
/// reported on standard error and stops the loop.
pub proof fn lemma_launch_failure_stops(error: String)
    ensures
        launch_done_model(LaunchOutcome::SpawnFailed(error)) == report(
            None,
            Some(SPAWN_PREFIX@ + error@),
            Signal::Stop,
        ),
        launch_done_model(LaunchOutcome::WaitFailed(error)) == report(
            None,
            Some(WAIT_PREFIX@ + error@),
            Signal::Stop,
        ),
{
}

} // verus!
