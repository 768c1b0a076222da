use littleshell::dispatch::{
    cd_done, execute, launch_done, sh_cd, sh_exit, sh_help, Action, LaunchOutcome, Report,
    Signal, CD_USAGE, HELP_TEXT,
};
use littleshell::shell::interpret;
use littleshell::tokens::tokenize;

fn toks(words: &[&str]) -> Vec<String> {
    words.iter().map(|w| w.to_string()).collect()
}

fn finished(a: Action) -> Report {
    match a {
        Action::Finish(r) => r,
        other => panic!("expected a finished report, got {:?}", other),
    }
}

#[test]
fn tokenize_splits_on_whitespace_runs() {
    assert_eq!(tokenize("  ls   -l\t/tmp \n"), toks(&["ls", "-l", "/tmp"]));
}

#[test]
fn tokenize_blank_lines_give_nothing() {
    assert!(tokenize("").is_empty());
    assert!(tokenize("\n").is_empty());
    assert!(tokenize(" \t \r\n").is_empty());
}

#[test]
fn tokenize_unicode_whitespace_separates() {
    assert_eq!(tokenize("a\u{A0}b\u{3000}c"), toks(&["a", "b", "c"]));
}

#[test]
fn blank_line_is_not_dispatched() {
    assert!(interpret("   \n").is_none());
    assert!(interpret("").is_none());
}

#[test]
fn exit_stops_with_any_arguments() {
    for line in ["exit\n", "exit now please\n"] {
        let r = finished(interpret(line).unwrap());
        assert_eq!(r.signal, Signal::Stop);
        assert!(r.stdout.is_none());
        assert!(r.stderr.is_none());
    }
    let r = finished(sh_exit(&toks(&["x"])));
    assert_eq!(r.signal, Signal::Stop);
}

#[test]
fn help_prints_text_and_continues() {
    for tokens in [toks(&["help"]), toks(&["help", "cd", "more"])] {
        let r = finished(execute(&tokens));
        assert_eq!(r.signal, Signal::Continue);
        assert_eq!(r.stdout.as_deref(), Some(HELP_TEXT));
        assert!(r.stderr.is_none());
    }
    let r = finished(sh_help(&toks(&[])));
    assert!(r.stdout.unwrap().contains("Welcome to LSH (Little Shell)!"));
}

#[test]
fn cd_with_one_argument_changes_directory() {
    match execute(&toks(&["cd", "/tmp"])) {
        Action::ChangeDir(d) => assert_eq!(d, "/tmp"),
        other => panic!("unexpected {:?}", other),
    }
    let ok = cd_done(Ok(()));
    assert_eq!(ok.signal, Signal::Continue);
    assert!(ok.stderr.is_none() && ok.stdout.is_none());
}

#[test]
fn cd_failure_reports_and_continues() {
    let r = cd_done(Err("No such file or directory (os error 2)".to_string()));
    assert_eq!(r.signal, Signal::Continue);
    assert_eq!(
        r.stderr.as_deref(),
        Some("lsh: No such file or directory (os error 2)")
    );
    assert!(r.stdout.is_none());
}

#[test]
fn cd_with_two_arguments_is_a_usage_error() {
    let r = finished(execute(&toks(&["cd", "a", "b"])));
    assert_eq!(r.signal, Signal::Continue);
    assert_eq!(r.stderr.as_deref(), Some("lsh: expected argument to \"cd\""));
    assert!(r.stdout.is_none());
}

#[test]
fn cd_without_argument_is_a_usage_error() {
    let r = finished(sh_cd(&toks(&[])));
    assert_eq!(r.signal, Signal::Continue);
    assert_eq!(r.stderr.as_deref(), Some(CD_USAGE));
}

#[test]
fn builtin_names_are_case_sensitive() {
    match execute(&toks(&["EXIT"])) {
        Action::Launch(p, a) => {
            assert_eq!(p, "EXIT");
            assert!(a.is_empty());
        }
        other => panic!("unexpected {:?}", other),
    }
}

#[test]
fn echo_runs_externally_and_continues() {
    match interpret("echo hello\n").unwrap() {
        Action::Launch(p, a) => {
            assert_eq!(p, "echo");
            assert_eq!(a, toks(&["hello"]));
        }
        other => panic!("unexpected {:?}", other),
    }
    let r = launch_done(LaunchOutcome::Exited);
    assert_eq!(r.signal, Signal::Continue);
    assert!(r.stderr.is_none() && r.stdout.is_none());
}

#[test]
fn unknown_program_spawn_failure_stops() {
    match execute(&toks(&["doesnotexist123"])) {
        Action::Launch(p, a) => {
            assert_eq!(p, "doesnotexist123");
            assert!(a.is_empty());
        }
        other => panic!("unexpected {:?}", other),
    }
    let r = launch_done(LaunchOutcome::SpawnFailed(
        "No such file or directory (os error 2)".to_string(),
    ));
    assert_eq!(r.signal, Signal::Stop);
    assert_eq!(
        r.stderr.as_deref(),
        Some("Error spawning process: No such file or directory (os error 2)")
    );
}

#[test]
fn wait_failure_stops() {
    let r = launch_done(LaunchOutcome::WaitFailed("interrupted".to_string()));
    assert_eq!(r.signal, Signal::Stop);
    assert_eq!(
        r.stderr.as_deref(),
        Some("Error waiting for the child process: interrupted")
    );
}
