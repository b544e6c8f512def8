use log::LogLevel;
use mirage::{Action, BuildProfile, BuildResult, Driver, Event, Phase, Platform, Timestamp};

fn driver() -> Driver {
    Driver::new(BuildProfile::Debug, String::from("/opt/app/target/debug"), String::from("demo"), Platform::Linux)
}

fn build_result(succeeded: bool, stdout: &[u8], stderr: &[u8], status: &str) -> BuildResult {
    BuildResult { succeeded, stdout: stdout.to_vec(), stderr: stderr.to_vec(), status: String::from(status) }
}

fn error_lines(actions: &[Action]) -> Vec<String> {
    let mut lines = Vec::new();
    for a in actions {
        if let Action::Log(LogLevel::Error, text) = a {
            lines.push(text.clone());
        }
    }
    lines
}

fn count_unloads(actions: &[Action]) -> usize {
    actions.iter().filter(|a| matches!(a, Action::Unload)).count()
}

#[test]
fn start_asks_for_a_build() {
    let mut d = driver();
    let actions = d.step(Event::Start);
    assert_eq!(d.phase, Phase::Building);
    assert_eq!(actions.len(), 2);
    match &actions[0] {
        Action::Log(LogLevel::Info, text) => assert_eq!(text, "Building project with `cargo build`"),
        other => panic!("unexpected {:?}", other),
    }
    match &actions[1] {
        Action::RunBuild(args) => assert_eq!(args, &vec![String::from("build")]),
        other => panic!("unexpected {:?}", other),
    }
}

#[test]
fn release_build_passes_the_release_flag() {
    let mut d = Driver::new(BuildProfile::Release, String::from("/x"), String::from("demo"), Platform::MacOs);
    let actions = d.step(Event::Start);
    match &actions[1] {
        Action::RunBuild(args) => assert_eq!(args, &vec![String::from("build"), String::from("--release")]),
        other => panic!("unexpected {:?}", other),
    }
}

#[test]
fn successful_entry_logs_no_error_and_ends_the_cycle() {
    let mut d = driver();
    d.step(Event::Start);
    let mut all = d.step(Event::BuildFinished(build_result(true, b"", b"", "exit status: 0")));
    assert_eq!(d.phase, Phase::Loading);
    match all.last().unwrap() {
        Action::Load(p) => {
            assert_eq!(p.directory, "/opt/app/target/debug");
            assert_eq!(p.file_name(), "libdemo.so");
        },
        other => panic!("unexpected {:?}", other),
    }
    all.extend(d.step(Event::ModuleLoaded));
    assert_eq!(d.phase, Phase::Invoking);
    all.extend(d.step(Event::EntryReturned(Ok(()))));
    assert_eq!(d.phase, Phase::Idle);
    assert!(error_lines(&all).is_empty());
    assert_eq!(count_unloads(&all), 1);
    assert!(!all.iter().any(|a| matches!(a, Action::CaptureBaseline | Action::SleepThenPoll)));
}

#[test]
fn failing_entry_logs_its_message_and_still_unloads() {
    let mut d = driver();
    d.step(Event::Start);
    d.step(Event::BuildFinished(build_result(true, b"", b"", "exit status: 0")));
    d.step(Event::ModuleLoaded);
    let actions = d.step(Event::EntryReturned(Err(String::from("bad config"))));
    assert_eq!(d.phase, Phase::Idle);
    assert!(error_lines(&actions).iter().any(|l| l.contains("bad config")));
    assert_eq!(count_unloads(&actions), 1);
    assert!(matches!(actions.last(), Some(Action::Unload)));
    assert!(!actions.iter().any(|a| matches!(a, Action::CaptureBaseline | Action::SleepThenPoll)));
}

#[test]
fn missing_entry_point_is_reported_before_the_unload() {
    let mut d = driver();
    d.step(Event::Start);
    d.step(Event::BuildFinished(build_result(true, b"", b"", "exit status: 0")));
    d.step(Event::ModuleLoaded);
    let actions = d.step(Event::EntryMissing(String::from("failed to get `fn`")));
    assert_eq!(actions.len(), 2);
    assert_eq!(error_lines(&actions), vec![String::from("failed to get `fn`")]);
    assert!(matches!(actions[1], Action::Unload));
    assert_eq!(d.phase, Phase::Idle);
}

#[test]
fn failed_build_logs_output_and_starts_waiting() {
    let mut d = driver();
    d.step(Event::Start);
    let actions = d.step(Event::BuildFinished(build_result(false, b"compiling", b"syntax error on line 4", "exit status: 1")));
    assert_eq!(d.phase, Phase::Capturing);
    assert_eq!(
        error_lines(&actions),
        vec![String::from("exit status: 1"), String::from("compiling"), String::from("syntax error on line 4")]
    );
    assert!(matches!(actions.last(), Some(Action::CaptureBaseline)));
    assert!(!actions.iter().any(|a| matches!(a, Action::Load(_))));
    let t0 = Timestamp { secs: 1000, nanos: 0 };
    let actions = d.step(Event::BaselineCaptured(t0));
    assert_eq!(d.phase, Phase::Waiting { baseline: t0 });
    assert!(matches!(actions.as_slice(), [Action::SleepThenPoll]));
}

#[test]
fn watcher_returns_after_one_poll_when_the_file_changed() {
    let mut d = driver();
    d.step(Event::Start);
    d.step(Event::BuildFinished(build_result(false, b"", b"syntax error on line 4", "exit status: 1")));
    let t0 = Timestamp { secs: 1000, nanos: 0 };
    d.step(Event::BaselineCaptured(t0));
    let actions = d.step(Event::Polled(Some(Timestamp { secs: 1001, nanos: 0 })));
    assert_eq!(d.phase, Phase::Building);
    assert!(matches!(actions.last(), Some(Action::RunBuild(_))));
}

#[test]
fn watcher_keeps_waiting_while_the_file_is_unchanged() {
    let mut d = driver();
    d.step(Event::Start);
    d.step(Event::BuildFinished(build_result(false, b"", b"", "exit status: 1")));
    let t0 = Timestamp { secs: 1000, nanos: 500 };
    d.step(Event::BaselineCaptured(t0));
    for observed in [Some(t0), Some(Timestamp { secs: 999, nanos: 900 }), None] {
        let actions = d.step(Event::Polled(observed));
        assert_eq!(d.phase, Phase::Waiting { baseline: t0 });
        assert!(matches!(actions.as_slice(), [Action::SleepThenPoll]));
    }
    d.step(Event::Polled(Some(Timestamp { secs: 1000, nanos: 501 })));
    assert_eq!(d.phase, Phase::Building);
}

#[test]
fn load_failure_halts() {
    let mut d = driver();
    d.step(Event::Start);
    d.step(Event::BuildFinished(build_result(true, b"", b"", "exit status: 0")));
    let actions = d.step(Event::LoadFailed(String::from("failed to load library")));
    assert_eq!(d.phase, Phase::Halted);
    assert!(matches!(actions.as_slice(), [Action::Abort(m)] if m == "failed to load library"));
    assert_eq!(count_unloads(&actions), 0);
}

#[test]
fn events_out_of_place_change_nothing() {
    let mut d = driver();
    assert!(d.step(Event::ModuleLoaded).is_empty());
    assert!(d.step(Event::Polled(None)).is_empty());
    assert_eq!(d.phase, Phase::Idle);
}

#[test]
fn invalid_utf8_output_is_decoded_lossily() {
    let mut d = driver();
    d.step(Event::Start);
    let actions = d.step(Event::BuildFinished(build_result(false, b"ok\xff", b"", "exit status: 101")));
    assert_eq!(error_lines(&actions)[1], "ok\u{FFFD}");
}
