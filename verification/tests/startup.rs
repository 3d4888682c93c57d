use packet_sources::startup::{
    elevation_command, redirector_command, Argument, CommandLine, Startup, StartupAction,
    StartupError, StartupEvent,
};
use std::path::PathBuf;

fn words(c: &CommandLine) -> Vec<String> {
    let mut v = vec![c.program.to_string()];
    for a in &c.arguments {
        v.push(match a {
            Argument::Text(t) => t.to_string(),
            Argument::Path(p) => p.to_str().unwrap().to_string(),
        });
    }
    v
}

fn end_of(events: Vec<StartupEvent>) -> Result<String, StartupError> {
    let mut s = Startup::new();
    for e in events {
        s.step(e);
    }
    match s.pending {
        StartupAction::Finish { result } => result,
        _ => panic!("still running"),
    }
}

#[test]
fn command_lines() {
    let c = elevation_command();
    assert_eq!(words(&c), vec!["sudo", "echo", "-n"]);
    assert!(!c.captured);
    let (exe, dir) = (PathBuf::from("/opt/redirector"), PathBuf::from("/tmp/x"));
    let c = redirector_command(&exe, &dir);
    assert_eq!(
        words(&c),
        vec!["sudo", "--non-interactive", "--preserve-env", "/opt/redirector", "/tmp/x"]
    );
    assert!(c.captured);
}

#[test]
fn actions_in_order() {
    let mut s = Startup::new();
    assert_eq!(s.pending, StartupAction::RunSudo);
    s.step(StartupEvent::SudoRunning);
    assert_eq!(s.pending, StartupAction::AwaitSudo);
    s.step(StartupEvent::SudoEnded { success: true });
    assert_eq!(s.pending, StartupAction::LaunchRedirector);
    s.step(StartupEvent::Launched);
    assert_eq!(s.pending, StartupAction::ReadAddress { timeout_secs: 5 });
    s.step(StartupEvent::Line { line: "/tmp/r".to_string() });
    assert_eq!(s.pending, StartupAction::Finish { result: Ok("/tmp/r".to_string()) });
}

#[test]
fn every_error() {
    let started = |last: StartupEvent| {
        vec![
            StartupEvent::SudoRunning,
            StartupEvent::SudoEnded { success: true },
            StartupEvent::Launched,
            last,
        ]
    };
    let cases = [
        (vec![StartupEvent::SudoNotRun], "Failed to run sudo."),
        (
            vec![StartupEvent::SudoRunning, StartupEvent::SudoEnded { success: false }],
            "Failed to elevate privileges",
        ),
        (
            vec![
                StartupEvent::SudoRunning,
                StartupEvent::SudoEnded { success: true },
                StartupEvent::NotLaunched,
            ],
            "Failed to launch mitmproxy-linux-redirector.",
        ),
        (
            started(StartupEvent::TimedOut),
            "failed to establish connection to Linux redirector",
        ),
        (started(StartupEvent::ReadFailed), "failed to read redirector stdout"),
        (started(StartupEvent::EndOfOutput), "redirector did not produce stdout"),
    ];
    for (events, message) in cases {
        assert_eq!(end_of(events).unwrap_err().message(), message);
    }
}
