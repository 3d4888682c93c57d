use packet_sources::backoff::{Backoff, Notice};
use packet_sources::linux::{
    LinuxAction, LinuxBuildError, LinuxConf, LinuxError, LinuxEvent, LinuxFailure, LinuxTask, SOCKET_NAME,
};
use packet_sources::startup::Argument;
use std::path::PathBuf;

fn task(max: Option<u32>) -> LinuxTask<u8> {
    let mut t = LinuxConf {
        executable_path: PathBuf::from("/opt/redirector"),
        max_reconnect_attempts: max,
    }
    .build(Some(PathBuf::from("/tmp/x")), 0)
    .unwrap();
    t.step(LinuxEvent::NetworkStarted);
    t
}

fn started() -> LinuxEvent<u8> {
    LinuxEvent::Started { address: "/tmp/r".to_string() }
}

fn sleep(secs: u64) -> LinuxAction {
    LinuxAction::Sleep { secs, notice: None }
}

fn run(t: &mut LinuxTask<u8>, events: Vec<LinuxEvent<u8>>) {
    for e in events {
        assert!(t.has_room_for(&e));
        t.step(e);
    }
}

fn error(failure: LinuxFailure, attempts: u32) -> LinuxAction {
    LinuxAction::Finish { result: Err(LinuxError { failure, attempts }) }
}

#[test]
fn configuration_is_kept() {
    let conf = LinuxConf {
        executable_path: PathBuf::from("/opt/redirector"),
        max_reconnect_attempts: Some(3),
    };
    assert_eq!(conf.name(), "Linux proxy");
    let t = conf.build(Some(PathBuf::from("/tmp/x")), 7u8).unwrap();
    assert_eq!(t.datagram_dir, PathBuf::from("/tmp/x"));
    assert_eq!(t.executable_path, PathBuf::from("/opt/redirector"));
    assert_eq!(t.max_reconnect_attempts, Some(3));
    assert_eq!(t.intercept_conf, 7);
    assert_eq!(t.pending, LinuxAction::StartNetwork);
    assert_eq!(SOCKET_NAME, "mitmproxy");
}

#[test]
fn one_connection_from_start_to_end() {
    let mut t = task(None);
    t.step(LinuxEvent::Running);
    assert_eq!(t.pending, LinuxAction::Bind);
    t.step(LinuxEvent::Bound);
    assert_eq!(t.pending, LinuxAction::StartRedirector);
    t.step(started());
    assert_eq!(t.pending, LinuxAction::Connect { address: "/tmp/r".to_string() });
    t.step(LinuxEvent::Connected);
    assert_eq!(t.pending, LinuxAction::Forward);
    t.step(LinuxEvent::Ended { conf: 0 });
    assert_eq!(t.pending, LinuxAction::Finish { result: Ok(()) });
}

#[test]
fn shutdown_ends_the_task() {
    let mut t = task(Some(0));
    t.step(LinuxEvent::ShuttingDown);
    assert_eq!(t.pending, LinuxAction::Finish { result: Ok(()) });
}

#[test]
fn each_failure_gives_its_error() {
    let to_bind = || vec![LinuxEvent::Running];
    let to_start = || vec![LinuxEvent::Running, LinuxEvent::Bound];
    let to_connect = || vec![LinuxEvent::Running, LinuxEvent::Bound, started()];
    let to_forward =
        || vec![LinuxEvent::Running, LinuxEvent::Bound, started(), LinuxEvent::Connected];
    let cases = [
        (to_bind(), LinuxEvent::BindFailed, LinuxFailure::Bind),
        (to_start(), LinuxEvent::StartFailed, LinuxFailure::Start),
        (to_connect(), LinuxEvent::ConnectFailed, LinuxFailure::Connect),
        (to_forward(), LinuxEvent::Disconnected { conf: 0 }, LinuxFailure::Forward),
    ];
    for (events, last, failure) in cases {
        let mut t = task(Some(0));
        run(&mut t, events);
        t.step(last);
        assert_eq!(t.pending, error(failure, 0));
    }
}

#[test]
fn failures_of_all_kinds_count_together() {
    let mut t = task(Some(2));
    run(&mut t, vec![LinuxEvent::Running, LinuxEvent::BindFailed]);
    assert_eq!(t.pending, sleep(1));
    t.step(LinuxEvent::Slept);
    assert_eq!(t.pending, LinuxAction::CheckShutdown);
    run(&mut t, vec![LinuxEvent::Running, LinuxEvent::Bound, LinuxEvent::StartFailed]);
    assert_eq!(t.pending, sleep(2));
    run(
        &mut t,
        vec![
            LinuxEvent::Slept,
            LinuxEvent::Running,
            LinuxEvent::Bound,
            started(),
            LinuxEvent::ConnectFailed,
        ],
    );
    assert_eq!(t.pending, error(LinuxFailure::Connect, 2));
}

#[test]
fn connecting_resets_the_backoff() {
    let mut t = task(Some(5));
    run(
        &mut t,
        vec![
            LinuxEvent::Running,
            LinuxEvent::BindFailed,
            LinuxEvent::Slept,
            LinuxEvent::Running,
            LinuxEvent::Bound,
            started(),
        ],
    );
    assert_eq!(t.backoff, Backoff { delay_secs: 2, attempts: 1 });
    t.step(LinuxEvent::Connected);
    assert_eq!(t.backoff, Backoff { delay_secs: 1, attempts: 0 });
    t.step(LinuxEvent::Disconnected { conf: 0 });
    assert_eq!(
        t.pending,
        LinuxAction::Sleep {
            secs: 1,
            notice: Some(Notice { attempt: 2, waiting_secs: 1 })
        }
    );
}

#[test]
fn unlimited_task_keeps_trying() {
    let mut t = task(None);
    for expected in [1, 2, 4, 8, 16, 30, 30] {
        run(&mut t, vec![LinuxEvent::Running, LinuxEvent::BindFailed]);
        assert_eq!(t.pending, sleep(expected));
        t.step(LinuxEvent::Slept);
    }
    assert_eq!(t.backoff.attempts, 0);
}

#[test]
fn longest_run_without_a_connection() {
    let max: u32 = 3;
    let mut t = task(Some(max));
    let mut operations = 1;
    while !matches!(t.pending, LinuxAction::Finish { .. }) {
        let e = match t.pending {
            LinuxAction::CheckShutdown => LinuxEvent::Running,
            LinuxAction::Bind => LinuxEvent::Bound,
            LinuxAction::StartRedirector => started(),
            LinuxAction::Connect { .. } => LinuxEvent::ConnectFailed,
            _ => LinuxEvent::Slept,
        };
        t.step(e);
        operations += 1;
    }
    assert_eq!(operations, 5 * (max + 1));
    assert_eq!(t.pending, error(LinuxFailure::Connect, max));
}

#[test]
fn counter_without_room() {
    let mut t = task(Some(u32::MAX));
    t.backoff.attempts = u32::MAX;
    assert!(!t.has_room_for(&LinuxEvent::BindFailed));
    assert!(!t.has_room_for(&LinuxEvent::Disconnected { conf: 0 }));
    assert!(t.has_room_for(&LinuxEvent::Bound));
}

#[test]
fn error_wording() {
    let message = |failure: LinuxFailure| LinuxError { failure, attempts: 10 }.message();
    assert_eq!(
        message(LinuxFailure::Bind),
        "Failed to bind Unix datagram socket after 10 attempts"
    );
    assert_eq!(message(LinuxFailure::Start), "Failed to start Linux redirector after 10 attempts");
    assert_eq!(
        message(LinuxFailure::Connect),
        "Failed to connect to Linux redirector after 10 attempts"
    );
    assert_eq!(
        message(LinuxFailure::Forward),
        "Failed to reconnect to Linux redirector after 10 attempts"
    );
}

#[test]
fn network_starts_first_and_once() {
    let conf = LinuxConf { executable_path: PathBuf::new(), max_reconnect_attempts: None };
    let mut t = conf.build(Some(PathBuf::new()), 0u8).unwrap();
    assert_eq!(t.pending, LinuxAction::StartNetwork);
    t.step(LinuxEvent::NetworkStarted);
    assert_eq!(t.pending, LinuxAction::CheckShutdown);
    for _ in 0..3 {
        run(&mut t, vec![LinuxEvent::Running, LinuxEvent::Bound, started(), LinuxEvent::Connected]);
        t.step(LinuxEvent::Disconnected { conf: 0 });
        t.step(LinuxEvent::Slept);
        assert_eq!(t.pending, LinuxAction::CheckShutdown);
    }
}

#[test]
fn intercept_conf_survives_reconnects() {
    let mut t = task(None);
    let connect = || vec![LinuxEvent::Running, LinuxEvent::Bound, started(), LinuxEvent::Connected];
    run(&mut t, connect());
    assert_eq!(t.intercept_conf, 0);
    t.step(LinuxEvent::Disconnected { conf: 5 });
    assert_eq!(t.intercept_conf, 5);
    run(
        &mut t,
        vec![LinuxEvent::Slept, LinuxEvent::Running, LinuxEvent::BindFailed, LinuxEvent::Slept],
    );
    run(&mut t, connect());
    assert_eq!(t.pending, LinuxAction::Forward);
    assert_eq!(t.intercept_conf, 5);
    t.step(LinuxEvent::Ended { conf: 6 });
    assert_eq!(t.intercept_conf, 6);
}

#[test]
fn connection_erases_the_past() {
    let connect = || vec![LinuxEvent::Running, LinuxEvent::Bound, started(), LinuxEvent::Connected];
    let mut one = task(Some(3));
    let mut other = task(Some(3));
    run(&mut one, vec![LinuxEvent::Running, LinuxEvent::BindFailed, LinuxEvent::Slept]);
    for t in [&mut one, &mut other] {
        run(t, connect());
        t.step(LinuxEvent::Disconnected { conf: 1 });
    }
    assert_eq!(one.backoff, other.backoff);
    assert_eq!(one.pending, other.pending);
    for t in [&mut one, &mut other] {
        run(t, vec![LinuxEvent::Slept, LinuxEvent::Running, LinuxEvent::BindFailed]);
    }
    assert_eq!(one.backoff, other.backoff);
    assert_eq!(one.pending, other.pending);
}

#[test]
fn higher_limit_sleeps_as_long() {
    let mut low = task(Some(3));
    let mut high = task(Some(9));
    let mut none = task(None);
    for _ in 0..3 {
        for t in [&mut low, &mut high, &mut none] {
            run(t, vec![LinuxEvent::Running, LinuxEvent::BindFailed]);
        }
        assert_eq!(low.pending, high.pending);
        assert_eq!(low.pending, none.pending);
        for t in [&mut low, &mut high, &mut none] {
            t.step(LinuxEvent::Slept);
        }
    }
}

#[test]
fn no_task_without_a_directory() {
    let conf = LinuxConf {
        executable_path: PathBuf::from("/opt/redirector"),
        max_reconnect_attempts: None,
    };
    match conf.build(None, 0u8) {
        Ok(_) => panic!("there is no directory"),
        Err(e) => {
            assert_eq!(e, LinuxBuildError::NoDirectory);
            assert_eq!(e.message(), "failed to create temp dir");
        }
    }
}

#[test]
fn paths_of_a_task() {
    let mut t = task(None);
    for _ in 0..2 {
        let place = t.socket();
        assert_eq!(place.directory.join(place.file_name), PathBuf::from("/tmp/x/mitmproxy"));
        let c = t.redirector_command();
        assert_eq!(c.program, "sudo");
        assert!(c.captured);
        assert_eq!(c.arguments.len(), 4);
        assert!(matches!(c.arguments[0], Argument::Text("--non-interactive")));
        assert!(matches!(c.arguments[1], Argument::Text("--preserve-env")));
        assert!(matches!(c.arguments[2], Argument::Path(p) if p.to_str() == Some("/opt/redirector")));
        assert!(matches!(c.arguments[3], Argument::Path(p) if p.to_str() == Some("/tmp/x")));
        run(&mut t, vec![LinuxEvent::Running, LinuxEvent::BindFailed, LinuxEvent::Slept]);
    }
}
