use packet_sources::backoff::{Backoff, Notice};
use packet_sources::windows::{
    launch_event, PipeOptions, WindowsAction, WindowsConf, WindowsError, WindowsEvent, WindowsTask,
};

fn task(max: Option<u32>) -> WindowsTask<u8> {
    let mut t = WindowsConf {
        executable_path: "C:\\r.exe".encode_utf16().collect(),
        max_reconnect_attempts: max,
    }
    .build(4711, 0);
    t.step(WindowsEvent::NetworkStarted);
    t
}

fn run(t: &mut WindowsTask<u8>, events: Vec<WindowsEvent<u8>>) {
    for e in events {
        assert!(t.has_room_for(&e));
        t.step(e);
    }
}

fn sleep(secs: u64, attempt: u32) -> WindowsAction {
    WindowsAction::Sleep {
        secs,
        notice: Some(Notice { attempt, waiting_secs: secs }),
    }
}

#[test]
fn strings_of_a_task() {
    let conf = WindowsConf { executable_path: vec![67, 58], max_reconnect_attempts: Some(7) };
    assert_eq!(conf.name(), "Windows proxy");
    let t = conf.build(4711, 7u8);
    assert_eq!(t.executable_path, vec![67, 58, 0]);
    assert_eq!(t.pipe_name_str, r"\\.\pipe\mitmproxy-transparent-proxy-4711");
    let mut wide: Vec<u16> = r"\\.\pipe\mitmproxy-transparent-proxy-4711".encode_utf16().collect();
    assert!(!wide.contains(&0));
    wide.push(0);
    assert_eq!(t.pipe_name, wide);
    assert_eq!(t.max_reconnect_attempts, Some(7));
    assert_eq!(t.intercept_conf, 7);
    assert_eq!(t.pending, WindowsAction::StartNetwork);
}

#[test]
fn pipe_names_differ_between_processes() {
    let name = |id: u32| {
        WindowsConf { executable_path: vec![], max_reconnect_attempts: None }
            .build(id, 0u8)
            .pipe_name_str
    };
    assert_ne!(name(1), name(11));
    assert!(name(u32::MAX).ends_with("-4294967295"));
}

#[test]
fn launch_of_the_redirector() {
    let t = task(None);
    let l = t.launch(false);
    assert_eq!(l.verb, "runas");
    assert_eq!(l.file, &t.executable_path);
    assert_eq!(l.parameters, &t.pipe_name);
    assert!(!l.visible);
    assert!(t.launch(true).visible);
}

#[test]
fn windows_connection_from_start_to_end() {
    let mut t = task(None);
    t.step(WindowsEvent::Running);
    assert_eq!(t.pending, WindowsAction::StartRedirector);
    t.step(WindowsEvent::Launched);
    assert_eq!(t.pending, WindowsAction::CreatePipe { launched: true });
    t.step(WindowsEvent::PipeCreated);
    assert_eq!(t.pending, WindowsAction::AwaitClient { launched: true });
    t.step(WindowsEvent::Connected);
    assert_eq!(t.pending, WindowsAction::Forward);
    t.step(WindowsEvent::Ended { conf: 0 });
    assert_eq!(t.pending, WindowsAction::Finish { result: Ok(()) });
}

#[test]
fn shutdown_ends_the_windows_task() {
    let mut t = task(Some(0));
    t.step(WindowsEvent::ShuttingDown);
    assert_eq!(t.pending, WindowsAction::Finish { result: Ok(()) });
}

#[test]
fn connecting_keeps_the_backoff() {
    let mut t = task(Some(2));
    run(&mut t, vec![WindowsEvent::Running, WindowsEvent::Launched, WindowsEvent::PipeFailed]);
    assert_eq!(t.pending, sleep(1, 2));
    run(
        &mut t,
        vec![
            WindowsEvent::Slept,
            WindowsEvent::Running,
            WindowsEvent::Launched,
            WindowsEvent::PipeCreated,
            WindowsEvent::Connected,
        ],
    );
    assert_eq!(t.backoff, Backoff { delay_secs: 2, attempts: 1 });
    t.step(WindowsEvent::Disconnected { conf: 0 });
    assert_eq!(t.pending, sleep(2, 3));
    run(
        &mut t,
        vec![
            WindowsEvent::Slept,
            WindowsEvent::Running,
            WindowsEvent::Launched,
            WindowsEvent::PipeCreated,
            WindowsEvent::ConnectFailed,
        ],
    );
    assert_eq!(
        t.pending,
        WindowsAction::Finish { result: Err(WindowsError { attempts: 2 }) }
    );
}

#[test]
fn unlimited_windows_task_keeps_trying() {
    let mut t = task(None);
    for expected in [1, 2, 4, 8, 16, 30, 30] {
        assert!(t.pipe_options(1024).first_pipe_instance);
        run(&mut t, vec![WindowsEvent::Running, WindowsEvent::Launched, WindowsEvent::PipeFailed]);
        assert_eq!(t.pending, sleep(expected, 1));
        t.step(WindowsEvent::Slept);
    }
}

#[test]
fn pipe_is_first_of_its_name_until_a_failure() {
    let mut t = task(Some(4));
    let first = PipeOptions {
        message_mode: true,
        first_pipe_instance: true,
        max_instances: 1,
        in_buffer_size: 66559,
        out_buffer_size: 66559,
        reject_remote_clients: true,
    };
    assert_eq!(t.pipe_options(66559), first);
    run(&mut t, vec![WindowsEvent::Running, WindowsEvent::Launched, WindowsEvent::PipeFailed]);
    assert_eq!(
        t.pipe_options(66559),
        PipeOptions { first_pipe_instance: false, ..first }
    );
}

#[test]
fn longest_run_with_a_limit() {
    let max: u32 = 3;
    let mut t = task(Some(max));
    let mut operations = 1;
    while !matches!(t.pending, WindowsAction::Finish { .. }) {
        let e = match t.pending {
            WindowsAction::CheckShutdown => WindowsEvent::Running,
            WindowsAction::StartRedirector => WindowsEvent::Launched,
            WindowsAction::CreatePipe { .. } => WindowsEvent::PipeCreated,
            WindowsAction::AwaitClient { .. } => WindowsEvent::Connected,
            WindowsAction::Forward => WindowsEvent::Disconnected { conf: 0 },
            _ => WindowsEvent::Slept,
        };
        t.step(e);
        operations += 1;
    }
    assert_eq!(operations, 6 * (max + 1));
}

#[test]
fn windows_counter_without_room() {
    let mut t = task(Some(u32::MAX));
    t.backoff.attempts = u32::MAX - 1;
    assert!(!t.has_room_for(&WindowsEvent::Disconnected { conf: 0 }));
    assert!(t.has_room_for(&WindowsEvent::Connected));
}

#[test]
fn windows_error_wording() {
    assert_eq!(
        WindowsError { attempts: 10 }.message(),
        "Failed to reconnect to Windows redirector after 10 attempts"
    );
}

fn connection() -> Vec<WindowsEvent<u8>> {
    vec![
        WindowsEvent::Running,
        WindowsEvent::Launched,
        WindowsEvent::PipeCreated,
        WindowsEvent::Connected,
    ]
}

#[test]
fn windows_network_starts_first_and_once() {
    let mut t = WindowsConf { executable_path: vec![], max_reconnect_attempts: None }.build(1, 0u8);
    assert_eq!(t.pending, WindowsAction::StartNetwork);
    t.step(WindowsEvent::NetworkStarted);
    for _ in 0..3 {
        assert_eq!(t.pending, WindowsAction::CheckShutdown);
        run(&mut t, connection());
        t.step(WindowsEvent::Disconnected { conf: 0 });
        t.step(WindowsEvent::Slept);
    }
}

#[test]
fn windows_intercept_conf_survives_reconnects() {
    let mut t = task(None);
    run(&mut t, connection());
    assert_eq!(t.intercept_conf, 0);
    t.step(WindowsEvent::Disconnected { conf: 5 });
    t.step(WindowsEvent::Slept);
    run(&mut t, connection());
    assert_eq!(t.pending, WindowsAction::Forward);
    assert_eq!(t.intercept_conf, 5);
    t.step(WindowsEvent::Ended { conf: 6 });
    assert_eq!(t.intercept_conf, 6);
}

#[test]
fn kind_of_failure_does_not_matter() {
    let mut one = task(Some(3));
    let mut other = task(Some(3));
    run(&mut one, vec![WindowsEvent::Running, WindowsEvent::Launched, WindowsEvent::PipeFailed]);
    run(&mut other, connection());
    other.step(WindowsEvent::Disconnected { conf: 0 });
    assert_eq!(one.backoff, other.backoff);
    assert_eq!(one.pending, other.pending);
}

#[test]
fn launches_and_sleeps_up_to_the_limit() {
    let mut t = task(Some(3));
    let mut launches = 0;
    let mut sleeps: Vec<u64> = vec![];
    while !matches!(t.pending, WindowsAction::Finish { .. }) {
        let e = match t.pending {
            WindowsAction::CheckShutdown => WindowsEvent::Running,
            WindowsAction::StartRedirector => {
                launches += 1;
                WindowsEvent::Launched
            }
            WindowsAction::CreatePipe { .. } => WindowsEvent::PipeFailed,
            WindowsAction::Sleep { secs, .. } => {
                sleeps.push(secs);
                WindowsEvent::Slept
            }
            _ => unreachable!(),
        };
        t.step(e);
    }
    assert_eq!(launches, 4);
    assert_eq!(sleeps, vec![1, 2, 4]);
}

#[test]
fn higher_windows_limit_sleeps_as_long() {
    let mut low = task(Some(2));
    let mut high = task(Some(9));
    let mut none = task(None);
    for (expected, attempt) in [(1, 2), (2, 3)] {
        for t in [&mut low, &mut high, &mut none] {
            run(t, vec![WindowsEvent::Running, WindowsEvent::Launched, WindowsEvent::PipeFailed]);
        }
        assert_eq!(low.pending, sleep(expected, attempt));
        assert_eq!(high.pending, sleep(expected, attempt));
        assert_eq!(none.pending, sleep(expected, 1));
        for t in [&mut low, &mut high, &mut none] {
            t.step(WindowsEvent::Slept);
        }
    }
}

#[test]
fn failed_launch_is_a_failed_attempt() {
    let mut t = task(Some(0));
    run(&mut t, vec![WindowsEvent::Running, WindowsEvent::LaunchFailed]);
    assert_eq!(t.pending, WindowsAction::CreatePipe { launched: false });
    t.step(WindowsEvent::PipeCreated);
    assert_eq!(t.pending, WindowsAction::AwaitClient { launched: false });
    t.step(WindowsEvent::ConnectFailed);
    assert_eq!(
        t.pending,
        WindowsAction::Finish { result: Err(WindowsError { attempts: 0 }) }
    );
    let mut t = task(Some(0));
    run(
        &mut t,
        vec![WindowsEvent::Running, WindowsEvent::LaunchFailed, WindowsEvent::PipeFailed],
    );
    assert_eq!(
        t.pending,
        WindowsAction::Finish { result: Err(WindowsError { attempts: 0 }) }
    );
}

#[test]
fn launch_after_a_failed_one() {
    let mut t = task(Some(1));
    run(
        &mut t,
        vec![
            WindowsEvent::Running,
            WindowsEvent::LaunchFailed,
            WindowsEvent::PipeCreated,
            WindowsEvent::ConnectFailed,
        ],
    );
    assert_eq!(t.pending, sleep(1, 2));
    t.step(WindowsEvent::Slept);
    run(&mut t, connection());
    assert_eq!(t.pending, WindowsAction::Forward);
}

#[test]
fn codes_of_the_shell() {
    for code in [isize::MIN, -1, 0, 5, 32] {
        assert_eq!(launch_event::<u8>(code), WindowsEvent::LaunchFailed);
    }
    for code in [33, 42, isize::MAX] {
        assert_eq!(launch_event::<u8>(code), WindowsEvent::Launched);
    }
}
