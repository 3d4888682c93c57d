//! The packet source that talks to the Windows redirector over a named pipe.

use vstd::prelude::*;

use crate::backoff::{Backoff, Notice, Verdict};
use crate::text::{decimal_string, wide_string};

verus! {

/// How to run the Windows packet source.
pub struct WindowsConf {
    /// The path of the redirector's executable, in the operating system's wide encoding.
    pub executable_path: Vec<u16>,
    /// How many failures are allowed; without a limit it never gives up.
    pub max_reconnect_attempts: Option<u32>,
}

/// Why the task gave up.
#[derive(Clone, Copy, Debug, PartialEq, Eq, Structural)]
pub struct WindowsError {
    /// The number of failures that were allowed.
    pub attempts: u32,
}

/// What to do next.
#[derive(Debug, PartialEq, Eq)]
pub enum WindowsAction {
    /// Start the network layer that packets are forwarded to and from.
    StartNetwork,
    /// Find out whether this process is shutting down.
    CheckShutdown,
    /// Start the redirector process. The attempt goes on though that fails.
    StartRedirector,
    /// Create the named pipe. The redirector was launched, or could not be.
    CreatePipe { launched: bool },
    /// Wait until the redirector has connected to the pipe. If it could not be launched there is
    /// nothing to wait for: to connect has failed.
    AwaitClient { launched: bool },
    /// Forward packets until the connection ends, by the interception configuration of the task,
    /// which may be replaced meanwhile.
    Forward,
    /// Announce the next attempt and sleep.
    Sleep { secs: u64, notice: Option<Notice> },
    /// Return.
    Finish { result: Result<(), WindowsError> },
}

/// How the action went.
#[derive(Debug, PartialEq, Eq)]
pub enum WindowsEvent<C> {
    NetworkStarted,
    Running,
    ShuttingDown,
    Launched,
    LaunchFailed,
    PipeCreated,
    PipeFailed,
    Connected,
    ConnectFailed,
    /// Forwarding ended normally, with this interception configuration.
    Ended { conf: C },
    /// The connection was lost, with this interception configuration.
    Disconnected { conf: C },
    Slept,
}

/// How the named pipe is to be created.
#[derive(Clone, Copy, Debug, PartialEq, Eq, Structural)]
pub struct PipeOptions {
    /// Whether data is sent as messages, not as a stream of bytes.
    pub message_mode: bool,
    /// Whether creation must fail if a pipe of that name exists.
    pub first_pipe_instance: bool,
    pub max_instances: usize,
    pub in_buffer_size: u32,
    pub out_buffer_size: u32,
    pub reject_remote_clients: bool,
}

/// How the redirector process is to be started by the shell.
pub struct ShellLaunch<'a> {
    /// The shell's verb for what to do with the file.
    pub verb: &'static str,
    /// The executable, as a zero-terminated wide string.
    pub file: &'a Vec<u16>,
    /// Its arguments, as a zero-terminated wide string.
    pub parameters: &'a Vec<u16>,
    /// Whether its window is shown.
    pub visible: bool,
}

/// A running Windows packet source.
pub struct WindowsTask<C> {
    /// The executable, as a zero-terminated wide string.
    pub executable_path: Vec<u16>,
    /// The pipe's name, as a zero-terminated wide string.
    pub pipe_name: Vec<u16>,
    /// The pipe's name.
    pub pipe_name_str: String,
    pub max_reconnect_attempts: Option<u32>,
    pub backoff: Backoff,
    /// What is to be intercepted.
    pub intercept_conf: C,
    /// The action that is under way.
    pub pending: WindowsAction,
}

/// The name of the pipe of the process with this identifier.
pub open spec fn pipe_name_of(process_id: u32) -> Seq<char> {
    "\\\\.\\pipe\\mitmproxy-transparent-proxy-"@ + crate::text::decimal(process_id as nat)
}

impl WindowsAction {
    /// Whether both are the same, but perhaps for the number of the attempt that is announced.
    pub open spec fn same_but_number(self, other: WindowsAction) -> bool {
        match (self, other) {
            (
                WindowsAction::Sleep { secs: a, notice: m },
                WindowsAction::Sleep { secs: b, notice: n },
            ) => a == b && Notice::same_wait(m, n),
            _ => self == other,
        }
    }
}

impl<C> WindowsEvent<C> {
    /// Whether this event reports a failure.
    pub open spec fn is_failure(self) -> bool {
        self is PipeFailed || self is ConnectFailed || self is Disconnected
    }

    /// The interception configuration that this event hands back, if it hands one back.
    pub open spec fn conf(self) -> Option<C> {
        match self {
            WindowsEvent::Ended { conf } => Some(conf),
            WindowsEvent::Disconnected { conf } => Some(conf),
            _ => None,
        }
    }

    /// Whether this event says how `action` went.
    pub open spec fn answers(self, action: WindowsAction) -> bool {
        match action {
            WindowsAction::StartNetwork => self is NetworkStarted,
            WindowsAction::CheckShutdown => self is Running || self is ShuttingDown,
            WindowsAction::StartRedirector => self is Launched || self is LaunchFailed,
            WindowsAction::CreatePipe { .. } => self is PipeCreated || self is PipeFailed,
            WindowsAction::AwaitClient { launched } => (self is Connected && launched)
                || self is ConnectFailed,
            WindowsAction::Forward => self is Ended || self is Disconnected,
            WindowsAction::Sleep { .. } => self is Slept,
            WindowsAction::Finish { .. } => false,
        }
    }
}

impl<C> WindowsTask<C> {
    /// The state in which a task starts.
    pub open spec fn starts(self) -> bool {
        &&& self.backoff == Backoff::initial()
        &&& self.pending is StartNetwork
    }

    /// What holds of every task: its wide strings are terminated, its delay is within bounds, and
    /// until it returns no more failures are counted than are allowed.
    pub open spec fn valid(self) -> bool {
        &&& self.executable_path@.len() > 0 && self.executable_path@.last() == 0
        &&& self.pipe_name@ == crate::text::utf16(self.pipe_name_str@).push(0)
        &&& self.backoff.valid()
        &&& self.max_reconnect_attempts is None ==> self.backoff.attempts == 0
        &&& !(self.pending is Finish) ==> self.backoff.within(self.max_reconnect_attempts)
    }

    /// Whether the attempt counter can take `event`.
    pub open spec fn room_for(self, event: WindowsEvent<C>) -> bool {
        event.is_failure() ==> self.backoff.room(self.max_reconnect_attempts, true)
    }

    /// Whether the next pipe must be the first of its name: until a failure is counted.
    pub open spec fn insists_on_first_instance(self) -> bool {
        self.backoff.attempts == 0
    }

    /// The task with another interception configuration.
    pub open spec fn with_conf(self, conf: C) -> WindowsTask<C> {
        WindowsTask { intercept_conf: conf, ..self }
    }

    /// The task with another action under way.
    pub open spec fn doing(self, pending: WindowsAction) -> WindowsTask<C> {
        WindowsTask { pending, ..self }
    }

    /// The task after an operation failed.
    pub open spec fn failed(self) -> WindowsTask<C> {
        let limit = self.max_reconnect_attempts;
        WindowsTask {
            backoff: self.backoff.after_failure(limit),
            pending: match self.backoff.verdict(limit, true) {
                Verdict::Wait { secs, notice } => WindowsAction::Sleep { secs, notice },
                Verdict::GiveUp { max } => WindowsAction::Finish {
                    result: Err(WindowsError { attempts: max }),
                },
            },
            ..self
        }
    }

    /// The task after `event`. Connecting does not reset the backoff.
    pub open spec fn next(self, event: WindowsEvent<C>) -> WindowsTask<C> {
        match event {
            WindowsEvent::NetworkStarted => self.doing(WindowsAction::CheckShutdown),
            WindowsEvent::Running => self.doing(WindowsAction::StartRedirector),
            WindowsEvent::ShuttingDown => self.doing(WindowsAction::Finish { result: Ok(()) }),
            WindowsEvent::Launched => self.doing(WindowsAction::CreatePipe { launched: true }),
            WindowsEvent::LaunchFailed => self.doing(WindowsAction::CreatePipe { launched: false }),
            WindowsEvent::PipeCreated => self.doing(
                WindowsAction::AwaitClient {
                    launched: self.pending == (WindowsAction::CreatePipe { launched: true }),
                },
            ),
            WindowsEvent::PipeFailed => self.failed(),
            WindowsEvent::Connected => self.doing(WindowsAction::Forward),
            WindowsEvent::ConnectFailed => self.failed(),
            WindowsEvent::Ended { conf } => self.with_conf(conf).doing(
                WindowsAction::Finish { result: Ok(()) },
            ),
            WindowsEvent::Disconnected { conf } => self.with_conf(conf).failed(),
            WindowsEvent::Slept => self.doing(WindowsAction::CheckShutdown),
        }
    }

    /// The task after a run of events.
    pub open spec fn after(self, events: Seq<WindowsEvent<C>>) -> WindowsTask<C>
        decreases events.len(),
    {
        if events.len() == 0 {
            self
        } else {
            self.after(events.drop_last()).next(events.last())
        }
    }

    /// Whether this can be the run of events of the task: each says how the action that is then
    /// under way went, and the attempt counter can take it.
    pub open spec fn accepts(self, events: Seq<WindowsEvent<C>>) -> bool
        decreases events.len(),
    {
        events.len() > 0 ==> {
            let before = self.after(events.drop_last());
            &&& self.accepts(events.drop_last())
            &&& events.last().answers(before.pending)
            &&& before.room_for(events.last())
        }
    }

    /// Tells whether the attempt counter can take `event`.
    pub fn has_room_for(&self, event: &WindowsEvent<C>) -> (b: bool)
        ensures
            b == self.room_for(*event),
    {
        match event {
            WindowsEvent::PipeFailed
            | WindowsEvent::ConnectFailed
            | WindowsEvent::Disconnected { .. } =>
                self.backoff.has_room(self.max_reconnect_attempts, true),
            _ => true,
        }
    }

    fn fail(&mut self)
        requires
            old(self).backoff.room(old(self).max_reconnect_attempts, true),
            old(self).backoff.valid(),
        ensures
            *final(self) == old(self).failed(),
    {
        self.pending = match self.backoff.record_failure(self.max_reconnect_attempts, true) {
            Verdict::Wait { secs, notice } => WindowsAction::Sleep { secs, notice },
            Verdict::GiveUp { max } => WindowsAction::Finish {
                result: Err(WindowsError { attempts: max }),
            },
        };
    }

    /// Takes in how the action under way went, and decides what to do next.
    pub fn step(&mut self, event: WindowsEvent<C>)
        requires
            old(self).valid(),
            event.answers(old(self).pending),
            old(self).room_for(event),
        ensures
            final(self).valid(),
            *final(self) == old(self).next(event),
    {
        match event {
            WindowsEvent::NetworkStarted => {
                self.pending = WindowsAction::CheckShutdown;
            },
            WindowsEvent::Running => {
                self.pending = WindowsAction::StartRedirector;
            },
            WindowsEvent::ShuttingDown => {
                self.pending = WindowsAction::Finish { result: Ok(()) };
            },
            WindowsEvent::Ended { conf } => {
                self.intercept_conf = conf;
                self.pending = WindowsAction::Finish { result: Ok(()) };
            },
            WindowsEvent::Launched => {
                self.pending = WindowsAction::CreatePipe { launched: true };
            },
            WindowsEvent::LaunchFailed => {
                self.pending = WindowsAction::CreatePipe { launched: false };
            },
            WindowsEvent::PipeCreated => {
                let launched = match self.pending {
                    WindowsAction::CreatePipe { launched } => launched,
                    _ => false,
                };
                self.pending = WindowsAction::AwaitClient { launched };
            },
            WindowsEvent::Connected => {
                self.pending = WindowsAction::Forward;
            },
            WindowsEvent::PipeFailed | WindowsEvent::ConnectFailed => {
                self.fail();
            },
            WindowsEvent::Disconnected { conf } => {
                self.intercept_conf = conf;
                self.fail();
            },
            WindowsEvent::Slept => {
                self.pending = WindowsAction::CheckShutdown;
            },
        }
    }

    /// How to create the pipe for the next attempt, with buffers of `ipc_buf_size` bytes, taken
    /// to 32 bits.
    pub fn pipe_options(&self, ipc_buf_size: usize) -> (o: PipeOptions)
        ensures
            o.message_mode,
            o.first_pipe_instance == self.insists_on_first_instance(),
            o.first_pipe_instance == (self.backoff.attempts == 0),
            o.max_instances == 1,
            o.in_buffer_size == ipc_buf_size as int % 0x1_0000_0000,
            o.out_buffer_size == ipc_buf_size as int % 0x1_0000_0000,
            o.reject_remote_clients,
    {
        let size: u32 = #[verifier::truncate] (ipc_buf_size as u32);
        proof {
            let wide: u64 = ipc_buf_size as u64;
            assert(wide as u32 == wide % 0x1_0000_0000) by (bit_vector);
            assert(ipc_buf_size as u32 == wide as u32);
        }
        PipeOptions {
            message_mode: true,
            first_pipe_instance: self.backoff.attempts == 0,
            max_instances: 1,
            in_buffer_size: size,
            out_buffer_size: size,
            reject_remote_clients: true,
        }
    }

    /// How to start the redirector process: with elevated privileges, with the pipe's name as its
    /// argument, and out of sight unless this is a debug build.
    pub fn launch(&self, debug_build: bool) -> (l: ShellLaunch<'_>)
        ensures
            l.verb@ == "runas"@,
            *l.file == self.executable_path,
            *l.parameters == self.pipe_name,
            l.visible == debug_build,
    {
        ShellLaunch {
            verb: "runas",
            file: &self.executable_path,
            parameters: &self.pipe_name,
            visible: debug_build,
        }
    }
}

/// The number of failures in a run of events.
pub open spec fn failures<C>(events: Seq<WindowsEvent<C>>) -> nat
    decreases events.len(),
{
    if events.len() == 0 {
        0
    } else if events.last().is_failure() {
        failures(events.drop_last()) + 1
    } else {
        failures(events.drop_last())
    }
}

/// A task's settings and its strings never change, and every state that it reaches is valid.
///
/// While there is a limit, the failures that it has counted are all those since it started,
/// whether it was connected between them or not, and without a limit it counts none. Until it
/// gives up, its delay is a second, doubled for each of these failures, up to half a minute.
/// Giving up leaves the delay as it is.
pub proof fn windows_backoff_follows_failures<C>(start: WindowsTask<C>, events: Seq<WindowsEvent<C>>)
    requires
        start.valid(),
        start.starts(),
        start.accepts(events),
    ensures
        start.after(events).valid(),
        start.after(events).executable_path == start.executable_path,
        start.after(events).pipe_name == start.pipe_name,
        start.after(events).pipe_name_str == start.pipe_name_str,
        start.after(events).max_reconnect_attempts == start.max_reconnect_attempts,
        start.after(events).backoff.attempts == if start.max_reconnect_attempts is Some {
            failures(events)
        } else {
            0
        },
        start.after(events).backoff.within(start.max_reconnect_attempts)
            ==> start.after(events).backoff.delay_secs == crate::backoff::delay_after(
            failures(events),
        ),
        !start.after(events).backoff.within(start.max_reconnect_attempts)
            ==> start.after(events).backoff.delay_secs == crate::backoff::delay_after(
            (failures(events) - 1) as nat,
        ),
    decreases events.len(),
{
    crate::backoff::delay_doubles_up_to_the_longest(failures(events));
    if events.len() > 0 {
        windows_backoff_follows_failures(start, events.drop_last());
        crate::backoff::delay_doubles_up_to_the_longest(failures(events.drop_last()));
    }
}

/// Which outcomes each action can have: a redirector that was not launched cannot have connected, and
/// after the last action there is none.
pub proof fn windows_actions_have_their_outcomes<C>(event: WindowsEvent<C>, action: WindowsAction)
    ensures
        action is StartNetwork ==> (event.answers(action) <==> event is NetworkStarted),
        action is CheckShutdown ==> (event.answers(action) <==> event is Running || event
            is ShuttingDown),
        action is StartRedirector ==> (event.answers(action) <==> event is Launched || event
            is LaunchFailed),
        action is CreatePipe ==> (event.answers(action) <==> event is PipeCreated || event
            is PipeFailed),
        action == (WindowsAction::AwaitClient { launched: true }) ==> (event.answers(action)
            <==> event is Connected || event is ConnectFailed),
        action == (WindowsAction::AwaitClient { launched: false }) ==> (event.answers(action)
            <==> event is ConnectFailed),
        action is Forward ==> (event.answers(action) <==> event is Ended || event is Disconnected),
        action is Sleep ==> (event.answers(action) <==> event is Slept),
        action is Finish ==> !event.answers(action),
{
}

/// What every event but a failed operation leads to: the next operation of the attempt, with nothing
/// else changed, but for the end of forwarding, which hands back an interception configuration.
pub proof fn windows_success_leads_on<C>(task: WindowsTask<C>, event: WindowsEvent<C>)
    ensures
        event is NetworkStarted || event is Slept ==> task.next(event) == (WindowsTask {
            pending: WindowsAction::CheckShutdown,
            ..task
        }),
        event is Running ==> task.next(event) == (WindowsTask {
            pending: WindowsAction::StartRedirector,
            ..task
        }),
        event is ShuttingDown ==> task.next(event) == (WindowsTask {
            pending: WindowsAction::Finish { result: Ok(()) },
            ..task
        }),
        event is Launched ==> task.next(event) == (WindowsTask {
            pending: WindowsAction::CreatePipe { launched: true },
            ..task
        }),
        event is LaunchFailed ==> task.next(event) == (WindowsTask {
            pending: WindowsAction::CreatePipe { launched: false },
            ..task
        }),
        event is PipeCreated ==> (task.pending matches WindowsAction::CreatePipe { launched }
            ==> task.next(event) == (WindowsTask {
            pending: WindowsAction::AwaitClient { launched },
            ..task
        })),
        event is Connected ==> task.next(event) == (WindowsTask {
            pending: WindowsAction::Forward,
            ..task
        }),
        event matches WindowsEvent::Ended { conf } ==> task.next(event) == (WindowsTask {
            intercept_conf: conf,
            pending: WindowsAction::Finish { result: Ok(()) },
            ..task
        }),
{
}

/// What every failed operation leads to. With a limit it is counted. If the count then exceeds the
/// limit, the task returns an error with the limit. Otherwise it announces the next attempt, sleeps
/// for as long as its delay was, and doubles the delay, up to thirty seconds. A lost connection
/// also hands back an interception configuration; nothing else changes.
pub proof fn windows_failure_sleeps_or_ends<C>(
    task: WindowsTask<C>,
    event: WindowsEvent<C>,
    count: int,
)
    requires
        event is PipeFailed || event is ConnectFailed || event is Disconnected,
        1 <= task.backoff.delay_secs <= 30,
        task.max_reconnect_attempts is Some ==> count == task.backoff.attempts + 1,
        task.max_reconnect_attempts is None ==> count == task.backoff.attempts,
        count <= u32::MAX,
        task.max_reconnect_attempts is None || count <= task.max_reconnect_attempts->0 ==> count
            < u32::MAX,
    ensures
        task.next(event).executable_path == task.executable_path,
        task.next(event).pipe_name == task.pipe_name,
        task.next(event).pipe_name_str == task.pipe_name_str,
        task.next(event).max_reconnect_attempts == task.max_reconnect_attempts,
        task.next(event).backoff.attempts == count,
        event matches WindowsEvent::Disconnected { conf } ==> task.next(event).intercept_conf
            == conf,
        !(event is Disconnected) ==> task.next(event).intercept_conf == task.intercept_conf,
        task.max_reconnect_attempts is Some && count > task.max_reconnect_attempts->0 ==> {
            &&& task.next(event).backoff.delay_secs == task.backoff.delay_secs
            &&& task.next(event).pending matches WindowsAction::Finish { result: Err(e) }
            &&& e.attempts == task.max_reconnect_attempts->0
        },
        task.max_reconnect_attempts is None || count <= task.max_reconnect_attempts->0 ==> {
            &&& task.next(event).backoff.delay_secs == vstd::math::min(
                2 * task.backoff.delay_secs,
                30,
            )
            &&& task.next(event).pending matches WindowsAction::Sleep { secs, notice }
            &&& secs == task.backoff.delay_secs
            &&& notice == Some(
                Notice { attempt: (count + 1) as u32, waiting_secs: task.backoff.delay_secs },
            )
        },
{
}

/// What holds of every task, of one that starts, and of the events that its counter can take.
pub proof fn windows_states_are_these<C>(task: WindowsTask<C>, event: WindowsEvent<C>)
    ensures
        task.valid() <==> {
            &&& task.executable_path@.len() > 0 && task.executable_path@.last() == 0
            &&& task.pipe_name@ == crate::text::utf16(task.pipe_name_str@) + seq![0u16]
            &&& 1 <= task.backoff.delay_secs <= 30
            &&& task.max_reconnect_attempts is None ==> task.backoff.attempts == 0
            &&& task.max_reconnect_attempts is Some && !(task.pending is Finish)
                ==> task.backoff.attempts <= task.max_reconnect_attempts->0
        },
        task.starts() <==> task.backoff.delay_secs == 1 && task.backoff.attempts == 0
            && task.pending is StartNetwork,
        event is PipeFailed || event is ConnectFailed || event is Disconnected ==> (task.room_for(
            event,
        ) <==> task.backoff.attempts < u32::MAX && !(task.max_reconnect_attempts is Some
            && task.backoff.attempts == u32::MAX - 1 && task.backoff.attempts
            < task.max_reconnect_attempts->0)),
        !(event is PipeFailed || event is ConnectFailed || event is Disconnected)
            ==> task.room_for(event),
        task.insists_on_first_instance() <==> task.backoff.attempts == 0,
{
    assert(crate::text::utf16(task.pipe_name_str@).push(0) =~= crate::text::utf16(
        task.pipe_name_str@,
    ) + seq![0u16]);
}

/// The error says that reconnecting failed, then how many failures were allowed.
pub proof fn windows_error_says_how_often(e: WindowsError)
    ensures
        ({
            let what = "Failed to reconnect to Windows redirector after "@;
            let number = crate::text::decimal(e.attempts as nat);
            &&& what.is_prefix_of(e.text())
            &&& number.is_prefix_of(e.text().skip(what.len() as int))
            &&& e.text().skip((what.len() + number.len()) as int) == " attempts"@
        }),
{
    let what = "Failed to reconnect to Windows redirector after "@;
    let number = crate::text::decimal(e.attempts as nat);
    assert(e.text() =~= what + (number + " attempts"@));
    assert(e.text().skip(what.len() as int) =~= number + " attempts"@);
    assert(e.text().skip((what.len() + number.len()) as int) =~= " attempts"@);
}

/// A task returns an error exactly when there is a limit and one more failure than it allows has
/// happened since it started.
pub proof fn windows_gives_up_past_the_limit<C>(start: WindowsTask<C>, events: Seq<WindowsEvent<C>>)
    requires
        start.valid(),
        start.starts(),
        start.accepts(events),
    ensures
        start.after(events).pending matches WindowsAction::Finish { result: Err(_) }
            <==> start.max_reconnect_attempts is Some && failures(events)
            > start.max_reconnect_attempts->0,
        start.after(events).pending matches WindowsAction::Finish { result: Err(e) } ==> {
            &&& e.attempts == start.max_reconnect_attempts->0
            &&& failures(events) == e.attempts + 1
        },
{
    windows_backoff_follows_failures(start, events);
    if events.len() > 0 {
        windows_backoff_follows_failures(start, events.drop_last());
    }
}

/// Without a limit a task never returns an error.
pub proof fn windows_unlimited_never_gives_up<C>(start: WindowsTask<C>, events: Seq<WindowsEvent<C>>)
    requires
        start.valid(),
        start.starts(),
        start.accepts(events),
        start.max_reconnect_attempts is None,
    ensures
        !(start.after(events).pending matches WindowsAction::Finish { result: Err(_) }),
{
    windows_gives_up_past_the_limit(start, events);
}

/// A task sleeps exactly after a failure at which it does not give up. It sleeps for a second after
/// the first failure, and for twice as long after each further one, up to half a minute. It always
/// announces the next attempt, by its number and with the time that it sleeps.
pub proof fn windows_sleeps_after_failures<C>(start: WindowsTask<C>, events: Seq<WindowsEvent<C>>)
    requires
        start.valid(),
        start.starts(),
        start.accepts(events),
        events.len() > 0,
    ensures
        start.after(events).pending is Sleep <==> events.last().is_failure() && !(start.after(
            events,
        ).pending is Finish),
        start.after(events).pending matches WindowsAction::Sleep { secs, notice } ==> {
            &&& failures(events) > 0
            &&& secs == crate::backoff::delay_after((failures(events) - 1) as nat)
            &&& notice matches Some(n) && n.waiting_secs == secs && n.attempt == start.after(
                events,
            ).backoff.attempts + 1
        },
{
    windows_backoff_follows_failures(start, events);
    windows_backoff_follows_failures(start, events.drop_last());
}

/// A task insists on being the first to create its pipe until its first failure; without a limit,
/// always.
pub proof fn windows_insists_on_first_instance<C>(start: WindowsTask<C>, events: Seq<WindowsEvent<C>>)
    requires
        start.valid(),
        start.starts(),
        start.accepts(events),
    ensures
        start.after(events).insists_on_first_instance() <==> start.max_reconnect_attempts is None
            || failures(events) == 0,
{
    windows_backoff_follows_failures(start, events);
}

/// The redirector is not started before it is known that this process is not shutting down, and
/// after every sleep that is found out anew. Next after starting the redirector, whether that worked
/// or not, the pipe is created.
pub proof fn windows_checks_for_shutdown_first<C>(task: WindowsTask<C>, event: WindowsEvent<C>)
    requires
        event.answers(task.pending),
    ensures
        task.next(event).pending is StartRedirector <==> event is Running,
        event is Running ==> task.pending is CheckShutdown,
        task.next(event).pending is CreatePipe <==> task.pending is StartRedirector,
        task.pending is Sleep ==> task.next(event).pending is CheckShutdown,
        event is ShuttingDown ==> task.next(event).pending == (WindowsAction::Finish {
            result: Ok(()),
        }),
{
}

/// Packets are forwarded exactly when the redirector that was launched in the same attempt has
/// connected to the pipe that was created in it.
pub proof fn windows_forwards_to_a_launched_redirector<C>(
    start: WindowsTask<C>,
    events: Seq<WindowsEvent<C>>,
)
    requires
        start.starts(),
        start.accepts(events),
    ensures
        start.after(events).pending is Forward <==> events.len() > 4 && events[events.len() - 4]
            is Running && events[events.len() - 3] is Launched && events[events.len() - 2]
            is PipeCreated && events[events.len() - 1] is Connected,
{
    lemma_attempt_so_far(start, events);
}

/// The action under way tells which events of the attempt led to it.
proof fn lemma_attempt_so_far<C>(start: WindowsTask<C>, events: Seq<WindowsEvent<C>>)
    requires
        start.starts(),
        start.accepts(events),
    ensures
        match start.after(events).pending {
            WindowsAction::StartNetwork => events.len() == 0,
            WindowsAction::StartRedirector => events.len() > 1 && events.last() is Running,
            WindowsAction::CreatePipe { launched } => events.len() > 2 && events[events.len() - 2]
                is Running && if launched {
                events.last() is Launched
            } else {
                events.last() is LaunchFailed
            },
            WindowsAction::AwaitClient { launched } => events.len() > 3 && events[events.len() - 3]
                is Running && events.last() is PipeCreated && if launched {
                events[events.len() - 2] is Launched
            } else {
                events[events.len() - 2] is LaunchFailed
            },
            WindowsAction::Forward => events.len() > 4 && events[events.len() - 4] is Running
                && events[events.len() - 3] is Launched && events[events.len() - 2] is PipeCreated
                && events.last() is Connected,
            _ => events.len() > 0 && !(events.last() is Connected),
        },
    decreases events.len(),
{
    if events.len() > 0 {
        lemma_attempt_so_far(start, events.drop_last());
    }
}

/// A failed launch is ignored at first, and found out when trying to connect: its attempt goes on to
/// the pipe, and unless that already failed, connecting fails. So it counts as a failed attempt.
pub proof fn windows_failed_launch_fails_the_attempt<C>(
    start: WindowsTask<C>,
    events: Seq<WindowsEvent<C>>,
    launch: int,
)
    requires
        start.accepts(events),
        0 <= launch < events.len(),
        events[launch] is LaunchFailed,
    ensures
        start.after(events.take(launch + 1)).pending == (WindowsAction::CreatePipe {
            launched: false,
        }),
        launch + 1 < events.len() ==> events[launch + 1] is PipeCreated || events[launch + 1]
            is PipeFailed,
        launch + 2 < events.len() && events[launch + 1] is PipeCreated ==> events[launch + 2]
            is ConnectFailed,
{
    lemma_prefix(start, events, launch + 1);
    assert(events.take(launch + 1).last() == events[launch]);
    if launch + 1 < events.len() {
        lemma_prefix(start, events, launch + 2);
        assert(events.take(launch + 2).last() == events[launch + 1]);
        assert(events.take(launch + 2).drop_last() =~= events.take(launch + 1));
    }
    if launch + 2 < events.len() {
        lemma_prefix(start, events, launch + 3);
        assert(events.take(launch + 3).last() == events[launch + 2]);
        assert(events.take(launch + 3).drop_last() =~= events.take(launch + 2));
    }
}

/// Without an allowed failure, a failed launch ends the task with the error: within two more
/// events, and whatever they are.
pub proof fn windows_failed_launch_past_the_limit_ends<C>(
    start: WindowsTask<C>,
    events: Seq<WindowsEvent<C>>,
    launch: int,
)
    requires
        start.valid(),
        start.starts(),
        start.accepts(events),
        0 <= launch < events.len(),
        events[launch] is LaunchFailed,
        start.max_reconnect_attempts is Some,
        failures(events.take(launch + 1)) == start.max_reconnect_attempts->0,
    ensures
        events.len() <= launch + 3,
        events.len() == launch + 3 || (events.len() == launch + 2 && events.last() is PipeFailed)
            ==> start.after(events).pending == (WindowsAction::Finish {
            result: Err(WindowsError { attempts: start.max_reconnect_attempts->0 }),
        }),
{
    windows_failed_launch_fails_the_attempt(start, events, launch);
    if launch + 2 <= events.len() {
        let two = events.take(launch + 2);
        lemma_prefix(start, events, launch + 2);
        assert(two.drop_last() =~= events.take(launch + 1));
        assert(two.last() == events[launch + 1]);
        windows_gives_up_past_the_limit(start, two);
        if launch + 3 <= events.len() {
            let three = events.take(launch + 3);
            lemma_prefix(start, events, launch + 3);
            assert(three.drop_last() =~= two);
            assert(three.last() == events[launch + 2]);
            windows_gives_up_past_the_limit(start, three);
            if launch + 4 <= events.len() {
                lemma_prefix(start, events, launch + 4);
                assert(events.take(launch + 4).drop_last() =~= three);
            }
            if events.len() == launch + 3 {
                assert(three =~= events);
            }
        } else {
            assert(two =~= events);
        }
    }
}

/// A task returns without an error exactly when this process is shutting down or forwarding ended
/// normally; and once it returns, nothing more happens.
pub proof fn windows_returns_at_shutdown_or_end<C>(task: WindowsTask<C>, event: WindowsEvent<C>)
    requires
        event.answers(task.pending),
    ensures
        task.next(event).pending == (WindowsAction::Finish { result: Ok(()) })
            <==> event is ShuttingDown || event is Ended,
        !(task.pending is Finish),
{
}

/// The attempt counter has room for every event, unless the limit is the largest number that it
/// can hold.
pub proof fn windows_counter_has_room<C>(task: WindowsTask<C>, event: WindowsEvent<C>)
    requires
        task.valid(),
        event.answers(task.pending),
        task.max_reconnect_attempts != Some(u32::MAX),
    ensures
        task.room_for(event),
{
}

/// With a limit, a task returns after a bounded number of operations, though it be connected
/// again and again: at most six for each failure, one more of which may happen than is allowed.
pub proof fn windows_ends<C>(start: WindowsTask<C>, events: Seq<WindowsEvent<C>>)
    requires
        start.valid(),
        start.starts(),
        start.accepts(events),
        start.max_reconnect_attempts is Some,
    ensures
        events.len() <= 6 * (start.max_reconnect_attempts->0 + 1),
{
    windows_gives_up_past_the_limit(start, events);
    lemma_operations_per_failure(start, events);
}

/// How many operations are done, at most, beyond six for each failure.
spec fn progress(action: WindowsAction) -> int {
    match action {
        WindowsAction::StartNetwork => 0,
        WindowsAction::CheckShutdown => 1,
        WindowsAction::StartRedirector => 2,
        WindowsAction::CreatePipe { .. } => 3,
        WindowsAction::AwaitClient { .. } => 4,
        WindowsAction::Forward => 5,
        WindowsAction::Sleep { .. } => 0,
        WindowsAction::Finish { result: Ok(()) } => 6,
        WindowsAction::Finish { result: Err(_) } => 0,
    }
}

proof fn lemma_operations_per_failure<C>(start: WindowsTask<C>, events: Seq<WindowsEvent<C>>)
    requires
        start.starts(),
        start.accepts(events),
    ensures
        events.len() <= 6 * failures(events) + progress(start.after(events).pending),
    decreases events.len(),
{
    if events.len() > 0 {
        lemma_operations_per_failure(start, events.drop_last());
    }
}

/// Every process's pipe name is the local pipe directory and the proxy's own prefix, written out
/// here, followed by the numeral of the process's identifier; and the name is an ASCII text, whose wide
/// form holds the code of each character, none of them zero, and then one zero.
pub proof fn pipe_name_is_prefix_and_process_id(process_id: u32)
    ensures
        pipe_name_of(process_id).take(37) == seq![
            '\\', '\\', '.', '\\', 'p', 'i', 'p', 'e', '\\', 'm', 'i', 't', 'm', 'p', 'r', 'o', 'x',
            'y', '-', 't', 'r', 'a', 'n', 's', 'p', 'a', 'r', 'e', 'n', 't', '-', 'p', 'r', 'o', 'x',
            'y', '-',
        ],
        pipe_name_of(process_id).skip(37) == crate::text::decimal(process_id as nat),
        ({
            let wide = crate::text::utf16(pipe_name_of(process_id)).push(0);
            &&& wide.len() == pipe_name_of(process_id).len() + 1
            &&& wide.last() == 0
            &&& forall|i: int|
                0 <= i < pipe_name_of(process_id).len() ==> #[trigger] wide[i] as int
                    == pipe_name_of(process_id)[i] as int && 0 < wide[i] < 0x80
        }),
{
    reveal_strlit("\\\\.\\pipe\\mitmproxy-transparent-proxy-");
    let name = pipe_name_of(process_id);
    assert(crate::text::plain(name)) by {
        crate::text::decimal_is_plain(process_id as nat);
    }
    crate::text::plain_utf16(name);
    let wide = crate::text::utf16(name).push(0);
    assert forall|i: int| 0 <= i < name.len() implies #[trigger] wide[i] as int == name[i] as int
        && 0 < wide[i] < 0x80 by {
        assert('\0' < name[i] <= '\x7F');
    }
}

/// The wide form of a process's pipe name holds the name's characters, each as one unit, and a zero
/// unit at its end and nowhere else.
pub proof fn pipe_name_is_a_wide_c_string(process_id: u32)
    ensures
        crate::text::nul_terminated(crate::text::utf16(pipe_name_of(process_id)).push(0)),
        crate::text::utf16(pipe_name_of(process_id)) == pipe_name_of(process_id).map_values(
            |c: char| c as u16,
        ),
{
    let name = pipe_name_of(process_id);
    assert(crate::text::plain(name)) by {
        reveal_strlit("\\\\.\\pipe\\mitmproxy-transparent-proxy-");
        crate::text::decimal_is_plain(process_id as nat);
    }
    crate::text::plain_utf16(name);
}

/// Different processes have different pipe names.
pub proof fn pipe_names_are_distinct(a: u32, b: u32)
    requires
        a != b,
    ensures
        pipe_name_of(a) != pipe_name_of(b),
{
    let prefix = "\\\\.\\pipe\\mitmproxy-transparent-proxy-"@;
    let n = prefix.len() as int;
    assert(pipe_name_of(a).skip(n) =~= crate::text::decimal(a as nat));
    assert(pipe_name_of(b).skip(n) =~= crate::text::decimal(b as nat));
    if pipe_name_of(a) == pipe_name_of(b) {
        crate::text::decimal_is_injective(a as nat, b as nat);
    }
}

/// The network layer is started once, before anything else, so there is one for all connections.
pub proof fn windows_network_starts_once_and_first<C>(start: WindowsTask<C>, events: Seq<WindowsEvent<C>>)
    requires
        start.starts(),
        start.accepts(events),
    ensures
        start.after(events).pending is StartNetwork <==> events.len() == 0,
        forall|i: int| 0 <= i < events.len() ==> (#[trigger] events[i] is NetworkStarted <==> i == 0),
    decreases events.len(),
{
    if events.len() > 0 {
        let before = events.drop_last();
        windows_network_starts_once_and_first(start, before);
        assert forall|i: int| 0 <= i < events.len() implies (#[trigger] events[i] is NetworkStarted
            <==> i == 0) by {
            if i < before.len() {
                assert(before[i] == events[i]);
            }
        }
    }
}

/// The interception configuration survives reconnecting: it is the one that the last forwarding
/// handed back, or the first one if there was none yet.
pub proof fn windows_conf_survives_reconnects<C>(
    start: WindowsTask<C>,
    events: Seq<WindowsEvent<C>>,
    last: int,
)
    requires
        -1 <= last < events.len(),
        last >= 0 ==> events[last].conf() is Some,
        forall|i: int| last < i < events.len() ==> (#[trigger] events[i]).conf() is None,
    ensures
        last >= 0 ==> events[last].conf() == Some(start.after(events).intercept_conf),
        last == -1 ==> start.after(events).intercept_conf == start.intercept_conf,
    decreases events.len(),
{
    if events.len() > 0 && last < events.len() - 1 {
        assert(events[events.len() - 1].conf() is None);
        windows_conf_survives_reconnects(start, events.drop_last(), last);
    }
}

/// Raising or lifting the limit never turns a success into a failure, and changes nothing of what a
/// task does until it gives up: it takes the same events, does the same, and sleeps as long. Only
/// an announcement numbers the next attempt otherwise when the limit is lifted, for then nothing is
/// counted.
pub proof fn windows_higher_limit_changes_no_success<C>(
    start: WindowsTask<C>,
    higher: WindowsTask<C>,
    events: Seq<WindowsEvent<C>>,
)
    requires
        start.valid(),
        start.starts(),
        start.accepts(events),
        higher == (WindowsTask { max_reconnect_attempts: higher.max_reconnect_attempts, ..start }),
        crate::backoff::allows_as_many(
            start.max_reconnect_attempts,
            higher.max_reconnect_attempts,
        ),
        !(start.after(events).pending matches WindowsAction::Finish { result: Err(_) }),
    ensures
        higher.accepts(events),
        start.after(events).pending.same_but_number(higher.after(events).pending),
        start.after(events).backoff.delay_secs == higher.after(events).backoff.delay_secs,
        start.after(events).intercept_conf == higher.after(events).intercept_conf,
        higher.max_reconnect_attempts is Some ==> higher.after(events) == (WindowsTask {
            max_reconnect_attempts: higher.max_reconnect_attempts,
            ..start.after(events)
        }),
    decreases events.len(),
{
    if events.len() > 0 {
        let before = events.drop_last();
        windows_higher_limit_changes_no_success(start, higher, before);
        windows_backoff_follows_failures(start, before);
        windows_backoff_follows_failures(higher, before);
        windows_backoff_follows_failures(start, events);
        windows_gives_up_past_the_limit(start, events);
    }
}

/// Only the number of failures matters, not which operations failed nor what succeeded between
/// them: after as many failures two tasks wait as long, number the next attempt alike, and give up
/// alike.
pub proof fn windows_only_the_number_of_failures_matters<C>(
    start: WindowsTask<C>,
    one: Seq<WindowsEvent<C>>,
    other: Seq<WindowsEvent<C>>,
)
    requires
        start.valid(),
        start.starts(),
        start.accepts(one),
        start.accepts(other),
        failures(one) == failures(other),
    ensures
        start.after(one).backoff == start.after(other).backoff,
        one.len() > 0 && other.len() > 0 && one.last().is_failure() && other.last().is_failure()
            ==> start.after(one).pending == start.after(other).pending,
{
    windows_backoff_follows_failures(start, one);
    windows_backoff_follows_failures(start, other);
    if one.len() > 0 && other.len() > 0 && one.last().is_failure() && other.last().is_failure() {
        windows_backoff_follows_failures(start, one.drop_last());
        windows_backoff_follows_failures(start, other.drop_last());
    }
}

/// How often it was tried to start the redirector in a run of events.
pub open spec fn launches<C>(events: Seq<WindowsEvent<C>>) -> nat
    decreases events.len(),
{
    if events.len() == 0 {
        0
    } else if events.last() is Launched || events.last() is LaunchFailed {
        launches(events.drop_last()) + 1
    } else {
        launches(events.drop_last())
    }
}

/// How often the task slept in a run of events.
pub open spec fn sleeps<C>(events: Seq<WindowsEvent<C>>) -> nat
    decreases events.len(),
{
    if events.len() == 0 {
        0
    } else if events.last() is Slept {
        sleeps(events.drop_last()) + 1
    } else {
        sleeps(events.drop_last())
    }
}

/// With a limit of so many failures, a task sleeps at most as often, and tries to start the
/// redirector at most once more; what is under way is counted.
pub proof fn windows_launches_and_sleeps_are_limited<C>(
    start: WindowsTask<C>,
    events: Seq<WindowsEvent<C>>,
)
    requires
        start.valid(),
        start.starts(),
        start.accepts(events),
        start.max_reconnect_attempts is Some,
    ensures
        sleeps(events) + if start.after(events).pending is Sleep {
            1int
        } else {
            0int
        } <= start.max_reconnect_attempts->0,
        launches(events) + if start.after(events).pending is StartRedirector {
            1int
        } else {
            0int
        } <= start.max_reconnect_attempts->0 + 1,
{
    windows_gives_up_past_the_limit(start, events);
    lemma_sleeps_and_launches(start, events);
}

proof fn lemma_sleeps_and_launches<C>(start: WindowsTask<C>, events: Seq<WindowsEvent<C>>)
    requires
        start.starts(),
        start.accepts(events),
    ensures
        failures(events) == sleeps(events) + match start.after(events).pending {
            WindowsAction::Sleep { .. } => 1int,
            WindowsAction::Finish { result: Err(_) } => 1int,
            _ => 0int,
        },
        match start.after(events).pending {
            WindowsAction::StartNetwork
            | WindowsAction::CheckShutdown
            | WindowsAction::StartRedirector => launches(events) == sleeps(events),
            WindowsAction::Finish { result: Ok(()) } => launches(events) <= sleeps(events) + 1,
            _ => launches(events) == sleeps(events) + 1,
        },
    decreases events.len(),
{
    if events.len() > 0 {
        lemma_sleeps_and_launches(start, events.drop_last());
    }
}

/// No sleep of a task is shorter than one before it.
pub proof fn windows_sleeps_never_shrink<C>(
    start: WindowsTask<C>,
    events: Seq<WindowsEvent<C>>,
    earlier: int,
)
    requires
        start.valid(),
        start.starts(),
        start.accepts(events),
        0 <= earlier <= events.len(),
    ensures
        start.after(events.take(earlier)).pending matches WindowsAction::Sleep { secs: first, .. }
            ==> start.after(events).pending matches WindowsAction::Sleep { secs: second, .. }
            ==> first <= second,
{
    lemma_prefix(start, events, earlier);
    if start.after(events.take(earlier)).pending is Sleep && start.after(events).pending is Sleep {
        windows_sleeps_after_failures(start, events.take(earlier));
        windows_sleeps_after_failures(start, events);
        crate::backoff::delay_never_shrinks(
            (failures(events.take(earlier)) - 1) as nat,
            (failures(events) - 1) as nat,
        );
    }
}

proof fn lemma_prefix<C>(start: WindowsTask<C>, events: Seq<WindowsEvent<C>>, n: int)
    requires
        start.accepts(events),
        0 <= n <= events.len(),
    ensures
        start.accepts(events.take(n)),
        failures(events.take(n)) <= failures(events),
    decreases events.len(),
{
    if n < events.len() {
        lemma_prefix(start, events.drop_last(), n);
        assert(events.drop_last().take(n) =~= events.take(n));
    } else {
        assert(events.take(n) =~= events);
    }
}

/// Reads off the code that the shell gave back for a launch whether it succeeded: such codes are
/// greater than 32, and smaller ones are errors.
pub fn launch_event<C>(code: isize) -> (e: WindowsEvent<C>)
    ensures
        e is Launched <==> code > 32,
        e is LaunchFailed <==> code <= 32,
{
    if code > 32 {
        WindowsEvent::Launched
    } else {
        WindowsEvent::LaunchFailed
    }
}

impl WindowsConf {
    /// The name of the packet source.
    pub fn name(&self) -> (s: &'static str)
        ensures
            s@ == "Windows proxy"@,
    {
        "Windows proxy"
    }

    /// Makes the task of the process with this identifier, which has yet to do its first action,
    /// with the interception configuration to begin with.
    pub fn build<C>(self, process_id: u32, intercept_conf: C) -> (task: WindowsTask<C>)
        ensures
            task.valid(),
            task.starts(),
            task.backoff.delay_secs == 1 && task.backoff.attempts == 0,
            task.pending is StartNetwork,
            task.intercept_conf == intercept_conf,
            task.executable_path@ == self.executable_path@.push(0),
            task.pipe_name_str@ == pipe_name_of(process_id),
            task.pipe_name@ == crate::text::utf16(pipe_name_of(process_id)).push(0),
            task.max_reconnect_attempts == self.max_reconnect_attempts,
    {
        let pipe_name_str = "\\\\.\\pipe\\mitmproxy-transparent-proxy-".to_owned().concat(
            decimal_string(process_id as u64).as_str(),
        );
        let pipe_name = wide_string(pipe_name_str.as_str());
        let mut executable_path = self.executable_path;
        executable_path.push(0);
        WindowsTask {
            executable_path,
            pipe_name,
            pipe_name_str,
            max_reconnect_attempts: self.max_reconnect_attempts,
            backoff: Backoff::new(),
            intercept_conf,
            pending: WindowsAction::StartNetwork,
        }
    }
}

impl WindowsError {
    /// The wording of the error.
    pub open spec fn text(self) -> Seq<char> {
        "Failed to reconnect to Windows redirector after "@ + crate::text::decimal(
            self.attempts as nat,
        ) + " attempts"@
    }

    /// Words the error.
    pub fn message(&self) -> (s: String)
        ensures
            s@ == self.text(),
    {
        "Failed to reconnect to Windows redirector after ".to_owned().concat(
            decimal_string(self.attempts as u64).as_str(),
        ).concat(" attempts")
    }
}

} // verus!
