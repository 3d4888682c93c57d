//! The packet source that talks to the Linux redirector over Unix datagram sockets.

use vstd::prelude::*;

use std::path::PathBuf;

use crate::backoff::{Backoff, Notice, Verdict};
use crate::startup::{redirector_command, CommandLine};
use crate::text::decimal_string;

verus! {

/// A file system path of the standard library, carried as it is.
#[verifier::external_type_specification]
#[verifier::external_body]
pub struct ExPathBuf(std::path::PathBuf);

/// The name of this side's socket in the directory that is shared with the redirector.
pub const SOCKET_NAME: &'static str = "mitmproxy";

/// How to run the Linux packet source.
pub struct LinuxConf {
    /// The redirector's executable.
    pub executable_path: PathBuf,
    /// How many failures in a row are allowed; without a limit it never gives up.
    pub max_reconnect_attempts: Option<u32>,
}

/// Why no task could be made.
#[derive(Clone, Copy, Debug, PartialEq, Eq, Structural)]
pub enum LinuxBuildError {
    /// There is no directory to share with the redirector.
    NoDirectory,
}

/// Where a socket is bound: at the file of this name in this directory.
pub struct SocketPlace<'a> {
    pub directory: &'a PathBuf,
    pub file_name: &'static str,
}

/// The operation that failed.
#[derive(Clone, Copy, Debug, PartialEq, Eq, Structural)]
pub enum LinuxFailure {
    Bind,
    Start,
    Connect,
    Forward,
}

/// Why the task gave up.
#[derive(Clone, Copy, Debug, PartialEq, Eq, Structural)]
pub struct LinuxError {
    /// The operation that failed last.
    pub failure: LinuxFailure,
    /// The number of failures that were allowed.
    pub attempts: u32,
}

/// What to do next.
#[derive(Debug, PartialEq, Eq)]
pub enum LinuxAction {
    /// Start the network layer that packets are forwarded to and from.
    StartNetwork,
    /// Find out whether this process is shutting down.
    CheckShutdown,
    /// Bind a new datagram socket at the task's place for it, in place of one that an earlier
    /// attempt left.
    Bind,
    /// Start the redirector process by the task's command.
    StartRedirector,
    /// Connect the socket to the redirector's address.
    Connect { address: String },
    /// Forward packets until the connection ends, by the interception configuration of the task,
    /// which may be replaced meanwhile.
    Forward,
    /// Announce the next attempt, if there is a notice, and sleep.
    Sleep { secs: u64, notice: Option<Notice> },
    /// Return.
    Finish { result: Result<(), LinuxError> },
}

/// How the action went.
#[derive(Debug, PartialEq, Eq)]
pub enum LinuxEvent<C> {
    NetworkStarted,
    Running,
    ShuttingDown,
    Bound,
    BindFailed,
    Started { address: String },
    StartFailed,
    Connected,
    ConnectFailed,
    /// Forwarding ended normally, with this interception configuration.
    Ended { conf: C },
    /// The connection was lost, with this interception configuration.
    Disconnected { conf: C },
    Slept,
}

/// A running Linux packet source.
pub struct LinuxTask<C> {
    /// The directory that is shared with the redirector.
    pub datagram_dir: PathBuf,
    pub executable_path: PathBuf,
    pub max_reconnect_attempts: Option<u32>,
    pub backoff: Backoff,
    /// What is to be intercepted.
    pub intercept_conf: C,
    /// The action that is under way.
    pub pending: LinuxAction,
}

impl LinuxAction {
    /// Whether both are the same, but perhaps for the number of the attempt that is announced.
    pub open spec fn same_but_number(self, other: LinuxAction) -> bool {
        match (self, other) {
            (
                LinuxAction::Sleep { secs: a, notice: m },
                LinuxAction::Sleep { secs: b, notice: n },
            ) => a == b && Notice::same_wait(m, n),
            _ => self == other,
        }
    }
}

impl<C> LinuxEvent<C> {
    /// The operation whose failure this event reports, if it reports one.
    pub open spec fn failure(self) -> Option<LinuxFailure> {
        match self {
            LinuxEvent::BindFailed => Some(LinuxFailure::Bind),
            LinuxEvent::StartFailed => Some(LinuxFailure::Start),
            LinuxEvent::ConnectFailed => Some(LinuxFailure::Connect),
            LinuxEvent::Disconnected { .. } => Some(LinuxFailure::Forward),
            _ => None,
        }
    }

    /// The interception configuration that this event hands back, if it hands one back.
    pub open spec fn conf(self) -> Option<C> {
        match self {
            LinuxEvent::Ended { conf } => Some(conf),
            LinuxEvent::Disconnected { conf } => Some(conf),
            _ => None,
        }
    }

    /// Whether this event says how `action` went.
    pub open spec fn answers(self, action: LinuxAction) -> bool {
        match action {
            LinuxAction::StartNetwork => self is NetworkStarted,
            LinuxAction::CheckShutdown => self is Running || self is ShuttingDown,
            LinuxAction::Bind => self is Bound || self is BindFailed,
            LinuxAction::StartRedirector => self is Started || self is StartFailed,
            LinuxAction::Connect { .. } => self is Connected || self is ConnectFailed,
            LinuxAction::Forward => self is Ended || self is Disconnected,
            LinuxAction::Sleep { .. } => self is Slept,
            LinuxAction::Finish { .. } => false,
        }
    }
}

impl LinuxFailure {
    /// Whether the attempt that follows this failure is announced: only after a lost connection.
    pub open spec fn noticed(self) -> bool {
        self is Forward
    }
}

impl<C> LinuxTask<C> {
    /// The state in which a task starts.
    pub open spec fn starts(self) -> bool {
        &&& self.backoff == Backoff::initial()
        &&& self.pending is StartNetwork
    }

    /// What holds of every task: its delay is within bounds, and until it returns no more failures
    /// are counted than are allowed.
    pub open spec fn valid(self) -> bool {
        &&& self.backoff.valid()
        &&& self.max_reconnect_attempts is None ==> self.backoff.attempts == 0
        &&& !(self.pending is Finish) ==> self.backoff.within(self.max_reconnect_attempts)
    }

    /// Whether the attempt counter can take `event`.
    pub open spec fn room_for(self, event: LinuxEvent<C>) -> bool {
        event.failure() matches Some(f) ==> self.backoff.room(
            self.max_reconnect_attempts,
            f.noticed(),
        )
    }

    /// The task with another interception configuration.
    pub open spec fn with_conf(self, conf: C) -> LinuxTask<C> {
        LinuxTask { intercept_conf: conf, ..self }
    }

    /// The task with another action under way.
    pub open spec fn doing(self, pending: LinuxAction) -> LinuxTask<C> {
        LinuxTask { pending, ..self }
    }

    /// The task after an operation failed.
    pub open spec fn failed(self, failure: LinuxFailure) -> LinuxTask<C> {
        let limit = self.max_reconnect_attempts;
        LinuxTask {
            backoff: self.backoff.after_failure(limit),
            pending: match self.backoff.verdict(limit, failure.noticed()) {
                Verdict::Wait { secs, notice } => LinuxAction::Sleep { secs, notice },
                Verdict::GiveUp { max } => LinuxAction::Finish {
                    result: Err(LinuxError { failure, attempts: max }),
                },
            },
            ..self
        }
    }

    /// The task after `event`.
    pub open spec fn next(self, event: LinuxEvent<C>) -> LinuxTask<C> {
        match event {
            LinuxEvent::NetworkStarted => self.doing(LinuxAction::CheckShutdown),
            LinuxEvent::Running => self.doing(LinuxAction::Bind),
            LinuxEvent::ShuttingDown => self.doing(LinuxAction::Finish { result: Ok(()) }),
            LinuxEvent::Bound => self.doing(LinuxAction::StartRedirector),
            LinuxEvent::BindFailed => self.failed(LinuxFailure::Bind),
            LinuxEvent::Started { address } => self.doing(LinuxAction::Connect { address }),
            LinuxEvent::StartFailed => self.failed(LinuxFailure::Start),
            LinuxEvent::Connected => LinuxTask {
                backoff: Backoff::initial(),
                pending: LinuxAction::Forward,
                ..self
            },
            LinuxEvent::ConnectFailed => self.failed(LinuxFailure::Connect),
            LinuxEvent::Ended { conf } => self.with_conf(conf).doing(
                LinuxAction::Finish { result: Ok(()) },
            ),
            LinuxEvent::Disconnected { conf } => self.with_conf(conf).failed(LinuxFailure::Forward),
            LinuxEvent::Slept => self.doing(LinuxAction::CheckShutdown),
        }
    }

    /// The task after a run of events.
    pub open spec fn after(self, events: Seq<LinuxEvent<C>>) -> LinuxTask<C>
        decreases events.len(),
    {
        if events.len() == 0 {
            self
        } else {
            self.after(events.drop_last()).next(events.last())
        }
    }

    /// Whether this can be the run of events of the task: each says how the action that is then
    /// under way went, and the attempt counter can take it.
    pub open spec fn accepts(self, events: Seq<LinuxEvent<C>>) -> bool
        decreases events.len(),
    {
        events.len() > 0 ==> {
            let before = self.after(events.drop_last());
            &&& self.accepts(events.drop_last())
            &&& events.last().answers(before.pending)
            &&& before.room_for(events.last())
        }
    }

    /// Tells whether the attempt counter can take `event`.
    pub fn has_room_for(&self, event: &LinuxEvent<C>) -> (b: bool)
        ensures
            b == self.room_for(*event),
    {
        match event {
            LinuxEvent::BindFailed | LinuxEvent::StartFailed | LinuxEvent::ConnectFailed =>
                self.backoff.has_room(self.max_reconnect_attempts, false),
            LinuxEvent::Disconnected { .. } => self.backoff.has_room(self.max_reconnect_attempts, true),
            _ => true,
        }
    }

    fn fail(&mut self, failure: LinuxFailure, noticed: bool)
        requires
            noticed == failure.noticed(),
            old(self).backoff.room(old(self).max_reconnect_attempts, noticed),
            old(self).backoff.valid(),
        ensures
            *final(self) == old(self).failed(failure),
    {
        self.pending = match self.backoff.record_failure(self.max_reconnect_attempts, noticed) {
            Verdict::Wait { secs, notice } => LinuxAction::Sleep { secs, notice },
            Verdict::GiveUp { max } => LinuxAction::Finish {
                result: Err(LinuxError { failure, attempts: max }),
            },
        };
    }

    /// Where the task binds its socket: in the directory that is shared with the redirector.
    pub fn socket(&self) -> (place: SocketPlace<'_>)
        ensures
            *place.directory == self.datagram_dir,
            place.file_name@ == "mitmproxy"@,
    {
        SocketPlace { directory: &self.datagram_dir, file_name: SOCKET_NAME }
    }

    /// The command that runs the redirector: it is told the directory itself, not the socket's file.
    pub fn redirector_command(&self) -> (c: CommandLine<'_>)
        ensures
            c.program@ == "sudo"@,
            c.arguments@ == crate::startup::redirector_arguments(
                &self.executable_path,
                &self.datagram_dir,
            ),
            c.captured,
    {
        redirector_command(&self.executable_path, &self.datagram_dir)
    }

    /// Takes in how the action under way went, and decides what to do next.
    pub fn step(&mut self, event: LinuxEvent<C>)
        requires
            old(self).valid(),
            event.answers(old(self).pending),
            old(self).room_for(event),
        ensures
            final(self).valid(),
            *final(self) == old(self).next(event),
    {
        match event {
            LinuxEvent::NetworkStarted => {
                self.pending = LinuxAction::CheckShutdown;
            },
            LinuxEvent::Running => {
                self.pending = LinuxAction::Bind;
            },
            LinuxEvent::ShuttingDown => {
                self.pending = LinuxAction::Finish { result: Ok(()) };
            },
            LinuxEvent::Ended { conf } => {
                self.intercept_conf = conf;
                self.pending = LinuxAction::Finish { result: Ok(()) };
            },
            LinuxEvent::Bound => {
                self.pending = LinuxAction::StartRedirector;
            },
            LinuxEvent::BindFailed => {
                self.fail(LinuxFailure::Bind, false);
            },
            LinuxEvent::Started { address } => {
                self.pending = LinuxAction::Connect { address };
            },
            LinuxEvent::StartFailed => {
                self.fail(LinuxFailure::Start, false);
            },
            LinuxEvent::Connected => {
                self.backoff = Backoff::new();
                self.pending = LinuxAction::Forward;
            },
            LinuxEvent::ConnectFailed => {
                self.fail(LinuxFailure::Connect, false);
            },
            LinuxEvent::Disconnected { conf } => {
                self.intercept_conf = conf;
                self.fail(LinuxFailure::Forward, true);
            },
            LinuxEvent::Slept => {
                self.pending = LinuxAction::CheckShutdown;
            },
        }
    }
}

/// The number of failures since the last connection.
pub open spec fn failures_in_a_row<C>(events: Seq<LinuxEvent<C>>) -> nat
    decreases events.len(),
{
    if events.len() == 0 || events.last() is Connected {
        0
    } else if events.last().failure() is Some {
        failures_in_a_row(events.drop_last()) + 1
    } else {
        failures_in_a_row(events.drop_last())
    }
}

/// A task's settings never change, and every state that it reaches is valid.
///
/// While there is a limit, the failures that it has counted are those since the last connection,
/// and without a limit it counts none. Until it gives up, its delay is a second, doubled for each
/// failure since the last connection, up to half a minute.
/// Giving up leaves the delay as it is.
pub proof fn linux_backoff_follows_failures<C>(start: LinuxTask<C>, events: Seq<LinuxEvent<C>>)
    requires
        start.starts(),
        start.accepts(events),
    ensures
        start.after(events).valid(),
        start.after(events).datagram_dir == start.datagram_dir,
        start.after(events).executable_path == start.executable_path,
        start.after(events).max_reconnect_attempts == start.max_reconnect_attempts,
        start.after(events).backoff.attempts == if start.max_reconnect_attempts is Some {
            failures_in_a_row(events)
        } else {
            0
        },
        start.after(events).backoff.within(start.max_reconnect_attempts)
            ==> start.after(events).backoff.delay_secs == crate::backoff::delay_after(
            failures_in_a_row(events),
        ),
        !start.after(events).backoff.within(start.max_reconnect_attempts)
            ==> start.after(events).backoff.delay_secs == crate::backoff::delay_after(
            (failures_in_a_row(events) - 1) as nat,
        ),
    decreases events.len(),
{
    crate::backoff::delay_doubles_up_to_the_longest(failures_in_a_row(events));
    if events.len() > 0 {
        linux_backoff_follows_failures(start, events.drop_last());
        crate::backoff::delay_doubles_up_to_the_longest(failures_in_a_row(events.drop_last()));
    }
}

/// Which outcomes each action can have; after the last one there is none.
pub proof fn linux_actions_have_their_outcomes<C>(event: LinuxEvent<C>, action: LinuxAction)
    ensures
        action is StartNetwork ==> (event.answers(action) <==> event is NetworkStarted),
        action is CheckShutdown ==> (event.answers(action) <==> event is Running || event
            is ShuttingDown),
        action is Bind ==> (event.answers(action) <==> event is Bound || event is BindFailed),
        action is StartRedirector ==> (event.answers(action) <==> event is Started || event
            is StartFailed),
        action is Connect ==> (event.answers(action) <==> event is Connected || event
            is ConnectFailed),
        action is Forward ==> (event.answers(action) <==> event is Ended || event is Disconnected),
        action is Sleep ==> (event.answers(action) <==> event is Slept),
        action is Finish ==> !event.answers(action),
{
}

/// What every success leads to: the next operation of the attempt, with nothing else changed, but
/// for a connection, which sets the delay back to one second and the count to none, and the end
/// of forwarding, which hands back an interception configuration.
pub proof fn linux_success_leads_on<C>(task: LinuxTask<C>, event: LinuxEvent<C>)
    ensures
        event is NetworkStarted || event is Slept ==> task.next(event) == (LinuxTask {
            pending: LinuxAction::CheckShutdown,
            ..task
        }),
        event is Running ==> task.next(event) == (LinuxTask { pending: LinuxAction::Bind, ..task }),
        event is ShuttingDown ==> task.next(event) == (LinuxTask {
            pending: LinuxAction::Finish { result: Ok(()) },
            ..task
        }),
        event is Bound ==> task.next(event) == (LinuxTask {
            pending: LinuxAction::StartRedirector,
            ..task
        }),
        event matches LinuxEvent::Started { address } ==> task.next(event) == (LinuxTask {
            pending: LinuxAction::Connect { address },
            ..task
        }),
        event is Connected ==> task.next(event) == (LinuxTask {
            backoff: Backoff { delay_secs: 1, attempts: 0 },
            pending: LinuxAction::Forward,
            ..task
        }),
        event matches LinuxEvent::Ended { conf } ==> task.next(event) == (LinuxTask {
            intercept_conf: conf,
            pending: LinuxAction::Finish { result: Ok(()) },
            ..task
        }),
{
}

/// What every failure leads to. With a limit it is counted. If the count then exceeds the limit,
/// the task returns an error that names the operation which was under way, and the limit. Otherwise
/// it sleeps for as long as its delay was, and doubles the delay, up to thirty seconds; only after
/// a lost connection it announces the next attempt. A lost connection also hands back an
/// interception configuration; nothing else changes.
pub proof fn linux_failure_sleeps_or_ends<C>(task: LinuxTask<C>, event: LinuxEvent<C>, count: int)
    requires
        event is BindFailed || event is StartFailed || event is ConnectFailed || event
            is Disconnected,
        1 <= task.backoff.delay_secs <= 30,
        task.max_reconnect_attempts is Some ==> count == task.backoff.attempts + 1,
        task.max_reconnect_attempts is None ==> count == task.backoff.attempts,
        count <= u32::MAX,
        event is Disconnected && (task.max_reconnect_attempts is None || count
            <= task.max_reconnect_attempts->0) ==> count < u32::MAX,
    ensures
        task.next(event).datagram_dir == task.datagram_dir,
        task.next(event).executable_path == task.executable_path,
        task.next(event).max_reconnect_attempts == task.max_reconnect_attempts,
        task.next(event).backoff.attempts == count,
        event matches LinuxEvent::Disconnected { conf } ==> task.next(event).intercept_conf == conf,
        !(event is Disconnected) ==> task.next(event).intercept_conf == task.intercept_conf,
        task.max_reconnect_attempts is Some && count > task.max_reconnect_attempts->0 ==> {
            &&& task.next(event).backoff.delay_secs == task.backoff.delay_secs
            &&& task.next(event).pending matches LinuxAction::Finish { result: Err(e) }
            &&& e.attempts == task.max_reconnect_attempts->0
            &&& e.failure is Bind <==> event is BindFailed
            &&& e.failure is Start <==> event is StartFailed
            &&& e.failure is Connect <==> event is ConnectFailed
            &&& e.failure is Forward <==> event is Disconnected
        },
        task.max_reconnect_attempts is None || count <= task.max_reconnect_attempts->0 ==> {
            &&& task.next(event).backoff.delay_secs == vstd::math::min(
                2 * task.backoff.delay_secs,
                30,
            )
            &&& task.next(event).pending matches LinuxAction::Sleep { secs, notice }
            &&& secs == task.backoff.delay_secs
            &&& !(event is Disconnected) ==> notice is None
            &&& event is Disconnected ==> notice == Some(
                Notice { attempt: (count + 1) as u32, waiting_secs: task.backoff.delay_secs },
            )
        },
{
}

/// What holds of every task, of one that starts, and of the events that its counter can take.
pub proof fn linux_states_are_these<C>(task: LinuxTask<C>, event: LinuxEvent<C>)
    ensures
        task.valid() <==> {
            &&& 1 <= task.backoff.delay_secs <= 30
            &&& task.max_reconnect_attempts is None ==> task.backoff.attempts == 0
            &&& task.max_reconnect_attempts is Some && !(task.pending is Finish)
                ==> task.backoff.attempts <= task.max_reconnect_attempts->0
        },
        task.starts() <==> task.backoff.delay_secs == 1 && task.backoff.attempts == 0
            && task.pending is StartNetwork,
        event is BindFailed || event is StartFailed || event is ConnectFailed ==> (task.room_for(
            event,
        ) <==> task.max_reconnect_attempts is None || task.backoff.attempts < u32::MAX),
        event is Disconnected ==> (task.room_for(event) <==> task.backoff.attempts < u32::MAX && !(
        task.max_reconnect_attempts is Some && task.backoff.attempts == u32::MAX - 1
            && task.backoff.attempts < task.max_reconnect_attempts->0)),
        !(event is BindFailed || event is StartFailed || event is ConnectFailed || event
            is Disconnected) ==> task.room_for(event),
{
}

/// The error says which operation failed, then how many failures were allowed.
pub proof fn linux_error_says_what_failed_and_how_often(e: LinuxError)
    ensures
        ({
            let what = if e.failure is Bind {
                "Failed to bind Unix datagram socket after "@
            } else if e.failure is Start {
                "Failed to start Linux redirector after "@
            } else if e.failure is Connect {
                "Failed to connect to Linux redirector after "@
            } else {
                "Failed to reconnect to Linux redirector after "@
            };
            let number = crate::text::decimal(e.attempts as nat);
            &&& what.is_prefix_of(e.text())
            &&& number.is_prefix_of(e.text().skip(what.len() as int))
            &&& e.text().skip((what.len() + number.len()) as int) == " attempts"@
        }),
{
    let what = match e.failure {
        LinuxFailure::Bind => "Failed to bind Unix datagram socket after "@,
        LinuxFailure::Start => "Failed to start Linux redirector after "@,
        LinuxFailure::Connect => "Failed to connect to Linux redirector after "@,
        LinuxFailure::Forward => "Failed to reconnect to Linux redirector after "@,
    };
    let number = crate::text::decimal(e.attempts as nat);
    assert(e.text() =~= what + (number + " attempts"@));
    assert(e.text().skip(what.len() as int) =~= number + " attempts"@);
    assert(e.text().skip((what.len() + number.len()) as int) =~= " attempts"@);
}

/// The wording of the error without a directory.
pub proof fn linux_build_error_has_its_wording(e: LinuxBuildError)
    ensures
        e.text() == "failed to create temp dir"@,
{
}

/// A task returns an error exactly when there is a limit and one more failure than it allows has
/// happened since the last connection. The error names the operation that failed last.
pub proof fn linux_gives_up_past_the_limit<C>(start: LinuxTask<C>, events: Seq<LinuxEvent<C>>)
    requires
        start.starts(),
        start.accepts(events),
    ensures
        start.after(events).pending matches LinuxAction::Finish { result: Err(_) }
            <==> start.max_reconnect_attempts is Some && failures_in_a_row(events)
            > start.max_reconnect_attempts->0,
        start.after(events).pending matches LinuxAction::Finish { result: Err(e) } ==> {
            &&& e.attempts == start.max_reconnect_attempts->0
            &&& failures_in_a_row(events) == e.attempts + 1
            &&& events.last().failure() == Some(e.failure)
        },
{
    linux_backoff_follows_failures(start, events);
    if events.len() > 0 {
        linux_backoff_follows_failures(start, events.drop_last());
    }
}

/// Without a limit a task never returns an error.
pub proof fn linux_unlimited_never_gives_up<C>(start: LinuxTask<C>, events: Seq<LinuxEvent<C>>)
    requires
        start.starts(),
        start.accepts(events),
        start.max_reconnect_attempts is None,
    ensures
        !(start.after(events).pending matches LinuxAction::Finish { result: Err(_) }),
{
    linux_gives_up_past_the_limit(start, events);
}

/// A task sleeps exactly after a failure at which it does not give up. It sleeps for a second after
/// the first failure since the last connection, and for twice as long after each further one, up to
/// half a minute. Only after a lost connection it announces the next attempt, by its number and
/// with the time that it sleeps.
pub proof fn linux_sleeps_after_failures<C>(start: LinuxTask<C>, events: Seq<LinuxEvent<C>>)
    requires
        start.starts(),
        start.accepts(events),
        events.len() > 0,
    ensures
        start.after(events).pending is Sleep <==> events.last().failure() is Some && !(
        start.after(events).pending is Finish),
        start.after(events).pending matches LinuxAction::Sleep { secs, notice } ==> {
            &&& failures_in_a_row(events) > 0
            &&& secs == crate::backoff::delay_after((failures_in_a_row(events) - 1) as nat)
            &&& notice is Some <==> events.last() is Disconnected
            &&& notice matches Some(n) ==> n.waiting_secs == secs && n.attempt
                == start.after(events).backoff.attempts + 1
        },
{
    linux_backoff_follows_failures(start, events);
    linux_backoff_follows_failures(start, events.drop_last());
}

/// No attempt is made before it is known that this process is not shutting down, and after every
/// sleep that is found out anew.
pub proof fn linux_checks_for_shutdown_first<C>(task: LinuxTask<C>, event: LinuxEvent<C>)
    requires
        event.answers(task.pending),
    ensures
        task.next(event).pending is Bind <==> event is Running,
        event is Running ==> task.pending is CheckShutdown,
        task.pending is Sleep ==> task.next(event).pending is CheckShutdown,
        event is ShuttingDown ==> task.next(event).pending == (LinuxAction::Finish {
            result: Ok(()),
        }),
{
}

/// A task returns without an error exactly when this process is shutting down or forwarding ended
/// normally; and once it returns, nothing more happens.
pub proof fn linux_returns_at_shutdown_or_end<C>(task: LinuxTask<C>, event: LinuxEvent<C>)
    requires
        event.answers(task.pending),
    ensures
        task.next(event).pending == (LinuxAction::Finish { result: Ok(()) })
            <==> event is ShuttingDown || event is Ended,
        !(task.pending is Finish),
{
}

/// The address that a task connects to is the one that the redirector which it just started gave.
pub proof fn linux_connects_to_the_given_address<C>(task: LinuxTask<C>, event: LinuxEvent<C>, address: String)
    requires
        event.answers(task.pending),
    ensures
        task.next(event).pending == (LinuxAction::Connect { address })
            <==> event == (LinuxEvent::<C>::Started { address }),
{
}

/// The attempt counter has room for every event, unless the limit is the largest number that it
/// can hold.
pub proof fn linux_counter_has_room<C>(task: LinuxTask<C>, event: LinuxEvent<C>)
    requires
        task.valid(),
        event.answers(task.pending),
        task.max_reconnect_attempts != Some(u32::MAX),
    ensures
        task.room_for(event),
{
}

/// With a limit, a task that never gets a connection returns after a bounded number of operations:
/// at most five for each failure, one more of which may happen than is allowed.
pub proof fn linux_ends_without_a_connection<C>(start: LinuxTask<C>, events: Seq<LinuxEvent<C>>)
    requires
        start.starts(),
        start.accepts(events),
        start.max_reconnect_attempts is Some,
        forall|i: int| 0 <= i < events.len() ==> !(#[trigger] events[i] is Connected),
    ensures
        events.len() <= 5 * (start.max_reconnect_attempts->0 + 1),
{
    linux_gives_up_past_the_limit(start, events);
    lemma_operations_per_failure(start, events);
}

/// How many operations are done, at most, beyond five for each failure.
spec fn progress(action: LinuxAction) -> int {
    match action {
        LinuxAction::StartNetwork => 0,
        LinuxAction::CheckShutdown => 1,
        LinuxAction::Bind => 2,
        LinuxAction::StartRedirector => 3,
        LinuxAction::Connect { .. } => 4,
        LinuxAction::Forward => 5,
        LinuxAction::Sleep { .. } => 0,
        LinuxAction::Finish { result: Ok(()) } => 2,
        LinuxAction::Finish { result: Err(_) } => 0,
    }
}

proof fn lemma_operations_per_failure<C>(start: LinuxTask<C>, events: Seq<LinuxEvent<C>>)
    requires
        start.starts(),
        start.accepts(events),
        forall|i: int| 0 <= i < events.len() ==> !(#[trigger] events[i] is Connected),
    ensures
        events.len() <= 5 * failures_in_a_row(events) + progress(start.after(events).pending),
        !(start.after(events).pending is Forward),
    decreases events.len(),
{
    if events.len() > 0 {
        let before = events.drop_last();
        assert forall|i: int| 0 <= i < before.len() implies !(#[trigger] before[i] is Connected) by {
            assert(before[i] == events[i]);
        }
        assert(!(events[events.len() - 1] is Connected));
        lemma_operations_per_failure(start, before);
    }
}

/// The network layer is started once, before anything else, so there is one for all connections.
pub proof fn linux_network_starts_once_and_first<C>(start: LinuxTask<C>, events: Seq<LinuxEvent<C>>)
    requires
        start.starts(),
        start.accepts(events),
    ensures
        start.after(events).pending is StartNetwork <==> events.len() == 0,
        forall|i: int| 0 <= i < events.len() ==> (#[trigger] events[i] is NetworkStarted <==> i == 0),
    decreases events.len(),
{
    if events.len() > 0 {
        let before = events.drop_last();
        linux_network_starts_once_and_first(start, before);
        assert forall|i: int| 0 <= i < events.len() implies (#[trigger] events[i] is NetworkStarted
            <==> i == 0) by {
            if i < before.len() {
                assert(before[i] == events[i]);
            }
        }
    }
}

/// The interception configuration survives reconnecting: it is the one that the last forwarding
/// handed back, or the first one if there was none yet.
pub proof fn linux_conf_survives_reconnects<C>(
    start: LinuxTask<C>,
    events: Seq<LinuxEvent<C>>,
    last: int,
)
    requires
        -1 <= last < events.len(),
        last >= 0 ==> events[last].conf() is Some,
        forall|i: int| last < i < events.len() ==> (#[trigger] events[i]).conf() is None,
    ensures
        last >= 0 ==> events[last].conf() == Some(start.after(events).intercept_conf),
        last == -1 ==> start.after(events).intercept_conf == start.intercept_conf,
    decreases events.len(),
{
    if events.len() > 0 && last < events.len() - 1 {
        assert(events[events.len() - 1].conf() is None);
        linux_conf_survives_reconnects(start, events.drop_last(), last);
    }
}

/// Raising or lifting the limit never turns a success into a failure, and changes nothing of what a
/// task does until it gives up: it takes the same events, does the same, and sleeps as long. Only
/// an announcement numbers the next attempt otherwise when the limit is lifted, for then nothing is
/// counted.
pub proof fn linux_higher_limit_changes_no_success<C>(
    start: LinuxTask<C>,
    higher: LinuxTask<C>,
    events: Seq<LinuxEvent<C>>,
)
    requires
        start.starts(),
        start.accepts(events),
        higher == (LinuxTask { max_reconnect_attempts: higher.max_reconnect_attempts, ..start }),
        crate::backoff::allows_as_many(
            start.max_reconnect_attempts,
            higher.max_reconnect_attempts,
        ),
        !(start.after(events).pending matches LinuxAction::Finish { result: Err(_) }),
    ensures
        higher.accepts(events),
        start.after(events).pending.same_but_number(higher.after(events).pending),
        start.after(events).backoff.delay_secs == higher.after(events).backoff.delay_secs,
        start.after(events).intercept_conf == higher.after(events).intercept_conf,
        higher.max_reconnect_attempts is Some ==> higher.after(events) == (LinuxTask {
            max_reconnect_attempts: higher.max_reconnect_attempts,
            ..start.after(events)
        }),
    decreases events.len(),
{
    if events.len() > 0 {
        let before = events.drop_last();
        linux_higher_limit_changes_no_success(start, higher, before);
        linux_backoff_follows_failures(start, before);
        linux_backoff_follows_failures(higher, before);
        linux_backoff_follows_failures(start, events);
        linux_gives_up_past_the_limit(start, events);
    }
}

/// What happened before a connection leaves no trace: two runs that end in a connection which is
/// then lost leave a task in the same state, but for the interception configuration that each
/// handed back; and whatever happens further, the task does the same after both.
pub proof fn linux_connection_erases_the_past<C>(
    start: LinuxTask<C>,
    one: Seq<LinuxEvent<C>>,
    other: Seq<LinuxEvent<C>>,
    further: Seq<LinuxEvent<C>>,
)
    requires
        start.starts(),
        start.accepts(one + further),
        start.accepts(other),
        one.len() >= 2 && other.len() >= 2,
        one[one.len() - 2] is Connected && other[other.len() - 2] is Connected,
        one.last() is Disconnected && other.last() is Disconnected,
    ensures
        start.accepts(other + further),
        start.after(one + further).backoff == start.after(other + further).backoff,
        start.after(one + further).pending == start.after(other + further).pending,
        one.last() == other.last() ==> start.after(one + further) == start.after(other + further),
    decreases further.len(),
{
    if further.len() == 0 {
        assert(one + further =~= one);
        assert(other + further =~= other);
        linux_backoff_follows_failures(start, one.drop_last());
        linux_backoff_follows_failures(start, other.drop_last());
        assert(one.drop_last().last() is Connected);
        assert(other.drop_last().last() is Connected);
    } else {
        let before = further.drop_last();
        assert((one + further).drop_last() =~= one + before);
        assert((other + further).drop_last() =~= other + before);
        assert((one + further).last() == further.last());
        assert((other + further).last() == further.last());
        linux_connection_erases_the_past(start, one, other, before);
        linux_backoff_follows_failures(start, one + before);
        linux_backoff_follows_failures(start, other + before);
    }
}

/// An attempt goes in order, each operation only if the one before succeeded: the check for
/// shutdown, the bind, the start of the redirector, the connection to the address which that start
/// gave, and the forwarding.
pub proof fn linux_attempt_goes_in_order<C>(start: LinuxTask<C>, events: Seq<LinuxEvent<C>>)
    requires
        start.starts(),
        start.accepts(events),
    ensures
        start.after(events).pending is Bind <==> events.len() > 1 && events.last() is Running,
        start.after(events).pending is StartRedirector <==> events.len() > 2 && events[events.len()
            - 2] is Running && events.last() is Bound,
        forall|address: String|
            start.after(events).pending == (LinuxAction::Connect { address }) <==> events.len() > 3
                && events[events.len() - 3] is Running && events[events.len() - 2] is Bound
                && events.last() == (LinuxEvent::<C>::Started { address }),
        start.after(events).pending is Forward <==> events.len() > 4 && events[events.len() - 4]
            is Running && events[events.len() - 3] is Bound && events[events.len() - 2] is Started
            && events.last() is Connected,
    decreases events.len(),
{
    if events.len() > 0 {
        linux_attempt_goes_in_order(start, events.drop_last());
        if let LinuxAction::Connect { address } = start.after(events.drop_last()).pending {
            assert(events.drop_last().last() == (LinuxEvent::<C>::Started { address }));
        }
        linux_network_starts_once_and_first(start, events);
        linux_network_starts_once_and_first(start, events.drop_last());
    }
}

/// In every attempt the socket is bound in the directory that the task started with, and the
/// redirector is run from the executable that the task started with and told that directory.
pub proof fn linux_paths_never_change<C>(start: LinuxTask<C>, events: Seq<LinuxEvent<C>>)
    requires
        start.starts(),
        start.accepts(events),
    ensures
        start.after(events).datagram_dir == start.datagram_dir,
        crate::startup::redirector_arguments(
            &start.after(events).executable_path,
            &start.after(events).datagram_dir,
        ) == crate::startup::redirector_arguments(&start.executable_path, &start.datagram_dir),
{
    linux_backoff_follows_failures(start, events);
}

impl LinuxConf {
    /// The name of the packet source.
    pub fn name(&self) -> (s: &'static str)
        ensures
            s@ == "Linux proxy"@,
    {
        "Linux proxy"
    }

    /// Makes the task, which has yet to do its first action, with the interception configuration to
    /// begin with. It fails exactly when no directory could be made for it.
    pub fn build<C>(self, datagram_dir: Option<PathBuf>, intercept_conf: C) -> (r: Result<
        LinuxTask<C>,
        LinuxBuildError,
    >)
        ensures
            r is Err <==> datagram_dir is None,
            r matches Err(e) ==> e == LinuxBuildError::NoDirectory,
            r matches Ok(task) ==> {
                &&& task.valid()
                &&& task.starts()
                &&& task.backoff.delay_secs == 1 && task.backoff.attempts == 0
                &&& task.pending is StartNetwork
                &&& task.datagram_dir == datagram_dir->0
                &&& task.executable_path == self.executable_path
                &&& task.max_reconnect_attempts == self.max_reconnect_attempts
                &&& task.intercept_conf == intercept_conf
            },
    {
        match datagram_dir {
            Some(datagram_dir) => Ok(
                LinuxTask {
                    datagram_dir,
                    executable_path: self.executable_path,
                    max_reconnect_attempts: self.max_reconnect_attempts,
                    backoff: Backoff::new(),
                    intercept_conf,
                    pending: LinuxAction::StartNetwork,
                },
            ),
            None => Err(LinuxBuildError::NoDirectory),
        }
    }
}

impl LinuxBuildError {
    /// The wording of the error.
    pub open spec fn text(self) -> Seq<char> {
        "failed to create temp dir"@
    }

    /// Words the error.
    pub fn message(&self) -> (s: &'static str)
        ensures
            s@ == self.text(),
    {
        "failed to create temp dir"
    }
}

impl LinuxError {
    /// The wording of the error.
    pub open spec fn text(self) -> Seq<char> {
        let what = match self.failure {
            LinuxFailure::Bind => "Failed to bind Unix datagram socket after "@,
            LinuxFailure::Start => "Failed to start Linux redirector after "@,
            LinuxFailure::Connect => "Failed to connect to Linux redirector after "@,
            LinuxFailure::Forward => "Failed to reconnect to Linux redirector after "@,
        };
        what + crate::text::decimal(self.attempts as nat) + " attempts"@
    }

    /// Words the error.
    pub fn message(&self) -> (s: String)
        ensures
            s@ == self.text(),
    {
        let what = match self.failure {
            LinuxFailure::Bind => "Failed to bind Unix datagram socket after ",
            LinuxFailure::Start => "Failed to start Linux redirector after ",
            LinuxFailure::Connect => "Failed to connect to Linux redirector after ",
            LinuxFailure::Forward => "Failed to reconnect to Linux redirector after ",
        };
        what.to_owned().concat(decimal_string(self.attempts as u64).as_str()).concat(" attempts")
    }
}

} // verus!
