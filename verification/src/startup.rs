//! Starting the Linux redirector process with elevated privileges.

use vstd::prelude::*;

use std::path::PathBuf;

verus! {

/// How long to wait for the redirector's address, in seconds.
pub const ADDRESS_TIMEOUT_SECS: u64 = 5;

/// A command line argument.
pub enum Argument<'a> {
    Text(&'static str),
    Path(&'a PathBuf),
}

/// A process to run.
pub struct CommandLine<'a> {
    pub program: &'static str,
    pub arguments: Vec<Argument<'a>>,
    /// Whether the process gets no input and its outputs are captured.
    pub captured: bool,
}

/// Why the redirector could not be started.
#[derive(Clone, Copy, Debug, PartialEq, Eq, Structural)]
pub enum StartupError {
    SudoNotRun,
    NotElevated,
    NotLaunched,
    TimedOut,
    ReadFailed,
    NoOutput,
}

/// What to do next.
#[derive(Debug, PartialEq, Eq)]
pub enum StartupAction {
    /// Run the command that makes `sudo` ask for a password.
    RunSudo,
    /// Close that command's input and wait until it ends.
    AwaitSudo,
    /// Run the redirector, relay its standard error, and watch for its end.
    LaunchRedirector,
    /// Read the first line that the redirector prints, for so many seconds at most.
    ReadAddress { timeout_secs: u64 },
    /// Return: the redirector's address is what it printed.
    Finish { result: Result<String, StartupError> },
}

/// How the action went.
#[derive(Debug, PartialEq, Eq)]
pub enum StartupEvent {
    SudoRunning,
    SudoNotRun,
    /// The end of `sudo`; false as well if waiting for it failed.
    SudoEnded { success: bool },
    Launched,
    NotLaunched,
    Line { line: String },
    EndOfOutput,
    ReadFailed,
    TimedOut,
}

/// The start of a redirector process.
pub struct Startup {
    /// The action that is under way.
    pub pending: StartupAction,
}

impl StartupEvent {
    /// Whether this event says how `action` went.
    pub open spec fn answers(self, action: StartupAction) -> bool {
        match action {
            StartupAction::RunSudo => self is SudoRunning || self is SudoNotRun,
            StartupAction::AwaitSudo => self is SudoEnded,
            StartupAction::LaunchRedirector => self is Launched || self is NotLaunched,
            StartupAction::ReadAddress { .. } => self is Line || self is EndOfOutput
                || self is ReadFailed || self is TimedOut,
            StartupAction::Finish { .. } => false,
        }
    }
}

impl Startup {
    /// What to do after `event`.
    pub open spec fn after(event: StartupEvent) -> StartupAction {
        match event {
            StartupEvent::SudoRunning => StartupAction::AwaitSudo,
            StartupEvent::SudoNotRun => StartupAction::Finish {
                result: Err(StartupError::SudoNotRun),
            },
            StartupEvent::SudoEnded { success: true } => StartupAction::LaunchRedirector,
            StartupEvent::SudoEnded { success: false } => StartupAction::Finish {
                result: Err(StartupError::NotElevated),
            },
            StartupEvent::Launched => StartupAction::ReadAddress {
                timeout_secs: ADDRESS_TIMEOUT_SECS,
            },
            StartupEvent::NotLaunched => StartupAction::Finish {
                result: Err(StartupError::NotLaunched),
            },
            StartupEvent::Line { line } => StartupAction::Finish { result: Ok(line) },
            StartupEvent::EndOfOutput => StartupAction::Finish {
                result: Err(StartupError::NoOutput),
            },
            StartupEvent::ReadFailed => StartupAction::Finish {
                result: Err(StartupError::ReadFailed),
            },
            StartupEvent::TimedOut => StartupAction::Finish {
                result: Err(StartupError::TimedOut),
            },
        }
    }

    /// The action under way after a run of events.
    pub open spec fn after_run(events: Seq<StartupEvent>) -> StartupAction {
        if events.len() == 0 {
            StartupAction::RunSudo
        } else {
            Startup::after(events.last())
        }
    }

    /// Whether this can be the run of events of a start: each says how the action that is then
    /// under way went.
    pub open spec fn accepts(events: Seq<StartupEvent>) -> bool
        decreases events.len(),
    {
        events.len() > 0 ==> {
            &&& Startup::accepts(events.drop_last())
            &&& events.last().answers(Startup::after_run(events.drop_last()))
        }
    }

    /// Begins.
    pub fn new() -> (s: Startup)
        ensures
            s.pending is RunSudo,
    {
        Startup { pending: StartupAction::RunSudo }
    }

    /// Takes in how the action under way went, and decides what to do next.
    pub fn step(&mut self, event: StartupEvent)
        requires
            event.answers(old(self).pending),
        ensures
            final(self).pending == Startup::after(event),
    {
        self.pending = match event {
            StartupEvent::SudoRunning => StartupAction::AwaitSudo,
            StartupEvent::SudoEnded { success } if success => StartupAction::LaunchRedirector,
            StartupEvent::Launched => StartupAction::ReadAddress {
                timeout_secs: ADDRESS_TIMEOUT_SECS,
            },
            StartupEvent::Line { line } => StartupAction::Finish { result: Ok(line) },
            StartupEvent::SudoNotRun => StartupAction::Finish {
                result: Err(StartupError::SudoNotRun),
            },
            StartupEvent::SudoEnded { .. } => StartupAction::Finish {
                result: Err(StartupError::NotElevated),
            },
            StartupEvent::NotLaunched => StartupAction::Finish {
                result: Err(StartupError::NotLaunched),
            },
            StartupEvent::EndOfOutput => StartupAction::Finish {
                result: Err(StartupError::NoOutput),
            },
            StartupEvent::ReadFailed => StartupAction::Finish {
                result: Err(StartupError::ReadFailed),
            },
            StartupEvent::TimedOut => StartupAction::Finish {
                result: Err(StartupError::TimedOut),
            },
        };
    }
}

/// Which outcomes each action can have.
pub proof fn startup_actions_have_their_outcomes(event: StartupEvent, timeout_secs: u64)
    ensures
        event.answers(StartupAction::RunSudo) <==> event is SudoRunning || event is SudoNotRun,
        event.answers(StartupAction::AwaitSudo) <==> event is SudoEnded,
        event.answers(StartupAction::LaunchRedirector) <==> event is Launched || event is NotLaunched,
        event.answers(StartupAction::ReadAddress { timeout_secs }) <==> event is Line || event
            is EndOfOutput || event is ReadFailed || event is TimedOut,
{
}

/// Each success leads to the next step, the last of which waits five seconds for the address, and
/// each failure ends the start with the error for it.
pub proof fn startup_moves_on_or_ends(event: StartupEvent)
    ensures
        event is SudoRunning ==> Startup::after(event) is AwaitSudo,
        event is SudoNotRun ==> Startup::after(event) == (StartupAction::Finish {
            result: Err(StartupError::SudoNotRun),
        }),
        event matches StartupEvent::SudoEnded { success } && success ==> Startup::after(event)
            is LaunchRedirector,
        event matches StartupEvent::SudoEnded { success } && !success ==> Startup::after(event) == (
        StartupAction::Finish { result: Err(StartupError::NotElevated) }),
        event is Launched ==> Startup::after(event) == (StartupAction::ReadAddress {
            timeout_secs: 5,
        }),
        event is NotLaunched ==> Startup::after(event) == (StartupAction::Finish {
            result: Err(StartupError::NotLaunched),
        }),
        event matches StartupEvent::Line { line } ==> Startup::after(event) == (
        StartupAction::Finish { result: Ok(line) }),
        event is EndOfOutput ==> Startup::after(event) == (StartupAction::Finish {
            result: Err(StartupError::NoOutput),
        }),
        event is ReadFailed ==> Startup::after(event) == (StartupAction::Finish {
            result: Err(StartupError::ReadFailed),
        }),
        event is TimedOut ==> Startup::after(event) == (StartupAction::Finish {
            result: Err(StartupError::TimedOut),
        }),
{
}

/// The wording of each error.
pub proof fn startup_errors_have_their_wording(e: StartupError)
    ensures
        e is SudoNotRun ==> e.text() == "Failed to run sudo."@,
        e is NotElevated ==> e.text() == "Failed to elevate privileges"@,
        e is NotLaunched ==> e.text() == "Failed to launch mitmproxy-linux-redirector."@,
        e is TimedOut ==> e.text() == "failed to establish connection to Linux redirector"@,
        e is ReadFailed ==> e.text() == "failed to read redirector stdout"@,
        e is NoOutput ==> e.text() == "redirector did not produce stdout"@,
{
}

/// The redirector's arguments end with its executable and, after that, the place where this side
/// listens; before them stand the two options of `sudo`.
pub proof fn redirector_gets_executable_and_listener(executable: PathBuf, listener_addr: PathBuf)
    ensures
        redirector_arguments(&executable, &listener_addr).len() == 4,
        redirector_arguments(&executable, &listener_addr)[0] == Argument::Text("--non-interactive"),
        redirector_arguments(&executable, &listener_addr)[1] == Argument::Text("--preserve-env"),
        redirector_arguments(&executable, &listener_addr)[2] == Argument::Path(&executable),
        redirector_arguments(&executable, &listener_addr)[3] == Argument::Path(&listener_addr),
{
}

/// The redirector is launched exactly when `sudo` ended with success.
pub proof fn launch_needs_elevation(event: StartupEvent)
    ensures
        Startup::after(event) is LaunchRedirector <==> event == (StartupEvent::SudoEnded {
            success: true,
        }),
{
}

/// A start succeeds exactly when the redirector prints a line in time, and that line is its
/// address; and once it has succeeded or failed, nothing more happens.
pub proof fn startup_succeeds_with_the_first_line(
    startup: Startup,
    event: StartupEvent,
    address: String,
)
    requires
        event.answers(startup.pending),
    ensures
        Startup::after(event) == (StartupAction::Finish { result: Ok(address) }) <==> event == (
        StartupEvent::Line { line: address }),
        event is Line ==> startup.pending is ReadAddress,
        !(startup.pending is Finish),
{
}

/// A start returns an address only when `sudo` ran, it ended with success, the redirector was
/// launched, and it printed that address, in this order and with nothing else happening.
pub proof fn address_needs_every_step(events: Seq<StartupEvent>, address: String)
    requires
        Startup::accepts(events),
    ensures
        Startup::after_run(events) == (StartupAction::Finish { result: Ok(address) }) <==> events
            == seq![
            StartupEvent::SudoRunning,
            StartupEvent::SudoEnded { success: true },
            StartupEvent::Launched,
            StartupEvent::Line { line: address },
        ],
        events.len() <= 4,
{
    let run = seq![
        StartupEvent::SudoRunning,
        StartupEvent::SudoEnded { success: true },
        StartupEvent::Launched,
        StartupEvent::Line { line: address },
    ];
    if events.len() > 0 {
        lemma_events_before(events.drop_last());
        assert(events =~= events.drop_last().push(events.last()));
        assert(run.drop_last() =~= seq![
            StartupEvent::SudoRunning,
            StartupEvent::SudoEnded { success: true },
            StartupEvent::Launched,
        ]);
        assert(run =~= run.drop_last().push(run.last()));
    }
}

/// The action under way tells which events led to it.
proof fn lemma_events_before(events: Seq<StartupEvent>)
    requires
        Startup::accepts(events),
    ensures
        match Startup::after_run(events) {
            StartupAction::RunSudo => events.len() == 0,
            StartupAction::AwaitSudo => events == seq![StartupEvent::SudoRunning],
            StartupAction::LaunchRedirector => events == seq![
                StartupEvent::SudoRunning,
                StartupEvent::SudoEnded { success: true },
            ],
            StartupAction::ReadAddress { .. } => events == seq![
                StartupEvent::SudoRunning,
                StartupEvent::SudoEnded { success: true },
                StartupEvent::Launched,
            ],
            StartupAction::Finish { .. } => events.len() <= 4,
        },
    decreases events.len(),
{
    if events.len() > 0 {
        lemma_events_before(events.drop_last());
        assert(events =~= events.drop_last().push(events.last()));
    }
}

/// The command that gives the user time to enter their password: it does nothing under `sudo`,
/// on the terminal that this process has.
///
/// It relies on `sudo` being there, and on it remembering the password for a while.
pub fn elevation_command() -> (c: CommandLine<'static>)
    ensures
        c.program@ == "sudo"@,
        c.arguments@ == seq![Argument::Text("echo"), Argument::Text("-n")],
        !c.captured,
{
    CommandLine {
        program: "sudo",
        arguments: vec![Argument::Text("echo"), Argument::Text("-n")],
        captured: false,
    }
}

/// The redirector's own command line, as arguments of `sudo`: to ask for no password, to keep the
/// environment, the executable, and where this side listens.
pub open spec fn redirector_arguments<'a>(
    executable: &'a PathBuf,
    listener_addr: &'a PathBuf,
) -> Seq<Argument<'a>> {
    seq![
        Argument::Text("--non-interactive"),
        Argument::Text("--preserve-env"),
        Argument::Path(executable),
        Argument::Path(listener_addr),
    ]
}

/// The command that runs the redirector as the superuser, without asking for a password again, in
/// this process's environment, and tells it where this side listens.
pub fn redirector_command<'a>(executable: &'a PathBuf, listener_addr: &'a PathBuf) -> (c:
    CommandLine<'a>)
    ensures
        c.program@ == "sudo"@,
        c.arguments@ == redirector_arguments(executable, listener_addr),
        c.captured,
{
    CommandLine {
        program: "sudo",
        arguments: vec![
            Argument::Text("--non-interactive"),
            Argument::Text("--preserve-env"),
            Argument::Path(executable),
            Argument::Path(listener_addr),
        ],
        captured: true,
    }
}

impl StartupError {
    /// The wording of the error.
    pub open spec fn text(self) -> Seq<char> {
        match self {
            StartupError::SudoNotRun => "Failed to run sudo."@,
            StartupError::NotElevated => "Failed to elevate privileges"@,
            StartupError::NotLaunched => "Failed to launch mitmproxy-linux-redirector."@,
            StartupError::TimedOut => "failed to establish connection to Linux redirector"@,
            StartupError::ReadFailed => "failed to read redirector stdout"@,
            StartupError::NoOutput => "redirector did not produce stdout"@,
        }
    }

    /// Words the error.
    pub fn message(&self) -> (s: &'static str)
        ensures
            s@ == self.text(),
    {
        match self {
            StartupError::SudoNotRun => "Failed to run sudo.",
            StartupError::NotElevated => "Failed to elevate privileges",
            StartupError::NotLaunched => "Failed to launch mitmproxy-linux-redirector.",
            StartupError::TimedOut => "failed to establish connection to Linux redirector",
            StartupError::ReadFailed => "failed to read redirector stdout",
            StartupError::NoOutput => "redirector did not produce stdout",
        }
    }
}

} // verus!
