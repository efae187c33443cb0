//! The broker: what it takes to turn the description of a remote tool source
//! into a live session.
//!
//! The broker decides and its driver acts. A run asks for the subprocess to
//! be started, then for the handshake, and ends with a session or with an
//! error. Whenever a run fails after the subprocess was spawned, it asks for
//! the subprocess to be terminated before it reports the failure: a run
//! never leaves a half-built session behind.

use crate::env::EnvMap;
use crate::system::CapabilitySet;
use vstd::prelude::*;

verus! {

/// A remote tool source that runs as a subprocess of this one: the command,
/// its arguments and environment, and how long a request may take.
#[derive(Debug, PartialEq, Eq)]
pub struct Local {
    cmd: String,
    args: Vec<String>,
    envs: EnvMap,
    timeout_ms: u64,
}

/// The mathematical value of a [`Local`].
pub ghost struct LocalView {
    pub cmd: Seq<char>,
    pub args: Seq<Seq<char>>,
    pub envs: Seq<(Seq<char>, Seq<char>)>,
    pub timeout_ms: u64,
}

impl View for Local {
    type V = LocalView;

    closed spec fn view(&self) -> LocalView {
        LocalView {
            cmd: self.cmd@,
            args: self.args.deep_view(),
            envs: self.envs@,
            timeout_ms: self.timeout_ms,
        }
    }
}

/// Who is calling: sent along with the handshake.
#[derive(Debug, PartialEq, Eq)]
pub struct ClientInfo {
    pub name: String,
    pub version: String,
}

/// One thing that the broker asks its driver to do.
#[derive(Debug, PartialEq, Eq)]
pub enum BrokerAction {
    /// Spawn the command, without a shell, and open the channel over its
    /// standard input and output.
    Start { command: String, args: Vec<String>, envs: EnvMap },
    /// Send the handshake over the channel and wait for the reply, for at
    /// most `timeout_ms` milliseconds; the same limit holds for every later
    /// request of the session.
    Initialize { timeout_ms: u64, name: String, version: String, capabilities: CapabilitySet },
    /// Terminate the subprocess and close the channel.
    Terminate,
}

/// The mathematical value of a [`BrokerAction`].
pub ghost enum BrokerActionView {
    Start { command: Seq<char>, args: Seq<Seq<char>>, envs: Seq<(Seq<char>, Seq<char>)> },
    Initialize { timeout_ms: u64, name: Seq<char>, version: Seq<char>, capabilities: CapabilitySet },
    Terminate,
}

impl View for BrokerAction {
    type V = BrokerActionView;

    open spec fn view(&self) -> BrokerActionView {
        match self {
            BrokerAction::Start { command, args, envs } => BrokerActionView::Start {
                command: command@,
                args: args.deep_view(),
                envs: envs@,
            },
            BrokerAction::Initialize {
                timeout_ms,
                name,
                version,
                capabilities,
            } => BrokerActionView::Initialize {
                timeout_ms: *timeout_ms,
                name: name@,
                version: version@,
                capabilities: *capabilities,
            },
            BrokerAction::Terminate => BrokerActionView::Terminate,
        }
    }
}

/// What the driver reports back.
#[derive(Debug, PartialEq, Eq)]
pub enum BrokerEvent {
    /// The subprocess runs and the channel is open.
    Started,
    /// The command could not be spawned; carries the cause.
    SpawnFailed(String),
    /// The subprocess was spawned, but the channel could not be opened;
    /// carries the cause.
    StartFailed(String),
    /// The handshake is complete; carries what the remote side supports.
    Initialized(CapabilitySet),
    /// The remote side answered the handshake with an error, or the channel
    /// broke; carries the cause.
    InitializeFailed(String),
    /// No reply to the handshake came in time.
    TimedOut,
    /// The subprocess is gone.
    Terminated,
}

/// The mathematical value of a [`BrokerEvent`].
pub ghost enum BrokerEventView {
    Started,
    SpawnFailed(Seq<char>),
    StartFailed(Seq<char>),
    Initialized(CapabilitySet),
    InitializeFailed(Seq<char>),
    TimedOut,
    Terminated,
}

impl View for BrokerEvent {
    type V = BrokerEventView;

    open spec fn view(&self) -> BrokerEventView {
        match self {
            BrokerEvent::Started => BrokerEventView::Started,
            BrokerEvent::SpawnFailed(cause) => BrokerEventView::SpawnFailed(cause@),
            BrokerEvent::StartFailed(cause) => BrokerEventView::StartFailed(cause@),
            BrokerEvent::Initialized(remote) => BrokerEventView::Initialized(*remote),
            BrokerEvent::InitializeFailed(cause) => BrokerEventView::InitializeFailed(cause@),
            BrokerEvent::TimedOut => BrokerEventView::TimedOut,
            BrokerEvent::Terminated => BrokerEventView::Terminated,
        }
    }
}

/// How far a run has come.
#[derive(Debug, Clone, Copy, PartialEq, Eq, Structural)]
pub enum Phase {
    /// The subprocess is being started.
    Starting,
    /// The subprocess runs; the handshake is under way.
    Handshaking,
    /// The run has failed; the subprocess is being terminated.
    Closing,
}

/// A run in progress.
#[derive(Debug, PartialEq, Eq)]
pub struct Handshake {
    pub phase: Phase,
    pub timeout_ms: u64,
    pub name: String,
    pub version: String,
    pub capabilities: CapabilitySet,
    /// Why the run failed, once it has.
    pub cause: String,
}

/// The mathematical value of a [`Handshake`].
pub ghost struct HandshakeView {
    pub phase: Phase,
    pub timeout_ms: u64,
    pub name: Seq<char>,
    pub version: Seq<char>,
    pub capabilities: CapabilitySet,
    pub cause: Seq<char>,
}

impl View for Handshake {
    type V = HandshakeView;

    open spec fn view(&self) -> HandshakeView {
        HandshakeView {
            phase: self.phase,
            timeout_ms: self.timeout_ms,
            name: self.name@,
            version: self.version@,
            capabilities: self.capabilities,
            cause: self.cause@,
        }
    }
}

/// A live session: the handshake is complete and the remote side has said
/// what it supports.
#[derive(Debug, Clone, Copy, PartialEq, Eq, Structural)]
pub struct ClientSession {
    /// What the remote side supports.
    pub remote: CapabilitySet,
    /// The limit for each request of the session, in milliseconds.
    pub timeout_ms: u64,
}

/// Why a run failed.
#[derive(Debug, PartialEq, Eq)]
pub struct IoError {
    pub cause: String,
}

/// What a run asks of its driver next.
#[derive(Debug, PartialEq, Eq)]
pub enum BrokerStep {
    /// Perform the action, then go on with what it led to.
    Perform(BrokerAction, Handshake),
    /// The run succeeded.
    Ready(ClientSession),
    /// The run failed. No subprocess of it is left.
    Failed(IoError),
}

/// The mathematical value of a [`BrokerStep`].
pub ghost enum BrokerStepView {
    Perform(BrokerActionView, HandshakeView),
    Ready(ClientSession),
    Failed(Seq<char>),
}

impl View for BrokerStep {
    type V = BrokerStepView;

    open spec fn view(&self) -> BrokerStepView {
        match self {
            BrokerStep::Perform(action, run) => BrokerStepView::Perform(action@, run@),
            BrokerStep::Ready(session) => BrokerStepView::Ready(*session),
            BrokerStep::Failed(error) => BrokerStepView::Failed(error.cause@),
        }
    }
}

/// The cause that is reported when no reply to the handshake came in time.
pub open spec fn handshake_timed_out() -> Seq<char> {
    "the handshake timed out"@
}

/// The cause that is reported when the driver reports what cannot happen in
/// the phase the run is in.
pub open spec fn out_of_turn() -> Seq<char> {
    "the driver reported an event out of turn"@
}

/// The run after a failure: the subprocess is to be terminated, and the
/// cause is kept for the report.
pub open spec fn closing(run: HandshakeView, cause: Seq<char>) -> BrokerStepView {
    BrokerStepView::Perform(
        BrokerActionView::Terminate,
        HandshakeView { phase: Phase::Closing, cause, ..run },
    )
}

/// How a run goes on after an event.
///
/// While the subprocess is being started, a command that cannot be spawned
/// ends the run at once; nothing was spawned, so nothing is terminated. From
/// then on every failure leads to termination first and to the report after
/// it. A run succeeds only by a completed handshake.
pub open spec fn spec_step(run: HandshakeView, event: BrokerEventView) -> BrokerStepView {
    match (run.phase, event) {
        (Phase::Starting, BrokerEventView::Started) => BrokerStepView::Perform(
            BrokerActionView::Initialize {
                timeout_ms: run.timeout_ms,
                name: run.name,
                version: run.version,
                capabilities: run.capabilities,
            },
            HandshakeView { phase: Phase::Handshaking, ..run },
        ),
        (Phase::Starting, BrokerEventView::SpawnFailed(cause)) => BrokerStepView::Failed(cause),
        (Phase::Starting, BrokerEventView::StartFailed(cause)) => closing(run, cause),
        (Phase::Starting, _) => closing(run, out_of_turn()),
        (Phase::Handshaking, BrokerEventView::Initialized(remote)) => BrokerStepView::Ready(
            ClientSession { remote, timeout_ms: run.timeout_ms },
        ),
        (Phase::Handshaking, BrokerEventView::InitializeFailed(cause)) => closing(run, cause),
        (Phase::Handshaking, BrokerEventView::TimedOut) => closing(run, handshake_timed_out()),
        (Phase::Handshaking, _) => closing(run, out_of_turn()),
        (Phase::Closing, _) => BrokerStepView::Failed(run.cause),
    }
}

/// How many more actions a run in the given phase can ask for, at most.
pub open spec fn actions_left(phase: Phase) -> nat {
    match phase {
        Phase::Starting => 2,
        Phase::Handshaking => 1,
        Phase::Closing => 0,
    }
}

impl Local {
    /// Describes a remote tool source.
    pub fn new(cmd: String, args: Vec<String>, envs: EnvMap, timeout_ms: u64) -> (entry: Local)
        ensures
            entry@ == (LocalView {
                cmd: cmd@,
                args: args.deep_view(),
                envs: envs@,
                timeout_ms,
            }),
    {
        Local { cmd, args, envs, timeout_ms }
    }

    /// Begins a run: asks for the command to be spawned with exactly the
    /// given arguments and environment, and remembers what the handshake
    /// will carry.
    pub fn run(self, client_info: ClientInfo, local_capabilities: CapabilitySet) -> (step:
        BrokerStep)
        ensures
            step@ == BrokerStepView::Perform(
                BrokerActionView::Start {
                    command: self@.cmd,
                    args: self@.args,
                    envs: self@.envs,
                },
                HandshakeView {
                    phase: Phase::Starting,
                    timeout_ms: self@.timeout_ms,
                    name: client_info.name@,
                    version: client_info.version@,
                    capabilities: local_capabilities,
                    cause: Seq::<char>::empty(),
                },
            ),
    {
        BrokerStep::Perform(
            BrokerAction::Start { command: self.cmd, args: self.args, envs: self.envs },
            Handshake {
                phase: Phase::Starting,
                timeout_ms: self.timeout_ms,
                name: client_info.name,
                version: client_info.version,
                capabilities: local_capabilities,
                cause: String::new(),
            },
        )
    }
}

impl Handshake {
    fn close(self, cause: String) -> (step: BrokerStep)
        ensures
            step@ == closing(self@, cause@),
    {
        BrokerStep::Perform(
            BrokerAction::Terminate,
            Handshake {
                phase: Phase::Closing,
                timeout_ms: self.timeout_ms,
                name: self.name,
                version: self.version,
                capabilities: self.capabilities,
                cause,
            },
        )
    }

    /// Takes what the driver reports and says how the run goes on.
    ///
    /// A run that goes on is closer to its end than it was, a run fails only
    /// where no subprocess is left, and it succeeds only by a completed
    /// handshake.
    pub fn step(self, event: BrokerEvent) -> (step: BrokerStep)
        ensures
            step@ == spec_step(self@, event@),
            step matches BrokerStep::Perform(_, next) ==> actions_left(next.phase) < actions_left(
                self.phase,
            ),
            step is Failed ==> self.phase == Phase::Closing || event is SpawnFailed,
            step is Ready ==> self.phase == Phase::Handshaking && event is Initialized,
    {
        match self.phase {
            Phase::Starting => match event {
                BrokerEvent::Started => BrokerStep::Perform(
                    BrokerAction::Initialize {
                        timeout_ms: self.timeout_ms,
                        name: self.name.clone(),
                        version: self.version.clone(),
                        capabilities: self.capabilities,
                    },
                    Handshake {
                        phase: Phase::Handshaking,
                        timeout_ms: self.timeout_ms,
                        name: self.name,
                        version: self.version,
                        capabilities: self.capabilities,
                        cause: self.cause,
                    },
                ),
                BrokerEvent::SpawnFailed(cause) => BrokerStep::Failed(IoError { cause }),
                BrokerEvent::StartFailed(cause) => self.close(cause),
                _ => self.close(String::from_str("the driver reported an event out of turn")),
            },
            Phase::Handshaking => match event {
                BrokerEvent::Initialized(remote) => BrokerStep::Ready(
                    ClientSession { remote, timeout_ms: self.timeout_ms },
                ),
                BrokerEvent::InitializeFailed(cause) => self.close(cause),
                BrokerEvent::TimedOut => self.close(String::from_str("the handshake timed out")),
                _ => self.close(String::from_str("the driver reported an event out of turn")),
            },
            Phase::Closing => BrokerStep::Failed(IoError { cause: self.cause }),
        }
    }
}

/// The actions that a run asks for, in order, and how it ends, if it does,
/// when the driver reports `events` one after the other.
pub open spec fn trace(run: HandshakeView, events: Seq<BrokerEventView>) -> (
    Seq<BrokerActionView>,
    Option<Result<ClientSession, Seq<char>>>,
)
    decreases events.len(),
{
    if events.len() == 0 {
        (Seq::empty(), None)
    } else {
        match spec_step(run, events[0]) {
            BrokerStepView::Perform(action, next) => {
                let (actions, end) = trace(next, events.drop_first());
                (seq![action] + actions, end)
            },
            BrokerStepView::Ready(session) => (Seq::empty(), Some(Ok(session))),
            BrokerStepView::Failed(cause) => (Seq::empty(), Some(Err(cause))),
        }
    }
}

/// A run does not hang: whatever the driver reports, the third report at the
/// latest ends it.
pub proof fn lemma_run_ends(run: HandshakeView, events: Seq<BrokerEventView>)
    requires
        events.len() > actions_left(run.phase),
    ensures
        trace(run, events).1.is_some(),
        trace(run, events).0.len() <= actions_left(run.phase),
    decreases events.len(),
{
    match spec_step(run, events[0]) {
        BrokerStepView::Perform(action, next) => {
            lemma_run_ends(next, events.drop_first());
        },
        _ => {},
    }
}

/// A command that cannot be spawned fails the run at once, with the cause,
/// and nothing more is asked of the driver.
pub proof fn lemma_spawn_failure(run: HandshakeView, cause: Seq<char>, rest: Seq<BrokerEventView>)
    requires
        run.phase == Phase::Starting,
    ensures
        trace(run, seq![BrokerEventView::SpawnFailed(cause)] + rest) == (
            Seq::<BrokerActionView>::empty(),
            Some(Err::<ClientSession, Seq<char>>(cause)),
        ),
{
}

/// A handshake that gets no reply in time fails the run: the handshake was
/// asked for with the configured limit, the subprocess is terminated, and
/// the failure is reported after that.
pub proof fn lemma_handshake_timeout(run: HandshakeView, last: BrokerEventView)
    requires
        run.phase == Phase::Starting,
    ensures
        trace(run, seq![BrokerEventView::Started, BrokerEventView::TimedOut, last]) == (
            seq![
                BrokerActionView::Initialize {
                    timeout_ms: run.timeout_ms,
                    name: run.name,
                    version: run.version,
                    capabilities: run.capabilities,
                },
                BrokerActionView::Terminate,
            ],
            Some(Err::<ClientSession, Seq<char>>(handshake_timed_out())),
        ),
{
    reveal_with_fuel(trace, 4);
    let events = seq![BrokerEventView::Started, BrokerEventView::TimedOut, last];
    let one = events.drop_first();
    let two = one.drop_first();
    assert(two.drop_first().len() == 0);
    assert(trace(run, events).0 =~= seq![
        BrokerActionView::Initialize {
            timeout_ms: run.timeout_ms,
            name: run.name,
            version: run.version,
            capabilities: run.capabilities,
        },
        BrokerActionView::Terminate,
    ]);
}

/// No subprocess is left behind: a run that fails once its command was
/// spawned has asked for the subprocess to be terminated, as the last thing
/// before the failure.
pub proof fn lemma_failure_terminates(run: HandshakeView, events: Seq<BrokerEventView>)
    requires
        run.phase != Phase::Closing,
        events.len() > 0,
        !(events[0] is SpawnFailed && run.phase == Phase::Starting),
        trace(run, events).1 matches Some(Err(_)),
    ensures
        trace(run, events).0.len() > 0,
        trace(run, events).0.last() == BrokerActionView::Terminate,
    decreases events.len(),
{
    match spec_step(run, events[0]) {
        BrokerStepView::Perform(action, next) => {
            let rest = events.drop_first();
            let (actions, end) = trace(next, rest);
            assert(trace(run, events).0 == seq![action] + actions);
            if next.phase == Phase::Closing {
                assert(action == BrokerActionView::Terminate);
                if rest.len() > 0 {
                    assert(actions.len() == 0);
                }
                assert(actions.len() == 0);
                assert(seq![action] + actions =~= seq![action]);
            } else {
                assert(rest.len() > 0);
                lemma_failure_terminates(next, rest);
                assert((seq![action] + actions).last() == actions.last());
            }
        },
        _ => {},
    }
}

/// A run succeeds only by a completed handshake: the subprocess was started,
/// the handshake was asked for and answered, and the session holds what the
/// remote side declared. Termination was not asked for.
pub proof fn lemma_success_is_complete(run: HandshakeView, events: Seq<BrokerEventView>)
    requires
        run.phase == Phase::Starting,
        trace(run, events).1 matches Some(Ok(_)),
    ensures
        events.len() >= 2,
        events[0] == BrokerEventView::Started,
        events[1] matches BrokerEventView::Initialized(remote) && trace(run, events).1 == Some(
            Ok::<ClientSession, Seq<char>>(ClientSession { remote, timeout_ms: run.timeout_ms }),
        ),
        trace(run, events).0 == seq![
            BrokerActionView::Initialize {
                timeout_ms: run.timeout_ms,
                name: run.name,
                version: run.version,
                capabilities: run.capabilities,
            },
        ],
{
    reveal_with_fuel(trace, 4);
    if events.len() > 0 {
        let rest = events.drop_first();
        match spec_step(run, events[0]) {
            BrokerStepView::Perform(action, next) => {
                if rest.len() > 0 {
                    assert(rest[0] == events[1]);
                    match spec_step(next, rest[0]) {
                        BrokerStepView::Perform(second, after) => {
                            let tail = rest.drop_first();
                            if tail.len() > 0 {
                                assert(after.phase == Phase::Closing);
                            }
                        },
                        _ => {},
                    }
                    assert(trace(run, events).0 =~= seq![action]);
                }
            },
            _ => {},
        }
    }
}

} // verus!
