//! The connection lifecycle as a state machine. The main flow of a
//! connection is a linear sequence — connect, wait, send one greeting,
//! wait, send a close frame, join the read task — and every decision in it
//! is a pure function from the current phase and the outcome of the last
//! action to the next phase and the next action. The unverified driver only
//! performs the actions and feeds the outcomes back.

use vstd::prelude::*;
use crate::error::ClientError;

verus! {

/// Seconds the main flow waits after connecting, before the greeting.
pub const GREETING_DELAY_SECONDS: u64 = 1;

/// Seconds the connection is kept open after the greeting, before closing.
pub const LINGER_DELAY_SECONDS: u64 = 5;

/// The phases of one connection lifecycle, in the order the main flow
/// passes through them.
#[derive(Clone, Copy, Debug, PartialEq, Eq, Structural)]
pub enum Phase {
    /// Nothing has happened yet.
    Ready,
    /// The handshake was requested.
    Connecting,
    /// Connected; waiting before the greeting is sent.
    FirstDelay,
    /// The greeting frame was handed to the send half.
    Greeting,
    /// Keeping the connection open after the greeting.
    Lingering,
    /// The close frame was handed to the send half.
    Closing,
    /// Waiting for the read task to finish.
    Joining,
    /// The lifecycle completed successfully.
    Finished,
    /// The lifecycle stopped with an error.
    Failed,
}

/// The outcome of the previous action, fed back into the machine.
#[derive(Clone, Copy, Debug, PartialEq, Eq, Structural)]
pub enum Event {
    /// Start the lifecycle.
    Go,
    /// The handshake completed.
    ConnectOk,
    /// The handshake failed or the host was unreachable.
    ConnectFailed,
    /// A timed suspension elapsed.
    Elapsed,
    /// A frame was written successfully.
    SendOk,
    /// Writing a frame failed.
    SendFailed,
    /// The read task finished normally.
    JoinOk,
    /// The read task did not finish normally.
    JoinFailed,
}

/// What the driver must do next.
#[derive(Clone, Copy, Debug, PartialEq, Eq, Structural)]
pub enum Action {
    /// Report the attempt, perform the handshake, split the connection and
    /// spawn the read task.
    OpenConnection,
    /// Suspend for this many seconds.
    Delay(u64),
    /// Send the greeting text frame.
    SendGreeting,
    /// Send a close frame with no payload.
    SendClose,
    /// Join the read task.
    AwaitReader,
    /// Stop: the lifecycle succeeded.
    Succeed,
    /// Stop: the lifecycle failed with this error.
    Fail(ClientError),
}

/// One decision of the machine: the phase entered and the action to perform.
#[derive(Clone, Copy, Debug, PartialEq, Eq, Structural)]
pub struct Transition {
    /// The phase the lifecycle enters.
    pub phase: Phase,
    /// The action the driver performs next.
    pub action: Action,
}

/// The full transition table of the lifecycle. `valid` says whether the
/// client's endpoint is connectable (`endpoint_ok` of its string); it only
/// matters at the start. Pairs of phase and event that the linear flow can
/// never produce have no transition.
pub open spec fn spec_step(valid: bool, phase: Phase, event: Event) -> Option<Transition> {
    match (phase, event) {
        (Phase::Ready, Event::Go) => Some(
            if valid {
                Transition { phase: Phase::Connecting, action: Action::OpenConnection }
            } else {
                Transition {
                    phase: Phase::Failed,
                    action: Action::Fail(ClientError::MalformedEndpoint),
                }
            },
        ),
        (Phase::Connecting, Event::ConnectOk) => Some(
            Transition { phase: Phase::FirstDelay, action: Action::Delay(GREETING_DELAY_SECONDS) },
        ),
        (Phase::Connecting, Event::ConnectFailed) => Some(
            Transition { phase: Phase::Failed, action: Action::Fail(ClientError::ConnectionError) },
        ),
        (Phase::FirstDelay, Event::Elapsed) => Some(
            Transition { phase: Phase::Greeting, action: Action::SendGreeting },
        ),
        (Phase::Greeting, Event::SendOk) => Some(
            Transition { phase: Phase::Lingering, action: Action::Delay(LINGER_DELAY_SECONDS) },
        ),
        (Phase::Greeting, Event::SendFailed) => Some(
            Transition { phase: Phase::Failed, action: Action::Fail(ClientError::SendError) },
        ),
        (Phase::Lingering, Event::Elapsed) => Some(
            Transition { phase: Phase::Closing, action: Action::SendClose },
        ),
        (Phase::Closing, Event::SendOk) => Some(
            Transition { phase: Phase::Joining, action: Action::AwaitReader },
        ),
        (Phase::Closing, Event::SendFailed) => Some(
            Transition { phase: Phase::Failed, action: Action::Fail(ClientError::SendError) },
        ),
        (Phase::Joining, Event::JoinOk) => Some(
            Transition { phase: Phase::Finished, action: Action::Succeed },
        ),
        (Phase::Joining, Event::JoinFailed) => Some(
            Transition { phase: Phase::Failed, action: Action::Fail(ClientError::JoinError) },
        ),
        _ => None,
    }
}

/// Compute one decision of the machine. Exactly the transition table
/// `spec_step`; `None` on a pair that the linear flow cannot produce.
pub fn transition(valid: bool, phase: Phase, event: Event) -> (r: Option<Transition>)
    ensures
        r == spec_step(valid, phase, event),
{
    match (phase, event) {
        (Phase::Ready, Event::Go) => Some(
            if valid {
                Transition { phase: Phase::Connecting, action: Action::OpenConnection }
            } else {
                Transition {
                    phase: Phase::Failed,
                    action: Action::Fail(ClientError::MalformedEndpoint),
                }
            },
        ),
        (Phase::Connecting, Event::ConnectOk) => Some(
            Transition { phase: Phase::FirstDelay, action: Action::Delay(GREETING_DELAY_SECONDS) },
        ),
        (Phase::Connecting, Event::ConnectFailed) => Some(
            Transition { phase: Phase::Failed, action: Action::Fail(ClientError::ConnectionError) },
        ),
        (Phase::FirstDelay, Event::Elapsed) => Some(
            Transition { phase: Phase::Greeting, action: Action::SendGreeting },
        ),
        (Phase::Greeting, Event::SendOk) => Some(
            Transition { phase: Phase::Lingering, action: Action::Delay(LINGER_DELAY_SECONDS) },
        ),
        (Phase::Greeting, Event::SendFailed) => Some(
            Transition { phase: Phase::Failed, action: Action::Fail(ClientError::SendError) },
        ),
        (Phase::Lingering, Event::Elapsed) => Some(
            Transition { phase: Phase::Closing, action: Action::SendClose },
        ),
        (Phase::Closing, Event::SendOk) => Some(
            Transition { phase: Phase::Joining, action: Action::AwaitReader },
        ),
        (Phase::Closing, Event::SendFailed) => Some(
            Transition { phase: Phase::Failed, action: Action::Fail(ClientError::SendError) },
        ),
        (Phase::Joining, Event::JoinOk) => Some(
            Transition { phase: Phase::Finished, action: Action::Succeed },
        ),
        (Phase::Joining, Event::JoinFailed) => Some(
            Transition { phase: Phase::Failed, action: Action::Fail(ClientError::JoinError) },
        ),
        _ => None,
    }
}

/// The actions a run of the machine performs, starting in `phase`, when the
/// driver feeds it `events[i]`, `events[i + 1]`, ... in order. The run stops
/// at the first event that has no transition, and at the end of the events.
pub open spec fn run_from(valid: bool, phase: Phase, events: Seq<Event>, i: int) -> Seq<Action>
    decreases events.len() - i,
{
    if i < 0 || i >= events.len() {
        Seq::<Action>::empty()
    } else {
        match spec_step(valid, phase, events[i]) {
            Some(t) => seq![t.action] + run_from(valid, t.phase, events, i + 1),
            None => Seq::<Action>::empty(),
        }
    }
}

/// The actions of one whole lifecycle driven by `events`, from the start.
pub open spec fn run(valid: bool, events: Seq<Event>) -> Seq<Action> {
    run_from(valid, Phase::Ready, events, 0)
}

/// The event sequence of a run in which every step succeeds.
pub open spec fn flawless_events() -> Seq<Event> {
    seq![
        Event::Go,
        Event::ConnectOk,
        Event::Elapsed,
        Event::SendOk,
        Event::Elapsed,
        Event::SendOk,
        Event::JoinOk,
    ]
}

/// The actions of a run in which every step succeeds, in order.
pub open spec fn flawless_actions() -> Seq<Action> {
    seq![
        Action::OpenConnection,
        Action::Delay(GREETING_DELAY_SECONDS),
        Action::SendGreeting,
        Action::Delay(LINGER_DELAY_SECONDS),
        Action::SendClose,
        Action::AwaitReader,
        Action::Succeed,
    ]
}

/// Once the lifecycle has finished or failed, no event produces any further
/// action: the machine halts.
pub proof fn lemma_halted(valid: bool, phase: Phase, events: Seq<Event>, i: int)
    requires
        phase == Phase::Finished || phase == Phase::Failed,
    ensures
        run_from(valid, phase, events, i) == Seq::<Action>::empty(),
{
    if 0 <= i < events.len() {
        assert(spec_step(valid, phase, events[i]) is None);
    }
}

/// On a connectable endpoint, a run in which every step succeeds performs,
/// in order: open the connection, wait, send the greeting, wait, send the
/// close frame, join the read task, and report success.
pub proof fn lemma_flawless_run(valid: bool)
    requires
        valid,
    ensures
        run(valid, flawless_events()) =~= flawless_actions(),
{
    let e = flawless_events();
    lemma_halted(valid, Phase::Finished, e, 7);
    assert(run_from(valid, Phase::Joining, e, 6) =~= seq![Action::Succeed]);
    assert(run_from(valid, Phase::Closing, e, 5) =~= seq![Action::AwaitReader, Action::Succeed]);
    assert(run_from(valid, Phase::Lingering, e, 4) =~= seq![
        Action::SendClose,
        Action::AwaitReader,
        Action::Succeed,
    ]);
    assert(run_from(valid, Phase::Greeting, e, 3) =~= seq![
        Action::Delay(LINGER_DELAY_SECONDS),
        Action::SendClose,
        Action::AwaitReader,
        Action::Succeed,
    ]);
    assert(run_from(valid, Phase::FirstDelay, e, 2) =~= seq![
        Action::SendGreeting,
        Action::Delay(LINGER_DELAY_SECONDS),
        Action::SendClose,
        Action::AwaitReader,
        Action::Succeed,
    ]);
    assert(run_from(valid, Phase::Connecting, e, 1) =~= seq![
        Action::Delay(GREETING_DELAY_SECONDS),
        Action::SendGreeting,
        Action::Delay(LINGER_DELAY_SECONDS),
        Action::SendClose,
        Action::AwaitReader,
        Action::Succeed,
    ]);
    assert(run_from(valid, Phase::Ready, e, 0) =~= flawless_actions());
}

/// If the handshake fails, the lifecycle reports `ConnectionError` and no
/// frame is ever sent: however the driver would go on, the whole run is the
/// connection attempt followed by the failure report.
pub proof fn lemma_unreachable_host_sends_nothing(valid: bool, events: Seq<Event>)
    requires
        valid,
        events.len() >= 2,
        events[0] == Event::Go,
        events[1] == Event::ConnectFailed,
    ensures
        run(valid, events) =~= seq![
            Action::OpenConnection,
            Action::Fail(ClientError::ConnectionError),
        ],
        !run(valid, events).contains(Action::SendGreeting),
        !run(valid, events).contains(Action::SendClose),
{
    lemma_halted(valid, Phase::Failed, events, 2);
    assert(run_from(valid, Phase::Connecting, events, 1) =~= seq![
        Action::Fail(ClientError::ConnectionError),
    ]);
    let r = run(valid, events);
    assert(r =~= seq![Action::OpenConnection, Action::Fail(ClientError::ConnectionError)]);
    assert forall|i: int| 0 <= i < r.len() implies r[i] != Action::SendGreeting && r[i]
        != Action::SendClose by {
        assert(r.len() == 2);
    }
}

/// A malformed endpoint stops the lifecycle before any network activity:
/// the only action is the `MalformedEndpoint` failure report — no
/// connection is opened and no frame is sent.
pub proof fn lemma_malformed_endpoint_no_network(valid: bool, events: Seq<Event>)
    requires
        !valid,
        events.len() >= 1,
        events[0] == Event::Go,
    ensures
        run(valid, events) =~= seq![Action::Fail(ClientError::MalformedEndpoint)],
        !run(valid, events).contains(Action::OpenConnection),
        !run(valid, events).contains(Action::SendGreeting),
        !run(valid, events).contains(Action::SendClose),
{
    lemma_halted(valid, Phase::Failed, events, 1);
    let r = run(valid, events);
    assert(r =~= seq![Action::Fail(ClientError::MalformedEndpoint)]);
    assert forall|i: int| 0 <= i < r.len() implies r[i] != Action::OpenConnection && r[i]
        != Action::SendGreeting && r[i] != Action::SendClose by {
        assert(r.len() == 1);
    }
}

/// The actions of two lifecycles driven one after the other on the same
/// client: each call starts the machine afresh in `Phase::Ready`.
pub open spec fn run_twice(valid: bool, first: Seq<Event>, second: Seq<Event>) -> Seq<Action> {
    run(valid, first) + run(valid, second)
}

/// Two sequential lifecycles on one client are fully independent: the part
/// of `run_twice` that the second call contributes is exactly the run of
/// its own events from a fresh start — nothing of the first run carries
/// over — and the first run's part is likewise untouched by the second.
pub proof fn lemma_second_run_independent(valid: bool, first: Seq<Event>, second: Seq<Event>)
    ensures
        run_twice(valid, first, second).take(run(valid, first).len() as int) =~= run(
            valid,
            first,
        ),
        run_twice(valid, first, second).skip(run(valid, first).len() as int) =~= run(
            valid,
            second,
        ),
{
}

} // verus!
