//! The client: one stored endpoint string and the verified decisions of a
//! connection lifecycle on it.

use vstd::prelude::*;
use crate::endpoint::{endpoint_is_valid, endpoint_ok};
use crate::error::ClientError;
use crate::lifecycle::{run, run_from, spec_step, transition, Action, Event, Phase, Transition};

verus! {

/// A WebSocket client. It holds nothing but the endpoint it will connect
/// to; every connection lifecycle starts from the same immutable state.
pub struct WebSocketClient {
    endpoint: String,
}

impl View for WebSocketClient {
    type V = Seq<char>;

    /// A client is characterised by its endpoint string.
    closed spec fn view(&self) -> Seq<char> {
        self.endpoint@
    }
}

impl WebSocketClient {
    /// Create a client that will connect to `url`.
    pub fn new(url: &str) -> (c: Self)
        ensures
            c@ == url@,
    {
        WebSocketClient { endpoint: url.to_owned() }
    }

    /// The stored endpoint string.
    pub fn endpoint(&self) -> (r: &str)
        ensures
            r@ == self@,
    {
        self.endpoint.as_str()
    }

    /// Check the stored endpoint before any network activity: `Ok` exactly
    /// when it parses as an absolute URL with a `ws` or `wss` scheme, and
    /// `MalformedEndpoint` otherwise.
    pub fn check_endpoint(&self) -> (r: Result<(), ClientError>)
        ensures
            r is Ok <==> endpoint_ok(self@),
            r matches Err(e) ==> e == ClientError::MalformedEndpoint,
    {
        if endpoint_is_valid(self.endpoint.as_str()) {
            Ok(())
        } else {
            Err(ClientError::MalformedEndpoint)
        }
    }

    /// One decision of the connection lifecycle on this client: from the
    /// current phase and the outcome of the last action to the next phase
    /// and action, exactly as the transition table `spec_step` says.
    pub fn step(&self, phase: Phase, event: Event) -> (r: Option<Transition>)
        ensures
            r == spec_step(endpoint_ok(self@), phase, event),
    {
        transition(endpoint_is_valid(self.endpoint.as_str()), phase, event)
    }

    /// Replay a whole lifecycle: feed the machine the given outcomes in
    /// order, from a fresh start, and collect the actions it asks for. The
    /// replay stops at the first outcome the linear flow cannot produce.
    /// Each call is a fresh, independent lifecycle.
    pub fn lifecycle(&self, events: &Vec<Event>) -> (r: Vec<Action>)
        ensures
            r@ == run(endpoint_ok(self@), events@),
    {
        let ghost valid = endpoint_ok(self@);
        let mut acts: Vec<Action> = Vec::new();
        let mut phase = Phase::Ready;
        let mut i: usize = 0;
        while i < events.len()
            invariant
                i <= events@.len(),
                run(valid, events@) == acts@ + run_from(valid, phase, events@, i as int),
                valid == endpoint_ok(self@),
            decreases events@.len() - i,
        {
            let event = events[i];
            match self.step(phase, event) {
                Some(t) => {
                    assert(acts@ + (seq![t.action] + run_from(valid, t.phase, events@, i + 1))
                        =~= acts@.push(t.action) + run_from(valid, t.phase, events@, i + 1));
                    acts.push(t.action);
                    phase = t.phase;
                    i = i + 1;
                },
                None => {
                    i = events.len();
                },
            }
        }
        assert(acts@ + Seq::<Action>::empty() =~= acts@);
        acts
    }
}

} // verus!
