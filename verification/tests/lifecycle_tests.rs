use ws_client::client::WebSocketClient;
use ws_client::error::ClientError;
use ws_client::lifecycle::{
    Action, Event, Phase, Transition, GREETING_DELAY_SECONDS, LINGER_DELAY_SECONDS,
};

fn flawless_events() -> Vec<Event> {
    vec![
        Event::Go,
        Event::ConnectOk,
        Event::Elapsed,
        Event::SendOk,
        Event::Elapsed,
        Event::SendOk,
        Event::JoinOk,
    ]
}

fn flawless_actions() -> Vec<Action> {
    vec![
        Action::OpenConnection,
        Action::Delay(GREETING_DELAY_SECONDS),
        Action::SendGreeting,
        Action::Delay(LINGER_DELAY_SECONDS),
        Action::SendClose,
        Action::AwaitReader,
        Action::Succeed,
    ]
}

#[test]
fn flawless_run_performs_the_whole_sequence_in_order() {
    let client = WebSocketClient::new("ws://localhost:8080");
    let actions = client.lifecycle(&flawless_events());
    assert_eq!(actions, flawless_actions());
}

#[test]
fn delays_are_one_then_five_seconds() {
    assert_eq!(GREETING_DELAY_SECONDS, 1);
    assert_eq!(LINGER_DELAY_SECONDS, 5);
}

#[test]
fn unreachable_host_reports_connection_error_and_never_sends() {
    let client = WebSocketClient::new("ws://localhost:8080");
    // However many outcomes the driver would still have in hand, the run
    // stops at the failure report.
    let events = vec![
        Event::Go,
        Event::ConnectFailed,
        Event::Elapsed,
        Event::SendOk,
        Event::JoinOk,
    ];
    let actions = client.lifecycle(&events);
    assert_eq!(
        actions,
        vec![
            Action::OpenConnection,
            Action::Fail(ClientError::ConnectionError),
        ]
    );
    assert!(!actions.contains(&Action::SendGreeting));
    assert!(!actions.contains(&Action::SendClose));
}

#[test]
fn malformed_endpoint_is_rejected_before_any_network_activity() {
    let client = WebSocketClient::new("not a url");
    assert_eq!(
        client.check_endpoint(),
        Err(ClientError::MalformedEndpoint)
    );
    let actions = client.lifecycle(&flawless_events());
    assert_eq!(actions, vec![Action::Fail(ClientError::MalformedEndpoint)]);
    assert!(!actions.contains(&Action::OpenConnection));
    assert!(!actions.contains(&Action::SendGreeting));
    assert!(!actions.contains(&Action::SendClose));
}

#[test]
fn non_websocket_scheme_is_a_malformed_endpoint() {
    let client = WebSocketClient::new("http://example.com");
    assert_eq!(
        client.check_endpoint(),
        Err(ClientError::MalformedEndpoint)
    );
}

#[test]
fn ws_and_wss_endpoints_are_accepted() {
    assert_eq!(
        WebSocketClient::new("ws://localhost:8080").check_endpoint(),
        Ok(())
    );
    assert_eq!(
        WebSocketClient::new("wss://example.com/socket").check_endpoint(),
        Ok(())
    );
}

#[test]
fn greeting_send_failure_stops_the_run_with_send_error() {
    let client = WebSocketClient::new("ws://localhost:8080");
    let events = vec![
        Event::Go,
        Event::ConnectOk,
        Event::Elapsed,
        Event::SendFailed,
        Event::Elapsed,
    ];
    let actions = client.lifecycle(&events);
    assert_eq!(
        actions,
        vec![
            Action::OpenConnection,
            Action::Delay(GREETING_DELAY_SECONDS),
            Action::SendGreeting,
            Action::Fail(ClientError::SendError),
        ]
    );
}

#[test]
fn close_send_failure_is_a_defined_graceful_transition() {
    let client = WebSocketClient::new("ws://localhost:8080");
    let step = client.step(Phase::Closing, Event::SendFailed);
    assert_eq!(
        step,
        Some(Transition {
            phase: Phase::Failed,
            action: Action::Fail(ClientError::SendError),
        })
    );
    let step = client.step(Phase::Closing, Event::SendOk);
    assert_eq!(
        step,
        Some(Transition {
            phase: Phase::Joining,
            action: Action::AwaitReader,
        })
    );
}

#[test]
fn abnormal_join_reports_join_error() {
    let client = WebSocketClient::new("ws://localhost:8080");
    let step = client.step(Phase::Joining, Event::JoinFailed);
    assert_eq!(
        step,
        Some(Transition {
            phase: Phase::Failed,
            action: Action::Fail(ClientError::JoinError),
        })
    );
}

#[test]
fn events_the_linear_flow_cannot_produce_have_no_transition() {
    let client = WebSocketClient::new("ws://localhost:8080");
    assert_eq!(client.step(Phase::Ready, Event::Elapsed), None);
    assert_eq!(client.step(Phase::Finished, Event::Go), None);
    assert_eq!(client.step(Phase::Failed, Event::Go), None);
}

#[test]
fn two_sequential_lifecycles_are_independent() {
    let client = WebSocketClient::new("ws://localhost:8080");
    // A failed first lifecycle leaves nothing behind: the second runs as a
    // fresh one would.
    let failing = vec![Event::Go, Event::ConnectFailed];
    let first = client.lifecycle(&failing);
    assert_eq!(
        first,
        vec![
            Action::OpenConnection,
            Action::Fail(ClientError::ConnectionError),
        ]
    );
    let second = client.lifecycle(&flawless_events());
    assert_eq!(second, flawless_actions());
    // And a repeated identical lifecycle repeats identically.
    let third = client.lifecycle(&flawless_events());
    assert_eq!(third, second);
}
