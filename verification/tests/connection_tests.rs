use corridor::connection::{
    Command, Connection, ConnectionState, SocketEvent, LIVENESS_TIMEOUT_MS, PING_INTERVAL_MS,
    RETRY_DELAY_MS, WAKE_INTERVAL_MS,
};
use corridor::websocket::{FrameError, HistoryData, WebSocketClient, WsEvent};

fn fresh() -> Connection {
    Connection::new(WebSocketClient::new("tok".to_string(), "wss://relay.example/ws".to_string()))
}

fn connected_at(now: u64) -> Connection {
    let mut connection = fresh();
    connection.step(SocketEvent::RetryDue);
    connection.step(SocketEvent::ConnectSucceeded(now));
    assert_eq!(connection.state(), ConnectionState::Connected);
    connection
}

fn loss() -> Vec<Command> {
    vec![Command::Emit(WsEvent::Disconnected), Command::RetryAfter(5000)]
}

#[test]
fn the_periods_are_those_of_the_protocol() {
    assert_eq!(PING_INTERVAL_MS, 5000);
    assert_eq!(LIVENESS_TIMEOUT_MS, 10000);
    assert_eq!(RETRY_DELAY_MS, 5000);
    assert_eq!(WAKE_INTERVAL_MS, 100);
}

#[test]
fn a_new_connection_is_disconnected() {
    let connection = fresh();
    assert_eq!(connection.state(), ConnectionState::Disconnected);
    assert!(!connection.is_connected());
}

#[test]
fn retry_due_starts_an_attempt_with_the_token_in_the_address() {
    let mut connection = fresh();
    assert_eq!(
        connection.step(SocketEvent::RetryDue),
        vec![Command::Connect("wss://relay.example/ws?token=tok".to_string())]
    );
    assert_eq!(connection.state(), ConnectionState::Connecting);
    assert_eq!(connection.step(SocketEvent::RetryDue), vec![]);
    assert_eq!(connection.state(), ConnectionState::Connecting);
}

#[test]
fn a_successful_attempt_announces_itself_and_asks_for_the_history() {
    let mut connection = fresh();
    connection.step(SocketEvent::RetryDue);
    assert_eq!(
        connection.step(SocketEvent::ConnectSucceeded(40)),
        vec![
            Command::Emit(WsEvent::Connected),
            Command::RequestHistory(r#"{"type":"clipboard_history"}"#.to_string()),
        ]
    );
    assert!(connection.is_connected());
}

#[test]
fn a_failed_attempt_reports_the_error_and_retries_after_five_seconds() {
    let mut connection = fresh();
    connection.step(SocketEvent::RetryDue);
    assert_eq!(
        connection.step(SocketEvent::ConnectFailed("refused".to_string())),
        vec![
            Command::Emit(WsEvent::Error("refused".to_string())),
            Command::Emit(WsEvent::Disconnected),
            Command::RetryAfter(5000),
        ]
    );
    assert_eq!(connection.state(), ConnectionState::Disconnected);
    assert_eq!(
        connection.step(SocketEvent::RetryDue),
        vec![Command::Connect("wss://relay.example/ws?token=tok".to_string())]
    );
}

#[test]
fn silence_for_more_than_ten_seconds_ends_the_connection() {
    let mut connection = connected_at(1_000);
    assert_eq!(connection.step(SocketEvent::Tick(1_100)), vec![]);
    assert_eq!(connection.step(SocketEvent::Tick(11_000)), vec![]);
    assert!(connection.is_connected());
    assert!(!connection.timed_out(11_000));
    assert!(connection.timed_out(11_001));
    assert_eq!(connection.step(SocketEvent::Tick(11_001)), loss());
    assert_eq!(connection.state(), ConnectionState::Disconnected);
    assert_eq!(
        connection.step(SocketEvent::RetryDue),
        vec![Command::Connect("wss://relay.example/ws?token=tok".to_string())]
    );
    assert_eq!(connection.state(), ConnectionState::Connecting);
}

#[test]
fn every_kind_of_inbound_frame_renews_the_deadline() {
    let mut connection = connected_at(0);
    assert_eq!(connection.step(SocketEvent::Pong(9_000)), vec![]);
    assert_eq!(connection.step(SocketEvent::Tick(19_000)), vec![]);
    assert_eq!(connection.step(SocketEvent::Ping(19_000)), vec![]);
    assert_eq!(connection.step(SocketEvent::Tick(29_000)), vec![]);
    assert_eq!(
        connection.step(SocketEvent::Text(r#"{"type":"pong"}"#.to_string(), 29_000)),
        vec![]
    );
    assert_eq!(connection.step(SocketEvent::Tick(39_000)), vec![]);
    assert!(connection.is_connected());
    assert_eq!(connection.step(SocketEvent::Tick(39_001)), loss());
}

#[test]
fn a_clock_that_reads_less_than_before_does_not_end_the_connection() {
    let mut connection = connected_at(50_000);
    assert!(!connection.timed_out(10));
    assert_eq!(connection.step(SocketEvent::Tick(10)), vec![]);
    assert!(connection.is_connected());
}

#[test]
fn the_deadline_holds_at_the_end_of_the_clock() {
    let connection = connected_at(u64::MAX - 10_000);
    assert!(!connection.timed_out(u64::MAX));
    let earlier = connected_at(u64::MAX - 10_001);
    assert!(earlier.timed_out(u64::MAX));
}

#[test]
fn text_frames_become_events() {
    let mut connection = connected_at(0);
    assert_eq!(
        connection.step(SocketEvent::Text(
            r#"{"type":"clipboard_update","data":{"content":"world"}}"#.to_string(),
            5
        )),
        vec![Command::Emit(WsEvent::ClipboardUpdate("world".to_string()))]
    );
    assert_eq!(
        connection.step(SocketEvent::Text(
            r#"{"type":"clipboard_history","history":[{"id":"1","content":"a","timestamp":100}]}"#
                .to_string(),
            6
        )),
        vec![Command::Emit(WsEvent::ClipboardHistory(vec![HistoryData {
            id: "1".to_string(),
            content: "a".to_string(),
            timestamp: 100,
        }]))]
    );
}

#[test]
fn malformed_and_unknown_frames_do_not_end_the_connection() {
    let mut connection = connected_at(0);
    assert_eq!(
        connection.step(SocketEvent::Text("{oops".to_string(), 1)),
        vec![Command::Dropped(FrameError::Malformed)]
    );
    assert_eq!(
        connection.step(SocketEvent::Text(r#"{"type":"new"}"#.to_string(), 2)),
        vec![Command::Dropped(FrameError::Unknown)]
    );
    assert!(connection.is_connected());
    // They count as signs of life all the same.
    assert_eq!(connection.step(SocketEvent::Tick(10_002)), vec![]);
    assert_eq!(connection.step(SocketEvent::Tick(10_003)), loss());
}

#[test]
fn close_read_error_and_send_failure_all_lead_to_a_retry() {
    for event in [SocketEvent::Closed, SocketEvent::ReadError, SocketEvent::SendFailed] {
        let mut connection = connected_at(0);
        assert_eq!(connection.step(event), loss());
        assert_eq!(connection.state(), ConnectionState::Disconnected);
    }
}

#[test]
fn a_loss_is_reported_once() {
    let mut connection = connected_at(0);
    assert_eq!(connection.step(SocketEvent::Closed), loss());
    assert_eq!(connection.step(SocketEvent::ReadError), vec![]);
    assert_eq!(connection.step(SocketEvent::Tick(1_000_000)), vec![]);
    assert_eq!(connection.state(), ConnectionState::Disconnected);
}

#[test]
fn the_ping_timer_sends_a_ping_while_connected() {
    let mut connection = connected_at(0);
    assert_eq!(connection.step(SocketEvent::PingDue), vec![Command::SendPing]);
    let mut idle = fresh();
    assert_eq!(idle.step(SocketEvent::PingDue), vec![]);
}

#[test]
fn an_outbound_content_is_wrapped_while_connected() {
    let mut connection = connected_at(0);
    assert_eq!(
        connection.step(SocketEvent::Outbound("hello".to_string(), 1700000000000)),
        vec![Command::SendUpdate(
            r#"{"type":"clipboard_update","data":{"content":"hello","timestamp":1700000000000}}"#
                .to_string()
        )]
    );
    assert!(connection.is_connected());
}

#[test]
fn an_outbound_content_is_handed_back_while_not_connected() {
    let mut connection = fresh();
    assert_eq!(
        connection.step(SocketEvent::Outbound("hello".to_string(), 5)),
        vec![Command::Reject("hello".to_string())]
    );
    assert_eq!(connection.outbound("again".to_string()), vec![Command::Reject("again".to_string())]);
    connection.step(SocketEvent::RetryDue);
    assert_eq!(
        connection.outbound("while connecting".to_string()),
        vec![Command::Reject("while connecting".to_string())]
    );
}

#[test]
fn outbound_stamps_the_update_with_the_current_time() {
    let mut connection = connected_at(0);
    let commands = connection.outbound("now".to_string());
    assert_eq!(commands.len(), 1);
    let frame = match &commands[0] {
        Command::SendUpdate(frame) => frame.clone(),
        other => panic!("unexpected command {:?}", other),
    };
    let value: serde_json::Value = serde_json::from_str(&frame).unwrap();
    let data = value.get("data").unwrap();
    assert_eq!(data.get("content").and_then(|v| v.as_str()), Some("now"));
    assert!(data.get("timestamp").and_then(|v| v.as_i64()).unwrap() > 1_577_836_800_000);
}

#[test]
fn reports_that_do_not_fit_the_state_change_nothing() {
    let mut connection = fresh();
    assert_eq!(connection.step(SocketEvent::ConnectSucceeded(1)), vec![]);
    assert_eq!(connection.step(SocketEvent::ConnectFailed("x".to_string())), vec![]);
    assert_eq!(connection.step(SocketEvent::Text(r#"{"type":"clear_history"}"#.to_string(), 1)), vec![]);
    assert_eq!(connection.step(SocketEvent::Ping(1)), vec![]);
    assert_eq!(connection.step(SocketEvent::Closed), vec![]);
    assert_eq!(connection.state(), ConnectionState::Disconnected);
    let mut live = connected_at(7);
    assert_eq!(live.step(SocketEvent::ConnectSucceeded(100_000)), vec![]);
    assert_eq!(live.step(SocketEvent::RetryDue), vec![]);
    assert!(live.timed_out(10_008));
    assert!(!live.timed_out(10_007));
}
