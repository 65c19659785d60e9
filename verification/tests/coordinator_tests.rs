use corridor::clipboard::{ClipboardEvent, WatcherState};
use corridor::config::NotificationConfig;
use corridor::connection::{Command, Connection, SocketEvent};
use corridor::coordinator::{Action, Coordinator, PREVIEW_CHARS};
use corridor::history::{HistoryItem, PendingSyncEntry, Source};
use corridor::websocket::{HistoryData, WebSocketClient, WsEvent};

fn quiet() -> NotificationConfig {
    NotificationConfig { local_copy: false, remote_update: false, errors: false }
}

fn loud() -> NotificationConfig {
    NotificationConfig { local_copy: true, remote_update: true, errors: true }
}

fn contents(coordinator: &Coordinator) -> Vec<(String, Source)> {
    coordinator
        .history()
        .get_all()
        .iter()
        .map(|item| (item.content.clone(), item.source))
        .collect()
}

fn notify(title: &str, body: &str) -> Action {
    Action::Notify(title.to_string(), body.to_string())
}

#[test]
fn a_new_coordinator_is_empty_and_disconnected() {
    let coordinator = Coordinator::new(7, quiet());
    assert!(!coordinator.is_connected());
    assert!(coordinator.history().get_all().is_empty());
    assert_eq!(coordinator.history().pending_sync_count(), 0);
    assert_eq!(coordinator.history().max_items(), 7);
    assert_eq!(PREVIEW_CHARS, 50);
}

#[test]
fn a_local_change_while_disconnected_is_recorded_and_queued_then_flushed_on_connect() {
    let mut coordinator = Coordinator::new(100, quiet());
    let mut connection = Connection::new(WebSocketClient::new(
        "t".to_string(),
        "wss://relay.example/ws".to_string(),
    ));

    let actions =
        coordinator.handle_clipboard_event(ClipboardEvent::LocalChange("hello".to_string()));
    assert_eq!(actions, vec![Action::Send("hello".to_string()), Action::Refresh]);
    for action in actions {
        if let Action::Send(content) = action {
            for command in connection.outbound(content) {
                match command {
                    Command::Reject(content) => coordinator.send_failed(content),
                    other => panic!("unexpected command {:?}", other),
                }
            }
        }
    }
    assert_eq!(contents(&coordinator), vec![("hello".to_string(), Source::Local)]);
    assert_eq!(coordinator.history().pending_sync_count(), 1);

    connection.step(SocketEvent::RetryDue);
    let commands = connection.step(SocketEvent::ConnectSucceeded(0));
    assert_eq!(commands[0], Command::Emit(WsEvent::Connected));
    let actions = coordinator.handle_ws_event(WsEvent::Connected);
    assert!(coordinator.is_connected());
    assert_eq!(coordinator.history().pending_sync_count(), 0);
    assert_eq!(
        actions,
        vec![
            Action::ConnectedChanged(true),
            Action::Refresh,
            Action::Send("hello".to_string()),
            notify("Corridor", "Synced 1 queued clipboard items"),
            Action::Refresh,
        ]
    );
    let mut frames = Vec::new();
    for action in actions {
        if let Action::Send(content) = action {
            for command in connection.outbound(content) {
                match command {
                    Command::SendUpdate(frame) => frames.push(frame),
                    other => panic!("unexpected command {:?}", other),
                }
            }
        }
    }
    assert_eq!(frames.len(), 1);
    let value: serde_json::Value = serde_json::from_str(&frames[0]).unwrap();
    assert_eq!(value.get("type").and_then(|v| v.as_str()), Some("clipboard_update"));
    assert_eq!(
        value.get("data").and_then(|d| d.get("content")).and_then(|v| v.as_str()),
        Some("hello")
    );
    assert_eq!(contents(&coordinator), vec![("hello".to_string(), Source::Local)]);
}

#[test]
fn a_remote_update_is_written_with_suppression_and_recorded_in_front() {
    let mut coordinator = Coordinator::new(100, quiet());
    let mut watcher = WatcherState::new();
    coordinator.local_change_at("hello".to_string(), "id-1".to_string(), 10);

    let actions = coordinator.handle_ws_event(WsEvent::ClipboardUpdate("world".to_string()));
    assert_eq!(actions, vec![Action::WriteClipboard("world".to_string())]);
    assert_eq!(contents(&coordinator), vec![("hello".to_string(), Source::Local)]);

    watcher.before_write(true);
    assert!(watcher.is_armed());
    watcher.after_write("world".to_string());
    assert_eq!(coordinator.remote_applied_at("world".to_string(), 1234), vec![Action::Refresh]);
    assert_eq!(
        coordinator.history().get_all().to_vec(),
        vec![
            HistoryItem {
                id: "remote-1234".to_string(),
                content: "world".to_string(),
                timestamp: 1234,
                source: Source::Remote,
            },
            HistoryItem {
                id: "id-1".to_string(),
                content: "hello".to_string(),
                timestamp: 10,
                source: Source::Local,
            },
        ]
    );
    // The echo of the write is not taken for a local change.
    assert_eq!(watcher.observe("world".to_string()), None);
}

#[test]
fn a_relay_history_with_adjacent_duplicates_keeps_one_of_them() {
    let mut coordinator = Coordinator::new(100, quiet());
    coordinator.local_change_at("old".to_string(), "x".to_string(), 1);
    let actions = coordinator.handle_ws_event(WsEvent::ClipboardHistory(vec![
        HistoryData { id: "1".to_string(), content: "a".to_string(), timestamp: 100 },
        HistoryData { id: "2".to_string(), content: "a".to_string(), timestamp: 200 },
    ]));
    assert_eq!(actions, vec![Action::Refresh]);
    assert_eq!(
        coordinator.history().get_all().to_vec(),
        vec![HistoryItem {
            id: "1".to_string(),
            content: "a".to_string(),
            timestamp: 100,
            source: Source::Remote,
        }]
    );
}

#[test]
fn a_relay_history_is_replayed_in_the_order_received() {
    let mut coordinator = Coordinator::new(2, quiet());
    coordinator.send_failed_at("kept".to_string(), 9);
    coordinator.on_clipboard_history(vec![
        HistoryData { id: "1".to_string(), content: "a".to_string(), timestamp: 1 },
        HistoryData { id: "2".to_string(), content: "b".to_string(), timestamp: 2 },
        HistoryData { id: "3".to_string(), content: "c".to_string(), timestamp: 3 },
    ]);
    assert_eq!(
        contents(&coordinator),
        vec![("c".to_string(), Source::Remote), ("b".to_string(), Source::Remote)]
    );
    assert_eq!(coordinator.history().pending_sync_count(), 1);
}

#[test]
fn a_repeated_local_change_is_dropped_without_a_send() {
    let mut coordinator = Coordinator::new(10, loud());
    let first = coordinator.on_local_change("same".to_string());
    assert_eq!(
        first,
        vec![Action::Send("same".to_string()), Action::Refresh, notify("Copied", "same")]
    );
    assert_eq!(coordinator.on_local_change("same".to_string()), vec![]);
    assert_eq!(coordinator.history().get_all().len(), 1);
    let item = &coordinator.history().get_all()[0];
    assert_eq!(item.source, Source::Local);
    assert_eq!(item.id.len(), 36);
}

#[test]
fn a_remote_update_equal_to_the_head_is_dropped() {
    let mut coordinator = Coordinator::new(10, loud());
    coordinator.local_change_at("hello".to_string(), "i".to_string(), 1);
    assert_eq!(coordinator.on_clipboard_update("hello".to_string()), vec![]);
    assert!(!coordinator.is_news(&"hello".to_string()));
    assert!(coordinator.is_news(&"other".to_string()));
}

#[test]
fn notifications_show_the_first_fifty_characters() {
    let mut coordinator = Coordinator::new(10, loud());
    let long: String = "é".repeat(60);
    let shown: String = "é".repeat(50);
    let actions = coordinator.local_change_at(long.clone(), "i".to_string(), 1);
    assert_eq!(
        actions,
        vec![Action::Send(long.clone()), Action::Refresh, notify("Copied", &shown)]
    );
    let other = format!("x{}", long);
    let shown_other = format!("x{}", "é".repeat(49));
    assert_eq!(
        coordinator.remote_applied_at(other, 5),
        vec![Action::Refresh, notify("Remote Clipboard", &shown_other)]
    );
}

#[test]
fn remote_ids_are_made_of_the_time_of_the_write() {
    let mut coordinator = Coordinator::new(10, quiet());
    coordinator.remote_applied_at("a".to_string(), 0);
    coordinator.remote_applied_at("b".to_string(), -15);
    coordinator.remote_applied_at("c".to_string(), i64::MAX);
    coordinator.remote_applied_at("d".to_string(), i64::MIN);
    let ids: Vec<&str> =
        coordinator.history().get_all().iter().map(|item| item.id.as_str()).collect();
    assert_eq!(
        ids,
        vec![
            "remote--9223372036854775808",
            "remote-9223372036854775807",
            "remote--15",
            "remote-0",
        ]
    );
    coordinator.remote_applied("e".to_string());
    let newest = &coordinator.history().get_all()[0];
    assert_eq!(newest.id, format!("remote-{}", newest.timestamp));
    assert!(newest.timestamp > 1_577_836_800_000);
    assert_eq!(newest.source, Source::Remote);
}

#[test]
fn the_flush_delivers_in_arrival_order_and_sums_up() {
    let mut coordinator = Coordinator::new(10, loud());
    for content in ["one", "two", "three", "four", "five", "six", "seven", "eight", "nine", "ten", "eleven", "twelve"] {
        coordinator.send_failed(content.to_string());
    }
    assert_eq!(coordinator.history().pending_sync_count(), 12);
    let actions = coordinator.on_connected();
    assert_eq!(actions.len(), 2 + 12 + 2 + 1);
    assert_eq!(actions[2], Action::Send("one".to_string()));
    assert_eq!(actions[13], Action::Send("twelve".to_string()));
    assert_eq!(actions[14], notify("Corridor", "Synced 12 queued clipboard items"));
    assert_eq!(actions[15], Action::Refresh);
    assert_eq!(actions[16], notify("Corridor", "Connected to sync server"));
    assert_eq!(coordinator.history().pending_sync_count(), 0);
}

#[test]
fn a_delivery_that_fails_during_the_flush_goes_to_the_back() {
    let mut coordinator = Coordinator::new(10, quiet());
    coordinator.send_failed_at("a".to_string(), 1);
    coordinator.send_failed_at("b".to_string(), 2);
    let actions = coordinator.on_connected();
    assert_eq!(
        actions[2..4].to_vec(),
        vec![Action::Send("a".to_string()), Action::Send("b".to_string())]
    );
    coordinator.send_failed_at("new".to_string(), 3);
    coordinator.send_failed_at("a".to_string(), 4);
    let mut probe = coordinator;
    assert_eq!(
        probe.on_connected()[2..4].to_vec(),
        vec![Action::Send("new".to_string()), Action::Send("a".to_string())]
    );
}

#[test]
fn connecting_with_an_empty_backlog_sums_nothing_up() {
    let mut coordinator = Coordinator::new(10, quiet());
    assert_eq!(
        coordinator.on_connected(),
        vec![Action::ConnectedChanged(true), Action::Refresh]
    );
    let mut loud_one = Coordinator::new(10, loud());
    assert_eq!(
        loud_one.on_connected(),
        vec![
            Action::ConnectedChanged(true),
            Action::Refresh,
            notify("Corridor", "Connected to sync server"),
        ]
    );
}

#[test]
fn a_disconnect_clears_the_signal_and_keeps_the_history() {
    let mut coordinator = Coordinator::new(10, loud());
    coordinator.local_change_at("a".to_string(), "i".to_string(), 1);
    coordinator.on_connected();
    assert_eq!(
        coordinator.handle_ws_event(WsEvent::Disconnected),
        vec![
            Action::ConnectedChanged(false),
            Action::Refresh,
            notify("Corridor", "Disconnected from sync server"),
        ]
    );
    assert!(!coordinator.is_connected());
    assert_eq!(contents(&coordinator), vec![("a".to_string(), Source::Local)]);
}

#[test]
fn clear_history_empties_the_history_only() {
    let mut coordinator = Coordinator::new(10, loud());
    coordinator.local_change_at("a".to_string(), "i".to_string(), 1);
    coordinator.send_failed_at("a".to_string(), 2);
    assert_eq!(
        coordinator.handle_ws_event(WsEvent::ClearHistory),
        vec![Action::Refresh, notify("Corridor", "History cleared")]
    );
    assert!(coordinator.history().get_all().is_empty());
    assert_eq!(coordinator.history().pending_sync_count(), 1);
    let mut silent = Coordinator::new(10, quiet());
    assert_eq!(silent.on_clear_history(), vec![Action::Refresh]);
}

#[test]
fn errors_are_forwarded_where_wanted_and_change_nothing() {
    let mut coordinator = Coordinator::new(10, loud());
    coordinator.local_change_at("a".to_string(), "i".to_string(), 1);
    assert_eq!(
        coordinator.handle_ws_event(WsEvent::Error("boom".to_string())),
        vec![notify("Connection Error", "boom")]
    );
    assert_eq!(
        coordinator.handle_clipboard_event(ClipboardEvent::Error("no display".to_string())),
        vec![notify("Clipboard Error", "no display")]
    );
    assert_eq!(contents(&coordinator), vec![("a".to_string(), Source::Local)]);
    let mut silent = Coordinator::new(10, quiet());
    assert_eq!(silent.handle_ws_event(WsEvent::Error("boom".to_string())), vec![]);
    assert_eq!(silent.on_clipboard_error("x".to_string()), vec![]);
}

#[test]
fn send_failed_at_keeps_content_and_time() {
    let mut coordinator = Coordinator::new(10, quiet());
    coordinator.send_failed_at("late".to_string(), 77);
    let mut actions = coordinator.on_connected();
    assert_eq!(actions.remove(2), Action::Send("late".to_string()));
    let mut history = corridor::history::ClipboardHistory::new(1);
    history.queue_entry(PendingSyncEntry { content: "late".to_string(), timestamp: 77 });
    assert_eq!(history.get_pending_syncs()[0].timestamp, 77);
}
