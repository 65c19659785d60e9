use corridor::history::{ClipboardHistory, HistoryItem, PendingSyncEntry, Source};

fn contents(history: &ClipboardHistory) -> Vec<String> {
    history.get_all().iter().map(|item| item.content.clone()).collect()
}

#[test]
fn new_history_is_empty() {
    let history = ClipboardHistory::new(5);
    assert!(history.get_all().is_empty());
    assert_eq!(history.pending_sync_count(), 0);
    assert_eq!(history.max_items(), 5);
}

#[test]
fn add_local_twice_with_same_content_keeps_one_item() {
    let mut history = ClipboardHistory::new(10);
    history.add_local("x".to_string());
    history.add_local("x".to_string());
    assert_eq!(history.get_all().len(), 1);
    assert_eq!(contents(&history), vec!["x".to_string()]);
}

#[test]
fn distinct_contents_come_back_most_recent_first() {
    let mut history = ClipboardHistory::new(10);
    history.add_local("one".to_string());
    history.add_local("two".to_string());
    history.add_local("three".to_string());
    let recent: Vec<&str> = history.get_recent(3).iter().map(|i| i.content.as_str()).collect();
    assert_eq!(recent, vec!["three", "two", "one"]);
}

#[test]
fn overflow_drops_the_oldest_items() {
    let mut history = ClipboardHistory::new(2);
    history.add_local("a".to_string());
    history.add_local("b".to_string());
    history.add_local("c".to_string());
    assert_eq!(contents(&history), vec!["c".to_string(), "b".to_string()]);
}

#[test]
fn history_stays_bounded_and_free_of_adjacent_duplicates() {
    let mut history = ClipboardHistory::new(4);
    let offered = ["a", "a", "b", "b", "b", "a", "c", "c", "d", "e", "e", "a", "a"];
    for content in offered {
        history.add_local(content.to_string());
        let items = history.get_all();
        assert!(items.len() <= 4);
        for pair in items.windows(2) {
            assert_ne!(pair[0].content, pair[1].content);
        }
    }
    assert_eq!(
        contents(&history),
        vec!["a".to_string(), "e".to_string(), "d".to_string(), "c".to_string()]
    );
}

#[test]
fn older_duplicates_are_kept() {
    let mut history = ClipboardHistory::new(10);
    history.add_local("a".to_string());
    history.add_local("b".to_string());
    history.add_local("a".to_string());
    assert_eq!(contents(&history), vec!["a".to_string(), "b".to_string(), "a".to_string()]);
}

#[test]
fn a_history_without_room_stays_empty() {
    let mut history = ClipboardHistory::new(0);
    history.add_local("a".to_string());
    history.add_remote("1".to_string(), "b".to_string(), 7);
    assert!(history.get_all().is_empty());
}

#[test]
fn get_recent_is_capped_at_the_length() {
    let mut history = ClipboardHistory::new(10);
    history.add_local("a".to_string());
    history.add_local("b".to_string());
    assert_eq!(history.get_recent(0).len(), 0);
    assert_eq!(history.get_recent(1).len(), 1);
    assert_eq!(history.get_recent(1)[0].content, "b");
    assert_eq!(history.get_recent(2).len(), 2);
    assert_eq!(history.get_recent(100).len(), 2);
    assert_eq!(history.get_recent(usize::MAX).len(), 2);
}

#[test]
fn add_takes_the_item_as_given() {
    let mut history = ClipboardHistory::new(3);
    history.add(HistoryItem::local("id-1".to_string(), "text".to_string(), 42));
    assert_eq!(
        history.get_all().to_vec(),
        vec![HistoryItem {
            id: "id-1".to_string(),
            content: "text".to_string(),
            timestamp: 42,
            source: Source::Local,
        }]
    );
}

#[test]
fn add_remote_records_a_remote_item() {
    let mut history = ClipboardHistory::new(3);
    history.add_remote("7".to_string(), "from afar".to_string(), 1234);
    assert_eq!(
        history.get_all().to_vec(),
        vec![HistoryItem {
            id: "7".to_string(),
            content: "from afar".to_string(),
            timestamp: 1234,
            source: Source::Remote,
        }]
    );
}

#[test]
fn from_remote_keeps_its_arguments() {
    let item = HistoryItem::from_remote("9".to_string(), "c".to_string(), -3);
    assert_eq!(item.id, "9");
    assert_eq!(item.content, "c");
    assert_eq!(item.timestamp, -3);
    assert_eq!(item.source, Source::Remote);
}

#[test]
fn a_new_item_is_local_with_a_fresh_identifier_and_the_current_time() {
    let first = HistoryItem::new("hello".to_string());
    let second = HistoryItem::new("hello".to_string());
    assert_eq!(first.content, "hello");
    assert_eq!(first.source, Source::Local);
    assert_eq!(first.id.chars().count(), 36);
    for position in [8, 13, 18, 23] {
        assert_eq!(first.id.chars().nth(position), Some('-'));
    }
    assert_ne!(first.id, second.id);
    // Later than the first of January 2020, and not running backwards.
    assert!(first.timestamp > 1_577_836_800_000);
    assert!(second.timestamp >= first.timestamp);
}

#[test]
fn clear_empties_the_history_and_leaves_the_backlog() {
    let mut history = ClipboardHistory::new(3);
    history.add_local("a".to_string());
    history.add_to_sync_queue("a".to_string());
    history.clear();
    assert!(history.get_all().is_empty());
    assert_eq!(history.pending_sync_count(), 1);
    assert_eq!(history.max_items(), 3);
}

#[test]
fn queued_entries_drain_in_arrival_order() {
    let mut history = ClipboardHistory::new(3);
    assert_eq!(history.pending_sync_count(), 0);
    history.add_to_sync_queue("first".to_string());
    assert_eq!(history.pending_sync_count(), 1);
    history.add_to_sync_queue("second".to_string());
    assert_eq!(history.pending_sync_count(), 2);
    history.add_to_sync_queue("first".to_string());
    assert_eq!(history.pending_sync_count(), 3);
    let drained = history.get_pending_syncs();
    let order: Vec<&str> = drained.iter().map(|entry| entry.content.as_str()).collect();
    assert_eq!(order, vec!["first", "second", "first"]);
    assert!(drained[0].timestamp > 1_577_836_800_000);
    assert_eq!(history.pending_sync_count(), 0);
    assert!(history.get_pending_syncs().is_empty());
}

#[test]
fn queue_entry_keeps_the_entry_as_given() {
    let mut history = ClipboardHistory::new(3);
    history.queue_entry(PendingSyncEntry { content: "a".to_string(), timestamp: 5 });
    history.queue_entry(PendingSyncEntry { content: "b".to_string(), timestamp: 3 });
    assert_eq!(
        history.get_pending_syncs(),
        vec![
            PendingSyncEntry { content: "a".to_string(), timestamp: 5 },
            PendingSyncEntry { content: "b".to_string(), timestamp: 3 },
        ]
    );
}

#[test]
fn the_backlog_does_not_touch_the_history() {
    let mut history = ClipboardHistory::new(3);
    history.add_local("a".to_string());
    history.add_to_sync_queue("b".to_string());
    let _ = history.get_pending_syncs();
    assert_eq!(contents(&history), vec!["a".to_string()]);
}
