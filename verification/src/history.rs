//! The history of recent clipboard contents, most recent first, and the
//! backlog of contents that still await delivery to the relay.
//!
//! The history is bounded and lives in memory only. The backlog has no
//! bound of its own: it grows for as long as the relay cannot be reached
//! and is emptied as a whole once it can.

use vstd::prelude::*;
use crate::clock::{fresh_id, now_millis, is_hyphenated};

verus! {

/// Where a history item came from.
#[derive(Clone, Copy, Debug, PartialEq, Eq, Structural)]
pub enum Source {
    Local,
    Remote,
}

/// One recorded clipboard content.
#[derive(Clone, Debug, PartialEq, Eq)]
pub struct HistoryItem {
    pub id: String,
    pub content: String,
    pub timestamp: i64,
    pub source: Source,
}

/// A history item as a mathematical value.
pub struct ItemView {
    pub id: Seq<char>,
    pub content: Seq<char>,
    pub timestamp: i64,
    pub source: Source,
}

impl View for HistoryItem {
    type V = ItemView;

    open spec fn view(&self) -> ItemView {
        ItemView {
            id: self.id@,
            content: self.content@,
            timestamp: self.timestamp,
            source: self.source,
        }
    }
}

/// A content that could not be handed to the connection when it was copied.
#[derive(Clone, Debug, PartialEq, Eq)]
pub struct PendingSyncEntry {
    pub content: String,
    pub timestamp: i64,
}

/// A pending entry as a mathematical value.
pub struct PendingView {
    pub content: Seq<char>,
    pub timestamp: i64,
}

impl View for PendingSyncEntry {
    type V = PendingView;

    open spec fn view(&self) -> PendingView {
        PendingView { content: self.content@, timestamp: self.timestamp }
    }
}

/// The views of a sequence of history items, in the same order.
pub open spec fn item_views(items: Seq<HistoryItem>) -> Seq<ItemView> {
    items.map_values(|item: HistoryItem| item@)
}

/// The views of a sequence of pending entries, in the same order.
pub open spec fn pending_views(entries: Seq<PendingSyncEntry>) -> Seq<PendingView> {
    entries.map_values(|entry: PendingSyncEntry| entry@)
}

/// No item has the same content as the item right after it.
pub open spec fn no_adjacent_duplicates(items: Seq<ItemView>) -> bool {
    forall|i: int, j: int|
        0 <= i && j == i + 1 && j < items.len() ==> (#[trigger] items[i]).content != (
        #[trigger] items[j]).content
}

/// A history within its bound and free of adjacent duplicates.
pub open spec fn well_formed(items: Seq<ItemView>, max_items: nat) -> bool {
    items.len() <= max_items && no_adjacent_duplicates(items)
}

/// The history after `item` was offered to it: unchanged where the most
/// recent item already has that content; else `item` in front, and the
/// oldest items dropped beyond `max_items`.
pub open spec fn inserted(items: Seq<ItemView>, item: ItemView, max_items: nat) -> Seq<ItemView> {
    if items.len() > 0 && items[0].content == item.content {
        items
    } else if items.len() + 1 > max_items {
        items.insert(0, item).take(max_items as int)
    } else {
        items.insert(0, item)
    }
}

/// The history after each of `added` was offered to it, first to last.
pub open spec fn inserted_all(items: Seq<ItemView>, added: Seq<ItemView>, max_items: nat) -> Seq<
    ItemView,
>
    decreases added.len(),
{
    if added.len() == 0 {
        items
    } else {
        inserted(inserted_all(items, added.drop_last(), max_items), added.last(), max_items)
    }
}

/// The `count` most recent items, or all of them where there are fewer.
pub open spec fn recent(items: Seq<ItemView>, count: nat) -> Seq<ItemView> {
    if count < items.len() {
        items.take(count as int)
    } else {
        items
    }
}

/// The item that a local copy of `content` records.
pub open spec fn local_item(id: Seq<char>, content: Seq<char>, timestamp: i64) -> ItemView {
    ItemView { id, content, timestamp, source: Source::Local }
}

/// The item that a content received from the relay records.
pub open spec fn remote_item(id: Seq<char>, content: Seq<char>, timestamp: i64) -> ItemView {
    ItemView { id, content, timestamp, source: Source::Remote }
}

/// The backlog entry for `content`, queued at `timestamp`.
pub open spec fn pending_entry(content: Seq<char>, timestamp: i64) -> PendingView {
    PendingView { content, timestamp }
}

impl HistoryItem {
    /// An item for a content copied on this machine, with a fresh
    /// identifier and the current time.
    pub fn new(content: String) -> (item: HistoryItem)
        ensures
            item@ == local_item(item.id@, content@, item.timestamp),
            is_hyphenated(item.id@),
    {
        HistoryItem { id: fresh_id(), content, timestamp: now_millis(), source: Source::Local }
    }

    /// An item for a content copied on this machine, with the identifier
    /// and time given.
    pub fn local(id: String, content: String, timestamp: i64) -> (item: HistoryItem)
        ensures
            item@ == local_item(id@, content@, timestamp),
    {
        HistoryItem { id, content, timestamp, source: Source::Local }
    }

    /// An item for a content that the relay sent.
    pub fn from_remote(id: String, content: String, timestamp: i64) -> (item: HistoryItem)
        ensures
            item@ == remote_item(id@, content@, timestamp),
    {
        HistoryItem { id, content, timestamp, source: Source::Remote }
    }
}

/// The history and the backlog as mathematical values.
pub struct HistoryView {
    pub items: Seq<ItemView>,
    pub max_items: nat,
    pub pending: Seq<PendingView>,
}

/// Recent clipboard contents, most recent first and at most `max_items` of
/// them, together with the queue of contents awaiting delivery.
pub struct ClipboardHistory {
    items: Vec<HistoryItem>,
    max_items: usize,
    pending: Vec<PendingSyncEntry>,
}

impl View for ClipboardHistory {
    type V = HistoryView;

    closed spec fn view(&self) -> HistoryView {
        HistoryView {
            items: item_views(self.items@),
            max_items: self.max_items as nat,
            pending: pending_views(self.pending@),
        }
    }
}

impl ClipboardHistory {
    /// The invariant of the history: within its bound, no adjacent
    /// duplicates. A new history has it and every operation keeps it.
    pub open spec fn wf(&self) -> bool {
        well_formed(self@.items, self@.max_items)
    }

    /// An empty history that keeps at most `max_items` items, with an
    /// empty backlog.
    pub fn new(max_items: usize) -> (history: ClipboardHistory)
        ensures
            history.wf(),
            history@.items == Seq::<ItemView>::empty(),
            history@.pending == Seq::<PendingView>::empty(),
            history@.max_items == max_items,
    {
        let history = ClipboardHistory { items: Vec::new(), max_items, pending: Vec::new() };
        assert(history@.items =~= Seq::<ItemView>::empty());
        assert(history@.pending =~= Seq::<PendingView>::empty());
        history
    }

    /// Offers `item` to the history: it goes in front unless the most
    /// recent item has the same content, and the oldest items beyond the
    /// bound are dropped.
    pub fn add(&mut self, item: HistoryItem)
        ensures
            old(self).wf() ==> final(self).wf(),
            final(self)@.items == inserted(old(self)@.items, item@, old(self)@.max_items),
            final(self)@.max_items == old(self)@.max_items,
            final(self)@.pending == old(self)@.pending,
    {
        let fresh = if self.items.len() == 0 {
            true
        } else {
            !(self.items[0].content == item.content)
        };
        if fresh {
            self.items.insert(0, item);
            assert(item_views(self.items@) =~= old(self)@.items.insert(0, item@));
            if self.items.len() > self.max_items {
                self.items.truncate(self.max_items);
                assert(item_views(self.items@) =~= old(self)@.items.insert(0, item@).take(
                    self.max_items as int,
                ));
            }
        }
        proof {
            if old(self).wf() {
                lemma_inserted_well_formed(old(self)@.items, item@, old(self)@.max_items);
            }
        }
    }

    /// Records a content copied on this machine, under a fresh identifier
    /// and the current time.
    pub fn add_local(&mut self, content: String)
        ensures
            old(self).wf() ==> final(self).wf(),
            exists|id: Seq<char>, timestamp: i64|
                is_hyphenated(id) && final(self)@.items == inserted(
                    old(self)@.items,
                    #[trigger] local_item(id, content@, timestamp),
                    old(self)@.max_items,
                ),
            final(self)@.max_items == old(self)@.max_items,
            final(self)@.pending == old(self)@.pending,
    {
        let item = HistoryItem::new(content);
        assert(item@ == local_item(item.id@, content@, item.timestamp));
        self.add(item);
    }

    /// Records a content that the relay sent.
    pub fn add_remote(&mut self, id: String, content: String, timestamp: i64)
        ensures
            old(self).wf() ==> final(self).wf(),
            final(self)@.items == inserted(
                old(self)@.items,
                remote_item(id@, content@, timestamp),
                old(self)@.max_items,
            ),
            final(self)@.max_items == old(self)@.max_items,
            final(self)@.pending == old(self)@.pending,
    {
        self.add(HistoryItem::from_remote(id, content, timestamp));
    }

    /// All items, most recent first.
    pub fn get_all(&self) -> (items: &[HistoryItem])
        ensures
            item_views(items@) == self@.items,
    {
        self.items.as_slice()
    }

    /// The `count` most recent items, most recent first; all of them where
    /// the history holds fewer.
    pub fn get_recent(&self, count: usize) -> (items: &[HistoryItem])
        ensures
            item_views(items@) == recent(self@.items, count as nat),
    {
        let end = if count < self.items.len() {
            count
        } else {
            self.items.len()
        };
        let items = vstd::slice::slice_subrange(self.items.as_slice(), 0, end);
        assert(item_views(items@) =~= recent(self@.items, count as nat));
        items
    }

    /// Empties the history. The backlog is left as it is.
    pub fn clear(&mut self)
        ensures
            final(self).wf(),
            final(self)@.items == Seq::<ItemView>::empty(),
            final(self)@.max_items == old(self)@.max_items,
            final(self)@.pending == old(self)@.pending,
    {
        self.items.clear();
        assert(item_views(self.items@) =~= Seq::<ItemView>::empty());
    }

    /// The bound on the number of items.
    pub fn max_items(&self) -> (max: usize)
        ensures
            max == self@.max_items,
    {
        self.max_items
    }

    /// Appends `entry` to the backlog.
    pub fn queue_entry(&mut self, entry: PendingSyncEntry)
        ensures
            final(self)@.pending == old(self)@.pending.push(entry@),
            final(self)@.items == old(self)@.items,
            final(self)@.max_items == old(self)@.max_items,
    {
        self.pending.push(entry);
        assert(pending_views(self.pending@) =~= old(self)@.pending.push(entry@));
    }

    /// Appends `content` to the backlog, stamped with the current time.
    pub fn add_to_sync_queue(&mut self, content: String)
        ensures
            exists|timestamp: i64|
                final(self)@.pending == old(self)@.pending.push(
                    #[trigger] pending_entry(content@, timestamp),
                ),
            final(self)@.items == old(self)@.items,
            final(self)@.max_items == old(self)@.max_items,
    {
        let entry = PendingSyncEntry { content, timestamp: now_millis() };
        assert(entry@ == pending_entry(content@, entry.timestamp));
        self.queue_entry(entry);
    }

    /// Empties the backlog and returns what it held, oldest first.
    pub fn get_pending_syncs(&mut self) -> (entries: Vec<PendingSyncEntry>)
        ensures
            pending_views(entries@) == old(self)@.pending,
            final(self)@.pending == Seq::<PendingView>::empty(),
            final(self)@.items == old(self)@.items,
            final(self)@.max_items == old(self)@.max_items,
    {
        let mut entries: Vec<PendingSyncEntry> = Vec::new();
        std::mem::swap(&mut self.pending, &mut entries);
        assert(pending_views(self.pending@) =~= Seq::<PendingView>::empty());
        entries
    }

    /// The number of entries in the backlog.
    pub fn pending_sync_count(&self) -> (count: usize)
        ensures
            count == self@.pending.len(),
    {
        self.pending.len()
    }
}

/// Offering an item to a well-formed history leaves it well formed.
pub proof fn lemma_inserted_well_formed(items: Seq<ItemView>, item: ItemView, max_items: nat)
    requires
        well_formed(items, max_items),
    ensures
        well_formed(inserted(items, item, max_items), max_items),
{
    let grown = items.insert(0, item);
    if !(items.len() > 0 && items[0].content == item.content) {
        assert forall|i: int, j: int| 0 <= i && j == i + 1 && j < grown.len() implies (
        #[trigger] grown[i]).content != (#[trigger] grown[j]).content by {
            if i > 0 {
                assert(grown[i] == items[i - 1]);
                assert(grown[j] == items[j - 1]);
            }
        }
    }
}

/// However many items are offered to a well-formed history, one after the
/// other, it never holds more than `max_items` items and no two adjacent
/// items share a content.
pub proof fn law_history_stays_well_formed(
    items: Seq<ItemView>,
    added: Seq<ItemView>,
    max_items: nat,
)
    requires
        well_formed(items, max_items),
    ensures
        well_formed(inserted_all(items, added, max_items), max_items),
        inserted_all(items, added, max_items).len() <= max_items,
        no_adjacent_duplicates(inserted_all(items, added, max_items)),
    decreases added.len(),
{
    if added.len() > 0 {
        law_history_stays_well_formed(items, added.drop_last(), max_items);
        lemma_inserted_well_formed(
            inserted_all(items, added.drop_last(), max_items),
            added.last(),
            max_items,
        );
    }
}

/// Offering a content that the most recent item already has changes
/// nothing: neither the items nor their number.
pub proof fn law_repeated_content_is_dropped(
    items: Seq<ItemView>,
    first: ItemView,
    second: ItemView,
    max_items: nat,
)
    requires
        first.content == second.content,
    ensures
        inserted(inserted(items, first, max_items), second, max_items) == inserted(
            items,
            first,
            max_items,
        ),
{
}

/// The backlog after each of `entries` was queued, first to last.
pub open spec fn queued_all(pending: Seq<PendingView>, entries: Seq<PendingView>) -> Seq<
    PendingView,
>
    decreases entries.len(),
{
    if entries.len() == 0 {
        pending
    } else {
        queued_all(pending, entries.drop_last()).push(entries.last())
    }
}

/// Entries queued one after the other stand behind what the backlog held,
/// in the order in which they were queued: a drain that follows returns
/// exactly them, oldest first, and the number of entries grows by theirs.
pub proof fn law_backlog_keeps_arrival_order(pending: Seq<PendingView>, entries: Seq<PendingView>)
    ensures
        queued_all(pending, entries) == pending + entries,
        queued_all(pending, entries).len() == pending.len() + entries.len(),
        queued_all(Seq::empty(), entries) == entries,
    decreases entries.len(),
{
    if entries.len() > 0 {
        law_backlog_keeps_arrival_order(pending, entries.drop_last());
        law_backlog_keeps_arrival_order(Seq::empty(), entries.drop_last());
        assert(entries.drop_last().push(entries.last()) =~= entries);
    }
    assert(queued_all(pending, entries) =~= pending + entries);
    assert(queued_all(Seq::empty(), entries) =~= entries);
}

} // verus!
