//! The one place where clipboard events and connection events meet. Each
//! handler updates the history and the backlog and says what is to be
//! done; the caller does it and reports back what the handler's
//! documentation asks for.

use vstd::prelude::*;
use crate::clipboard::{ClipboardEvent, ClipboardEventView};
use crate::clock::{fresh_id, is_hyphenated, now_millis};
use crate::config::NotificationConfig;
use crate::history::{
    inserted, inserted_all, item_views, law_history_stays_well_formed,
    lemma_inserted_well_formed, local_item, pending_entry, pending_views, remote_item,
    well_formed, ClipboardHistory, HistoryItem, HistoryView, ItemView, PendingSyncEntry,
    PendingView,
};
use crate::text::{decimal, decimal_i64, decimal_usize, prefix, preview};
use crate::websocket::{data_views, HistoryData, HistoryDataView, WsEvent, WsEventView};

verus! {

/// How many characters of a content a notification shows.
pub const PREVIEW_CHARS: usize = 50;

/// What the caller is asked to do.
#[derive(Clone, Debug, PartialEq, Eq)]
pub enum Action {
    /// Hand the content to the connection. If the connection cannot take
    /// it, report that with `send_failed`.
    Send(String),
    /// Write the content to the clipboard as a write caused by the relay.
    /// If the write succeeds, report that with `remote_applied`.
    WriteClipboard(String),
    /// Show a notification with this title and body.
    Notify(String, String),
    /// Tell observers the new value of the connected signal.
    ConnectedChanged(bool),
    /// Tell observers that the history or the backlog changed.
    Refresh,
}

/// An action as a mathematical value.
pub enum ActionView {
    Send(Seq<char>),
    WriteClipboard(Seq<char>),
    Notify(Seq<char>, Seq<char>),
    ConnectedChanged(bool),
    Refresh,
}

impl View for Action {
    type V = ActionView;

    open spec fn view(&self) -> ActionView {
        match self {
            Action::Send(content) => ActionView::Send(content@),
            Action::WriteClipboard(content) => ActionView::WriteClipboard(content@),
            Action::Notify(title, body) => ActionView::Notify(title@, body@),
            Action::ConnectedChanged(connected) => ActionView::ConnectedChanged(*connected),
            Action::Refresh => ActionView::Refresh,
        }
    }
}

/// The views of a sequence of actions, in the same order.
pub open spec fn action_views(actions: Seq<Action>) -> Seq<ActionView> {
    actions.map_values(|action: Action| action@)
}

/// The coordinator as a mathematical value.
pub struct CoordinatorView {
    pub history: HistoryView,
    pub connected: bool,
    pub notifications: NotificationConfig,
}

/// Whether `content` is news: the history is empty or its most recent
/// item holds another content.
pub open spec fn is_news(items: Seq<ItemView>, content: Seq<char>) -> bool {
    items.len() == 0 || items[0].content != content
}

/// The coordinator with other items in its history.
pub open spec fn with_items(state: CoordinatorView, items: Seq<ItemView>) -> CoordinatorView {
    CoordinatorView { history: HistoryView { items, ..state.history }, ..state }
}

/// The coordinator with another backlog.
pub open spec fn with_pending(state: CoordinatorView, pending: Seq<PendingView>) -> CoordinatorView {
    CoordinatorView { history: HistoryView { pending, ..state.history }, ..state }
}

/// `actions`, followed by a notification where `wanted` holds.
pub open spec fn with_notice(
    actions: Seq<ActionView>,
    wanted: bool,
    title: Seq<char>,
    body: Seq<char>,
) -> Seq<ActionView> {
    if wanted {
        actions.push(ActionView::Notify(title, body))
    } else {
        actions
    }
}

/// The coordinator after the user copied `content`, recorded under `id`
/// at `timestamp`.
pub open spec fn local_change_state(
    state: CoordinatorView,
    content: Seq<char>,
    id: Seq<char>,
    timestamp: i64,
) -> CoordinatorView {
    with_items(
        state,
        inserted(
            state.history.items,
            local_item(id, content, timestamp),
            state.history.max_items,
        ),
    )
}

/// What is to be done after the user copied `content`: nothing where the
/// history's most recent item already holds it; else deliver it, refresh,
/// and notify if the user wants that.
pub open spec fn local_change_actions(state: CoordinatorView, content: Seq<char>) -> Seq<
    ActionView,
> {
    if is_news(state.history.items, content) {
        with_notice(
            seq![ActionView::Send(content), ActionView::Refresh],
            state.notifications.local_copy,
            "Copied"@,
            prefix(content, PREVIEW_CHARS as nat),
        )
    } else {
        Seq::empty()
    }
}

/// One delivery for each entry of the backlog, oldest first.
pub open spec fn deliveries(pending: Seq<PendingView>) -> Seq<ActionView> {
    Seq::new(pending.len(), |i: int| ActionView::Send(pending[i].content))
}

/// The body of the notification that sums up a flush of `count` entries.
pub open spec fn synced_body(count: nat) -> Seq<char> {
    "Synced "@ + decimal(count as int) + " queued clipboard items"@
}

/// The coordinator after the connection came up: connected, with an empty
/// backlog.
pub open spec fn connected_state(state: CoordinatorView) -> CoordinatorView {
    CoordinatorView { connected: true, ..with_pending(state, Seq::empty()) }
}

/// What is to be done after the connection came up: signal it, deliver
/// every entry of the backlog in its order, sum the flush up where there
/// was one, and notify if the user wants that.
pub open spec fn connected_actions(state: CoordinatorView) -> Seq<ActionView> {
    let pending = state.history.pending;
    let flushed = seq![ActionView::ConnectedChanged(true), ActionView::Refresh] + deliveries(
        pending,
    );
    let summed = if pending.len() > 0 {
        flushed.push(ActionView::Notify("Corridor"@, synced_body(pending.len()))).push(
            ActionView::Refresh,
        )
    } else {
        flushed
    };
    with_notice(summed, state.notifications.remote_update, "Corridor"@, "Connected to sync server"@)
}

/// What is to be done after the connection was lost.
pub open spec fn disconnected_actions(state: CoordinatorView) -> Seq<ActionView> {
    with_notice(
        seq![ActionView::ConnectedChanged(false), ActionView::Refresh],
        state.notifications.errors,
        "Corridor"@,
        "Disconnected from sync server"@,
    )
}

/// What is to be done with a content that the relay sent: write it to the
/// clipboard, unless the history's most recent item already holds it.
pub open spec fn update_actions(state: CoordinatorView, content: Seq<char>) -> Seq<ActionView> {
    if is_news(state.history.items, content) {
        seq![ActionView::WriteClipboard(content)]
    } else {
        Seq::empty()
    }
}

/// The identifier under which a content applied at `now` is recorded.
pub open spec fn remote_id(now: i64) -> Seq<char> {
    "remote-"@ + decimal(now as int)
}

/// The coordinator after a content from the relay was written to the
/// clipboard at `now`.
pub open spec fn applied_state(state: CoordinatorView, content: Seq<char>, now: i64) -> CoordinatorView {
    with_items(
        state,
        inserted(
            state.history.items,
            remote_item(remote_id(now), content, now),
            state.history.max_items,
        ),
    )
}

/// What is to be done after a content from the relay was written to the
/// clipboard.
pub open spec fn applied_actions(state: CoordinatorView, content: Seq<char>) -> Seq<ActionView> {
    with_notice(
        seq![ActionView::Refresh],
        state.notifications.remote_update,
        "Remote Clipboard"@,
        prefix(content, PREVIEW_CHARS as nat),
    )
}

/// The history items that the relay's entries become, in the same order.
pub open spec fn remote_items(entries: Seq<HistoryDataView>) -> Seq<ItemView> {
    Seq::new(
        entries.len(),
        |i: int| remote_item(entries[i].id, entries[i].content, entries[i].timestamp),
    )
}

/// The coordinator after the relay sent its history: the old items are
/// gone and the relay's entries were offered one by one, in the order
/// received, so an entry with the content of the one before it is left
/// out.
pub open spec fn replaced_state(state: CoordinatorView, entries: Seq<HistoryDataView>) -> CoordinatorView {
    with_items(
        state,
        inserted_all(Seq::empty(), remote_items(entries), state.history.max_items),
    )
}

/// What is to be done after the history was cleared on the relay's word.
pub open spec fn cleared_actions(state: CoordinatorView) -> Seq<ActionView> {
    with_notice(
        seq![ActionView::Refresh],
        state.notifications.remote_update,
        "Corridor"@,
        "History cleared"@,
    )
}

/// What is to be done with an error, under the given title.
pub open spec fn error_actions(state: CoordinatorView, title: Seq<char>, message: Seq<char>) -> Seq<
    ActionView,
> {
    with_notice(Seq::empty(), state.notifications.errors, title, message)
}

/// The coordinator after an event of the connection.
pub open spec fn ws_state(state: CoordinatorView, event: WsEventView) -> CoordinatorView {
    match event {
        WsEventView::Connected => connected_state(state),
        WsEventView::Disconnected => CoordinatorView { connected: false, ..state },
        WsEventView::ClipboardUpdate(_) => state,
        WsEventView::ClipboardHistory(entries) => replaced_state(state, entries),
        WsEventView::ClearHistory => with_items(state, Seq::empty()),
        WsEventView::Error(_) => state,
    }
}

/// What is to be done after an event of the connection.
pub open spec fn ws_actions(state: CoordinatorView, event: WsEventView) -> Seq<ActionView> {
    match event {
        WsEventView::Connected => connected_actions(state),
        WsEventView::Disconnected => disconnected_actions(state),
        WsEventView::ClipboardUpdate(content) => update_actions(state, content),
        WsEventView::ClipboardHistory(_) => seq![ActionView::Refresh],
        WsEventView::ClearHistory => cleared_actions(state),
        WsEventView::Error(message) => error_actions(state, "Connection Error"@, message),
    }
}

/// The coordinator after an event of the watcher, where a local change is
/// recorded under `id` at `timestamp`.
pub open spec fn clipboard_state(
    state: CoordinatorView,
    event: ClipboardEventView,
    id: Seq<char>,
    timestamp: i64,
) -> CoordinatorView {
    match event {
        ClipboardEventView::LocalChange(content) => local_change_state(
            state,
            content,
            id,
            timestamp,
        ),
        ClipboardEventView::Error(_) => state,
    }
}

/// What is to be done after an event of the watcher.
pub open spec fn clipboard_actions(state: CoordinatorView, event: ClipboardEventView) -> Seq<
    ActionView,
> {
    match event {
        ClipboardEventView::LocalChange(content) => local_change_actions(state, content),
        ClipboardEventView::Error(message) => error_actions(state, "Clipboard Error"@, message),
    }
}

/// The history, the backlog and the connected signal, owned by the one
/// loop that handles events.
pub struct Coordinator {
    history: ClipboardHistory,
    connected: bool,
    notifications: NotificationConfig,
}

impl View for Coordinator {
    type V = CoordinatorView;

    closed spec fn view(&self) -> CoordinatorView {
        CoordinatorView {
            history: self.history@,
            connected: self.connected,
            notifications: self.notifications,
        }
    }
}

/// `actions`, followed by a notification where `wanted` holds.
fn notice(actions: Vec<Action>, wanted: bool, title: &str, body: String) -> (all: Vec<Action>)
    ensures
        action_views(all@) == with_notice(action_views(actions@), wanted, title@, body@),
{
    let mut all = actions;
    if wanted {
        all.push(Action::Notify(title.to_owned(), body));
        assert(action_views(all@) =~= action_views(actions@).push(
            ActionView::Notify(title@, body@),
        ));
    }
    all
}

/// No action.
fn no_action() -> (actions: Vec<Action>)
    ensures
        action_views(actions@) == Seq::<ActionView>::empty(),
{
    let actions: Vec<Action> = Vec::new();
    assert(action_views(actions@) =~= Seq::<ActionView>::empty());
    actions
}

/// One action.
fn one_action(action: Action) -> (actions: Vec<Action>)
    ensures
        action_views(actions@) == seq![action@],
{
    let actions = vec![action];
    assert(action_views(actions@) =~= seq![action@]);
    actions
}

impl Coordinator {
    /// The invariant of the coordinator: that of its history.
    pub open spec fn wf(&self) -> bool {
        well_formed(self@.history.items, self@.history.max_items)
    }

    /// A coordinator with an empty history of at most `history_size`
    /// items, an empty backlog, and no connection.
    pub fn new(history_size: usize, notifications: NotificationConfig) -> (coordinator: Coordinator)
        ensures
            coordinator.wf(),
            coordinator@ == (CoordinatorView {
                history: HistoryView {
                    items: Seq::empty(),
                    max_items: history_size as nat,
                    pending: Seq::empty(),
                },
                connected: false,
                notifications,
            }),
    {
        Coordinator { history: ClipboardHistory::new(history_size), connected: false, notifications }
    }

    /// The history and the backlog, for reading.
    pub fn history(&self) -> (history: &ClipboardHistory)
        ensures
            history@ == self@.history,
    {
        &self.history
    }

    /// The connected signal.
    pub fn is_connected(&self) -> (connected: bool)
        ensures
            connected == self@.connected,
    {
        self.connected
    }

    /// Whether `content` differs from the history's most recent content.
    pub fn is_news(&self, content: &String) -> (news: bool)
        ensures
            news == is_news(self@.history.items, content@),
    {
        let head = self.history.get_recent(1);
        assert(item_views(head@).len() == head@.len());
        if head.len() == 0 {
            true
        } else {
            assert(item_views(head@)[0] == head@[0]@);
            !(head[0].content == *content)
        }
    }

    /// The user copied `content`; it is recorded under `id` at
    /// `timestamp` unless the history's most recent item already holds it.
    pub fn local_change_at(&mut self, content: String, id: String, timestamp: i64) -> (actions: Vec<
        Action,
    >)
        ensures
            old(self).wf() ==> final(self).wf(),
            final(self)@ == local_change_state(old(self)@, content@, id@, timestamp),
            action_views(actions@) == local_change_actions(old(self)@, content@),
    {
        if self.is_news(&content) {
            let shown = preview(content.as_str(), PREVIEW_CHARS);
            let actions = vec![Action::Send(content.clone()), Action::Refresh];
            assert(action_views(actions@) =~= seq![
                ActionView::Send(content@),
                ActionView::Refresh,
            ]);
            self.history.add(HistoryItem::local(id, content, timestamp));
            notice(actions, self.notifications.local_copy, "Copied", shown)
        } else {
            no_action()
        }
    }

    /// The user copied `content`; it is recorded under a fresh identifier
    /// at the current time.
    pub fn on_local_change(&mut self, content: String) -> (actions: Vec<Action>)
        ensures
            old(self).wf() ==> final(self).wf(),
            exists|id: Seq<char>, timestamp: i64|
                is_hyphenated(id) && final(self)@ == #[trigger] local_change_state(
                    old(self)@,
                    content@,
                    id,
                    timestamp,
                ),
            action_views(actions@) == local_change_actions(old(self)@, content@),
    {
        let id = fresh_id();
        let timestamp = now_millis();
        let ghost id_text = id@;
        let actions = self.local_change_at(content, id, timestamp);
        assert(final(self)@ == local_change_state(old(self)@, content@, id_text, timestamp));
        actions
    }

    /// The connection could not take `content`: it joins the back of the
    /// backlog, stamped `timestamp`.
    pub fn send_failed_at(&mut self, content: String, timestamp: i64)
        ensures
            final(self)@ == with_pending(
                old(self)@,
                old(self)@.history.pending.push(pending_entry(content@, timestamp)),
            ),
    {
        self.history.queue_entry(PendingSyncEntry { content, timestamp });
    }

    /// The connection could not take `content`: it joins the back of the
    /// backlog, stamped with the current time.
    pub fn send_failed(&mut self, content: String)
        ensures
            exists|timestamp: i64|
                final(self)@ == with_pending(
                    old(self)@,
                    old(self)@.history.pending.push(#[trigger] pending_entry(content@, timestamp)),
                ),
    {
        let timestamp = now_millis();
        self.send_failed_at(content, timestamp);
        assert(final(self)@ == with_pending(
            old(self)@,
            old(self)@.history.pending.push(pending_entry(content@, timestamp)),
        ));
    }

    /// The connection came up: the backlog is emptied and each of its
    /// entries is to be delivered, oldest first.
    pub fn on_connected(&mut self) -> (actions: Vec<Action>)
        ensures
            final(self)@ == connected_state(old(self)@),
            action_views(actions@) == connected_actions(old(self)@),
    {
        self.connected = true;
        let pending = self.history.get_pending_syncs();
        let count = pending.len();
        let mut actions = vec![Action::ConnectedChanged(true), Action::Refresh];
        let ghost start = seq![ActionView::ConnectedChanged(true), ActionView::Refresh];
        let ghost waiting = old(self)@.history.pending;
        assert(action_views(actions@) =~= start);
        let mut i: usize = 0;
        while i < count
            invariant
                count == pending.len(),
                i <= count,
                start.len() == 2,
                waiting == pending_views(pending@),
                action_views(actions@) == start + deliveries(waiting).take(i as int),
            decreases count - i,
        {
            let content = pending[i].content.clone();
            assert(waiting[i as int] == pending@[i as int]@);
            assert(deliveries(waiting)[i as int] == ActionView::Send(content@));
            let ghost before = action_views(actions@);
            actions.push(Action::Send(content));
            assert(action_views(actions@) =~= before.push(ActionView::Send(content@)));
            assert(action_views(actions@) =~= start + deliveries(waiting).take(i + 1));
            i += 1;
        }
        assert(action_views(actions@) =~= start + deliveries(waiting));
        if count > 0 {
            let body = "Synced ".to_owned().concat(decimal_usize(count).as_str()).concat(
                " queued clipboard items",
            );
            actions.push(Action::Notify("Corridor".to_owned(), body));
            actions.push(Action::Refresh);
            assert(action_views(actions@) =~= (start + deliveries(waiting)).push(
                ActionView::Notify("Corridor"@, synced_body(waiting.len())),
            ).push(ActionView::Refresh));
        }
        notice(
            actions,
            self.notifications.remote_update,
            "Corridor",
            "Connected to sync server".to_owned(),
        )
    }

    /// The connection was lost. The history is left as it is.
    pub fn on_disconnected(&mut self) -> (actions: Vec<Action>)
        ensures
            final(self)@ == (CoordinatorView { connected: false, ..old(self)@ }),
            action_views(actions@) == disconnected_actions(old(self)@),
    {
        self.connected = false;
        let actions = vec![Action::ConnectedChanged(false), Action::Refresh];
        assert(action_views(actions@) =~= seq![
            ActionView::ConnectedChanged(false),
            ActionView::Refresh,
        ]);
        notice(
            actions,
            self.notifications.errors,
            "Corridor",
            "Disconnected from sync server".to_owned(),
        )
    }

    /// The relay sent `content`: it is to be written to the clipboard
    /// unless the history's most recent item already holds it. Nothing is
    /// recorded before the write succeeded.
    pub fn on_clipboard_update(&self, content: String) -> (actions: Vec<Action>)
        ensures
            action_views(actions@) == update_actions(self@, content@),
    {
        if self.is_news(&content) {
            one_action(Action::WriteClipboard(content))
        } else {
            no_action()
        }
    }

    /// The content that the relay sent was written to the clipboard at
    /// `now`: it is recorded as a remote item.
    pub fn remote_applied_at(&mut self, content: String, now: i64) -> (actions: Vec<Action>)
        ensures
            old(self).wf() ==> final(self).wf(),
            final(self)@ == applied_state(old(self)@, content@, now),
            action_views(actions@) == applied_actions(old(self)@, content@),
    {
        let shown = preview(content.as_str(), PREVIEW_CHARS);
        let id = "remote-".to_owned().concat(decimal_i64(now).as_str());
        self.history.add_remote(id, content, now);
        notice(
            one_action(Action::Refresh),
            self.notifications.remote_update,
            "Remote Clipboard",
            shown,
        )
    }

    /// The content that the relay sent was written to the clipboard: it
    /// is recorded as a remote item, stamped with the current time.
    pub fn remote_applied(&mut self, content: String) -> (actions: Vec<Action>)
        ensures
            old(self).wf() ==> final(self).wf(),
            exists|now: i64| final(self)@ == #[trigger] applied_state(old(self)@, content@, now),
            action_views(actions@) == applied_actions(old(self)@, content@),
    {
        let now = now_millis();
        let actions = self.remote_applied_at(content, now);
        assert(final(self)@ == applied_state(old(self)@, content@, now));
        actions
    }

    /// The relay sent its history: it replaces the local one, entry by
    /// entry in the order received.
    pub fn on_clipboard_history(&mut self, entries: Vec<HistoryData>) -> (actions: Vec<Action>)
        ensures
            final(self).wf(),
            final(self)@ == replaced_state(old(self)@, data_views(entries@)),
            action_views(actions@) == seq![ActionView::Refresh],
    {
        self.history.clear();
        let ghost offered = remote_items(data_views(entries@));
        let ghost max_items = old(self)@.history.max_items;
        assert(offered.take(0) =~= Seq::<ItemView>::empty());
        let mut i: usize = 0;
        while i < entries.len()
            invariant
                i <= entries.len(),
                offered == remote_items(data_views(entries@)),
                offered.len() == entries.len(),
                self.history.wf(),
                self.history@.max_items == max_items,
                self.history@.pending == old(self)@.history.pending,
                self.history@.items == inserted_all(
                    Seq::empty(),
                    offered.take(i as int),
                    max_items,
                ),
                self.connected == old(self).connected,
                self.notifications == old(self).notifications,
            decreases entries.len() - i,
        {
            let entry = &entries[i];
            assert(offered[i as int] == remote_item(entry.id@, entry.content@, entry.timestamp));
            assert(offered.take(i + 1).drop_last() =~= offered.take(i as int));
            self.history.add_remote(entry.id.clone(), entry.content.clone(), entry.timestamp);
            i += 1;
        }
        assert(offered.take(i as int) =~= offered);
        one_action(Action::Refresh)
    }

    /// The relay asked for the history to be cleared. The backlog is left
    /// as it is.
    pub fn on_clear_history(&mut self) -> (actions: Vec<Action>)
        ensures
            final(self).wf(),
            final(self)@ == with_items(old(self)@, Seq::empty()),
            action_views(actions@) == cleared_actions(old(self)@),
    {
        self.history.clear();
        notice(
            one_action(Action::Refresh),
            self.notifications.remote_update,
            "Corridor",
            "History cleared".to_owned(),
        )
    }

    /// The connection reported an error: the user is told, nothing
    /// changes.
    pub fn on_error(&self, message: String) -> (actions: Vec<Action>)
        ensures
            action_views(actions@) == error_actions(self@, "Connection Error"@, message@),
    {
        notice(no_action(), self.notifications.errors, "Connection Error", message)
    }

    /// The watcher reported an error: the user is told, nothing changes.
    pub fn on_clipboard_error(&self, message: String) -> (actions: Vec<Action>)
        ensures
            action_views(actions@) == error_actions(self@, "Clipboard Error"@, message@),
    {
        notice(no_action(), self.notifications.errors, "Clipboard Error", message)
    }

    /// Handles an event of the connection.
    pub fn handle_ws_event(&mut self, event: WsEvent) -> (actions: Vec<Action>)
        ensures
            old(self).wf() ==> final(self).wf(),
            final(self)@ == ws_state(old(self)@, event@),
            action_views(actions@) == ws_actions(old(self)@, event@),
    {
        match event {
            WsEvent::Connected => self.on_connected(),
            WsEvent::Disconnected => self.on_disconnected(),
            WsEvent::ClipboardUpdate(content) => self.on_clipboard_update(content),
            WsEvent::ClipboardHistory(entries) => self.on_clipboard_history(entries),
            WsEvent::ClearHistory => self.on_clear_history(),
            WsEvent::Error(message) => self.on_error(message),
        }
    }

    /// Handles an event of the watcher.
    pub fn handle_clipboard_event(&mut self, event: ClipboardEvent) -> (actions: Vec<Action>)
        ensures
            old(self).wf() ==> final(self).wf(),
            exists|id: Seq<char>, timestamp: i64|
                final(self)@ == #[trigger] clipboard_state(old(self)@, event@, id, timestamp),
            action_views(actions@) == clipboard_actions(old(self)@, event@),
    {
        match event {
            ClipboardEvent::LocalChange(content) => {
                let actions = self.on_local_change(content);
                let ghost (id, timestamp) = choose|id: Seq<char>, timestamp: i64|
                    final(self)@ == #[trigger] local_change_state(
                        old(self)@,
                        content@,
                        id,
                        timestamp,
                    );
                assert(final(self)@ == clipboard_state(old(self)@, event@, id, timestamp));
                actions
            },
            ClipboardEvent::Error(message) => {
                let actions = self.on_clipboard_error(message);
                assert(final(self)@ == clipboard_state(old(self)@, event@, Seq::empty(), 0));
                actions
            },
        }
    }
}

/// No echo goes back to the relay: once a content from the relay was
/// applied, a local change that reports the same content is not recorded
/// again and nothing is sent. A history that keeps no item cannot tell.
pub proof fn law_applied_content_is_not_sent_back(
    state: CoordinatorView,
    content: Seq<char>,
    now: i64,
    id: Seq<char>,
    timestamp: i64,
)
    requires
        state.history.max_items > 0,
    ensures
        local_change_actions(applied_state(state, content, now), content) == Seq::<
            ActionView,
        >::empty(),
        local_change_state(applied_state(state, content, now), content, id, timestamp)
            == applied_state(state, content, now),
{
}

/// A content copied twice in a row is recorded and sent once. A history
/// that keeps no item cannot tell.
pub proof fn law_repeated_copy_is_sent_once(
    state: CoordinatorView,
    content: Seq<char>,
    first_id: Seq<char>,
    first_time: i64,
    second_id: Seq<char>,
    second_time: i64,
)
    requires
        state.history.max_items > 0,
    ensures
        ({
            let after_first = local_change_state(state, content, first_id, first_time);
            &&& local_change_actions(after_first, content) == Seq::<ActionView>::empty()
            &&& local_change_state(after_first, content, second_id, second_time) == after_first
        }),
{
}

/// Whatever the coordinator handles, a history that was within its bound
/// and free of adjacent duplicates stays so, and the bound itself never
/// changes.
pub proof fn law_events_keep_the_history_well_formed(
    state: CoordinatorView,
    event: WsEventView,
    local: ClipboardEventView,
    id: Seq<char>,
    now: i64,
    content: Seq<char>,
)
    requires
        well_formed(state.history.items, state.history.max_items),
    ensures
        well_formed(ws_state(state, event).history.items, state.history.max_items),
        well_formed(clipboard_state(state, local, id, now).history.items, state.history.max_items),
        well_formed(applied_state(state, content, now).history.items, state.history.max_items),
        ws_state(state, event).history.max_items == state.history.max_items,
        clipboard_state(state, local, id, now).history.max_items == state.history.max_items,
        applied_state(state, content, now).history.max_items == state.history.max_items,
{
    lemma_inserted_well_formed(
        state.history.items,
        remote_item(remote_id(now), content, now),
        state.history.max_items,
    );
    match local {
        ClipboardEventView::LocalChange(copied) => {
            lemma_inserted_well_formed(
                state.history.items,
                local_item(id, copied, now),
                state.history.max_items,
            );
        },
        ClipboardEventView::Error(_) => {},
    }
    match event {
        WsEventView::ClipboardHistory(entries) => {
            law_history_stays_well_formed(
                Seq::empty(),
                remote_items(entries),
                state.history.max_items,
            );
        },
        _ => {},
    }
}

} // verus!
