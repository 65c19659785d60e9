//! Telling clipboard changes made by the user from the echo of a write
//! that this program made itself.

use vstd::prelude::*;

verus! {

/// What the watcher reports to the coordinator.
#[derive(Clone, Debug, PartialEq, Eq)]
pub enum ClipboardEvent {
    /// The user put a new content on the clipboard.
    LocalChange(String),
    /// The clipboard could not be read or watched.
    Error(String),
}

/// A watcher event as a mathematical value.
pub enum ClipboardEventView {
    LocalChange(Seq<char>),
    Error(Seq<char>),
}

impl View for ClipboardEvent {
    type V = ClipboardEventView;

    open spec fn view(&self) -> ClipboardEventView {
        match self {
            ClipboardEvent::LocalChange(content) => ClipboardEventView::LocalChange(content@),
            ClipboardEvent::Error(message) => ClipboardEventView::Error(message@),
        }
    }
}

/// The view of an event that may be absent.
pub open spec fn event_view(event: Option<ClipboardEvent>) -> Option<ClipboardEventView> {
    match event {
        Some(e) => Some(e@),
        None => None,
    }
}

/// The watcher's memory as a mathematical value.
pub struct WatcherView {
    /// The content last seen on, or written to, the clipboard.
    pub last_content: Seq<char>,
    /// Whether the next observation is to be passed over.
    pub armed: bool,
}

/// The watcher before a write: a write caused by the relay arms the
/// suppression of the next observation; a write of the user's own leaves
/// the flag as it was.
pub open spec fn armed_for(watcher: WatcherView, from_remote: bool) -> WatcherView {
    WatcherView { last_content: watcher.last_content, armed: watcher.armed || from_remote }
}

/// The watcher after `text` was written to the clipboard.
pub open spec fn written(watcher: WatcherView, text: Seq<char>) -> WatcherView {
    WatcherView { last_content: text, armed: watcher.armed }
}

/// The watcher after it saw `text` on the clipboard.
pub open spec fn observed_state(watcher: WatcherView, text: Seq<char>) -> WatcherView {
    WatcherView { last_content: text, armed: false }
}

/// What the watcher reports when it sees `text` on the clipboard: nothing
/// while armed, nothing where the content is the one last seen, else the
/// local change.
pub open spec fn observed_event(watcher: WatcherView, text: Seq<char>) -> Option<
    ClipboardEventView,
> {
    if watcher.armed || text == watcher.last_content {
        None
    } else {
        Some(ClipboardEventView::LocalChange(text))
    }
}

/// What the watcher remembers between two observations of the clipboard.
pub struct WatcherState {
    last_content: String,
    ignore_next: bool,
}

impl View for WatcherState {
    type V = WatcherView;

    closed spec fn view(&self) -> WatcherView {
        WatcherView { last_content: self.last_content@, armed: self.ignore_next }
    }
}

impl WatcherState {
    /// A watcher that has seen nothing yet and is not armed.
    pub fn new() -> (watcher: WatcherState)
        ensures
            watcher@ == (WatcherView { last_content: Seq::<char>::empty(), armed: false }),
    {
        WatcherState { last_content: String::new(), ignore_next: false }
    }

    /// Takes `text`, read from the clipboard when watching starts, as the
    /// content last seen.
    pub fn prime(&mut self, text: String)
        ensures
            final(self)@ == written(old(self)@, text@),
    {
        self.last_content = text;
    }

    /// To be called right before a write to the clipboard. Where the write
    /// is caused by the relay, the flag is armed; it stays armed if the
    /// write then fails, until the next observation.
    pub fn before_write(&mut self, from_remote: bool)
        ensures
            final(self)@ == armed_for(old(self)@, from_remote),
    {
        if from_remote {
            self.ignore_next = true;
        }
    }

    /// To be called after `text` was written to the clipboard.
    pub fn after_write(&mut self, text: String)
        ensures
            final(self)@ == written(old(self)@, text@),
    {
        self.last_content = text;
    }

    /// Takes an observation of the clipboard: `text` is what it holds now.
    /// An armed watcher disarms and reports nothing; else a content other
    /// than the last one seen is reported as a local change. Either way
    /// `text` becomes the content last seen.
    pub fn observe(&mut self, text: String) -> (event: Option<ClipboardEvent>)
        ensures
            final(self)@ == observed_state(old(self)@, text@),
            event_view(event) == observed_event(old(self)@, text@),
    {
        if self.ignore_next {
            self.ignore_next = false;
            self.last_content = text;
            None
        } else if text == self.last_content {
            self.last_content = text;
            None
        } else {
            self.last_content = text.clone();
            Some(ClipboardEvent::LocalChange(text))
        }
    }

    /// The event for a failure to read or watch the clipboard. The
    /// watcher's memory is not touched: watching goes on.
    pub fn failure(&self, message: String) -> (event: ClipboardEvent)
        ensures
            event@ == ClipboardEventView::Error(message@),
    {
        ClipboardEvent::Error(message)
    }

    /// Whether the next observation will be passed over.
    pub fn is_armed(&self) -> (armed: bool)
        ensures
            armed == self@.armed,
    {
        self.ignore_next
    }

    /// The content last seen on, or written to, the clipboard.
    pub fn last_content(&self) -> (text: &String)
        ensures
            text@ == self@.last_content,
    {
        &self.last_content
    }
}

/// After a write of `content` caused by the relay, seeing `content` on the
/// clipboard reports nothing, and a different content seen after that is
/// reported as a local change, as it would be had no write taken place.
pub proof fn law_loopback_suppression(
    watcher: WatcherView,
    content: Seq<char>,
    next: Seq<char>,
)
    requires
        next != content,
    ensures
        ({
            let after_write = written(armed_for(watcher, true), content);
            let after_echo = observed_state(after_write, content);
            &&& observed_event(after_write, content) is None
            &&& !after_echo.armed
            &&& observed_event(after_echo, next) == Some(ClipboardEventView::LocalChange(next))
        }),
{
}

/// An armed watcher passes over exactly one observation, whatever the
/// clipboard holds then.
pub proof fn law_armed_watcher_skips_one(watcher: WatcherView, seen: Seq<char>)
    requires
        watcher.armed,
    ensures
        observed_event(watcher, seen) is None,
        !observed_state(watcher, seen).armed,
        observed_state(watcher, seen).last_content == seen,
{
}

} // verus!
