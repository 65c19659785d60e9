//! The messages exchanged with the relay: the typed events that inbound
//! frames stand for, and the frames that go out.

use vstd::prelude::*;
use crate::json::{
    as_elements, doc_elements, doc_member, integer_member, integer_of, json_doc, json_docs,
    json_parsed, json_quoted, member, parse, quoted, text_member, text_of, JsonDoc,
};
use crate::text::{decimal, decimal_i64, text_view};

verus! {

/// One entry of the history that the relay holds.
#[derive(Clone, Debug, PartialEq, Eq)]
pub struct HistoryData {
    pub id: String,
    pub content: String,
    pub timestamp: i64,
}

/// A relay history entry as a mathematical value.
pub struct HistoryDataView {
    pub id: Seq<char>,
    pub content: Seq<char>,
    pub timestamp: i64,
}

impl View for HistoryData {
    type V = HistoryDataView;

    open spec fn view(&self) -> HistoryDataView {
        HistoryDataView { id: self.id@, content: self.content@, timestamp: self.timestamp }
    }
}

/// The views of a sequence of relay history entries, in the same order.
pub open spec fn data_views(entries: Seq<HistoryData>) -> Seq<HistoryDataView> {
    entries.map_values(|entry: HistoryData| entry@)
}

/// What the connection reports to the coordinator.
#[derive(Clone, Debug, PartialEq, Eq)]
pub enum WsEvent {
    Connected,
    Disconnected,
    ClipboardUpdate(String),
    ClipboardHistory(Vec<HistoryData>),
    ClearHistory,
    Error(String),
}

/// A connection event as a mathematical value.
pub enum WsEventView {
    Connected,
    Disconnected,
    ClipboardUpdate(Seq<char>),
    ClipboardHistory(Seq<HistoryDataView>),
    ClearHistory,
    Error(Seq<char>),
}

impl View for WsEvent {
    type V = WsEventView;

    open spec fn view(&self) -> WsEventView {
        match self {
            WsEvent::Connected => WsEventView::Connected,
            WsEvent::Disconnected => WsEventView::Disconnected,
            WsEvent::ClipboardUpdate(content) => WsEventView::ClipboardUpdate(content@),
            WsEvent::ClipboardHistory(entries) => WsEventView::ClipboardHistory(
                data_views(entries@),
            ),
            WsEvent::ClearHistory => WsEventView::ClearHistory,
            WsEvent::Error(message) => WsEventView::Error(message@),
        }
    }
}

/// The view of an event that may be absent.
pub open spec fn ws_event_view(event: Option<WsEvent>) -> Option<WsEventView> {
    match event {
        Some(e) => Some(e@),
        None => None,
    }
}

/// The view of what an inbound frame led to.
pub open spec fn outcome_view(outcome: Result<Option<WsEvent>, FrameError>) -> Result<
    Option<WsEventView>,
    FrameError,
> {
    match outcome {
        Ok(event) => Ok(ws_event_view(event)),
        Err(error) => Err(error),
    }
}

/// Why an inbound frame was dropped. A dropped frame is to be logged; it
/// does not end the connection.
#[derive(Clone, Copy, Debug, PartialEq, Eq, Structural)]
pub enum FrameError {
    /// The frame is not a JSON document.
    Malformed,
    /// The frame has no `type`, or one that is not known.
    Unknown,
}

/// The parts of an inbound frame that decide which event it stands for.
#[derive(Clone, Debug, PartialEq, Eq)]
pub struct InboundFrame {
    /// The text under `type`.
    pub kind: Option<String>,
    /// The text under `content` inside `data`.
    pub content: Option<String>,
    /// The entries under `history`, where each of them is complete.
    pub history: Option<Vec<HistoryData>>,
    /// The text under `error`.
    pub error: Option<String>,
}

/// An inbound frame as a mathematical value.
pub struct FrameView {
    pub kind: Option<Seq<char>>,
    pub content: Option<Seq<char>>,
    pub history: Option<Seq<HistoryDataView>>,
    pub error: Option<Seq<char>>,
}

/// The view of an entry that may be absent.
pub open spec fn entry_view(entry: Option<HistoryData>) -> Option<HistoryDataView> {
    match entry {
        Some(e) => Some(e@),
        None => None,
    }
}

/// The view of a list of entries that may be absent.
pub open spec fn entries_view(entries: Option<Vec<HistoryData>>) -> Option<Seq<HistoryDataView>> {
    match entries {
        Some(e) => Some(data_views(e@)),
        None => None,
    }
}

impl View for InboundFrame {
    type V = FrameView;

    open spec fn view(&self) -> FrameView {
        FrameView {
            kind: text_view(self.kind),
            content: text_view(self.content),
            history: entries_view(self.history),
            error: text_view(self.error),
        }
    }
}

/// The history entry that a JSON document stands for: an object with a
/// text under `id`, a text under `content` and an integer under
/// `timestamp`.
pub open spec fn entry_of(value: JsonDoc) -> Option<HistoryDataView> {
    match (
        text_member(value, "id"@),
        text_member(value, "content"@),
        integer_member(value, "timestamp"@),
    ) {
        (Some(id), Some(content), Some(timestamp)) => Some(
            HistoryDataView { id, content, timestamp },
        ),
        _ => None,
    }
}

/// The history entries that a sequence of JSON documents stands for, in
/// the same order; absent where one of them is no entry.
pub open spec fn entries_of(values: Seq<JsonDoc>) -> Option<Seq<HistoryDataView>> {
    if forall|i: int| 0 <= i < values.len() ==> (#[trigger] entry_of(values[i])) is Some {
        Some(Seq::new(values.len(), |i: int| entry_of(values[i]).unwrap()))
    } else {
        None
    }
}

/// The history that a JSON document stands for: an array of history
/// entries.
pub open spec fn history_of(value: JsonDoc) -> Option<Seq<HistoryDataView>> {
    match doc_elements(value) {
        Some(values) => entries_of(values),
        None => None,
    }
}

/// The parts of a JSON document that decide which event it stands for.
pub open spec fn frame_of(value: JsonDoc) -> FrameView {
    FrameView {
        kind: text_member(value, "type"@),
        content: match doc_member(value, "data"@) {
            Some(data) => text_member(data, "content"@),
            None => None,
        },
        history: match doc_member(value, "history"@) {
            Some(history) => history_of(history),
            None => None,
        },
        error: text_member(value, "error"@),
    }
}

/// The event that an inbound frame stands for, decided by its `type`. A
/// frame without a type or with a type that is not known is an error. A
/// frame of a known type that lacks its payload, and the heartbeat's
/// `pong`, stand for no event.
pub open spec fn event_of(frame: FrameView) -> Result<Option<WsEventView>, FrameError> {
    match frame.kind {
        None => Err(FrameError::Unknown),
        Some(kind) => if kind == "clipboard_update"@ {
            Ok(
                match frame.content {
                    Some(content) => Some(WsEventView::ClipboardUpdate(content)),
                    None => None,
                },
            )
        } else if kind == "clipboard_history"@ {
            Ok(
                match frame.history {
                    Some(entries) => Some(WsEventView::ClipboardHistory(entries)),
                    None => None,
                },
            )
        } else if kind == "clear_history"@ {
            Ok(Some(WsEventView::ClearHistory))
        } else if kind == "pong"@ {
            Ok(None)
        } else if kind == "error"@ {
            Ok(
                match frame.error {
                    Some(message) => Some(WsEventView::Error(message)),
                    None => None,
                },
            )
        } else {
            Err(FrameError::Unknown)
        },
    }
}

/// What the text of an inbound frame leads to: an error where it is no
/// JSON document, else what the document stands for.
pub open spec fn message_outcome(text: Seq<char>) -> Result<Option<WsEventView>, FrameError> {
    match json_parsed(text) {
        Some(value) => event_of(frame_of(value)),
        None => Err(FrameError::Malformed),
    }
}

/// The frame that asks the relay for its history.
pub open spec fn history_request_text() -> Seq<char> {
    "{\"type\":\"clipboard_history\"}"@
}

/// The update frame around a content that is already written as a JSON
/// string.
pub open spec fn update_frame(written: Seq<char>, timestamp: i64) -> Seq<char> {
    "{\"type\":\"clipboard_update\",\"data\":{\"content\":"@ + written
        + ",\"timestamp\":"@ + decimal(timestamp as int) + "}}"@
}

/// The frame that tells the relay of a content copied at `timestamp`.
pub open spec fn update_text(content: Seq<char>, timestamp: i64) -> Seq<char> {
    update_frame(json_quoted(content), timestamp)
}

/// The address to connect to: the relay's address with the token as a
/// query parameter.
pub open spec fn endpoint_text(url: Seq<char>, token: Seq<char>) -> Seq<char> {
    url + "?token="@ + token
}

/// Whether `text` is exactly `expected`.
fn is_text(text: &String, expected: &str) -> (same: bool)
    ensures
        same == (text@ == expected@),
{
    let wanted = expected.to_owned();
    *text == wanted
}

/// Reads one history entry from a JSON value.
pub fn read_entry(value: &serde_json::Value) -> (entry: Option<HistoryData>)
    ensures
        entry_view(entry) == entry_of(json_doc(*value)),
{
    let id = text_of(value, "id");
    let content = text_of(value, "content");
    let timestamp = integer_of(value, "timestamp");
    match (id, content, timestamp) {
        (Some(id), Some(content), Some(timestamp)) => Some(HistoryData { id, content, timestamp }),
        _ => None,
    }
}

/// Reads a history from a JSON value: every element of the array must be
/// an entry.
pub fn read_history(value: &serde_json::Value) -> (entries: Option<Vec<HistoryData>>)
    ensures
        entries_view(entries) == history_of(json_doc(*value)),
{
    match as_elements(value) {
        None => None,
        Some(values) => {
            let ghost docs = json_docs(values@);
            let mut entries: Vec<HistoryData> = Vec::new();
            let mut i: usize = 0;
            while i < values.len()
                invariant
                    doc_elements(json_doc(*value)) == Some(docs),
                    docs == json_docs(values@),
                    i <= values.len(),
                    entries@.len() == i,
                    forall|j: int| 0 <= j < i ==> (#[trigger] entry_of(docs[j])) is Some,
                    forall|j: int|
                        0 <= j < i ==> entry_of(docs[j]) == Some((#[trigger] entries@[j])@),
                decreases values.len() - i,
            {
                assert(docs[i as int] == json_doc(values@[i as int]));
                match read_entry(&values[i]) {
                    Some(entry) => {
                        entries.push(entry);
                    },
                    None => {
                        assert(entry_of(docs[i as int]) is None);
                        return None;
                    },
                }
                i += 1;
            }
            assert(data_views(entries@) =~= entries_of(docs).unwrap());
            Some(entries)
        },
    }
}

/// Reads from a JSON document the parts that decide its event.
pub fn read_frame(value: &serde_json::Value) -> (frame: InboundFrame)
    ensures
        frame@ == frame_of(json_doc(*value)),
{
    let kind = text_of(value, "type");
    let content = match member(value, "data") {
        Some(data) => text_of(data, "content"),
        None => None,
    };
    let history = match member(value, "history") {
        Some(history) => read_history(history),
        None => None,
    };
    let error = text_of(value, "error");
    InboundFrame { kind, content, history, error }
}

/// The client's settings: where the relay is, and the token it asks for.
#[derive(Clone, Debug, PartialEq, Eq)]
pub struct WebSocketClient {
    token: String,
    url: String,
}

impl WebSocketClient {
    /// A client for the relay at `websocket_url`, with `token`.
    pub fn new(token: String, websocket_url: String) -> (client: WebSocketClient)
        ensures
            client.token_text() == token@,
            client.url_text() == websocket_url@,
    {
        WebSocketClient { token, url: websocket_url }
    }

    /// The token, as a mathematical value.
    pub closed spec fn token_text(&self) -> Seq<char> {
        self.token@
    }

    /// The relay's address, as a mathematical value.
    pub closed spec fn url_text(&self) -> Seq<char> {
        self.url@
    }

    /// The address to connect to, token included.
    pub fn endpoint(&self) -> (address: String)
        ensures
            address@ == endpoint_text(self.url_text(), self.token_text()),
    {
        self.url.clone().concat("?token=").concat(self.token.as_str())
    }

    /// The event that an inbound frame stands for, decided by its `type`.
    pub fn event_for(frame: InboundFrame) -> (outcome: Result<Option<WsEvent>, FrameError>)
        ensures
            outcome_view(outcome) == event_of(frame@),
    {
        match frame.kind {
            None => Err(FrameError::Unknown),
            Some(kind) => {
                if is_text(&kind, "clipboard_update") {
                    Ok(
                        match frame.content {
                            Some(content) => Some(WsEvent::ClipboardUpdate(content)),
                            None => None,
                        },
                    )
                } else if is_text(&kind, "clipboard_history") {
                    Ok(
                        match frame.history {
                            Some(entries) => Some(WsEvent::ClipboardHistory(entries)),
                            None => None,
                        },
                    )
                } else if is_text(&kind, "clear_history") {
                    Ok(Some(WsEvent::ClearHistory))
                } else if is_text(&kind, "pong") {
                    Ok(None)
                } else if is_text(&kind, "error") {
                    Ok(
                        match frame.error {
                            Some(message) => Some(WsEvent::Error(message)),
                            None => None,
                        },
                    )
                } else {
                    Err(FrameError::Unknown)
                }
            },
        }
    }

    /// Turns the text of an inbound frame into the event it stands for.
    /// A text that is no JSON document is an error, and so is a document
    /// of no known type.
    pub fn handle_message(&self, text: &str) -> (outcome: Result<Option<WsEvent>, FrameError>)
        ensures
            outcome_view(outcome) == message_outcome(text@),
    {
        match parse(text) {
            Ok(value) => Self::event_for(read_frame(&value)),
            Err(_) => Err(FrameError::Malformed),
        }
    }

    /// The frame that asks the relay for its history.
    pub fn history_request() -> (frame: String)
        ensures
            frame@ == history_request_text(),
    {
        "{\"type\":\"clipboard_history\"}".to_owned()
    }

    /// The update frame around `written`, a content already written as a
    /// JSON string, copied at `timestamp` (milliseconds since the epoch).
    pub fn update_frame_around(written: &str, timestamp: i64) -> (frame: String)
        ensures
            frame@ == update_frame(written@, timestamp),
    {
        let stamp = decimal_i64(timestamp);
        "{\"type\":\"clipboard_update\",\"data\":{\"content\":".to_owned().concat(written).concat(
            ",\"timestamp\":",
        ).concat(stamp.as_str()).concat("}}")
    }

    /// The frame that tells the relay of `content`, copied at `timestamp`
    /// (milliseconds since the epoch).
    pub fn update_message(content: &str, timestamp: i64) -> (frame: String)
        ensures
            frame@ == update_text(content@, timestamp),
    {
        Self::update_frame_around(quoted(content).as_str(), timestamp)
    }
}

} // verus!
