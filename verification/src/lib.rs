//! Clipboard synchronisation through a relay: the history of recent
//! clipboard contents with its backlog of undelivered entries, the watcher
//! that tells local changes from echoes of its own writes, the relay
//! connection's protocol and life cycle, and the coordinator that joins them.

pub mod clipboard;
pub mod clock;
pub mod config;
pub mod connection;
pub mod coordinator;
pub mod history;
pub mod icon;
pub mod json;
pub mod text;
pub mod tray;
pub mod websocket;
