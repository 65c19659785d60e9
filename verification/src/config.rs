//! The settings of the program and where they are kept.

use vstd::prelude::*;
use crate::text::joined;

verus! {

/// How the program presents itself.
#[derive(Clone, Copy, Debug, PartialEq, Eq, Structural)]
pub enum AppMode {
    /// With a tray icon.
    Interactive,
    /// Without one.
    Silent,
}

/// Which notifications the user wants.
#[derive(Clone, Copy, Debug, PartialEq, Eq, Structural)]
pub struct NotificationConfig {
    pub local_copy: bool,
    pub remote_update: bool,
    pub errors: bool,
}

/// Settings of the clipboard history.
#[derive(Clone, Copy, Debug, PartialEq, Eq, Structural)]
pub struct ClipboardConfig {
    pub history_size: usize,
}

/// All settings.
#[derive(Clone, Debug, PartialEq, Eq)]
pub struct Config {
    pub token: String,
    pub websocket_url: String,
    pub http_url: String,
    pub mode: AppMode,
    pub auto_start: bool,
    pub notifications: NotificationConfig,
    pub clipboard: ClipboardConfig,
}

/// `name` inside the directory `dir`, on a system that separates the
/// parts of a path with `/`: the separator is put between the two unless
/// `dir` is empty or ends with one.
pub open spec fn path_in(dir: Seq<char>, name: Seq<char>) -> Seq<char> {
    if dir.len() == 0 || dir.last() == '/' {
        dir + name
    } else {
        dir + "/"@ + name
    }
}

/// `name` inside the directory `dir`.
fn path_join(dir: &str, name: &str) -> (path: String)
    ensures
        path@ == path_in(dir@, name@),
{
    let len = dir.unicode_len();
    if len == 0 || dir.get_char(len - 1) == '/' {
        joined(dir, name)
    } else {
        dir.to_owned().concat("/").concat(name)
    }
}

impl Default for Config {
    /// The settings of a fresh installation: no token yet, the public
    /// relay, a tray icon, and a history of a hundred items.
    fn default() -> (config: Config)
        ensures
            config.token@ == Seq::<char>::empty(),
            config.websocket_url@ == "wss://corridor-worker.corridor-sync.workers.dev/ws"@,
            config.http_url@ == "https://corridor-worker.corridor-sync.workers.dev/api"@,
            config.mode == AppMode::Interactive,
            config.auto_start,
            config.notifications == (NotificationConfig {
                local_copy: false,
                remote_update: true,
                errors: true,
            }),
            config.clipboard == (ClipboardConfig { history_size: 100 }),
    {
        Config {
            token: String::new(),
            websocket_url: "wss://corridor-worker.corridor-sync.workers.dev/ws".to_owned(),
            http_url: "https://corridor-worker.corridor-sync.workers.dev/api".to_owned(),
            mode: AppMode::Interactive,
            auto_start: true,
            notifications: NotificationConfig {
                local_copy: false,
                remote_update: true,
                errors: true,
            },
            clipboard: ClipboardConfig { history_size: 100 },
        }
    }
}

impl Config {
    /// The program's own directory inside the user's configuration
    /// directory `base`.
    pub fn config_dir_in(base: &str) -> (dir: String)
        ensures
            dir@ == path_in(base@, "corridor"@),
    {
        path_join(base, "corridor")
    }

    /// The settings file inside the program's directory `config_dir`.
    pub fn config_path(config_dir: &str) -> (path: String)
        ensures
            path@ == path_in(config_dir@, "config.json"@),
    {
        path_join(config_dir, "config.json")
    }

    /// Whether a token has been set.
    pub fn is_configured(&self) -> (configured: bool)
        ensures
            configured == (self.token@.len() > 0),
    {
        !self.token.as_str().is_empty()
    }
}

} // verus!
