//! Entries of the action log.

use crate::filesystem::child;
use crate::filesystem::join;
use crate::platform::now;
use crate::platform::rfc3339;
use crate::platform::uppercase;
use crate::platform::uppercased;
use vstd::prelude::*;
use vstd::string::*;

verus! {

/// One line of the action log.
#[derive(Debug, Clone)]
pub struct LogAction {
    /// When the action happened, as RFC 3339 text.
    pub timestamp: String,
    /// What happened, in upper case.
    pub action: String,
    /// Free-form detail.
    pub detail: Option<String>,
}

/// Mathematical view of a [`LogAction`].
pub struct LogActionView {
    pub timestamp: Seq<char>,
    pub action: Seq<char>,
    pub detail: Option<Seq<char>>,
}

impl View for LogAction {
    type V = LogActionView;

    open spec fn view(&self) -> LogActionView {
        LogActionView {
            timestamp: self.timestamp@,
            action: self.action@,
            detail: self.detail.deep_view(),
        }
    }
}

impl LogAction {
    /// The entry with exactly these fields.
    pub fn new(timestamp: String, action: String, detail: Option<String>) -> (entry: Self)
        ensures
            entry@ == (LogActionView {
                timestamp: timestamp@,
                action: action@,
                detail: detail.deep_view(),
            }),
    {
        LogAction { timestamp, action, detail }
    }
}

/// What is to be done on disk to record one entry: create `directory` if
/// it is missing, then append `line` to `file`, creating the file if it is
/// missing.
#[derive(Debug, Clone)]
pub struct AppendRequest {
    pub directory: String,
    pub file: String,
    pub line: String,
}

/// Mathematical view of an [`AppendRequest`].
pub struct AppendRequestView {
    pub directory: Seq<char>,
    pub file: Seq<char>,
    pub line: Seq<char>,
}

impl View for AppendRequest {
    type V = AppendRequestView;

    open spec fn view(&self) -> AppendRequestView {
        AppendRequestView { directory: self.directory@, file: self.file@, line: self.line@ }
    }
}

/// Plans the recording of one entry in the log under `logs_dir`. `payload`
/// is the entry in its serialised form; it goes to `actions.log` as one
/// line, ended by a line feed.
pub fn log_action(logs_dir: &str, payload: &str) -> (request: AppendRequest)
    ensures
        request@ == (AppendRequestView {
            directory: logs_dir@,
            file: child(logs_dir@, "actions.log"@),
            line: payload@ + seq!['\n'],
        }),
{
    let mut line = String::from_str(payload);
    proof {
        reveal_strlit("\n");
        assert("\n"@ =~= seq!['\n']);
    }
    line.append("\n");
    AppendRequest {
        directory: String::from_str(logs_dir),
        file: join(logs_dir, "actions.log"),
        line,
    }
}

/// An entry for `action`, stamped with the current time: the action in
/// upper case, the detail as given.
pub fn info(action: &str, detail: Option<String>) -> (entry: LogAction)
    ensures
        entry@ == (LogActionView {
            timestamp: entry.timestamp@,
            action: uppercased(action@),
            detail: detail.deep_view(),
        }),
{
    let instant = now();
    LogAction::new(rfc3339(&instant), uppercase(action), detail)
}

} // verus!
