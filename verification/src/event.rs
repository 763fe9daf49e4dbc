//! What a run produces: notices for the notifier and entries for the log.

use vstd::prelude::*;
use vstd::string::StringExecFns;
use crate::progress::Progress;
use crate::stage::RunMode;

verus! {

/// The output stream of the tool that a line came from.
#[derive(Clone, Copy, Debug, PartialEq, Eq, Structural)]
pub enum StreamTag {
    Stdout,
    Stderr,
}

impl StreamTag {
    /// The tag as it is written in the log and in events.
    pub open spec fn spec_as_str(self) -> Seq<char> {
        match self {
            StreamTag::Stdout => "stdout"@,
            StreamTag::Stderr => "stderr"@,
        }
    }

    pub fn as_str(&self) -> (name: &'static str)
        ensures
            name@ == self.spec_as_str(),
    {
        match self {
            StreamTag::Stdout => "stdout",
            StreamTag::Stderr => "stderr",
        }
    }
}

/// An event for the notifier.
#[derive(Clone, Debug, PartialEq, Eq)]
#[allow(inconsistent_fields)]
pub enum Notice {
    RunStarted { mode: RunMode, log_path: String, config_path: String, persisted_path: Option<String> },
    TerminalWarning { message: String },
    LogLine { mode: RunMode, stream: StreamTag, line: String },
    Progress { mode: RunMode, stage_key: String, stage_label: String, progress: Progress },
    RunComplete { mode: RunMode, success: bool, exit_code: Option<i32>, message: Option<String> },
}

/// An event for the notifier as plain data.
#[verifier::ext_equal]
#[allow(inconsistent_fields)]
pub enum NoticeView {
    RunStarted {
        mode: RunMode,
        log_path: Seq<char>,
        config_path: Seq<char>,
        persisted_path: Option<Seq<char>>,
    },
    TerminalWarning { message: Seq<char> },
    LogLine { mode: RunMode, stream: StreamTag, line: Seq<char> },
    Progress { mode: RunMode, stage_key: Seq<char>, stage_label: Seq<char>, progress: Progress },
    RunComplete { mode: RunMode, success: bool, exit_code: Option<i32>, message: Option<Seq<char>> },
}

/// An optional text as plain data.
pub open spec fn text_of(text: Option<String>) -> Option<Seq<char>> {
    match text {
        Some(t) => Some(t@),
        None => None,
    }
}

impl View for Notice {
    type V = NoticeView;

    open spec fn view(&self) -> NoticeView {
        match *self {
            Notice::RunStarted { mode, log_path, config_path, persisted_path } => {
                NoticeView::RunStarted {
                    mode,
                    log_path: log_path@,
                    config_path: config_path@,
                    persisted_path: text_of(persisted_path),
                }
            },
            Notice::TerminalWarning { message } => NoticeView::TerminalWarning {
                message: message@,
            },
            Notice::LogLine { mode, stream, line } => NoticeView::LogLine {
                mode,
                stream,
                line: line@,
            },
            Notice::Progress { mode, stage_key, stage_label, progress } => NoticeView::Progress {
                mode,
                stage_key: stage_key@,
                stage_label: stage_label@,
                progress,
            },
            Notice::RunComplete { mode, success, exit_code, message } => NoticeView::RunComplete {
                mode,
                success,
                exit_code,
                message: text_of(message),
            },
        }
    }
}

/// What the caller of the run state machine has to do next.
#[derive(Clone, Debug, PartialEq, Eq)]
pub enum Action {
    /// Append this text as one line to the log.
    AppendLog(String),
    /// Hand this event to the notifier.
    Notify(Notice),
}

/// An action as plain data.
#[verifier::ext_equal]
pub enum ActionView {
    AppendLog(Seq<char>),
    Notify(NoticeView),
}

impl View for Action {
    type V = ActionView;

    open spec fn view(&self) -> ActionView {
        match *self {
            Action::AppendLog(text) => ActionView::AppendLog(text@),
            Action::Notify(notice) => ActionView::Notify(notice@),
        }
    }
}

/// A list of actions as plain data.
pub open spec fn action_views(actions: Seq<Action>) -> Seq<ActionView> {
    actions.map_values(|a: Action| a@)
}

/// The log entry of a line: the stream tag, a colon, a space, the line.
pub open spec fn log_entry(stream: StreamTag, line: Seq<char>) -> Seq<char> {
    stream.spec_as_str() + ": "@ + line
}

/// The warning that the companion terminal could not be opened.
pub open spec fn terminal_warning_text(reason: Seq<char>) -> Seq<char> {
    "Could not launch external terminal: "@ + reason
}

pub fn format_log_entry(stream: StreamTag, line: &str) -> (entry: String)
    ensures
        entry@ == log_entry(stream, line@),
{
    let mut entry = String::from_str(stream.as_str());
    entry.append(": ");
    entry.append(line);
    entry
}

pub fn terminal_warning(reason: &str) -> (notice: Notice)
    ensures
        notice@ == (NoticeView::TerminalWarning { message: terminal_warning_text(reason@) }),
{
    let mut message = String::from_str("Could not launch external terminal: ");
    message.append(reason);
    Notice::TerminalWarning { message }
}

} // verus!
