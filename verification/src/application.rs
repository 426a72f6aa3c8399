use std::sync::Arc;
use vstd::prelude::*;

use crate::configuration::EnvConfig;

verus! {

/// A running service: its settings, its shared context and where it runs.
pub struct Application<TAppContext, TSettingsModel> {
    pub settings: Arc<TSettingsModel>,
    pub context: Arc<TAppContext>,
    pub env_config: Arc<EnvConfig>,
}

/// The level at which an event is logged.
#[derive(Clone, Copy, Debug, PartialEq, Eq, Structural)]
pub enum LogLevel {
    Info,
    Error,
}

/// An error as it is shown in a log record.
pub struct ErrorDetail {
    /// The error as its `Display` shows it.
    pub message: String,
    /// The error with its chain of causes, as its `Debug` shows it.
    pub cause_chain: String,
}

/// How a background task ended.
pub enum TaskOutcome {
    /// The task returned successfully.
    Finished,
    /// The task returned an error.
    Failed(ErrorDetail),
    /// The task could not run to its end (it panicked or was cancelled).
    Aborted(ErrorDetail),
}

/// The log record that reports how a task ended.
pub struct ExitReport {
    pub level: LogLevel,
    pub message: String,
    pub error: Option<ErrorDetail>,
}

/// How a task ended, without the error's text.
#[derive(Clone, Copy, Debug, PartialEq, Eq, Structural)]
pub enum OutcomeKind {
    Finished,
    Failed,
    Aborted,
}

/// An error detail over mathematical values: (message, cause chain).
pub open spec fn detail_view(d: ErrorDetail) -> (Seq<char>, Seq<char>) {
    (d.message@, d.cause_chain@)
}

impl TaskOutcome {
    pub open spec fn kind(self) -> OutcomeKind {
        match self {
            TaskOutcome::Finished => OutcomeKind::Finished,
            TaskOutcome::Failed(_) => OutcomeKind::Failed,
            TaskOutcome::Aborted(_) => OutcomeKind::Aborted,
        }
    }

    /// The error that the outcome carries, if any.
    pub open spec fn detail(self) -> Option<(Seq<char>, Seq<char>)> {
        match self {
            TaskOutcome::Finished => None,
            TaskOutcome::Failed(d) => Some(detail_view(d)),
            TaskOutcome::Aborted(d) => Some(detail_view(d)),
        }
    }
}

impl ExitReport {
    /// The error that the report carries, if any.
    pub open spec fn detail(self) -> Option<(Seq<char>, Seq<char>)> {
        match self.error {
            None => None,
            Some(d) => Some(detail_view(d)),
        }
    }
}

/// The level at which an outcome is reported: only a successful end is not an error.
pub open spec fn exit_level(kind: OutcomeKind) -> LogLevel {
    match kind {
        OutcomeKind::Finished => LogLevel::Info,
        _ => LogLevel::Error,
    }
}

/// The message that reports how the task called `task` ended.
pub open spec fn exit_message(task: Seq<char>, kind: OutcomeKind) -> Seq<char> {
    match kind {
        OutcomeKind::Finished => task + " has exited"@,
        OutcomeKind::Failed => task + " failed"@,
        OutcomeKind::Aborted => task + "' task failed to complete"@,
    }
}

/// The text after the task's name in a report of how it ended.
pub open spec fn exit_suffix(kind: OutcomeKind) -> Seq<char> {
    exit_message(Seq::empty(), kind)
}

/// A report names the task it is about: its message is the task's whole name
/// followed by a text that depends on how the task ended and not on its name, so
/// reports about two tasks that ended alike differ only in the name. That text is
/// " has exited", " failed" or "' task failed to complete".
pub proof fn lemma_report_names_its_task(task: Seq<char>, other: Seq<char>, kind: OutcomeKind)
    ensures
        exit_message(task, kind).subrange(0, task.len() as int) == task,
        exit_message(task, kind) == task + exit_suffix(kind),
        exit_message(task, kind).len() == task.len() + exit_suffix(kind).len(),
        exit_message(task, kind).subrange(task.len() as int, exit_message(task, kind).len() as int)
            == exit_message(other, kind).subrange(
            other.len() as int,
            exit_message(other, kind).len() as int,
        ),
        exit_suffix(OutcomeKind::Finished) == " has exited"@,
        exit_suffix(OutcomeKind::Failed) == " failed"@,
        exit_suffix(OutcomeKind::Aborted) == "' task failed to complete"@,
{
    let m = exit_message(task, kind);
    let o = exit_message(other, kind);
    assert(Seq::<char>::empty() + " has exited"@ =~= " has exited"@);
    assert(Seq::<char>::empty() + " failed"@ =~= " failed"@);
    assert(Seq::<char>::empty() + "' task failed to complete"@ =~= "' task failed to complete"@);
    assert(m.subrange(0, task.len() as int) =~= task);
    assert(m.subrange(task.len() as int, m.len() as int) =~= exit_suffix(kind));
    assert(o.subrange(other.len() as int, o.len() as int) =~= exit_suffix(kind));
}

/// Builds the log record that reports how the task called `task_name` ended.
pub fn report_exit(task_name: &str, outcome: TaskOutcome) -> (report: ExitReport)
    ensures
        report.level == exit_level(outcome.kind()),
        report.message@ == exit_message(task_name@, outcome.kind()),
        report.detail() == outcome.detail(),
        report.level == LogLevel::Info <==> outcome is Finished,
        report.level == LogLevel::Error <==> !(outcome is Finished),
        report.error is None <==> outcome is Finished,
        outcome.kind() == OutcomeKind::Finished ==> report.message@ == task_name@
            + " has exited"@,
        outcome.kind() == OutcomeKind::Failed ==> report.message@ == task_name@ + " failed"@,
        outcome.kind() == OutcomeKind::Aborted ==> report.message@ == task_name@
            + "' task failed to complete"@,
{
    let name = String::from_str(task_name);
    match outcome {
        TaskOutcome::Finished => ExitReport {
            level: LogLevel::Info,
            message: name.concat(" has exited"),
            error: None,
        },
        TaskOutcome::Failed(e) => ExitReport {
            level: LogLevel::Error,
            message: name.concat(" failed"),
            error: Some(e),
        },
        TaskOutcome::Aborted(e) => ExitReport {
            level: LogLevel::Error,
            message: name.concat("' task failed to complete"),
            error: Some(e),
        },
    }
}

/// What made the service begin to shut down.
pub enum StopCause {
    /// The process received the interrupt signal.
    Signal,
    /// The gRPC server task ended.
    GrpcServer(TaskOutcome),
    /// The HTTP server task ended.
    HttpServer(TaskOutcome),
}

/// What the service says when it begins to shut down.
pub enum StopNotice {
    /// A line printed on the console.
    Print(String),
    /// A record written to the log.
    Log(ExitReport),
}

/// The notice for a stop signal.
pub open spec fn stop_signal_text() -> Seq<char> {
    "Stop signal received!"@
}

/// The name under which the gRPC server task is reported.
pub open spec fn grpc_task_name() -> Seq<char> {
    "GRPC_SERVER"@
}

/// The name under which the HTTP server task is reported.
pub open spec fn http_task_name() -> Seq<char> {
    "HTTP_SERVER"@
}

/// What is said when the service begins to shut down for `cause`; whatever the cause,
/// the service then shuts down.
pub fn stop_notice(cause: StopCause) -> (notice: StopNotice)
    ensures
        match cause {
            StopCause::Signal => notice matches StopNotice::Print(t) && t@ == stop_signal_text(),
            StopCause::GrpcServer(o) => notice matches StopNotice::Log(r) && r.level == exit_level(
                o.kind(),
            ) && r.message@ == exit_message(grpc_task_name(), o.kind()) && r.detail()
                == o.detail() && r.message@ == "GRPC_SERVER"@ + exit_suffix(o.kind()),
            StopCause::HttpServer(o) => notice matches StopNotice::Log(r) && r.level == exit_level(
                o.kind(),
            ) && r.message@ == exit_message(http_task_name(), o.kind()) && r.detail()
                == o.detail() && r.message@ == "HTTP_SERVER"@ + exit_suffix(o.kind()),
        },
{
    match cause {
        StopCause::Signal => StopNotice::Print(String::from_str("Stop signal received!")),
        StopCause::GrpcServer(o) => StopNotice::Log(report_exit("GRPC_SERVER", o)),
        StopCause::HttpServer(o) => StopNotice::Log(report_exit("HTTP_SERVER", o)),
    }
}

} // verus!
