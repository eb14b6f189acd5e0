//! The external task invoker: how the command-line tool is called for an
//! operation, and what its way of ending means.
//!
//! The host starts the child process and waits for it. This module says what
//! to start and, once the child is gone, how the operation ended and which
//! event, if any, reports it.

use crate::intent::{Intent, Signal};
use crate::text::{decode_lossy, utf8_lossy};
use vstd::prelude::*;
use vstd::string::*;

verus! {

/// An operation that is carried out by the command-line tool.
#[derive(Debug, PartialEq, Eq)]
pub enum Task {
    /// Record a capture under the given description.
    Capture { description: String },
    /// Take a snapshot of the state before a change.
    Snapshot,
}

/// A task as a mathematical value.
pub enum TaskView {
    Capture { description: Seq<char> },
    Snapshot,
}

/// A program to start, with its arguments.
#[derive(Debug, PartialEq, Eq)]
pub struct Invocation {
    pub program: String,
    pub args: Vec<String>,
}

/// How an attempt to run the child process ended.
#[derive(Debug, PartialEq, Eq)]
pub enum ProcessOutcome {
    /// The child could not be started; `reason` is the system's message.
    LaunchFailed { reason: String },
    /// The child ran and is gone. `code` is its exit code, or `None` if it
    /// ended without one; `stderr` is what it wrote to standard error.
    Exited { code: Option<i32>, stderr: Vec<u8> },
}

/// How an operation ended.
#[derive(Debug, PartialEq, Eq)]
pub enum TaskResult {
    Success,
    Failure(String),
}

/// A result as a mathematical value.
pub enum TaskResultView {
    Success,
    Failure(Seq<char>),
}

/// An event to put on the bus, with the text it carries, if any.
#[derive(Debug, PartialEq, Eq)]
pub struct Emission {
    pub signal: Signal,
    pub payload: Option<String>,
}

/// An emission as a mathematical value.
pub struct EmissionView {
    pub signal: Signal,
    pub payload: Option<Seq<char>>,
}

/// The end of an operation: its result, and the event that reports it.
#[derive(Debug, PartialEq, Eq)]
pub struct Conclusion {
    pub result: TaskResult,
    pub emission: Option<Emission>,
}

/// A conclusion as a mathematical value.
pub struct ConclusionView {
    pub result: TaskResultView,
    pub emission: Option<EmissionView>,
}

impl View for Task {
    type V = TaskView;

    open spec fn view(&self) -> TaskView {
        match self {
            Task::Capture { description } => TaskView::Capture { description: description@ },
            Task::Snapshot => TaskView::Snapshot,
        }
    }
}

impl View for TaskResult {
    type V = TaskResultView;

    open spec fn view(&self) -> TaskResultView {
        match self {
            TaskResult::Success => TaskResultView::Success,
            TaskResult::Failure(message) => TaskResultView::Failure(message@),
        }
    }
}

impl View for Emission {
    type V = EmissionView;

    open spec fn view(&self) -> EmissionView {
        EmissionView {
            signal: self.signal,
            payload: match self.payload {
                Some(text) => Some(text@),
                None => None,
            },
        }
    }
}

impl View for Conclusion {
    type V = ConclusionView;

    open spec fn view(&self) -> ConclusionView {
        ConclusionView {
            result: self.result@,
            emission: match self.emission {
                Some(emission) => Some(emission@),
                None => None,
            },
        }
    }
}

impl TaskView {
    /// The user action that the task carries out.
    pub open spec fn intent(self) -> Intent {
        match self {
            TaskView::Capture { .. } => Intent::Capture,
            TaskView::Snapshot => Intent::Snapshot,
        }
    }

    /// The arguments that the tool is started with: the script runner's two,
    /// then the subcommand and what it takes.
    pub open spec fn arguments(self) -> Seq<Seq<char>> {
        match self {
            TaskView::Capture { description } => seq![
                "run"@,
                "src/cli.ts"@,
                "capture"@,
                description,
            ],
            TaskView::Snapshot => seq!["run"@, "src/cli.ts"@, "snapshot"@, "before"@],
        }
    }

    /// The event that reports the task done. A capture's event carries the
    /// capture's own description.
    pub open spec fn completion(self) -> EmissionView {
        match self {
            TaskView::Capture { description } => EmissionView {
                signal: Signal::CaptureComplete,
                payload: Some(description),
            },
            TaskView::Snapshot => EmissionView {
                signal: Signal::ScreenshotComplete,
                payload: None,
            },
        }
    }

    /// What is said of a task whose child process could not be started.
    pub open spec fn launch_error(self, reason: Seq<char>) -> Seq<char> {
        match self {
            TaskView::Capture { .. } => "Failed to run capture: "@ + reason,
            TaskView::Snapshot => "Failed to take screenshot: "@ + reason,
        }
    }

    /// The conclusion when the child could not be started: a failure that
    /// says why, and no event.
    pub open spec fn launch_failed(self, reason: Seq<char>) -> ConclusionView {
        ConclusionView {
            result: TaskResultView::Failure(self.launch_error(reason)),
            emission: None,
        }
    }

    /// The conclusion when the child ran, given its exit code and the text of
    /// its standard error. Exit code 0 is success and is reported by the
    /// task's event. Anything else is a failure that carries the error text,
    /// and is reported by no event.
    pub open spec fn exited(self, code: Option<i32>, stderr_text: Seq<char>) -> ConclusionView {
        if code == Some(0i32) {
            ConclusionView { result: TaskResultView::Success, emission: Some(self.completion()) }
        } else {
            ConclusionView { result: TaskResultView::Failure(stderr_text), emission: None }
        }
    }
}

/// The conclusion that an outcome comes to. The child's standard error is
/// read as UTF-8, lossily.
pub open spec fn concluded(task: TaskView, outcome: ProcessOutcome) -> ConclusionView {
    match outcome {
        ProcessOutcome::LaunchFailed { reason } => task.launch_failed(reason@),
        ProcessOutcome::Exited { code, stderr } => task.exited(code, utf8_lossy(stderr@)),
    }
}

/// Whether the child ran and left with exit code 0.
pub open spec fn succeeded(outcome: ProcessOutcome) -> bool {
    outcome matches ProcessOutcome::Exited { code, .. } && code == Some(0i32)
}

/// The name of the program that runs the tool.
pub open spec fn program_name() -> Seq<char> {
    "bun"@
}

/// The command's answer to its caller, given the conclusion and, where the
/// event was sent, the error of sending it.
pub open spec fn answered(
    conclusion: ConclusionView,
    emit_error: Option<Seq<char>>,
) -> Result<(), Seq<char>> {
    match conclusion.result {
        TaskResultView::Failure(message) => Err(message),
        TaskResultView::Success => match (conclusion.emission, emit_error) {
            (Some(_), Some(cause)) => Err("Failed to emit event: "@ + cause),
            _ => Ok(()),
        },
    }
}

impl Task {
    /// The user action that the task carries out.
    pub fn intent(&self) -> (intent: Intent)
        ensures
            intent == self@.intent(),
    {
        match self {
            Task::Capture { .. } => Intent::Capture,
            Task::Snapshot => Intent::Snapshot,
        }
    }

    /// What to start for the task: the script runner, on the tool's entry
    /// script, with the task's subcommand and arguments.
    pub fn invocation(&self) -> (invocation: Invocation)
        ensures
            invocation.program@ == program_name(),
            invocation.args.deep_view() == self@.arguments(),
    {
        let mut args: Vec<String> = Vec::new();
        args.push(String::from_str("run"));
        args.push(String::from_str("src/cli.ts"));
        match self {
            Task::Capture { description } => {
                args.push(String::from_str("capture"));
                args.push(description.clone());
            },
            Task::Snapshot => {
                args.push(String::from_str("snapshot"));
                args.push(String::from_str("before"));
            },
        }
        assert(args.deep_view() =~= self@.arguments());
        Invocation { program: String::from_str("bun"), args }
    }

    /// The event that reports the task done.
    pub fn completion(&self) -> (emission: Emission)
        ensures
            emission@ == self@.completion(),
            Some(emission.signal) == self@.intent().completion_spec(),
    {
        match self {
            Task::Capture { description } => Emission {
                signal: Signal::CaptureComplete,
                payload: Some(description.clone()),
            },
            Task::Snapshot => Emission { signal: Signal::ScreenshotComplete, payload: None },
        }
    }

    /// Concludes a task whose child process could not be started.
    pub fn launch_failed(&self, reason: &str) -> (conclusion: Conclusion)
        ensures
            conclusion@ == self@.launch_failed(reason@),
    {
        let mut message = match self {
            Task::Capture { .. } => String::from_str("Failed to run capture: "),
            Task::Snapshot => String::from_str("Failed to take screenshot: "),
        };
        message.append(reason);
        Conclusion { result: TaskResult::Failure(message), emission: None }
    }

    /// Concludes a task whose child process ran, from the child's exit code
    /// and the text of its standard error.
    ///
    /// Exit code 0 gives `Success` and exactly one event, the task's own.
    /// Any other code, or none, gives `Failure` with the error text, and no
    /// event.
    pub fn exited(&self, code: Option<i32>, stderr_text: String) -> (conclusion: Conclusion)
        ensures
            conclusion@ == self@.exited(code, stderr_text@),
            code == Some(0i32) <==> conclusion.result is Success,
            code == Some(0i32) <==> conclusion.emission is Some,
    {
        let succeeded = match code {
            Some(c) => c == 0,
            None => false,
        };
        if succeeded {
            Conclusion { result: TaskResult::Success, emission: Some(self.completion()) }
        } else {
            Conclusion { result: TaskResult::Failure(stderr_text), emission: None }
        }
    }

    /// Concludes a task from the outcome of running its child process.
    ///
    /// The bytes of the child's standard error are decoded as UTF-8, with
    /// every ill-formed part replaced, and the rest goes by `launch_failed`
    /// and `exited`.
    pub fn conclude(&self, outcome: ProcessOutcome) -> (conclusion: Conclusion)
        ensures
            conclusion@ == concluded(self@, outcome),
    {
        match outcome {
            ProcessOutcome::LaunchFailed { reason } => self.launch_failed(reason.as_str()),
            ProcessOutcome::Exited { code, stderr } => {
                let text = decode_lossy(stderr.as_slice());
                self.exited(code, text)
            },
        }
    }
}

/// An answer as a mathematical value.
pub open spec fn answer_view(answer: Result<(), String>) -> Result<(), Seq<char>> {
    match answer {
        Ok(()) => Ok(()),
        Err(message) => Err(message@),
    }
}

/// The text of an optional error.
pub open spec fn cause_view(emit_error: Option<&str>) -> Option<Seq<char>> {
    match emit_error {
        Some(cause) => Some(cause@),
        None => None,
    }
}

impl Conclusion {
    /// The answer that the command gives its caller.
    ///
    /// A failed task answers with its message. A task that succeeded answers
    /// `Ok`, unless its event was sent and sending failed: `emit_error` is
    /// then the cause, and the answer says so.
    pub fn response(&self, emit_error: Option<&str>) -> (answer: Result<(), String>)
        ensures
            answer_view(answer) == answered(self@, cause_view(emit_error)),
    {
        match &self.result {
            TaskResult::Failure(message) => Err(message.clone()),
            TaskResult::Success => match (&self.emission, emit_error) {
                (Some(_), Some(cause)) => {
                    let mut message = String::from_str("Failed to emit event: ");
                    message.append(cause);
                    Err(message)
                },
                _ => Ok(()),
            },
        }
    }
}

/// Captures do not mix.
///
/// Of two captures that both went through, each is reported by its own
/// `capture-complete` event, which carries its own description: what one
/// capture's event says depends on nothing of the other capture. Where the
/// descriptions differ, so do the events.
pub proof fn law_captures_report_their_own_description(
    first: Seq<char>,
    second: Seq<char>,
    first_outcome: ProcessOutcome,
    second_outcome: ProcessOutcome,
)
    requires
        succeeded(first_outcome),
        succeeded(second_outcome),
    ensures
        ({
            let first_report = concluded(TaskView::Capture { description: first }, first_outcome);
            let second_report = concluded(
                TaskView::Capture { description: second },
                second_outcome,
            );
            &&& first_report.result is Success
            &&& second_report.result is Success
            &&& first_report.emission == Some(
                EmissionView { signal: Signal::CaptureComplete, payload: Some(first) },
            )
            &&& second_report.emission == Some(
                EmissionView { signal: Signal::CaptureComplete, payload: Some(second) },
            )
            &&& first != second ==> first_report.emission != second_report.emission
        }),
{
}

} // verus!
