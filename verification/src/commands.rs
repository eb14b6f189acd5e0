//! The operations that the window's own code can ask for.
//!
//! Each stands for one command of the host. Those that run the command-line
//! tool give the task to hand to the invoker; the others give their result
//! at once.

use crate::intent::Signal;
use crate::invoker::{
    Conclusion, ConclusionView, Emission, EmissionView, Task, TaskResult, TaskResultView, TaskView,
};
use vstd::prelude::*;

verus! {

/// Counts of captures: all of them, those of today, and those resolved.
#[derive(Clone, Copy, Debug, PartialEq, Eq, Structural)]
pub struct CaptureStats {
    pub total: u32,
    pub today: u32,
    pub resolved: u32,
}

/// The capture counts. No capture history is kept, so every count is zero.
pub fn get_capture_stats() -> (stats: Result<CaptureStats, String>)
    ensures
        stats == Ok::<CaptureStats, String>(CaptureStats { total: 0, today: 0, resolved: 0 }),
{
    Ok(CaptureStats { total: 0, today: 0, resolved: 0 })
}

/// The task behind a quick capture: the tool's `capture` subcommand on the
/// given description.
pub fn quick_capture(description: String) -> (task: Task)
    ensures
        task@ == (TaskView::Capture { description: description@ }),
{
    Task::Capture { description }
}

/// The task behind a screenshot: the tool's `snapshot before`.
pub fn take_screenshot() -> (task: Task)
    ensures
        task@ == TaskView::Snapshot,
{
    Task::Snapshot
}

/// Starts a recording. Nothing is run for it: the operation succeeds at once
/// and is reported by `recording-started`, which carries no text.
pub fn start_recording() -> (conclusion: Conclusion)
    ensures
        conclusion@ == (ConclusionView {
            result: TaskResultView::Success,
            emission: Some(EmissionView { signal: Signal::RecordingStarted, payload: None }),
        }),
{
    Conclusion {
        result: TaskResult::Success,
        emission: Some(Emission { signal: Signal::RecordingStarted, payload: None }),
    }
}

} // verus!
