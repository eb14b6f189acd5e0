//! User intents and the named events that announce them to the window.

use vstd::prelude::*;

verus! {

/// A user action, whatever input raised it.
#[derive(Clone, Copy, Debug, PartialEq, Eq, Structural)]
pub enum Intent {
    Capture,
    Snapshot,
    Record,
    Show,
    Quit,
}

/// An event on the bus that the window listens to.
///
/// Triggers ask the window to start something; the others report that an
/// operation went through.
#[derive(Clone, Copy, Debug, PartialEq, Eq, Structural)]
pub enum Signal {
    TriggerCapture,
    TriggerScreenshot,
    TriggerRecording,
    CaptureComplete,
    ScreenshotComplete,
    RecordingStarted,
}

impl Signal {
    /// The event's name on the bus.
    pub open spec fn name_spec(self) -> Seq<char> {
        match self {
            Signal::TriggerCapture => "trigger-capture"@,
            Signal::TriggerScreenshot => "trigger-screenshot"@,
            Signal::TriggerRecording => "trigger-recording"@,
            Signal::CaptureComplete => "capture-complete"@,
            Signal::ScreenshotComplete => "screenshot-complete"@,
            Signal::RecordingStarted => "recording-started"@,
        }
    }

    /// Whether the event asks the window to start something.
    pub open spec fn is_trigger_spec(self) -> bool {
        self is TriggerCapture || self is TriggerScreenshot || self is TriggerRecording
    }

    /// The event's name on the bus.
    pub fn name(&self) -> (name: &'static str)
        ensures
            name@ == self.name_spec(),
    {
        match self {
            Signal::TriggerCapture => "trigger-capture",
            Signal::TriggerScreenshot => "trigger-screenshot",
            Signal::TriggerRecording => "trigger-recording",
            Signal::CaptureComplete => "capture-complete",
            Signal::ScreenshotComplete => "screenshot-complete",
            Signal::RecordingStarted => "recording-started",
        }
    }

    /// Whether the event asks the window to start something.
    pub fn is_trigger(&self) -> (b: bool)
        ensures
            b == self.is_trigger_spec(),
    {
        match self {
            Signal::TriggerCapture | Signal::TriggerScreenshot | Signal::TriggerRecording => true,
            _ => false,
        }
    }
}

impl Intent {
    /// The event that asks the window to act on this intent, for the three
    /// intents that the window acts on.
    pub open spec fn trigger_spec(self) -> Option<Signal> {
        match self {
            Intent::Capture => Some(Signal::TriggerCapture),
            Intent::Snapshot => Some(Signal::TriggerScreenshot),
            Intent::Record => Some(Signal::TriggerRecording),
            Intent::Show | Intent::Quit => None,
        }
    }

    /// The event that reports this intent carried out, for the three intents
    /// that report.
    pub open spec fn completion_spec(self) -> Option<Signal> {
        match self {
            Intent::Capture => Some(Signal::CaptureComplete),
            Intent::Snapshot => Some(Signal::ScreenshotComplete),
            Intent::Record => Some(Signal::RecordingStarted),
            Intent::Show | Intent::Quit => None,
        }
    }

    /// The event that asks the window to act on this intent, if there is one.
    pub fn trigger(&self) -> (signal: Option<Signal>)
        ensures
            signal == self.trigger_spec(),
    {
        match self {
            Intent::Capture => Some(Signal::TriggerCapture),
            Intent::Snapshot => Some(Signal::TriggerScreenshot),
            Intent::Record => Some(Signal::TriggerRecording),
            _ => None,
        }
    }

    /// The event that reports this intent carried out, if there is one.
    pub fn completion(&self) -> (signal: Option<Signal>)
        ensures
            signal == self.completion_spec(),
    {
        match self {
            Intent::Capture => Some(Signal::CaptureComplete),
            Intent::Snapshot => Some(Signal::ScreenshotComplete),
            Intent::Record => Some(Signal::RecordingStarted),
            _ => None,
        }
    }
}

/// No two events share a name, so a listener can tell them apart by name
/// alone.
pub proof fn lemma_signal_names_distinct(a: Signal, b: Signal)
    ensures
        a.name_spec() == b.name_spec() <==> a == b,
{
    reveal_strlit("trigger-capture");
    reveal_strlit("trigger-screenshot");
    reveal_strlit("trigger-recording");
    reveal_strlit("capture-complete");
    reveal_strlit("screenshot-complete");
    reveal_strlit("recording-started");
    if a != b && a.name_spec() == b.name_spec() {
        let s = a.name_spec();
        let t = b.name_spec();
        assert(s.len() == t.len());
        assert(s[0] == t[0]);
        assert(s[8] == t[8]);
    }
}

} // verus!
