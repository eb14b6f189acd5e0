//! The global keyboard shortcuts: three fixed bindings of a key combination
//! to an intent.

use crate::intent::{Intent, Signal};
use vstd::prelude::*;
use vstd::string::*;

verus! {

/// A key together with the modifiers held with it.
#[derive(Clone, Copy, Debug, PartialEq, Eq, Structural)]
pub struct KeyCombination {
    /// Command on macOS, Control elsewhere.
    pub command_or_control: bool,
    pub shift: bool,
    pub key: char,
}

/// One of the three system-wide bindings. Each shows the window and asks it
/// to act on the binding's intent.
#[derive(Clone, Copy, Debug, PartialEq, Eq, Structural)]
pub enum ShortcutBinding {
    Capture,
    Screenshot,
    Recording,
}

impl ShortcutBinding {
    /// The key of the binding; the modifiers are the same for all three.
    pub open spec fn key_spec(self) -> char {
        match self {
            ShortcutBinding::Capture => 'V',
            ShortcutBinding::Screenshot => 'S',
            ShortcutBinding::Recording => 'R',
        }
    }

    /// The combination in the notation in which it is registered.
    pub open spec fn accelerator_spec(self) -> Seq<char> {
        match self {
            ShortcutBinding::Capture => "CmdOrCtrl+Shift+V"@,
            ShortcutBinding::Screenshot => "CmdOrCtrl+Shift+S"@,
            ShortcutBinding::Recording => "CmdOrCtrl+Shift+R"@,
        }
    }

    /// The combination as it is shown to the user.
    pub open spec fn display_spec(self) -> Seq<char> {
        match self {
            ShortcutBinding::Capture => "Cmd+Shift+V"@,
            ShortcutBinding::Screenshot => "Cmd+Shift+S"@,
            ShortcutBinding::Recording => "Cmd+Shift+R"@,
        }
    }

    /// The user action that the binding stands for.
    pub open spec fn intent_spec(self) -> Intent {
        match self {
            ShortcutBinding::Capture => Intent::Capture,
            ShortcutBinding::Screenshot => Intent::Snapshot,
            ShortcutBinding::Recording => Intent::Record,
        }
    }

    /// The event that the binding sends to the window when it fires.
    pub open spec fn signal_spec(self) -> Signal {
        match self {
            ShortcutBinding::Capture => Signal::TriggerCapture,
            ShortcutBinding::Screenshot => Signal::TriggerScreenshot,
            ShortcutBinding::Recording => Signal::TriggerRecording,
        }
    }

    /// What is said of a binding that the system refused to register.
    pub open spec fn registration_error_spec(self, cause: Seq<char>) -> Seq<char> {
        "Failed to register "@ + self.display_spec() + ": "@ + cause
    }

    /// The key and modifiers of the binding.
    pub fn keys(&self) -> (keys: KeyCombination)
        ensures
            keys == (KeyCombination {
                command_or_control: true,
                shift: true,
                key: self.key_spec(),
            }),
    {
        let key = match self {
            ShortcutBinding::Capture => 'V',
            ShortcutBinding::Screenshot => 'S',
            ShortcutBinding::Recording => 'R',
        };
        KeyCombination { command_or_control: true, shift: true, key }
    }

    /// The combination in the notation in which it is registered.
    pub fn accelerator(&self) -> (text: &'static str)
        ensures
            text@ == self.accelerator_spec(),
    {
        match self {
            ShortcutBinding::Capture => "CmdOrCtrl+Shift+V",
            ShortcutBinding::Screenshot => "CmdOrCtrl+Shift+S",
            ShortcutBinding::Recording => "CmdOrCtrl+Shift+R",
        }
    }

    /// The combination as it is shown to the user.
    pub fn display(&self) -> (text: &'static str)
        ensures
            text@ == self.display_spec(),
    {
        match self {
            ShortcutBinding::Capture => "Cmd+Shift+V",
            ShortcutBinding::Screenshot => "Cmd+Shift+S",
            ShortcutBinding::Recording => "Cmd+Shift+R",
        }
    }

    /// The user action that the binding stands for.
    pub fn intent(&self) -> (intent: Intent)
        ensures
            intent == self.intent_spec(),
            intent.trigger_spec() == Some(self.signal_spec()),
    {
        match self {
            ShortcutBinding::Capture => Intent::Capture,
            ShortcutBinding::Screenshot => Intent::Snapshot,
            ShortcutBinding::Recording => Intent::Record,
        }
    }

    /// The event that the binding sends to the window when it fires.
    pub fn signal(&self) -> (signal: Signal)
        ensures
            signal == self.signal_spec(),
            signal.is_trigger_spec(),
    {
        match self {
            ShortcutBinding::Capture => Signal::TriggerCapture,
            ShortcutBinding::Screenshot => Signal::TriggerScreenshot,
            ShortcutBinding::Recording => Signal::TriggerRecording,
        }
    }

    /// The message that reports a refused registration. One binding's failure
    /// says nothing of the others: each is registered on its own.
    pub fn registration_error(&self, cause: &str) -> (message: String)
        ensures
            message@ == self.registration_error_spec(cause@),
    {
        let mut message = String::from_str("Failed to register ");
        message.append(self.display());
        message.append(": ");
        message.append(cause);
        message
    }

    /// The bindings to register at startup.
    pub fn all() -> (bindings: Vec<ShortcutBinding>)
        ensures
            bindings@ == seq![
                ShortcutBinding::Capture,
                ShortcutBinding::Screenshot,
                ShortcutBinding::Recording,
            ],
    {
        vec![ShortcutBinding::Capture, ShortcutBinding::Screenshot, ShortcutBinding::Recording]
    }
}

} // verus!
