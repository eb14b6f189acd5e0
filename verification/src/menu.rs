//! The tray icon's context menu: its three items, and the clicks on the icon
//! itself.

use crate::intent::Intent;
use crate::text::str_eq;
use vstd::prelude::*;

verus! {

/// Where the tray icon's image is loaded from, relative to the working
/// directory. Without the image there is no tray icon, and without a tray
/// icon the host does not start.
pub const TRAY_ICON_PATH: &'static str = "icons/icon.png";

/// An item of the tray menu. The menu is fixed: these three, nothing else.
#[derive(Clone, Copy, Debug, PartialEq, Eq, Structural)]
pub enum TrayMenuItem {
    Show,
    QuickCapture,
    Quit,
}

/// A mouse button, as a tray icon reports it.
#[derive(Clone, Copy, Debug, PartialEq, Eq, Structural)]
pub enum MouseButton {
    Left,
    Right,
    Middle,
}

/// Whether a button went down or came up.
#[derive(Clone, Copy, Debug, PartialEq, Eq, Structural)]
pub enum ButtonState {
    Up,
    Down,
}

/// What happened on the tray icon.
#[derive(Clone, Copy, Debug, PartialEq, Eq, Structural)]
pub enum TrayEvent {
    Click { button: MouseButton, state: ButtonState },
    DoubleClick { button: MouseButton },
    Enter,
    Move,
    Leave,
    /// Anything else that a tray icon may come to report.
    Other,
}

/// The one event that the tray icon answers: the release of the left button.
pub open spec fn primary_click() -> TrayEvent {
    TrayEvent::Click { button: MouseButton::Left, state: ButtonState::Up }
}

impl TrayEvent {
    /// Whether the event is the release of the left button over the icon.
    pub fn is_primary_click(&self) -> (b: bool)
        ensures
            b == (*self == primary_click()),
    {
        match self {
            TrayEvent::Click { button: MouseButton::Left, state: ButtonState::Up } => true,
            _ => false,
        }
    }
}

impl TrayMenuItem {
    /// The item's stable identifier.
    pub open spec fn id_spec(self) -> Seq<char> {
        match self {
            TrayMenuItem::Show => "show"@,
            TrayMenuItem::QuickCapture => "capture"@,
            TrayMenuItem::Quit => "quit"@,
        }
    }

    /// The text that the menu shows for the item.
    pub open spec fn label_spec(self) -> Seq<char> {
        match self {
            TrayMenuItem::Show => "Show"@,
            TrayMenuItem::QuickCapture => "Quick Capture"@,
            TrayMenuItem::Quit => "Quit VibeDev"@,
        }
    }

    /// The key combination shown beside the label, for the item that has one.
    pub open spec fn shortcut_hint_spec(self) -> Option<Seq<char>> {
        match self {
            TrayMenuItem::QuickCapture => Some("Cmd+Shift+V"@),
            _ => None,
        }
    }

    /// The user action that the item stands for.
    pub open spec fn intent_spec(self) -> Intent {
        match self {
            TrayMenuItem::Show => Intent::Show,
            TrayMenuItem::QuickCapture => Intent::Capture,
            TrayMenuItem::Quit => Intent::Quit,
        }
    }

    /// The item with the given identifier, if there is one.
    pub open spec fn with_id(id: Seq<char>) -> Option<TrayMenuItem> {
        if id == "quit"@ {
            Some(TrayMenuItem::Quit)
        } else if id == "show"@ {
            Some(TrayMenuItem::Show)
        } else if id == "capture"@ {
            Some(TrayMenuItem::QuickCapture)
        } else {
            None
        }
    }

    /// The item's stable identifier.
    pub fn id(&self) -> (id: &'static str)
        ensures
            id@ == self.id_spec(),
    {
        match self {
            TrayMenuItem::Show => "show",
            TrayMenuItem::QuickCapture => "capture",
            TrayMenuItem::Quit => "quit",
        }
    }

    /// The text that the menu shows for the item.
    pub fn label(&self) -> (label: &'static str)
        ensures
            label@ == self.label_spec(),
    {
        match self {
            TrayMenuItem::Show => "Show",
            TrayMenuItem::QuickCapture => "Quick Capture",
            TrayMenuItem::Quit => "Quit VibeDev",
        }
    }

    /// The key combination shown beside the label, if the item has one.
    pub fn shortcut_hint(&self) -> (hint: Option<&'static str>)
        ensures
            hint is Some <==> self.shortcut_hint_spec() is Some,
            hint matches Some(h) ==> Some(h@) == self.shortcut_hint_spec(),
    {
        match self {
            TrayMenuItem::QuickCapture => Some("Cmd+Shift+V"),
            _ => None,
        }
    }

    /// The user action that the item stands for.
    pub fn intent(&self) -> (intent: Intent)
        ensures
            intent == self.intent_spec(),
    {
        match self {
            TrayMenuItem::Show => Intent::Show,
            TrayMenuItem::QuickCapture => Intent::Capture,
            TrayMenuItem::Quit => Intent::Quit,
        }
    }

    /// Finds the item that an activation reports by its identifier. An
    /// identifier that belongs to no item gives `None`.
    pub fn from_id(id: &str) -> (item: Option<TrayMenuItem>)
        ensures
            item == TrayMenuItem::with_id(id@),
    {
        if str_eq(id, "quit") {
            Some(TrayMenuItem::Quit)
        } else if str_eq(id, "show") {
            Some(TrayMenuItem::Show)
        } else if str_eq(id, "capture") {
            Some(TrayMenuItem::QuickCapture)
        } else {
            None
        }
    }

    /// The items in the order in which the menu lists them.
    pub fn all() -> (items: Vec<TrayMenuItem>)
        ensures
            items@ == seq![TrayMenuItem::Show, TrayMenuItem::QuickCapture, TrayMenuItem::Quit],
    {
        vec![TrayMenuItem::Show, TrayMenuItem::QuickCapture, TrayMenuItem::Quit]
    }
}

/// Every item is found again by its own identifier, and by no other's.
pub proof fn lemma_menu_ids_identify(item: TrayMenuItem, id: Seq<char>)
    ensures
        TrayMenuItem::with_id(item.id_spec()) == Some(item),
        TrayMenuItem::with_id(id) == Some(item) <==> id == item.id_spec(),
{
    reveal_strlit("quit");
    reveal_strlit("show");
    reveal_strlit("capture");
    assert("quit"@.len() == 4 && "show"@.len() == 4 && "capture"@.len() == 7);
    assert("quit"@[0] != "show"@[0]);
}

} // verus!
