//! The visibility state machine of the managed window, and a model of the
//! window on which the effect of its operations is stated.

use crate::geometry::{
    anchor, place_near_tray, placement, Monitor, PhysicalPosition, PhysicalSize,
};
use vstd::prelude::*;

verus! {

/// The name under which the host knows the one managed window.
pub const WINDOW_LABEL: &'static str = "main";

/// Whether the managed window is on screen.
#[derive(Clone, Copy, Debug, PartialEq, Eq, Structural)]
pub enum Visibility {
    Hidden,
    Visible,
}

/// One request to the windowing system about the managed window.
#[derive(Clone, Copy, Debug, PartialEq, Eq, Structural)]
pub enum WindowOp {
    /// Look up the current monitor and move the window to its anchor there.
    Place,
    /// Put the window on screen.
    Show,
    /// Give the window input focus.
    Focus,
    /// Take the window off screen.
    Hide,
}

/// A step of the state machine: the state it leads to and the operations
/// that take the window there, in the order in which they are issued.
#[derive(Debug, PartialEq, Eq)]
pub struct Transition {
    pub next: Visibility,
    pub ops: Vec<WindowOp>,
}

/// The state that a visibility report stands for. A missing report (the
/// query failed, or nothing is known yet) counts as hidden.
pub open spec fn observed_visibility(report: Option<bool>) -> Visibility {
    match report {
        Some(true) => Visibility::Visible,
        _ => Visibility::Hidden,
    }
}

/// The state after a toggle.
pub open spec fn toggled(current: Visibility) -> Visibility {
    match current {
        Visibility::Visible => Visibility::Hidden,
        Visibility::Hidden => Visibility::Visible,
    }
}

/// Where a window stands after a placement on a desktop where the monitor
/// lookup gives `monitor`: at its anchor there, or where it stood if no
/// monitor is found.
pub open spec fn placed(w: ManagedWindow, monitor: Option<Monitor>) -> PhysicalPosition {
    match placement(monitor, w.outer_size) {
        Some(target) => target,
        None => w.position,
    }
}

/// The operations that bring the window on screen: place, show, focus.
pub open spec fn show_ops() -> Seq<WindowOp> {
    seq![WindowOp::Place, WindowOp::Show, WindowOp::Focus]
}

/// The operations of a toggle: a visible window is hidden and nothing else;
/// a hidden one is placed, shown and focused.
pub open spec fn toggle_ops(current: Visibility) -> Seq<WindowOp> {
    match current {
        Visibility::Visible => seq![WindowOp::Hide],
        Visibility::Hidden => show_ops(),
    }
}

/// How many placements a list of operations asks for.
pub open spec fn placements(ops: Seq<WindowOp>) -> nat
    decreases ops.len(),
{
    if ops.len() == 0 {
        0
    } else {
        placements(ops.drop_last()) + if ops.last() is Place {
            1nat
        } else {
            0nat
        }
    }
}

impl Visibility {
    /// Reads a state off a visibility report; see `observed_visibility`.
    pub fn observed(report: Option<bool>) -> (state: Visibility)
        ensures
            state == observed_visibility(report),
    {
        match report {
            Some(true) => Visibility::Visible,
            _ => Visibility::Hidden,
        }
    }
}

/// Flips the window between hidden and visible.
///
/// Hiding issues a single `Hide` and never a placement. Showing places the
/// window first, then shows it, then focuses it.
pub fn toggle(current: Visibility) -> (t: Transition)
    ensures
        t.next == toggled(current),
        t.ops@ == toggle_ops(current),
{
    match current {
        Visibility::Visible => Transition { next: Visibility::Hidden, ops: vec![WindowOp::Hide] },
        Visibility::Hidden => Transition {
            next: Visibility::Visible,
            ops: vec![WindowOp::Place, WindowOp::Show, WindowOp::Focus],
        },
    }
}

/// Brings the window on screen whatever its state: it is placed, shown and
/// focused every time, also when it is visible already.
pub fn force_show() -> (t: Transition)
    ensures
        t.next == Visibility::Visible,
        t.ops@ == show_ops(),
{
    Transition {
        next: Visibility::Visible,
        ops: vec![WindowOp::Place, WindowOp::Show, WindowOp::Focus],
    }
}

/// Takes the window off screen, whatever its state: a single `Hide`.
pub fn hide_window() -> (t: Transition)
    ensures
        t.next == Visibility::Hidden,
        t.ops@ == seq![WindowOp::Hide],
{
    Transition { next: Visibility::Hidden, ops: vec![WindowOp::Hide] }
}

/// What the controller knows of the one window it manages.
///
/// The windowing system owns the real window. This value records its
/// observable attributes and states what each operation does to them, so that
/// a sequence of operations can be followed without a desktop.
#[derive(Clone, Copy, Debug, PartialEq, Eq, Structural)]
pub struct ManagedWindow {
    pub visible: bool,
    pub focused: bool,
    pub outer_size: PhysicalSize,
    pub position: PhysicalPosition,
}

impl ManagedWindow {
    /// The state of the visibility state machine that this window is in.
    pub open spec fn visibility_spec(self) -> Visibility {
        if self.visible {
            Visibility::Visible
        } else {
            Visibility::Hidden
        }
    }

    /// The window after one operation, on a desktop where the monitor lookup
    /// gives `monitor`.
    pub open spec fn after(self, op: WindowOp, monitor: Option<Monitor>) -> ManagedWindow {
        match op {
            WindowOp::Place => ManagedWindow { position: placed(self, monitor), ..self },
            WindowOp::Show => ManagedWindow { visible: true, ..self },
            WindowOp::Focus => ManagedWindow { focused: true, ..self },
            WindowOp::Hide => ManagedWindow { visible: false, focused: false, ..self },
        }
    }

    /// The window after a list of operations, first to last.
    pub open spec fn after_all(
        self,
        ops: Seq<WindowOp>,
        monitor: Option<Monitor>,
    ) -> ManagedWindow
        decreases ops.len(),
    {
        if ops.len() == 0 {
            self
        } else {
            self.after_all(ops.drop_last(), monitor).after(ops.last(), monitor)
        }
    }

    /// The state of the visibility state machine that this window is in.
    pub fn visibility(&self) -> (state: Visibility)
        ensures
            state == self.visibility_spec(),
    {
        if self.visible {
            Visibility::Visible
        } else {
            Visibility::Hidden
        }
    }

    /// Moves the window to its anchor on `monitor`. Without a monitor the
    /// window is left exactly as it was.
    pub fn place_near_tray(&mut self, monitor: Option<Monitor>)
        ensures
            *final(self) == old(self).after(WindowOp::Place, monitor),
            monitor is None ==> *final(self) == *old(self),
            monitor matches Some(m) ==> final(self).position == anchor(m, old(self).outer_size),
            monitor matches Some(m) ==> final(self).position.x == m.size.width
                - final(self).outer_size.width - 20,
            monitor is Some ==> final(self).position.y == 40,
            final(self).visible == old(self).visible,
            final(self).focused == old(self).focused,
            final(self).outer_size == old(self).outer_size,
    {
        match place_near_tray(monitor, self.outer_size) {
            Some(target) => {
                self.position = target;
            },
            None => {},
        }
    }

    /// Carries out one operation on the model.
    pub fn apply(&mut self, op: WindowOp, monitor: Option<Monitor>)
        ensures
            *final(self) == old(self).after(op, monitor),
    {
        match op {
            WindowOp::Place => {
                self.place_near_tray(monitor);
            },
            WindowOp::Show => {
                self.visible = true;
            },
            WindowOp::Focus => {
                self.focused = true;
            },
            WindowOp::Hide => {
                self.visible = false;
                self.focused = false;
            },
        }
    }

    /// Carries out a list of operations on the model, first to last.
    pub fn apply_all(&mut self, ops: &Vec<WindowOp>, monitor: Option<Monitor>)
        ensures
            *final(self) == old(self).after_all(ops@, monitor),
    {
        let mut i: usize = 0;
        while i < ops.len()
            invariant
                i <= ops.len(),
                *self == old(self).after_all(ops@.take(i as int), monitor),
            decreases ops.len() - i,
        {
            proof {
                let upto = ops@.take(i as int + 1);
                assert(upto.drop_last() =~= ops@.take(i as int));
                assert(upto.last() == ops@[i as int]);
            }
            self.apply(ops[i], monitor);
            i += 1;
        }
        assert(ops@.take(i as int) =~= ops@);
    }
}

/// How many placements the two plans ask for: bringing the window on screen
/// takes one, hiding it takes none.
pub proof fn lemma_placements_of_plans()
    ensures
        placements(show_ops()) == 1,
        placements(seq![WindowOp::Hide]) == 0,
{
    let three = show_ops();
    let two = seq![WindowOp::Place, WindowOp::Show];
    let one = seq![WindowOp::Place];
    let hide = seq![WindowOp::Hide];
    assert(three.drop_last() =~= two);
    assert(two.drop_last() =~= one);
    assert(one.drop_last() =~= Seq::<WindowOp>::empty());
    assert(hide.drop_last() =~= Seq::<WindowOp>::empty());
    reveal_with_fuel(placements, 4);
}

/// The effect of placing, showing and focusing, written out.
pub proof fn lemma_show_ops_effect(w: ManagedWindow, monitor: Option<Monitor>)
    ensures
        w.after_all(show_ops(), monitor) == w.after(WindowOp::Place, monitor).after(
            WindowOp::Show,
            monitor,
        ).after(WindowOp::Focus, monitor),
{
    let three = show_ops();
    let two = seq![WindowOp::Place, WindowOp::Show];
    let one = seq![WindowOp::Place];
    assert(three.drop_last() =~= two);
    assert(two.drop_last() =~= one);
    assert(one.drop_last() =~= Seq::<WindowOp>::empty());
    reveal_with_fuel(ManagedWindow::after_all, 4);
}

/// The effect of a lone `Hide`, written out.
pub proof fn lemma_hide_effect(w: ManagedWindow, monitor: Option<Monitor>)
    ensures
        w.after_all(seq![WindowOp::Hide], monitor) == w.after(WindowOp::Hide, monitor),
{
    let hide = seq![WindowOp::Hide];
    assert(hide.drop_last() =~= Seq::<WindowOp>::empty());
    reveal_with_fuel(ManagedWindow::after_all, 2);
}

/// Carrying out one list and then another is carrying out their
/// concatenation, and the placements add up.
pub proof fn lemma_after_all_concat(
    w: ManagedWindow,
    front: Seq<WindowOp>,
    back: Seq<WindowOp>,
    monitor: Option<Monitor>,
)
    ensures
        w.after_all(front + back, monitor) == w.after_all(front, monitor).after_all(back, monitor),
        placements(front + back) == placements(front) + placements(back),
    decreases back.len(),
{
    if back.len() == 0 {
        assert(front + back =~= front);
    } else {
        assert((front + back).drop_last() =~= front + back.drop_last());
        assert((front + back).last() == back.last());
        lemma_after_all_concat(w, front, back.drop_last(), monitor);
    }
}

/// A toggle asks for a placement exactly when it starts from hidden, and two
/// toggles in a row lead back to the state they started from.
pub proof fn law_toggle_alternates(current: Visibility)
    ensures
        toggled(toggled(current)) == current,
        toggled(current) != current,
        current is Hidden ==> placements(toggle_ops(current)) == 1,
        current is Visible ==> placements(toggle_ops(current)) == 0,
{
    lemma_placements_of_plans();
}

/// Toggling a hidden window twice.
///
/// The first toggle leaves the window visible and focused, after exactly one
/// placement: it stands at its anchor on the monitor found then, or where it
/// was if none was found. The second toggle leaves it hidden, asks for no
/// placement, and does not move it, whatever monitor it is on by then.
pub proof fn law_toggle_twice_from_hidden(
    w: ManagedWindow,
    first_monitor: Option<Monitor>,
    second_monitor: Option<Monitor>,
)
    requires
        !w.visible,
    ensures
        ({
            let ops1 = toggle_ops(w.visibility_spec());
            let w1 = w.after_all(ops1, first_monitor);
            let ops2 = toggle_ops(w1.visibility_spec());
            let w2 = w1.after_all(ops2, second_monitor);
            &&& toggled(w.visibility_spec()) == Visibility::Visible
            &&& w1.visibility_spec() == Visibility::Visible
            &&& w1.focused
            &&& placements(ops1) == 1
            &&& w1.position == placed(w, first_monitor)
            &&& toggled(w1.visibility_spec()) == Visibility::Hidden
            &&& w2.visibility_spec() == Visibility::Hidden
            &&& placements(ops2) == 0
            &&& w2.position == w1.position
            &&& w2.outer_size == w.outer_size
        }),
{
    lemma_placements_of_plans();
    lemma_show_ops_effect(w, first_monitor);
    let w1 = w.after_all(show_ops(), first_monitor);
    lemma_hide_effect(w1, second_monitor);
}

/// Forcing the window on screen, from any state, twice.
///
/// Each call asks for the full sequence place, show, focus, so two calls ask
/// for two placements. The window is visible and focused after the first call
/// and after the second, and each call leaves it at its anchor on the monitor
/// found at that time. On an unchanged desktop the second call changes
/// nothing.
pub proof fn law_force_show_twice(
    w: ManagedWindow,
    first_monitor: Option<Monitor>,
    second_monitor: Option<Monitor>,
)
    ensures
        ({
            let w1 = w.after_all(show_ops(), first_monitor);
            let w2 = w1.after_all(show_ops(), second_monitor);
            &&& w1.visibility_spec() == Visibility::Visible
            &&& w2.visibility_spec() == Visibility::Visible
            &&& w1.focused && w2.focused
            &&& show_ops() + show_ops() == seq![
                WindowOp::Place,
                WindowOp::Show,
                WindowOp::Focus,
                WindowOp::Place,
                WindowOp::Show,
                WindowOp::Focus,
            ]
            &&& placements(show_ops()) == 1
            &&& placements(show_ops() + show_ops()) == 2
            &&& w.after_all(show_ops() + show_ops(), first_monitor) == w1.after_all(
                show_ops(),
                first_monitor,
            )
            &&& w1.position == placed(w, first_monitor)
            &&& w2.position == placed(w1, second_monitor)
            &&& first_monitor == second_monitor ==> w2 == w1
        }),
{
    lemma_placements_of_plans();
    lemma_show_ops_effect(w, first_monitor);
    let w1 = w.after_all(show_ops(), first_monitor);
    lemma_show_ops_effect(w1, second_monitor);
    lemma_show_ops_effect(w1, first_monitor);
    lemma_after_all_concat(w, show_ops(), show_ops(), first_monitor);
    assert(show_ops() + show_ops() =~= seq![
        WindowOp::Place,
        WindowOp::Show,
        WindowOp::Focus,
        WindowOp::Place,
        WindowOp::Show,
        WindowOp::Focus,
    ]);
}

} // verus!
