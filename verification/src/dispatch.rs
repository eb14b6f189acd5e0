//! Input dispatch: from a menu activation, a tray click or a fired shortcut
//! to the steps that the host carries out.
//!
//! Dispatch runs in two stages. Routing turns a stimulus into a reaction and
//! looks at nothing but the stimulus. Planning turns the reaction into steps
//! and looks at what the host found out about the window. A controller keeps
//! the one bit of state there is: whether quitting was asked for.

use crate::intent::{lemma_signal_names_distinct, Intent, Signal};
use crate::menu::{lemma_menu_ids_identify, primary_click, TrayEvent, TrayMenuItem};
use crate::shortcut::ShortcutBinding;
use crate::window::{
    force_show, observed_visibility, show_ops, toggle, toggle_ops, Visibility, WindowOp,
};
use vstd::prelude::*;

verus! {

/// The exit code of a process that the user asked to quit.
pub const EXIT_SUCCESS: i32 = 0;

/// An input from outside.
#[derive(Debug, PartialEq, Eq)]
pub enum Stimulus {
    /// A menu item was activated; `id` is the identifier that came with it.
    Menu { id: String },
    /// Something happened on the tray icon.
    Tray(TrayEvent),
    /// A global shortcut fired.
    Shortcut(ShortcutBinding),
}

/// What a stimulus calls for, before anything is known of the window.
#[derive(Clone, Copy, Debug, PartialEq, Eq, Structural)]
pub enum Reaction {
    /// Nothing.
    Ignore,
    /// End the process at once.
    Exit { code: i32 },
    /// Flip the window between hidden and visible.
    Toggle,
    /// Send an event to the window and leave its visibility alone.
    Emit { signal: Signal },
    /// Send an event to the window, then bring the window on screen.
    EmitAndShow { signal: Signal },
}

/// What the host found when it looked for the managed window.
#[derive(Clone, Copy, Debug, PartialEq, Eq, Structural)]
pub enum WindowProbe {
    /// No window of that name exists.
    Missing,
    /// The window exists. `visible` is what the windowing system said of its
    /// visibility, or `None` if it was not asked or could not say.
    Present { visible: Option<bool> },
}

/// One thing for the host to do.
#[derive(Clone, Copy, Debug, PartialEq, Eq, Structural)]
pub enum Step {
    Exit { code: i32 },
    Emit { signal: Signal },
    Window { op: WindowOp },
}

/// The reaction to the activation of the menu item with identifier `id`.
pub open spec fn route_menu(id: Seq<char>) -> Reaction {
    match TrayMenuItem::with_id(id) {
        Some(TrayMenuItem::Quit) => Reaction::Exit { code: EXIT_SUCCESS },
        Some(TrayMenuItem::Show) => Reaction::Toggle,
        Some(TrayMenuItem::QuickCapture) => Reaction::Emit { signal: Signal::TriggerCapture },
        None => Reaction::Ignore,
    }
}

/// The reaction to an event on the tray icon: releasing the left button
/// toggles the window, and nothing else does anything.
pub open spec fn route_tray(event: TrayEvent) -> Reaction {
    if event == primary_click() {
        Reaction::Toggle
    } else {
        Reaction::Ignore
    }
}

/// The reaction to a fired shortcut: its event, then the window.
pub open spec fn route_shortcut(binding: ShortcutBinding) -> Reaction {
    Reaction::EmitAndShow { signal: binding.signal_spec() }
}

/// The reaction to any stimulus.
pub open spec fn route(stimulus: Stimulus) -> Reaction {
    match stimulus {
        Stimulus::Menu { id } => route_menu(id@),
        Stimulus::Tray(event) => route_tray(event),
        Stimulus::Shortcut(binding) => route_shortcut(binding),
    }
}

/// What a stimulus calls for, told from the user action behind it and from
/// whether a shortcut raised it.
///
/// No action calls for nothing. `Quit` exits with code 0 and `Show` toggles.
/// An action that the window carries out itself has its trigger sent, and the
/// window is brought on screen as well exactly when a shortcut asked for it.
pub open spec fn reaction_to(intent: Option<Intent>, by_shortcut: bool) -> Reaction {
    match intent {
        None => Reaction::Ignore,
        Some(Intent::Quit) => Reaction::Exit { code: EXIT_SUCCESS },
        Some(Intent::Show) => Reaction::Toggle,
        Some(action) => match action.trigger_spec() {
            Some(signal) => if by_shortcut {
                Reaction::EmitAndShow { signal }
            } else {
                Reaction::Emit { signal }
            },
            None => Reaction::Ignore,
        },
    }
}

/// The user action behind a stimulus, if it stands for one: the activated
/// item's, the fired binding's, and `Show` for the click that the tray icon
/// answers.
pub open spec fn intent_of(stimulus: Stimulus) -> Option<Intent> {
    match stimulus {
        Stimulus::Menu { id } => match TrayMenuItem::with_id(id@) {
            Some(item) => Some(item.intent_spec()),
            None => None,
        },
        Stimulus::Tray(event) => if event == primary_click() {
            Some(Intent::Show)
        } else {
            None
        },
        Stimulus::Shortcut(binding) => Some(binding.intent_spec()),
    }
}

/// Window operations as steps, in the same order.
pub open spec fn window_steps(ops: Seq<WindowOp>) -> Seq<Step> {
    ops.map_values(|op: WindowOp| Step::Window { op })
}

/// The steps that a reaction comes to, given what was found of the window.
///
/// Exiting needs no window. Everything else addresses the window, and is
/// nothing at all when there is none.
pub open spec fn planned(reaction: Reaction, window: WindowProbe) -> Seq<Step> {
    match reaction {
        Reaction::Ignore => seq![],
        Reaction::Exit { code } => seq![Step::Exit { code }],
        Reaction::Toggle => match window {
            WindowProbe::Missing => seq![],
            WindowProbe::Present { visible } => window_steps(
                toggle_ops(observed_visibility(visible)),
            ),
        },
        Reaction::Emit { signal } => match window {
            WindowProbe::Missing => seq![],
            WindowProbe::Present { .. } => seq![Step::Emit { signal }],
        },
        Reaction::EmitAndShow { signal } => match window {
            WindowProbe::Missing => seq![],
            WindowProbe::Present { .. } => seq![Step::Emit { signal }] + window_steps(show_ops()),
        },
    }
}

impl Stimulus {
    /// The user action behind the stimulus, if it stands for one.
    pub fn intent(&self) -> (intent: Option<Intent>)
        ensures
            intent == intent_of(*self),
    {
        match self {
            Stimulus::Menu { id } => match TrayMenuItem::from_id(id.as_str()) {
                Some(item) => Some(item.intent()),
                None => None,
            },
            Stimulus::Tray(event) => if event.is_primary_click() {
                Some(Intent::Show)
            } else {
                None
            },
            Stimulus::Shortcut(binding) => Some(binding.intent()),
        }
    }
}

impl Reaction {
    /// Whether planning the reaction reads the window's visibility.
    pub open spec fn needs_visibility_spec(self) -> bool {
        self is Toggle
    }

    /// Whether planning the reaction looks at the window at all.
    pub open spec fn needs_window_spec(self) -> bool {
        self is Toggle || self is Emit || self is EmitAndShow
    }

    /// Whether the host has to ask for the window's visibility before it has
    /// the reaction planned. Only a toggle depends on it.
    pub fn needs_visibility(&self) -> (b: bool)
        ensures
            b == self.needs_visibility_spec(),
    {
        match self {
            Reaction::Toggle => true,
            _ => false,
        }
    }

    /// Whether the host has to look the window up before it has the reaction
    /// planned.
    pub fn needs_window(&self) -> (b: bool)
        ensures
            b == self.needs_window_spec(),
    {
        match self {
            Reaction::Toggle | Reaction::Emit { .. } | Reaction::EmitAndShow { .. } => true,
            _ => false,
        }
    }
}

/// Routes the activation of a menu item by its identifier.
///
/// `quit` ends the process with exit code 0, `show` toggles the window,
/// `capture` sends `trigger-capture` and does not show the window. Any other
/// identifier is ignored.
pub fn on_menu_event(id: &str) -> (reaction: Reaction)
    ensures
        reaction == route_menu(id@),
{
    match TrayMenuItem::from_id(id) {
        Some(TrayMenuItem::Quit) => Reaction::Exit { code: EXIT_SUCCESS },
        Some(TrayMenuItem::Show) => Reaction::Toggle,
        Some(TrayMenuItem::QuickCapture) => Reaction::Emit { signal: Signal::TriggerCapture },
        None => Reaction::Ignore,
    }
}

/// Routes an event on the tray icon: the release of the left button toggles
/// the window; other clicks, and the pointer passing over, are ignored.
pub fn on_tray_icon_event(event: TrayEvent) -> (reaction: Reaction)
    ensures
        reaction == route_tray(event),
{
    if event.is_primary_click() {
        Reaction::Toggle
    } else {
        Reaction::Ignore
    }
}

/// Routes a fired shortcut: the binding's trigger event goes out first, then
/// the window is brought on screen.
pub fn on_shortcut(binding: ShortcutBinding) -> (reaction: Reaction)
    ensures
        reaction == route_shortcut(binding),
{
    Reaction::EmitAndShow { signal: binding.signal() }
}

/// Routes any stimulus.
pub fn on_stimulus(stimulus: &Stimulus) -> (reaction: Reaction)
    ensures
        reaction == route(*stimulus),
{
    match stimulus {
        Stimulus::Menu { id } => on_menu_event(id.as_str()),
        Stimulus::Tray(event) => on_tray_icon_event(*event),
        Stimulus::Shortcut(binding) => on_shortcut(*binding),
    }
}

/// Appends window operations to a list of steps, in order.
fn push_window_steps(steps: &mut Vec<Step>, ops: &Vec<WindowOp>)
    ensures
        final(steps)@ == old(steps)@ + window_steps(ops@),
{
    let mut i: usize = 0;
    while i < ops.len()
        invariant
            i <= ops.len(),
            steps@ == old(steps)@ + window_steps(ops@.take(i as int)),
        decreases ops.len() - i,
    {
        steps.push(Step::Window { op: ops[i] });
        i += 1;
        assert(steps@ =~= old(steps)@ + window_steps(ops@.take(i as int)));
    }
    assert(ops@.take(i as int) =~= ops@);
}

/// Turns a reaction into the steps to carry out, given what the host found
/// of the window.
///
/// A missing window makes every window-directed reaction a no-op. A toggle
/// goes by the reported visibility, and counts an unknown one as hidden.
pub fn plan(reaction: Reaction, window: WindowProbe) -> (steps: Vec<Step>)
    ensures
        steps@ == planned(reaction, window),
{
    let mut steps: Vec<Step> = Vec::new();
    match reaction {
        Reaction::Ignore => {},
        Reaction::Exit { code } => {
            steps.push(Step::Exit { code });
        },
        Reaction::Toggle => match window {
            WindowProbe::Missing => {},
            WindowProbe::Present { visible } => {
                let transition = toggle(Visibility::observed(visible));
                push_window_steps(&mut steps, &transition.ops);
            },
        },
        Reaction::Emit { signal } => match window {
            WindowProbe::Missing => {},
            WindowProbe::Present { .. } => {
                steps.push(Step::Emit { signal });
            },
        },
        Reaction::EmitAndShow { signal } => match window {
            WindowProbe::Missing => {},
            WindowProbe::Present { .. } => {
                steps.push(Step::Emit { signal });
                let transition = force_show();
                push_window_steps(&mut steps, &transition.ops);
            },
        },
    }
    assert(steps@ =~= planned(reaction, window));
    steps
}

/// The dispatcher's memory: whether it still answers stimuli.
///
/// A controller starts out running. The first stimulus that routes to an exit
/// stops it for good; from then on every stimulus is ignored, so that nothing
/// is emitted while the process goes down.
#[derive(Debug)]
pub struct Controller {
    running: bool,
}

/// What a controller makes of a stimulus: the routed reaction while it runs,
/// nothing once it has stopped.
pub open spec fn reaction_of(running: bool, stimulus: Stimulus) -> Reaction {
    if running {
        route(stimulus)
    } else {
        Reaction::Ignore
    }
}

/// Whether a controller still runs after a stimulus.
pub open spec fn runs_after(running: bool, stimulus: Stimulus) -> bool {
    running && !(route(stimulus) is Exit)
}

/// All the steps that a controller hands out over a run of stimuli, each
/// paired with what was found of the window at that moment.
pub open spec fn trace(running: bool, inputs: Seq<(Stimulus, WindowProbe)>) -> Seq<Step>
    decreases inputs.len(),
{
    if inputs.len() == 0 {
        seq![]
    } else {
        planned(reaction_of(running, inputs[0].0), inputs[0].1) + trace(
            runs_after(running, inputs[0].0),
            inputs.drop_first(),
        )
    }
}

impl Controller {
    /// Whether the controller still answers stimuli.
    pub closed spec fn running(&self) -> bool {
        self.running
    }

    /// A controller that runs.
    pub fn new() -> (controller: Controller)
        ensures
            controller.running(),
    {
        Controller { running: true }
    }

    /// Whether the controller still answers stimuli.
    pub fn is_running(&self) -> (b: bool)
        ensures
            b == self.running(),
    {
        self.running
    }

    /// Takes a stimulus and says what it calls for.
    ///
    /// While running, that is the routed reaction, and an exit stops the
    /// controller. Once stopped, it is `Ignore`, whatever the stimulus.
    pub fn react(&mut self, stimulus: &Stimulus) -> (reaction: Reaction)
        ensures
            reaction == reaction_of(old(self).running(), *stimulus),
            final(self).running() == runs_after(old(self).running(), *stimulus),
            !old(self).running() ==> reaction == Reaction::Ignore && !final(self).running(),
    {
        if !self.running {
            return Reaction::Ignore;
        }
        let reaction = on_stimulus(stimulus);
        match reaction {
            Reaction::Exit { .. } => {
                self.running = false;
            },
            _ => {},
        }
        reaction
    }

    /// Takes a stimulus and what was found of the window, and hands out the
    /// steps to carry out.
    pub fn handle(&mut self, stimulus: &Stimulus, window: WindowProbe) -> (steps: Vec<Step>)
        ensures
            steps@ == planned(reaction_of(old(self).running(), *stimulus), window),
            final(self).running() == runs_after(old(self).running(), *stimulus),
    {
        let reaction = self.react(stimulus);
        plan(reaction, window)
    }
}

/// Whether a stimulus is the activation of the quit item.
pub open spec fn is_quit(stimulus: Stimulus) -> bool {
    stimulus matches Stimulus::Menu { id } && id@ == TrayMenuItem::Quit.id_spec()
}

/// The one step of a process that was asked to quit.
pub open spec fn exit_steps() -> Seq<Step> {
    seq![Step::Exit { code: EXIT_SUCCESS }]
}

/// A stopped controller hands out nothing, however long it is fed.
pub proof fn lemma_stopped_is_silent(inputs: Seq<(Stimulus, WindowProbe)>)
    ensures
        trace(false, inputs) == Seq::<Step>::empty(),
    decreases inputs.len(),
{
    if inputs.len() > 0 {
        lemma_stopped_is_silent(inputs.drop_first());
    }
}

/// Quitting is final.
///
/// When the quit item is activated on a running controller, the one step
/// handed out is an exit with code 0, and whatever comes in afterwards leads
/// to no step at all: no event is emitted after the exit.
pub proof fn law_quit_is_final(
    quit: Stimulus,
    window: WindowProbe,
    later: Seq<(Stimulus, WindowProbe)>,
)
    requires
        is_quit(quit),
    ensures
        route(quit) == (Reaction::Exit { code: 0 }),
        planned(route(quit), window) == exit_steps(),
        !runs_after(true, quit),
        trace(true, seq![(quit, window)] + later) == exit_steps(),
{
    let inputs = seq![(quit, window)] + later;
    assert(inputs[0] == (quit, window));
    assert(inputs.drop_first() =~= later);
    lemma_stopped_is_silent(later);
}

/// The dispatch table, row by row.
///
/// Of the menu, `quit` exits with code 0, `show` toggles, `capture` sends
/// `trigger-capture` without showing the window, and no other identifier does
/// anything. Of the tray icon, the release of the left button toggles and no
/// other event does anything. Each shortcut sends its own trigger and shows
/// the window, and no two shortcuts send an event of the same name.
pub proof fn law_dispatch_table()
    ensures
        route_menu("quit"@) == (Reaction::Exit { code: 0 }),
        route_menu("show"@) == Reaction::Toggle,
        route_menu("capture"@) == (Reaction::Emit { signal: Signal::TriggerCapture }),
        forall|id: Seq<char>|
            id != "quit"@ && id != "show"@ && id != "capture"@ ==> #[trigger] route_menu(id)
                == Reaction::Ignore,
        route_tray(primary_click()) == Reaction::Toggle,
        forall|event: TrayEvent|
            event != primary_click() ==> #[trigger] route_tray(event) == Reaction::Ignore,
        route_shortcut(ShortcutBinding::Capture) == (Reaction::EmitAndShow {
            signal: Signal::TriggerCapture,
        }),
        route_shortcut(ShortcutBinding::Screenshot) == (Reaction::EmitAndShow {
            signal: Signal::TriggerScreenshot,
        }),
        route_shortcut(ShortcutBinding::Recording) == (Reaction::EmitAndShow {
            signal: Signal::TriggerRecording,
        }),
        forall|a: ShortcutBinding, b: ShortcutBinding|
            a != b ==> #[trigger] a.signal_spec().name_spec()
                != #[trigger] b.signal_spec().name_spec(),
{
    lemma_menu_ids_identify(TrayMenuItem::Quit, "quit"@);
    lemma_menu_ids_identify(TrayMenuItem::Show, "show"@);
    lemma_menu_ids_identify(TrayMenuItem::QuickCapture, "capture"@);
    assert forall|a: ShortcutBinding, b: ShortcutBinding| a != b implies #[trigger] a.signal_spec(
    ).name_spec() != #[trigger] b.signal_spec().name_spec() by {
        lemma_signal_names_distinct(a.signal_spec(), b.signal_spec());
    }
}

/// Without a window there is nothing to do to it.
///
/// When the managed window cannot be found, no reaction leads to an event or
/// to a window operation. The one step left is the exit, which needs no
/// window.
pub proof fn law_nothing_without_a_window(reaction: Reaction)
    ensures
        reaction is Exit ==> planned(reaction, WindowProbe::Missing).len() == 1,
        reaction is Exit ==> planned(reaction, WindowProbe::Missing)[0] is Exit,
        !(reaction is Exit) ==> planned(reaction, WindowProbe::Missing) == Seq::<Step>::empty(),
{
}

/// What a stimulus calls for goes by the user action behind it, and by
/// nothing else of the stimulus than whether a shortcut raised it.
pub proof fn law_reaction_follows_intent(stimulus: Stimulus)
    ensures
        route(stimulus) == reaction_to(intent_of(stimulus), stimulus is Shortcut),
{
}

} // verus!
