use tray_controller::dispatch::{
    on_menu_event, on_shortcut, on_stimulus, on_tray_icon_event, plan, Controller, Reaction, Step,
    Stimulus, WindowProbe, EXIT_SUCCESS,
};
use tray_controller::intent::{Intent, Signal};
use tray_controller::menu::{ButtonState, MouseButton, TrayEvent};
use tray_controller::shortcut::ShortcutBinding;
use tray_controller::window::WindowOp;

fn show_steps() -> Vec<Step> {
    vec![
        Step::Window { op: WindowOp::Place },
        Step::Window { op: WindowOp::Show },
        Step::Window { op: WindowOp::Focus },
    ]
}

fn menu(id: &str) -> Stimulus {
    Stimulus::Menu { id: id.to_string() }
}

fn left_click_up() -> TrayEvent {
    TrayEvent::Click { button: MouseButton::Left, state: ButtonState::Up }
}

#[test]
fn quit_item_exits_with_code_zero() {
    assert_eq!(EXIT_SUCCESS, 0);
    assert_eq!(on_menu_event("quit"), Reaction::Exit { code: 0 });
}

#[test]
fn show_item_toggles() {
    assert_eq!(on_menu_event("show"), Reaction::Toggle);
}

#[test]
fn capture_item_emits_its_trigger_and_does_not_show() {
    let reaction = on_menu_event("capture");
    assert_eq!(reaction, Reaction::Emit { signal: Signal::TriggerCapture });
    let steps = plan(reaction, WindowProbe::Present { visible: Some(false) });
    assert_eq!(steps, vec![Step::Emit { signal: Signal::TriggerCapture }]);
}

#[test]
fn unknown_menu_ids_are_ignored() {
    let ids = [
        "", "Quit", "QUIT", "quit ", " quit", "qui", "quits", "shows", "captures", "hide",
        "sh\u{f6}w",
    ];
    for id in ids {
        assert_eq!(on_menu_event(id), Reaction::Ignore);
    }
}

#[test]
fn left_button_release_on_the_icon_toggles() {
    assert_eq!(on_tray_icon_event(left_click_up()), Reaction::Toggle);
}

#[test]
fn other_tray_events_are_ignored() {
    let others = [
        TrayEvent::Click { button: MouseButton::Left, state: ButtonState::Down },
        TrayEvent::Click { button: MouseButton::Right, state: ButtonState::Up },
        TrayEvent::Click { button: MouseButton::Right, state: ButtonState::Down },
        TrayEvent::Click { button: MouseButton::Middle, state: ButtonState::Up },
        TrayEvent::Click { button: MouseButton::Middle, state: ButtonState::Down },
        TrayEvent::DoubleClick { button: MouseButton::Left },
        TrayEvent::DoubleClick { button: MouseButton::Right },
        TrayEvent::Enter,
        TrayEvent::Move,
        TrayEvent::Leave,
        TrayEvent::Other,
    ];
    for event in others {
        assert!(!event.is_primary_click());
        assert_eq!(on_tray_icon_event(event), Reaction::Ignore);
    }
    assert!(left_click_up().is_primary_click());
}

#[test]
fn shortcuts_emit_their_trigger_and_show() {
    assert_eq!(
        on_shortcut(ShortcutBinding::Capture),
        Reaction::EmitAndShow { signal: Signal::TriggerCapture }
    );
    assert_eq!(
        on_shortcut(ShortcutBinding::Screenshot),
        Reaction::EmitAndShow { signal: Signal::TriggerScreenshot }
    );
    assert_eq!(
        on_shortcut(ShortcutBinding::Recording),
        Reaction::EmitAndShow { signal: Signal::TriggerRecording }
    );
}

#[test]
fn stimuli_route_like_their_sources() {
    assert_eq!(on_stimulus(&menu("quit")), Reaction::Exit { code: 0 });
    assert_eq!(on_stimulus(&menu("show")), Reaction::Toggle);
    assert_eq!(on_stimulus(&menu("capture")), Reaction::Emit { signal: Signal::TriggerCapture });
    assert_eq!(on_stimulus(&menu("nothing")), Reaction::Ignore);
    assert_eq!(on_stimulus(&Stimulus::Tray(left_click_up())), Reaction::Toggle);
    assert_eq!(on_stimulus(&Stimulus::Tray(TrayEvent::Enter)), Reaction::Ignore);
    assert_eq!(
        on_stimulus(&Stimulus::Shortcut(ShortcutBinding::Recording)),
        Reaction::EmitAndShow { signal: Signal::TriggerRecording }
    );
}

#[test]
fn only_a_toggle_needs_the_visibility() {
    assert!(Reaction::Toggle.needs_visibility());
    assert!(!Reaction::Ignore.needs_visibility());
    assert!(!Reaction::Exit { code: 0 }.needs_visibility());
    assert!(!Reaction::Emit { signal: Signal::TriggerCapture }.needs_visibility());
    assert!(!Reaction::EmitAndShow { signal: Signal::TriggerCapture }.needs_visibility());
}

#[test]
fn window_directed_reactions_need_the_window() {
    assert!(Reaction::Toggle.needs_window());
    assert!(Reaction::Emit { signal: Signal::TriggerCapture }.needs_window());
    assert!(Reaction::EmitAndShow { signal: Signal::TriggerRecording }.needs_window());
    assert!(!Reaction::Ignore.needs_window());
    assert!(!Reaction::Exit { code: 0 }.needs_window());
}

#[test]
fn plan_of_a_toggle_goes_by_the_visibility() {
    assert_eq!(plan(Reaction::Toggle, WindowProbe::Present { visible: Some(false) }), show_steps());
    assert_eq!(plan(Reaction::Toggle, WindowProbe::Present { visible: None }), show_steps());
    assert_eq!(
        plan(Reaction::Toggle, WindowProbe::Present { visible: Some(true) }),
        vec![Step::Window { op: WindowOp::Hide }]
    );
}

#[test]
fn plan_of_a_shortcut_emits_first_and_then_shows() {
    let reaction = on_shortcut(ShortcutBinding::Screenshot);
    let mut expected = vec![Step::Emit { signal: Signal::TriggerScreenshot }];
    expected.extend(show_steps());
    assert_eq!(plan(reaction, WindowProbe::Present { visible: Some(false) }), expected);
    assert_eq!(plan(reaction, WindowProbe::Present { visible: Some(true) }), expected);
    assert_eq!(plan(reaction, WindowProbe::Present { visible: None }), expected);
}

#[test]
fn plan_without_a_window_is_empty() {
    assert_eq!(plan(Reaction::Toggle, WindowProbe::Missing), vec![]);
    let emit = Reaction::Emit { signal: Signal::TriggerCapture };
    assert_eq!(plan(emit, WindowProbe::Missing), vec![]);
    assert_eq!(
        plan(Reaction::EmitAndShow { signal: Signal::TriggerCapture }, WindowProbe::Missing),
        vec![]
    );
    assert_eq!(plan(Reaction::Ignore, WindowProbe::Missing), vec![]);
}

#[test]
fn plan_of_an_exit_needs_no_window() {
    let exit = Reaction::Exit { code: 0 };
    assert_eq!(plan(exit, WindowProbe::Missing), vec![Step::Exit { code: 0 }]);
    assert_eq!(
        plan(Reaction::Exit { code: 0 }, WindowProbe::Present { visible: Some(true) }),
        vec![Step::Exit { code: 0 }]
    );
    let other = Reaction::Exit { code: 3 };
    assert_eq!(plan(other, WindowProbe::Missing), vec![Step::Exit { code: 3 }]);
}

#[test]
fn plan_of_ignore_is_empty() {
    assert_eq!(plan(Reaction::Ignore, WindowProbe::Present { visible: Some(true) }), vec![]);
}

#[test]
fn a_new_controller_runs_and_routes() {
    let mut controller = Controller::new();
    assert!(controller.is_running());
    assert_eq!(controller.react(&menu("show")), Reaction::Toggle);
    assert!(controller.is_running());
    assert_eq!(
        controller
            .handle(&Stimulus::Tray(left_click_up()), WindowProbe::Present { visible: Some(true) }),
        vec![Step::Window { op: WindowOp::Hide }]
    );
    assert_eq!(controller.react(&menu("unknown")), Reaction::Ignore);
    assert!(controller.is_running());
}

#[test]
fn nothing_is_handed_out_after_quit() {
    let mut controller = Controller::new();
    let window = WindowProbe::Present { visible: Some(false) };
    assert_eq!(controller.handle(&menu("quit"), window), vec![Step::Exit { code: 0 }]);
    assert!(!controller.is_running());

    let later = [
        menu("capture"),
        menu("show"),
        menu("quit"),
        Stimulus::Tray(left_click_up()),
        Stimulus::Shortcut(ShortcutBinding::Capture),
        Stimulus::Shortcut(ShortcutBinding::Screenshot),
        Stimulus::Shortcut(ShortcutBinding::Recording),
    ];
    for stimulus in later.iter() {
        assert_eq!(controller.react(stimulus), Reaction::Ignore);
        assert_eq!(controller.handle(stimulus, window), vec![]);
        assert!(!controller.is_running());
    }
}

#[test]
fn toggling_through_the_controller_twice() {
    let mut controller = Controller::new();
    let first = controller.handle(&menu("show"), WindowProbe::Present { visible: Some(false) });
    assert_eq!(first, show_steps());
    let second = controller.handle(&menu("show"), WindowProbe::Present { visible: Some(true) });
    assert_eq!(second, vec![Step::Window { op: WindowOp::Hide }]);
    assert!(controller.is_running());
}

#[test]
fn stimuli_stand_for_their_intents() {
    assert_eq!(menu("quit").intent(), Some(Intent::Quit));
    assert_eq!(menu("show").intent(), Some(Intent::Show));
    assert_eq!(menu("capture").intent(), Some(Intent::Capture));
    assert_eq!(menu("record").intent(), None);
    assert_eq!(Stimulus::Tray(left_click_up()).intent(), Some(Intent::Show));
    assert_eq!(Stimulus::Tray(TrayEvent::Leave).intent(), None);
    assert_eq!(Stimulus::Shortcut(ShortcutBinding::Capture).intent(), Some(Intent::Capture));
    assert_eq!(Stimulus::Shortcut(ShortcutBinding::Screenshot).intent(), Some(Intent::Snapshot));
    assert_eq!(Stimulus::Shortcut(ShortcutBinding::Recording).intent(), Some(Intent::Record));
}

#[test]
fn the_same_intent_shows_the_window_only_when_a_shortcut_raised_it() {
    let from_menu = menu("capture");
    let from_shortcut = Stimulus::Shortcut(ShortcutBinding::Capture);
    assert_eq!(from_menu.intent(), from_shortcut.intent());
    assert_eq!(on_stimulus(&from_menu), Reaction::Emit { signal: Signal::TriggerCapture });
    assert_eq!(
        on_stimulus(&from_shortcut),
        Reaction::EmitAndShow { signal: Signal::TriggerCapture }
    );
}
