use tray_controller::commands::{
    get_capture_stats, quick_capture, start_recording, take_screenshot, CaptureStats,
};
use tray_controller::intent::{Intent, Signal};
use tray_controller::invoker::{Conclusion, Emission, ProcessOutcome, Task, TaskResult};

fn exited(code: i32, stderr: &[u8]) -> ProcessOutcome {
    ProcessOutcome::Exited { code: Some(code), stderr: stderr.to_vec() }
}

fn capture(description: &str) -> Task {
    Task::Capture { description: description.to_string() }
}

#[test]
fn capture_stats_are_all_zero() {
    assert_eq!(get_capture_stats(), Ok(CaptureStats { total: 0, today: 0, resolved: 0 }));
}

#[test]
fn quick_capture_is_a_capture_of_its_description() {
    assert_eq!(quick_capture("login fails".to_string()), capture("login fails"));
    assert_eq!(quick_capture(String::new()), capture(""));
}

#[test]
fn take_screenshot_is_a_snapshot() {
    assert_eq!(take_screenshot(), Task::Snapshot);
}

#[test]
fn tasks_carry_out_their_intents() {
    assert_eq!(capture("x").intent(), Intent::Capture);
    assert_eq!(Task::Snapshot.intent(), Intent::Snapshot);
}

#[test]
fn a_capture_runs_the_capture_subcommand_on_its_description() {
    let invocation = capture("login fails").invocation();
    assert_eq!(invocation.program, "bun");
    assert_eq!(invocation.args, vec!["run", "src/cli.ts", "capture", "login fails"]);
}

#[test]
fn a_description_is_one_argument_whatever_it_holds() {
    let invocation = capture("two words --and a flag").invocation();
    assert_eq!(invocation.args.len(), 4);
    assert_eq!(invocation.args[3], "two words --and a flag");
    let empty = capture("").invocation();
    assert_eq!(empty.args, vec!["run", "src/cli.ts", "capture", ""]);
}

#[test]
fn a_snapshot_runs_snapshot_before() {
    let invocation = Task::Snapshot.invocation();
    assert_eq!(invocation.program, "bun");
    assert_eq!(invocation.args, vec!["run", "src/cli.ts", "snapshot", "before"]);
}

#[test]
fn exit_code_zero_is_success_with_exactly_one_completion_event() {
    let conclusion = capture("login fails").conclude(exited(0, b""));
    assert_eq!(
        conclusion,
        Conclusion {
            result: TaskResult::Success,
            emission: Some(Emission {
                signal: Signal::CaptureComplete,
                payload: Some("login fails".to_string()),
            }),
        }
    );
    assert_eq!(conclusion.emission.iter().count(), 1);
    assert_eq!(conclusion.response(None), Ok(()));
}

#[test]
fn standard_error_is_ignored_on_success() {
    let conclusion = Task::Snapshot.conclude(exited(0, b"warning: slow disk"));
    assert_eq!(
        conclusion,
        Conclusion {
            result: TaskResult::Success,
            emission: Some(Emission { signal: Signal::ScreenshotComplete, payload: None }),
        }
    );
}

#[test]
fn exit_code_one_with_boom_is_failure_boom_and_no_event() {
    let conclusion = capture("login fails").conclude(exited(1, b"boom"));
    assert_eq!(
        conclusion,
        Conclusion { result: TaskResult::Failure("boom".to_string()), emission: None }
    );
    assert_eq!(conclusion.response(None), Err("boom".to_string()));

    let snapshot = Task::Snapshot.conclude(exited(1, b"boom"));
    assert_eq!(
        snapshot,
        Conclusion { result: TaskResult::Failure("boom".to_string()), emission: None }
    );
}

#[test]
fn any_other_exit_code_is_failure() {
    for code in [1, 2, 127, 255, -1, i32::MIN, i32::MAX] {
        let conclusion = Task::Snapshot.conclude(exited(code, b"no"));
        assert_eq!(conclusion.result, TaskResult::Failure("no".to_string()));
        assert_eq!(conclusion.emission, None);
    }
}

#[test]
fn ending_without_an_exit_code_is_failure() {
    let outcome = ProcessOutcome::Exited { code: None, stderr: b"killed".to_vec() };
    let conclusion = capture("x").conclude(outcome);
    assert_eq!(
        conclusion,
        Conclusion { result: TaskResult::Failure("killed".to_string()), emission: None }
    );
}

#[test]
fn a_failure_with_empty_standard_error_has_an_empty_message() {
    let conclusion = capture("x").conclude(exited(3, b""));
    assert_eq!(conclusion.result, TaskResult::Failure(String::new()));
    assert_eq!(conclusion.response(None), Err(String::new()));
}

#[test]
fn standard_error_is_decoded_as_utf8() {
    let conclusion = capture("x").conclude(exited(1, "caf\u{e9} \u{1f4a5}".as_bytes()));
    assert_eq!(conclusion.result, TaskResult::Failure("caf\u{e9} \u{1f4a5}".to_string()));
}

#[test]
fn ill_formed_standard_error_is_decoded_lossily() {
    let conclusion = capture("x").conclude(exited(1, &[b'b', 0xff, b'o', 0xc3, b'm']));
    assert_eq!(conclusion.result, TaskResult::Failure("b\u{fffd}o\u{fffd}m".to_string()));
    let truncated = capture("x").conclude(exited(1, &[0xe2, 0x82]));
    assert_eq!(truncated.result, TaskResult::Failure("\u{fffd}".to_string()));
}

#[test]
fn exited_goes_by_the_code_and_the_given_text() {
    let task = capture("d");
    let ok = task.exited(Some(0), "noise".to_string());
    assert_eq!(ok.result, TaskResult::Success);
    assert_eq!(ok.emission, Some(task.completion()));
    let bad = task.exited(Some(1), "boom".to_string());
    assert_eq!(bad, Conclusion { result: TaskResult::Failure("boom".to_string()), emission: None });
    let none = task.exited(None, "gone".to_string());
    assert_eq!(
        none,
        Conclusion { result: TaskResult::Failure("gone".to_string()), emission: None }
    );
}

#[test]
fn a_capture_that_cannot_be_launched_says_so() {
    let outcome = ProcessOutcome::LaunchFailed { reason: "No such file or directory".to_string() };
    let conclusion = capture("x").conclude(outcome);
    assert_eq!(
        conclusion,
        Conclusion {
            result: TaskResult::Failure(
                "Failed to run capture: No such file or directory".to_string()
            ),
            emission: None,
        }
    );
    assert_eq!(
        conclusion.response(None),
        Err("Failed to run capture: No such file or directory".to_string())
    );
}

#[test]
fn a_screenshot_that_cannot_be_launched_says_so() {
    let conclusion = Task::Snapshot.launch_failed("Permission denied");
    assert_eq!(
        conclusion,
        Conclusion {
            result: TaskResult::Failure("Failed to take screenshot: Permission denied".to_string()),
            emission: None,
        }
    );
    let same = Task::Snapshot
        .conclude(ProcessOutcome::LaunchFailed { reason: "Permission denied".to_string() });
    assert_eq!(same, conclusion);
}

#[test]
fn completion_events_of_the_tasks() {
    assert_eq!(
        capture("d").completion(),
        Emission { signal: Signal::CaptureComplete, payload: Some("d".to_string()) }
    );
    assert_eq!(
        Task::Snapshot.completion(),
        Emission { signal: Signal::ScreenshotComplete, payload: None }
    );
    assert_eq!(capture("d").completion().signal.name(), "capture-complete");
    assert_eq!(Task::Snapshot.completion().signal.name(), "screenshot-complete");
}

#[test]
fn two_captures_report_their_own_descriptions() {
    let first = capture("first bug");
    let second = capture("second bug");
    let second_conclusion = second.conclude(exited(0, b"b"));
    let first_conclusion = first.conclude(exited(0, b"a"));
    assert_eq!(
        first_conclusion.emission,
        Some(Emission { signal: Signal::CaptureComplete, payload: Some("first bug".to_string()) })
    );
    assert_eq!(
        second_conclusion.emission,
        Some(Emission { signal: Signal::CaptureComplete, payload: Some("second bug".to_string()) })
    );
    assert_ne!(first_conclusion.emission, second_conclusion.emission);
}

#[test]
fn one_capture_failing_does_not_touch_the_other() {
    let first = capture("first bug").conclude(exited(1, b"boom"));
    let second = capture("second bug").conclude(exited(0, b""));
    assert_eq!(first.emission, None);
    assert_eq!(first.result, TaskResult::Failure("boom".to_string()));
    assert_eq!(second.result, TaskResult::Success);
    assert_eq!(
        second.emission,
        Some(Emission { signal: Signal::CaptureComplete, payload: Some("second bug".to_string()) })
    );
}

#[test]
fn start_recording_succeeds_at_once() {
    let conclusion = start_recording();
    assert_eq!(
        conclusion,
        Conclusion {
            result: TaskResult::Success,
            emission: Some(Emission { signal: Signal::RecordingStarted, payload: None }),
        }
    );
    assert_eq!(conclusion.response(None), Ok(()));
}

#[test]
fn a_failed_emission_turns_success_into_an_error() {
    let conclusion = start_recording();
    assert_eq!(
        conclusion.response(Some("channel closed")),
        Err("Failed to emit event: channel closed".to_string())
    );
    let capture_done = capture("d").conclude(exited(0, b""));
    assert_eq!(
        capture_done.response(Some("window gone")),
        Err("Failed to emit event: window gone".to_string())
    );
}

#[test]
fn a_failed_task_answers_with_its_own_message() {
    let failed = capture("d").conclude(exited(1, b"boom"));
    assert_eq!(failed.response(Some("never sent")), Err("boom".to_string()));
}

#[test]
fn success_without_an_event_answers_ok() {
    let quiet = Conclusion { result: TaskResult::Success, emission: None };
    assert_eq!(quiet.response(None), Ok(()));
    assert_eq!(quiet.response(Some("nothing was sent")), Ok(()));
}
