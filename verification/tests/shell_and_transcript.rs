use nvim_dispatch::handler::{transcript, Event, ShellRoutine, ShellStep};

fn replay(name: &str, on_os: bool, results: &[bool]) -> Vec<Event> {
    transcript(&name.to_string(), on_os, &results.to_vec())
}

#[test]
fn redraw_transcript_is_trace_then_decoder_call() {
    assert_eq!(replay("redraw", true, &[]), vec![Event::Trace, Event::RedrawCall]);
    assert_eq!(replay("redraw", false, &[]), vec![Event::Trace, Event::RedrawCall]);
}

#[test]
fn setting_changed_transcript_is_trace_then_settings_call() {
    assert_eq!(replay("setting_changed", false, &[]), vec![
        Event::Trace,
        Event::SettingsCall
    ]);
}

#[test]
fn unknown_event_transcript_is_trace_alone() {
    assert_eq!(replay("unknown.event", true, &[]), vec![Event::Trace]);
    assert_eq!(replay("totally.unknown", false, &[]), vec![Event::Trace]);
}

#[test]
fn register_branch_success_runs_three_calls_without_errors() {
    assert_eq!(
        replay("neovide.register_right_click", true, &[false, true, true]),
        vec![
            Event::Trace,
            Event::ShellCall(ShellRoutine::Unregister),
            Event::ShellCall(ShellRoutine::RegisterDirectory),
            Event::ShellCall(ShellRoutine::RegisterFile),
        ]
    );
}

#[test]
fn register_branch_reports_unregister_failure_and_continues() {
    assert_eq!(
        replay("neovide.register_right_click", true, &[true, true, true]),
        vec![
            Event::Trace,
            Event::ShellCall(ShellRoutine::Unregister),
            Event::ErrorLog(ShellStep::UnregisterBeforeRegister),
            Event::ShellCall(ShellRoutine::RegisterDirectory),
            Event::ShellCall(ShellRoutine::RegisterFile),
        ]
    );
}

#[test]
fn register_branch_reports_every_failure_in_order() {
    assert_eq!(
        replay("neovide.register_right_click", true, &[true, false, false]),
        vec![
            Event::Trace,
            Event::ShellCall(ShellRoutine::Unregister),
            Event::ErrorLog(ShellStep::UnregisterBeforeRegister),
            Event::ShellCall(ShellRoutine::RegisterDirectory),
            Event::ErrorLog(ShellStep::RegisterDirectory),
            Event::ShellCall(ShellRoutine::RegisterFile),
            Event::ErrorLog(ShellStep::RegisterFile),
        ]
    );
}

#[test]
fn unregister_branch_reports_a_false_return() {
    assert_eq!(
        replay("neovide.unregister_right_click", true, &[false]),
        vec![
            Event::Trace,
            Event::ShellCall(ShellRoutine::Unregister),
            Event::ErrorLog(ShellStep::UnregisterOnly),
        ]
    );
    assert_eq!(
        replay("neovide.unregister_right_click", true, &[true]),
        vec![Event::Trace, Event::ShellCall(ShellRoutine::Unregister)]
    );
}

#[test]
fn shell_branches_off_platform_leave_only_the_trace() {
    assert_eq!(replay("neovide.register_right_click", false, &[]), vec![Event::Trace]);
    assert_eq!(replay("neovide.unregister_right_click", false, &[]), vec![Event::Trace]);
}

#[test]
fn step_failure_polarity() {
    assert!(ShellStep::UnregisterBeforeRegister.failed(true));
    assert!(!ShellStep::UnregisterBeforeRegister.failed(false));
    assert!(ShellStep::RegisterDirectory.failed(false));
    assert!(!ShellStep::RegisterDirectory.failed(true));
    assert!(ShellStep::RegisterFile.failed(false));
    assert!(!ShellStep::RegisterFile.failed(true));
    assert!(ShellStep::UnregisterOnly.failed(false));
    assert!(!ShellStep::UnregisterOnly.failed(true));
}

#[test]
fn steps_invoke_their_routines() {
    assert_eq!(ShellStep::UnregisterBeforeRegister.routine(), ShellRoutine::Unregister);
    assert_eq!(ShellStep::RegisterDirectory.routine(), ShellRoutine::RegisterDirectory);
    assert_eq!(ShellStep::RegisterFile.routine(), ShellRoutine::RegisterFile);
    assert_eq!(ShellStep::UnregisterOnly.routine(), ShellRoutine::Unregister);
}

#[test]
fn error_hints_are_the_operator_messages() {
    assert_eq!(
        ShellStep::UnregisterBeforeRegister.error_hint(),
        "Setup of Windows Registry failed during unregister. Try running as Admin?"
    );
    assert_eq!(
        ShellStep::RegisterDirectory.error_hint(),
        "Setup of Windows Registry failed during directory registration. Try running as Admin?"
    );
    assert_eq!(
        ShellStep::RegisterFile.error_hint(),
        "Setup of Windows Registry failed during file registration. Try running as Admin?"
    );
    assert_eq!(
        ShellStep::UnregisterOnly.error_hint(),
        "Removal of Windows Registry failed, probably no Admin"
    );
}
