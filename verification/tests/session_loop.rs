use ferrink::guardian::{
    check_input_file, check_report_age, is_kernel_path, parse_arguments, Diagnostic,
    InputDiagnostics,
};
use ferrink::refresh::RefreshMode;
use ferrink::session::{
    check_command_descriptor, check_ready_descriptor, closing_bytes, session_failure, SessionAction,
    SessionEnd, SessionEvent, SessionLoop, SessionPhase,
};
use ferrink::shell::{ApplicationIndex, ShellCommand};

#[test]
fn a_session_draws_announces_reads_and_ends() {
    let (mut session, action) = SessionLoop::start();
    assert_eq!(action, SessionAction::Present(RefreshMode::Full));
    assert_eq!(
        session.advance(SessionEvent::FramePresented, false, 0),
        SessionAction::SendReady
    );
    assert_eq!(
        session.advance(SessionEvent::ReadySent, false, 7_999),
        SessionAction::ReadInput {
            renew_budget: false
        }
    );
    assert_eq!(
        session.advance(SessionEvent::InputHandled, false, 8_000),
        SessionAction::Present(RefreshMode::Partial)
    );
    assert_eq!(
        session.advance(SessionEvent::FrameUnchanged, false, 8_000),
        SessionAction::ReadInput { renew_budget: true }
    );
    assert_eq!(
        session.advance(SessionEvent::InputHandled, true, 0),
        SessionAction::End(SessionEnd::Requested)
    );
    assert_eq!(session.phase(), SessionPhase::Ended);
    assert_eq!(
        session.advance(SessionEvent::FramePresented, false, 0),
        SessionAction::End(SessionEnd::Failed)
    );
}

#[test]
fn a_session_without_a_first_frame_is_not_announced() {
    let (mut session, _) = SessionLoop::start();
    assert_eq!(
        session.advance(SessionEvent::FrameUnchanged, false, 0),
        SessionAction::End(SessionEnd::NoFirstFrame)
    );
    let (mut session, _) = SessionLoop::start();
    assert_eq!(
        session.advance(SessionEvent::Failed, false, 0),
        SessionAction::End(SessionEnd::Failed)
    );
}

#[test]
fn a_requested_exit_ends_the_loop_before_more_input() {
    let (mut session, _) = SessionLoop::start();
    session.advance(SessionEvent::FramePresented, true, 0);
    assert_eq!(
        session.advance(SessionEvent::ReadySent, true, 0),
        SessionAction::End(SessionEnd::Requested)
    );
}

#[test]
fn the_first_failure_is_reported() {
    let text = |value: &str| Some(value.to_owned());
    assert_eq!(
        session_failure(None, text("pointer"), text("release"), None),
        text("pointer")
    );
    assert_eq!(
        session_failure(text("loop"), text("pointer"), None, None),
        text("loop")
    );
    assert_eq!(session_failure(None, None, text("release"), text("close")), text("release"));
    assert_eq!(session_failure(None, None, None, text("close")), text("close"));
    assert_eq!(session_failure(None, None, None, None), None);
}

#[test]
fn the_closing_bytes_carry_the_accepted_command() {
    let index = ApplicationIndex::try_from(37_usize).unwrap();
    assert_eq!(
        closing_bytes(Some(ShellCommand::LaunchApplication(index)), true),
        Ok(vec![b'A', 37])
    );
    assert_eq!(closing_bytes(Some(ShellCommand::PowerOff), true), Ok(vec![b'P']));
    assert_eq!(
        closing_bytes(None, true),
        Err("Kindle event loop exited without a guardian command")
    );
    assert_eq!(
        closing_bytes(Some(ShellCommand::Reboot), false),
        Err("accepted command has no guardian channel")
    );
}

#[test]
fn only_the_fixed_descriptors_are_accepted() {
    assert_eq!(check_ready_descriptor(None), Ok(()));
    assert_eq!(check_ready_descriptor(Some(3)), Ok(()));
    assert_eq!(
        check_ready_descriptor(Some(4)),
        Err("guardian readiness descriptor is not the fixed descriptor")
    );
    assert_eq!(check_command_descriptor(Some(4)), Ok(()));
    assert_eq!(
        check_command_descriptor(Some(3)),
        Err("guardian command descriptor is not the fixed descriptor")
    );
}

#[test]
fn reports_expire_unless_a_guardian_vouches() {
    assert_eq!(check_report_age(1_000, 100, false), Ok(()));
    assert_eq!(
        check_report_age(1_001, 100, false),
        Err("probe report is 901 seconds old; maximum is 900".to_owned())
    );
    assert_eq!(check_report_age(1_001, 100, true), Ok(()));
    assert_eq!(
        check_report_age(99, 100, true),
        Err("probe report timestamp is in the future".to_owned())
    );
}

#[test]
fn kernel_paths_and_large_files_are_refused() {
    for path in ["/dev", "/dev/fb0", "/proc/self", "/sys/power/state"] {
        assert!(is_kernel_path(path), "{path}");
    }
    for path in ["/device", "/mnt/us/dev", "/processes/x", "/"] {
        assert!(!is_kernel_path(path), "{path}");
    }
    assert!(check_input_file(true, 1_048_576));
    assert!(!check_input_file(true, 1_048_577));
    assert!(!check_input_file(false, 1));
}

#[test]
fn only_the_first_input_diagnostics_are_reported() {
    let mut diagnostics = InputDiagnostics::default();
    for number in 1..=32 {
        assert_eq!(diagnostics.read(), Diagnostic::Report { number });
    }
    assert_eq!(diagnostics.read(), Diagnostic::Suppressed);
    assert_eq!(diagnostics.read(), Diagnostic::Silent);
    for number in 1..=16 {
        assert_eq!(diagnostics.dispatch(), Diagnostic::Report { number });
    }
    assert_eq!(diagnostics.dispatch(), Diagnostic::Suppressed);
    assert_eq!(diagnostics.dispatch(), Diagnostic::Silent);
    diagnostics.reads = u32::MAX;
    assert_eq!(diagnostics.read(), Diagnostic::Silent);
}

#[test]
fn each_refused_guardian_argument_is_named() {
    for (arguments, message) in [
        (vec!["--profile"], "--profile requires a path"),
        (
            vec!["--report", "a", "--report", "b"],
            "--report may be supplied only once",
        ),
        (
            vec!["--application-manifest"],
            "--application-manifest requires a path",
        ),
        (vec!["--ready-fd"], "--ready-fd requires a value"),
        (
            vec!["--ready-fd", "4"],
            "--ready-fd accepts only the guardian descriptor 3",
        ),
        (
            vec!["--command-fd", "3"],
            "--command-fd accepts only the guardian descriptor 4",
        ),
        (
            vec!["--ready-fd", "3", "--ready-fd", "3"],
            "--ready-fd may be supplied only once",
        ),
        (
            vec!["--profile", "a", "--report", "b", "--ready-fd", "3"],
            "--ready-fd and --command-fd must be supplied together",
        ),
        (vec!["--report", "b"], "--profile is required"),
        (vec!["--profile", "a"], "--report is required"),
        (vec!["--force"], "unknown argument: --force"),
    ] {
        let given: Vec<Option<String>> = arguments
            .iter()
            .map(|argument| Some((*argument).to_owned()))
            .collect();
        assert_eq!(parse_arguments(&given).unwrap_err(), message);
    }
    assert_eq!(
        parse_arguments(&vec![None]).unwrap_err(),
        "arguments must be valid Unicode"
    );
    let mut many = Vec::new();
    for _ in 0..65 {
        many.push(Some("--application-manifest".to_owned()));
        many.push(Some("a".to_owned()));
    }
    assert_eq!(
        parse_arguments(&many).unwrap_err(),
        "too many --application-manifest values"
    );
}
