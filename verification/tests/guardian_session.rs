use ferrink::guardian::{
    encode_guardian_command, parse_arguments, GuardianCommandPort, ParseResult,
};
use ferrink::shell::{ApplicationIndex, ShellCommand, ShellCommandOutcome, ShellCommandPort};

fn args(values: &[&str]) -> Vec<Option<String>> {
    values.iter().map(|value| Some((*value).to_owned())).collect()
}

#[test]
fn exact_profile_and_report_are_required_once() {
    let parsed = parse_arguments(&args(&[
        "--profile",
        "profile.toml",
        "--report",
        "report.json",
    ]))
    .unwrap();
    assert!(matches!(parsed, ParseResult::Run(_)));
    let parsed = parse_arguments(&args(&[
        "--profile",
        "profile.toml",
        "--report",
        "report.json",
        "--ready-fd",
        "3",
        "--command-fd",
        "4",
    ]))
    .unwrap();
    assert!(matches!(
        parsed,
        ParseResult::Run(arguments)
            if arguments.ready_fd == Some(3) && arguments.command_fd == Some(4)
    ));
    assert!(
        parse_arguments(&args(&[
            "--profile",
            "profile.toml",
            "--report",
            "report.json",
            "--ready-fd",
            "4",
        ]))
        .is_err()
    );
    assert!(parse_arguments(&args(&[])).is_err());
    assert!(parse_arguments(&args(&["--profile", "one", "--profile", "two"])).is_err());
    assert!(parse_arguments(&args(&["--command-fd", "3"])).is_err());
    assert!(
        parse_arguments(&args(&[
            "--profile",
            "profile.toml",
            "--report",
            "report.json",
            "--ready-fd",
            "3",
        ]))
        .is_err()
    );
}

#[test]
fn hardware_and_authority_overrides_do_not_exist() {
    for flag in [
        "--device",
        "--duration",
        "--waveform",
        "--marker",
        "--retry",
        "--force",
        "--install",
        "--reboot",
        "--power-off",
    ] {
        assert!(parse_arguments(&args(&[flag])).is_err(), "accepted {flag}");
    }
}

#[test]
fn guardian_accepts_one_confirmed_shell_request() {
    let mut port = GuardianCommandPort::new(true);

    assert_eq!(
        port.submit(ShellCommand::Reboot),
        ShellCommandOutcome::Accepted
    );
    assert!(port.exit_requested());
    assert_eq!(port.request(), Some(ShellCommand::Reboot));
    assert_eq!(
        port.submit(ShellCommand::PowerOff),
        ShellCommandOutcome::Unavailable
    );
    assert!(port.exit_requested());

    let mut port = GuardianCommandPort::new(true);
    let first_application = ApplicationIndex::try_from(0_usize).unwrap();
    assert_eq!(
        port.submit(ShellCommand::LaunchApplication(first_application)),
        ShellCommandOutcome::Accepted
    );
    assert!(port.exit_requested());
    assert_eq!(
        port.request(),
        Some(ShellCommand::LaunchApplication(first_application))
    );
    assert_eq!(
        port.submit(ShellCommand::ReturnToStock),
        ShellCommandOutcome::Unavailable
    );
}

#[test]
fn detached_shell_cannot_claim_a_handoff() {
    let mut port = GuardianCommandPort::new(false);

    assert_eq!(
        port.submit(ShellCommand::ReturnToStock),
        ShellCommandOutcome::Unavailable
    );
    assert!(!port.exit_requested());
}

#[test]
fn guardian_protocol_carries_the_exact_application_index() {
    let index = ApplicationIndex::try_from(37_usize).unwrap();
    assert_eq!(
        encode_guardian_command(ShellCommand::LaunchApplication(index)),
        Some(([b'A', 37], 2))
    );
    assert_eq!(
        encode_guardian_command(ShellCommand::ReturnToStock),
        Some(([b'S', 0], 1))
    );
    assert_eq!(
        encode_guardian_command(ShellCommand::Reboot),
        Some(([b'R', 0], 1))
    );
    assert_eq!(
        encode_guardian_command(ShellCommand::PowerOff),
        Some(([b'P', 0], 1))
    );
}
