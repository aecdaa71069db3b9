use ferrink::shell::{
    parse_options, PreviewCommandPort, ShellAction, ShellCommand, ShellCommandOutcome,
    ShellCommandPort, ShellController, ShellProfile,
};

#[test]
fn preview_defaults_to_paperwhite_geometry() {
    let options = parse_options(&Vec::<String>::new()).expect("default arguments should parse");

    assert_eq!(options.profile, ShellProfile::Paperwhite1);
    assert_eq!(options.profile.dimensions(), (758, 1024));
}

#[test]
fn exact_oasis_profile_is_accepted() {
    let options =
        parse_options(&vec!["--profile".into(), "koa3".into()]).expect("known profile should parse");

    assert_eq!(options.profile, ShellProfile::Oasis3);
    assert_eq!(options.profile.dimensions(), (1264, 1680));
}

#[test]
fn unknown_arguments_and_profile_values_fail_closed() {
    assert!(parse_options(&vec!["--device".into()]).is_err());
    assert!(parse_options(&vec!["--profile".into(), "pw5".into()]).is_err());
    assert!(parse_options(&vec!["--profile".into()]).is_err());
}

#[test]
fn emitted_commands_are_only_recorded_as_inert_preview_notices() {
    let mut controller = ShellController::default();
    let mut command_port = PreviewCommandPort;
    let command = controller
        .dispatch(ShellAction::RequestStock)
        .expect("stock action should produce a typed request");

    assert_eq!(command, ShellCommand::ReturnToStock);
    let outcome = command_port.submit(command);
    assert_eq!(outcome, ShellCommandOutcome::Unavailable);
    controller.note_command_outcome(command, outcome);
    assert_eq!(
        controller.notice().text(),
        "Preview only · stock handoff was not executed"
    );
}
