use ferrink::guardian::GuardianCommandPort;
use ferrink::shell::{
    check_font_families, parse_options, ApplicationIndex, PreviewCommandPort, ShellAlert,
    ShellCommand, ShellCommandOutcome, ShellCommandPort, ShellController, ShellNotice,
    ShellProfile, ShellView,
};
use ferrink::window::{
    bundled_preview_catalog, focus_shell_ui, install_shell_handlers, preview_background_options,
    sync_shell_ui, AlertKind, ConfirmationKind, ShellCallback, ShellWindowState,
};

fn window() -> ShellWindowState {
    ShellWindowState {
        page: ShellView::Home,
        confirmation: ConfirmationKind::NoConfirmation,
        alert: AlertKind::NoAlert,
        recovery_seconds: 0,
        notice: ShellNotice::ManualPreview,
        quick_settings_open: true,
        focus_generation: 4,
        sample_count: 0,
    }
}

#[test]
fn callbacks_reach_the_controller_and_the_window() {
    let mut ui = window();
    let mut controller = ShellController::default();
    let mut port = PreviewCommandPort;
    let mut handlers = install_shell_handlers();
    assert!(handlers.handle_shell_callback(
        &mut ui,
        &mut controller,
        &mut port,
        ShellCallback::OpenSettings,
    ));
    assert_eq!(ui.page, ShellView::Settings);
    assert!(ui.quick_settings_open);
    assert!(handlers.handle_shell_callback(
        &mut ui,
        &mut controller,
        &mut port,
        ShellCallback::RequestReboot,
    ));
    assert_eq!(ui.confirmation, ConfirmationKind::Reboot);
    assert!(!ui.quick_settings_open);
    assert!(handlers.handle_shell_callback(
        &mut ui,
        &mut controller,
        &mut port,
        ShellCallback::ConfirmPowerAction,
    ));
    assert_eq!(ui.confirmation, ConfirmationKind::NoConfirmation);
    assert_eq!(
        ui.notice,
        ShellNotice::CommandNotExecuted(ShellCommand::Reboot)
    );
    assert_eq!(ui.notice.text(), "Preview only · reboot was not executed");
    assert_eq!(ui.focus_generation, 4);
}

#[test]
fn rows_outside_the_catalog_do_nothing() {
    let mut port = GuardianCommandPort::new(true);
    let mut handlers = install_shell_handlers();
    for raw_index in [-1, 64, i32::MAX] {
        let mut ui = window();
        let mut controller = ShellController::for_device();
        assert!(!handlers.handle_shell_callback(
            &mut ui,
            &mut controller,
            &mut port,
            ShellCallback::LaunchApplication(raw_index),
        ));
        assert_eq!(ui, window());
        assert_eq!(controller, ShellController::for_device());
        assert_eq!(port.request(), None);
    }
    let mut ui = window();
    let mut controller = ShellController::for_device();
    assert!(handlers.handle_shell_callback(
        &mut ui,
        &mut controller,
        &mut port,
        ShellCallback::LaunchApplication(63),
    ));
    let index = ApplicationIndex::try_from(63_i32).unwrap();
    assert_eq!(port.request(), Some(ShellCommand::LaunchApplication(index)));
    assert_eq!(ui.notice.text(), "Opening application");
}

#[test]
fn the_sample_count_belongs_to_the_handlers() {
    let mut ui = ShellWindowState {
        sample_count: 5,
        ..window()
    };
    let mut controller = ShellController::default();
    let mut port = PreviewCommandPort;
    let mut handlers = install_shell_handlers();
    for count in 1..=3 {
        assert!(!handlers.handle_shell_callback(
            &mut ui,
            &mut controller,
            &mut port,
            ShellCallback::IncrementSample,
        ));
        assert_eq!(ui.sample_count, count);
    }
    handlers.handle_shell_callback(
        &mut ui,
        &mut controller,
        &mut port,
        ShellCallback::ReturnHome,
    );
    assert_eq!(ui.sample_count, 3);
    let mut fresh = install_shell_handlers();
    fresh.handle_shell_callback(
        &mut ui,
        &mut controller,
        &mut port,
        ShellCallback::IncrementSample,
    );
    assert_eq!(ui.sample_count, 1);
    assert_eq!(controller, ShellController::default());
}

/// A port that notes what is submitted to it.
struct RecordingPort {
    submitted: Vec<ShellCommand>,
    outcome: ShellCommandOutcome,
}

impl ShellCommandPort for RecordingPort {
    fn submit(&mut self, command: ShellCommand) -> ShellCommandOutcome {
        self.submitted.push(command);
        self.outcome
    }
}

#[test]
fn the_port_receives_exactly_the_permitted_commands() {
    for outcome in [
        ShellCommandOutcome::Accepted,
        ShellCommandOutcome::Unavailable,
    ] {
        let mut port = RecordingPort {
            submitted: Vec::new(),
            outcome,
        };
        let mut ui = window();
        let mut controller = ShellController::for_device();
        let mut handlers = install_shell_handlers();
        assert!(port.submitted.is_empty());
        for callback in [
            ShellCallback::LaunchApplication(2),
            ShellCallback::LaunchApplication(64),
            ShellCallback::ReturnHome,
            ShellCallback::OpenSample,
            ShellCallback::IncrementSample,
            ShellCallback::OpenSettings,
            ShellCallback::OpenMaintenance,
            ShellCallback::RequestStock,
            ShellCallback::ConfirmPowerAction,
            ShellCallback::RequestReboot,
            ShellCallback::LaunchApplication(3),
            ShellCallback::RequestStock,
            ShellCallback::CancelPowerAction,
            ShellCallback::RequestPowerOff,
            ShellCallback::RequestReboot,
            ShellCallback::ConfirmPowerAction,
            ShellCallback::DismissAlert,
            ShellCallback::RequestReboot,
            ShellCallback::ConfirmPowerAction,
            ShellCallback::ConfirmPowerAction,
        ] {
            handlers.handle_shell_callback(&mut ui, &mut controller, &mut port, callback);
        }
        assert_eq!(
            port.submitted,
            [
                ShellCommand::LaunchApplication(ApplicationIndex::try_from(2_i32).unwrap()),
                ShellCommand::ReturnToStock,
                ShellCommand::PowerOff,
                ShellCommand::Reboot,
            ]
        );
        assert_eq!(
            ui.notice,
            match outcome {
                ShellCommandOutcome::Accepted => {
                    ShellNotice::CommandAccepted(ShellCommand::Reboot)
                }
                _ => ShellNotice::CommandNotExecuted(ShellCommand::Reboot),
            }
        );
    }
}

#[test]
fn alerts_are_shown_and_syncing_twice_changes_nothing() {
    let mut controller = ShellController::default();
    for (alert, kind, seconds) in [
        (ShellAlert::ApplicationUnavailable, AlertKind::ApplicationUnavailable, 0),
        (ShellAlert::ApplicationStopped, AlertKind::ApplicationStopped, 0),
        (
            ShellAlert::RecoveryCountdown {
                seconds_remaining: 8,
            },
            AlertKind::RecoveryCountdown,
            8,
        ),
        (ShellAlert::NoAlert, AlertKind::NoAlert, 0),
    ] {
        let mut ui = window();
        controller.present_alert(alert);
        sync_shell_ui(&mut ui, &controller);
        assert_eq!(ui.alert, kind);
        assert_eq!(ui.recovery_seconds, seconds);
        assert_eq!(ui.quick_settings_open, alert == ShellAlert::NoAlert);
        let before = ui;
        sync_shell_ui(&mut ui, &controller);
        assert_eq!(ui, before);
    }
}

#[test]
fn focus_generations_start_over_after_the_largest() {
    let mut ui = window();
    focus_shell_ui(&mut ui);
    assert_eq!(ui.focus_generation, 5);
    ui.focus_generation = i32::MAX;
    focus_shell_ui(&mut ui);
    assert_eq!(ui.focus_generation, 1);
}

#[test]
fn shell_failures_are_described() {
    assert_eq!(check_font_families(1), Ok(()));
    assert_eq!(
        check_font_families(0).unwrap_err().message(),
        "bundled shell font contained no usable faces"
    );
    assert_eq!(
        ApplicationIndex::try_from(-1_i32).unwrap_err().message(),
        "application index is outside the registered catalog"
    );
    assert_eq!(
        parse_options(&vec!["--profile".to_owned(), "p\"w".to_owned()])
            .unwrap_err()
            .message,
        "unsupported preview profile \"p\\\"w\"; expected pw1 or koa3"
    );
    assert_eq!(
        parse_options(&vec!["--x".to_owned()]).unwrap_err().message,
        "unknown argument \"--x\"; expected --profile pw1|koa3"
    );
    assert_eq!(
        parse_options(&vec!["--profile".to_owned()]).unwrap_err().message,
        "--profile requires pw1 or koa3"
    );
    for profile in ShellProfile::ALL {
        let options =
            parse_options(&vec!["--profile".to_owned(), profile.slug().to_owned()]).unwrap();
        assert_eq!(options.profile, profile);
        assert!(profile.label().contains("host preview"));
    }
}

#[test]
fn previews_show_two_applications_and_two_backgrounds() {
    let titles: Vec<String> = bundled_preview_catalog()
        .into_iter()
        .filter(|row| row.available)
        .map(|row| row.title)
        .collect();
    assert_eq!(titles, ["Home Assistant", "KOReader"]);
    let options: Vec<(String, bool)> = preview_background_options()
        .into_iter()
        .map(|option| (option.title, option.selected))
        .collect();
    assert_eq!(
        options,
        [("Pattern".to_owned(), true), ("Topography".to_owned(), false)]
    );
}
