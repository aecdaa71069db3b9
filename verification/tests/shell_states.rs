use ferrink::shell::{
    ApplicationIndex, PowerAction, ShellAction, ShellAlert, ShellCommand, ShellCommandOutcome,
    ShellController, ShellNotice, ShellView,
};

#[test]
fn initial_state_is_an_inert_manual_home_preview() {
    let controller = ShellController::default();

    assert_eq!(controller.view(), ShellView::Home);
    assert_eq!(controller.pending_power_action(), None);
    assert_eq!(controller.alert(), ShellAlert::NoAlert);
    assert_eq!(controller.notice(), ShellNotice::ManualPreview);
}

#[test]
fn application_indexes_are_bounded_to_the_manifest_catalog() {
    assert_eq!(ApplicationIndex::try_from(0_usize).unwrap().value(), 0);
    assert_eq!(ApplicationIndex::try_from(63_i32).unwrap().value(), 63);
    assert!(ApplicationIndex::try_from(-1_i32).is_err());
    assert!(ApplicationIndex::try_from(64_usize).is_err());
    assert!(ApplicationIndex::try_from(256_usize).is_err());
}

#[test]
fn device_controller_starts_ready_without_preview_chrome() {
    let controller = ShellController::for_device();

    assert_eq!(controller.view(), ShellView::Home);
    assert_eq!(controller.notice(), ShellNotice::DeviceReady);
    assert_eq!(controller.notice().text(), "");
}

#[test]
fn navigation_changes_views_without_emitting_commands() {
    let mut controller = ShellController::default();

    assert_eq!(controller.dispatch(ShellAction::OpenSample), None);
    assert_eq!(controller.view(), ShellView::Sample);
    assert_eq!(controller.dispatch(ShellAction::OpenSettings), None);
    assert_eq!(controller.view(), ShellView::Settings);
    assert_eq!(controller.dispatch(ShellAction::OpenMaintenance), None);
    assert_eq!(controller.view(), ShellView::Maintenance);
    assert_eq!(controller.dispatch(ShellAction::ReturnHome), None);
    assert_eq!(controller.view(), ShellView::Home);
}

#[test]
fn reboot_requires_confirmation_and_is_consumed_once() {
    let mut controller = ShellController::default();

    assert_eq!(controller.dispatch(ShellAction::RequestReboot), None);
    assert_eq!(controller.pending_power_action(), Some(PowerAction::Reboot));
    assert_eq!(
        controller.dispatch(ShellAction::ConfirmPowerAction),
        Some(ShellCommand::Reboot)
    );
    assert_eq!(controller.pending_power_action(), None);
    assert_eq!(controller.dispatch(ShellAction::ConfirmPowerAction), None);
}

#[test]
fn cancel_discards_power_off_without_emitting_a_command() {
    let mut controller = ShellController::default();

    assert_eq!(controller.dispatch(ShellAction::RequestPowerOff), None);
    assert_eq!(controller.dispatch(ShellAction::CancelPowerAction), None);
    assert_eq!(controller.pending_power_action(), None);
}

#[test]
fn confirmation_blocks_background_actions() {
    let mut controller = ShellController::default();

    assert_eq!(controller.dispatch(ShellAction::RequestReboot), None);
    assert_eq!(controller.dispatch(ShellAction::RequestStock), None);
    assert_eq!(controller.dispatch(ShellAction::OpenSample), None);
    assert_eq!(controller.view(), ShellView::Home);
    assert_eq!(controller.pending_power_action(), Some(PowerAction::Reboot));
}

#[test]
fn stock_request_is_typed_but_not_executed_by_the_controller() {
    let mut controller = ShellController::default();

    let command = controller.dispatch(ShellAction::RequestStock);

    assert_eq!(command, Some(ShellCommand::ReturnToStock));
    controller.note_command_outcome(
        ShellCommand::ReturnToStock,
        ShellCommandOutcome::Unavailable,
    );
    assert_eq!(
        controller.notice(),
        ShellNotice::CommandNotExecuted(ShellCommand::ReturnToStock)
    );
}

#[test]
fn accepted_command_outcomes_are_distinct_from_preview_refusals() {
    let mut controller = ShellController::default();

    controller.note_command_outcome(ShellCommand::Reboot, ShellCommandOutcome::Accepted);

    assert_eq!(
        controller.notice(),
        ShellNotice::CommandAccepted(ShellCommand::Reboot)
    );
    assert_eq!(controller.notice().text(), "Restart requested");
}

#[test]
fn recoverable_alerts_block_background_actions_until_dismissed() {
    for alert in [
        ShellAlert::ApplicationUnavailable,
        ShellAlert::ApplicationStopped,
    ] {
        let mut controller = ShellController::default();
        controller.present_alert(alert);

        assert_eq!(controller.dispatch(ShellAction::OpenSample), None);
        assert_eq!(controller.dispatch(ShellAction::RequestStock), None);
        assert_eq!(controller.alert(), alert);
        assert_eq!(controller.dispatch(ShellAction::DismissAlert), None);
        assert_eq!(controller.alert(), ShellAlert::NoAlert);
        assert_eq!(controller.view(), ShellView::Home);
    }
}

#[test]
fn recovery_countdown_only_permits_immediate_stock_handoff() {
    let mut controller = ShellController::default();
    controller.present_alert(ShellAlert::RecoveryCountdown {
        seconds_remaining: 8,
    });

    assert_eq!(controller.dispatch(ShellAction::DismissAlert), None);
    assert_eq!(controller.dispatch(ShellAction::RequestPowerOff), None);
    assert_eq!(
        controller.alert(),
        ShellAlert::RecoveryCountdown {
            seconds_remaining: 8
        }
    );
    assert_eq!(
        controller.dispatch(ShellAction::RequestStock),
        Some(ShellCommand::ReturnToStock)
    );
    assert_eq!(controller.alert(), ShellAlert::NoAlert);
}

#[test]
fn alert_supersedes_pending_power_confirmation() {
    let mut controller = ShellController::default();
    assert_eq!(controller.dispatch(ShellAction::RequestReboot), None);

    controller.present_alert(ShellAlert::ApplicationStopped);

    assert_eq!(controller.pending_power_action(), None);
    assert_eq!(controller.alert(), ShellAlert::ApplicationStopped);
    assert_eq!(controller.dispatch(ShellAction::ConfirmPowerAction), None);
}
