//! What the shell window shows, and what its callbacks do.

use crate::device::LauncherBackgroundOptionSnapshot;
use crate::shell::{
    delivered, ApplicationIndex, PowerAction, ShellAction, ShellAlert, ShellCommandPort,
    ShellController, ShellNotice, ShellState, ShellView,
};
use vstd::prelude::*;

verus! {

/// The confirmation dialog on the screen.
#[derive(Debug, Clone, Copy, PartialEq, Eq, Structural)]
pub enum ConfirmationKind {
    /// None is shown.
    NoConfirmation,
    /// The reboot confirmation.
    Reboot,
    /// The power-off confirmation.
    PowerOff,
}

/// The alert on the screen.
#[derive(Debug, Clone, Copy, PartialEq, Eq, Structural)]
pub enum AlertKind {
    /// None is shown.
    NoAlert,
    /// An application cannot be started.
    ApplicationUnavailable,
    /// An application stopped unexpectedly.
    ApplicationStopped,
    /// A recovery countdown.
    RecoveryCountdown,
}

/// What the shell window holds of the controller and of its own.
#[derive(Debug, Clone, Copy, PartialEq, Eq, Structural)]
pub struct ShellWindowState {
    /// The page.
    pub page: ShellView,
    /// The confirmation dialog.
    pub confirmation: ConfirmationKind,
    /// The alert.
    pub alert: AlertKind,
    /// Seconds that a recovery countdown shows; zero without one.
    pub recovery_seconds: i32,
    /// The notice whose text is shown.
    pub notice: ShellNotice,
    /// Whether the quick settings are open.
    pub quick_settings_open: bool,
    /// Counts the moves of keyboard focus.
    pub focus_generation: i32,
    /// The count of the sample application.
    pub sample_count: i32,
}

impl ShellWindowState {
    /// The window after it was brought in line with a state. A dialog or an
    /// alert closes the quick settings.
    pub open spec fn synced(self, state: ShellState) -> ShellWindowState {
        ShellWindowState {
            page: state.view,
            confirmation: match state.pending {
                None => ConfirmationKind::NoConfirmation,
                Some(PowerAction::Reboot) => ConfirmationKind::Reboot,
                Some(PowerAction::PowerOff) => ConfirmationKind::PowerOff,
            },
            alert: match state.alert {
                ShellAlert::NoAlert => AlertKind::NoAlert,
                ShellAlert::ApplicationUnavailable => AlertKind::ApplicationUnavailable,
                ShellAlert::ApplicationStopped => AlertKind::ApplicationStopped,
                ShellAlert::RecoveryCountdown { .. } => AlertKind::RecoveryCountdown,
            },
            recovery_seconds: match state.alert {
                ShellAlert::RecoveryCountdown { seconds_remaining } => seconds_remaining as i32,
                _ => 0,
            },
            notice: state.notice,
            quick_settings_open: self.quick_settings_open && state.pending is None && state.alert
                == ShellAlert::NoAlert,
            ..self
        }
    }
}

/// Copies the controller state into the window.
pub fn sync_shell_ui(ui: &mut ShellWindowState, controller: &ShellController)
    ensures
        *final(ui) == old(ui).synced(controller.state()),
{
    ui.page = controller.view();
    ui.confirmation = match controller.pending_power_action() {
        None => ConfirmationKind::NoConfirmation,
        Some(PowerAction::Reboot) => ConfirmationKind::Reboot,
        Some(PowerAction::PowerOff) => ConfirmationKind::PowerOff,
    };
    ui.alert = match controller.alert() {
        ShellAlert::NoAlert => AlertKind::NoAlert,
        ShellAlert::ApplicationUnavailable => AlertKind::ApplicationUnavailable,
        ShellAlert::ApplicationStopped => AlertKind::ApplicationStopped,
        ShellAlert::RecoveryCountdown { .. } => AlertKind::RecoveryCountdown,
    };
    ui.recovery_seconds = match controller.alert() {
        ShellAlert::RecoveryCountdown { seconds_remaining } => seconds_remaining as i32,
        ShellAlert::NoAlert | ShellAlert::ApplicationUnavailable
        | ShellAlert::ApplicationStopped => 0,
    };
    ui.notice = controller.notice();
    if controller.pending_power_action().is_some() || controller.alert() != ShellAlert::NoAlert {
        ui.quick_settings_open = false;
    }
}

/// Moves keyboard focus to the safe first action on the active surface: the
/// next generation, or the first one after the largest number.
pub fn focus_shell_ui(ui: &mut ShellWindowState)
    ensures
        *final(ui) == (ShellWindowState {
            focus_generation: if old(ui).focus_generation == i32::MAX {
                1
            } else {
                (old(ui).focus_generation + 1) as i32
            },
            ..*old(ui)
        }),
{
    ui.focus_generation = if ui.focus_generation == i32::MAX {
        1
    } else {
        ui.focus_generation + 1
    };
}

/// One launcher row, without its icon.
#[derive(Debug, Clone, PartialEq, Eq)]
pub struct RegisteredApplication {
    /// Title of the row.
    pub title: String,
    /// Short description.
    pub detail: String,
    /// Whether the application can be started.
    pub available: bool,
    /// Path of the icon.
    pub icon: String,
}

/// Returns the launcher row of an application that a manifest registers.
pub fn registered_application(name: &str, description: &str, icon: &str) -> (row:
    RegisteredApplication)
    ensures
        row.title@ == name@,
        row.detail@ == description@,
        row.available,
        row.icon@ == icon@,
{
    RegisteredApplication {
        title: name.to_owned(),
        detail: description.to_owned(),
        available: true,
        icon: icon.to_owned(),
    }
}

/// Returns the two rows of a host preview.
pub fn bundled_preview_catalog() -> (rows: Vec<RegisteredApplication>)
    ensures
        rows@.len() == 2,
        rows@[0].title@ == "Home Assistant"@,
        rows@[0].detail@ == "Control your home from the Kindle dashboard"@,
        rows@[0].available,
        rows@[0].icon@ == "apps/io.home-assistant.dashboard/icon.png"@,
        rows@[1].title@ == "KOReader"@,
        rows@[1].detail@ == "Open your library and continue reading"@,
        rows@[1].available,
        rows@[1].icon@ == "apps/org.koreader.reader/icon.png"@,
{
    let mut rows: Vec<RegisteredApplication> = Vec::new();
    rows.push(
        registered_application(
            "Home Assistant",
            "Control your home from the Kindle dashboard",
            "apps/io.home-assistant.dashboard/icon.png",
        ),
    );
    rows.push(
        registered_application(
            "KOReader",
            "Open your library and continue reading",
            "apps/org.koreader.reader/icon.png",
        ),
    );
    rows
}

/// Returns the background options of a window without a device.
pub fn preview_background_options() -> (options: Vec<LauncherBackgroundOptionSnapshot>)
    ensures
        options@.len() == 2,
        options@[0].title@ == "Pattern"@,
        options@[0].detail@ == "Generated on device"@,
        options@[0].selected,
        options@[1].title@ == "Topography"@,
        options@[1].detail@ == "Image from ferrink/backgrounds"@,
        !options@[1].selected,
{
    let mut options: Vec<LauncherBackgroundOptionSnapshot> = Vec::new();
    options.push(
        LauncherBackgroundOptionSnapshot {
            title: "Pattern".to_owned(),
            detail: "Generated on device".to_owned(),
            selected: true,
        },
    );
    options.push(
        LauncherBackgroundOptionSnapshot {
            title: "Topography".to_owned(),
            detail: "Image from ferrink/backgrounds".to_owned(),
            selected: false,
        },
    );
    options
}

/// A callback of the shell window.
#[derive(Debug, Clone, Copy, PartialEq, Eq, Structural)]
pub enum ShellCallback {
    /// A launcher row was chosen.
    LaunchApplication(i32),
    /// Home was chosen.
    ReturnHome,
    /// The sample application was chosen.
    OpenSample,
    /// The settings were chosen.
    OpenSettings,
    /// The maintenance surface was chosen.
    OpenMaintenance,
    /// The stock interface was asked for.
    RequestStock,
    /// A reboot was asked for.
    RequestReboot,
    /// Power off was asked for.
    RequestPowerOff,
    /// The confirmation was accepted.
    ConfirmPowerAction,
    /// The confirmation was dismissed.
    CancelPowerAction,
    /// The alert was dismissed.
    DismissAlert,
    /// The sample application counts.
    IncrementSample,
}

impl ShellCallback {
    /// The action of a callback; a row outside the catalog has none, and the
    /// sample count is the window's own.
    pub open spec fn spec_action(self) -> Option<ShellAction> {
        match self {
            ShellCallback::LaunchApplication(raw_index) => match ApplicationIndex::at(
                raw_index as int,
            ) {
                Ok(index) => Some(ShellAction::LaunchApplication(index)),
                Err(_) => None,
            },
            ShellCallback::ReturnHome => Some(ShellAction::ReturnHome),
            ShellCallback::OpenSample => Some(ShellAction::OpenSample),
            ShellCallback::OpenSettings => Some(ShellAction::OpenSettings),
            ShellCallback::OpenMaintenance => Some(ShellAction::OpenMaintenance),
            ShellCallback::RequestStock => Some(ShellAction::RequestStock),
            ShellCallback::RequestReboot => Some(ShellAction::RequestReboot),
            ShellCallback::RequestPowerOff => Some(ShellAction::RequestPowerOff),
            ShellCallback::ConfirmPowerAction => Some(ShellAction::ConfirmPowerAction),
            ShellCallback::CancelPowerAction => Some(ShellAction::CancelPowerAction),
            ShellCallback::DismissAlert => Some(ShellAction::DismissAlert),
            ShellCallback::IncrementSample => None,
        }
    }

    /// Returns the action of a callback, if it has one.
    pub fn action(self) -> (action: Option<ShellAction>)
        ensures
            action == self.spec_action(),
    {
        match self {
            ShellCallback::LaunchApplication(raw_index) => match ApplicationIndex::try_from(
                raw_index,
            ) {
                Ok(index) => Some(ShellAction::LaunchApplication(index)),
                Err(_) => None,
            },
            ShellCallback::ReturnHome => Some(ShellAction::ReturnHome),
            ShellCallback::OpenSample => Some(ShellAction::OpenSample),
            ShellCallback::OpenSettings => Some(ShellAction::OpenSettings),
            ShellCallback::OpenMaintenance => Some(ShellAction::OpenMaintenance),
            ShellCallback::RequestStock => Some(ShellAction::RequestStock),
            ShellCallback::RequestReboot => Some(ShellAction::RequestReboot),
            ShellCallback::RequestPowerOff => Some(ShellAction::RequestPowerOff),
            ShellCallback::ConfirmPowerAction => Some(ShellAction::ConfirmPowerAction),
            ShellCallback::CancelPowerAction => Some(ShellAction::CancelPowerAction),
            ShellCallback::DismissAlert => Some(ShellAction::DismissAlert),
            ShellCallback::IncrementSample => None,
        }
    }
}

/// The handlers of a window's callbacks, with the count that they keep for the
/// sample application.
#[derive(Debug, Clone, Copy, PartialEq, Eq, Structural)]
pub struct ShellHandlers {
    sample_count: i32,
}

/// Installs the handlers of a window. This submits nothing and changes neither
/// controller nor window; the sample count starts at zero.
pub fn install_shell_handlers() -> (handlers: ShellHandlers)
    ensures
        handlers.spec_sample_count() == 0,
{
    ShellHandlers { sample_count: 0 }
}

/// The number after `count`; it stops at the largest one.
pub open spec fn counted(count: i32) -> i32 {
    if count == i32::MAX {
        i32::MAX
    } else {
        (count + 1) as i32
    }
}

impl ShellHandlers {
    /// The count of the sample application.
    pub closed spec fn spec_sample_count(self) -> i32 {
        self.sample_count
    }

    /// Handles one callback of the window.
    ///
    /// The port receives only what the controller permits: the command of the
    /// dispatched action, once, and nothing where there is none. Returns whether
    /// keyboard focus is to be moved once the window is drawn.
    pub fn handle_shell_callback<P: ShellCommandPort>(
        &mut self,
        ui: &mut ShellWindowState,
        controller: &mut ShellController,
        command_port: &mut P,
        callback: ShellCallback,
    ) -> (moves_focus: bool)
        ensures
            match callback.spec_action() {
                Some(action) => {
                    &&& moves_focus
                    &&& delivered(
                        old(controller).state(),
                        *old(command_port),
                        action,
                        final(controller).state(),
                        *final(command_port),
                    )
                    &&& *final(ui) == old(ui).synced(final(controller).state())
                    &&& final(self).spec_sample_count() == old(self).spec_sample_count()
                },
                None => {
                    &&& !moves_focus
                    &&& *final(controller) == *old(controller)
                    &&& *final(command_port) == *old(command_port)
                    &&& if callback is IncrementSample {
                        let count = counted(old(self).spec_sample_count());
                        &&& final(self).spec_sample_count() == count
                        &&& *final(ui) == (ShellWindowState { sample_count: count, ..*old(ui) })
                    } else {
                        &&& final(self).spec_sample_count() == old(self).spec_sample_count()
                        &&& *final(ui) == *old(ui)
                    }
                },
            },
    {
        match callback.action() {
            Some(action) => {
                controller.perform(command_port, action);
                sync_shell_ui(ui, controller);
                true
            },
            None => {
                if let ShellCallback::IncrementSample = callback {
                    if self.sample_count < i32::MAX {
                        self.sample_count = self.sample_count + 1;
                    }
                    ui.sample_count = self.sample_count;
                }
                false
            },
        }
    }
}

/// Once the window was brought in line with a state, doing so again changes
/// nothing.
pub proof fn law_syncing_twice_is_syncing_once(ui: ShellWindowState, state: ShellState)
    ensures
        ui.synced(state).synced(state) == ui.synced(state),
{
}

/// The quick settings are never open beside a confirmation or an alert.
pub proof fn law_quick_settings_yield_to_dialogs(ui: ShellWindowState, state: ShellState)
    ensures
        ui.synced(state).quick_settings_open ==> ui.synced(state).confirmation
            == ConfirmationKind::NoConfirmation && ui.synced(state).alert == AlertKind::NoAlert,
{
}

/// The window shows the controller's view, dialog, alert and notice, and keeps
/// what is its own: focus, sample count, and the quick settings as long as no
/// dialog and no alert is in the way.
pub proof fn law_the_window_shows_the_controller(ui: ShellWindowState, state: ShellState)
    ensures
        ({
            let shown = ui.synced(state);
            &&& shown.page == state.view
            &&& shown.notice == state.notice
            &&& shown.confirmation == ConfirmationKind::Reboot <==> state.pending == Some(
                PowerAction::Reboot,
            )
            &&& shown.confirmation == ConfirmationKind::PowerOff <==> state.pending == Some(
                PowerAction::PowerOff,
            )
            &&& shown.confirmation == ConfirmationKind::NoConfirmation <==> state.pending is None
            &&& shown.alert == AlertKind::NoAlert <==> state.alert == ShellAlert::NoAlert
            &&& shown.alert == AlertKind::ApplicationUnavailable <==> state.alert
                == ShellAlert::ApplicationUnavailable
            &&& shown.alert == AlertKind::ApplicationStopped <==> state.alert
                == ShellAlert::ApplicationStopped
            &&& shown.alert == AlertKind::RecoveryCountdown <==> state.alert is RecoveryCountdown
            &&& state.alert is RecoveryCountdown ==> shown.recovery_seconds
                == state.alert->seconds_remaining
            &&& !(state.alert is RecoveryCountdown) ==> shown.recovery_seconds == 0
            &&& shown.focus_generation == ui.focus_generation
            &&& shown.sample_count == ui.sample_count
            &&& state.pending is None && state.alert == ShellAlert::NoAlert
                ==> shown.quick_settings_open == ui.quick_settings_open
            &&& state.pending is Some || state.alert != ShellAlert::NoAlert
                ==> !shown.quick_settings_open
        }),
{
}

/// A callback does what its name says: on a shell without dialogs it opens that
/// surface, asks for that handoff or asks about that power action; under a
/// dialog it answers it, and under an alert it dismisses it. A launcher row
/// counts from 0 to 63, and counting samples is no action of the shell.
pub proof fn law_callbacks_do_what_they_say(
    state: ShellState,
    raw_index: i32,
    pending: PowerAction,
)
    requires
        state.alert == ShellAlert::NoAlert,
        state.pending is None,
    ensures
        ({
            let does = |callback: ShellCallback| state.after(callback.spec_action()->0);
            let asked = ShellState { pending: Some(pending), ..state };
            let stopped = ShellState { alert: ShellAlert::ApplicationStopped, ..state };
            &&& forall|callback: ShellCallback|
                (#[trigger] callback.spec_action()) is None <==> callback is IncrementSample || (
                callback matches ShellCallback::LaunchApplication(raw) && !(0 <= raw <= 63))
            &&& does(ShellCallback::ReturnHome).0.view == crate::shell::ShellView::Home
            &&& does(ShellCallback::OpenSample).0.view == crate::shell::ShellView::Sample
            &&& does(ShellCallback::OpenSettings).0.view == crate::shell::ShellView::Settings
            &&& does(ShellCallback::OpenMaintenance).0.view == crate::shell::ShellView::Maintenance
            &&& does(ShellCallback::RequestStock).1 == Some(
                crate::shell::ShellCommand::ReturnToStock,
            )
            &&& does(ShellCallback::RequestReboot).0.pending == Some(PowerAction::Reboot)
            &&& does(ShellCallback::RequestPowerOff).0.pending == Some(PowerAction::PowerOff)
            &&& 0 <= raw_index <= 63 ==> (does(
                ShellCallback::LaunchApplication(raw_index),
            ).1 matches Some(crate::shell::ShellCommand::LaunchApplication(index)) && index@
                == raw_index)
            &&& asked.after(ShellCallback::ConfirmPowerAction.spec_action()->0).1 is Some
            &&& asked.after(ShellCallback::CancelPowerAction.spec_action()->0) == (
                state,
                None::<crate::shell::ShellCommand>,
            )
            &&& stopped.after(ShellCallback::DismissAlert.spec_action()->0).0.alert
                == ShellAlert::NoAlert
        }),
{
    assert forall|callback: ShellCallback| (#[trigger] callback.spec_action()) is None <==> callback
        is IncrementSample || (callback matches ShellCallback::LaunchApplication(raw) && !(0 <= raw
        <= 63)) by {
        if let ShellCallback::LaunchApplication(raw) = callback {
            crate::shell::law_catalogs_have_64_places(raw as int);
        }
    }
    crate::shell::law_catalogs_have_64_places(raw_index as int);
}

/// A count goes up by one until it cannot.
pub proof fn law_samples_are_counted_one_by_one(count: i32)
    ensures
        count < i32::MAX ==> counted(count) == count + 1,
        counted(i32::MAX) == i32::MAX,
{
}

} // verus!
