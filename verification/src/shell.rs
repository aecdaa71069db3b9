//! Toolkit-neutral state and actions of the reference shell.
//!
//! Nothing here executes commands, opens devices, or alters system state. UI
//! actions become typed commands for a supervisor to review.

use crate::text::str_eq;
use crate::wording::quote;
use vstd::prelude::*;

verus! {

/// The largest number of applications in a catalog.
pub const MAX_APPLICATIONS: usize = 64;

/// The embedded font family used by the shell.
pub const SHELL_FONT_FAMILY: &'static str = "Inter Variable";

/// Failure to register the bundled shell font.
#[derive(Debug, Clone, Copy, PartialEq, Eq, Structural)]
pub struct ShellFontError;

impl ShellFontError {
    /// Describes the error for an operator.
    pub fn message(&self) -> (message: String)
        ensures
            message@ == "bundled shell font contained no usable faces"@,
    {
        "bundled shell font contained no usable faces".to_owned()
    }
}

/// Whether registering a font with this many families succeeded.
pub fn check_font_families(families: usize) -> (result: Result<(), ShellFontError>)
    ensures
        result == (if families == 0 {
            Err::<(), ShellFontError>(ShellFontError)
        } else {
            Ok(())
        }),
{
    if families == 0 {
        Err(ShellFontError)
    } else {
        Ok(())
    }
}

/// An exact reference geometry supported by the shell prototype.
#[derive(Debug, Clone, Copy, PartialEq, Eq, Structural)]
pub enum ShellProfile {
    /// First-generation Kindle Paperwhite at 758×1024.
    Paperwhite1,
    /// Third-generation Kindle Oasis at 1264×1680.
    Oasis3,
}

impl ShellProfile {
    /// Every exact reference profile in stable order.
    pub const ALL: [ShellProfile; 2] = [ShellProfile::Paperwhite1, ShellProfile::Oasis3];

    /// Returns the short filename-safe profile name.
    pub fn slug(self) -> (slug: &'static str)
        ensures
            slug@ == (match self {
                ShellProfile::Paperwhite1 => "pw1"@,
                ShellProfile::Oasis3 => "koa3"@,
            }),
    {
        match self {
            ShellProfile::Paperwhite1 => "pw1",
            ShellProfile::Oasis3 => "koa3",
        }
    }

    /// Returns the exact physical width and height in pixels.
    pub fn dimensions(self) -> (dimensions: (u32, u32))
        ensures
            dimensions == (match self {
                ShellProfile::Paperwhite1 => (758u32, 1024u32),
                ShellProfile::Oasis3 => (1264u32, 1680u32),
            }),
    {
        match self {
            ShellProfile::Paperwhite1 => (758, 1024),
            ShellProfile::Oasis3 => (1264, 1680),
        }
    }

    /// Returns the diagnostic label shown by the host/manual shell.
    pub fn label(self) -> (label: &'static str)
        ensures
            label@ == (match self {
                ShellProfile::Paperwhite1 => "PW1 · 758 × 1024 · host preview"@,
                ShellProfile::Oasis3 => "KOA3 · 1264 × 1680 · host preview"@,
            }),
    {
        match self {
            ShellProfile::Paperwhite1 => "PW1 · 758 × 1024 · host preview",
            ShellProfile::Oasis3 => "KOA3 · 1264 × 1680 · host preview",
        }
    }
}

/// The shell surface currently presented to the operator.
#[derive(Debug, Clone, Copy, PartialEq, Eq, Structural)]
pub enum ShellView {
    /// The application and system-action launcher.
    Home,
    /// The built-in sample application.
    Sample,
    /// Device settings and maintenance controls.
    Settings,
    /// Read-only maintenance information.
    Maintenance,
}

impl Default for ShellView {
    fn default() -> (view: Self)
        ensures
            view == ShellView::Home,
    {
        ShellView::Home
    }
}

/// A destructive power action that requires explicit confirmation.
#[derive(Debug, Clone, Copy, PartialEq, Eq, Structural)]
pub enum PowerAction {
    /// Request a supervised operating-system reboot.
    Reboot,
    /// Request a supervised operating-system power-off.
    PowerOff,
}

/// A supervisor-owned condition that temporarily replaces ordinary shell input.
#[derive(Debug, Clone, Copy, PartialEq, Eq, Structural)]
pub enum ShellAlert {
    /// No modal condition is visible.
    NoAlert,
    /// The selected application cannot be started with current capabilities.
    ApplicationUnavailable,
    /// A child application stopped unexpectedly and control returned safely.
    ApplicationStopped,
    /// The shell is counting down to a stock-interface recovery handoff.
    RecoveryCountdown {
        /// Whole seconds remaining before the supervisor performs the handoff.
        seconds_remaining: u8,
    },
}

impl Default for ShellAlert {
    fn default() -> (alert: Self)
        ensures
            alert == ShellAlert::NoAlert,
    {
        ShellAlert::NoAlert
    }
}

/// Stable position in the supervisor's ID-sorted application catalog.
#[derive(Debug, Clone, Copy, PartialEq, Eq, PartialOrd, Ord, Structural)]
pub struct ApplicationIndex(u8);

impl View for ApplicationIndex {
    type V = u8;

    closed spec fn view(&self) -> u8 {
        self.0
    }
}

impl ApplicationIndex {
    #[verifier::type_invariant]
    spec fn inv(self) -> bool {
        self.0 < MAX_APPLICATIONS
    }

    /// Returns the protocol-safe zero-based catalog position.
    pub fn value(self) -> (value: u8)
        ensures
            value == self@,
            value < MAX_APPLICATIONS,
    {
        proof {
            use_type_invariant(&self);
        }
        self.0
    }

    /// The index of a position, unless it is outside the catalog.
    pub closed spec fn at(position: int) -> Result<ApplicationIndex, ApplicationIndexError> {
        if 0 <= position < MAX_APPLICATIONS {
            Ok(ApplicationIndex(position as u8))
        } else {
            Err(ApplicationIndexError)
        }
    }

    /// Exactly the positions of a catalog have an index, and it is the
    /// position.
    pub proof fn index_is_the_position(position: int)
        ensures
            match ApplicationIndex::at(position) {
                Ok(index) => 0 <= position < MAX_APPLICATIONS && index@ == position,
                Err(_) => !(0 <= position < MAX_APPLICATIONS),
            },
    {
    }
}

impl TryFrom<i32> for ApplicationIndex {
    type Error = ApplicationIndexError;

    fn try_from(value: i32) -> (result: Result<Self, ApplicationIndexError>) {
        if value < 0 || value >= 64 {
            return Err(ApplicationIndexError);
        }
        Ok(ApplicationIndex(value as u8))
    }
}

impl vstd::std_specs::convert::TryFromSpecImpl<i32> for ApplicationIndex {
    open spec fn obeys_try_from_spec() -> bool {
        true
    }

    open spec fn try_from_spec(value: i32) -> Result<Self, ApplicationIndexError> {
        ApplicationIndex::at(value as int)
    }
}

impl TryFrom<usize> for ApplicationIndex {
    type Error = ApplicationIndexError;

    fn try_from(value: usize) -> (result: Result<Self, ApplicationIndexError>) {
        if value >= MAX_APPLICATIONS {
            return Err(ApplicationIndexError);
        }
        Ok(ApplicationIndex(value as u8))
    }
}

impl vstd::std_specs::convert::TryFromSpecImpl<usize> for ApplicationIndex {
    open spec fn obeys_try_from_spec() -> bool {
        true
    }

    open spec fn try_from_spec(value: usize) -> Result<Self, ApplicationIndexError> {
        ApplicationIndex::at(value as int)
    }
}

/// Application selection was outside the fixed catalog transport range.
#[derive(Debug, Clone, Copy, PartialEq, Eq, Structural)]
pub struct ApplicationIndexError;

impl ApplicationIndexError {
    /// Describes the error for an operator.
    pub fn message(&self) -> (message: String)
        ensures
            message@ == "application index is outside the registered catalog"@,
    {
        "application index is outside the registered catalog".to_owned()
    }
}

/// An operator action reported by the shell view.
#[derive(Debug, Clone, Copy, PartialEq, Eq, Structural)]
pub enum ShellAction {
    /// Return from a detail surface to the launcher.
    ReturnHome,
    /// Ask the supervisor to launch the registered foreground application.
    LaunchApplication(ApplicationIndex),
    /// Show the built-in sample application.
    OpenSample,
    /// Show device settings.
    OpenSettings,
    /// Show the read-only maintenance surface.
    OpenMaintenance,
    /// Ask the supervisor to restore the stock interface.
    RequestStock,
    /// Open the reboot confirmation dialog.
    RequestReboot,
    /// Open the power-off confirmation dialog.
    RequestPowerOff,
    /// Accept the currently visible destructive-action confirmation.
    ConfirmPowerAction,
    /// Dismiss the currently visible destructive-action confirmation.
    CancelPowerAction,
    /// Dismiss a recoverable unavailable/error alert.
    DismissAlert,
}

/// A typed request for a supervisor.
///
/// Producing a command does not execute it.
#[derive(Debug, Clone, Copy, PartialEq, Eq, Structural)]
pub enum ShellCommand {
    /// Restore or reveal the stock interface and exit.
    ReturnToStock,
    /// Cleanly hand foreground ownership to the registered application.
    LaunchApplication(ApplicationIndex),
    /// Reboot after the supervisor repeats its own safety checks.
    Reboot,
    /// Power off after the supervisor repeats its own safety checks.
    PowerOff,
}

/// The host or supervisor response to one typed shell command.
#[derive(Debug, Clone, Copy, PartialEq, Eq, Structural)]
#[non_exhaustive]
pub enum ShellCommandOutcome {
    /// The port accepted responsibility for completing the requested action.
    Accepted,
    /// The current host has no authorized implementation for the action.
    Unavailable,
}

/// Delivery boundary between shell policy and a host or supervisor.
///
/// Implementations run on the event-loop thread and should return promptly. A
/// host preview must return [`ShellCommandOutcome::Unavailable`] without
/// touching the device.
pub trait ShellCommandPort: Sized {
    /// Whether the port can go from `before` to `after` and answer `outcome`
    /// when `command` is submitted to it once: always, unless an implementation
    /// says more.
    open spec fn answers(
        before: Self,
        command: ShellCommand,
        after: Self,
        outcome: ShellCommandOutcome,
    ) -> bool {
        true
    }

    /// Submits one policy-approved system command.
    fn submit(&mut self, command: ShellCommand) -> (outcome: ShellCommandOutcome)
        ensures
            Self::answers(*old(self), command, *final(self), outcome),
    ;
}

/// The port of a host preview: it executes nothing.
#[derive(Debug, Clone, Copy, Default, PartialEq, Eq, Structural)]
pub struct PreviewCommandPort;

impl ShellCommandPort for PreviewCommandPort {
    open spec fn answers(
        before: Self,
        command: ShellCommand,
        after: Self,
        outcome: ShellCommandOutcome,
    ) -> bool {
        after == before && outcome == ShellCommandOutcome::Unavailable
    }

    fn submit(&mut self, _command: ShellCommand) -> (outcome: ShellCommandOutcome) {
        ShellCommandOutcome::Unavailable
    }
}

/// Status text selected by host policy rather than authored in the view.
#[derive(Debug, Clone, Copy, PartialEq, Eq, Structural)]
pub enum ShellNotice {
    /// The shell is a manual host preview with no device authority.
    ManualPreview,
    /// A real device adapter is attached and no transient notice is active.
    DeviceReady,
    /// A host or supervisor accepted responsibility for the request.
    CommandAccepted(ShellCommand),
    /// A typed request was intentionally not executed by the preview host.
    CommandNotExecuted(ShellCommand),
}

impl Default for ShellNotice {
    fn default() -> (notice: Self)
        ensures
            notice == ShellNotice::ManualPreview,
    {
        ShellNotice::ManualPreview
    }
}

impl ShellNotice {
    /// The status text of the notice.
    pub open spec fn spec_text(self) -> Seq<char> {
        match self {
            ShellNotice::ManualPreview => "L0 manual preview · device actions unavailable"@,
            ShellNotice::DeviceReady => ""@,
            ShellNotice::CommandAccepted(command) => match command {
                ShellCommand::ReturnToStock => "Opening Amazon home"@,
                ShellCommand::LaunchApplication(_) => "Opening application"@,
                ShellCommand::Reboot => "Restart requested"@,
                ShellCommand::PowerOff => "Power off requested"@,
            },
            ShellNotice::CommandNotExecuted(command) => match command {
                ShellCommand::ReturnToStock => "Preview only · stock handoff was not executed"@,
                ShellCommand::LaunchApplication(_) => {
                    "Preview only · application was not opened"@
                },
                ShellCommand::Reboot => "Preview only · reboot was not executed"@,
                ShellCommand::PowerOff => "Preview only · power off was not executed"@,
            },
        }
    }

    /// Returns short operator-facing status text.
    pub fn text(self) -> (text: &'static str)
        ensures
            text@ == self.spec_text(),
    {
        match self {
            ShellNotice::ManualPreview => "L0 manual preview · device actions unavailable",
            ShellNotice::DeviceReady => "",
            ShellNotice::CommandAccepted(command) => match command {
                ShellCommand::ReturnToStock => "Opening Amazon home",
                ShellCommand::LaunchApplication(_) => "Opening application",
                ShellCommand::Reboot => "Restart requested",
                ShellCommand::PowerOff => "Power off requested",
            },
            ShellNotice::CommandNotExecuted(command) => match command {
                ShellCommand::ReturnToStock => "Preview only · stock handoff was not executed",
                ShellCommand::LaunchApplication(_) => "Preview only · application was not opened",
                ShellCommand::Reboot => "Preview only · reboot was not executed",
                ShellCommand::PowerOff => "Preview only · power off was not executed",
            },
        }
    }
}

/// The state of a controller.
pub struct ShellState {
    /// The active surface.
    pub view: ShellView,
    /// The destructive action that awaits confirmation.
    pub pending: Option<PowerAction>,
    /// The condition that replaces ordinary input.
    pub alert: ShellAlert,
    /// The current notice.
    pub notice: ShellNotice,
}

impl ShellState {
    /// Whether at most one modal decision is visible.
    pub open spec fn exclusive(self) -> bool {
        self.pending is None || self.alert == ShellAlert::NoAlert
    }

    /// The state after an action while an alert is visible, and the command
    /// that it gives. Recoverable alerts can only be dismissed, and a recovery
    /// countdown can only be cut short.
    pub open spec fn after_under_alert(self, action: ShellAction) -> (
        ShellState,
        Option<ShellCommand>,
    ) {
        let cleared = ShellState { alert: ShellAlert::NoAlert, view: ShellView::Home, ..self };
        match (self.alert, action) {
            (ShellAlert::ApplicationUnavailable, ShellAction::DismissAlert) => (cleared, None),
            (ShellAlert::ApplicationStopped, ShellAction::DismissAlert) => (cleared, None),
            (ShellAlert::RecoveryCountdown { .. }, ShellAction::RequestStock) => (
                cleared,
                Some(ShellCommand::ReturnToStock),
            ),
            _ => (self, None),
        }
    }

    /// The state after an action while a confirmation is visible, and the
    /// command that it gives. Only confirming and cancelling have an effect.
    pub open spec fn after_under_confirmation(self, pending: PowerAction, action: ShellAction) -> (
        ShellState,
        Option<ShellCommand>,
    ) {
        let settled = ShellState { pending: None, ..self };
        match (action, pending) {
            (ShellAction::ConfirmPowerAction, PowerAction::Reboot) => (
                settled,
                Some(ShellCommand::Reboot),
            ),
            (ShellAction::ConfirmPowerAction, PowerAction::PowerOff) => (
                settled,
                Some(ShellCommand::PowerOff),
            ),
            (ShellAction::CancelPowerAction, _) => (settled, None),
            _ => (self, None),
        }
    }

    /// The state after an action, and the command that it gives.
    pub open spec fn after(self, action: ShellAction) -> (ShellState, Option<ShellCommand>) {
        match (self.alert, self.pending) {
            (ShellAlert::NoAlert, None) => match action {
                ShellAction::ReturnHome => (ShellState { view: ShellView::Home, ..self }, None),
                ShellAction::LaunchApplication(index) => (
                    self,
                    Some(ShellCommand::LaunchApplication(index)),
                ),
                ShellAction::OpenSample => (ShellState { view: ShellView::Sample, ..self }, None),
                ShellAction::OpenSettings => (
                    ShellState { view: ShellView::Settings, ..self },
                    None,
                ),
                ShellAction::OpenMaintenance => (
                    ShellState { view: ShellView::Maintenance, ..self },
                    None,
                ),
                ShellAction::RequestStock => (self, Some(ShellCommand::ReturnToStock)),
                ShellAction::RequestReboot => (
                    ShellState { pending: Some(PowerAction::Reboot), ..self },
                    None,
                ),
                ShellAction::RequestPowerOff => (
                    ShellState { pending: Some(PowerAction::PowerOff), ..self },
                    None,
                ),
                _ => (self, None),
            },
            (ShellAlert::NoAlert, Some(pending)) => self.after_under_confirmation(pending, action),
            _ => self.after_under_alert(action),
        }
    }

    /// The state after the response to a command.
    pub open spec fn noting(
        self,
        command: ShellCommand,
        outcome: ShellCommandOutcome,
    ) -> ShellState {
        ShellState {
            notice: match outcome {
                ShellCommandOutcome::Accepted => ShellNotice::CommandAccepted(command),
                ShellCommandOutcome::Unavailable => ShellNotice::CommandNotExecuted(command),
            },
            ..self
        }
    }
}

/// Whether an action takes a state and its port to `end` and `port_after`: the
/// command that the action gives is submitted once and its outcome noted, and
/// without a command nothing reaches the port.
pub open spec fn delivered<P: ShellCommandPort>(
    state: ShellState,
    port: P,
    action: ShellAction,
    end: ShellState,
    port_after: P,
) -> bool {
    match state.after(action) {
        (next, None) => end == next && port_after == port,
        (next, Some(command)) => exists|outcome: ShellCommandOutcome| #[trigger]
            P::answers(port, command, port_after, outcome) && end == next.noting(command, outcome),
    }
}

/// Pure shell policy that gates commands before they reach a supervisor.
#[derive(Debug, Clone, Copy, PartialEq, Eq, Structural)]
pub struct ShellController {
    view: ShellView,
    pending_power_action: Option<PowerAction>,
    alert: ShellAlert,
    notice: ShellNotice,
}

impl Default for ShellController {
    fn default() -> (controller: Self)
        ensures
            controller.state() == (ShellState {
                view: ShellView::Home,
                pending: None,
                alert: ShellAlert::NoAlert,
                notice: ShellNotice::ManualPreview,
            }),
    {
        ShellController {
            view: ShellView::Home,
            pending_power_action: None,
            alert: ShellAlert::NoAlert,
            notice: ShellNotice::ManualPreview,
        }
    }
}

impl ShellController {
    /// The state of the controller.
    pub closed spec fn state(&self) -> ShellState {
        ShellState {
            view: self.view,
            pending: self.pending_power_action,
            alert: self.alert,
            notice: self.notice,
        }
    }

    #[verifier::type_invariant]
    spec fn inv(self) -> bool {
        self.state().exclusive()
    }

    /// Creates a controller for a shell with reviewed device adapters attached.
    pub fn for_device() -> (controller: Self)
        ensures
            controller.state() == (ShellState {
                view: ShellView::Home,
                pending: None,
                alert: ShellAlert::NoAlert,
                notice: ShellNotice::DeviceReady,
            }),
    {
        ShellController {
            view: ShellView::Home,
            pending_power_action: None,
            alert: ShellAlert::NoAlert,
            notice: ShellNotice::DeviceReady,
        }
    }

    /// Returns the active shell surface.
    pub fn view(&self) -> (view: ShellView)
        ensures
            view == self.state().view,
    {
        self.view
    }

    /// Returns the destructive action awaiting operator confirmation.
    pub fn pending_power_action(&self) -> (pending: Option<PowerAction>)
        ensures
            pending == self.state().pending,
    {
        self.pending_power_action
    }

    /// Returns the supervisor-owned condition currently replacing shell input.
    pub fn alert(&self) -> (alert: ShellAlert)
        ensures
            alert == self.state().alert,
    {
        self.alert
    }

    /// Returns the current host-policy notice.
    pub fn notice(&self) -> (notice: ShellNotice)
        ensures
            notice == self.state().notice,
    {
        self.notice
    }

    /// Presents a supervisor-owned unavailable, failure, or recovery condition.
    ///
    /// Alerts supersede a pending power prompt so two modal decisions can never
    /// compete for input. [`ShellAlert::NoAlert`] clears the current condition.
    pub fn present_alert(&mut self, alert: ShellAlert)
        ensures
            final(self).state() == (ShellState { pending: None, alert, ..old(self).state() }),
            final(self).state().exclusive(),
    {
        *self = ShellController {
            view: self.view,
            pending_power_action: None,
            alert,
            notice: self.notice,
        };
    }

    /// Applies one UI action and returns a command only when policy permits it.
    ///
    /// While a destructive confirmation is visible, unrelated actions are
    /// ignored so background controls cannot bypass or replace the prompt.
    pub fn dispatch(&mut self, action: ShellAction) -> (command: Option<ShellCommand>)
        ensures
            (final(self).state(), command) == old(self).state().after(action),
            final(self).state().exclusive(),
    {
        proof {
            use_type_invariant(&*self);
        }
        let (next, command): (ShellController, Option<ShellCommand>) = if self.alert
            != ShellAlert::NoAlert {
            let cleared: ShellController = ShellController {
                view: ShellView::Home,
                pending_power_action: self.pending_power_action,
                alert: ShellAlert::NoAlert,
                notice: self.notice,
            };
            match (self.alert, action) {
                (ShellAlert::ApplicationUnavailable, ShellAction::DismissAlert) => (cleared, None),
                (ShellAlert::ApplicationStopped, ShellAction::DismissAlert) => (cleared, None),
                (ShellAlert::RecoveryCountdown { .. }, ShellAction::RequestStock) => (
                    cleared,
                    Some(ShellCommand::ReturnToStock),
                ),
                _ => (*self, None),
            }
        } else if let Some(pending) = self.pending_power_action {
            let settled: ShellController = self.with_pending(None);
            match action {
                ShellAction::ConfirmPowerAction => (
                    settled,
                    Some(
                        match pending {
                            PowerAction::Reboot => ShellCommand::Reboot,
                            PowerAction::PowerOff => ShellCommand::PowerOff,
                        },
                    ),
                ),
                ShellAction::CancelPowerAction => (settled, None),
                _ => (*self, None),
            }
        } else {
            match action {
                ShellAction::ReturnHome => (self.with_view(ShellView::Home), None),
                ShellAction::LaunchApplication(index) => (
                    *self,
                    Some(ShellCommand::LaunchApplication(index)),
                ),
                ShellAction::OpenSample => (self.with_view(ShellView::Sample), None),
                ShellAction::OpenSettings => (self.with_view(ShellView::Settings), None),
                ShellAction::OpenMaintenance => (self.with_view(ShellView::Maintenance), None),
                ShellAction::RequestStock => (*self, Some(ShellCommand::ReturnToStock)),
                ShellAction::RequestReboot => (
                    self.with_pending(Some(PowerAction::Reboot)),
                    None,
                ),
                ShellAction::RequestPowerOff => (
                    self.with_pending(Some(PowerAction::PowerOff)),
                    None,
                ),
                ShellAction::ConfirmPowerAction | ShellAction::CancelPowerAction
                | ShellAction::DismissAlert => (*self, None),
            }
        };
        *self = next;
        command
    }

    fn with_view(&self, view: ShellView) -> (controller: Self)
        requires
            self.state().exclusive(),
        ensures
            controller.state() == (ShellState { view, ..self.state() }),
    {
        ShellController {
            view,
            pending_power_action: self.pending_power_action,
            alert: self.alert,
            notice: self.notice,
        }
    }

    fn with_pending(&self, pending: Option<PowerAction>) -> (controller: Self)
        requires
            self.state().alert == ShellAlert::NoAlert,
        ensures
            controller.state() == (ShellState { pending, ..self.state() }),
    {
        ShellController {
            view: self.view,
            pending_power_action: pending,
            alert: self.alert,
            notice: self.notice,
        }
    }

    /// Records the host or supervisor response to one emitted command.
    pub fn note_command_outcome(&mut self, command: ShellCommand, outcome: ShellCommandOutcome)
        ensures
            final(self).state() == old(self).state().noting(command, outcome),
            final(self).state().exclusive(),
    {
        proof {
            use_type_invariant(&*self);
        }
        let notice: ShellNotice = match outcome {
            ShellCommandOutcome::Accepted => ShellNotice::CommandAccepted(command),
            ShellCommandOutcome::Unavailable => ShellNotice::CommandNotExecuted(command),
        };
        *self = ShellController {
            view: self.view,
            pending_power_action: self.pending_power_action,
            alert: self.alert,
            notice,
        };
    }

    /// Applies one UI action, hands the command that it gives to the port, and
    /// records the response.
    pub fn perform<P: ShellCommandPort>(&mut self, port: &mut P, action: ShellAction)
        ensures
            delivered(
                old(self).state(),
                *old(port),
                action,
                final(self).state(),
                *final(port),
            ),
    {
        if let Some(command) = self.dispatch(action) {
            let outcome: ShellCommandOutcome = port.submit(command);
            self.note_command_outcome(command, outcome);
        }
    }
}

/// A state after several actions.
pub open spec fn state_after_all(state: ShellState, actions: Seq<ShellAction>, n: int) -> ShellState
    decreases n,
{
    if n <= 0 {
        state
    } else {
        state_after_all(state, actions, n - 1).after(actions[n - 1]).0
    }
}

/// Two modal decisions never compete: whatever actions come, at most one of
/// confirmation and alert is visible.
pub proof fn law_modals_stay_exclusive(state: ShellState, actions: Seq<ShellAction>, n: int)
    requires
        state.exclusive(),
        0 <= n <= actions.len(),
    ensures
        state_after_all(state, actions, n).exclusive(),
    decreases n,
{
    if n > 0 {
        law_modals_stay_exclusive(state, actions, n - 1);
    }
}

/// A power command is given only when its confirmation is visible and is
/// confirmed, and that consumes the confirmation.
pub proof fn law_power_commands_are_confirmed(state: ShellState, action: ShellAction)
    ensures
        state.after(action).1 == Some(ShellCommand::Reboot) ==> action
            == ShellAction::ConfirmPowerAction && state.pending == Some(PowerAction::Reboot)
            && state.after(action).0.pending is None,
        state.after(action).1 == Some(ShellCommand::PowerOff) ==> action
            == ShellAction::ConfirmPowerAction && state.pending == Some(PowerAction::PowerOff)
            && state.after(action).0.pending is None,
{
}

/// A confirmation is consumed once: confirming again gives no command.
pub proof fn law_confirmation_is_consumed_once(state: ShellState)
    ensures
        state.alert == ShellAlert::NoAlert ==> state.after(
            ShellAction::ConfirmPowerAction,
        ).0.after(ShellAction::ConfirmPowerAction).1 is None,
{
}

/// While a confirmation or an alert is visible, no action changes the view,
/// except that an alert that is left leads home.
pub proof fn law_modals_block_navigation(state: ShellState, action: ShellAction)
    requires
        state.pending is Some || state.alert != ShellAlert::NoAlert,
    ensures
        state.after(action).0.view == state.view || (state.after(action).0.view == ShellView::Home
            && state.after(action).0.alert == ShellAlert::NoAlert && state.alert
            != ShellAlert::NoAlert),
{
}

/// A recovery countdown permits nothing but the immediate stock handoff.
pub proof fn law_countdown_only_permits_the_handoff(state: ShellState, action: ShellAction)
    requires
        state.alert is RecoveryCountdown,
    ensures
        action == ShellAction::RequestStock ==> state.after(action).1 == Some(
            ShellCommand::ReturnToStock,
        ) && state.after(action).0.alert == ShellAlert::NoAlert,
        action != ShellAction::RequestStock ==> state.after(action) == (
            state,
            None::<ShellCommand>,
        ),
{
}

/// Actions never change the notice; only the response to a command does.
pub proof fn law_actions_keep_the_notice(state: ShellState, action: ShellAction)
    ensures
        state.after(action).0.notice == state.notice,
{
}

// ---------------------------------------------------------------------------
// Command line of the preview
// ---------------------------------------------------------------------------
/// What the command line of the preview asks for.
#[derive(Debug, Clone, Copy, PartialEq, Eq, Structural)]
pub struct Options {
    /// The reference geometry.
    pub profile: ShellProfile,
}

impl Default for Options {
    fn default() -> (options: Self)
        ensures
            options.profile == ShellProfile::Paperwhite1,
    {
        Options { profile: ShellProfile::Paperwhite1 }
    }
}

/// What is wrong with a command line.
#[derive(Debug, Clone, PartialEq, Eq)]
pub struct ArgumentError {
    /// The operator-facing description.
    pub message: String,
}

/// What the arguments from `i` on ask for, after those before it.
pub open spec fn options_from(arguments: Seq<Seq<char>>, i: int, so_far: Options) -> Result<
    Options,
    Seq<char>,
>
    decreases arguments.len() - i,
{
    if i >= arguments.len() {
        Ok(so_far)
    } else if arguments[i] != "--profile"@ {
        Err(
            "unknown argument "@ + crate::wording::quoted(arguments[i])
                + "; expected --profile pw1|koa3"@,
        )
    } else if i + 1 >= arguments.len() {
        Err("--profile requires pw1 or koa3"@)
    } else if arguments[i + 1] == "pw1"@ {
        options_from(arguments, i + 2, Options { profile: ShellProfile::Paperwhite1 })
    } else if arguments[i + 1] == "koa3"@ {
        options_from(arguments, i + 2, Options { profile: ShellProfile::Oasis3 })
    } else {
        Err(
            "unsupported preview profile "@ + crate::wording::quoted(arguments[i + 1])
                + "; expected pw1 or koa3"@,
        )
    }
}

/// Reads the command line of the preview.
pub fn parse_options(arguments: &Vec<String>) -> (result: Result<Options, ArgumentError>)
    ensures
        ({
            let asked = options_from(
                crate::text::texts(arguments@),
                0,
                Options { profile: ShellProfile::Paperwhite1 },
            );
            match result {
                Ok(options) => asked == Ok::<Options, Seq<char>>(options),
                Err(error) => asked == Err::<Options, Seq<char>>(error.message@),
            }
        }),
{
    let ghost all = crate::text::texts(arguments@);
    let ghost start = Options { profile: ShellProfile::Paperwhite1 };
    let count: usize = arguments.len();
    let mut options: Options = Options { profile: ShellProfile::Paperwhite1 };
    let mut i: usize = 0;
    while i < count
        invariant
            i <= count == arguments@.len(),
            all == crate::text::texts(arguments@),
            start == (Options { profile: ShellProfile::Paperwhite1 }),
            options_from(all, 0, start) == options_from(all, i as int, options),
        decreases count - i,
    {
        assert(all[i as int] == arguments@[i as int]@);
        if !str_eq(arguments[i].as_str(), "--profile") {
            let mut message: String = "unknown argument ".to_owned();
            message.append(quote(arguments[i].as_str()).as_str());
            message.append("; expected --profile pw1|koa3");
            return Err(ArgumentError { message });
        }
        if count - i < 2 {
            return Err(ArgumentError { message: "--profile requires pw1 or koa3".to_owned() });
        }
        assert(all[i + 1] == arguments@[i + 1]@);
        if str_eq(arguments[i + 1].as_str(), "pw1") {
            options = Options { profile: ShellProfile::Paperwhite1 };
        } else if str_eq(arguments[i + 1].as_str(), "koa3") {
            options = Options { profile: ShellProfile::Oasis3 };
        } else {
            let mut message: String = "unsupported preview profile ".to_owned();
            message.append(quote(arguments[i + 1].as_str()).as_str());
            message.append("; expected pw1 or koa3");
            return Err(ArgumentError { message });
        }
        i = i + 2;
    }
    Ok(options)
}

// ---------------------------------------------------------------------------
// What the actions amount to
// ---------------------------------------------------------------------------
/// An alert that an action takes away leaves the home surface behind, with
/// nothing to confirm; an alert that stays leaves everything as it was.
pub proof fn law_cleared_alerts_lead_home(state: ShellState, action: ShellAction)
    requires
        state.alert != ShellAlert::NoAlert,
        state.exclusive(),
    ensures
        ({
            let (next, command) = state.after(action);
            &&& next.alert == ShellAlert::NoAlert || (next == state && command is None)
            &&& next.alert == ShellAlert::NoAlert ==> next.view == ShellView::Home && next.pending
                is None
        }),
{
}

/// A failed application's alert is taken away by dismissing it and by nothing
/// else, and no command comes of it. Dismissing does nothing to a countdown, nor
/// where there is no alert.
pub proof fn law_application_alerts_are_dismissed(state: ShellState, action: ShellAction)
    ensures
        state.alert == ShellAlert::ApplicationUnavailable || state.alert
            == ShellAlert::ApplicationStopped ==> {
            &&& state.after(action).1 is None
            &&& state.after(action).0.alert == ShellAlert::NoAlert <==> action
                == ShellAction::DismissAlert
        },
        state.alert == ShellAlert::NoAlert || state.alert is RecoveryCountdown ==> state.after(
            ShellAction::DismissAlert,
        ) == (state, None::<ShellCommand>),
{
}

/// Without a dialog, each surface is opened by its own action: only the view
/// changes, and no command comes of it.
pub proof fn law_navigation_opens_the_named_surface(state: ShellState)
    requires
        state.alert == ShellAlert::NoAlert,
        state.pending is None,
    ensures
        state.after(ShellAction::ReturnHome).0.view == ShellView::Home,
        state.after(ShellAction::OpenSample).0.view == ShellView::Sample,
        state.after(ShellAction::OpenSettings).0.view == ShellView::Settings,
        state.after(ShellAction::OpenMaintenance).0.view == ShellView::Maintenance,
        forall|action: ShellAction|
            action == ShellAction::ReturnHome || action == ShellAction::OpenSample || action
                == ShellAction::OpenSettings || action == ShellAction::OpenMaintenance ==> {
                let (next, command) = #[trigger] state.after(action);
                &&& command is None
                &&& next.pending is None
                &&& next.alert == ShellAlert::NoAlert
                &&& next.notice == state.notice
            },
{
}

/// Without a dialog, an application and the stock interface are asked for at
/// once and the state stays; an application is asked for by its own index.
pub proof fn law_handoffs_are_asked_for_at_once(state: ShellState, index: ApplicationIndex)
    requires
        state.alert == ShellAlert::NoAlert,
        state.pending is None,
    ensures
        state.after(ShellAction::LaunchApplication(index)) == (
            state,
            Some(ShellCommand::LaunchApplication(index)),
        ),
        state.after(ShellAction::RequestStock) == (state, Some(ShellCommand::ReturnToStock)),
{
}

/// A power action is first asked about: the request makes the dialog for that
/// action and no command. Confirming gives the command of the action that was
/// asked about and cancelling gives none; either way the dialog is gone and all
/// else is as it was before the request.
pub proof fn law_power_actions_are_asked_about_first(state: ShellState, action: PowerAction)
    requires
        state.alert == ShellAlert::NoAlert,
        state.pending is None,
    ensures
        ({
            let request = match action {
                PowerAction::Reboot => ShellAction::RequestReboot,
                PowerAction::PowerOff => ShellAction::RequestPowerOff,
            };
            let (asking, nothing) = state.after(request);
            let (confirmed, command) = asking.after(ShellAction::ConfirmPowerAction);
            let (cancelled, none) = asking.after(ShellAction::CancelPowerAction);
            &&& nothing is None
            &&& none is None
            &&& asking.pending == Some(action)
            &&& asking.view == state.view
            &&& confirmed == state
            &&& cancelled == state
            &&& command == Some(
                match action {
                    PowerAction::Reboot => ShellCommand::Reboot,
                    PowerAction::PowerOff => ShellCommand::PowerOff,
                },
            )
        }),
{
}

/// While a dialog asks, every action but confirming and cancelling does nothing;
/// without one, confirming and cancelling do nothing.
pub proof fn law_confirmations_need_their_dialog(state: ShellState, action: ShellAction)
    ensures
        ({
            let answers = action == ShellAction::ConfirmPowerAction || action
                == ShellAction::CancelPowerAction;
            &&& state.alert == ShellAlert::NoAlert && state.pending is Some && !answers
                ==> state.after(action) == (state, None::<ShellCommand>)
            &&& state.pending is None && answers ==> state.after(action) == (
                state,
                None::<ShellCommand>,
            )
        }),
{
}

/// The notice after a command names that command and tells whether it was
/// accepted; nothing else changes.
pub proof fn law_notices_tell_the_outcome(
    state: ShellState,
    command: ShellCommand,
    outcome: ShellCommandOutcome,
)
    ensures
        ({
            let next = state.noting(command, outcome);
            &&& outcome == ShellCommandOutcome::Accepted <==> next.notice
                == ShellNotice::CommandAccepted(command)
            &&& outcome == ShellCommandOutcome::Unavailable <==> next.notice
                == ShellNotice::CommandNotExecuted(command)
            &&& next.view == state.view
            &&& next.pending == state.pending
            &&& next.alert == state.alert
        }),
{
}

/// A preview port takes nothing on: whatever a preview is told to do, the state
/// after it differs from the state after the action at most in a notice that
/// the command was not executed.
pub proof fn law_previews_execute_nothing(
    state: ShellState,
    action: ShellAction,
    end: ShellState,
    port: PreviewCommandPort,
    port_after: PreviewCommandPort,
)
    requires
        delivered(state, port, action, end, port_after),
    ensures
        port_after == port,
        end.view == state.after(action).0.view,
        end.pending == state.after(action).0.pending,
        end.alert == state.after(action).0.alert,
        match state.after(action).1 {
            None => end.notice == state.notice,
            Some(command) => end.notice == ShellNotice::CommandNotExecuted(command),
        },
{
}

/// The catalog has 64 places: exactly the positions from 0 to 63 have an index,
/// and it is the position.
pub proof fn law_catalogs_have_64_places(position: int)
    ensures
        ApplicationIndex::at(position) is Ok <==> 0 <= position <= 63,
        0 <= position <= 63 ==> ApplicationIndex::at(position)->Ok_0@ == position,
{
}

/// A notice of a command that was not executed says that this is a preview, one
/// of an accepted command does not, and a device that is ready says nothing.
pub proof fn law_notices_are_truthful(command: ShellCommand)
    ensures
        ShellNotice::DeviceReady.spec_text().len() == 0,
        crate::text::begins(
            ShellNotice::CommandNotExecuted(command).spec_text(),
            "Preview only · "@,
        ),
        !crate::text::begins(
            ShellNotice::CommandAccepted(command).spec_text(),
            "Preview only · "@,
        ),
        crate::text::ends(ShellNotice::CommandAccepted(command).spec_text(), " requested"@) <==> (
        command == ShellCommand::Reboot || command == ShellCommand::PowerOff),
{
    reveal_strlit("");
    reveal_strlit("Preview only · ");
    reveal_strlit(" requested");
    reveal_strlit("Opening Amazon home");
    reveal_strlit("Opening application");
    reveal_strlit("Restart requested");
    reveal_strlit("Power off requested");
    reveal_strlit("Preview only · stock handoff was not executed");
    reveal_strlit("Preview only · application was not opened");
    reveal_strlit("Preview only · reboot was not executed");
    reveal_strlit("Preview only · power off was not executed");
    let refused = ShellNotice::CommandNotExecuted(command).spec_text();
    let accepted = ShellNotice::CommandAccepted(command).spec_text();
    let preview = "Preview only · "@;
    let requested = " requested"@;
    assert(refused.subrange(0, preview.len() as int) =~= preview);
    assert(accepted[0] != preview[0] || accepted[1] != preview[1]);
    if crate::text::begins(accepted, preview) {
        assert(accepted.subrange(0, preview.len() as int)[0] == accepted[0]);
        assert(accepted.subrange(0, preview.len() as int)[1] == accepted[1]);
    }
    let tail = accepted.subrange(accepted.len() - requested.len(), accepted.len() as int);
    if command == ShellCommand::Reboot || command == ShellCommand::PowerOff {
        assert(tail =~= requested);
    } else {
        assert(tail[9] != requested[9] || tail[1] != requested[1]);
    }
}

/// The last profile that is asked for counts, and without one it is the
/// Paperwhite; a value that is no profile, a missing value and any other
/// argument are refused.
pub proof fn law_the_last_profile_counts(arguments: Seq<Seq<char>>, i: int, so_far: Options)
    requires
        0 <= i <= arguments.len(),
    ensures
        match options_from(arguments, i, so_far) {
            Ok(options) => {
                &&& (arguments.len() - i) % 2 == 0
                &&& forall|j: int|
                    i <= j < arguments.len() && (j - i) % 2 == 0 ==> (#[trigger] arguments[j])
                        == "--profile"@
                &&& forall|j: int|
                    i <= j < arguments.len() && (j - i) % 2 == 1 ==> (#[trigger] arguments[j])
                        == "pw1"@ || arguments[j] == "koa3"@
                &&& options.profile == (if i == arguments.len() {
                    so_far.profile
                } else if arguments.last() == "koa3"@ {
                    ShellProfile::Oasis3
                } else {
                    ShellProfile::Paperwhite1
                })
            },
            Err(_) => (arguments.len() - i) % 2 == 1 || exists|j: int|
                i <= j < arguments.len() && if (j - i) % 2 == 0 {
                    (#[trigger] arguments[j]) != "--profile"@
                } else {
                    arguments[j] != "pw1"@ && arguments[j] != "koa3"@
                },
        },
    decreases arguments.len() - i,
{
    reveal_strlit("pw1");
    reveal_strlit("koa3");
    assert("pw1"@.len() != "koa3"@.len());
    if i + 1 < arguments.len() && arguments[i] == "--profile"@ && (arguments[i + 1] == "pw1"@
        || arguments[i + 1] == "koa3"@) {
        let next = Options {
            profile: if arguments[i + 1] == "pw1"@ {
                ShellProfile::Paperwhite1
            } else {
                ShellProfile::Oasis3
            },
        };
        law_the_last_profile_counts(arguments, i + 2, next);
        if options_from(arguments, i, so_far) is Err && (arguments.len() - i) % 2 == 0 {
            let j = choose|j: int|
                i + 2 <= j < arguments.len() && if (j - (i + 2)) % 2 == 0 {
                    (#[trigger] arguments[j]) != "--profile"@
                } else {
                    arguments[j] != "pw1"@ && arguments[j] != "koa3"@
                };
            assert((j - i) % 2 == (j - (i + 2)) % 2);
            assert(i <= j < arguments.len());
        }
        if options_from(arguments, i, so_far) is Ok {
            assert forall|j: int| i <= j < arguments.len() && (j - i) % 2 == 0 implies (
            #[trigger] arguments[j]) == "--profile"@ by {
                if j >= i + 2 {
                    assert((j - (i + 2)) % 2 == 0);
                }
            }
            assert forall|j: int| i <= j < arguments.len() && (j - i) % 2 == 1 implies (
            #[trigger] arguments[j]) == "pw1"@ || arguments[j] == "koa3"@ by {
                if j >= i + 2 {
                    assert((j - (i + 2)) % 2 == 1);
                }
            }
        }
    } else if i < arguments.len() {
        if arguments[i] != "--profile"@ {
            assert((i - i) % 2 == 0);
        } else if i + 1 < arguments.len() {
            assert((i + 1 - i) % 2 == 1);
            assert(arguments[i + 1] != "pw1"@ && arguments[i + 1] != "koa3"@);
        }
    }
}

} // verus!
