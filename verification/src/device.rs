//! Typed shell boundary for device status and reversible quick controls.

use crate::framebuffer::Rgb8Pixel;
use crate::literary_clock::copy_styled_text;
use crate::text::push_decimal;
use vstd::prelude::*;

verus! {

/// Seconds between two status refreshes.
pub const STATUS_REFRESH_SECONDS: u64 = 30;

/// The brightest light level.
pub const LIGHT_MAXIMUM: u8 = 24;

/// The largest number of launcher backgrounds to choose from.
pub const MAX_LAUNCHER_BACKGROUND_CHOICES: u8 = 16;

/// One bounded launcher-background option ready for presentation.
#[derive(Debug, Clone, PartialEq, Eq)]
pub struct LauncherBackgroundOptionSnapshot {
    /// Human-readable basename-derived title.
    pub title: String,
    /// Short source description.
    pub detail: String,
    /// Whether this is the active choice.
    pub selected: bool,
}

/// One sanitized device-state sample ready for presentation.
#[derive(Debug, Clone, PartialEq)]
pub struct ShellDeviceSnapshot {
    /// Local wall-clock time for the compact header.
    pub time: String,
    /// Short device-local timezone label.
    pub timezone: String,
    /// Battery state of charge, clamped to `0..=100`.
    pub battery_percent: u8,
    /// Whether external power is charging the battery.
    pub charging: bool,
    /// Human-readable Wi-Fi state.
    pub wifi: String,
    /// Front-light intensity, clamped to the reviewed `0..=24` range.
    pub frontlight: u8,
    /// Warm-light intensity, clamped to the reviewed `0..=24` range.
    pub warmth: u8,
    /// Whether the stock ambient-light controller is enabled.
    pub auto_brightness: bool,
    /// Human-readable Bluetooth state.
    pub bluetooth: String,
    /// Human-readable SSH state.
    pub ssh: String,
    /// Human-readable USB networking state.
    pub usbnet: String,
    /// Short reviewed adapter identity.
    pub adapter: String,
    /// Whether a bounded literary corpus is installed.
    pub literary_clock_available: bool,
    /// Selected excerpt-update interval; zero disables the feature.
    pub literary_clock_interval_minutes: u16,
    /// Presentation-ready excerpt with only its time phrase emphasized, if there
    /// is one.
    pub literary_excerpt: Option<slint::StyledText>,
    /// Short work and author attribution for the current excerpt.
    pub literary_credit: String,
    /// Bounded logical font size selected for the current excerpt length.
    pub literary_excerpt_font_size: u8,
    /// Current launcher-background settings label.
    pub launcher_background_label: String,
    /// Generated pattern plus valid images from the one reviewed directory.
    pub launcher_background_options: Vec<LauncherBackgroundOptionSnapshot>,
    /// Replacement background; absent means retain the current pattern.
    pub launcher_background: Option<Vec<Rgb8Pixel>>,
}

/// A reversible quick-control request emitted by the shell.
#[derive(Debug, Clone, Copy, PartialEq, Eq, Structural)]
pub enum ShellDeviceCommand {
    /// Change front-light intensity by one signed step.
    AdjustFrontlight(i8),
    /// Change warm-light intensity by one signed step.
    AdjustWarmth(i8),
    /// Set front-light intensity to one absolute reviewed level.
    SetFrontlight(u8),
    /// Set warm-light intensity to one absolute reviewed level.
    SetWarmth(u8),
    /// Toggle the reviewed Wi-Fi service pair.
    ToggleWifi,
    /// Advance the optional persisted literary-clock interval.
    CycleLiteraryClockInterval,
    /// Select one entry from the last authoritative background snapshot.
    SelectLauncherBackground(u8),
}

/// Device status and control boundary used by view callbacks.
///
/// An implementation can say which answers its device may give; what a view
/// shows then follows from the answer that was given.
pub trait ShellDevicePort: Sized {
    /// Adapter-specific error type. Detailed diagnostics remain outside the view.
    type Error;

    /// Whether a device may answer a read in this way: in any way, unless an
    /// implementation says more.
    open spec fn reads(
        before: Self,
        after: Self,
        answer: Result<ShellDeviceSnapshot, Self::Error>,
    ) -> bool {
        true
    }

    /// Whether a device may answer a command in this way: in any way, unless an
    /// implementation says more.
    open spec fn answers(
        before: Self,
        command: ShellDeviceCommand,
        after: Self,
        answer: Result<ShellDeviceSnapshot, Self::Error>,
    ) -> bool {
        true
    }

    /// Reads one coherent, sanitized snapshot.
    fn snapshot(&mut self) -> (answer: Result<ShellDeviceSnapshot, Self::Error>)
        ensures
            Self::reads(*old(self), *final(self), answer),
    ;

    /// Applies one typed reversible command and rereads authoritative state.
    fn apply(&mut self, command: ShellDeviceCommand) -> (answer: Result<
        ShellDeviceSnapshot,
        Self::Error,
    >)
        ensures
            Self::answers(*old(self), command, *final(self), answer),
    ;
}

/// Accepts single steps in either direction.
pub fn checked_step(value: i32) -> (step: Option<i8>)
    ensures
        step == (if value == -1 {
            Some(-1i8)
        } else if value == 1 {
            Some(1i8)
        } else {
            None
        }),
{
    if value == -1 {
        Some(-1)
    } else if value == 1 {
        Some(1)
    } else {
        None
    }
}

/// Accepts light levels of the reviewed range.
pub fn checked_light_level(value: i32) -> (level: Option<u8>)
    ensures
        level == (if 0 <= value <= LIGHT_MAXIMUM {
            Some(value as u8)
        } else {
            None
        }),
{
    if value < 0 || value > LIGHT_MAXIMUM as i32 {
        None
    } else {
        Some(value as u8)
    }
}

/// Accepts indices of launcher backgrounds.
pub fn checked_background_index(value: i32) -> (index: Option<u8>)
    ensures
        index == (if 0 <= value < MAX_LAUNCHER_BACKGROUND_CHOICES {
            Some(value as u8)
        } else {
            None
        }),
{
    if value < 0 || value >= MAX_LAUNCHER_BACKGROUND_CHOICES as i32 {
        None
    } else {
        Some(value as u8)
    }
}

/// A quick control as the view reports it.
#[derive(Debug, Clone, Copy, PartialEq, Eq, Structural)]
pub enum QuickControl {
    /// Change front-light intensity by a step.
    AdjustFrontlight(i32),
    /// Change warm-light intensity by a step.
    AdjustWarmth(i32),
    /// Set front-light intensity.
    SetFrontlight(i32),
    /// Set warm-light intensity.
    SetWarmth(i32),
    /// Toggle Wi-Fi.
    ToggleWifi,
    /// Advance the literary-clock interval.
    CycleLiteraryClockInterval,
    /// Select a launcher background.
    SelectLauncherBackground(i32),
}

impl QuickControl {
    /// The command of a quick control, if its value is acceptable.
    pub open spec fn spec_command(self) -> Option<ShellDeviceCommand> {
        match self {
            QuickControl::AdjustFrontlight(step) => if step == -1 || step == 1 {
                Some(ShellDeviceCommand::AdjustFrontlight(step as i8))
            } else {
                None
            },
            QuickControl::AdjustWarmth(step) => if step == -1 || step == 1 {
                Some(ShellDeviceCommand::AdjustWarmth(step as i8))
            } else {
                None
            },
            QuickControl::SetFrontlight(level) => if 0 <= level <= LIGHT_MAXIMUM {
                Some(ShellDeviceCommand::SetFrontlight(level as u8))
            } else {
                None
            },
            QuickControl::SetWarmth(level) => if 0 <= level <= LIGHT_MAXIMUM {
                Some(ShellDeviceCommand::SetWarmth(level as u8))
            } else {
                None
            },
            QuickControl::ToggleWifi => Some(ShellDeviceCommand::ToggleWifi),
            QuickControl::CycleLiteraryClockInterval => Some(
                ShellDeviceCommand::CycleLiteraryClockInterval,
            ),
            QuickControl::SelectLauncherBackground(index) => if 0 <= index
                < MAX_LAUNCHER_BACKGROUND_CHOICES {
                Some(ShellDeviceCommand::SelectLauncherBackground(index as u8))
            } else {
                None
            },
        }
    }

    /// Returns the command of a quick control, if its value is acceptable.
    pub fn command(self) -> (command: Option<ShellDeviceCommand>)
        ensures
            command == self.spec_command(),
    {
        match self {
            QuickControl::AdjustFrontlight(step) => match checked_step(step) {
                Some(step) => Some(ShellDeviceCommand::AdjustFrontlight(step)),
                None => None,
            },
            QuickControl::AdjustWarmth(step) => match checked_step(step) {
                Some(step) => Some(ShellDeviceCommand::AdjustWarmth(step)),
                None => None,
            },
            QuickControl::SetFrontlight(level) => match checked_light_level(level) {
                Some(level) => Some(ShellDeviceCommand::SetFrontlight(level)),
                None => None,
            },
            QuickControl::SetWarmth(level) => match checked_light_level(level) {
                Some(level) => Some(ShellDeviceCommand::SetWarmth(level)),
                None => None,
            },
            QuickControl::ToggleWifi => Some(ShellDeviceCommand::ToggleWifi),
            QuickControl::CycleLiteraryClockInterval => Some(
                ShellDeviceCommand::CycleLiteraryClockInterval,
            ),
            QuickControl::SelectLauncherBackground(index) => match checked_background_index(
                index,
            ) {
                Some(index) => Some(ShellDeviceCommand::SelectLauncherBackground(index)),
                None => None,
            },
        }
    }
}

/// The next interval in the settings cycle.
pub open spec fn interval_after(current: u16) -> u16 {
    if current == 0 {
        1
    } else if current == 1 {
        5
    } else if current == 5 {
        15
    } else if current == 15 {
        30
    } else if current == 30 {
        60
    } else {
        0
    }
}

/// Returns the next supported interval in the settings cycle; an unsupported
/// one leads to zero.
pub fn next_literary_clock_interval(current: u16) -> (next: u16)
    ensures
        next == interval_after(current),
{
    if current == 0 {
        1
    } else if current == 1 {
        5
    } else if current == 5 {
        15
    } else if current == 15 {
        30
    } else if current == 30 {
        60
    } else {
        0
    }
}

/// Whether an interval is supported.
pub open spec fn is_interval(interval: u16) -> bool {
    interval == 0 || interval == 1 || interval == 5 || interval == 15 || interval == 30 || interval
        == 60
}

/// The cycle is closed: every step leads to a supported interval, and six steps
/// from a supported one lead back to it.
pub proof fn law_interval_cycle_is_closed(interval: u16)
    ensures
        is_interval(interval_after(interval)),
        is_interval(interval) ==> interval_after(
            interval_after(
                interval_after(interval_after(interval_after(interval_after(interval)))),
            ),
        ) == interval,
{
}

/// The label of an interval.
pub open spec fn interval_label(interval: u16) -> Seq<char> {
    if interval == 0 {
        "Off"@
    } else if interval == 1 {
        "Every minute"@
    } else if interval == 5 {
        "Every 5 minutes"@
    } else if interval == 15 {
        "Every 15 minutes"@
    } else if interval == 30 {
        "Every 30 minutes"@
    } else if interval == 60 {
        "Every hour"@
    } else {
        "Unavailable"@
    }
}

/// Returns the label of an interval.
pub fn literary_clock_interval_label(interval: u16) -> (label: &'static str)
    ensures
        label@ == interval_label(interval),
{
    if interval == 0 {
        "Off"
    } else if interval == 1 {
        "Every minute"
    } else if interval == 5 {
        "Every 5 minutes"
    } else if interval == 15 {
        "Every 15 minutes"
    } else if interval == 30 {
        "Every 30 minutes"
    } else if interval == 60 {
        "Every hour"
    } else {
        "Unavailable"
    }
}

/// What the window shows of the device.
#[derive(Debug, Clone, PartialEq)]
pub struct DeviceScreen {
    /// Header time.
    pub time_status: String,
    /// Header timezone.
    pub timezone_status: String,
    /// Battery state of charge.
    pub battery_percent: i32,
    /// Whether the battery is charging.
    pub battery_charging: bool,
    /// Battery text.
    pub battery_status: String,
    /// Wi-Fi text.
    pub network_status: String,
    /// Front-light intensity.
    pub frontlight_level: i32,
    /// Warm-light intensity.
    pub warmth_level: i32,
    /// Whether the stock ambient-light controller is enabled.
    pub auto_brightness: bool,
    /// Whether light and network can be changed.
    pub display_controls_available: bool,
    /// Bluetooth text.
    pub bluetooth_status: String,
    /// SSH text.
    pub ssh_status: String,
    /// USB networking text.
    pub usbnet_status: String,
    /// Adapter text.
    pub device_adapter_status: String,
    /// Whether a literary corpus is installed.
    pub literary_clock_available: bool,
    /// Whether the literary clock is on.
    pub literary_clock_enabled: bool,
    /// Interval text.
    pub literary_clock_interval_label: &'static str,
    /// Whether an excerpt is shown.
    pub literary_clock_has_excerpt: bool,
    /// Excerpt, if there is one.
    pub literary_excerpt: Option<slint::StyledText>,
    /// Attribution of the excerpt.
    pub literary_credit: String,
    /// Font size of the excerpt.
    pub literary_excerpt_font_size: i32,
    /// Background text.
    pub launcher_background_label: String,
    /// Backgrounds to choose from.
    pub launcher_background_options: Vec<LauncherBackgroundOptionSnapshot>,
    /// Background, once there is one.
    pub launcher_background: Option<Vec<Rgb8Pixel>>,
}

/// The pixels of a picture, if there is one.
pub open spec fn picture(pixels: Option<Vec<Rgb8Pixel>>) -> Option<Seq<Rgb8Pixel>> {
    match pixels {
        Some(pixels) => Some(pixels@),
        None => None,
    }
}

impl DeviceScreen {
    /// Whether the screen is another one after a snapshot: it shows every value
    /// of the snapshot, and a snapshot without a picture leaves the one that is
    /// shown.
    pub open spec fn shows(self, before: DeviceScreen, snapshot: ShellDeviceSnapshot) -> bool {
        &&& self.time_status@ == snapshot.time@
        &&& self.timezone_status@ == snapshot.timezone@
        &&& self.battery_percent == snapshot.battery_percent
        &&& self.battery_charging == snapshot.charging
        &&& self.battery_status@ == crate::text::decimal(snapshot.battery_percent as nat) + "%"@
        &&& self.network_status@ == snapshot.wifi@
        &&& self.frontlight_level == snapshot.frontlight
        &&& self.warmth_level == snapshot.warmth
        &&& self.auto_brightness == snapshot.auto_brightness
        &&& self.display_controls_available
        &&& self.bluetooth_status@ == snapshot.bluetooth@
        &&& self.ssh_status@ == snapshot.ssh@
        &&& self.usbnet_status@ == snapshot.usbnet@
        &&& self.device_adapter_status@ == snapshot.adapter@
        &&& self.literary_clock_available == snapshot.literary_clock_available
        &&& self.literary_clock_enabled == (snapshot.literary_clock_interval_minutes > 0)
        &&& self.literary_clock_interval_label@ == interval_label(
            snapshot.literary_clock_interval_minutes,
        )
        &&& self.literary_clock_has_excerpt == (snapshot.literary_clock_interval_minutes > 0
            && snapshot.literary_credit@.len() > 0)
        &&& self.literary_excerpt == snapshot.literary_excerpt
        &&& self.literary_credit@ == snapshot.literary_credit@
        &&& self.literary_excerpt_font_size == snapshot.literary_excerpt_font_size
        &&& self.launcher_background_label@ == snapshot.launcher_background_label@
        &&& same_options(
            self.launcher_background_options@,
            snapshot.launcher_background_options@,
        )
        &&& picture(self.launcher_background) == (match picture(snapshot.launcher_background) {
            Some(pixels) => Some(pixels),
            None => picture(before.launcher_background),
        })
    }

    /// Whether the screen is another one marked as failed: the controls are off,
    /// the adapter text says so, and all else stays.
    pub open spec fn marks_failure(self, before: DeviceScreen) -> bool {
        &&& self.device_adapter_status@ == "ERROR"@
        &&& self == (DeviceScreen {
            display_controls_available: false,
            device_adapter_status: self.device_adapter_status,
            ..before
        })
    }

    /// Whether the screen is another one after an answer of the device.
    pub open spec fn follows<E>(
        self,
        before: DeviceScreen,
        answer: Result<ShellDeviceSnapshot, E>,
    ) -> bool {
        match answer {
            Ok(snapshot) => self.shows(before, snapshot),
            Err(_) => self.marks_failure(before),
        }
    }
}

/// Whether two lists hold the same background options.
pub open spec fn same_options(
    a: Seq<LauncherBackgroundOptionSnapshot>,
    b: Seq<LauncherBackgroundOptionSnapshot>,
) -> bool {
    a.len() == b.len() && forall|i: int|
        0 <= i < a.len() ==> {
            &&& (#[trigger] a[i]).title@ == b[i].title@
            &&& a[i].detail@ == b[i].detail@
            &&& a[i].selected == b[i].selected
        }
}

fn copy_options(options: &Vec<LauncherBackgroundOptionSnapshot>) -> (copies: Vec<
    LauncherBackgroundOptionSnapshot,
>)
    ensures
        same_options(copies@, options@),
{
    let mut copies: Vec<LauncherBackgroundOptionSnapshot> = Vec::new();
    for i in 0..options.len()
        invariant
            same_options(copies@, options@.take(i as int)),
    {
        copies.push(
            LauncherBackgroundOptionSnapshot {
                title: options[i].title.as_str().to_owned(),
                detail: options[i].detail.as_str().to_owned(),
                selected: options[i].selected,
            },
        );
    }
    assert(options@.take(options@.len() as int) =~= options@);
    copies
}

/// Copies the pixels of a picture.
pub(crate) fn copy_pixels(pixels: &Vec<Rgb8Pixel>) -> (copies: Vec<Rgb8Pixel>)
    ensures
        copies@ == pixels@,
{
    let mut copies: Vec<Rgb8Pixel> = Vec::new();
    for i in 0..pixels.len()
        invariant
            copies@ == pixels@.take(i as int),
    {
        copies.push(pixels[i]);
        assert(pixels@.take(i + 1) =~= pixels@.take(i as int).push(pixels@[i as int]));
    }
    assert(pixels@.take(pixels@.len() as int) =~= pixels@);
    copies
}

/// Copies one sanitized device snapshot into the window.
pub fn sync_device_ui(ui: &mut DeviceScreen, snapshot: &ShellDeviceSnapshot)
    ensures
        final(ui).shows(*old(ui), *snapshot),
{
    let launcher_background: Option<Vec<Rgb8Pixel>> = match &snapshot.launcher_background {
        Some(pixels) => Some(copy_pixels(pixels)),
        None => ui.launcher_background.take(),
    };
    let mut battery_status: String = String::new();
    push_decimal(&mut battery_status, snapshot.battery_percent as u64);
    battery_status.append("%");
    assert(battery_status@ =~= crate::text::decimal(snapshot.battery_percent as nat) + "%"@);
    let literary_excerpt: Option<slint::StyledText> = match &snapshot.literary_excerpt {
        Some(excerpt) => Some(copy_styled_text(excerpt)),
        None => None,
    };
    *ui = DeviceScreen {
        time_status: snapshot.time.as_str().to_owned(),
        timezone_status: snapshot.timezone.as_str().to_owned(),
        battery_percent: snapshot.battery_percent as i32,
        battery_charging: snapshot.charging,
        battery_status,
        network_status: snapshot.wifi.as_str().to_owned(),
        frontlight_level: snapshot.frontlight as i32,
        warmth_level: snapshot.warmth as i32,
        auto_brightness: snapshot.auto_brightness,
        display_controls_available: true,
        bluetooth_status: snapshot.bluetooth.as_str().to_owned(),
        ssh_status: snapshot.ssh.as_str().to_owned(),
        usbnet_status: snapshot.usbnet.as_str().to_owned(),
        device_adapter_status: snapshot.adapter.as_str().to_owned(),
        literary_clock_available: snapshot.literary_clock_available,
        literary_clock_enabled: snapshot.literary_clock_interval_minutes > 0,
        literary_clock_interval_label: literary_clock_interval_label(
            snapshot.literary_clock_interval_minutes,
        ),
        literary_clock_has_excerpt: snapshot.literary_clock_interval_minutes > 0
            && !snapshot.literary_credit.as_str().is_empty(),
        literary_excerpt,
        literary_credit: snapshot.literary_credit.as_str().to_owned(),
        literary_excerpt_font_size: snapshot.literary_excerpt_font_size as i32,
        launcher_background_label: snapshot.launcher_background_label.as_str().to_owned(),
        launcher_background_options: copy_options(&snapshot.launcher_background_options),
        launcher_background,
    };
}

/// Shows that the device adapter failed; what was shown of the device stays.
pub fn note_device_error(ui: &mut DeviceScreen)
    ensures
        final(ui).marks_failure(*old(ui)),
{
    ui.display_controls_available = false;
    ui.device_adapter_status = "ERROR".to_owned();
}

/// Shows an answer of the device.
pub fn apply_result<E>(ui: &mut DeviceScreen, answer: &Result<ShellDeviceSnapshot, E>)
    ensures
        final(ui).follows(*old(ui), *answer),
{
    match answer {
        Ok(snapshot) => {
            sync_device_ui(ui, snapshot);
        },
        Err(_) => {
            note_device_error(ui);
        },
    }
}

/// Reads the device and shows its answer, which is also handed back.
pub fn refresh_device<P: ShellDevicePort>(ui: &mut DeviceScreen, port: &mut P) -> (answer: Result<
    ShellDeviceSnapshot,
    P::Error,
>)
    ensures
        P::reads(*old(port), *final(port), answer),
        final(ui).follows(*old(ui), answer),
{
    let answer: Result<ShellDeviceSnapshot, P::Error> = port.snapshot();
    apply_result(ui, &answer);
    answer
}

/// Hands the command of a quick control to the device and shows its answer,
/// which is also handed back. An unacceptable control does nothing.
pub fn handle_quick_control<P: ShellDevicePort>(
    ui: &mut DeviceScreen,
    port: &mut P,
    control: QuickControl,
) -> (answer: Option<Result<ShellDeviceSnapshot, P::Error>>)
    ensures
        match (control.spec_command(), answer) {
            (None, None) => *final(ui) == *old(ui) && *final(port) == *old(port),
            (Some(command), Some(answer)) => {
                &&& P::answers(*old(port), command, *final(port), answer)
                &&& final(ui).follows(*old(ui), answer)
            },
            _ => false,
        },
{
    match control.command() {
        Some(command) => {
            let answer: Result<ShellDeviceSnapshot, P::Error> = port.apply(command);
            apply_result(ui, &answer);
            Some(answer)
        },
        None => None,
    }
}

/// A quick control is a command exactly when its step is one up or down, its
/// level is at most 24, or its background is one of 16; the command asks for
/// just that.
pub proof fn law_quick_controls_stay_in_range(value: i32)
    ensures
        ({
            let light = QuickControl::AdjustFrontlight(value).spec_command();
            let warmth = QuickControl::AdjustWarmth(value).spec_command();
            &&& light is Some <==> value == 1 || value == -1
            &&& warmth is Some <==> value == 1 || value == -1
            &&& light matches Some(command) ==> (
            command matches ShellDeviceCommand::AdjustFrontlight(step) && step == value)
            &&& warmth matches Some(command) ==> (
            command matches ShellDeviceCommand::AdjustWarmth(step) && step == value)
        }),
        ({
            let light = QuickControl::SetFrontlight(value).spec_command();
            let warmth = QuickControl::SetWarmth(value).spec_command();
            &&& light is Some <==> 0 <= value <= 24
            &&& warmth is Some <==> 0 <= value <= 24
            &&& light matches Some(command) ==> (
            command matches ShellDeviceCommand::SetFrontlight(level) && level == value)
            &&& warmth matches Some(command) ==> (
            command matches ShellDeviceCommand::SetWarmth(level) && level == value)
        }),
        ({
            let chosen = QuickControl::SelectLauncherBackground(value).spec_command();
            &&& chosen is Some <==> 0 <= value < 16
            &&& chosen matches Some(command) ==> (
            command matches ShellDeviceCommand::SelectLauncherBackground(index) && index == value)
        }),
        QuickControl::ToggleWifi.spec_command() == Some(ShellDeviceCommand::ToggleWifi),
        QuickControl::CycleLiteraryClockInterval.spec_command() == Some(
            ShellDeviceCommand::CycleLiteraryClockInterval,
        ),
{
}

/// The intervals grow from none over 1, 5, 15 and 30 minutes to an hour, and then
/// begin anew; each that is used divides the hour and has a label of its own.
pub proof fn law_intervals_grow_and_begin_anew(interval: u16)
    ensures
        interval_after(0) == 1 && interval_after(1) == 5 && interval_after(5) == 15,
        interval_after(15) == 30 && interval_after(30) == 60 && interval_after(60) == 0,
        !is_interval(interval) ==> interval_after(interval) == 0,
        is_interval(interval) && interval_after(interval) > 0 ==> interval_after(interval)
            > interval && 60int % interval_after(interval) as int == 0,
        is_interval(interval) <==> interval == 0 || interval == 1 || interval == 5 || interval
            == 15 || interval == 30 || interval == 60,
        interval_label(0) == "Off"@,
        interval_label(1) == "Every minute"@,
        interval_label(5) == "Every 5 minutes"@,
        interval_label(15) == "Every 15 minutes"@,
        interval_label(30) == "Every 30 minutes"@,
        interval_label(60) == "Every hour"@,
        !is_interval(interval) ==> interval_label(interval) == "Unavailable"@,
{
}

/// A screen that follows a snapshot shows its values, each in its own place, and
/// keeps the picture that it had where the snapshot has none.
pub proof fn law_screens_show_their_snapshot<E>(
    screen: DeviceScreen,
    before: DeviceScreen,
    snapshot: ShellDeviceSnapshot,
)
    requires
        screen.follows::<E>(before, Ok(snapshot)),
    ensures
        screen.time_status@ == snapshot.time@ && screen.timezone_status@ == snapshot.timezone@,
        screen.battery_percent == snapshot.battery_percent,
        screen.battery_charging == snapshot.charging,
        screen.battery_status@.len() > 0 && screen.battery_status@.last() == '%',
        screen.battery_status@.drop_last() == crate::text::decimal(
            snapshot.battery_percent as nat,
        ),
        screen.network_status@ == snapshot.wifi@,
        screen.frontlight_level == snapshot.frontlight,
        screen.warmth_level == snapshot.warmth,
        screen.auto_brightness == snapshot.auto_brightness,
        screen.display_controls_available,
        screen.bluetooth_status@ == snapshot.bluetooth@,
        screen.ssh_status@ == snapshot.ssh@,
        screen.usbnet_status@ == snapshot.usbnet@,
        screen.device_adapter_status@ == snapshot.adapter@,
        screen.literary_clock_available == snapshot.literary_clock_available,
        screen.literary_clock_enabled <==> snapshot.literary_clock_interval_minutes != 0,
        screen.literary_clock_interval_label@ == interval_label(
            snapshot.literary_clock_interval_minutes,
        ),
        screen.literary_clock_has_excerpt <==> screen.literary_clock_enabled
            && screen.literary_credit@.len() > 0,
        screen.literary_credit@ == snapshot.literary_credit@,
        screen.literary_excerpt == snapshot.literary_excerpt,
        screen.literary_excerpt_font_size == snapshot.literary_excerpt_font_size,
        screen.launcher_background_label@ == snapshot.launcher_background_label@,
        screen.launcher_background_options@.len() == snapshot.launcher_background_options@.len(),
        forall|i: int|
            0 <= i < screen.launcher_background_options@.len() ==> {
                let shown = #[trigger] screen.launcher_background_options@[i];
                let told = snapshot.launcher_background_options@[i];
                shown.title@ == told.title@ && shown.detail@ == told.detail@ && shown.selected
                    == told.selected
            },
        snapshot.launcher_background matches Some(pixels) ==> (
        screen.launcher_background matches Some(shown) && shown@ == pixels@),
        snapshot.launcher_background is None ==> (screen.launcher_background is Some
            <==> before.launcher_background is Some),
        snapshot.launcher_background is None && before.launcher_background is Some
            ==> screen.launcher_background->0@ == before.launcher_background->0@,
{
    reveal_strlit("%");
    let percent = crate::text::decimal(snapshot.battery_percent as nat);
    assert("%"@ =~= seq!['%']);
    assert((percent + "%"@).drop_last() =~= percent);
}

/// A screen that follows a failure says so, closes its controls, and keeps
/// everything else that it showed.
pub proof fn law_failures_keep_what_was_shown<E>(
    screen: DeviceScreen,
    before: DeviceScreen,
    error: E,
)
    requires
        screen.follows::<E>(before, Err(error)),
    ensures
        screen.device_adapter_status@ == "ERROR"@,
        !screen.display_controls_available,
        screen.time_status == before.time_status,
        screen.timezone_status == before.timezone_status,
        screen.battery_percent == before.battery_percent,
        screen.battery_charging == before.battery_charging,
        screen.battery_status == before.battery_status,
        screen.network_status == before.network_status,
        screen.frontlight_level == before.frontlight_level,
        screen.warmth_level == before.warmth_level,
        screen.auto_brightness == before.auto_brightness,
        screen.bluetooth_status == before.bluetooth_status,
        screen.ssh_status == before.ssh_status,
        screen.usbnet_status == before.usbnet_status,
        screen.literary_clock_available == before.literary_clock_available,
        screen.literary_clock_enabled == before.literary_clock_enabled,
        screen.literary_clock_interval_label == before.literary_clock_interval_label,
        screen.literary_clock_has_excerpt == before.literary_clock_has_excerpt,
        screen.literary_excerpt == before.literary_excerpt,
        screen.literary_credit == before.literary_credit,
        screen.literary_excerpt_font_size == before.literary_excerpt_font_size,
        screen.launcher_background_label == before.launcher_background_label,
        screen.launcher_background_options == before.launcher_background_options,
        screen.launcher_background == before.launcher_background,
{
}

} // verus!
