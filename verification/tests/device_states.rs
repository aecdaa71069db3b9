use ferrink::background::{LauncherBackgroundChoice, LauncherBackgroundFileName};
use ferrink::device::{
    handle_quick_control, literary_clock_interval_label, note_device_error, refresh_device,
    sync_device_ui, DeviceScreen, QuickControl, ShellDeviceCommand, ShellDevicePort,
    ShellDeviceSnapshot,
};
use ferrink::framebuffer::Rgb8Pixel;
use ferrink::kindle_device::{
    adjusted_light, after_command_poll, check_output_length, check_preference_file,
    format_launcher_background_setting, format_literary_setting, initial_background,
    initial_interval, is_installed, is_process_entry, parse_clamped_property,
    parse_launcher_background_setting, parse_literary_setting, parse_property, parse_status_file,
    parse_switch_property, wifi_toggle_writes, CommandPoll, CommandStep, DevicePlan,
    DeviceReadings, KindleShellDeviceError, KindleShellDevicePort, WrittenPreference,
};
use ferrink::literary_clock::{prepare_record, LiteraryClockCorpus, LiteraryClockError};
use ferrink::local_clock::{format_minute_key, parse_local_clock, LocalClock};

fn file(name: &str) -> LauncherBackgroundChoice {
    LauncherBackgroundChoice::File(LauncherBackgroundFileName::parse(name).unwrap())
}

fn corpus() -> LiteraryClockCorpus {
    LiteraryClockCorpus::from_pipe_separated(
        b"09:30|09:30|It was 09:30.|A|Author|NO\n09:30|half past|At half past.|B|Author|YES\n",
    )
    .unwrap()
}

fn state() -> KindleShellDevicePort {
    KindleShellDevicePort {
        literary_corpus: Some(corpus()),
        literary_clock_interval_minutes: 15,
        launcher_background_choice: file("sea-view.png"),
        launcher_background_choices: vec![
            LauncherBackgroundChoice::Pattern,
            file("sea-view.png"),
        ],
        launcher_background: Some(pixels(7)),
    }
}

fn pixels(red: u8) -> Vec<Rgb8Pixel> {
    vec![
        Rgb8Pixel {
            red,
            green: 2,
            blue: 3,
        },
        Rgb8Pixel {
            red: 4,
            green: 5,
            blue: red,
        },
    ]
}

fn clock() -> LocalClock {
    parse_local_clock("09:43|2026204|9:43 AM|EDT\n").unwrap()
}

fn readings() -> DeviceReadings {
    DeviceReadings {
        battery_percent: 87,
        charging: true,
        frontlight: 12,
        warmth: 3,
        auto_brightness: false,
        wifi_enabled: true,
        wifi_connection: "connected".to_owned(),
        bluetooth: None,
        ssh_running: true,
        usb_state: Some("UP".to_owned()),
    }
}

#[test]
fn commands_are_planned_or_refused_before_anything_is_written() {
    assert!(matches!(
        state().plan(ShellDeviceCommand::AdjustFrontlight(-1)),
        Ok(DevicePlan::StepLight {
            property: "flIntensity",
            operation: "front-light",
            step: -1,
        })
    ));
    assert!(matches!(
        state().plan(ShellDeviceCommand::AdjustWarmth(2)),
        Err(KindleShellDeviceError::InvalidValue("warm-light"))
    ));
    assert!(matches!(
        state().plan(ShellDeviceCommand::SetWarmth(24)),
        Ok(DevicePlan::WriteLight {
            property: "currentAmberLevel",
            operation: "warm-light",
            level: 24,
        })
    ));
    assert!(matches!(
        state().plan(ShellDeviceCommand::SetFrontlight(25)),
        Err(KindleShellDeviceError::InvalidValue("front-light"))
    ));
    assert!(matches!(
        state().plan(ShellDeviceCommand::ToggleWifi),
        Ok(DevicePlan::ToggleWifi)
    ));
    assert!(matches!(
        state().plan(ShellDeviceCommand::CycleLiteraryClockInterval),
        Ok(DevicePlan::AdoptInterval { interval: 30 })
    ));
    let bare = KindleShellDevicePort {
        literary_corpus: None,
        ..state()
    };
    assert!(matches!(
        bare.plan(ShellDeviceCommand::CycleLiteraryClockInterval),
        Err(KindleShellDeviceError::InvalidValue("literary clock interval"))
    ));
    assert!(matches!(
        state().plan(ShellDeviceCommand::SelectLauncherBackground(1)),
        Ok(DevicePlan::AdoptBackground { choice }) if choice == file("sea-view.png")
    ));
    assert!(matches!(
        state().plan(ShellDeviceCommand::SelectLauncherBackground(2)),
        Err(KindleShellDeviceError::InvalidValue("launcher background choice"))
    ));
}

#[test]
fn snapshots_show_the_readings() {
    let snapshot = state().snapshot(&clock(), &readings());
    assert_eq!(snapshot.time, "9:43 AM");
    assert_eq!(snapshot.timezone, "EDT");
    assert_eq!(snapshot.battery_percent, 87);
    assert!(snapshot.charging);
    assert_eq!(snapshot.wifi, "Wi-Fi");
    assert_eq!(snapshot.bluetooth, "Unavailable");
    assert_eq!(snapshot.ssh, "On");
    assert_eq!(snapshot.usbnet, "On");
    assert_eq!(snapshot.adapter, "KOA3");
    assert!(snapshot.literary_clock_available);
    assert_eq!(snapshot.literary_clock_interval_minutes, 15);
    assert_eq!(snapshot.literary_credit, "— A, Author");
    assert_eq!(snapshot.literary_excerpt_font_size, 30);
    assert_eq!(
        snapshot.literary_excerpt,
        slint::StyledText::from_markdown("It was **09\\:30**\\.").ok()
    );
    assert_eq!(snapshot.launcher_background_label, "Sea view");
    let options: Vec<(&str, &str, bool)> = snapshot
        .launcher_background_options
        .iter()
        .map(|option| (option.title.as_str(), option.detail.as_str(), option.selected))
        .collect();
    assert_eq!(
        options,
        [
            ("Pattern", "Generated on device", false),
            ("Sea view", "Image from ferrink/backgrounds", true),
        ]
    );
    let bare = KindleShellDevicePort {
        literary_corpus: None,
        ..state()
    };
    let silent = bare.snapshot(&clock(), &readings());
    assert!(!silent.literary_clock_available);
    assert_eq!(silent.literary_excerpt, None);
    assert_eq!(silent.literary_credit, "");
    assert_eq!(silent.literary_excerpt_font_size, 30);
}

fn blank_screen() -> DeviceScreen {
    DeviceScreen {
        time_status: String::new(),
        timezone_status: String::new(),
        battery_percent: 0,
        battery_charging: false,
        battery_status: String::new(),
        network_status: String::new(),
        frontlight_level: 0,
        warmth_level: 0,
        auto_brightness: false,
        display_controls_available: false,
        bluetooth_status: String::new(),
        ssh_status: String::new(),
        usbnet_status: String::new(),
        device_adapter_status: String::new(),
        literary_clock_available: false,
        literary_clock_enabled: false,
        literary_clock_interval_label: "Off",
        literary_clock_has_excerpt: false,
        literary_excerpt: None,
        literary_credit: String::new(),
        literary_excerpt_font_size: 0,
        launcher_background_label: String::new(),
        launcher_background_options: Vec::new(),
        launcher_background: None,
    }
}

#[test]
fn a_picture_stays_until_a_snapshot_brings_another() {
    let without = KindleShellDevicePort {
        launcher_background: None,
        ..state()
    };
    let mut ui = blank_screen();
    sync_device_ui(&mut ui, &without.snapshot(&clock(), &readings()));
    assert_eq!(ui.launcher_background, None);
    for (brought, shown) in [
        (Some(pixels(7)), pixels(7)),
        (None, pixels(7)),
        (Some(pixels(9)), pixels(9)),
        (None, pixels(9)),
    ] {
        let port = KindleShellDevicePort {
            launcher_background: brought.clone(),
            ..state()
        };
        let snapshot = port.snapshot(&clock(), &readings());
        assert_eq!(snapshot.launcher_background, brought);
        sync_device_ui(&mut ui, &snapshot);
        assert_eq!(ui.launcher_background, Some(shown));
    }
    note_device_error(&mut ui);
    assert_eq!(ui.launcher_background, Some(pixels(9)));
}

#[test]
fn a_written_preference_is_adopted_and_nothing_else_changes() {
    let mut port = state();
    port.adopt(WrittenPreference::Interval { interval: 60 });
    assert_eq!(port.literary_clock_interval_minutes, 60);
    assert_eq!(port.launcher_background_choice, file("sea-view.png"));
    assert_eq!(port.launcher_background, Some(pixels(7)));
    port.adopt(WrittenPreference::Background {
        choice: LauncherBackgroundChoice::Pattern,
        pixels: pixels(3),
    });
    assert_eq!(port.literary_clock_interval_minutes, 60);
    assert_eq!(port.launcher_background_choice, LauncherBackgroundChoice::Pattern);
    assert_eq!(port.launcher_background, Some(pixels(3)));
    assert_eq!(
        port.launcher_background_choices,
        state().launcher_background_choices
    );
    assert!(port.literary_corpus.is_some());
}

#[test]
fn an_adapter_starts_with_what_could_be_read() {
    let choices = || state().launcher_background_choices;
    let image = || file("sea-view.png");
    let opened = KindleShellDevicePort::open(
        state().literary_corpus,
        Some(15),
        choices(),
        image(),
        Some(Some(pixels(7))),
    );
    assert_eq!(opened.literary_clock_interval_minutes, 15);
    assert_eq!(opened.launcher_background_choice, image());
    assert_eq!(opened.launcher_background, Some(pixels(7)));
    assert_eq!(opened.launcher_background_choices, choices());

    let failed = KindleShellDevicePort::open(None, Some(15), choices(), image(), None);
    assert_eq!(failed.literary_clock_interval_minutes, 0);
    assert_eq!(failed.launcher_background_choice, LauncherBackgroundChoice::Pattern);
    assert_eq!(failed.launcher_background, None);

    let missing = KindleShellDevicePort::open(
        state().literary_corpus,
        None,
        choices(),
        file("gone.png"),
        Some(Some(pixels(7))),
    );
    assert_eq!(missing.literary_clock_interval_minutes, 0);
    assert_eq!(missing.launcher_background_choice, LauncherBackgroundChoice::Pattern);
    assert_eq!(missing.launcher_background, None);
}

/// A device that notes what it is asked for and refuses to touch Wi-Fi.
struct RecordingDevice {
    reads: usize,
    commands: Vec<ShellDeviceCommand>,
}

impl ShellDevicePort for RecordingDevice {
    type Error = &'static str;

    fn snapshot(&mut self) -> Result<ShellDeviceSnapshot, &'static str> {
        self.reads += 1;
        Ok(state().snapshot(&clock(), &readings()))
    }

    fn apply(&mut self, command: ShellDeviceCommand) -> Result<ShellDeviceSnapshot, &'static str> {
        self.commands.push(command);
        if command == ShellDeviceCommand::ToggleWifi {
            Err("no Wi-Fi")
        } else {
            Ok(state().snapshot(&clock(), &readings()))
        }
    }
}

#[test]
fn quick_controls_reach_the_device_and_its_answer_reaches_the_window() {
    let mut device = RecordingDevice {
        reads: 0,
        commands: Vec::new(),
    };
    let mut ui = blank_screen();
    for control in [
        QuickControl::AdjustFrontlight(0),
        QuickControl::AdjustWarmth(2),
        QuickControl::SetFrontlight(25),
        QuickControl::SetWarmth(-1),
        QuickControl::SelectLauncherBackground(16),
    ] {
        assert_eq!(handle_quick_control(&mut ui, &mut device, control), None);
        assert_eq!(ui, blank_screen());
        assert!(device.commands.is_empty());
    }
    assert!(refresh_device(&mut ui, &mut device).is_ok());
    assert_eq!(device.reads, 1);
    assert_eq!(ui.device_adapter_status, "KOA3");
    let shown = ui.clone();
    for control in [
        QuickControl::AdjustFrontlight(-1),
        QuickControl::AdjustWarmth(1),
        QuickControl::SetFrontlight(24),
        QuickControl::SetWarmth(0),
        QuickControl::CycleLiteraryClockInterval,
        QuickControl::SelectLauncherBackground(1),
    ] {
        ui = blank_screen();
        assert!(matches!(
            handle_quick_control(&mut ui, &mut device, control),
            Some(Ok(_))
        ));
        assert_eq!(ui, shown);
    }
    assert_eq!(
        handle_quick_control(&mut ui, &mut device, QuickControl::ToggleWifi),
        Some(Err("no Wi-Fi"))
    );
    assert_eq!(
        ui,
        DeviceScreen {
            display_controls_available: false,
            device_adapter_status: "ERROR".to_owned(),
            ..shown
        }
    );
    assert_eq!(
        device.commands,
        [
            ShellDeviceCommand::AdjustFrontlight(-1),
            ShellDeviceCommand::AdjustWarmth(1),
            ShellDeviceCommand::SetFrontlight(24),
            ShellDeviceCommand::SetWarmth(0),
            ShellDeviceCommand::CycleLiteraryClockInterval,
            ShellDeviceCommand::SelectLauncherBackground(1),
            ShellDeviceCommand::ToggleWifi,
        ]
    );
    assert_eq!(device.reads, 1);
}

#[test]
fn the_window_follows_the_snapshot_until_the_adapter_fails() {
    let mut ui = blank_screen();
    let snapshot = state().snapshot(&clock(), &readings());
    sync_device_ui(&mut ui, &snapshot);
    assert_eq!(
        ui,
        DeviceScreen {
            time_status: "9:43 AM".to_owned(),
            timezone_status: "EDT".to_owned(),
            battery_percent: 87,
            battery_charging: true,
            battery_status: "87%".to_owned(),
            network_status: snapshot.wifi.clone(),
            frontlight_level: i32::from(snapshot.frontlight),
            warmth_level: i32::from(snapshot.warmth),
            auto_brightness: snapshot.auto_brightness,
            display_controls_available: true,
            bluetooth_status: "Unavailable".to_owned(),
            ssh_status: "On".to_owned(),
            usbnet_status: "On".to_owned(),
            device_adapter_status: "KOA3".to_owned(),
            literary_clock_available: true,
            literary_clock_enabled: true,
            literary_clock_interval_label: "Every 15 minutes",
            literary_clock_has_excerpt: true,
            literary_excerpt: snapshot.literary_excerpt.clone(),
            literary_credit: "— A, Author".to_owned(),
            literary_excerpt_font_size: 30,
            launcher_background_label: "Sea view".to_owned(),
            launcher_background_options: snapshot.launcher_background_options.clone(),
            launcher_background: Some(pixels(7)),
        }
    );
    assert!(ui.literary_excerpt.is_some());
    assert_eq!(ui.launcher_background_options.len(), 2);
    assert_eq!(ui.battery_status, "87%");
    assert!(ui.literary_clock_enabled);
    assert_eq!(ui.literary_clock_interval_label, "Every 15 minutes");
    assert!(ui.literary_clock_has_excerpt);
    assert!(ui.display_controls_available);
    assert_eq!(ui.device_adapter_status, "KOA3");
    let shown = ui.clone();
    note_device_error(&mut ui);
    assert_eq!(
        ui,
        DeviceScreen {
            display_controls_available: false,
            device_adapter_status: "ERROR".to_owned(),
            ..shown
        }
    );
    assert_eq!(literary_clock_interval_label(2), "Unavailable");
}

#[test]
fn quick_controls_become_commands_only_in_range() {
    assert_eq!(
        QuickControl::AdjustWarmth(1).command(),
        Some(ShellDeviceCommand::AdjustWarmth(1))
    );
    assert_eq!(QuickControl::AdjustFrontlight(2).command(), None);
    assert_eq!(
        QuickControl::SetFrontlight(24).command(),
        Some(ShellDeviceCommand::SetFrontlight(24))
    );
    assert_eq!(QuickControl::SetWarmth(-1).command(), None);
    assert_eq!(
        QuickControl::SelectLauncherBackground(15).command(),
        Some(ShellDeviceCommand::SelectLauncherBackground(15))
    );
    assert_eq!(QuickControl::SelectLauncherBackground(16).command(), None);
    assert_eq!(
        QuickControl::ToggleWifi.command(),
        Some(ShellDeviceCommand::ToggleWifi)
    );
}

#[test]
fn lights_step_inside_their_range() {
    assert_eq!(adjusted_light(12, 1), Some(13));
    assert_eq!(adjusted_light(12, -1), Some(11));
    assert_eq!(adjusted_light(24, 1), None);
    assert_eq!(adjusted_light(0, -1), None);
    assert_eq!(adjusted_light(100, 1), Some(24));
    assert_eq!(adjusted_light(-5, 1), Some(0));
    assert_eq!(adjusted_light(i32::MAX, 1), Some(24));
}

#[test]
fn properties_are_read_strictly() {
    assert_eq!(parse_property(" 42 \n", "battery").unwrap(), 42);
    assert!(parse_property("full", "battery").is_err());
    assert_eq!(parse_clamped_property("140", 100, "battery").unwrap(), 100);
    assert_eq!(parse_clamped_property("-3", 24, "front-light").unwrap(), 0);
    assert!(parse_switch_property("1\n", "charging").unwrap());
    assert!(!parse_switch_property("0", "charging").unwrap());
    assert!(matches!(
        parse_switch_property("2", "charging"),
        Err(KindleShellDeviceError::InvalidValue("charging"))
    ));
    assert_eq!(parse_status_file(" up\n"), Some("up".to_owned()));
    assert_eq!(parse_status_file(&"x".repeat(65)), None);
    assert!(is_process_entry("123"));
    assert!(!is_process_entry("12a"));
    assert!(check_output_length(128));
    assert!(!check_output_length(129));
}

#[test]
fn commands_are_waited_for_with_a_deadline() {
    assert_eq!(
        after_command_poll(CommandPoll::Running {
            elapsed_millis: 1_999
        }),
        CommandStep::Sleep
    );
    assert_eq!(
        after_command_poll(CommandPoll::Running {
            elapsed_millis: 2_000
        }),
        CommandStep::Terminate
    );
    assert_eq!(
        after_command_poll(CommandPoll::Succeeded),
        CommandStep::ReadOutput
    );
    assert_eq!(
        after_command_poll(CommandPoll::Failed { code: Some(1) }),
        CommandStep::Fail { code: Some(1) }
    );
}

#[test]
fn wifi_services_are_switched_in_a_safe_order() {
    let off: Vec<(&str, &str, &str)> = wifi_toggle_writes(true)
        .iter()
        .map(|write| (write.service, write.property, write.value))
        .collect();
    assert_eq!(
        off,
        [
            ("com.lab126.wifid", "enable", "0"),
            ("com.lab126.cmd", "wirelessEnable", "0"),
        ]
    );
    let on: Vec<&str> = wifi_toggle_writes(false)
        .iter()
        .map(|write| write.operation)
        .collect();
    assert_eq!(on, ["enable wireless command", "enable Wi-Fi service"]);
}

#[test]
fn settings_read_back_what_was_written() {
    for interval in [0, 1, 5, 15, 30, 60] {
        let text = format_literary_setting(interval).unwrap();
        assert_eq!(parse_literary_setting(&text), Some(interval));
    }
    assert!(matches!(
        format_literary_setting(2),
        Err(KindleShellDeviceError::InvalidValue("literary clock interval"))
    ));
    for choice in [LauncherBackgroundChoice::Pattern, file("sea-view.png")] {
        let text = format_launcher_background_setting(&choice);
        assert_eq!(parse_launcher_background_setting(&text), Some(choice));
    }
    assert!(check_preference_file(true, 64, 64));
    assert!(!check_preference_file(true, 0, 64));
    assert!(!check_preference_file(true, 65, 64));
    assert!(!check_preference_file(false, 1, 64));
}

#[test]
fn preferences_fall_back_to_the_pattern() {
    let choices = state().launcher_background_choices;
    assert!(is_installed(&choices, &file("sea-view.png")));
    assert!(!is_installed(&choices, &file("gone.png")));
    assert_eq!(
        initial_background(&choices, file("sea-view.png"), true),
        file("sea-view.png")
    );
    assert_eq!(
        initial_background(&choices, file("sea-view.png"), false),
        LauncherBackgroundChoice::Pattern
    );
    assert_eq!(
        initial_background(&choices, file("gone.png"), true),
        LauncherBackgroundChoice::Pattern
    );
    assert_eq!(initial_interval(true, Some(30)), 30);
    assert_eq!(initial_interval(true, None), 0);
    assert_eq!(initial_interval(false, Some(30)), 0);
}

#[test]
fn clocks_are_read_whole() {
    let clock = clock();
    assert_eq!(clock.minute_key, "09:43");
    assert_eq!(clock.day_selector, 2_026_204);
    assert_eq!(clock.display, "9:43 AM");
    assert_eq!(clock.timezone, "EDT");
    for output in [
        "",
        "09:43|2026204|9:43 AM",
        "09:43|2026204|9:43 AM|EDT|x",
        "24:43|2026204|9:43 AM|EDT",
        "09:43|2026367|9:43 AM|EDT",
        "09:43|2026204|9:43|EDT",
        "09:43|2026204|9:43 AM|",
    ] {
        assert!(parse_local_clock(output).is_none(), "{output}");
    }
    assert_eq!(format_minute_key(0), "00:00");
    assert_eq!(format_minute_key(1_439), "23:59");
}

#[test]
fn device_failures_are_described() {
    for (error, message) in [
        (
            KindleShellDeviceError::CommandIo {
                operation: "battery",
                source: "not found".to_owned(),
            },
            "battery failed: not found",
        ),
        (
            KindleShellDeviceError::CommandTimedOut("battery"),
            "battery timed out",
        ),
        (
            KindleShellDeviceError::CommandFailed {
                operation: "battery",
                code: Some(-2),
            },
            "battery exited unsuccessfully (Some(-2))",
        ),
        (
            KindleShellDeviceError::CommandFailed {
                operation: "battery",
                code: None,
            },
            "battery exited unsuccessfully (None)",
        ),
        (
            KindleShellDeviceError::InvalidValue("battery"),
            "battery returned invalid data",
        ),
        (
            KindleShellDeviceError::StateIo {
                operation: "preference",
                source: "denied".to_owned(),
            },
            "preference failed: denied",
        ),
    ] {
        assert_eq!(error.message(), message);
    }
}

fn fields(values: &[&str]) -> Vec<String> {
    values.iter().map(|value| (*value).to_owned()).collect()
}

#[test]
fn records_are_prepared_with_an_escaped_and_emphasized_phrase() {
    let prepared = prepare_record(&fields(&[
        " 09:41 ",
        "nine",
        "At NINE, *all* was well.",
        "",
        "Author",
        "NO",
    ]))
    .unwrap();
    assert_eq!(prepared.minute, 581);
    assert_eq!(prepared.markdown, "At **NINE**\\, \\*all\\* was well\\.");
    assert_eq!(prepared.credit, "— Author");
    assert_eq!(prepared.font_size, 30);
    for (title, author, credit) in [
        ("T", "A", "— T, A"),
        ("T", "", "— T"),
        ("", "", "— Source unavailable"),
    ] {
        let prepared =
            prepare_record(&fields(&["09:41", "nine", "nine", title, author, "YES"])).unwrap();
        assert_eq!(prepared.credit, credit);
    }
}

#[test]
fn unusable_records_are_named() {
    for (record, message) in [
        (
            fields(&["09:41", "nine", "nine", "T", "A"]),
            "every literary record must contain exactly six fields",
        ),
        (
            fields(&["09:41", "nine", "nine", "T", "A", "MAYBE"]),
            "literary record content flag must be YES or NO",
        ),
        (
            fields(&["24:00", "nine", "nine", "T", "A", "NO"]),
            "literary record time must use 24-hour HH:MM",
        ),
        (
            fields(&["09:41", "", "nine", "T", "A", "NO"]),
            "literary record metadata is oversized or contains controls",
        ),
        (
            fields(&["09:41", "nine", "", "T", "A", "NO"]),
            "literary excerpt is empty, exceeds 800 characters, or contains controls",
        ),
        (
            fields(&["09:41", "nine", "ten", "T", "A", "NO"]),
            "literary excerpt does not contain its declared time phrase",
        ),
    ] {
        assert_eq!(prepare_record(&record).unwrap_err(), message);
        let line = format!("{}\n", record.join("|"));
        assert_eq!(
            LiteraryClockCorpus::from_pipe_separated(line.as_bytes())
                .unwrap_err()
                .message(),
            message
        );
    }
    let error = LiteraryClockCorpus::from_pipe_separated(b"").unwrap_err();
    assert_eq!(error.message(), "corpus must contain at most 2 MiB");
    let error = LiteraryClockCorpus::from_pipe_separated(b"09:41|n|n|T|A|NO\na|b\n").unwrap_err();
    assert!(matches!(error, LiteraryClockError::Csv(_)));
    assert!(error.message().starts_with("cannot parse literary corpus: "));
    assert!(error.message().contains("field"));
    assert_eq!(
        LiteraryClockError::Io("denied".to_owned()).message(),
        "cannot read literary corpus: denied"
    );
    assert!(LiteraryClockCorpus::check_file(true, 2_097_152).is_ok());
    assert_eq!(
        LiteraryClockCorpus::check_file(true, 2_097_153),
        Err("corpus must be a non-empty regular file no larger than 2 MiB")
    );
    assert_eq!(
        LiteraryClockCorpus::check_read(2_097_153),
        Err("corpus grew beyond the 2 MiB read bound")
    );
}

#[test]
fn corpora_hold_at_most_five_thousand_records() {
    let line = "09:41|nine|nine|T|A|NO\n";
    let corpus = LiteraryClockCorpus::from_pipe_separated(line.repeat(5_000).as_bytes()).unwrap();
    assert_eq!(corpus.len(), 5_000);
    assert_eq!(corpus.covered_minutes(), 1);
    assert!(!corpus.is_empty());
    assert_eq!(
        LiteraryClockCorpus::from_pipe_separated(line.repeat(5_001).as_bytes())
            .unwrap_err()
            .message(),
        "corpus contains more than 5,000 records"
    );
}
