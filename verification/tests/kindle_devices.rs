use ferrink::background::{
    discover_background_choices, BackgroundEntry, LauncherBackgroundChoice,
    MAX_BACKGROUND_FILE_CHOICES,
};
use ferrink::kindle_device::{
    bluetooth_label, interface_label, parse_launcher_background_setting, parse_literary_setting,
    wifi_label,
};
use ferrink::literary_clock::{minute_index, LiteraryClockCorpus};
use ferrink::local_clock::{
    current_literary_excerpt, valid_day_key, valid_minute_key, valid_time_label,
    valid_timezone_label, LocalClock,
};

#[test]
fn status_labels_are_small_and_truthful() {
    assert_eq!(wifi_label(false, "CONNECTED"), "Off");
    assert_eq!(wifi_label(true, "CONNECTED"), "Wi-Fi");
    assert_eq!(wifi_label(true, "PENDING"), "On");
    assert_eq!(bluetooth_label("0"), "Off");
    assert_eq!(bluetooth_label("1\n"), "On");
    assert_eq!(bluetooth_label("unexpected"), "Unknown");
    assert_eq!(interface_label("up"), "On");
    assert_eq!(interface_label("down"), "Off");
}

#[test]
fn local_time_label_accepts_only_the_stock_clock_shape() {
    assert!(valid_minute_key("00:00"));
    assert!(valid_minute_key("23:59"));
    assert!(!valid_minute_key("24:00"));
    assert!(!valid_minute_key("9:41"));
    assert_eq!(minute_index("09:41"), Some(9 * 60 + 41));
    assert!(valid_day_key("2026204"));
    assert!(!valid_day_key("2026000"));
    assert!(!valid_day_key("2026367"));
    assert!(valid_time_label("1:00 AM"));
    assert!(valid_time_label("10:25 AM"));
    assert!(valid_time_label("12:59 PM"));
    assert!(!valid_time_label("0:00 AM"));
    assert!(!valid_time_label("13:00 PM"));
    assert!(!valid_time_label("10:5 AM"));
    assert!(!valid_time_label("10:25 UTC"));
    assert!(!valid_time_label("10:25 AM extra"));
    assert!(valid_timezone_label("ADT"));
    assert!(valid_timezone_label("GMT+4"));
    assert!(!valid_timezone_label(""));
    assert!(!valid_timezone_label("America/Halifax time"));
}

#[test]
fn literary_clock_preference_has_one_strict_versioned_shape() {
    assert_eq!(
        parse_literary_setting("ferrink-literary-clock-v1\ninterval_minutes=0\n"),
        Some(0)
    );
    assert_eq!(
        parse_literary_setting("ferrink-literary-clock-v1\ninterval_minutes=15\n"),
        Some(15)
    );
    assert_eq!(parse_literary_setting("interval_minutes=1\n"), None);
    assert_eq!(
        parse_literary_setting("ferrink-literary-clock-v1\ninterval_minutes=2\n"),
        None
    );
}

#[test]
fn launcher_background_preference_has_one_strict_versioned_shape() {
    assert_eq!(
        parse_launcher_background_setting("ferrink-launcher-background-v1\nchoice=pattern\n")
            .map(|choice| choice.setting_value()),
        Some("pattern".to_owned())
    );
    assert_eq!(
        parse_launcher_background_setting(
            "ferrink-launcher-background-v1\nchoice=topography\n"
        )
        .map(|choice| choice.setting_value()),
        Some("file:topography.png".to_owned())
    );
    assert_eq!(
        parse_launcher_background_setting(
            "ferrink-launcher-background-v1\nchoice=file:family-art.png\n"
        )
        .map(|choice| choice.setting_value()),
        Some("file:family-art.png".to_owned())
    );
    assert_eq!(
        parse_launcher_background_setting("choice=topography\n"),
        None
    );
    assert_eq!(
        parse_launcher_background_setting("ferrink-launcher-background-v1\nchoice=unknown\n"),
        None
    );
}


#[test]
fn background_discovery_is_bounded_to_valid_png_files_in_one_directory() {
    let mut entries = vec![
        BackgroundEntry {
            name: "notes.md".to_owned(),
            valid: true,
        },
        BackgroundEntry {
            name: "launcher-background-topography-6shade.png".to_owned(),
            valid: true,
        },
        BackgroundEntry {
            name: "damaged.png".to_owned(),
            valid: false,
        },
    ];
    for number in 0..40 {
        entries.push(BackgroundEntry {
            name: format!("picture-{number:02}.png"),
            valid: true,
        });
    }
    let choices = discover_background_choices(&entries);
    let values: Vec<_> = choices
        .iter()
        .map(LauncherBackgroundChoice::setting_value)
        .collect();
    assert_eq!(values.first().map(String::as_str), Some("pattern"));
    assert!(values.contains(&"file:launcher-background-topography-6shade.png".to_owned()));
    assert!(!values.contains(&"file:damaged.png".to_owned()));
    assert_eq!(values.len(), MAX_BACKGROUND_FILE_CHOICES + 1);
}

#[test]
fn literary_clock_interval_buckets_and_rotates_complete_minute_group() {
    let corpus = Some(
        LiteraryClockCorpus::from_pipe_separated(
            b"09:40|09:40|First 09:40 excerpt.|A|Author|NO\n09:40|nine forty|Second nine forty excerpt.|B|Author|YES\n09:43|09:43|Exact 09:43 excerpt.|C|Author|NO\n",
        )
        .expect("fixture corpus should parse"),
    );
    let clock = LocalClock {
        minute_key: "09:43".to_owned(),
        day_selector: 1,
        display: "9:43 AM".to_owned(),
        timezone: "EDT".to_owned(),
    };

    assert_eq!(
        current_literary_excerpt(&corpus, 5, &clock).unwrap().credit(),
        "— B, Author"
    );
    assert_eq!(
        current_literary_excerpt(&corpus, 1, &clock).unwrap().credit(),
        "— C, Author"
    );
    assert!(current_literary_excerpt(&corpus, 0, &clock).is_none());
}
