use ferrink::redaction::{redact_serial, redact_text};

#[test]
fn newer_serial_keeps_only_documented_prefix() {
    let serial = redact_serial("G000AA0123456789").unwrap();
    assert_eq!(serial.prefix, "0AA");
    assert_eq!(serial.display, "G000AA…REDACTED");
    assert!(!serial.display.contains("123456789"));
}

#[test]
fn older_serial_keeps_four_character_prefix() {
    let serial = redact_serial("DEMO123456789012").unwrap();
    assert_eq!(serial.prefix, "DEMO");
    assert_eq!(serial.display, "DEMO…REDACTED");
}

#[test]
fn diagnostic_text_removes_secret_markers_and_full_serials() {
    let output = redact_text("token=abc G000AA0123456789 safe");
    assert!(!output.contains("abc"));
    assert!(!output.contains("123456789"));
    assert!(output.contains("0AA"));
}

#[test]
fn serials_without_the_documented_shape_are_not_shown() {
    assert!(redact_serial("").is_none());
    assert!(redact_serial("A-1 2").is_none());
    assert_eq!(redact_serial("a1-b2").unwrap().prefix, "A1B2");
    for serial in ["G000AA0123456789", "DEMO123456789012"] {
        let redacted = redact_serial(serial).unwrap();
        assert!(serial.starts_with(redacted.display.trim_end_matches("…REDACTED")));
        assert!(redacted.display.chars().count() <= "G000AA…REDACTED".chars().count());
    }
}

#[test]
fn every_marked_word_is_removed() {
    for word in ["token=abc", "PASSWORD:hunter", "ssid=home", "my-secret"] {
        let output = redact_text(&format!("before {word} after"));
        assert!(!output.contains(word), "{output}");
        assert!(output.starts_with("before "));
        assert!(output.ends_with(" after"));
    }
}
