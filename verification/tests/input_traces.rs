use ferrink::nonzero::NonZeroU32;
use ferrink::probe::{InputDeviceId, InputEventAbi};
use ferrink::string_map::StringMap;
use ferrink::trace::{
    characterization_redaction_metadata, InputDeviceFingerprint, InputEventCode, InputReplayError,
    InputTrace, InputTraceError, InputTraceEvent, InputTraceLimits, InputTraceStopReason,
    InputTraceValidationError, LogicalTouchEvent, LogicalTouchPhase, TouchTracker,
    ABS_MT_POSITION_X, ABS_MT_POSITION_Y, ABS_MT_SLOT, ABS_MT_TRACKING_ID, ABS_X, EV_ABS, EV_KEY,
    EV_SYN, INPUT_TRACE_SCHEMA_VERSION, MAX_INPUT_TRACE_JSON_BYTES, SYN_REPORT,
};
use ferrink::transform::{AxisRange, DisplayExtent, DisplayPoint, InputTransform};

fn minimal_trace() -> InputTrace {
    InputTrace {
        schema_version: INPUT_TRACE_SCHEMA_VERSION,
        redaction: characterization_redaction_metadata(),
        profile_id: "reference-landscape".to_owned(),
        device: InputDeviceFingerprint {
            device: "/dev/input/event0".to_owned(),
            name: Some("cyttsp".to_owned()),
            id: InputDeviceId::default(),
            capabilities: StringMap::new(),
        },
        input_event_abi: InputEventAbi {
            pointer_width_bits: 32,
            libc_timeval_bytes: 8,
            libc_input_event_bytes: 16,
        },
        transform: InputTransform::new(
            AxisRange::try_new(0, 758).unwrap(),
            AxisRange::try_new(0, 1024).unwrap(),
            DisplayExtent::try_new(758, 1024).unwrap(),
        ),
        limits: InputTraceLimits {
            max_duration_millis: NonZeroU32::new(1_000).unwrap(),
            max_events: NonZeroU32::new(100).unwrap(),
        },
        allowed_events: vec![InputEventCode {
            event_type: EV_SYN,
            code: SYN_REPORT,
        }],
        events: Vec::new(),
        stop_reason: InputTraceStopReason::Completed,
        warnings: Vec::new(),
    }
}

#[test]
fn trace_validation_rejects_missing_privacy_and_unreviewed_key_codes() {
    let mut trace = minimal_trace();
    trace
        .redaction
        .excluded_categories
        .retain(|value| value != "key_text");
    trace.allowed_events.push(InputEventCode {
        event_type: EV_KEY,
        code: 30,
    });

    let errors = trace.validate().unwrap_err();
    assert!(
        errors.contains(&InputTraceValidationError::MissingRedactionCategory {
            category: "key_text"
        })
    );
    assert!(
        errors.contains(&InputTraceValidationError::DisallowedCodeDeclaration {
            event_type: EV_KEY,
            code: 30
        })
    );
}

#[test]
fn trace_validation_rejects_decreasing_undeclared_and_over_duration_events() {
    let mut trace = minimal_trace();
    trace.events = vec![
        InputTraceEvent {
            offset_micros: 1_000_001,
            event_type: EV_SYN,
            code: SYN_REPORT,
            value: 0,
        },
        InputTraceEvent {
            offset_micros: 2,
            event_type: EV_ABS,
            code: ABS_X,
            value: 1,
        },
    ];

    let errors = trace.validate().unwrap_err();
    assert!(errors.contains(&InputTraceValidationError::EventPastDuration { index: 0 }));
    assert!(errors.contains(&InputTraceValidationError::DecreasingOffset { index: 1 }));
    assert!(
        errors.contains(&InputTraceValidationError::UndeclaredEvent {
            index: 1,
            event_type: EV_ABS,
            code: ABS_X
        })
    );
}

#[test]
fn trace_json_size_is_bounded_before_parsing() {
    let oversized = " ".repeat(MAX_INPUT_TRACE_JSON_BYTES + 1);
    assert!(matches!(
        InputTrace::check_size(oversized.len()),
        Err(InputTraceError::InputTooLarge { .. })
    ));
}

#[test]
fn replay_rejects_invalid_slot_and_tracking_values() {
    let mut trace = minimal_trace();
    trace.allowed_events.extend([
        InputEventCode {
            event_type: EV_ABS,
            code: ABS_MT_SLOT,
        },
        InputEventCode {
            event_type: EV_ABS,
            code: ABS_MT_TRACKING_ID,
        },
    ]);
    trace.events = vec![InputTraceEvent {
        offset_micros: 0,
        event_type: EV_ABS,
        code: ABS_MT_SLOT,
        value: -1,
    }];
    assert!(matches!(
        trace.replay_touch(),
        Err(InputReplayError::InvalidSlot { value: -1 })
    ));

    trace.events[0] = InputTraceEvent {
        offset_micros: 0,
        event_type: EV_ABS,
        code: ABS_MT_TRACKING_ID,
        value: -2,
    };
    assert!(matches!(
        trace.replay_touch(),
        Err(InputReplayError::InvalidTrackingId { value: -2 })
    ));
}

#[test]
fn incremental_tracker_preserves_pre_tracking_coordinates_and_primary_contact() {
    let mut tracker = TouchTracker::new(minimal_trace().transform);

    assert_eq!(tracker.push(EV_ABS, ABS_MT_POSITION_X, 100).unwrap(), None);
    assert_eq!(tracker.push(EV_ABS, ABS_MT_POSITION_Y, 200).unwrap(), None);
    assert_eq!(tracker.push(EV_ABS, ABS_MT_TRACKING_ID, 7).unwrap(), None);
    let pressed = tracker
        .push(EV_SYN, SYN_REPORT, 0)
        .unwrap()
        .expect("complete primary contact should press");
    assert_eq!(pressed.phase, LogicalTouchPhase::Pressed);

    assert_eq!(tracker.push(EV_ABS, ABS_MT_SLOT, 1).unwrap(), None);
    assert_eq!(tracker.push(EV_ABS, ABS_MT_TRACKING_ID, 8).unwrap(), None);
    assert_eq!(tracker.push(EV_ABS, ABS_MT_POSITION_X, 700).unwrap(), None);
    assert_eq!(tracker.push(EV_ABS, ABS_MT_POSITION_Y, 900).unwrap(), None);
    assert_eq!(tracker.push(EV_SYN, SYN_REPORT, 0).unwrap(), None);
    assert_eq!(tracker.push(EV_ABS, ABS_MT_TRACKING_ID, -1).unwrap(), None);
    assert_eq!(tracker.push(EV_SYN, SYN_REPORT, 0).unwrap(), None);

    assert_eq!(tracker.push(EV_ABS, ABS_MT_SLOT, 0).unwrap(), None);
    assert_eq!(tracker.push(EV_ABS, ABS_MT_TRACKING_ID, -1).unwrap(), None);
    let released = tracker
        .push(EV_SYN, SYN_REPORT, 0)
        .unwrap()
        .expect("primary release should be emitted");
    assert_eq!(released.phase, LogicalTouchPhase::Released);
    assert_eq!(released.point, pressed.point);
}

#[test]
fn a_copied_tracker_goes_on_from_where_the_other_was() {
    let mut tracker = TouchTracker::new(minimal_trace().transform);
    tracker.push(EV_ABS, ABS_MT_POSITION_X, 100).unwrap();
    tracker.push(EV_ABS, ABS_MT_POSITION_Y, 200).unwrap();
    tracker.push(EV_ABS, ABS_MT_TRACKING_ID, 7).unwrap();
    let mut copy = tracker.clone();
    let pressed = tracker.push(EV_SYN, SYN_REPORT, 0).unwrap();
    assert_eq!(
        pressed.map(|contact| contact.phase),
        Some(LogicalTouchPhase::Pressed)
    );
    assert_eq!(copy.push(EV_SYN, SYN_REPORT, 0).unwrap(), pressed);
}

fn event(offset_micros: u64, event_type: u16, code: u16, value: i32) -> InputTraceEvent {
    InputTraceEvent {
        offset_micros,
        event_type,
        code,
        value,
    }
}

fn touch_trace(events: Vec<InputTraceEvent>) -> InputTrace {
    let mut trace = minimal_trace();
    for code in [
        ABS_MT_SLOT,
        ABS_MT_POSITION_X,
        ABS_MT_POSITION_Y,
        ABS_MT_TRACKING_ID,
    ] {
        trace.allowed_events.push(InputEventCode {
            event_type: EV_ABS,
            code,
        });
    }
    trace.events = events;
    trace
}

#[test]
fn ordering_fixture_preserves_pre_tracking_coordinates_and_primary_contact() {
    let trace = touch_trace(vec![
        event(10, EV_ABS, ABS_MT_POSITION_X, 0),
        event(20, EV_ABS, ABS_MT_POSITION_Y, 0),
        event(30, EV_ABS, ABS_MT_TRACKING_ID, 7),
        event(40, EV_SYN, SYN_REPORT, 0),
        event(50, EV_ABS, ABS_MT_SLOT, 1),
        event(60, EV_ABS, ABS_MT_TRACKING_ID, 8),
        event(70, EV_ABS, ABS_MT_POSITION_X, 300),
        event(80, EV_ABS, ABS_MT_POSITION_Y, 400),
        event(90, EV_SYN, SYN_REPORT, 0),
        event(100, EV_ABS, ABS_MT_TRACKING_ID, -1),
        event(110, EV_SYN, SYN_REPORT, 0),
        event(120, EV_ABS, ABS_MT_SLOT, 0),
        event(140, EV_ABS, ABS_MT_POSITION_X, 758),
        event(150, EV_ABS, ABS_MT_POSITION_Y, 1024),
        event(160, EV_SYN, SYN_REPORT, 0),
        event(170, EV_ABS, ABS_MT_TRACKING_ID, -1),
        event(180, EV_SYN, SYN_REPORT, 0),
    ]);
    let events = trace.replay_touch().unwrap();

    assert_eq!(
        events,
        vec![
            LogicalTouchEvent {
                offset_micros: 40,
                phase: LogicalTouchPhase::Pressed,
                point: DisplayPoint { x: 0, y: 0 },
            },
            LogicalTouchEvent {
                offset_micros: 160,
                phase: LogicalTouchPhase::Moved,
                point: DisplayPoint { x: 757, y: 1023 },
            },
            LogicalTouchEvent {
                offset_micros: 180,
                phase: LogicalTouchPhase::Released,
                point: DisplayPoint { x: 757, y: 1023 },
            },
        ]
    );
}

#[test]
fn a_tracking_id_cannot_be_replaced_without_a_release() {
    let trace = touch_trace(vec![
        event(0, EV_ABS, ABS_MT_TRACKING_ID, 1),
        event(1, EV_ABS, ABS_MT_TRACKING_ID, 2),
    ]);
    let error = trace.replay_touch().unwrap_err();
    assert!(matches!(
        error,
        InputReplayError::TrackingIdReplaced { slot: 0 }
    ));
    assert_eq!(
        error.message(),
        "tracking ID replaced without release in slot 0"
    );
}

#[test]
fn an_invalid_trace_is_not_replayed() {
    let mut trace = minimal_trace();
    trace.schema_version = 9;
    assert_eq!(
        trace.replay_touch().unwrap_err().message(),
        "invalid input trace: [UnsupportedSchema { observed: 9 }]"
    );
}

#[test]
fn every_violation_of_a_trace_is_reported_in_order() {
    let mut trace = minimal_trace();
    trace.schema_version = 2;
    trace.redaction.enabled = false;
    trace.redaction.policy = "other".to_owned();
    trace.profile_id = "Upper".to_owned();
    trace.device.device = "/dev/input/mouse0".to_owned();
    trace.input_event_abi.libc_timeval_bytes = 16;
    trace.limits.max_duration_millis = NonZeroU32::new(30_001).unwrap();
    trace.limits.max_events = NonZeroU32::new(10_001).unwrap();
    trace.allowed_events.clear();
    assert_eq!(
        trace.validate(),
        Err(vec![
            InputTraceValidationError::UnsupportedSchema { observed: 2 },
            InputTraceValidationError::RedactionDisabled,
            InputTraceValidationError::UnexpectedRedactionPolicy,
            InputTraceValidationError::InvalidProfileId,
            InputTraceValidationError::InvalidDevicePath,
            InputTraceValidationError::InvalidInputEventAbi,
            InputTraceValidationError::DurationLimitAboveMaximum {
                declared: 30_001,
                maximum: 30_000,
            },
            InputTraceValidationError::EventLimitAboveMaximum {
                declared: 10_001,
                maximum: 10_000,
            },
            InputTraceValidationError::MissingAllowedEvents,
        ])
    );

    let mut trace = minimal_trace();
    trace.allowed_events.push(InputEventCode {
        event_type: EV_SYN,
        code: SYN_REPORT,
    });
    trace.limits.max_events = NonZeroU32::new(1).unwrap();
    trace.events = vec![event(0, EV_SYN, SYN_REPORT, 0), event(0, EV_SYN, SYN_REPORT, 0)];
    assert_eq!(
        trace.validate(),
        Err(vec![
            InputTraceValidationError::DuplicateAllowedEvent {
                event_type: EV_SYN,
                code: SYN_REPORT,
            },
            InputTraceValidationError::TooManyEvents {
                observed: 2,
                declared: 1,
            },
        ])
    );
}

#[test]
fn trace_failures_are_described() {
    assert_eq!(
        InputTrace::check_size(MAX_INPUT_TRACE_JSON_BYTES + 1)
            .unwrap_err()
            .message(),
        "input trace is 1048577 bytes; maximum is 1048576"
    );
    assert!(InputTrace::check_size(MAX_INPUT_TRACE_JSON_BYTES).is_ok());
    assert_eq!(
        InputTrace::from_parsed(Err("expected value".to_owned()))
            .unwrap_err()
            .message(),
        "invalid input trace JSON: expected value"
    );
    let mut trace = minimal_trace();
    trace
        .redaction
        .excluded_categories
        .retain(|value| value != "key_text");
    trace.profile_id.clear();
    assert_eq!(
        InputTrace::from_parsed(Ok(trace)).unwrap_err().message(),
        "invalid input trace: [MissingRedactionCategory { category: \"key_text\" }, InvalidProfileId]"
    );
    let trace = minimal_trace();
    assert_eq!(InputTrace::from_parsed(Ok(trace.clone())), Ok(trace));
    assert_eq!(
        InputReplayError::InvalidSlot { value: -1 }.message(),
        "invalid touch slot -1"
    );
}

#[test]
fn renderings_agree_with_the_debug_format() {
    for error in [
        InputTraceValidationError::UnsupportedSchema { observed: 2 },
        InputTraceValidationError::RedactionDisabled,
        InputTraceValidationError::UnexpectedRedactionPolicy,
        InputTraceValidationError::MissingRedactionCategory { category: "x" },
        InputTraceValidationError::InvalidProfileId,
        InputTraceValidationError::InvalidDevicePath,
        InputTraceValidationError::InvalidInputEventAbi,
        InputTraceValidationError::DurationLimitAboveMaximum {
            declared: 2,
            maximum: 1,
        },
        InputTraceValidationError::EventLimitAboveMaximum {
            declared: 2,
            maximum: 1,
        },
        InputTraceValidationError::MissingAllowedEvents,
        InputTraceValidationError::DisallowedCodeDeclaration {
            event_type: 1,
            code: 30,
        },
        InputTraceValidationError::DuplicateAllowedEvent {
            event_type: 1,
            code: 30,
        },
        InputTraceValidationError::TooManyEvents {
            observed: 2,
            declared: 1,
        },
        InputTraceValidationError::DecreasingOffset { index: 1 },
        InputTraceValidationError::EventPastDuration { index: 1 },
        InputTraceValidationError::UndeclaredEvent {
            index: 1,
            event_type: 3,
            code: 0,
        },
    ] {
        assert_eq!(error.render(), format!("{error:?}"));
    }
}
