use ferrink::display_trace::{
    DisplayCompletionResult, DisplayObservation, DisplayPlanOpenMode, DisplayPreflight,
    DisplayRegion, DisplayStockHealth, DisplaySubmissionResult, DisplayTrace, DisplayTraceError,
    DisplayTraceValidationError, DisplayUpdateAbi, DisplayUpdateAbiKind, DisplayUpdateAttempt,
    DisplayUpdatePlan, DisplayWaitPlan, FramebufferFingerprint, FramebufferMemoryAccess,
    DISPLAY_TRACE_SCHEMA_VERSION, MAX_DISPLAY_TRACE_JSON_BYTES, MAX_DISPLAY_WAIT_MILLIS,
};
use ferrink::nonzero::{NonZeroU16, NonZeroU32, NonZeroU64};
use ferrink::probe::PixelLayout;
use ferrink::trace::characterization_redaction_metadata;
use ferrink::transform::{DisplayExtent, QuarterTurn};

fn non_zero(value: u32) -> NonZeroU32 {
    NonZeroU32::new(value).unwrap()
}

fn trace() -> DisplayTrace {
    DisplayTrace {
        schema_version: DISPLAY_TRACE_SCHEMA_VERSION,
        redaction: characterization_redaction_metadata(),
        profile_id: "synthetic-display-trace".to_owned(),
        framebuffer: FramebufferFingerprint {
            device: "/dev/fb0".to_owned(),
            driver_id: "mxc_epdc_fb".to_owned(),
            visible: DisplayExtent::try_new(1264, 1680).unwrap(),
            virtual_extent: DisplayExtent::try_new(1280, 3584).unwrap(),
            line_length: non_zero(1280),
            memory_length: non_zero(4_587_520),
            bits_per_pixel: non_zero(8),
            pixel_layout: PixelLayout::Grayscale8,
            rotation: QuarterTurn::Upright,
        },
        preflight: DisplayPreflight::NotPerformed,
        attempts: vec![DisplayUpdateAttempt {
            plan: DisplayUpdatePlan {
                open_mode: DisplayPlanOpenMode::ReadOnly,
                memory_access: FramebufferMemoryAccess::NoAccess,
                region: DisplayRegion {
                    x: 0,
                    y: 0,
                    width: non_zero(64),
                    height: non_zero(64),
                },
                abi: DisplayUpdateAbi {
                    kind: DisplayUpdateAbiKind::Zelda88,
                    request_size: non_zero(88),
                },
                request_ioctl: NonZeroU64::new(0x4058_462e).unwrap(),
                waveform_mode: 0,
                update_mode: 0,
                temperature: 0x1000,
                flags: 0,
                dither_mode: 0,
                quant_bit: 0,
                alternate_buffer_zeroed: true,
                histogram_modes: [0, 0],
                timestamps: [0, 0],
                marker: non_zero(1),
                wait: Some(DisplayWaitPlan {
                    timeout_millis: non_zero(1_000),
                }),
            },
            submission: DisplaySubmissionResult::Submitted,
            completion: Some(DisplayCompletionResult::Completed),
            observation: DisplayObservation::NotObserved,
        }],
        post_run_stock_health: DisplayStockHealth::NotChecked,
        warnings: Vec::new(),
    }
}

#[test]
fn validation_rejects_large_or_out_of_bounds_regions() {
    let mut trace = trace();
    trace.attempts[0].plan.region.width = non_zero(65);
    let errors = trace.validate().unwrap_err();
    assert!(errors.iter().any(|error| matches!(
        error,
        DisplayTraceValidationError::RegionAboveMaximum { .. }
    )));

    trace.attempts[0].plan.region = DisplayRegion {
        x: 1260,
        y: 0,
        width: non_zero(64),
        height: non_zero(64),
    };
    let errors = trace.validate().unwrap_err();
    assert!(errors.contains(&DisplayTraceValidationError::RegionOutOfBounds { index: 0 }));
}

#[test]
fn validation_rejects_abi_size_and_completion_contradictions() {
    let mut trace = trace();
    trace.attempts[0].plan.abi.request_size = non_zero(80);
    trace.attempts[0].plan.request_ioctl = NonZeroU64::new(0x4050_462e).unwrap();
    trace.attempts[0].submission = DisplaySubmissionResult::Error {
        errno: NonZeroU16::new(22).unwrap(),
    };
    let errors = trace.validate().unwrap_err();
    assert!(
        errors.contains(&DisplayTraceValidationError::InvalidRequestSize {
            index: 0,
            observed: 80,
            expected: 88
        })
    );
    assert!(
        errors.contains(&DisplayTraceValidationError::InvalidRequestIoctl {
            index: 0,
            observed: 0x4050_462e,
            expected: 0x4058_462e
        })
    );
    assert!(errors.contains(&DisplayTraceValidationError::InconsistentCompletion { index: 0 }));
}

#[test]
fn validation_rejects_invalid_stride_memory_and_wait_bounds() {
    let mut trace = trace();
    trace.framebuffer.line_length = non_zero(100);
    trace.framebuffer.memory_length = non_zero(100);
    trace.attempts[0].plan.wait = Some(DisplayWaitPlan {
        timeout_millis: non_zero(MAX_DISPLAY_WAIT_MILLIS + 1),
    });
    let errors = trace.validate().unwrap_err();
    assert!(errors.contains(&DisplayTraceValidationError::InvalidLineLength));
    assert!(errors.contains(&DisplayTraceValidationError::InvalidMemoryLength));
    assert!(
        errors
            .iter()
            .any(|error| matches!(error, DisplayTraceValidationError::WaitAboveMaximum { .. }))
    );
}

#[test]
fn validation_rejects_false_confirmed_preflight_condition() {
    let mut trace = trace();
    trace.preflight = DisplayPreflight::Confirmed {
        operator_present: true,
        stock_ui_healthy: true,
        maintenance_connection_healthy: true,
        power_adequate_and_awake: true,
        no_transition_or_update: true,
        output_ready: false,
        fresh_passive_report: true,
    };
    assert!(
        trace
            .validate()
            .unwrap_err()
            .contains(&DisplayTraceValidationError::IncompletePreflight)
    );
}

#[test]
fn display_trace_parser_rejects_unknown_fields_and_oversized_input() {
    assert!(matches!(
        DisplayTrace::from_parsed(Err("unknown field `framebuffer_dump`".to_owned())),
        Err(DisplayTraceError::Json(_))
    ));
    let oversized = " ".repeat(MAX_DISPLAY_TRACE_JSON_BYTES + 1);
    assert!(matches!(
        DisplayTrace::check_size(oversized.len()),
        Err(DisplayTraceError::InputTooLarge { .. })
    ));
}

#[test]
fn koa3_active_trace_preserves_accepted_submission_without_overclaiming_observation() {
    let mut trace = trace();
    trace.attempts[0].plan.wait = None;
    trace.attempts[0].completion = None;
    trace.attempts[0].observation = DisplayObservation::Uncertain;
    trace.post_run_stock_health = DisplayStockHealth::Healthy;
    let trace = DisplayTrace::from_parsed(Ok(trace)).unwrap();
    assert_eq!(trace.attempts.len(), 1);
    let attempt = &trace.attempts[0];

    assert_eq!(attempt.submission, DisplaySubmissionResult::Submitted);
    assert_eq!(attempt.observation, DisplayObservation::Uncertain);
    assert_eq!(trace.post_run_stock_health, DisplayStockHealth::Healthy);
    assert_eq!(attempt.plan.memory_access, FramebufferMemoryAccess::NoAccess);
    assert!(attempt.plan.wait.is_none());
    assert!(attempt.completion.is_none());
    assert!(trace.warnings.is_empty());
}

#[test]
fn every_violation_of_a_display_trace_is_reported_in_order() {
    let mut trace = trace();
    trace.schema_version = 2;
    trace.redaction.enabled = false;
    trace.redaction.policy = "other".to_owned();
    trace.profile_id = " ".to_owned();
    trace.framebuffer.device = "/dev/fb".to_owned();
    trace.framebuffer.virtual_extent = DisplayExtent::try_new(1263, 1680).unwrap();
    trace.attempts.clear();
    assert_eq!(
        trace.validate(),
        Err(vec![
            DisplayTraceValidationError::UnsupportedSchema { observed: 2 },
            DisplayTraceValidationError::RedactionDisabled,
            DisplayTraceValidationError::UnexpectedRedactionPolicy,
            DisplayTraceValidationError::InvalidProfileId,
            DisplayTraceValidationError::InvalidFramebufferPath,
            DisplayTraceValidationError::InvalidVirtualExtent,
            DisplayTraceValidationError::InvalidAttemptCount {
                observed: 0,
                required: 1,
            },
        ])
    );
}

#[test]
fn regions_cannot_wrap_around_the_coordinate_range() {
    let mut trace = trace();
    trace.attempts[0].plan.region.x = u32::MAX;
    assert!(trace
        .validate()
        .unwrap_err()
        .contains(&DisplayTraceValidationError::RegionOverflow { index: 0 }));
}

#[test]
fn update_layouts_pin_size_and_request_number() {
    for (kind, size, request) in [
        (DisplayUpdateAbiKind::Legacy72, 72, 0x4048_462e),
        (DisplayUpdateAbiKind::Rex80, 80, 0x4050_462e),
        (DisplayUpdateAbiKind::Zelda88, 88, 0x4058_462e),
    ] {
        assert_eq!(kind.expected_request_size(), size);
        assert_eq!(kind.expected_request_ioctl(), request);
    }
}

#[test]
fn display_trace_failures_are_described() {
    assert_eq!(
        DisplayTrace::check_size(65_537).unwrap_err().message(),
        "display trace is 65537 bytes; maximum is 65536"
    );
    assert_eq!(
        DisplayTrace::from_parsed(Err("expected value".to_owned()))
            .unwrap_err()
            .message(),
        "invalid display trace JSON: expected value"
    );
    let mut trace = trace();
    trace.redaction.excluded_categories.retain(|value| value != "key_text");
    trace.attempts[0].plan.region.width = non_zero(65);
    let message = DisplayTrace::from_parsed(Ok(trace)).unwrap_err().message();
    assert_eq!(
        message,
        "invalid display trace: [MissingRedactionCategory { category: \"key_text\" }, \
         RegionAboveMaximum { index: 0, pixels: 4160, maximum: 4096 }]"
    );
}

#[test]
fn display_renderings_agree_with_the_debug_format() {
    for error in [
        DisplayTraceValidationError::UnsupportedSchema { observed: 2 },
        DisplayTraceValidationError::RedactionDisabled,
        DisplayTraceValidationError::UnexpectedRedactionPolicy,
        DisplayTraceValidationError::MissingRedactionCategory { category: "x" },
        DisplayTraceValidationError::InvalidProfileId,
        DisplayTraceValidationError::InvalidFramebufferPath,
        DisplayTraceValidationError::InvalidVirtualExtent,
        DisplayTraceValidationError::InvalidLineLength,
        DisplayTraceValidationError::InvalidMemoryLength,
        DisplayTraceValidationError::InvalidAttemptCount {
            observed: 0,
            required: 1,
        },
        DisplayTraceValidationError::RegionOverflow { index: 0 },
        DisplayTraceValidationError::RegionOutOfBounds { index: 0 },
        DisplayTraceValidationError::RegionAboveMaximum {
            index: 0,
            pixels: 2,
            maximum: 1,
        },
        DisplayTraceValidationError::InvalidRequestSize {
            index: 0,
            observed: 2,
            expected: 1,
        },
        DisplayTraceValidationError::InvalidRequestIoctl {
            index: 0,
            observed: 2,
            expected: 1,
        },
        DisplayTraceValidationError::IncompletePreflight,
        DisplayTraceValidationError::WaitAboveMaximum {
            index: 0,
            observed: 2,
            maximum: 1,
        },
        DisplayTraceValidationError::InconsistentCompletion { index: 0 },
    ] {
        assert_eq!(error.render(), format!("{error:?}"));
    }
}
