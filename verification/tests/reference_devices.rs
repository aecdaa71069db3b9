use ferrink::active_display_plan::{
    ActiveDisplayEvidenceMatch, ActiveDisplayPlan, ActiveDisplayPlanError,
    ActiveDisplayPlanValidationError, ActiveDisplayRequestPlan,
    ACTIVE_DISPLAY_PLAN_SCHEMA_VERSION, MAX_ACTIVE_DISPLAY_PLAN_JSON_BYTES,
    REFERENCE_PORTRAIT_DISPLAY_MECHANISM_PLAN_ID, REFERENCE_PORTRAIT_DISPLAY_MECHANISM_PROFILE_ID,
};
use ferrink::display_trace::{
    DisplayPlanOpenMode, DisplayRegion, DisplayUpdateAbi, DisplayUpdateAbiKind,
    FramebufferMemoryAccess,
};
use ferrink::framebuffer::Gray8FramebufferLayout;
use ferrink::input_event::InputEventDecoder;
use ferrink::inputs::axis_name;
use ferrink::nonzero::{NonZeroU32, NonZeroU64};
use ferrink::probe::{
    ArmFloatAbi, DeviceIdentity, ElfAbi, ElfClass, Endianness, FramebufferCapability,
    InputAxisCapability, InputDeviceCapability, InputDeviceId, InputEventAbi, PixelBitfield,
    PixelLayout, PowerCapability, ProbeReport, ProbeWarning, RedactionMetadata, ServiceCapability,
    SourcedValue, StorageCapability, SuspendCapability, SystemCapability, UserlandFloatAbi,
    UserstoreCapability, PROBE_SCHEMA_VERSION,
};
use ferrink::profile::{
    CapabilityRequirements, DeviceProfile, DisplayMatch, EvidenceLevel, IdentityMatch,
    ProfileEvaluationStatus, ProfileEvidence, ProfileParseError, ProfileReviewStatus,
    RuntimeFramebufferSelection, RuntimeRefreshSelection, RuntimeSelection, RuntimeTouchSelection,
    StockRepaintMechanism, PROFILE_SCHEMA_VERSION,
};
use ferrink::redaction::REDACTION_POLICY;
use ferrink::refresh::RefreshMode;
use ferrink::runtime::{ResolvedRuntimeDevice, RuntimeAuthority, RuntimeResolutionError};
use ferrink::string_map::StringMap;
use ferrink::trace::{LogicalTouchPhase, TouchTracker};
use ferrink::transform::{DisplayPoint, QuarterTurn, RawPoint};

fn non_zero(value: u32) -> NonZeroU32 {
    NonZeroU32::new(value).unwrap()
}

fn redaction() -> RedactionMetadata {
    RedactionMetadata {
        enabled: true,
        policy: REDACTION_POLICY.to_owned(),
        excluded_categories: [
            "full_serial_numbers",
            "network_credentials_and_ssids",
            "tokens_and_account_data",
            "ssh_keys",
            "document_names",
            "process_command_lines",
        ]
        .iter()
        .map(|category| (*category).to_owned())
        .collect(),
    }
}

fn identity(prefix: &str) -> DeviceIdentity {
    DeviceIdentity {
        serial_prefix: Some(prefix.to_owned()),
        serial_redacted: Some(format!("{prefix}…REDACTED")),
        serial_source: Some("/proc/usid".to_owned()),
        model_hint: None,
    }
}

fn system(kernel_release: &str) -> SystemCapability {
    SystemCapability {
        firmware: vec![SourcedValue {
            source: "/etc/prettyversion.txt".to_owned(),
            value: "Test 0.0.1-test".to_owned(),
        }],
        kernel_release: Some(kernel_release.to_owned()),
        machine: Some("armv7l".to_owned()),
        compiled_architecture: "arm".to_owned(),
        available_dynamic_loaders: vec!["/lib/ld-linux-armhf.so.3".to_owned()],
        userland_float_abi: UserlandFloatAbi::Hard,
        input_event_abi: InputEventAbi {
            pointer_width_bits: 32,
            libc_timeval_bytes: 8,
            libc_input_event_bytes: 16,
        },
        cpu_fields: StringMap::new(),
        executable_abi: Some(ElfAbi {
            class: ElfClass::Elf32,
            endianness: Endianness::Little,
            machine: 40,
            flags: 0x0500_0400,
            arm_eabi_version: Some(5),
            arm_float_abi: Some(ArmFloatAbi::Hard),
        }),
    }
}

fn gray_field() -> PixelBitfield {
    PixelBitfield {
        offset: 0,
        length: 8,
        msb_right: 0,
    }
}

fn empty_field() -> PixelBitfield {
    PixelBitfield {
        offset: 0,
        length: 0,
        msb_right: 0,
    }
}

fn koa3_framebuffer() -> FramebufferCapability {
    FramebufferCapability {
        device: "/dev/fb0".to_owned(),
        driver_id: "mxc_epdc_fb".to_owned(),
        visible_width: 1264,
        visible_height: 1680,
        virtual_width: 1280,
        virtual_height: 3584,
        x_offset: 0,
        y_offset: 0,
        line_length: 1280,
        memory_length: 4_587_520,
        bits_per_pixel: 8,
        grayscale: 1,
        pixel_layout: PixelLayout::Grayscale8,
        rotation: 0,
        red: gray_field(),
        green: gray_field(),
        blue: gray_field(),
        transparency: empty_field(),
    }
}

fn pw1_framebuffer() -> FramebufferCapability {
    FramebufferCapability {
        visible_width: 758,
        visible_height: 1024,
        virtual_width: 768,
        virtual_height: 6144,
        line_length: 768,
        memory_length: 4_718_592,
        rotation: 3,
        ..koa3_framebuffer()
    }
}

fn axis(code: u16, maximum: i32) -> InputAxisCapability {
    InputAxisCapability {
        code,
        name: axis_name(code),
        minimum: 0,
        maximum,
        fuzz: 0,
        flat: 0,
        resolution: 0,
    }
}

fn touch(device: &str, name: &str, axes: Vec<InputAxisCapability>) -> InputDeviceCapability {
    InputDeviceCapability {
        device: device.to_owned(),
        name: Some(name.to_owned()),
        id: InputDeviceId::default(),
        capabilities: StringMap::new(),
        axes,
    }
}

fn report(
    prefix: &str,
    kernel_release: &str,
    framebuffer: FramebufferCapability,
    input: InputDeviceCapability,
) -> ProbeReport {
    ProbeReport {
        schema_version: PROBE_SCHEMA_VERSION,
        probe_version: "0.0.1".to_owned(),
        captured_at_unix_seconds: 1_700_000_000,
        redaction: redaction(),
        identity: identity(prefix),
        system: system(kernel_release),
        framebuffers: vec![framebuffer],
        inputs: vec![input],
        power: PowerCapability {
            rtcs: Vec::new(),
            suspend: SuspendCapability {
                state_path: None,
                states: Vec::new(),
                mem_sleep_path: None,
                mem_sleep_modes: Vec::new(),
            },
            power_supplies: Vec::new(),
            front_lights: Vec::new(),
            legacy_battery_nodes: Vec::new(),
            hall_sensor_nodes: Vec::new(),
            deep_sleep_nodes: Vec::new(),
        },
        services: ServiceCapability {
            lipc_getter: None,
            lipc_properties: Vec::new(),
            upstart_jobs: Vec::new(),
            sysv_scripts: Vec::new(),
        },
        storage: StorageCapability {
            mounts: Vec::new(),
            filesystems: Vec::new(),
            userstore: UserstoreCapability {
                path: "/mnt/us".to_owned(),
                exists: true,
                mounted: true,
                read_only: Some(false),
            },
        },
        processes: Vec::new(),
        warnings: Vec::new(),
    }
}

fn koa3_report() -> ProbeReport {
    report(
        "TEST",
        "reference-kernel-portrait",
        koa3_framebuffer(),
        touch(
            "/dev/input/event8",
            "cyttsp5_mt",
            vec![
                axis(47, 9),
                axis(53, 1263),
                axis(54, 1679),
                axis(57, 65_535),
                axis(58, 255),
            ],
        ),
    )
}

fn pw1_report() -> ProbeReport {
    report(
        "DEMO",
        "reference-kernel-landscape",
        pw1_framebuffer(),
        touch(
            "/dev/input/event0",
            "cyttsp",
            vec![
                axis(0, 758),
                axis(1, 1024),
                axis(47, 1),
                axis(53, 758),
                axis(54, 1024),
                axis(57, 65_535),
            ],
        ),
    )
}

fn koa3_profile() -> DeviceProfile {
    DeviceProfile {
        schema_version: PROFILE_SCHEMA_VERSION,
        id: "reference-portrait".to_owned(),
        display_name: "Reference portrait".to_owned(),
        review_status: ProfileReviewStatus::ObservedForeground,
        identity: IdentityMatch {
            serial_prefixes: vec!["TEST".to_owned()],
            firmware_versions: vec!["0.0.1-test".to_owned()],
        },
        display: DisplayMatch {
            width: 1264,
            height: 1680,
            bits_per_pixel: 8,
            pixel_layout: Some(PixelLayout::Grayscale8),
            rotation: Some(0),
            epdc_update_abi: Some("zelda-88".to_owned()),
        },
        requirements: CapabilityRequirements {
            multitouch_axes: true,
            rtc_wakealarm: false,
            suspend_to_mem: false,
        },
        runtime: Some(RuntimeSelection {
            framebuffer: RuntimeFramebufferSelection {
                driver_id: "mxc_epdc_fb".to_owned(),
            },
            touch: RuntimeTouchSelection {
                name: "cyttsp5_mt".to_owned(),
                x_axis_code: 53,
                y_axis_code: 54,
                swap_xy: false,
                invert_x: false,
                invert_y: false,
                rotation: QuarterTurn::Upright,
            },
            refresh: Some(RuntimeRefreshSelection {
                update_abi: DisplayUpdateAbiKind::Zelda88,
                partial: true,
                full: true,
                maximum_completion_wait_millis: None,
            }),
            stock_repaint: Some(StockRepaintMechanism::XrefreshDisplay0),
        }),
        evidence: ProfileEvidence {
            level: EvidenceLevel::Observed,
            source: "docs/reference".to_owned(),
            notes: Vec::new(),
        },
    }
}

fn pw1_profile() -> DeviceProfile {
    let koa3 = koa3_profile();
    DeviceProfile {
        id: "reference-landscape".to_owned(),
        display_name: "Reference landscape".to_owned(),
        identity: IdentityMatch {
            serial_prefixes: vec!["DEMO".to_owned()],
            firmware_versions: vec!["0.0.1-test".to_owned()],
        },
        display: DisplayMatch {
            width: 758,
            height: 1024,
            rotation: Some(3),
            epdc_update_abi: None,
            ..koa3.display
        },
        runtime: Some(RuntimeSelection {
            framebuffer: RuntimeFramebufferSelection {
                driver_id: "mxc_epdc_fb".to_owned(),
            },
            touch: RuntimeTouchSelection {
                name: "cyttsp".to_owned(),
                x_axis_code: 53,
                y_axis_code: 54,
                swap_xy: false,
                invert_x: false,
                invert_y: false,
                rotation: QuarterTurn::Upright,
            },
            refresh: None,
            stock_repaint: None,
        }),
        ..koa3
    }
}

fn plan() -> ActiveDisplayPlan {
    ActiveDisplayPlan {
        schema_version: ACTIVE_DISPLAY_PLAN_SCHEMA_VERSION,
        plan_id: REFERENCE_PORTRAIT_DISPLAY_MECHANISM_PLAN_ID.to_owned(),
        single_use: true,
        profile_id: REFERENCE_PORTRAIT_DISPLAY_MECHANISM_PROFILE_ID.to_owned(),
        evidence: ActiveDisplayEvidenceMatch {
            probe_version: "0.0.1".to_owned(),
            serial_prefix: "TEST".to_owned(),
            firmware_contains: "0.0.1-test".to_owned(),
            kernel_release: "reference-kernel-portrait".to_owned(),
            machine: "armv7l".to_owned(),
            input_event_abi: InputEventAbi {
                pointer_width_bits: 32,
                libc_timeval_bytes: 8,
                libc_input_event_bytes: 16,
            },
            framebuffer: koa3_framebuffer(),
        },
        output_parent: "/mnt/us/ferrink/evidence".to_owned(),
        request: ActiveDisplayRequestPlan {
            device: "/dev/fb0".to_owned(),
            open_mode: DisplayPlanOpenMode::ReadOnly,
            memory_access: FramebufferMemoryAccess::NoAccess,
            request_ioctl: NonZeroU64::new(0x4058_462e).unwrap(),
            region: DisplayRegion {
                x: 600,
                y: 808,
                width: non_zero(64),
                height: non_zero(64),
            },
            abi: DisplayUpdateAbi {
                kind: DisplayUpdateAbiKind::Zelda88,
                request_size: non_zero(88),
            },
            waveform_mode: 257,
            update_mode: 0,
            marker: non_zero(0x464b_0001),
            temperature: 0x1000,
            flags: 0,
            dither_mode: 0,
            quant_bit: 0,
            alternate_buffer_zeroed: true,
            histogram_modes: [0, 0],
            timestamps: [0, 0],
            completion_wait_millis: None,
            maximum_attempts: non_zero(1),
        },
    }
}

fn first_layout(report: ProbeReport) -> Gray8FramebufferLayout {
    Gray8FramebufferLayout::try_from_capability(&report.framebuffers[0]).unwrap()
}

#[test]
fn exact_koa3_fixture_builds_the_reviewed_gray8_layout() {
    let layout = first_layout(koa3_report());

    assert_eq!(layout.visible().width(), 1264);
    assert_eq!(layout.visible().height(), 1680);
    assert_eq!(layout.virtual_extent().width(), 1280);
    assert_eq!(layout.virtual_extent().height(), 3584);
    assert_eq!(layout.x_offset(), 0);
    assert_eq!(layout.y_offset(), 0);
    assert_eq!(layout.line_length(), 1280);
    assert_eq!(layout.memory_length(), 4_587_520);
}

#[test]
fn exact_pw1_fixture_builds_the_reviewed_gray8_layout() {
    let layout = first_layout(pw1_report());

    assert_eq!(layout.visible().width(), 758);
    assert_eq!(layout.visible().height(), 1024);
    assert_eq!(layout.virtual_extent().width(), 768);
    assert_eq!(layout.virtual_extent().height(), 6144);
    assert_eq!(layout.x_offset(), 0);
    assert_eq!(layout.y_offset(), 0);
    assert_eq!(layout.line_length(), 768);
    assert_eq!(layout.memory_length(), 4_718_592);
}

fn decoder_from_report(report: ProbeReport) -> InputEventDecoder {
    let executable = report.system.executable_abi.unwrap();
    assert_eq!(executable.endianness, Endianness::Little);
    InputEventDecoder::try_new(
        report.system.input_event_abi,
        executable.endianness,
        non_zero(16),
    )
    .unwrap()
}

#[test]
fn exact_koa3_fixture_selects_the_reviewed_sixteen_byte_input_event_layout() {
    let decoder = decoder_from_report(koa3_report());
    assert_eq!(decoder.record_bytes(), 16);
}

#[test]
fn exact_pw1_fixture_selects_the_reviewed_sixteen_byte_input_event_layout() {
    let decoder = decoder_from_report(pw1_report());
    assert_eq!(decoder.record_bytes(), 16);
}

#[test]
fn exact_koa3_decoded_records_feed_the_incremental_touch_tracker() {
    let profile = koa3_profile();
    let report = koa3_report();
    let device = ResolvedRuntimeDevice::resolve(&profile, &report).unwrap();
    let mut decoder = InputEventDecoder::try_new(
        device.input_event_abi(),
        device.input_endianness(),
        non_zero(4),
    )
    .unwrap();
    let mut tracker = TouchTracker::new(device.input_transform());

    let mut bytes = Vec::new();
    bytes.extend_from_slice(&record32(1, 0, 3, 53, 100));
    bytes.extend_from_slice(&record32(1, 1, 3, 54, 200));
    bytes.extend_from_slice(&record32(1, 2, 3, 57, 7));
    bytes.extend_from_slice(&record32(1, 3, 0, 0, 0));

    let mut contacts = Vec::new();
    for chunk in [&bytes[..5], &bytes[5..22], &bytes[22..]] {
        for event in decoder.push(chunk).unwrap() {
            if let Some(contact) = tracker
                .push(event.event_type, event.code, event.value)
                .unwrap()
            {
                contacts.push(contact);
            }
        }
    }

    assert_eq!(decoder.decoded_records(), 4);
    assert_eq!(decoder.partial_bytes(), 0);
    assert_eq!(contacts.len(), 1);
    assert_eq!(contacts[0].phase, LogicalTouchPhase::Pressed);
    assert_eq!(contacts[0].point.x, 100);
    assert_eq!(contacts[0].point.y, 200);
}

fn record32(seconds: i32, microseconds: i32, event_type: u16, code: u16, value: i32) -> [u8; 16] {
    let mut record = [0; 16];
    record[0..4].copy_from_slice(&seconds.to_le_bytes());
    record[4..8].copy_from_slice(&microseconds.to_le_bytes());
    record[8..10].copy_from_slice(&event_type.to_le_bytes());
    record[10..12].copy_from_slice(&code.to_le_bytes());
    record[12..16].copy_from_slice(&value.to_le_bytes());
    record
}

#[test]
fn known_koa3_shape_matches_only_the_reviewed_identity() {
    let report = koa3_report();
    report.validate().unwrap();
    let profile = koa3_profile();
    let evaluation = profile.evaluate(&report);
    assert_eq!(evaluation.status, ProfileEvaluationStatus::Match);
    assert!(evaluation.missing.is_empty());
    assert!(evaluation.mismatches.is_empty());
}

#[test]
fn observed_koa3_axes_contain_only_advertised_touch_codes() {
    let report = koa3_report();
    let touch = report
        .inputs
        .iter()
        .find(|input| input.name.as_deref() == Some("cyttsp5_mt"))
        .expect("observed KOA3 fixture must contain its touchscreen");
    let codes = touch.axes.iter().map(|axis| axis.code).collect::<Vec<_>>();

    assert_eq!(codes, vec![47, 53, 54, 57, 58]);
    assert!(report.warnings.is_empty());
}

#[test]
fn known_pw1_shape_matches_only_the_reviewed_identity() {
    let report = pw1_report();
    report.validate().unwrap();
    assert_eq!(report.framebuffers[0].visible_width, 758);
    assert_eq!(report.framebuffers[0].visible_height, 1024);

    let profile = pw1_profile();
    let evaluation = profile.evaluate(&report);
    assert_eq!(evaluation.status, ProfileEvaluationStatus::Match);
    assert!(evaluation.missing.is_empty());
    assert!(evaluation.mismatches.is_empty());
}

#[test]
fn pw1_geometry_without_identity_fails_closed() {
    let mut report = pw1_report();
    report.identity.serial_prefix = None;
    let profile = pw1_profile();
    let evaluation = profile.evaluate(&report);
    assert_eq!(
        evaluation.status,
        ProfileEvaluationStatus::MissingCapabilities
    );
    assert!(
        evaluation
            .missing
            .contains(&"identity.serial_prefix".to_owned())
    );
}

#[test]
fn observed_pw1_axes_contain_only_advertised_touch_codes() {
    let report = pw1_report();
    let touch = report
        .inputs
        .iter()
        .find(|input| input.name.as_deref() == Some("cyttsp"))
        .expect("observed PW1 fixture must contain its touchscreen");
    let codes = touch.axes.iter().map(|axis| axis.code).collect::<Vec<_>>();

    assert_eq!(codes, vec![0, 1, 47, 53, 54, 57]);
    assert!(report.warnings.is_empty());
}

#[test]
fn missing_touch_capabilities_fail_closed() {
    let mut report = koa3_report();
    report.inputs.clear();
    let profile = koa3_profile();
    let evaluation = profile.evaluate(&report);
    assert_eq!(
        evaluation.status,
        ProfileEvaluationStatus::MissingCapabilities
    );
    assert!(
        evaluation
            .missing
            .contains(&"input.abs_mt_position_x_y".to_owned())
    );
}

#[test]
fn runtime_extension_is_optional_to_parse_but_strict_when_present() {
    let profile = koa3_profile();
    assert!(profile.runtime.is_some());

    let mut historical = profile.clone();
    historical.runtime = None;
    historical.validate().unwrap();

    let mut duplicate_axes = profile.clone();
    if let Some(runtime) = duplicate_axes.runtime.as_mut() {
        runtime.touch.y_axis_code = 53;
    }
    assert!(matches!(
        DeviceProfile::from_parsed(Ok(duplicate_axes)),
        Err(ProfileParseError::Validation(_))
    ));
    let mut wrong_abi = profile.clone();
    if let Some(refresh) = wrong_abi
        .runtime
        .as_mut()
        .and_then(|runtime| runtime.refresh.as_mut())
    {
        refresh.update_abi = DisplayUpdateAbiKind::Rex80;
    }
    assert!(matches!(
        DeviceProfile::from_parsed(Ok(wrong_abi)),
        Err(ProfileParseError::Validation(_))
    ));
}

#[test]
fn fixture_identity_is_redacted_and_unredacted_reports_are_invalid() {
    let mut report = koa3_report();
    assert_eq!(report.identity.serial_prefix.as_deref(), Some("TEST"));
    assert_eq!(
        report.identity.serial_redacted.as_deref(),
        Some("TEST…REDACTED")
    );
    report.identity.serial_redacted = Some("TEST123456789012".to_owned());
    assert!(report.validate().is_err());

    let mut report = koa3_report();
    report.redaction.enabled = false;
    assert!(report.validate().is_err());

    let report = pw1_report();
    assert_eq!(report.identity.serial_prefix.as_deref(), Some("DEMO"));
    assert_eq!(
        report.identity.serial_redacted.as_deref(),
        Some("DEMO…REDACTED")
    );
}

#[test]
fn malformed_reports_and_profiles_are_rejected() {
    assert!(matches!(
        DeviceProfile::from_parsed(Err("invalid type: string \"wide\"".to_owned())),
        Err(ProfileParseError::Toml(_))
    ));
    let wrong_version = DeviceProfile {
        schema_version: 99,
        ..koa3_profile()
    };
    assert!(matches!(
        DeviceProfile::from_parsed(Ok(wrong_version)),
        Err(ProfileParseError::Validation(_))
    ));
}

#[test]
fn exact_koa3_pair_resolves_foreground_display_input_and_refresh() {
    let device = ResolvedRuntimeDevice::resolve(&koa3_profile(), &koa3_report()).unwrap();

    assert_eq!(device.profile_id(), "reference-portrait");
    assert_eq!(device.authority(), RuntimeAuthority::ForegroundOnly);
    assert_eq!(device.framebuffer_path(), "/dev/fb0");
    assert_eq!(device.framebuffer_layout().visible().width(), 1264);
    assert_eq!(device.framebuffer_layout().line_length(), 1280);
    assert_eq!(device.framebuffer_rotation(), QuarterTurn::Upright);
    assert_eq!(device.input_path(), "/dev/input/event8");
    assert_eq!(device.input_name(), "cyttsp5_mt");
    assert_eq!(device.input_event_abi().libc_input_event_bytes, 16);
    assert_eq!(device.input_transform().output_extent().width(), 1264);
    assert_eq!(
        device
            .input_transform()
            .map(RawPoint { x: 1263, y: 1679 })
            .unwrap(),
        DisplayPoint { x: 1263, y: 1679 }
    );
    let refresh = device.refresh().unwrap();
    assert_eq!(refresh.update_abi(), DisplayUpdateAbiKind::Zelda88);
    assert!(refresh.capabilities().supports(RefreshMode::Partial));
    assert!(refresh.capabilities().supports(RefreshMode::Full));
    assert!(
        refresh
            .capabilities()
            .maximum_completion_wait_millis()
            .is_none()
    );
    assert_eq!(
        device.stock_repaint(),
        Some(StockRepaintMechanism::XrefreshDisplay0)
    );
}

#[test]
fn exact_pw1_pair_resolves_upright_touch_without_unproved_refresh() {
    let device = ResolvedRuntimeDevice::resolve(&pw1_profile(), &pw1_report()).unwrap();

    assert_eq!(device.profile_id(), "reference-landscape");
    assert_eq!(device.authority(), RuntimeAuthority::ForegroundOnly);
    assert_eq!(device.framebuffer_path(), "/dev/fb0");
    assert_eq!(device.framebuffer_layout().visible().width(), 758);
    assert_eq!(device.framebuffer_layout().line_length(), 768);
    assert_eq!(device.framebuffer_rotation(), QuarterTurn::CounterClockwise);
    assert_eq!(device.input_path(), "/dev/input/event0");
    assert_eq!(device.input_name(), "cyttsp");
    assert_eq!(device.input_transform().output_extent().width(), 758);
    assert_eq!(
        device
            .input_transform()
            .map(RawPoint { x: 758, y: 1024 })
            .unwrap(),
        DisplayPoint { x: 757, y: 1023 }
    );
    assert!(device.refresh().is_none());
}

#[test]
fn historical_profile_without_runtime_policy_parses_but_cannot_resolve() {
    let mut profile = koa3_profile();
    profile.runtime = None;
    let report = koa3_report();

    assert_eq!(
        ResolvedRuntimeDevice::resolve(&profile, &report),
        Err(RuntimeResolutionError::RuntimePolicyMissing)
    );
}

#[test]
fn identity_mismatch_and_probe_warnings_fail_before_selection() {
    let profile = koa3_profile();
    let mut report = koa3_report();
    report.identity.serial_prefix = Some("DEMO".to_owned());
    assert!(matches!(
        ResolvedRuntimeDevice::resolve(&profile, &report),
        Err(RuntimeResolutionError::ProfileDidNotMatch(evaluation))
            if evaluation.status == ProfileEvaluationStatus::Mismatch
    ));

    let mut report = koa3_report();
    report.warnings.push(ProbeWarning {
        subsystem: "test".to_owned(),
        code: "forced".to_owned(),
        message: "synthetic warning".to_owned(),
    });
    assert_eq!(
        ResolvedRuntimeDevice::resolve(&profile, &report),
        Err(RuntimeResolutionError::ProbeWarningsPresent { count: 1 })
    );
}

#[test]
fn duplicate_framebuffer_or_touch_identity_is_rejected_as_ambiguous() {
    let profile = koa3_profile();
    let mut report = koa3_report();
    report.framebuffers.push(report.framebuffers[0].clone());
    assert_eq!(
        ResolvedRuntimeDevice::resolve(&profile, &report),
        Err(RuntimeResolutionError::FramebufferAmbiguous { count: 2 })
    );

    let mut report = koa3_report();
    let touch = report
        .inputs
        .iter()
        .find(|input| input.name.as_deref() == Some("cyttsp5_mt"))
        .unwrap()
        .clone();
    report.inputs.push(touch);
    assert_eq!(
        ResolvedRuntimeDevice::resolve(&profile, &report),
        Err(RuntimeResolutionError::TouchAmbiguous { count: 2 })
    );
}

#[test]
fn missing_axis_invalid_path_and_missing_executable_abi_fail_closed() {
    let mut profile = koa3_profile();
    profile.requirements.multitouch_axes = false;
    let mut report = koa3_report();
    let touch = report
        .inputs
        .iter_mut()
        .find(|input| input.name.as_deref() == Some("cyttsp5_mt"))
        .unwrap();
    touch.axes.retain(|axis| axis.code != 54);
    assert_eq!(
        ResolvedRuntimeDevice::resolve(&profile, &report),
        Err(RuntimeResolutionError::TouchAxisNotFound { code: 54 })
    );

    let profile = koa3_profile();
    let mut report = koa3_report();
    let touch = report
        .inputs
        .iter_mut()
        .find(|input| input.name.as_deref() == Some("cyttsp5_mt"))
        .unwrap();
    touch.device = "/tmp/event8".to_owned();
    assert_eq!(
        ResolvedRuntimeDevice::resolve(&profile, &report),
        Err(RuntimeResolutionError::InvalidInputPath)
    );

    let mut report = koa3_report();
    report.system.executable_abi = None;
    assert_eq!(
        ResolvedRuntimeDevice::resolve(&profile, &report),
        Err(RuntimeResolutionError::ExecutableAbiMissing)
    );
}

#[test]
fn evidence_pending_and_unsupported_input_abi_cannot_resolve() {
    let mut profile = koa3_profile();
    profile.review_status = ProfileReviewStatus::EvidencePending;
    let report = koa3_report();
    assert_eq!(
        ResolvedRuntimeDevice::resolve(&profile, &report),
        Err(RuntimeResolutionError::ProfileEvidencePending)
    );

    let profile = koa3_profile();
    let mut report = koa3_report();
    report.system.input_event_abi.libc_input_event_bytes = 20;
    assert!(matches!(
        ResolvedRuntimeDevice::resolve(&profile, &report),
        Err(RuntimeResolutionError::InputEventAbi(_))
    ));
}

#[test]
fn exact_plan_and_passive_evidence_validate_offline() {
    let plan = plan();
    plan.validate_against(&koa3_profile(), &koa3_report()).unwrap();
    assert_eq!(
        ActiveDisplayPlan::from_parsed(Ok(plan.clone())).unwrap(),
        plan
    );
}

#[test]
fn definition_rejects_request_substitution_and_waits() {
    let mut plan = plan();
    plan.request.update_mode = 1;
    plan.request.completion_wait_millis = NonZeroU32::new(1_000);
    let errors = plan.validate_definition().unwrap_err();
    assert!(has_mismatch(&errors, "request.update_mode"));
    assert!(has_mismatch(&errors, "request.completion_wait_millis"));
}

#[test]
fn evidence_rejects_firmware_abi_geometry_and_warnings() {
    let mut report = koa3_report();
    report.system.firmware.clear();
    report.system.input_event_abi.libc_input_event_bytes = 24;
    report.framebuffers[0].line_length = 1264;
    report.warnings.push(ProbeWarning {
        subsystem: "future".to_owned(),
        code: "unknown".to_owned(),
        message: "must fail closed".to_owned(),
    });

    let errors = plan().validate_against(&koa3_profile(), &report).unwrap_err();
    assert!(has_mismatch(&errors, "report.system.firmware"));
    assert!(has_mismatch(&errors, "report.system.input_event_abi"));
    assert!(has_mismatch(&errors, "report.framebuffers[/dev/fb0]"));
    assert!(errors.iter().any(|error| matches!(
        error,
        ActiveDisplayPlanValidationError::ProbeWarningsPresent { count: 1 }
    )));
}

#[test]
fn evidence_rejects_profile_abi_substitution() {
    let mut profile = koa3_profile();
    profile.display.epdc_update_abi = Some("rex-80".to_owned());
    let errors = plan().validate_against(&profile, &koa3_report()).unwrap_err();
    assert!(has_mismatch(&errors, "profile.display.epdc_update_abi"));
}

#[test]
fn active_display_plan_parser_rejects_unknown_fields_and_oversized_input() {
    assert!(matches!(
        ActiveDisplayPlan::from_parsed(Err("unknown field `execute`".to_owned())),
        Err(ActiveDisplayPlanError::Json(_))
    ));

    let oversized = " ".repeat(MAX_ACTIVE_DISPLAY_PLAN_JSON_BYTES + 1);
    assert!(matches!(
        ActiveDisplayPlan::check_size(oversized.len()),
        Err(ActiveDisplayPlanError::InputTooLarge { .. })
    ));
}

fn has_mismatch(errors: &[ActiveDisplayPlanValidationError], field: &str) -> bool {
    errors.iter().any(|error| {
        matches!(
            error,
            ActiveDisplayPlanValidationError::Mismatch {
                field: observed,
                ..
            } if *observed == field
        )
    })
}

#[test]
fn every_violation_of_a_profile_is_reported_in_order() {
    let mut profile = koa3_profile();
    profile.schema_version = 2;
    profile.id = "Upper".to_owned();
    profile.identity.serial_prefixes.clear();
    profile.display.width = 0;
    profile.display.bits_per_pixel = 0;
    if let Some(runtime) = profile.runtime.as_mut() {
        runtime.framebuffer.driver_id = "a b".to_owned();
        runtime.touch.name.clear();
        runtime.touch.x_axis_code = 54;
        if let Some(refresh) = runtime.refresh.as_mut() {
            refresh.partial = false;
            refresh.full = false;
            refresh.update_abi = DisplayUpdateAbiKind::Legacy72;
        }
    }
    let errors = profile.validate().unwrap_err();
    assert_eq!(
        errors,
        [
            "unsupported profile schema version 2",
            "profile id must use lowercase ASCII letters, digits, '-' or '_'",
            "at least one reviewed serial prefix is required",
            "profile display geometry must be non-zero",
            "profile bits_per_pixel must be non-zero",
            "runtime framebuffer driver_id must use 1-64 ASCII letters, digits, or '_'",
            "runtime touch name must be 1-128 non-control characters",
            "runtime touch X and Y axis codes must differ",
            "runtime refresh must enable partial or full updates",
            "runtime refresh ABI legacy-72 does not match profile display ABI",
        ]
    );
    let message = DeviceProfile::from_parsed(Ok(profile)).unwrap_err().message();
    assert!(message.starts_with("invalid profile: unsupported profile schema version 2; profile"));
    assert_eq!(
        DeviceProfile::from_parsed(Err("bad".to_owned()))
            .unwrap_err()
            .message(),
        "invalid TOML: bad"
    );
}

#[test]
fn evaluations_tell_what_is_missing_and_what_contradicts() {
    let mut profile = koa3_profile();
    profile.requirements.rtc_wakealarm = true;
    profile.requirements.suspend_to_mem = true;
    let mut report = koa3_report();
    report.identity.serial_prefix = None;
    report.system.firmware.clear();
    report.framebuffers.clear();
    report.inputs.clear();
    let evaluation = profile.evaluate(&report);
    assert_eq!(
        evaluation.status,
        ProfileEvaluationStatus::MissingCapabilities
    );
    assert_eq!(
        evaluation.missing,
        [
            "identity.serial_prefix",
            "system.firmware",
            "framebuffers",
            "input.abs_mt_position_x_y",
            "power.rtc_wakealarm",
            "power.suspend_mem",
        ]
    );
    let mut report = koa3_report();
    report.identity.serial_prefix = Some("OTHER".to_owned());
    report.system.firmware[0].value = "9.9".to_owned();
    report.framebuffers[0].rotation = 1;
    assert_eq!(
        koa3_profile().evaluate(&report).mismatches,
        [
            "serial prefix OTHER is not reviewed",
            "firmware is not reviewed by this profile",
            "framebuffer geometry or pixel capability does not match",
        ]
    );
}

#[test]
fn every_violation_of_a_report_is_reported_in_order() {
    let mut report = koa3_report();
    report.schema_version = 2;
    report.redaction.enabled = false;
    report.identity.serial_prefix = Some("TOOLONG".to_owned());
    report.identity.serial_redacted = Some("VERYVISIBLE…REDACTED".to_owned());
    report.framebuffers[0].visible_height = 0;
    report.framebuffers[0].line_length = 1_263;
    assert_eq!(
        report.validate().unwrap_err(),
        [
            "unsupported probe schema version 2",
            "probe report redaction must be enabled",
            "serial prefix is not a short alphanumeric prefix",
            "serial identity is not in the required redacted form",
            "/dev/fb0 has zero visible geometry",
            "/dev/fb0 line_length 1263 is smaller than minimum 1264",
        ]
    );
}

fn resolution(profile: &DeviceProfile, report: &ProbeReport) -> String {
    ResolvedRuntimeDevice::resolve(profile, report)
        .unwrap_err()
        .message()
}

#[test]
fn resolution_failures_are_described() {
    let mut profile = koa3_profile();
    profile.schema_version = 9;
    assert_eq!(
        resolution(&profile, &koa3_report()),
        "invalid profile: [\"unsupported profile schema version 9\"]"
    );
    let mut report = koa3_report();
    report.schema_version = 9;
    assert_eq!(
        resolution(&koa3_profile(), &report),
        "invalid report: [\"unsupported probe schema version 9\"]"
    );
    let mut report = koa3_report();
    report.inputs.clear();
    assert_eq!(
        resolution(&koa3_profile(), &report),
        "profile did not match report: ProfileEvaluation { status: MissingCapabilities, \
         missing: [\"input.abs_mt_position_x_y\"], mismatches: [] }"
    );
    let mut report = koa3_report();
    report.framebuffers[0].driver_id = "other".to_owned();
    assert_eq!(
        resolution(&koa3_profile(), &report),
        "reviewed framebuffer was not found"
    );
    let mut report = koa3_report();
    report.framebuffers[0].device = "/dev/graphics".to_owned();
    assert_eq!(
        resolution(&koa3_profile(), &report),
        "selected framebuffer path is invalid"
    );
    let mut report = koa3_report();
    report.framebuffers[0].memory_length = 10;
    assert!(resolution(&koa3_profile(), &report)
        .starts_with("framebuffer layout is invalid: framebuffer memory length 10"));
    let mut profile = koa3_profile();
    profile.display.rotation = None;
    let mut report = koa3_report();
    report.framebuffers[0].rotation = 7;
    assert_eq!(
        resolution(&profile, &report),
        "framebuffer rotation is invalid: unsupported framebuffer rotation 7"
    );
    let mut report = koa3_report();
    report.inputs[0].name = None;
    assert_eq!(
        resolution(&koa3_profile(), &report),
        "reviewed touch device was not found"
    );
    let mut report = koa3_report();
    let duplicate = report.inputs[0].axes[1].clone();
    report.inputs[0].axes.push(duplicate);
    assert_eq!(
        resolution(&koa3_profile(), &report),
        "reviewed touch axis 53 appeared 2 times"
    );
    let mut report = koa3_report();
    report.inputs[0].axes[2].maximum = 0;
    assert_eq!(
        resolution(&koa3_profile(), &report),
        "touch axis 54 has invalid range 0..=0"
    );
    let mut profile = koa3_profile();
    if let Some(runtime) = profile.runtime.as_mut() {
        runtime.touch.rotation = QuarterTurn::Clockwise;
    }
    assert!(ResolvedRuntimeDevice::resolve(&profile, &koa3_report()).is_ok());
    let mut report = koa3_report();
    if let Some(abi) = report.system.executable_abi.as_mut() {
        abi.class = ElfClass::Elf64;
    }
    assert_eq!(
        resolution(&koa3_profile(), &report),
        "executable class Elf64 contradicts 32-bit input ABI"
    );
    assert_eq!(
        RuntimeResolutionError::InputOutputExtentMismatch.message(),
        "input transform output does not match visible display"
    );
}

#[test]
fn plan_failures_are_described() {
    assert_eq!(
        ActiveDisplayPlan::check_size(65_537).unwrap_err().message(),
        "active display plan is 65537 bytes; maximum is 65536"
    );
    assert_eq!(
        ActiveDisplayPlan::from_parsed(Err("bad".to_owned()))
            .unwrap_err()
            .message(),
        "invalid active display plan JSON: bad"
    );
    let mut changed = plan();
    changed.single_use = false;
    changed.plan_id = "other".to_owned();
    let error = ActiveDisplayPlan::from_parsed(Ok(changed)).unwrap_err();
    assert_eq!(
        error.message(),
        "invalid active display plan: [Mismatch { field: \"plan_id\", expected: \
         \"\\\"reference-portrait-display-mechanism-v1\\\"\", observed: \"\\\"other\\\"\" }, \
         Mismatch { field: \"single_use\", expected: \"true\", observed: \"false\" }]"
    );
    let mut report = koa3_report();
    report.schema_version = 4;
    report.system.kernel_release = None;
    report.framebuffers[0].grayscale = 0;
    let mut profile = koa3_profile();
    profile.schema_version = 5;
    profile.requirements.suspend_to_mem = true;
    for error in plan().validate_against(&profile, &report).unwrap_err() {
        assert_eq!(error.render(), format!("{error:?}"));
    }
}
