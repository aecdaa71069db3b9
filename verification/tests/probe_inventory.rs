use ferrink::collector::{
    collect, collect_framebuffers, framebuffer_devices, not_a_directory, parse_arguments, refusal,
    Arguments, FramebufferAnswer, FramebufferProbe, ParseResult, ReportParts, ScreenInfo,
};
use ferrink::elf::parse_elf_abi;
use ferrink::inputs::{
    advertised_input_axis_codes, axis_name, axis_request, check_inputs, collect_inputs, ioc,
    CapabilityFile, InputAttributes,
};
use ferrink::mounts::{collect_storage, filesystem_space, parse_proc_mounts};
use ferrink::power::{
    collect_power, deep_sleep_paths, hall_sensor_paths, legacy_battery_paths, LightFacts,
    NodeState, PowerFacts, RtcFacts, SupplyFacts,
};
use ferrink::probe::{
    ArmFloatAbi, ElfClass, Endianness, InputEventAbi, PixelBitfield, PixelLayout, ProbeWarning,
    SourcedValue, UserlandFloatAbi,
};
use ferrink::processes::{collect_processes, is_relevant_process, ProcessFiles};
use ferrink::services::{
    collect_services, describe_property, executable_candidates, lipc_properties, lipc_step,
    JobFile, LipcOutcome, LipcPoll, LipcStep, LIPC_POLLS,
};
use ferrink::system::{
    clean_file_text, collect_identity, collect_system, parse_cpuinfo, trimmed_file_value,
    SystemFacts,
};

fn field(length: u32) -> PixelBitfield {
    PixelBitfield {
        offset: 0,
        length,
        msb_right: 0,
    }
}

fn screen() -> ScreenInfo {
    ScreenInfo {
        id: "mxc_epdc_fb\0\0\0\0\0".to_owned(),
        visible_width: 1264,
        visible_height: 1680,
        virtual_width: 1280,
        virtual_height: 3584,
        x_offset: 0,
        y_offset: 0,
        line_length: 1280,
        memory_length: 4_587_520,
        bits_per_pixel: 8,
        grayscale: 1,
        rotation: 0,
        red: field(8),
        green: field(8),
        blue: field(8),
        transparency: field(0),
    }
}

fn facts() -> SystemFacts {
    SystemFacts {
        firmware: vec![SourcedValue {
            source: "/etc/prettyversion.txt".to_owned(),
            value: "Kindle 5.0\nsecond line".to_owned(),
        }],
        kernel_release: Some("4.1.15 token=1".to_owned()),
        machine: Some("armv7l".to_owned()),
        cpuinfo: Some("Hardware: Freescale i.MX\nSerial: 123\n".to_owned()),
        loaders: vec!["/lib/ld-linux-armhf.so.3".to_owned()],
        architecture: "arm".to_owned(),
        input_event_abi: InputEventAbi {
            pointer_width_bits: 32,
            libc_timeval_bytes: 8,
            libc_input_event_bytes: 16,
        },
        executable: Err("permission denied".to_owned()),
    }
}

fn texts(values: &[&str]) -> Vec<String> {
    values.iter().map(|value| (*value).to_owned()).collect()
}

#[test]
fn framebuffers_that_answer_are_described_and_the_others_warned_of() {
    assert_eq!(
        framebuffer_devices(&texts(&["fb", "fb0", "fb1", "fbx", "null", "fb2"])),
        texts(&["/dev/fb0", "/dev/fb1", "/dev/fb2"])
    );
    let mut warnings = Vec::new();
    let list = collect_framebuffers(
        &vec![
            FramebufferProbe {
                device: "/dev/fb0".to_owned(),
                answer: FramebufferAnswer::Unopened,
            },
            FramebufferProbe {
                device: "/dev/fb1".to_owned(),
                answer: FramebufferAnswer::Answered(screen()),
            },
            FramebufferProbe {
                device: "/dev/fb2".to_owned(),
                answer: FramebufferAnswer::Unanswered,
            },
        ],
        &mut warnings,
    );
    assert_eq!(list.len(), 1);
    assert_eq!(list[0].device, "/dev/fb1");
    assert_eq!(list[0].driver_id, "mxc_epdc_fb");
    assert_eq!(list[0].line_length, 1280);
    assert_eq!(list[0].pixel_layout, PixelLayout::Grayscale8);
    assert_eq!(
        warnings,
        vec![
            ProbeWarning {
                subsystem: "framebuffer".to_owned(),
                code: "open_failed".to_owned(),
                message: "could not open /dev/fb0 read-only".to_owned(),
            },
            ProbeWarning {
                subsystem: "framebuffer".to_owned(),
                code: "query_failed".to_owned(),
                message: "read-only framebuffer information ioctl failed for /dev/fb2".to_owned(),
            },
        ]
    );
}

#[test]
fn pixel_layouts_follow_depth_and_color_bits() {
    assert_eq!(screen().pixel_layout(), PixelLayout::Grayscale8);
    let packed = ScreenInfo {
        bits_per_pixel: 16,
        ..screen()
    };
    assert_eq!(packed.pixel_layout(), PixelLayout::PackedRgb);
    let colorless = ScreenInfo {
        bits_per_pixel: 8,
        grayscale: 0,
        red: field(0),
        green: field(0),
        blue: field(0),
        ..screen()
    };
    assert_eq!(colorless.pixel_layout(), PixelLayout::Grayscale8);
    let unknown = ScreenInfo {
        bits_per_pixel: 16,
        red: field(0),
        ..screen()
    };
    assert_eq!(unknown.pixel_layout(), PixelLayout::Unknown);
}

#[test]
fn elf_headers_are_read_in_their_own_byte_order() {
    let mut header = [0u8; 64];
    header[..4].copy_from_slice(b"\x7fELF");
    header[4] = 2;
    header[5] = 2;
    header[18..20].copy_from_slice(&62u16.to_be_bytes());
    header[48..52].copy_from_slice(&7u32.to_be_bytes());
    let abi = parse_elf_abi(&header).unwrap();
    assert_eq!(abi.class, ElfClass::Elf64);
    assert_eq!(abi.endianness, Endianness::Big);
    assert_eq!(abi.machine, 62);
    assert_eq!(abi.flags, 7);
    assert_eq!(abi.arm_eabi_version, None);
    assert_eq!(abi.arm_float_abi, None);

    let mut header = [0u8; 52];
    header[..4].copy_from_slice(b"\x7fELF");
    header[4] = 1;
    header[5] = 1;
    header[18..20].copy_from_slice(&40u16.to_le_bytes());
    header[36..40].copy_from_slice(&0x0500_0200u32.to_le_bytes());
    assert_eq!(
        parse_elf_abi(&header).unwrap().arm_float_abi,
        Some(ArmFloatAbi::Soft)
    );
    assert!(parse_elf_abi(&header[..39]).is_none());
    header[4] = 3;
    assert!(parse_elf_abi(&header).is_none());
}

#[test]
fn file_texts_lose_null_bytes_and_surrounding_space() {
    assert_eq!(clean_file_text("\0model\0 name\0\0"), "model\0 name");
    assert_eq!(trimmed_file_value(" value \n"), Some("value".to_owned()));
    assert_eq!(trimmed_file_value("\0 \n"), None);
}

#[test]
fn system_facts_are_redacted_and_a_missing_header_is_warned_of() {
    let mut warnings = Vec::new();
    let system = collect_system(&facts(), &mut warnings);
    assert_eq!(system.firmware.len(), 1);
    assert_eq!(system.firmware[0].value, "Kindle 5.0");
    assert_eq!(system.kernel_release.as_deref(), Some("4.1.15 <redacted>"));
    assert_eq!(system.machine.as_deref(), Some("armv7l"));
    assert_eq!(system.userland_float_abi, UserlandFloatAbi::Hard);
    assert!(system.cpu_fields.contains_key("hardware"));
    assert!(!system.cpu_fields.contains_key("serial"));
    assert!(system.executable_abi.is_none());
    assert_eq!(warnings.len(), 1);
    assert_eq!(warnings[0].subsystem, "system");
    assert_eq!(warnings[0].code, "elf_unavailable");
    assert_eq!(
        warnings[0].message,
        "could not inspect the probe executable ELF header: permission denied"
    );
}

#[test]
fn identities_keep_only_the_model_prefix() {
    let mut warnings = Vec::new();
    let system = collect_system(&facts(), &mut Vec::new());
    let identity = collect_identity(
        &Some(SourcedValue {
            source: "/proc/usid".to_owned(),
            value: "G000AA0123456789".to_owned(),
        }),
        &None,
        &system,
        &mut warnings,
    );
    assert_eq!(identity.serial_prefix.as_deref(), Some("0AA"));
    assert_eq!(identity.serial_redacted.as_deref(), Some("G000AA…REDACTED"));
    assert_eq!(identity.serial_source.as_deref(), Some("/proc/usid"));
    assert_eq!(identity.model_hint.as_deref(), Some("Freescale i.MX"));
    assert!(warnings.is_empty());

    let identity = collect_identity(
        &Some(SourcedValue {
            source: "/proc/serial".to_owned(),
            value: "??".to_owned(),
        }),
        &Some("Board".to_owned()),
        &system,
        &mut warnings,
    );
    assert_eq!(identity.serial_prefix, None);
    assert_eq!(identity.serial_source.as_deref(), Some("/proc/serial"));
    assert_eq!(identity.model_hint.as_deref(), Some("Board"));
    assert_eq!(warnings[0].code, "serial_malformed");

    let identity = collect_identity(&None, &None, &system, &mut warnings);
    assert_eq!(identity.serial_source, None);
    assert_eq!(warnings[1].code, "serial_unavailable");
}

#[test]
fn repeated_processor_values_are_listed_once() {
    let fields = parse_cpuinfo("Processor: A\nprocessor : A\nPROCESSOR: B\nnothing\nFeatures:\n");
    assert_eq!(
        fields.into_entries(),
        vec![
            ("features".to_owned(), Vec::new()),
            ("processor".to_owned(), texts(&["A", "B"])),
        ]
    );
}

fn attributes(event: &str) -> InputAttributes {
    InputAttributes {
        event: event.to_owned(),
        name: Some("cyttsp5_mt".to_owned()),
        bus: Some("0x18".to_owned()),
        vendor: Some("0001".to_owned()),
        product: None,
        version: Some("zz".to_owned()),
        capabilities: vec![
            CapabilityFile {
                name: "abs".to_owned(),
                value: "3  0".to_owned(),
            },
            CapabilityFile {
                name: "uevent".to_owned(),
                value: "PRODUCT=18".to_owned(),
            },
        ],
    }
}

#[test]
fn input_devices_come_from_attribute_files_or_else_from_the_device_list() {
    let listed = Some(
        "N: Name=\"listed\"\nI: Bus=0018 Vendor=1 Product=2 Version=3\n\
         H: Handlers=kbd event7\nB: ABS=1\n\nN: Name=\"silent\"\n"
            .to_owned(),
    );
    let devices = collect_inputs(&vec![attributes("mice"), attributes("event3")], &listed);
    assert_eq!(devices.len(), 1);
    assert_eq!(devices[0].device, "/dev/input/event3");
    assert_eq!(devices[0].id.bus, Some(0x18));
    assert_eq!(devices[0].id.vendor, Some(1));
    assert_eq!(devices[0].id.product, None);
    assert_eq!(devices[0].id.version, None);
    assert_eq!(
        devices[0].capabilities.get("abs").map(String::as_str),
        Some("3 0")
    );
    assert!(!devices[0].capabilities.contains_key("uevent"));

    let devices = collect_inputs(&vec![attributes("mice")], &listed);
    assert_eq!(devices.len(), 1);
    assert_eq!(devices[0].device, "/dev/input/event7");
    assert_eq!(devices[0].name.as_deref(), Some("listed"));
    assert_eq!(devices[0].id.version, Some(3));

    let mut warnings = Vec::new();
    assert_eq!(advertised_input_axis_codes(&devices[0].capabilities), vec![0]);
    check_inputs(&devices, &mut warnings);
    assert_eq!(warnings.len(), 1);
    assert_eq!(warnings[0].code, "axis_ranges_incomplete");
    assert!(collect_inputs(&Vec::new(), &None).is_empty());
}

#[test]
fn axis_requests_carry_number_and_size() {
    assert_eq!(axis_request(0), 0x8018_4540);
    assert_eq!(axis_request(0x35), 0x8018_4575);
    assert_eq!(axis_request(0x1c0), 0x8018_4700);
    assert_eq!(ioc(1, 0x46, 0x20, 0x3fff), 0x7fff_4620);
    assert_eq!(ioc(7, 0x46, 0x320, 0x1_0002), 0xc002_4720);
    assert_eq!(axis_name(0x35).as_deref(), Some("abs_mt_position_x"));
    assert_eq!(axis_name(0x3a), None);
}

fn nodes(count: usize, existing: usize) -> Vec<NodeState> {
    (0..count)
        .map(|index| NodeState {
            exists: index == existing,
            readable: true,
            writable: false,
        })
        .collect()
}

#[test]
fn power_facts_are_put_together() {
    assert_eq!(legacy_battery_paths().len(), 5);
    assert_eq!(hall_sensor_paths().len(), 4);
    assert_eq!(deep_sleep_paths().len(), 2);
    let power = collect_power(&PowerFacts {
        rtcs: vec![
            RtcFacts {
                name: "rtc0".to_owned(),
                exists: true,
                readable: true,
                writable: false,
            },
            RtcFacts {
                name: "rtc1".to_owned(),
                exists: false,
                readable: true,
                writable: true,
            },
            RtcFacts {
                name: "rtc".to_owned(),
                exists: true,
                readable: true,
                writable: true,
            },
        ],
        state_exists: true,
        state: Some("standby mem".to_owned()),
        mem_sleep_exists: false,
        mem_sleep: Some("s2idle [deep]".to_owned()),
        supplies: vec![SupplyFacts {
            name: "battery".to_owned(),
            supply_type: Some("Battery".to_owned()),
            files: texts(&["capacity", "bad name", "status"]),
        }],
        lights: vec![LightFacts {
            name: "fl".to_owned(),
            max_brightness: Some("24".to_owned()),
            has_brightness: true,
            has_actual_brightness: false,
        }],
        battery_nodes: nodes(5, 1),
        hall_nodes: nodes(4, 3),
        sleep_nodes: nodes(2, 9),
    });
    assert_eq!(power.rtcs.len(), 2);
    assert_eq!(
        power.rtcs[0].wakealarm.as_deref(),
        Some("/sys/class/rtc/rtc0/wakealarm")
    );
    assert!(power.rtcs[0].wakealarm_readable);
    assert!(!power.rtcs[0].wakealarm_has_write_permission_bits);
    assert_eq!(power.rtcs[1].wakealarm, None);
    assert!(!power.rtcs[1].wakealarm_readable);
    assert_eq!(power.suspend.state_path.as_deref(), Some("/sys/power/state"));
    assert_eq!(power.suspend.states, texts(&["standby", "mem"]));
    assert_eq!(power.suspend.mem_sleep_path, None);
    assert_eq!(power.suspend.mem_sleep_modes, texts(&["s2idle", "deep"]));
    assert_eq!(power.power_supplies[0].properties, texts(&["capacity", "status"]));
    assert_eq!(power.front_lights[0].path, "/sys/class/backlight/fl");
    assert_eq!(power.front_lights[0].max_brightness, Some(24));
    assert_eq!(power.legacy_battery_nodes.len(), 1);
    assert_eq!(
        power.legacy_battery_nodes[0].path,
        "/sys/devices/platform/fsl-usb2-udc/charging"
    );
    assert_eq!(
        power.hall_sensor_nodes[0].path,
        "/sys/bus/platform/drivers/hall_sensor/rex_hall/hall_enable"
    );
    assert!(power.deep_sleep_nodes.is_empty());
}

#[test]
fn service_properties_tell_how_the_getter_ended() {
    assert_eq!(lipc_properties().len(), 17);
    let property = lipc_properties()[0];
    for (outcome, result) in [
        (LipcOutcome::GetterUnavailable, "getter_unavailable"),
        (LipcOutcome::SpawnError, "spawn_error"),
        (LipcOutcome::Succeeded, "ok"),
        (LipcOutcome::Exited { code: -3 }, "exit_-3"),
        (LipcOutcome::Signalled, "terminated_by_signal"),
        (LipcOutcome::WaitError, "wait_error"),
        (LipcOutcome::TimedOut, "timeout"),
    ] {
        let described = describe_property(property, outcome);
        assert_eq!(described.service, "com.lab126.powerd");
        assert_eq!(described.property, "battLevel");
        assert_eq!(described.result, result);
        assert_eq!(described.readable, result == "ok");
    }
    assert_eq!(LIPC_POLLS, 50);
    for (polls, step) in [
        (1, LipcStep::Sleep),
        (49, LipcStep::Sleep),
        (
            50,
            LipcStep::Finish {
                outcome: LipcOutcome::TimedOut,
            },
        ),
    ] {
        assert_eq!(lipc_step(polls, LipcPoll::Running), step);
    }
    for (poll, outcome) in [
        (LipcPoll::Succeeded, LipcOutcome::Succeeded),
        (LipcPoll::Error, LipcOutcome::WaitError),
    ] {
        assert_eq!(lipc_step(50, poll), LipcStep::Finish { outcome });
    }
    assert_eq!(
        lipc_step(1, LipcPoll::Failed { code: Some(4) }),
        LipcStep::Finish {
            outcome: LipcOutcome::Exited { code: 4 }
        }
    );
    assert_eq!(
        lipc_step(1, LipcPoll::Failed { code: None }),
        LipcStep::Finish {
            outcome: LipcOutcome::Signalled
        }
    );
    assert_eq!(
        executable_candidates("lipc-get-prop"),
        texts(&[
            "/usr/bin/lipc-get-prop",
            "/usr/sbin/lipc-get-prop",
            "/bin/lipc-get-prop",
            "/sbin/lipc-get-prop",
        ])
    );
}

#[test]
fn start_jobs_are_listed_once_by_name() {
    let services = collect_services(
        None,
        Vec::new(),
        &vec![
            JobFile {
                filename: "powerd.conf".to_owned(),
                contents: Some("start on started lab126\n  respawn\nexec powerd".to_owned()),
            },
            JobFile {
                filename: "framework.conf".to_owned(),
                contents: Some("task\nstop on token=1".to_owned()),
            },
            JobFile {
                filename: "powerd.conf".to_owned(),
                contents: Some("task".to_owned()),
            },
            JobFile {
                filename: "notes.txt".to_owned(),
                contents: Some("task".to_owned()),
            },
            JobFile {
                filename: "empty.conf".to_owned(),
                contents: None,
            },
        ],
        &texts(&["ok", "not ok"]),
    );
    let names: Vec<&str> = services
        .upstart_jobs
        .iter()
        .map(|job| job.name.as_str())
        .collect();
    assert_eq!(names, ["framework", "powerd"]);
    assert!(services.upstart_jobs[0].task);
    assert_eq!(services.upstart_jobs[0].stop_on, texts(&["<redacted>"]));
    assert!(services.upstart_jobs[1].respawn);
    assert!(!services.upstart_jobs[1].task);
    assert_eq!(services.upstart_jobs[1].start_on, texts(&["started lab126"]));
    assert_eq!(services.sysv_scripts, texts(&["ok"]));
}

#[test]
fn relevant_processes_are_listed_by_number() {
    assert!(is_relevant_process("PowerD"));
    assert!(!is_relevant_process("sh"));
    let list = collect_processes(&vec![
        ProcessFiles {
            pid: 20,
            status: "Name:\tpowerd\nState:\tS (sleeping)\nPPid:\t1\n".to_owned(),
            comm: None,
        },
        ProcessFiles {
            pid: 3,
            status: String::new(),
            comm: Some("init".to_owned()),
        },
        ProcessFiles {
            pid: 4,
            status: "Name:\tsh\n".to_owned(),
            comm: None,
        },
    ]);
    assert_eq!(list.len(), 2);
    assert_eq!(list[0].pid, 3);
    assert_eq!(list[0].name, "init");
    assert_eq!(list[0].parent_pid, None);
    assert_eq!(list[1].pid, 20);
    assert_eq!(list[1].parent_pid, Some(1));
    assert_eq!(list[1].state.as_deref(), Some("S (sleeping)"));
}

#[test]
fn processes_of_one_number_keep_their_order() {
    let named = |pid: u32, name: &str| ProcessFiles {
        pid,
        status: String::new(),
        comm: Some(name.to_owned()),
    };
    let list = collect_processes(&vec![
        named(9, "powerd"),
        named(2, "init"),
        named(9, "init"),
        named(2, "powerd"),
    ]);
    let found: Vec<(u32, &str)> = list
        .iter()
        .map(|process| (process.pid, process.name.as_str()))
        .collect();
    assert_eq!(
        found,
        [(2, "init"), (2, "powerd"), (9, "powerd"), (9, "init")]
    );
}

#[test]
fn storage_prefers_the_detailed_mount_list() {
    let mut warnings = Vec::new();
    let storage = collect_storage(
        &Some("25 24 8:2 / /mnt/us ro,noatime - vfat /dev/mmcblk0p2 ro\nbad line\n".to_owned()),
        &Some("/dev/root / ext3 rw 0 0\n".to_owned()),
        true,
        true,
        vec![filesystem_space("/", 0, 4096, 10, 3)],
        &mut warnings,
    );
    assert_eq!(storage.mounts.len(), 1);
    assert_eq!(storage.userstore.path, "/mnt/us");
    assert!(storage.userstore.exists && storage.userstore.mounted);
    assert_eq!(storage.userstore.read_only, Some(true));
    assert_eq!(storage.filesystems[0].total_bytes, 40_960);
    assert_eq!(storage.filesystems[0].available_bytes, 12_288);
    assert!(warnings.is_empty());

    let storage = collect_storage(
        &None,
        &Some("/dev/root / ext3 rw 0 0\n".to_owned()),
        false,
        false,
        Vec::new(),
        &mut warnings,
    );
    assert_eq!(storage.mounts.len(), 1);
    assert!(!storage.userstore.exists && !storage.userstore.mounted);
    assert_eq!(storage.userstore.read_only, None);

    let storage = collect_storage(&None, &None, false, true, Vec::new(), &mut warnings);
    assert!(storage.mounts.is_empty());
    assert_eq!(storage.userstore.path, "/mnt/base-us");
    assert_eq!(warnings[0].code, "mounts_unavailable");
    assert_eq!(
        filesystem_space("/", u64::MAX, 1, 2, 1).total_bytes,
        u64::MAX
    );
}

#[test]
fn mount_points_are_unescaped_and_types_cleaned() {
    let mounts = parse_proc_mounts(
        "src /mnt/a\\040b fuse.x!y ro,noatime 0 0\nshort line\nsrc /d/documents/x vfat rw 0 0\n",
    );
    assert_eq!(mounts.len(), 2);
    assert_eq!(mounts[0].mount_point, "/mnt/a b");
    assert_eq!(mounts[0].filesystem_type, "fuse.xy");
    assert!(mounts[0].read_only);
    assert_eq!(mounts[1].mount_point, "/d/documents/<redacted>");
    assert!(!mounts[1].read_only);
}

#[test]
fn reports_warn_of_missing_screens_and_inputs() {
    let mut warnings = Vec::new();
    let system = collect_system(&facts(), &mut Vec::new());
    let identity = collect_identity(&None, &None, &system, &mut Vec::new());
    let report = collect(ReportParts {
        probe_version: "0.0.1".to_owned(),
        captured_at_unix_seconds: 12,
        identity,
        system,
        framebuffers: Vec::new(),
        inputs: Vec::new(),
        power: collect_power(&PowerFacts {
            rtcs: Vec::new(),
            state_exists: false,
            state: None,
            mem_sleep_exists: false,
            mem_sleep: None,
            supplies: Vec::new(),
            lights: Vec::new(),
            battery_nodes: nodes(5, 9),
            hall_nodes: nodes(4, 9),
            sleep_nodes: nodes(2, 9),
        }),
        services: collect_services(None, Vec::new(), &Vec::new(), &Vec::new()),
        storage: collect_storage(&None, &None, false, false, Vec::new(), &mut warnings),
        processes: Vec::new(),
        warnings,
    });
    assert!(report.redaction.enabled);
    assert_eq!(report.redaction.excluded_categories.len(), 6);
    let codes: Vec<(&str, &str)> = report
        .warnings
        .iter()
        .map(|warning| (warning.subsystem.as_str(), warning.code.as_str()))
        .collect();
    assert_eq!(
        codes,
        [
            ("storage", "mounts_unavailable"),
            ("framebuffer", "not_found"),
            ("input", "not_found"),
        ]
    );
    assert_eq!(report.validate(), Ok(()));
}

#[test]
fn probe_arguments_are_read_in_order() {
    let some = |values: &[&str]| -> Vec<Option<String>> {
        values.iter().map(|value| Some((*value).to_owned())).collect()
    };
    assert!(matches!(
        parse_arguments(&some(&["--output", "a", "--root", "b", "--root", "c", "--compact"])),
        Ok(ParseResult::Run(Arguments {
            output: Some(1),
            root: Some(5),
            pretty: false,
        }))
    ));
    assert!(matches!(
        parse_arguments(&some(&["--compact", "--help"])),
        Ok(ParseResult::Help)
    ));
    assert_eq!(
        parse_arguments(&some(&["--output", "a", "--output", "b"])).unwrap_err(),
        "--output may be supplied only once"
    );
    assert_eq!(
        parse_arguments(&some(&["--output"])).unwrap_err(),
        "--output requires a path"
    );
    assert_eq!(
        parse_arguments(&some(&["--root"])).unwrap_err(),
        "--root requires a path"
    );
    assert_eq!(
        parse_arguments(&vec![None]).unwrap_err(),
        "arguments must be valid Unicode"
    );
    assert_eq!(not_a_directory("/x"), "probe root is not a directory: /x");
    assert_eq!(
        refusal(&texts(&["one", "two"])),
        "refusing to write invalid report: one; two"
    );
}
