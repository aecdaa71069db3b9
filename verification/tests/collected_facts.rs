use ferrink::inputs::{input_axis_codes, parse_proc_input_devices};
use ferrink::mounts::parse_mountinfo;
use ferrink::probe::UserlandFloatAbi;
use ferrink::processes::process_status_field;
use ferrink::system::{infer_userland_float_abi, parse_cpuinfo};

#[test]
fn dynamic_loader_inventory_distinguishes_arm_float_abis() {
    let hard = vec!["/lib/ld-linux-armhf.so.3".to_owned()];
    let soft = vec!["/lib/ld-linux.so.3".to_owned()];
    let mixed = vec![hard[0].clone(), soft[0].clone()];

    assert_eq!(
        infer_userland_float_abi(&Some("armv7l".to_owned()), "arm", &hard),
        UserlandFloatAbi::Hard
    );
    assert_eq!(
        infer_userland_float_abi(&Some("armv7l".to_owned()), "arm", &soft),
        UserlandFloatAbi::Soft
    );
    assert_eq!(
        infer_userland_float_abi(&Some("armv7l".to_owned()), "arm", &mixed),
        UserlandFloatAbi::Mixed
    );
    assert_eq!(
        infer_userland_float_abi(&Some("x86_64".to_owned()), "x86_64", &hard),
        UserlandFloatAbi::NotApplicable
    );
}

#[test]
fn input_axis_codes_decode_32_bit_kernel_words_most_significant_first() {
    assert_eq!(input_axis_codes("6608000 0", 32), vec![47, 53, 54, 57, 58]);
    assert_eq!(input_axis_codes("100 0", 32), vec![40]);
}

#[test]
fn input_axis_codes_reject_invalid_word_widths_and_words() {
    assert!(input_axis_codes("1", 0).is_empty());
    assert!(input_axis_codes("1", 65).is_empty());
    assert!(input_axis_codes("not-hex", 32).is_empty());
}

#[test]
fn cpuinfo_allowlist_excludes_serial() {
    let fields = parse_cpuinfo(
        "Processor: ARMv7 Processor rev 10\nHardware: Freescale i.MX\nSerial: 123456789\n",
    );
    assert!(fields.contains_key("processor"));
    assert!(!fields.contains_key("serial"));
}

#[test]
fn mount_parser_omits_sources_and_redacts_document_paths() {
    let mounts = parse_mountinfo(
        "24 1 8:1 / / rw - ext3 /dev/mmcblk0p1 rw\n\
         25 24 8:2 / /mnt/us/documents/private rw - vfat /dev/mmcblk0p2 rw\n",
    );
    assert_eq!(mounts[0].mount_point, "/");
    assert_eq!(mounts[1].mount_point, "/mnt/us/documents/<redacted>");
}

#[test]
fn proc_input_parser_ignores_phys_and_unique_identifiers() {
    let fixture = "I: Bus=0018 Vendor=0000 Product=0000 Version=0000\n\
                   N: Name=\"cyttsp\"\n\
                   P: Phys=secret/path\n\
                   U: Uniq=full-identifier\n\
                   H: Handlers=event1\n\
                   B: ABS=2608000 0\n\n";
    let devices = parse_proc_input_devices(fixture);
    assert_eq!(devices.len(), 1);
    assert_eq!(devices[0].device, "/dev/input/event1");
    assert_eq!(devices[0].name.as_deref(), Some("cyttsp"));
    assert_eq!(
        devices[0].capabilities.get("abs").map(String::as_str),
        Some("2608000 0")
    );
}

#[test]
fn process_status_fields_support_kernels_without_proc_comm() {
    let status = "Name:\tpowerd\nState:\tS (sleeping)\nPPid:\t1\n";

    assert_eq!(process_status_field(status, "Name:").as_deref(), Some("powerd"));
    assert_eq!(process_status_field(status, "State:").as_deref(), Some("S (sleeping)"));
    assert_eq!(process_status_field(status, "PPid:").as_deref(), Some("1"));
    assert_eq!(process_status_field(status, "Uid:"), None);
}
